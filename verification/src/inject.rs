//! The content injector: it appends a fixed payload to the body of every
//! response that is eligible, and raises the declared length to match.

use crate::body::{data_in, lemma_data_split, lemma_data_without, pulse_of, Pulse};
use crate::chunk::{bytes_content, data_frame, remaining};
use crate::headers::{
    declared_length, encoded, has_room, header_entries, is_encoded, lemma_names_stored,
    lemma_with_length_declares, read_declared_length, store_value, value_of_length, with_length,
    CONTENT_LENGTH,
};
use crate::message::{Progress, Response};
use crate::predicate::Predicate;
use bytes::Bytes;
use http_body::Frame;
use vstd::prelude::*;

verus! {

/// The bytes that an optional buffer holds.
pub open spec fn carried(buffer: Option<Bytes>) -> Option<Seq<u8>> {
    match buffer {
        Some(data) => Some(bytes_content(data)),
        None => None,
    }
}

/// What the injector does to a response.
#[derive(Debug, Clone, Copy, PartialEq, Eq)]
pub enum Rewrite {
    /// The response is passed on as it came.
    Leave,
    /// The payload follows the body; the headers declare no length and stay.
    Append,
    /// The payload follows the body, and the headers declare this length.
    Declare(usize),
}

/// The rewrite that a response gets.
///
/// `armed` says that the request was chosen for injection, `is_encoded` that
/// the response names a content encoding, `verdict` what the response
/// predicate answered, `declared` the length that the headers declare. A
/// response is left alone unless it is armed, not encoded and accepted; and
/// also where its declared length cannot be raised by the payload's length
/// within a `usize`.
pub open spec fn rewrite_for(
    armed: bool,
    is_encoded: bool,
    verdict: bool,
    declared: Option<usize>,
    payload_len: nat,
) -> Rewrite {
    if !armed || is_encoded || !verdict {
        Rewrite::Leave
    } else {
        match declared {
            None => Rewrite::Append,
            Some(length) => if length + payload_len <= usize::MAX {
                Rewrite::Declare((length + payload_len) as usize)
            } else {
                Rewrite::Leave
            },
        }
    }
}

/// Chooses the rewrite for a response from what is known of it.
pub fn choose_rewrite(
    armed: bool,
    is_encoded: bool,
    verdict: bool,
    declared: Option<usize>,
    payload_len: usize,
) -> (rewrite: Rewrite)
    ensures
        rewrite == rewrite_for(armed, is_encoded, verdict, declared, payload_len as nat),
{
    if !armed || is_encoded || !verdict {
        return Rewrite::Leave;
    }
    match declared {
        None => Rewrite::Append,
        Some(length) => match length.checked_add(payload_len) {
            Some(total) => Rewrite::Declare(total),
            None => Rewrite::Leave,
        },
    }
}

/// A handler wrapped by the injector, with the payload and the two
/// predicates that decide where it goes.
#[derive(Clone, Debug)]
pub struct InjectService<S, ReqPred, ResPred> {
    service: S,
    data: Bytes,
    req_predicate: ReqPred,
    res_predicate: ResPred,
}

impl<S, ReqPred, ResPred> InjectService<S, ReqPred, ResPred> {
    /// The wrapped handler.
    pub closed spec fn inner(&self) -> S {
        self.service
    }

    /// The bytes that are appended to eligible responses.
    pub closed spec fn payload(&self) -> Seq<u8> {
        bytes_content(self.data)
    }

    /// The predicate on requests.
    pub closed spec fn request_rule(&self) -> ReqPred {
        self.req_predicate
    }

    /// The predicate on responses.
    pub closed spec fn response_rule(&self) -> ResPred {
        self.res_predicate
    }

    /// The injector around `service`, which appends `data` to the responses
    /// that both predicates let through.
    pub fn new(service: S, data: Bytes, req_predicate: ReqPred, res_predicate: ResPred) -> (injector:
        Self)
        ensures
            injector.inner() == service,
            injector.payload() == bytes_content(data),
            injector.request_rule() == req_predicate,
            injector.response_rule() == res_predicate,
    {
        Self { service, data, req_predicate, res_predicate }
    }

    /// The wrapped handler, to look at.
    pub fn service_ref(&self) -> (service: &S)
        ensures
            *service == self.inner(),
    {
        &self.service
    }

    /// The wrapped handler, to ask it whether it is ready and to hand it the
    /// request.
    pub fn service_mut(&mut self) -> (service: &mut S)
        ensures
            *service == old(self).inner(),
            final(self).inner() == *final(service),
            final(self).payload() == old(self).payload(),
            final(self).request_rule() == old(self).request_rule(),
            final(self).response_rule() == old(self).response_rule(),
    {
        &mut self.service
    }

    /// Takes up a request: asks the request predicate, and returns the state
    /// that will rewrite the handler's response. That state holds the payload
    /// exactly where the predicate accepted the request.
    pub fn call<Req>(&mut self, request: &Req) -> (future: InjectResponseFuture<ResPred>) where
        ReqPred: Predicate<Req>,
        ResPred: Copy,

        requires
            old(self).request_rule().applies(request),
        ensures
            *final(self) == *old(self),
            future.predicate() == old(self).response_rule(),
            match future.armed() {
                Some(payload) => payload == old(self).payload() && old(
                    self,
                ).request_rule().may_answer(request, true),
                None => old(self).request_rule().may_answer(request, false),
            },
    {
        let should_inject: bool = self.req_predicate.check(request);
        let data: Option<Bytes> = if should_inject {
            Some(self.data.clone())
        } else {
            None
        };
        InjectResponseFuture { data, predicate: self.res_predicate }
    }
}

/// The injector between a request and its response: it holds the payload, if
/// the request was chosen, and the response predicate.
#[derive(Debug)]
pub struct InjectResponseFuture<Pred> {
    data: Option<Bytes>,
    predicate: Pred,
}

impl<Pred> InjectResponseFuture<Pred> {
    /// The payload that is still held, if any.
    pub closed spec fn armed(&self) -> Option<Seq<u8>> {
        carried(self.data)
    }

    /// The predicate on responses.
    pub closed spec fn predicate(&self) -> Pred {
        self.predicate
    }

    /// The state for one response, holding `data` where the request was
    /// chosen for injection.
    pub fn new(data: Option<Bytes>, predicate: Pred) -> (future: Self)
        ensures
            future.predicate() == predicate,
            future.armed() == carried(data),
    {
        Self { data, predicate }
    }

    /// Whether the predicate is asked about `response`: only where a payload
    /// is held and the response names no content encoding.
    pub open spec fn consults<B>(&self, response: &Response<B>) -> bool {
        self.armed() is Some && !encoded(header_entries(response.headers))
    }

    /// The rewrite that `response` gets where the predicate answers
    /// `verdict`.
    pub open spec fn rewrite<B>(&self, response: &Response<B>, verdict: bool) -> Rewrite {
        rewrite_for(
            self.armed() is Some,
            encoded(header_entries(response.headers)),
            verdict,
            declared_length(header_entries(response.headers)),
            match self.armed() {
                Some(payload) => payload.len(),
                None => 0,
            },
        )
    }

    /// `out` is `response` passed on as it came, and the state is unchanged.
    pub open spec fn left<B>(
        &self,
        response: Response<B>,
        out: Response<InjectBody<B>>,
        after: Self,
    ) -> bool {
        &&& after == *self
        &&& out.status == response.status
        &&& out.headers == response.headers
        &&& out.body.inner() == response.body
        &&& out.body.trail() is None
    }

    /// `out` is `response` without a payload, with headers that hold what they
    /// held, and the state is unchanged.
    pub open spec fn kept<B>(
        &self,
        response: Response<B>,
        out: Response<InjectBody<B>>,
        after: Self,
    ) -> bool {
        &&& after == *self
        &&& out.status == response.status
        &&& header_entries(out.headers) == header_entries(response.headers)
        &&& out.body.inner() == response.body
        &&& out.body.trail() is None
    }

    /// `out` is `response` with the payload behind its body and with the
    /// headers that `rewrite` asks for, and the state has given its payload
    /// away.
    pub open spec fn injected<B>(
        &self,
        response: Response<B>,
        rewrite: Rewrite,
        out: Response<InjectBody<B>>,
        after: Self,
    ) -> bool {
        &&& after.predicate() == self.predicate()
        &&& after.armed() is None
        &&& out.status == response.status
        &&& out.body.inner() == response.body
        &&& out.body.trail() == self.armed()
        &&& match rewrite {
            Rewrite::Declare(total) => header_entries(out.headers) == with_length(
                header_entries(response.headers),
                total,
            ),
            _ => out.headers == response.headers,
        }
    }

    /// What `poll` makes of `response` where the predicate answers `verdict`:
    /// the response rewritten as `rewrite` says. Only where a new length is
    /// to be declared in a header map without room may the map refuse it, and
    /// the response go on without the payload.
    pub open spec fn settles<B>(
        &self,
        response: Response<B>,
        verdict: bool,
        out: Response<InjectBody<B>>,
        after: Self,
    ) -> bool {
        match self.rewrite(&response, verdict) {
            Rewrite::Leave => self.left(response, out, after),
            Rewrite::Append => self.injected(response, Rewrite::Append, out, after),
            Rewrite::Declare(total) => self.injected(
                response,
                Rewrite::Declare(total),
                out,
                after,
            ) || (!has_room(header_entries(response.headers)) && self.kept(response, out, after)),
        }
    }

    /// What `poll` makes of a response: where the predicate is asked, what
    /// one of its possible answers settles; where it is not, the response as
    /// it came.
    pub open spec fn polled<B>(
        &self,
        response: Response<B>,
        out: Response<InjectBody<B>>,
        after: Self,
    ) -> bool where Pred: Predicate<Response<B>> {
        if self.consults(&response) {
            ||| (self.predicate().may_answer(&response, true) && self.settles(
                response,
                true,
                out,
                after,
            ))
            ||| (self.predicate().may_answer(&response, false) && self.settles(
                response,
                false,
                out,
                after,
            ))
        } else {
            self.left(response, out, after)
        }
    }

    /// Takes what the wrapped handler has come to. While the handler is
    /// pending, so is the result, and a failure of the handler is passed on
    /// as it is. A response is rewritten as the rule of [`rewrite_for`] says;
    /// the predicate is asked only where the answer can matter.
    pub fn poll<B, E>(&mut self, inner: Progress<Result<Response<B>, E>>) -> (out: Progress<
        Result<Response<InjectBody<B>>, E>,
    >) where Pred: Predicate<Response<B>>
        requires
            inner matches Progress::Ready(Ok(response)) ==> (old(self).consults(&response) ==> old(
                self,
            ).predicate().applies(&response)),
        ensures
            match inner {
                Progress::Pending => out is Pending && *final(self) == *old(self),
                Progress::Ready(Err(error)) => out == Progress::<
                    Result<Response<InjectBody<B>>, E>,
                >::Ready(Err(error)) && *final(self) == *old(self),
                Progress::Ready(Ok(response)) => out matches Progress::Ready(Ok(rewritten)) && old(
                    self,
                ).polled(response, rewritten, *final(self)),
            },
    {
        let response: Response<B> = match inner {
            Progress::Pending => {
                return Progress::Pending;
            },
            Progress::Ready(Err(error)) => {
                return Progress::Ready(Err(error));
            },
            Progress::Ready(Ok(response)) => response,
        };
        let armed: Option<usize> = match &self.data {
            Some(data) => Some(remaining(data)),
            None => None,
        };
        let rewrite: Rewrite = match armed {
            None => Rewrite::Leave,
            Some(payload_len) => {
                if is_encoded(&response.headers) {
                    Rewrite::Leave
                } else if !self.predicate.check(&response) {
                    Rewrite::Leave
                } else {
                    let declared: Option<usize> = read_declared_length(&response.headers);
                    choose_rewrite(true, false, true, declared, payload_len)
                }
            },
        };
        let Response { status, mut headers, body } = response;
        let stored: bool = match rewrite {
            Rewrite::Leave => false,
            Rewrite::Append => true,
            Rewrite::Declare(total) => {
                proof {
                    lemma_names_stored();
                }
                store_value(&mut headers, CONTENT_LENGTH, value_of_length(total))
            },
        };
        let inject: Option<Bytes> = if stored {
            self.data.take()
        } else {
            None
        };
        Progress::Ready(Ok(Response { status, headers, body: InjectBody { body, inject } }))
    }
}

/// What the wrapped body gives out when the handler's body gives `inner`:
/// the same, until that body is over; then the trail, if one is left.
pub open spec fn emits(trail: Option<Seq<u8>>, inner: Pulse) -> Pulse {
    match inner {
        Pulse::End => match trail {
            Some(data) => Pulse::Data(data),
            None => Pulse::End,
        },
        other => other,
    }
}

/// The trail that is left after the handler's body gave `inner`.
pub open spec fn trail_after(trail: Option<Seq<u8>>, inner: Pulse) -> Option<Seq<u8>> {
    match inner {
        Pulse::End => None,
        _ => trail,
    }
}

/// What the wrapped body gives out, poll by poll, when the handler's body
/// gives `inner`.
pub open spec fn run(trail: Option<Seq<u8>>, inner: Seq<Pulse>) -> Seq<Pulse>
    decreases inner.len(),
{
    if inner.len() == 0 {
        Seq::empty()
    } else {
        seq![emits(trail, inner[0])] + run(trail_after(trail, inner[0]), inner.drop_first())
    }
}

/// Whether the body behind `pulses` has not ended.
pub open spec fn unended(pulses: Seq<Pulse>) -> bool {
    forall|i: int| 0 <= i < pulses.len() ==> !(#[trigger] pulses[i] is End)
}

/// Until the handler's body ends, the wrapped body gives out what that body
/// gives, poll for poll: nothing is put between its frames.
pub proof fn lemma_run_until_end(trail: Option<Seq<u8>>, inner: Seq<Pulse>)
    requires
        unended(inner),
    ensures
        run(trail, inner) == inner,
    decreases inner.len(),
{
    if inner.len() > 0 {
        assert(!(inner[0] is End));
        let rest = inner.drop_first();
        assert forall|i: int| 0 <= i < rest.len() implies !(#[trigger] rest[i] is End) by {
            assert(rest[i] == inner[i + 1]);
        }
        lemma_run_until_end(trail, rest);
        assert(seq![inner[0]] + rest =~= inner);
    } else {
        assert(run(trail, inner) =~= inner);
    }
}

/// A run over `first` followed by `second` is the run over `first` followed
/// by the run over `second`, which starts with no trail once `first` holds an
/// end.
pub proof fn lemma_run_split(trail: Option<Seq<u8>>, first: Seq<Pulse>, second: Seq<Pulse>)
    ensures
        run(trail, first + second) == run(trail, first) + run(
            if unended(first) {
                trail
            } else {
                None
            },
            second,
        ),
    decreases first.len(),
{
    if first.len() == 0 {
        assert(first + second =~= second);
        assert(run(trail, first) + run(trail, second) =~= run(trail, second));
    } else {
        let rest = first.drop_first();
        let next = trail_after(trail, first[0]);
        assert((first + second).drop_first() =~= rest + second);
        assert((first + second)[0] == first[0]);
        lemma_run_split(next, rest, second);
        let later = if unended(rest) {
            next
        } else {
            None
        };
        let whole = if unended(first) {
            trail
        } else {
            None
        };
        assert(later == whole) by {
            if first[0] is End {
                assert(!unended(first));
            } else if unended(rest) {
                assert forall|i: int| 0 <= i < first.len() implies !(#[trigger] first[i] is End) by {
                    if i > 0 {
                        assert(rest[i - 1] == first[i]);
                    }
                }
            } else {
                let i = choose|i: int| 0 <= i < rest.len() && (#[trigger] rest[i] is End);
                assert(first[i + 1] == rest[i]);
            }
        }
        assert(run(trail, first + second) =~= run(trail, first) + run(whole, second));
    }
}

/// A body that carries no trail gives out what the handler's body gives,
/// poll for poll, to the end and after it.
pub proof fn lemma_run_without_trail(inner: Seq<Pulse>)
    ensures
        run(None, inner) == inner,
    decreases inner.len(),
{
    if inner.len() > 0 {
        lemma_run_without_trail(inner.drop_first());
        assert(seq![inner[0]] + inner.drop_first() =~= inner);
    } else {
        assert(run(None, inner) =~= inner);
    }
}

/// A body that carries a trail gives out the frames of the handler's body,
/// then, when that body ends, one frame with the trail, and after that only
/// the end. Its data is the handler's data followed by the trail.
pub proof fn lemma_run_with_trail(trail: Seq<u8>, inner: Seq<Pulse>, polls_after: nat)
    requires
        unended(inner),
    ensures
        run(Some(trail), inner + Seq::new(1 + polls_after, |i: int| Pulse::End)) == inner + seq![
            Pulse::Data(trail),
        ] + Seq::new(polls_after, |i: int| Pulse::End),
        data_in(run(Some(trail), inner + Seq::new(1 + polls_after, |i: int| Pulse::End)))
            == data_in(inner) + trail,
{
    let ends = Seq::new(1 + polls_after, |i: int| Pulse::End);
    let later = Seq::new(polls_after, |i: int| Pulse::End);
    lemma_run_split(Some(trail), inner, ends);
    lemma_run_until_end(Some(trail), inner);
    assert(ends.drop_first() =~= later);
    lemma_run_without_trail(later);
    assert(run(Some(trail), ends) =~= seq![Pulse::Data(trail)] + later);
    let out = inner + seq![Pulse::Data(trail)] + later;
    assert(run(Some(trail), inner + ends) =~= out);
    lemma_data_split(inner + seq![Pulse::Data(trail)], later);
    lemma_data_split(inner, seq![Pulse::Data(trail)]);
    lemma_data_without(later);
    let one = seq![Pulse::Data(trail)];
    assert(data_in(one) =~= trail) by {
        assert(one.drop_first() =~= Seq::<Pulse>::empty());
        assert(data_in(one.drop_first()) =~= Seq::<u8>::empty());
    }
    assert(data_in(out) =~= data_in(inner) + trail);
}

/// A response to a request that was not chosen, or that the predicate
/// cannot accept, or that names a content encoding, comes out of `poll` as it
/// went in: the same status and headers, and a body that gives out what the
/// handler's body gives, poll for poll.
pub proof fn lemma_ineligible_untouched<Pred: Predicate<Response<B>>, B>(
    before: InjectResponseFuture<Pred>,
    response: Response<B>,
    out: Response<InjectBody<B>>,
    after: InjectResponseFuture<Pred>,
    inner: Seq<Pulse>,
)
    requires
        before.polled(response, out, after),
        before.armed() is None || encoded(header_entries(response.headers))
            || !before.predicate().may_answer(&response, true),
    ensures
        out.status == response.status,
        out.headers == response.headers,
        out.body.inner() == response.body,
        run(out.body.trail(), inner) == inner,
        after == before,
{
    lemma_run_without_trail(inner);
}

/// An eligible response that declares the length `L` of its body, in headers
/// with room, comes out of `poll` with one declared length, `L` plus the
/// length of the payload, and all its other headers as they were; and where
/// the handler's body gives out `L` bytes, the body that comes out gives out
/// those and the payload after them.
pub proof fn lemma_eligible_lengthened<Pred: Predicate<Response<B>>, B>(
    before: InjectResponseFuture<Pred>,
    response: Response<B>,
    out: Response<InjectBody<B>>,
    after: InjectResponseFuture<Pred>,
    inner: Seq<Pulse>,
    length: usize,
    payload: Seq<u8>,
)
    requires
        before.polled(response, out, after),
        before.armed() == Some(payload),
        !encoded(header_entries(response.headers)),
        !before.predicate().may_answer(&response, false),
        declared_length(header_entries(response.headers)) == Some(length),
        length + payload.len() <= usize::MAX,
        has_room(header_entries(response.headers)),
        unended(inner),
        data_in(inner).len() == length,
    ensures
        out.status == response.status,
        out.body.inner() == response.body,
        out.body.trail() == Some(payload),
        header_entries(out.headers) == with_length(
            header_entries(response.headers),
            (length + payload.len()) as usize,
        ),
        declared_length(header_entries(out.headers)) == Some((length + payload.len()) as usize),
        data_in(run(out.body.trail(), inner.push(Pulse::End))) == data_in(inner) + payload,
        data_in(run(out.body.trail(), inner.push(Pulse::End))).len() == length + payload.len(),
{
    let total = (length + payload.len()) as usize;
    lemma_with_length_declares(header_entries(response.headers), total);
    lemma_run_with_trail(payload, inner, 0);
    assert(Seq::new(1, |i: int| Pulse::End) =~= seq![Pulse::End]);
    assert(inner + seq![Pulse::End] =~= inner.push(Pulse::End));
}

/// The payload follows the body exactly where the response is eligible: the
/// request was chosen, the response names no content encoding, and the
/// predicate accepts it. This holds of every response that declares no
/// length, and of every one whose declared length can be raised by the
/// payload's length within a `usize`, in headers with room.
pub proof fn lemma_payload_where_eligible<Pred: Predicate<Response<B>>, B>(
    before: InjectResponseFuture<Pred>,
    response: Response<B>,
    out: Response<InjectBody<B>>,
    after: InjectResponseFuture<Pred>,
)
    requires
        before.polled(response, out, after),
        match (declared_length(header_entries(response.headers)), before.armed()) {
            (Some(length), Some(payload)) => length + payload.len() <= usize::MAX && has_room(
                header_entries(response.headers),
            ),
            _ => true,
        },
    ensures
        out.body.trail() is Some ==> before.armed() is Some && !encoded(
            header_entries(response.headers),
        ) && before.predicate().may_answer(&response, true),
        before.armed() is Some && !encoded(header_entries(response.headers))
            && !before.predicate().may_answer(&response, false) ==> out.body.trail()
            == before.armed(),
        out.body.trail() is Some ==> out.body.trail() == before.armed(),
{
}

/// An eligible response that declares no length comes out of `poll` with
/// the headers it had, and with a body that gives out the handler's data and
/// the payload after it.
pub proof fn lemma_eligible_appended<Pred: Predicate<Response<B>>, B>(
    before: InjectResponseFuture<Pred>,
    response: Response<B>,
    out: Response<InjectBody<B>>,
    after: InjectResponseFuture<Pred>,
    inner: Seq<Pulse>,
    payload: Seq<u8>,
)
    requires
        before.polled(response, out, after),
        before.armed() == Some(payload),
        !encoded(header_entries(response.headers)),
        !before.predicate().may_answer(&response, false),
        declared_length(header_entries(response.headers)) is None,
        unended(inner),
    ensures
        out.status == response.status,
        out.headers == response.headers,
        out.body.inner() == response.body,
        out.body.trail() == Some(payload),
        data_in(run(out.body.trail(), inner.push(Pulse::End))) == data_in(inner) + payload,
{
    lemma_run_with_trail(payload, inner, 0);
    assert(Seq::new(1, |i: int| Pulse::End) =~= seq![Pulse::End]);
    assert(inner + seq![Pulse::End] =~= inner.push(Pulse::End));
}

/// A response body followed by at most one chunk that is still to come.
#[derive(Debug)]
pub struct InjectBody<B> {
    body: B,
    inject: Option<Bytes>,
}

impl<B> InjectBody<B> {
    /// The body that came from the handler.
    pub closed spec fn inner(&self) -> B {
        self.body
    }

    /// The bytes that are still to follow the body, if any.
    pub closed spec fn trail(&self) -> Option<Seq<u8>> {
        carried(self.inject)
    }

    /// `body` followed by `inject`.
    pub fn new(body: B, inject: Option<Bytes>) -> (wrapped: Self)
        ensures
            wrapped.inner() == body,
            wrapped.trail() == carried(inject),
    {
        Self { body, inject }
    }

    /// Takes what a poll of the handler's body came to, and returns what the
    /// wrapped body gives out for it: the same, until that body is over; then
    /// once a data frame with the chunk that was to follow; then the end.
    pub fn next_frame<E>(
        inject: &mut Option<Bytes>,
        inner: Progress<Option<Result<Frame<Bytes>, E>>>,
    ) -> (out: Progress<Option<Result<Frame<Bytes>, E>>>)
        ensures
            pulse_of(out) == emits(carried(*old(inject)), pulse_of(inner)),
            carried(*final(inject)) == trail_after(carried(*old(inject)), pulse_of(inner)),
            !(inner matches Progress::Ready(None)) ==> out == inner && *final(inject) == *old(
                inject,
            ),
            inner matches Progress::Ready(None) ==> *final(inject) == None::<Bytes>,
    {
        match inner {
            Progress::Ready(None) => match inject.take() {
                Some(trail) => Progress::Ready(Some(Ok(data_frame(trail)))),
                None => Progress::Ready(None),
            },
            other => other,
        }
    }

    /// [`InjectBody::next_frame`] on this body's own chunk.
    pub fn poll_frame<E>(&mut self, inner: Progress<Option<Result<Frame<Bytes>, E>>>) -> (out:
        Progress<Option<Result<Frame<Bytes>, E>>>)
        ensures
            pulse_of(out) == emits(old(self).trail(), pulse_of(inner)),
            final(self).trail() == trail_after(old(self).trail(), pulse_of(inner)),
            final(self).inner() == old(self).inner(),
            !(inner matches Progress::Ready(None)) ==> out == inner && *final(self) == *old(self),
    {
        Self::next_frame(&mut self.inject, inner)
    }

    /// Splits the wrapper into the handler's body and the chunk that is to
    /// follow it.
    pub fn into_parts(self) -> (parts: (B, Option<Bytes>))
        ensures
            parts.0 == self.inner(),
            carried(parts.1) == self.trail(),
    {
        (self.body, self.inject)
    }
}

} // verus!
