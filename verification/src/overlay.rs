//! The route overlay: it answers some requests itself, with a response that
//! a rule synthesizes from the request's parts, and hands all others to the
//! handler that it wraps.

use crate::message::{Progress, RequestParts, Response};
use std::convert::Infallible;
use std::fmt::{Debug, Display};
use std::marker::PhantomData;
use vstd::prelude::*;
use vstd::string::to_string_from_display_ensures;
use vstd::string::StringExecFns;

verus! {

/// A rule that answers some requests: from the parts of a request to no
/// match, or to the synthetic response, or to the failure to build it.
pub trait Alternative<B, E> {
    /// Whether the rule can be asked about `parts`.
    spec fn applies(&self, parts: &RequestParts) -> bool;

    /// Whether `answer` is an answer that the rule may give on `parts`.
    spec fn may_answer(&self, parts: &RequestParts, answer: Option<Result<Response<B>, E>>) -> bool;

    /// Answers the request with these parts, or returns `None`.
    fn respond(&self, parts: &RequestParts) -> (answer: Option<Result<Response<B>, E>>)
        requires
            self.applies(parts),
        ensures
            self.may_answer(parts, answer),
    ;
}

impl<B, E, F> Alternative<B, E> for F where F: Fn(&RequestParts) -> Option<Result<Response<B>, E>> {
    /// A function can be asked where it can be called.
    open spec fn applies(&self, parts: &RequestParts) -> bool {
        call_requires(*self, (parts,))
    }

    /// A function may answer what a call of it may return.
    open spec fn may_answer(&self, parts: &RequestParts, answer: Option<Result<Response<B>, E>>) -> bool {
        call_ensures(*self, (parts,), answer)
    }

    fn respond(&self, parts: &RequestParts) -> (answer: Option<Result<Response<B>, E>>) {
        (*self)(parts)
    }
}

/// A failure of the overlay, by where it came from.
#[derive(Debug, Clone)]
pub enum OverlayError<A, B> {
    /// The synthetic response could not be built.
    A(A),
    /// The wrapped handler, or its body, failed.
    B(B),
}

impl<A, B> OverlayError<A, B> {
    /// The failure as text: what the failure inside shows of itself, whichever
    /// side it came from.
    pub fn message(&self) -> (text: String) where A: Display, B: Display
        ensures
            match *self {
                OverlayError::A(a) => to_string_from_display_ensures(&a, text),
                OverlayError::B(b) => to_string_from_display_ensures(&b, text),
            },
    {
        match self {
            OverlayError::A(a) => a.to_string(),
            OverlayError::B(b) => b.to_string(),
        }
    }
}

impl<A, B> From<OverlayError<A, B>> for Infallible where A: Into<Infallible>, B: Into<Infallible> {
    /// A failure that neither side can have is no failure at all.
    fn from(value: OverlayError<A, B>) -> (never: Self) {
        match value {
            OverlayError::A(a) => a.into(),
            OverlayError::B(b) => b.into(),
        }
    }
}

impl<A, B> vstd::std_specs::convert::FromSpecImpl<OverlayError<A, B>> for Infallible where A: Into<Infallible>, B: Into<Infallible> {
    /// Nothing is claimed of the result: there is no value that it could be.
    open spec fn obeys_from_spec() -> bool {
        false
    }

    open spec fn from_spec(value: OverlayError<A, B>) -> Infallible {
        arbitrary()
    }
}

/// A body of the overlay, by where it came from.
#[derive(Debug)]
pub enum OverlayBody<A, B> {
    /// The body of a synthetic response.
    A { a: A },
    /// The body of the wrapped handler's response.
    B { b: B },
}

/// A synthetic answer as the overlay hands it on: the body and the error
/// marked as the rule's.
pub open spec fn synthetic<B, E, PB, PE>(answer: Result<Response<B>, E>) -> Result<
    Response<OverlayBody<B, PB>>,
    OverlayError<E, PE>,
> {
    match answer {
        Ok(response) => Ok(
            Response {
                status: response.status,
                headers: response.headers,
                body: OverlayBody::A { a: response.body },
            },
        ),
        Err(error) => Err(OverlayError::A(error)),
    }
}

/// The wrapped handler's answer as the overlay hands it on: the body and the
/// error marked as the handler's.
pub open spec fn passed<B, E, PB, PE>(answer: Result<Response<PB>, PE>) -> Result<
    Response<OverlayBody<B, PB>>,
    OverlayError<E, PE>,
> {
    match answer {
        Ok(response) => Ok(
            Response {
                status: response.status,
                headers: response.headers,
                body: OverlayBody::B { b: response.body },
            },
        ),
        Err(error) => Err(OverlayError::B(error)),
    }
}

/// What a poll of a body comes to once a failure is marked by `mark`.
pub open spec fn marked<F, E, M>(
    polled: Progress<Option<Result<F, E>>>,
    mark: spec_fn(E) -> M,
) -> Progress<Option<Result<F, M>>> {
    match polled {
        Progress::Pending => Progress::Pending,
        Progress::Ready(None) => Progress::Ready(None),
        Progress::Ready(Some(Ok(frame))) => Progress::Ready(Some(Ok(frame))),
        Progress::Ready(Some(Err(error))) => Progress::Ready(Some(Err(mark(error)))),
    }
}

impl<A, B> OverlayBody<A, B> {
    /// Hands on what a poll of a synthetic body came to, with a failure
    /// marked as the rule's.
    pub fn frame_a<F, EA, EB>(polled: Progress<Option<Result<F, EA>>>) -> (out: Progress<
        Option<Result<F, OverlayError<EA, EB>>>,
    >)
        ensures
            out == marked(polled, |error: EA| OverlayError::<EA, EB>::A(error)),
    {
        match polled {
            Progress::Pending => Progress::Pending,
            Progress::Ready(None) => Progress::Ready(None),
            Progress::Ready(Some(Ok(frame))) => Progress::Ready(Some(Ok(frame))),
            Progress::Ready(Some(Err(error))) => Progress::Ready(Some(Err(OverlayError::A(error)))),
        }
    }

    /// Hands on what a poll of the handler's body came to, with a failure
    /// marked as the handler's.
    pub fn frame_b<F, EA, EB>(polled: Progress<Option<Result<F, EB>>>) -> (out: Progress<
        Option<Result<F, OverlayError<EA, EB>>>,
    >)
        ensures
            out == marked(polled, |error: EB| OverlayError::<EA, EB>::B(error)),
    {
        match polled {
            Progress::Pending => Progress::Pending,
            Progress::Ready(None) => Progress::Ready(None),
            Progress::Ready(Some(Ok(frame))) => Progress::Ready(Some(Ok(frame))),
            Progress::Ready(Some(Err(error))) => Progress::Ready(Some(Err(OverlayError::B(error)))),
        }
    }
}

/// `format!` with `{:?}`: the value as its `Debug` impl shows it on one line.
/// What that text is rests with the impl.
#[verifier::external_body]
fn shown<T: Debug>(value: &T) -> String {
    format!("{:?}", value)
}

/// `format!` with `{:#?}`: the value as its `Debug` impl shows it over
/// several lines. What that text is rests with the impl.
#[verifier::external_body]
fn shown_pretty<T: Debug>(value: &T) -> String {
    format!("{:#?}", value)
}

/// An overlay in debug output, on one line, around the text `service` of the
/// wrapped handler. The rule is not shown.
pub open spec fn overlay_line(service: Seq<char>) -> Seq<char> {
    "OverlayService: { alternative: ..., service: "@ + service + " }"@
}

/// An overlay in debug output, over several lines, around the text `service`
/// of the wrapped handler. The rule is not shown.
pub open spec fn overlay_lines(service: Seq<char>) -> Seq<char> {
    "OverlayService: {\n    alternative: ...,\n    service: "@ + service + "\n}"@
}

/// A handler wrapped by the overlay, with the rule that answers in its place.
pub struct OverlayService<B, E, S, A> {
    alternative: A,
    service: S,
    answers: PhantomData<(B, E)>,
}

impl<B, E, S, A> OverlayService<B, E, S, A> {
    /// The wrapped handler.
    pub closed spec fn inner(&self) -> S {
        self.service
    }

    /// The rule that answers in the handler's place.
    pub closed spec fn alternative(&self) -> A {
        self.alternative
    }

    pub fn new(service: S, alternative_fn: A) -> (overlay: Self)
        ensures
            overlay.inner() == service,
            overlay.alternative() == alternative_fn,
    {
        Self { alternative: alternative_fn, service, answers: PhantomData }
    }

    /// The wrapped handler, to look at.
    pub fn service_ref(&self) -> (service: &S)
        ensures
            *service == self.inner(),
    {
        &self.service
    }

    /// The wrapped handler, to ask it whether it is ready and to hand it the
    /// requests that the rule does not answer.
    pub fn service_mut(&mut self) -> (service: &mut S)
        ensures
            *service == old(self).inner(),
            final(self).inner() == *final(service),
            final(self).alternative() == old(self).alternative(),
    {
        &mut self.service
    }

    /// The overlay as debug output shows it: on one line, or over several
    /// where `alternate` is set, in both forms around what the wrapped
    /// handler shows of itself.
    pub fn describe(&self, alternate: bool) -> (text: String) where S: Debug
        ensures
            alternate ==> exists|service: Seq<char>| text@ == #[trigger] overlay_lines(service),
            !alternate ==> exists|service: Seq<char>| text@ == #[trigger] overlay_line(service),
    {
        if alternate {
            let service: String = shown_pretty(&self.service);
            let mut text: String = String::from_str("OverlayService: {\n    alternative: ...,\n    service: ");
            text.append(service.as_str());
            text.append("\n}");
            assert(text@ == overlay_lines(service@));
            text
        } else {
            let service: String = shown(&self.service);
            let mut text: String = String::from_str("OverlayService: { alternative: ..., service: ");
            text.append(service.as_str());
            text.append(" }");
            assert(text@ == overlay_line(service@));
            text
        }
    }

    /// Takes up a request. Where the rule answers its parts, the result
    /// holds that answer and the request is dropped: the wrapped handler
    /// never sees it. Where the rule does not, the result holds the request,
    /// to be handed to the wrapped handler.
    pub fn call<Req>(&self, parts: &RequestParts, request: Req) -> (future: OverlayFuture<
        B,
        E,
        Req,
    >) where A: Alternative<B, E>
        requires
            self.alternative().applies(parts),
        ensures
            match future {
                OverlayFuture::Alternative { alternative } => alternative is Some
                    && self.alternative().may_answer(parts, alternative),
                OverlayFuture::Inner { inner } => inner == request
                    && self.alternative().may_answer(parts, None),
            },
            !self.alternative().may_answer(parts, None) ==> future is Alternative,
    {
        match self.alternative.respond(parts) {
            Some(result) => OverlayFuture::Alternative { alternative: Some(result) },
            None => OverlayFuture::Inner { inner: request },
        }
    }
}

impl<B, E, S: Clone, A: Clone> Clone for OverlayService<B, E, S, A> {
    fn clone(&self) -> Self {
        OverlayService {
            alternative: self.alternative.clone(),
            service: self.service.clone(),
            answers: PhantomData,
        }
    }
}

/// The overlay between a request and its response: either what goes to the
/// wrapped handler, or the synthetic answer until it has been given out.
#[derive(Debug)]
pub enum OverlayFuture<B, E, F> {
    Inner { inner: F },
    Alternative { alternative: Option<Result<Response<B>, E>> },
}

impl<B, E, F> OverlayFuture<B, E, F> {
    /// Hands on what the wrapped handler has come to, marked as the
    /// handler's.
    pub fn settle_inner<PB, PE>(inner: Progress<Result<Response<PB>, PE>>) -> (out: Progress<
        Result<Response<OverlayBody<B, PB>>, OverlayError<E, PE>>,
    >)
        ensures
            out == match inner {
                Progress::Pending => Progress::Pending,
                Progress::Ready(answer) => Progress::Ready(passed::<B, E, PB, PE>(answer)),
            },
    {
        match inner {
            Progress::Pending => Progress::Pending,
            Progress::Ready(Ok(response)) => {
                let Response { status, headers, body } = response;
                Progress::Ready(Ok(Response { status, headers, body: OverlayBody::B { b: body } }))
            },
            Progress::Ready(Err(error)) => Progress::Ready(Err(OverlayError::B(error))),
        }
    }

    /// Gives out the synthetic answer, marked as the rule's. This can be
    /// done once.
    pub fn settle_alternative<PB, PE>(alternative: &mut Option<Result<Response<B>, E>>) -> (out:
        Progress<Result<Response<OverlayBody<B, PB>>, OverlayError<E, PE>>>)
        requires
            *old(alternative) is Some,
        ensures
            out == Progress::Ready(synthetic::<B, E, PB, PE>(old(alternative)->0)),
            *final(alternative) is None,
    {
        match alternative.take() {
            Some(Ok(response)) => {
                let Response { status, headers, body } = response;
                Progress::Ready(Ok(Response { status, headers, body: OverlayBody::A { a: body } }))
            },
            Some(Err(error)) => Progress::Ready(Err(OverlayError::A(error))),
            None => Progress::Pending,
        }
    }

    /// Takes what the wrapped handler has come to, which counts only where
    /// the request went to it, and returns what the overlay has come to. A
    /// synthetic answer is ready at the first poll, whatever `inner` is; it
    /// cannot be asked for twice.
    pub fn poll<PB, PE>(&mut self, inner: Progress<Result<Response<PB>, PE>>) -> (out: Progress<
        Result<Response<OverlayBody<B, PB>>, OverlayError<E, PE>>,
    >)
        requires
            *old(self) matches OverlayFuture::Alternative { alternative } ==> alternative is Some,
        ensures
            match *old(self) {
                OverlayFuture::Inner { .. } => *final(self) == *old(self) && out == match inner {
                    Progress::Pending => Progress::Pending,
                    Progress::Ready(answer) => Progress::Ready(passed::<B, E, PB, PE>(answer)),
                },
                OverlayFuture::Alternative { alternative } => out == Progress::Ready(
                    synthetic::<B, E, PB, PE>(alternative->0),
                ) && *final(self) == (OverlayFuture::<B, E, F>::Alternative { alternative: None }),
            },
    {
        match self {
            OverlayFuture::Inner { .. } => Self::settle_inner(inner),
            OverlayFuture::Alternative { alternative } => Self::settle_alternative(alternative),
        }
    }
}

} // verus!
