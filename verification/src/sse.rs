//! The reload notification stream: the body of the event-stream response.
//! Each stream sends one `init` event at once, then waits for the reload
//! signal, sends one `reload` event when it fires, and ends. A stream whose
//! source is gone before the signal has fired ends without that event.

use crate::body::{pulse_of, Pulse};
use crate::chunk::{data_frame, from_owner, from_static};
use crate::decimal::{decimal, push_decimal};
use crate::interval::duration_millis;
use crate::message::Progress;
use crate::signal::{is_closed, open, poll_fired, share, subscribe, watch, waited_signal, watched};
use bytes::Bytes;
use http_body::Frame;
use std::convert::Infallible;
use std::pin::Pin;
use std::sync::Arc;
use std::task::Context;
use std::time::Duration;
use tokio::sync::broadcast::{Receiver, Sender};
use tokio::sync::futures::OwnedNotified;
use tokio::sync::Notify;
use vstd::prelude::*;
use vstd::string::StrSliceExecFns;
use vstd::string::StringSliceAdditionalSpecFns;

verus! {

/// Where a stream stands.
#[derive(Debug, Clone, Copy, PartialEq, Eq)]
pub enum Phase {
    /// Nothing was sent yet.
    Init,
    /// The `init` event was sent; the stream waits for the signal.
    AwaitingSignal,
    /// The stream is over.
    Final,
}

/// What a look at the reload signal shows.
#[derive(Debug, Clone, Copy, PartialEq, Eq)]
pub enum Signal {
    /// The signal has not fired.
    Pending,
    /// The signal has fired.
    Fired,
    /// The signal is gone and will never fire.
    Closed,
}

/// The `init` event, which tells the client after how many milliseconds to
/// connect again when the stream has ended.
pub open spec fn init_frame(retry_millis: nat) -> Seq<u8> {
    "event: init\ndata:\nretry: ".spec_bytes() + decimal(retry_millis) + "\n\n".spec_bytes()
}

/// The `reload` event.
pub open spec fn reload_frame() -> Seq<u8> {
    "event: reload\ndata:\n\n".spec_bytes()
}

/// The phase that follows `phase` when the stream is polled and a look at
/// the signal shows `signal`. A stream that has sent nothing does not look at
/// the signal, and neither does one that is over.
pub open spec fn next_phase(phase: Phase, signal: Signal) -> Phase {
    match phase {
        Phase::Init => Phase::AwaitingSignal,
        Phase::AwaitingSignal => match signal {
            Signal::Pending => Phase::AwaitingSignal,
            _ => Phase::Final,
        },
        Phase::Final => Phase::Final,
    }
}

/// What a stream in `phase` gives out when it is polled and a look at the
/// signal shows `signal`.
pub open spec fn output(phase: Phase, signal: Signal, retry_millis: nat) -> Pulse {
    match phase {
        Phase::Init => Pulse::Data(init_frame(retry_millis)),
        Phase::AwaitingSignal => match signal {
            Signal::Pending => Pulse::Pending,
            Signal::Fired => Pulse::Data(reload_frame()),
            Signal::Closed => Pulse::End,
        },
        Phase::Final => Pulse::End,
    }
}

/// What a stream gives out, poll by poll, when it starts in `phase` and the
/// looks at the signal show `signals`.
pub open spec fn stream(phase: Phase, retry_millis: nat, signals: Seq<Signal>) -> Seq<Pulse>
    decreases signals.len(),
{
    if signals.len() == 0 {
        Seq::empty()
    } else {
        seq![output(phase, signals[0], retry_millis)] + stream(
            next_phase(phase, signals[0]),
            retry_millis,
            signals.drop_first(),
        )
    }
}

/// `count` times the same value.
pub open spec fn repeat<T>(value: T, count: nat) -> Seq<T> {
    Seq::new(count, |i: int| value)
}

/// A stream that is over gives out the end, however often it is polled.
pub proof fn lemma_stream_over(retry_millis: nat, signals: Seq<Signal>)
    ensures
        stream(Phase::Final, retry_millis, signals) == repeat(Pulse::End, signals.len()),
    decreases signals.len(),
{
    if signals.len() > 0 {
        lemma_stream_over(retry_millis, signals.drop_first());
    }
    assert(stream(Phase::Final, retry_millis, signals) =~= repeat(Pulse::End, signals.len()));
}

/// A waiting stream gives out nothing for as long as the signal is pending.
pub proof fn lemma_stream_blocked(retry_millis: nat, waits: nat)
    ensures
        stream(Phase::AwaitingSignal, retry_millis, repeat(Signal::Pending, waits)) == repeat(
            Pulse::Pending,
            waits,
        ),
    decreases waits,
{
    let signals = repeat(Signal::Pending, waits);
    if waits > 0 {
        let fewer = (waits - 1) as nat;
        assert(signals.drop_first() =~= repeat(Signal::Pending, fewer));
        lemma_stream_blocked(retry_millis, fewer);
    }
    assert(stream(Phase::AwaitingSignal, retry_millis, signals) =~= repeat(Pulse::Pending, waits));
}

/// A waiting stream is pending for as long as the signal is, `waits` polls
/// long; then it gives out one `reload` event if the signal has fired, and
/// none if the signal is gone; and after that only the end.
pub proof fn lemma_stream_waiting(
    retry_millis: nat,
    waits: nat,
    last: Signal,
    later: Seq<Signal>,
)
    requires
        !(last is Pending),
    ensures
        stream(
            Phase::AwaitingSignal,
            retry_millis,
            repeat(Signal::Pending, waits) + seq![last] + later,
        ) == repeat(Pulse::Pending, waits) + seq![output(Phase::AwaitingSignal, last, retry_millis)]
            + repeat(Pulse::End, later.len()),
    decreases waits,
{
    let signals = repeat(Signal::Pending, waits) + seq![last] + later;
    let out = repeat(Pulse::Pending, waits) + seq![
        output(Phase::AwaitingSignal, last, retry_millis),
    ] + repeat(Pulse::End, later.len());
    if waits == 0 {
        assert(signals.drop_first() =~= later);
        lemma_stream_over(retry_millis, later);
        assert(stream(Phase::AwaitingSignal, retry_millis, signals) =~= out);
    } else {
        let fewer = (waits - 1) as nat;
        assert(signals.drop_first() =~= repeat(Signal::Pending, fewer) + seq![last] + later);
        lemma_stream_waiting(retry_millis, fewer, last, later);
        assert(stream(Phase::AwaitingSignal, retry_millis, signals) =~= out);
    }
}

/// A fresh stream gives out, in this order: one `init` event with the retry
/// interval, whatever the signal shows; nothing while the signal is pending;
/// one `reload` event when the signal has fired; and then only the end.
pub proof fn lemma_stream_fired(
    retry_millis: nat,
    first: Signal,
    waits: nat,
    later: Seq<Signal>,
)
    ensures
        stream(
            Phase::Init,
            retry_millis,
            seq![first] + repeat(Signal::Pending, waits) + seq![Signal::Fired] + later,
        ) == seq![Pulse::Data(init_frame(retry_millis))] + repeat(Pulse::Pending, waits) + seq![
            Pulse::Data(reload_frame()),
        ] + repeat(Pulse::End, later.len()),
{
    let rest = repeat(Signal::Pending, waits) + seq![Signal::Fired] + later;
    let signals = seq![first] + repeat(Signal::Pending, waits) + seq![Signal::Fired] + later;
    assert(signals.drop_first() =~= rest);
    lemma_stream_waiting(retry_millis, waits, Signal::Fired, later);
    assert(stream(Phase::Init, retry_millis, signals) =~= seq![
        Pulse::Data(init_frame(retry_millis)),
    ] + repeat(Pulse::Pending, waits) + seq![Pulse::Data(reload_frame())] + repeat(
        Pulse::End,
        later.len(),
    ));
}

/// A fresh stream whose signal goes away before it fires gives out the
/// `init` event, nothing while the signal is pending, and then the end,
/// without a `reload` event.
pub proof fn lemma_stream_closed(
    retry_millis: nat,
    first: Signal,
    waits: nat,
    later: Seq<Signal>,
)
    ensures
        stream(
            Phase::Init,
            retry_millis,
            seq![first] + repeat(Signal::Pending, waits) + seq![Signal::Closed] + later,
        ) == seq![Pulse::Data(init_frame(retry_millis))] + repeat(Pulse::Pending, waits)
            + repeat(Pulse::End, 1 + later.len()),
{
    let rest = repeat(Signal::Pending, waits) + seq![Signal::Closed] + later;
    let signals = seq![first] + repeat(Signal::Pending, waits) + seq![Signal::Closed] + later;
    assert(signals.drop_first() =~= rest);
    lemma_stream_waiting(retry_millis, waits, Signal::Closed, later);
    assert(stream(Phase::Init, retry_millis, signals) =~= seq![
        Pulse::Data(init_frame(retry_millis)),
    ] + repeat(Pulse::Pending, waits) + repeat(Pulse::End, 1 + later.len()));
}

/// The bytes of the `init` event for a retry interval.
pub fn init_event(retry_millis: u128) -> (event: Vec<u8>)
    ensures
        event@ == init_frame(retry_millis as nat),
{
    let mut event: Vec<u8> = "event: init\ndata:\nretry: ".as_bytes_vec();
    push_decimal(&mut event, retry_millis);
    event.extend_from_slice("\n\n".as_bytes());
    event
}

/// One poll of a stream in `phase`, where a look at the signal shows
/// `signal`: the phase that follows, and what the stream gives out.
pub fn step(phase: Phase, signal: Signal, retry_millis: u128) -> (next: (
    Phase,
    Progress<Option<Result<Frame<Bytes>, Infallible>>>,
))
    ensures
        next.0 == next_phase(phase, signal),
        pulse_of(next.1) == output(phase, signal, retry_millis as nat),
{
    match phase {
        Phase::Init => (
            Phase::AwaitingSignal,
            Progress::Ready(Some(Ok(data_frame(from_owner(init_event(retry_millis)))))),
        ),
        Phase::AwaitingSignal => match signal {
            Signal::Pending => (Phase::AwaitingSignal, Progress::Pending),
            Signal::Fired => (
                Phase::Final,
                Progress::Ready(
                    Some(Ok(data_frame(from_static("event: reload\ndata:\n\n".as_bytes())))),
                ),
            ),
            Signal::Closed => (Phase::Final, Progress::Ready(None)),
        },
        Phase::Final => (Phase::Final, Progress::Ready(None)),
    }
}

/// The source of the reload signal: what a reloader holds and the streams
/// wait for. It fires when a reloader says so, and it is gone once no
/// reloader holds it any more.
#[derive(Debug)]
pub struct Source {
    fire: Arc<Notify>,
    alive: Sender<()>,
}

impl Source {
    /// A source that no stream waits for yet.
    pub fn new() -> Self {
        Source { fire: Arc::new(Notify::new()), alive: open(1) }
    }

    /// Fires the signal: every stream that waits now is woken and will send
    /// its `reload` event. This returns at once, with or without streams.
    pub fn fire(&self) {
        self.fire.notify_waiters();
    }

    /// A subscription to this source. It sees from now on whether the source
    /// is gone, and it sees firings from the first poll of its stream on.
    pub fn subscribe(&self) -> (subscription: Subscription)
        ensures
            subscription.source() == *self,
    {
        Subscription { fire: share(&self.fire), alive: watch(&self.alive) }
    }
}

impl Clone for Source {
    /// Another hold on the same source.
    fn clone(&self) -> (copy: Self)
        ensures
            copy == *self,
    {
        Source { fire: share(&self.fire), alive: self.alive.clone() }
    }
}

/// What a stream holds of a source before its first poll: the signal that
/// fires, and the receiver that tells whether the source is gone.
pub struct Subscription {
    fire: Arc<Notify>,
    alive: Receiver<()>,
}

impl Subscription {
    /// The source that was subscribed to.
    pub closed spec fn source(&self) -> Source {
        Source { fire: self.fire, alive: watched(self.alive) }
    }
}

enum State {
    Initial(Subscription),
    Pending { fired: Pin<Box<OwnedNotified>>, alive: Receiver<()> },
    Final,
}

/// The body of one event-stream response.
pub struct ReloadEventsBody {
    state: State,
    retry_duration: Duration,
    source: Ghost<Source>,
}

impl ReloadEventsBody {
    /// A stream that is not over holds waits on its own source and no other.
    #[verifier::type_invariant]
    spec fn holds_its_source(&self) -> bool {
        match self.state {
            State::Initial(subscription) => subscription.source() == self.source@,
            State::Pending { fired, alive } => (Source {
                fire: waited_signal(fired),
                alive: watched(alive),
            }) == self.source@,
            State::Final => true,
        }
    }

    /// Where the stream stands.
    pub closed spec fn phase(&self) -> Phase {
        match self.state {
            State::Initial(_) => Phase::Init,
            State::Pending { .. } => Phase::AwaitingSignal,
            State::Final => Phase::Final,
        }
    }

    /// Where the stream stands.
    fn current(&self) -> (phase: Phase)
        ensures
            phase == self.phase(),
    {
        match &self.state {
            State::Initial(_) => Phase::Init,
            State::Pending { .. } => Phase::AwaitingSignal,
            State::Final => Phase::Final,
        }
    }

    /// The retry interval that the `init` event announces, in milliseconds.
    pub closed spec fn retry_millis(&self) -> nat {
        duration_millis(self.retry_duration) as nat
    }

    /// The source that the stream waits for while it is not over.
    pub closed spec fn signal(&self) -> Source {
        self.source@
    }

    /// A fresh stream that will wait for the source of `receiver`.
    pub fn new(receiver: Subscription, retry_duration: Duration) -> (body: Self)
        ensures
            body.phase() == Phase::Init,
            body.retry_millis() == duration_millis(retry_duration),
            body.signal() == receiver.source(),
    {
        let ghost source = receiver.source();
        Self { state: State::Initial(receiver), retry_duration, source: Ghost(source) }
    }

    /// Gives out the next frame of the stream. A fresh stream starts to wait
    /// for the signal and gives out the `init` event. A waiting stream looks
    /// at its source: it gives out the `reload` event once the signal has
    /// fired; it ends, without that event, once the source is gone and has
    /// not fired; and it is pending while neither is so. A stream that is
    /// over gives out the end.
    ///
    /// The task behind `cx` is woken when the signal fires. Nothing wakes it
    /// when the source goes: the stream ends at its next poll after that.
    pub fn poll_frame(&mut self, cx: &mut Context<'_>) -> (out: Progress<
        Option<Result<Frame<Bytes>, Infallible>>,
    >)
        ensures
            final(self).retry_millis() == old(self).retry_millis(),
            final(self).signal() == old(self).signal(),
            exists|signal: Signal|
                final(self).phase() == #[trigger] next_phase(old(self).phase(), signal)
                    && pulse_of(out) == output(old(self).phase(), signal, old(self).retry_millis()),
    {
        proof {
            use_type_invariant(&*self);
        }
        let retry_millis: u128 = self.retry_duration.as_millis();
        let phase: Phase = self.current();
        let mut state: State = State::Final;
        std::mem::swap(&mut self.state, &mut state);
        let signal: Signal = match state {
            State::Initial(subscription) => {
                let Subscription { fire, alive } = subscription;
                self.state = State::Pending { fired: subscribe(fire), alive };
                Signal::Pending
            },
            State::Pending { mut fired, alive } => {
                if poll_fired(&mut fired, cx) {
                    Signal::Fired
                } else if is_closed(&alive) {
                    Signal::Closed
                } else {
                    self.state = State::Pending { fired, alive };
                    Signal::Pending
                }
            },
            State::Final => Signal::Pending,
        };
        let (next, out) = step(phase, signal, retry_millis);
        assert(self.phase() == next);
        out
    }
}

} // verus!
