//! The long-poll stream: a body that sends nothing and ends once the reload
//! signal has been seen.

use crate::body::{pulse_of, Pulse};
use crate::message::Progress;
use bytes::Bytes;
use http_body::Frame;
use std::convert::Infallible;
use tokio::sync::broadcast::Receiver;
use vstd::prelude::*;

verus! {

/// The body of one long-poll response.
pub struct LongPollBody {
    receiver: Option<Receiver<()>>,
}

impl LongPollBody {
    /// The receiver that the body has not handed out yet, if any.
    pub closed spec fn receiver(&self) -> Option<Receiver<()>> {
        self.receiver
    }

    /// A fresh body that will wait for `receiver`.
    pub fn new(receiver: Receiver<()>) -> (body: Self)
        ensures
            body.receiver() == Some(receiver),
    {
        LongPollBody { receiver: Some(receiver) }
    }

    /// Gives out the next frame of the body. At the first poll the body is
    /// pending and hands out its receiver: the caller waits on it, for the
    /// signal or for its end, and then wakes the task that polls the body.
    /// At every later poll the body is over.
    pub fn poll_frame(&mut self) -> (out: (
        Progress<Option<Result<Frame<Bytes>, Infallible>>>,
        Option<Receiver<()>>,
    ))
        ensures
            final(self).receiver() is None,
            out.1 == old(self).receiver(),
            pulse_of(out.0) == if old(self).receiver() is Some {
                Pulse::Pending
            } else {
                Pulse::End
            },
    {
        match self.receiver.take() {
            Some(receiver) => (Progress::Pending, Some(receiver)),
            None => (Progress::Ready(None), None),
        }
    }
}

} // verus!
