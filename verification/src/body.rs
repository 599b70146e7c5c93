//! What a body gives out, poll by poll, as far as the bytes on the wire go.

use crate::chunk::frame_data;
use crate::message::Progress;
use bytes::Bytes;
use http_body::Frame;
use vstd::prelude::*;

verus! {

/// What one poll of a body comes to, as far as the bytes on the wire go.
pub enum Pulse {
    /// Nothing yet.
    Pending,
    /// A frame of data with these bytes.
    Data(Seq<u8>),
    /// A frame of trailers.
    Trailers,
    /// The body failed.
    Failed,
    /// The body is over.
    End,
}

/// What a poll result comes to.
pub open spec fn pulse_of<E>(polled: Progress<Option<Result<Frame<Bytes>, E>>>) -> Pulse {
    match polled {
        Progress::Pending => Pulse::Pending,
        Progress::Ready(None) => Pulse::End,
        Progress::Ready(Some(Err(_))) => Pulse::Failed,
        Progress::Ready(Some(Ok(frame))) => match frame_data(frame) {
            Some(data) => Pulse::Data(data),
            None => Pulse::Trailers,
        },
    }
}

/// All the data in `pulses`, in order.
pub open spec fn data_in(pulses: Seq<Pulse>) -> Seq<u8>
    decreases pulses.len(),
{
    if pulses.len() == 0 {
        Seq::empty()
    } else {
        match pulses[0] {
            Pulse::Data(data) => data + data_in(pulses.drop_first()),
            _ => data_in(pulses.drop_first()),
        }
    }
}

/// The data in `first` followed by `second` is the data in `first` followed
/// by the data in `second`.
pub proof fn lemma_data_split(first: Seq<Pulse>, second: Seq<Pulse>)
    ensures
        data_in(first + second) == data_in(first) + data_in(second),
    decreases first.len(),
{
    if first.len() == 0 {
        assert(first + second =~= second);
        assert(data_in(first) + data_in(second) =~= data_in(second));
    } else {
        assert((first + second).drop_first() =~= first.drop_first() + second);
        assert((first + second)[0] == first[0]);
        lemma_data_split(first.drop_first(), second);
        assert(data_in(first + second) =~= data_in(first) + data_in(second));
    }
}

/// Pulses that are all ends hold no data.
pub proof fn lemma_data_without(ends: Seq<Pulse>)
    requires
        forall|i: int| 0 <= i < ends.len() ==> #[trigger] ends[i] is End,
    ensures
        data_in(ends) == Seq::<u8>::empty(),
    decreases ends.len(),
{
    if ends.len() > 0 {
        assert(ends[0] is End);
        let rest = ends.drop_first();
        assert forall|i: int| 0 <= i < rest.len() implies #[trigger] rest[i] is End by {
            assert(rest[i] == ends[i + 1]);
        }
        lemma_data_without(rest);
    }
}

} // verus!
