//! Byte buffers and body frames, which come from the `bytes` and `http_body`
//! crates. Nothing in this file is proved: each contract states what the
//! crate's own source shows.

use vstd::prelude::*;

verus! {

/// `bytes::Bytes`, a shared buffer of bytes. What it holds is
/// [`bytes_content`].
#[verifier::external_type_specification]
#[verifier::external_body]
pub struct ExBytes(bytes::Bytes);

/// `http_body::Frame`, one frame of a body: data or trailers. The data of a
/// frame of `Bytes` is [`frame_data`].
#[verifier::external_type_specification]
#[verifier::external_body]
#[verifier::reject_recursive_types(T)]
pub struct ExFrame<T>(http_body::Frame<T>);

/// The bytes that a buffer holds, in order.
pub uninterp spec fn bytes_content(buffer: bytes::Bytes) -> Seq<u8>;

/// The data that a frame carries, or `None` for a frame of trailers.
pub uninterp spec fn frame_data(frame: http_body::Frame<bytes::Bytes>) -> Option<Seq<u8>>;

/// `Buf::remaining` on `Bytes`: the number of bytes in the buffer.
#[verifier::external_body]
pub(crate) fn remaining(buffer: &bytes::Bytes) -> (n: usize)
    ensures
        n == bytes_content(*buffer).len(),
{
    bytes::Buf::remaining(buffer)
}

/// `Bytes::clone`: a second handle on the same bytes.
pub assume_specification[ <bytes::Bytes as Clone>::clone ](buffer: &bytes::Bytes) -> (copy:
    bytes::Bytes)
    ensures
        bytes_content(copy) == bytes_content(*buffer),
;

/// `Bytes::from_owner` on a vector: the buffer holds the vector's bytes.
#[verifier::external_body]
pub(crate) fn from_owner(owner: Vec<u8>) -> (buffer: bytes::Bytes)
    ensures
        bytes_content(buffer) == owner@,
{
    bytes::Bytes::from_owner(owner)
}

/// `Bytes::from_static`: the buffer holds the bytes of the slice.
#[verifier::external_body]
pub(crate) fn from_static(bytes: &'static [u8]) -> (buffer: bytes::Bytes)
    ensures
        bytes_content(buffer) == bytes@,
{
    bytes::Bytes::from_static(bytes)
}

/// `Frame::data`: a data frame that carries the buffer.
#[verifier::external_body]
pub(crate) fn data_frame(buffer: bytes::Bytes) -> (frame: http_body::Frame<bytes::Bytes>)
    ensures
        frame_data(frame) == Some(bytes_content(buffer)),
{
    http_body::Frame::data(buffer)
}

} // verus!
