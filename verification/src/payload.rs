//! Packet payloads, held in [`bytes::Bytes`].

use bytes::Bytes;
use vstd::prelude::*;

use crate::addr::{SocketAddr, SocketAddrView};

verus! {

/// The buffer type of the `bytes` crate, opaque to proofs.
#[verifier::external_type_specification]
#[verifier::external_body]
pub struct ExBytes(Bytes);

/// The bytes that a buffer holds, in order.
pub uninterp spec fn payload(data: Bytes) -> Seq<u8>;

/// Calls `Bytes::from` for a `Vec<u8>`, which takes the vector over as it is: the buffer holds
/// the vector's bytes.
#[verifier::external_body]
pub(crate) fn bytes_from_vec(data: Vec<u8>) -> (b: Bytes)
    ensures
        payload(b) == data@,
{
    Bytes::from(data)
}

/// Calls `Bytes::len`, the number of bytes that the buffer holds.
#[verifier::external_body]
pub(crate) fn bytes_len(data: &Bytes) -> (n: usize)
    ensures
        n == payload(*data).len(),
{
    data.len()
}

/// The bytes that a receive of `len` bytes left in `buf`: its first `len` bytes, or all of it
/// where it is shorter.
pub open spec fn received_prefix(buf: Seq<u8>, len: int) -> Seq<u8> {
    if len <= buf.len() {
        buf.take(len)
    } else {
        buf
    }
}

/// Cuts a receive buffer down to the `len` bytes that were received.
pub fn cut_to_received(buf: Vec<u8>, len: usize) -> (data: Vec<u8>)
    ensures
        data@ == received_prefix(buf@, len as int),
{
    let mut data: Vec<u8> = buf;
    data.truncate(len);
    data
}

/// A packet as it was received: its bytes and where it came from.
#[derive(Debug)]
pub struct Packet {
    pub data: Bytes,
    pub source: SocketAddr,
}

/// The mathematical counterpart of [`Packet`].
pub struct PacketView {
    pub data: Seq<u8>,
    pub source: SocketAddrView,
}

impl View for Packet {
    type V = PacketView;

    open spec fn view(&self) -> PacketView {
        PacketView { data: payload(self.data), source: self.source@ }
    }
}

} // verus!
