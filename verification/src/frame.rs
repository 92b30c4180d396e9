//! Frame codec for the trunk stream.
//!
//! A frame on the wire is an eight-byte header followed by the payload:
//!
//! ```text
//! u32 conn_id (big-endian) | u32 length (big-endian) | length bytes of payload
//! ```
//!
//! The payload is opaque; only the header is interpreted.

use vstd::prelude::*;

use crate::error::Error;

verus! {

/// Identifier of one logical connection on a trunk.
pub type ConnId = u32;

/// The identifier that no connection may use.
pub const RESERVED_CONN_ID: ConnId = 0;

/// Number of bytes in a frame header.
pub const HEADER_LEN: usize = 8;

/// Largest payload a single frame can carry.
pub const MAX_PAYLOAD_LEN: u32 = 0xffff_ffff;

/// The four bytes of `x`, most significant first.
pub open spec fn be32(x: u32) -> Seq<u8> {
    seq![
        (x / 0x100_0000) as u8,
        (x / 0x1_0000 % 0x100) as u8,
        (x / 0x100 % 0x100) as u8,
        (x % 0x100) as u8,
    ]
}

/// The number whose big-endian bytes are `b[at..at + 4]`.
pub open spec fn from_be32(b: Seq<u8>, at: int) -> u32
    recommends
        0 <= at,
        at + 4 <= b.len(),
{
    (b[at] * 0x100_0000 + b[at + 1] * 0x1_0000 + b[at + 2] * 0x100 + b[at + 3]) as u32
}

/// The eight header bytes announcing `length` payload bytes for `conn_id`.
pub open spec fn header_bytes(conn_id: ConnId, length: u32) -> Seq<u8> {
    be32(conn_id) + be32(length)
}

/// The connection id written in a header.
pub open spec fn header_conn_id(header: Seq<u8>) -> ConnId
    recommends
        header.len() >= 8,
{
    from_be32(header, 0)
}

/// The payload length written in a header.
pub open spec fn header_length(header: Seq<u8>) -> u32
    recommends
        header.len() >= 8,
{
    from_be32(header, 4)
}

/// The wire image of one frame: header, then payload.
pub open spec fn frame_bytes(conn_id: ConnId, payload: Seq<u8>) -> Seq<u8>
    recommends
        payload.len() <= MAX_PAYLOAD_LEN,
{
    header_bytes(conn_id, payload.len() as u32) + payload
}

/// Mathematical value of a [`Frame`].
pub ghost struct FrameView {
    pub conn_id: ConnId,
    pub payload: Seq<u8>,
}

/// One unit of trunk traffic: a payload addressed to a logical connection.
#[derive(Debug)]
pub struct Frame {
    pub conn_id: ConnId,
    pub payload: Vec<u8>,
}

impl View for Frame {
    type V = FrameView;

    open spec fn view(&self) -> FrameView {
        FrameView { conn_id: self.conn_id, payload: self.payload@ }
    }
}

/// Whether `bytes` starts with a complete frame.
pub open spec fn has_frame(bytes: Seq<u8>) -> bool {
    bytes.len() >= 8 && bytes.len() >= 8 + header_length(bytes)
}

/// Number of bytes the frame at the front of `bytes` occupies.
pub open spec fn front_len(bytes: Seq<u8>) -> int
    recommends
        has_frame(bytes),
{
    8 + header_length(bytes)
}

/// The frame at the front of `bytes`.
pub open spec fn front_frame(bytes: Seq<u8>) -> FrameView
    recommends
        has_frame(bytes),
{
    FrameView { conn_id: header_conn_id(bytes), payload: bytes.subrange(8, front_len(bytes)) }
}

/// `from_be32` undoes `be32`, wherever the four bytes sit.
pub proof fn lemma_be32_round_trip(x: u32, prefix: Seq<u8>, suffix: Seq<u8>)
    ensures
        be32(x).len() == 4,
        from_be32(prefix + be32(x) + suffix, prefix.len() as int) == x,
{
    let b = prefix + be32(x) + suffix;
    let at = prefix.len() as int;
    assert(b[at] == be32(x)[0]);
    assert(b[at + 1] == be32(x)[1]);
    assert(b[at + 2] == be32(x)[2]);
    assert(b[at + 3] == be32(x)[3]);
}

/// A header yields the id and the length it was built from.
pub proof fn lemma_header_round_trip(conn_id: ConnId, length: u32, rest: Seq<u8>)
    ensures
        header_bytes(conn_id, length).len() == 8,
        header_conn_id(header_bytes(conn_id, length) + rest) == conn_id,
        header_length(header_bytes(conn_id, length) + rest) == length,
{
    let h = header_bytes(conn_id, length) + rest;
    lemma_be32_round_trip(conn_id, Seq::empty(), be32(length) + rest);
    assert(Seq::<u8>::empty() + be32(conn_id) + (be32(length) + rest) =~= h);
    lemma_be32_round_trip(length, be32(conn_id), rest);
    assert(be32(conn_id) + be32(length) + rest =~= h);
}

/// Decoding the wire image of a frame gives back its connection id and its
/// payload, and consumes exactly the image, whatever follows it.
pub proof fn lemma_frame_round_trip(conn_id: ConnId, payload: Seq<u8>, rest: Seq<u8>)
    requires
        payload.len() <= MAX_PAYLOAD_LEN,
    ensures
        frame_bytes(conn_id, payload).len() == 8 + payload.len(),
        has_frame(frame_bytes(conn_id, payload) + rest),
        front_len(frame_bytes(conn_id, payload) + rest) == 8 + payload.len(),
        front_frame(frame_bytes(conn_id, payload) + rest) == (FrameView { conn_id, payload }),
{
    let length = payload.len() as u32;
    let bytes = frame_bytes(conn_id, payload) + rest;
    lemma_header_round_trip(conn_id, length, payload + rest);
    assert(header_bytes(conn_id, length) + (payload + rest) =~= bytes);
    assert(bytes.subrange(8, 8 + payload.len() as int) =~= payload);
}

/// Appends the big-endian bytes of `x` to `out`.
fn put_be32(out: &mut Vec<u8>, x: u32)
    ensures
        final(out)@ == old(out)@ + be32(x),
{
    out.push((x / 0x100_0000) as u8);
    out.push((x / 0x1_0000 % 0x100) as u8);
    out.push((x / 0x100 % 0x100) as u8);
    out.push((x % 0x100) as u8);
    assert(out@ =~= old(out)@ + be32(x));
}

/// Reads the big-endian number at `bytes[at..at + 4]`.
fn get_be32(bytes: &[u8], at: usize) -> (x: u32)
    requires
        at + 4 <= bytes@.len(),
    ensures
        x == from_be32(bytes@, at as int),
{
    let b0: u32 = bytes[at] as u32;
    let b1: u32 = bytes[at + 1] as u32;
    let b2: u32 = bytes[at + 2] as u32;
    let b3: u32 = bytes[at + 3] as u32;
    b0 * 0x100_0000 + b1 * 0x1_0000 + b2 * 0x100 + b3
}

/// Builds the wire image of one frame.
///
/// Fails with `InvalidArgument` exactly when the payload is longer than a
/// 32-bit length can announce.
pub fn encode(conn_id: ConnId, payload: &[u8]) -> (r: Result<Vec<u8>, Error>)
    ensures
        payload@.len() <= MAX_PAYLOAD_LEN ==> r is Ok && r->Ok_0@ == frame_bytes(
            conn_id,
            payload@,
        ),
        payload@.len() > MAX_PAYLOAD_LEN ==> r is Err && r->Err_0 is InvalidArgument,
{
    let n: usize = payload.len();
    if n > MAX_PAYLOAD_LEN as usize {
        return Err(Error::InvalidArgument("payload too long for one frame".to_string()));
    }
    let mut out: Vec<u8> = Vec::new();
    put_be32(&mut out, conn_id);
    put_be32(&mut out, n as u32);
    let mut i: usize = 0;
    while i < n
        invariant
            i <= n,
            n == payload@.len(),
            out@ == header_bytes(conn_id, n as u32) + payload@.subrange(0, i as int),
        decreases n - i,
    {
        out.push(payload[i]);
        i += 1;
        assert(payload@.subrange(0, i as int) =~= payload@.subrange(0, i - 1).push(
            payload@[i - 1],
        ));
    }
    assert(payload@.subrange(0, n as int) =~= payload@);
    Ok(out)
}

/// Reads the connection id and the payload length out of a header.
pub fn decode_header(header: &[u8; 8]) -> (r: (ConnId, u32))
    ensures
        r.0 == header_conn_id(header@),
        r.1 == header_length(header@),
{
    let bytes: &[u8] = header.as_slice();
    (get_be32(bytes, 0), get_be32(bytes, 4))
}

/// Takes the frame at the front of `bytes`.
///
/// Returns the frame and the number of bytes it occupied, or `None` when
/// `bytes` does not yet hold a whole frame.
pub fn decode(bytes: &[u8]) -> (r: Option<(Frame, usize)>)
    ensures
        r is Some <==> has_frame(bytes@),
        r matches Some((frame, used)) ==> frame@ == front_frame(bytes@) && used == front_len(
            bytes@,
        ),
{
    let n: usize = bytes.len();
    if n < HEADER_LEN {
        return None;
    }
    let conn_id: u32 = get_be32(bytes, 0);
    let length: u32 = get_be32(bytes, 4);
    if n - HEADER_LEN < length as usize {
        return None;
    }
    let end: usize = HEADER_LEN + length as usize;
    let mut payload: Vec<u8> = Vec::new();
    let mut i: usize = HEADER_LEN;
    while i < end
        invariant
            HEADER_LEN <= i <= end,
            end <= bytes@.len(),
            payload@ == bytes@.subrange(8, i as int),
        decreases end - i,
    {
        payload.push(bytes[i]);
        i += 1;
        assert(bytes@.subrange(8, i as int) =~= bytes@.subrange(8, i - 1).push(bytes@[i - 1]));
    }
    Some((Frame { conn_id, payload }, end))
}

} // verus!
