//! What travels over a trunk, end to end.
//!
//! The functions of [`crate::mux`] describe single steps. This module puts
//! the steps together: what a connection reader writes for a series of
//! reads, what a trunk reader delivers from a series of bytes, and the laws
//! that hold between the two.

use vstd::prelude::*;

use crate::frame::{
    frame_bytes, front_frame, front_len, has_frame, header_conn_id, header_length,
    lemma_frame_round_trip, ConnId, FrameView, MAX_PAYLOAD_LEN,
};
use crate::mux::{conn_step, ConnActionView, ConnEventView, MuxView, TrunkActionView, TrunkEventView};

verus! {

/// The bytes of `frames` on the trunk, one whole frame after the other.
pub open spec fn wire(frames: Seq<FrameView>) -> Seq<u8>
    decreases frames.len(),
{
    if frames.len() == 0 {
        Seq::empty()
    } else {
        frame_bytes(frames.first().conn_id, frames.first().payload) + wire(frames.drop_first())
    }
}

/// Whether every payload of `frames` fits in one frame.
pub open spec fn all_fit(frames: Seq<FrameView>) -> bool {
    forall|i: int| 0 <= i < frames.len() ==> (#[trigger] frames[i]).payload.len() <= MAX_PAYLOAD_LEN
}

/// What the reader of connection `id` writes to the trunk when its reads
/// return `chunks`, one after the other, and every write succeeds.
pub open spec fn written(id: ConnId, chunks: Seq<Seq<u8>>) -> Seq<u8>
    decreases chunks.len(),
{
    if chunks.len() == 0 {
        Seq::empty()
    } else {
        match conn_step(id, ConnEventView::Data(chunks.first())) {
            ConnActionView::Write(bytes) => bytes + written(id, chunks.drop_first()),
            ConnActionView::Read => written(id, chunks.drop_first()),
            ConnActionView::Stop => Seq::empty(),
        }
    }
}

/// What a trunk reader delivers, in order, when the trunk yields `bytes`
/// and no read or write fails: it reads a header, then the payload that the
/// header announces, hands both to the mux, performs the delivery if one is
/// asked for, and starts over until no whole frame is left.
pub open spec fn demux<E>(m: MuxView<E>, bytes: Seq<u8>) -> Seq<FrameView>
    decreases bytes.len(),
{
    if !(m.phase is AwaitHeader) || !has_frame(bytes) {
        Seq::empty()
    } else {
        let got_header = m.step(TrunkEventView::Header(bytes.subrange(0, 8))).0;
        let got_payload = got_header.step(
            TrunkEventView::Payload(bytes.subrange(8, front_len(bytes))),
        );
        let rest = bytes.subrange(front_len(bytes), bytes.len() as int);
        match got_payload.1 {
            TrunkActionView::Deliver { conn_id, payload } => seq![FrameView { conn_id, payload }]
                + demux(got_payload.0.step(TrunkEventView::Delivered).0, rest),
            _ => demux(got_payload.0, rest),
        }
    }
}

/// The frames of `frames` that are addressed to a connection of `m`.
pub open spec fn served<E>(m: MuxView<E>, frames: Seq<FrameView>) -> Seq<FrameView> {
    frames.filter(|f: FrameView| m.conns.contains(f.conn_id))
}

/// The frames of `frames` that are addressed to connection `id`.
pub open spec fn addressed_to(id: ConnId, frames: Seq<FrameView>) -> Seq<FrameView> {
    frames.filter(|f: FrameView| f.conn_id == id)
}

/// The payloads of `frames`, one after the other.
pub open spec fn payload_bytes(frames: Seq<FrameView>) -> Seq<u8>
    decreases frames.len(),
{
    if frames.len() == 0 {
        Seq::empty()
    } else {
        frames.first().payload + payload_bytes(frames.drop_first())
    }
}

/// A header read on its own says what the header at the front of the stream
/// says.
proof fn lemma_header_alone(bytes: Seq<u8>)
    requires
        bytes.len() >= 8,
    ensures
        header_conn_id(bytes.subrange(0, 8)) == header_conn_id(bytes),
        header_length(bytes.subrange(0, 8)) == header_length(bytes),
{
}

/// One frame at the front of the trunk: it is delivered if its connection is
/// registered and dropped if not, and the reader goes on with what follows.
pub proof fn lemma_demux_front<E>(m: MuxView<E>, frame: FrameView, rest: Seq<u8>)
    requires
        m.valid(),
        m.phase is AwaitHeader,
        frame.payload.len() <= MAX_PAYLOAD_LEN,
    ensures
        demux(m, frame_bytes(frame.conn_id, frame.payload) + rest) == (if m.conns.contains(
            frame.conn_id,
        ) {
            seq![frame]
        } else {
            Seq::empty()
        }) + demux(m, rest),
{
    let bytes = frame_bytes(frame.conn_id, frame.payload) + rest;
    lemma_frame_round_trip(frame.conn_id, frame.payload, rest);
    lemma_header_alone(bytes);
    assert(front_frame(bytes) == frame);
    assert(bytes.subrange(front_len(bytes), bytes.len() as int) =~= rest);
    let got_header = m.step(TrunkEventView::Header(bytes.subrange(0, 8))).0;
    let got_payload = got_header.step(TrunkEventView::Payload(bytes.subrange(8, front_len(bytes))));
    if m.conns.contains(frame.conn_id) {
        assert(got_payload.1 == (TrunkActionView::<E>::Deliver {
            conn_id: frame.conn_id,
            payload: frame.payload,
        }));
        assert(got_payload.0.step(TrunkEventView::Delivered).0 == m);
    } else {
        assert(got_payload.0 == m);
        assert(Seq::<FrameView>::empty() + demux(m, rest) =~= demux(m, rest));
    }
}

/// Frames come off the trunk in the order in which they went on it. Those
/// addressed to a registered connection are delivered, whole and unchanged;
/// those addressed to an unregistered one are dropped, and the frames after
/// them are delivered all the same.
pub proof fn lemma_delivery_keeps_order<E>(m: MuxView<E>, frames: Seq<FrameView>)
    requires
        m.valid(),
        m.phase is AwaitHeader,
        all_fit(frames),
    ensures
        demux(m, wire(frames)) == served(m, frames),
    decreases frames.len(),
{
    let p = |f: FrameView| m.conns.contains(f.conn_id);
    if frames.len() == 0 {
        assert(!has_frame(wire(frames)));
        reveal(Seq::filter);
        assert(served(m, frames) =~= Seq::empty());
    } else {
        let first = frames.first();
        let rest = frames.drop_first();
        assert(first == frames[0]);
        assert forall|i: int| 0 <= i < rest.len() implies (#[trigger] rest[i]).payload.len()
            <= MAX_PAYLOAD_LEN by {
            assert(rest[i] == frames[i + 1]);
        }
        lemma_delivery_keeps_order(m, rest);
        lemma_demux_front(m, first, wire(rest));
        rest.lemma_filter_prepend(first, p);
        assert(seq![first] + rest =~= frames);
    }
}

/// For each registered connection, the frames delivered to it are the
/// frames that were sent to it, in the order in which they were sent,
/// however the frames of other connections were interleaved with them.
pub proof fn lemma_connection_keeps_order<E>(m: MuxView<E>, frames: Seq<FrameView>, id: ConnId)
    requires
        m.valid(),
        m.phase is AwaitHeader,
        all_fit(frames),
        m.conns.contains(id),
    ensures
        addressed_to(id, demux(m, wire(frames))) == addressed_to(id, frames),
{
    lemma_delivery_keeps_order(m, frames);
    lemma_addressed_among_served(m, frames, id);
}

/// Dropping the frames of unregistered connections loses no frame of a
/// registered one.
proof fn lemma_addressed_among_served<E>(m: MuxView<E>, frames: Seq<FrameView>, id: ConnId)
    requires
        m.conns.contains(id),
    ensures
        addressed_to(id, served(m, frames)) == addressed_to(id, frames),
    decreases frames.len(),
{
    let p = |f: FrameView| m.conns.contains(f.conn_id);
    let q = |f: FrameView| f.conn_id == id;
    if frames.len() == 0 {
        reveal(Seq::filter);
        assert(frames.filter(p) =~= frames);
    } else {
        let first = frames.first();
        let rest = frames.drop_first();
        lemma_addressed_among_served(m, rest, id);
        assert(seq![first] + rest =~= frames);
        rest.lemma_filter_prepend(first, p);
        rest.lemma_filter_prepend(first, q);
        if p(first) {
            rest.filter(p).lemma_filter_prepend(first, q);
        } else {
            assert(Seq::<FrameView>::empty() + rest.filter(p) =~= rest.filter(p));
        }
    }
}

/// Bytes read from a local endpoint reach the far side complete and in
/// order, however the reads cut them up: read by read, empty reads
/// included, the connection reader frames them, and the payloads that the
/// trunk reader then delivers, all of them to that connection, add up to
/// the bytes that were read.
pub proof fn lemma_chunks_arrive_whole<E>(m: MuxView<E>, id: ConnId, chunks: Seq<Seq<u8>>)
    requires
        m.valid(),
        m.phase is AwaitHeader,
        m.conns.contains(id),
        forall|i: int| 0 <= i < chunks.len() ==> (#[trigger] chunks[i]).len() <= MAX_PAYLOAD_LEN,
    ensures
        payload_bytes(demux(m, written(id, chunks))) == chunks.flatten(),
        addressed_to(id, demux(m, written(id, chunks))) == demux(m, written(id, chunks)),
    decreases chunks.len(),
{
    let q = |f: FrameView| f.conn_id == id;
    if chunks.len() == 0 {
        assert(!has_frame(written(id, chunks)));
        reveal(Seq::filter);
        assert(addressed_to(id, Seq::empty()) =~= Seq::empty());
    } else {
        let first = chunks.first();
        let rest = chunks.drop_first();
        assert(first == chunks[0]);
        assert forall|i: int| 0 <= i < rest.len() implies (#[trigger] rest[i]).len()
            <= MAX_PAYLOAD_LEN by {
            assert(rest[i] == chunks[i + 1]);
        }
        lemma_chunks_arrive_whole(m, id, rest);
        let tail = demux(m, written(id, rest));
        if first.len() == 0 {
            assert(first + rest.flatten() =~= rest.flatten());
        } else {
            let frame = FrameView { conn_id: id, payload: first };
            lemma_demux_front(m, frame, written(id, rest));
            assert((seq![frame] + tail).first() == frame);
            assert((seq![frame] + tail).drop_first() =~= tail);
            tail.lemma_filter_prepend(frame, q);
        }
    }
}

} // verus!
