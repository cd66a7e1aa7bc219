//! The typed message channel over a raw byte stream.
//!
//! One side writes each message as one frame onto its outgoing byte
//! stream; the other accumulates whatever bytes arrive and takes complete
//! frames back off.  A `FrameBuffer` is the receive side's accumulator:
//! bytes go in as they arrive, frames come out exactly as they were sent,
//! in send order.  Decoding a frame's payload is the codec's business; a
//! payload that does not decode is a fatal transport error, not retried.

use vstd::prelude::*;

use crate::codec::enc_orchestrator_msg;
use crate::codec::enc_worker_msg;
use crate::codec::encode_orchestrator_message;
use crate::codec::encode_worker_message;
use crate::codec::frame_of;
use crate::codec::frame_payload;
use crate::codec::orchestrator_msg_encodable;
use crate::codec::spec_take_frame;
use crate::codec::take_frame;
use crate::codec::worker_msg_encodable;
use crate::messages::OrchestratorMessage;
use crate::messages::OrchestratorMessageView;
use crate::messages::WorkerMessage;
use crate::messages::WorkerMessageView;

verus! {

/// Receive-side accumulator of one channel direction.  Its value is the
/// bytes that arrived and were not yet consumed as frames.
pub struct FrameBuffer {
    buf: Vec<u8>,
    pos: usize,
}

impl FrameBuffer {
    /// The bytes that arrived and were not yet consumed.
    pub closed spec fn pending(&self) -> Seq<u8> {
        self.buf@.skip(self.pos as int)
    }

    pub closed spec fn wf(&self) -> bool {
        self.pos <= self.buf@.len()
    }

    /// An empty accumulator.
    pub fn new() -> (r: FrameBuffer)
        ensures
            r.wf(),
            r.pending() == Seq::<u8>::empty(),
    {
        let r = FrameBuffer { buf: Vec::new(), pos: 0 };
        proof {
            assert(r.pending() =~= Seq::<u8>::empty());
        }
        r
    }

    /// Take in bytes as they arrive from the stream.
    pub fn push_bytes(&mut self, chunk: &[u8])
        requires
            old(self).wf(),
        ensures
            final(self).wf(),
            final(self).pending() == old(self).pending() + chunk@,
    {
        self.buf.extend_from_slice(chunk);
        proof {
            assert(self.pending() =~= old(self).pending() + chunk@);
        }
    }

    /// How many bytes arrived and were not yet consumed.
    pub fn pending_len(&self) -> (r: usize)
        requires
            self.wf(),
        ensures
            r == self.pending().len(),
    {
        self.buf.len() - self.pos
    }

    /// Take one complete frame's payload off the accumulator; `None`
    /// while no complete frame has arrived, leaving the bytes in place.
    pub fn next_frame(&mut self) -> (r: Option<Vec<u8>>)
        requires
            old(self).wf(),
        ensures
            final(self).wf(),
            match r {
                Some(payload) => spec_take_frame(old(self).pending()) == Some(
                    (payload@, final(self).pending()),
                ),
                None => spec_take_frame(old(self).pending()) is None && *final(self) == *old(
                    self,
                ),
            },
    {
        match take_frame(&self.buf, self.pos) {
            Some((payload, next)) => {
                self.pos = next;
                Some(payload)
            },
            None => None,
        }
    }
}

/// Append one orchestrator-to-worker message, framed, onto the outgoing
/// stream.  Success is owed exactly when the encoded message fits the
/// frame's 4-byte length field; a failure leaves the stream untouched.
pub fn send_orchestrator_message(out: &mut Vec<u8>, m: &OrchestratorMessage) -> (ok: bool)
    ensures
        ok <==> enc_orchestrator_msg(m@).len() <= u32::MAX,
        ok ==> final(out)@ == old(out)@ + frame_of(enc_orchestrator_msg(m@)),
        !ok ==> final(out)@ == old(out)@,
{
    let payload = encode_orchestrator_message(m);
    match frame_payload(&payload) {
        Some(frame) => {
            out.extend_from_slice(frame.as_slice());
            true
        },
        None => false,
    }
}

/// Append one worker-to-orchestrator message, framed, onto the outgoing
/// stream, with the same owed success as the other direction.
pub fn send_worker_message(out: &mut Vec<u8>, m: &WorkerMessage) -> (ok: bool)
    ensures
        ok <==> enc_worker_msg(m@).len() <= u32::MAX,
        ok ==> final(out)@ == old(out)@ + frame_of(enc_worker_msg(m@)),
        !ok ==> final(out)@ == old(out)@,
{
    let payload = encode_worker_message(m);
    match frame_payload(&payload) {
        Some(frame) => {
            out.extend_from_slice(frame.as_slice());
            true
        },
        None => false,
    }
}

/// What one receive attempt on a typed channel produced.
pub enum Receive<M> {
    /// One whole message arrived.
    Message(M),
    /// No whole frame has arrived yet; poll again.
    NoneYet,
    /// The peer closed the stream cleanly with no further data.
    ClosedClean,
    /// A truncated frame or a malformed payload: fatal, not retried.
    TransportError,
}

/// Receive one worker-to-orchestrator message from the accumulated
/// stream.  `closed` says whether the peer has ended the stream.  The
/// channel yields a clean close exactly when the stream ended with no
/// bytes left over; a stream that ends inside a frame, or a frame whose
/// payload does not decode, is a fatal transport error.
pub fn receive_worker_message(rx: &mut FrameBuffer, closed: bool) -> (r: Receive<WorkerMessage>)
    requires
        old(rx).wf(),
    ensures
        final(rx).wf(),
        match r {
            Receive::Message(m) => {
                &&& spec_take_frame(old(rx).pending()) matches Some((p, rest))
                    && crate::codec::dec_worker_msg(p) == Some(m@) && final(rx).pending() == rest
            },
            Receive::NoneYet => spec_take_frame(old(rx).pending()) is None && !closed && *final(rx)
                == *old(rx),
            Receive::ClosedClean => spec_take_frame(old(rx).pending()) is None && closed && old(
                rx,
            ).pending().len() == 0 && *final(rx) == *old(rx),
            Receive::TransportError => (spec_take_frame(old(rx).pending()) matches Some((p, _))
                && crate::codec::dec_worker_msg(p) is None) || (spec_take_frame(
                old(rx).pending(),
            ) is None && closed && old(rx).pending().len() > 0),
        },
{
    match rx.next_frame() {
        Some(payload) => match crate::codec::decode_worker_message(&payload) {
            Some(m) => Receive::Message(m),
            None => Receive::TransportError,
        },
        None => {
            if !closed {
                Receive::NoneYet
            } else if rx.pending_len() == 0 {
                Receive::ClosedClean
            } else {
                Receive::TransportError
            }
        },
    }
}

/// Receive one orchestrator-to-worker message, with the same close and
/// error behaviour as the other direction.
pub fn receive_orchestrator_message(rx: &mut FrameBuffer, closed: bool) -> (r: Receive<
    OrchestratorMessage,
>)
    requires
        old(rx).wf(),
    ensures
        final(rx).wf(),
        match r {
            Receive::Message(m) => {
                &&& spec_take_frame(old(rx).pending()) matches Some((p, rest))
                    && crate::codec::dec_orchestrator_msg(p) == Some(m@) && final(rx).pending()
                    == rest
            },
            Receive::NoneYet => spec_take_frame(old(rx).pending()) is None && !closed && *final(rx)
                == *old(rx),
            Receive::ClosedClean => spec_take_frame(old(rx).pending()) is None && closed && old(
                rx,
            ).pending().len() == 0 && *final(rx) == *old(rx),
            Receive::TransportError => (spec_take_frame(old(rx).pending()) matches Some((p, _))
                && crate::codec::dec_orchestrator_msg(p) is None) || (spec_take_frame(
                old(rx).pending(),
            ) is None && closed && old(rx).pending().len() > 0),
        },
{
    match rx.next_frame() {
        Some(payload) => match crate::codec::decode_orchestrator_message(&payload) {
            Some(m) => Receive::Message(m),
            None => Receive::TransportError,
        },
        None => {
            if !closed {
                Receive::NoneYet
            } else if rx.pending_len() == 0 {
                Receive::ClosedClean
            } else {
                Receive::TransportError
            }
        },
    }
}

/// Round trip of the whole stack on one channel direction: a worker
/// message framed onto the stream is taken back off as one frame whose
/// payload decodes to the same value, with the rest of the stream
/// untouched.
pub proof fn lemma_worker_wire_round_trip(m: WorkerMessageView, rest: Seq<u8>)
    requires
        worker_msg_encodable(m),
        crate::codec::worker_msg_wf(m),
        enc_worker_msg(m).len() <= u32::MAX,
    ensures
        spec_take_frame(frame_of(enc_worker_msg(m)) + rest) matches Some((p, r)) && r == rest
            && crate::codec::dec_worker_msg(p) == Some(m),
{
    crate::codec::lemma_take_frame_of(enc_worker_msg(m), rest);
    crate::codec::lemma_worker_msg_round_trip(m);
}

/// Round trip of the whole stack on the other channel direction.
pub proof fn lemma_orchestrator_wire_round_trip(m: OrchestratorMessageView, rest: Seq<u8>)
    requires
        orchestrator_msg_encodable(m),
        crate::codec::orchestrator_msg_wf(m),
        enc_orchestrator_msg(m).len() <= u32::MAX,
    ensures
        spec_take_frame(frame_of(enc_orchestrator_msg(m)) + rest) matches Some((p, r)) && r == rest
            && crate::codec::dec_orchestrator_msg(p) == Some(m),
{
    crate::codec::lemma_take_frame_of(enc_orchestrator_msg(m), rest);
    crate::codec::lemma_orchestrator_msg_round_trip(m);
}

} // verus!
