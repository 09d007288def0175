//! Control-plane opcodes written to the Audio Control Point, the
//! L2CAP audio frame layout, and the per-peer sequence counter.

use vstd::prelude::*;

verus! {

/// The Start opcode.
pub const OPCODE_START: u8 = 0x01;

/// The Stop opcode.
pub const OPCODE_STOP: u8 = 0x02;

/// The Status opcode.
pub const OPCODE_STATUS: u8 = 0x03;

/// The codec identifier for G.722 at 16 kHz.
pub const CODEC_G722_16KHZ: u8 = 0x01;

/// Samples per 20 ms at 16 kHz: one encoder block.
pub const PCM_BLOCK_SAMPLES: usize = 320;

/// Bytes of one encoded G.722 payload (20 ms at 64 kb/s).
pub const PAYLOAD_BYTES: usize = 160;

/// Bytes of one framed L2CAP write: a sequence byte and the payload.
pub const FRAME_BYTES: usize = 161;

/// The five-byte Start command: opcode, codec G.722 at 16 kHz,
/// audio type Unknown, centered volume, and the other-ear state.
pub open spec fn spec_start_packet(otherstate: bool) -> Seq<u8> {
    seq![0x01u8, 0x01u8, 0x00u8, 0x80u8, if otherstate { 1u8 } else { 0u8 }]
}

/// The one-byte Stop command.
pub open spec fn spec_stop_packet() -> Seq<u8> {
    seq![0x02u8]
}

/// The three-byte Status command: opcode, the connection code, and the
/// G.722 codec index previously selected.
pub open spec fn spec_status_packet(code: u8) -> Seq<u8> {
    seq![0x03u8, code, 20u8]
}

/// Builds the Start command for the Audio Control Point. `otherstate`
/// says whether the other ear of a binaural set is started alongside.
pub fn start_packet(otherstate: bool) -> (r: Vec<u8>)
    ensures
        r@ == spec_start_packet(otherstate),
{
    let mut v: Vec<u8> = Vec::new();
    v.push(OPCODE_START);
    v.push(CODEC_G722_16KHZ);
    v.push(0x00);
    v.push(0x80);
    if otherstate {
        v.push(0x01);
    } else {
        v.push(0x00);
    }
    proof {
        assert(v@ =~= spec_start_packet(otherstate));
    }
    v
}

/// Builds the Stop command for the Audio Control Point.
pub fn stop_packet() -> (r: Vec<u8>)
    ensures
        r@ == spec_stop_packet(),
{
    let mut v: Vec<u8> = Vec::new();
    v.push(OPCODE_STOP);
    proof {
        assert(v@ =~= spec_stop_packet());
    }
    v
}

/// Builds the Status command for the Audio Control Point.
pub fn status_packet(code: u8) -> (r: Vec<u8>)
    ensures
        r@ == spec_status_packet(code),
{
    let mut v: Vec<u8> = Vec::new();
    v.push(OPCODE_STATUS);
    v.push(code);
    v.push(20);
    proof {
        assert(v@ =~= spec_status_packet(code));
    }
    v
}

/// The wire frame for one 20 ms slot: the sequence byte, then the
/// 160 payload bytes.
pub open spec fn spec_frame(seq_no: u8, payload: Seq<u8>) -> Seq<u8> {
    seq![seq_no] + payload
}

/// Assembles the 161-byte L2CAP frame for one payload.
pub fn make_frame(seq_no: u8, payload: &Vec<u8>) -> (r: Vec<u8>)
    requires
        payload@.len() == PAYLOAD_BYTES,
    ensures
        r@ == spec_frame(seq_no, payload@),
        r@.len() == FRAME_BYTES,
{
    let mut v: Vec<u8> = Vec::new();
    v.push(seq_no);
    let mut i: usize = 0;
    while i < payload.len()
        invariant
            i <= payload@.len(),
            v@ == seq![seq_no] + payload@.take(i as int),
        decreases payload@.len() - i,
    {
        v.push(payload[i]);
        proof {
            assert(payload@.take(i + 1) =~= payload@.take(i as int).push(payload@[i as int]));
        }
        i = i + 1;
    }
    proof {
        assert(payload@.take(payload@.len() as int) =~= payload@);
    }
    v
}

/// The sequence number that follows `s`, modulo 256.
pub open spec fn spec_next_seq(s: u8) -> u8 {
    if s == 255 {
        0
    } else {
        (s + 1) as u8
    }
}

/// Advances a sequence counter; 255 wraps to 0.
pub fn next_seq(s: u8) -> (r: u8)
    ensures
        r == spec_next_seq(s),
{
    if s == 255 {
        0
    } else {
        s + 1
    }
}

/// Consecutive sequence numbers of one peer differ by exactly one
/// modulo 256, the wrap from 255 to 0 included.
pub proof fn lemma_seq_cadence(s: u8)
    ensures
        (spec_next_seq(s) - s) % 256 == 1,
{
}

/// The wrap itself: after 255 the counter reads 0 again.
pub proof fn lemma_seq_wraps()
    ensures
        spec_next_seq(255) == 0,
{
}

} // verus!
