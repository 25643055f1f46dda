//! The wire framing of the voice-chat control channel: every message is a
//! 6-byte header (2-byte big-endian type tag, 4-byte big-endian payload
//! length) followed by the payload bytes.

use vstd::prelude::*;

verus! {

use crate::MAX_PAYLOAD;

/// The value of two bytes read as a big-endian 16-bit integer.
pub open spec fn be_u16(b: Seq<u8>) -> int
    recommends
        b.len() >= 2,
{
    b[0] * 256 + b[1]
}

/// The value of four bytes read as a big-endian 32-bit integer.
pub open spec fn be_u32(b: Seq<u8>) -> int
    recommends
        b.len() >= 4,
{
    ((b[0] * 256 + b[1]) * 256 + b[2]) * 256 + b[3]
}

/// The two-byte big-endian encoding of a 16-bit integer.
pub open spec fn be_u16_bytes(v: int) -> Seq<u8>
    recommends
        0 <= v < 0x10000,
{
    seq![(v / 256) as u8, (v % 256) as u8]
}

/// The four-byte big-endian encoding of a 32-bit integer.
pub open spec fn be_u32_bytes(v: int) -> Seq<u8>
    recommends
        0 <= v < 0x100000000,
{
    seq![
        (v / 0x1000000 % 256) as u8,
        (v / 0x10000 % 256) as u8,
        (v / 0x100 % 256) as u8,
        (v % 256) as u8,
    ]
}

pub proof fn lemma_be_u16_round_trip(v: int)
    requires
        0 <= v < 0x10000,
    ensures
        be_u16(be_u16_bytes(v)) == v,
{
}

pub proof fn lemma_be_u32_round_trip(v: int)
    requires
        0 <= v < 0x100000000,
    ensures
        be_u32(be_u32_bytes(v)) == v,
{
}

pub fn read_be_u16(input: &[u8]) -> (r: u16)
    requires
        input@.len() >= 2,
    ensures
        r == be_u16(input@),
{
    (input[0] as u16) * 256 + (input[1] as u16)
}

pub fn read_be_u32(input: &[u8]) -> (r: u32)
    requires
        input@.len() >= 4,
    ensures
        r == be_u32(input@),
{
    (((input[0] as u32) * 256 + (input[1] as u32)) * 256 + (input[2] as u32)) * 256
        + (input[3] as u32)
}

/// Split a frame header into its type tag and announced payload length.
pub fn decode_header(header: &[u8]) -> (r: (u16, u32))
    requires
        header@.len() >= 6,
    ensures
        r.0 == be_u16(header@),
        r.1 == be_u32(header@.subrange(2, 6)),
{
    let tag = read_be_u16(header);
    let length = read_be_u32(vstd::slice::slice_subrange(header, 2, 6));
    (tag, length)
}

/// One complete wire message: its type tag and its raw payload.
pub struct Frame {
    pub type_tag: u16,
    pub payload: Vec<u8>,
}

impl Frame {
    /// A frame is well formed when its encoding fits under the frame size cap.
    pub open spec fn wf(self) -> bool {
        self.payload@.len() + 6 <= MAX_PAYLOAD
    }
}

/// The encoded form of one frame: header then payload.
pub open spec fn frame_bytes(tag: u16, payload: Seq<u8>) -> Seq<u8> {
    be_u16_bytes(tag as int) + be_u32_bytes(payload.len() as int) + payload
}

pub fn encode_frame(tag: u16, payload: &[u8]) -> (r: Vec<u8>)
    requires
        payload@.len() + 6 <= MAX_PAYLOAD,
    ensures
        r@ == frame_bytes(tag, payload@),
        r@.len() == payload@.len() + 6,
{
    let mut r: Vec<u8> = Vec::new();
    r.push((tag / 256) as u8);
    r.push((tag % 256) as u8);
    let len = payload.len() as u32;
    r.push((len / 0x1000000 % 256) as u8);
    r.push((len / 0x10000 % 256) as u8);
    r.push((len / 0x100 % 256) as u8);
    r.push((len % 256) as u8);
    r.extend_from_slice(payload);
    proof {
        assert(r@ =~= frame_bytes(tag, payload@));
    }
    r
}

/// What taking one frame off the front of a buffer yields: `None` when the
/// buffer does not yet hold a complete frame, otherwise the tag, the payload
/// and the remaining bytes.
pub open spec fn spec_take_frame(buf: Seq<u8>) -> Option<(u16, Seq<u8>, Seq<u8>)> {
    if buf.len() < 6 {
        None
    } else {
        let len = be_u32(buf.subrange(2, 6));
        if buf.len() < 6 + len {
            None
        } else {
            Some(
                (
                    be_u16(buf.subrange(0, 2)) as u16,
                    buf.subrange(6, 6 + len),
                    buf.skip(6 + len),
                ),
            )
        }
    }
}

/// Whether the header at the front of a buffer announces a frame larger than
/// the frame size cap; such a frame is a fatal stream error.
pub open spec fn spec_frame_oversized(buf: Seq<u8>) -> bool {
    buf.len() >= 6 && be_u32(buf.subrange(2, 6)) + 6 > MAX_PAYLOAD
}

/// The reassembly buffer of the read path: chunks read off the socket are
/// appended, complete frames are taken off the front.
pub struct Reassembler {
    buf: Vec<u8>,
}

impl View for Reassembler {
    type V = Seq<u8>;

    closed spec fn view(&self) -> Seq<u8> {
        self.buf@
    }
}

impl Reassembler {
    pub fn new() -> (r: Reassembler)
        ensures
            r@ == Seq::<u8>::empty(),
    {
        Reassembler { buf: Vec::new() }
    }

    /// Append freshly read bytes to the buffer.
    pub fn push_bytes(&mut self, chunk: &[u8])
        ensures
            final(self)@ == old(self)@ + chunk@,
    {
        self.buf.extend_from_slice(chunk);
    }

    /// Take one complete frame off the front of the buffer, if one is there.
    /// `Ok(None)` means more bytes are needed; an announced frame over the
    /// size cap is an error and the buffer is left as it was.
    pub fn next_frame(&mut self) -> (r: Result<Option<Frame>, ()>)
        ensures
            match r {
                Ok(Some(frame)) => {
                    &&& spec_take_frame(old(self)@) matches Some((tag, payload, rest))
                        && frame.type_tag == tag && frame.payload@ == payload && final(self)@
                        == rest
                    &&& frame.wf()
                },
                Ok(None) => {
                    &&& spec_take_frame(old(self)@) is None
                    &&& !spec_frame_oversized(old(self)@)
                    &&& final(self)@ == old(self)@
                },
                Err(()) => spec_frame_oversized(old(self)@) && final(self)@ == old(self)@,
            },
    {
        if self.buf.len() < 6 {
            return Ok(None);
        }
        let header: &[u8] = self.buf.as_slice();
        let len_field = read_be_u32(&header[2..6]);
        proof {
            assert(header@.subrange(2, 6) =~= self@.subrange(2, 6));
        }
        let len = len_field as usize;
        if len > MAX_PAYLOAD - 6 {
            return Err(());
        }
        if self.buf.len() < len + 6 {
            return Ok(None);
        }
        let tag_hi = self.buf[0];
        let tag_lo = self.buf[1];
        let tag = (tag_hi as u16) * 256 + (tag_lo as u16);
        let tail = self.buf.split_off(len + 6);
        let ghost whole = old(self)@;
        proof {
            assert(whole.subrange(0, 2)[0] == whole[0]);
            assert(whole.subrange(0, 2)[1] == whole[1]);
        }
        let payload_vec = self.buf.split_off(6);
        self.buf = tail;
        proof {
            assert(payload_vec@ =~= whole.subrange(6, 6 + be_u32(whole.subrange(2, 6))));
            assert(self@ =~= whole.skip(6 + be_u32(whole.subrange(2, 6))));
        }
        Ok(Some(Frame { type_tag: tag, payload: payload_vec }))
    }
}

/// Decoding inverts encoding: a buffer holding exactly one encoded frame
/// yields that frame back, with nothing left over.
pub proof fn lemma_frame_round_trip(tag: u16, payload: Seq<u8>)
    requires
        payload.len() + 6 <= MAX_PAYLOAD,
    ensures
        spec_take_frame(frame_bytes(tag, payload)) matches Some((t, p, rest)) && t == tag && p
            == payload && rest == Seq::<u8>::empty(),
{
    let whole = frame_bytes(tag, payload);
    assert(whole.subrange(0, 2) =~= be_u16_bytes(tag as int));
    assert(whole.subrange(2, 6) =~= be_u32_bytes(payload.len() as int));
    lemma_be_u16_round_trip(tag as int);
    lemma_be_u32_round_trip(payload.len() as int);
    assert(whole.subrange(6, 6 + payload.len() as int) =~= payload);
    assert(whole.skip(6 + payload.len() as int) =~= Seq::<u8>::empty());
}

/// Splitting an encoded frame at any byte boundary and feeding the two parts
/// in turn gives the same frame as feeding it whole: the first part alone is
/// never mistaken for a frame, and appending the second restores the whole.
pub proof fn lemma_partial_reassembly(tag: u16, payload: Seq<u8>, cut: int)
    requires
        payload.len() + 6 <= MAX_PAYLOAD,
        0 <= cut <= frame_bytes(tag, payload).len(),
    ensures
        cut < frame_bytes(tag, payload).len() ==> spec_take_frame(
            frame_bytes(tag, payload).take(cut),
        ) is None,
        spec_take_frame(frame_bytes(tag, payload).take(cut) + frame_bytes(tag, payload).skip(cut))
            == spec_take_frame(frame_bytes(tag, payload)),
        spec_take_frame(frame_bytes(tag, payload)) matches Some((t, p, rest)) && t == tag && p
            == payload && rest == Seq::<u8>::empty(),
{
    let whole = frame_bytes(tag, payload);
    lemma_frame_round_trip(tag, payload);
    assert(whole.take(cut) + whole.skip(cut) =~= whole);
    if cut < whole.len() {
        let part = whole.take(cut);
        if part.len() >= 6 {
            assert(part.subrange(2, 6) =~= whole.subrange(2, 6));
            assert(whole.subrange(2, 6) =~= be_u32_bytes(payload.len() as int));
            lemma_be_u32_round_trip(payload.len() as int);
            assert(part.len() < 6 + payload.len());
        }
    }
}

} // verus!
