//! The wire framing codec: one frame is a 4-byte little-endian unsigned
//! length field followed by exactly that many payload bytes. One frame
//! carries exactly one encoded message; decoding consumes exactly the bytes
//! of one frame and never reads ahead into the next.

use vstd::prelude::*;
use crate::errors::IpcStreamReadError;

verus! {

/// The little-endian 4-byte form of a frame's length field.
pub open spec fn le_bytes_of_u32(n: u32) -> Seq<u8> {
    seq![
        (n & 0xff) as u8,
        ((n >> 8) & 0xff) as u8,
        ((n >> 16) & 0xff) as u8,
        ((n >> 24) & 0xff) as u8,
    ]
}

/// The length value held by a 4-byte little-endian length field.
pub open spec fn u32_of_le_bytes(b: Seq<u8>) -> u32
    recommends
        b.len() == 4,
{
    (b[0] as u32) | ((b[1] as u32) << 8) | ((b[2] as u32) << 16) | ((b[3] as u32) << 24)
}

/// Reading back the four little-endian bytes of a length recovers it.
pub proof fn lemma_le_round_trip(n: u32)
    ensures
        u32_of_le_bytes(le_bytes_of_u32(n)) == n,
{
    assert(((n & 0xff) as u8 as u32) | (((n >> 8) & 0xff) as u8 as u32) << 8 | (((n >> 16)
        & 0xff) as u8 as u32) << 16 | (((n >> 24) & 0xff) as u8 as u32) << 24 == n)
        by (bit_vector);
}

/// Parse the length field at the head of a 4-byte buffer.
pub fn decode_len(header: &[u8; 4]) -> (n: u32)
    ensures
        n == u32_of_le_bytes(header@),
{
    (header[0] as u32) | ((header[1] as u32) << 8) | ((header[2] as u32) << 16) | ((
    header[3] as u32) << 24)
}

/// The frame carrying a payload: its length as a little-endian 4-byte field,
/// then the payload bytes themselves.
pub open spec fn frame_of(payload: Seq<u8>) -> Seq<u8>
    recommends
        payload.len() <= u32::MAX,
{
    le_bytes_of_u32(payload.len() as u32).add(payload)
}

/// What decoding one frame from the head of a byte sequence yields: the
/// payload and the number of bytes consumed, or nothing when the sequence
/// ends before the length field or before the declared payload length.
pub open spec fn parse_frame(buf: Seq<u8>) -> Option<(Seq<u8>, int)> {
    if buf.len() < 4 {
        None
    } else {
        let n = u32_of_le_bytes(buf.subrange(0, 4)) as int;
        if buf.len() < 4 + n {
            None
        } else {
            Some((buf.subrange(4, 4 + n), 4 + n))
        }
    }
}

/// Build the frame for a payload: write its length as a 4-byte little-endian
/// field, then the payload bytes in full.
pub fn encode_frame(payload: &Vec<u8>) -> (frame: Vec<u8>)
    requires
        payload@.len() <= u32::MAX,
    ensures
        frame@ == frame_of(payload@),
{
    let n: u32 = payload.len() as u32;
    let mut frame: Vec<u8> = Vec::new();
    frame.push((n & 0xff) as u8);
    frame.push(((n >> 8) & 0xff) as u8);
    frame.push(((n >> 16) & 0xff) as u8);
    frame.push(((n >> 24) & 0xff) as u8);
    assert(frame@ =~= le_bytes_of_u32(n));
    let mut i: usize = 0;
    while i < payload.len()
        invariant
            i <= payload@.len(),
            payload@.len() <= u32::MAX,
            n == payload@.len() as u32,
            frame@ == le_bytes_of_u32(n).add(payload@.subrange(0, i as int)),
        decreases payload@.len() - i,
    {
        frame.push(payload[i]);
        assert(frame@ =~= le_bytes_of_u32(n).add(payload@.subrange(0, i + 1)));
        i += 1;
    }
    assert(frame@ =~= frame_of(payload@));
    frame
}

/// Decode one frame from the head of a buffer: read the 4-byte length field
/// as a little-endian unsigned integer `n`, then take exactly the `n`
/// following bytes as the payload. Returns the payload and the number of
/// bytes consumed; bytes past the frame are not touched. Fails when the
/// buffer ends before the length field or before `n` payload bytes.
pub fn decode_frame(buf: &Vec<u8>) -> (r: Result<(Vec<u8>, usize), IpcStreamReadError>)
    ensures
        match r {
            Ok((payload, consumed)) => parse_frame(buf@) == Some((payload@, consumed as int)),
            Err(e) => parse_frame(buf@) is None && e == IpcStreamReadError::ReadError,
        },
{
    if buf.len() < 4 {
        return Err(IpcStreamReadError::ReadError);
    }
    let header: [u8; 4] = [buf[0], buf[1], buf[2], buf[3]];
    assert(header@ =~= buf@.subrange(0, 4));
    let n: u32 = decode_len(&header);
    if (n as usize) > buf.len() - 4 {
        return Err(IpcStreamReadError::ReadError);
    }
    let end: usize = 4 + n as usize;
    let mut payload: Vec<u8> = Vec::new();
    let mut i: usize = 4;
    while i < end
        invariant
            4 <= i <= end,
            end == 4 + n as int,
            end <= buf@.len(),
            payload@ == buf@.subrange(4, i as int),
        decreases end - i,
    {
        payload.push(buf[i]);
        assert(payload@ =~= buf@.subrange(4, i + 1));
        i += 1;
    }
    Ok((payload, end))
}

/// Framing round trip: a frame built for a payload decodes back to exactly
/// that payload, consumes exactly the frame's own bytes, and leaves any
/// following bytes unread.
pub proof fn lemma_frame_round_trip(payload: Seq<u8>, rest: Seq<u8>)
    requires
        payload.len() <= u32::MAX,
    ensures
        parse_frame(frame_of(payload).add(rest)) == Some((payload, 4 + payload.len() as int)),
{
    let buf = frame_of(payload).add(rest);
    assert(buf.subrange(0, 4) =~= le_bytes_of_u32(payload.len() as u32));
    lemma_le_round_trip(payload.len() as u32);
    assert(buf.subrange(4, 4 + payload.len() as int) =~= payload);
}

/// Length-prefix fidelity, first half: a decoded frame's payload holds
/// exactly the number of bytes the length field declared, and exactly the
/// length field plus that many bytes were consumed.
pub proof fn lemma_length_prefix_fidelity(buf: Seq<u8>)
    requires
        parse_frame(buf) is Some,
    ensures
        buf.len() >= 4,
        parse_frame(buf)->Some_0.0.len() == u32_of_le_bytes(buf.subrange(0, 4)),
        parse_frame(buf)->Some_0.1 == 4 + parse_frame(buf)->Some_0.0.len(),
{
}

/// Length-prefix fidelity, second half: a buffer that ends before the
/// declared payload length (or before the length field itself) decodes to
/// nothing rather than to a short payload.
pub proof fn lemma_truncated_frame_rejected(buf: Seq<u8>)
    requires
        buf.len() < 4 || buf.len() < 4 + u32_of_le_bytes(buf.subrange(0, 4)),
    ensures
        parse_frame(buf) is None,
{
}

} // verus!
