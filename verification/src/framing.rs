//! Framing of messages on a byte stream: a length of four bytes, most
//! significant first, and then that many bytes of payload.

use vstd::prelude::*;

use crate::bytes::{append_bytes, copy_range};

verus! {

/// How many bytes the length takes in front of a payload.
pub const HEADER_LENGTH: usize = 4;

/// The longest payload that is read unless the caller sets another cap:
/// 256 MiB.
pub const DEFAULT_MAX_FRAME_LENGTH: u32 = 268_435_456;

/// Why a frame could not be written or read.
#[derive(Clone, Copy, Debug, PartialEq, Eq, Structural)]
pub enum FrameError {
    /// The stream ends before the frame does.
    Truncated,
    /// The payload is longer than the cap, or than a length of four bytes
    /// can say.
    OverSize,
}

/// A length as four bytes, most significant first.
pub open spec fn header_spec(length: u32) -> Seq<u8> {
    seq![
        (length / 0x100_0000) as u8,
        (length / 0x1_0000 % 0x100) as u8,
        (length / 0x100 % 0x100) as u8,
        (length % 0x100) as u8,
    ]
}

/// The length that four bytes stand for, most significant first.
pub open spec fn length_spec(header: Seq<u8>) -> int {
    header[0] * 0x100_0000 + header[1] * 0x1_0000 + header[2] * 0x100 + header[3]
}

/// The frame around `payload`.
pub open spec fn frame_spec(payload: Seq<u8>) -> Seq<u8> {
    header_spec(payload.len() as u32) + payload
}

/// What reading one frame from the front of `stream` yields, where payloads
/// of more than `max_length` bytes are refused. What follows the frame in
/// the stream is not read.
pub open spec fn read_spec(stream: Seq<u8>, max_length: u32) -> Result<Seq<u8>, FrameError> {
    if stream.len() < 4 {
        Err(FrameError::Truncated)
    } else if length_spec(stream.subrange(0, 4)) > max_length {
        Err(FrameError::OverSize)
    } else if stream.len() < 4 + length_spec(stream.subrange(0, 4)) {
        Err(FrameError::Truncated)
    } else {
        Ok(stream.subrange(4, 4 + length_spec(stream.subrange(0, 4))))
    }
}

/// The four bytes, most significant first, of a length read back give that
/// length.
pub proof fn lemma_header_round_trip(length: u32)
    ensures
        header_spec(length).len() == 4,
        length_spec(header_spec(length)) == length,
{
}

/// Writes `length` as the header of a frame.
pub fn encode_header(length: u32) -> (header: [u8; 4])
    ensures
        header@ == header_spec(length),
{
    let header = [
        (length / 0x100_0000) as u8,
        (length / 0x1_0000 % 0x100) as u8,
        (length / 0x100 % 0x100) as u8,
        (length % 0x100) as u8,
    ];
    assert(header@ =~= header_spec(length));
    header
}

/// Reads the length of the payload from the header of a frame, and refuses it
/// where it is above `max_length`.
pub fn decode_header(header: &[u8; 4], max_length: u32) -> (result: Result<u32, FrameError>)
    ensures
        result == (if length_spec(header@) > max_length {
            Err::<u32, FrameError>(FrameError::OverSize)
        } else {
            Ok(length_spec(header@) as u32)
        }),
{
    let length: u64 = header[0] as u64 * 0x100_0000 + header[1] as u64 * 0x1_0000 + header[2] as u64
        * 0x100 + header[3] as u64;
    if length > max_length as u64 {
        Err(FrameError::OverSize)
    } else {
        Ok(length as u32)
    }
}

/// Writes `payload` to `stream` as one frame: its length, then its bytes. A
/// payload whose length does not fit in four bytes is refused, and nothing is
/// written.
pub fn write_bytes(stream: &mut Vec<u8>, payload: &[u8]) -> (result: Result<(), FrameError>)
    ensures
        payload@.len() <= u32::MAX ==> result == Ok::<(), FrameError>(()) && final(stream)@ == old(
            stream,
        )@ + frame_spec(payload@),
        payload@.len() > u32::MAX ==> result == Err::<(), FrameError>(FrameError::OverSize)
            && final(stream)@ == old(stream)@,
{
    if payload.len() > u32::MAX as usize {
        return Err(FrameError::OverSize);
    }
    let header = encode_header(payload.len() as u32);
    append_bytes(stream, header.as_slice());
    append_bytes(stream, payload);
    assert(stream@ =~= old(stream)@ + frame_spec(payload@));
    Ok(())
}

/// Reads one frame from the front of `stream`, which holds all that the peer
/// sent: fails with `OverSize` where the advertised length is above
/// `max_length`, with `Truncated` where the stream ends before the header or
/// the payload does.
pub fn read_bytes(stream: &[u8], max_length: u32) -> (result: Result<Vec<u8>, FrameError>)
    ensures
        match result {
            Ok(payload) => read_spec(stream@, max_length) == Ok::<Seq<u8>, FrameError>(payload@),
            Err(error) => read_spec(stream@, max_length) == Err::<Seq<u8>, FrameError>(error),
        },
{
    if stream.len() < 4 {
        return Err(FrameError::Truncated);
    }
    let header = [stream[0], stream[1], stream[2], stream[3]];
    assert(header@ =~= stream@.subrange(0, 4));
    let length = match decode_header(&header, max_length) {
        Ok(length) => length as usize,
        Err(error) => {
            return Err(error);
        },
    };
    if stream.len() - 4 < length {
        return Err(FrameError::Truncated);
    }
    Ok(copy_range(stream, 4, 4 + length))
}

/// Reading gives back what writing framed: a frame around a payload of at
/// most `max_length` bytes, whatever follows it in the stream, is read as
/// that payload.
pub proof fn law_frame_round_trip(payload: Seq<u8>, max_length: u32, rest: Seq<u8>)
    requires
        payload.len() <= max_length,
    ensures
        read_spec(frame_spec(payload) + rest, max_length) == Ok::<Seq<u8>, FrameError>(payload),
{
    let length = payload.len() as u32;
    let stream = frame_spec(payload) + rest;
    lemma_header_round_trip(length);
    assert(stream.subrange(0, 4) =~= header_spec(length));
    assert(stream.subrange(4, 4 + length) =~= payload);
}

/// A frame whose header advertises more than the cap is refused as
/// `OverSize`, however much of it has arrived.
pub proof fn law_oversize_is_refused(stream: Seq<u8>, max_length: u32)
    requires
        stream.len() >= 4,
        length_spec(stream.subrange(0, 4)) > max_length,
    ensures
        read_spec(stream, max_length) == Err::<Seq<u8>, FrameError>(FrameError::OverSize),
{
}

} // verus!
