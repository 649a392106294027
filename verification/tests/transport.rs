use aptos_lc::error::ClientError;
use aptos_lc::framing::{
    decode_header, encode_header, read_bytes, write_bytes, FrameError, DEFAULT_MAX_FRAME_LENGTH,
    HEADER_LENGTH,
};
use aptos_lc::protocol::{incoming, outgoing, Request, RequestKind, REQUEST_HEADER_LENGTH};
use aptos_lc::public_values::ProofKind;

#[test]
fn header_is_big_endian() {
    assert_eq!(HEADER_LENGTH, 4);
    assert_eq!(encode_header(0), [0, 0, 0, 0]);
    assert_eq!(encode_header(1), [0, 0, 0, 1]);
    assert_eq!(encode_header(0x0102_0304), [1, 2, 3, 4]);
    assert_eq!(encode_header(u32::MAX), [0xff, 0xff, 0xff, 0xff]);
    assert_eq!(encode_header(268_435_456), 268_435_456u32.to_be_bytes());
}

#[test]
fn header_is_checked_against_the_cap() {
    assert_eq!(DEFAULT_MAX_FRAME_LENGTH, 256 * 1024 * 1024);
    assert_eq!(decode_header(&[1, 2, 3, 4], u32::MAX), Ok(0x0102_0304));
    assert_eq!(decode_header(&[0, 0, 0, 10], 10), Ok(10));
    assert_eq!(decode_header(&[0, 0, 0, 11], 10), Err(FrameError::OverSize));
    assert_eq!(decode_header(&[0x10, 0, 0, 0], DEFAULT_MAX_FRAME_LENGTH), Ok(268_435_456));
    assert_eq!(decode_header(&[0x10, 0, 0, 1], DEFAULT_MAX_FRAME_LENGTH), Err(FrameError::OverSize));
}

#[test]
fn frame_round_trip() {
    for payload in [vec![], vec![0u8], vec![1, 2, 3], vec![0xff; 300]] {
        let mut stream = Vec::new();
        assert_eq!(write_bytes(&mut stream, &payload), Ok(()));
        assert_eq!(stream.len(), payload.len() + 4);
        assert_eq!(read_bytes(&stream, DEFAULT_MAX_FRAME_LENGTH), Ok(payload.clone()));
        assert_eq!(read_bytes(&stream, payload.len() as u32), Ok(payload.clone()));
        stream.extend_from_slice(&[9, 9, 9]);
        assert_eq!(read_bytes(&stream, DEFAULT_MAX_FRAME_LENGTH), Ok(payload));
    }
}

#[test]
fn write_appends_to_the_stream() {
    let mut stream = vec![0xaa];
    assert_eq!(write_bytes(&mut stream, &[7, 8]), Ok(()));
    assert_eq!(stream, vec![0xaa, 0, 0, 0, 2, 7, 8]);
    assert_eq!(write_bytes(&mut stream, &[]), Ok(()));
    assert_eq!(stream, vec![0xaa, 0, 0, 0, 2, 7, 8, 0, 0, 0, 0]);
}

#[test]
fn framing_overflow() {
    // A peer that advertises 2^32 - 1 bytes is over any sensible cap.
    let stream = [0xff, 0xff, 0xff, 0xff, 1, 2, 3];
    assert_eq!(read_bytes(&stream, DEFAULT_MAX_FRAME_LENGTH), Err(FrameError::OverSize));
    assert_eq!(incoming(&stream, DEFAULT_MAX_FRAME_LENGTH), Err(ClientError::Transport));
    assert_eq!(read_bytes(&[0xff, 0xff, 0xff, 0xff], u32::MAX), Err(FrameError::Truncated));
}

#[test]
fn truncated_frames() {
    assert_eq!(read_bytes(&[], 100), Err(FrameError::Truncated));
    assert_eq!(read_bytes(&[0, 0, 0], 100), Err(FrameError::Truncated));
    assert_eq!(read_bytes(&[0, 0, 0, 3, 1, 2], 100), Err(FrameError::Truncated));
    assert_eq!(read_bytes(&[0, 0, 0, 3, 1, 2, 3], 100), Ok(vec![1, 2, 3]));
    assert_eq!(read_bytes(&[0, 0, 0, 3, 1, 2], 2), Err(FrameError::OverSize));
    assert_eq!(incoming(&[0, 0, 0, 3, 1, 2], 100), Err(ClientError::Transport));
}

#[test]
fn request_wire_form() {
    assert_eq!(REQUEST_HEADER_LENGTH, 12);
    let request = Request::VerifyEpochChange(vec![0xde, 0xad]);
    assert_eq!(request.encode(), vec![1, 0, 0, 0, 2, 0, 0, 0, 0, 0, 0, 0, 0xde, 0xad]);
    assert_eq!(Request::ProveEpochChange(vec![]).encode(), vec![0, 0, 0, 0, 0, 0, 0, 0, 0, 0, 0, 0]);
    assert_eq!(Request::ProveInclusion(vec![5]).encode(), vec![2, 0, 0, 0, 1, 0, 0, 0, 0, 0, 0, 0, 5]);
    assert_eq!(Request::VerifyInclusion(vec![]).encode(), vec![3, 0, 0, 0, 0, 0, 0, 0, 0, 0, 0, 0]);
    let long = Request::ProveInclusion(vec![7; 258]);
    assert_eq!(&long.encode()[..12], &[2, 0, 0, 0, 2, 1, 0, 0, 0, 0, 0, 0]);
}

#[test]
fn request_round_trip() {
    let payloads = [vec![], vec![1u8, 2, 3], vec![0xff; 1000]];
    for payload in payloads {
        for kind in [
            RequestKind::ProveEpochChange,
            RequestKind::VerifyEpochChange,
            RequestKind::ProveInclusion,
            RequestKind::VerifyInclusion,
        ] {
            let request = Request::new(kind, payload.clone());
            assert_eq!(request.kind(), kind);
            assert_eq!(request.payload(), &payload);
            assert_eq!(Request::decode(&request.encode()), Ok(Request::new(kind, payload.clone())));
        }
    }
}

#[test]
fn request_decode_refuses_malformed_bytes() {
    assert_eq!(Request::decode(&[]), Err(ClientError::Decode));
    assert_eq!(Request::decode(&[0; 11]), Err(ClientError::Decode));
    // unknown variant
    assert_eq!(Request::decode(&[4, 0, 0, 0, 0, 0, 0, 0, 0, 0, 0, 0]), Err(ClientError::Decode));
    assert_eq!(Request::decode(&[0, 1, 0, 0, 0, 0, 0, 0, 0, 0, 0, 0]), Err(ClientError::Decode));
    // payload shorter or longer than advertised
    assert_eq!(Request::decode(&[0, 0, 0, 0, 2, 0, 0, 0, 0, 0, 0, 0, 1]), Err(ClientError::Decode));
    assert_eq!(Request::decode(&[0, 0, 0, 0, 0, 0, 0, 0, 0, 0, 0, 0, 1]), Err(ClientError::Decode));
    assert_eq!(
        Request::decode(&[0, 0, 0, 0, 1, 0, 0, 0, 0, 0, 0, 0, 1]),
        Ok(Request::ProveEpochChange(vec![1]))
    );
}

#[test]
fn request_kinds() {
    assert_eq!(RequestKind::ProveEpochChange.tag(), 0);
    assert_eq!(RequestKind::VerifyEpochChange.tag(), 1);
    assert_eq!(RequestKind::ProveInclusion.tag(), 2);
    assert_eq!(RequestKind::VerifyInclusion.tag(), 3);
    for tag in 0..4u32 {
        assert_eq!(RequestKind::from_tag(tag).unwrap().tag(), tag);
    }
    assert_eq!(RequestKind::from_tag(4), None);
    assert_eq!(RequestKind::from_tag(u32::MAX), None);
    assert_eq!(RequestKind::ProveEpochChange.proof_kind(), ProofKind::EpochChange);
    assert_eq!(RequestKind::VerifyEpochChange.proof_kind(), ProofKind::EpochChange);
    assert_eq!(RequestKind::ProveInclusion.proof_kind(), ProofKind::Inclusion);
    assert_eq!(RequestKind::VerifyInclusion.proof_kind(), ProofKind::Inclusion);
    assert!(!RequestKind::ProveEpochChange.is_verification());
    assert!(RequestKind::VerifyEpochChange.is_verification());
    assert!(!RequestKind::ProveInclusion.is_verification());
    assert!(RequestKind::VerifyInclusion.is_verification());
    assert_eq!(RequestKind::ProveEpochChange.name(), "ProveEpochChange");
    assert_eq!(RequestKind::VerifyEpochChange.name(), "VerifyEpochChange");
    assert_eq!(RequestKind::ProveInclusion.name(), "ProveInclusion");
    assert_eq!(RequestKind::VerifyInclusion.name(), "VerifyInclusion");
}

#[test]
fn outgoing_frames_the_encoding() {
    let request = Request::VerifyInclusion(vec![9, 8, 7]);
    let bytes = outgoing(&request).unwrap();
    assert_eq!(bytes, vec![0, 0, 0, 15, 3, 0, 0, 0, 3, 0, 0, 0, 0, 0, 0, 0, 9, 8, 7]);
    let inner = incoming(&bytes, DEFAULT_MAX_FRAME_LENGTH).unwrap();
    assert_eq!(Request::decode(&inner), Ok(Request::VerifyInclusion(vec![9, 8, 7])));
}

#[test]
fn incoming_unframes_the_answer() {
    assert_eq!(incoming(&[0, 0, 0, 1, 1], DEFAULT_MAX_FRAME_LENGTH), Ok(vec![1]));
    assert_eq!(incoming(&[0, 0, 0, 0], DEFAULT_MAX_FRAME_LENGTH), Ok(vec![]));
    assert_eq!(incoming(&[0, 0, 0], DEFAULT_MAX_FRAME_LENGTH), Err(ClientError::Transport));
}
