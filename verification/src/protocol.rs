//! The messages that the client sends to the proof server.
//!
//! A request is written as three fields, without any variable-length
//! integer: the number of its variant in four bytes, the length of its
//! payload in eight bytes, both least significant byte first, and then the
//! payload. The payload itself is the canonical form of a witness or of a
//! proof, which this crate carries but does not read.

use vstd::bytes::{
    lemma_auto_spec_u32_to_from_le_bytes, lemma_auto_spec_u64_to_from_le_bytes,
    spec_u32_from_le_bytes, spec_u32_to_le_bytes, spec_u64_from_le_bytes, spec_u64_to_le_bytes,
    u32_from_le_bytes, u32_to_le_bytes, u64_from_le_bytes, u64_to_le_bytes,
};
use vstd::prelude::*;
use vstd::slice::slice_subrange;

use crate::bytes::{append_bytes, copy_range};
use crate::error::ClientError;
use crate::framing::{frame_spec, read_bytes, read_spec, write_bytes, FrameError};
use crate::public_values::ProofKind;

verus! {

/// How many bytes precede the payload of a request.
pub const REQUEST_HEADER_LENGTH: usize = 12;

/// The four things that the client asks of the proof server.
#[derive(Clone, Copy, Debug, PartialEq, Eq, Structural)]
pub enum RequestKind {
    /// Prove an epoch change from its witness; answered by a proof.
    ProveEpochChange,
    /// Verify an epoch-change proof; answered by one byte.
    VerifyEpochChange,
    /// Prove the inclusion of an account from its witness; answered by a proof.
    ProveInclusion,
    /// Verify an inclusion proof; answered by one byte.
    VerifyInclusion,
}

impl RequestKind {
    /// The number that stands for the variant on the wire.
    pub open spec fn spec_tag(self) -> u32 {
        match self {
            RequestKind::ProveEpochChange => 0,
            RequestKind::VerifyEpochChange => 1,
            RequestKind::ProveInclusion => 2,
            RequestKind::VerifyInclusion => 3,
        }
    }

    /// The variant that a number stands for, if it stands for any.
    pub open spec fn spec_from_tag(tag: u32) -> Option<RequestKind> {
        if tag == 0 {
            Some(RequestKind::ProveEpochChange)
        } else if tag == 1 {
            Some(RequestKind::VerifyEpochChange)
        } else if tag == 2 {
            Some(RequestKind::ProveInclusion)
        } else if tag == 3 {
            Some(RequestKind::VerifyInclusion)
        } else {
            None
        }
    }

    /// The class of proof that a request of this variant is about.
    pub open spec fn spec_proof_kind(self) -> ProofKind {
        match self {
            RequestKind::ProveEpochChange => ProofKind::EpochChange,
            RequestKind::VerifyEpochChange => ProofKind::EpochChange,
            RequestKind::ProveInclusion => ProofKind::Inclusion,
            RequestKind::VerifyInclusion => ProofKind::Inclusion,
        }
    }

    /// Whether the answer to a request of this variant is a single byte, and
    /// not a proof.
    pub open spec fn spec_is_verification(self) -> bool {
        self is VerifyEpochChange || self is VerifyInclusion
    }

    /// The number that stands for the variant on the wire.
    #[verifier::when_used_as_spec(spec_tag)]
    pub fn tag(self) -> (tag: u32)
        ensures
            tag == self.spec_tag(),
    {
        match self {
            RequestKind::ProveEpochChange => 0,
            RequestKind::VerifyEpochChange => 1,
            RequestKind::ProveInclusion => 2,
            RequestKind::VerifyInclusion => 3,
        }
    }

    /// The variant that a number stands for, if it stands for any.
    pub fn from_tag(tag: u32) -> (kind: Option<RequestKind>)
        ensures
            kind == RequestKind::spec_from_tag(tag),
    {
        if tag == 0 {
            Some(RequestKind::ProveEpochChange)
        } else if tag == 1 {
            Some(RequestKind::VerifyEpochChange)
        } else if tag == 2 {
            Some(RequestKind::ProveInclusion)
        } else if tag == 3 {
            Some(RequestKind::VerifyInclusion)
        } else {
            None
        }
    }

    /// The class of proof that a request of this variant is about.
    #[verifier::when_used_as_spec(spec_proof_kind)]
    pub fn proof_kind(self) -> (kind: ProofKind)
        ensures
            kind == self.spec_proof_kind(),
    {
        match self {
            RequestKind::ProveEpochChange => ProofKind::EpochChange,
            RequestKind::VerifyEpochChange => ProofKind::EpochChange,
            RequestKind::ProveInclusion => ProofKind::Inclusion,
            RequestKind::VerifyInclusion => ProofKind::Inclusion,
        }
    }

    /// Whether the answer to a request of this variant is a single byte, and
    /// not a proof.
    #[verifier::when_used_as_spec(spec_is_verification)]
    pub fn is_verification(self) -> (single_byte: bool)
        ensures
            single_byte == self.spec_is_verification(),
    {
        match self {
            RequestKind::VerifyEpochChange => true,
            RequestKind::VerifyInclusion => true,
            _ => false,
        }
    }

    /// The name under which the client logs a request of this variant.
    pub fn name(self) -> (name: &'static str)
        ensures
            name@ == match self {
                RequestKind::ProveEpochChange => "ProveEpochChange"@,
                RequestKind::VerifyEpochChange => "VerifyEpochChange"@,
                RequestKind::ProveInclusion => "ProveInclusion"@,
                RequestKind::VerifyInclusion => "VerifyInclusion"@,
            },
    {
        match self {
            RequestKind::ProveEpochChange => "ProveEpochChange",
            RequestKind::VerifyEpochChange => "VerifyEpochChange",
            RequestKind::ProveInclusion => "ProveInclusion",
            RequestKind::VerifyInclusion => "VerifyInclusion",
        }
    }
}

/// A request as plain values.
pub struct RequestView {
    pub kind: RequestKind,
    pub payload: Seq<u8>,
}

impl RequestView {
    /// The bytes of the request on the wire.
    pub open spec fn encode(self) -> Seq<u8> {
        spec_u32_to_le_bytes(self.kind.spec_tag()) + spec_u64_to_le_bytes(self.payload.len() as u64)
            + self.payload
    }

    /// The request that `bytes` are the wire form of, if they are the wire
    /// form of any: a known variant, and a payload of exactly the advertised
    /// length.
    pub open spec fn decode(bytes: Seq<u8>) -> Option<RequestView> {
        if bytes.len() < 12 {
            None
        } else if spec_u64_from_le_bytes(bytes.subrange(4, 12)) != bytes.len() - 12 {
            None
        } else {
            match RequestKind::spec_from_tag(spec_u32_from_le_bytes(bytes.subrange(0, 4))) {
                Some(kind) => Some(
                    RequestView { kind, payload: bytes.subrange(12, bytes.len() as int) },
                ),
                None => None,
            }
        }
    }
}

/// A request to the proof server. Each variant carries its payload in
/// canonical bytes: a witness for the two that ask for a proof, a proof for
/// the two that ask for its verification.
#[derive(Debug, PartialEq, Eq)]
pub enum Request {
    ProveEpochChange(Vec<u8>),
    VerifyEpochChange(Vec<u8>),
    ProveInclusion(Vec<u8>),
    VerifyInclusion(Vec<u8>),
}

impl View for Request {
    type V = RequestView;

    open spec fn view(&self) -> RequestView {
        match *self {
            Request::ProveEpochChange(payload) => RequestView {
                kind: RequestKind::ProveEpochChange,
                payload: payload@,
            },
            Request::VerifyEpochChange(payload) => RequestView {
                kind: RequestKind::VerifyEpochChange,
                payload: payload@,
            },
            Request::ProveInclusion(payload) => RequestView {
                kind: RequestKind::ProveInclusion,
                payload: payload@,
            },
            Request::VerifyInclusion(payload) => RequestView {
                kind: RequestKind::VerifyInclusion,
                payload: payload@,
            },
        }
    }
}

impl Request {
    /// The request of variant `kind` with the payload `payload`.
    pub fn new(kind: RequestKind, payload: Vec<u8>) -> (request: Request)
        ensures
            request@ == (RequestView { kind, payload: payload@ }),
    {
        match kind {
            RequestKind::ProveEpochChange => Request::ProveEpochChange(payload),
            RequestKind::VerifyEpochChange => Request::VerifyEpochChange(payload),
            RequestKind::ProveInclusion => Request::ProveInclusion(payload),
            RequestKind::VerifyInclusion => Request::VerifyInclusion(payload),
        }
    }

    /// The variant of the request.
    pub fn kind(&self) -> (kind: RequestKind)
        ensures
            kind == self@.kind,
    {
        match self {
            Request::ProveEpochChange(_) => RequestKind::ProveEpochChange,
            Request::VerifyEpochChange(_) => RequestKind::VerifyEpochChange,
            Request::ProveInclusion(_) => RequestKind::ProveInclusion,
            Request::VerifyInclusion(_) => RequestKind::VerifyInclusion,
        }
    }

    /// The payload of the request.
    pub fn payload(&self) -> (payload: &Vec<u8>)
        ensures
            payload@ == self@.payload,
    {
        match self {
            Request::ProveEpochChange(payload) => payload,
            Request::VerifyEpochChange(payload) => payload,
            Request::ProveInclusion(payload) => payload,
            Request::VerifyInclusion(payload) => payload,
        }
    }

    /// Writes the request as the bytes that go on the wire.
    pub fn encode(&self) -> (bytes: Vec<u8>)
        ensures
            bytes@ == self@.encode(),
    {
        let payload = self.payload();
        let mut bytes = u32_to_le_bytes(self.kind().tag());
        let length = u64_to_le_bytes(payload.len() as u64);
        append_bytes(&mut bytes, length.as_slice());
        append_bytes(&mut bytes, payload.as_slice());
        bytes
    }

    /// Reads a request from its wire form. Fails with `Decode` on anything
    /// that is not the wire form of a request.
    pub fn decode(bytes: &[u8]) -> (result: Result<Request, ClientError>)
        ensures
            match result {
                Ok(request) => RequestView::decode(bytes@) == Some(request@),
                Err(error) => error == ClientError::Decode && RequestView::decode(bytes@) is None,
            },
    {
        if bytes.len() < 12 {
            return Err(ClientError::Decode);
        }
        let tag = u32_from_le_bytes(slice_subrange(bytes, 0, 4));
        let length = u64_from_le_bytes(slice_subrange(bytes, 4, 12));
        if length != (bytes.len() - 12) as u64 {
            return Err(ClientError::Decode);
        }
        match RequestKind::from_tag(tag) {
            Some(kind) => Ok(Request::new(kind, copy_range(bytes, 12, bytes.len()))),
            None => Err(ClientError::Decode),
        }
    }
}

/// Decoding gives back what encoding wrote, for a request of any variant.
pub proof fn law_request_round_trip(request: RequestView)
    requires
        request.payload.len() <= u64::MAX,
    ensures
        RequestView::decode(request.encode()) == Some(request),
{
    lemma_auto_spec_u32_to_from_le_bytes();
    lemma_auto_spec_u64_to_from_le_bytes();
    let tag = spec_u32_to_le_bytes(request.kind.spec_tag());
    let length = spec_u64_to_le_bytes(request.payload.len() as u64);
    let bytes = request.encode();
    assert(bytes.subrange(0, 4) =~= tag);
    assert(bytes.subrange(4, 12) =~= length);
    assert(bytes.subrange(12, bytes.len() as int) =~= request.payload);
}

/// Two requests with the same wire form are the same request.
pub proof fn law_encoding_is_injective(first: RequestView, second: RequestView)
    requires
        first.payload.len() <= u64::MAX,
        second.payload.len() <= u64::MAX,
        first.encode() == second.encode(),
    ensures
        first == second,
{
    law_request_round_trip(first);
    law_request_round_trip(second);
}

/// What goes on the wire for `request`: its encoding in one frame.
pub open spec fn outgoing_spec(request: RequestView) -> Seq<u8> {
    frame_spec(request.encode())
}

/// Makes the bytes to send to the proof server for `request`: its encoding
/// in one frame. Fails with `Transport` where the encoding is too long for a
/// frame.
pub fn outgoing(request: &Request) -> (result: Result<Vec<u8>, ClientError>)
    ensures
        match result {
            Ok(bytes) => request@.encode().len() <= u32::MAX && bytes@ == outgoing_spec(request@),
            Err(error) => request@.encode().len() > u32::MAX && error == ClientError::Transport,
        },
{
    let encoded = request.encode();
    let mut stream: Vec<u8> = Vec::new();
    match write_bytes(&mut stream, encoded.as_slice()) {
        Ok(_) => {
            assert(stream@ =~= frame_spec(encoded@));
            Ok(stream)
        },
        Err(_) => Err(ClientError::Transport),
    }
}

/// Takes the answer of the proof server out of the bytes that came back on
/// the connection. A stream that does not hold one whole frame of at most
/// `max_length` bytes fails with `Transport`.
pub fn incoming(stream: &[u8], max_length: u32) -> (result: Result<Vec<u8>, ClientError>)
    ensures
        match result {
            Ok(payload) => read_spec(stream@, max_length) == Ok::<Seq<u8>, FrameError>(payload@),
            Err(error) => error == ClientError::Transport && read_spec(stream@, max_length) is Err,
        },
{
    match read_bytes(stream, max_length) {
        Ok(payload) => Ok(payload),
        Err(_) => Err(ClientError::Transport),
    }
}

} // verus!
