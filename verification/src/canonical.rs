//! Canonical (BCS) bytes of the plain values that the client hashes.

use vstd::bytes::spec_u64_to_le_bytes;
use vstd::prelude::*;

verus! {

/// The longest sequence that has canonical bytes.
pub const MAX_SEQUENCE_LENGTH: usize = 0x7fff_ffff;

/// A length in ULEB128: seven bits to a byte, lowest first, the top bit set on
/// every byte but the last.
pub open spec fn uleb128(n: nat) -> Seq<u8>
    decreases n,
{
    if n < 128 {
        seq![n as u8]
    } else {
        seq![(n % 128 + 128) as u8] + uleb128(n / 128)
    }
}

/// A byte string in canonical form: its length, then its bytes.
pub open spec fn canonical_byte_string(bytes: Seq<u8>) -> Seq<u8> {
    uleb128(bytes.len()) + bytes
}

/// An optional `u64` in canonical form: `00`, or `01` and the number in
/// little-endian order.
pub open spec fn canonical_option_u64(value: Option<u64>) -> Seq<u8> {
    match value {
        None => seq![0u8],
        Some(number) => seq![1u8] + spec_u64_to_le_bytes(number),
    }
}

/// The canonical bytes of the tuple `(epoch, root_hash, version,
/// timestamp_usecs, next_epoch)`: the canonical bytes of its members, one
/// after the other.
pub open spec fn canonical_summary(
    epoch: u64,
    root_hash: Seq<u8>,
    version: u64,
    timestamp_usecs: u64,
    next_epoch: Option<u64>,
) -> Seq<u8> {
    spec_u64_to_le_bytes(epoch) + canonical_byte_string(root_hash) + spec_u64_to_le_bytes(version)
        + spec_u64_to_le_bytes(timestamp_usecs) + canonical_option_u64(next_epoch)
}

/// Calls `bcs::to_bytes` on the tuple of its arguments. Trusted: BCS writes a
/// tuple as its members in order, a `u64` as eight little-endian bytes, a byte
/// slice as its ULEB128 length and its bytes, and an option as `00` or as `01`
/// and the value. The call fails only on a slice longer than
/// `MAX_SEQUENCE_LENGTH`, which `requires` leaves out.
#[verifier::external_body]
pub(crate) fn bcs_summary(
    epoch: u64,
    root_hash: &[u8],
    version: u64,
    timestamp_usecs: u64,
    next_epoch: Option<u64>,
) -> (bytes: Vec<u8>)
    requires
        root_hash@.len() <= MAX_SEQUENCE_LENGTH,
    ensures
        bytes@ == canonical_summary(epoch, root_hash@, version, timestamp_usecs, next_epoch),
{
    bcs::to_bytes(&(epoch, root_hash, version, timestamp_usecs, next_epoch)).unwrap()
}

} // verus!
