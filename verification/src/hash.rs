//! 32-byte digests and the SHA3-256 hashing they come from.

use tiny_keccak::{Hasher, Sha3};
use vstd::prelude::*;
use vstd::string::StringSliceAdditionalSpecFns;

use crate::bytes::{append_bytes, bytes_equal};

verus! {

/// Number of bytes in a digest.
pub const HASH_LENGTH: usize = 32;

/// The SHA3-256 digest (FIPS 202) of a byte string.
pub uninterp spec fn sha3_256(data: Seq<u8>) -> Seq<u8>;

/// Runs `tiny_keccak::Sha3::v256` over `data` in one `update` and returns what
/// `finalize` writes into a 32-byte buffer. Trusted: the result is the digest
/// that `sha3_256` names.
#[verifier::external_body]
fn sha3_256_digest(data: &[u8]) -> (digest: [u8; 32])
    ensures
        digest@ == sha3_256(data@),
{
    let mut output = [0u8; 32];
    let mut hasher = Sha3::v256();
    hasher.update(data);
    hasher.finalize(&mut output);
    output
}

/// The domain separator that starts every hashing tag: the ASCII text `APTOS::`.
pub open spec fn hash_prefix() -> Seq<u8> {
    "APTOS::".spec_bytes()
}

/// The tag of the type called `name`: the digest of the separator followed by
/// the name.
pub open spec fn prefixed_sha3_spec(name: Seq<u8>) -> Seq<u8> {
    sha3_256(hash_prefix() + name)
}

/// The digest of `tag` followed by `data`.
pub open spec fn hash_data_spec(tag: Seq<u8>, data: Seq<u8>) -> Seq<u8> {
    sha3_256(tag + data)
}

/// The canonical hash of a value of the type called `name` whose canonical
/// bytes are `data`.
pub open spec fn tagged_hash_spec(name: Seq<u8>, data: Seq<u8>) -> Seq<u8> {
    hash_data_spec(prefixed_sha3_spec(name), data)
}

/// Computes the hashing tag of the type called `name`.
pub fn prefixed_sha3(name: &[u8]) -> (tag: [u8; 32])
    ensures
        tag@ == prefixed_sha3_spec(name@),
{
    let mut salted: Vec<u8> = Vec::new();
    append_bytes(&mut salted, "APTOS::".as_bytes());
    append_bytes(&mut salted, name);
    assert(salted@ == hash_prefix() + name@);
    sha3_256_digest(salted.as_slice())
}

/// Hashes `tag` followed by `data`.
pub fn hash_data(tag: &[u8], data: &[u8]) -> (digest: [u8; 32])
    ensures
        digest@ == hash_data_spec(tag@, data@),
{
    let mut input: Vec<u8> = Vec::new();
    append_bytes(&mut input, tag);
    append_bytes(&mut input, data);
    assert(input@ == tag@ + data@);
    sha3_256_digest(input.as_slice())
}

/// Why a byte string is no digest: it has `length` bytes instead of 32.
#[derive(Clone, Copy, Debug, PartialEq, Eq)]
pub struct InvalidHashLength {
    pub length: usize,
}

/// A 32-byte cryptographic digest.
#[derive(Clone, Copy, Debug)]
pub struct HashValue {
    hash: [u8; 32],
}

impl View for HashValue {
    type V = Seq<u8>;

    closed spec fn view(&self) -> Seq<u8> {
        self.hash@
    }
}

impl HashValue {
    /// Every digest has 32 bytes.
    pub broadcast proof fn lemma_len(self)
        ensures
            #[trigger] self@.len() == 32,
    {
    }

    /// Two digests with the same bytes are the same digest.
    pub proof fn lemma_view_injective(self, other: HashValue)
        requires
            self@ == other@,
        ensures
            self == other,
    {
        assert(self.hash =~= other.hash);
    }

    /// Wraps 32 bytes as a digest.
    pub fn new(hash: [u8; 32]) -> (value: HashValue)
        ensures
            value@ == hash@,
    {
        HashValue { hash }
    }

    /// The digest whose bytes are all zero.
    pub fn zero() -> (value: HashValue)
        ensures
            value@ == Seq::new(32, |i: int| 0u8),
    {
        let value = HashValue { hash: [0u8; 32] };
        assert(value@ =~= Seq::new(32, |i: int| 0u8));
        value
    }

    /// Reads a digest from a byte string, which must have exactly 32 bytes.
    pub fn from_slice(bytes: &[u8]) -> (result: Result<HashValue, InvalidHashLength>)
        ensures
            match result {
                Ok(value) => bytes@.len() == 32 && value@ == bytes@,
                Err(error) => bytes@.len() != 32 && error.length == bytes@.len(),
            },
    {
        if bytes.len() != 32 {
            return Err(InvalidHashLength { length: bytes.len() });
        }
        let mut hash = [0u8; 32];
        let mut i: usize = 0;
        while i < 32
            invariant
                i <= 32,
                bytes@.len() == 32,
                forall|j: int| 0 <= j < i ==> hash@[j] == bytes@[j],
            decreases 32 - i,
        {
            hash[i] = bytes[i];
            i += 1;
        }
        assert(hash@ =~= bytes@);
        Ok(HashValue { hash })
    }

    /// The 32 bytes of the digest.
    pub fn to_vec(&self) -> (bytes: Vec<u8>)
        ensures
            bytes@ == self@,
    {
        let mut bytes: Vec<u8> = Vec::new();
        append_bytes(&mut bytes, self.hash.as_slice());
        bytes
    }

    /// The digest as an array.
    pub fn hash(&self) -> (bytes: [u8; 32])
        ensures
            bytes@ == self@,
    {
        self.hash
    }
}

impl PartialEq for HashValue {
    fn eq(&self, other: &HashValue) -> (same: bool) {
        bytes_equal(self.hash.as_slice(), other.hash.as_slice())
    }
}

impl Eq for HashValue {

}

impl vstd::std_specs::cmp::PartialEqSpecImpl for HashValue {
    open spec fn obeys_eq_spec() -> bool {
        true
    }

    open spec fn eq_spec(&self, other: &HashValue) -> bool {
        self@ == other@
    }
}

impl Default for HashValue {
    fn default() -> (value: HashValue)
        ensures
            value@ == Seq::new(32, |i: int| 0u8),
    {
        HashValue::zero()
    }
}

} // verus!
