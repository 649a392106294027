//! What the client sees of a proof: its class and the stream of public values
//! that the proving program committed to.

use vstd::prelude::*;

use crate::bytes::copy_range;
use crate::hash::HashValue;

verus! {

/// The two classes of statement that the client has proved.
#[derive(Clone, Copy, Debug, PartialEq, Eq, Structural)]
pub enum ProofKind {
    /// The validator committee rotated from one epoch to the next.
    EpochChange,
    /// An account is part of the state of the latest ledger.
    Inclusion,
}

impl ProofKind {
    /// The name under which the client logs a task of this class.
    pub open spec fn spec_name(&self) -> Seq<char> {
        match *self {
            ProofKind::EpochChange => "Epoch Change"@,
            ProofKind::Inclusion => "Inclusion"@,
        }
    }

    /// The name under which the client logs a task of this class.
    pub fn name(&self) -> (name: &'static str)
        ensures
            name@ == self.spec_name(),
    {
        match self {
            ProofKind::EpochChange => "Epoch Change",
            ProofKind::Inclusion => "Inclusion",
        }
    }
}

/// The public values of a proof: a byte stream that is read front to back,
/// once. Its view is the part that has not been read yet.
#[derive(Debug)]
pub struct PublicValues {
    buffer: Vec<u8>,
    cursor: usize,
}

impl View for PublicValues {
    type V = Seq<u8>;

    closed spec fn view(&self) -> Seq<u8> {
        self.buffer@.skip(self.cursor as int)
    }
}

impl PublicValues {
    #[verifier::type_invariant]
    spec fn cursor_in_buffer(self) -> bool {
        self.cursor <= self.buffer@.len()
    }

    /// A stream that will yield `buffer` from its first byte.
    pub fn from_bytes(buffer: Vec<u8>) -> (stream: PublicValues)
        ensures
            stream@ == buffer@,
    {
        PublicValues { buffer, cursor: 0 }
    }

    /// How many bytes are left to read.
    pub fn remaining(&self) -> (count: usize)
        ensures
            count == self@.len(),
    {
        proof {
            use_type_invariant(self);
        }
        self.buffer.len() - self.cursor
    }

    /// Reads the next `count` bytes, or nothing at all if fewer are left.
    pub fn read_bytes(&mut self, count: usize) -> (read: Option<Vec<u8>>)
        ensures
            match read {
                Some(bytes) => {
                    &&& count <= old(self)@.len()
                    &&& bytes@ == old(self)@.subrange(0, count as int)
                    &&& final(self)@ == old(self)@.skip(count as int)
                },
                None => count > old(self)@.len() && final(self)@ == old(self)@,
            },
    {
        proof {
            use_type_invariant(&*self);
        }
        if count > self.buffer.len() - self.cursor {
            return None;
        }
        let start = self.cursor;
        let bytes = copy_range(self.buffer.as_slice(), start, start + count);
        self.cursor = start + count;
        assert(bytes@ == old(self)@.subrange(0, count as int));
        assert(self@ == old(self)@.skip(count as int));
        Some(bytes)
    }

    /// Reads the next 32 bytes as a digest, or nothing at all if fewer are left.
    pub fn read_hash(&mut self) -> (read: Option<HashValue>)
        ensures
            match read {
                Some(value) => {
                    &&& 32 <= old(self)@.len()
                    &&& value@ == old(self)@.subrange(0, 32)
                    &&& final(self)@ == old(self)@.skip(32)
                },
                None => old(self)@.len() < 32 && final(self)@ == old(self)@,
            },
    {
        match self.read_bytes(32) {
            Some(bytes) => {
                match HashValue::from_slice(bytes.as_slice()) {
                    Ok(value) => Some(value),
                    Err(_) => None,
                }
            },
            None => None,
        }
    }
}

} // verus!
