//! The input and the output of the program that proves a ratchet.
//!
//! The proving program reads two byte strings, the trusted state and the
//! witness of the epoch change, in that order, and commits to two digests:
//! the hash of the committee it started from and the hash of the committee
//! it arrived at.

use vstd::prelude::*;

use crate::bytes::copy_range;
use crate::error::ClientError;
use crate::public_values::PublicValues;

verus! {

/// What is handed to a proving program: byte strings, read in the order in
/// which they were written.
#[derive(Debug, PartialEq, Eq)]
pub struct ProverInput {
    buffer: Vec<Vec<u8>>,
}

impl View for ProverInput {
    type V = Seq<Seq<u8>>;

    closed spec fn view(&self) -> Seq<Seq<u8>> {
        Seq::new(self.buffer@.len(), |i: int| self.buffer@[i]@)
    }
}

impl ProverInput {
    /// An input with nothing written to it.
    pub fn new() -> (input: ProverInput)
        ensures
            input@ == Seq::<Seq<u8>>::empty(),
    {
        let input = ProverInput { buffer: Vec::new() };
        assert(input@ =~= Seq::<Seq<u8>>::empty());
        input
    }

    /// Writes `data` behind what was written before.
    pub fn write(&mut self, data: &[u8])
        ensures
            final(self)@ == old(self)@.push(data@),
    {
        let copy = copy_range(data, 0, data.len());
        assert(data@.subrange(0, data@.len() as int) == data@);
        self.buffer.push(copy);
        assert(self@ =~= old(self)@.push(data@));
    }

    /// How many byte strings were written.
    pub fn len(&self) -> (count: usize)
        ensures
            count == self@.len(),
    {
        self.buffer.len()
    }

    /// The byte string that was written at position `index`.
    pub fn entry(&self, index: usize) -> (data: &Vec<u8>)
        requires
            index < self@.len(),
        ensures
            data@ == self@[index as int],
    {
        &self.buffer[index]
    }
}

/// Makes the input of the ratchet program: the canonical bytes of the
/// current trusted state, then those of the witness of the epoch change.
pub fn generate_stdin(current_trusted_state: &[u8], epoch_change_proof: &[u8]) -> (stdin:
    ProverInput)
    ensures
        stdin@ == seq![current_trusted_state@, epoch_change_proof@],
{
    let mut stdin = ProverInput::new();
    stdin.write(current_trusted_state);
    stdin.write(epoch_change_proof);
    assert(stdin@ =~= seq![current_trusted_state@, epoch_change_proof@]);
    stdin
}

/// What a ratchet proof commits to.
#[derive(Clone, Copy, Debug, PartialEq, Eq)]
pub struct RatchetOutput {
    /// The hash of the committee that the ratchet started from.
    pub prev_validator_verifier_hash: [u8; 32],
    /// The hash of the committee that the ratchet arrived at.
    pub new_validator_verifier_hash: [u8; 32],
}

/// Reads what a ratchet proof commits to from its public values: two digests
/// of 32 bytes. Public values with fewer than 64 bytes left fail with
/// `Decode`, and nothing is read from them.
pub fn read_ratchet_output(public_values: &mut PublicValues) -> (result: Result<
    RatchetOutput,
    ClientError,
>)
    ensures
        match result {
            Ok(output) => {
                &&& old(public_values)@.len() >= 64
                &&& output.prev_validator_verifier_hash@ == old(public_values)@.subrange(0, 32)
                &&& output.new_validator_verifier_hash@ == old(public_values)@.subrange(32, 64)
                &&& final(public_values)@ == old(public_values)@.skip(64)
            },
            Err(error) => {
                &&& error == ClientError::Decode
                &&& old(public_values)@.len() < 64
                &&& final(public_values)@ == old(public_values)@
            },
        },
{
    if public_values.remaining() < 64 {
        return Err(ClientError::Decode);
    }
    let prev = match public_values.read_hash() {
        Some(value) => value,
        None => {
            return Err(ClientError::Decode);
        },
    };
    let new = match public_values.read_hash() {
        Some(value) => value,
        None => {
            return Err(ClientError::Decode);
        },
    };
    assert(old(public_values)@.skip(32).subrange(0, 32) == old(public_values)@.subrange(32, 64));
    assert(old(public_values)@.skip(32).skip(32) == old(public_values)@.skip(64));
    Ok(
        RatchetOutput {
            prev_validator_verifier_hash: prev.hash(),
            new_validator_verifier_hash: new.hash(),
        },
    )
}

} // verus!
