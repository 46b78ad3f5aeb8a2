//! The engine values that the frontend logic reads: candidate snapshots,
//! commit tokens and message headers, held as plain values.

use vstd::prelude::*;
use vstd::utf8::encode_utf8;

verus! {

/// The number of UTF-8 bytes of a text, as `str::len` reports it.
pub open spec fn byte_len(text: Seq<char>) -> usize {
    encode_utf8(text).len() as usize
}

/// One candidate of a snapshot.
#[derive(Clone, Debug, PartialEq, Eq)]
pub struct Candidate {
    pub id: u64,
    pub text: String,
    pub annotation: Option<String>,
}

/// What the engine shows for the current composition.
#[derive(Clone, Debug, PartialEq, Eq)]
pub struct CandidateSnapshot {
    pub epoch: u64,
    pub revision: u64,
    pub preedit: String,
    pub cursor: usize,
    pub candidates: Vec<Candidate>,
    pub highlighted: Option<u64>,
}

/// Identifies one committed action of the engine, for learning rollback.
#[derive(Clone, Copy, Debug, PartialEq, Eq, Structural)]
pub struct CommitToken {
    pub session: u64,
    pub epoch: u64,
    pub action_id: u64,
}

/// The header of every protocol message.
#[derive(Clone, Copy, Debug, PartialEq, Eq, Structural)]
pub struct MessageHeader {
    pub protocol_version: u16,
    pub client: u64,
    pub session: u64,
    pub epoch: u64,
    pub sequence: u64,
    pub revision: u64,
    pub deployment: u64,
}

/// The byte length of a string.
pub fn text_byte_len(text: &String) -> (n: usize)
    ensures
        n == byte_len(text@),
{
    text.as_str().len()
}

} // verus!
