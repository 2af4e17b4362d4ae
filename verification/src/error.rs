//! The ways in which reading an encoding can fail.

use vstd::prelude::*;

verus! {

/// Why a read was refused: the input ended early, or it held an encoding
/// that is not accepted (with the message that says which).
#[derive(Clone, Debug, PartialEq, Eq)]
pub enum ReadError {
    UnexpectedEof,
    InvalidInput(String),
}

/// The mathematical content of a `ReadError`.
pub enum ReadFailure {
    UnexpectedEof,
    InvalidInput(Seq<char>),
}

impl View for ReadError {
    type V = ReadFailure;

    open spec fn view(&self) -> ReadFailure {
        match self {
            ReadError::UnexpectedEof => ReadFailure::UnexpectedEof,
            ReadError::InvalidInput(m) => ReadFailure::InvalidInput(m@),
        }
    }
}

/// The first failure of two reads made one after the other.
pub open spec fn first_failure(a: Option<ReadFailure>, b: Option<ReadFailure>) -> Option<ReadFailure> {
    if a is Some {
        a
    } else {
        b
    }
}

/// States that `r` is what a reader whose outcome on the input is
/// `failure` returns: `Ok` when nothing failed, the failure otherwise.
pub open spec fn outcome_matches<T>(r: Result<T, ReadError>, failure: Option<ReadFailure>) -> bool {
    match r {
        Ok(_) => failure is None,
        Err(e) => failure == Some(e@),
    }
}

/// The failure of taking `n` raw bytes from `s`.
pub open spec fn raw_failure(s: Seq<u8>, n: nat) -> Option<ReadFailure> {
    if s.len() < n {
        Some(ReadFailure::UnexpectedEof)
    } else {
        None
    }
}

} // verus!
