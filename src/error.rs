//! The error body the API answers with.
use vstd::prelude::*;

verus! {

/// An error as the API reports it: a code and a message.
#[derive(Debug, Clone, PartialEq, Eq)]
pub struct Error {
    pub code: i64,
    pub message: String,
}

} // verus!
