//! How an operation on a connection ends without a result.

use vstd::prelude::*;

verus! {

/// Either the program asked the operation to stop, or something went wrong.
#[derive(Clone, Debug, PartialEq)]
pub enum InterruptibleError {
    Interrupted,
    Other(String),
}

pub type IntResult<T> = Result<T, InterruptibleError>;

} // verus!
