//! The errors that the database layer reports to its callers.
use vstd::prelude::*;

verus! {

#[derive(Debug, Clone, PartialEq, Eq)]
pub enum DbError {
    CureFail(String),
    ConnError(String),
    IllegalInput(String),
    SqlExecuteFail(String),
    SerializeError(String),
    /// Only meant for a fault in the code itself.
    BadCode(String),
}

} // verus!
