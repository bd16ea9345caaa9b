//! Why an invocation was refused.

use vstd::prelude::*;

verus! {

/// The failures that the handler reports to the host runtime.
#[derive(Debug, Clone, Copy, PartialEq, Eq, Structural)]
pub enum ErrorKind {
    /// No account was supplied where one was required.
    MissingAccount,
    /// The account's owner is not the executing program.
    IncorrectOwner,
    /// The account's buffer is not the encoding of a record.
    DecodeError,
    /// The destination buffer is too small for the encoded record.
    EncodeError,
}

} // verus!
