//! A greeting counter kept in an account's byte buffer.
//!
//! The host runtime hands [`process_instruction`] the identifier of the
//! executing program and a list of accounts. The first account's buffer holds a
//! [`GreetingAccount`], four bytes, little-endian; each invocation adds one to
//! its counter, in place.

pub mod account;
pub mod codec;
pub mod error;
pub mod processor;
pub mod state;

pub use account::{Account, AccountView, ProgramId};
pub use error::ErrorKind;
pub use processor::process_instruction;
pub use state::GreetingAccount;
