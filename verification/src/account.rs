//! Accounts as the handler sees them: an owner and a byte buffer.

use vstd::prelude::*;

verus! {

/// The number of bytes in a program identifier.
pub const PROGRAM_ID_LEN: usize = 32;

/// The identifier of a deployed program.
#[derive(Debug, Clone, Copy)]
pub struct ProgramId(pub [u8; 32]);

impl View for ProgramId {
    type V = Seq<u8>;

    open spec fn view(&self) -> Seq<u8> {
        self.0@
    }
}

impl PartialEq for ProgramId {
    fn eq(&self, other: &ProgramId) -> (r: bool) {
        let mut i: usize = 0;
        while i < PROGRAM_ID_LEN
            invariant
                i <= PROGRAM_ID_LEN,
                forall|j: int| 0 <= j < i ==> self.0@[j] == other.0@[j],
            decreases PROGRAM_ID_LEN - i,
        {
            if self.0[i] != other.0[i] {
                return false;
            }
            i += 1;
        }
        assert(self.0@ =~= other.0@);
        true
    }
}

impl Eq for ProgramId {
}

impl vstd::std_specs::cmp::PartialEqSpecImpl for ProgramId {
    open spec fn obeys_eq_spec() -> bool {
        true
    }

    open spec fn eq_spec(&self, other: &ProgramId) -> bool {
        self@ == other@
    }
}

/// A storage cell of the host runtime: the program that may change it, and
/// its bytes.
#[derive(Debug)]
pub struct Account {
    /// The program that owns this account.
    pub owner: ProgramId,
    /// The data held in this account.
    pub data: Vec<u8>,
}

/// What an [`Account`] holds, as plain sequences.
pub struct AccountView {
    /// The bytes of the owner's identifier.
    pub owner: Seq<u8>,
    /// The bytes of the buffer.
    pub data: Seq<u8>,
}

impl View for Account {
    type V = AccountView;

    open spec fn view(&self) -> AccountView {
        AccountView { owner: self.owner@, data: self.data@ }
    }
}

} // verus!
