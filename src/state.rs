//! Accounts as the transitions see them, and the errors they report.

use vstd::prelude::*;

verus! {

/// Why a transition was refused. A refused transition changes nothing.
#[derive(Clone, Copy, Debug, PartialEq, Eq, Structural)]
pub enum VaultError {
    /// Wrong payload length, unknown tag, wrong number of accounts, or
    /// accounts that may not stand together in the request.
    MalformedInput,
    /// The identity recovered from the signature does not derive the
    /// record's address.
    AuthorizationFailure,
    /// The ledger refuses the movement of funds (too little to pay for a
    /// record, an address already in use, a balance that would overflow).
    CollaboratorFailure,
    /// The record named by the request does not exist (never opened, or
    /// already destroyed).
    RecordNotFound,
}

/// An account handed to a transition: its address, its balance, and whether
/// it currently holds a custody record of this program.
#[derive(Clone, Copy, Debug)]
pub struct Account {
    pub key: [u8; 32],
    pub lamports: u64,
    pub is_record: bool,
}

} // verus!
