//! A custody vault guarded by one-time (Winternitz) signatures.
//!
//! Funds sit in a record whose address is derived from the digest of a
//! one-time public key. Moving them out takes a signature over a canonical
//! message; the recovered key must derive the record's address, and the
//! record is destroyed by the same transition, so a spent key never
//! authorizes a second withdrawal.

pub mod address;
pub mod close;
pub mod crypto;
pub mod laws;

pub mod open;
pub mod split;
pub mod state;

pub use address::ID;
pub use close::{CloseVault, CloseVaultAccounts, CloseVaultInstructionData};
pub use open::{OpenVault, OpenVaultAccounts, OpenVaultInstructionData};
pub use split::{SplitVault, SplitVaultAccounts, SplitVaultInstructionData};
pub use state::{Account, VaultError};

use vstd::prelude::*;
use close::{close_outcome, CLOSE_DATA_LEN};
use open::{open_outcome, OPEN_DATA_LEN};
use split::{split_outcome, SPLIT_DATA_LEN};

verus! {

/// What a request does to the accounts it lists: the leading tag byte picks
/// Open (0), Split (1) or Close (2), which reads the rest of the payload. An
/// empty request, an unknown tag, or accounts or a payload of the wrong shape
/// for the transition are malformed.
pub open spec fn instruction_outcome(accounts: Seq<Account>, data: Seq<u8>) -> Result<
    Seq<Account>,
    VaultError,
> {
    if data.len() == 0 {
        Err(VaultError::MalformedInput)
    } else {
        let rest = data.drop_first();
        if data[0] == OpenVault::DISCRIMINATOR {
            if OpenVaultAccounts::valid_list(accounts) && rest.len() == OPEN_DATA_LEN {
                open_outcome(accounts, rest)
            } else {
                Err(VaultError::MalformedInput)
            }
        } else if data[0] == SplitVault::DISCRIMINATOR {
            if SplitVaultAccounts::valid_list(accounts) && rest.len() == SPLIT_DATA_LEN {
                split_outcome(accounts, rest)
            } else {
                Err(VaultError::MalformedInput)
            }
        } else if data[0] == CloseVault::DISCRIMINATOR {
            if CloseVaultAccounts::valid_list(accounts) && rest.len() == CLOSE_DATA_LEN {
                close_outcome(accounts, rest)
            } else {
                Err(VaultError::MalformedInput)
            }
        } else {
            Err(VaultError::MalformedInput)
        }
    }
}

/// Routes a request to its transition and, when it succeeds, writes the
/// accounts back. A refused request leaves every account as it was.
pub fn process_instruction(
    _program_id: &[u8; 32],
    accounts: &mut Vec<Account>,
    instruction_data: &[u8],
) -> (r: Result<(), VaultError>)
    ensures
        match instruction_outcome(old(accounts)@, instruction_data@) {
            Ok(after) => r is Ok && final(accounts)@ == after,
            Err(e) => r == Err::<(), VaultError>(e) && final(accounts)@ == old(accounts)@,
        },
{
    if instruction_data.len() == 0 {
        return Err(VaultError::MalformedInput);
    }
    let tag = instruction_data[0];
    let (_, data) = instruction_data.split_at(1);
    assert(data@ =~= instruction_data@.drop_first());
    if tag == OpenVault::DISCRIMINATOR {
        let mut ix = OpenVault::try_from(data, accounts.as_slice())?;
        ix.process()?;
        accounts[0] = ix.accounts.payer;
        accounts[1] = ix.accounts.vault;
        accounts[2] = ix.accounts.system_program;
        assert(accounts@ =~= ix.accounts.as_seq());
        Ok(())
    } else if tag == SplitVault::DISCRIMINATOR {
        let mut ix = SplitVault::try_from(data, accounts.as_slice())?;
        ix.process()?;
        accounts[0] = ix.accounts.vault;
        accounts[1] = ix.accounts.split;
        accounts[2] = ix.accounts.refund;
        assert(accounts@ =~= ix.accounts.as_seq());
        Ok(())
    } else if tag == CloseVault::DISCRIMINATOR {
        let mut ix = CloseVault::try_from(data, accounts.as_slice())?;
        ix.process()?;
        accounts[0] = ix.accounts.vault;
        accounts[1] = ix.accounts.refund;
        assert(accounts@ =~= ix.accounts.as_seq());
        Ok(())
    } else {
        Err(VaultError::MalformedInput)
    }
}

} // verus!
