//! Open: create the record of an identity at its derived address.

use vstd::prelude::*;
use crate::address::{derived_address, keys_equal, verify_address};
use crate::state::{Account, VaultError};

verus! {

/// Length of an Open payload: identity digest, bump.
pub const OPEN_DATA_LEN: usize = 33;

/// The balance a new record is funded with: the minimum that keeps an
/// account with no data alive on the ledger.
pub const RECORD_RENT: u64 = 890880;

/// The address of the ledger's allocator (the system program).
pub const SYSTEM_PROGRAM_ID: [u8; 32] = [
    0, 0, 0, 0, 0, 0, 0, 0, 0, 0, 0, 0, 0, 0, 0, 0, 0, 0, 0, 0, 0, 0, 0, 0, 0, 0, 0, 0, 0, 0, 0, 0,
];

/// What an Open does to its accounts `[payer, record, allocator]` given its
/// payload `digest (32) ‖ bump (1)`: the error it fails with, or the accounts
/// after it. The record's address must be the one the identity derives, and
/// must not be in use; the payer funds the new record with `RECORD_RENT`.
pub open spec fn open_outcome(accounts: Seq<Account>, data: Seq<u8>) -> Result<Seq<Account>, VaultError> {
    let (payer, vault) = (accounts[0], accounts[1]);
    if vault.key@ != derived_address(data.subrange(0, 32), data[32]) {
        Err(VaultError::AuthorizationFailure)
    } else if vault.is_record || vault.lamports != 0 {
        Err(VaultError::CollaboratorFailure)
    } else if payer.lamports < RECORD_RENT {
        Err(VaultError::CollaboratorFailure)
    } else {
        Ok(
            seq![
                Account { lamports: (payer.lamports - RECORD_RENT) as u64, ..payer },
                Account { lamports: RECORD_RENT, is_record: true, ..vault },
                accounts[2],
            ],
        )
    }
}

/// The three accounts of an Open: the payer, the new record, the allocator.
#[derive(Clone, Copy, Debug)]
pub struct OpenVaultAccounts {
    pub payer: Account,
    pub vault: Account,
    pub system_program: Account,
}

impl OpenVaultAccounts {
    /// The accounts in request order.
    pub open spec fn as_seq(self) -> Seq<Account> {
        seq![self.payer, self.vault, self.system_program]
    }

    /// These are the accounts listed by `accounts`, in order.
    pub open spec fn read_from(self, accounts: Seq<Account>) -> bool {
        self.as_seq() == accounts
    }

    /// An Open takes exactly three accounts: a payer and a record at two
    /// different addresses, then the allocator.
    pub open spec fn valid_list(accounts: Seq<Account>) -> bool {
        &&& accounts.len() == 3
        &&& accounts[0].key@ != accounts[1].key@
        &&& accounts[2].key@ == SYSTEM_PROGRAM_ID@
    }

    /// Takes the payer, the record and the allocator, in that order.
    pub fn try_from(accounts: &[Account]) -> (r: Result<OpenVaultAccounts, VaultError>)
        ensures
            r is Ok <==> Self::valid_list(accounts@),
            r matches Ok(a) ==> a.read_from(accounts@),
            r matches Err(e) ==> e == VaultError::MalformedInput,
    {
        if accounts.len() != 3 {
            return Err(VaultError::MalformedInput);
        }
        let a = OpenVaultAccounts {
            payer: accounts[0],
            vault: accounts[1],
            system_program: accounts[2],
        };
        assert(a.as_seq() =~= accounts@);
        if keys_equal(&a.payer.key, &a.vault.key) || !keys_equal(
            &a.system_program.key,
            &SYSTEM_PROGRAM_ID,
        ) {
            return Err(VaultError::MalformedInput);
        }
        Ok(a)
    }
}

/// The fixed-width Open payload.
#[derive(Clone, Copy, Debug)]
pub struct OpenVaultInstructionData {
    /// The digest of the owner's one-time public key.
    pub hash: [u8; 32],
    /// The bump of the record's address derivation.
    pub bump: [u8; 1],
}

impl OpenVaultInstructionData {
    /// The payload these fields are read from.
    pub open spec fn as_bytes(self) -> Seq<u8> {
        self.hash@ + self.bump@
    }

    /// These are the fields that `data` holds.
    pub open spec fn read_from(self, data: Seq<u8>) -> bool {
        self.as_bytes() == data
    }

    /// Reads `digest (32) ‖ bump (1)`; any other length is malformed.
    pub fn try_from(data: &[u8]) -> (r: Result<OpenVaultInstructionData, VaultError>)
        ensures
            r is Ok <==> data@.len() == OPEN_DATA_LEN,
            r matches Ok(d) ==> d.read_from(data@),
            r matches Err(e) ==> e == VaultError::MalformedInput,
    {
        if data.len() != OPEN_DATA_LEN {
            return Err(VaultError::MalformedInput);
        }
        let mut hash = [0u8; 32];
        let mut i: usize = 0;
        while i < 32
            invariant
                i <= 32,
                data@.len() == OPEN_DATA_LEN,
                hash@.len() == 32,
                forall|j: int| 0 <= j < i ==> hash@[j] == data@[j],
            decreases 32 - i,
        {
            hash[i] = data[i];
            i = i + 1;
        }
        let bump = [data[32]];
        let d = OpenVaultInstructionData { hash, bump };
        assert(d.as_bytes() =~= data@);
        Ok(d)
    }
}

/// A parsed Open request.
#[derive(Clone, Copy, Debug)]
pub struct OpenVault {
    pub accounts: OpenVaultAccounts,
    pub instruction_data: OpenVaultInstructionData,
}

impl OpenVault {
    /// The tag that selects Open.
    pub const DISCRIMINATOR: u8 = 0;

    /// Checks the accounts first, then the payload.
    pub fn try_from(data: &[u8], accounts: &[Account]) -> (r: Result<OpenVault, VaultError>)
        ensures
            r is Ok <==> OpenVaultAccounts::valid_list(accounts@) && data@.len()
                == OPEN_DATA_LEN,
            r matches Ok(v) ==> v.accounts.read_from(accounts@) && v.instruction_data.read_from(
                data@,
            ),
            r matches Err(e) ==> e == VaultError::MalformedInput,
    {
        let accounts = OpenVaultAccounts::try_from(accounts)?;
        let instruction_data = OpenVaultInstructionData::try_from(data)?;
        Ok(OpenVault { accounts, instruction_data })
    }

    /// Checks that the record lives at the identity's derived address, then
    /// creates it, paid for by the payer. Nothing changes unless every check
    /// passes.
    pub fn process(&mut self) -> (r: Result<(), VaultError>)
        ensures
            match open_outcome(old(self).accounts.as_seq(), old(self).instruction_data.as_bytes()) {
                Ok(after) => r is Ok && final(self).accounts.as_seq() == after
                    && final(self).instruction_data == old(self).instruction_data,
                Err(e) => r == Err::<(), VaultError>(e) && *final(self) == *old(self),
            },
    {
        assert(self.instruction_data.as_bytes().subrange(0, 32) =~= self.instruction_data.hash@);
        if !verify_address(
            &self.accounts.vault.key,
            &self.instruction_data.hash,
            self.instruction_data.bump[0],
        ) {
            return Err(VaultError::AuthorizationFailure);
        }
        if self.accounts.vault.is_record || self.accounts.vault.lamports != 0 {
            return Err(VaultError::CollaboratorFailure);
        }
        if self.accounts.payer.lamports < RECORD_RENT {
            return Err(VaultError::CollaboratorFailure);
        }
        self.accounts.payer.lamports = self.accounts.payer.lamports - RECORD_RENT;
        self.accounts.vault.lamports = RECORD_RENT;
        self.accounts.vault.is_record = true;
        Ok(())
    }
}

} // verus!
