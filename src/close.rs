//! Close: sweep the whole balance of a record to one account and destroy
//! the record.

use vstd::prelude::*;
use crate::address::{authorized, keys_equal, verify_address};
use crate::crypto::recover_identity_digest;
use crate::state::{Account, VaultError};

verus! {

/// Length of a Close payload: signature, bump.
pub const CLOSE_DATA_LEN: usize = 897;

/// What a Close does to its accounts `[record, refund target]` given its
/// payload `signature (896) ‖ bump (1)`: the error it fails with, or the
/// accounts after it. The record must exist and the signature, over the
/// refund address, must prove ownership of it; the refund target then gains
/// the whole balance and the record is destroyed with a balance of zero.
pub open spec fn close_outcome(accounts: Seq<Account>, data: Seq<u8>) -> Result<Seq<Account>, VaultError> {
    let (vault, refund) = (accounts[0], accounts[1]);
    if !vault.is_record {
        Err(VaultError::RecordNotFound)
    } else if !authorized(data.subrange(0, 896), refund.key@, data[896], vault.key@) {
        Err(VaultError::AuthorizationFailure)
    } else if refund.lamports + vault.lamports > u64::MAX {
        Err(VaultError::CollaboratorFailure)
    } else {
        Ok(
            seq![
                Account { lamports: 0, is_record: false, ..vault },
                Account { lamports: (refund.lamports + vault.lamports) as u64, ..refund },
            ],
        )
    }
}

/// The two accounts of a Close: the record and the refund target.
#[derive(Clone, Copy, Debug)]
pub struct CloseVaultAccounts {
    pub vault: Account,
    pub refund: Account,
}

impl CloseVaultAccounts {
    /// The accounts in request order.
    pub open spec fn as_seq(self) -> Seq<Account> {
        seq![self.vault, self.refund]
    }

    /// These are the accounts listed by `accounts`, in order.
    pub open spec fn read_from(self, accounts: Seq<Account>) -> bool {
        self.as_seq() == accounts
    }

    /// A Close takes exactly two accounts, with different addresses.
    pub open spec fn valid_list(accounts: Seq<Account>) -> bool {
        &&& accounts.len() == 2
        &&& accounts[0].key@ != accounts[1].key@
    }

    /// Takes exactly two accounts, with different addresses.
    pub fn try_from(accounts: &[Account]) -> (r: Result<CloseVaultAccounts, VaultError>)
        ensures
            r is Ok <==> Self::valid_list(accounts@),
            r matches Ok(a) ==> a.read_from(accounts@),
            r matches Err(e) ==> e == VaultError::MalformedInput,
    {
        if accounts.len() != 2 {
            return Err(VaultError::MalformedInput);
        }
        let a = CloseVaultAccounts { vault: accounts[0], refund: accounts[1] };
        assert(a.as_seq() =~= accounts@);
        if keys_equal(&a.vault.key, &a.refund.key) {
            return Err(VaultError::MalformedInput);
        }
        Ok(a)
    }
}

/// The fixed-width Close payload.
#[derive(Clone, Copy, Debug)]
pub struct CloseVaultInstructionData {
    /// The one-time signature over the refund address.
    pub signature: [u8; 896],
    /// The bump of the record's address derivation.
    pub bump: [u8; 1],
}

impl CloseVaultInstructionData {
    /// The payload these fields are read from.
    pub open spec fn as_bytes(self) -> Seq<u8> {
        self.signature@ + self.bump@
    }

    /// These are the fields that `data` holds.
    pub open spec fn read_from(self, data: Seq<u8>) -> bool {
        self.as_bytes() == data
    }

    /// Reads `signature (896) ‖ bump (1)`; any other length is malformed.
    pub fn try_from(data: &[u8]) -> (r: Result<CloseVaultInstructionData, VaultError>)
        ensures
            r is Ok <==> data@.len() == CLOSE_DATA_LEN,
            r matches Ok(d) ==> d.read_from(data@),
            r matches Err(e) ==> e == VaultError::MalformedInput,
    {
        if data.len() != CLOSE_DATA_LEN {
            return Err(VaultError::MalformedInput);
        }
        let mut signature = [0u8; 896];
        let mut i: usize = 0;
        while i < 896
            invariant
                i <= 896,
                data@.len() == CLOSE_DATA_LEN,
                signature@.len() == 896,
                forall|j: int| 0 <= j < i ==> signature@[j] == data@[j],
            decreases 896 - i,
        {
            signature[i] = data[i];
            i = i + 1;
        }
        let bump = [data[896]];
        let d = CloseVaultInstructionData { signature, bump };
        assert(d.as_bytes() =~= data@);
        Ok(d)
    }
}

/// A parsed Close request.
#[derive(Clone, Copy, Debug)]
pub struct CloseVault {
    pub accounts: CloseVaultAccounts,
    pub instruction_data: CloseVaultInstructionData,
}

impl CloseVault {
    /// The tag that selects Close.
    pub const DISCRIMINATOR: u8 = 2;

    /// Checks the accounts first, then the payload.
    pub fn try_from(data: &[u8], accounts: &[Account]) -> (r: Result<CloseVault, VaultError>)
        ensures
            r is Ok <==> CloseVaultAccounts::valid_list(accounts@) && data@.len()
                == CLOSE_DATA_LEN,
            r matches Ok(v) ==> v.accounts.read_from(accounts@) && v.instruction_data.read_from(
                data@,
            ),
            r matches Err(e) ==> e == VaultError::MalformedInput,
    {
        let accounts = CloseVaultAccounts::try_from(accounts)?;
        let instruction_data = CloseVaultInstructionData::try_from(data)?;
        Ok(CloseVault { accounts, instruction_data })
    }

    /// Verifies the signature against the record's address, then sweeps the
    /// balance and destroys the record. Nothing changes unless every check
    /// passes.
    pub fn process(&mut self) -> (r: Result<(), VaultError>)
        ensures
            match close_outcome(old(self).accounts.as_seq(), old(self).instruction_data.as_bytes()) {
                Ok(after) => r is Ok && final(self).accounts.as_seq() == after
                    && final(self).instruction_data == old(self).instruction_data,
                Err(e) => r == Err::<(), VaultError>(e) && *final(self) == *old(self),
            },
    {
        if !self.accounts.vault.is_record {
            return Err(VaultError::RecordNotFound);
        }
        let digest = recover_identity_digest(
            &self.instruction_data.signature,
            &self.accounts.refund.key,
        );
        let ghost payload = self.instruction_data.as_bytes();
        assert(payload.subrange(0, 896) =~= self.instruction_data.signature@);
        if !verify_address(&self.accounts.vault.key, &digest, self.instruction_data.bump[0]) {
            return Err(VaultError::AuthorizationFailure);
        }
        let balance = self.accounts.vault.lamports;
        if self.accounts.refund.lamports > u64::MAX - balance {
            return Err(VaultError::CollaboratorFailure);
        }
        self.accounts.refund.lamports = self.accounts.refund.lamports + balance;
        self.accounts.vault.lamports = 0;
        self.accounts.vault.is_record = false;
        Ok(())
    }
}

} // verus!
