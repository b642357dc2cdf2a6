//! Split: pay a signed amount to one account, the rest to another, and
//! destroy the record.

use vstd::prelude::*;
use vstd::bytes::{spec_u64_from_le_bytes, u64_from_le_bytes};
use crate::address::{authorized, keys_equal, push_all, verify_address};
use crate::crypto::recover_identity_digest;
use crate::state::{Account, VaultError};

verus! {

/// Length of a Split payload: signature, bump, amount.
pub const SPLIT_DATA_LEN: usize = 905;

/// The message a Split signature covers: amount (8 bytes, little-endian),
/// split address, refund address.
pub open spec fn split_message(amount: Seq<u8>, split: Seq<u8>, refund: Seq<u8>) -> Seq<u8> {
    amount + split + refund
}

/// What a Split does to its accounts `[record, split target, refund target]`
/// given its payload `signature (896) ‖ bump (1) ‖ amount (8)`: the error it
/// fails with, or the accounts after it. The record must exist and the
/// signature, over the amount and the two target addresses, must prove
/// ownership of it; the amount may not exceed the record's balance. The split
/// target gains the amount, the refund target the rest, and the record is
/// destroyed with a balance of zero.
pub open spec fn split_outcome(accounts: Seq<Account>, data: Seq<u8>) -> Result<Seq<Account>, VaultError> {
    let (vault, split, refund) = (accounts[0], accounts[1], accounts[2]);
    let amount_bytes = data.subrange(897, 905);
    let amount = spec_u64_from_le_bytes(amount_bytes);
    let rest = vault.lamports - amount;
    if !vault.is_record {
        Err(VaultError::RecordNotFound)
    } else if !authorized(
        data.subrange(0, 896),
        split_message(amount_bytes, split.key@, refund.key@),
        data[896],
        vault.key@,
    ) {
        Err(VaultError::AuthorizationFailure)
    } else if amount > vault.lamports {
        Err(VaultError::MalformedInput)
    } else if split.lamports + amount > u64::MAX || refund.lamports + rest > u64::MAX {
        Err(VaultError::CollaboratorFailure)
    } else {
        Ok(
            seq![
                Account { lamports: 0, is_record: false, ..vault },
                Account { lamports: (split.lamports + amount) as u64, ..split },
                Account { lamports: (refund.lamports + rest) as u64, ..refund },
            ],
        )
    }
}

/// The three accounts of a Split: the record, the split target, the refund
/// target.
#[derive(Clone, Copy, Debug)]
pub struct SplitVaultAccounts {
    pub vault: Account,
    pub split: Account,
    pub refund: Account,
}

impl SplitVaultAccounts {
    /// No account appears twice.
    pub open spec fn distinct(self) -> bool {
        &&& self.vault.key@ != self.split.key@
        &&& self.vault.key@ != self.refund.key@
        &&& self.split.key@ != self.refund.key@
    }

    /// The accounts in request order.
    pub open spec fn as_seq(self) -> Seq<Account> {
        seq![self.vault, self.split, self.refund]
    }

    /// These are the accounts listed by `accounts`, in order.
    pub open spec fn read_from(self, accounts: Seq<Account>) -> bool {
        self.as_seq() == accounts
    }

    /// A Split takes exactly three accounts, with three different addresses.
    pub open spec fn valid_list(accounts: Seq<Account>) -> bool {
        &&& accounts.len() == 3
        &&& accounts[0].key@ != accounts[1].key@
        &&& accounts[0].key@ != accounts[2].key@
        &&& accounts[1].key@ != accounts[2].key@
    }

    /// Takes exactly three accounts, with three different addresses.
    pub fn try_from(accounts: &[Account]) -> (r: Result<SplitVaultAccounts, VaultError>)
        ensures
            r is Ok <==> Self::valid_list(accounts@),
            r matches Ok(a) ==> a.read_from(accounts@),
            r matches Err(e) ==> e == VaultError::MalformedInput,
    {
        if accounts.len() != 3 {
            return Err(VaultError::MalformedInput);
        }
        let a = SplitVaultAccounts { vault: accounts[0], split: accounts[1], refund: accounts[2] };
        assert(a.as_seq() =~= accounts@);
        if keys_equal(&a.vault.key, &a.split.key) || keys_equal(&a.vault.key, &a.refund.key)
            || keys_equal(&a.split.key, &a.refund.key) {
            return Err(VaultError::MalformedInput);
        }
        Ok(a)
    }
}

/// The fixed-width Split payload.
#[derive(Clone, Copy, Debug)]
pub struct SplitVaultInstructionData {
    /// The one-time signature over the Split message.
    pub signature: [u8; 896],
    /// The amount for the split target, little-endian.
    pub amount: [u8; 8],
    /// The bump of the record's address derivation.
    pub bump: [u8; 1],
}

impl SplitVaultInstructionData {
    /// The payload these fields are read from.
    pub open spec fn as_bytes(self) -> Seq<u8> {
        self.signature@ + self.bump@ + self.amount@
    }

    /// These are the fields that `data` holds.
    pub open spec fn read_from(self, data: Seq<u8>) -> bool {
        self.as_bytes() == data
    }

    /// Reads `signature (896) ‖ bump (1) ‖ amount (8)`; any other length is
    /// malformed.
    pub fn try_from(data: &[u8]) -> (r: Result<SplitVaultInstructionData, VaultError>)
        ensures
            r is Ok <==> data@.len() == SPLIT_DATA_LEN,
            r matches Ok(d) ==> d.read_from(data@),
            r matches Err(e) ==> e == VaultError::MalformedInput,
    {
        if data.len() != SPLIT_DATA_LEN {
            return Err(VaultError::MalformedInput);
        }
        let mut signature = [0u8; 896];
        let mut i: usize = 0;
        while i < 896
            invariant
                i <= 896,
                data@.len() == SPLIT_DATA_LEN,
                signature@.len() == 896,
                forall|j: int| 0 <= j < i ==> signature@[j] == data@[j],
            decreases 896 - i,
        {
            signature[i] = data[i];
            i = i + 1;
        }
        let bump = [data[896]];
        let amount = [data[897], data[898], data[899], data[900], data[901], data[902], data[903], data[904]];
        let d = SplitVaultInstructionData { signature, amount, bump };
        assert(d.as_bytes() =~= data@);
        Ok(d)
    }

    /// The amount as an integer.
    pub open spec fn amount_value(self) -> u64 {
        spec_u64_from_le_bytes(self.amount@)
    }
}

/// A parsed Split request.
#[derive(Clone, Copy, Debug)]
pub struct SplitVault {
    pub accounts: SplitVaultAccounts,
    pub instruction_data: SplitVaultInstructionData,
}

impl SplitVault {
    /// The tag that selects Split.
    pub const DISCRIMINATOR: u8 = 1;

    /// Checks the accounts first, then the payload.
    pub fn try_from(data: &[u8], accounts: &[Account]) -> (r: Result<SplitVault, VaultError>)
        ensures
            r is Ok <==> SplitVaultAccounts::valid_list(accounts@) && data@.len()
                == SPLIT_DATA_LEN,
            r matches Ok(v) ==> v.accounts.read_from(accounts@) && v.instruction_data.read_from(
                data@,
            ),
            r matches Err(e) ==> e == VaultError::MalformedInput,
    {
        let accounts = SplitVaultAccounts::try_from(accounts)?;
        let instruction_data = SplitVaultInstructionData::try_from(data)?;
        Ok(SplitVault { accounts, instruction_data })
    }

    /// Verifies the signature against the record's address, then pays out
    /// and destroys the record. Nothing changes unless every check passes.
    pub fn process(&mut self) -> (r: Result<(), VaultError>)
        ensures
            match split_outcome(old(self).accounts.as_seq(), old(self).instruction_data.as_bytes()) {
                Ok(after) => r is Ok && final(self).accounts.as_seq() == after
                    && final(self).instruction_data == old(self).instruction_data,
                Err(e) => r == Err::<(), VaultError>(e) && *final(self) == *old(self),
            },
    {
        if !self.accounts.vault.is_record {
            return Err(VaultError::RecordNotFound);
        }
        let mut message: Vec<u8> = Vec::new();
        push_all(&mut message, &self.instruction_data.amount);
        push_all(&mut message, &self.accounts.split.key);
        push_all(&mut message, &self.accounts.refund.key);
        let ghost payload = self.instruction_data.as_bytes();
        assert(message@ == split_message(
            self.instruction_data.amount@,
            self.accounts.split.key@,
            self.accounts.refund.key@,
        ));
        assert(payload.subrange(0, 896) =~= self.instruction_data.signature@);
        assert(payload.subrange(897, 905) =~= self.instruction_data.amount@);
        let digest = recover_identity_digest(&self.instruction_data.signature, message.as_slice());
        if !verify_address(&self.accounts.vault.key, &digest, self.instruction_data.bump[0]) {
            return Err(VaultError::AuthorizationFailure);
        }
        let amount = u64_from_le_bytes(&self.instruction_data.amount);
        let balance = self.accounts.vault.lamports;
        if amount > balance {
            return Err(VaultError::MalformedInput);
        }
        let rest = balance - amount;
        if self.accounts.split.lamports > u64::MAX - amount || self.accounts.refund.lamports
            > u64::MAX - rest {
            return Err(VaultError::CollaboratorFailure);
        }
        self.accounts.split.lamports = self.accounts.split.lamports + amount;
        self.accounts.refund.lamports = self.accounts.refund.lamports + rest;
        self.accounts.vault.lamports = 0;
        self.accounts.vault.is_record = false;
        Ok(())
    }
}

} // verus!
