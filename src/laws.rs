//! Properties of the protocol as a whole, proved from the transitions'
//! specifications.

use vstd::prelude::*;
use vstd::bytes::spec_u64_from_le_bytes;
use crate::address::{address_verifies, derived_address};
use crate::crypto::recovered_digest;
use crate::instruction_outcome;
use crate::open::RECORD_RENT;
use crate::split::split_message;
use crate::state::{Account, VaultError};

verus! {

/// An Open request: tag 0, identity digest, bump.
pub open spec fn open_request(digest: Seq<u8>, bump: u8) -> Seq<u8> {
    seq![0u8] + digest + seq![bump]
}

/// A Split request: tag 1, signature, bump, amount (little-endian).
pub open spec fn split_request(signature: Seq<u8>, bump: u8, amount: Seq<u8>) -> Seq<u8> {
    seq![1u8] + signature + seq![bump] + amount
}

/// A Close request: tag 2, signature, bump.
pub open spec fn close_request(signature: Seq<u8>, bump: u8) -> Seq<u8> {
    seq![2u8] + signature + seq![bump]
}

/// The address derived from a digest and a bump passes the address check
/// for that same digest and bump.
pub proof fn derived_address_verifies(digest: Seq<u8>, bump: u8)
    ensures
        address_verifies(derived_address(digest, bump), digest, bump),
{
}

/// Opening a record and then closing it with the owner's signature over the
/// refund address pays the refund target exactly what the record was funded
/// with at opening, and destroys the record.
pub proof fn open_then_close(
    payer: Account,
    vault: Account,
    system_program: Account,
    refund: Account,
    digest: Seq<u8>,
    bump: u8,
    signature: Seq<u8>,
)
    requires
        digest.len() == 32,
        signature.len() == 896,
        instruction_outcome(seq![payer, vault, system_program], open_request(digest, bump)) is Ok,
        refund.key@ != vault.key@,
        recovered_digest(signature, refund.key@) == digest,
        refund.lamports + RECORD_RENT <= u64::MAX,
    ensures
        ({
            let opened = instruction_outcome(
                seq![payer, vault, system_program],
                open_request(digest, bump),
            )->Ok_0;
            let closed = instruction_outcome(
                seq![opened[1], refund],
                close_request(signature, bump),
            );
            &&& opened[1].lamports == RECORD_RENT
            &&& closed is Ok
            &&& closed->Ok_0[1].lamports == refund.lamports + opened[1].lamports
            &&& closed->Ok_0[0].lamports == 0
            &&& !closed->Ok_0[0].is_record
        }),
{
    assert(open_request(digest, bump).drop_first() =~= digest + seq![bump]);
    assert((digest + seq![bump]).subrange(0, 32) =~= digest);
    let req = close_request(signature, bump);
    assert(req.drop_first() =~= signature + seq![bump]);
    assert((signature + seq![bump]).subrange(0, 896) =~= signature);
}

/// Opening a record, funding it to `funded`, then splitting off a signed
/// amount below that balance pays the split target exactly the amount and
/// the refund target exactly the rest, and destroys the record.
pub proof fn open_fund_split(
    payer: Account,
    vault: Account,
    system_program: Account,
    split: Account,
    refund: Account,
    digest: Seq<u8>,
    bump: u8,
    funded: u64,
    signature: Seq<u8>,
    amount: Seq<u8>,
)
    requires
        digest.len() == 32,
        signature.len() == 896,
        amount.len() == 8,
        instruction_outcome(seq![payer, vault, system_program], open_request(digest, bump)) is Ok,
        split.key@ != vault.key@,
        refund.key@ != vault.key@,
        split.key@ != refund.key@,
        recovered_digest(signature, split_message(amount, split.key@, refund.key@)) == digest,
        spec_u64_from_le_bytes(amount) < funded,
        split.lamports + spec_u64_from_le_bytes(amount) <= u64::MAX,
        refund.lamports + (funded - spec_u64_from_le_bytes(amount)) <= u64::MAX,
    ensures
        ({
            let opened = instruction_outcome(
                seq![payer, vault, system_program],
                open_request(digest, bump),
            )->Ok_0;
            let record = Account { lamports: funded, ..opened[1] };
            let after = instruction_outcome(
                seq![record, split, refund],
                split_request(signature, bump, amount),
            );
            &&& after is Ok
            &&& after->Ok_0[1].lamports == split.lamports + spec_u64_from_le_bytes(amount)
            &&& after->Ok_0[2].lamports == refund.lamports + funded - spec_u64_from_le_bytes(
                amount,
            )
            &&& after->Ok_0[0].lamports == 0
            &&& !after->Ok_0[0].is_record
        }),
{
    assert(open_request(digest, bump).drop_first() =~= digest + seq![bump]);
    assert((digest + seq![bump]).subrange(0, 32) =~= digest);
    let rest = split_request(signature, bump, amount).drop_first();
    assert(rest =~= signature + seq![bump] + amount);
    assert(rest.subrange(0, 896) =~= signature);
    assert(rest.subrange(897, 905) =~= amount);
}

/// A Split whose signature does not recover, from the message actually
/// supplied, an identity that derives the record's address is refused as an
/// authorization failure, and every account stays as it was.
pub proof fn split_with_foreign_signature_fails(
    vault: Account,
    split: Account,
    refund: Account,
    signature: Seq<u8>,
    bump: u8,
    amount: Seq<u8>,
)
    requires
        signature.len() == 896,
        amount.len() == 8,
        vault.is_record,
        split.key@ != vault.key@,
        refund.key@ != vault.key@,
        split.key@ != refund.key@,
        derived_address(
            recovered_digest(signature, split_message(amount, split.key@, refund.key@)),
            bump,
        ) != vault.key@,
    ensures
        instruction_outcome(seq![vault, split, refund], split_request(signature, bump, amount))
            == Err::<Seq<Account>, VaultError>(VaultError::AuthorizationFailure),
{
    let rest = split_request(signature, bump, amount).drop_first();
    assert(rest =~= signature + seq![bump] + amount);
    assert(rest.subrange(0, 896) =~= signature);
    assert(rest.subrange(897, 905) =~= amount);
}

/// A Split payload of any length but the fixed one is refused as malformed,
/// whatever the accounts and whatever the signature bytes would recover.
pub proof fn split_with_wrong_length_is_malformed(accounts: Seq<Account>, payload: Seq<u8>)
    requires
        payload.len() != 905,
    ensures
        instruction_outcome(accounts, seq![1u8] + payload) == Err::<Seq<Account>, VaultError>(
            VaultError::MalformedInput,
        ),
{
    assert((seq![1u8] + payload).drop_first() =~= payload);
}

/// Once a Split or Close has succeeded, no further Split or Close against
/// the destroyed record succeeds, whatever its payload: a spent key pays
/// out once.
pub proof fn no_second_payout(
    accounts: Seq<Account>,
    data: Seq<u8>,
    later_accounts: Seq<Account>,
    later_data: Seq<u8>,
)
    requires
        data.len() > 0,
        data[0] == 1 || data[0] == 2,
        instruction_outcome(accounts, data) is Ok,
        later_accounts.len() > 0,
        later_accounts[0] == instruction_outcome(accounts, data)->Ok_0[0],
        later_data.len() > 0,
        later_data[0] == 1 || later_data[0] == 2,
    ensures
        instruction_outcome(later_accounts, later_data) is Err,
{
}

/// The sum of the balances of a list of accounts.
pub open spec fn total_lamports(accounts: Seq<Account>) -> int
    decreases accounts.len(),
{
    if accounts.len() == 0 {
        0
    } else {
        accounts[0].lamports + total_lamports(accounts.drop_first())
    }
}

/// A request that succeeds only moves funds between the accounts it lists:
/// the sum of their balances is the same after it as before.
pub proof fn requests_conserve_funds(accounts: Seq<Account>, data: Seq<u8>)
    requires
        instruction_outcome(accounts, data) is Ok,
    ensures
        total_lamports(instruction_outcome(accounts, data)->Ok_0) == total_lamports(accounts),
{
    reveal_with_fuel(total_lamports, 4);
    let after = instruction_outcome(accounts, data)->Ok_0;
    assert(after.len() == accounts.len());
}

} // verus!
