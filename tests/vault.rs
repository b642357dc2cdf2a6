use quantum_vault::address::{derive_address, keys_equal, verify_address, DOMAIN_TAG};
use quantum_vault::crypto::recover_identity_digest;
use quantum_vault::open::RECORD_RENT;
use quantum_vault::{
    process_instruction, Account, CloseVault, OpenVault, SplitVault, SplitVaultAccounts,
    SplitVaultInstructionData, VaultError, ID,
};
use solana_winternitz::privkey::WinternitzPrivkey;

const LAMPORTS_PER_SOL: u64 = 1_000_000_000;
const SYSTEM: [u8; 32] = [0u8; 32];

fn account(key: [u8; 32], lamports: u64) -> Account {
    Account { key, lamports, is_record: false }
}

fn key(seed: u8) -> [u8; 32] {
    let mut k = [seed; 32];
    k[0] = 0xa0;
    k
}

struct Opened {
    privkey: WinternitzPrivkey,
    bump: u8,
    payer: Account,
    vault: Account,
}

/// Opens a record for a fresh one-time key, paid for by a payer holding `payer_lamports`.
fn open_vault(payer_lamports: u64) -> Opened {
    let privkey = WinternitzPrivkey::generate();
    let digest = privkey.pubkey().merklize();
    let bump: u8 = 255;
    let vault_address = derive_address(&digest, bump);
    let mut data = vec![OpenVault::DISCRIMINATOR];
    data.extend_from_slice(&digest);
    data.push(bump);
    let mut accounts = vec![
        account(key(1), payer_lamports),
        account(vault_address, 0),
        account(SYSTEM, 1),
    ];
    process_instruction(&ID, &mut accounts, &data).expect("Failed to open vault");
    Opened { privkey, bump, payer: accounts[0], vault: accounts[1] }
}

fn fund(payer: &mut Account, vault: &mut Account, lamports: u64) {
    payer.lamports -= lamports;
    vault.lamports += lamports;
}

fn split_data(signature: [u8; 896], bump: u8, amount: u64) -> Vec<u8> {
    let mut data = vec![SplitVault::DISCRIMINATOR];
    data.extend_from_slice(&signature);
    data.push(bump);
    data.extend_from_slice(&amount.to_le_bytes());
    data
}

fn split_message(amount: u64, split: &[u8; 32], refund: &[u8; 32]) -> [u8; 72] {
    let mut message = [0u8; 72];
    message[0..8].copy_from_slice(&amount.to_le_bytes());
    message[8..40].copy_from_slice(split);
    message[40..72].copy_from_slice(refund);
    message
}

fn close_data(signature: [u8; 896], bump: u8) -> Vec<u8> {
    let mut data = vec![CloseVault::DISCRIMINATOR];
    data.extend_from_slice(&signature);
    data.push(bump);
    data
}

#[test]
fn test_quantum_vault_refund() {
    let mut o = open_vault(10 * LAMPORTS_PER_SOL);
    fund(&mut o.payer, &mut o.vault, 5 * LAMPORTS_PER_SOL);
    assert_eq!(o.vault.lamports, 5 * LAMPORTS_PER_SOL + 890880);

    let split_key = key(2);
    let refund_key = key(3);
    let split_amount = 2 * LAMPORTS_PER_SOL;
    let message = split_message(split_amount, &split_key, &refund_key);
    let signature: [u8; 896] = o.privkey.sign(&message).into();

    let mut accounts = vec![o.vault, account(split_key, 0), account(refund_key, 0)];
    process_instruction(&ID, &mut accounts, &split_data(signature, o.bump, split_amount))
        .expect("Failed to split vault");

    assert_eq!(accounts[1].lamports, split_amount);
    assert_eq!(accounts[2].lamports, 5 * LAMPORTS_PER_SOL - split_amount + 890880);
    assert_eq!(accounts[1].lamports, split_amount);
    assert!(accounts[0].lamports == 0 && !accounts[0].is_record);
}

#[test]
fn test_quantum_vault_close() {
    let mut o = open_vault(10 * LAMPORTS_PER_SOL);
    fund(&mut o.payer, &mut o.vault, 3 * LAMPORTS_PER_SOL);

    let refund_key = key(3);
    let signature: [u8; 896] = o.privkey.sign(&refund_key).into();
    let mut accounts = vec![o.vault, account(refund_key, 0)];
    process_instruction(&ID, &mut accounts, &close_data(signature, o.bump))
        .expect("Failed to close vault");

    assert_eq!(accounts[1].lamports, 3 * LAMPORTS_PER_SOL + 890880);
    assert!(accounts[0].lamports == 0 && !accounts[0].is_record);
}

#[test]
fn derived_address_verifies_and_bit_flips_do_not() {
    let privkey = WinternitzPrivkey::generate();
    let digest = privkey.pubkey().merklize();
    for bump in [0u8, 1, 254, 255] {
        let address = derive_address(&digest, bump);
        assert!(verify_address(&address, &digest, bump));
        for bit in 0..8 {
            assert!(!verify_address(&address, &digest, bump ^ (1 << bit)));
        }
        for byte in [0usize, 13, 31] {
            for bit in 0..8 {
                let mut other = digest;
                other[byte] ^= 1 << bit;
                assert!(!verify_address(&address, &other, bump));
                let mut moved = address;
                moved[byte] ^= 1 << bit;
                assert!(!verify_address(&moved, &digest, bump));
            }
        }
    }
}

#[test]
fn derivation_hashes_digest_bump_id_and_tag() {
    let digest = [7u8; 32];
    let expected = solana_nostd_sha256::hashv(&[&digest, &[9u8], &ID, b"ProgramDerivedAddress"]);
    assert_eq!(derive_address(&digest, 9), expected);
    assert_eq!(&DOMAIN_TAG, b"ProgramDerivedAddress");
    assert_ne!(derive_address(&digest, 9), digest);
}

#[test]
fn keys_equal_compares_every_byte() {
    let a = key(4);
    let mut b = a;
    assert!(keys_equal(&a, &b));
    b[31] ^= 1;
    assert!(!keys_equal(&a, &b));
}

#[test]
fn recovered_digest_matches_the_signer() {
    let privkey = WinternitzPrivkey::generate();
    let message = b"refund here";
    let signature: [u8; 896] = privkey.sign(message).into();
    let digest = recover_identity_digest(&signature, message);
    assert_eq!(digest, privkey.pubkey().merklize());
    assert_ne!(recover_identity_digest(&signature, b"refund there"), digest);
}

#[test]
fn open_then_close_returns_the_opening_balance() {
    let o = open_vault(10 * LAMPORTS_PER_SOL);
    assert_eq!(o.vault.lamports, RECORD_RENT);
    assert!(o.vault.is_record);
    assert_eq!(o.payer.lamports, 10 * LAMPORTS_PER_SOL - RECORD_RENT);

    let refund_key = key(5);
    let signature: [u8; 896] = o.privkey.sign(&refund_key).into();
    let mut accounts = vec![o.vault, account(refund_key, 0)];
    assert_eq!(process_instruction(&ID, &mut accounts, &close_data(signature, o.bump)), Ok(()));
    assert_eq!(accounts[1].lamports, RECORD_RENT);
    assert_eq!(accounts[0].lamports, 0);
    assert!(!accounts[0].is_record);
}

#[test]
fn split_pays_exact_amount_and_remainder() {
    let mut o = open_vault(10 * LAMPORTS_PER_SOL);
    let funded = 5 * LAMPORTS_PER_SOL;
    let top_up = funded - o.vault.lamports;
    fund(&mut o.payer, &mut o.vault, top_up);
    assert_eq!(o.vault.lamports, funded);

    let (split_key, refund_key) = (key(6), key(7));
    let amount = 2_000_000_000u64;
    let signature: [u8; 896] = o.privkey.sign(&split_message(amount, &split_key, &refund_key)).into();
    let mut accounts = vec![o.vault, account(split_key, 10), account(refund_key, 20)];
    assert_eq!(
        process_instruction(&ID, &mut accounts, &split_data(signature, o.bump, amount)),
        Ok(())
    );
    assert_eq!(accounts[1].lamports, 10 + 2_000_000_000);
    assert_eq!(accounts[2].lamports, 20 + 3_000_000_000);
    assert_eq!(accounts[0].lamports, 0);
    assert!(!accounts[0].is_record);
}

#[test]
fn split_with_signature_for_swapped_addresses_is_refused() {
    let o = open_vault(10 * LAMPORTS_PER_SOL);
    let (split_key, refund_key) = (key(8), key(9));
    let amount = 500_000u64;
    let signature: [u8; 896] = o.privkey.sign(&split_message(amount, &refund_key, &split_key)).into();
    let before = vec![o.vault, account(split_key, 1), account(refund_key, 2)];
    let mut accounts = before.clone();
    assert_eq!(
        process_instruction(&ID, &mut accounts, &split_data(signature, o.bump, amount)),
        Err(VaultError::AuthorizationFailure)
    );
    for (a, b) in accounts.iter().zip(before.iter()) {
        assert_eq!((a.key, a.lamports, a.is_record), (b.key, b.lamports, b.is_record));
    }
}

#[test]
fn split_with_signature_for_other_amount_is_refused() {
    let o = open_vault(10 * LAMPORTS_PER_SOL);
    let (split_key, refund_key) = (key(10), key(11));
    let signature: [u8; 896] = o.privkey.sign(&split_message(100, &split_key, &refund_key)).into();
    let mut accounts = vec![o.vault, account(split_key, 0), account(refund_key, 0)];
    assert_eq!(
        process_instruction(&ID, &mut accounts, &split_data(signature, o.bump, 200)),
        Err(VaultError::AuthorizationFailure)
    );
    assert_eq!(accounts[0].lamports, RECORD_RENT);
    assert!(accounts[0].is_record);
    assert_eq!(accounts[1].lamports, 0);
    assert_eq!(accounts[2].lamports, 0);
}

#[test]
fn split_with_wrong_bump_is_refused() {
    let o = open_vault(10 * LAMPORTS_PER_SOL);
    let (split_key, refund_key) = (key(12), key(13));
    let signature: [u8; 896] = o.privkey.sign(&split_message(1, &split_key, &refund_key)).into();
    let mut accounts = vec![o.vault, account(split_key, 0), account(refund_key, 0)];
    assert_eq!(
        process_instruction(&ID, &mut accounts, &split_data(signature, o.bump - 1, 1)),
        Err(VaultError::AuthorizationFailure)
    );
}

#[test]
fn split_payload_of_wrong_length_is_malformed() {
    let o = open_vault(10 * LAMPORTS_PER_SOL);
    let accounts = vec![o.vault, account(key(14), 0), account(key(15), 0)];
    for len in [0usize, 904, 906, 897] {
        let mut data = vec![SplitVault::DISCRIMINATOR];
        data.extend(std::iter::repeat(0u8).take(len));
        let mut acc = accounts.clone();
        assert_eq!(process_instruction(&ID, &mut acc, &data), Err(VaultError::MalformedInput));
        assert_eq!(acc[0].lamports, RECORD_RENT);
    }
    assert!(matches!(SplitVaultInstructionData::try_from(&[0u8; 904]), Err(VaultError::MalformedInput)));
}

#[test]
fn split_payload_fields_are_read_in_order() {
    let mut data = vec![0u8; 905];
    data[0] = 0x11;
    data[895] = 0x22;
    data[896] = 0x33;
    data[897] = 0x44;
    data[904] = 0x55;
    let d = SplitVaultInstructionData::try_from(&data).unwrap();
    assert_eq!((d.signature[0], d.signature[895]), (0x11, 0x22));
    assert_eq!(d.bump, [0x33]);
    assert_eq!(d.amount, [0x44, 0, 0, 0, 0, 0, 0, 0x55]);
}

#[test]
fn split_needs_three_distinct_accounts() {
    let a = account(key(16), 0);
    let b = account(key(17), 0);
    assert!(matches!(SplitVaultAccounts::try_from(&[a, b]), Err(VaultError::MalformedInput)));
    assert!(matches!(SplitVaultAccounts::try_from(&[a, b, b]), Err(VaultError::MalformedInput)));
    assert!(matches!(SplitVaultAccounts::try_from(&[a, b, a, b]), Err(VaultError::MalformedInput)));
}

#[test]
fn second_split_or_close_finds_no_record() {
    let o = open_vault(10 * LAMPORTS_PER_SOL);
    let refund_key = key(18);
    let signature: [u8; 896] = o.privkey.sign(&refund_key).into();
    let mut accounts = vec![o.vault, account(refund_key, 0)];
    assert_eq!(process_instruction(&ID, &mut accounts, &close_data(signature, o.bump)), Ok(()));

    let mut again = accounts.clone();
    assert_eq!(
        process_instruction(&ID, &mut again, &close_data(signature, o.bump)),
        Err(VaultError::RecordNotFound)
    );
    assert_eq!(again[1].lamports, RECORD_RENT);

    let split_key = key(19);
    let sig2: [u8; 896] = o.privkey.sign(&split_message(1, &split_key, &refund_key)).into();
    let mut third = vec![accounts[0], account(split_key, 0), accounts[1]];
    assert_eq!(
        process_instruction(&ID, &mut third, &split_data(sig2, o.bump, 1)),
        Err(VaultError::RecordNotFound)
    );
}

#[test]
fn split_of_more_than_the_balance_is_refused() {
    let o = open_vault(10 * LAMPORTS_PER_SOL);
    let (split_key, refund_key) = (key(20), key(21));
    let amount = RECORD_RENT + 1;
    let signature: [u8; 896] = o.privkey.sign(&split_message(amount, &split_key, &refund_key)).into();
    let mut accounts = vec![o.vault, account(split_key, 0), account(refund_key, 0)];
    assert_eq!(
        process_instruction(&ID, &mut accounts, &split_data(signature, o.bump, amount)),
        Err(VaultError::MalformedInput)
    );
    assert_eq!(accounts[0].lamports, RECORD_RENT);
}

#[test]
fn split_of_whole_balance_leaves_nothing_for_refund() {
    let o = open_vault(10 * LAMPORTS_PER_SOL);
    let (split_key, refund_key) = (key(22), key(23));
    let signature: [u8; 896] =
        o.privkey.sign(&split_message(RECORD_RENT, &split_key, &refund_key)).into();
    let mut accounts = vec![o.vault, account(split_key, 0), account(refund_key, 0)];
    assert_eq!(
        process_instruction(&ID, &mut accounts, &split_data(signature, o.bump, RECORD_RENT)),
        Ok(())
    );
    assert_eq!((accounts[1].lamports, accounts[2].lamports), (RECORD_RENT, 0));
}

#[test]
fn close_overflowing_the_refund_is_refused() {
    let o = open_vault(10 * LAMPORTS_PER_SOL);
    let refund_key = key(24);
    let signature: [u8; 896] = o.privkey.sign(&refund_key).into();
    let mut accounts = vec![o.vault, account(refund_key, u64::MAX - 5)];
    assert_eq!(
        process_instruction(&ID, &mut accounts, &close_data(signature, o.bump)),
        Err(VaultError::CollaboratorFailure)
    );
    assert!(accounts[0].is_record);
}

#[test]
fn open_at_a_foreign_address_is_refused() {
    let digest = [3u8; 32];
    let mut data = vec![OpenVault::DISCRIMINATOR];
    data.extend_from_slice(&digest);
    data.push(255);
    let mut accounts = vec![account(key(25), LAMPORTS_PER_SOL), account(key(26), 0), account(SYSTEM, 1)];
    assert_eq!(
        process_instruction(&ID, &mut accounts, &data),
        Err(VaultError::AuthorizationFailure)
    );
    assert_eq!(accounts[0].lamports, LAMPORTS_PER_SOL);
}

#[test]
fn open_needs_payer_funds_and_a_free_address() {
    let digest = [4u8; 32];
    let address = derive_address(&digest, 7);
    let mut data = vec![OpenVault::DISCRIMINATOR];
    data.extend_from_slice(&digest);
    data.push(7);
    let mut poor = vec![account(key(27), RECORD_RENT - 1), account(address, 0), account(SYSTEM, 1)];
    assert_eq!(process_instruction(&ID, &mut poor, &data), Err(VaultError::CollaboratorFailure));
    let mut used = vec![account(key(27), LAMPORTS_PER_SOL), account(address, 5), account(SYSTEM, 1)];
    assert_eq!(process_instruction(&ID, &mut used, &data), Err(VaultError::CollaboratorFailure));
    let mut wrong_allocator =
        vec![account(key(27), LAMPORTS_PER_SOL), account(address, 0), account(key(28), 1)];
    assert_eq!(
        process_instruction(&ID, &mut wrong_allocator, &data),
        Err(VaultError::MalformedInput)
    );
    let mut ok = vec![account(key(27), RECORD_RENT), account(address, 0), account(SYSTEM, 1)];
    assert_eq!(process_instruction(&ID, &mut ok, &data), Ok(()));
    assert_eq!((ok[0].lamports, ok[1].lamports, ok[1].is_record), (0, RECORD_RENT, true));
}

#[test]
fn dispatcher_rejects_empty_and_unknown_requests() {
    let mut accounts = vec![account(key(29), 1)];
    assert_eq!(process_instruction(&ID, &mut accounts, &[]), Err(VaultError::MalformedInput));
    assert_eq!(process_instruction(&ID, &mut accounts, &[3]), Err(VaultError::MalformedInput));
    assert_eq!(process_instruction(&ID, &mut accounts, &[2]), Err(VaultError::MalformedInput));
}

#[test]
fn concrete_split_scenario() {
    let privkey = WinternitzPrivkey::generate();
    let digest = privkey.pubkey().merklize();
    let bump: u8 = 254;
    let address = derive_address(&digest, bump);
    let mut vault = Account { key: address, lamports: 5_000_000_000, is_record: true };
    let (p_split, p_refund) = (key(30), key(31));
    let signature: [u8; 896] =
        privkey.sign(&split_message(2_000_000_000, &p_split, &p_refund)).into();
    vault.is_record = true;
    let mut accounts = vec![vault, account(p_split, 7), account(p_refund, 9)];
    assert_eq!(
        process_instruction(&ID, &mut accounts, &split_data(signature, bump, 2_000_000_000)),
        Ok(())
    );
    assert_eq!(accounts[1].lamports, 7 + 2_000_000_000);
    assert_eq!(accounts[2].lamports, 9 + 3_000_000_000);
    assert_eq!(accounts[0].lamports, 0);
    assert!(!accounts[0].is_record);
}

#[test]
fn funds_are_conserved_by_each_transition() {
    let total = |a: &[Account]| a.iter().map(|x| x.lamports as u128).sum::<u128>();
    let privkey = WinternitzPrivkey::generate();
    let digest = privkey.pubkey().merklize();
    let address = derive_address(&digest, 200);
    let mut data = vec![OpenVault::DISCRIMINATOR];
    data.extend_from_slice(&digest);
    data.push(200);
    let mut opening = vec![account(key(32), 3_000_000), account(address, 0), account(SYSTEM, 1)];
    let before = total(&opening);
    assert_eq!(process_instruction(&ID, &mut opening, &data), Ok(()));
    assert_eq!(total(&opening), before);

    let (split_key, refund_key) = (key(33), key(34));
    let signature: [u8; 896] = privkey.sign(&split_message(400_000, &split_key, &refund_key)).into();
    let mut splitting = vec![opening[1], account(split_key, 11), account(refund_key, 13)];
    let before = total(&splitting);
    assert_eq!(
        process_instruction(&ID, &mut splitting, &split_data(signature, 200, 400_000)),
        Ok(())
    );
    assert_eq!(total(&splitting), before);
    assert_eq!(splitting[2].lamports, 13 + RECORD_RENT - 400_000);
}
