use std::str::FromStr;
use solana_program::pubkey::Pubkey;
use elusiv::program_account::{
    PDAAccountFields, MultiAccountAccountFields, max_account_size, big_array_accounts_count,
    get_multi_accounts_count, account_and_local_index, pda_offset_seed, pda_find, pda_pubkey,
    pda_is_valid_pubkey, MAX_PERMITTED_DATA_LENGTH,
};
use elusiv::fields::{u256_to_le_bytes, u256_from_le_bytes};
use elusiv::instructions::memo_program_id;

const SEED: &[u8] = b"TEST_seed";

fn test_program_id() -> [u64; 4] {
    [11, 22, 33, 44]
}

fn pubkey_of(limbs: &[u64; 4]) -> Pubkey {
    let bytes = u256_to_le_bytes(limbs);
    let mut arr = [0u8; 32];
    arr.copy_from_slice(&bytes);
    Pubkey::new_from_array(arr)
}

/// The address derivation must agree with the platform SDK's own.
#[test]
fn test_pda_account() {
    let program_id = test_program_id();
    let offset = Some(12u64);
    let offset_bytes = u64::to_le_bytes(offset.unwrap());
    let seed = vec![SEED, &offset_bytes[..]];

    let (expected_pubkey, expected_bump) =
        Pubkey::find_program_address(&seed, &pubkey_of(&program_id));

    let seeds = pda_offset_seed(&SEED.to_vec(), offset);
    assert_eq!(seeds, vec![SEED.to_vec(), offset_bytes.to_vec()]);

    let (result_key, result_bump) = pda_find(&SEED.to_vec(), offset, &program_id).unwrap();
    assert_eq!(pubkey_of(&result_key), expected_pubkey);
    assert_eq!(result_bump, expected_bump);

    let recomputed = pda_pubkey(&SEED.to_vec(), offset, result_bump, &program_id).unwrap();
    assert_eq!(pubkey_of(&recomputed), expected_pubkey);

    // An account storing that bump validates against its own address.
    let account_data = vec![result_bump, 0, 1];
    assert_eq!(
        pda_is_valid_pubkey(&SEED.to_vec(), offset, &account_data, &result_key, &program_id),
        Ok(true)
    );
    let other_key = [9u64, 9, 9, 9];
    assert_eq!(
        pda_is_valid_pubkey(&SEED.to_vec(), offset, &account_data, &other_key, &program_id),
        Ok(false)
    );
}

#[test]
fn test_pda_account_fields() {
    assert!(PDAAccountFields::new(&[1, 2]).is_err());
    assert!(PDAAccountFields::new(&[1, 2, 7]).is_err());
    let f = PDAAccountFields::new(&[3, 2, 1]).unwrap();
    assert_eq!(f.bump_seed, 3);
    assert_eq!(f.version, 2);
    assert!(f.initialized);
    let f = PDAAccountFields::new(&[3, 2, 0, 99]).unwrap();
    assert!(!f.initialized);
}

#[test]
fn test_multi_account_account() {
    // Header plus four 32-byte sub-account addresses.
    let keys: [[u64; 4]; 4] = [[1, 0, 0, 0], [2, 0, 0, 0], [3, 0, 0, 0], [4, 0, 0, 0]];
    let mut data = vec![7u8, 1, 1];
    for key in keys.iter() {
        data.extend(u256_to_le_bytes(key));
    }
    let fields = MultiAccountAccountFields::<4>::new(&data).unwrap();
    assert_eq!(fields.bump_seed, 7);
    assert_eq!(fields.version, 1);
    assert!(fields.initialized);
    assert_eq!(fields.all_pubkeys(), keys.to_vec());

    // Too little data is rejected.
    assert!(MultiAccountAccountFields::<4>::new(&data[..data.len() - 1]).is_err());
}

#[test]
fn test_max_account_size() {
    assert_eq!(max_account_size(1), MAX_PERMITTED_DATA_LENGTH);
    assert_eq!(max_account_size(2), MAX_PERMITTED_DATA_LENGTH);
    assert_eq!(max_account_size(3), MAX_PERMITTED_DATA_LENGTH - 1);
}

#[test]
fn test_big_array_accounts_count() {
    assert_eq!(big_array_accounts_count(MAX_PERMITTED_DATA_LENGTH, 1), 1);
    assert_eq!(big_array_accounts_count(MAX_PERMITTED_DATA_LENGTH, 32), 32);
    assert_eq!(big_array_accounts_count(MAX_PERMITTED_DATA_LENGTH + 1, 32), 33);
}

#[test]
fn test_get_multi_accounts_count() {
    assert_eq!(get_multi_accounts_count(32, 100), 4);
}

#[test]
fn test_account_and_local_index() {
    assert_eq!(account_and_local_index(0, 10), (0, 0));
    assert_eq!(account_and_local_index(25, 10), (2, 5));
}

#[test]
fn test_byte_roundtrip() {
    let v = [0x0102030405060708u64, 9, u64::MAX, 0];
    let bytes = u256_to_le_bytes(&v);
    assert_eq!(bytes.len(), 32);
    assert_eq!(u256_from_le_bytes(&bytes), v);
}

/// The memo program's address constant matches its published base58 form.
#[test]
fn test_memo_program_id() {
    let expected = Pubkey::from_str("MemoSq4gqABAXKb96qnH8TysNcWxMyWCqXgDLGmfcHr").unwrap();
    assert_eq!(pubkey_of(&memo_program_id()), expected);
}
