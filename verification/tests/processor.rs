use authentik_nft::account::AccountRef;
use authentik_nft::error::AuthentikNFTError;
use authentik_nft::instruction::{AuthentikNFTInstruction, SetAuthentikNFTMetadataArgs};
use authentik_nft::processor::{authorize, process_instruction, set_nft_account};
use authentik_nft::pubkey::Pubkey;
use authentik_nft::state::AuthentikNFTAccount;

fn account(key: [u8; 32], owner: [u8; 32], data: Vec<u8>) -> AccountRef {
    AccountRef {
        key: Pubkey::new_from_array(key),
        owner: Pubkey::new_from_array(owner),
        data,
    }
}

fn pack_set(uri: &[u8], mint: [u8; 32]) -> Vec<u8> {
    AuthentikNFTInstruction::SetAuthentikNFT(SetAuthentikNFTMetadataArgs {
        uri: uri.to_vec(),
        mint: Pubkey::new_from_array(mint),
    })
    .pack()
    .unwrap()
}

#[test]
fn scenario_matching_owner_sets_record() {
    let program_id = Pubkey::new_from_array([9u8; 32]);
    let mut accounts = vec![account([5u8; 32], [9u8; 32], vec![0u8; 64])];
    let data = pack_set(b"https://example.com/1", [1u8; 32]);

    assert_eq!(process_instruction(&program_id, &mut accounts, &data), Ok(()));

    let rec = AuthentikNFTAccount::decode(&accounts[0].data).unwrap();
    assert_eq!(rec.uri, b"https://example.com/1".to_vec());
    assert_eq!(rec.mint.as_bytes(), &[1u8; 32][..]);
}

#[test]
fn scenario_mismatched_owner_leaves_buffer_unchanged() {
    let program_id = Pubkey::new_from_array([9u8; 32]);
    let mut accounts = vec![account([5u8; 32], [8u8; 32], vec![0u8; 64])];
    let data = pack_set(b"https://example.com/1", [1u8; 32]);

    assert_eq!(
        process_instruction(&program_id, &mut accounts, &data),
        Err(AuthentikNFTError::InvalidOwner)
    );
    assert_eq!(accounts[0].data, vec![0u8; 64]);
}

#[test]
fn scenario_unrecognized_tag_touches_no_buffer() {
    let program_id = Pubkey::new_from_array([9u8; 32]);
    let mut accounts = vec![account([5u8; 32], [9u8; 32], vec![0u8; 64])];
    let mut data = pack_set(b"https://example.com/1", [1u8; 32]);
    data[0] = 7;

    assert_eq!(
        process_instruction(&program_id, &mut accounts, &data),
        Err(AuthentikNFTError::InstructionUnpackError)
    );
    assert_eq!(accounts[0].data, vec![0u8; 64]);
}

#[test]
fn scenario_oversized_uri_leaves_buffer_unchanged() {
    let program_id = Pubkey::new_from_array([9u8; 32]);
    let mut accounts = vec![account([5u8; 32], [9u8; 32], vec![0u8; 64])];

    // Establish a known pre-call state first.
    let short = pack_set(b"short", [2u8; 32]);
    assert_eq!(process_instruction(&program_id, &mut accounts, &short), Ok(()));
    let before = accounts[0].data.clone();

    // 29 URI bytes need 65 bytes of capacity; only 64 are available.
    let long = pack_set(&[b'u'; 29], [2u8; 32]);
    assert_eq!(
        process_instruction(&program_id, &mut accounts, &long),
        Err(AuthentikNFTError::UriTooLong)
    );
    assert_eq!(accounts[0].data, before);
}

#[test]
fn reapplying_the_same_instruction_is_idempotent() {
    let program_id = Pubkey::new_from_array([9u8; 32]);
    let mut accounts = vec![account([5u8; 32], [9u8; 32], vec![0u8; 64])];
    let data = pack_set(b"X", [4u8; 32]);

    assert_eq!(process_instruction(&program_id, &mut accounts, &data), Ok(()));
    let after_once = accounts[0].data.clone();

    assert_eq!(process_instruction(&program_id, &mut accounts, &data), Ok(()));
    assert_eq!(accounts[0].data, after_once);
}

#[test]
fn undecodable_stored_record_is_reported() {
    let program_id = Pubkey::new_from_array([9u8; 32]);
    // 35 bytes cannot hold the fixed parts of a record.
    let mut accounts = vec![account([5u8; 32], [9u8; 32], vec![0u8; 35])];
    let data = pack_set(b"", [1u8; 32]);

    assert_eq!(
        process_instruction(&program_id, &mut accounts, &data),
        Err(AuthentikNFTError::InstructionUnpackError)
    );
    assert_eq!(accounts[0].data, vec![0u8; 35]);
}

#[test]
fn set_nft_account_updates_only_the_first_account() {
    let program_id = Pubkey::new_from_array([9u8; 32]);
    let mut accounts = vec![
        account([5u8; 32], [9u8; 32], vec![0u8; 64]),
        account([6u8; 32], [9u8; 32], vec![1u8; 10]),
    ];

    let mint = Pubkey::new_from_array([3u8; 32]);
    assert_eq!(
        set_nft_account(&program_id, &mut accounts, b"uri://a".to_vec(), mint),
        Ok(())
    );

    let rec = AuthentikNFTAccount::decode(&accounts[0].data).unwrap();
    assert_eq!(rec.uri, b"uri://a".to_vec());
    assert_eq!(accounts[1].data, vec![1u8; 10]);
}

#[test]
fn authorize_accepts_exactly_the_owner() {
    let authority = Pubkey::new_from_array([9u8; 32]);
    let owned = account([5u8; 32], [9u8; 32], vec![]);
    let foreign = account([5u8; 32], [8u8; 32], vec![]);

    assert_eq!(authorize(&owned, &authority), Ok(()));
    assert_eq!(authorize(&foreign, &authority), Err(AuthentikNFTError::InvalidOwner));
}

#[test]
fn get_from_account_reads_the_stored_record() {
    let stored = AuthentikNFTAccount {
        uri: b"uri://b".to_vec(),
        mint: Pubkey::new_from_array([6u8; 32]),
    };
    let mut data = stored.to_bytes().unwrap();
    data.extend_from_slice(&[0u8; 20]);
    let acct = account([5u8; 32], [9u8; 32], data);

    let rec = AuthentikNFTAccount::get_from_account(&acct).unwrap();
    assert_eq!(rec.uri, b"uri://b".to_vec());
    assert_eq!(rec.mint.as_bytes(), &[6u8; 32][..]);
}

#[test]
fn lib_test_sanity() {
    let program_id = Pubkey::new_from_array([0u8; 32]);
    let key = Pubkey::new_from_array([0u8; 32]);
    let owner = Pubkey::new_from_array([0u8; 32]);
    let data = vec![0u8; 128];
    let mut accounts = vec![AccountRef { key, owner, data }];

    let before = AuthentikNFTAccount::decode(&accounts[0].data).unwrap();
    assert_eq!(before.uri, b"".to_vec());

    let instruction_data =
        pack_set(b"https://www.youtube.com/watch?v=dQw4w9WgXcQ", [0u8; 32]);
    process_instruction(&program_id, &mut accounts, &instruction_data).unwrap();

    let updated = AuthentikNFTAccount::decode(&accounts[0].data).unwrap();
    assert_eq!(
        updated.uri,
        b"https://www.youtube.com/watch?v=dQw4w9WgXcQ".to_vec()
    );
}

#[test]
fn scenario_non_utf8_uri_touches_no_buffer() {
    let program_id = Pubkey::new_from_array([9u8; 32]);
    let mut accounts = vec![account([5u8; 32], [9u8; 32], vec![0u8; 64])];
    let data = pack_set(&[0xFFu8, 0xFEu8], [1u8; 32]);

    assert_eq!(
        process_instruction(&program_id, &mut accounts, &data),
        Err(AuthentikNFTError::InstructionUnpackError)
    );
    assert_eq!(accounts[0].data, vec![0u8; 64]);
}
