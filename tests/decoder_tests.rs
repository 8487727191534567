use borsh::BorshSerialize;
use lightdas::address::Address;
use lightdas::decoder::{AccountMeta, BubblegumInstruction, DecodeError, LeafArgs};
use mpl_bubblegum::instructions::{MintToCollectionV1InstructionArgs, MintV1InstructionArgs};
use mpl_bubblegum::types::{MetadataArgs, TokenProgramVersion};

const TRANSFER: [u8; 8] = [163, 52, 200, 231, 140, 3, 69, 186];
const BURN: [u8; 8] = [116, 110, 29, 56, 107, 219, 42, 93];
const MINT_V1: [u8; 8] = [145, 98, 192, 118, 184, 147, 118, 104];
const MINT_TO_COLLECTION: [u8; 8] = [153, 18, 178, 47, 197, 158, 86, 15];

fn meta(b: u8, signer: bool) -> AccountMeta {
    AccountMeta { pubkey: Address::new([b; 32]), is_signer: signer, is_writable: false }
}

fn metas(n: usize) -> Vec<AccountMeta> {
    (0..n).map(|i| meta(i as u8 + 1, i == 1)).collect()
}

fn leaf_bytes(disc: [u8; 8]) -> Vec<u8> {
    let mut data = disc.to_vec();
    data.extend_from_slice(&[1u8; 32]);
    data.extend_from_slice(&[2u8; 32]);
    data.extend_from_slice(&[3u8; 32]);
    data.extend_from_slice(&0x0102030405060708u64.to_le_bytes());
    data.extend_from_slice(&77u32.to_le_bytes());
    data
}

fn metadata() -> MetadataArgs {
    MetadataArgs {
        name: "leaf".to_string(),
        symbol: "LF".to_string(),
        uri: "https://example.com/leaf.json".to_string(),
        seller_fee_basis_points: 500,
        primary_sale_happened: false,
        is_mutable: true,
        edition_nonce: None,
        token_standard: None,
        collection: None,
        uses: None,
        token_program_version: TokenProgramVersion::Original,
        creators: vec![],
    }
}

#[test]
fn transfer_decodes_with_exact_accounts() {
    let accounts = metas(8);
    let r = BubblegumInstruction::parse(&accounts, &leaf_bytes(TRANSFER)).unwrap();
    match r {
        BubblegumInstruction::Transfer { accounts: a, args } => {
            assert_eq!(a.tree_config, accounts[0].pubkey);
            assert_eq!(a.leaf_owner, (accounts[1].pubkey, true));
            assert_eq!(a.leaf_delegate, (accounts[2].pubkey, false));
            assert_eq!(a.new_leaf_owner, accounts[3].pubkey);
            assert_eq!(a.merkle_tree, accounts[4].pubkey);
            assert_eq!(a.log_wrapper, accounts[5].pubkey);
            assert_eq!(a.compression_program, accounts[6].pubkey);
            assert_eq!(a.system_program, accounts[7].pubkey);
            assert_eq!(
                args,
                LeafArgs {
                    root: [1; 32],
                    data_hash: [2; 32],
                    creator_hash: [3; 32],
                    nonce: 0x0102030405060708,
                    index: 77,
                }
            );
        }
        other => panic!("unexpected {:?}", other),
    }
}

#[test]
fn transfer_one_account_short_fails() {
    let r = BubblegumInstruction::parse(&metas(7), &leaf_bytes(TRANSFER));
    assert_eq!(r.unwrap_err(), DecodeError::AccountCountMismatch);
}

#[test]
fn transfer_extra_account_fails() {
    let r = BubblegumInstruction::parse(&metas(9), &leaf_bytes(TRANSFER));
    assert_eq!(r.unwrap_err(), DecodeError::AccountCountMismatch);
}

#[test]
fn transfer_short_args_fail() {
    let mut data = leaf_bytes(TRANSFER);
    data.pop();
    let r = BubblegumInstruction::parse(&metas(8), &data);
    assert_eq!(r.unwrap_err(), DecodeError::InvalidArgs);
}

#[test]
fn burn_decodes() {
    let accounts = metas(7);
    match BubblegumInstruction::parse(&accounts, &leaf_bytes(BURN)).unwrap() {
        BubblegumInstruction::Burn { accounts: a, args } => {
            assert_eq!(a.leaf_owner, (accounts[1].pubkey, true));
            assert_eq!(a.system_program, accounts[6].pubkey);
            assert_eq!(args.index, 77);
            assert_eq!(args.root, [1; 32]);
        }
        other => panic!("unexpected {:?}", other),
    }
}

#[test]
fn unknown_discriminant_fails() {
    let r = BubblegumInstruction::parse(&metas(8), &leaf_bytes([0; 8]));
    assert_eq!(r.unwrap_err(), DecodeError::UnknownInstruction);
}

#[test]
fn data_without_discriminant_fails() {
    let r = BubblegumInstruction::parse(&metas(8), &[163, 52, 200]);
    assert_eq!(r.unwrap_err(), DecodeError::MissingDiscriminant);
}

#[test]
fn mint_v1_decodes_metadata() {
    let mut data = MINT_V1.to_vec();
    data.extend(MintV1InstructionArgs { metadata: metadata() }.try_to_vec().unwrap());
    let accounts = metas(9);
    match BubblegumInstruction::parse(&accounts, &data).unwrap() {
        BubblegumInstruction::MintV1 { accounts: a, args } => {
            assert_eq!(args.metadata, metadata());
            assert_eq!(a.payer, accounts[4].pubkey);
            assert_eq!(a.system_program, accounts[8].pubkey);
        }
        other => panic!("unexpected {:?}", other),
    }
    let r = BubblegumInstruction::parse(&accounts, &MINT_V1);
    assert_eq!(r.unwrap_err(), DecodeError::InvalidArgs);
}

#[test]
fn collection_record_sentinel_is_absent() {
    let mut data = MINT_TO_COLLECTION.to_vec();
    data.extend(MintToCollectionV1InstructionArgs { metadata: metadata() }.try_to_vec().unwrap());
    let mut accounts = metas(16);
    accounts[7].pubkey = Address::new(mpl_bubblegum::ID.to_bytes());
    match BubblegumInstruction::parse(&accounts, &data).unwrap() {
        BubblegumInstruction::MintToCollectionV1 { accounts: a, .. } => {
            assert_eq!(a.collection_authority_record_pda, None);
            assert_eq!(a.collection_mint, accounts[8].pubkey);
            assert_eq!(a.system_program, accounts[15].pubkey);
        }
        other => panic!("unexpected {:?}", other),
    }
    let accounts = metas(16);
    match BubblegumInstruction::parse(&accounts, &data).unwrap() {
        BubblegumInstruction::MintToCollectionV1 { accounts: a, .. } => {
            assert_eq!(a.collection_authority_record_pda, Some(accounts[7].pubkey));
        }
        other => panic!("unexpected {:?}", other),
    }
}

#[test]
fn address_equality_is_bytewise() {
    let mut b = [5u8; 32];
    assert_eq!(Address::new(b), Address::new([5; 32]));
    b[31] = 6;
    assert_ne!(Address::new(b), Address::new([5; 32]));
}
