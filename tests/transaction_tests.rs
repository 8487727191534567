use lightdas::address::Address;
use lightdas::decoder::{AccountMeta, BubblegumInstruction, DecodeError};
use lightdas::transaction::{
    convert_inner_instruction, convert_inner_instructions, decode_instructions, load_account_keys,
    prepare_transaction, CompiledInstruction, InstructionOutcome, RawMeta, RawTransaction,
    TransactionError, UiCompiledInstruction, UiInnerInstructions, UiInstruction,
};

const SEVENS: &str = "US517G5965aydkZ46HS38QLi7UQiSojurfbQfKCELFx";
const NINES: &str = "cGfHiC6Kgg3FpFZvgwGcswsCRtp4aBP2fzuXRQPizuN";

fn compiled(data: &str) -> UiInstruction {
    UiInstruction::Compiled(UiCompiledInstruction {
        program_id_index: 2,
        accounts: vec![0, 1],
        data: data.to_string(),
        stack_height: Some(2),
    })
}

#[test]
fn loaded_addresses_follow_static_keys() {
    let keys = load_account_keys(
        &vec![Address::new([1; 32])],
        &vec![SEVENS.to_string()],
        &vec![NINES.to_string()],
    )
    .unwrap();
    assert_eq!(keys, vec![Address::new([1; 32]), Address::new([7; 32]), Address::new([9; 32])]);
    let bad = load_account_keys(&vec![], &vec![SEVENS.to_string()], &vec!["0OIl".to_string()]);
    assert_eq!(bad.unwrap_err(), TransactionError::InvalidAddress);
}

#[test]
fn inner_instruction_data_is_decoded() {
    let out = convert_inner_instruction(&compiled("Ldp")).unwrap();
    assert_eq!(out.instruction.data, vec![1, 2, 3]);
    assert_eq!(out.instruction.accounts, vec![0, 1]);
    assert_eq!(out.instruction.program_id_index, 2);
    assert_eq!(out.stack_height, Some(2));
    assert_eq!(
        convert_inner_instruction(&compiled("0")).unwrap_err(),
        TransactionError::InvalidInstructionData
    );
    assert_eq!(
        convert_inner_instruction(&UiInstruction::Parsed).unwrap_err(),
        TransactionError::NotCompiled
    );
}

#[test]
fn first_bad_inner_instruction_decides() {
    let groups = vec![
        UiInnerInstructions { index: 0, instructions: vec![compiled("Ldp")] },
        UiInnerInstructions { index: 1, instructions: vec![UiInstruction::Parsed, compiled("0")] },
    ];
    assert_eq!(convert_inner_instructions(&groups).unwrap_err(), TransactionError::NotCompiled);
    let groups = vec![UiInnerInstructions { index: 3, instructions: vec![compiled("Ldp"), compiled("2")] }];
    let out = convert_inner_instructions(&groups).unwrap();
    assert_eq!(out[0].index, 3);
    assert_eq!(out[0].instructions[1].instruction.data, vec![1]);
}

fn raw(meta: Option<RawMeta>) -> RawTransaction {
    RawTransaction {
        slot: 9,
        signature: "sig".to_string(),
        static_account_keys: vec![Address::new([1; 32])],
        message_instructions: vec![],
        meta,
    }
}

#[test]
fn prepare_needs_meta_and_valid_parts() {
    assert_eq!(prepare_transaction(raw(None)).unwrap_err(), TransactionError::MissingMeta);
    let meta = RawMeta {
        loaded_writable: vec![SEVENS.to_string()],
        loaded_readonly: vec![],
        inner_instructions: Some(vec![UiInnerInstructions { index: 0, instructions: vec![compiled("Ldp")] }]),
    };
    let ctx = prepare_transaction(raw(Some(meta))).unwrap();
    assert_eq!(ctx.slot, 9);
    assert_eq!(ctx.signature, "sig");
    assert_eq!(ctx.account_keys, vec![Address::new([1; 32]), Address::new([7; 32])]);
    assert_eq!(ctx.inner_instructions[0].instructions[0].instruction.data, vec![1, 2, 3]);
    let meta = RawMeta {
        loaded_writable: vec!["x".to_string()],
        loaded_readonly: vec![],
        inner_instructions: Some(vec![UiInnerInstructions { index: 0, instructions: vec![UiInstruction::Parsed] }]),
    };
    assert_eq!(prepare_transaction(raw(Some(meta))).unwrap_err(), TransactionError::InvalidAddress);
}

fn transfer_data() -> Vec<u8> {
    let mut data = vec![163, 52, 200, 231, 140, 3, 69, 186];
    data.extend_from_slice(&[0u8; 108]);
    data
}

#[test]
fn boundary_sorts_instructions_by_program() {
    let mut keys: Vec<AccountMeta> = (0..8)
        .map(|i| AccountMeta { pubkey: Address::new([i + 1; 32]), is_signer: false, is_writable: true })
        .collect();
    keys.push(AccountMeta { pubkey: Address::new(mpl_bubblegum::ID.to_bytes()), is_signer: false, is_writable: false });
    keys.push(AccountMeta {
        pubkey: Address::new(mpl_bubblegum::programs::SPL_NOOP_ID.to_bytes()),
        is_signer: false,
        is_writable: false,
    });
    let ixs = vec![
        CompiledInstruction { program_id_index: 8, accounts: (0..8).collect(), data: transfer_data() },
        CompiledInstruction { program_id_index: 9, accounts: vec![], data: vec![1] },
        CompiledInstruction { program_id_index: 0, accounts: vec![], data: vec![] },
        CompiledInstruction { program_id_index: 8, accounts: vec![0, 40], data: transfer_data() },
        CompiledInstruction { program_id_index: 8, accounts: (0..7).collect(), data: transfer_data() },
        CompiledInstruction { program_id_index: 200, accounts: vec![], data: vec![] },
    ];
    let out = decode_instructions(&keys, &ixs);
    assert_eq!(out.len(), 6);
    match &out[0] {
        InstructionOutcome::Decoded(BubblegumInstruction::Transfer { accounts, .. }) => {
            assert_eq!(accounts.merkle_tree, Address::new([5; 32]));
        }
        other => panic!("unexpected {:?}", other),
    }
    assert!(matches!(out[1], InstructionOutcome::Logged));
    assert!(matches!(out[2], InstructionOutcome::Ignored));
    assert!(matches!(out[3], InstructionOutcome::Failed(DecodeError::AccountIndexOutOfRange)));
    assert!(matches!(out[4], InstructionOutcome::Failed(DecodeError::AccountCountMismatch)));
    assert!(matches!(out[5], InstructionOutcome::Ignored));
}
