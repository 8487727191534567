use crate::address::{bubblegum_id_bytes, bubblegum_program_id, Address};
use borsh::BorshDeserialize;
use mpl_bubblegum::instructions::{
    BurnInstructionArgs, MintToCollectionV1InstructionArgs, MintV1InstructionArgs,
    TransferInstructionArgs,
};
use vstd::prelude::*;

verus! {

#[verifier::external_type_specification]
#[verifier::external_body]
pub struct ExMintV1InstructionArgs(MintV1InstructionArgs);

#[verifier::external_type_specification]
#[verifier::external_body]
pub struct ExMintToCollectionV1InstructionArgs(MintToCollectionV1InstructionArgs);

/// One account of an instruction, with its signer and writable flags.
#[derive(Clone, Copy, Debug, PartialEq, Eq)]
pub struct AccountMeta {
    pub pubkey: Address,
    pub is_signer: bool,
    pub is_writable: bool,
}

/// The instruction kinds this decoder understands; `Other` stands for every
/// other discriminant, known to the program or not.
#[derive(Clone, Copy, Debug, PartialEq, Eq, Structural)]
pub enum InstructionKind {
    MintV1,
    Transfer,
    Burn,
    MintToCollectionV1,
    Other,
}

#[derive(Clone, Copy, Debug, PartialEq, Eq)]
pub struct MintV1Accounts {
    pub tree_config: Address,
    pub leaf_owner: Address,
    pub leaf_delegate: Address,
    pub merkle_tree: Address,
    pub payer: Address,
    pub tree_creator_or_delegate: Address,
    pub log_wrapper: Address,
    pub compression_program: Address,
    pub system_program: Address,
}

#[derive(Clone, Copy, Debug, PartialEq, Eq)]
pub struct TransferAccounts {
    pub tree_config: Address,
    pub leaf_owner: (Address, bool),
    pub leaf_delegate: (Address, bool),
    pub new_leaf_owner: Address,
    pub merkle_tree: Address,
    pub log_wrapper: Address,
    pub compression_program: Address,
    pub system_program: Address,
}

#[derive(Clone, Copy, Debug, PartialEq, Eq)]
pub struct BurnAccounts {
    pub tree_config: Address,
    pub leaf_owner: (Address, bool),
    pub leaf_delegate: (Address, bool),
    pub merkle_tree: Address,
    pub log_wrapper: Address,
    pub compression_program: Address,
    pub system_program: Address,
}

#[derive(Clone, Copy, Debug, PartialEq, Eq)]
pub struct MintToCollectionV1Accounts {
    pub tree_config: Address,
    pub leaf_owner: Address,
    pub leaf_delegate: Address,
    pub merkle_tree: Address,
    pub payer: Address,
    pub tree_creator_or_delegate: Address,
    pub collection_authority: Address,
    /// `None` when the instruction passes the Bubblegum program's own address
    /// in this position, which marks the record as absent.
    pub collection_authority_record_pda: Option<Address>,
    pub collection_mint: Address,
    pub collection_metadata: Address,
    pub collection_edition: Address,
    pub bubblegum_signer: Address,
    pub log_wrapper: Address,
    pub compression_program: Address,
    pub token_metadata_program: Address,
    pub system_program: Address,
}

/// The argument record of a transfer or a burn: the leaf's proof data.
#[derive(Clone, Copy, Debug, PartialEq, Eq)]
pub struct LeafArgs {
    pub root: [u8; 32],
    pub data_hash: [u8; 32],
    pub creator_hash: [u8; 32],
    pub nonce: u64,
    pub index: u32,
}

#[derive(Debug, PartialEq, Eq)]
#[allow(inconsistent_fields)]
pub enum BubblegumInstruction {
    MintV1 { accounts: MintV1Accounts, args: MintV1InstructionArgs },
    Transfer { accounts: TransferAccounts, args: LeafArgs },
    Burn { accounts: BurnAccounts, args: LeafArgs },
    MintToCollectionV1 {
        accounts: MintToCollectionV1Accounts,
        args: MintToCollectionV1InstructionArgs,
    },
}

#[derive(Clone, Copy, Debug, PartialEq, Eq, Structural)]
pub enum DecodeError {
    /// The data is shorter than the 8-byte discriminant.
    MissingDiscriminant,
    /// The discriminant names no instruction this decoder handles.
    UnknownInstruction,
    /// The instruction does not carry exactly the accounts its kind consumes.
    AccountCountMismatch,
    /// The bytes after the discriminant are not a valid argument record.
    InvalidArgs,
    /// An instruction names an account index beyond its transaction's
    /// account list.
    AccountIndexOutOfRange,
}

pub open spec fn mint_v1_discriminant() -> Seq<u8> {
    seq![145u8, 98, 192, 118, 184, 147, 118, 104]
}

pub open spec fn transfer_discriminant() -> Seq<u8> {
    seq![163u8, 52, 200, 231, 140, 3, 69, 186]
}

pub open spec fn burn_discriminant() -> Seq<u8> {
    seq![116u8, 110, 29, 56, 107, 219, 42, 93]
}

pub open spec fn mint_to_collection_v1_discriminant() -> Seq<u8> {
    seq![153u8, 18, 178, 47, 197, 158, 86, 15]
}

/// The kind that an 8-byte discriminant selects.
pub open spec fn kind_of(disc: Seq<u8>) -> InstructionKind {
    if disc == mint_v1_discriminant() {
        InstructionKind::MintV1
    } else if disc == transfer_discriminant() {
        InstructionKind::Transfer
    } else if disc == burn_discriminant() {
        InstructionKind::Burn
    } else if disc == mint_to_collection_v1_discriminant() {
        InstructionKind::MintToCollectionV1
    } else {
        InstructionKind::Other
    }
}

/// How many accounts an instruction of each kind consumes.
pub open spec fn accounts_needed(kind: InstructionKind) -> nat {
    match kind {
        InstructionKind::MintV1 => 9,
        InstructionKind::Transfer => 8,
        InstructionKind::Burn => 7,
        InstructionKind::MintToCollectionV1 => 16,
        InstructionKind::Other => 0,
    }
}

/// The little-endian unsigned value of a byte sequence.
pub open spec fn le_value(s: Seq<u8>) -> nat
    decreases s.len(),
{
    if s.len() == 0 {
        0
    } else {
        s[0] as nat + 256 * le_value(s.drop_first())
    }
}

/// Bytes in a leaf argument record: three 32-byte hashes, a u64 and a u32.
pub open spec fn leaf_args_len() -> nat {
    108
}

/// `a` is the record that the first `leaf_args_len()` bytes of `s` encode:
/// the fields in order, integers little-endian.
pub open spec fn leaf_args_encoded(a: LeafArgs, s: Seq<u8>) -> bool {
    &&& a.root@ == s.subrange(0, 32)
    &&& a.data_hash@ == s.subrange(32, 64)
    &&& a.creator_hash@ == s.subrange(64, 96)
    &&& a.nonce as nat == le_value(s.subrange(96, 104))
    &&& a.index as nat == le_value(s.subrange(104, 108))
}

/// The role an account fills when the Bubblegum program's address there
/// means that the role is absent.
pub open spec fn optional_account(a: Address) -> Option<Address> {
    if a.bytes@ == bubblegum_id_bytes() {
        None
    } else {
        Some(a)
    }
}

pub open spec fn mint_v1_accounts_of(a: Seq<AccountMeta>) -> MintV1Accounts {
    MintV1Accounts {
        tree_config: a[0].pubkey,
        leaf_owner: a[1].pubkey,
        leaf_delegate: a[2].pubkey,
        merkle_tree: a[3].pubkey,
        payer: a[4].pubkey,
        tree_creator_or_delegate: a[5].pubkey,
        log_wrapper: a[6].pubkey,
        compression_program: a[7].pubkey,
        system_program: a[8].pubkey,
    }
}

pub open spec fn transfer_accounts_of(a: Seq<AccountMeta>) -> TransferAccounts {
    TransferAccounts {
        tree_config: a[0].pubkey,
        leaf_owner: (a[1].pubkey, a[1].is_signer),
        leaf_delegate: (a[2].pubkey, a[2].is_signer),
        new_leaf_owner: a[3].pubkey,
        merkle_tree: a[4].pubkey,
        log_wrapper: a[5].pubkey,
        compression_program: a[6].pubkey,
        system_program: a[7].pubkey,
    }
}

pub open spec fn burn_accounts_of(a: Seq<AccountMeta>) -> BurnAccounts {
    BurnAccounts {
        tree_config: a[0].pubkey,
        leaf_owner: (a[1].pubkey, a[1].is_signer),
        leaf_delegate: (a[2].pubkey, a[2].is_signer),
        merkle_tree: a[3].pubkey,
        log_wrapper: a[4].pubkey,
        compression_program: a[5].pubkey,
        system_program: a[6].pubkey,
    }
}

pub open spec fn mint_to_collection_v1_accounts_of(a: Seq<AccountMeta>) -> MintToCollectionV1Accounts {
    MintToCollectionV1Accounts {
        tree_config: a[0].pubkey,
        leaf_owner: a[1].pubkey,
        leaf_delegate: a[2].pubkey,
        merkle_tree: a[3].pubkey,
        payer: a[4].pubkey,
        tree_creator_or_delegate: a[5].pubkey,
        collection_authority: a[6].pubkey,
        collection_authority_record_pda: optional_account(a[7].pubkey),
        collection_mint: a[8].pubkey,
        collection_metadata: a[9].pubkey,
        collection_edition: a[10].pubkey,
        bubblegum_signer: a[11].pubkey,
        log_wrapper: a[12].pubkey,
        compression_program: a[13].pubkey,
        token_metadata_program: a[14].pubkey,
        system_program: a[15].pubkey,
    }
}

/// Relies on `mpl_bubblegum::get_instruction_type`: it compares the first
/// eight bytes with each instruction's discriminant, and indexes them
/// without a length check.
#[verifier::external_body]
fn instruction_kind(data: &[u8]) -> (r: InstructionKind)
    requires
        data@.len() >= 8,
    ensures
        r == kind_of(data@.subrange(0, 8)),
{
    match mpl_bubblegum::get_instruction_type(data) {
        mpl_bubblegum::InstructionName::MintV1 => InstructionKind::MintV1,
        mpl_bubblegum::InstructionName::Transfer => InstructionKind::Transfer,
        mpl_bubblegum::InstructionName::Burn => InstructionKind::Burn,
        mpl_bubblegum::InstructionName::MintToCollectionV1 => InstructionKind::MintToCollectionV1,
        _ => InstructionKind::Other,
    }
}

/// Relies on the borsh deserialization of `TransferInstructionArgs`: three
/// 32-byte arrays, then a little-endian u64 and u32, read from the front of
/// the bytes; it fails only when fewer bytes remain.
#[verifier::external_body]
fn decode_transfer_args(data: &[u8]) -> (r: Option<LeafArgs>)
    ensures
        r is Some <==> data@.len() >= leaf_args_len(),
        r matches Some(a) ==> leaf_args_encoded(a, data@),
{
    let mut rest = data;
    match TransferInstructionArgs::deserialize(&mut rest) {
        Ok(a) => Some(
            LeafArgs {
                root: a.root,
                data_hash: a.data_hash,
                creator_hash: a.creator_hash,
                nonce: a.nonce,
                index: a.index,
            },
        ),
        Err(_) => None,
    }
}

/// Relies on the borsh deserialization of `BurnInstructionArgs`, whose fields
/// are those of a transfer's record, in the same order.
#[verifier::external_body]
fn decode_burn_args(data: &[u8]) -> (r: Option<LeafArgs>)
    ensures
        r is Some <==> data@.len() >= leaf_args_len(),
        r matches Some(a) ==> leaf_args_encoded(a, data@),
{
    let mut rest = data;
    match BurnInstructionArgs::deserialize(&mut rest) {
        Ok(a) => Some(
            LeafArgs {
                root: a.root,
                data_hash: a.data_hash,
                creator_hash: a.creator_hash,
                nonce: a.nonce,
                index: a.index,
            },
        ),
        Err(_) => None,
    }
}

/// Whether the bytes begin with a valid borsh encoding of a mint's metadata
/// record.
pub uninterp spec fn mint_v1_args_decode(data: Seq<u8>) -> bool;

/// Relies on the borsh deserialization of `MintV1InstructionArgs`, which
/// succeeds or fails on the bytes alone.
#[verifier::external_body]
fn decode_mint_v1_args(data: &[u8]) -> (r: Option<MintV1InstructionArgs>)
    ensures
        r is Some == mint_v1_args_decode(data@),
{
    let mut rest = data;
    MintV1InstructionArgs::deserialize(&mut rest).ok()
}

/// Whether the bytes begin with a valid borsh encoding of a collection mint's
/// metadata record.
pub uninterp spec fn mint_to_collection_v1_args_decode(data: Seq<u8>) -> bool;

/// Relies on the borsh deserialization of `MintToCollectionV1InstructionArgs`,
/// which succeeds or fails on the bytes alone.
#[verifier::external_body]
fn decode_mint_to_collection_v1_args(data: &[u8]) -> (r: Option<MintToCollectionV1InstructionArgs>)
    ensures
        r is Some == mint_to_collection_v1_args_decode(data@),
{
    let mut rest = data;
    MintToCollectionV1InstructionArgs::deserialize(&mut rest).ok()
}

/// What decoding `data` with accounts `a` gives, once `data` holds a
/// discriminant: the kind is looked up, the accounts are consumed in the
/// kind's fixed order and must be used up exactly, and the rest of the bytes
/// are read as the kind's argument record.
pub open spec fn parse_outcome(
    a: Seq<AccountMeta>,
    data: Seq<u8>,
    r: Result<BubblegumInstruction, DecodeError>,
) -> bool {
    let kind = kind_of(data.subrange(0, 8));
    let rest = data.subrange(8, data.len() as int);
    if kind == InstructionKind::Other {
        r == Err::<BubblegumInstruction, DecodeError>(DecodeError::UnknownInstruction)
    } else if a.len() != accounts_needed(kind) {
        r == Err::<BubblegumInstruction, DecodeError>(DecodeError::AccountCountMismatch)
    } else {
        match kind {
            InstructionKind::MintV1 => if mint_v1_args_decode(rest) {
                r matches Ok(BubblegumInstruction::MintV1 { accounts, args })
                    && accounts == mint_v1_accounts_of(a)
            } else {
                r == Err::<BubblegumInstruction, DecodeError>(DecodeError::InvalidArgs)
            },
            InstructionKind::Transfer => if rest.len() >= leaf_args_len() {
                r matches Ok(BubblegumInstruction::Transfer { accounts, args })
                    && accounts == transfer_accounts_of(a) && leaf_args_encoded(args, rest)
            } else {
                r == Err::<BubblegumInstruction, DecodeError>(DecodeError::InvalidArgs)
            },
            InstructionKind::Burn => if rest.len() >= leaf_args_len() {
                r matches Ok(BubblegumInstruction::Burn { accounts, args })
                    && accounts == burn_accounts_of(a) && leaf_args_encoded(args, rest)
            } else {
                r == Err::<BubblegumInstruction, DecodeError>(DecodeError::InvalidArgs)
            },
            _ => if mint_to_collection_v1_args_decode(rest) {
                r matches Ok(BubblegumInstruction::MintToCollectionV1 { accounts, args })
                    && accounts == mint_to_collection_v1_accounts_of(a)
            } else {
                r == Err::<BubblegumInstruction, DecodeError>(DecodeError::InvalidArgs)
            },
        }
    }
}

/// What decoding `data` with accounts `a` gives.
pub open spec fn parse_result(
    a: Seq<AccountMeta>,
    data: Seq<u8>,
    r: Result<BubblegumInstruction, DecodeError>,
) -> bool {
    &&& data.len() < 8 ==> r == Err::<BubblegumInstruction, DecodeError>(
        DecodeError::MissingDiscriminant,
    )
    &&& data.len() >= 8 ==> parse_outcome(a, data, r)
}

impl BubblegumInstruction {
    /// Decodes one Bubblegum instruction from its accounts and data. Never
    /// panics: every malformed input gives a `DecodeError`.
    pub fn parse(account_metas: &[AccountMeta], data: &[u8]) -> (r: Result<
        BubblegumInstruction,
        DecodeError,
    >)
        ensures
            data@.len() < 8 ==> r == Err::<BubblegumInstruction, DecodeError>(
                DecodeError::MissingDiscriminant,
            ),
            data@.len() >= 8 ==> parse_outcome(account_metas@, data@, r),
    {
        if data.len() < 8 {
            return Err(DecodeError::MissingDiscriminant);
        }
        let kind = instruction_kind(data);
        let (_, arg_data) = data.split_at(8);
        let n = account_metas.len();
        match kind {
            InstructionKind::MintV1 => {
                if n != 9 {
                    return Err(DecodeError::AccountCountMismatch);
                }
                let accounts = MintV1Accounts {
                    tree_config: account_metas[0].pubkey,
                    leaf_owner: account_metas[1].pubkey,
                    leaf_delegate: account_metas[2].pubkey,
                    merkle_tree: account_metas[3].pubkey,
                    payer: account_metas[4].pubkey,
                    tree_creator_or_delegate: account_metas[5].pubkey,
                    log_wrapper: account_metas[6].pubkey,
                    compression_program: account_metas[7].pubkey,
                    system_program: account_metas[8].pubkey,
                };
                match decode_mint_v1_args(arg_data) {
                    Some(args) => Ok(BubblegumInstruction::MintV1 { accounts, args }),
                    None => Err(DecodeError::InvalidArgs),
                }
            },
            InstructionKind::Transfer => {
                if n != 8 {
                    return Err(DecodeError::AccountCountMismatch);
                }
                let accounts = TransferAccounts {
                    tree_config: account_metas[0].pubkey,
                    leaf_owner: (account_metas[1].pubkey, account_metas[1].is_signer),
                    leaf_delegate: (account_metas[2].pubkey, account_metas[2].is_signer),
                    new_leaf_owner: account_metas[3].pubkey,
                    merkle_tree: account_metas[4].pubkey,
                    log_wrapper: account_metas[5].pubkey,
                    compression_program: account_metas[6].pubkey,
                    system_program: account_metas[7].pubkey,
                };
                match decode_transfer_args(arg_data) {
                    Some(args) => Ok(BubblegumInstruction::Transfer { accounts, args }),
                    None => Err(DecodeError::InvalidArgs),
                }
            },
            InstructionKind::Burn => {
                if n != 7 {
                    return Err(DecodeError::AccountCountMismatch);
                }
                let accounts = BurnAccounts {
                    tree_config: account_metas[0].pubkey,
                    leaf_owner: (account_metas[1].pubkey, account_metas[1].is_signer),
                    leaf_delegate: (account_metas[2].pubkey, account_metas[2].is_signer),
                    merkle_tree: account_metas[3].pubkey,
                    log_wrapper: account_metas[4].pubkey,
                    compression_program: account_metas[5].pubkey,
                    system_program: account_metas[6].pubkey,
                };
                match decode_burn_args(arg_data) {
                    Some(args) => Ok(BubblegumInstruction::Burn { accounts, args }),
                    None => Err(DecodeError::InvalidArgs),
                }
            },
            InstructionKind::MintToCollectionV1 => {
                if n != 16 {
                    return Err(DecodeError::AccountCountMismatch);
                }
                let program = bubblegum_program_id();
                let record = account_metas[7].pubkey;
                let record_pda = if record == program {
                    None
                } else {
                    Some(record)
                };
                let accounts = MintToCollectionV1Accounts {
                    tree_config: account_metas[0].pubkey,
                    leaf_owner: account_metas[1].pubkey,
                    leaf_delegate: account_metas[2].pubkey,
                    merkle_tree: account_metas[3].pubkey,
                    payer: account_metas[4].pubkey,
                    tree_creator_or_delegate: account_metas[5].pubkey,
                    collection_authority: account_metas[6].pubkey,
                    collection_authority_record_pda: record_pda,
                    collection_mint: account_metas[8].pubkey,
                    collection_metadata: account_metas[9].pubkey,
                    collection_edition: account_metas[10].pubkey,
                    bubblegum_signer: account_metas[11].pubkey,
                    log_wrapper: account_metas[12].pubkey,
                    compression_program: account_metas[13].pubkey,
                    token_metadata_program: account_metas[14].pubkey,
                    system_program: account_metas[15].pubkey,
                };
                match decode_mint_to_collection_v1_args(arg_data) {
                    Some(args) => Ok(BubblegumInstruction::MintToCollectionV1 { accounts, args }),
                    None => Err(DecodeError::InvalidArgs),
                }
            },
            InstructionKind::Other => Err(DecodeError::UnknownInstruction),
        }
    }
}

} // verus!
