use crate::address::{
    base58_of_text, bubblegum_id_bytes, bubblegum_program_id, decode_base58, noop_id_bytes,
    noop_program_id, parse_address, pubkey_of_text, Address,
};
use crate::decoder::{parse_result, AccountMeta, BubblegumInstruction, DecodeError};
use vstd::prelude::*;

verus! {

/// Why a fetched transaction cannot be turned into a transaction context.
#[derive(Clone, Copy, Debug, PartialEq, Eq, Structural)]
pub enum TransactionError {
    /// The transaction came without its status metadata.
    MissingMeta,
    /// A loaded address is not a valid base58 address.
    InvalidAddress,
    /// An inner instruction came in parsed form rather than compiled.
    NotCompiled,
    /// An inner instruction's data is not valid base58.
    InvalidInstructionData,
}

/// An instruction as a transaction message holds it: indices into the
/// transaction's account list, and raw data.
#[derive(Clone, Debug, PartialEq, Eq)]
pub struct CompiledInstruction {
    pub program_id_index: u8,
    pub accounts: Vec<u8>,
    pub data: Vec<u8>,
}

/// A compiled inner instruction as the transaction status reports it, with
/// its data in base58.
#[derive(Clone, Debug, PartialEq, Eq)]
pub struct UiCompiledInstruction {
    pub program_id_index: u8,
    pub accounts: Vec<u8>,
    pub data: String,
    pub stack_height: Option<u32>,
}

/// An inner instruction as reported: compiled, or already parsed into some
/// other form this pipeline does not read.
#[derive(Clone, Debug)]
pub enum UiInstruction {
    Compiled(UiCompiledInstruction),
    Parsed,
}

/// The inner instructions that the outer instruction at `index` invoked.
#[derive(Clone, Debug)]
pub struct UiInnerInstructions {
    pub index: u8,
    pub instructions: Vec<UiInstruction>,
}

#[derive(Clone, Debug, PartialEq, Eq)]
pub struct InnerInstruction {
    pub instruction: CompiledInstruction,
    pub stack_height: Option<u32>,
}

#[derive(Clone, Debug, PartialEq, Eq)]
pub struct InnerInstructions {
    pub index: u8,
    pub instructions: Vec<InnerInstruction>,
}

/// The first error that `f` finds along `s`, if any.
pub open spec fn first_error<A>(s: Seq<A>, f: spec_fn(A) -> Option<TransactionError>) -> Option<
    TransactionError,
>
    decreases s.len(),
{
    if s.len() == 0 {
        None
    } else {
        let before = first_error(s.drop_last(), f);
        if before is Some {
            before
        } else {
            f(s.last())
        }
    }
}

proof fn lemma_first_error_prefix<A>(s: Seq<A>, f: spec_fn(A) -> Option<TransactionError>, k: int)
    requires
        0 <= k <= s.len(),
        first_error(s.subrange(0, k), f) is Some,
    ensures
        first_error(s, f) == first_error(s.subrange(0, k), f),
    decreases s.len() - k,
{
    if k < s.len() {
        let t = s.subrange(0, k + 1);
        assert(t.drop_last() =~= s.subrange(0, k));
        assert(t.subrange(0, k) =~= s.subrange(0, k));
        assert(s.subrange(0, k + 1) == t);
        lemma_first_error_prefix(s, f, k + 1);
    } else {
        assert(s.subrange(0, k) =~= s);
    }
}

proof fn lemma_first_error_step<A>(s: Seq<A>, f: spec_fn(A) -> Option<TransactionError>, i: int)
    requires
        0 <= i < s.len(),
        first_error(s.subrange(0, i), f) is None,
    ensures
        first_error(s.subrange(0, i + 1), f) == f(s[i]),
{
    assert(s.subrange(0, i + 1).drop_last() =~= s.subrange(0, i));
}

/// The error that converting one reported inner instruction meets, if any.
pub open spec fn ui_error(ui: UiInstruction) -> Option<TransactionError> {
    match ui {
        UiInstruction::Parsed => Some(TransactionError::NotCompiled),
        UiInstruction::Compiled(c) => if base58_of_text(c.data@) is None {
            Some(TransactionError::InvalidInstructionData)
        } else {
            None
        },
    }
}

/// `out` is the reported inner instruction `ui` with its data decoded.
pub open spec fn inner_converted(ui: UiInstruction, out: InnerInstruction) -> bool {
    &&& ui matches UiInstruction::Compiled(c)
    &&& out.instruction.program_id_index == c.program_id_index
    &&& out.instruction.accounts@ == c.accounts@
    &&& base58_of_text(c.data@) == Some(out.instruction.data@)
    &&& out.stack_height == c.stack_height
}

/// Decodes one reported inner instruction.
pub fn convert_inner_instruction(ui: &UiInstruction) -> (r: Result<InnerInstruction, TransactionError>)
    ensures
        ui_error(*ui) matches Some(e) ==> r == Err::<InnerInstruction, TransactionError>(e),
        ui_error(*ui) is None ==> (r matches Ok(out) && inner_converted(*ui, out)),
{
    match ui {
        UiInstruction::Compiled(c) => match decode_base58(c.data.as_str()) {
            Some(data) => Ok(
                InnerInstruction {
                    instruction: CompiledInstruction {
                        program_id_index: c.program_id_index,
                        accounts: c.accounts.clone(),
                        data,
                    },
                    stack_height: c.stack_height,
                },
            ),
            None => Err(TransactionError::InvalidInstructionData),
        },
        UiInstruction::Parsed => Err(TransactionError::NotCompiled),
    }
}

pub open spec fn ui_check() -> spec_fn(UiInstruction) -> Option<TransactionError> {
    |ui: UiInstruction| ui_error(ui)
}

pub open spec fn group_error(g: UiInnerInstructions) -> Option<TransactionError> {
    first_error(g.instructions@, ui_check())
}

pub open spec fn group_check() -> spec_fn(UiInnerInstructions) -> Option<TransactionError> {
    |g: UiInnerInstructions| group_error(g)
}

/// `out` is the reported group `g` with each instruction decoded.
pub open spec fn group_converted(g: UiInnerInstructions, out: InnerInstructions) -> bool {
    &&& out.index == g.index
    &&& out.instructions@.len() == g.instructions@.len()
    &&& forall|i: int|
        0 <= i < g.instructions@.len() ==> inner_converted(
            #[trigger] g.instructions@[i],
            out.instructions@[i],
        )
}

/// Decodes one group of reported inner instructions; the first instruction
/// that cannot be decoded decides the error.
pub fn convert_inner_group(g: &UiInnerInstructions) -> (r: Result<InnerInstructions, TransactionError>)
    ensures
        group_error(*g) matches Some(e) ==> r == Err::<InnerInstructions, TransactionError>(e),
        group_error(*g) is None ==> (r matches Ok(out) && group_converted(*g, out)),
{
    let mut out: Vec<InnerInstruction> = Vec::new();
    let n = g.instructions.len();
    let mut i: usize = 0;
    assert(g.instructions@.subrange(0, 0) =~= Seq::<UiInstruction>::empty());
    while i < n
        invariant
            n == g.instructions@.len(),
            i <= n,
            first_error(g.instructions@.subrange(0, i as int), ui_check()) is None,
            out@.len() == i,
            forall|j: int| 0 <= j < i ==> inner_converted(#[trigger] g.instructions@[j], out@[j]),
        decreases n - i,
    {
        proof {
            lemma_first_error_step(g.instructions@, ui_check(), i as int);
        }
        match convert_inner_instruction(&g.instructions[i]) {
            Ok(ix) => {
                out.push(ix);
            },
            Err(e) => {
                proof {
                    lemma_first_error_prefix(g.instructions@, ui_check(), i + 1);
                }
                return Err(e);
            },
        }
        i = i + 1;
    }
    assert(g.instructions@.subrange(0, n as int) =~= g.instructions@);
    Ok(InnerInstructions { index: g.index, instructions: out })
}

/// Decodes every group of reported inner instructions; the first
/// instruction that cannot be decoded, in report order, decides the error.
pub fn convert_inner_instructions(groups: &Vec<UiInnerInstructions>) -> (r: Result<
    Vec<InnerInstructions>,
    TransactionError,
>)
    ensures
        first_error(groups@, group_check()) matches Some(e) ==> r == Err::<
            Vec<InnerInstructions>,
            TransactionError,
        >(e),
        first_error(groups@, group_check()) is None ==> (r matches Ok(
            out,
        ) && out@.len() == groups@.len() && forall|k: int|
            0 <= k < groups@.len() ==> group_converted(#[trigger] groups@[k], out@[k])),
{
    let mut out: Vec<InnerInstructions> = Vec::new();
    let n = groups.len();
    let mut k: usize = 0;
    assert(groups@.subrange(0, 0) =~= Seq::<UiInnerInstructions>::empty());
    while k < n
        invariant
            n == groups@.len(),
            k <= n,
            first_error(groups@.subrange(0, k as int), group_check()) is None,
            out@.len() == k,
            forall|j: int| 0 <= j < k ==> group_converted(#[trigger] groups@[j], out@[j]),
        decreases n - k,
    {
        proof {
            lemma_first_error_step(groups@, group_check(), k as int);
        }
        match convert_inner_group(&groups[k]) {
            Ok(group) => {
                out.push(group);
            },
            Err(e) => {
                proof {
                    lemma_first_error_prefix(groups@, group_check(), k + 1);
                }
                return Err(e);
            },
        }
        k = k + 1;
    }
    assert(groups@.subrange(0, n as int) =~= groups@);
    Ok(out)
}

pub open spec fn key_bytes(keys: Seq<Address>) -> Seq<Seq<u8>> {
    keys.map_values(|a: Address| a.bytes@)
}

/// Every text is a valid base58 address.
pub open spec fn all_parse(texts: Seq<String>) -> bool {
    forall|i: int| 0 <= i < texts.len() ==> (#[trigger] pubkey_of_text(texts[i]@)) is Some
}

/// The address bytes of each text, when all of them parse.
pub open spec fn parsed_keys(texts: Seq<String>) -> Seq<Seq<u8>> {
    Seq::new(texts.len(), |i: int| pubkey_of_text(texts[i]@)->0)
}

/// Appends the address of each text to `out`; returns whether every text
/// was a valid address.
fn append_parsed(out: &mut Vec<Address>, texts: &Vec<String>) -> (ok: bool)
    ensures
        ok == all_parse(texts@),
        ok ==> key_bytes(final(out)@) == key_bytes(old(out)@) + parsed_keys(texts@),
{
    let ghost start = out@;
    let mut i: usize = 0;
    while i < texts.len()
        invariant
            i <= texts@.len(),
            forall|j: int| 0 <= j < i ==> (#[trigger] pubkey_of_text(texts@[j]@)) is Some,
            key_bytes(out@) == key_bytes(start) + parsed_keys(texts@).subrange(0, i as int),
        decreases texts@.len() - i,
    {
        match parse_address(texts[i].as_str()) {
            Some(a) => {
                let ghost before = out@;
                out.push(a);
                proof {
                    assert(key_bytes(out@) =~= key_bytes(before).push(a.bytes@));
                    assert(parsed_keys(texts@).subrange(0, i + 1) =~= parsed_keys(texts@).subrange(
                        0,
                        i as int,
                    ).push(a.bytes@));
                    assert(key_bytes(start) + parsed_keys(texts@).subrange(0, i + 1) =~= (key_bytes(
                        start,
                    ) + parsed_keys(texts@).subrange(0, i as int)).push(a.bytes@));
                }
            },
            None => {
                return false;
            },
        }
        i = i + 1;
    }
    assert(parsed_keys(texts@).subrange(0, texts@.len() as int) =~= parsed_keys(texts@));
    true
}

/// The transaction's full account list: its static keys, then the loaded
/// writable addresses, then the loaded read-only ones.
pub fn load_account_keys(
    static_keys: &Vec<Address>,
    writable: &Vec<String>,
    readonly: &Vec<String>,
) -> (r: Result<Vec<Address>, TransactionError>)
    ensures
        all_parse(writable@) && all_parse(readonly@) ==> (r matches Ok(keys) && key_bytes(keys@)
            == key_bytes(static_keys@) + parsed_keys(writable@) + parsed_keys(readonly@)),
        !(all_parse(writable@) && all_parse(readonly@)) ==> r == Err::<
            Vec<Address>,
            TransactionError,
        >(TransactionError::InvalidAddress),
{
    let mut keys: Vec<Address> = Vec::new();
    let mut i: usize = 0;
    while i < static_keys.len()
        invariant
            i <= static_keys@.len(),
            keys@ == static_keys@.subrange(0, i as int),
        decreases static_keys@.len() - i,
    {
        keys.push(static_keys[i]);
        assert(keys@ =~= static_keys@.subrange(0, i + 1));
        i = i + 1;
    }
    assert(keys@ =~= static_keys@);
    if !append_parsed(&mut keys, writable) {
        return Err(TransactionError::InvalidAddress);
    }
    if !append_parsed(&mut keys, readonly) {
        return Err(TransactionError::InvalidAddress);
    }
    Ok(keys)
}

/// What an instruction of a transaction comes to at the decode boundary.
#[derive(Debug)]
pub enum InstructionOutcome {
    /// A Bubblegum instruction, decoded.
    Decoded(BubblegumInstruction),
    /// A Bubblegum instruction that failed to decode; the transaction's
    /// other instructions are unaffected.
    Failed(DecodeError),
    /// An instruction of the companion logging program, set aside.
    Logged,
    /// An instruction of some other program, ignored.
    Ignored,
}

/// The accounts an instruction names, in its order.
pub open spec fn metas_of(keys: Seq<AccountMeta>, idx: Seq<u8>) -> Seq<AccountMeta> {
    Seq::new(idx.len(), |j: int| keys[idx[j] as int])
}

pub open spec fn indices_in_range(n: nat, idx: Seq<u8>) -> bool {
    forall|j: int| 0 <= j < idx.len() ==> (#[trigger] idx[j]) < n
}

/// `o` is what the boundary gives for instruction `ix` of a transaction
/// whose accounts are `keys`: the program is told by its address; only a
/// Bubblegum instruction is decoded.
pub open spec fn outcome_of(keys: Seq<AccountMeta>, ix: CompiledInstruction, o: InstructionOutcome) -> bool {
    if ix.program_id_index as int >= keys.len() {
        o is Ignored
    } else {
        let program = keys[ix.program_id_index as int].pubkey.bytes@;
        if program == noop_id_bytes() {
            o is Logged
        } else if program != bubblegum_id_bytes() {
            o is Ignored
        } else if !indices_in_range(keys.len(), ix.accounts@) {
            o == InstructionOutcome::Failed(DecodeError::AccountIndexOutOfRange)
        } else {
            let a = metas_of(keys, ix.accounts@);
            match o {
                InstructionOutcome::Decoded(d) => parse_result(
                    a,
                    ix.data@,
                    Ok::<BubblegumInstruction, DecodeError>(d),
                ),
                InstructionOutcome::Failed(e) => parse_result(
                    a,
                    ix.data@,
                    Err::<BubblegumInstruction, DecodeError>(e),
                ),
                _ => false,
            }
        }
    }
}

/// Sends one instruction of a transaction through the decode boundary.
pub fn decode_instruction(keys: &Vec<AccountMeta>, ix: &CompiledInstruction) -> (r: InstructionOutcome)
    ensures
        outcome_of(keys@, *ix, r),
{
    let p = ix.program_id_index as usize;
    if p >= keys.len() {
        return InstructionOutcome::Ignored;
    }
    let program = keys[p].pubkey;
    if program == noop_program_id() {
        return InstructionOutcome::Logged;
    }
    if program != bubblegum_program_id() {
        return InstructionOutcome::Ignored;
    }
    let mut metas: Vec<AccountMeta> = Vec::new();
    let mut j: usize = 0;
    while j < ix.accounts.len()
        invariant
            p == ix.program_id_index as usize,
            p < keys@.len(),
            keys@[p as int].pubkey.bytes@ == bubblegum_id_bytes(),
            keys@[p as int].pubkey.bytes@ != noop_id_bytes(),
            j <= ix.accounts@.len(),
            indices_in_range(keys@.len(), ix.accounts@.subrange(0, j as int)),
            metas@ == metas_of(keys@, ix.accounts@.subrange(0, j as int)),
        decreases ix.accounts@.len() - j,
    {
        let k = ix.accounts[j] as usize;
        if k >= keys.len() {
            assert(!(ix.accounts@[j as int] < keys@.len()));
            return InstructionOutcome::Failed(DecodeError::AccountIndexOutOfRange);
        }
        metas.push(keys[k]);
        proof {
            assert(ix.accounts@.subrange(0, j + 1)[j as int] == ix.accounts@[j as int]);
            assert forall|t: int| 0 <= t < j + 1 implies (#[trigger] ix.accounts@.subrange(
                0,
                j + 1,
            )[t]) < keys@.len() by {
                if t < j {
                    assert(ix.accounts@.subrange(0, j + 1)[t] == ix.accounts@.subrange(0, j as int)[t]);
                }
            };
            assert(metas@ =~= metas_of(keys@, ix.accounts@.subrange(0, j + 1)));
        }
        j = j + 1;
    }
    assert(ix.accounts@.subrange(0, ix.accounts@.len() as int) =~= ix.accounts@);
    match BubblegumInstruction::parse(metas.as_slice(), ix.data.as_slice()) {
        Ok(d) => InstructionOutcome::Decoded(d),
        Err(e) => InstructionOutcome::Failed(e),
    }
}

/// Sends each instruction of a transaction through the decode boundary, in
/// order. A failure stays with its instruction and stops nothing.
pub fn decode_instructions(keys: &Vec<AccountMeta>, instructions: &Vec<CompiledInstruction>) -> (r: Vec<
    InstructionOutcome,
>)
    ensures
        r@.len() == instructions@.len(),
        forall|i: int| 0 <= i < r@.len() ==> outcome_of(keys@, instructions@[i], #[trigger] r@[i]),
{
    let mut out: Vec<InstructionOutcome> = Vec::new();
    let mut i: usize = 0;
    while i < instructions.len()
        invariant
            i <= instructions@.len(),
            out@.len() == i,
            forall|t: int| 0 <= t < i ==> outcome_of(keys@, instructions@[t], #[trigger] out@[t]),
        decreases instructions@.len() - i,
    {
        out.push(decode_instruction(keys, &instructions[i]));
        i = i + 1;
    }
    out
}

/// The status metadata of a fetched transaction, as far as it is read here.
#[derive(Clone, Debug)]
pub struct RawMeta {
    pub loaded_writable: Vec<String>,
    pub loaded_readonly: Vec<String>,
    pub inner_instructions: Option<Vec<UiInnerInstructions>>,
}

/// A fetched transaction, as far as it is read here.
#[derive(Clone, Debug)]
pub struct RawTransaction {
    pub slot: u64,
    pub signature: String,
    pub static_account_keys: Vec<Address>,
    pub message_instructions: Vec<CompiledInstruction>,
    pub meta: Option<RawMeta>,
}

/// What the downstream transform is handed for one transaction.
#[derive(Clone, Debug)]
pub struct TransactionContext {
    pub slot: u64,
    pub signature: String,
    pub account_keys: Vec<Address>,
    pub message_instructions: Vec<CompiledInstruction>,
    pub inner_instructions: Vec<InnerInstructions>,
}

pub open spec fn reported_groups(meta: RawMeta) -> Seq<UiInnerInstructions> {
    match meta.inner_instructions {
        Some(v) => v@,
        None => Seq::empty(),
    }
}

/// Turns a fetched transaction into the context the downstream transform
/// takes: the full account list, and the inner instructions with their data
/// decoded. Metadata is required; the account list is checked before the
/// inner instructions.
pub fn prepare_transaction(raw: RawTransaction) -> (r: Result<TransactionContext, TransactionError>)
    ensures
        raw.meta is None ==> r == Err::<TransactionContext, TransactionError>(
            TransactionError::MissingMeta,
        ),
        raw.meta matches Some(meta) ==> {
            let keys_ok = all_parse(meta.loaded_writable@) && all_parse(meta.loaded_readonly@);
            let inner_error = first_error(reported_groups(meta), group_check());
            &&& !keys_ok ==> r == Err::<TransactionContext, TransactionError>(
                TransactionError::InvalidAddress,
            )
            &&& keys_ok && inner_error is Some ==> r == Err::<TransactionContext, TransactionError>(
                inner_error->0,
            )
            &&& keys_ok && inner_error is None ==> (r matches Ok(ctx) && ctx.slot == raw.slot
                && ctx.signature == raw.signature && ctx.message_instructions
                == raw.message_instructions && key_bytes(ctx.account_keys@) == key_bytes(
                raw.static_account_keys@,
            ) + parsed_keys(meta.loaded_writable@) + parsed_keys(meta.loaded_readonly@)
                && ctx.inner_instructions@.len() == reported_groups(meta).len() && forall|k: int|
                0 <= k < reported_groups(meta).len() ==> group_converted(
                #[trigger] reported_groups(meta)[k],
                ctx.inner_instructions@[k],
            ))
        },
{
    let meta = match raw.meta {
        Some(m) => m,
        None => {
            return Err(TransactionError::MissingMeta);
        },
    };
    let account_keys = match load_account_keys(
        &raw.static_account_keys,
        &meta.loaded_writable,
        &meta.loaded_readonly,
    ) {
        Ok(keys) => keys,
        Err(e) => {
            return Err(e);
        },
    };
    let groups = match meta.inner_instructions {
        Some(v) => v,
        None => Vec::new(),
    };
    assert(groups@ == reported_groups(meta));
    let inner_instructions = match convert_inner_instructions(&groups) {
        Ok(v) => v,
        Err(e) => {
            return Err(e);
        },
    };
    Ok(
        TransactionContext {
            slot: raw.slot,
            signature: raw.signature,
            account_keys,
            message_instructions: raw.message_instructions,
            inner_instructions,
        },
    )
}

} // verus!
