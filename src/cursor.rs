use vstd::prelude::*;

verus! {

/// One tracked tree, as the external store keeps it.
#[derive(Clone, Debug)]
pub struct TrackedTree {
    pub address: String,
    pub capacity: Option<u64>,
    pub max_depth: Option<u32>,
    pub canopy_depth: Option<u32>,
    pub should_index: bool,
    pub genesis_backfill_completed: bool,
    /// The newest transaction believed fully applied for this tree.
    pub last_processed_signature: Option<String>,
}

impl TrackedTree {
    /// A newly registered tree: indexed, with no history walked yet.
    pub fn new(address: String) -> (r: TrackedTree)
        ensures
            r.address == address,
            r.capacity is None,
            r.max_depth is None,
            r.canopy_depth is None,
            r.should_index,
            !r.genesis_backfill_completed,
            r.last_processed_signature is None,
    {
        TrackedTree {
            address,
            capacity: None,
            max_depth: None,
            canopy_depth: None,
            should_index: true,
            genesis_backfill_completed: false,
            last_processed_signature: None,
        }
    }

    /// Moves the cursor to `signature`. The write is blind: whatever the
    /// cursor held is replaced.
    pub fn advance_cursor(&mut self, signature: String)
        ensures
            *final(self) == (TrackedTree {
                last_processed_signature: Some(signature),
                ..*old(self)
            }),
    {
        self.last_processed_signature = Some(signature);
    }

    /// Records that the tree's history has been walked to its first
    /// transaction.
    pub fn mark_genesis_complete(&mut self)
        ensures
            *final(self) == (TrackedTree { genesis_backfill_completed: true, ..*old(self) }),
    {
        self.genesis_backfill_completed = true;
    }
}

/// The state that processing leaves behind: the signatures the downstream
/// store has applied, kept as a set, and each tree's cursor.
pub struct StoreState {
    pub applied: Set<Seq<char>>,
    pub cursors: Map<Seq<char>, Seq<char>>,
}

/// The state after transaction `sig` is applied downstream and, when it
/// carries a tree, that tree's cursor is moved to it.
pub open spec fn apply_transaction(st: StoreState, sig: Seq<char>, tree: Option<Seq<char>>) -> StoreState {
    StoreState {
        applied: st.applied.insert(sig),
        cursors: match tree {
            Some(t) => st.cursors.insert(t, sig),
            None => st.cursors,
        },
    }
}

/// Delivering the same transaction twice leaves the same state as
/// delivering it once, so redelivery after a crash between apply and cursor
/// write is harmless.
pub proof fn lemma_replay_is_idempotent(st: StoreState, sig: Seq<char>, tree: Option<Seq<char>>)
    ensures
        apply_transaction(apply_transaction(st, sig, tree), sig, tree) == apply_transaction(
            st,
            sig,
            tree,
        ),
{
    let once = apply_transaction(st, sig, tree);
    let twice = apply_transaction(once, sig, tree);
    assert(twice.applied =~= once.applied);
    assert(twice.cursors =~= once.cursors);
}

/// Moving a tree's cursor twice to one signature leaves the same row as
/// moving it once.
pub proof fn lemma_cursor_advance_is_idempotent(tree: TrackedTree, signature: String)
    ensures
        (TrackedTree {
            last_processed_signature: Some(signature),
            ..(TrackedTree { last_processed_signature: Some(signature), ..tree })
        }) == (TrackedTree { last_processed_signature: Some(signature), ..tree }),
{
}

} // verus!
