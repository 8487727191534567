use std::collections::VecDeque;
use vstd::prelude::*;

verus! {

/// Where a work item came from.
#[derive(Clone, Copy, Debug, PartialEq, Eq, Structural)]
pub enum Origin {
    Backfill,
    Live,
}

/// A work item: one transaction signature awaiting fetch, decode and apply,
/// with the tree whose cursor it may advance.
#[derive(Clone, Debug)]
pub struct TransactionsQueue {
    pub transaction_signature: String,
    pub tree_address: Option<String>,
    pub origin: Origin,
}

/// The shared double-ended work queue. It has no capacity bound.
pub struct WorkQueue {
    items: VecDeque<TransactionsQueue>,
}

impl View for WorkQueue {
    type V = Seq<TransactionsQueue>;

    closed spec fn view(&self) -> Seq<TransactionsQueue> {
        self.items@
    }
}

impl WorkQueue {
    pub fn new() -> (r: WorkQueue)
        ensures
            r@ == Seq::<TransactionsQueue>::empty(),
    {
        WorkQueue { items: VecDeque::new() }
    }

    pub fn len(&self) -> (r: usize)
        ensures
            r == self@.len(),
    {
        self.items.len()
    }
}

/// Queues an item ahead of everything already queued.
pub fn push_front(queue: &mut WorkQueue, transaction: TransactionsQueue)
    ensures
        final(queue)@ == seq![transaction] + old(queue)@,
{
    queue.items.push_front(transaction);
}

/// Takes the item at the front, if any.
pub fn pop_front(queue: &mut WorkQueue) -> (r: Option<TransactionsQueue>)
    ensures
        old(queue)@.len() == 0 ==> r is None && final(queue)@ == old(queue)@,
        old(queue)@.len() > 0 ==> r == Some(old(queue)@[0]) && final(queue)@
            == old(queue)@.drop_first(),
{
    queue.items.pop_front()
}

/// Takes the item at the back, if any.
pub fn pop_back(queue: &mut WorkQueue) -> (r: Option<TransactionsQueue>)
    ensures
        old(queue)@.len() == 0 ==> r is None && final(queue)@ == old(queue)@,
        old(queue)@.len() > 0 ==> r == Some(old(queue)@.last()) && final(queue)@
            == old(queue)@.drop_last(),
{
    queue.items.pop_back()
}

/// Queues an item behind everything already queued.
pub fn push_back(queue: &mut WorkQueue, transaction: TransactionsQueue)
    ensures
        final(queue)@ == old(queue)@.push(transaction),
{
    queue.items.push_back(transaction);
}

/// The queue contents after pushing `items` to the back one at a time.
pub open spec fn after_push_backs(q: Seq<TransactionsQueue>, items: Seq<TransactionsQueue>) -> Seq<
    TransactionsQueue,
>
    decreases items.len(),
{
    if items.len() == 0 {
        q
    } else {
        after_push_backs(q.push(items[0]), items.drop_first())
    }
}

/// The queue contents after pushing `items` to the front one at a time.
pub open spec fn after_push_fronts(q: Seq<TransactionsQueue>, items: Seq<TransactionsQueue>) -> Seq<
    TransactionsQueue,
>
    decreases items.len(),
{
    if items.len() == 0 {
        q
    } else {
        after_push_fronts(seq![items[0]] + q, items.drop_first())
    }
}

/// The items that `n` successive front pops take from a queue holding `q`,
/// in the order they come out.
pub open spec fn front_pops(q: Seq<TransactionsQueue>, n: nat) -> Seq<TransactionsQueue>
    decreases n,
{
    if n == 0 || q.len() == 0 {
        Seq::empty()
    } else {
        seq![q[0]] + front_pops(q.drop_first(), (n - 1) as nat)
    }
}

proof fn lemma_after_push_backs(q: Seq<TransactionsQueue>, items: Seq<TransactionsQueue>)
    ensures
        after_push_backs(q, items) == q + items,
    decreases items.len(),
{
    if items.len() > 0 {
        lemma_after_push_backs(q.push(items[0]), items.drop_first());
        assert(q.push(items[0]) + items.drop_first() =~= q + items);
    }
}

proof fn lemma_after_push_fronts(q: Seq<TransactionsQueue>, items: Seq<TransactionsQueue>)
    ensures
        after_push_fronts(q, items) == items.reverse() + q,
    decreases items.len(),
{
    if items.len() > 0 {
        lemma_after_push_fronts(seq![items[0]] + q, items.drop_first());
        assert(items.drop_first().reverse() + (seq![items[0]] + q) =~= items.reverse() + q);
    }
}

proof fn lemma_front_pops_all(q: Seq<TransactionsQueue>)
    ensures
        front_pops(q, q.len()) == q,
    decreases q.len(),
{
    if q.len() > 0 {
        lemma_front_pops_all(q.drop_first());
        assert(seq![q[0]] + q.drop_first() =~= q);
    }
}

/// Items pushed to the back of a queue come out of the front after what was
/// already queued, in the order they were pushed.
pub proof fn lemma_back_pushes_leave_in_order(
    q: Seq<TransactionsQueue>,
    items: Seq<TransactionsQueue>,
)
    ensures
        front_pops(after_push_backs(q, items), q.len() + items.len()) == q + items,
{
    lemma_after_push_backs(q, items);
    lemma_front_pops_all(q + items);
}

/// Items pushed to the front of a queue come out of the front before what
/// was already queued, the last one pushed first.
pub proof fn lemma_front_pushes_leave_first(
    q: Seq<TransactionsQueue>,
    items: Seq<TransactionsQueue>,
)
    ensures
        front_pops(after_push_fronts(q, items), q.len() + items.len()) == items.reverse() + q,
{
    lemma_after_push_fronts(q, items);
    lemma_front_pops_all(items.reverse() + q);
}

} // verus!
