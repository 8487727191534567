use crate::queue::{push_back, Origin, TransactionsQueue, WorkQueue};
use vstd::prelude::*;

verus! {

/// Turns one log notification of the live subscription into a work item at
/// the back of the queue. Live items carry no tree, so they never move a
/// cursor: the cursor tracks the backfill's progress.
pub fn process_logs(signature: String, queue: &mut WorkQueue)
    ensures
        final(queue)@ == old(queue)@.push(
            TransactionsQueue {
                transaction_signature: signature,
                tree_address: None,
                origin: Origin::Live,
            },
        ),
{
    push_back(
        queue,
        TransactionsQueue { transaction_signature: signature, tree_address: None, origin: Origin::Live },
    );
}

} // verus!
