use crate::crawler::opt_view;
use crate::queue::{pop_front, TransactionsQueue, WorkQueue};
use crate::retry::{retry_delay, Retry};
use vstd::prelude::*;

verus! {

/// How long an idle worker sleeps when the queue is empty, in milliseconds.
pub const IDLE_SLEEP_MS: u64 = 100;

/// What a worker asks of its caller next.
#[derive(Clone, Debug)]
pub enum WorkerAction {
    /// The queue is empty: sleep, then poll again.
    Sleep { ms: u64 },
    /// Fetch the full transaction of `signature`, then report the outcome.
    Fetch { signature: String },
    /// The fetch failed: wait `delay_ms`, fetch again, report the outcome.
    RetryFetch { signature: String, delay_ms: u64 },
    /// Decode the fetched transaction and hand it downstream, then report.
    Apply,
    /// Write `signature` as the cursor of `tree_address`; the item is done.
    PersistCursor { tree_address: String, signature: String },
    /// The item is done and carries no tree whose cursor could move.
    Done,
    /// The fetch attempts ran out or the downstream rejected the
    /// transaction: the item is dropped.
    Dropped,
    /// The event does not fit the worker's stage; nothing changed.
    Ignored,
}

/// A worker's stage as a value.
pub enum WorkerView {
    Idle,
    Fetching { sig: Seq<char>, tree: Option<Seq<char>>, failures: nat },
    Applying { sig: Seq<char>, tree: Option<Seq<char>> },
}

/// One worker of the pool: takes items from the front of the queue and
/// walks each through fetch, apply and cursor write.
pub struct Worker {
    item: Option<TransactionsQueue>,
    applying: bool,
    retry: Retry,
}

impl View for Worker {
    type V = WorkerView;

    closed spec fn view(&self) -> WorkerView {
        match self.item {
            None => WorkerView::Idle,
            Some(item) => if self.applying {
                WorkerView::Applying {
                    sig: item.transaction_signature@,
                    tree: opt_view(item.tree_address),
                }
            } else {
                WorkerView::Fetching {
                    sig: item.transaction_signature@,
                    tree: opt_view(item.tree_address),
                    failures: self.retry.failures(),
                }
            },
        }
    }
}

impl Worker {
    pub closed spec fn wf(&self) -> bool {
        self.retry.wf()
    }

    pub fn new() -> (r: Worker)
        ensures
            r.wf(),
            r@ is Idle,
    {
        Worker { item: None, applying: false, retry: Retry::new() }
    }

    /// An idle worker takes the item at the front of the queue and asks for
    /// its transaction, or sleeps when the queue is empty.
    pub fn poll(&mut self, queue: &mut WorkQueue) -> (r: WorkerAction)
        requires
            old(self).wf(),
        ensures
            final(self).wf(),
            !(old(self)@ is Idle) ==> final(self)@ == old(self)@ && final(queue)@ == old(queue)@
                && r is Ignored,
            old(self)@ is Idle && old(queue)@.len() == 0 ==> final(self)@ is Idle && final(queue)@
                == old(queue)@ && r == (WorkerAction::Sleep { ms: IDLE_SLEEP_MS }),
            old(self)@ is Idle && old(queue)@.len() > 0 ==> final(queue)@ == old(queue)@.drop_first()
                && final(self)@ == (WorkerView::Fetching {
                sig: old(queue)@[0].transaction_signature@,
                tree: opt_view(old(queue)@[0].tree_address),
                failures: 0,
            }) && (r matches WorkerAction::Fetch { signature } && signature@
                == old(queue)@[0].transaction_signature@),
    {
        if self.item.is_some() {
            return WorkerAction::Ignored;
        }
        match pop_front(queue) {
            None => WorkerAction::Sleep { ms: IDLE_SLEEP_MS },
            Some(item) => {
                let signature = item.transaction_signature.clone();
                self.item = Some(item);
                self.applying = false;
                self.retry = Retry::new();
                WorkerAction::Fetch { signature }
            },
        }
    }

    /// Takes the outcome of a fetch: a fetched transaction goes on to be
    /// applied; a failure is retried after the backoff delay until the
    /// attempts run out, and then the item is dropped.
    pub fn on_fetch(&mut self, succeeded: bool) -> (r: WorkerAction)
        requires
            old(self).wf(),
        ensures
            final(self).wf(),
            !(old(self)@ is Fetching) ==> final(self)@ == old(self)@ && r is Ignored,
            old(self)@ matches WorkerView::Fetching { sig, tree, failures } ==> {
                if succeeded {
                    final(self)@ == (WorkerView::Applying { sig, tree }) && r is Apply
                } else if retry_delay(failures + 1) is Some {
                    final(self)@ == (WorkerView::Fetching { sig, tree, failures: failures + 1 }) && (
                    r matches WorkerAction::RetryFetch { signature, delay_ms } && signature@ == sig
                        && retry_delay(failures + 1) == Some(delay_ms as nat))
                } else {
                    final(self)@ is Idle && r is Dropped
                }
            },
    {
        if self.applying {
            return WorkerAction::Ignored;
        }
        let signature = match &self.item {
            None => {
                return WorkerAction::Ignored;
            },
            Some(item) => item.transaction_signature.clone(),
        };
        if succeeded {
            self.applying = true;
            return WorkerAction::Apply;
        }
        match self.retry.on_failure() {
            Some(delay_ms) => WorkerAction::RetryFetch { signature, delay_ms },
            None => {
                self.item = None;
                WorkerAction::Dropped
            },
        }
    }

    /// Takes the outcome of handing the transaction downstream: on success
    /// the item's tree, if any, has its cursor moved to the item's
    /// signature; on failure the item is dropped. Either way the worker is
    /// idle again.
    pub fn on_apply(&mut self, succeeded: bool) -> (r: WorkerAction)
        requires
            old(self).wf(),
        ensures
            final(self).wf(),
            !(old(self)@ is Applying) ==> final(self)@ == old(self)@ && r is Ignored,
            old(self)@ matches WorkerView::Applying { sig, tree } ==> {
                &&& final(self)@ is Idle
                &&& !succeeded ==> r is Dropped
                &&& succeeded && tree is None ==> r is Done
                &&& succeeded && tree is Some ==> (r matches WorkerAction::PersistCursor {
                    tree_address,
                    signature,
                } && Some(tree_address@) == tree && signature@ == sig)
            },
    {
        if !self.applying {
            return WorkerAction::Ignored;
        }
        match self.item.take() {
            None => WorkerAction::Ignored,
            Some(item) => {
                self.applying = false;
                if !succeeded {
                    return WorkerAction::Dropped;
                }
                match item.tree_address {
                    Some(tree_address) => WorkerAction::PersistCursor {
                        tree_address,
                        signature: item.transaction_signature,
                    },
                    None => WorkerAction::Done,
                }
            },
        }
    }
}

} // verus!
