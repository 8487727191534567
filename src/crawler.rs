use crate::queue::{push_front, Origin, TransactionsQueue, WorkQueue};
use crate::retry::{retry_delay, Retry, MAX_ATTEMPTS};
use vstd::prelude::*;

verus! {

/// The most signatures one listing call returns.
pub const PAGE_CAP: usize = 1000;

pub open spec fn opt_view(o: Option<String>) -> Option<Seq<char>> {
    match o {
        Some(s) => Some(s@),
        None => None,
    }
}

/// The bounds of one `listSignatures` call: signatures strictly older than
/// `before` and strictly newer than `until`, newest first.
#[derive(Clone, Debug)]
pub struct PageRequest {
    pub before: Option<String>,
    pub until: Option<String>,
}

/// What the crawler asks of its caller next.
#[derive(Clone, Debug)]
pub enum CrawlStep {
    /// List the next page.
    Fetch(PageRequest),
    /// The last listing failed: wait, then list the same page again.
    RetryAfter { delay_ms: u64, request: PageRequest },
    /// The walk is over; when `mark_genesis_complete` holds, record in the
    /// tree's state that its history has been walked to the end.
    Finished { mark_genesis_complete: bool },
    /// The listing kept failing: this tree's backfill is abandoned.
    Abandoned,
}

/// The crawler's state as a value.
pub struct CrawlModel {
    pub tree: Seq<char>,
    pub before: Option<Seq<char>>,
    pub until: Option<Seq<char>>,
    /// Listing calls asked for so far.
    pub calls: nat,
    pub finished: bool,
    /// Whether the crawl has asked to mark the tree's history as walked.
    pub marked: bool,
    /// Failed listing calls since the last page came back.
    pub failures: nat,
}

/// The state a crawl starts in. A tree whose history has been walked to the
/// end catches up from the newest signature down to its cursor; any other
/// tree walks backward from its cursor, or from the newest signature when it
/// has none.
pub open spec fn crawl_start(
    tree: Seq<char>,
    cursor: Option<Seq<char>>,
    genesis_backfill_completed: bool,
) -> CrawlModel {
    if genesis_backfill_completed {
        CrawlModel {
            tree,
            before: None,
            until: cursor,
            calls: 1,
            finished: false,
            marked: false,
            failures: 0,
        }
    } else {
        CrawlModel {
            tree,
            before: cursor,
            until: None,
            calls: 1,
            finished: false,
            marked: false,
            failures: 0,
        }
    }
}

/// The state after a page of signatures (newest first) comes back. An empty
/// page or one shorter than the cap ends the walk and marks it complete; a
/// full page moves the `before` bound to its oldest signature and asks for
/// another.
pub open spec fn crawl_step(m: CrawlModel, page: Seq<Seq<char>>) -> CrawlModel {
    if m.finished {
        m
    } else if page.len() == 0 {
        CrawlModel { finished: true, marked: true, failures: 0, ..m }
    } else if page.len() < PAGE_CAP {
        CrawlModel { before: Some(page.last()), finished: true, marked: true, failures: 0, ..m }
    } else {
        CrawlModel { before: Some(page.last()), calls: m.calls + 1, failures: 0, ..m }
    }
}

/// The state after a run of pages.
pub open spec fn crawl_run(m: CrawlModel, pages: Seq<Seq<Seq<char>>>) -> CrawlModel
    decreases pages.len(),
{
    if pages.len() == 0 {
        m
    } else {
        crawl_run(crawl_step(m, pages[0]), pages.drop_first())
    }
}

/// `t` is the work item the crawler queues for signature `sig` of `tree`.
pub open spec fn is_backfill_item(t: TransactionsQueue, sig: Seq<char>, tree: Seq<char>) -> bool {
    &&& t.transaction_signature@ == sig
    &&& opt_view(t.tree_address) == Some(tree)
    &&& t.origin == Origin::Backfill
}

/// The queue after a page is pushed to its front signature by signature,
/// newest first, so that the page's oldest signature ends up in front.
pub open spec fn page_pushed(
    before: Seq<TransactionsQueue>,
    after: Seq<TransactionsQueue>,
    page: Seq<Seq<char>>,
    tree: Seq<char>,
) -> bool {
    &&& after.len() == before.len() + page.len()
    &&& after.subrange(page.len() as int, after.len() as int) == before
    &&& forall|i: int|
        0 <= i < page.len() ==> is_backfill_item(
            #[trigger] after[i],
            page[page.len() - 1 - i],
            tree,
        )
}

pub open spec fn page_view(page: Seq<String>) -> Seq<Seq<char>> {
    page.map_values(|s: String| s@)
}

/// The walk of one tree's signature history.
pub struct SignatureCrawler {
    tree_address: String,
    before: Option<String>,
    until: Option<String>,
    finished: bool,
    marked: bool,
    calls: Ghost<nat>,
    retry: Retry,
}

impl View for SignatureCrawler {
    type V = CrawlModel;

    closed spec fn view(&self) -> CrawlModel {
        CrawlModel {
            tree: self.tree_address@,
            before: opt_view(self.before),
            until: opt_view(self.until),
            calls: self.calls@,
            finished: self.finished,
            marked: self.marked,
            failures: self.retry.failures(),
        }
    }
}

impl SignatureCrawler {
    pub closed spec fn wf(&self) -> bool {
        &&& self.retry.wf()
        &&& !self.finished ==> self.retry.failures() < MAX_ATTEMPTS
    }

    /// The bounds of the next listing call.
    pub fn request(&self) -> (r: PageRequest)
        ensures
            opt_view(r.before) == self@.before,
            opt_view(r.until) == self@.until,
    {
        PageRequest { before: self.before.clone(), until: self.until.clone() }
    }

    /// Starts a crawl of `tree_address` from its stored cursor and returns
    /// it with the first listing call to make.
    pub fn start(
        tree_address: String,
        last_processed_signature: Option<String>,
        genesis_backfill_completed: bool,
    ) -> (r: (SignatureCrawler, PageRequest))
        ensures
            r.0.wf(),
            r.0@ == crawl_start(
                tree_address@,
                opt_view(last_processed_signature),
                genesis_backfill_completed,
            ),
            opt_view(r.1.before) == r.0@.before,
            opt_view(r.1.until) == r.0@.until,
    {
        let (before, until) = if genesis_backfill_completed {
            (None, last_processed_signature)
        } else {
            (last_processed_signature, None)
        };
        let crawler = SignatureCrawler {
            tree_address,
            before,
            until,
            finished: false,
            marked: false,
            calls: Ghost(1),
            retry: Retry::new(),
        };
        let request = crawler.request();
        (crawler, request)
    }

    /// Takes the page that the last listing call returned, queues its
    /// signatures at the front of the work queue and says what to do next.
    pub fn on_page(&mut self, page: &Vec<String>, queue: &mut WorkQueue) -> (r: CrawlStep)
        requires
            old(self).wf(),
        ensures
            final(self).wf(),
            final(self)@ == crawl_step(old(self)@, page_view(page@)),
            old(self)@.finished ==> final(queue)@ == old(queue)@,
            !old(self)@.finished ==> page_pushed(
                old(queue)@,
                final(queue)@,
                page_view(page@),
                old(self)@.tree,
            ),
            final(self)@.finished ==> r == (CrawlStep::Finished {
                mark_genesis_complete: final(self)@.marked,
            }),
            !final(self)@.finished ==> (r matches CrawlStep::Fetch(req) && opt_view(req.before)
                == final(self)@.before && opt_view(req.until) == final(self)@.until),
    {
        if self.finished {
            return CrawlStep::Finished { mark_genesis_complete: self.marked };
        }
        self.retry = Retry::new();
        let n = page.len();
        let ghost q0 = queue@;
        let mut i: usize = 0;
        assert(queue@.subrange(0, queue@.len() as int) =~= q0);
        while i < n
            invariant
                n == page@.len(),
                i <= n,
                page_pushed(q0, queue@, page_view(page@).subrange(0, i as int), self.tree_address@),
            decreases n - i,
        {
            let item = TransactionsQueue {
                transaction_signature: page[i].clone(),
                tree_address: Some(self.tree_address.clone()),
                origin: Origin::Backfill,
            };
            let ghost qi = queue@;
            push_front(queue, item);
            proof {
                let pv = page_view(page@);
                let post = pv.subrange(0, i + 1);
                assert forall|j: int| 0 <= j < post.len() implies is_backfill_item(
                    #[trigger] queue@[j],
                    post[post.len() - 1 - j],
                    self.tree_address@,
                ) by {
                    if j > 0 {
                        assert(queue@[j] == qi[j - 1]);
                    }
                };
                assert(queue@.subrange(post.len() as int, queue@.len() as int) =~= q0);
            }
            i = i + 1;
        }
        assert(page_view(page@).subrange(0, n as int) =~= page_view(page@));
        if n == 0 {
            self.finished = true;
            self.marked = true;
            return CrawlStep::Finished { mark_genesis_complete: true };
        }
        self.before = Some(page[n - 1].clone());
        if n < PAGE_CAP {
            self.finished = true;
            self.marked = true;
            CrawlStep::Finished { mark_genesis_complete: true }
        } else {
            self.calls = Ghost(self.calls@ + 1);
            CrawlStep::Fetch(self.request())
        }
    }

    /// Takes a failed listing call: asks for the same page again after the
    /// backoff delay, or abandons the crawl once the attempts are used up.
    pub fn on_error(&mut self) -> (r: CrawlStep)
        requires
            old(self).wf(),
        ensures
            final(self).wf(),
            old(self)@.finished ==> final(self)@ == old(self)@ && r == (CrawlStep::Finished {
                mark_genesis_complete: old(self)@.marked,
            }),
            !old(self)@.finished && retry_delay(old(self)@.failures + 1) is None ==> final(self)@
                == (CrawlModel { finished: true, failures: old(self)@.failures + 1, ..old(self)@ })
                && r is Abandoned,
            !old(self)@.finished && retry_delay(old(self)@.failures + 1) is Some ==> final(self)@
                == (CrawlModel { failures: old(self)@.failures + 1, ..old(self)@ }) && (
            r matches CrawlStep::RetryAfter { delay_ms, request } && retry_delay(
                old(self)@.failures + 1,
            ) == Some(delay_ms as nat) && opt_view(request.before) == old(self)@.before
                && opt_view(request.until) == old(self)@.until),
    {
        if self.finished {
            return CrawlStep::Finished { mark_genesis_complete: self.marked };
        }
        match self.retry.on_failure() {
            Some(delay_ms) => CrawlStep::RetryAfter { delay_ms, request: self.request() },
            None => {
                self.finished = true;
                CrawlStep::Abandoned
            },
        }
    }
}

proof fn lemma_full_pages(m: CrawlModel, pages: Seq<Seq<Seq<char>>>)
    requires
        !m.finished,
        forall|i: int| 0 <= i < pages.len() ==> #[trigger] pages[i].len() >= PAGE_CAP,
    ensures
        crawl_run(m, pages) == (CrawlModel {
            calls: m.calls + pages.len(),
            failures: if pages.len() == 0 {
                m.failures
            } else {
                0
            },
            before: if pages.len() == 0 {
                m.before
            } else {
                Some(pages.last().last())
            },
            ..m
        }),
    decreases pages.len(),
{
    if pages.len() > 0 {
        let rest = pages.drop_first();
        assert forall|i: int| 0 <= i < rest.len() implies #[trigger] rest[i].len() >= PAGE_CAP by {
            assert(rest[i] == pages[i + 1]);
        };
        assert(pages[0].len() >= PAGE_CAP);
        lemma_full_pages(crawl_step(m, pages[0]), rest);
        if rest.len() > 0 {
            assert(rest.last() == pages.last());
        }
    }
}

/// Facing pages of which all but the last are full and the last is empty
/// or shorter than the cap, a crawl makes exactly one listing call per page,
/// stops after the last one and asks for the tree's history to be marked as
/// walked.
pub proof fn lemma_one_call_per_page(
    tree: Seq<char>,
    cursor: Option<Seq<char>>,
    genesis_backfill_completed: bool,
    pages: Seq<Seq<Seq<char>>>,
)
    requires
        pages.len() > 0,
        forall|i: int| 0 <= i < pages.len() - 1 ==> #[trigger] pages[i].len() == PAGE_CAP,
        pages.last().len() < PAGE_CAP,
    ensures
        crawl_run(crawl_start(tree, cursor, genesis_backfill_completed), pages).calls
            == pages.len(),
        crawl_run(crawl_start(tree, cursor, genesis_backfill_completed), pages).finished,
        crawl_run(crawl_start(tree, cursor, genesis_backfill_completed), pages).marked,
{
    let m = crawl_start(tree, cursor, genesis_backfill_completed);
    let n = pages.len();
    let full = pages.subrange(0, n - 1);
    assert forall|i: int| 0 <= i < full.len() implies #[trigger] full[i].len() >= PAGE_CAP by {
        assert(full[i] == pages[i]);
    };
    lemma_full_pages(m, full);
    lemma_run_split(m, pages, n - 1);
    let m2 = crawl_run(m, full);
    assert(pages.subrange(n - 1, n as int) =~= seq![pages.last()]);
    let last = seq![pages.last()];
    assert(last.drop_first() =~= Seq::<Seq<Seq<char>>>::empty());
    assert(last[0] == pages.last());
    assert(crawl_run(crawl_step(m2, last[0]), last.drop_first()) == crawl_step(m2, last[0]));
    assert(crawl_run(m2, last) == crawl_step(m2, pages.last()));
}

proof fn lemma_run_split(m: CrawlModel, pages: Seq<Seq<Seq<char>>>, k: int)
    requires
        0 <= k <= pages.len(),
    ensures
        crawl_run(m, pages) == crawl_run(
            crawl_run(m, pages.subrange(0, k)),
            pages.subrange(k, pages.len() as int),
        ),
    decreases k,
{
    if k == 0 {
        assert(pages.subrange(0, 0) =~= Seq::<Seq<Seq<char>>>::empty());
        assert(pages.subrange(0, pages.len() as int) =~= pages);
    } else {
        lemma_run_split(crawl_step(m, pages[0]), pages.drop_first(), k - 1);
        assert(pages.subrange(0, k).drop_first() =~= pages.drop_first().subrange(0, k - 1));
        assert(pages.drop_first().subrange(k - 1, pages.len() - 1) =~= pages.subrange(
            k,
            pages.len() as int,
        ));
        assert(pages.subrange(0, k)[0] == pages[0]);
    }
}

/// A crawl of a tree with no stored cursor starts with no `before` bound,
/// that is from the newest signature, and does not mark the tree's history
/// as walked while every page it meets is full.
pub proof fn lemma_no_mark_before_short_page(tree: Seq<char>, pages: Seq<Seq<Seq<char>>>)
    requires
        forall|i: int| 0 <= i < pages.len() ==> #[trigger] pages[i].len() >= PAGE_CAP,
    ensures
        crawl_start(tree, None, false).before is None,
        crawl_start(tree, None, false).until is None,
        !crawl_run(crawl_start(tree, None, false), pages).marked,
        !crawl_run(crawl_start(tree, None, false), pages).finished,
{
    lemma_full_pages(crawl_start(tree, None, false), pages);
}

} // verus!
