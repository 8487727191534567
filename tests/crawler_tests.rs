use lightdas::crawler::{CrawlStep, SignatureCrawler, PAGE_CAP};
use lightdas::queue::{pop_front, Origin, WorkQueue};

fn page(prefix: &str, n: usize) -> Vec<String> {
    (0..n).map(|i| format!("{}{}", prefix, i)).collect()
}

#[test]
fn three_pages_three_calls() {
    let mut q = WorkQueue::new();
    let (mut c, first) = SignatureCrawler::start("tree".to_string(), None, false);
    assert_eq!(first.before, None);
    assert_eq!(first.until, None);
    let mut calls = 1;
    let sizes = [1000usize, 1000, 400];
    let mut last = None;
    for (k, n) in sizes.iter().enumerate() {
        let step = c.on_page(&page(&format!("p{}-", k), *n), &mut q);
        match step {
            CrawlStep::Fetch(req) => {
                calls += 1;
                assert_eq!(req.before, Some(format!("p{}-{}", k, n - 1)));
            }
            other => last = Some(other),
        }
    }
    assert_eq!(calls, 3);
    assert!(matches!(last, Some(CrawlStep::Finished { mark_genesis_complete: true })));
    assert_eq!(q.len(), 2400);
}

#[test]
fn mark_only_after_short_page() {
    let mut q = WorkQueue::new();
    let (mut c, _) = SignatureCrawler::start("tree".to_string(), None, false);
    let step = c.on_page(&page("a", PAGE_CAP), &mut q);
    assert!(matches!(step, CrawlStep::Fetch(_)));
    let step = c.on_page(&Vec::new(), &mut q);
    assert!(matches!(step, CrawlStep::Finished { mark_genesis_complete: true }));
}

#[test]
fn page_oldest_signature_ends_in_front() {
    let mut q = WorkQueue::new();
    let (mut c, _) = SignatureCrawler::start("tree".to_string(), Some("cur".to_string()), false);
    let sigs = vec!["new".to_string(), "mid".to_string(), "old".to_string()];
    c.on_page(&sigs, &mut q);
    let front = pop_front(&mut q).unwrap();
    assert_eq!(front.transaction_signature, "old");
    assert_eq!(front.tree_address, Some("tree".to_string()));
    assert_eq!(front.origin, Origin::Backfill);
}

#[test]
fn stored_cursor_bounds() {
    let (_, req) = SignatureCrawler::start("t".to_string(), Some("s".to_string()), false);
    assert_eq!(req.before, Some("s".to_string()));
    assert_eq!(req.until, None);
    let (_, req) = SignatureCrawler::start("t".to_string(), Some("s".to_string()), true);
    assert_eq!(req.before, None);
    assert_eq!(req.until, Some("s".to_string()));
}

#[test]
fn listing_errors_retry_then_abandon() {
    let (mut c, _) = SignatureCrawler::start("t".to_string(), None, false);
    match c.on_error() {
        CrawlStep::RetryAfter { delay_ms, request } => {
            assert_eq!(delay_ms, 110);
            assert_eq!(request.before, None);
        }
        other => panic!("unexpected {:?}", other),
    }
    for _ in 1..29 {
        assert!(matches!(c.on_error(), CrawlStep::RetryAfter { .. }));
    }
    assert!(matches!(c.on_error(), CrawlStep::Abandoned));
    let mut q = WorkQueue::new();
    assert!(matches!(c.on_page(&page("x", 3), &mut q), CrawlStep::Finished { mark_genesis_complete: false }));
    assert_eq!(q.len(), 0);
}
