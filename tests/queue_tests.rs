use lightdas::queue::{pop_back, pop_front, push_back, push_front, Origin, TransactionsQueue, WorkQueue};
use lightdas::subscriber::process_logs;

fn item(sig: &str) -> TransactionsQueue {
    TransactionsQueue {
        transaction_signature: sig.to_string(),
        tree_address: None,
        origin: Origin::Live,
    }
}

fn sig_of(t: Option<TransactionsQueue>) -> Option<String> {
    t.map(|t| t.transaction_signature)
}

#[test]
fn back_pushes_pop_in_order() {
    let mut q = WorkQueue::new();
    push_back(&mut q, item("A"));
    push_back(&mut q, item("B"));
    assert_eq!(sig_of(pop_front(&mut q)), Some("A".to_string()));
    assert_eq!(sig_of(pop_front(&mut q)), Some("B".to_string()));
    assert_eq!(sig_of(pop_front(&mut q)), None);
}

#[test]
fn front_push_goes_first() {
    let mut q = WorkQueue::new();
    push_back(&mut q, item("A"));
    push_back(&mut q, item("B"));
    push_front(&mut q, item("X"));
    assert_eq!(q.len(), 3);
    assert_eq!(sig_of(pop_front(&mut q)), Some("X".to_string()));
    assert_eq!(sig_of(pop_front(&mut q)), Some("A".to_string()));
    assert_eq!(sig_of(pop_front(&mut q)), Some("B".to_string()));
}

#[test]
fn pop_back_takes_newest() {
    let mut q = WorkQueue::new();
    assert!(pop_back(&mut q).is_none());
    push_back(&mut q, item("A"));
    push_back(&mut q, item("B"));
    assert_eq!(sig_of(pop_back(&mut q)), Some("B".to_string()));
    assert_eq!(q.len(), 1);
}

#[test]
fn live_notification_queues_at_back() {
    let mut q = WorkQueue::new();
    push_back(&mut q, item("A"));
    process_logs("L".to_string(), &mut q);
    assert_eq!(q.len(), 2);
    let last = pop_back(&mut q).unwrap();
    assert_eq!(last.transaction_signature, "L");
    assert_eq!(last.tree_address, None);
    assert_eq!(last.origin, Origin::Live);
}
