use wasi_async_runtime::polling::EventKey;
use wasi_async_runtime::polling::Poller;

#[test]
fn insert_then_get_returns_handle() {
    let mut p = Poller::new();
    let k = p.insert(10);
    assert_eq!(p.get(&k), Some(10));
}

#[test]
fn removed_key_queries_none_and_removal_is_idempotent() {
    let mut p = Poller::new();
    let a = p.insert(10);
    let b = p.insert(20);
    assert_eq!(p.remove(a), Some(10));
    assert_eq!(p.get(&a), None);
    assert_eq!(p.remove(a), None);
    assert_eq!(p.get(&a), None);
    assert_eq!(p.get(&b), Some(20));
}

#[test]
fn removed_key_is_reusable() {
    let mut p = Poller::new();
    let a = p.insert(10);
    let _b = p.insert(20);
    p.remove(a);
    let c = p.insert(30);
    assert_eq!(c, a);
    assert_eq!(p.get(&c), Some(30));
}

#[test]
fn with_capacity_starts_empty() {
    let mut p = Poller::with_capacity(8);
    assert_eq!(p.get(&EventKey(0)), None);
    let k = p.insert(7);
    assert_eq!(k, EventKey(0));
}

#[test]
fn ready_subset_is_exactly_the_reported_positions() {
    let mut p = Poller::new();
    let a = p.insert(10);
    let b = p.insert(20);
    let targets = p.targets();
    assert_eq!(targets, vec![(a.0, 10), (b.0, 20)]);
    p.block_until(&targets, &vec![1]);
    assert_eq!(p.ready_list(), &vec![b]);
}

#[test]
fn ready_subset_is_level_triggered_until_host_state_changes() {
    let mut p = Poller::new();
    let _a = p.insert(10);
    let b = p.insert(20);
    let targets = p.targets();
    p.block_until(&targets, &vec![1]);
    assert_eq!(p.ready_list(), &vec![b]);
    // The host still reports the same position: the subset does not change.
    p.block_until(&targets, &vec![1]);
    assert_eq!(p.ready_list(), &vec![b]);
    // The host's state changed: the new report replaces the subset.
    p.block_until(&targets, &vec![0, 1]);
    assert_eq!(p.ready_list(), &vec![EventKey(0), b]);
}

#[test]
fn targets_skip_removed_keys() {
    let mut p = Poller::new();
    let a = p.insert(10);
    let b = p.insert(20);
    let c = p.insert(30);
    p.remove(b);
    let targets = p.targets();
    assert_eq!(targets, vec![(a.0, 10), (c.0, 30)]);
    // Position 1 now means key c, not the removed b.
    p.block_until(&targets, &vec![1]);
    assert_eq!(p.ready_list(), &vec![c]);
}

#[test]
fn ready_list_mut_allows_draining() {
    let mut p = Poller::new();
    let _a = p.insert(10);
    let targets = p.targets();
    p.block_until(&targets, &vec![0]);
    let list = p.ready_list_mut();
    assert_eq!(list.pop(), Some(EventKey(0)));
    assert!(p.ready_list().is_empty());
}
