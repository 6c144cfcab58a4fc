use wasi_async_runtime::Poll;
use wasi_async_runtime::polling::EventKey;
use wasi_async_runtime::reactor::NOOP_WAKER;
use wasi_async_runtime::reactor::Reactor;

#[test]
fn register_then_release_hands_handle_back() {
    let mut r = Reactor::new();
    let h = r.register(42);
    let key = h.event_key();
    assert!(r.has_registration(&key));
    let handle = h.release(&mut r);
    assert_eq!(handle, 42);
    assert!(!r.has_registration(&key));
}

#[test]
fn one_ready_handle_wakes_only_its_waker() {
    let mut r = Reactor::new();
    let ha = r.register(10);
    let hb = r.register(20);
    // The mock host marks only the second handle ready.
    assert!(matches!(ha.poll(&mut r, 7, false), Poll::Pending));
    assert!(matches!(hb.poll(&mut r, 8, true), Poll::Ready(())));
    let targets = r.targets();
    assert_eq!(targets, vec![(ha.event_key().0, 10), (hb.event_key().0, 20)]);
    let to_wake = r.block_until(&targets, &vec![1]);
    assert_eq!(to_wake, vec![8]);
}

#[test]
fn wake_pass_uses_placeholder_before_first_poll() {
    let mut r = Reactor::new();
    let _h = r.register(10);
    let targets = r.targets();
    let to_wake = r.block_until(&targets, &vec![0]);
    assert_eq!(to_wake, vec![NOOP_WAKER]);
}

#[test]
fn last_poll_wins_for_one_key() {
    let mut r = Reactor::new();
    let h = r.register(10);
    assert!(matches!(h.poll(&mut r, 7, false), Poll::Pending));
    assert!(matches!(h.poll(&mut r, 9, false), Poll::Pending));
    let targets = r.targets();
    let to_wake = r.block_until(&targets, &vec![0]);
    // Only the most recently stored waker survives.
    assert_eq!(to_wake, vec![9]);
}

#[test]
fn wait_for_resolves_exactly_once_and_only_when_ready() {
    let mut r = Reactor::new();
    let mut w = r.wait_for(42);
    // Not ready yet: the wait registers itself and suspends.
    assert!(matches!(w.poll(&mut r, 1, false), Poll::Pending));
    assert!(r.has_registration(&EventKey(0)));
    // Still not ready on resumption.
    assert!(matches!(w.poll(&mut r, 2, false), Poll::Pending));
    // Readiness observed: the wait resolves, hands the handle back, and its
    // registration is gone.
    match w.poll(&mut r, 3, true) {
        Poll::Ready(handle) => assert_eq!(handle, 42),
        Poll::Pending => panic!("ready wait must resolve"),
    }
    assert!(!r.has_registration(&EventKey(0)));
}

#[test]
fn wait_for_ready_on_first_poll_leaves_no_registration() {
    let mut r = Reactor::new();
    let mut w = r.wait_for(5);
    match w.poll(&mut r, 1, true) {
        Poll::Ready(handle) => assert_eq!(handle, 5),
        Poll::Pending => panic!("ready wait must resolve"),
    }
    assert!(!r.has_registration(&EventKey(0)));
}

#[test]
fn cancelling_a_pending_wait_deregisters_immediately() {
    let mut r = Reactor::new();
    let mut w = r.wait_for(42);
    assert!(matches!(w.poll(&mut r, 1, false), Poll::Pending));
    assert!(r.has_registration(&EventKey(0)));
    assert_eq!(w.cancel(&mut r), Some(42));
    assert!(!r.has_registration(&EventKey(0)));
}

#[test]
fn cancelling_an_unpolled_wait_returns_the_handle() {
    let mut r = Reactor::new();
    let w = r.wait_for(42);
    assert_eq!(w.cancel(&mut r), Some(42));
}
