//! The reactor: one exclusively owned multiplexer plus the map from
//! registration key to the one waker currently interested in that key, and
//! the scoped registration type that ties a key's lifetime to explicit
//! acquire/release.
//!
//! Wakers are opaque resume capabilities and stand here as `u64` identifiers;
//! the embedding layer keeps the real ones and invokes those whose
//! identifiers a wait-and-wake pass returns. Readiness of a single handle is
//! a host answer and comes in as a plain `ready` argument.
use vstd::prelude::*;
use std::collections::HashMap;
use crate::Poll;
use crate::polling::EventKey;
use crate::polling::Poller;
use crate::polling::is_entry_seq;

verus! {

broadcast use vstd::std_specs::hash::group_hash_axioms;

/// The waker stored for a key at registration time, before any real poll has
/// supplied one: invoking it must be safe and does nothing.
pub const NOOP_WAKER: u64 = 0;

/// Manages async system resources: owns the readiness multiplexer and the
/// key-to-waker map, with at most one waker stored per registration key
/// (registering a new one silently supersedes the previous; last poll wins).
#[derive(Debug)]
pub struct Reactor {
    poller: Poller,
    wakers: HashMap<u32, u64>,
}

impl Reactor {
    /// The registered readiness handles, by registration key.
    pub closed spec fn entries(&self) -> Map<int, u64> {
        self.poller.entries()
    }

    /// The stored wakers, by registration key.
    pub closed spec fn wakers(&self) -> Map<u32, u64> {
        self.wakers@
    }

    /// The ready subset recorded by the last wait-and-wake pass.
    pub closed spec fn ready(&self) -> Seq<EventKey> {
        self.poller.ready()
    }

    /// Slot bound of the multiplexer; see `Poller::slots`.
    pub closed spec fn slots(&self) -> nat {
        self.poller.slots()
    }

    /// The reactor's bookkeeping invariant: exactly the live registration
    /// keys have a stored waker. A ready key without a waker can therefore
    /// never arise; the fatal case the wait-and-wake pass would otherwise
    /// have to abort on is ruled out.
    pub closed spec fn wf(&self) -> bool {
        &&& self.poller.wf()
        &&& forall|k: int|
            #[trigger] self.poller.entries().dom().contains(k) ==> self.wakers@.dom().contains(
                k as u32,
            )
        &&& forall|k: u32|
            #[trigger] self.wakers@.dom().contains(k) ==> self.poller.entries().dom().contains(
                k as int,
            )
    }

    /// Create a new instance of `Reactor`: empty multiplexer, empty waker
    /// map.
    pub fn new() -> (r: Reactor)
        ensures
            r.wf(),
            r.entries() == Map::<int, u64>::empty(),
            r.wakers() == Map::<u32, u64>::empty(),
            r.ready() == Seq::<EventKey>::empty(),
            r.slots() == 0,
    {
        let r = Reactor { poller: Poller::new(), wakers: HashMap::new() };
        proof {
            r.poller.lemma_wf_key_bounds();
        }
        r
    }

    /// Register interest in a readiness handle. The new key gets the no-op
    /// placeholder waker, so a wait pass that fires before the first real
    /// poll still has something safe to invoke.
    pub fn register(&mut self, handle: u64) -> (h: PollHandle)
        requires
            old(self).wf(),
            old(self).slots() <= u32::MAX as nat,
        ensures
            final(self).wf(),
            !old(self).entries().dom().contains(h.key().0 as int),
            final(self).entries() == old(self).entries().insert(h.key().0 as int, handle),
            final(self).wakers() == old(self).wakers().insert(h.key().0, NOOP_WAKER),
            final(self).ready() == old(self).ready(),
            old(self).slots() <= final(self).slots() <= old(self).slots() + 1,
    {
        proof {
            old(self).poller.lemma_wf_key_bounds();
        }
        let key = self.poller.insert(handle);
        self.wakers.insert(key.0, NOOP_WAKER);
        proof {
            self.poller.lemma_wf_key_bounds();
            assert forall|k: int| #[trigger]
                self.poller.entries().dom().contains(k) implies self.wakers@.dom().contains(
                k as u32,
            ) by {
                if k != key.0 as int {
                    assert(old(self).poller.entries().dom().contains(k));
                    assert(0 <= k <= u32::MAX as int);
                }
            }
            assert forall|k: u32| #[trigger]
                self.wakers@.dom().contains(k) implies self.poller.entries().dom().contains(
                k as int,
            ) by {
                if k != key.0 {
                    assert(old(self).wakers@.dom().contains(k));
                }
            }
        }
        PollHandle { key }
    }

    /// Whether a key is currently registered.
    pub fn has_registration(&self, key: &EventKey) -> (b: bool)
        ensures
            b == self.entries().dom().contains(key.0 as int),
    {
        self.poller.get(key).is_some()
    }

    /// The list to hand to the host's combined wait; see `Poller::targets`.
    pub fn targets(&self) -> (r: Vec<(u32, u64)>)
        requires
            self.wf(),
        ensures
            is_entry_seq(self.entries(), r@),
    {
        self.poller.targets()
    }

    /// One wait-and-wake pass, after the host's combined wait over `targets`
    /// reported the positions in `ready`: records the ready subset and
    /// returns, in the same order, the waker currently stored for each ready
    /// key. The caller invokes them; every one exists, because the invariant
    /// ties a stored waker to every live key.
    pub fn block_until(&mut self, targets: &Vec<(u32, u64)>, ready: &Vec<u32>) -> (to_wake: Vec<
        u64,
    >)
        requires
            old(self).wf(),
            is_entry_seq(old(self).entries(), targets@),
            targets@.len() > 0,
            forall|i: int| 0 <= i < ready@.len() ==> (#[trigger] ready@[i] as int) < targets@.len(),
        ensures
            final(self).wf(),
            final(self).entries() == old(self).entries(),
            final(self).wakers() == old(self).wakers(),
            final(self).slots() == old(self).slots(),
            final(self).ready() == Seq::new(
                ready@.len(),
                |i: int| EventKey(targets@[ready@[i] as int].0),
            ),
            to_wake@.len() == ready@.len(),
            forall|j: int|
                0 <= j < ready@.len() ==> #[trigger] to_wake@[j] == old(self).wakers()[targets@[
                    ready@[j] as int
                ].0],
    {
        self.poller.block_until(targets, ready);
        let mut to_wake: Vec<u64> = Vec::new();
        let mut i: usize = 0;
        while i < ready.len()
            invariant
                0 <= i <= ready@.len(),
                to_wake@.len() == i,
                self.wf(),
                self.wakers@ == old(self).wakers(),
                self.poller.entries() == old(self).entries(),
                is_entry_seq(self.poller.entries(), targets@),
                forall|j: int| 0 <= j < ready@.len() ==> (#[trigger] ready@[j] as int) < targets@.len(),
                forall|j: int|
                    0 <= j < i ==> #[trigger] to_wake@[j] == old(self).wakers()[targets@[
                        ready@[j] as int
                    ].0],
            decreases ready@.len() - i,
        {
            let idx = ready[i];
            let key: u32 = targets[idx as usize].0;
            proof {
                assert(self.poller.entries().contains_pair(
                    targets@[idx as int].0 as int,
                    targets@[idx as int].1,
                ));
                assert(self.poller.entries().dom().contains(key as int));
                assert(self.wakers@.dom().contains(key));
            }
            let waker = match self.wakers.get(&key) {
                Some(w) => *w,
                None => vstd::pervasive::unreached(),
            };
            to_wake.push(waker);
            i = i + 1;
        }
        to_wake
    }

    /// Begin waiting for a readiness handle to resolve: hands back the
    /// explicit suspend/resume state machine that drives the wait. Nothing
    /// is registered until its first poll.
    pub fn wait_for(&self, handle: u64) -> (w: WaitFor)
        ensures
            w.is_start(),
            w.handle() == handle,
    {
        let _ = self;
        WaitFor { state: WaitState::Start(handle) }
    }
}

/// Manages the lifecycle of one readiness handle registered in a `Reactor`:
/// the scoped registration. Acquired through `Reactor::register`; released
/// explicitly, handing the watched handle back, and strictly before the
/// caller disposes of that handle.
#[derive(Debug)]
pub struct PollHandle {
    key: EventKey,
}

impl PollHandle {
    /// The registration key this handle owns.
    pub closed spec fn key(&self) -> EventKey {
        self.key
    }

    /// The registration key, for callers that need to compare or store it.
    pub fn event_key(&self) -> (k: EventKey)
        ensures
            k == self.key(),
    {
        self.key
    }

    /// Check progress of the handle this registration tracks. `ready` is the
    /// host's present answer to the non-blocking readiness query for it.
    /// The waker stored for this key is overwritten with `waker` — last poll
    /// wins, only one outstanding waiter per key is supported — and the
    /// result is `Ready` exactly when the host said so.
    pub fn poll(&self, reactor: &mut Reactor, waker: u64, ready: bool) -> (r: Poll<()>)
        requires
            old(reactor).wf(),
            old(reactor).entries().dom().contains(self.key().0 as int),
        ensures
            final(reactor).wf(),
            final(reactor).entries() == old(reactor).entries(),
            final(reactor).wakers() == old(reactor).wakers().insert(self.key().0, waker),
            final(reactor).ready() == old(reactor).ready(),
            final(reactor).slots() == old(reactor).slots(),
            r == if ready {
                Poll::<()>::Ready(())
            } else {
                Poll::<()>::Pending
            },
    {
        reactor.wakers.insert(self.key.0, waker);
        proof {
            reactor.poller.lemma_wf_key_bounds();
            assert forall|k: u32| #[trigger]
                reactor.wakers@.dom().contains(k) implies reactor.poller.entries().dom().contains(
                k as int,
            ) by {
                if k != self.key.0 {
                    assert(old(reactor).wakers@.dom().contains(k));
                }
            }
        }
        if ready {
            Poll::Ready(())
        } else {
            Poll::Pending
        }
    }

    /// Release the registration: both the handle and the waker entry for
    /// this key are removed, and only then is the watched handle handed back
    /// — the caller may dispose of it afterwards, never while it was still
    /// registered.
    pub fn release(self, reactor: &mut Reactor) -> (handle: u64)
        requires
            old(reactor).wf(),
            old(reactor).entries().dom().contains(self.key().0 as int),
        ensures
            final(reactor).wf(),
            final(reactor).entries() == old(reactor).entries().remove(self.key().0 as int),
            final(reactor).wakers() == old(reactor).wakers().remove(self.key().0),
            final(reactor).ready() == old(reactor).ready(),
            final(reactor).slots() == old(reactor).slots(),
            handle == old(reactor).entries()[self.key().0 as int],
    {
        let removed = reactor.poller.remove(self.key);
        reactor.wakers.remove(&self.key.0);
        proof {
            reactor.poller.lemma_wf_key_bounds();
            old(reactor).poller.lemma_wf_key_bounds();
            assert forall|k: int| #[trigger]
                reactor.poller.entries().dom().contains(k) implies reactor.wakers@.dom().contains(
                k as u32,
            ) by {
                assert(old(reactor).entries().dom().contains(k));
                assert(0 <= k <= u32::MAX as int);
                assert(k != self.key.0 as int);
            }
        }
        match removed {
            Some(handle) => handle,
            None => vstd::pervasive::unreached(),
        }
    }
}

/// Which phase a logical wait is in: not yet registered, registered and
/// awaiting readiness, or completed.
#[derive(Debug)]
enum WaitState {
    Start(u64),
    Waiting(PollHandle),
    Done,
}

/// One logical wait for a readiness handle, as an explicit three-state
/// suspend/resume machine driven by repeated `poll` calls: on the first poll
/// it lazily acquires one scoped registration, reuses it across resumptions,
/// and releases it the moment the wait completes — it resolves exactly once,
/// and never before the host has answered that the handle is ready.
#[derive(Debug)]
pub struct WaitFor {
    state: WaitState,
}

impl WaitFor {
    /// Not yet registered: no poll has happened.
    pub closed spec fn is_start(&self) -> bool {
        self.state is Start
    }

    /// Registered and awaiting readiness.
    pub closed spec fn is_waiting(&self) -> bool {
        self.state is Waiting
    }

    /// Completed: the wait resolved and its registration is gone.
    pub closed spec fn is_done(&self) -> bool {
        self.state is Done
    }

    /// The handle this wait was created for, before it is registered.
    pub closed spec fn handle(&self) -> u64 {
        self.state->Start_0
    }

    /// The key of the registration a waiting wait holds.
    pub closed spec fn pending_key(&self) -> EventKey {
        self.state->Waiting_0.key()
    }

    /// A waiting wait's registration is live in the reactor.
    pub open spec fn valid(&self, reactor: &Reactor) -> bool {
        self.is_waiting() ==> reactor.entries().dom().contains(self.pending_key().0 as int)
    }

    /// Drive the wait one step. On the first call the handle is registered;
    /// on every call the stored waker is superseded by `waker` and `ready`
    /// is the host's present answer for the handle. The wait resolves —
    /// returns `Ready`, carrying the watched handle back to the caller —
    /// exactly when the host reports readiness, and at most once: a resolved
    /// wait leaves the machine in its completed state, which cannot be
    /// polled again, and its registration is released on the spot.
    pub fn poll(&mut self, reactor: &mut Reactor, waker: u64, ready: bool) -> (r: Poll<u64>)
        requires
            !old(self).is_done(),
            old(reactor).wf(),
            old(self).valid(old(reactor)),
            old(self).is_start() ==> old(reactor).slots() <= u32::MAX as nat,
        ensures
            final(reactor).wf(),
            final(self).valid(final(reactor)),
            final(reactor).ready() == old(reactor).ready(),
            old(reactor).slots() <= final(reactor).slots() <= old(reactor).slots() + 1,
            r is Ready <==> ready,
            final(self).is_done() <==> ready,
            !ready ==> final(self).is_waiting(),
            // Resolving hands the watched handle back, with the reactor as it
            // was before the wait touched it; while pending, the handle stays
            // registered under this wait's key with the new waker stored.
            (old(self).is_start() && ready) ==> {
                &&& r == Poll::<u64>::Ready(old(self).handle())
                &&& final(reactor).entries() == old(reactor).entries()
                &&& final(reactor).wakers() == old(reactor).wakers()
            },
            (old(self).is_start() && !ready) ==> {
                let k = final(self).pending_key().0;
                &&& !old(reactor).entries().dom().contains(k as int)
                &&& final(reactor).entries() == old(reactor).entries().insert(
                    k as int,
                    old(self).handle(),
                )
                &&& final(reactor).wakers() == old(reactor).wakers().insert(k, waker)
            },
            (old(self).is_waiting() && !ready) ==> final(self).pending_key() == old(self).pending_key(),
            (old(self).is_waiting() && ready) ==> {
                let k = old(self).pending_key().0;
                &&& r == Poll::<u64>::Ready(old(reactor).entries()[k as int])
                &&& final(reactor).entries() == old(reactor).entries().remove(k as int)
                &&& final(reactor).wakers() == old(reactor).wakers().remove(k)
            },
            (old(self).is_waiting() && !ready) ==> {
                let k = old(self).pending_key().0;
                &&& final(reactor).entries() == old(reactor).entries()
                &&& final(reactor).wakers() == old(reactor).wakers().insert(k, waker)
            },
    {
        let mut state = WaitState::Done;
        std::mem::swap(&mut state, &mut self.state);
        match state {
            WaitState::Start(handle) => {
                let ph = reactor.register(handle);
                let ghost mid = *reactor;
                let step = ph.poll(reactor, waker, ready);
                match step {
                    Poll::Ready(()) => {
                        let got = ph.release(reactor);
                        self.state = WaitState::Done;
                        proof {
                            assert(final(reactor).entries() =~= old(reactor).entries());
                            assert(final(reactor).wakers() =~= old(reactor).wakers());
                        }
                        Poll::Ready(got)
                    },
                    Poll::Pending => {
                        self.state = WaitState::Waiting(ph);
                        proof {
                            assert(final(reactor).wakers() =~= old(reactor).wakers().insert(
                                final(self).pending_key().0,
                                waker,
                            ));
                        }
                        Poll::Pending
                    },
                }
            },
            WaitState::Waiting(ph) => {
                let step = ph.poll(reactor, waker, ready);
                match step {
                    Poll::Ready(()) => {
                        let got = ph.release(reactor);
                        self.state = WaitState::Done;
                        Poll::Ready(got)
                    },
                    Poll::Pending => {
                        self.state = WaitState::Waiting(ph);
                        Poll::Pending
                    },
                }
            },
            WaitState::Done => vstd::pervasive::unreached(),
        }
    }

    /// Cancel a pending wait: its registration, if any, is deregistered
    /// immediately and unconditionally, and the watched handle is handed
    /// back. A completed wait holds nothing and yields nothing.
    pub fn cancel(self, reactor: &mut Reactor) -> (r: Option<u64>)
        requires
            old(reactor).wf(),
            self.valid(old(reactor)),
        ensures
            final(reactor).wf(),
            final(reactor).ready() == old(reactor).ready(),
            final(reactor).slots() == old(reactor).slots(),
            self.is_start() ==> {
                &&& r == Some(self.handle())
                &&& final(reactor).entries() == old(reactor).entries()
                &&& final(reactor).wakers() == old(reactor).wakers()
            },
            self.is_waiting() ==> {
                let k = self.pending_key().0;
                &&& r == Some(old(reactor).entries()[k as int])
                &&& final(reactor).entries() == old(reactor).entries().remove(k as int)
                &&& final(reactor).wakers() == old(reactor).wakers().remove(k)
            },
            self.is_done() ==> {
                &&& r == None::<u64>
                &&& final(reactor).entries() == old(reactor).entries()
                &&& final(reactor).wakers() == old(reactor).wakers()
            },
    {
        match self.state {
            WaitState::Start(handle) => Some(handle),
            WaitState::Waiting(ph) => Some(ph.release(reactor)),
            WaitState::Done => None,
        }
    }
}

} // verus!
