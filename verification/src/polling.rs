//! The readiness multiplexer: a dense, reusable-key collection of registered
//! host readiness handles, and the record of which of them the host's last
//! combined wait reported ready.
//!
//! The handles themselves are opaque host capabilities; they stand here as
//! `u64` identifiers. The blocking combined wait is the host's: the embedding
//! layer passes the registered handles out (`targets`), performs the wait,
//! and hands the reported indices back in (`block_until`), which maps them
//! back to registration keys.
use vstd::prelude::*;
use slab::Slab;

verus! {

/// Stable, dense, reusable identifier for one registered readiness handle.
/// Unique while live; reusable after removal; no ordering meaning beyond
/// map lookup.
#[derive(Debug, Clone, Copy, PartialEq, Eq, Structural)]
pub struct EventKey(pub u32);

/// The occupied entries of a slab of handle identifiers, keyed by slot.
pub uninterp spec fn slab_entries(s: Slab<u64>) -> Map<int, u64>;

/// How many slots (occupied or vacant) the slab currently has. Keys of
/// occupied entries always lie below this bound, and it grows by at most one
/// per insertion.
pub uninterp spec fn slab_slots(s: Slab<u64>) -> nat;

#[verifier::external_type_specification]
#[verifier::external_body]
#[verifier::reject_recursive_types(T)]
pub struct ExSlab<T>(Slab<T>);

/// Relies on slab::Slab::with_capacity: a freshly made slab holds nothing.
#[verifier::external_body]
fn slab_with_capacity(capacity: usize) -> (s: Slab<u64>)
    ensures
        slab_entries(s) =~= Map::empty(),
        slab_slots(s) == 0,
{
    Slab::with_capacity(capacity)
}

/// Relies on slab::Slab::insert: the value is stored in a vacant slot and
/// that slot's key is returned; a slot is added at the end only when no
/// vacant one exists.
#[verifier::external_body]
fn slab_insert(s: &mut Slab<u64>, value: u64) -> (key: usize)
    ensures
        !slab_entries(*old(s)).dom().contains(key as int),
        slab_entries(*final(s)) == slab_entries(*old(s)).insert(key as int, value),
        (key as int) < slab_slots(*final(s)),
        slab_slots(*old(s)) <= slab_slots(*final(s)) <= slab_slots(*old(s)) + 1,
{
    s.insert(value)
}

/// Relies on slab::Slab::get: the value at an occupied key, nothing at a
/// vacant or out-of-range one.
#[verifier::external_body]
fn slab_get(s: &Slab<u64>, key: usize) -> (r: Option<u64>)
    ensures
        r == if slab_entries(*s).dom().contains(key as int) {
            Some(slab_entries(*s)[key as int])
        } else {
            None::<u64>
        },
{
    s.get(key).copied()
}

/// Relies on slab::Slab::try_remove: the entry at the key is removed and
/// returned; a vacant or out-of-range key changes nothing and yields nothing.
#[verifier::external_body]
fn slab_try_remove(s: &mut Slab<u64>, key: usize) -> (r: Option<u64>)
    ensures
        slab_entries(*final(s)) == slab_entries(*old(s)).remove(key as int),
        slab_slots(*final(s)) == slab_slots(*old(s)),
        r == if slab_entries(*old(s)).dom().contains(key as int) {
            Some(slab_entries(*old(s))[key as int])
        } else {
            None::<u64>
        },
{
    s.try_remove(key)
}

/// Relies on slab::Slab::iter: it yields exactly the occupied entries, in
/// ascending key order.
#[verifier::external_body]
fn slab_pairs(s: &Slab<u64>) -> (r: Vec<(usize, u64)>)
    ensures
        forall|i: int, j: int|
            #![trigger r@[i], r@[j]]
            0 <= i < j < r@.len() ==> r@[i].0 < r@[j].0,
        forall|i: int|
            0 <= i < r@.len() ==> slab_entries(*s).contains_pair(#[trigger] r@[i].0 as int, r@[i].1),
        forall|k: int|
            #[trigger] slab_entries(*s).dom().contains(k) ==> exists|i: int|
                0 <= i < r@.len() && #[trigger] r@[i].0 as int == k,
{
    s.iter().map(|(k, v)| (k, *v)).collect()
}

/// `s` lists exactly the entries of `m`, one pair per live key, in ascending
/// key order. This is the shape of the target list handed to the host's
/// combined wait: the position of a pair in `s` is the index under which the
/// host reports that pair's handle ready.
pub open spec fn is_entry_seq(m: Map<int, u64>, s: Seq<(u32, u64)>) -> bool {
    &&& forall|i: int, j: int|
        #![trigger s[i], s[j]]
        0 <= i < j < s.len() ==> s[i].0 < s[j].0
    &&& forall|i: int| 0 <= i < s.len() ==> m.contains_pair(#[trigger] s[i].0 as int, s[i].1)
    &&& forall|k: int|
        #[trigger] m.dom().contains(k) ==> exists|i: int| 0 <= i < s.len() && #[trigger] s[i].0 as int == k
}

/// Waits for I/O events: owns the registered readiness handles and the list
/// of keys the host's last combined wait reported ready.
#[derive(Debug)]
pub struct Poller {
    targets: Slab<u64>,
    ready_list: Vec<EventKey>,
}

impl Poller {
    /// The registered handles, keyed by registration key.
    pub closed spec fn entries(&self) -> Map<int, u64> {
        slab_entries(self.targets)
    }

    /// Slot bound of the underlying storage; see `slab_slots`.
    pub closed spec fn slots(&self) -> nat {
        slab_slots(self.targets)
    }

    /// The keys recorded ready by the last `block_until`.
    pub closed spec fn ready(&self) -> Seq<EventKey> {
        self.ready_list@
    }

    /// Every live key fits in a `u32` registration key: keys lie below the
    /// slot bound, which stays within `u32` range.
    pub closed spec fn wf(&self) -> bool {
        &&& self.slots() <= u32::MAX as nat + 1
        &&& forall|k: int| #[trigger] self.entries().dom().contains(k) ==> 0 <= k < self.slots()
    }

    /// A well-formed poller's live keys all lie in `u32` range.
    pub proof fn lemma_wf_key_bounds(&self)
        requires
            self.wf(),
        ensures
            forall|k: int| #[trigger] self.entries().dom().contains(k) ==> 0 <= k <= u32::MAX as int,
    {
    }

    /// Create a new instance of `Poller`.
    pub fn new() -> (r: Poller)
        ensures
            r.wf(),
            r.entries() == Map::<int, u64>::empty(),
            r.ready() == Seq::<EventKey>::empty(),
            r.slots() == 0,
    {
        Self::with_capacity(0)
    }

    /// Create a new instance of `Poller` with a given capacity.
    pub fn with_capacity(capacity: usize) -> (r: Poller)
        ensures
            r.wf(),
            r.entries() == Map::<int, u64>::empty(),
            r.ready() == Seq::<EventKey>::empty(),
            r.slots() == 0,
    {
        Poller { targets: slab_with_capacity(capacity), ready_list: Vec::new() }
    }

    /// Register a new readiness handle, returning a key that was not live
    /// before and is live now, bound to exactly this handle.
    pub fn insert(&mut self, target: u64) -> (key: EventKey)
        requires
            old(self).wf(),
            old(self).slots() <= u32::MAX as nat,
        ensures
            final(self).wf(),
            !old(self).entries().dom().contains(key.0 as int),
            final(self).entries() == old(self).entries().insert(key.0 as int, target),
            final(self).ready() == old(self).ready(),
            old(self).slots() <= final(self).slots() <= old(self).slots() + 1,
    {
        let raw = slab_insert(&mut self.targets, target);
        assert(raw <= u32::MAX as usize);
        proof {
            assert forall|k: int| #[trigger]
                self.entries().dom().contains(k) implies 0 <= k < self.slots() by {
                if k != raw as int {
                    assert(old(self).entries().dom().contains(k));
                }
            }
        }
        EventKey(raw as u32)
    }

    /// Look a key up: the handle it was registered under, or nothing if the
    /// key is absent or was removed.
    pub fn get(&self, key: &EventKey) -> (r: Option<u64>)
        ensures
            r == if self.entries().dom().contains(key.0 as int) {
                Some(self.entries()[key.0 as int])
            } else {
                None::<u64>
            },
    {
        slab_get(&self.targets, key.0 as usize)
    }

    /// Remove a key, handing its handle back. Idempotent: a key that is not
    /// live (never was, or was already removed) yields nothing and changes
    /// nothing.
    pub fn remove(&mut self, key: EventKey) -> (r: Option<u64>)
        requires
            old(self).wf(),
        ensures
            final(self).wf(),
            final(self).entries() == old(self).entries().remove(key.0 as int),
            final(self).ready() == old(self).ready(),
            final(self).slots() == old(self).slots(),
            r == if old(self).entries().dom().contains(key.0 as int) {
                Some(old(self).entries()[key.0 as int])
            } else {
                None::<u64>
            },
    {
        let r = slab_try_remove(&mut self.targets, key.0 as usize);
        proof {
            assert forall|k: int| #[trigger]
                self.entries().dom().contains(k) implies 0 <= k < self.slots() by {
                assert(old(self).entries().dom().contains(k));
            }
        }
        r
    }

    /// The list to hand to the host's combined wait: every registered handle,
    /// paired with its key, in ascending key order. The host reports ready
    /// handles by their position in this list.
    pub fn targets(&self) -> (r: Vec<(u32, u64)>)
        requires
            self.wf(),
        ensures
            is_entry_seq(self.entries(), r@),
    {
        let pairs = slab_pairs(&self.targets);
        let mut r: Vec<(u32, u64)> = Vec::new();
        let mut i: usize = 0;
        while i < pairs.len()
            invariant
                0 <= i <= pairs@.len(),
                r@.len() == i,
                forall|a: int, b: int|
                    #![trigger pairs@[a], pairs@[b]]
                    0 <= a < b < pairs@.len() ==> pairs@[a].0 < pairs@[b].0,
                forall|a: int|
                    0 <= a < pairs@.len() ==> self.entries().contains_pair(
                        #[trigger] pairs@[a].0 as int,
                        pairs@[a].1,
                    ),
                forall|k: int|
                    #[trigger] self.entries().dom().contains(k) ==> exists|a: int|
                        0 <= a < pairs@.len() && #[trigger] pairs@[a].0 as int == k,
                self.wf(),
                forall|a: int|
                    #![trigger r@[a]]
                    0 <= a < i ==> (r@[a].0 as int == pairs@[a].0 as int && r@[a].1 == pairs@[a].1),
            decreases pairs@.len() - i,
        {
            let (k, v) = pairs[i];
            proof {
                assert(self.entries().contains_pair(pairs@[i as int].0 as int, pairs@[i as int].1));
                assert(self.entries().dom().contains(pairs@[i as int].0 as int));
            }
            assert(k <= u32::MAX as usize);
            r.push((k as u32, v));
            proof {
                assert(r@[i as int] == (k as u32, v));
                assert(r@[i as int].0 as int == pairs@[i as int].0 as int);
            }
            i = i + 1;
        }
        proof {
            assert forall|a: int| 0 <= a < r@.len() implies self.entries().contains_pair(
                #[trigger] r@[a].0 as int,
                r@[a].1,
            ) by {
                assert(self.entries().contains_pair(pairs@[a].0 as int, pairs@[a].1));
            }
            assert forall|k: int| #[trigger]
                self.entries().dom().contains(k) implies exists|a: int|
                0 <= a < r@.len() && #[trigger] r@[a].0 as int == k by {
                let a = choose|a: int| 0 <= a < pairs@.len() && #[trigger] pairs@[a].0 as int == k;
                assert(r@[a].0 as int == k);
            }
        }
        r
    }

    /// Record the host's answer to one combined wait. `targets` is the list
    /// this poller handed out; `ready` holds the positions the host reported
    /// ready, of which there is at least one (the wait blocks until then).
    /// The recorded ready subset is exactly those positions' keys, replacing
    /// whatever the previous wait had recorded.
    pub fn block_until(&mut self, targets: &Vec<(u32, u64)>, ready: &Vec<u32>)
        requires
            old(self).wf(),
            is_entry_seq(old(self).entries(), targets@),
            targets@.len() > 0,
            forall|i: int| 0 <= i < ready@.len() ==> (#[trigger] ready@[i] as int) < targets@.len(),
        ensures
            final(self).wf(),
            final(self).entries() == old(self).entries(),
            final(self).slots() == old(self).slots(),
            final(self).ready() == Seq::new(
                ready@.len(),
                |i: int| EventKey(targets@[ready@[i] as int].0),
            ),
    {
        let mut list: Vec<EventKey> = Vec::new();
        let mut i: usize = 0;
        while i < ready.len()
            invariant
                0 <= i <= ready@.len(),
                list@.len() == i,
                forall|j: int| 0 <= j < ready@.len() ==> (#[trigger] ready@[j] as int) < targets@.len(),
                forall|j: int|
                    0 <= j < i ==> #[trigger] list@[j] == EventKey(targets@[ready@[j] as int].0),
            decreases ready@.len() - i,
        {
            let idx = ready[i];
            list.push(EventKey(targets[idx as usize].0));
            i = i + 1;
        }
        proof {
            assert(list@ =~= Seq::new(ready@.len(), |i: int| EventKey(targets@[ready@[i] as int].0)));
        }
        self.ready_list = list;
    }

    /// The keys the last `block_until` recorded ready.
    pub fn ready_list(&self) -> (r: &Vec<EventKey>)
        ensures
            r@ == self.ready(),
    {
        &self.ready_list
    }

    /// The keys the last `block_until` recorded ready, writable in place.
    /// The registered handles themselves cannot be reached through it.
    pub fn ready_list_mut(&mut self) -> (r: &mut Vec<EventKey>)
        ensures
            r@ == old(self).ready(),
            final(self).ready() == final(r)@,
            final(self).entries() == old(self).entries(),
            final(self).slots() == old(self).slots(),
            old(self).wf() ==> final(self).wf(),
    {
        &mut self.ready_list
    }
}

/// A removed key can never be queried back, and removing it again changes
/// nothing: over the registration map, removal erases the key from the
/// domain, and a second removal of the same key is the identity. `Poller::
/// get` answers from the domain and `Poller::remove` performs exactly this
/// map removal, so querying a removed key yields nothing and removal is
/// idempotent, whatever register/remove sequence came before.
pub proof fn lemma_removed_key_stays_gone(m: Map<int, u64>, k: int)
    ensures
        !m.remove(k).dom().contains(k),
        m.remove(k).remove(k) == m.remove(k),
{
    assert(m.remove(k).remove(k) =~= m.remove(k));
}

/// A key appears in the ready subset recorded by `Poller::block_until` iff
/// the host reported some position of the target list that carries that key:
/// membership in the recorded subset mirrors exactly the host's readiness
/// report, nothing is added and nothing is dropped.
pub proof fn lemma_ready_subset_membership(
    m: Map<int, u64>,
    targets: Seq<(u32, u64)>,
    ready: Seq<u32>,
    recorded: Seq<EventKey>,
    c: u32,
)
    requires
        is_entry_seq(m, targets),
        forall|i: int| 0 <= i < ready.len() ==> (#[trigger] ready[i] as int) < targets.len(),
        recorded == Seq::new(ready.len(), |i: int| EventKey(targets[ready[i] as int].0)),
    ensures
        recorded.contains(EventKey(c)) <==> exists|j: int|
            0 <= j < ready.len() && targets[#[trigger] ready[j] as int].0 == c,
{
    if exists|j: int| 0 <= j < ready.len() && targets[#[trigger] ready[j] as int].0 == c {
        let j = choose|j: int| 0 <= j < ready.len() && targets[#[trigger] ready[j] as int].0 == c;
        assert(recorded[j] == EventKey(c));
    }
    if recorded.contains(EventKey(c)) {
        let j = choose|j: int| 0 <= j < recorded.len() && recorded[j] == EventKey(c);
        assert(targets[ready[j] as int].0 == c);
    }
}

/// Readiness is level-triggered: the recorded subset is a function of the
/// registered targets and the host's report alone, so as long as the host
/// keeps reporting the same positions ready (its state has not changed),
/// repeated waits record the same subset.
pub proof fn lemma_ready_subset_level_triggered(
    targets: Seq<(u32, u64)>,
    ready: Seq<u32>,
    first: Seq<EventKey>,
    second: Seq<EventKey>,
)
    requires
        first == Seq::new(ready.len(), |i: int| EventKey(targets[ready[i] as int].0)),
        second == Seq::new(ready.len(), |i: int| EventKey(targets[ready[i] as int].0)),
    ensures
        first == second,
{
}

} // verus!
