//! The bounded event-source registry: a fixed slot table where external
//! readiness sources register themselves.
//!
//! The registry only tracks occupancy and hands out an identifier per
//! registration; ownership of the source itself stays with the caller.
//! `register_source` scans for the first empty slot and reports absence
//! when the table is full — there is no growth and no eviction. A
//! zero-capacity no-op registry exists for configurations without
//! external readiness sources.

use vstd::prelude::*;

verus! {

/// The identifier a registration hands out: the index of the slot the
/// source occupies, opaque to callers and used only to unregister.
#[derive(Clone, Copy, Debug, PartialEq, Eq, Structural)]
pub struct SourceId {
    /// The occupied slot's index.
    pub index: usize,
}

/// Whether any slot of the table is still empty.
pub open spec fn has_free(s: Seq<bool>) -> bool {
    exists|i: int| 0 <= i < s.len() && !s[i]
}

/// The index of the first empty slot, the one a registration takes.
pub open spec fn first_free(s: Seq<bool>) -> int
    decreases s.len(),
{
    if s.len() == 0 {
        0
    } else if !s[0] {
        0
    } else {
        1 + first_free(s.drop_first())
    }
}

/// The identifiers of the occupied slots, in ascending order.
pub open spec fn occupied_ids(s: Seq<bool>) -> Seq<SourceId>
    decreases s.len(),
{
    if s.len() == 0 {
        Seq::empty()
    } else if s.last() {
        occupied_ids(s.drop_last()) + seq![SourceId { index: (s.len() - 1) as usize }]
    } else {
        occupied_ids(s.drop_last())
    }
}

/// While the table has an empty slot, `first_free` names one: it is in
/// range, empty, and every slot before it is occupied.
pub proof fn lemma_first_free_is_free(s: Seq<bool>)
    requires
        has_free(s),
    ensures
        0 <= first_free(s) < s.len(),
        !s[first_free(s)],
        forall|j: int| 0 <= j < first_free(s) ==> s[j],
    decreases s.len(),
{
    if s.len() == 0 {
    } else if !s[0] {
    } else {
        let rest = s.drop_first();
        assert(has_free(rest)) by {
            let w = choose|i: int| 0 <= i < s.len() && !s[i];
            assert(rest[w - 1] == s[w]);
        }
        lemma_first_free_is_free(rest);
        assert forall|j: int| 0 <= j < first_free(s) implies s[j] by {
            if j > 0 {
                assert(rest[j - 1] == s[j]);
            }
        }
    }
}

/// Registering never hands out an identifier that is already occupied:
/// the slot a registration takes is empty beforehand and occupied
/// afterwards, so the identifiers of live registrations stay pairwise
/// distinct.
pub proof fn lemma_register_distinct(s: Seq<bool>)
    requires
        has_free(s),
        has_free(s.update(first_free(s), true)),
    ensures
        first_free(s.update(first_free(s), true)) != first_free(s),
{
    lemma_first_free_is_free(s);
    lemma_first_free_is_free(s.update(first_free(s), true));
}

/// A fresh table of capacity `k` with its first `n` slots occupied.
pub open spec fn prefix_occupied(k: nat, n: nat) -> Seq<bool> {
    Seq::new(k, |i: int| i < n)
}

/// Registry-capacity law: filling a fresh table of capacity `k` hands
/// out the identifiers `0, 1, ..., k - 1` in order — all distinct — and
/// once all `k` slots are taken, the next registration finds no slot.
pub proof fn lemma_registry_capacity(k: nat, n: nat)
    ensures
        n < k ==> has_free(prefix_occupied(k, n)),
        n < k ==> first_free(prefix_occupied(k, n)) == n,
        n < k ==> prefix_occupied(k, n).update(n as int, true) =~= prefix_occupied(k, n + 1),
        !has_free(prefix_occupied(k, k)),
{
    if n < k {
        let s = prefix_occupied(k, n);
        assert(!s[n as int]);
        assert(first_free(s) == n) by {
            lemma_first_free_at(s, n as int);
        }
    }
}

/// `first_free` agrees with a forward scan that found slot `i` empty
/// after seeing every earlier slot occupied.
proof fn lemma_first_free_at(s: Seq<bool>, i: int)
    requires
        0 <= i < s.len(),
        !s[i],
        forall|j: int| 0 <= j < i ==> s[j],
    ensures
        first_free(s) == i,
        has_free(s),
    decreases i,
{
    if i > 0 {
        let rest = s.drop_first();
        assert forall|j: int| 0 <= j < i - 1 implies rest[j] by {
            assert(rest[j] == s[j + 1]);
        }
        assert(rest[i - 1] == s[i]);
        lemma_first_free_at(rest, i - 1);
    }
}

/// A bounded slot table of fixed capacity.
pub struct SlotPool {
    slots: Vec<bool>,
}

impl View for SlotPool {
    type V = Seq<bool>;

    closed spec fn view(&self) -> Seq<bool> {
        self.slots@
    }
}

impl SlotPool {
    /// An empty table of the given capacity; the capacity never changes
    /// afterwards.
    pub fn new(capacity: usize) -> (p: Self)
        ensures
            p@.len() == capacity,
            forall|i: int| 0 <= i < capacity ==> !p@[i],
    {
        let mut slots: Vec<bool> = Vec::new();
        let mut i: usize = 0;
        while i < capacity
            invariant
                i <= capacity,
                slots@.len() == i,
                forall|j: int| 0 <= j < i ==> !slots@[j],
            decreases capacity - i,
        {
            slots.push(false);
            i = i + 1;
        }
        SlotPool { slots }
    }

    /// The table's capacity.
    pub fn capacity(&self) -> (n: usize)
        ensures
            n == self@.len(),
    {
        self.slots.len()
    }

    /// Takes the first empty slot and hands out its identifier, or
    /// reports absence when every slot is occupied. Whether absence is
    /// fatal is the caller's decision.
    pub fn register_source(&mut self) -> (r: Option<SourceId>)
        ensures
            has_free(old(self)@) ==> (r == Some(SourceId { index: first_free(old(self)@) as usize })
                && final(self)@ == old(self)@.update(first_free(old(self)@), true)),
            !has_free(old(self)@) ==> (r is None && *final(self) == *old(self)),
    {
        let n = self.slots.len();
        let mut i: usize = 0;
        while i < n
            invariant
                i <= n,
                n == self@.len(),
                *self == *old(self),
                forall|j: int| 0 <= j < i ==> self@[j],
            decreases n - i,
        {
            if !self.slots[i] {
                proof {
                    lemma_first_free_at(self@, i as int);
                }
                self.slots[i] = true;
                return Some(SourceId { index: i });
            }
            i = i + 1;
        }
        None
    }

    /// Clears the slot named by the identifier. The identifier must be
    /// one this table handed out: it names a slot of this table.
    pub fn unregister_source(&mut self, id: SourceId)
        requires
            id.index < old(self)@.len(),
        ensures
            final(self)@ == old(self)@.update(id.index as int, false),
    {
        self.slots[id.index] = false;
    }

    /// The identifiers of all currently registered sources, in
    /// ascending order: one entry per occupied slot.
    pub fn sources(&self) -> (r: Vec<SourceId>)
        ensures
            r@ == occupied_ids(self@),
    {
        let n = self.slots.len();
        let mut ids: Vec<SourceId> = Vec::new();
        let mut i: usize = 0;
        while i < n
            invariant
                i <= n,
                n == self@.len(),
                ids@ == occupied_ids(self@.take(i as int)),
            decreases n - i,
        {
            proof {
                assert(self@.take(i + 1).drop_last() =~= self@.take(i as int));
                assert(self@.take(i + 1).last() == self@[i as int]);
            }
            if self.slots[i] {
                ids.push(SourceId { index: i });
            }
            i = i + 1;
        }
        proof {
            assert(self@.take(n as int) =~= self@);
        }
        ids
    }
}

/// The no-op registry for configurations without external readiness
/// sources: capacity zero, always empty, and every registration is
/// rejected.
pub struct DummyPool;

/// The identifier type of the no-op registry. The crate never
/// constructs a value of it, matching a registry that never accepts a
/// registration.
pub struct DummyId {
    never_issued: (),
}

impl DummyPool {
    /// Rejects every registration: the table has no slots.
    pub fn register_source(&self) -> (r: Option<DummyId>)
        ensures
            r is None,
    {
        None
    }

    /// Never reachable: no identifier was ever handed out.
    pub fn unregister_source(&self, id: DummyId) {
        let _ = id;
    }

    /// Reports the always-empty registry.
    pub fn sources(&self) -> (r: Vec<DummyId>)
        ensures
            r@.len() == 0,
    {
        Vec::new()
    }
}

} // verus!
