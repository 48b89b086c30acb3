use std::collections::HashMap;
use vstd::prelude::*;

verus! {

/// A reference to a value that lives inside the script engine, named by its
/// native slot. An owning reference holds one unit of the slot's live count;
/// a borrowed one holds none and never causes a release.
#[derive(Clone, Copy, Debug, PartialEq, Eq, Structural)]
pub struct JSValueRef {
    pub value: u64,
    pub owning: bool,
}

impl JSValueRef {
    /// A reference to `value` that does not take part in its live count.
    pub open spec fn new_borrowed_spec(value: u64) -> JSValueRef {
        JSValueRef { value, owning: false }
    }

    /// A reference that does not take part in the live count of `value`.
    pub fn new_borrowed(value: u64) -> (r: JSValueRef)
        ensures
            r == JSValueRef::new_borrowed_spec(value),
    {
        JSValueRef { value, owning: false }
    }
}

/// Number of owning references to `v` that are alive according to `m`.
pub open spec fn count_of(m: Map<u64, u64>, v: u64) -> nat {
    if m.contains_key(v) {
        m[v] as nat
    } else {
        0
    }
}

/// The counts after one more reference like `h` comes into existence.
pub open spec fn acquired(m: Map<u64, u64>, h: JSValueRef) -> Map<u64, u64> {
    if h.owning {
        m.insert(h.value, (count_of(m, h.value) + 1) as u64)
    } else {
        m
    }
}

/// The counts after the reference `h` is dropped.
pub open spec fn released(m: Map<u64, u64>, h: JSValueRef) -> Map<u64, u64> {
    if h.owning {
        if count_of(m, h.value) <= 1 {
            m.remove(h.value)
        } else {
            m.insert(h.value, (m[h.value] - 1) as u64)
        }
    } else {
        m
    }
}

/// Dropping `h` gives the native value back to the engine.
pub open spec fn releases_native(m: Map<u64, u64>, h: JSValueRef) -> bool {
    h.owning && count_of(m, h.value) == 1
}

/// `n` references like `h` created one after another.
pub open spec fn acquire_n(m: Map<u64, u64>, h: JSValueRef, n: nat) -> Map<u64, u64>
    decreases n,
{
    if n == 0 {
        m
    } else {
        acquired(acquire_n(m, h, (n - 1) as nat), h)
    }
}

/// `n` references like `h` dropped one after another.
pub open spec fn release_n(m: Map<u64, u64>, h: JSValueRef, n: nat) -> Map<u64, u64>
    decreases n,
{
    if n == 0 {
        m
    } else {
        released(release_n(m, h, (n - 1) as nat), h)
    }
}

/// How many of those `n` drops gave the native value back.
pub open spec fn release_count(m: Map<u64, u64>, h: JSValueRef, n: nat) -> nat
    decreases n,
{
    if n == 0 {
        0
    } else {
        release_count(m, h, (n - 1) as nat) + if releases_native(
            release_n(m, h, (n - 1) as nat),
            h,
        ) {
            1nat
        } else {
            0nat
        }
    }
}

/// Live counts of the native values held by owning references.
pub struct RefLedger {
    counts: HashMap<u64, u64>,
}

impl View for RefLedger {
    type V = Map<u64, u64>;

    closed spec fn view(&self) -> Map<u64, u64> {
        self.counts@
    }
}

impl RefLedger {
    /// Every tracked value has at least one owning reference.
    pub open spec fn wf(&self) -> bool {
        forall|v: u64| #[trigger] self@.contains_key(v) ==> self@[v] >= 1
    }

    /// A ledger in which no native value is held.
    pub fn new() -> (r: RefLedger)
        ensures
            r.wf(),
            r@ == Map::<u64, u64>::empty(),
    {
        RefLedger { counts: HashMap::new() }
    }

    /// Number of owning references to `value` that are alive.
    pub fn live_count(&self, value: u64) -> (r: u64)
        ensures
            r as nat == count_of(self@, value),
    {
        broadcast use vstd::std_specs::hash::group_hash_axioms;

        match self.counts.get(&value) {
            Some(c) => *c,
            None => 0,
        }
    }

    fn bump(&mut self, value: u64)
        requires
            old(self).wf(),
            count_of(old(self)@, value) < u64::MAX,
        ensures
            final(self).wf(),
            final(self)@ == old(self)@.insert(value, (count_of(old(self)@, value) + 1) as u64),
    {
        broadcast use vstd::std_specs::hash::group_hash_axioms;

        let c = self.live_count(value);
        self.counts.insert(value, c + 1);
    }

    /// Takes ownership of a native value that the engine handed out with one
    /// live reference.
    pub fn adopt(&mut self, value: u64) -> (r: JSValueRef)
        requires
            old(self).wf(),
            count_of(old(self)@, value) < u64::MAX,
        ensures
            final(self).wf(),
            r == (JSValueRef { value, owning: true }),
            final(self)@ == acquired(old(self)@, r),
    {
        self.bump(value);
        JSValueRef { value, owning: true }
    }

    /// Shares `h`: an owning reference adds one to the live count, a
    /// borrowed one is copied as it is.
    pub fn clone_ref(&mut self, h: &JSValueRef) -> (r: JSValueRef)
        requires
            old(self).wf(),
            h.owning ==> count_of(old(self)@, h.value) < u64::MAX,
        ensures
            final(self).wf(),
            r == *h,
            final(self)@ == acquired(old(self)@, *h),
    {
        if h.owning {
            self.bump(h.value);
        }
        *h
    }

    /// Drops `h`; the result tells whether the native value must now be
    /// given back to the engine.
    pub fn release(&mut self, h: JSValueRef) -> (r: bool)
        requires
            old(self).wf(),
            h.owning ==> count_of(old(self)@, h.value) >= 1,
        ensures
            final(self).wf(),
            final(self)@ == released(old(self)@, h),
            r == releases_native(old(self)@, h),
    {
        broadcast use vstd::std_specs::hash::group_hash_axioms;

        if !h.owning {
            return false;
        }
        let c = self.live_count(h.value);
        if c <= 1 {
            self.counts.remove(&h.value);
            true
        } else {
            self.counts.insert(h.value, c - 1);
            false
        }
    }
}

proof fn lemma_acquire_n_owning(m: Map<u64, u64>, h: JSValueRef, k: nat)
    requires
        h.owning,
        !m.contains_key(h.value),
        k <= u64::MAX,
    ensures
        acquire_n(m, h, k) == if k == 0 {
            m
        } else {
            m.insert(h.value, k as u64)
        },
    decreases k,
{
    if k > 0 {
        lemma_acquire_n_owning(m, h, (k - 1) as nat);
        let prev = acquire_n(m, h, (k - 1) as nat);
        assert(acquired(prev, h) =~= m.insert(h.value, k as u64));
    }
}

proof fn lemma_release_n_owning(m: Map<u64, u64>, h: JSValueRef, top: nat, j: nat)
    requires
        h.owning,
        !m.contains_key(h.value),
        1 <= top <= u64::MAX,
        j <= top,
    ensures
        release_n(m.insert(h.value, top as u64), h, j) == if j == top {
            m
        } else {
            m.insert(h.value, (top - j) as u64)
        },
        release_count(m.insert(h.value, top as u64), h, j) == if j == top {
            1nat
        } else {
            0nat
        },
    decreases j,
{
    let start = m.insert(h.value, top as u64);
    if j > 0 {
        lemma_release_n_owning(m, h, top, (j - 1) as nat);
        let prev = release_n(start, h, (j - 1) as nat);
        assert(prev == m.insert(h.value, (top - (j - 1)) as u64));
        if j == top {
            assert(released(prev, h) =~= m);
        } else {
            assert(released(prev, h) =~= m.insert(h.value, (top - j) as u64));
        }
    }
}

proof fn lemma_borrowed_is_inert(m: Map<u64, u64>, h: JSValueRef, n: nat)
    requires
        !h.owning,
    ensures
        acquire_n(m, h, n) == m,
        release_n(m, h, n) == m,
        release_count(m, h, n) == 0,
    decreases n,
{
    if n > 0 {
        lemma_borrowed_is_inert(m, h, (n - 1) as nat);
    }
}

/// Taking a reference to a value that is not held, cloning it `n` times and
/// dropping all `n + 1` copies leaves the counts as they were and gives the
/// native value back exactly once if the reference owns it, and never if it is
/// borrowed.
pub proof fn lemma_clones_release_exactly_once(m: Map<u64, u64>, h: JSValueRef, n: nat)
    requires
        !m.contains_key(h.value),
        n < u64::MAX,
    ensures
        release_n(acquire_n(m, h, n + 1), h, n + 1) == m,
        release_count(acquire_n(m, h, n + 1), h, n + 1) == if h.owning {
            1nat
        } else {
            0nat
        },
{
    if h.owning {
        lemma_acquire_n_owning(m, h, n + 1);
        lemma_release_n_owning(m, h, n + 1, n + 1);
    } else {
        lemma_borrowed_is_inert(m, h, n + 1);
    }
}

} // verus!
