use crate::promise::PromiseRef;
use hirofa_utils::auto_id_map::AutoIdMap;
use vstd::prelude::*;

verus! {

#[verifier::external_type_specification]
#[verifier::external_body]
#[verifier::reject_recursive_types(T)]
pub struct ExAutoIdMap<T>(AutoIdMap<T>);

/// The entries of an id table, by id.
pub uninterp spec fn table_entries(m: AutoIdMap<PromiseRef>) -> Map<usize, PromiseRef>;

/// The exclusive upper bound on the ids of an id table, fixed when it was made.
pub uninterp spec fn table_id_bound(m: AutoIdMap<PromiseRef>) -> nat;

/// Relies on AutoIdMap::new: an empty table whose ids range over all of usize.
#[verifier::external_body]
fn table_new() -> (r: AutoIdMap<PromiseRef>)
    ensures
        table_entries(r).dom() == Set::<usize>::empty(),
        table_id_bound(r) == (usize::MAX as nat),
{
    AutoIdMap::new()
}

/// Relies on AutoIdMap::insert: when the table holds fewer entries than its
/// bound, a free id below the bound is chosen and the element stored under it.
#[verifier::external_body]
fn table_insert(m: &mut AutoIdMap<PromiseRef>, elem: PromiseRef) -> (r: usize)
    requires
        table_entries(*old(m)).dom().finite(),
        table_entries(*old(m)).len() < table_id_bound(*old(m)),
        forall|k: usize| #[trigger]
            table_entries(*old(m)).contains_key(k) ==> (k as nat) < table_id_bound(*old(m)),
    ensures
        (r as nat) < table_id_bound(*final(m)),
        !table_entries(*old(m)).contains_key(r),
        table_entries(*final(m)) == table_entries(*old(m)).insert(r, elem),
        table_id_bound(*final(m)) == table_id_bound(*old(m)),
{
    m.insert(elem)
}

/// Relies on AutoIdMap::remove_opt: takes out the element stored under `id`,
/// if there is one.
#[verifier::external_body]
fn table_remove_opt(m: &mut AutoIdMap<PromiseRef>, id: usize) -> (r: Option<PromiseRef>)
    ensures
        r == (if table_entries(*old(m)).contains_key(id) {
            Some(table_entries(*old(m))[id])
        } else {
            None
        }),
        table_entries(*final(m)) == table_entries(*old(m)).remove(id),
        table_id_bound(*final(m)) == table_id_bound(*old(m)),
{
    m.remove_opt(&id)
}

/// Relies on AutoIdMap::len: the number of entries.
#[verifier::external_body]
fn table_len(m: &AutoIdMap<PromiseRef>) -> (r: usize)
    ensures
        r as nat == table_entries(*m).len(),
{
    m.len()
}

/// Relies on AutoIdMap::contains_key: whether an entry is stored under `id`.
#[verifier::external_body]
fn table_contains_key(m: &AutoIdMap<PromiseRef>, id: usize) -> (r: bool)
    ensures
        r == table_entries(*m).contains_key(id),
{
    m.contains_key(&id)
}

/// Table of promises whose operations are in flight, keyed by the ids that
/// cross to worker threads in their place. It lives on the engine thread.
pub struct Registry {
    table: AutoIdMap<PromiseRef>,
}

impl View for Registry {
    type V = Map<usize, PromiseRef>;

    closed spec fn view(&self) -> Map<usize, PromiseRef> {
        table_entries(self.table)
    }
}

/// The registry contents after `p` is stored under the fresh id `id`.
pub open spec fn registered(m: Map<usize, PromiseRef>, id: usize, p: PromiseRef) -> Map<
    usize,
    PromiseRef,
> {
    m.insert(id, p)
}

/// What taking `id` out of the registry contents `m` yields.
pub open spec fn taken(m: Map<usize, PromiseRef>, id: usize) -> Option<PromiseRef> {
    if m.contains_key(id) {
        Some(m[id])
    } else {
        None
    }
}

impl Registry {
    /// The table is finite and its ids stay below the bound it was made with.
    pub closed spec fn wf(&self) -> bool {
        &&& table_entries(self.table).dom().finite()
        &&& table_id_bound(self.table) == usize::MAX as nat
        &&& forall|k: usize| #[trigger]
            table_entries(self.table).contains_key(k) ==> (k as nat) < table_id_bound(self.table)
    }

    /// An empty registry.
    pub fn new() -> (r: Registry)
        ensures
            r.wf(),
            r@ == Map::<usize, PromiseRef>::empty(),
    {
        Registry { table: table_new() }
    }

    /// Stores `promise` under an id that no entry holds and returns that id.
    pub fn insert(&mut self, promise: PromiseRef) -> (id: usize)
        requires
            old(self).wf(),
            old(self)@.len() < usize::MAX,
        ensures
            final(self).wf(),
            !old(self)@.contains_key(id),
            final(self)@ == registered(old(self)@, id, promise),
    {
        table_insert(&mut self.table, promise)
    }

    /// Takes out the promise stored under `id`; `None` where there is none,
    /// also when it was taken before.
    pub fn remove(&mut self, id: usize) -> (r: Option<PromiseRef>)
        requires
            old(self).wf(),
        ensures
            final(self).wf(),
            r == taken(old(self)@, id),
            final(self)@ == old(self)@.remove(id),
    {
        table_remove_opt(&mut self.table, id)
    }

    /// Whether a promise is stored under `id`.
    pub fn contains(&self, id: usize) -> (r: bool)
        ensures
            r == self@.contains_key(id),
    {
        table_contains_key(&self.table, id)
    }

    /// Number of operations in flight.
    pub fn len(&self) -> (r: usize)
        requires
            self.wf(),
        ensures
            r as nat == self@.len(),
    {
        table_len(&self.table)
    }

    /// Whether no operation is in flight.
    pub fn is_empty(&self) -> (r: bool)
        requires
            self.wf(),
        ensures
            r == (self@ == Map::<usize, PromiseRef>::empty()),
    {
        let n = self.len();
        proof {
            if n == 0 {
                assert(self@.dom() =~= Set::<usize>::empty());
                assert(self@ =~= Map::<usize, PromiseRef>::empty());
            }
        }
        n == 0
    }
}

/// An id handed out by the registry can be taken out exactly once: the first
/// removal yields the stored promise and leaves the registry as it was before
/// the insertion; a second removal of the same id yields nothing.
pub proof fn lemma_insert_remove_once(m: Map<usize, PromiseRef>, id: usize, p: PromiseRef)
    requires
        !m.contains_key(id),
    ensures
        taken(registered(m, id, p), id) == Some(p),
        registered(m, id, p).remove(id) == m,
        taken(registered(m, id, p).remove(id), id) == None::<PromiseRef>,
{
    assert(registered(m, id, p).remove(id) =~= m);
}

} // verus!
