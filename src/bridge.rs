use crate::handle::JSValueRef;
use crate::promise::{generic_error, FunctionCall, JsError, PromiseRef, Settlement};
use crate::registry::{registered, Registry};
use vstd::prelude::*;

verus! {

/// What crosses to the worker thread in place of the promise: the id under
/// which the promise waits in the registry, and the context it belongs to.
#[derive(Clone, Debug, PartialEq, Eq)]
pub struct PendingOperation {
    pub id: usize,
    pub context_id: String,
}

/// How an operation ended before its promise is settled.
#[derive(Debug, PartialEq, Eq)]
pub enum Produced {
    /// The producer succeeded and the mapper turned its result into a script
    /// value or a script error.
    Mapped(Result<JSValueRef, JsError>),
    /// The producer failed with a bare message.
    ProducerFailed(String),
}

/// What the engine thread does when an operation's continuation runs.
#[derive(Clone, Debug, PartialEq, Eq)]
pub enum Continuation {
    /// The target context is gone: nothing is settled and the entry stays.
    ContextDropped,
    /// No promise waits under the id: nothing is settled.
    NotPending,
    /// Settle the promise that waited under the id, then drop the owning
    /// reference to its promise object.
    Settle(Settlement, JSValueRef),
}

/// `s` is the settlement of `p` for the ending `produced`: a value fulfils
/// the promise, a mapper error rejects it with that error, and a producer
/// failure rejects it with a generic `Error` carrying the message.
pub open spec fn settles_as(s: Settlement, p: PromiseRef, produced: Produced) -> bool {
    match produced {
        Produced::Mapped(Ok(v)) => s == Settlement::Resolve(FunctionCall { function: p.resolve_fn(), argument: v }),
        Produced::Mapped(Err(e)) => s == (Settlement::Reject { function: p.reject_fn(), error: e }),
        Produced::ProducerFailed(m) => match s {
            Settlement::Reject { function, error } => function == p.reject_fn() && error.parts()
                == generic_error(m@),
            Settlement::Resolve(_) => false,
        },
    }
}

/// The continuation for `id` settles a promise: its context is alive and a
/// promise waits under the id.
pub open spec fn settles(m: Map<usize, PromiseRef>, id: usize, context_alive: bool) -> bool {
    context_alive && m.contains_key(id)
}

/// The registry contents after the continuation for `id` has run.
pub open spec fn after_continuation(
    m: Map<usize, PromiseRef>,
    id: usize,
    context_alive: bool,
) -> Map<usize, PromiseRef> {
    if context_alive {
        m.remove(id)
    } else {
        m
    }
}

/// Starts an operation on the engine thread: registers `promise` and returns
/// a borrowed reference to the promise object for the script, together with
/// what the worker thread carries for the continuation.
pub fn new_resolving_promise(
    registry: &mut Registry,
    promise: PromiseRef,
    context_id: String,
) -> (r: (JSValueRef, PendingOperation))
    requires
        old(registry).wf(),
        old(registry)@.len() < usize::MAX,
    ensures
        final(registry).wf(),
        r.0 == JSValueRef::new_borrowed_spec(promise.promise_value()),
        r.1.context_id == context_id,
        !old(registry)@.contains_key(r.1.id),
        final(registry)@ == registered(old(registry)@, r.1.id, promise),
{
    let return_ref = promise.get_promise_obj_ref();
    let id = registry.insert(promise);
    (return_ref, PendingOperation { id, context_id })
}

/// Runs on the engine thread when the work of `op` has ended. Where the
/// context is gone nothing changes; otherwise the promise is taken out of the
/// registry and settled according to `produced`.
pub fn resolve_pending(
    registry: &mut Registry,
    op: &PendingOperation,
    context_alive: bool,
    produced: Produced,
) -> (r: Continuation)
    requires
        old(registry).wf(),
    ensures
        final(registry).wf(),
        final(registry)@ == after_continuation(old(registry)@, op.id, context_alive),
        !context_alive ==> r == Continuation::ContextDropped,
        context_alive && !old(registry)@.contains_key(op.id) ==> r == Continuation::NotPending,
        settles(old(registry)@, op.id, context_alive) ==> match r {
            Continuation::Settle(s, obj) => settles_as(s, old(registry)@[op.id], produced)
                && obj == old(registry)@[op.id].promise_obj(),
            _ => false,
        },
{
    if !context_alive {
        return Continuation::ContextDropped;
    }
    match registry.remove(op.id) {
        None => Continuation::NotPending,
        Some(promise) => {
            let outcome = match produced {
                Produced::Mapped(res) => res,
                Produced::ProducerFailed(message) => Err(JsError::generic(message)),
            };
            let (settlement, obj) = promise.settle(outcome);
            Continuation::Settle(settlement, obj)
        },
    }
}

/// An operation whose context stays alive leaves the registry as it found it:
/// starting it and running its continuation removes exactly the entry that was
/// added, so a registry that was empty before is empty after.
pub proof fn lemma_completed_operation_leaves_no_entry(
    m: Map<usize, PromiseRef>,
    id: usize,
    p: PromiseRef,
)
    requires
        !m.contains_key(id),
    ensures
        settles(registered(m, id, p), id, true),
        after_continuation(registered(m, id, p), id, true) == m,
        m.is_empty() ==> after_continuation(registered(m, id, p), id, true).is_empty(),
{
    assert(after_continuation(registered(m, id, p), id, true) =~= m);
}

/// A promise is settled at most once: once a continuation for an id has
/// settled, no later continuation for that id settles again, whether or not
/// its context is alive.
pub proof fn lemma_settles_at_most_once(
    m: Map<usize, PromiseRef>,
    id: usize,
    first_alive: bool,
    second_alive: bool,
)
    requires
        settles(m, id, first_alive),
    ensures
        !settles(after_continuation(m, id, first_alive), id, second_alive),
{
}

/// A continuation whose context is gone settles nothing and leaves the entry
/// of its id in place.
pub proof fn lemma_dropped_context_keeps_entry(m: Map<usize, PromiseRef>, id: usize)
    requires
        m.contains_key(id),
    ensures
        !settles(m, id, false),
        after_continuation(m, id, false) == m,
        after_continuation(m, id, false).contains_key(id),
{
}

} // verus!
