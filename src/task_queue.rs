use vstd::prelude::*;

verus! {

/// One piece of work for the engine thread, aimed at one script context.
pub struct QueuedTask<T> {
    pub context_id: String,
    pub task: T,
}

/// Work posted for the engine thread, kept in the order it arrived.
pub struct EngineTaskQueue<T> {
    entries: Vec<QueuedTask<T>>,
}

impl<T> View for EngineTaskQueue<T> {
    type V = Seq<QueuedTask<T>>;

    closed spec fn view(&self) -> Seq<QueuedTask<T>> {
        self.entries@
    }
}

/// The context named `context_id` is one of `live`.
pub open spec fn is_live(live: Seq<String>, context_id: Seq<char>) -> bool {
    exists|i: int| 0 <= i < live.len() && #[trigger] live[i]@ == context_id
}

impl<T> EngineTaskQueue<T> {
    /// A queue with nothing posted.
    pub fn new() -> (r: EngineTaskQueue<T>)
        ensures
            r@ == Seq::<QueuedTask<T>>::empty(),
    {
        EngineTaskQueue { entries: Vec::new() }
    }

    /// Appends `task` for the context named `context_id`.
    pub fn post(&mut self, context_id: String, task: T)
        ensures
            final(self)@ == old(self)@.push(QueuedTask { context_id, task }),
    {
        self.entries.push(QueuedTask { context_id, task });
    }

    /// Number of tasks waiting.
    pub fn len(&self) -> (r: usize)
        ensures
            r as nat == self@.len(),
    {
        self.entries.len()
    }

    /// Takes every waiting task, in the order they were posted, and leaves the
    /// queue empty.
    pub fn drain(&mut self) -> (r: Vec<QueuedTask<T>>)
        ensures
            r@ == old(self)@,
            final(self)@ == Seq::<QueuedTask<T>>::empty(),
    {
        let mut taken: Vec<QueuedTask<T>> = Vec::new();
        std::mem::swap(&mut self.entries, &mut taken);
        taken
    }
}

/// Decides, at the time it runs, whether a drained task may run: only where its
/// context is still alive. A task for a context that is gone is dropped.
pub fn deliver<T>(entry: QueuedTask<T>, live_contexts: &Vec<String>) -> (r: Option<T>)
    ensures
        is_live(live_contexts@, entry.context_id@) ==> r == Some(entry.task),
        !is_live(live_contexts@, entry.context_id@) ==> r.is_none(),
{
    let mut i: usize = 0;
    while i < live_contexts.len()
        invariant
            i <= live_contexts.len(),
            forall|j: int| 0 <= j < i ==> #[trigger] live_contexts@[j]@ != entry.context_id@,
        decreases live_contexts.len() - i,
    {
        if live_contexts[i] == entry.context_id {
            return Some(entry.task);
        }
        i = i + 1;
    }
    None
}

} // verus!
