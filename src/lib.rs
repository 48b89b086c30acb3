//! Bridge that lets host code run slow work on worker threads while scripts
//! see the outcome as an ordinary promise of the single-threaded engine.
//!
//! The engine itself stays outside this crate: every interaction with it is
//! described here as a plain value (a function call to make, a reference to
//! release), and the host performs it on the engine thread.
pub mod bridge;
pub mod dates;
pub mod handle;
pub mod modules;
pub mod promise;
pub mod registry;
pub mod task_queue;

pub use bridge::{
    new_resolving_promise, resolve_pending, Continuation, PendingOperation, Produced,
};
pub use dates::is_date;
pub use handle::{JSValueRef, RefLedger};
pub use modules::normalize_module_name;
pub use promise::{
    add_promise_reactions, is_instance_of_by_name, is_promise, is_unhandled_rejection,
    FunctionCall, JsError, MemberCall, PromiseRef, ReactionKind, Settlement,
};
pub use registry::Registry;
pub use task_queue::{deliver, EngineTaskQueue, QueuedTask};
