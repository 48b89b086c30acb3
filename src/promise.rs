use crate::handle::JSValueRef;
use vstd::prelude::*;

verus! {

/// A script error described by plain values, as the engine builds it.
#[derive(Clone, Debug, PartialEq, Eq)]
pub struct JsError {
    pub name: String,
    pub message: String,
    pub stack: String,
}

/// A call of a script function with a single argument, for the engine thread
/// to perform.
#[derive(Clone, Copy, Debug, PartialEq, Eq, Structural)]
pub struct FunctionCall {
    pub function: JSValueRef,
    pub argument: JSValueRef,
}

/// The callback registrations a promise object offers.
#[derive(Clone, Copy, Debug, PartialEq, Eq, Structural)]
pub enum ReactionKind {
    Then,
    Catch,
    Finally,
}

/// A call of the member `member` of `target` with one callback argument.
#[derive(Clone, Copy, Debug, PartialEq, Eq, Structural)]
pub struct MemberCall {
    pub target: JSValueRef,
    pub member: ReactionKind,
    pub argument: JSValueRef,
}

/// Name of the promise member that registers a reaction of kind `k`.
pub open spec fn reaction_member(k: ReactionKind) -> Seq<char> {
    match k {
        ReactionKind::Then => "then"@,
        ReactionKind::Catch => "catch"@,
        ReactionKind::Finally => "finally"@,
    }
}

impl ReactionKind {
    /// The member of a promise object that registers this kind of reaction.
    pub fn member_name(self) -> (r: &'static str)
        ensures
            r@ == reaction_member(self),
    {
        proof {
            reveal_strlit("then");
            reveal_strlit("catch");
            reveal_strlit("finally");
        }
        match self {
            ReactionKind::Then => "then",
            ReactionKind::Catch => "catch",
            ReactionKind::Finally => "finally",
        }
    }
}

/// The script error that stands for a failure reported as a bare message.
pub open spec fn generic_error(message: Seq<char>) -> (Seq<char>, Seq<char>, Seq<char>) {
    ("Error"@, message, Seq::empty())
}

impl JsError {
    /// The parts of this error as character sequences.
    pub open spec fn parts(&self) -> (Seq<char>, Seq<char>, Seq<char>) {
        (self.name@, self.message@, self.stack@)
    }

    /// A generic `Error` that carries `message` and no stack.
    pub fn generic(message: String) -> (r: JsError)
        ensures
            r.parts() == generic_error(message@),
    {
        proof {
            reveal_strlit("Error");
            reveal_strlit("");
        }
        JsError { name: "Error".to_string(), message, stack: "".to_string() }
    }
}

/// Some entry of `chain` is named `name`.
pub open spec fn is_instance_by_name(chain: Seq<String>, name: Seq<char>) -> bool {
    exists|i: int| 0 <= i < chain.len() && #[trigger] chain[i]@ == name
}

/// Whether an object whose prototype chain holds the constructors named in
/// `prototype_chain` is an instance of the constructor named `name`.
pub fn is_instance_of_by_name(prototype_chain: &Vec<String>, name: &str) -> (r: bool)
    ensures
        r == is_instance_by_name(prototype_chain@, name@),
{
    let target = name.to_string();
    let mut i: usize = 0;
    while i < prototype_chain.len()
        invariant
            i <= prototype_chain.len(),
            target@ == name@,
            forall|j: int| 0 <= j < i ==> #[trigger] prototype_chain@[j]@ != name@,
        decreases prototype_chain.len() - i,
    {
        if prototype_chain[i] == target {
            return true;
        }
        i = i + 1;
    }
    false
}

/// Whether an object whose prototype chain holds the constructors named in
/// `prototype_chain` is a promise.
pub fn is_promise(prototype_chain: &Vec<String>) -> (r: bool)
    ensures
        r == is_instance_by_name(prototype_chain@, "Promise"@),
{
    proof {
        reveal_strlit("Promise");
    }
    is_instance_of_by_name(prototype_chain, "Promise")
}

/// Whether a promise rejection that the engine reports with the flag
/// `is_handled` went without a handler.
pub fn is_unhandled_rejection(is_handled: i32) -> (r: bool)
    ensures
        r == (is_handled == 0),
{
    is_handled == 0
}

/// The registration of `callback`, if there is one, as a call on `target`.
pub open spec fn reaction_calls(
    target: JSValueRef,
    kind: ReactionKind,
    callback: Option<JSValueRef>,
) -> Seq<MemberCall> {
    match callback {
        Some(f) => seq![MemberCall { target, member: kind, argument: f }],
        None => Seq::empty(),
    }
}

/// The calls that register the given callbacks on `target`: `then` first,
/// then `catch`, then `finally`, each only where a callback is given.
pub open spec fn reactions_of(
    target: JSValueRef,
    then_cb: Option<JSValueRef>,
    catch_cb: Option<JSValueRef>,
    finally_cb: Option<JSValueRef>,
) -> Seq<MemberCall> {
    reaction_calls(target, ReactionKind::Then, then_cb) + reaction_calls(
        target,
        ReactionKind::Catch,
        catch_cb,
    ) + reaction_calls(target, ReactionKind::Finally, finally_cb)
}

/// The member calls that attach the given reactions to a promise object.
pub fn add_promise_reactions(
    promise_obj_ref: &JSValueRef,
    prototype_chain: &Vec<String>,
    then_func_obj_ref_opt: Option<JSValueRef>,
    catch_func_obj_ref_opt: Option<JSValueRef>,
    finally_func_obj_ref_opt: Option<JSValueRef>,
) -> (r: Vec<MemberCall>)
    requires
        is_instance_by_name(prototype_chain@, "Promise"@),
    ensures
        r@ == reactions_of(
            *promise_obj_ref,
            then_func_obj_ref_opt,
            catch_func_obj_ref_opt,
            finally_func_obj_ref_opt,
        ),
{
    let target = *promise_obj_ref;
    let mut calls: Vec<MemberCall> = Vec::new();
    if let Some(f) = then_func_obj_ref_opt {
        calls.push(MemberCall { target, member: ReactionKind::Then, argument: f });
    }
    assert(calls@ =~= reaction_calls(target, ReactionKind::Then, then_func_obj_ref_opt));
    let ghost after_then = calls@;
    if let Some(f) = catch_func_obj_ref_opt {
        calls.push(MemberCall { target, member: ReactionKind::Catch, argument: f });
    }
    assert(calls@ =~= after_then + reaction_calls(target, ReactionKind::Catch, catch_func_obj_ref_opt));
    let ghost after_catch = calls@;
    if let Some(f) = finally_func_obj_ref_opt {
        calls.push(MemberCall { target, member: ReactionKind::Finally, argument: f });
    }
    assert(calls@ =~= after_catch + reaction_calls(
        target,
        ReactionKind::Finally,
        finally_func_obj_ref_opt,
    ));
    calls
}

/// What settling a promise asks of the engine.
#[derive(Clone, Debug, PartialEq, Eq)]
pub enum Settlement {
    /// Call the resolve function with the value.
    Resolve(FunctionCall),
    /// Build `error` as a script error object, then call `function` with it.
    Reject { function: JSValueRef, error: JsError },
}

/// A promise object together with the two functions that settle it, as the
/// engine hands them out in one call.
pub struct PromiseRef {
    promise_obj_ref: JSValueRef,
    reject_function_obj_ref: JSValueRef,
    resolve_function_obj_ref: JSValueRef,
}

/// What settling `p` with `outcome` asks of the engine: resolve with the value,
/// or reject with the error.
pub open spec fn settlement_of(p: PromiseRef, outcome: Result<JSValueRef, JsError>) -> Settlement {
    match outcome {
        Ok(v) => Settlement::Resolve(FunctionCall { function: p.resolve_fn(), argument: v }),
        Err(e) => Settlement::Reject { function: p.reject_fn(), error: e },
    }
}

impl PromiseRef {
    /// The native slot of the promise object.
    pub closed spec fn promise_value(&self) -> u64 {
        self.promise_obj_ref.value
    }

    /// The owning reference to the promise object.
    pub open spec fn promise_obj(&self) -> JSValueRef {
        JSValueRef { value: self.promise_value(), owning: true }
    }

    /// The function that fulfils the promise.
    pub closed spec fn resolve_fn(&self) -> JSValueRef {
        self.resolve_function_obj_ref
    }

    /// The function that rejects the promise.
    pub closed spec fn reject_fn(&self) -> JSValueRef {
        self.reject_function_obj_ref
    }

    /// Couples a promise object with its settling functions. The promise is
    /// owned; the two functions are borrowed from the engine.
    pub fn new(promise_obj: u64, resolve_function: u64, reject_function: u64) -> (r: PromiseRef)
        ensures
            r.promise_value() == promise_obj,
            r.resolve_fn() == JSValueRef::new_borrowed_spec(resolve_function),
            r.reject_fn() == JSValueRef::new_borrowed_spec(reject_function),
    {
        PromiseRef {
            promise_obj_ref: JSValueRef { value: promise_obj, owning: true },
            reject_function_obj_ref: JSValueRef::new_borrowed(reject_function),
            resolve_function_obj_ref: JSValueRef::new_borrowed(resolve_function),
        }
    }

    /// A borrowed reference to the promise object, to hand to scripts without
    /// touching its live count.
    pub fn get_promise_obj_ref(&self) -> (r: JSValueRef)
        ensures
            r == JSValueRef::new_borrowed_spec(self.promise_value()),
    {
        JSValueRef::new_borrowed(self.promise_obj_ref.value)
    }

    /// The call that fulfils the promise with `value`.
    pub fn resolve(&self, value: JSValueRef) -> (r: FunctionCall)
        ensures
            r == (FunctionCall { function: self.resolve_fn(), argument: value }),
    {
        FunctionCall { function: self.resolve_function_obj_ref, argument: value }
    }

    /// The call that rejects the promise with `value`.
    pub fn reject(&self, value: JSValueRef) -> (r: FunctionCall)
        ensures
            r == (FunctionCall { function: self.reject_fn(), argument: value }),
    {
        FunctionCall { function: self.reject_function_obj_ref, argument: value }
    }

    /// Settles the promise once: with the value, or with the error. The
    /// promise is consumed, so it cannot be settled again; what comes back
    /// besides the settlement is its owning reference to the promise object,
    /// for the caller to drop once the settlement is done.
    pub fn settle(self, outcome: Result<JSValueRef, JsError>) -> (r: (Settlement, JSValueRef))
        ensures
            r.0 == settlement_of(self, outcome),
            r.1 == self.promise_obj(),
    {
        let settlement = match outcome {
            Ok(v) => Settlement::Resolve(self.resolve(v)),
            Err(e) => Settlement::Reject { function: self.reject_function_obj_ref, error: e },
        };
        (settlement, JSValueRef { value: self.promise_obj_ref.value, owning: true })
    }
}

} // verus!
