use quickjs_runtime::{
    new_resolving_promise, resolve_pending, Continuation, FunctionCall, JSValueRef, JsError,
    Produced, PromiseRef, Registry, Settlement,
};

#[test]
fn test_resolving_prom() {
    let mut registry = Registry::new();
    let (p, op) = new_resolving_promise(&mut registry, PromiseRef::new(40, 41, 42), "main".to_string());
    assert_eq!(p, JSValueRef { value: 40, owning: false });
    assert_eq!(op.context_id, "main");
    assert_eq!(registry.len(), 1);
    let value = JSValueRef::new_borrowed(135);
    let c = resolve_pending(&mut registry, &op, true, Produced::Mapped(Ok(value)));
    assert_eq!(
        c,
        Continuation::Settle(
            Settlement::Resolve(FunctionCall { function: JSValueRef::new_borrowed(41), argument: value }),
            JSValueRef { value: 40, owning: true }
        )
    );
    assert!(registry.is_empty());
}

#[test]
fn producer_failure_rejects_with_generic_error() {
    let mut registry = Registry::new();
    let (_, op) = new_resolving_promise(&mut registry, PromiseRef::new(1, 2, 3), "main".to_string());
    let c = resolve_pending(&mut registry, &op, true, Produced::ProducerFailed("boom".to_string()));
    match c {
        Continuation::Settle(Settlement::Reject { function, error }, _) => {
            assert_eq!(function, JSValueRef::new_borrowed(3));
            assert_eq!(error.name, "Error");
            assert_eq!(error.message, "boom");
            assert_eq!(error.stack, "");
        }
        other => panic!("unexpected continuation {:?}", other),
    }
    assert!(registry.is_empty());
}

#[test]
fn mapper_error_rejects_with_that_error() {
    let mut registry = Registry::new();
    let (_, op) = new_resolving_promise(&mut registry, PromiseRef::new(1, 2, 3), "main".to_string());
    let err = JsError { name: "TypeError".to_string(), message: "bad".to_string(), stack: String::new() };
    let c = resolve_pending(&mut registry, &op, true, Produced::Mapped(Err(err.clone())));
    assert_eq!(
        c,
        Continuation::Settle(
            Settlement::Reject { function: JSValueRef::new_borrowed(3), error: err },
            JSValueRef { value: 1, owning: true }
        )
    );
    assert!(registry.is_empty());
}

#[test]
fn dropped_context_leaves_entry() {
    let mut registry = Registry::new();
    let (_, gone) = new_resolving_promise(&mut registry, PromiseRef::new(1, 2, 3), "gone".to_string());
    let (_, alive) = new_resolving_promise(&mut registry, PromiseRef::new(4, 5, 6), "main".to_string());
    let c = resolve_pending(&mut registry, &gone, false, Produced::Mapped(Ok(JSValueRef::new_borrowed(9))));
    assert_eq!(c, Continuation::ContextDropped);
    assert!(registry.contains(gone.id));
    assert_eq!(registry.len(), 2);
    // other contexts go on as before
    let c = resolve_pending(&mut registry, &alive, true, Produced::Mapped(Ok(JSValueRef::new_borrowed(9))));
    assert!(matches!(c, Continuation::Settle(Settlement::Resolve(_), _)));
    assert_eq!(registry.len(), 1);
}

#[test]
fn second_continuation_settles_nothing() {
    let mut registry = Registry::new();
    let (_, op) = new_resolving_promise(&mut registry, PromiseRef::new(1, 2, 3), "main".to_string());
    let first = resolve_pending(&mut registry, &op, true, Produced::Mapped(Ok(JSValueRef::new_borrowed(7))));
    assert!(matches!(first, Continuation::Settle(_, _)));
    let second = resolve_pending(&mut registry, &op, true, Produced::ProducerFailed("late".to_string()));
    assert_eq!(second, Continuation::NotPending);
}

#[test]
fn registry_remove_twice() {
    let mut registry = Registry::new();
    let id = registry.insert(PromiseRef::new(1, 2, 3));
    let id2 = registry.insert(PromiseRef::new(4, 5, 6));
    assert_ne!(id, id2);
    let first = registry.remove(id);
    assert_eq!(first.map(|p| p.get_promise_obj_ref().value), Some(1));
    assert!(registry.remove(id).is_none());
    assert!(registry.contains(id2));
    assert!(registry.remove(id2).is_some());
    assert!(registry.is_empty());
}
