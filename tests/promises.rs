use quickjs_runtime::{
    add_promise_reactions, is_date, is_promise, is_unhandled_rejection, normalize_module_name, FunctionCall, JSValueRef, JsError, MemberCall, PromiseRef,
    ReactionKind, Settlement,
};

fn chain(names: &[&str]) -> Vec<String> {
    names.iter().map(|n| n.to_string()).collect()
}

#[test]
fn test_instance_of_prom() {
    // the prototype chain of `(new Promise((res, rej) => {}));`
    let io = is_promise(&chain(&["Promise", "Object"]));
    assert!(io);
}

#[test]
fn date_instances() {
    assert!(is_date(&chain(&["Date", "Object"])));
    assert!(!is_date(&chain(&["Promise", "Object"])));
}

#[test]
fn module_names_stay_as_written() {
    assert_eq!(normalize_module_name("test2.mes", "test1.mes"), "test1.mes");
}

#[test]
fn unhandled_rejection_flag() {
    assert!(is_unhandled_rejection(0));
    assert!(!is_unhandled_rejection(1));
}

#[test]
fn plain_object_is_not_a_promise() {
    assert!(!is_promise(&chain(&["Date", "Object"])));
    assert!(!is_promise(&chain(&[])));
}

#[test]
fn new_prom() {
    let prom = PromiseRef::new(10, 11, 12);
    let obj = prom.get_promise_obj_ref();
    assert_eq!(obj, JSValueRef { value: 10, owning: false });
    let value = JSValueRef::new_borrowed(743);
    let call = prom.resolve(value);
    assert_eq!(
        call,
        FunctionCall { function: JSValueRef { value: 11, owning: false }, argument: value }
    );
}

#[test]
fn new_prom2() {
    let prom = PromiseRef::new(10, 11, 12);
    let value = JSValueRef::new_borrowed(130);
    let call = prom.reject(value);
    assert_eq!(
        call,
        FunctionCall { function: JSValueRef { value: 12, owning: false }, argument: value }
    );
}

#[test]
fn test_promise_reactions() {
    let prom_ref = JSValueRef { value: 364, owning: true };
    let then_cb = JSValueRef::new_borrowed(1);
    let finally_cb = JSValueRef::new_borrowed(2);
    let calls = add_promise_reactions(
        &prom_ref,
        &chain(&["Promise", "Object"]),
        Some(then_cb),
        None,
        Some(finally_cb),
    );
    assert_eq!(
        calls,
        vec![
            MemberCall { target: prom_ref, member: ReactionKind::Then, argument: then_cb },
            MemberCall { target: prom_ref, member: ReactionKind::Finally, argument: finally_cb },
        ]
    );
}

#[test]
fn all_three_reactions_in_order() {
    let prom_ref = JSValueRef { value: 5, owning: true };
    let (a, b, c) = (JSValueRef::new_borrowed(6), JSValueRef::new_borrowed(7), JSValueRef::new_borrowed(8));
    let calls = add_promise_reactions(&prom_ref, &chain(&["Promise"]), Some(a), Some(b), Some(c));
    let kinds: Vec<ReactionKind> = calls.iter().map(|c| c.member).collect();
    assert_eq!(kinds, vec![ReactionKind::Then, ReactionKind::Catch, ReactionKind::Finally]);
    assert_eq!(calls[1].argument, b);
    let none = add_promise_reactions(&prom_ref, &chain(&["Promise"]), None, None, None);
    assert!(none.is_empty());
}

#[test]
fn reaction_member_names() {
    assert_eq!(ReactionKind::Then.member_name(), "then");
    assert_eq!(ReactionKind::Catch.member_name(), "catch");
    assert_eq!(ReactionKind::Finally.member_name(), "finally");
}

#[test]
fn generic_error_carries_message() {
    let e = JsError::generic("boom".to_string());
    assert_eq!(e.name, "Error");
    assert_eq!(e.message, "boom");
    assert_eq!(e.stack, "");
}

#[test]
fn settle_picks_resolve_or_reject() {
    let value = JSValueRef::new_borrowed(135);
    let (s, obj) = PromiseRef::new(1, 2, 3).settle(Ok(value));
    assert_eq!(
        s,
        Settlement::Resolve(FunctionCall { function: JSValueRef::new_borrowed(2), argument: value })
    );
    assert_eq!(obj, JSValueRef { value: 1, owning: true });
    let err = JsError { name: "TypeError".to_string(), message: "bad".to_string(), stack: String::new() };
    let (s, _) = PromiseRef::new(1, 2, 3).settle(Err(err.clone()));
    assert_eq!(s, Settlement::Reject { function: JSValueRef::new_borrowed(3), error: err });
}
