use quickjs_runtime::{JSValueRef, RefLedger};

#[test]
fn owning_clones_release_once() {
    let mut ledger = RefLedger::new();
    let h = ledger.adopt(77);
    assert_eq!(ledger.live_count(77), 1);
    let mut copies = vec![h];
    for _ in 0..4 {
        copies.push(ledger.clone_ref(&h));
    }
    assert_eq!(ledger.live_count(77), 5);
    let mut releases = 0;
    for c in copies {
        if ledger.release(c) {
            releases += 1;
        }
    }
    assert_eq!(releases, 1);
    assert_eq!(ledger.live_count(77), 0);
}

#[test]
fn borrowed_never_releases() {
    let mut ledger = RefLedger::new();
    let owner = ledger.adopt(3);
    let b = JSValueRef::new_borrowed(3);
    let b2 = ledger.clone_ref(&b);
    assert_eq!(ledger.live_count(3), 1);
    assert!(!ledger.release(b));
    assert!(!ledger.release(b2));
    assert_eq!(ledger.live_count(3), 1);
    assert!(ledger.release(owner));
}
