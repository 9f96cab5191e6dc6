use binder_accessor::{instance_c_name, Accessor, CookieRefCount, RefEvent, RefOutcome};

#[test]
fn create_then_destroy_frees_closure() {
    let mut count = CookieRefCount::new();
    assert_eq!(count.count(), 1);
    assert!(count.is_live());
    assert_eq!(count.release(), RefOutcome::Freed);
    assert!(!count.is_live());
}

#[test]
fn concurrent_calls_free_exactly_once_at_last_release() {
    let n: usize = 5;
    let mut count = CookieRefCount::new();
    for _ in 0..n {
        assert_eq!(count.acquire(), RefOutcome::Acquired);
    }
    assert_eq!(count.count(), 6);
    // Calls finish in some order, and the native accessor is destroyed midway.
    let mut outcomes = Vec::new();
    outcomes.push(count.release());
    outcomes.push(count.release());
    outcomes.push(count.release()); // the native accessor's own reference
    outcomes.push(count.release());
    outcomes.push(count.release());
    outcomes.push(count.release());
    let freed: Vec<usize> = outcomes
        .iter()
        .enumerate()
        .filter(|(_, o)| **o == RefOutcome::Freed)
        .map(|(i, _)| i)
        .collect();
    assert_eq!(freed, vec![5]);
    assert_eq!(count.count(), 0);
}

#[test]
fn interleaved_events_free_once() {
    let events = [
        RefEvent::Acquire,
        RefEvent::Acquire,
        RefEvent::Release,
        RefEvent::Acquire,
        RefEvent::Release,
        RefEvent::Release,
        RefEvent::Release,
    ];
    let mut count = CookieRefCount::new();
    let outcomes: Vec<RefOutcome> = events.iter().map(|e| count.apply(*e)).collect();
    assert_eq!(
        outcomes,
        vec![
            RefOutcome::Acquired,
            RefOutcome::Acquired,
            RefOutcome::Retained,
            RefOutcome::Acquired,
            RefOutcome::Retained,
            RefOutcome::Retained,
            RefOutcome::Freed,
        ]
    );
}

#[test]
fn destruction_during_call_keeps_closure() {
    let mut count = CookieRefCount::new();
    assert_eq!(count.acquire(), RefOutcome::Acquired); // a call begins
    assert_eq!(count.release(), RefOutcome::Retained); // the accessor is destroyed
    assert!(count.is_live()); // the call can still use the closure
    assert_eq!(count.release(), RefOutcome::Freed); // the call ends
}

#[test]
fn freed_closure_cannot_be_acquired_or_freed_again() {
    let mut count = CookieRefCount::new();
    assert_eq!(count.release(), RefOutcome::Freed);
    assert_eq!(count.acquire(), RefOutcome::AcquireRefused);
    assert_eq!(count.release(), RefOutcome::OverReleased);
    assert_eq!(count.count(), 0);
}

#[test]
fn instance_name_with_nul_is_refused() {
    assert_eq!(instance_c_name("svc\0x"), None);
    assert_eq!(instance_c_name("\0"), None);
    assert_eq!(instance_c_name("svc"), Some(b"svc\0".to_vec()));
    assert_eq!(instance_c_name(""), Some(vec![0u8]));
}

#[test]
fn accessor_new_passes_c_name_and_keeps_handle() {
    let mut seen: Vec<u8> = Vec::new();
    let accessor = Accessor::new("android.svc", |name: &[u8]| {
        seen = name.to_vec();
        0x1000
    })
    .unwrap();
    assert_eq!(seen, b"android.svc\0".to_vec());
    assert_eq!(accessor.handle(), 0x1000);
    assert_eq!(accessor.into_raw(), 0x1000);
}

#[test]
fn accessor_new_fails_on_null_handle() {
    assert!(Accessor::new("svc", |_: &[u8]| 0).is_none());
}

#[test]
fn as_binder_none_then_some() {
    let accessor = Accessor::new("svc", |_: &[u8]| 0x2000).unwrap();
    assert!(accessor.as_binder(|_| 0).is_none());
    let mut asked = 0usize;
    let binder = accessor
        .as_binder(|h| {
            asked = h;
            0xbeef
        })
        .unwrap();
    assert_eq!(asked, 0x2000);
    assert_eq!(binder.raw(), 0xbeef);
}
