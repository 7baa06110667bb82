use http_dispatch::admission::{Admission, ConcurrencyCap, Signal};

#[test]
fn permits_never_exceed_the_bound() {
    let mut cap = ConcurrencyCap::new(3);
    let mut held = Vec::new();
    for _ in 0..5 {
        match cap.acquire() {
            Admission::Granted(p) => held.push(p),
            Admission::Saturated(_) => {}
        }
        assert!(cap.live_permits() <= cap.max_permits());
    }
    assert_eq!(held.len(), 3);
    assert_eq!(cap.live_permits(), 3);
}

#[test]
fn saturation_closes_once_and_release_restores() {
    let mut cap = ConcurrencyCap::new(1);
    let p = match cap.acquire() {
        Admission::Granted(p) => p,
        Admission::Saturated(_) => panic!("a slot was free"),
    };
    assert_eq!(p.num(), 0);
    assert!(matches!(cap.acquire(), Admission::Saturated(Some(Signal::Close))));
    assert!(matches!(cap.acquire(), Admission::Saturated(None)));
    assert_eq!(cap.release(p), Some(Signal::Restore));
    assert_eq!(cap.live_permits(), 0);
}

#[test]
fn release_is_counted_once_per_acquire() {
    let mut cap = ConcurrencyCap::new(2);
    let a = match cap.acquire() {
        Admission::Granted(p) => p,
        Admission::Saturated(_) => panic!("a slot was free"),
    };
    let b = match cap.acquire() {
        Admission::Granted(p) => p,
        Admission::Saturated(_) => panic!("a slot was free"),
    };
    assert_eq!(a.num(), 0);
    assert_eq!(b.num(), 1);
    assert_eq!(cap.release(a), None);
    assert_eq!(cap.live_permits(), 1);
    assert_eq!(cap.release(b), None);
    assert_eq!(cap.live_permits(), 0);
}
