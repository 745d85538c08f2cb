use critical_section_compat::hosted::{enter, leave, EnterStep, LeaveStep, Provider};
use critical_section_compat::restore::ConvertRestoreState;

#[test]
fn enter_decides_on_the_thread_flag() {
    assert_eq!(enter(false), EnterStep::TakeLock);
    assert_eq!(enter(true), EnterStep::Nested);
    assert!(!enter(false).token());
    assert!(enter(true).token());
}

#[test]
fn leave_decides_on_the_token() {
    assert_eq!(leave(false), LeaveStep::Unlock);
    assert_eq!(leave(true), LeaveStep::Stay);
}

#[test]
fn new_provider_is_idle() {
    let p = Provider::new(3);
    assert_eq!(p.threads(), 3);
    for t in 0..3 {
        assert!(!p.is_inside(t));
    }
    assert!(!p.is_poisoned());
}

#[test]
fn empty_provider_has_no_threads() {
    let p = Provider::new(0);
    assert_eq!(p.threads(), 0);
}

#[test]
fn nested_entries_never_wait() {
    let mut p = Provider::new(2);
    assert_eq!(p.acquire(0), Some(false));
    for _ in 0..5 {
        assert_eq!(p.acquire(0), Some(true));
        assert!(p.is_inside(0));
    }
}

#[test]
fn second_thread_waits_while_first_is_inside() {
    let mut p = Provider::new(2);
    assert_eq!(p.acquire(0), Some(false));
    assert_eq!(p.acquire(1), None);
    assert!(!p.is_inside(1));
    assert_eq!(p.acquire(1), None);
    assert!(p.release(0, false, false));
    assert_eq!(p.acquire(1), Some(false));
    assert!(p.is_inside(1));
    assert!(!p.is_inside(0));
    assert_eq!(p.acquire(0), None);
}

#[test]
fn two_threads_never_inside_together() {
    let mut p = Provider::new(2);
    let mut inside: u32 = 0;
    for round in 0..6usize {
        let (first, second) = if round % 2 == 0 { (0, 1) } else { (1, 0) };
        if p.acquire(first).is_some() {
            inside += 1;
        }
        if p.acquire(second).is_some() {
            inside += 1;
        }
        assert!(inside <= 1);
        assert!(!(p.is_inside(0) && p.is_inside(1)));
        assert!(p.release(first, false, false));
        inside -= 1;
    }
}

#[test]
fn acquire_release_round_trip() {
    let mut p = Provider::new(1);
    let raw = p.acquire(0).unwrap();
    let token = raw.to_u8();
    assert_eq!(token, 0);
    assert!(<bool as ConvertRestoreState>::fits(token));
    let back = <bool as ConvertRestoreState>::from_u8(token);
    assert!(p.release(0, back, false));
    assert!(!p.is_inside(0));
    assert!(!p.is_poisoned());
}

#[test]
fn reusable_after_a_panic_inside() {
    let mut p = Provider::new(2);
    assert_eq!(p.acquire(1), Some(false));
    assert!(p.release(1, false, true));
    assert!(p.is_poisoned());
    assert_eq!(p.acquire(0), Some(false));
    assert!(!p.is_poisoned());
    let result = if p.is_inside(0) { 42 } else { 0 };
    assert!(p.release(0, false, false));
    assert_eq!(result, 42);
    assert!(!p.is_inside(0));
}

#[test]
fn panic_in_nested_region_poisons_at_outer_release() {
    let mut p = Provider::new(1);
    assert_eq!(p.acquire(0), Some(false));
    assert_eq!(p.acquire(0), Some(true));
    assert!(!p.release(0, true, true));
    assert!(!p.is_poisoned());
    assert!(p.release(0, false, true));
    assert!(p.is_poisoned());
    assert_eq!(p.acquire(0), Some(false));
    assert!(!p.is_poisoned());
}

#[test]
fn nesting_three_deep_locks_once() {
    let mut p = Provider::new(1);
    let mut tokens = Vec::new();
    let mut taken = 0;
    for _ in 0..3 {
        let raw = p.acquire(0).unwrap();
        if !raw {
            taken += 1;
        }
        tokens.push(raw);
    }
    assert_eq!(tokens, vec![false, true, true]);
    assert_eq!(taken, 1);
    let mut freed = 0;
    while let Some(raw) = tokens.pop() {
        assert!(p.is_inside(0));
        if p.release(0, raw, false) {
            freed += 1;
        }
    }
    assert_eq!(freed, 1);
    assert!(!p.is_inside(0));
}
