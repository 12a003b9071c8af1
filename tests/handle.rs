use translator_bindings::handle::{HandleRegistry, SLOT_SPAN};

#[test]
fn open_returns_fresh_nonzero_handles() {
    let mut reg: HandleRegistry<String> = HandleRegistry::new();
    let a = reg.open("first".to_string());
    let b = reg.open("second".to_string());
    assert_eq!(a, 1);
    assert_eq!(b, 2);
    assert_eq!(reg.get(a).map(|s| s.as_str()), Some("first"));
    assert_eq!(reg.get(b).map(|s| s.as_str()), Some("second"));
}

#[test]
fn zero_handle_names_nothing() {
    let mut reg: HandleRegistry<u32> = HandleRegistry::new();
    reg.open(7);
    assert!(!reg.is_open(0));
    assert!(reg.get(0).is_none());
    assert!(reg.get_mut(0).is_none());
    assert!(reg.close(0).is_none());
    assert!(reg.is_open(1));
}

#[test]
fn unissued_and_negative_handles_name_nothing() {
    let mut reg: HandleRegistry<u32> = HandleRegistry::new();
    reg.open(7);
    assert!(reg.get(2).is_none());
    assert!(reg.get(-1).is_none());
    assert!(reg.get(i64::MAX).is_none());
    assert!(reg.close(-5).is_none());
}

#[test]
fn close_reclaims_exactly_once() {
    let mut reg: HandleRegistry<String> = HandleRegistry::new();
    let h = reg.open("dict".to_string());
    assert_eq!(reg.close(h), Some("dict".to_string()));
    assert!(!reg.is_open(h));
    assert_eq!(reg.close(h), None);
    assert!(reg.get(h).is_none());
}

#[test]
fn closed_handle_is_never_reissued() {
    let mut reg: HandleRegistry<u32> = HandleRegistry::new();
    let a = reg.open(1);
    reg.close(a);
    let b = reg.open(2);
    assert_ne!(a, b);
    assert!(reg.get(a).is_none());
    assert_eq!(reg.get(b), Some(&2));
}

#[test]
fn get_mut_changes_the_object_behind_the_handle() {
    let mut reg: HandleRegistry<u32> = HandleRegistry::new();
    let a = reg.open(1);
    let b = reg.open(10);
    if let Some(v) = reg.get_mut(a) {
        *v += 5;
    }
    assert_eq!(reg.get(a), Some(&6));
    assert_eq!(reg.get(b), Some(&10));
}

#[test]
fn freed_slot_is_reused_under_a_new_generation() {
    let mut reg: HandleRegistry<u32> = HandleRegistry::new();
    let a = reg.open(1);
    let b = reg.open(2);
    assert_eq!(reg.close(a), Some(1));
    let c = reg.open(3);
    assert_eq!(c, SLOT_SPAN + 1);
    assert!(reg.get(a).is_none());
    assert_eq!(reg.get(c), Some(&3));
    assert_eq!(reg.close(a), None);
    assert_eq!(reg.get(c), Some(&3));
    assert_eq!(reg.get(b), Some(&2));
    reg.close(c);
    let d = reg.open(4);
    assert_eq!(d, 2 * SLOT_SPAN + 1);
    assert!(reg.get(c).is_none());
}

#[test]
fn many_open_close_cycles_keep_one_slot() {
    let mut reg: HandleRegistry<u32> = HandleRegistry::new();
    let mut seen = Vec::new();
    for i in 0..100u32 {
        let h = reg.open(i);
        assert_ne!(h, 0);
        assert_eq!(h % SLOT_SPAN, 1);
        assert!(!seen.contains(&h));
        seen.push(h);
        assert_eq!(reg.close(h), Some(i));
    }
}
