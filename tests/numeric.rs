use state_machine::numeric::{Counter, Identifier};

#[test]
fn u32_counter_arithmetic() {
    assert_eq!(<u32 as Counter>::zero(), 0);
    assert_eq!(<u32 as Counter>::one(), 1);
    assert_eq!(Counter::checked_add(&7u32, &5u32), Some(12));
    assert_eq!(Counter::checked_add(&u32::MAX, &1u32), None);
    assert_eq!(Counter::checked_sub(&7u32, &5u32), Some(2));
    assert_eq!(Counter::checked_sub(&5u32, &7u32), None);
}

#[test]
fn u128_counter_arithmetic() {
    assert_eq!(<u128 as Counter>::zero(), 0);
    assert_eq!(<u128 as Counter>::one(), 1);
    assert_eq!(Counter::checked_add(&100u128, &30u128), Some(130));
    assert_eq!(Counter::checked_add(&u128::MAX, &1u128), None);
    assert_eq!(Counter::checked_sub(&100u128, &30u128), Some(70));
    assert_eq!(Counter::checked_sub(&0u128, &1u128), None);
}

#[test]
fn string_identifier() {
    let a = "alice".to_string();
    assert!(a.same(&"alice".to_string()));
    assert!(!a.same(&"bob".to_string()));
    assert_eq!(a.duplicate(), "alice".to_string());
}
