use biometric::PendingSlot;

#[test]
fn new_slot_is_empty() {
    let mut slot: PendingSlot<u32> = PendingSlot::new();
    assert!(!slot.is_occupied());
    assert_eq!(slot.take(), None);
}

#[test]
fn reserve_fills_empty_slot() {
    let mut slot = PendingSlot::new();
    assert_eq!(slot.try_reserve(7u32), Ok(()));
    assert!(slot.is_occupied());
    assert_eq!(slot.take(), Some(7));
}

#[test]
fn reserve_on_full_slot_hands_waiter_back() {
    let mut slot = PendingSlot::new();
    assert_eq!(slot.try_reserve("first"), Ok(()));
    assert_eq!(slot.try_reserve("second"), Err("second"));
    assert_eq!(slot.try_reserve("third"), Err("third"));
    assert!(slot.is_occupied());
    assert_eq!(slot.take(), Some("first"));
}

#[test]
fn take_empties_slot() {
    let mut slot = PendingSlot::new();
    assert_eq!(slot.try_reserve(1u8), Ok(()));
    assert_eq!(slot.take(), Some(1));
    assert!(!slot.is_occupied());
    assert_eq!(slot.take(), None);
    assert_eq!(slot.try_reserve(2u8), Ok(()));
    assert_eq!(slot.take(), Some(2));
}

#[test]
fn default_slot_is_empty() {
    let mut slot: PendingSlot<u32> = PendingSlot::default();
    assert!(!slot.is_occupied());
    assert_eq!(slot.try_reserve(9), Ok(()));
    assert_eq!(slot.take(), Some(9));
}
