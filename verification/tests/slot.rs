use skima_sidecar::slot::ProcessSlot;

#[test]
fn new_slot_is_empty() {
    let mut slot: ProcessSlot<u32> = ProcessSlot::new();
    assert!(slot.is_empty());
    assert_eq!(slot.take(), None);
    assert!(slot.is_empty());
}

#[test]
fn store_then_take_hands_the_handle_out_once() {
    let mut slot: ProcessSlot<String> = ProcessSlot::new();
    assert_eq!(slot.store("child".to_string()), None);
    assert!(!slot.is_empty());
    assert_eq!(slot.take(), Some("child".to_string()));
    assert!(slot.is_empty());
    assert_eq!(slot.take(), None);
    assert_eq!(slot.take(), None);
    assert!(slot.is_empty());
}

#[test]
fn store_on_full_slot_hands_back_the_old_handle() {
    let mut slot: ProcessSlot<u32> = ProcessSlot::new();
    assert_eq!(slot.store(1), None);
    assert_eq!(slot.store(2), Some(1));
    assert_eq!(slot.take(), Some(2));
    assert_eq!(slot.take(), None);
}
