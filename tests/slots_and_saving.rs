use neuralnet::context::ContextSlot;
use neuralnet::persist::{parts_to_read, save_action, SaveAction};

#[test]
fn context_is_consumed_once() {
    let mut slot: ContextSlot<Vec<f64>> = ContextSlot::new();
    assert!(!slot.is_held());
    slot.store(vec![1.0, 2.0]);
    assert!(slot.is_held());
    assert_eq!(slot.take(), Some(vec![1.0, 2.0]));
    assert!(!slot.is_held());
    assert_eq!(slot.take(), None);
}

#[test]
fn second_store_replaces_pending_context() {
    let mut slot: ContextSlot<u32> = ContextSlot::new();
    slot.store(1);
    slot.store(2);
    assert_eq!(slot.take(), Some(2));
    assert_eq!(slot.take(), None);
}

#[test]
fn save_actions() {
    assert_eq!(save_action(false, false), SaveAction::Create);
    assert_eq!(save_action(false, true), SaveAction::Create);
    assert_eq!(save_action(true, true), SaveAction::ReplaceExisting);
    assert_eq!(save_action(true, false), SaveAction::Refuse);
}

#[test]
fn parts_stop_at_first_missing() {
    assert_eq!(parts_to_read(&vec![true, true, false, true]), 2);
    assert_eq!(parts_to_read(&vec![true, true]), 2);
    assert_eq!(parts_to_read(&vec![false, true]), 0);
    assert_eq!(parts_to_read(&vec![]), 0);
}
