//! Scenario tests for the multi-touch contact synthesis engine.

use input_device::touch::ContactTable;
use input_device::touch::Frame;
use input_device::touch::FrameKind;
use input_device::touch::PendingKind;
use input_device::touch::SimulationError;

fn tick(table: &mut ContactTable, time: i64, accepted: bool) -> Vec<Frame> {
    let batch = table.snapshot_and_build(time);
    if !batch.is_empty() {
        table.apply_injection_result(accepted);
    }
    batch
}

#[test]
fn scenario_single_contact() {
    let mut t = ContactTable::new();

    t.record_down(0, 100, 100).unwrap();
    let batch = tick(&mut t, 1, true);
    assert_eq!(batch.len(), 1);
    assert_eq!(batch[0].kind, FrameKind::Down);
    assert_eq!(batch[0].slot, 0);
    assert_eq!((batch[0].x, batch[0].y), (100, 100));

    t.record_move(0, 110, 100).unwrap();
    let batch = tick(&mut t, 2, true);
    assert_eq!(batch.len(), 1);
    assert_eq!(batch[0].kind, FrameKind::Update);
    assert_eq!((batch[0].x, batch[0].y), (110, 100));

    t.record_up(0).unwrap();
    let batch = tick(&mut t, 3, true);
    assert_eq!(batch.len(), 1);
    assert_eq!(batch[0].kind, FrameKind::Up);
    assert_eq!((batch[0].x, batch[0].y), (110, 100));

    let s = t.slot_state(0).unwrap();
    assert!(!s.active);
    assert_eq!(s.pending, None);
    let batch = tick(&mut t, 4, true);
    assert!(batch.is_empty());
}

#[test]
fn scenario_two_contacts_one_batch() {
    let mut t = ContactTable::new();
    t.record_down(0, 50, 50).unwrap();
    t.record_down(1, 60, 60).unwrap();

    let batch = tick(&mut t, 1, true);
    assert_eq!(batch.len(), 2);
    assert_eq!(batch[0].kind, FrameKind::Down);
    assert_eq!(batch[0].slot, 0);
    assert_eq!((batch[0].x, batch[0].y), (50, 50));
    assert_eq!(batch[1].kind, FrameKind::Down);
    assert_eq!(batch[1].slot, 1);
    assert_eq!((batch[1].x, batch[1].y), (60, 60));
}

#[test]
fn moves_coalesce_to_last_position() {
    let mut t = ContactTable::new();
    t.record_down(2, 0, 0).unwrap();
    tick(&mut t, 1, true);

    t.record_move(2, 10, 10).unwrap();
    t.record_move(2, 20, 20).unwrap();
    t.record_move(2, 30, 40).unwrap();
    let batch = tick(&mut t, 2, true);
    assert_eq!(batch.len(), 1);
    assert_eq!(batch[0].kind, FrameKind::Update);
    assert_eq!((batch[0].x, batch[0].y), (30, 40));
}

#[test]
fn identical_moves_are_idempotent() {
    let mut t = ContactTable::new();
    t.record_down(0, 7, 9).unwrap();
    tick(&mut t, 1, true);

    t.record_move(0, 7, 9).unwrap();
    let first = tick(&mut t, 5, true);
    t.record_move(0, 7, 9).unwrap();
    let second = tick(&mut t, 5, true);
    assert_eq!(first, second);
    assert_eq!(first.len(), 1);
    assert_eq!(first[0].kind, FrameKind::Update);
}

#[test]
fn active_contact_is_refreshed_every_tick() {
    let mut t = ContactTable::new();
    t.record_down(3, 1, 2).unwrap();
    tick(&mut t, 1, true);

    for time in 2..6 {
        let batch = tick(&mut t, time, true);
        assert_eq!(batch.len(), 1);
        assert_eq!(batch[0].kind, FrameKind::Update);
        assert_eq!((batch[0].x, batch[0].y), (1, 2));
    }
}

#[test]
fn rejected_batch_is_retried_unchanged() {
    let mut t = ContactTable::new();
    t.record_down(4, 8, 8).unwrap();
    tick(&mut t, 1, true);
    t.record_up(4).unwrap();

    let rejected = tick(&mut t, 2, false);
    assert_eq!(rejected.len(), 1);
    assert_eq!(rejected[0].kind, FrameKind::Up);

    let s = t.slot_state(4).unwrap();
    assert!(s.active);
    assert_eq!(s.pending, Some(PendingKind::Up));

    let retried = tick(&mut t, 3, true);
    assert_eq!(retried.len(), 1);
    assert_eq!(retried[0].kind, FrameKind::Up);
    assert_eq!((retried[0].x, retried[0].y), (8, 8));

    let s = t.slot_state(4).unwrap();
    assert!(!s.active);
    assert_eq!(s.pending, None);
    assert!(tick(&mut t, 4, true).is_empty());
}

#[test]
fn rejected_down_is_retried() {
    let mut t = ContactTable::new();
    t.record_down(0, 5, 5).unwrap();

    let rejected = tick(&mut t, 1, false);
    assert_eq!(rejected.len(), 1);
    assert_eq!(rejected[0].kind, FrameKind::Down);

    let retried = tick(&mut t, 2, true);
    assert_eq!(retried.len(), 1);
    assert_eq!(retried[0].kind, FrameKind::Down);
    assert_eq!((retried[0].x, retried[0].y), (5, 5));

    let again = tick(&mut t, 3, true);
    assert_eq!(again.len(), 1);
    assert_eq!(again[0].kind, FrameKind::Update);
}

#[test]
fn move_implicitly_begins_a_contact() {
    let mut t = ContactTable::new();
    t.record_move(1, 33, 44).unwrap();

    let s = t.slot_state(1).unwrap();
    assert!(s.active);
    assert_eq!(s.pending, None);

    let batch = tick(&mut t, 1, true);
    assert_eq!(batch.len(), 1);
    assert_eq!(batch[0].kind, FrameKind::Update);
    assert_eq!((batch[0].x, batch[0].y), (33, 44));
}

#[test]
fn most_recent_request_wins() {
    let mut t = ContactTable::new();
    t.record_down(0, 1, 1).unwrap();
    t.record_up(0).unwrap();
    t.record_down(0, 2, 2).unwrap();

    let batch = tick(&mut t, 1, true);
    assert_eq!(batch.len(), 1);
    assert_eq!(batch[0].kind, FrameKind::Down);
    assert_eq!((batch[0].x, batch[0].y), (2, 2));
}

#[test]
fn invalid_slot_is_rejected() {
    let mut t = ContactTable::new();
    assert_eq!(t.record_down(10, 0, 0), Err(SimulationError::InvalidSlot));
    assert_eq!(t.record_move(10, 0, 0), Err(SimulationError::InvalidSlot));
    assert_eq!(t.record_up(10), Err(SimulationError::InvalidSlot));
    assert_eq!(t.record_down(usize::MAX, 0, 0), Err(SimulationError::InvalidSlot));
    assert!(tick(&mut t, 1, true).is_empty());
}

#[test]
fn frames_carry_contact_rectangle_and_timestamp() {
    let mut t = ContactTable::new();
    t.record_down(0, 100, 200).unwrap();
    let batch = tick(&mut t, 77, true);
    assert_eq!(batch.len(), 1);
    let f = batch[0];
    assert_eq!(f.contact_left, 98);
    assert_eq!(f.contact_right, 102);
    assert_eq!(f.contact_top, 198);
    assert_eq!(f.contact_bottom, 202);
    assert_eq!(f.time, 77);
}

#[test]
fn extreme_coordinates_do_not_wrap_the_rectangle() {
    let mut t = ContactTable::new();
    t.record_down(0, i32::MIN, i32::MAX).unwrap();
    let batch = tick(&mut t, 1, true);
    let f = batch[0];
    assert_eq!(f.contact_left, i32::MIN as i64 - 2);
    assert_eq!(f.contact_right, i32::MIN as i64 + 2);
    assert_eq!(f.contact_top, i32::MAX as i64 - 2);
    assert_eq!(f.contact_bottom, i32::MAX as i64 + 2);
}

#[test]
fn slots_are_isolated() {
    let mut t = ContactTable::new();
    t.record_down(1, 11, 11).unwrap();
    t.record_down(7, 77, 77).unwrap();
    tick(&mut t, 1, true);

    t.record_move(1, 12, 12).unwrap();
    let batch = tick(&mut t, 2, true);
    assert_eq!(batch.len(), 2);
    assert_eq!(batch[0].slot, 1);
    assert_eq!((batch[0].x, batch[0].y), (12, 12));
    assert_eq!(batch[1].slot, 7);
    assert_eq!((batch[1].x, batch[1].y), (77, 77));

    t.record_up(7).unwrap();
    let batch = tick(&mut t, 3, true);
    assert_eq!(batch.len(), 2);
    assert_eq!(batch[0].kind, FrameKind::Update);
    assert_eq!(batch[0].slot, 1);
    assert_eq!(batch[1].kind, FrameKind::Up);
    assert_eq!(batch[1].slot, 7);
}

#[test]
fn all_ten_slots_fit_one_batch() {
    let mut t = ContactTable::new();
    for s in 0..10 {
        t.record_down(s, s as i32, s as i32).unwrap();
    }
    let batch = tick(&mut t, 1, true);
    assert_eq!(batch.len(), 10);
    for (i, f) in batch.iter().enumerate() {
        assert_eq!(f.slot, i as u32);
        assert_eq!(f.kind, FrameKind::Down);
    }
}
