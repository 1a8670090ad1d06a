use consensus_core::inherent::{check_inherent, slot_duration, slot_from_timestamp, SlotMismatch};

#[test]
fn slot_duration_doubles_the_minimum_period() {
    assert_eq!(slot_duration(3), 6);
    assert_eq!(slot_duration(0), 0);
    // the doubling saturates at the integer bound.
    assert_eq!(slot_duration(u64::MAX), u64::MAX);
    assert_eq!(slot_duration(u64::MAX / 2 + 1), u64::MAX);
}

#[test]
fn slots_are_derived_from_timestamps() {
    // minimum period 3, so the slot duration is 6.
    assert_eq!(slot_from_timestamp(0, 3), 0);
    assert_eq!(slot_from_timestamp(5, 3), 0);
    assert_eq!(slot_from_timestamp(6, 3), 1);
    assert_eq!(slot_from_timestamp(35, 3), 5);
}

#[test]
fn matching_slot_passes_the_inherent_check() {
    assert_eq!(check_inherent(35, 3, 5), Ok(()));
    assert_eq!(check_inherent(36, 3, 6), Ok(()));
}

#[test]
fn mismatched_slot_is_fatal() {
    assert_eq!(
        check_inherent(35, 3, 6),
        Err(SlotMismatch { timestamp_slot: 5, seal_slot: 6 })
    );
    assert_eq!(
        check_inherent(36, 3, 5),
        Err(SlotMismatch { timestamp_slot: 6, seal_slot: 5 })
    );
}
