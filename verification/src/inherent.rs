//! The inherent slot checker.
//!
//! A block author declares a timestamp and, through the slot inherent, the
//! slot its pre-digest claims. The slot duration is twice the minimum block
//! period, so an honest author always has the majority of its slot to
//! produce and propagate a block; the declared timestamp must land in the
//! claimed slot, and a mismatch rejects the block.

use vstd::prelude::*;

verus! {

/// The slot duration derived from the minimum block period: twice the
/// period, saturating at the integer bound.
pub open spec fn slot_duration_spec(minimum_period: u64) -> u64 {
    if 2 * minimum_period <= u64::MAX {
        (2 * minimum_period) as u64
    } else {
        u64::MAX
    }
}

/// The slot a timestamp falls in, at the given slot duration.
pub open spec fn timestamp_slot(timestamp: u64, minimum_period: u64) -> int
    recommends
        minimum_period >= 1,
{
    timestamp as int / slot_duration_spec(minimum_period) as int
}

/// The block's declared timestamp does not fall in the claimed slot.
#[derive(Clone, Copy, Debug, PartialEq, Eq)]
pub struct SlotMismatch {
    /// The slot the declared timestamp falls in.
    pub timestamp_slot: u64,
    /// The slot claimed in the block's seal.
    pub seal_slot: u64,
}

/// The slot duration: twice the minimum block period, saturating.
pub fn slot_duration(minimum_period: u64) -> (r: u64)
    ensures
        r == slot_duration_spec(minimum_period),
{
    if minimum_period > u64::MAX / 2 {
        u64::MAX
    } else {
        2 * minimum_period
    }
}

/// The slot a timestamp falls in.
pub fn slot_from_timestamp(timestamp: u64, minimum_period: u64) -> (r: u64)
    requires
        minimum_period >= 1,
    ensures
        r == timestamp_slot(timestamp, minimum_period),
{
    timestamp / slot_duration(minimum_period)
}

/// Checks the claimed slot against the declared timestamp: the block is
/// valid exactly when the timestamp falls in the claimed slot, and a
/// mismatch reports both slots.
pub fn check_inherent(timestamp: u64, minimum_period: u64, seal_slot: u64) -> (r: Result<
    (),
    SlotMismatch,
>)
    requires
        minimum_period >= 1,
    ensures
        r is Ok <==> timestamp_slot(timestamp, minimum_period) == seal_slot,
        match r {
            Ok(_) => true,
            Err(e) => e.timestamp_slot == timestamp_slot(timestamp, minimum_period)
                && e.seal_slot == seal_slot && e.timestamp_slot != e.seal_slot,
        },
{
    let timestamp_based_slot = slot_from_timestamp(timestamp, minimum_period);
    if timestamp_based_slot == seal_slot {
        Ok(())
    } else {
        Err(SlotMismatch { timestamp_slot: timestamp_based_slot, seal_slot })
    }
}

} // verus!
