//! Consensus core for a slot-based block-production protocol paired with a
//! finality gadget: the slot-leadership pre-digest codec, the rolling
//! randomness beacon, the authority-set change scheduler, the equivocation
//! proof verifier, and the inherent slot checker.

pub mod bytes;
pub mod digest;
pub mod equivocation;
pub mod inherent;
pub mod randomness;
pub mod scheduler;
