//! The three operations of the escrow, and the two steps they share.
//!
//! An instruction of the program checks its accounts and then runs its
//! handler; the instructions are in `crate::escrow`. What stands here are
//! their parts. A part that runs alone can leave an offer half made.

pub mod make_offer;
pub mod refund_offer;
pub mod shared;
pub mod take_offer;
