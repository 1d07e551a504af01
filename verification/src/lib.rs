//! A lottery ledger: a registry that numbers lotteries, lotteries that number
//! their tickets and hold the money paid for them, and the rules by which one
//! ticket wins and is paid exactly once.
//!
//! The ledger keeps no store of its own. Every operation is handed the
//! records it touches, checks that each stands at the location that its
//! number derives, and either commits all of its changes or fails and changes
//! nothing. Whoever keeps the records applies the operations one at a time.

pub mod accounts;
pub mod address;
pub mod error;
pub mod identity;
pub mod laws;
pub mod operations;
pub mod selector;
pub mod state;

pub use crate::accounts::{BuyTicket, ClaimPrize, Context, CreateLottery, InitMaster, PickWinner};
pub use crate::error::{Failure, LotteryError};
pub use crate::identity::Identity;
pub use crate::operations::{buy_ticket, claim_prize, create_lottery, init_master, pick_winner};
pub use crate::state::{Lottery, Master, Ticket};
