//! The ways in which an operation on the ledger is turned down.

use vstd::prelude::*;

verus! {

/// A rule of the lottery that an operation broke.
#[derive(Clone, Copy, Debug, PartialEq, Eq, Structural)]
pub enum LotteryError {
    /// A ticket was bought or a winner drawn after the winner was set.
    WinnerAlreadyExists,
    /// A winner was to be drawn with no ticket sold.
    NoTickets,
    /// The prize was claimed before a winner was drawn.
    WinnerNotChosen,
    /// The prize was claimed with a ticket that did not win.
    InvalidWinner,
    /// The prize was claimed a second time.
    AlreadyClaimed,
}

impl LotteryError {
    /// The sentence that goes with the error.
    pub open spec fn text(self) -> Seq<char> {
        match self {
            LotteryError::WinnerAlreadyExists => "Winner already exist"@,
            LotteryError::NoTickets => "Cant choose winner when there are no tickets"@,
            LotteryError::WinnerNotChosen => "Winner has not been chosen."@,
            LotteryError::InvalidWinner => "Invalid winner."@,
            LotteryError::AlreadyClaimed => "Prize already claimed"@,
        }
    }

    /// The sentence that goes with the error, for a log or a reply.
    pub fn message(&self) -> (r: &'static str)
        ensures
            r@ == self.text(),
    {
        match self {
            LotteryError::WinnerAlreadyExists => "Winner already exist",
            LotteryError::NoTickets => "Cant choose winner when there are no tickets",
            LotteryError::WinnerNotChosen => "Winner has not been chosen.",
            LotteryError::InvalidWinner => "Invalid winner.",
            LotteryError::AlreadyClaimed => "Prize already claimed",
        }
    }
}

/// Why an operation left the ledger as it was.
///
/// Every operation either commits all of its changes or fails with one of
/// these and changes nothing.
#[derive(Clone, Copy, Debug, PartialEq, Eq, Structural)]
pub enum Failure {
    /// A rule of the lottery was broken.
    Lottery(LotteryError),
    /// A record was not handed over at the location that its key derives.
    AddressMismatch,
    /// The registry was to be set up where a registry already stands.
    AlreadyInitialized,
    /// The caller is not the authority that the record names.
    Unauthorized,
    /// The paying balance holds less than the amount to move.
    InsufficientFunds,
    /// A counter, a balance or the prize would leave the range of its integer type.
    Overflow,
}

} // verus!
