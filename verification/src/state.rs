//! The three kinds of record that the ledger keeps.

use crate::identity::Identity;
use vstd::prelude::*;

verus! {

/// The registry: the one record that numbers the lotteries.
#[derive(Clone, Copy, Debug, PartialEq, Eq)]
pub struct Master {
    /// The id of the lottery created last, 0 while there is none.
    pub last_id: u32,
}

/// One lottery.
#[derive(Clone, Copy, Debug, PartialEq, Eq)]
pub struct Lottery {
    /// Its number in the registry, from 1.
    pub id: u32,
    /// Who created it, and who alone may draw its winner.
    pub authority: Identity,
    /// What one ticket costs.
    pub ticket_price: u64,
    /// The id of the ticket sold last, which is the number of tickets sold.
    pub last_ticket_id: u32,
    /// The id of the winning ticket, once drawn.
    pub winner_id: Option<u32>,
    /// Whether the prize has been paid.
    pub claimed: bool,
}

/// One ticket: the proof of purchase that is redeemed for the prize.
#[derive(Clone, Copy, Debug, PartialEq, Eq)]
pub struct Ticket {
    /// Its number within its lottery, from 1.
    pub id: u32,
    /// Who bought it.
    pub authority: Identity,
    /// The id of the lottery that it belongs to.
    pub lottery_id: u32,
}

impl Master {
    /// The registry before any lottery exists.
    pub open spec fn fresh() -> Master {
        Master { last_id: 0 }
    }
}

impl Lottery {
    /// The lottery as it stands right after its creation.
    pub open spec fn fresh(id: u32, authority: Identity, ticket_price: u64) -> Lottery {
        Lottery { id, authority, ticket_price, last_ticket_id: 0, winner_id: None, claimed: false }
    }

    /// What holds of every lottery that the operations can reach: a winner is
    /// one of the tickets sold, and nothing is paid before a winner is drawn.
    pub open spec fn wf(self) -> bool {
        &&& self.winner_id matches Some(w) ==> 1 <= w <= self.last_ticket_id
        &&& self.claimed ==> self.winner_id is Some
    }

    /// The pot: what the tickets sold have brought in.
    pub open spec fn pot(self) -> int {
        self.ticket_price * self.last_ticket_id
    }

    /// What the lottery still holds for its winner: the pot until it is paid,
    /// nothing after.
    pub open spec fn owed(self) -> int {
        if self.claimed {
            0
        } else {
            self.pot()
        }
    }
}

} // verus!
