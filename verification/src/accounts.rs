//! What an operation is handed: the records it touches, each with the
//! location it was found at and the balance held there, and the parties
//! that take part.

use crate::error::{Failure, LotteryError};
use crate::identity::Identity;
use crate::selector::winning_ticket_of;
use crate::state::{Lottery, Master, Ticket};
use vstd::prelude::*;

verus! {

/// A record together with the location it was handed over at and the balance
/// that this location holds.
#[derive(Debug, PartialEq, Eq)]
pub struct Account<T> {
    /// The location of the record.
    pub key: Identity,
    /// The funds held at the location.
    pub balance: u64,
    /// The record itself.
    pub data: T,
}

/// A party that takes part in an operation: the caller, who pays or is paid.
#[derive(Clone, Copy, Debug, PartialEq, Eq)]
pub struct Signer {
    /// Who the party is.
    pub key: Identity,
    /// The funds that the party holds.
    pub balance: u64,
}

/// The time and the slot at which an operation runs.
#[derive(Clone, Copy, Debug, PartialEq, Eq)]
pub struct Clock {
    /// Seconds since the epoch.
    pub unix_timestamp: i64,
    /// The running number of the slot.
    pub slot: u64,
}

/// An operation's surroundings: the program under which locations are
/// derived, and the records and parties of the operation.
#[derive(Debug, PartialEq, Eq)]
pub struct Context<T> {
    /// The program that owns the ledger.
    pub program_id: Identity,
    /// The records and parties.
    pub accounts: T,
}

impl<T: Copy> Clone for Account<T> {
    fn clone(&self) -> (r: Self)
        ensures
            r == *self,
    {
        *self
    }
}

impl<T: Copy> Copy for Account<T> {

}

impl<T: Copy> Clone for Context<T> {
    fn clone(&self) -> (r: Self)
        ensures
            r == *self,
    {
        *self
    }
}

impl<T: Copy> Copy for Context<T> {

}

/// What setting up the registry works on.
#[derive(Clone, Copy, Debug, PartialEq, Eq)]
pub struct InitMaster {
    /// The place of the registry: empty, or the registry that stands there.
    pub master: Account<Option<Master>>,
    /// Who sets it up.
    pub payer: Signer,
}

/// What creating a lottery works on.
#[derive(Clone, Copy, Debug, PartialEq, Eq)]
pub struct CreateLottery {
    /// The place of the new lottery.
    pub lottery: Account<Lottery>,
    /// Who creates it.
    pub authority: Signer,
    /// The registry.
    pub master: Account<Master>,
}

/// What buying a ticket works on.
#[derive(Clone, Copy, Debug, PartialEq, Eq)]
pub struct BuyTicket {
    /// The lottery, whose balance is its escrow.
    pub lottery: Account<Lottery>,
    /// The place of the new ticket.
    pub ticket: Account<Ticket>,
    /// Who buys.
    pub buyer: Signer,
}

/// What drawing the winner works on.
#[derive(Clone, Copy, Debug, PartialEq, Eq)]
pub struct PickWinner {
    /// Who asks for the draw.
    pub authority: Signer,
    /// The lottery.
    pub lottery: Account<Lottery>,
    /// When the draw runs.
    pub clock: Clock,
}

/// What claiming the prize works on.
#[derive(Clone, Copy, Debug, PartialEq, Eq)]
pub struct ClaimPrize {
    /// Who claims.
    pub authority: Signer,
    /// The lottery, whose balance is its escrow.
    pub lottery: Account<Lottery>,
    /// The ticket shown.
    pub ticket: Account<Ticket>,
}

impl InitMaster {
    /// How setting up the registry ends, given the location derived for it.
    /// The checks run in this order, and the first that fails decides. The
    /// registry is set up once: where one stands already, the setup fails.
    pub open spec fn outcome(self, master_at: Option<Seq<u8>>) -> Result<(), Failure> {
        if master_at != Some(self.master.key@) {
            Err(Failure::AddressMismatch)
        } else if self.master.data is Some {
            Err(Failure::AlreadyInitialized)
        } else {
            Ok(())
        }
    }

    /// What a setup that goes through leaves: a registry, where none stood,
    /// that has numbered no lottery yet.
    pub open spec fn initialized(self) -> InitMaster {
        InitMaster { master: Account { data: Some(Master::fresh()), ..self.master }, ..self }
    }

    /// What a setup leaves, whether it goes through or not.
    pub open spec fn after(self, master_at: Option<Seq<u8>>) -> InitMaster {
        if self.outcome(master_at) is Ok {
            self.initialized()
        } else {
            self
        }
    }
}

impl CreateLottery {
    /// The id that the next lottery gets.
    pub open spec fn next_id(self) -> int {
        self.master.data.last_id + 1
    }

    /// How creating a lottery ends, given the locations derived for the new
    /// lottery and for the registry. The checks run in this order, and the
    /// first that fails decides.
    pub open spec fn outcome(self, lottery_at: Option<Seq<u8>>, master_at: Option<Seq<u8>>) -> Result<
        (),
        Failure,
    > {
        if self.next_id() > u32::MAX {
            Err(Failure::Overflow)
        } else if lottery_at != Some(self.lottery.key@) {
            Err(Failure::AddressMismatch)
        } else if master_at != Some(self.master.key@) {
            Err(Failure::AddressMismatch)
        } else {
            Ok(())
        }
    }

    /// What a creation that goes through leaves: the registry has counted one
    /// more, and the new lottery carries that number, its creator and its
    /// price, with no ticket sold, no winner and nothing paid.
    pub open spec fn created(self, ticket_price: u64) -> CreateLottery {
        CreateLottery {
            lottery: Account {
                data: Lottery::fresh(self.next_id() as u32, self.authority.key, ticket_price),
                ..self.lottery
            },
            authority: self.authority,
            master: Account { data: Master { last_id: self.next_id() as u32 }, ..self.master },
        }
    }

    /// What a creation leaves, whether it goes through or not.
    pub open spec fn after(
        self,
        ticket_price: u64,
        lottery_at: Option<Seq<u8>>,
        master_at: Option<Seq<u8>>,
    ) -> CreateLottery {
        if self.outcome(lottery_at, master_at) is Ok {
            self.created(ticket_price)
        } else {
            self
        }
    }
}

impl BuyTicket {
    /// The id that the next ticket of the lottery gets.
    pub open spec fn next_id(self) -> int {
        self.lottery.data.last_ticket_id + 1
    }

    /// How buying a ticket ends, given the locations derived for the lottery
    /// and for the new ticket. The checks run in this order, and the first
    /// that fails decides.
    pub open spec fn outcome(self, lottery_at: Option<Seq<u8>>, ticket_at: Option<Seq<u8>>) -> Result<
        (),
        Failure,
    > {
        if lottery_at != Some(self.lottery.key@) {
            Err(Failure::AddressMismatch)
        } else if self.next_id() > u32::MAX {
            Err(Failure::Overflow)
        } else if ticket_at != Some(self.ticket.key@) {
            Err(Failure::AddressMismatch)
        } else if self.lottery.data.winner_id is Some {
            Err(Failure::Lottery(LotteryError::WinnerAlreadyExists))
        } else if self.buyer.balance < self.lottery.data.ticket_price {
            Err(Failure::InsufficientFunds)
        } else if self.lottery.balance + self.lottery.data.ticket_price > u64::MAX {
            Err(Failure::Overflow)
        } else {
            Ok(())
        }
    }

    /// What a purchase that goes through leaves: the price has moved from the
    /// buyer to the lottery, the lottery has counted one more ticket, and the
    /// new ticket carries that number, its lottery's id and its buyer.
    pub open spec fn sold(self) -> BuyTicket {
        BuyTicket {
            lottery: Account {
                balance: (self.lottery.balance + self.lottery.data.ticket_price) as u64,
                data: Lottery { last_ticket_id: self.next_id() as u32, ..self.lottery.data },
                ..self.lottery
            },
            ticket: Account {
                data: Ticket {
                    id: self.next_id() as u32,
                    authority: self.buyer.key,
                    lottery_id: self.lottery.data.id,
                },
                ..self.ticket
            },
            buyer: Signer {
                balance: (self.buyer.balance - self.lottery.data.ticket_price) as u64,
                ..self.buyer
            },
        }
    }

    /// What a purchase leaves, whether it goes through or not.
    pub open spec fn after(self, lottery_at: Option<Seq<u8>>, ticket_at: Option<Seq<u8>>) -> BuyTicket {
        if self.outcome(lottery_at, ticket_at) is Ok {
            self.sold()
        } else {
            self
        }
    }
}

impl PickWinner {
    /// How drawing the winner ends, given the location derived for the
    /// lottery. The checks run in this order, and the first that fails
    /// decides.
    pub open spec fn outcome(self, lottery_at: Option<Seq<u8>>) -> Result<(), Failure> {
        if lottery_at != Some(self.lottery.key@) {
            Err(Failure::AddressMismatch)
        } else if self.lottery.data.authority != self.authority.key {
            Err(Failure::Unauthorized)
        } else if self.lottery.data.winner_id is Some {
            Err(Failure::Lottery(LotteryError::WinnerAlreadyExists))
        } else if self.lottery.data.last_ticket_id == 0 {
            Err(Failure::Lottery(LotteryError::NoTickets))
        } else {
            Ok(())
        }
    }

    /// What a draw that goes through leaves, given the digest of the time:
    /// the lottery names the ticket that the digest and the slot select.
    pub open spec fn drawn(self, digest: Seq<u8>) -> PickWinner {
        PickWinner {
            lottery: Account {
                data: Lottery {
                    winner_id: Some(
                        winning_ticket_of(
                            digest,
                            self.clock.slot,
                            self.lottery.data.last_ticket_id,
                        ) as u32,
                    ),
                    ..self.lottery.data
                },
                ..self.lottery
            },
            ..self
        }
    }

    /// What a draw leaves, whether it goes through or not.
    pub open spec fn after(self, lottery_at: Option<Seq<u8>>, digest: Seq<u8>) -> PickWinner {
        if self.outcome(lottery_at) is Ok {
            self.drawn(digest)
        } else {
            self
        }
    }
}

impl ClaimPrize {
    /// How a claim ends, given the locations derived for the lottery and for
    /// the ticket. The checks run in this order, and the first that fails
    /// decides.
    pub open spec fn outcome(self, lottery_at: Option<Seq<u8>>, ticket_at: Option<Seq<u8>>) -> Result<
        (),
        Failure,
    > {
        if lottery_at != Some(self.lottery.key@) {
            Err(Failure::AddressMismatch)
        } else if ticket_at != Some(self.ticket.key@) {
            Err(Failure::AddressMismatch)
        } else if self.ticket.data.authority != self.authority.key {
            Err(Failure::Unauthorized)
        } else if self.lottery.data.claimed {
            Err(Failure::Lottery(LotteryError::AlreadyClaimed))
        } else if self.lottery.data.winner_id is None {
            Err(Failure::Lottery(LotteryError::WinnerNotChosen))
        } else if self.lottery.data.winner_id != Some(self.ticket.data.id) {
            Err(Failure::Lottery(LotteryError::InvalidWinner))
        } else if self.lottery.data.pot() > u64::MAX {
            Err(Failure::Overflow)
        } else if self.lottery.balance < self.lottery.data.pot() {
            Err(Failure::InsufficientFunds)
        } else if self.authority.balance + self.lottery.data.pot() > u64::MAX {
            Err(Failure::Overflow)
        } else {
            Ok(())
        }
    }

    /// What a claim that goes through leaves: the pot has moved from the
    /// lottery to the claimant, and the lottery is marked as paid.
    pub open spec fn paid(self) -> ClaimPrize {
        ClaimPrize {
            authority: Signer {
                balance: (self.authority.balance + self.lottery.data.pot()) as u64,
                ..self.authority
            },
            lottery: Account {
                balance: (self.lottery.balance - self.lottery.data.pot()) as u64,
                data: Lottery { claimed: true, ..self.lottery.data },
                ..self.lottery
            },
            ticket: self.ticket,
        }
    }

    /// What a claim leaves, whether it goes through or not.
    pub open spec fn after(self, lottery_at: Option<Seq<u8>>, ticket_at: Option<Seq<u8>>) -> ClaimPrize {
        if self.outcome(lottery_at, ticket_at) is Ok {
            self.paid()
        } else {
            self
        }
    }
}

} // verus!
