//! The operations of the ledger.
//!
//! Each comes twice. The function that carries the operation's name derives
//! the locations of the records it was handed, and for a draw digests the
//! time, and goes on with what it found. The one whose name ends in `_at`
//! takes those findings as arguments and holds the rules: it checks, in a
//! fixed order, and either commits every change or fails and changes nothing.

use crate::accounts::{BuyTicket, ClaimPrize, Context, CreateLottery, InitMaster, PickWinner};
use crate::address::{
    lottery_address, lottery_location, master_address, master_location, stands_at, ticket_address,
    ticket_location, view_of,
};
use crate::error::{Failure, LotteryError};
use crate::identity::Identity;
use crate::selector::{be_bytes, sha256, time_digest, winning_ticket};
use crate::state::{Lottery, Master, Ticket};
use vstd::prelude::*;

verus! {

/// Sets up the registry, given the location derived for it.
///
/// The place is handed over as it is: empty, or with the registry that stands
/// there. Only an empty place is filled; a registry that stands is left as it
/// is, its counter included, and the setup fails.
pub fn init_master_at(accounts: &mut InitMaster, master_at: &Option<Identity>) -> (r: Result<
    (),
    Failure,
>)
    ensures
        r == old(accounts).outcome(view_of(*master_at)),
        *final(accounts) == old(accounts).after(view_of(*master_at)),
{
    if !stands_at(&accounts.master.key, master_at) {
        return Err(Failure::AddressMismatch);
    }
    if accounts.master.data.is_some() {
        return Err(Failure::AlreadyInitialized);
    }
    accounts.master.data = Some(Master { last_id: 0 });
    Ok(())
}

/// Sets up the registry, which has then numbered no lottery. This happens
/// once: a second setup fails with `AlreadyInitialized` and changes nothing.
pub fn init_master(ctx: &mut Context<InitMaster>) -> (r: Result<(), Failure>)
    ensures
        r == old(ctx).accounts.outcome(master_location(old(ctx).program_id@)),
        final(ctx).accounts == old(ctx).accounts.after(master_location(old(ctx).program_id@)),
        final(ctx).program_id == old(ctx).program_id,
{
    let master_at = master_address(&ctx.program_id);
    init_master_at(&mut ctx.accounts, &master_at)
}

/// Creates a lottery, given the locations derived for it and for the registry.
pub fn create_lottery_at(
    accounts: &mut CreateLottery,
    ticket_price: u64,
    lottery_at: &Option<Identity>,
    master_at: &Option<Identity>,
) -> (r: Result<(), Failure>)
    ensures
        r == old(accounts).outcome(view_of(*lottery_at), view_of(*master_at)),
        *final(accounts) == old(accounts).after(
            ticket_price,
            view_of(*lottery_at),
            view_of(*master_at),
        ),
        r is Ok ==> final(accounts).lottery.data.wf(),
{
    if accounts.master.data.last_id == u32::MAX {
        return Err(Failure::Overflow);
    }
    if !stands_at(&accounts.lottery.key, lottery_at) {
        return Err(Failure::AddressMismatch);
    }
    if !stands_at(&accounts.master.key, master_at) {
        return Err(Failure::AddressMismatch);
    }
    accounts.master.data.last_id += 1;
    accounts.lottery.data = Lottery {
        id: accounts.master.data.last_id,
        authority: accounts.authority.key,
        ticket_price,
        last_ticket_id: 0,
        winner_id: None,
        claimed: false,
    };
    Ok(())
}

/// Creates a lottery with the given ticket price: the registry counts one
/// more, and the caller becomes the authority of the lottery with that number.
pub fn create_lottery(ctx: &mut Context<CreateLottery>, ticket_price: u64) -> (r: Result<
    (),
    Failure,
>)
    ensures
        r == old(ctx).accounts.outcome(
            lottery_location(old(ctx).program_id@, old(ctx).accounts.next_id() as u32),
            master_location(old(ctx).program_id@),
        ),
        final(ctx).accounts == old(ctx).accounts.after(
            ticket_price,
            lottery_location(old(ctx).program_id@, old(ctx).accounts.next_id() as u32),
            master_location(old(ctx).program_id@),
        ),
        final(ctx).program_id == old(ctx).program_id,
        r is Ok ==> final(ctx).accounts.lottery.data.wf(),
{
    let lottery_at = match ctx.accounts.master.data.last_id.checked_add(1) {
        Some(id) => lottery_address(&ctx.program_id, id),
        None => None,
    };
    let master_at = master_address(&ctx.program_id);
    create_lottery_at(&mut ctx.accounts, ticket_price, &lottery_at, &master_at)
}

/// Sells a ticket, given the locations derived for the lottery and the ticket.
pub fn buy_ticket_at(
    accounts: &mut BuyTicket,
    lottery_at: &Option<Identity>,
    ticket_at: &Option<Identity>,
) -> (r: Result<(), Failure>)
    ensures
        r == old(accounts).outcome(view_of(*lottery_at), view_of(*ticket_at)),
        *final(accounts) == old(accounts).after(view_of(*lottery_at), view_of(*ticket_at)),
        old(accounts).lottery.data.wf() ==> final(accounts).lottery.data.wf(),
{
    if !stands_at(&accounts.lottery.key, lottery_at) {
        return Err(Failure::AddressMismatch);
    }
    if accounts.lottery.data.last_ticket_id == u32::MAX {
        return Err(Failure::Overflow);
    }
    if !stands_at(&accounts.ticket.key, ticket_at) {
        return Err(Failure::AddressMismatch);
    }
    if accounts.lottery.data.winner_id.is_some() {
        return Err(Failure::Lottery(LotteryError::WinnerAlreadyExists));
    }
    let price = accounts.lottery.data.ticket_price;
    if accounts.buyer.balance < price {
        return Err(Failure::InsufficientFunds);
    }
    if accounts.lottery.balance > u64::MAX - price {
        return Err(Failure::Overflow);
    }
    accounts.buyer.balance -= price;
    accounts.lottery.balance += price;
    accounts.lottery.data.last_ticket_id += 1;
    accounts.ticket.data = Ticket {
        id: accounts.lottery.data.last_ticket_id,
        authority: accounts.buyer.key,
        lottery_id: accounts.lottery.data.id,
    };
    Ok(())
}

/// Sells the next ticket of a lottery to the caller, who pays its price into
/// the lottery's escrow.
pub fn buy_ticket(ctx: &mut Context<BuyTicket>, lottery_id: u32) -> (r: Result<(), Failure>)
    ensures
        r == old(ctx).accounts.outcome(
            lottery_location(old(ctx).program_id@, lottery_id),
            ticket_location(
                old(ctx).program_id@,
                old(ctx).accounts.lottery.key@,
                old(ctx).accounts.next_id() as u32,
            ),
        ),
        final(ctx).accounts == old(ctx).accounts.after(
            lottery_location(old(ctx).program_id@, lottery_id),
            ticket_location(
                old(ctx).program_id@,
                old(ctx).accounts.lottery.key@,
                old(ctx).accounts.next_id() as u32,
            ),
        ),
        final(ctx).program_id == old(ctx).program_id,
        old(ctx).accounts.lottery.data.wf() ==> final(ctx).accounts.lottery.data.wf(),
{
    let lottery_at = lottery_address(&ctx.program_id, lottery_id);
    let ticket_at = match ctx.accounts.lottery.data.last_ticket_id.checked_add(1) {
        Some(id) => ticket_address(&ctx.program_id, &ctx.accounts.lottery.key, id),
        None => None,
    };
    buy_ticket_at(&mut ctx.accounts, &lottery_at, &ticket_at)
}

/// Draws the winner, given the location derived for the lottery and the
/// digest of the time.
pub fn pick_winner_at(
    accounts: &mut PickWinner,
    lottery_at: &Option<Identity>,
    digest: &[u8; 32],
) -> (r: Result<(), Failure>)
    ensures
        r == old(accounts).outcome(view_of(*lottery_at)),
        *final(accounts) == old(accounts).after(view_of(*lottery_at), digest@),
        old(accounts).lottery.data.wf() ==> final(accounts).lottery.data.wf(),
{
    if !stands_at(&accounts.lottery.key, lottery_at) {
        return Err(Failure::AddressMismatch);
    }
    if accounts.lottery.data.authority != accounts.authority.key {
        return Err(Failure::Unauthorized);
    }
    if accounts.lottery.data.winner_id.is_some() {
        return Err(Failure::Lottery(LotteryError::WinnerAlreadyExists));
    }
    if accounts.lottery.data.last_ticket_id == 0 {
        return Err(Failure::Lottery(LotteryError::NoTickets));
    }
    let winner_id = winning_ticket(digest, accounts.clock.slot, accounts.lottery.data.last_ticket_id);
    accounts.lottery.data.winner_id = Some(winner_id);
    Ok(())
}

/// Draws the winner of a lottery from the time and the slot of the draw.
/// Only the lottery's authority may ask, once, and only when a ticket is sold.
pub fn pick_winner(ctx: &mut Context<PickWinner>, lottery_id: u32) -> (r: Result<(), Failure>)
    ensures
        r == old(ctx).accounts.outcome(lottery_location(old(ctx).program_id@, lottery_id)),
        final(ctx).accounts == old(ctx).accounts.after(
            lottery_location(old(ctx).program_id@, lottery_id),
            sha256(be_bytes(old(ctx).accounts.clock.unix_timestamp)),
        ),
        final(ctx).program_id == old(ctx).program_id,
        old(ctx).accounts.lottery.data.wf() ==> final(ctx).accounts.lottery.data.wf(),
{
    let lottery_at = lottery_address(&ctx.program_id, lottery_id);
    let digest = time_digest(ctx.accounts.clock.unix_timestamp);
    pick_winner_at(&mut ctx.accounts, &lottery_at, &digest)
}

/// Pays the prize, given the locations derived for the lottery and the ticket.
pub fn claim_prize_at(
    accounts: &mut ClaimPrize,
    lottery_at: &Option<Identity>,
    ticket_at: &Option<Identity>,
) -> (r: Result<(), Failure>)
    ensures
        r == old(accounts).outcome(view_of(*lottery_at), view_of(*ticket_at)),
        *final(accounts) == old(accounts).after(view_of(*lottery_at), view_of(*ticket_at)),
        old(accounts).lottery.data.wf() ==> final(accounts).lottery.data.wf(),
{
    if !stands_at(&accounts.lottery.key, lottery_at) {
        return Err(Failure::AddressMismatch);
    }
    if !stands_at(&accounts.ticket.key, ticket_at) {
        return Err(Failure::AddressMismatch);
    }
    if accounts.ticket.data.authority != accounts.authority.key {
        return Err(Failure::Unauthorized);
    }
    if accounts.lottery.data.claimed {
        return Err(Failure::Lottery(LotteryError::AlreadyClaimed));
    }
    match accounts.lottery.data.winner_id {
        Some(winner_id) => {
            if winner_id != accounts.ticket.data.id {
                return Err(Failure::Lottery(LotteryError::InvalidWinner));
            }
        },
        None => {
            return Err(Failure::Lottery(LotteryError::WinnerNotChosen));
        },
    }
    let prize = match accounts.lottery.data.ticket_price.checked_mul(
        accounts.lottery.data.last_ticket_id as u64,
    ) {
        Some(prize) => prize,
        None => {
            return Err(Failure::Overflow);
        },
    };
    if accounts.lottery.balance < prize {
        return Err(Failure::InsufficientFunds);
    }
    if accounts.authority.balance > u64::MAX - prize {
        return Err(Failure::Overflow);
    }
    accounts.lottery.balance -= prize;
    accounts.authority.balance += prize;
    accounts.lottery.data.claimed = true;
    Ok(())
}

/// Pays the prize of a lottery, all that its tickets brought in, to the
/// caller, who shows the winning ticket. A lottery pays once.
pub fn claim_prize(ctx: &mut Context<ClaimPrize>, lottery_id: u32, ticket_id: u32) -> (r: Result<
    (),
    Failure,
>)
    ensures
        r == old(ctx).accounts.outcome(
            lottery_location(old(ctx).program_id@, lottery_id),
            ticket_location(old(ctx).program_id@, old(ctx).accounts.lottery.key@, ticket_id),
        ),
        final(ctx).accounts == old(ctx).accounts.after(
            lottery_location(old(ctx).program_id@, lottery_id),
            ticket_location(old(ctx).program_id@, old(ctx).accounts.lottery.key@, ticket_id),
        ),
        final(ctx).program_id == old(ctx).program_id,
        old(ctx).accounts.lottery.data.wf() ==> final(ctx).accounts.lottery.data.wf(),
{
    let lottery_at = lottery_address(&ctx.program_id, lottery_id);
    let ticket_at = ticket_address(&ctx.program_id, &ctx.accounts.lottery.key, ticket_id);
    claim_prize_at(&mut ctx.accounts, &lottery_at, &ticket_at)
}

} // verus!
