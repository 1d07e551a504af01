//! What holds of the ledger over whole runs of operations.
//!
//! The operations say what one call does. The statements here follow a
//! registry, a lottery and its escrow through many calls, in the terms in
//! which the operations themselves are specified.

use crate::accounts::{
    Account, BuyTicket, ClaimPrize, Clock, CreateLottery, InitMaster, PickWinner, Signer,
};
use crate::error::{Failure, LotteryError};
use crate::selector::{be_bytes, sha256, winner_at};
use crate::state::{Lottery, Master, Ticket};
use vstd::prelude::*;

verus! {

/// One call that creates a lottery: what it was handed, the price asked for,
/// and the locations derived for the new lottery and the registry.
pub struct Creation {
    /// What the call was handed.
    pub before: CreateLottery,
    /// The price asked for a ticket.
    pub ticket_price: u64,
    /// The location derived for the new lottery.
    pub lottery_at: Option<Seq<u8>>,
    /// The location derived for the registry.
    pub master_at: Option<Seq<u8>>,
}

impl Creation {
    /// Whether the call went through.
    pub open spec fn succeeded(self) -> bool {
        self.before.outcome(self.lottery_at, self.master_at) is Ok
    }

    /// What the call left.
    pub open spec fn after(self) -> CreateLottery {
        self.before.after(self.ticket_price, self.lottery_at, self.master_at)
    }
}

/// A run of creations on one registry: every call went through, the first
/// found the registry as a setup leaves it, and each later one found it as
/// the call before had left it.
pub open spec fn creations_in_a_row(calls: Seq<Creation>) -> bool {
    &&& forall|i: int| 0 <= i < calls.len() ==> (#[trigger] calls[i]).succeeded()
    &&& calls.len() > 0 ==> calls[0].before.master.data == Master::fresh()
    &&& forall|i: int|
        0 < i < calls.len() ==> (#[trigger] calls[i]).before.master.data == calls[i
            - 1].after().master.data
}

/// In a run of creations the registry has counted, before the call at
/// position `i`, exactly the `i` calls before it.
proof fn registry_counts_creations(calls: Seq<Creation>, i: int)
    requires
        creations_in_a_row(calls),
        0 <= i < calls.len(),
    ensures
        calls[i].before.master.data.last_id == i,
    decreases i,
{
    if i > 0 {
        registry_counts_creations(calls, i - 1);
        assert(calls[i - 1].succeeded());
        assert(calls[i].before.master.data == calls[i - 1].after().master.data);
    }
}

/// Lottery ids are handed out in order and without gaps: in a run of creations
/// on a registry, the call at position `i` (from 0) creates the lottery with
/// id `i + 1` and leaves the registry's counter at `i + 1`. So `n` calls yield
/// the ids 1 to `n`, each once, and a counter of `n`.
pub proof fn lottery_ids_are_sequential(calls: Seq<Creation>)
    requires
        creations_in_a_row(calls),
    ensures
        forall|i: int|
            0 <= i < calls.len() ==> (#[trigger] calls[i]).after().lottery.data.id == i + 1,
        forall|i: int|
            0 <= i < calls.len() ==> (#[trigger] calls[i]).after().master.data.last_id == i + 1,
        forall|i: int, j: int|
            0 <= i < j < calls.len() ==> (#[trigger] calls[i]).after().lottery.data.id != (
            #[trigger] calls[j]).after().lottery.data.id,
        calls.len() > 0 ==> calls.last().after().master.data.last_id == calls.len(),
{
    assert forall|i: int| 0 <= i < calls.len() implies (#[trigger] calls[i]).after().lottery.data.id
        == i + 1 && calls[i].after().master.data.last_id == i + 1 by {
        registry_counts_creations(calls, i);
        assert(calls[i].succeeded());
    }
}

/// One call that buys a ticket: what it was handed, and the locations derived
/// for the lottery and the new ticket.
pub struct Purchase {
    /// What the call was handed.
    pub before: BuyTicket,
    /// The location derived for the lottery.
    pub lottery_at: Option<Seq<u8>>,
    /// The location derived for the new ticket.
    pub ticket_at: Option<Seq<u8>>,
}

impl Purchase {
    /// Whether the call went through.
    pub open spec fn succeeded(self) -> bool {
        self.before.outcome(self.lottery_at, self.ticket_at) is Ok
    }

    /// What the call left.
    pub open spec fn after(self) -> BuyTicket {
        self.before.after(self.lottery_at, self.ticket_at)
    }
}

/// A run of purchases on one lottery: every call went through, the first
/// found the lottery with no ticket sold, and each later one found the
/// lottery and its escrow as the call before had left them.
pub open spec fn purchases_in_a_row(calls: Seq<Purchase>) -> bool {
    &&& forall|i: int| 0 <= i < calls.len() ==> (#[trigger] calls[i]).succeeded()
    &&& calls.len() > 0 ==> calls[0].before.lottery.data.last_ticket_id == 0
    &&& forall|i: int|
        0 < i < calls.len() ==> (#[trigger] calls[i]).before.lottery == calls[i - 1].after().lottery
}

/// In a run of purchases the lottery has, before the call at position `i`,
/// sold `i` tickets and taken in `i` times the price it started with.
proof fn lottery_counts_purchases(calls: Seq<Purchase>, i: int)
    requires
        purchases_in_a_row(calls),
        0 <= i < calls.len(),
    ensures
        calls[i].before.lottery.data.last_ticket_id == i,
        calls[i].before.lottery.data.ticket_price == calls[0].before.lottery.data.ticket_price,
        calls[i].before.lottery.balance == calls[0].before.lottery.balance + i
            * calls[0].before.lottery.data.ticket_price,
    decreases i,
{
    if i > 0 {
        lottery_counts_purchases(calls, i - 1);
        assert(calls[i - 1].succeeded());
        assert(calls[i].before.lottery == calls[i - 1].after().lottery);
        let price = calls[0].before.lottery.data.ticket_price as int;
        assert((i - 1) * price + price == i * price) by (nonlinear_arith);
    }
}

/// Ticket ids are handed out in order and every ticket is paid for in full:
/// in a run of purchases on a lottery, the call at position `i` (from 0)
/// creates the ticket with id `i + 1`, leaves the lottery's count at `i + 1`,
/// and leaves in its escrow `i + 1` times the price on top of what it held at
/// the start. So `k` purchases yield the ids 1 to `k`, each once, a count of
/// `k` and `k` times the price in escrow.
pub proof fn ticket_ids_are_sequential_and_paid(calls: Seq<Purchase>)
    requires
        purchases_in_a_row(calls),
    ensures
        forall|i: int|
            0 <= i < calls.len() ==> (#[trigger] calls[i]).after().ticket.data.id == i + 1,
        forall|i: int|
            0 <= i < calls.len() ==> (#[trigger] calls[i]).after().lottery.data.last_ticket_id == i
                + 1,
        forall|i: int|
            0 <= i < calls.len() ==> (#[trigger] calls[i]).after().lottery.balance
                == calls[0].before.lottery.balance + (i + 1)
                * calls[0].before.lottery.data.ticket_price,
        forall|i: int, j: int|
            0 <= i < j < calls.len() ==> (#[trigger] calls[i]).after().ticket.data.id != (
            #[trigger] calls[j]).after().ticket.data.id,
        calls.len() > 0 ==> calls.last().after().lottery.data.last_ticket_id == calls.len(),
        calls.len() > 0 ==> calls.last().after().lottery.balance == calls[0].before.lottery.balance
            + calls.len() * calls[0].before.lottery.data.ticket_price,
{
    let price = calls[0].before.lottery.data.ticket_price as int;
    assert forall|i: int| 0 <= i < calls.len() implies {
        &&& (#[trigger] calls[i]).after().ticket.data.id == i + 1
        &&& calls[i].after().lottery.data.last_ticket_id == i + 1
        &&& calls[i].after().lottery.balance == calls[0].before.lottery.balance + (i + 1) * price
    } by {
        lottery_counts_purchases(calls, i);
        assert(calls[i].succeeded());
        assert(i * price + price == (i + 1) * price) by (nonlinear_arith);
    }
}

/// The winner depends on the time, the slot and the number of tickets sold,
/// and on nothing else: two draws that go through at the same time and slot,
/// on lotteries that have sold equally many tickets, name the same ticket,
/// whatever else differs between them. The ticket named is one of those sold.
pub proof fn winner_depends_on_time_slot_and_count(
    a: PickWinner,
    a_at: Option<Seq<u8>>,
    b: PickWinner,
    b_at: Option<Seq<u8>>,
)
    requires
        a.outcome(a_at) is Ok,
        b.outcome(b_at) is Ok,
        a.clock == b.clock,
        a.lottery.data.last_ticket_id == b.lottery.data.last_ticket_id,
    ensures
        a.after(a_at, sha256(be_bytes(a.clock.unix_timestamp))).lottery.data.winner_id == b.after(
            b_at,
            sha256(be_bytes(b.clock.unix_timestamp)),
        ).lottery.data.winner_id,
        a.after(a_at, sha256(be_bytes(a.clock.unix_timestamp))).lottery.data.winner_id == Some(
            winner_at(a.clock.unix_timestamp, a.clock.slot, a.lottery.data.last_ticket_id) as u32,
        ),
        1 <= winner_at(a.clock.unix_timestamp, a.clock.slot, a.lottery.data.last_ticket_id)
            <= a.lottery.data.last_ticket_id,
{
    winner_is_a_ticket_sold(
        sha256(be_bytes(a.clock.unix_timestamp)),
        a.clock.slot,
        a.lottery.data.last_ticket_id,
    );
}

/// Whatever the digest and the slot, the ticket selected is one of those sold.
pub proof fn winner_is_a_ticket_sold(digest: Seq<u8>, slot: u64, count: u32)
    requires
        count > 0,
    ensures
        1 <= crate::selector::winning_ticket_of(digest, slot, count) <= count,
{
    let p = (crate::selector::le_u64(digest) * slot) % 0x1_0000_0000;
    assert(0 <= p % (count as int) < count) by (nonlinear_arith)
        requires
            count > 0,
    ;
}

/// A lottery is drawn once: after a draw that went through, a second draw on
/// the same lottery, by the same caller, at whatever time and slot, fails with
/// `WinnerAlreadyExists` and leaves the lottery, its winner included, as it was.
pub proof fn second_draw_is_refused(
    first: PickWinner,
    lottery_at: Option<Seq<u8>>,
    digest: Seq<u8>,
    later: Clock,
    later_digest: Seq<u8>,
)
    requires
        first.outcome(lottery_at) is Ok,
    ensures
        ({
            let second = PickWinner { clock: later, ..first.after(lottery_at, digest) };
            &&& second.outcome(lottery_at) == Err::<(), Failure>(
                Failure::Lottery(LotteryError::WinnerAlreadyExists),
            )
            &&& second.after(lottery_at, later_digest) == second
            &&& second.lottery.data.winner_id == first.after(lottery_at, digest).lottery.data.winner_id
            &&& second.lottery.data.winner_id is Some
        }),
{
}

/// A ticket that did not win is paid nothing: a claim on a lottery whose
/// winner is drawn, with a ticket of another id, fails and leaves everything,
/// the escrow and the mark of payment included, as it was. Where the records
/// were handed over at their locations, the caller holds the ticket and the
/// prize is not yet paid, the failure is `InvalidWinner`.
pub proof fn losing_ticket_is_refused(
    claim: ClaimPrize,
    lottery_at: Option<Seq<u8>>,
    ticket_at: Option<Seq<u8>>,
)
    requires
        claim.lottery.data.winner_id is Some,
        claim.lottery.data.winner_id != Some(claim.ticket.data.id),
    ensures
        claim.outcome(lottery_at, ticket_at) is Err,
        claim.after(lottery_at, ticket_at) == claim,
        claim.after(lottery_at, ticket_at).lottery.balance == claim.lottery.balance,
        claim.after(lottery_at, ticket_at).lottery.data.claimed == claim.lottery.data.claimed,
        lottery_at == Some(claim.lottery.key@) && ticket_at == Some(claim.ticket.key@)
            && claim.ticket.data.authority == claim.authority.key && !claim.lottery.data.claimed
            ==> claim.outcome(lottery_at, ticket_at) == Err::<(), Failure>(
            Failure::Lottery(LotteryError::InvalidWinner),
        ),
{
}

/// Nothing is paid before the draw: a claim on a lottery whose winner is not
/// drawn fails and leaves everything as it was. Where the records were handed
/// over at their locations and the caller holds the ticket, the failure is
/// `WinnerNotChosen`.
pub proof fn claim_before_draw_is_refused(
    claim: ClaimPrize,
    lottery_at: Option<Seq<u8>>,
    ticket_at: Option<Seq<u8>>,
)
    requires
        claim.lottery.data.wf(),
        claim.lottery.data.winner_id is None,
    ensures
        claim.outcome(lottery_at, ticket_at) is Err,
        claim.after(lottery_at, ticket_at) == claim,
        lottery_at == Some(claim.lottery.key@) && ticket_at == Some(claim.ticket.key@)
            && claim.ticket.data.authority == claim.authority.key ==> claim.outcome(
            lottery_at,
            ticket_at,
        ) == Err::<(), Failure>(Failure::Lottery(LotteryError::WinnerNotChosen)),
{
}

/// A lottery pays once: after a claim that went through, a second claim on
/// the same lottery, by whatever caller and with whatever ticket, fails and
/// leaves everything as it was. Where the records were handed over at their
/// locations and the caller holds the ticket shown, the failure is
/// `AlreadyClaimed`.
pub proof fn second_claim_is_refused(
    first: ClaimPrize,
    lottery_at: Option<Seq<u8>>,
    ticket_at: Option<Seq<u8>>,
    later_caller: Signer,
    later_ticket: Account<Ticket>,
    later_ticket_at: Option<Seq<u8>>,
)
    requires
        first.outcome(lottery_at, ticket_at) is Ok,
    ensures
        ({
            let second = ClaimPrize {
                authority: later_caller,
                lottery: first.after(lottery_at, ticket_at).lottery,
                ticket: later_ticket,
            };
            &&& second.outcome(lottery_at, later_ticket_at) is Err
            &&& second.after(lottery_at, later_ticket_at) == second
            &&& later_ticket_at == Some(later_ticket.key@) && later_ticket.data.authority
                == later_caller.key ==> second.outcome(lottery_at, later_ticket_at) == Err::<
                (),
                Failure,
            >(Failure::Lottery(LotteryError::AlreadyClaimed))
        }),
{
}

/// The prize is the pot, and it is neither made nor lost: a claim that goes
/// through adds to the claimant's balance exactly the ticket price times the
/// number of tickets sold, and takes exactly that from the lottery's escrow.
pub proof fn claim_conserves_funds(
    claim: ClaimPrize,
    lottery_at: Option<Seq<u8>>,
    ticket_at: Option<Seq<u8>>,
)
    requires
        claim.outcome(lottery_at, ticket_at) is Ok,
    ensures
        ({
            let paid = claim.after(lottery_at, ticket_at);
            let prize = claim.lottery.data.ticket_price * claim.lottery.data.last_ticket_id;
            &&& paid.authority.balance == claim.authority.balance + prize
            &&& paid.lottery.balance == claim.lottery.balance - prize
            &&& paid.authority.balance + paid.lottery.balance == claim.authority.balance
                + claim.lottery.balance
            &&& paid.lottery.data.claimed
            &&& paid.lottery.data.owed() == 0
        }),
{
}

/// A purchase moves exactly the ticket price from the buyer into the
/// lottery's escrow.
pub proof fn purchase_conserves_funds(
    purchase: BuyTicket,
    lottery_at: Option<Seq<u8>>,
    ticket_at: Option<Seq<u8>>,
)
    requires
        purchase.outcome(lottery_at, ticket_at) is Ok,
    ensures
        ({
            let sold = purchase.after(lottery_at, ticket_at);
            let price = purchase.lottery.data.ticket_price;
            &&& sold.buyer.balance == purchase.buyer.balance - price
            &&& sold.lottery.balance == purchase.lottery.balance + price
            &&& sold.buyer.balance + sold.lottery.balance == purchase.buyer.balance
                + purchase.lottery.balance
        }),
{
}

impl Account<Lottery> {
    /// What the lottery's location holds beyond what the lottery owes its
    /// winner: the deposit that it was opened with.
    pub open spec fn deposit(self) -> int {
        self.balance - self.data.owed()
    }
}

/// The escrow follows the pot: a lottery's balance is what it was opened
/// with plus the price of every ticket sold, until the prize is paid, and what
/// it was opened with after. No purchase, draw or claim, whether it goes
/// through or not, changes the difference between the balance and what the
/// lottery owes.
pub proof fn escrow_follows_the_pot(
    purchase: BuyTicket,
    draw: PickWinner,
    claim: ClaimPrize,
    lottery_at: Option<Seq<u8>>,
    ticket_at: Option<Seq<u8>>,
    digest: Seq<u8>,
)
    ensures
        purchase.lottery.data.wf() ==> purchase.after(lottery_at, ticket_at).lottery.deposit()
            == purchase.lottery.deposit(),
        draw.after(lottery_at, digest).lottery.deposit() == draw.lottery.deposit(),
        claim.after(lottery_at, ticket_at).lottery.deposit() == claim.lottery.deposit(),
{
    if purchase.outcome(lottery_at, ticket_at) is Ok {
        let price = purchase.lottery.data.ticket_price as int;
        let count = purchase.lottery.data.last_ticket_id as int;
        assert(price * (count + 1) == price * count + price) by (nonlinear_arith);
    }
}

/// An operation that fails changes nothing: whatever the failure, every
/// record and every balance that the operation was handed is left as it was.
pub proof fn failure_changes_nothing(
    setup: InitMaster,
    creation: CreateLottery,
    ticket_price: u64,
    purchase: BuyTicket,
    draw: PickWinner,
    claim: ClaimPrize,
    first_at: Option<Seq<u8>>,
    second_at: Option<Seq<u8>>,
    digest: Seq<u8>,
)
    ensures
        setup.outcome(first_at) is Err ==> setup.after(first_at) == setup,
        creation.outcome(first_at, second_at) is Err ==> creation.after(
            ticket_price,
            first_at,
            second_at,
        ) == creation,
        purchase.outcome(first_at, second_at) is Err ==> purchase.after(first_at, second_at)
            == purchase,
        draw.outcome(first_at) is Err ==> draw.after(first_at, digest) == draw,
        claim.outcome(first_at, second_at) is Err ==> claim.after(first_at, second_at) == claim,
{
}

/// The registry is set up once: after a setup that went through, a second
/// setup of the same place, by whatever caller, fails with
/// `AlreadyInitialized` and leaves the registry as it was. The same holds of a
/// registry that has since numbered lotteries: it is never set back.
pub proof fn second_setup_is_refused(
    first: InitMaster,
    master_at: Option<Seq<u8>>,
    later_caller: Signer,
    counted: Master,
)
    requires
        first.outcome(master_at) is Ok,
    ensures
        first.after(master_at).master.data == Some(Master::fresh()),
        ({
            let second = InitMaster { payer: later_caller, ..first.after(master_at) };
            &&& second.outcome(master_at) == Err::<(), Failure>(Failure::AlreadyInitialized)
            &&& second.after(master_at) == second
        }),
        ({
            let later = InitMaster {
                master: Account { data: Some(counted), ..first.master },
                payer: later_caller,
            };
            &&& later.outcome(master_at) == Err::<(), Failure>(Failure::AlreadyInitialized)
            &&& later.after(master_at) == later
            &&& later.after(master_at).master.data == Some(counted)
        }),
{
}

/// Records only move forward. Whether an operation goes through or not: a
/// registry that stands is left by a setup as it is, and its counter never
/// falls; a lottery keeps its id, its authority and its price, its count of
/// tickets never falls, its winner, once drawn, stays, and once paid it stays
/// paid; a ticket shown in a claim is left untouched.
pub proof fn records_only_move_forward(
    setup: InitMaster,
    creation: CreateLottery,
    ticket_price: u64,
    purchase: BuyTicket,
    draw: PickWinner,
    claim: ClaimPrize,
    first_at: Option<Seq<u8>>,
    second_at: Option<Seq<u8>>,
    digest: Seq<u8>,
)
    ensures
        setup.master.data is Some ==> setup.after(first_at).master.data == setup.master.data,
        setup.after(first_at).master.data is Some ==> registry_moved_forward(
            setup.master.data,
            setup.after(first_at).master.data->0,
        ),
        creation.after(ticket_price, first_at, second_at).master.data.last_id
            >= creation.master.data.last_id,
        lottery_moved_forward(purchase.lottery.data, purchase.after(first_at, second_at).lottery.data),
        lottery_moved_forward(draw.lottery.data, draw.after(first_at, digest).lottery.data),
        lottery_moved_forward(claim.lottery.data, claim.after(first_at, second_at).lottery.data),
        claim.after(first_at, second_at).ticket == claim.ticket,
{
}

/// What may change in the registry's place from one moment to a later one:
/// an empty place may come to hold any registry, and a registry's counter may
/// rise.
pub open spec fn registry_moved_forward(earlier: Option<Master>, later: Master) -> bool {
    earlier matches Some(m) ==> later.last_id >= m.last_id
}

/// What may change in a lottery from one moment to a later one.
pub open spec fn lottery_moved_forward(earlier: Lottery, later: Lottery) -> bool {
    &&& later.id == earlier.id
    &&& later.authority == earlier.authority
    &&& later.ticket_price == earlier.ticket_price
    &&& later.last_ticket_id >= earlier.last_ticket_id
    &&& earlier.winner_id is Some ==> later.winner_id == earlier.winner_id
    &&& earlier.claimed ==> later.claimed
}

} // verus!
