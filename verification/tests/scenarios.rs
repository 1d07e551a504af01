use lottery::accounts::{
    Account, BuyTicket, ClaimPrize, Clock, Context, CreateLottery, InitMaster, PickWinner, Signer,
};
use lottery::address::{lottery_address, master_address, ticket_address};
use lottery::error::{Failure, LotteryError};
use lottery::identity::Identity;
use lottery::state::{Lottery, Master, Ticket};
use lottery::{buy_ticket, claim_prize, create_lottery, init_master, pick_winner};

const DEPOSIT: u64 = 2_000;

fn program() -> Identity {
    Identity::new([42u8; 32])
}

fn party(n: u8, balance: u64) -> Signer {
    Signer { key: Identity::new([n; 32]), balance }
}

fn empty_master() -> Account<Option<Master>> {
    Account { key: master_address(&program()).unwrap(), balance: DEPOSIT, data: None }
}

fn empty_lottery(id: u32) -> Account<Lottery> {
    Account {
        key: lottery_address(&program(), id).unwrap(),
        balance: DEPOSIT,
        data: Lottery {
            id: 0,
            authority: Identity::new([0; 32]),
            ticket_price: 0,
            last_ticket_id: 0,
            winner_id: None,
            claimed: false,
        },
    }
}

fn empty_ticket(lottery: &Identity, id: u32) -> Account<Ticket> {
    Account {
        key: ticket_address(&program(), lottery, id).unwrap(),
        balance: DEPOSIT,
        data: Ticket { id: 0, authority: Identity::new([0; 32]), lottery_id: 0 },
    }
}

fn ctx<T>(accounts: T) -> Context<T> {
    Context { program_id: program(), accounts }
}

fn set_up() -> Account<Master> {
    let mut c = ctx(InitMaster { master: empty_master(), payer: party(1, 0) });
    assert_eq!(init_master(&mut c), Ok(()));
    let place = c.accounts.master;
    Account { key: place.key, balance: place.balance, data: place.data.unwrap() }
}

fn set_up_again(master: &Account<Master>, who: &Signer) -> (Result<(), Failure>, Option<Master>) {
    let place = Account { key: master.key, balance: master.balance, data: Some(master.data) };
    let mut c = ctx(InitMaster { master: place, payer: *who });
    let r = init_master(&mut c);
    (r, c.accounts.master.data)
}

fn create(master: &mut Account<Master>, creator: &Signer, price: u64) -> Account<Lottery> {
    let mut c = ctx(CreateLottery {
        lottery: empty_lottery(master.data.last_id + 1),
        authority: *creator,
        master: *master,
    });
    assert_eq!(create_lottery(&mut c, price), Ok(()));
    *master = c.accounts.master;
    c.accounts.lottery
}

fn buy(lottery: &mut Account<Lottery>, buyer: &mut Signer) -> Result<Account<Ticket>, Failure> {
    let mut c = ctx(BuyTicket {
        lottery: *lottery,
        ticket: empty_ticket(&lottery.key, lottery.data.last_ticket_id.wrapping_add(1)),
        buyer: *buyer,
    });
    buy_ticket(&mut c, lottery.data.id)?;
    *lottery = c.accounts.lottery;
    *buyer = c.accounts.buyer;
    Ok(c.accounts.ticket)
}

fn draw(lottery: &mut Account<Lottery>, who: &Signer, time: i64, slot: u64) -> Result<(), Failure> {
    let mut c = ctx(PickWinner {
        authority: *who,
        lottery: *lottery,
        clock: Clock { unix_timestamp: time, slot },
    });
    let r = pick_winner(&mut c, lottery.data.id);
    *lottery = c.accounts.lottery;
    r
}

fn claim(
    lottery: &mut Account<Lottery>,
    ticket: &Account<Ticket>,
    who: &mut Signer,
) -> Result<(), Failure> {
    let mut c = ctx(ClaimPrize { authority: *who, lottery: *lottery, ticket: *ticket });
    let r = claim_prize(&mut c, lottery.data.id, ticket.data.id);
    *lottery = c.accounts.lottery;
    *who = c.accounts.authority;
    r
}

#[test]
fn three_tickets_one_winner_one_payout() {
    let mut master = set_up();
    assert_eq!(master.data.last_id, 0);
    let creator = party(1, 0);
    let mut lottery = create(&mut master, &creator, 100);
    assert_eq!(lottery.data.id, 1);

    let mut buyers = [party(11, 1_000), party(12, 1_000), party(13, 1_000)];
    let mut tickets = Vec::new();
    for buyer in buyers.iter_mut() {
        tickets.push(buy(&mut lottery, buyer).unwrap());
    }
    assert_eq!(lottery.data.last_ticket_id, 3);
    assert_eq!(lottery.balance, DEPOSIT + 300);
    assert_eq!(tickets.iter().map(|t| t.data.id).collect::<Vec<u32>>(), vec![1, 2, 3]);
    for (ticket, buyer) in tickets.iter().zip(buyers.iter()) {
        assert_eq!(ticket.data.authority, buyer.key);
        assert_eq!(ticket.data.lottery_id, 1);
        assert_eq!(buyer.balance, 900);
    }

    assert_eq!(draw(&mut lottery, &creator, 1000, 5), Ok(()));
    let w = lottery.data.winner_id.unwrap();
    assert!((1..=3).contains(&w));
    assert_eq!(w, 3);
    assert_eq!(lottery.balance, DEPOSIT + 300);

    let index = (w - 1) as usize;
    let mut winner = buyers[index];
    assert_eq!(claim(&mut lottery, &tickets[index], &mut winner), Ok(()));
    assert_eq!(winner.balance, 900 + 300);
    assert_eq!(lottery.balance, DEPOSIT);
    assert!(lottery.data.claimed);

    for (ticket, buyer) in tickets.iter().zip(buyers.iter_mut()) {
        let before = (lottery, *buyer);
        assert_eq!(
            claim(&mut lottery, ticket, buyer),
            Err(Failure::Lottery(LotteryError::AlreadyClaimed))
        );
        assert_eq!((lottery, *buyer), before);
    }
}

#[test]
fn draw_on_a_lottery_without_tickets_fails() {
    let mut master = set_up();
    let creator = party(1, 0);
    let mut lottery = create(&mut master, &creator, 100);
    let before = lottery;
    assert_eq!(
        draw(&mut lottery, &creator, 1000, 5),
        Err(Failure::Lottery(LotteryError::NoTickets))
    );
    assert_eq!(lottery, before);
    assert_eq!(lottery.data.winner_id, None);
}

#[test]
fn purchase_after_the_draw_fails() {
    let mut master = set_up();
    let creator = party(1, 0);
    let mut lottery = create(&mut master, &creator, 100);
    let mut early = party(11, 1_000);
    buy(&mut lottery, &mut early).unwrap();
    assert_eq!(draw(&mut lottery, &creator, 1000, 5), Ok(()));
    assert_eq!(lottery.data.winner_id, Some(1));

    let mut late = party(12, 1_000);
    let before = lottery;
    assert_eq!(
        buy(&mut lottery, &mut late),
        Err(Failure::Lottery(LotteryError::WinnerAlreadyExists))
    );
    assert_eq!(lottery, before);
    assert_eq!(late.balance, 1_000);
    assert!(!lottery.data.claimed);
}

#[test]
fn lottery_ids_run_from_one_without_gaps() {
    let mut master = set_up();
    let mut ids = Vec::new();
    for n in 1u32..=25 {
        let creator = party(n as u8, 0);
        let lottery = create(&mut master, &creator, n as u64 * 10);
        assert_eq!(lottery.data.authority, creator.key);
        assert_eq!(lottery.data.ticket_price, n as u64 * 10);
        assert_eq!(master.data.last_id, n);
        ids.push(lottery.data.id);
    }
    assert_eq!(ids, (1u32..=25).collect::<Vec<u32>>());
    assert_eq!(master.data.last_id, 25);
}

#[test]
fn ticket_ids_run_from_one_and_the_escrow_holds_every_price() {
    let mut master = set_up();
    let creator = party(1, 0);
    let mut lottery = create(&mut master, &creator, 7);
    let mut buyer = party(2, 1_000);
    for k in 1u32..=40 {
        let ticket = buy(&mut lottery, &mut buyer).unwrap();
        assert_eq!(ticket.data.id, k);
        assert_eq!(lottery.data.last_ticket_id, k);
        assert_eq!(lottery.balance, DEPOSIT + 7 * k as u64);
        assert_eq!(buyer.balance, 1_000 - 7 * k as u64);
    }
}

#[test]
fn two_lotteries_keep_their_own_counts_and_escrows() {
    let mut master = set_up();
    let creator = party(1, 0);
    let mut first = create(&mut master, &creator, 10);
    let mut second = create(&mut master, &creator, 1_000);
    assert_eq!((first.data.id, second.data.id), (1, 2));
    assert_ne!(first.key, second.key);

    let mut buyer = party(2, 10_000);
    let a = buy(&mut first, &mut buyer).unwrap();
    let b = buy(&mut second, &mut buyer).unwrap();
    let c = buy(&mut second, &mut buyer).unwrap();
    assert_eq!((a.data.id, b.data.id, c.data.id), (1, 1, 2));
    assert_eq!((a.data.lottery_id, b.data.lottery_id), (1, 2));
    assert_ne!(a.key, b.key);
    assert_eq!(first.balance, DEPOSIT + 10);
    assert_eq!(second.balance, DEPOSIT + 2_000);
    assert_eq!(buyer.balance, 10_000 - 2_010);
}

#[test]
fn the_same_draw_gives_the_same_winner() {
    let mut master = set_up();
    let creator = party(1, 0);
    let other = party(5, 0);
    let mut one = create(&mut master, &creator, 100);
    let mut two = create(&mut master, &other, 3);
    let mut buyer = party(2, 10_000);
    for _ in 0..9 {
        buy(&mut one, &mut buyer).unwrap();
        buy(&mut two, &mut buyer).unwrap();
    }
    assert_eq!(draw(&mut one, &creator, 55_555, 77), Ok(()));
    assert_eq!(draw(&mut two, &other, 55_555, 77), Ok(()));
    assert_eq!(one.data.winner_id, two.data.winner_id);
    let w = one.data.winner_id.unwrap();
    assert!((1..=9).contains(&w));
    assert_eq!(w, lottery::selector::select_winner(55_555, 77, 9));
}

#[test]
fn a_claim_moves_exactly_the_pot() {
    let mut master = set_up();
    let creator = party(1, 0);
    let mut lottery = create(&mut master, &creator, 250);
    let mut holders = [party(11, 300), party(12, 300), party(13, 300), party(14, 300)];
    let mut tickets = Vec::new();
    for holder in holders.iter_mut() {
        tickets.push(buy(&mut lottery, holder).unwrap());
    }
    assert_eq!(draw(&mut lottery, &creator, 1_700_000_000, 123_456_789), Ok(()));
    let index = (lottery.data.winner_id.unwrap() - 1) as usize;

    let escrow_before = lottery.balance;
    let held_before = holders[index].balance;
    let mut winner = holders[index];
    assert_eq!(claim(&mut lottery, &tickets[index], &mut winner), Ok(()));
    assert_eq!(winner.balance - held_before, 250 * 4);
    assert_eq!(escrow_before - lottery.balance, 250 * 4);
    assert_eq!(lottery.balance, DEPOSIT);
}

#[test]
fn losers_and_strangers_get_nothing() {
    let mut master = set_up();
    let creator = party(1, 0);
    let mut lottery = create(&mut master, &creator, 100);
    let mut holders = [party(11, 100), party(12, 100), party(13, 100)];
    let mut tickets = Vec::new();
    for holder in holders.iter_mut() {
        tickets.push(buy(&mut lottery, holder).unwrap());
    }

    // before the draw nobody can claim
    let before = lottery;
    assert_eq!(
        claim(&mut lottery, &tickets[0], &mut holders[0]),
        Err(Failure::Lottery(LotteryError::WinnerNotChosen))
    );
    assert_eq!(lottery, before);

    // a stranger cannot draw
    assert_eq!(draw(&mut lottery, &holders[0], 1000, 5), Err(Failure::Unauthorized));
    assert_eq!(lottery, before);

    assert_eq!(draw(&mut lottery, &creator, 1000, 5), Ok(()));
    assert_eq!(lottery.data.winner_id, Some(3));
    let drawn = lottery;

    for loser in 0..2 {
        assert_eq!(
            claim(&mut lottery, &tickets[loser], &mut holders[loser]),
            Err(Failure::Lottery(LotteryError::InvalidWinner))
        );
        assert_eq!(lottery, drawn);
        assert_eq!(holders[loser].balance, 0);
    }
    // the winning ticket in the hands of another
    let mut thief = holders[0];
    assert_eq!(claim(&mut lottery, &tickets[2], &mut thief), Err(Failure::Unauthorized));
    assert_eq!(lottery, drawn);

    assert_eq!(claim(&mut lottery, &tickets[2], &mut holders[2]), Ok(()));
    assert_eq!(holders[2].balance, 300);
}

#[test]
fn a_registry_that_has_numbered_lotteries_is_not_set_up_again() {
    let mut master = set_up();
    assert_eq!(
        set_up_again(&master, &party(1, 0)),
        (Err(Failure::AlreadyInitialized), Some(Master { last_id: 0 }))
    );
    let creator = party(1, 0);
    for _ in 0..3 {
        create(&mut master, &creator, 10);
    }
    assert_eq!(master.data.last_id, 3);
    assert_eq!(
        set_up_again(&master, &party(9, 0)),
        (Err(Failure::AlreadyInitialized), Some(Master { last_id: 3 }))
    );
    // the count goes on from where it was
    let next = create(&mut master, &creator, 10);
    assert_eq!(next.data.id, 4);
    assert_eq!(master.data.last_id, 4);
}
