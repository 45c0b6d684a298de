use lottery::ops::{
    buy_ticket, create_lottery, initialize, pick_winner, BuyTicket, CreateLottery, InitMaster,
    PickWinner,
};
use lottery::state::{Identity, Lottery, LotteryError, Master, Ticket};

fn id(key: u64) -> Identity {
    Identity { key }
}

fn fresh_lottery(authority: Identity, ticket_price: u64) -> Lottery {
    let mut ctx = CreateLottery {
        authority,
        master: Master { last_id: 0 },
        lottery: None,
    };
    assert_eq!(create_lottery(&mut ctx, ticket_price), Ok(()));
    ctx.lottery.unwrap()
}

#[test]
fn initialize_creates_fresh_registry() {
    let mut ctx = InitMaster { master: None };
    assert_eq!(initialize(&mut ctx), Ok(()));
    assert_eq!(ctx.master, Some(Master { last_id: 0 }));
}

#[test]
fn initialize_rejects_recreation() {
    let mut ctx = InitMaster {
        master: Some(Master { last_id: 5 }),
    };
    assert_eq!(initialize(&mut ctx), Err(LotteryError::AlreadyInitialized));
    assert_eq!(ctx.master, Some(Master { last_id: 5 }));
}

#[test]
fn create_lottery_assigns_successive_ids() {
    let auth = id(7);
    let mut first = CreateLottery {
        authority: auth,
        master: Master { last_id: 0 },
        lottery: None,
    };
    assert_eq!(create_lottery(&mut first, 100), Ok(()));
    assert_eq!(first.master, Master { last_id: 1 });
    assert_eq!(
        first.lottery,
        Some(Lottery {
            id: 1,
            authority: auth,
            ticket_price: 100,
            last_ticket_id: 0,
            winner_id: None,
            claimed: false,
        })
    );

    let mut second = CreateLottery {
        authority: id(8),
        master: first.master,
        lottery: None,
    };
    assert_eq!(create_lottery(&mut second, 250), Ok(()));
    assert_eq!(second.master, Master { last_id: 2 });
    assert_eq!(second.lottery.unwrap().id, 2);
}

#[test]
fn create_lottery_rejects_occupied_slot() {
    let auth = id(7);
    let existing = fresh_lottery(auth, 100);
    let mut ctx = CreateLottery {
        authority: auth,
        master: Master { last_id: 1 },
        lottery: Some(existing),
    };
    assert_eq!(
        create_lottery(&mut ctx, 999),
        Err(LotteryError::AlreadyInitialized)
    );
    assert_eq!(ctx.master, Master { last_id: 1 });
    assert_eq!(ctx.lottery, Some(existing));
}

#[test]
fn buy_ticket_numbers_tickets_densely_and_moves_funds() {
    let auth = id(1);
    let mut lottery = fresh_lottery(auth, 100);
    let mut pot: u64 = 0;
    for n in 1u32..=5 {
        let buyer = id(100 + n as u64);
        let mut ctx = BuyTicket {
            buyer,
            buyer_balance: 1000,
            lottery: Some(lottery),
            lottery_balance: pot,
            ticket: None,
        };
        assert_eq!(buy_ticket(&mut ctx, 1), Ok(()));
        assert_eq!(
            ctx.ticket,
            Some(Ticket {
                id: n,
                authority: buyer,
                lottery_id: 1,
            })
        );
        assert_eq!(ctx.buyer_balance, 900);
        assert_eq!(ctx.lottery_balance, pot + 100);
        lottery = ctx.lottery.unwrap();
        assert_eq!(lottery.last_ticket_id, n);
        pot = ctx.lottery_balance;
    }
    assert_eq!(pot, 500);
}

#[test]
fn buy_ticket_rejects_missing_lottery() {
    let mut ctx = BuyTicket {
        buyer: id(2),
        buyer_balance: 1000,
        lottery: None,
        lottery_balance: 0,
        ticket: None,
    };
    assert_eq!(buy_ticket(&mut ctx, 1), Err(LotteryError::NotFound));
    assert_eq!(ctx.ticket, None);
    assert_eq!(ctx.buyer_balance, 1000);
}

#[test]
fn buy_ticket_rejects_wrong_lottery_id() {
    let lottery = fresh_lottery(id(1), 100);
    let mut ctx = BuyTicket {
        buyer: id(2),
        buyer_balance: 1000,
        lottery: Some(lottery),
        lottery_balance: 0,
        ticket: None,
    };
    assert_eq!(buy_ticket(&mut ctx, 3), Err(LotteryError::NotFound));
    assert_eq!(ctx.lottery, Some(lottery));
    assert_eq!(ctx.ticket, None);
}

#[test]
fn buy_ticket_rejects_insufficient_funds() {
    let lottery = fresh_lottery(id(1), 100);
    let mut ctx = BuyTicket {
        buyer: id(2),
        buyer_balance: 99,
        lottery: Some(lottery),
        lottery_balance: 0,
        ticket: None,
    };
    assert_eq!(buy_ticket(&mut ctx, 1), Err(LotteryError::InsufficientFunds));
    assert_eq!(ctx.buyer_balance, 99);
    assert_eq!(ctx.lottery_balance, 0);
    assert_eq!(ctx.lottery, Some(lottery));
    assert_eq!(ctx.ticket, None);
}

#[test]
fn buy_ticket_rejects_occupied_ticket_slot() {
    let lottery = fresh_lottery(id(1), 100);
    let stale = Ticket {
        id: 1,
        authority: id(3),
        lottery_id: 1,
    };
    let mut ctx = BuyTicket {
        buyer: id(2),
        buyer_balance: 1000,
        lottery: Some(lottery),
        lottery_balance: 0,
        ticket: Some(stale),
    };
    assert_eq!(buy_ticket(&mut ctx, 1), Err(LotteryError::AlreadyInitialized));
    assert_eq!(ctx.ticket, Some(stale));
    assert_eq!(ctx.buyer_balance, 1000);
}

#[test]
fn buy_ticket_rejects_resolved_lottery() {
    let auth = id(1);
    let mut lottery = fresh_lottery(auth, 100);
    let mut buy = BuyTicket {
        buyer: id(2),
        buyer_balance: 200,
        lottery: Some(lottery),
        lottery_balance: 0,
        ticket: None,
    };
    assert_eq!(buy_ticket(&mut buy, 1), Ok(()));
    lottery = buy.lottery.unwrap();

    let mut pick = PickWinner {
        authority: auth,
        lottery: Some(lottery),
    };
    assert_eq!(pick_winner(&mut pick, 1, 1_700_000_000, 42), Ok(()));
    lottery = pick.lottery.unwrap();
    assert!(lottery.winner_id.is_some());

    let mut late = BuyTicket {
        buyer: id(4),
        buyer_balance: 1000,
        lottery: Some(lottery),
        lottery_balance: 100,
        ticket: None,
    };
    assert_eq!(
        buy_ticket(&mut late, 1),
        Err(LotteryError::WinnerAlreadyExists)
    );
    assert_eq!(late.lottery, Some(lottery));
    assert_eq!(late.buyer_balance, 1000);
    assert_eq!(late.lottery_balance, 100);
    assert_eq!(late.ticket, None);
}

#[test]
fn pick_winner_rejects_zero_tickets() {
    let auth = id(1);
    let lottery = fresh_lottery(auth, 100);
    let mut ctx = PickWinner {
        authority: auth,
        lottery: Some(lottery),
    };
    assert_eq!(
        pick_winner(&mut ctx, 1, 1_700_000_000, 42),
        Err(LotteryError::NoTicketsSold)
    );
    assert_eq!(ctx.lottery, Some(lottery));
    assert_eq!(ctx.lottery.unwrap().winner_id, None);
}

#[test]
fn pick_winner_rejects_non_authority() {
    let auth = id(1);
    let mut lottery = fresh_lottery(auth, 100);
    let mut buy = BuyTicket {
        buyer: id(2),
        buyer_balance: 100,
        lottery: Some(lottery),
        lottery_balance: 0,
        ticket: None,
    };
    assert_eq!(buy_ticket(&mut buy, 1), Ok(()));
    lottery = buy.lottery.unwrap();

    let mut ctx = PickWinner {
        authority: id(99),
        lottery: Some(lottery),
    };
    assert_eq!(
        pick_winner(&mut ctx, 1, 1_700_000_000, 42),
        Err(LotteryError::Unauthorized)
    );
    assert_eq!(ctx.lottery, Some(lottery));
    assert_eq!(ctx.lottery.unwrap().winner_id, None);
}

#[test]
fn pick_winner_rejects_missing_lottery() {
    let mut ctx = PickWinner {
        authority: id(1),
        lottery: None,
    };
    assert_eq!(
        pick_winner(&mut ctx, 1, 1_700_000_000, 42),
        Err(LotteryError::NotFound)
    );
    assert_eq!(ctx.lottery, None);
}

#[test]
fn pick_winner_is_deterministic_in_the_clock() {
    let auth = id(1);
    let mut lottery = fresh_lottery(auth, 100);
    let mut pot: u64 = 0;
    for n in 0u64..4 {
        let mut buy = BuyTicket {
            buyer: id(10 + n),
            buyer_balance: 100,
            lottery: Some(lottery),
            lottery_balance: pot,
            ticket: None,
        };
        assert_eq!(buy_ticket(&mut buy, 1), Ok(()));
        lottery = buy.lottery.unwrap();
        pot = buy.lottery_balance;
    }
    let mut first = PickWinner {
        authority: auth,
        lottery: Some(lottery),
    };
    let mut second = PickWinner {
        authority: auth,
        lottery: Some(lottery),
    };
    assert_eq!(pick_winner(&mut first, 1, 123_456_789, 987), Ok(()));
    assert_eq!(pick_winner(&mut second, 1, 123_456_789, 987), Ok(()));
    assert_eq!(first.lottery, second.lottery);
}

#[test]
fn full_draw_three_buyers() {
    let auth = id(50);
    let mut master_ctx = InitMaster { master: None };
    assert_eq!(initialize(&mut master_ctx), Ok(()));

    let mut create = CreateLottery {
        authority: auth,
        master: master_ctx.master.unwrap(),
        lottery: None,
    };
    assert_eq!(create_lottery(&mut create, 100), Ok(()));
    let mut lottery = create.lottery.unwrap();

    let mut pot: u64 = 0;
    for n in 1u32..=3 {
        let buyer = id(n as u64);
        let mut buy = BuyTicket {
            buyer,
            buyer_balance: 500,
            lottery: Some(lottery),
            lottery_balance: pot,
            ticket: None,
        };
        assert_eq!(buy_ticket(&mut buy, 1), Ok(()));
        assert_eq!(buy.ticket.unwrap().id, n);
        assert_eq!(buy.buyer_balance, 400);
        lottery = buy.lottery.unwrap();
        pot = buy.lottery_balance;
    }
    assert_eq!(pot, 300);
    assert_eq!(lottery.last_ticket_id, 3);

    let mut pick = PickWinner {
        authority: auth,
        lottery: Some(lottery),
    };
    assert_eq!(pick_winner(&mut pick, 1, 1_700_000_000, 42), Ok(()));
    let resolved = pick.lottery.unwrap();
    let winner = resolved.winner_id.unwrap();
    assert!((1..=3).contains(&winner));
    assert_eq!(resolved.last_ticket_id, 3);
    assert_eq!(resolved.ticket_price, 100);
    assert_eq!(resolved.authority, auth);
    assert!(!resolved.claimed);
}
