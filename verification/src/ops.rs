//! The four transitions of the state machine.
//!
//! Each transition works on a context struct holding the records it loads
//! and the balances it moves, mirroring the one atomic unit the ledger
//! applies: the caller (the storage collaborator) resolves the records by
//! their derived addresses, hands them over as plain values, and writes
//! them back only when the transition returns `Ok`. An `Err` leaves the
//! context exactly as it was, so a rejected transition changes nothing.
//!
//! Each transition's contract is a single equation against a spec-level
//! transition function, so the result and the new state are pinned down
//! exactly for every input.

use crate::state::{Identity, Lottery, LotteryError, Master, Ticket};
use crate::winner::{winner_of, winning_ticket};
use vstd::prelude::*;

verus! {

/// Context of `initialize`: the registry slot at the well-known address.
#[derive(Clone, Copy, PartialEq, Eq, Structural, Debug)]
pub struct InitMaster {
    /// The record at the registry address, if one exists.
    pub master: Option<Master>,
}

/// Context of `create_lottery`.
#[derive(Clone, Copy, PartialEq, Eq, Structural, Debug)]
pub struct CreateLottery {
    /// The caller; becomes the new lottery's authority.
    pub authority: Identity,
    /// The registry record.
    pub master: Master,
    /// The slot at the address derived for the new lottery.
    pub lottery: Option<Lottery>,
}

/// Context of `buy_ticket`.
#[derive(Clone, Copy, PartialEq, Eq, Structural, Debug)]
pub struct BuyTicket {
    /// The caller; becomes the ticket's owner and pays the price.
    pub buyer: Identity,
    /// The buyer's spendable balance.
    pub buyer_balance: u64,
    /// The record at the address derived from the requested lottery id.
    pub lottery: Option<Lottery>,
    /// The lottery's pooled balance (the prize pot).
    pub lottery_balance: u64,
    /// The slot at the address derived for the new ticket.
    pub ticket: Option<Ticket>,
}

/// Context of `pick_winner`.
#[derive(Clone, Copy, PartialEq, Eq, Structural, Debug)]
pub struct PickWinner {
    /// The caller; must equal the lottery's recorded authority.
    pub authority: Identity,
    /// The record at the address derived from the requested lottery id.
    pub lottery: Option<Lottery>,
}

/// What `initialize` does: creates the singleton registry with `last_id = 0`,
/// or rejects re-creation.
pub open spec fn initialize_spec(pre: InitMaster) -> (InitMaster, Result<(), LotteryError>) {
    if pre.master is Some {
        (pre, Err(LotteryError::AlreadyInitialized))
    } else {
        (InitMaster { master: Some(Master { last_id: 0 }) }, Ok(()))
    }
}

/// What `create_lottery` does: increments the registry counter and fills the
/// fresh lottery record, or rejects an occupied slot.
pub open spec fn create_lottery_spec(pre: CreateLottery, ticket_price: u64) -> (
    CreateLottery,
    Result<(), LotteryError>,
) {
    if pre.lottery is Some {
        (pre, Err(LotteryError::AlreadyInitialized))
    } else {
        let new_id = (pre.master.last_id + 1) as u32;
        (
            CreateLottery {
                master: Master { last_id: new_id },
                lottery: Some(
                    Lottery {
                        id: new_id,
                        authority: pre.authority,
                        ticket_price,
                        last_ticket_id: 0,
                        winner_id: None,
                        claimed: false,
                    },
                ),
                ..pre
            },
            Ok(()),
        )
    }
}

/// What `buy_ticket` does: moves the ticket price from the buyer to the pot,
/// increments the ticket counter, and fills the fresh ticket record; or
/// rejects with the first failing check.
pub open spec fn buy_ticket_spec(pre: BuyTicket, lottery_id: u32) -> (
    BuyTicket,
    Result<(), LotteryError>,
) {
    if pre.lottery is None || pre.lottery->Some_0.id != lottery_id {
        (pre, Err(LotteryError::NotFound))
    } else {
        let l = pre.lottery->Some_0;
        if l.winner_id is Some {
            (pre, Err(LotteryError::WinnerAlreadyExists))
        } else if pre.buyer_balance < l.ticket_price {
            (pre, Err(LotteryError::InsufficientFunds))
        } else if pre.ticket is Some {
            (pre, Err(LotteryError::AlreadyInitialized))
        } else {
            let new_tid = (l.last_ticket_id + 1) as u32;
            (
                BuyTicket {
                    buyer_balance: (pre.buyer_balance - l.ticket_price) as u64,
                    lottery: Some(Lottery { last_ticket_id: new_tid, ..l }),
                    lottery_balance: (pre.lottery_balance + l.ticket_price) as u64,
                    ticket: Some(Ticket { id: new_tid, authority: pre.buyer, lottery_id }),
                    ..pre
                },
                Ok(()),
            )
        }
    }
}

/// What `pick_winner` does: derives the winning ticket from the clock
/// reading and records it; or rejects with the first failing check. A
/// second successful call recomputes and silently overwrites an earlier
/// outcome: a known gap, kept rather than resolved here.
pub open spec fn pick_winner_spec(
    pre: PickWinner,
    lottery_id: u32,
    timestamp: i64,
    slot: u64,
) -> (PickWinner, Result<(), LotteryError>) {
    if pre.lottery is None || pre.lottery->Some_0.id != lottery_id {
        (pre, Err(LotteryError::NotFound))
    } else {
        let l = pre.lottery->Some_0;
        if pre.authority != l.authority {
            (pre, Err(LotteryError::Unauthorized))
        } else if l.last_ticket_id == 0 {
            (pre, Err(LotteryError::NoTicketsSold))
        } else {
            let w = winner_of(timestamp, slot, l.last_ticket_id);
            (PickWinner { lottery: Some(Lottery { winner_id: Some(w), ..l }), ..pre }, Ok(()))
        }
    }
}

/// Creates the singleton registry record with `last_id = 0`; fails with
/// `AlreadyInitialized` (and changes nothing) if the record exists.
pub fn initialize(ctx: &mut InitMaster) -> (r: Result<(), LotteryError>)
    ensures
        (*final(ctx), r) == initialize_spec(*old(ctx)),
{
    if ctx.master.is_some() {
        Err(LotteryError::AlreadyInitialized)
    } else {
        ctx.master = Some(Master { last_id: 0 });
        Ok(())
    }
}

/// Creates a lottery: assigns `master.last_id + 1` as its id, records the
/// caller as authority and the price as configuration, and starts with no
/// tickets and no winner. Fails with `AlreadyInitialized` (and changes
/// nothing) if the derived address is already occupied.
pub fn create_lottery(ctx: &mut CreateLottery, ticket_price: u64) -> (r: Result<
    (),
    LotteryError,
>)
    requires
        old(ctx).lottery is None ==> old(ctx).master.last_id < u32::MAX,
    ensures
        (*final(ctx), r) == create_lottery_spec(*old(ctx), ticket_price),
{
    if ctx.lottery.is_some() {
        return Err(LotteryError::AlreadyInitialized);
    }
    let new_id = ctx.master.last_id + 1;
    ctx.master = Master { last_id: new_id };
    ctx.lottery = Some(
        Lottery {
            id: new_id,
            authority: ctx.authority,
            ticket_price,
            last_ticket_id: 0,
            winner_id: None,
            claimed: false,
        },
    );
    Ok(())
}

/// Buys one ticket of the lottery named by `lottery_id`: transfers exactly
/// the ticket price from the buyer's balance to the pot and issues the
/// receipt numbered `last_ticket_id + 1`. Fails — changing nothing — with
/// `NotFound` when no such lottery was loaded, `WinnerAlreadyExists` once
/// the lottery is resolved, `InsufficientFunds` when the buyer cannot pay,
/// and `AlreadyInitialized` when the ticket's derived address is occupied.
pub fn buy_ticket(ctx: &mut BuyTicket, lottery_id: u32) -> (r: Result<(), LotteryError>)
    requires
        old(ctx).lottery matches Some(l) ==> ((l.id == lottery_id && l.winner_id is None
            && old(ctx).buyer_balance >= l.ticket_price && old(ctx).ticket is None)
            ==> (l.last_ticket_id < u32::MAX && old(ctx).lottery_balance + l.ticket_price
            <= u64::MAX)),
    ensures
        (*final(ctx), r) == buy_ticket_spec(*old(ctx), lottery_id),
{
    let l = match ctx.lottery {
        Some(l) => l,
        None => { return Err(LotteryError::NotFound) },
    };
    if l.id != lottery_id {
        return Err(LotteryError::NotFound);
    }
    if l.winner_id.is_some() {
        return Err(LotteryError::WinnerAlreadyExists);
    }
    if ctx.buyer_balance < l.ticket_price {
        return Err(LotteryError::InsufficientFunds);
    }
    if ctx.ticket.is_some() {
        return Err(LotteryError::AlreadyInitialized);
    }
    let new_tid = l.last_ticket_id + 1;
    ctx.buyer_balance = ctx.buyer_balance - l.ticket_price;
    ctx.lottery_balance = ctx.lottery_balance + l.ticket_price;
    ctx.lottery = Some(Lottery { last_ticket_id: new_tid, ..l });
    ctx.ticket = Some(Ticket { id: new_tid, authority: ctx.buyer, lottery_id });
    Ok(())
}

/// Resolves the lottery named by `lottery_id`: derives the winning ticket
/// number from the clock reading and records it, so that afterwards
/// `1 <= winner_id <= last_ticket_id`. Fails — changing nothing — with
/// `NotFound` when no such lottery was loaded, `Unauthorized` when the
/// caller is not the lottery's authority, and `NoTicketsSold` when no
/// ticket was bought.
pub fn pick_winner(ctx: &mut PickWinner, lottery_id: u32, timestamp: i64, slot: u64) -> (r:
    Result<(), LotteryError>)
    ensures
        (*final(ctx), r) == pick_winner_spec(*old(ctx), lottery_id, timestamp, slot),
{
    let l = match ctx.lottery {
        Some(l) => l,
        None => { return Err(LotteryError::NotFound) },
    };
    if l.id != lottery_id {
        return Err(LotteryError::NotFound);
    }
    if ctx.authority != l.authority {
        return Err(LotteryError::Unauthorized);
    }
    if l.last_ticket_id == 0 {
        return Err(LotteryError::NoTicketsSold);
    }
    let w = winning_ticket(timestamp, slot, l.last_ticket_id);
    ctx.lottery = Some(Lottery { winner_id: Some(w), ..l });
    Ok(())
}

} // verus!
