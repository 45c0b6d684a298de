//! Laws of the state machine: what holds across whole sequences of
//! transitions, proved from the spec-level transition functions that the
//! executable transitions are pinned to.

use crate::ops::{
    buy_ticket_spec, create_lottery_spec, initialize_spec, pick_winner_spec, BuyTicket,
    CreateLottery, InitMaster, PickWinner,
};
use crate::state::{Identity, Lottery, LotteryError, Master, Ticket};
use vstd::prelude::*;

verus! {

/// Law: the registry bootstrap is one-shot — after `initialize` has run,
/// every further call is rejected with `AlreadyInitialized` and changes
/// nothing.
pub proof fn lemma_initialize_is_one_shot(pre: InitMaster)
    ensures
        initialize_spec(initialize_spec(pre).0) == (
            initialize_spec(pre).0,
            Err::<(), LotteryError>(LotteryError::AlreadyInitialized),
        ),
{
}

/// One successful lottery creation: from registry state `m0` and an empty
/// slot, `create_lottery` by `auth` at price `price` yields registry `m1`
/// and the lottery `l`.
pub open spec fn creation_step(
    m0: Master,
    m1: Master,
    auth: Identity,
    price: u64,
    l: Lottery,
) -> bool {
    create_lottery_spec(CreateLottery { authority: auth, master: m0, lottery: None }, price) == (
        CreateLottery { authority: auth, master: m1, lottery: Some(l) },
        Ok::<(), LotteryError>(()),
    )
}

/// A run of successful creations: `masters` is the chain of registry
/// states, and the i-th creation turns `masters[i]` into `masters[i + 1]`
/// while producing `lots[i]`.
pub open spec fn creation_run(
    masters: Seq<Master>,
    lots: Seq<Lottery>,
    auths: Seq<Identity>,
    prices: Seq<u64>,
) -> bool {
    &&& masters.len() == lots.len() + 1
    &&& auths.len() == lots.len()
    &&& prices.len() == lots.len()
    &&& forall|i: int|
        0 <= i < lots.len() ==> #[trigger] creation_step(
            masters[i],
            masters[i + 1],
            auths[i],
            prices[i],
            lots[i],
        )
}

/// After `n` creations from a fresh registry, the counter reads `n`.
pub proof fn lemma_registry_counts_creations(
    masters: Seq<Master>,
    lots: Seq<Lottery>,
    auths: Seq<Identity>,
    prices: Seq<u64>,
    n: int,
)
    requires
        creation_run(masters, lots, auths, prices),
        lots.len() <= u32::MAX,
        masters[0].last_id == 0,
        0 <= n <= lots.len(),
    ensures
        masters[n].last_id == n,
    decreases n,
{
    if n > 0 {
        lemma_registry_counts_creations(masters, lots, auths, prices, n - 1);
        assert(creation_step(masters[n - 1], masters[n], auths[n - 1], prices[n - 1], lots[n - 1]));
    }
}

/// Law: for every sequence of successful `create_lottery` calls starting
/// from a fresh registry, the assigned ids are exactly 1, 2, 3, ... in call
/// order — strictly increasing, gap-free, starting at 1 — and each lottery
/// starts unresolved with the requested configuration.
pub proof fn lemma_created_ids_dense(
    masters: Seq<Master>,
    lots: Seq<Lottery>,
    auths: Seq<Identity>,
    prices: Seq<u64>,
)
    requires
        creation_run(masters, lots, auths, prices),
        lots.len() <= u32::MAX,
        masters[0].last_id == 0,
    ensures
        forall|i: int|
            #![trigger lots[i]]
            0 <= i < lots.len() ==> lots[i] == (Lottery {
                id: (i + 1) as u32,
                authority: auths[i],
                ticket_price: prices[i],
                last_ticket_id: 0,
                winner_id: None,
                claimed: false,
            }),
        forall|i: int, j: int| 0 <= i < j < lots.len() ==> lots[i].id < lots[j].id,
{
    assert forall|i: int| #![trigger lots[i]] 0 <= i < lots.len() implies lots[i] == (Lottery {
        id: (i + 1) as u32,
        authority: auths[i],
        ticket_price: prices[i],
        last_ticket_id: 0,
        winner_id: None,
        claimed: false,
    }) by {
        lemma_registry_counts_creations(masters, lots, auths, prices, i);
        assert(creation_step(masters[i], masters[i + 1], auths[i], prices[i], lots[i]));
    }
}

/// One successful ticket purchase of the lottery in state `l0` with pot
/// `pot0`: buyer `buyer`, whose balance goes from `bal0` to `bal1`, gets
/// the receipt `t`, and the lottery moves to state `l1` with pot `pot1`.
pub open spec fn purchase_step(
    l0: Lottery,
    pot0: u64,
    buyer: Identity,
    bal0: u64,
    l1: Lottery,
    pot1: u64,
    bal1: u64,
    t: Ticket,
) -> bool {
    buy_ticket_spec(
        BuyTicket {
            buyer,
            buyer_balance: bal0,
            lottery: Some(l0),
            lottery_balance: pot0,
            ticket: None,
        },
        l0.id,
    ) == (
        BuyTicket {
            buyer,
            buyer_balance: bal1,
            lottery: Some(l1),
            lottery_balance: pot1,
            ticket: Some(t),
        },
        Ok::<(), LotteryError>(()),
    )
}

/// A run of successful purchases of one lottery: `lots` is the chain of
/// its states, `pots` the chain of its pooled balance, and the i-th
/// purchase is made by `buyers[i]`, whose balance goes from `bals0[i]` to
/// `bals1[i]`, yielding the receipt `tks[i]`.
pub open spec fn purchase_run(
    lots: Seq<Lottery>,
    pots: Seq<u64>,
    buyers: Seq<Identity>,
    bals0: Seq<u64>,
    bals1: Seq<u64>,
    tks: Seq<Ticket>,
) -> bool {
    &&& lots.len() == tks.len() + 1
    &&& pots.len() == tks.len() + 1
    &&& buyers.len() == tks.len()
    &&& bals0.len() == tks.len()
    &&& bals1.len() == tks.len()
    &&& forall|i: int|
        0 <= i < tks.len() ==> #[trigger] purchase_step(
            lots[i],
            pots[i],
            buyers[i],
            bals0[i],
            lots[i + 1],
            pots[i + 1],
            bals1[i],
            tks[i],
        )
}

/// After `n` purchases of a freshly created lottery, only the ticket
/// counter has moved — by exactly `n` — and the pot has grown by exactly
/// `n` times the ticket price.
pub proof fn lemma_pot_accumulates(
    lots: Seq<Lottery>,
    pots: Seq<u64>,
    buyers: Seq<Identity>,
    bals0: Seq<u64>,
    bals1: Seq<u64>,
    tks: Seq<Ticket>,
    n: int,
)
    requires
        purchase_run(lots, pots, buyers, bals0, bals1, tks),
        tks.len() <= u32::MAX,
        lots[0].last_ticket_id == 0,
        pots[0] + tks.len() * lots[0].ticket_price <= u64::MAX,
        0 <= n <= tks.len(),
    ensures
        lots[n] == (Lottery { last_ticket_id: n as u32, ..lots[0] }),
        pots[n] == pots[0] + n * lots[0].ticket_price,
    decreases n,
{
    if n > 0 {
        lemma_pot_accumulates(lots, pots, buyers, bals0, bals1, tks, n - 1);
        assert(purchase_step(
            lots[n - 1],
            pots[n - 1],
            buyers[n - 1],
            bals0[n - 1],
            lots[n],
            pots[n],
            bals1[n - 1],
            tks[n - 1],
        ));
        assert(n * lots[0].ticket_price <= tks.len() * lots[0].ticket_price) by (nonlinear_arith)
            requires
                n <= tks.len(),
                lots[0].ticket_price >= 0,
        ;
        assert((n - 1) * lots[0].ticket_price == n * lots[0].ticket_price - lots[0].ticket_price)
            by (nonlinear_arith);
    }
}

/// Law: `buy_ticket` called `N` times successfully on one lottery hands
/// out the receipts numbered 1 through `N` in call order, leaves
/// `last_ticket_id == N`, collects exactly `N` times the ticket price in
/// the pot, and debits each buyer by exactly the ticket price.
pub proof fn lemma_purchases_number_tickets_and_conserve_funds(
    lots: Seq<Lottery>,
    pots: Seq<u64>,
    buyers: Seq<Identity>,
    bals0: Seq<u64>,
    bals1: Seq<u64>,
    tks: Seq<Ticket>,
)
    requires
        purchase_run(lots, pots, buyers, bals0, bals1, tks),
        tks.len() <= u32::MAX,
        lots[0].last_ticket_id == 0,
        pots[0] == 0,
        tks.len() * lots[0].ticket_price <= u64::MAX,
    ensures
        lots[lots.len() - 1].last_ticket_id == tks.len(),
        pots[pots.len() - 1] == tks.len() * lots[0].ticket_price,
        forall|i: int|
            #![trigger tks[i]]
            0 <= i < tks.len() ==> tks[i] == (Ticket {
                id: (i + 1) as u32,
                authority: buyers[i],
                lottery_id: lots[0].id,
            }),
        forall|i: int|
            #![trigger bals1[i]]
            0 <= i < tks.len() ==> bals1[i] == bals0[i] - lots[0].ticket_price,
{
    lemma_pot_accumulates(lots, pots, buyers, bals0, bals1, tks, tks.len() as int);
    assert forall|i: int| #![trigger tks[i]] 0 <= i < tks.len() implies tks[i] == (Ticket {
        id: (i + 1) as u32,
        authority: buyers[i],
        lottery_id: lots[0].id,
    }) by {
        lemma_pot_accumulates(lots, pots, buyers, bals0, bals1, tks, i);
        assert(purchase_step(
            lots[i],
            pots[i],
            buyers[i],
            bals0[i],
            lots[i + 1],
            pots[i + 1],
            bals1[i],
            tks[i],
        ));
    }
    assert forall|i: int| #![trigger bals1[i]] 0 <= i < tks.len() implies bals1[i] == bals0[i]
        - lots[0].ticket_price by {
        lemma_pot_accumulates(lots, pots, buyers, bals0, bals1, tks, i);
        assert(purchase_step(
            lots[i],
            pots[i],
            buyers[i],
            bals0[i],
            lots[i + 1],
            pots[i + 1],
            bals1[i],
            tks[i],
        ));
    }
}

/// Law: a purchase of a resolved lottery is rejected with
/// `WinnerAlreadyExists` and changes nothing, however many tickets were
/// sold before.
pub proof fn lemma_resolved_lottery_rejects_purchase(pre: BuyTicket, lottery_id: u32)
    requires
        pre.lottery matches Some(l) && l.id == lottery_id && l.winner_id is Some,
    ensures
        buy_ticket_spec(pre, lottery_id) == (
            pre,
            Err::<(), LotteryError>(LotteryError::WinnerAlreadyExists),
        ),
{
}

/// Law: once `pick_winner` has succeeded, every purchase of the lottery it
/// left behind fails with `WinnerAlreadyExists` and changes nothing.
pub proof fn lemma_no_purchase_after_resolution(
    pw: PickWinner,
    lottery_id: u32,
    timestamp: i64,
    slot: u64,
    buy: BuyTicket,
)
    requires
        pick_winner_spec(pw, lottery_id, timestamp, slot).1 is Ok,
        buy.lottery == pick_winner_spec(pw, lottery_id, timestamp, slot).0.lottery,
    ensures
        buy_ticket_spec(buy, lottery_id) == (
            buy,
            Err::<(), LotteryError>(LotteryError::WinnerAlreadyExists),
        ),
{
}

/// Law: when `pick_winner` succeeds, the recorded winner is one of the
/// sold tickets — `1 <= winner_id <= last_ticket_id` — and it never
/// succeeds on a lottery with no tickets sold: that case is rejected with
/// `NoTicketsSold` and changes nothing.
pub proof fn lemma_winner_within_sold_tickets(
    pre: PickWinner,
    lottery_id: u32,
    timestamp: i64,
    slot: u64,
)
    ensures
        pick_winner_spec(pre, lottery_id, timestamp, slot).1 is Ok ==> ({
            let l = pick_winner_spec(pre, lottery_id, timestamp, slot).0.lottery->Some_0;
            &&& l.winner_id matches Some(w) && 1 <= w <= l.last_ticket_id
            &&& l.wf()
        }),
        pre.lottery matches Some(l) ==> ((l.id == lottery_id && pre.authority == l.authority
            && l.last_ticket_id == 0) ==> pick_winner_spec(pre, lottery_id, timestamp, slot) == (
        pre, Err::<(), LotteryError>(LotteryError::NoTicketsSold))),
        pre.lottery matches Some(l) ==> (l.last_ticket_id == 0 ==> !(pick_winner_spec(
            pre,
            lottery_id,
            timestamp,
            slot,
        ).1 is Ok)),
{
}

/// Law: `pick_winner` called by any identity other than the lottery's
/// authority is rejected with `Unauthorized`, and the outcome — in
/// particular `winner_id` — stays exactly as it was.
pub proof fn lemma_pick_winner_guards_authority(
    pre: PickWinner,
    lottery_id: u32,
    timestamp: i64,
    slot: u64,
)
    requires
        pre.lottery matches Some(l) && l.id == lottery_id && pre.authority != l.authority,
    ensures
        pick_winner_spec(pre, lottery_id, timestamp, slot) == (
            pre,
            Err::<(), LotteryError>(LotteryError::Unauthorized),
        ),
{
}

/// Law: every transition preserves lottery well-formedness; a freshly
/// created lottery is well-formed.
pub proof fn lemma_transitions_preserve_wf(
    cl: CreateLottery,
    price: u64,
    bt: BuyTicket,
    bt_id: u32,
    pw: PickWinner,
    pw_id: u32,
    timestamp: i64,
    slot: u64,
)
    requires
        cl.lottery matches Some(l) ==> l.wf(),
        bt.lottery matches Some(l) ==> l.wf(),
        pw.lottery matches Some(l) ==> l.wf(),
    ensures
        create_lottery_spec(cl, price).0.lottery matches Some(l) ==> l.wf(),
        buy_ticket_spec(bt, bt_id).0.lottery matches Some(l) ==> l.wf(),
        pick_winner_spec(pw, pw_id, timestamp, slot).0.lottery matches Some(l) ==> l.wf(),
{
}

} // verus!
