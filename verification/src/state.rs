//! The persistent records of the lottery state machine and its error
//! taxonomy.

use vstd::prelude::*;

verus! {

/// An opaque caller identity. The ledger's authentication layer guarantees
/// that a transition runs on behalf of the identity it names; the state
/// machine only ever compares identities for equality.
#[derive(Clone, Copy, PartialEq, Eq, Structural, Debug)]
pub struct Identity {
    pub key: u64,
}

/// The singleton registry record: the count of lotteries ever created.
/// `last_id` strictly increases by one per creation and never decreases.
#[derive(Clone, Copy, PartialEq, Eq, Structural, Debug)]
pub struct Master {
    pub last_id: u32,
}

/// One lottery: configuration fixed at creation, a running ticket counter,
/// and the resolution outcome.
#[derive(Clone, Copy, PartialEq, Eq, Structural, Debug)]
pub struct Lottery {
    /// Unique identifier, assigned as `master.last_id + 1` at creation.
    pub id: u32,
    /// The creator; the only identity permitted to resolve the lottery.
    pub authority: Identity,
    /// Fixed amount (smallest currency unit) each ticket costs.
    pub ticket_price: u64,
    /// Count of tickets sold; starts at 0 and increases by one per purchase.
    pub last_ticket_id: u32,
    /// Unset until resolution; set to the winning ticket number by
    /// `pick_winner`.
    pub winner_id: Option<u32>,
    /// Reserved for payout tracking; no current transition sets it.
    pub claimed: bool,
}

/// An immutable purchase receipt binding a buyer to a lottery and a
/// sequence number.
#[derive(Clone, Copy, PartialEq, Eq, Structural, Debug)]
pub struct Ticket {
    /// The purchase's sequence number within its lottery, starting at 1.
    pub id: u32,
    /// The buyer who paid for this ticket.
    pub authority: Identity,
    /// Back-reference to the owning lottery.
    pub lottery_id: u32,
}

/// Every reason a transition can be rejected. A rejected transition leaves
/// all records unchanged.
#[derive(Clone, Copy, PartialEq, Eq, Structural, Debug)]
pub enum LotteryError {
    /// A record already occupies the derived address.
    AlreadyInitialized,
    /// No lottery exists for the given identifier.
    NotFound,
    /// A purchase was attempted after the lottery was resolved.
    WinnerAlreadyExists,
    /// `pick_winner` was called by an identity other than the authority.
    Unauthorized,
    /// The buyer's balance cannot cover the ticket price.
    InsufficientFunds,
    /// `pick_winner` was called on a lottery with no tickets sold.
    NoTicketsSold,
}

impl Lottery {
    /// Well-formedness: a resolved winner is always the number of one of
    /// the tickets actually sold.
    pub open spec fn wf(self) -> bool {
        match self.winner_id {
            Some(w) => 1 <= w <= self.last_ticket_id,
            None => true,
        }
    }
}

} // verus!
