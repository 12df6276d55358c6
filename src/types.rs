use vstd::prelude::*;

verus! {

/// A party known to the host: a creator, a buyer, a contract's own custody
/// account or a payment asset, each under a number that the host assigns.
pub type Principal = u64;

/// Every way an operation on a raffle can fail.
#[derive(Clone, Copy, Debug, PartialEq, Eq, Structural)]
pub enum Error {
    RaffleNotFound,
    RaffleInactive,
    TicketsSoldOut,
    InsufficientPayment,
    NotAuthorized,
    PrizeNotDeposited,
    PrizeAlreadyClaimed,
    InvalidParameters,
    ContractPaused,
    InsufficientTickets,
    RaffleEnded,
    RaffleStillRunning,
    NoTicketsSold,
    MultipleTicketsNotAllowed,
    PrizeAlreadyDeposited,
    NotWinner,
    ArithmeticOverflow,
    AlreadyInitialized,
    NotInitialized,
}

/// What the host knows about the call in progress: who made it, which
/// account is this contract's custody account, and the ledger's clock.
#[derive(Clone, Copy, Debug, PartialEq, Eq, Structural)]
pub struct Env {
    pub caller: Principal,
    pub contract: Principal,
    pub timestamp: u64,
    pub sequence: u32,
}

/// The capability check made first in every mutating operation: the call
/// was authorised by `principal`.
pub fn is_authorized(env: &Env, principal: Principal) -> (r: bool)
    ensures
        r == (env.caller == principal),
{
    env.caller == principal
}

/// The lifecycle state of a raffle, read off its record.
#[derive(Clone, Copy, Debug, PartialEq, Eq, Structural)]
pub enum RaffleStatus {
    Proposed,
    Active,
    Drawing,
    Finalized,
    Claimed,
}

/// One raffle's record.
#[derive(Clone, Debug)]
pub struct Raffle {
    pub creator: Principal,
    pub description: String,
    pub end_time: u64,
    pub max_tickets: u32,
    pub allow_multiple: bool,
    pub ticket_price: i128,
    pub payment_token: Principal,
    pub prize_amount: i128,
    pub tickets_sold: u32,
    pub is_active: bool,
    pub prize_deposited: bool,
    pub prize_claimed: bool,
    pub winner: Option<Principal>,
}

impl Raffle {
    /// The lifecycle state of the raffle at time `now`: claimed, finalized,
    /// drawing (no further sales possible, winner not drawn yet), proposed
    /// (selling, prize not yet deposited) or active.
    pub open spec fn status_spec(self, now: u64) -> RaffleStatus {
        if self.prize_claimed {
            RaffleStatus::Claimed
        } else if !self.is_active {
            RaffleStatus::Finalized
        } else if (self.end_time != 0 && now > self.end_time) || self.tickets_sold >= self.max_tickets {
            RaffleStatus::Drawing
        } else if !self.prize_deposited {
            RaffleStatus::Proposed
        } else {
            RaffleStatus::Active
        }
    }

    pub fn status(&self, now: u64) -> (r: RaffleStatus)
        ensures
            r == self.status_spec(now),
    {
        if self.prize_claimed {
            RaffleStatus::Claimed
        } else if !self.is_active {
            RaffleStatus::Finalized
        } else if (self.end_time != 0 && now > self.end_time) || self.tickets_sold >= self.max_tickets {
            RaffleStatus::Drawing
        } else if !self.prize_deposited {
            RaffleStatus::Proposed
        } else {
            RaffleStatus::Active
        }
    }

    /// A copy of the record, equal to it in every field.
    pub fn copy(&self) -> (r: Raffle)
        ensures
            r == *self,
    {
        Raffle {
            creator: self.creator,
            description: self.description.clone(),
            end_time: self.end_time,
            max_tickets: self.max_tickets,
            allow_multiple: self.allow_multiple,
            ticket_price: self.ticket_price,
            payment_token: self.payment_token,
            prize_amount: self.prize_amount,
            tickets_sold: self.tickets_sold,
            is_active: self.is_active,
            prize_deposited: self.prize_deposited,
            prize_claimed: self.prize_claimed,
            winner: self.winner,
        }
    }
}

/// Sales figures of a raffle.
#[derive(Clone, Copy, Debug, PartialEq, Eq, Structural)]
pub struct RaffleStats {
    pub tickets_sold: u32,
    pub max_tickets: u32,
    pub tickets_remaining: u32,
    pub total_revenue: i128,
}

/// One sold ticket; never changed once issued.
#[derive(Clone, Copy, Debug, PartialEq, Eq, Structural)]
pub struct Ticket {
    pub id: u32,
    pub buyer: Principal,
    pub purchase_time: u64,
    pub ticket_number: u32,
}

/// A movement of `amount` units of the asset `token` from one account to
/// another, for the host to carry out.
#[derive(Clone, Copy, Debug, PartialEq, Eq, Structural)]
pub struct Transfer {
    pub token: Principal,
    pub from: Principal,
    pub to: Principal,
    pub amount: i128,
}

/// Audit record of a raffle's creation.
#[derive(Clone, Debug)]
pub struct RaffleInitialized {
    pub raffle_id: u64,
    pub creator: Principal,
    pub end_time: u64,
    pub max_tickets: u32,
    pub ticket_price: i128,
    pub payment_token: Principal,
    pub description: String,
}

/// Audit record of one purchase call, however many tickets it bought.
#[derive(Clone, Debug)]
pub struct TicketPurchased {
    pub raffle_id: u64,
    pub buyer: Principal,
    pub ticket_ids: Vec<u32>,
    pub quantity: u32,
    pub total_paid: i128,
    pub timestamp: u64,
}

/// Audit record of a finalization: who won, with which ticket position.
#[derive(Clone, Debug)]
pub struct RaffleFinalized {
    pub raffle_id: u64,
    pub winner: Principal,
    pub winning_ticket_id: u32,
    pub total_tickets_sold: u32,
    pub randomness_source: String,
    pub finalized_at: u64,
}

/// Audit record of the prize payout.
#[derive(Clone, Copy, Debug, PartialEq, Eq, Structural)]
pub struct PrizeClaimed {
    pub raffle_id: u64,
    pub winner: Principal,
    pub gross_amount: i128,
    pub net_amount: i128,
    pub platform_fee: i128,
    pub claimed_at: u64,
}

/// Any audit record.
#[derive(Clone, Debug)]
pub enum Event {
    Initialized(RaffleInitialized),
    Purchased(TicketPurchased),
    Finalized(RaffleFinalized),
    Claimed(PrizeClaimed),
}

/// What the operations hand to the host: the audit records to publish and
/// the transfers to perform, in order. Both only grow.
#[derive(Clone, Debug)]
pub struct Journal {
    pub events: Vec<Event>,
    pub transfers: Vec<Transfer>,
}

impl Journal {
    pub fn new() -> (r: Journal)
        ensures
            r.events@ == Seq::<Event>::empty(),
            r.transfers@ == Seq::<Transfer>::empty(),
    {
        Journal { events: Vec::new(), transfers: Vec::new() }
    }
}

} // verus!
