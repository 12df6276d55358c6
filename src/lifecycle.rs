use vstd::prelude::*;

use crate::types::{
    is_authorized, Env, Error, Event, Journal, Principal, PrizeClaimed, Raffle, RaffleFinalized,
    RaffleInitialized, RaffleStats, Ticket, TicketPurchased, Transfer,
};
use crate::winner::{draw_index, draw_index_spec};

verus! {

/// One raffle together with its ticket ledger: the buyer of each sold ticket
/// in order of sale, and the ticket records themselves.
#[derive(Clone, Debug)]
pub struct RaffleState {
    pub id: u64,
    pub raffle: Raffle,
    pub buyers: Vec<Principal>,
    pub tickets: Vec<Ticket>,
}

/// `q` copies of `p`: the ledger entries of one purchase.
pub open spec fn repeated(p: Principal, q: int) -> Seq<Principal> {
    Seq::new(q as nat, |i: int| p)
}

/// The ids of `q` tickets issued after `sold` earlier ones.
pub open spec fn minted_ids(sold: int, q: int) -> Seq<u32> {
    Seq::new(q as nat, |i: int| (sold + i + 1) as u32)
}

/// The records of `q` tickets issued to `buyer` at `ts` after `sold` earlier ones.
pub open spec fn minted_tickets(sold: int, q: int, buyer: Principal, ts: u64) -> Seq<Ticket> {
    Seq::new(
        q as nat,
        |i: int|
            Ticket {
                id: (sold + i + 1) as u32,
                buyer,
                purchase_time: ts,
                ticket_number: (sold + i + 1) as u32,
            },
    )
}

/// How many entries of `s` are `p`.
pub open spec fn count_of(s: Seq<Principal>, p: Principal) -> nat
    decreases s.len(),
{
    if s.len() == 0 {
        0
    } else {
        count_of(s.drop_last(), p) + if s.last() == p { 1nat } else { 0nat }
    }
}

/// Creation parameters that are acceptable at time `now`.
pub open spec fn valid_params(
    now: u64,
    end_time: u64,
    max_tickets: u32,
    ticket_price: i128,
    prize_amount: i128,
) -> bool {
    &&& (end_time == 0 || end_time >= now)
    &&& max_tickets > 0
    &&& ticket_price > 0
    &&& prize_amount > 0
}

/// The record of the creation of raffle `raffle_id` with the given parameters.
pub open spec fn creation_record(
    raffle_id: u64,
    creator: Principal,
    description: String,
    end_time: u64,
    max_tickets: u32,
    ticket_price: i128,
    payment_token: Principal,
) -> Event {
    Event::Initialized(
        RaffleInitialized {
            raffle_id,
            creator,
            end_time,
            max_tickets,
            ticket_price,
            payment_token,
            description,
        },
    )
}

/// `after` is `before` with exactly one more record at its end.
pub open spec fn one_more<T>(before: Seq<T>, after: Seq<T>) -> bool {
    after.len() == before.len() + 1 && after.drop_last() == before
}

/// `ev` is the record of a purchase of `q` tickets, the first of them after
/// `sold` earlier ones.
pub open spec fn is_purchase_record(
    ev: Event,
    raffle_id: u64,
    buyer: Principal,
    sold: int,
    q: int,
    paid: int,
    ts: u64,
) -> bool {
    match ev {
        Event::Purchased(p) => {
            &&& p.raffle_id == raffle_id
            &&& p.buyer == buyer
            &&& p.ticket_ids@ == minted_ids(sold, q)
            &&& p.quantity == q
            &&& p.total_paid == paid
            &&& p.timestamp == ts
        },
        _ => false,
    }
}

impl RaffleState {
    /// The invariants of a raffle and its ledger.
    pub open spec fn wf(&self) -> bool {
        let r = self.raffle;
        &&& r.max_tickets > 0
        &&& r.ticket_price > 0
        &&& r.prize_amount > 0
        &&& r.tickets_sold <= r.max_tickets
        &&& self.buyers@.len() == r.tickets_sold
        &&& self.tickets@.len() == r.tickets_sold
        &&& forall|i: int|
            0 <= i < self.tickets@.len() ==> {
                &&& (#[trigger] self.tickets@[i]).id == i + 1
                &&& self.tickets@[i].ticket_number == i + 1
                &&& self.tickets@[i].buyer == self.buyers@[i]
            }
        &&& (r.is_active <==> r.winner is None)
        &&& (!r.is_active ==> self.buyers@.contains(r.winner->0))
        &&& (r.prize_claimed ==> !r.is_active && r.prize_deposited)
    }

    /// The record of a raffle just created with the given parameters.
    pub open spec fn fresh(
        creator: Principal,
        description: String,
        end_time: u64,
        max_tickets: u32,
        allow_multiple: bool,
        ticket_price: i128,
        payment_token: Principal,
        prize_amount: i128,
    ) -> Raffle {
        Raffle {
            creator,
            description,
            end_time,
            max_tickets,
            allow_multiple,
            ticket_price,
            payment_token,
            prize_amount,
            tickets_sold: 0,
            is_active: true,
            prize_deposited: false,
            prize_claimed: false,
            winner: None,
        }
    }

    /// Validates the parameters and opens a raffle with no tickets sold,
    /// recording its creation.
    pub fn create(
        env: &Env,
        id: u64,
        creator: Principal,
        description: String,
        end_time: u64,
        max_tickets: u32,
        allow_multiple: bool,
        ticket_price: i128,
        payment_token: Principal,
        prize_amount: i128,
        journal: &mut Journal,
    ) -> (r: Result<RaffleState, Error>)
        ensures
            match r {
                Ok(s) => {
                    &&& valid_params(env.timestamp, end_time, max_tickets, ticket_price, prize_amount)
                    &&& s.wf()
                    &&& s.id == id
                    &&& s.raffle == Self::fresh(
                        creator,
                        description,
                        end_time,
                        max_tickets,
                        allow_multiple,
                        ticket_price,
                        payment_token,
                        prize_amount,
                    )
                    &&& final(journal).events@ == old(journal).events@.push(
                        creation_record(id, creator, description, end_time, max_tickets, ticket_price, payment_token),
                    )
                    &&& final(journal).transfers@ == old(journal).transfers@
                },
                Err(e) => {
                    &&& !valid_params(env.timestamp, end_time, max_tickets, ticket_price, prize_amount)
                    &&& e == Error::InvalidParameters
                    &&& *final(journal) == *old(journal)
                },
            },
    {
        if end_time < env.timestamp && end_time != 0 {
            return Err(Error::InvalidParameters);
        }
        if max_tickets == 0 || ticket_price <= 0 || prize_amount <= 0 {
            return Err(Error::InvalidParameters);
        }
        let raffle = Raffle {
            creator,
            description: description.clone(),
            end_time,
            max_tickets,
            allow_multiple,
            ticket_price,
            payment_token,
            prize_amount,
            tickets_sold: 0,
            is_active: true,
            prize_deposited: false,
            prize_claimed: false,
            winner: None,
        };
        journal.events.push(
            Event::Initialized(
                RaffleInitialized {
                    raffle_id: id,
                    creator,
                    end_time,
                    max_tickets,
                    ticket_price,
                    payment_token,
                    description,
                },
            ),
        );
        Ok(RaffleState { id, raffle, buyers: Vec::new(), tickets: Vec::new() })
    }

    /// Whether `buyer` already holds a ticket of this raffle.
    pub fn holds_ticket(&self, buyer: Principal) -> (r: bool)
        ensures
            r == self.buyers@.contains(buyer),
    {
        let mut i: usize = 0;
        while i < self.buyers.len()
            invariant
                i <= self.buyers@.len(),
                forall|j: int| 0 <= j < i ==> self.buyers@[j] != buyer,
            decreases self.buyers@.len() - i,
        {
            if self.buyers[i] == buyer {
                return true;
            }
            i += 1;
        }
        false
    }

    /// The number of tickets that `buyer` holds.
    pub fn ticket_count(&self, buyer: Principal) -> (r: u32)
        requires
            self.wf(),
        ensures
            r == count_of(self.buyers@, buyer),
    {
        let mut n: u32 = 0;
        let mut i: usize = 0;
        while i < self.buyers.len()
            invariant
                i <= self.buyers@.len(),
                self.buyers@.len() <= u32::MAX,
                n == count_of(self.buyers@.take(i as int), buyer),
                n <= i,
            decreases self.buyers@.len() - i,
        {
            assert(self.buyers@.take(i as int + 1).drop_last() =~= self.buyers@.take(i as int));
            if self.buyers[i] == buyer {
                n += 1;
            }
            i += 1;
        }
        assert(self.buyers@.take(i as int) =~= self.buyers@);
        n
    }

    /// Why a purchase of `quantity` tickets by `buyer` is refused, if it is;
    /// the checks are made in this order.
    pub open spec fn buy_error(&self, env: Env, buyer: Principal, quantity: u32) -> Option<Error> {
        let r = self.raffle;
        if env.caller != buyer {
            Some(Error::NotAuthorized)
        } else if !r.is_active {
            Some(Error::RaffleInactive)
        } else if r.end_time != 0 && env.timestamp > r.end_time {
            Some(Error::RaffleEnded)
        } else if quantity == 0 {
            Some(Error::InvalidParameters)
        } else if !r.allow_multiple && (quantity > 1 || self.buyers@.contains(buyer)) {
            Some(Error::MultipleTicketsNotAllowed)
        } else if r.tickets_sold + quantity > r.max_tickets {
            Some(Error::InsufficientTickets)
        } else if r.ticket_price * quantity > i128::MAX {
            Some(Error::ArithmeticOverflow)
        } else {
            None
        }
    }

    /// What a call of `buy_tickets` does: on success `quantity` tickets are
    /// appended to the ledger, paid for in one transfer and announced in one
    /// record; on failure nothing changes.
    pub open spec fn buy_outcome(
        s: RaffleState,
        j: Journal,
        env: Env,
        buyer: Principal,
        quantity: u32,
        r: Result<u32, Error>,
        s2: RaffleState,
        j2: Journal,
    ) -> bool {
        let sold = s.raffle.tickets_sold as int;
        let paid = s.raffle.ticket_price * quantity;
        match r {
            Ok(n) => {
                &&& s.buy_error(env, buyer, quantity) is None
                &&& n == sold + quantity
                &&& s2.id == s.id
                &&& s2.raffle == Raffle { tickets_sold: n, ..s.raffle }
                &&& s2.buyers@ == s.buyers@ + repeated(buyer, quantity as int)
                &&& s2.tickets@ == s.tickets@ + minted_tickets(
                    sold,
                    quantity as int,
                    buyer,
                    env.timestamp,
                )
                &&& j2.transfers@ == j.transfers@.push(
                    Transfer {
                        token: s.raffle.payment_token,
                        from: buyer,
                        to: env.contract,
                        amount: paid as i128,
                    },
                )
                &&& one_more(j.events@, j2.events@)
                &&& is_purchase_record(
                    j2.events@.last(),
                    s.id,
                    buyer,
                    sold,
                    quantity as int,
                    paid,
                    env.timestamp,
                )
            },
            Err(e) => {
                &&& s.buy_error(env, buyer, quantity) == Some(e)
                &&& s2 == s
                &&& j2 == j
            },
        }
    }

    /// Sells `quantity` tickets to `buyer` and returns the new number of
    /// tickets sold.
    pub fn buy_tickets(&mut self, env: &Env, buyer: Principal, quantity: u32, journal: &mut Journal) -> (r: Result<u32, Error>)
        requires
            old(self).wf(),
        ensures
            final(self).wf(),
            Self::buy_outcome(*old(self), *old(journal), *env, buyer, quantity, r, *final(self), *final(journal)),
    {
        if !is_authorized(env, buyer) {
            return Err(Error::NotAuthorized);
        }
        if !self.raffle.is_active {
            return Err(Error::RaffleInactive);
        }
        if self.raffle.end_time != 0 && env.timestamp > self.raffle.end_time {
            return Err(Error::RaffleEnded);
        }
        if quantity == 0 {
            return Err(Error::InvalidParameters);
        }
        if !self.raffle.allow_multiple && (quantity > 1 || self.holds_ticket(buyer)) {
            return Err(Error::MultipleTicketsNotAllowed);
        }
        if self.raffle.tickets_sold as u64 + quantity as u64 > self.raffle.max_tickets as u64 {
            return Err(Error::InsufficientTickets);
        }
        let total_paid = match self.raffle.ticket_price.checked_mul(quantity as i128) {
            Some(t) => t,
            None => return Err(Error::ArithmeticOverflow),
        };
        let sold = self.raffle.tickets_sold;
        let ts = env.timestamp;
        let mut ids: Vec<u32> = Vec::new();
        let mut k: u32 = 0;
        while k < quantity
            invariant
                sold == old(self).raffle.tickets_sold,
                sold + quantity <= old(self).raffle.max_tickets,
                k <= quantity,
                self.id == old(self).id,
                self.raffle == old(self).raffle,
                self.buyers@ == old(self).buyers@ + repeated(buyer, k as int),
                self.tickets@ == old(self).tickets@ + minted_tickets(sold as int, k as int, buyer, ts),
                ids@ == minted_ids(sold as int, k as int),
            decreases quantity - k,
        {
            let id: u32 = sold + k + 1;
            self.buyers.push(buyer);
            self.tickets.push(Ticket { id, buyer, purchase_time: ts, ticket_number: id });
            ids.push(id);
            k += 1;
            assert(self.buyers@ =~= old(self).buyers@ + repeated(buyer, k as int));
            assert(self.tickets@ =~= old(self).tickets@ + minted_tickets(sold as int, k as int, buyer, ts));
            assert(ids@ =~= minted_ids(sold as int, k as int));
        }
        self.raffle.tickets_sold = sold + quantity;
        journal.transfers.push(
            Transfer { token: self.raffle.payment_token, from: buyer, to: env.contract, amount: total_paid },
        );
        journal.events.push(
            Event::Purchased(
                TicketPurchased {
                    raffle_id: self.id,
                    buyer,
                    ticket_ids: ids,
                    quantity,
                    total_paid,
                    timestamp: ts,
                },
            ),
        );
        proof {
            assert(journal.events@.drop_last() =~= old(journal).events@);
            assert forall|i: int| 0 <= i < self.tickets@.len() implies {
                &&& (#[trigger] self.tickets@[i]).id == i + 1
                &&& self.tickets@[i].ticket_number == i + 1
                &&& self.tickets@[i].buyer == self.buyers@[i]
            } by {
                if i >= sold {
                    assert(self.tickets@[i] == minted_tickets(sold as int, quantity as int, buyer, ts)[i - sold]);
                    assert(self.buyers@[i] == repeated(buyer, quantity as int)[i - sold]);
                } else {
                    assert(self.tickets@[i] == old(self).tickets@[i]);
                    assert(self.buyers@[i] == old(self).buyers@[i]);
                }
            }
        }
        Ok(self.raffle.tickets_sold)
    }

    /// Why a prize deposit is refused, if it is.
    pub open spec fn deposit_error(&self, env: Env) -> Option<Error> {
        if env.caller != self.raffle.creator {
            Some(Error::NotAuthorized)
        } else if !self.raffle.is_active {
            Some(Error::RaffleInactive)
        } else if self.raffle.prize_deposited {
            Some(Error::PrizeAlreadyDeposited)
        } else {
            None
        }
    }

    /// What a call of `deposit_prize` does: on success the prize moves from
    /// the creator into custody and the raffle is marked as funded.
    pub open spec fn deposit_outcome(
        s: RaffleState,
        j: Journal,
        env: Env,
        r: Result<(), Error>,
        s2: RaffleState,
        j2: Journal,
    ) -> bool {
        match r {
            Ok(_) => {
                &&& s.deposit_error(env) is None
                &&& s2 == RaffleState { raffle: Raffle { prize_deposited: true, ..s.raffle }, ..s }
                &&& j2.transfers@ == j.transfers@.push(
                    Transfer {
                        token: s.raffle.payment_token,
                        from: s.raffle.creator,
                        to: env.contract,
                        amount: s.raffle.prize_amount,
                    },
                )
                &&& j2.events@ == j.events@
            },
            Err(e) => {
                &&& s.deposit_error(env) == Some(e)
                &&& s2 == s
                &&& j2 == j
            },
        }
    }

    /// Moves the prize from the creator into the contract's custody.
    pub fn deposit_prize(&mut self, env: &Env, journal: &mut Journal) -> (r: Result<(), Error>)
        requires
            old(self).wf(),
        ensures
            final(self).wf(),
            Self::deposit_outcome(*old(self), *old(journal), *env, r, *final(self), *final(journal)),
    {
        if !is_authorized(env, self.raffle.creator) {
            return Err(Error::NotAuthorized);
        }
        if !self.raffle.is_active {
            return Err(Error::RaffleInactive);
        }
        if self.raffle.prize_deposited {
            return Err(Error::PrizeAlreadyDeposited);
        }
        journal.transfers.push(
            Transfer {
                token: self.raffle.payment_token,
                from: self.raffle.creator,
                to: env.contract,
                amount: self.raffle.prize_amount,
            },
        );
        self.raffle.prize_deposited = true;
        Ok(())
    }

    /// Why a finalization is refused, if it is.
    pub open spec fn finalize_error(&self, env: Env) -> Option<Error> {
        let r = self.raffle;
        if env.caller != r.creator {
            Some(Error::NotAuthorized)
        } else if !r.is_active {
            Some(Error::RaffleInactive)
        } else if r.end_time != 0 && env.timestamp < r.end_time {
            Some(Error::RaffleStillRunning)
        } else if r.tickets_sold == 0 {
            Some(Error::NoTicketsSold)
        } else {
            None
        }
    }

    /// What a call of `finalize_raffle` does: on success the holder of the
    /// drawn ledger entry becomes the winner, sales close, and the draw is
    /// recorded with the caller's label for its randomness source.
    pub open spec fn finalize_outcome(
        s: RaffleState,
        j: Journal,
        env: Env,
        source: String,
        r: Result<Principal, Error>,
        s2: RaffleState,
        j2: Journal,
    ) -> bool {
        let idx = draw_index_spec(env.timestamp, env.sequence, s.raffle.tickets_sold);
        match r {
            Ok(w) => {
                &&& s.finalize_error(env) is None
                &&& w == s.buyers@[idx]
                &&& s2 == RaffleState {
                    raffle: Raffle { is_active: false, winner: Some(w), ..s.raffle },
                    ..s
                }
                &&& j2.events@ == j.events@.push(
                    Event::Finalized(
                        RaffleFinalized {
                            raffle_id: s.id,
                            winner: w,
                            winning_ticket_id: idx as u32,
                            total_tickets_sold: s.raffle.tickets_sold,
                            randomness_source: source,
                            finalized_at: env.timestamp,
                        },
                    ),
                )
                &&& j2.transfers@ == j.transfers@
            },
            Err(e) => {
                &&& s.finalize_error(env) == Some(e)
                &&& s2 == s
                &&& j2 == j
            },
        }
    }

    /// Closes sales and draws the winner among the sold tickets.
    pub fn finalize_raffle(&mut self, env: &Env, source: String, journal: &mut Journal) -> (r: Result<Principal, Error>)
        requires
            old(self).wf(),
        ensures
            final(self).wf(),
            Self::finalize_outcome(*old(self), *old(journal), *env, source, r, *final(self), *final(journal)),
    {
        if !is_authorized(env, self.raffle.creator) {
            return Err(Error::NotAuthorized);
        }
        if !self.raffle.is_active {
            return Err(Error::RaffleInactive);
        }
        if self.raffle.end_time != 0 && env.timestamp < self.raffle.end_time {
            return Err(Error::RaffleStillRunning);
        }
        if self.raffle.tickets_sold == 0 {
            return Err(Error::NoTicketsSold);
        }
        let idx = draw_index(env.timestamp, env.sequence, self.raffle.tickets_sold);
        let winner = self.buyers[idx as usize];
        self.raffle.is_active = false;
        self.raffle.winner = Some(winner);
        journal.events.push(
            Event::Finalized(
                RaffleFinalized {
                    raffle_id: self.id,
                    winner,
                    winning_ticket_id: idx,
                    total_tickets_sold: self.raffle.tickets_sold,
                    randomness_source: source,
                    finalized_at: env.timestamp,
                },
            ),
        );
        assert(self.buyers@[idx as int] == winner);
        Ok(winner)
    }

    /// Why a prize claim by `claimant` is refused, if it is.
    pub open spec fn claim_error(&self, env: Env, claimant: Principal) -> Option<Error> {
        let r = self.raffle;
        if env.caller != claimant {
            Some(Error::NotAuthorized)
        } else if r.winner != Some(claimant) {
            Some(Error::NotWinner)
        } else if !r.prize_deposited {
            Some(Error::PrizeNotDeposited)
        } else if r.prize_claimed {
            Some(Error::PrizeAlreadyClaimed)
        } else {
            None
        }
    }

    /// What a call of `claim_prize` does: on success the whole prize moves
    /// from custody to the winner, once, and the payout is recorded with a
    /// fee of zero.
    pub open spec fn claim_outcome(
        s: RaffleState,
        j: Journal,
        env: Env,
        claimant: Principal,
        r: Result<i128, Error>,
        s2: RaffleState,
        j2: Journal,
    ) -> bool {
        let prize = s.raffle.prize_amount;
        match r {
            Ok(n) => {
                &&& s.claim_error(env, claimant) is None
                &&& n == prize
                &&& s2 == RaffleState { raffle: Raffle { prize_claimed: true, ..s.raffle }, ..s }
                &&& j2.transfers@ == j.transfers@.push(
                    Transfer {
                        token: s.raffle.payment_token,
                        from: env.contract,
                        to: claimant,
                        amount: prize,
                    },
                )
                &&& j2.events@ == j.events@.push(
                    Event::Claimed(
                        PrizeClaimed {
                            raffle_id: s.id,
                            winner: claimant,
                            gross_amount: prize,
                            net_amount: prize,
                            platform_fee: 0,
                            claimed_at: env.timestamp,
                        },
                    ),
                )
            },
            Err(e) => {
                &&& s.claim_error(env, claimant) == Some(e)
                &&& s2 == s
                &&& j2 == j
            },
        }
    }

    /// Pays the prize to the winner and returns the amount paid.
    pub fn claim_prize(&mut self, env: &Env, claimant: Principal, journal: &mut Journal) -> (r: Result<i128, Error>)
        requires
            old(self).wf(),
        ensures
            final(self).wf(),
            Self::claim_outcome(*old(self), *old(journal), *env, claimant, r, *final(self), *final(journal)),
    {
        if !is_authorized(env, claimant) {
            return Err(Error::NotAuthorized);
        }
        let is_winner = match self.raffle.winner {
            Some(w) => w == claimant,
            None => false,
        };
        if !is_winner {
            return Err(Error::NotWinner);
        }
        if !self.raffle.prize_deposited {
            return Err(Error::PrizeNotDeposited);
        }
        if self.raffle.prize_claimed {
            return Err(Error::PrizeAlreadyClaimed);
        }
        let gross_amount = self.raffle.prize_amount;
        let platform_fee: i128 = 0;
        let net_amount = gross_amount;
        journal.transfers.push(
            Transfer { token: self.raffle.payment_token, from: env.contract, to: claimant, amount: net_amount },
        );
        journal.events.push(
            Event::Claimed(
                PrizeClaimed {
                    raffle_id: self.id,
                    winner: claimant,
                    gross_amount,
                    net_amount,
                    platform_fee,
                    claimed_at: env.timestamp,
                },
            ),
        );
        self.raffle.prize_claimed = true;
        Ok(net_amount)
    }

    /// Sales figures; the revenue is the price of every ticket sold, and
    /// `ArithmeticOverflow` is returned where it does not fit.
    pub fn stats(&self) -> (r: Result<RaffleStats, Error>)
        requires
            self.wf(),
        ensures
            match r {
                Ok(st) => {
                    &&& self.raffle.tickets_sold * self.raffle.ticket_price <= i128::MAX
                    &&& st == RaffleStats {
                        tickets_sold: self.raffle.tickets_sold,
                        max_tickets: self.raffle.max_tickets,
                        tickets_remaining: (self.raffle.max_tickets - self.raffle.tickets_sold) as u32,
                        total_revenue: (self.raffle.tickets_sold * self.raffle.ticket_price) as i128,
                    }
                },
                Err(e) => {
                    &&& self.raffle.tickets_sold * self.raffle.ticket_price > i128::MAX
                    &&& e == Error::ArithmeticOverflow
                },
            },
    {
        let revenue = match (self.raffle.tickets_sold as i128).checked_mul(self.raffle.ticket_price) {
            Some(v) => v,
            None => return Err(Error::ArithmeticOverflow),
        };
        Ok(
            RaffleStats {
                tickets_sold: self.raffle.tickets_sold,
                max_tickets: self.raffle.max_tickets,
                tickets_remaining: self.raffle.max_tickets - self.raffle.tickets_sold,
                total_revenue: revenue,
            },
        )
    }
}

} // verus!
