use vstd::prelude::*;

use crate::lifecycle::{creation_record, RaffleState};
use crate::types::{is_authorized, Env, Error, Journal, Principal, Raffle, Ticket};

verus! {

/// A contract that holds a single raffle, set up once by the factory that
/// deployed it.
#[derive(Clone, Debug)]
pub struct Contract {
    pub state: Option<RaffleState>,
    pub factory: Option<Principal>,
    pub journal: Journal,
}

impl Contract {
    pub open spec fn wf(&self) -> bool {
        match self.state {
            Some(s) => s.wf() && s.id == 0 && self.factory is Some,
            None => self.factory is None,
        }
    }

    /// A contract with no raffle yet.
    pub fn new() -> (r: Contract)
        ensures
            r.wf(),
            r.state is None,
            r.journal.events@.len() == 0,
            r.journal.transfers@.len() == 0,
    {
        Contract { state: None, factory: None, journal: Journal::new() }
    }

    /// Sets up the raffle on behalf of the factory that deployed the
    /// contract, which must authorise the call; refused once a raffle
    /// exists, and on parameters that `valid_params` rejects.
    pub fn init(
        &mut self,
        env: &Env,
        factory: Principal,
        creator: Principal,
        description: String,
        end_time: u64,
        max_tickets: u32,
        allow_multiple: bool,
        ticket_price: i128,
        payment_token: Principal,
        prize_amount: i128,
    ) -> (r: Result<(), Error>)
        requires
            old(self).wf(),
        ensures
            final(self).wf(),
            env.caller != factory ==> r == Err::<(), Error>(Error::NotAuthorized) && *final(self) == *old(self),
            env.caller == factory && old(self).state is Some ==> r == Err::<(), Error>(Error::AlreadyInitialized)
                && *final(self) == *old(self),
            env.caller == factory && old(self).state is None ==> {
                match r {
                    Ok(_) => {
                        &&& crate::lifecycle::valid_params(env.timestamp, end_time, max_tickets, ticket_price, prize_amount)
                        &&& final(self).factory == Some(factory)
                        &&& final(self).state->0.raffle == RaffleState::fresh(
                            creator,
                            description,
                            end_time,
                            max_tickets,
                            allow_multiple,
                            ticket_price,
                            payment_token,
                            prize_amount,
                        )
                        &&& final(self).state->0.buyers@.len() == 0
                        &&& final(self).journal.events@ == old(self).journal.events@.push(
                        creation_record(0, creator, description, end_time, max_tickets, ticket_price, payment_token),
                    )
                        &&& final(self).journal.transfers@ == old(self).journal.transfers@
                    },
                    Err(e) => {
                        &&& !crate::lifecycle::valid_params(env.timestamp, end_time, max_tickets, ticket_price, prize_amount)
                        &&& e == Error::InvalidParameters
                        &&& *final(self) == *old(self)
                    },
                }
            },
    {
        if !is_authorized(env, factory) {
            return Err(Error::NotAuthorized);
        }
        if self.state.is_some() {
            return Err(Error::AlreadyInitialized);
        }
        let created = RaffleState::create(
            env,
            0,
            creator,
            description,
            end_time,
            max_tickets,
            allow_multiple,
            ticket_price,
            payment_token,
            prize_amount,
            &mut self.journal,
        );
        match created {
            Ok(s) => {
                self.state = Some(s);
                self.factory = Some(factory);
                Ok(())
            },
            Err(e) => Err(e),
        }
    }

    /// Moves the prize from the creator into custody.
    pub fn deposit_prize(&mut self, env: &Env) -> (r: Result<(), Error>)
        requires
            old(self).wf(),
        ensures
            final(self).wf(),
            final(self).factory == old(self).factory,
            match old(self).state {
                None => r == Err::<(), Error>(Error::NotInitialized) && *final(self) == *old(self),
                Some(s) => final(self).state is Some && RaffleState::deposit_outcome(
                    s,
                    old(self).journal,
                    *env,
                    r,
                    final(self).state->0,
                    final(self).journal,
                ),
            },
    {
        match &mut self.state {
            Some(s) => s.deposit_prize(env, &mut self.journal),
            None => Err(Error::NotInitialized),
        }
    }

    /// Sells one ticket to `buyer`; returns the new number of tickets sold.
    pub fn buy_ticket(&mut self, env: &Env, buyer: Principal) -> (r: Result<u32, Error>)
        requires
            old(self).wf(),
        ensures
            final(self).wf(),
            final(self).factory == old(self).factory,
            match old(self).state {
                None => r == Err::<u32, Error>(Error::NotInitialized) && *final(self) == *old(self),
                Some(s) => final(self).state is Some && RaffleState::buy_outcome(
                    s,
                    old(self).journal,
                    *env,
                    buyer,
                    1,
                    r,
                    final(self).state->0,
                    final(self).journal,
                ),
            },
    {
        self.buy_tickets(env, buyer, 1)
    }

    /// Sells `quantity` tickets to `buyer` in one payment; returns the new
    /// number of tickets sold.
    pub fn buy_tickets(&mut self, env: &Env, buyer: Principal, quantity: u32) -> (r: Result<u32, Error>)
        requires
            old(self).wf(),
        ensures
            final(self).wf(),
            final(self).factory == old(self).factory,
            match old(self).state {
                None => r == Err::<u32, Error>(Error::NotInitialized) && *final(self) == *old(self),
                Some(s) => final(self).state is Some && RaffleState::buy_outcome(
                    s,
                    old(self).journal,
                    *env,
                    buyer,
                    quantity,
                    r,
                    final(self).state->0,
                    final(self).journal,
                ),
            },
    {
        match &mut self.state {
            Some(s) => s.buy_tickets(env, buyer, quantity, &mut self.journal),
            None => Err(Error::NotInitialized),
        }
    }

    /// Closes sales and draws the winner; `source` only labels the record.
    pub fn finalize_raffle(&mut self, env: &Env, source: String) -> (r: Result<Principal, Error>)
        requires
            old(self).wf(),
        ensures
            final(self).wf(),
            final(self).factory == old(self).factory,
            match old(self).state {
                None => r == Err::<Principal, Error>(Error::NotInitialized) && *final(self) == *old(self),
                Some(s) => final(self).state is Some && RaffleState::finalize_outcome(
                    s,
                    old(self).journal,
                    *env,
                    source,
                    r,
                    final(self).state->0,
                    final(self).journal,
                ),
            },
    {
        match &mut self.state {
            Some(s) => s.finalize_raffle(env, source, &mut self.journal),
            None => Err(Error::NotInitialized),
        }
    }

    /// Pays the prize to `winner`; returns the amount paid.
    pub fn claim_prize(&mut self, env: &Env, winner: Principal) -> (r: Result<i128, Error>)
        requires
            old(self).wf(),
        ensures
            final(self).wf(),
            final(self).factory == old(self).factory,
            match old(self).state {
                None => r == Err::<i128, Error>(Error::NotInitialized) && *final(self) == *old(self),
                Some(s) => final(self).state is Some && RaffleState::claim_outcome(
                    s,
                    old(self).journal,
                    *env,
                    winner,
                    r,
                    final(self).state->0,
                    final(self).journal,
                ),
            },
    {
        match &mut self.state {
            Some(s) => s.claim_prize(env, winner, &mut self.journal),
            None => Err(Error::NotInitialized),
        }
    }

    /// The raffle's record.
    pub fn get_raffle(&self) -> (r: Result<Raffle, Error>)
        ensures
            match self.state {
                None => r == Err::<Raffle, Error>(Error::NotInitialized),
                Some(s) => r == Ok::<Raffle, Error>(s.raffle),
            },
    {
        match &self.state {
            Some(s) => Ok(s.raffle.copy()),
            None => Err(Error::NotInitialized),
        }
    }

    /// The sold tickets, in order of sale.
    pub fn get_tickets(&self) -> (r: Vec<Ticket>)
        ensures
            match self.state {
                None => r@.len() == 0,
                Some(s) => r@ == s.tickets@,
            },
    {
        match &self.state {
            Some(s) => s.tickets.clone(),
            None => Vec::new(),
        }
    }
}

} // verus!
