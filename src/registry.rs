use vstd::prelude::*;

use crate::lifecycle::{creation_record, valid_params, RaffleState};
use crate::types::{is_authorized, Env, Error, Journal, Principal, Raffle, Ticket};

verus! {

/// The largest page that a listing returns, whatever limit is asked for.
pub const MAX_PAGE_LIMIT: u32 = 100;

/// What a page says about the listing it was cut from.
#[derive(Clone, Copy, Debug, PartialEq, Eq, Structural)]
pub struct PageMeta {
    pub total: u64,
    pub offset: u64,
    pub limit: u32,
    pub has_more: bool,
}

/// One page of raffle ids.
#[derive(Clone, Debug)]
pub struct RaffleIdPage {
    pub data: Vec<u64>,
    pub meta: PageMeta,
}

/// The limit actually applied: the one asked for, but at most `MAX_PAGE_LIMIT`.
pub open spec fn clamped_limit(limit: u32) -> u32 {
    if limit > MAX_PAGE_LIMIT {
        MAX_PAGE_LIMIT
    } else {
        limit
    }
}

/// The number of entries on a page: none past the end, else as many as the
/// limit allows and the listing still holds.
pub open spec fn page_len(total: int, offset: int, limit: u32) -> int {
    if offset >= total {
        0
    } else if clamped_limit(limit) < total - offset {
        clamped_limit(limit) as int
    } else {
        total - offset
    }
}

/// The page of `ids` that starts `offset` entries in, counted from the
/// oldest entry or, with `newest_first`, from the newest.
pub open spec fn page_of(ids: Seq<u64>, offset: int, limit: u32, newest_first: bool) -> Seq<u64> {
    Seq::new(
        page_len(ids.len() as int, offset, limit) as nat,
        |i: int|
            if newest_first {
                ids[ids.len() - 1 - offset - i]
            } else {
                ids[offset + i]
            },
    )
}

/// Cuts one page out of `ids`, which stays as it is.
pub fn paginate(ids: &Vec<u64>, offset: u64, limit: u32, newest_first: bool) -> (r: RaffleIdPage)
    ensures
        r.data@ == page_of(ids@, offset as int, limit, newest_first),
        r.meta == (PageMeta {
            total: ids@.len() as u64,
            offset,
            limit: clamped_limit(limit),
            has_more: offset + r.data@.len() < ids@.len(),
        }),
{
    let total: u64 = ids.len() as u64;
    let lim: u32 = if limit > MAX_PAGE_LIMIT {
        MAX_PAGE_LIMIT
    } else {
        limit
    };
    let mut data: Vec<u64> = Vec::new();
    let count: u64 = if offset >= total {
        0
    } else if (lim as u64) < total - offset {
        lim as u64
    } else {
        total - offset
    };
    let mut i: u64 = 0;
    while i < count
        invariant
            total == ids@.len(),
            ids@.len() <= usize::MAX,
            count == page_len(total as int, offset as int, limit),
            i <= count,
            data@ == page_of(ids@, offset as int, limit, newest_first).take(i as int),
        decreases count - i,
    {
        let idx: u64 = if newest_first {
            total - 1 - offset - i
        } else {
            offset + i
        };
        assert(idx < total);
        let v: u64 = ids[idx as usize];
        assert(v == page_of(ids@, offset as int, limit, newest_first)[i as int]);
        data.push(v);
        i += 1;
        assert(data@ =~= page_of(ids@, offset as int, limit, newest_first).take(i as int));
    }
    assert(data@ =~= page_of(ids@, offset as int, limit, newest_first));
    let has_more = (offset as u128) + (count as u128) < (total as u128);
    RaffleIdPage { data, meta: PageMeta { total, offset, limit: lim, has_more } }
}

/// A contract that holds many raffles keyed by id, with the registry of
/// their ids in order of creation.
#[derive(Clone, Debug)]
pub struct RaffleFactory {
    pub admin: Option<Principal>,
    pub wasm_hash: Vec<u8>,
    pub registry: Vec<u64>,
    pub raffles: Vec<RaffleState>,
    pub journal: Journal,
}

impl RaffleFactory {
    /// Raffle `i` has id `i`, the registry lists the ids in order, and a
    /// factory holds no raffle before it is initialised.
    pub open spec fn wf(&self) -> bool {
        &&& (self.admin is None ==> self.registry@.len() == 0)
        &&& self.registry@.len() == self.raffles@.len()
        &&& forall|i: int| 0 <= i < self.registry@.len() ==> #[trigger] self.registry@[i] == i
        &&& forall|i: int|
            0 <= i < self.raffles@.len() ==> (#[trigger] self.raffles@[i]).wf() && self.raffles@[i].id == i
    }

    /// `other` differs from `self` at most in raffle `i` and in the journal.
    pub open spec fn only_raffle_changed(self, other: Self, i: int) -> bool {
        &&& other.raffles@ == self.raffles@.update(i, other.raffles@[i])
        &&& other.registry@ == self.registry@
        &&& other.admin == self.admin
        &&& other.wasm_hash@ == self.wasm_hash@
    }

    /// A factory with no admin and no raffles.
    pub fn new() -> (r: RaffleFactory)
        ensures
            r.wf(),
            r.admin is None,
            r.registry@.len() == 0,
            r.journal.events@.len() == 0,
            r.journal.transfers@.len() == 0,
    {
        RaffleFactory {
            admin: None,
            wasm_hash: Vec::new(),
            registry: Vec::new(),
            raffles: Vec::new(),
            journal: Journal::new(),
        }
    }

    /// Records the admin and the code hash of raffle instances; refused once
    /// an admin is set.
    pub fn init(&mut self, admin: Principal, wasm_hash: Vec<u8>) -> (r: Result<(), Error>)
        requires
            old(self).wf(),
        ensures
            final(self).wf(),
            old(self).admin is Some ==> r == Err::<(), Error>(Error::AlreadyInitialized) && *final(self) == *old(self),
            old(self).admin is None ==> {
                &&& r is Ok
                &&& final(self).admin == Some(admin)
                &&& final(self).wasm_hash@ == wasm_hash@
                &&& final(self).registry@.len() == 0
                &&& final(self).raffles@ == old(self).raffles@
                &&& final(self).journal == old(self).journal
            },
    {
        if self.admin.is_some() {
            return Err(Error::AlreadyInitialized);
        }
        self.admin = Some(admin);
        self.wasm_hash = wasm_hash;
        Ok(())
    }

    /// Opens a new raffle for `creator`, who must authorise the call, in an
    /// initialised factory, and returns its id: the number of raffles
    /// created before it.
    pub fn create_raffle(
        &mut self,
        env: &Env,
        creator: Principal,
        description: String,
        end_time: u64,
        max_tickets: u32,
        allow_multiple: bool,
        ticket_price: i128,
        payment_token: Principal,
        prize_amount: i128,
    ) -> (r: Result<u64, Error>)
        requires
            old(self).wf(),
        ensures
            final(self).wf(),
            env.caller != creator ==> r == Err::<u64, Error>(Error::NotAuthorized) && *final(self) == *old(self),
            env.caller == creator && old(self).admin is None ==> r == Err::<u64, Error>(Error::NotInitialized)
                && *final(self) == *old(self),
            env.caller == creator && old(self).admin is Some ==> match r {
                Ok(id) => {
                    &&& valid_params(env.timestamp, end_time, max_tickets, ticket_price, prize_amount)
                    &&& id == old(self).registry@.len()
                    &&& final(self).registry@ == old(self).registry@.push(id)
                    &&& final(self).raffles@.drop_last() == old(self).raffles@
                    &&& final(self).raffles@.len() == old(self).raffles@.len() + 1
                    &&& final(self).raffles@.last().raffle == RaffleState::fresh(
                        creator,
                        description,
                        end_time,
                        max_tickets,
                        allow_multiple,
                        ticket_price,
                        payment_token,
                        prize_amount,
                    )
                    &&& final(self).raffles@.last().buyers@.len() == 0
                    &&& final(self).admin == old(self).admin
                    &&& final(self).journal.events@ == old(self).journal.events@.push(
                        creation_record(id, creator, description, end_time, max_tickets, ticket_price, payment_token),
                    )
                    &&& final(self).journal.transfers@ == old(self).journal.transfers@
                },
                Err(e) => {
                    &&& !valid_params(env.timestamp, end_time, max_tickets, ticket_price, prize_amount)
                    &&& e == Error::InvalidParameters
                    &&& *final(self) == *old(self)
                },
            },
    {
        if !is_authorized(env, creator) {
            return Err(Error::NotAuthorized);
        }
        if self.admin.is_none() {
            return Err(Error::NotInitialized);
        }
        let id: u64 = self.registry.len() as u64;
        let created = RaffleState::create(
            env,
            id,
            creator,
            description,
            end_time,
            max_tickets,
            allow_multiple,
            ticket_price,
            payment_token,
            prize_amount,
            &mut self.journal,
        );
        match created {
            Ok(s) => {
                self.raffles.push(s);
                self.registry.push(id);
                assert(self.raffles@.drop_last() =~= old(self).raffles@);
                Ok(id)
            },
            Err(e) => Err(e),
        }
    }

    /// The registry: every raffle id, oldest first.
    pub fn get_raffles(&self) -> (r: Vec<u64>)
        requires
            self.wf(),
        ensures
            r@ == self.registry@,
            self.admin is None ==> r@.len() == 0,
    {
        self.registry.clone()
    }

    /// One page of raffle ids; see `paginate`.
    pub fn get_all_raffle_ids(&self, offset: u64, limit: u32, newest_first: bool) -> (r: RaffleIdPage)
        ensures
            r.data@ == page_of(self.registry@, offset as int, limit, newest_first),
            r.meta == (PageMeta {
                total: self.registry@.len() as u64,
                offset,
                limit: clamped_limit(limit),
                has_more: offset + r.data@.len() < self.registry@.len(),
            }),
    {
        paginate(&self.registry, offset, limit, newest_first)
    }

    /// Moves the prize of raffle `raffle_id` from its creator into custody.
    pub fn deposit_prize(&mut self, env: &Env, raffle_id: u64) -> (r: Result<(), Error>)
        requires
            old(self).wf(),
        ensures
            final(self).wf(),
            raffle_id >= old(self).raffles@.len() ==> r == Err::<(), Error>(Error::RaffleNotFound) && *final(self) == *old(self),
            raffle_id < old(self).raffles@.len() ==> {
                &&& old(self).only_raffle_changed(*final(self), raffle_id as int)
                &&& RaffleState::deposit_outcome(
                    old(self).raffles@[raffle_id as int],
                    old(self).journal,
                    *env,
                    r,
                    final(self).raffles@[raffle_id as int],
                    final(self).journal,
                )
            },
    {
        if raffle_id >= self.raffles.len() as u64 {
            return Err(Error::RaffleNotFound);
        }
        let i = raffle_id as usize;
        let r = self.raffles[i].deposit_prize(env, &mut self.journal);
        proof {
            assert forall|k: int| 0 <= k < self.raffles@.len() implies (#[trigger] self.raffles@[k]).wf()
                && self.raffles@[k].id == k by {
                if k != i {
                    assert(self.raffles@[k] == old(self).raffles@[k]);
                }
            }
        }
        r
    }

    /// Sells one ticket of raffle `raffle_id` to `buyer`; returns the new
    /// number of tickets sold.
    pub fn buy_ticket(&mut self, env: &Env, raffle_id: u64, buyer: Principal) -> (r: Result<u32, Error>)
        requires
            old(self).wf(),
        ensures
            final(self).wf(),
            raffle_id >= old(self).raffles@.len() ==> r == Err::<u32, Error>(Error::RaffleNotFound) && *final(self) == *old(self),
            raffle_id < old(self).raffles@.len() ==> {
                &&& old(self).only_raffle_changed(*final(self), raffle_id as int)
                &&& RaffleState::buy_outcome(
                    old(self).raffles@[raffle_id as int],
                    old(self).journal,
                    *env,
                    buyer,
                    1,
                    r,
                    final(self).raffles@[raffle_id as int],
                    final(self).journal,
                )
            },
    {
        if raffle_id >= self.raffles.len() as u64 {
            return Err(Error::RaffleNotFound);
        }
        let i = raffle_id as usize;
        let r = self.raffles[i].buy_tickets(env, buyer, 1, &mut self.journal);
        proof {
            assert forall|k: int| 0 <= k < self.raffles@.len() implies (#[trigger] self.raffles@[k]).wf()
                && self.raffles@[k].id == k by {
                if k != i {
                    assert(self.raffles@[k] == old(self).raffles@[k]);
                }
            }
        }
        r
    }

    /// Sells `quantity` tickets of raffle `raffle_id` to `buyer` in one
    /// payment; returns the new number of tickets sold.
    pub fn buy_tickets(&mut self, env: &Env, raffle_id: u64, buyer: Principal, quantity: u32) -> (r: Result<u32, Error>)
        requires
            old(self).wf(),
        ensures
            final(self).wf(),
            raffle_id >= old(self).raffles@.len() ==> r == Err::<u32, Error>(Error::RaffleNotFound) && *final(self) == *old(self),
            raffle_id < old(self).raffles@.len() ==> {
                &&& old(self).only_raffle_changed(*final(self), raffle_id as int)
                &&& RaffleState::buy_outcome(
                    old(self).raffles@[raffle_id as int],
                    old(self).journal,
                    *env,
                    buyer,
                    quantity,
                    r,
                    final(self).raffles@[raffle_id as int],
                    final(self).journal,
                )
            },
    {
        if raffle_id >= self.raffles.len() as u64 {
            return Err(Error::RaffleNotFound);
        }
        let i = raffle_id as usize;
        let r = self.raffles[i].buy_tickets(env, buyer, quantity, &mut self.journal);
        proof {
            assert forall|k: int| 0 <= k < self.raffles@.len() implies (#[trigger] self.raffles@[k]).wf()
                && self.raffles@[k].id == k by {
                if k != i {
                    assert(self.raffles@[k] == old(self).raffles@[k]);
                }
            }
        }
        r
    }

    /// Closes sales of raffle `raffle_id` and draws its winner; `source` only
    /// labels the record.
    pub fn finalize_raffle(&mut self, env: &Env, raffle_id: u64, source: String) -> (r: Result<Principal, Error>)
        requires
            old(self).wf(),
        ensures
            final(self).wf(),
            raffle_id >= old(self).raffles@.len() ==> r == Err::<Principal, Error>(Error::RaffleNotFound) && *final(self) == *old(self),
            raffle_id < old(self).raffles@.len() ==> {
                &&& old(self).only_raffle_changed(*final(self), raffle_id as int)
                &&& RaffleState::finalize_outcome(
                    old(self).raffles@[raffle_id as int],
                    old(self).journal,
                    *env,
                    source,
                    r,
                    final(self).raffles@[raffle_id as int],
                    final(self).journal,
                )
            },
    {
        if raffle_id >= self.raffles.len() as u64 {
            return Err(Error::RaffleNotFound);
        }
        let i = raffle_id as usize;
        let r = self.raffles[i].finalize_raffle(env, source, &mut self.journal);
        proof {
            assert forall|k: int| 0 <= k < self.raffles@.len() implies (#[trigger] self.raffles@[k]).wf()
                && self.raffles@[k].id == k by {
                if k != i {
                    assert(self.raffles@[k] == old(self).raffles@[k]);
                }
            }
        }
        r
    }

    /// Pays the prize of raffle `raffle_id` to `winner`; returns the amount paid.
    pub fn claim_prize(&mut self, env: &Env, raffle_id: u64, winner: Principal) -> (r: Result<i128, Error>)
        requires
            old(self).wf(),
        ensures
            final(self).wf(),
            raffle_id >= old(self).raffles@.len() ==> r == Err::<i128, Error>(Error::RaffleNotFound) && *final(self) == *old(self),
            raffle_id < old(self).raffles@.len() ==> {
                &&& old(self).only_raffle_changed(*final(self), raffle_id as int)
                &&& RaffleState::claim_outcome(
                    old(self).raffles@[raffle_id as int],
                    old(self).journal,
                    *env,
                    winner,
                    r,
                    final(self).raffles@[raffle_id as int],
                    final(self).journal,
                )
            },
    {
        if raffle_id >= self.raffles.len() as u64 {
            return Err(Error::RaffleNotFound);
        }
        let i = raffle_id as usize;
        let r = self.raffles[i].claim_prize(env, winner, &mut self.journal);
        proof {
            assert forall|k: int| 0 <= k < self.raffles@.len() implies (#[trigger] self.raffles@[k]).wf()
                && self.raffles@[k].id == k by {
                if k != i {
                    assert(self.raffles@[k] == old(self).raffles@[k]);
                }
            }
        }
        r
    }

    /// The record of raffle `raffle_id`.
    pub fn get_raffle(&self, raffle_id: u64) -> (r: Result<Raffle, Error>)
        ensures
            raffle_id >= self.raffles@.len() ==> r == Err::<Raffle, Error>(Error::RaffleNotFound),
            raffle_id < self.raffles@.len() ==> r == Ok::<Raffle, Error>(self.raffles@[raffle_id as int].raffle),
    {
        if raffle_id >= self.raffles.len() as u64 {
            return Err(Error::RaffleNotFound);
        }
        Ok(self.raffles[raffle_id as usize].raffle.copy())
    }

    /// The sold tickets of raffle `raffle_id`, in order of sale.
    pub fn get_tickets(&self, raffle_id: u64) -> (r: Result<Vec<Ticket>, Error>)
        ensures
            raffle_id >= self.raffles@.len() ==> r is Err && r->Err_0 == Error::RaffleNotFound,
            raffle_id < self.raffles@.len() ==> r is Ok && r->Ok_0@ == self.raffles@[raffle_id as int].tickets@,
    {
        if raffle_id >= self.raffles.len() as u64 {
            return Err(Error::RaffleNotFound);
        }
        Ok(self.raffles[raffle_id as usize].tickets.clone())
    }
}

} // verus!
