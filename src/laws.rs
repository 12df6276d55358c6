use vstd::prelude::*;

use crate::lifecycle::{count_of, repeated, RaffleState};
use crate::types::{Env, Error, Event, Journal, Principal};

verus! {

/// Appending `q` entries of `p` raises the count of `p` by `q` and leaves
/// every other count as it was.
proof fn count_after_purchase(a: Seq<Principal>, p: Principal, q: nat, o: Principal)
    ensures
        count_of(a + repeated(p, q as int), o) == count_of(a, o) + if o == p { q } else { 0 },
    decreases q,
{
    if q == 0 {
        assert(a + repeated(p, 0) =~= a);
    } else {
        assert((a + repeated(p, q as int)).drop_last() =~= a + repeated(p, q - 1));
        count_after_purchase(a, p, (q - 1) as nat, o);
    }
}

/// A successful purchase of `q` tickets raises the number sold by exactly
/// `q`, grows the ledger by exactly `q` entries held by the buyer (so the
/// buyer's ticket count rises by `q` and no other count changes), and
/// appends exactly one purchase record, whose `q` ticket ids are strictly
/// increasing, are the ids of the new ledger entries, and were held by no
/// ticket before.
pub proof fn purchase_accounting(
    s: RaffleState,
    j: Journal,
    env: Env,
    buyer: Principal,
    q: u32,
    n: u32,
    s2: RaffleState,
    j2: Journal,
)
    requires
        s.wf(),
        RaffleState::buy_outcome(s, j, env, buyer, q, Ok(n), s2, j2),
    ensures
        s2.raffle.tickets_sold == s.raffle.tickets_sold + q,
        s2.buyers@.len() == s.buyers@.len() + q,
        s2.tickets@.len() == s.tickets@.len() + q,
        s2.buyers@.contains(buyer),
        forall|o: Principal|
            #[trigger] count_of(s2.buyers@, o) == count_of(s.buyers@, o) + if o == buyer { q as nat } else { 0 },
        j2.events@.len() == j.events@.len() + 1,
        j2.events@.drop_last() == j.events@,
        match j2.events@.last() {
            Event::Purchased(p) => {
                &&& p.buyer == buyer
                &&& p.quantity == q
                &&& p.ticket_ids@.len() == q
                &&& forall|a: int, b: int| 0 <= a < b < q ==> p.ticket_ids@[a] < p.ticket_ids@[b]
                &&& forall|a: int| 0 <= a < q ==> #[trigger] p.ticket_ids@[a] == s2.tickets@[s.tickets@.len() + a].id
                &&& forall|a: int, k: int|
                    0 <= a < q && 0 <= k < s.tickets@.len() ==> #[trigger] p.ticket_ids@[a] != #[trigger] s.tickets@[k].id
            },
            _ => false,
        },
{
    let sold = s.raffle.tickets_sold as int;
    assert(s2.buyers@[sold] == buyer);
    assert forall|o: Principal|
        #[trigger] count_of(s2.buyers@, o) == count_of(s.buyers@, o) + if o == buyer { q as nat } else { 0 } by {
        count_after_purchase(s.buyers@, buyer, q as nat, o);
    }
    match j2.events@.last() {
        Event::Purchased(p) => {
            assert forall|a: int| 0 <= a < q implies #[trigger] p.ticket_ids@[a] == s2.tickets@[s.tickets@.len() + a].id by {
                assert(s2.tickets@[sold + a] == crate::lifecycle::minted_tickets(sold, q as int, buyer, env.timestamp)[a]);
            }
            assert forall|a: int, k: int| 0 <= a < q && 0 <= k < s.tickets@.len() implies #[trigger] p.ticket_ids@[a] != #[trigger] s.tickets@[k].id by {
                assert(s.tickets@[k].id == k + 1);
            }
        },
        _ => {},
    }
}

/// The number of tickets sold never passes the cap: every operation keeps
/// `wf`, and a purchase that would pass it fails and leaves the raffle and
/// the journal as they were; with `InsufficientTickets` where no earlier
/// check refuses it.
pub proof fn sales_capped(
    s: RaffleState,
    j: Journal,
    env: Env,
    buyer: Principal,
    q: u32,
    r: Result<u32, Error>,
    s2: RaffleState,
    j2: Journal,
)
    requires
        s.wf(),
        RaffleState::buy_outcome(s, j, env, buyer, q, r, s2, j2),
    ensures
        s2.raffle.tickets_sold <= s2.raffle.max_tickets,
        s.raffle.tickets_sold + q > s.raffle.max_tickets ==> r is Err && s2 == s && j2 == j,
        s.raffle.tickets_sold + q > s.raffle.max_tickets && env.caller == buyer && s.raffle.is_active
            && !(s.raffle.end_time != 0 && env.timestamp > s.raffle.end_time) && q > 0
            && (s.raffle.allow_multiple || (q == 1 && !s.buyers@.contains(buyer)))
            ==> r == Err::<u32, Error>(Error::InsufficientTickets),
{
}

/// Where a buyer may hold a single ticket, a buyer who has bought once is
/// refused every further purchase, whatever the quantity, and nothing
/// changes; the refusal is `MultipleTicketsNotAllowed` whenever the buyer
/// authorised the call, the raffle still sells and the quantity is not zero.
pub proof fn one_ticket_per_buyer(
    s0: RaffleState,
    j0: Journal,
    env1: Env,
    buyer: Principal,
    q1: u32,
    n: u32,
    s1: RaffleState,
    j1: Journal,
    env2: Env,
    q2: u32,
    r2: Result<u32, Error>,
    s2: RaffleState,
    j2: Journal,
)
    requires
        s0.wf(),
        !s0.raffle.allow_multiple,
        RaffleState::buy_outcome(s0, j0, env1, buyer, q1, Ok(n), s1, j1),
        RaffleState::buy_outcome(s1, j1, env2, buyer, q2, r2, s2, j2),
    ensures
        r2 is Err,
        s2 == s1,
        j2 == j1,
        env2.caller == buyer && s1.raffle.is_active
            && !(s1.raffle.end_time != 0 && env2.timestamp > s1.raffle.end_time) && q2 > 0
            ==> r2 == Err::<u32, Error>(Error::MultipleTicketsNotAllowed),
{
    assert(s1.buyers@[s0.buyers@.len() as int] == buyer);
}

/// A raffle is finalized at most once: after a successful finalization the
/// winner is fixed, and a second call fails and changes nothing; with
/// `RaffleInactive` when the creator makes it.
pub proof fn finalize_once(
    s0: RaffleState,
    j0: Journal,
    env1: Env,
    source1: String,
    w: Principal,
    s1: RaffleState,
    j1: Journal,
    env2: Env,
    source2: String,
    r2: Result<Principal, Error>,
    s2: RaffleState,
    j2: Journal,
)
    requires
        s0.wf(),
        RaffleState::finalize_outcome(s0, j0, env1, source1, Ok(w), s1, j1),
        RaffleState::finalize_outcome(s1, j1, env2, source2, r2, s2, j2),
    ensures
        !s1.raffle.is_active,
        s1.raffle.winner == Some(w),
        r2 is Err,
        s2 == s1,
        j2 == j1,
        env2.caller == s1.raffle.creator ==> r2 == Err::<Principal, Error>(Error::RaffleInactive),
{
}

/// The prize is paid at most once: after a successful claim every further
/// claim, by anyone, fails and moves no funds; with `PrizeAlreadyClaimed`
/// when the winner makes it.
pub proof fn prize_paid_once(
    s0: RaffleState,
    j0: Journal,
    env1: Env,
    winner: Principal,
    n: i128,
    s1: RaffleState,
    j1: Journal,
    env2: Env,
    claimant: Principal,
    r2: Result<i128, Error>,
    s2: RaffleState,
    j2: Journal,
)
    requires
        s0.wf(),
        RaffleState::claim_outcome(s0, j0, env1, winner, Ok(n), s1, j1),
        RaffleState::claim_outcome(s1, j1, env2, claimant, r2, s2, j2),
    ensures
        j1.transfers@.len() == j0.transfers@.len() + 1,
        r2 is Err,
        s2 == s1,
        j2.transfers@ == j1.transfers@,
        env2.caller == claimant && claimant == winner ==> r2 == Err::<i128, Error>(Error::PrizeAlreadyClaimed),
{
}

/// A closed raffle stays closed: once sales have stopped, no operation
/// reopens them or changes the winner drawn.
pub proof fn closed_stays_closed(
    s: RaffleState,
    j: Journal,
    env: Env,
    party: Principal,
    q: u32,
    source: String,
    rb: Result<u32, Error>,
    rd: Result<(), Error>,
    rf: Result<Principal, Error>,
    rc: Result<i128, Error>,
    s2: RaffleState,
    j2: Journal,
)
    requires
        s.wf(),
        !s.raffle.is_active,
        RaffleState::buy_outcome(s, j, env, party, q, rb, s2, j2)
            || RaffleState::deposit_outcome(s, j, env, rd, s2, j2)
            || RaffleState::finalize_outcome(s, j, env, source, rf, s2, j2)
            || RaffleState::claim_outcome(s, j, env, party, rc, s2, j2),
    ensures
        !s2.raffle.is_active,
        s2.raffle.winner == s.raffle.winner,
{
}

} // verus!
