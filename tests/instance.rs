use raffle::instance::Contract;
use raffle::types::{Env, Event, Journal, Principal};
use std::collections::HashMap;

const CREATOR: Principal = 1;
const BUYER: Principal = 2;
const FACTORY: Principal = 4;
const TOKEN: Principal = 5;
const CONTRACT: Principal = 6;

fn env_at(caller: Principal, timestamp: u64) -> Env {
    Env { caller, contract: CONTRACT, timestamp, sequence: 0 }
}

fn env(caller: Principal) -> Env {
    env_at(caller, 0)
}

/// Balances after the journal's transfers, from the given opening balances.
fn balances(opening: &[(Principal, i128)], journal: &Journal) -> HashMap<Principal, i128> {
    let mut b: HashMap<Principal, i128> = opening.iter().cloned().collect();
    for t in &journal.transfers {
        assert_eq!(t.token, TOKEN);
        *b.entry(t.from).or_insert(0) -= t.amount;
        *b.entry(t.to).or_insert(0) += t.amount;
    }
    b
}

fn setup_raffle_env(timestamp: u64) -> Contract {
    let mut c = Contract::new();
    c.init(
        &env_at(FACTORY, timestamp),
        FACTORY,
        CREATOR,
        "Audit Raffle".to_string(),
        0,
        10,
        false,
        10i128,
        TOKEN,
        100i128,
    )
    .unwrap();
    c
}

#[test]
fn test_basic_raffle_flow() {
    let mut client = setup_raffle_env(0);
    client.deposit_prize(&env(CREATOR)).unwrap();
    client.buy_ticket(&env(BUYER), BUYER).unwrap();
    let winner = client.finalize_raffle(&env(CREATOR), "prng".to_string()).unwrap();
    let _claimed_amount = client.claim_prize(&env(winner), winner).unwrap();

    let b = balances(&[(CREATOR, 1_000), (BUYER, 1_000)], &client.journal);
    assert_eq!(b[&winner], 1_090i128);
    assert_eq!(b[&CREATOR], 900i128);
}

#[test]
fn test_randomness_source_prng() {
    let mut client = setup_raffle_env(0);
    client.deposit_prize(&env(CREATOR)).unwrap();
    client.buy_ticket(&env(BUYER), BUYER).unwrap();
    let winner = client.finalize_raffle(&env(CREATOR), "prng".to_string()).unwrap();
    assert_eq!(winner, BUYER);
}

#[test]
fn test_randomness_source_oracle() {
    let mut client = setup_raffle_env(0);
    client.deposit_prize(&env(CREATOR)).unwrap();
    client.buy_ticket(&env(BUYER), BUYER).unwrap();
    let winner = client.finalize_raffle(&env(CREATOR), "oracle".to_string()).unwrap();
    assert_eq!(winner, BUYER);
}

#[test]
fn test_raffle_finalized_event_audit() {
    let expected_timestamp = 123456789;
    let mut client = setup_raffle_env(expected_timestamp);
    let buyer_2: Principal = 7;
    client.deposit_prize(&env_at(CREATOR, expected_timestamp)).unwrap();
    client.buy_ticket(&env_at(BUYER, expected_timestamp), BUYER).unwrap();
    client.buy_ticket(&env_at(buyer_2, expected_timestamp), buyer_2).unwrap();
    let _winner = client
        .finalize_raffle(&env_at(CREATOR, expected_timestamp), "oracle".to_string())
        .unwrap();

    let last_event = client.journal.events.last().expect("No event emitted");
    assert!(matches!(last_event, Event::Finalized(_)));
}

#[test]
fn test_single_ticket_purchase_event() {
    let mut client = setup_raffle_env(0);
    client.deposit_prize(&env(CREATOR)).unwrap();
    client.buy_ticket(&env(BUYER), BUYER).unwrap();

    let last_event = client.journal.events.last().expect("No events");
    assert!(matches!(last_event, Event::Purchased(_)));
}
