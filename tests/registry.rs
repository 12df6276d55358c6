use raffle::registry::RaffleFactory;
use raffle::types::{Env, Event, Journal, Principal, TicketPurchased};
use std::collections::HashMap;

const CREATOR: Principal = 11;
const BUYER: Principal = 12;
const TOKEN: Principal = 15;
const CONTRACT: Principal = 16;
const ADMIN: Principal = 18;

fn env_at(caller: Principal, timestamp: u64) -> Env {
    Env { caller, contract: CONTRACT, timestamp, sequence: 0 }
}

fn env(caller: Principal) -> Env {
    env_at(caller, 0)
}

fn balances(opening: &[(Principal, i128)], journal: &Journal) -> HashMap<Principal, i128> {
    let mut b: HashMap<Principal, i128> = opening.iter().cloned().collect();
    for t in &journal.transfers {
        assert_eq!(t.token, TOKEN);
        *b.entry(t.from).or_insert(0) -= t.amount;
        *b.entry(t.to).or_insert(0) += t.amount;
    }
    b
}

fn create(client: &mut RaffleFactory, timestamp: u64, description: &str, allow_multiple: bool, price: i128, prize: i128) -> u64 {
    client
        .create_raffle(
            &env_at(CREATOR, timestamp),
            CREATOR,
            description.to_string(),
            0,
            10,
            allow_multiple,
            price,
            TOKEN,
            prize,
        )
        .unwrap()
}

/// A factory that has been initialised by its admin.
fn new_factory() -> RaffleFactory {
    let mut client = RaffleFactory::new();
    client.init(ADMIN, vec![0xab]).unwrap();
    client
}

fn setup_raffle_env(timestamp: u64) -> (RaffleFactory, u64) {
    let mut client = new_factory();
    let raffle_id = create(&mut client, timestamp, "Audit Raffle", false, 10, 100);
    (client, raffle_id)
}

/// The purchase records of `raffle_id`, in order.
fn purchases(journal: &Journal, raffle_id: u64) -> Vec<TicketPurchased> {
    journal
        .events
        .iter()
        .filter_map(|e| match e {
            Event::Purchased(p) if p.raffle_id == raffle_id => Some(p.clone()),
            _ => None,
        })
        .collect()
}

#[test]
fn test_test_basic_raffle_flow() {
    let (mut client, raffle_id) = setup_raffle_env(0);
    client.deposit_prize(&env(CREATOR), raffle_id).unwrap();
    client.buy_ticket(&env(BUYER), raffle_id, BUYER).unwrap();
    let winner = client.finalize_raffle(&env(CREATOR), raffle_id, "prng".to_string()).unwrap();
    let claimed_amount = client.claim_prize(&env(winner), raffle_id, winner).unwrap();
    assert_eq!(claimed_amount, 100);

    let b = balances(&[(CREATOR, 1_000), (BUYER, 1_000)], &client.journal);
    assert_eq!(b[&winner], 1_090i128);
    assert_eq!(b[&CREATOR], 900i128);
}

#[test]
fn test_test_randomness_source_prng() {
    let (mut client, raffle_id) = setup_raffle_env(0);
    client.deposit_prize(&env(CREATOR), raffle_id).unwrap();
    client.buy_ticket(&env(BUYER), raffle_id, BUYER).unwrap();
    let winner = client.finalize_raffle(&env(CREATOR), raffle_id, "prng".to_string()).unwrap();
    assert_eq!(winner, BUYER);
}

#[test]
fn test_test_randomness_source_oracle() {
    let (mut client, raffle_id) = setup_raffle_env(0);
    client.deposit_prize(&env(CREATOR), raffle_id).unwrap();
    client.buy_ticket(&env(BUYER), raffle_id, BUYER).unwrap();
    let winner = client.finalize_raffle(&env(CREATOR), raffle_id, "oracle".to_string()).unwrap();
    assert_eq!(winner, BUYER);
}

#[test]
fn test_test_raffle_finalized_event_audit() {
    let expected_timestamp = 123456789;
    let (mut client, raffle_id) = setup_raffle_env(expected_timestamp);
    let buyer_1 = BUYER;
    let buyer_2: Principal = 17;
    client.deposit_prize(&env_at(CREATOR, expected_timestamp), raffle_id).unwrap();
    client.buy_ticket(&env_at(buyer_1, expected_timestamp), raffle_id, buyer_1).unwrap();
    client.buy_ticket(&env_at(buyer_2, expected_timestamp), raffle_id, buyer_2).unwrap();

    let source = "oracle".to_string();
    let winner = client
        .finalize_raffle(&env_at(CREATOR, expected_timestamp), raffle_id, source.clone())
        .unwrap();

    let last_event = client.journal.events.last().expect("No event emitted");
    let event_data = match last_event {
        Event::Finalized(f) => f.clone(),
        _ => panic!("finalized"),
    };
    assert_eq!(event_data.raffle_id, raffle_id);
    assert_eq!(event_data.winner, winner);
    assert_eq!(event_data.total_tickets_sold, 2);
    assert_eq!(event_data.randomness_source, source);
    assert_eq!(event_data.finalized_at, expected_timestamp);
    assert!(event_data.winning_ticket_id < 2);
}

#[test]
fn test_test_single_ticket_purchase_event() {
    let mut client = new_factory();
    let raffle_id = create(&mut client, 0, "Test Raffle", true, 10, 100);
    client.deposit_prize(&env(CREATOR), raffle_id).unwrap();

    let timestamp_before = 0;
    client.buy_ticket(&env(BUYER), raffle_id, BUYER).unwrap();
    let timestamp_after = 0;

    let found = purchases(&client.journal, raffle_id);
    assert_eq!(found.len(), 1, "Should emit exactly one TicketPurchased event");
    let event = found.into_iter().next().expect("Should have found TicketPurchased event");
    assert_eq!(event.raffle_id, raffle_id);
    assert_eq!(event.buyer, BUYER);
    assert_eq!(event.quantity, 1u32);
    assert_eq!(event.total_paid, 10i128);
    assert!(event.timestamp >= timestamp_before && event.timestamp <= timestamp_after);
    assert_eq!(event.ticket_ids.len(), 1);
    assert_eq!(event.ticket_ids[0], 1u32);
}

#[test]
fn test_batch_ticket_purchase_event() {
    let mut client = new_factory();
    let raffle_id = create(&mut client, 0, "Batch Test Raffle", true, 10, 100);
    client.deposit_prize(&env(CREATOR), raffle_id).unwrap();

    let quantity = 3u32;
    let timestamp_before = 0;
    client.buy_tickets(&env(BUYER), raffle_id, BUYER, quantity).unwrap();
    let timestamp_after = 0;

    let found = purchases(&client.journal, raffle_id);
    assert_eq!(found.len(), 1, "Should emit exactly one TicketPurchased event for batch purchase");
    let event = found.into_iter().next().expect("Should have found TicketPurchased event");
    assert_eq!(event.raffle_id, raffle_id);
    assert_eq!(event.buyer, BUYER);
    assert_eq!(event.quantity, quantity);
    assert_eq!(event.total_paid, 30i128);
    assert!(event.timestamp >= timestamp_before && event.timestamp <= timestamp_after);
    assert_eq!(event.ticket_ids.len() as u32, quantity);
    assert_eq!(event.ticket_ids[0], 1u32);
    assert_eq!(event.ticket_ids[1], 2u32);
    assert_eq!(event.ticket_ids[2], 3u32);
}

#[test]
fn test_multiple_single_purchases_emit_multiple_events() {
    let buyer1: Principal = 21;
    let buyer2: Principal = 22;
    let mut client = new_factory();
    let raffle_id = create(&mut client, 0, "Multi Purchase Test", true, 10, 100);
    client.deposit_prize(&env(CREATOR), raffle_id).unwrap();

    client.buy_ticket(&env(buyer1), raffle_id, buyer1).unwrap();
    let event1 = purchases(&client.journal, raffle_id).into_iter().find(|e| e.buyer == buyer1);
    client.buy_ticket(&env(buyer2), raffle_id, buyer2).unwrap();
    let event2 = purchases(&client.journal, raffle_id).into_iter().find(|e| e.buyer == buyer2);

    assert!(event1.is_some(), "Should have found event for buyer1");
    assert!(event2.is_some(), "Should have found event for buyer2");
    let e1 = event1.unwrap();
    let e2 = event2.unwrap();
    assert_eq!(e1.buyer, buyer1);
    assert_eq!(e1.ticket_ids[0], 1u32);
    assert_eq!(e2.buyer, buyer2);
    assert_eq!(e2.ticket_ids[0], 2u32);
}

fn five_raffles() -> RaffleFactory {
    let mut client = new_factory();
    for _ in 0..5 {
        create(&mut client, 0, "Test Raffle", true, 1, 10);
    }
    client
}

#[test]
fn test_pagination_get_all_raffle_ids() {
    let client = five_raffles();

    let result = client.get_all_raffle_ids(0, 3, false);
    assert_eq!(result.data.len(), 3);
    assert_eq!(result.meta.total, 5);
    assert_eq!(result.meta.offset, 0);
    assert_eq!(result.meta.limit, 3);
    assert!(result.meta.has_more);

    let result = client.get_all_raffle_ids(3, 3, false);
    assert_eq!(result.data.len(), 2);
    assert_eq!(result.meta.total, 5);
    assert_eq!(result.meta.offset, 3);
    assert!(!result.meta.has_more);

    let result = client.get_all_raffle_ids(10, 3, false);
    assert_eq!(result.data.len(), 0);
    assert_eq!(result.meta.total, 5);
    assert!(!result.meta.has_more);

    let result = client.get_all_raffle_ids(0, 3, true);
    assert_eq!(result.data[0], 4u64);
    assert_eq!(result.data[2], 2u64);
}

#[test]
fn test_pagination_limit_enforced() {
    let client = five_raffles();
    let result = client.get_all_raffle_ids(0, 200, false);
    assert_eq!(result.meta.limit, 100);
}

#[test]
fn test_pagination_empty_results() {
    let client = new_factory();
    let result = client.get_all_raffle_ids(0, 10, false);
    assert_eq!(result.data.len(), 0);
    assert_eq!(result.meta.total, 0);
    assert!(!result.meta.has_more);
}
