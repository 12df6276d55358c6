//! A raffle ledger: raffles with a ticket price and a prize, ticket sales,
//! winner selection and an exactly-once prize payout, as a verified state
//! machine whose storage, payments, authentication and events are left to
//! the host that drives it.
pub mod types;
pub mod winner;
pub mod lifecycle;
pub mod instance;
pub mod registry;
pub mod laws;
