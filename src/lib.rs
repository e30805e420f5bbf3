//! Checkout orchestration: command handlers over a payment-gateway port,
//! the request-building rules of the Stripe gateway, and the decision logic of
//! the broker consumer that routes domain events.

pub mod cqrs;
pub mod domain;
pub mod dtos;
pub mod errors;
pub mod events;
pub mod paymentprocessors;
pub mod state;
