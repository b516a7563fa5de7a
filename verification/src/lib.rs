//! A verified limit-order escrow and settlement engine.
//!
//! Users escrow an offer asset and a fee, naming a minimum acceptable ask
//! amount. An order is later either cancelled by its owner (escrow refunded)
//! or settled by any executor through an external exchange venue: the owner
//! receives the ask amount, the executor keeps any price improvement and the
//! fee. The host environment that persists state, resolves addresses and
//! talks to the venue is modelled at the boundary: every lifecycle function
//! takes the host's answers as plain values and returns the instructions the
//! host must carry out.

pub mod asset;
pub mod contract;
pub mod error;
pub mod laws;
pub mod msg;
pub mod order;
pub mod query;
pub mod state;
