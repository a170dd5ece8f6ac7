//! A keeper for an epoch-based on-chain resolution protocol.
//!
//! The library is the verified core of a polling process: a generic
//! trigger/executor engine ([`engine`]), a time-based trigger and the epoch
//! resolution state machine ([`resolve`]), deterministic account-address
//! derivation ([`pda`]), instruction planning ([`instruction`]), and the
//! fixed-layout decoding of the remote accounts ([`codec`]). All remote
//! effects go through the [`ledger::LedgerPort`] interface, so that the
//! decision logic is verified for every behaviour of the remote ledger.

pub mod state;
pub mod codec;
pub mod pda;
pub mod instruction;
pub mod ledger;
pub mod engine;
pub mod resolve;
