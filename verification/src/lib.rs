//! A ledger of uniquely identified collectible assets ("kitties"): creation,
//! genetic derivation, ownership transfer and sale, backed by currency
//! reservations.
//!
//! The state-transition engine lives in [`pallet`]; the currency collaborator
//! is modelled in [`bank`]; seed derivation and DNA crossover live in
//! [`genetics`].

pub mod bank;
pub mod genetics;
pub mod pallet;
