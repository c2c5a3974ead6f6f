//! Decision-and-bookkeeping core of an event-driven trading engine.
//!
//! A market feed drives the engine one event at a time ([`data`]). A strategy
//! may answer an event with a signal ([`strategy`]); the portfolio sizes and
//! risk-checks the signal into an order and keeps the ledger of cash, positions
//! and orders ([`portfolio`]); an execution client turns the order into a fill
//! ([`execution`]); and the portfolio books the fill. [`engine`] takes an event
//! through these steps.
//!
//! Money, prices and quantities are fixed-point integers ([`fixed`]), so every
//! amount the engine books is exact and every contract is stated over
//! mathematical integers. Instruments and venues go by numbers ([`model`]).

mod clock;
pub mod data;
pub mod engine;
pub mod execution;
pub mod fixed;
pub mod model;
pub mod portfolio;
pub mod strategy;
