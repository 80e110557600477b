//! A canvas of a million pixels, each minted, recolored, listed and traded
//! for a token by its owner. Every request is a checked state transition on
//! one pixel record plus the token transfers that settle it; outstanding bids
//! are escrowed in a single trade pool.
pub mod address;
pub mod config;
pub mod error;
pub mod packable;
pub mod state;
pub mod instruction;
pub mod market;
pub mod laws;
pub mod ledger;
pub mod processor;
