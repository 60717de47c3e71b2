//! A one-directional relay between two ledgers: it watches an event counter on
//! the source chain and, for every new event, submits the matching transfer on
//! the destination chain.

pub mod address;
pub mod bytes;
pub mod config;
pub mod error;
pub mod models;
pub mod pda;
pub mod relay;
pub mod transaction;
