//! Control logic for a single desk light: colour arithmetic, the persisted
//! device state, the token lifecycle that guards it, and the fulfilment
//! protocol that drives it.

pub mod device;
pub mod error;
pub mod store;
pub mod dal;
pub mod data;
pub mod fulfillment;
pub mod tokens;
pub mod exchange;
pub mod login;
pub mod authorization;
pub mod driver;
pub mod config;
pub mod cli;
