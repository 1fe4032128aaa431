//! A fixed-price token sale: payment is escrowed, converted to a quantity of
//! the asset at the configured price, issued to the buyer and frozen, under a
//! hard supply cap, an admin pause switch and per-purchase payment bounds.

pub mod address;
pub mod admin;
pub mod derivation;
pub mod error;
pub mod laws;
pub mod pricing;
pub mod purchase;
pub mod setup;
pub mod state;

pub use crate::address::Address;
pub use crate::admin::{set_paused, set_tge, AdminOnly};
pub use crate::error::PresaleError;
pub use crate::purchase::{purchase, Purchase};
pub use crate::setup::{initialize, Initialize};
pub use crate::state::{Buy, Mint, Presale};
