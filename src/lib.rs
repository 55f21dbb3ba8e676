//! An affiliate-fee swap proxy for a pool manager: the configuration and its
//! owner-gated updates, and the two-phase swap (dispatch, then settlement on
//! reply) with its fee accounting.
//!
//! The fee is taken on the input side: the trader attaches gross funds, names
//! the net amount to swap, and the difference goes to the affiliate at
//! dispatch. Settlement forwards the whole swap output to the trader.
pub mod error;
pub mod state;
pub mod msg;
pub mod host;
pub mod funds;
pub mod swap;
pub mod admin;
