//! A time-locked escrow vault for a ledger of accounts.
//!
//! An owner deposits native value into an escrow account whose address is
//! derived from the owner's key, and may once, after a delay, withdraw a
//! tenth of it. The handlers here decide: from the accounts that an
//! instruction names, its data and the clock's reading they work out the
//! effects that the host is to perform, or the error that ends the
//! instruction. They touch nothing themselves.

pub mod account;
pub mod address;
pub mod codec;
pub mod error;
pub mod instruct;
pub mod laws;
pub mod process;
pub mod pubkey;
