//! A token launchpad on a bonding curve.
//!
//! A campaign sells a newly issued token against a deterministic price curve,
//! keeps a ledger of what it has sold and what it holds, and graduates into a
//! liquidity pool once it has met its criteria. This crate is the engine of
//! such a launchpad: the arithmetic of prices, costs and fees, the settlement
//! of every trade, and the life of a campaign. It moves no value itself. Each
//! operation decides what is to be moved and how the records change, and
//! leaves the moving to its caller.
//!
//! - `fixed_point`: Q32.32 arithmetic.
//! - `isqrt`: the integer square root.
//! - `linear`, `exponential`, `curve`: the price curves and their inverse.
//! - `fees`: fees in basis points and the slippage check.
//! - `trade`: buying and selling against a ledger.
//! - `lifecycle`: pausing, and the criteria of graduation.
//! - `graduation`: the move into a liquidity pool.
//! - `venue`: the instruction data that the liquidity venue reads.
//! - `campaign`: the creation of a campaign.
//! - `platform`: the platform's configuration and its fees.
//! - `address`: the addresses that the program derives.
//! - `state`, `error`: the records and the failures.

pub mod address;
pub mod campaign;
pub mod curve;
pub mod error;
pub mod exponential;
pub mod fees;
pub mod fixed_point;
pub mod graduation;
pub mod isqrt;
pub mod lifecycle;
pub mod linear;
pub mod platform;
pub mod state;
pub mod trade;
pub mod venue;
