//! Margin accounting and order settlement for a leveraged trading ledger.
//!
//! Every user account holds collateral in two denominations. Placing an order
//! locks `amount * leverage` units of collateral, drawn from the first
//! denomination before the second. Settling an order evaluates its fill rule
//! against an observed price and decides in which direction the locked margin
//! moves; the movement itself is made by the caller through the token program.

pub mod ledger;
pub mod outside;
pub mod placement;
pub mod settlement;
pub mod types;
