//! A small order-processing domain library: order validation, inventory
//! reservation with saturating stock, fixed-point pricing (subtotal, tax,
//! discount, loyalty points), and a chained-error demonstration.
//!
//! Money is represented in fixed-point units of one ten-thousandth of a
//! dollar, so every pricing rule is exact integer arithmetic.

pub mod config;
pub mod domain;
pub mod errors;
pub mod format;
pub mod inventory;
pub mod logger;
pub mod orders;
pub mod pricing;

use vstd::prelude::*;

verus! {

/// Number of money units in one dollar (fixed point, four decimal places).
pub const MONEY_SCALE: u64 = 10000;

} // verus!
