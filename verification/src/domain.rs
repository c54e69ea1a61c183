//! Domain values: customers, orders, and order items. Unit prices are money
//! amounts in ten-thousandths of a dollar.

use vstd::prelude::*;

verus! {

/// Customer loyalty levels; each maps to a fixed discount rate.
#[derive(Clone, Copy, PartialEq, Eq, Structural, Debug)]
pub enum LoyaltyTier {
    Bronze,
    Silver,
    Gold,
    Platinum,
}

/// A postal address; plain value data.
pub struct Address {
    pub street: String,
    pub city: String,
    pub state: String,
    pub zip_code: String,
    pub country: String,
}

/// A customer; read-only during order processing.
pub struct Customer {
    pub id: String,
    pub name: String,
    pub email: String,
    pub loyalty_tier: LoyaltyTier,
    pub loyalty_points: u32,
    pub address: Address,
}

/// One order line: a quantity of a SKU at a unit price in money units.
pub struct OrderItem {
    pub sku: String,
    pub name: String,
    pub quantity: u32,
    pub unit_price: u64,
}

/// An order: its identity, a display name, and the ordered item list.
pub struct Order {
    pub order_id: String,
    pub customer_name: String,
    pub items: Vec<OrderItem>,
}

} // verus!
