//! Pricing: pure computation of subtotal, tax, and discount over an order and
//! customer, given a configuration snapshot. All amounts are money units
//! (ten-thousandths of a dollar); rates are whole percents.

use crate::config::AppConfig;
use crate::domain::{Customer, LoyaltyTier, Order, OrderItem};
use vstd::arithmetic::div_mod::{
    lemma_div_is_ordered, lemma_div_multiples_vanish,
};
use vstd::arithmetic::mul::{lemma_mul_nonnegative, lemma_mul_upper_bound};
use vstd::prelude::*;

verus! {

/// The cost of one order line in money units.
pub open spec fn item_cost(item: OrderItem) -> int {
    item.quantity * item.unit_price
}

/// The order subtotal: the sum over its items of quantity times unit price.
pub open spec fn subtotal_spec(items: Seq<OrderItem>) -> int
    decreases items.len(),
{
    if items.len() == 0 {
        0
    } else {
        subtotal_spec(items.drop_last()) + item_cost(items.last())
    }
}

/// The tax rate of a region, in percent: 8 for `us-west-2`, 10 for any other
/// region string.
pub open spec fn tax_rate_pct(region: Seq<char>) -> int {
    if region == "us-west-2"@ {
        8
    } else {
        10
    }
}

/// The discount rate of a loyalty tier, in percent.
pub open spec fn tier_rate_pct(tier: LoyaltyTier) -> int {
    match tier {
        LoyaltyTier::Platinum => 15,
        LoyaltyTier::Gold => 10,
        LoyaltyTier::Silver => 5,
        LoyaltyTier::Bronze => 0,
    }
}

/// The discount in money units: zero when discounts are off or the subtotal is
/// strictly below the threshold, else the subtotal times the tier's rate.
pub open spec fn discount_spec(config: AppConfig, items: Seq<OrderItem>, tier: LoyaltyTier) -> int {
    if !config.features.enable_discounts {
        0
    } else if subtotal_spec(items) < config.features.discount_threshold {
        0
    } else {
        subtotal_spec(items) * tier_rate_pct(tier) / 100
    }
}

pub proof fn lemma_subtotal_nonneg(items: Seq<OrderItem>)
    ensures
        subtotal_spec(items) >= 0,
    decreases items.len(),
{
    if items.len() > 0 {
        lemma_subtotal_nonneg(items.drop_last());
        lemma_mul_nonnegative(items.last().quantity as int, items.last().unit_price as int);
    }
}

pub proof fn lemma_subtotal_take_step(items: Seq<OrderItem>, i: int)
    requires
        0 <= i < items.len(),
    ensures
        subtotal_spec(items.take(i + 1)) == subtotal_spec(items.take(i)) + item_cost(items[i]),
{
    assert(items.take(i + 1).drop_last() =~= items.take(i));
    assert(items.take(i + 1).last() == items[i]);
}

pub proof fn lemma_subtotal_prefix_bound(items: Seq<OrderItem>, i: int)
    requires
        0 <= i <= items.len(),
    ensures
        subtotal_spec(items.take(i)) <= subtotal_spec(items),
    decreases items.len() - i,
{
    if i == items.len() {
        assert(items.take(i) =~= items);
    } else {
        lemma_subtotal_take_step(items, i);
        lemma_mul_nonnegative(items[i].quantity as int, items[i].unit_price as int);
        lemma_subtotal_prefix_bound(items, i + 1);
    }
}

/// Turning discounts off makes the discount exactly zero, regardless of the
/// subtotal or the loyalty tier.
pub proof fn lemma_discount_disabled(config: AppConfig, items: Seq<OrderItem>, tier: LoyaltyTier)
    requires
        !config.features.enable_discounts,
    ensures
        discount_spec(config, items, tier) == 0,
{
}

/// A subtotal strictly below the discount threshold gives a discount of
/// exactly zero, whatever the loyalty tier.
pub proof fn lemma_discount_below_threshold(
    config: AppConfig,
    items: Seq<OrderItem>,
    tier: LoyaltyTier,
)
    requires
        subtotal_spec(items) < config.features.discount_threshold,
    ensures
        discount_spec(config, items, tier) == 0,
{
}

/// With discounts enabled and the subtotal at or above the threshold, the
/// discount is the subtotal times the tier's rate: 15% for Platinum, 10% for
/// Gold, 5% for Silver, 0% for Bronze.
pub proof fn lemma_discount_rate(config: AppConfig, items: Seq<OrderItem>, tier: LoyaltyTier)
    requires
        config.features.enable_discounts,
        subtotal_spec(items) >= config.features.discount_threshold,
    ensures
        discount_spec(config, items, tier) == subtotal_spec(items) * tier_rate_pct(tier) / 100,
        tier_rate_pct(LoyaltyTier::Platinum) == 15,
        tier_rate_pct(LoyaltyTier::Gold) == 10,
        tier_rate_pct(LoyaltyTier::Silver) == 5,
        tier_rate_pct(LoyaltyTier::Bronze) == 0,
{
}

/// The tax rate is 8% exactly for the region `us-west-2` and 10% for every
/// other region string.
pub proof fn lemma_tax_rate(region: Seq<char>)
    ensures
        region == "us-west-2"@ ==> tax_rate_pct(region) == 8,
        region != "us-west-2"@ ==> tax_rate_pct(region) == 10,
{
}

/// For a non-negative subtotal and a rate of at most one hundred percent, the
/// rated amount is between zero and the subtotal.
pub proof fn lemma_rate_mul_div_bounds(subtotal: int, rate: int)
    requires
        subtotal >= 0,
        0 <= rate <= 100,
    ensures
        0 <= subtotal * rate / 100 <= subtotal,
{
    assert(0 <= subtotal * rate) by (nonlinear_arith)
        requires
            subtotal >= 0,
            rate >= 0,
    ;
    assert(subtotal * rate <= subtotal * 100) by (nonlinear_arith)
        requires
            subtotal >= 0,
            rate <= 100,
    ;
    lemma_div_is_ordered(0, subtotal * rate, 100);
    lemma_div_is_ordered(subtotal * rate, subtotal * 100, 100);
    lemma_div_multiples_vanish(subtotal, 100);
}

/// The tax is never negative and never exceeds the subtotal.
pub proof fn lemma_tax_bounds(region: Seq<char>, subtotal: int)
    requires
        subtotal >= 0,
    ensures
        0 <= subtotal * tax_rate_pct(region) / 100 <= subtotal,
{
    lemma_rate_mul_div_bounds(subtotal, tax_rate_pct(region));
}

/// The discount is never negative and never exceeds the subtotal.
pub proof fn lemma_discount_bounds(config: AppConfig, items: Seq<OrderItem>, tier: LoyaltyTier)
    ensures
        0 <= discount_spec(config, items, tier) <= subtotal_spec(items),
{
    lemma_subtotal_nonneg(items);
    if config.features.enable_discounts && subtotal_spec(items)
        >= config.features.discount_threshold {
        lemma_rate_mul_div_bounds(subtotal_spec(items), tier_rate_pct(tier));
    }
}

/// Whether the order's subtotal is small enough for the whole pricing pipeline
/// to stay within machine arithmetic: fifteen times the subtotal (the largest
/// multiple any rate computation forms) fits in a 64-bit value.
pub fn order_total_in_range(order: &Order) -> (r: bool)
    ensures
        r == (subtotal_spec(order.items@) * 15 <= u64::MAX),
{
    // One fifteenth of the largest 64-bit value; 15 * limit == u64::MAX exactly.
    let limit: u64 = 1229782938247303441;
    proof {
        assert(limit as int * 15 == u64::MAX as int);
    }
    let n = order.items.len();
    let mut acc: u128 = 0;
    let mut i: usize = 0;
    while i < n
        invariant
            n == order.items@.len(),
            0 <= i <= n,
            acc <= limit as u128,
            acc == subtotal_spec(order.items@.take(i as int)),
            limit as int * 15 == u64::MAX as int,
        decreases n - i,
    {
        proof {
            lemma_subtotal_take_step(order.items@, i as int);
            lemma_mul_upper_bound(
                order.items@[i as int].quantity as int,
                u32::MAX as int,
                order.items@[i as int].unit_price as int,
                u64::MAX as int,
            );
            lemma_mul_nonnegative(
                order.items@[i as int].quantity as int,
                order.items@[i as int].unit_price as int,
            );
        }
        let q: u128 = order.items[i].quantity as u128;
        let p: u128 = order.items[i].unit_price as u128;
        let cost: u128 = q * p;
        acc = acc + cost;
        if acc > limit as u128 {
            proof {
                lemma_subtotal_prefix_bound(order.items@, i + 1);
                assert(acc == subtotal_spec(order.items@.take(i as int + 1)));
                let s = subtotal_spec(order.items@);
                assert(s >= limit as int + 1);
                assert(s * 15 >= (limit as int + 1) * 15) by (nonlinear_arith)
                    requires
                        s >= limit as int + 1,
                ;
            }
            return false;
        }
        i += 1;
    }
    proof {
        assert(order.items@.take(n as int) =~= order.items@);
        let s = subtotal_spec(order.items@);
        assert(s * 15 <= limit as int * 15) by (nonlinear_arith)
            requires
                s <= limit as int,
        ;
    }
    true
}

/// Pure pricing computation over an immutable configuration snapshot.
pub struct PricingService {
    pub config: AppConfig,
}

impl PricingService {
    pub fn new(config: AppConfig) -> (r: PricingService)
        ensures
            r.config == config,
    {
        PricingService { config }
    }

    /// The sum over items of quantity times unit price; exact.
    pub fn calculate_subtotal(&self, order: &Order) -> (r: u64)
        requires
            subtotal_spec(order.items@) <= u64::MAX,
        ensures
            r == subtotal_spec(order.items@),
    {
        let n = order.items.len();
        let mut total: u64 = 0;
        let mut i: usize = 0;
        while i < n
            invariant
                n == order.items@.len(),
                0 <= i <= n,
                total == subtotal_spec(order.items@.take(i as int)),
                subtotal_spec(order.items@) <= u64::MAX,
            decreases n - i,
        {
            proof {
                lemma_subtotal_take_step(order.items@, i as int);
                lemma_subtotal_prefix_bound(order.items@, i + 1);
                lemma_subtotal_nonneg(order.items@.take(i as int));
            }
            let q: u64 = order.items[i].quantity as u64;
            let p: u64 = order.items[i].unit_price;
            let cost: u64 = q * p;
            total = total + cost;
            i += 1;
        }
        proof {
            assert(order.items@.take(n as int) =~= order.items@);
        }
        total
    }

    /// The tax on a subtotal: 8% for region `us-west-2`, 10% otherwise.
    pub fn calculate_tax(&self, subtotal: u64) -> (r: u64)
        requires
            subtotal * 10 <= u64::MAX,
        ensures
            r as int == subtotal * tax_rate_pct(self.config.region@) / 100,
    {
        let marker = String::from_str("us-west-2");
        let rate: u64 = if self.config.region == marker {
            8
        } else {
            10
        };
        (subtotal * rate) / 100
    }

    /// The discount for an order and customer, as `discount_spec` states:
    /// zero when discounts are off or the subtotal is below the threshold,
    /// else the subtotal times the customer's tier rate.
    pub fn calculate_discount(&self, order: &Order, customer: &Customer) -> (r: u64)
        requires
            subtotal_spec(order.items@) * 15 <= u64::MAX,
        ensures
            r as int == discount_spec(self.config, order.items@, customer.loyalty_tier),
    {
        if !self.config.features.enable_discounts {
            return 0;
        }
        proof {
            lemma_subtotal_nonneg(order.items@);
        }
        let subtotal = self.calculate_subtotal(order);
        if subtotal < self.config.features.discount_threshold {
            return 0;
        }
        let rate: u64 = match customer.loyalty_tier {
            LoyaltyTier::Platinum => 15,
            LoyaltyTier::Gold => 10,
            LoyaltyTier::Silver => 5,
            LoyaltyTier::Bronze => 0,
        };
        proof {
            assert(subtotal * rate <= subtotal * 15) by (nonlinear_arith)
                requires
                    rate <= 15,
                    subtotal >= 0,
            ;
        }
        (subtotal * rate) / 100
    }
}

} // verus!
