use order_pipeline::config::{AppConfig, FeatureFlags};
use order_pipeline::domain::{Address, Customer, LoyaltyTier, Order, OrderItem};
use order_pipeline::pricing::{order_total_in_range, PricingService};

// Money amounts are in ten-thousandths of a dollar: $1.00 == 10_000 units.
const DOLLAR: u64 = 10_000;

fn config_with(region: &str, enable_discounts: bool, threshold_dollars: u64) -> AppConfig {
    AppConfig {
        environment: String::from("Development"),
        region: String::from(region),
        features: FeatureFlags {
            enable_discounts,
            enable_loyalty_points: true,
            max_order_items: 100,
            discount_threshold: threshold_dollars * DOLLAR,
        },
    }
}

fn customer_with_tier(tier: LoyaltyTier) -> Customer {
    Customer {
        id: String::from("CUST-001"),
        name: String::from("Alice Johnson"),
        email: String::from("alice@example.com"),
        loyalty_tier: tier,
        loyalty_points: 5420,
        address: Address {
            street: String::from("123 Main St"),
            city: String::from("Seattle"),
            state: String::from("WA"),
            zip_code: String::from("98101"),
            country: String::from("US"),
        },
    }
}

fn order_with_items(items: Vec<OrderItem>) -> Order {
    Order {
        order_id: String::from("ORD-001"),
        customer_name: String::from("Alice"),
        items,
    }
}

fn item(sku: &str, quantity: u32, unit_price: u64) -> OrderItem {
    OrderItem {
        sku: String::from(sku),
        name: String::from("Widget"),
        quantity,
        unit_price,
    }
}

#[test]
fn subtotal_sums_quantity_times_price() {
    let pricing = PricingService::new(config_with("us-west-2", true, 100));
    let order = order_with_items(vec![
        item("SKU-100", 2, 19_9900),
        item("SKU-101", 1, 49_9900),
    ]);
    assert_eq!(pricing.calculate_subtotal(&order), 89_9700);
}

#[test]
fn subtotal_of_empty_order_is_zero() {
    let pricing = PricingService::new(config_with("us-west-2", true, 100));
    let order = order_with_items(vec![]);
    assert_eq!(pricing.calculate_subtotal(&order), 0);
}

#[test]
fn tax_is_eight_percent_in_us_west_2() {
    let pricing = PricingService::new(config_with("us-west-2", true, 100));
    // $100.00 at 8% is $8.00.
    assert_eq!(pricing.calculate_tax(100 * DOLLAR), 8 * DOLLAR);
}

#[test]
fn tax_is_ten_percent_elsewhere() {
    let pricing = PricingService::new(config_with("eu-central-1", true, 100));
    // $100.00 at 10% is $10.00.
    assert_eq!(pricing.calculate_tax(100 * DOLLAR), 10 * DOLLAR);
}

#[test]
fn discount_is_zero_when_disabled() {
    let pricing = PricingService::new(config_with("us-west-2", false, 100));
    let customer = customer_with_tier(LoyaltyTier::Platinum);
    let order = order_with_items(vec![item("SKU-100", 10, 100 * DOLLAR)]);
    assert_eq!(pricing.calculate_discount(&order, &customer), 0);
}

#[test]
fn discount_is_zero_below_threshold() {
    let pricing = PricingService::new(config_with("us-west-2", true, 100));
    let customer = customer_with_tier(LoyaltyTier::Platinum);
    // Subtotal $99.99 is strictly below the $100.00 threshold.
    let order = order_with_items(vec![item("SKU-100", 1, 99_9900)]);
    assert_eq!(pricing.calculate_discount(&order, &customer), 0);
}

#[test]
fn discount_rates_by_tier_at_threshold() {
    let pricing = PricingService::new(config_with("us-west-2", true, 100));
    // Subtotal exactly $100.00, at the threshold.
    let order = order_with_items(vec![item("SKU-100", 1, 100 * DOLLAR)]);
    let cases = [
        (LoyaltyTier::Platinum, 15 * DOLLAR),
        (LoyaltyTier::Gold, 10 * DOLLAR),
        (LoyaltyTier::Silver, 5 * DOLLAR),
        (LoyaltyTier::Bronze, 0),
    ];
    for (tier, expected) in cases {
        let customer = customer_with_tier(tier);
        assert_eq!(pricing.calculate_discount(&order, &customer), expected);
    }
}

#[test]
fn order_total_in_range_accepts_ordinary_orders() {
    let order = order_with_items(vec![
        item("SKU-100", 2, 19_9900),
        item("SKU-101", 1, 49_9900),
    ]);
    assert!(order_total_in_range(&order));
}

#[test]
fn order_total_in_range_rejects_huge_orders() {
    let order = order_with_items(vec![item("SKU-100", u32::MAX, u64::MAX / 2)]);
    assert!(!order_total_in_range(&order));
}
