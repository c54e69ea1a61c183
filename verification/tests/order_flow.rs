use order_pipeline::config::{AppConfig, FeatureFlags};
use order_pipeline::domain::{Address, Customer, LoyaltyTier, Order, OrderItem};
use order_pipeline::inventory::InventoryService;
use order_pipeline::logger::Logger;
use order_pipeline::orders::OrderService;

const DOLLAR: u64 = 10_000;

fn sample_config() -> AppConfig {
    AppConfig {
        environment: String::from("Development"),
        region: String::from("us-west-2"),
        features: FeatureFlags {
            enable_discounts: true,
            enable_loyalty_points: true,
            max_order_items: 100,
            discount_threshold: 100 * DOLLAR,
        },
    }
}

fn gold_customer() -> Customer {
    Customer {
        id: String::from("CUST-001"),
        name: String::from("Alice Johnson"),
        email: String::from("alice@example.com"),
        loyalty_tier: LoyaltyTier::Gold,
        loyalty_points: 5420,
        address: Address {
            street: String::from("123 Main St"),
            city: String::from("Seattle"),
            state: String::from("WA"),
            zip_code: String::from("98101"),
            country: String::from("US"),
        },
    }
}

fn item(sku: &str, quantity: u32, unit_price: u64) -> OrderItem {
    OrderItem {
        sku: String::from(sku),
        name: String::from("Widget"),
        quantity,
        unit_price,
    }
}

fn order(id: &str, customer_name: &str, items: Vec<OrderItem>) -> Order {
    Order {
        order_id: String::from(id),
        customer_name: String::from(customer_name),
        items,
    }
}

#[test]
fn empty_order_id_is_rejected_without_mutation() {
    let mut service = OrderService::new(sample_config());
    let bad = order("", "Alice", vec![item("SKU-100", 1, 19_9900)]);
    let result = service.process_order(&bad, &gold_customer());
    let err = result.unwrap_err();
    assert_eq!(err.0, "Order ID is required");
    assert_eq!(service.inventory.get_stock(&String::from("SKU-100")), 10);
    assert!(service.logger.messages().is_empty());
}

#[test]
fn empty_customer_name_is_rejected_without_mutation() {
    let mut service = OrderService::new(sample_config());
    let bad = order("ORD-003", "", vec![item("SKU-100", 1, 19_9900)]);
    let err = service.process_order(&bad, &gold_customer()).unwrap_err();
    assert_eq!(err.0, "Customer name is required");
    assert_eq!(service.inventory.get_stock(&String::from("SKU-100")), 10);
}

#[test]
fn empty_item_list_is_rejected_without_mutation() {
    let mut service = OrderService::new(sample_config());
    let bad = order("ORD-003", "Bob", vec![]);
    let err = service.process_order(&bad, &gold_customer()).unwrap_err();
    assert_eq!(err.0, "Order must have at least one item");
    assert_eq!(service.inventory.get_stock(&String::from("SKU-100")), 10);
    assert!(service.logger.messages().is_empty());
}

#[test]
fn too_many_items_names_the_configured_maximum() {
    let mut config = sample_config();
    config.features.max_order_items = 2;
    let mut service = OrderService::new(config);
    let bad = order(
        "ORD-004",
        "Alice",
        vec![
            item("SKU-100", 1, 9900),
            item("SKU-101", 1, 9900),
            item("SKU-102", 1, 9900),
        ],
    );
    let err = service.process_order(&bad, &gold_customer()).unwrap_err();
    assert_eq!(err.0, "Order exceeds max items (2)");
    assert_eq!(err.display_string(), "ValidationError: Order exceeds max items (2)");
}

#[test]
fn end_to_end_sample_order_formats_exact_result() {
    // Two at $19.99 and one at $49.99: subtotal $89.97, below the $100
    // threshold, so no discount; 8% tax $7.1976 shown as $7.20; 899 points;
    // final $97.1676 shown as $97.17.
    let mut service = OrderService::new(sample_config());
    let o = order(
        "ORD-001",
        "Alice",
        vec![item("SKU-100", 2, 19_9900), item("SKU-101", 1, 49_9900)],
    );
    let result = service.process_order(&o, &gold_customer()).unwrap();
    assert_eq!(
        result,
        "Processed - Subtotal: $89.97, Tax: $7.20, Discount: $0.00, Points: 899, Final: $97.17"
    );
    assert_eq!(service.inventory.get_stock(&String::from("SKU-100")), 8);
    assert_eq!(service.inventory.get_stock(&String::from("SKU-101")), 4);
}

#[test]
fn shortfall_warns_then_reserves_to_zero() {
    let mut service = OrderService::new(sample_config());
    // SKU-102 has stock 2; ask for 3.
    let o = order("ORD-002", "Bob", vec![item("SKU-102", 3, 29_9900)]);
    service.process_order(&o, &gold_customer()).unwrap();
    assert_eq!(service.inventory.get_stock(&String::from("SKU-102")), 0);
    let lines = service.logger.messages();
    assert_eq!(lines[0], "[DEBUG] Order ORD-002 validated");
    assert_eq!(lines[1], "[WARN] Low stock for SKU-102: 2 < 3");
    assert_eq!(lines[2], "[DEBUG] Reserved 3 of SKU-102, remaining: 0");
    assert!(lines[3].starts_with("[INFO] Processed - "));
    assert_eq!(lines.len(), 4);
}

#[test]
fn successive_orders_deplete_stock_cumulatively() {
    let mut service = OrderService::new(sample_config());
    let customer = gold_customer();
    let first = order("ORD-001", "Alice", vec![item("SKU-100", 2, 19_9900)]);
    let second = order("ORD-002", "Bob", vec![item("SKU-100", 5, 19_9900)]);
    service.process_order(&first, &customer).unwrap();
    assert_eq!(service.inventory.get_stock(&String::from("SKU-100")), 8);
    service.process_order(&second, &customer).unwrap();
    assert_eq!(service.inventory.get_stock(&String::from("SKU-100")), 3);
}

#[test]
fn unknown_sku_has_zero_stock_and_can_be_reserved() {
    let mut service = OrderService::new(sample_config());
    assert_eq!(service.inventory.get_stock(&String::from("SKU-999")), 0);
    let o = order("ORD-005", "Cara", vec![item("SKU-999", 4, 9900)]);
    service.process_order(&o, &gold_customer()).unwrap();
    assert_eq!(service.inventory.get_stock(&String::from("SKU-999")), 0);
    let lines = service.logger.messages();
    assert_eq!(lines[1], "[WARN] Low stock for SKU-999: 0 < 4");
    assert_eq!(lines[2], "[DEBUG] Reserved 4 of SKU-999, remaining: 0");
}

#[test]
fn loyalty_points_disabled_gives_zero_points() {
    let mut config = sample_config();
    config.features.enable_loyalty_points = false;
    let mut service = OrderService::new(config);
    let o = order("ORD-006", "Alice", vec![item("SKU-100", 2, 19_9900)]);
    let result = service.process_order(&o, &gold_customer()).unwrap();
    assert!(result.contains("Points: 0,"));
}

#[test]
fn discount_applies_above_threshold_end_to_end() {
    // Subtotal $200.00, Gold tier: discount $20.00, tax $16.00,
    // final 200 + 16 - 20 = $196.00; points 2000.
    let mut service = OrderService::new(sample_config());
    let o = order("ORD-007", "Alice", vec![item("SKU-100", 2, 100 * DOLLAR)]);
    let result = service.process_order(&o, &gold_customer()).unwrap();
    assert_eq!(
        result,
        "Processed - Subtotal: $200.00, Tax: $16.00, Discount: $20.00, Points: 2000, Final: $196.00"
    );
}

#[test]
fn order_at_exactly_max_items_is_accepted() {
    let mut config = sample_config();
    config.features.max_order_items = 2;
    let mut service = OrderService::new(config);
    let o = order(
        "ORD-008",
        "Alice",
        vec![item("SKU-100", 1, 9900), item("SKU-101", 1, 9900)],
    );
    assert!(service.validate_order(&o).is_ok());
    assert!(service.process_order(&o, &gold_customer()).is_ok());
}

#[test]
fn validate_order_accepts_complete_order() {
    let service = OrderService::new(sample_config());
    let o = order("ORD-009", "Alice", vec![item("SKU-100", 1, 9900)]);
    assert!(service.validate_order(&o).is_ok());
}

#[test]
fn multi_item_order_logs_in_item_order() {
    let mut service = OrderService::new(sample_config());
    // SKU-100 has 10 (enough for 5), SKU-102 has 2 (short of 3).
    let o = order(
        "ORD-002",
        "Bob",
        vec![item("SKU-100", 5, 19_9900), item("SKU-102", 3, 29_9900)],
    );
    service.process_order(&o, &gold_customer()).unwrap();
    let lines = service.logger.messages();
    assert_eq!(lines[0], "[DEBUG] Order ORD-002 validated");
    assert_eq!(lines[1], "[DEBUG] Reserved 5 of SKU-100, remaining: 5");
    assert_eq!(lines[2], "[WARN] Low stock for SKU-102: 2 < 3");
    assert_eq!(lines[3], "[DEBUG] Reserved 3 of SKU-102, remaining: 0");
    // Subtotal $189.92, above threshold: Gold discount $18.992; tax $15.1936;
    // final 189.92 + 15.1936 - 18.992 = $186.1216; points 1899.
    assert_eq!(
        lines[4],
        "[INFO] Processed - Subtotal: $189.92, Tax: $15.19, Discount: $18.99, Points: 1899, Final: $186.12"
    );
    assert_eq!(lines.len(), 5);
}

#[test]
fn reserve_clamps_at_zero_and_logs() {
    let mut inventory = InventoryService::new();
    let mut logger = Logger::new();
    inventory.reserve(&String::from("SKU-102"), 5, &mut logger);
    assert_eq!(inventory.get_stock(&String::from("SKU-102")), 0);
    assert_eq!(logger.messages()[0], "[DEBUG] Reserved 5 of SKU-102, remaining: 0");
}

#[test]
fn reserve_decrements_available_stock() {
    let mut inventory = InventoryService::new();
    let mut logger = Logger::new();
    inventory.reserve(&String::from("SKU-100"), 4, &mut logger);
    assert_eq!(inventory.get_stock(&String::from("SKU-100")), 6);
    assert_eq!(inventory.get_stock(&String::from("SKU-101")), 5);
}
