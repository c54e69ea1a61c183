//! The order workflow: validation, the inventory pass (shortfall warnings and
//! reservations, in item order), pricing, loyalty points, and the formatted
//! result line.

use crate::config::AppConfig;
use crate::domain::{Customer, Order, OrderItem};
use crate::errors::ValidationError;
use crate::format::{dec_digits, money_digits, push_decimal, push_money};
use crate::inventory::{reserve_message, sat_sub, InventoryService};
use crate::logger::{log_line, Logger};
use crate::pricing::{
    discount_spec, lemma_discount_bounds, lemma_subtotal_nonneg, lemma_tax_bounds, subtotal_spec,
    tax_rate_pct, PricingService,
};
use crate::MONEY_SCALE;
use vstd::prelude::*;

verus! {

/// The message of the validation failure naming the configured maximum:
/// `Order exceeds max items ({max})`.
pub open spec fn max_items_message(max: nat) -> Seq<char> {
    "Order exceeds max items ("@ + dec_digits(max) + ")"@
}

/// The validation outcome for an order under a configuration: the error
/// message of the first failing rule, or nothing when the order is acceptable.
pub open spec fn validate_error(config: AppConfig, order: Order) -> Option<Seq<char>> {
    if order.order_id@.len() == 0 {
        Some("Order ID is required"@)
    } else if order.customer_name@.len() == 0 {
        Some("Customer name is required"@)
    } else if order.items@.len() == 0 {
        Some("Order must have at least one item"@)
    } else if order.items@.len() > config.features.max_order_items {
        Some(max_items_message(config.features.max_order_items as nat))
    } else {
        None
    }
}

/// An order with an empty id, an empty customer name, or no items never
/// validates.
pub proof fn lemma_incomplete_order_rejected(config: AppConfig, order: Order)
    requires
        order.order_id@.len() == 0 || order.customer_name@.len() == 0 || order.items@.len() == 0,
    ensures
        validate_error(config, order) is Some,
{
}

/// An otherwise complete order with more items than the configured maximum
/// fails with the message naming that maximum.
pub proof fn lemma_too_many_items_rejected(config: AppConfig, order: Order)
    requires
        order.order_id@.len() > 0,
        order.customer_name@.len() > 0,
        order.items@.len() > config.features.max_order_items,
    ensures
        validate_error(config, order) == Some(
            max_items_message(config.features.max_order_items as nat),
        ),
{
}

/// Loyalty points for a subtotal: ten points per whole dollar, floored; zero
/// when the loyalty feature is off.
pub open spec fn points_spec(config: AppConfig, subtotal: int) -> int {
    if config.features.enable_loyalty_points {
        subtotal * 10 / (MONEY_SCALE as int)
    } else {
        0
    }
}

/// The debug line after validation: `Order {id} validated`.
pub open spec fn validated_message(order_id: Seq<char>) -> Seq<char> {
    "Order "@ + order_id + " validated"@
}

/// The warning line for a stock shortfall:
/// `Low stock for {sku}: {stock} < {quantity}`.
pub open spec fn low_stock_message(sku: Seq<char>, stock: nat, quantity: nat) -> Seq<char> {
    "Low stock for "@ + sku + ": "@ + dec_digits(stock) + " < "@ + dec_digits(quantity)
}

/// The result line of a processed order, each currency amount rounded to two
/// decimals for display.
pub open spec fn result_message(
    subtotal: nat,
    tax: nat,
    discount: nat,
    points: nat,
    total: nat,
) -> Seq<char> {
    "Processed - Subtotal: "@ + money_digits(subtotal) + ", Tax: "@ + money_digits(tax)
        + ", Discount: "@ + money_digits(discount) + ", Points: "@ + dec_digits(points)
        + ", Final: "@ + money_digits(total)
}

/// The stock map after reserving one item: its SKU's stock decremented,
/// saturating at zero.
pub open spec fn reserve_step(m: Map<Seq<char>, u32>, item: OrderItem) -> Map<Seq<char>, u32> {
    m.insert(item.sku@, sat_sub(m[item.sku@] as int, item.quantity as int) as u32)
}

/// The stock map after reserving each item, in list order.
pub open spec fn reserve_all(m: Map<Seq<char>, u32>, items: Seq<OrderItem>) -> Map<Seq<char>, u32>
    decreases items.len(),
{
    if items.len() == 0 {
        m
    } else {
        reserve_all(reserve_step(m, items[0]), items.drop_first())
    }
}

/// The log lines of the inventory pass for one item against stock `m`: a
/// warning when the stock is short of the quantity, then the reservation's
/// debug line.
pub open spec fn item_log(m: Map<Seq<char>, u32>, item: OrderItem) -> Seq<Seq<char>> {
    let warn = if m[item.sku@] < item.quantity {
        seq![
            log_line(
                "WARN"@,
                low_stock_message(item.sku@, m[item.sku@] as nat, item.quantity as nat),
            ),
        ]
    } else {
        Seq::empty()
    };
    warn + seq![
        log_line(
            "DEBUG"@,
            reserve_message(
                item.quantity as nat,
                item.sku@,
                sat_sub(m[item.sku@] as int, item.quantity as int) as nat,
            ),
        ),
    ]
}

/// The log lines of the whole inventory pass, in item order, each item judged
/// against the stock its predecessors left.
pub open spec fn inventory_pass_log(m: Map<Seq<char>, u32>, items: Seq<OrderItem>) -> Seq<
    Seq<char>,
>
    decreases items.len(),
{
    if items.len() == 0 {
        Seq::empty()
    } else {
        item_log(m, items[0]) + inventory_pass_log(reserve_step(m, items[0]), items.drop_first())
    }
}

/// When an item asks for more than the available stock, the pass logs the
/// shortfall warning immediately before the reservation's debug line; when the
/// stock suffices, the reservation's debug line stands alone.
pub proof fn lemma_shortfall_warns_before_reserving(m: Map<Seq<char>, u32>, item: OrderItem)
    ensures
        m[item.sku@] < item.quantity ==> item_log(m, item) == seq![
            log_line(
                "WARN"@,
                low_stock_message(item.sku@, m[item.sku@] as nat, item.quantity as nat),
            ),
            log_line(
                "DEBUG"@,
                reserve_message(
                    item.quantity as nat,
                    item.sku@,
                    sat_sub(m[item.sku@] as int, item.quantity as int) as nat,
                ),
            ),
        ],
        m[item.sku@] >= item.quantity ==> item_log(m, item) == seq![
            log_line(
                "DEBUG"@,
                reserve_message(
                    item.quantity as nat,
                    item.sku@,
                    sat_sub(m[item.sku@] as int, item.quantity as int) as nat,
                ),
            ),
        ],
{
    if m[item.sku@] < item.quantity {
        assert(item_log(m, item) =~= seq![
            log_line(
                "WARN"@,
                low_stock_message(item.sku@, m[item.sku@] as nat, item.quantity as nat),
            ),
            log_line(
                "DEBUG"@,
                reserve_message(
                    item.quantity as nat,
                    item.sku@,
                    sat_sub(m[item.sku@] as int, item.quantity as int) as nat,
                ),
            ),
        ]);
    } else {
        assert(item_log(m, item) =~= seq![
            log_line(
                "DEBUG"@,
                reserve_message(
                    item.quantity as nat,
                    item.sku@,
                    sat_sub(m[item.sku@] as int, item.quantity as int) as nat,
                ),
            ),
        ]);
    }
}

/// Extending the inventory pass by one item reserves it against the stock the
/// first `i` items left, and appends that item's log lines.
proof fn lemma_inventory_pass_step(m: Map<Seq<char>, u32>, items: Seq<OrderItem>, i: int)
    requires
        0 <= i < items.len(),
    ensures
        reserve_all(m, items.take(i + 1)) == reserve_step(reserve_all(m, items.take(i)), items[i]),
        inventory_pass_log(m, items.take(i + 1)) == inventory_pass_log(m, items.take(i))
            + item_log(reserve_all(m, items.take(i)), items[i]),
    decreases i,
{
    if i == 0 {
        let s1 = items.take(1);
        let m1 = reserve_step(m, items[0]);
        assert(items.take(0) =~= Seq::<OrderItem>::empty());
        assert(s1.drop_first() =~= Seq::<OrderItem>::empty());
        assert(s1[0] == items[0]);
        assert(reserve_all(m, Seq::<OrderItem>::empty()) == m);
        assert(reserve_all(m1, Seq::<OrderItem>::empty()) == m1);
        assert(inventory_pass_log(m1, Seq::<OrderItem>::empty()) =~= Seq::<Seq<char>>::empty());
        assert(inventory_pass_log(m, Seq::<OrderItem>::empty()) =~= Seq::<Seq<char>>::empty());
        assert(inventory_pass_log(m, s1) =~= item_log(m, items[0]));
    } else {
        let m1 = reserve_step(m, items[0]);
        let rest = items.drop_first();
        assert(items.take(i + 1)[0] == items[0]);
        assert(items.take(i)[0] == items[0]);
        assert(items.take(i + 1).drop_first() =~= rest.take(i));
        assert(items.take(i).drop_first() =~= rest.take(i - 1));
        assert(rest[i - 1] == items[i]);
        lemma_inventory_pass_step(m1, rest, i - 1);
        assert(reserve_all(m, items.take(i + 1)) == reserve_all(m1, rest.take(i)));
        assert(reserve_all(m, items.take(i)) == reserve_all(m1, rest.take(i - 1)));
        assert(inventory_pass_log(m, items.take(i + 1)) == item_log(m, items[0])
            + inventory_pass_log(m1, rest.take(i)));
        assert(inventory_pass_log(m, items.take(i)) == item_log(m, items[0])
            + inventory_pass_log(m1, rest.take(i - 1)));
        assert(inventory_pass_log(m, items.take(i + 1)) =~= inventory_pass_log(m, items.take(i))
            + item_log(reserve_all(m, items.take(i)), items[i]));
    }
}

/// Orchestrates one order's workflow; owns the logger, the inventory, and the
/// pricing service.
pub struct OrderService {
    pub config: AppConfig,
    pub logger: Logger,
    pub inventory: InventoryService,
    pub pricing: PricingService,
}

impl OrderService {
    /// Well-formed: the inventory keeps unique SKUs, and the pricing service
    /// shares this service's configuration snapshot.
    pub open spec fn wf(self) -> bool {
        self.inventory.wf() && self.pricing.config == self.config
    }

    /// A service over the given configuration, with an empty log and the
    /// sample inventory.
    pub fn new(config: AppConfig) -> (r: OrderService)
        ensures
            r.wf(),
            r.config == config,
            r.logger.lines() == Seq::<Seq<char>>::empty(),
            r.inventory.spec_stock("SKU-100"@) == 10,
            r.inventory.spec_stock("SKU-101"@) == 5,
            r.inventory.spec_stock("SKU-102"@) == 2,
            forall|sku: Seq<char>|
                sku != "SKU-100"@ && sku != "SKU-101"@ && sku != "SKU-102"@
                    ==> r.inventory.spec_stock(sku) == 0,
    {
        let pricing = PricingService::new(config.clone());
        OrderService {
            config,
            logger: Logger::new(),
            inventory: InventoryService::new(),
            pricing,
        }
    }

    /// Checks the order against the validation rules, in order: a non-empty
    /// order id, a non-empty customer name, at least one item, and at most the
    /// configured maximum of items. Returns the first failing rule's error.
    pub fn validate_order(&self, order: &Order) -> (r: Result<(), ValidationError>)
        ensures
            r is Ok <==> validate_error(self.config, *order) is None,
            r matches Err(e) ==> validate_error(self.config, *order) == Some(e.0@),
    {
        if order.order_id.as_str().is_empty() {
            return Err(ValidationError(String::from_str("Order ID is required")));
        }
        if order.customer_name.as_str().is_empty() {
            return Err(ValidationError(String::from_str("Customer name is required")));
        }
        if order.items.len() == 0 {
            return Err(ValidationError(String::from_str("Order must have at least one item")));
        }
        if order.items.len() > self.config.features.max_order_items {
            let mut msg = String::from_str("Order exceeds max items (");
            push_decimal(&mut msg, self.config.features.max_order_items as u64);
            msg.append(")");
            proof {
                assert(msg@ =~= max_items_message(self.config.features.max_order_items as nat));
            }
            return Err(ValidationError(msg));
        }
        Ok(())
    }

    /// Processes one order: validation, the inventory pass (a shortfall
    /// warning where stock is short, then an unconditional saturating
    /// reservation, per item in list order), pricing, loyalty points, and the
    /// formatted result line, which is also logged at info level.
    ///
    /// A validation failure returns the error and leaves the whole service
    /// untouched. Success leaves the stock as `reserve_all` states, and the
    /// log extended by exactly the validation debug line, the inventory pass
    /// lines, and the result line.
    pub fn process_order(&mut self, order: &Order, customer: &Customer) -> (r: Result<
        String,
        ValidationError,
    >)
        requires
            old(self).wf(),
            subtotal_spec(order.items@) * 15 <= u64::MAX,
        ensures
            final(self).wf(),
            final(self).config == old(self).config,
            final(self).pricing == old(self).pricing,
            r is Ok <==> validate_error(old(self).config, *order) is None,
            r matches Err(e) ==> ({
                &&& validate_error(old(self).config, *order) == Some(e.0@)
                &&& *final(self) == *old(self)
            }),
            r matches Ok(out) ==> ({
                let m0 = old(self).inventory.stock_map();
                let subtotal = subtotal_spec(order.items@);
                let tax = subtotal * tax_rate_pct(old(self).config.region@) / 100;
                let discount = discount_spec(old(self).config, order.items@, customer.loyalty_tier);
                let points = points_spec(old(self).config, subtotal);
                let total = subtotal + tax - discount;
                &&& final(self).inventory.stock_map() == reserve_all(m0, order.items@)
                &&& out@ == result_message(
                    subtotal as nat,
                    tax as nat,
                    discount as nat,
                    points as nat,
                    total as nat,
                )
                &&& final(self).logger.lines() == old(self).logger.lines() + seq![
                    log_line("DEBUG"@, validated_message(order.order_id@)),
                ] + inventory_pass_log(m0, order.items@) + seq![log_line("INFO"@, out@)]
            }),
    {
        match self.validate_order(order) {
            Err(e) => {
                return Err(e);
            },
            Ok(()) => {},
        }
        let mut vmsg = String::from_str("Order ");
        vmsg.append(order.order_id.as_str());
        vmsg.append(" validated");
        proof {
            assert(vmsg@ =~= validated_message(order.order_id@));
        }
        self.logger.debug(vmsg.as_str());
        let ghost lines0 = self.logger.lines();

        let ghost m0 = self.inventory.stock_map();
        let n = order.items.len();
        let mut i: usize = 0;
        while i < n
            invariant
                n == order.items@.len(),
                0 <= i <= n,
                self.inventory.wf(),
                self.config == old(self).config,
                self.pricing == old(self).pricing,
                m0 == old(self).inventory.stock_map(),
                lines0 == old(self).logger.lines().push(
                    log_line("DEBUG"@, validated_message(order.order_id@)),
                ),
                self.inventory.stock_map() == reserve_all(m0, order.items@.take(i as int)),
                self.logger.lines() == lines0 + inventory_pass_log(
                    m0,
                    order.items@.take(i as int),
                ),
            decreases n - i,
        {
            let ghost mi = self.inventory.stock_map();
            let ghost lines_i = self.logger.lines();
            let item = &order.items[i];
            let stock = self.inventory.get_stock(&item.sku);
            proof {
                assert(mi[item.sku@] == self.inventory.spec_stock(item.sku@));
            }
            if stock < item.quantity {
                let mut w = String::from_str("Low stock for ");
                w.append(item.sku.as_str());
                w.append(": ");
                push_decimal(&mut w, stock as u64);
                w.append(" < ");
                push_decimal(&mut w, item.quantity as u64);
                proof {
                    assert(w@ =~= low_stock_message(item.sku@, stock as nat, item.quantity as nat));
                }
                self.logger.warn(w.as_str());
            }
            self.inventory.reserve(&item.sku, item.quantity, &mut self.logger);
            proof {
                assert(self.inventory.stock_map() =~= reserve_step(mi, order.items@[i as int]));
                assert(self.logger.lines() =~= lines_i + item_log(mi, order.items@[i as int]));
                lemma_inventory_pass_step(m0, order.items@, i as int);
                assert(self.logger.lines() =~= lines0 + inventory_pass_log(
                    m0,
                    order.items@.take(i as int + 1),
                ));
            }
            i += 1;
        }
        proof {
            assert(order.items@.take(n as int) =~= order.items@);
            lemma_subtotal_nonneg(order.items@);
        }

        let subtotal = self.pricing.calculate_subtotal(order);
        let tax = self.pricing.calculate_tax(subtotal);
        let discount = self.pricing.calculate_discount(order, customer);
        let points: u64 = if self.config.features.enable_loyalty_points {
            (subtotal * 10) / MONEY_SCALE
        } else {
            0
        };
        proof {
            lemma_tax_bounds(self.config.region@, subtotal as int);
            lemma_discount_bounds(self.config, order.items@, customer.loyalty_tier);
        }
        let total = subtotal + tax - discount;

        let mut rmsg = String::from_str("Processed - Subtotal: ");
        push_money(&mut rmsg, subtotal);
        rmsg.append(", Tax: ");
        push_money(&mut rmsg, tax);
        rmsg.append(", Discount: ");
        push_money(&mut rmsg, discount);
        rmsg.append(", Points: ");
        push_decimal(&mut rmsg, points);
        rmsg.append(", Final: ");
        push_money(&mut rmsg, total);
        proof {
            assert(rmsg@ =~= result_message(
                subtotal as nat,
                tax as nat,
                discount as nat,
                points as nat,
                total as nat,
            ));
        }
        self.logger.info(rmsg.as_str());
        proof {
            assert(self.logger.lines() =~= old(self).logger.lines() + seq![
                log_line("DEBUG"@, validated_message(order.order_id@)),
            ] + inventory_pass_log(old(self).inventory.stock_map(), order.items@) + seq![
                log_line("INFO"@, rmsg@),
            ]);
        }
        Ok(rmsg)
    }
}

/// Processing two item lists one after the other depletes stock cumulatively:
/// the second list's reservations subtract from the stock the first list left.
pub proof fn lemma_reserve_all_concat(
    m: Map<Seq<char>, u32>,
    first: Seq<OrderItem>,
    second: Seq<OrderItem>,
)
    ensures
        reserve_all(reserve_all(m, first), second) == reserve_all(m, first + second),
    decreases first.len(),
{
    if first.len() == 0 {
        assert(first + second =~= second);
    } else {
        assert((first + second)[0] == first[0]);
        assert((first + second).drop_first() =~= first.drop_first() + second);
        lemma_reserve_all_concat(reserve_step(m, first[0]), first.drop_first(), second);
    }
}

} // verus!
