//! Immutable configuration shared by the pricing and order services.

use crate::MONEY_SCALE;
use vstd::prelude::*;

verus! {

/// Feature switches and limits for the order pipeline. The discount threshold
/// is a money amount in ten-thousandths of a dollar.
#[derive(Clone, Copy)]
pub struct FeatureFlags {
    pub enable_discounts: bool,
    pub enable_loyalty_points: bool,
    pub max_order_items: usize,
    pub discount_threshold: u64,
}

impl Default for FeatureFlags {
    /// Discounts and loyalty points enabled, at most 100 items per order, and
    /// a 100-dollar discount threshold.
    fn default() -> (r: Self)
        ensures
            r.enable_discounts,
            r.enable_loyalty_points,
            r.max_order_items == 100,
            r.discount_threshold == 100 * MONEY_SCALE,
    {
        FeatureFlags {
            enable_discounts: true,
            enable_loyalty_points: true,
            max_order_items: 100,
            discount_threshold: 100 * MONEY_SCALE,
        }
    }
}

/// A configuration snapshot: environment name, region code, feature flags.
pub struct AppConfig {
    pub environment: String,
    pub region: String,
    pub features: FeatureFlags,
}

impl Clone for AppConfig {
    fn clone(&self) -> (r: Self)
        ensures
            r == *self,
    {
        AppConfig {
            environment: self.environment.clone(),
            region: self.region.clone(),
            features: self.features,
        }
    }
}

} // verus!
