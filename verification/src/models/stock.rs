//! Stock held of an item in a warehouse.

use crate::models::item::{Decimal, Item};
use vstd::prelude::*;

verus! {

/// The stock of one item in one warehouse. Dates are days since the first
/// day of the common era; timestamps are in microseconds since the Unix
/// epoch.
#[derive(Debug, Clone, Copy, PartialEq, Eq, Structural)]
pub struct StockInventory {
    pub stock_id: i32,
    pub item_id: i32,
    pub warehouse_id: i32,
    pub quantity_on_hand: Decimal,
    pub quantity_reserved: Decimal,
    pub quantity_available: Option<Decimal>,
    pub min_stock_level: Option<Decimal>,
    pub max_stock_level: Option<Decimal>,
    pub reorder_point: Option<Decimal>,
    pub unit_cost: Option<Decimal>,
    pub average_cost: Option<Decimal>,
    pub total_value: Option<Decimal>,
    pub last_movement_date: Option<i32>,
    pub last_receipt_date: Option<i32>,
    pub last_issue_date: Option<i32>,
    pub created_at: Option<i64>,
    pub updated_at: Option<i64>,
}

/// An item together with its stock in every warehouse that holds it.
#[derive(Debug, PartialEq, Eq)]
pub struct ItemWithStock {
    pub item: Item,
    pub stock_info: Vec<StockInventory>,
}

} // verus!
