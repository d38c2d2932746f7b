//! Repository modules: per-entity access to the stored records.

pub mod item_laws;
pub mod items;
pub mod search;
pub mod sorting;
pub mod table;
pub mod table_laws;
pub mod warehouse_laws;
pub mod warehouses;
