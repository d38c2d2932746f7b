//! The records of the catalogue and the shapes in which they travel.

pub mod health;
pub mod item;
pub mod response;
pub mod stock;
pub mod warehouse;
