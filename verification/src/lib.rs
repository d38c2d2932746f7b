//! Verified core of a warehouse catalogue: pagination arithmetic, payload
//! validation, partial-update merging, the soft-delete repositories and the
//! error taxonomy that the service boundary renders.

pub mod clock;
pub mod config;
pub mod database;
pub mod error;
pub mod handlers;
pub mod merge;
pub mod models;
pub mod repositories;
pub mod state;
pub mod text;
pub mod utils;
pub mod validation;
