//! Application state: everything a request is served from.

use crate::config::Config;
use crate::database::Database;
use vstd::prelude::*;

verus! {

/// Main application state that holds all shared resources.
pub struct AppState {
    pub db: Database,
    pub config: Config,
}

impl AppState {
    /// Whether the stores are consistent.
    pub open spec fn wf(&self) -> bool {
        self.db.wf()
    }

    pub fn new(db: Database, config: Config) -> (state: Self)
        ensures
            state.db == db,
            state.config == config,
    {
        AppState { db, config }
    }
}

} // verus!
