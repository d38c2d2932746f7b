//! The database as the service sees it: the stores it owns, the settings of
//! its connection pool and the tables it must find.

use crate::error::AppError;
use crate::repositories::items::ItemRepository;
use crate::repositories::warehouses::WarehouseRepository;
use vstd::prelude::*;

verus! {

/// The stores of the catalogue, owned in one place and handed to whoever
/// serves a request.
pub struct Database {
    pub warehouses: WarehouseRepository,
    pub items: ItemRepository,
}

impl Database {
    /// Whether every store is consistent.
    pub open spec fn wf(&self) -> bool {
        self.warehouses.wf() && self.items.wf()
    }

    /// A database with empty stores.
    pub fn new() -> (db: Self)
        ensures
            db.wf(),
            db.warehouses@.len() == 0,
            db.items@.len() == 0,
    {
        Database { warehouses: WarehouseRepository::new(), items: ItemRepository::new() }
    }

    /// Get warehouse repository.
    pub fn warehouses(&self) -> (repository: &WarehouseRepository)
        ensures
            *repository == self.warehouses,
    {
        &self.warehouses
    }

    /// Get item repository.
    pub fn items(&self) -> (repository: &ItemRepository)
        ensures
            *repository == self.items,
    {
        &self.items
    }

    /// Health check: whether the answer to the probe statement is the one
    /// the statement asks for.
    pub fn health_check(answer: i32) -> (healthy: bool)
        ensures
            healthy == (answer == 1),
    {
        answer == 1
    }
}

/// The settings of the connection pool. Durations are in seconds.
#[derive(Debug, Clone, Copy, PartialEq, Eq, Structural)]
pub struct PoolSettings {
    pub max_connections: u32,
    pub min_connections: u32,
    pub acquire_timeout: u64,
    pub idle_timeout: u64,
    pub max_lifetime: u64,
    pub test_before_acquire: bool,
}

/// Database connection management.
#[derive(Debug, Clone, Copy, PartialEq, Eq, Structural)]
pub struct DatabaseManager;

/// What is reported of a table that is not there.
pub open spec fn missing_table_text(table: Seq<char>) -> Seq<char> {
    "Required table '"@ + table + "' does not exist"@
}

/// The answer for the required table `i`: the one given for it, or none
/// where the answers stop short of it.
pub open spec fn answer_for(answers: Seq<Option<bool>>, i: int) -> Option<bool> {
    if 0 <= i < answers.len() {
        answers[i]
    } else {
        None
    }
}

/// Whether the required table `i` is there, by the answers given.
pub open spec fn is_present(answers: Seq<Option<bool>>, i: int) -> bool {
    answer_for(answers, i) == Some(true)
}

/// Whether `i` is the first required table that is not there.
pub open spec fn first_missing(answers: Seq<Option<bool>>, i: int) -> bool {
    &&& 0 <= i < DatabaseManager::required().len()
    &&& !is_present(answers, i)
    &&& forall|k: int| 0 <= k < i ==> #[trigger] is_present(answers, k)
}

impl DatabaseManager {
    /// The tables the service cannot work without.
    pub open spec fn required() -> Seq<Seq<char>> {
        seq!["warehouses"@, "items"@, "projects"@]
    }

    /// The settings with which the pool is opened.
    pub fn pool_settings() -> (settings: PoolSettings)
        ensures
            settings == (PoolSettings {
                max_connections: 20,
                min_connections: 5,
                acquire_timeout: 30,
                idle_timeout: 600,
                max_lifetime: 3600,
                test_before_acquire: true,
            }),
    {
        PoolSettings {
            max_connections: 20,
            min_connections: 5,
            acquire_timeout: 30,
            idle_timeout: 600,
            max_lifetime: 3600,
            test_before_acquire: true,
        }
    }

    /// The tables the service cannot work without, in the order in which
    /// they are looked for.
    pub fn required_tables() -> (tables: Vec<&'static str>)
        ensures
            crate::text::strs_view(tables@) == Self::required(),
    {
        let mut tables: Vec<&'static str> = Vec::new();
        tables.push("warehouses");
        tables.push("items");
        tables.push("projects");
        assert(crate::text::strs_view(tables@) =~= Self::required());
        tables
    }

    /// Verify database schema from the answers to "is this table there",
    /// one per required table and in their order: the first table whose
    /// answer is not a yes is reported as missing. A table without an answer
    /// counts as missing; answers beyond the last table are not read.
    pub fn verify_database(answers: &Vec<Option<bool>>) -> (result: Result<(), AppError>)
        ensures
            match result {
                Ok(_) => forall|k: int|
                    0 <= k < Self::required().len() ==> #[trigger] is_present(answers@, k),
                Err(e) => exists|i: int|
                    {
                        &&& #[trigger] first_missing(answers@, i)
                        &&& e matches AppError::Internal(detail)
                        &&& detail@ == missing_table_text(Self::required()[i])
                    },
            },
    {
        let tables = Self::required_tables();
        let mut i: usize = 0;
        while i < tables.len()
            invariant
                i <= tables.len(),
                tables.len() == Self::required().len(),
                crate::text::strs_view(tables@) == Self::required(),
                forall|k: int| 0 <= k < i ==> #[trigger] is_present(answers@, k),
            decreases tables.len() - i,
        {
            let present = if i < answers.len() {
                match answers[i] {
                    Some(found) => found,
                    None => false,
                }
            } else {
                false
            };
            if !present {
                let detail = String::from_str("Required table '").concat(tables[i]).concat(
                    "' does not exist",
                );
                assert(crate::text::strs_view(tables@)[i as int] == tables[i as int]@);
                assert(first_missing(answers@, i as int));
                return Err(AppError::Internal(detail));
            }
            i += 1;
        }
        Ok(())
    }
}

} // verus!
