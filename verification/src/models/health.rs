//! Liveness report: the state of the service and of what it depends on.

use crate::text::same_text;
use vstd::prelude::*;

verus! {

/// Status of a dependency that answered as expected.
pub const HEALTHY: &'static str = "healthy";

/// Status of a dependency that answered, but not as expected.
pub const UNHEALTHY: &'static str = "unhealthy";

/// Status of a dependency that did not answer.
pub const ERROR: &'static str = "error";

/// What is reported of a probe that came back with the wrong answer.
pub const WRONG_ANSWER: &'static str = "Database check returned false";

/// What is reported as uptime, which is not measured.
pub const UPTIME_UNKNOWN: &'static str = "unknown";

/// The state of one dependency, with the time its probe took in
/// milliseconds.
#[derive(Debug, PartialEq, Eq)]
pub struct ServiceHealth {
    pub status: String,
    pub response_time_ms: Option<u64>,
    pub error: Option<String>,
}

/// The state of every dependency.
#[derive(Debug, PartialEq, Eq)]
pub struct HealthServices {
    pub database: ServiceHealth,
    pub redis: ServiceHealth,
}

/// The liveness report. `timestamp` is in microseconds since the Unix epoch.
#[derive(Debug, PartialEq, Eq)]
pub struct HealthStatus {
    pub status: String,
    pub timestamp: i64,
    pub version: String,
    pub services: HealthServices,
    pub uptime: String,
}

/// What a probe found: the answer it got, or why it got none.
#[derive(Debug, PartialEq, Eq)]
pub enum ProbeOutcome {
    Answered(bool),
    Failed(String),
}

impl ServiceHealth {
    /// Whether this is the state that a probe's outcome shows, the probe
    /// having taken `elapsed_ms`: healthy without an error for the right
    /// answer, unhealthy with a fixed error for the wrong one, error with the
    /// probe's own reason for none.
    pub open spec fn shows(&self, outcome: ProbeOutcome, elapsed_ms: u64) -> bool {
        &&& self.response_time_ms == Some(elapsed_ms)
        &&& match outcome {
            ProbeOutcome::Answered(true) => self.status@ == HEALTHY@ && self.error is None,
            ProbeOutcome::Answered(false) => {
                &&& self.status@ == UNHEALTHY@
                &&& self.error is Some
                &&& self.error->0@ == WRONG_ANSWER@
            },
            ProbeOutcome::Failed(reason) => {
                &&& self.status@ == ERROR@
                &&& self.error is Some
                &&& self.error->0@ == reason@
            },
        }
    }

    /// Whether this is the state of a dependency that is taken to answer in
    /// one millisecond.
    pub open spec fn is_assumed_healthy(&self) -> bool {
        &&& self.status@ == HEALTHY@
        &&& self.response_time_ms == Some(1u64)
        &&& self.error is None
    }

    /// The state a probe's outcome shows, the probe having taken
    /// `elapsed_ms`: healthy for the right answer, unhealthy for the wrong
    /// one, error with the reason for none.
    pub fn from_probe(outcome: ProbeOutcome, elapsed_ms: u64) -> (health: ServiceHealth)
        ensures
            health.shows(outcome, elapsed_ms),
    {
        match outcome {
            ProbeOutcome::Answered(true) => ServiceHealth {
                status: String::from_str(HEALTHY),
                response_time_ms: Some(elapsed_ms),
                error: None,
            },
            ProbeOutcome::Answered(false) => ServiceHealth {
                status: String::from_str(UNHEALTHY),
                response_time_ms: Some(elapsed_ms),
                error: Some(String::from_str(WRONG_ANSWER)),
            },
            ProbeOutcome::Failed(reason) => ServiceHealth {
                status: String::from_str(ERROR),
                response_time_ms: Some(elapsed_ms),
                error: Some(reason),
            },
        }
    }

    /// The state of a dependency that is taken to answer in one millisecond.
    pub fn assumed_healthy() -> (health: ServiceHealth)
        ensures
            health.is_assumed_healthy(),
    {
        ServiceHealth { status: String::from_str(HEALTHY), response_time_ms: Some(1), error: None }
    }

    /// Whether the dependency answered as expected.
    pub fn is_healthy(&self) -> (healthy: bool)
        ensures
            healthy == (self.status@ == HEALTHY@),
    {
        same_text(self.status.as_str(), HEALTHY)
    }
}

impl HealthStatus {
    /// The liveness report for the states of the dependencies: the service
    /// is healthy exactly when each of them is. The report itself never
    /// fails.
    pub fn assemble(database: ServiceHealth, redis: ServiceHealth, version: String, timestamp: i64) -> (report: HealthStatus)
        ensures
            report.status@ == (if database.status@ == HEALTHY@ && redis.status@ == HEALTHY@ {
                HEALTHY@
            } else {
                UNHEALTHY@
            }),
            report.timestamp == timestamp,
            report.version == version,
            report.services.database == database,
            report.services.redis == redis,
            report.uptime@ == UPTIME_UNKNOWN@,
    {
        let status = if database.is_healthy() && redis.is_healthy() {
            String::from_str(HEALTHY)
        } else {
            String::from_str(UNHEALTHY)
        };
        HealthStatus {
            status,
            timestamp,
            version,
            services: HealthServices { database, redis },
            uptime: String::from_str(UPTIME_UNKNOWN),
        }
    }
}

} // verus!
