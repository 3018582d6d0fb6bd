//! Health of the backing store, as the service reports it.
use vstd::prelude::*;
use vstd::string::StringExecFns;
use crate::errors::CoreError;

verus! {

/// The outcome of a probe of the backing store.
#[derive(Debug, Clone, Copy)]
pub struct IsHealthy(bool);

impl IsHealthy {
    /// Whether the probe succeeded.
    pub closed spec fn healthy(&self) -> bool {
        self.0
    }

    pub fn new(is_healthy: bool) -> (r: IsHealthy)
        ensures
            r.healthy() == is_healthy,
    {
        IsHealthy(is_healthy)
    }

    pub fn value(&self) -> (r: bool)
        ensures
            r == self.healthy(),
    {
        self.0
    }

    /// A healthy outcome as `Ok`; an unhealthy one is `Unhealthy`.
    pub fn to_result(&self) -> (r: Result<IsHealthy, CoreError>)
        ensures
            r is Ok <==> self.healthy(),
            r matches Ok(h) ==> h.healthy(),
            r matches Err(e) ==> e is Unhealthy,
    {
        if self.value() {
            Ok(IsHealthy(self.0))
        } else {
            Err(CoreError::Unhealthy)
        }
    }
}

/// Probes the backing store.
pub trait HealthRepository {
    /// Whether every probe of this store succeeds.
    spec fn always_healthy(&self) -> bool;

    fn ping(&self) -> (r: IsHealthy)
        ensures
            self.always_healthy() ==> r.healthy(),
    ;
}

/// A store that is always reachable.
#[derive(Debug, Clone, Copy)]
pub struct MockHealthRepository;

impl MockHealthRepository {
    pub fn new() -> (r: MockHealthRepository) {
        MockHealthRepository
    }
}

impl HealthRepository for MockHealthRepository {
    open spec fn always_healthy(&self) -> bool {
        true
    }

    fn ping(&self) -> (r: IsHealthy) {
        IsHealthy::new(true)
    }
}

/// The body of a health report.
#[derive(Debug, Clone)]
pub struct HealthResponse {
    pub status: String,
    pub database_status: String,
    pub timestamp: String,
}

impl HealthResponse {
    /// The report for a probe outcome, stamped with `timestamp`.
    pub fn new(is_healthy: bool, timestamp: String) -> (r: HealthResponse)
        ensures
            r.status@ == (if is_healthy {
                "healthy"@
            } else {
                "unhealthy"@
            }),
            r.database_status@ == (if is_healthy {
                "connected"@
            } else {
                "disconnected"@
            }),
            r.timestamp == timestamp,
    {
        let status = if is_healthy {
            String::from_str("healthy")
        } else {
            String::from_str("unhealthy")
        };
        let database_status = if is_healthy {
            String::from_str("connected")
        } else {
            String::from_str("disconnected")
        };
        HealthResponse { status, database_status, timestamp }
    }
}

} // verus!
