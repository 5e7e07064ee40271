//! Health reporting, and the placeholders of services the shell reserves names for.
use vstd::prelude::*;

use crate::domain::health::{HealthStatus, APP_NAME, APP_VERSION};

verus! {

pub struct HealthService;

impl HealthService {
    /// The health snapshot of a runtime that has been up for `uptime_seconds`.
    pub fn check(uptime_seconds: u64) -> (r: HealthStatus)
        ensures
            r.status@ == "ready"@,
            r.app_name@ == APP_NAME@,
            r.version@ == APP_VERSION@,
            r.uptime_seconds == uptime_seconds,
    {
        HealthStatus::ready(uptime_seconds)
    }
}

/// Reserved for user account use cases.
pub struct UserService;

/// Reserved for synchronization use cases.
pub struct SyncService;

/// Reserved for a shared cache adapter.
#[derive(Debug, Default)]
pub struct CacheAdapter;

/// Reserved for a network adapter.
#[derive(Debug, Default)]
pub struct NetworkAdapter;

/// Reserved for an operating-system adapter.
#[derive(Debug, Default)]
pub struct SystemAdapter;

} // verus!
