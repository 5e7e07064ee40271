//! Desktop runtime health snapshot.
use vstd::prelude::*;

verus! {

/// The application's display name.
pub const APP_NAME: &'static str = "ShenDesk";

/// The package version reported by health checks.
pub const APP_VERSION: &'static str = "0.1.0";

#[derive(Debug)]
pub struct HealthStatus {
    pub status: String,
    pub app_name: String,
    pub version: String,
    pub uptime_seconds: u64,
}

impl HealthStatus {
    pub fn ready(uptime_seconds: u64) -> (r: Self)
        ensures
            r.status@ == "ready"@,
            r.app_name@ == APP_NAME@,
            r.version@ == APP_VERSION@,
            r.uptime_seconds == uptime_seconds,
    {
        Self {
            status: "ready".to_owned(),
            app_name: APP_NAME.to_owned(),
            version: APP_VERSION.to_owned(),
            uptime_seconds,
        }
    }
}

} // verus!
