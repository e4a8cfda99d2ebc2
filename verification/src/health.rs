//! The health check of the API server.
use vstd::prelude::*;
use vstd::string::*;
use crate::shared::same_text;

verus! {

/// The moment a program started, as std measures it.
#[verifier::external_type_specification]
#[verifier::external_body]
pub struct ExInstant(std::time::Instant);

/// What the server knows of itself.
pub struct AppInfo {
    pub app_name: String,
    pub version: String,
    pub start_at: std::time::Instant,
}

/// The name the server reports.
pub open spec fn app_name() -> Seq<char> {
    "speechdis"@
}

/// The address of the redis server that the API uses.
pub open spec fn redis_url_spec() -> Seq<char> {
    "redis://127.0.0.1:6379"@
}

/// The address of the redis server that the API uses.
pub fn redis_url() -> (url: String)
    ensures
        url@ == redis_url_spec(),
{
    String::from_str("redis://127.0.0.1:6379")
}

impl AppInfo {
    /// What the server knows of itself when it is version `version` and
    /// started at `start_at`.
    pub fn new(version: String, start_at: std::time::Instant) -> (info: AppInfo)
        ensures
            info.app_name@ == app_name(),
            info.version@ == version@,
            info.start_at == start_at,
    {
        AppInfo { app_name: String::from_str("speechdis"), version, start_at }
    }
}

/// The answer to a health check.
pub struct Healthcheck {
    pub app_name: String,
    pub version: String,
    pub uptime: std::time::Duration,
    pub redis_ready: bool,
}

/// Whether redis answered a `PING` as a ready server does.
pub fn is_pong(reply: &str) -> (ready: bool)
    ensures
        ready == (reply@ == "PONG"@),
{
    same_text(reply, "PONG")
}

/// The answer to a health check of the server described by `app_info`,
/// which has been up for `uptime` and whose redis answered `reply` to a
/// `PING`: redis is ready exactly when it answered `PONG`.
pub fn handle_healthcheck(app_info: &AppInfo, uptime: std::time::Duration, reply: &str) -> (h: Healthcheck)
    ensures
        h.app_name@ == app_info.app_name@,
        h.version@ == app_info.version@,
        h.uptime == uptime,
        h.redis_ready == (reply@ == "PONG"@),
{
    Healthcheck {
        app_name: app_info.app_name.clone(),
        version: app_info.version.clone(),
        uptime,
        redis_ready: is_pong(reply),
    }
}

} // verus!
