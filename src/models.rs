//! Records that callers can read the service's responses into.
use vstd::prelude::*;

verus! {

/// A license plan: its tier, its monthly price, its features and when it
/// runs out.
#[derive(Clone, Debug, PartialEq, Eq)]
pub struct License {
    pub tier: String,
    pub price: u32,
    pub features: Vec<String>,
    pub expires: String,
}

/// An account of the service.
#[derive(Clone, Debug, PartialEq, Eq)]
pub struct User {
    pub user_id: String,
    pub email: String,
    pub role: String,
    pub created: String,
    pub two_fa_enabled: bool,
}

/// A subscription to events of the service.
#[derive(Clone, Debug, PartialEq, Eq)]
pub struct Webhook {
    pub webhook_id: String,
    pub url: String,
    pub events: Vec<String>,
    pub created: String,
    pub active: bool,
}

/// The state of the service as it reports it.
#[derive(Clone, Debug, PartialEq, Eq)]
pub struct SystemStatus {
    pub status: String,
    pub uptime_hours: u64,
    pub version: String,
    pub editions: Vec<String>,
}

} // verus!
