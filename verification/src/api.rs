//! What the HTTP endpoints take and hand out, as plain data.

use vstd::prelude::*;

verus! {

/// Status of the collection with its servers, as the HTTP endpoint reports
/// it.
#[derive(Debug, Clone)]
pub struct CollectionStatus {
    pub is_running: bool,
    pub last_update: Option<String>,
    pub success_count: u64,
    pub failed_count: u64,
    pub servers: Vec<ServerStatus>,
}

/// One upstream server in a status report.
#[derive(Debug, Clone)]
pub struct ServerStatus {
    pub host: String,
    /// `healthy`, `failed` or `unknown`.
    pub status: String,
}

/// Request to start collecting.
#[derive(Debug, Clone)]
pub struct StartCollectionRequest {
    pub codes: Option<Vec<String>>,
    /// `realtime` or `history`.
    pub mode: String,
}

} // verus!
