//! What the command and query endpoints hand out, as plain data.

use vstd::prelude::*;

verus! {

/// Status of the collection, as commands report it.
#[derive(Debug, Clone)]
pub struct CollectionStatus {
    pub is_running: bool,
    pub last_update: Option<String>,
    pub success_count: u64,
    pub failed_count: u64,
}

/// Quality of the records of one day.
#[derive(Debug, Clone)]
pub struct DataQualityReport {
    pub date: String,
    pub total_records: u64,
    pub good_quality: u64,
    pub suspect: u64,
    pub error: u64,
    pub issues: Vec<QualityIssue>,
}

/// One issue listed in a quality report.
#[derive(Debug, Clone)]
pub struct QualityIssue {
    pub code: String,
    pub issue_type: String,
    pub description: String,
}

/// Channel of the live push relay.
#[derive(Debug, Clone, Copy, PartialEq, Eq, Structural)]
pub enum Channel {
    Quote,
    MoneyFlow,
    Auction,
}

/// Namespace of the parsers of upstream data.
#[derive(Debug, Clone, Copy)]
pub struct Parser;

} // verus!
