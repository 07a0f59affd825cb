//! Market data ingestion core: upstream failover, record validation, batching,
//! resumable history import, trading-hours scheduling and health monitoring.
//!
//! Every component is an owner-exclusive state holder. Work that must wait on
//! the network, the store or a timer is expressed as a decision function from
//! state and event to next state and action; the caller performs the action.

pub mod api;
pub mod clock;
pub mod config;
pub mod error;
pub mod models;
pub mod importer;
pub mod monitor;
pub mod optimizer;
pub mod scheduler;
pub mod service;
pub mod status;
pub mod tdx;
pub mod text;
pub mod validator;
pub mod writer;

