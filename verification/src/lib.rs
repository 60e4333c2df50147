//! A verified core for a batch mailer: credentials are checked, a recipient
//! document is loaded as an ordered list of opaque records, and a sequential
//! batch run sends one message per record, collecting per-recipient failures
//! without aborting the batch.

pub mod batch;
pub mod config;
pub mod errors;
pub mod message;
pub mod outside;
pub mod recipients;
pub mod relay;
