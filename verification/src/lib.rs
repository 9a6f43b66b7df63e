//! A managed database-connection-pool startup with fail-fast semantics: a
//! connection target is resolved from explicit configuration, a bounded pool
//! is opened against it by a driver at the caller's edge, and either a ready
//! pool or a typed startup failure is handed to the application entry point.

pub mod config;
pub mod errors;
pub mod pool;
pub mod startup;
