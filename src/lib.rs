//! Typed-row persistence adapter for block-execution state kept in a cloud
//! data-warehouse table store.
//!
//! The library holds the logic: the schema registry, cell coercion, row
//! materialization, table provisioning decisions, credential selection and
//! point-query preparation. Remote calls are made by the surrounding program.
pub mod decimal;
pub mod schema;
pub mod text;
pub mod coerce;
pub mod rows;
pub mod provision;
pub mod config;
pub mod state;
pub mod compress;
