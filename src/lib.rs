//! Multi-tenant visit counting: per-tenant storage names, schema provisioning
//! decisions, visit aggregation and a cache-aside geolocation resolver.
//!
//! The library decides and computes; the caller owns the database connection
//! and the network, performs the actions the library returns and reports back.
pub mod naming;
pub mod schema;
pub mod cors;
pub mod counts;
pub mod geo;
pub mod visit;
