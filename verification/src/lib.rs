//! Verified core of a read-only blog-content API: entity assembly from
//! database rows, tag attachment, slug lookup, and mapping of typed results
//! to HTTP status codes and bodies.
//!
//! The surrounding process (HTTP server, connection pool, SQL execution)
//! lives outside this library and hands it plain row values.

pub mod date;
pub mod db;
pub mod error;
pub mod post;
pub mod response;
pub mod routes;
pub mod series;
pub mod services;
pub mod site_tag;
