//! Marshaling and lifetime-management core for a C-compatible binding to an
//! embedded vector-database engine.
//!
//! The crate holds the safe, verified half of the boundary: converting between
//! raw C-style buffers and owned values, the uniform error-reporting protocol,
//! translating raw inputs into typed engine requests, and materializing engine
//! responses into the parallel-array result aggregate handed back to callers.
//! The thin pointer shim that performs the actual C-ABI calls lives outside
//! this crate and hands plain owned values in and out.

use vstd::prelude::*;

pub mod client;
pub mod collection;
pub mod decimal;
pub mod error;
pub mod ident;
pub mod json;
pub mod management;
pub mod operations;
pub mod result;
pub mod rows;
pub mod text;

verus! {

/// Default tenant name used when a caller passes no tenant.
pub fn default_tenant() -> (r: String)
    ensures
        r@ == "default_tenant"@,
{
    String::from_str("default_tenant")
}

/// Default database name used when a caller passes no database.
pub fn default_database() -> (r: String)
    ensures
        r@ == "default_database"@,
{
    String::from_str("default_database")
}

} // verus!
