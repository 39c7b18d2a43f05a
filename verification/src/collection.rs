//! The collection handle.
//!
//! A collection handle owns the engine-assigned identifier of a collection in
//! textual form, together with the tenant and database names under which it
//! was resolved. It is immutable after construction, holds no reference to
//! the engine, and every operation that uses it also takes the client handle.

use vstd::prelude::*;

verus! {

/// Caller-owned handle to one resolved collection.
#[derive(Debug)]
pub struct ChromaCollection {
    /// Engine-assigned unique identifier, textually encoded.
    pub id: String,
    /// Tenant name under which the collection was resolved.
    pub tenant: String,
    /// Database name under which the collection was resolved.
    pub database: String,
}

impl ChromaCollection {
    /// Builds the handle for a resolved collection from its identifier text
    /// and the namespace it was resolved under.
    pub fn new(id: String, tenant: String, database: String) -> (r: ChromaCollection)
        ensures
            r.id == id,
            r.tenant == tenant,
            r.database == database,
    {
        ChromaCollection { id, tenant, database }
    }
}

} // verus!
