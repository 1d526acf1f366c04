//! What the stores read of a tenant's configuration.
use vstd::prelude::*;

verus! {

/// The parts of a tenant's configuration that decide names in the storage layer.
#[derive(Debug, Clone, Copy)]
pub struct TenantConfig<'a> {
    /// The database schema of the tenant.
    pub schema: &'a str,
    /// The prefix of every key that the tenant has in Redis.
    pub redis_key_prefix: &'a str,
}

} // verus!
