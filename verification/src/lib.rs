//! Storage layer of a payments router: the stores that carry a database handle, a cache and the
//! master key, the key-value store that pushes its writes to drainer streams, and the unique
//! constraints that records claim in the cache before they are written.
//!
//! Everything here is a decision on plain values. Whatever needs to wait (opening a database,
//! talking to Redis) is asked for as an action and answered by an event; the `app` crate runs
//! those conversations.
use vstd::prelude::*;

pub mod config;
pub mod database;
pub mod drainer;
pub mod errors;
pub mod joined;
pub mod kv_router_store;
pub mod models;
pub mod redis;
pub mod router_store;
mod seq_facts;
pub mod startup;
pub mod startup_answers;
pub mod startup_laws;
pub mod unique_constraints;

pub use crate::config::TenantConfig;
pub use crate::database::DatabaseStore;
pub use crate::kv_router_store::KVRouterStore;
pub use crate::router_store::RouterStore;
pub use crate::unique_constraints::UniqueConstraints;

verus! {

/// A domain model that has a counterpart in the storage layer.
///
/// What an implementation does with a value is its own affair; nothing is promised here of the
/// two conversions.
pub trait DataModelExt: Sized {
    /// The counterpart that is stored.
    type StorageModel;

    /// The stored counterpart of `self`.
    fn to_storage_model(self) -> Self::StorageModel;

    /// The domain model of a stored value.
    fn from_storage_model(storage_model: Self::StorageModel) -> Self;
}

} // verus!
