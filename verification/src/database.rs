//! Access to the database behind a store.
use vstd::prelude::*;

verus! {

/// A database with a master and a replica pool, and the same pair for the accounts tables.
///
/// Opening one takes I/O, so it is not part of this trait: a store asks for it with
/// [`InitAction::OpenDatabase`](crate::startup::InitAction::OpenDatabase).
pub trait DatabaseStore: Sized {
    /// What is needed to open the database.
    type Config;

    /// A connection pool.
    type PgPool;

    /// The pool for writes.
    fn get_master_pool(&self) -> &Self::PgPool;

    /// The pool for reads.
    fn get_replica_pool(&self) -> &Self::PgPool;

    /// The pool for writes to the accounts tables.
    fn get_accounts_master_pool(&self) -> &Self::PgPool;

    /// The pool for reads of the accounts tables.
    fn get_accounts_replica_pool(&self) -> &Self::PgPool;
}

} // verus!
