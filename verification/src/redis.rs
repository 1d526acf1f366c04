//! The Redis side of a store.
use std::sync::Arc;
use vstd::prelude::*;

use crate::errors::RedisError;

verus! {

/// Something that can hand out its Redis connection.
///
/// Whether a connection is to be had can change between two calls.
pub trait RedisConnInterface {
    /// A pool of connections.
    type RedisConnectionPool;

    /// The connection pool, or the reason why there is none.
    fn get_redis_conn(&self) -> Result<Arc<Self::RedisConnectionPool>, RedisError>;
}

/// A pool of Redis connections.
///
/// Connecting, subscribing and writing take I/O: a store asks for them with
/// [`InitAction`](crate::startup::InitAction) and [`PushAction`](crate::drainer::PushAction).
/// Nothing is promised here of the two methods.
pub trait ConnectionPool: Sized {
    /// What is needed to connect.
    type RedisSettings;

    /// The channel on which a connection error is reported.
    type ErrorSignal;

    /// A pool on the same connections whose keys have a prefix.
    fn clone_with_prefix(&self, key_prefix: &str) -> Self;

    /// The pool, or the reason why it has no connection.
    fn available(pool: &Arc<Self>) -> Result<Arc<Self>, RedisError>;
}

/// A cache that lives in Redis.
#[derive(Debug)]
pub struct RedisStore<P> {
    /// The connection pool.
    pub redis_conn: Arc<P>,
}

impl<P: ConnectionPool> RedisStore<P> {
    /// Whether another cache is this one with a key prefix: its pool came of cloning the pool of
    /// this one with that prefix.
    pub open spec fn scopes_to(self, key_prefix: &str, scoped: Self) -> bool {
        call_ensures(P::clone_with_prefix, (&*self.redis_conn, key_prefix), *scoped.redis_conn)
    }

    /// A cache on a pool of its own: a clone of this one's pool, with a key prefix.
    pub fn scoped(&self, key_prefix: &str) -> (scoped: Self)
        ensures
            self.scopes_to(key_prefix, scoped),
            call_ensures(
                P::clone_with_prefix,
                (&*self.redis_conn, key_prefix),
                *scoped.redis_conn,
            ),
    {
        RedisStore { redis_conn: Arc::new(self.redis_conn.clone_with_prefix(key_prefix)) }
    }
}

impl<P: ConnectionPool> RedisConnInterface for RedisStore<P> {
    type RedisConnectionPool = P;

    fn get_redis_conn(&self) -> (conn: Result<Arc<P>, RedisError>)
        ensures
            call_ensures(P::available, (&self.redis_conn,), conn),
    {
        P::available(&self.redis_conn)
    }
}

/// A cache is another one with a key prefix exactly if its pool came of cloning the other's pool,
/// with that prefix and no other.
pub proof fn law_scoped_cache_is_on_a_prefixed_pool<P: ConnectionPool>(
    cache: RedisStore<P>,
    key_prefix: &str,
    scoped: RedisStore<P>,
)
    ensures
        cache.scopes_to(key_prefix, scoped) <==> call_ensures(
            P::clone_with_prefix,
            (&*cache.redis_conn, key_prefix),
            *scoped.redis_conn,
        ),
{
}

/// How an entry of a stream gets its id.
#[derive(Debug, Clone, Copy, PartialEq, Eq, Structural)]
pub enum RedisEntryId {
    /// The server picks the id.
    AutoGeneratedID,
}

/// What adding members to a set reports.
#[derive(Debug, Clone, Copy, PartialEq, Eq, Structural)]
pub enum SaddReply {
    /// The members were added.
    KeySet,
    /// Nothing was added: the members were there before.
    KeyNotSet,
}

} // verus!
