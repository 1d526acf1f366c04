//! The router store: a database, a cache and the master key, held together.
use std::sync::Arc;
use vstd::prelude::*;

use crate::config::TenantConfig;
use crate::database::DatabaseStore;
use crate::errors::RedisError;
use crate::redis::{ConnectionPool, RedisConnInterface, RedisStore};
use crate::startup::{CacheInit, InitAction, StartUp, StoreInit};

verus! {

/// A database `T`, a cache on a connection pool `P`, and a master key `K`.
///
/// The key is carried and handed out, never looked at.
#[derive(Debug)]
pub struct RouterStore<T: DatabaseStore, P: ConnectionPool, K> {
    pub db_store: T,
    pub cache_store: Arc<RedisStore<P>>,
    pub master_encryption_key: K,
    pub request_id: Option<String>,
}

impl<T: DatabaseStore + Clone, P: ConnectionPool, K: Clone> Clone for RouterStore<T, P, K> {
    /// A store on clones of the database and the key, which shares the cache.
    fn clone(&self) -> (store: Self)
        ensures
            cloned(self.db_store, store.db_store),
            store.cache_store == self.cache_store,
            cloned(self.master_encryption_key, store.master_encryption_key),
            store.request_id == self.request_id,
    {
        RouterStore {
            db_store: self.db_store.clone(),
            cache_store: self.cache_store.clone(),
            master_encryption_key: self.master_encryption_key.clone(),
            request_id: self.request_id.clone(),
        }
    }
}

impl<T: DatabaseStore, P: ConnectionPool, K> DatabaseStore for RouterStore<T, P, K> {
    type Config = (T::Config, P::RedisSettings, K, P::ErrorSignal, &'static str);

    type PgPool = T::PgPool;

    fn get_master_pool(&self) -> (pool: &T::PgPool)
        ensures
            call_ensures(T::get_master_pool, (&self.db_store,), pool),
    {
        self.db_store.get_master_pool()
    }

    fn get_replica_pool(&self) -> (pool: &T::PgPool)
        ensures
            call_ensures(T::get_replica_pool, (&self.db_store,), pool),
    {
        self.db_store.get_replica_pool()
    }

    fn get_accounts_master_pool(&self) -> (pool: &T::PgPool)
        ensures
            call_ensures(T::get_accounts_master_pool, (&self.db_store,), pool),
    {
        self.db_store.get_accounts_master_pool()
    }

    fn get_accounts_replica_pool(&self) -> (pool: &T::PgPool)
        ensures
            call_ensures(T::get_accounts_replica_pool, (&self.db_store,), pool),
    {
        self.db_store.get_accounts_replica_pool()
    }
}

impl<T: DatabaseStore, P: ConnectionPool, K> RedisConnInterface for RouterStore<T, P, K> {
    type RedisConnectionPool = P;

    fn get_redis_conn(&self) -> (conn: Result<Arc<P>, RedisError>)
        ensures
            call_ensures(P::available, (&self.cache_store.redis_conn,), conn),
    {
        self.cache_store.get_redis_conn()
    }
}

impl<T: DatabaseStore, P: ConnectionPool, K> RouterStore<T, P, K> {
    /// Begins the start-up of a store from its whole configuration.
    ///
    /// A test store is begun as by [`RouterStore::test_store`]. Any other starts with its cache,
    /// as by [`RouterStore::cache_store`], and goes on as by [`RouterStore::from_config`]. Only the
    /// notes of a failure tell them apart.
    pub fn new<'a>(
        config: (T::Config, P::RedisSettings, K, P::ErrorSignal, &'static str),
        tenant_config: &TenantConfig<'a>,
        test_transaction: bool,
    ) -> (begun: (StoreInit<'a, T, P, K>, InitAction<'a, T, P>))
        ensures
            begun == crate::startup::store_start::<T, P, K>(
                config,
                *tenant_config,
                test_transaction,
            ),
    {
        let (db_conf, cache_conf, encryption_key, cache_error_signal, inmemory_cache_stream) =
            config;
        if test_transaction {
            StoreInit::begin_test(
                StartUp::NewTest,
                db_conf,
                *tenant_config,
                cache_conf,
                encryption_key,
            )
        } else {
            let (cache, action) = Self::cache_store(cache_conf, cache_error_signal);
            (
                StoreInit::CacheStore {
                    cache,
                    db_conf,
                    tenant_config: *tenant_config,
                    encryption_key,
                    inmemory_cache_stream,
                },
                action,
            )
        }
    }

    /// Begins the start-up of a store on a cache that is there already: it opens the database,
    /// gives the store a cache with the tenant's key prefix and subscribes that cache.
    pub fn from_config<'a>(
        db_conf: T::Config,
        tenant_config: &TenantConfig<'a>,
        encryption_key: K,
        cache_store: Arc<RedisStore<P>>,
        inmemory_cache_stream: &'a str,
    ) -> (begun: (StoreInit<'a, T, P, K>, InitAction<'a, T, P>))
        ensures
            begun == crate::startup::config_start::<T, P, K>(
                StartUp::Direct,
                db_conf,
                *tenant_config,
                encryption_key,
                cache_store,
                inmemory_cache_stream,
            ),
    {
        StoreInit::begin_configured(
            StartUp::Direct,
            db_conf,
            *tenant_config,
            encryption_key,
            cache_store,
            inmemory_cache_stream,
        )
    }

    /// Begins to make a cache: it connects and has connection errors reported.
    pub fn cache_store<'a>(
        cache_conf: P::RedisSettings,
        cache_error_signal: P::ErrorSignal,
    ) -> (begun: (CacheInit<P>, InitAction<'a, T, P>))
        ensures
            begun == crate::startup::cache_start::<T, P>(cache_conf, cache_error_signal),
    {
        (CacheInit::Connecting { cache_error_signal }, InitAction::ConnectCache { cache_conf })
    }

    /// The master key.
    pub fn master_key(&self) -> (key: &K)
        ensures
            *key == self.master_encryption_key,
    {
        &self.master_encryption_key
    }

    /// Begins the start-up of a test store: it opens the database inside a test transaction and
    /// connects to Redis.
    pub fn test_store<'a>(
        db_conf: T::Config,
        tenant_config: &TenantConfig<'a>,
        cache_conf: P::RedisSettings,
        encryption_key: K,
    ) -> (begun: (StoreInit<'a, T, P, K>, InitAction<'a, T, P>))
        ensures
            begun == crate::startup::test_start::<T, P, K>(
                StartUp::Direct,
                db_conf,
                *tenant_config,
                cache_conf,
                encryption_key,
            ),
    {
        StoreInit::begin_test(
            StartUp::Direct,
            db_conf,
            *tenant_config,
            cache_conf,
            encryption_key,
        )
    }
}

} // verus!
