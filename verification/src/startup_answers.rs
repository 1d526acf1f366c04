//! How each start-up begins, and what each outcome of a step leads to, for every configuration.
use std::sync::Arc;
use vstd::prelude::*;

use crate::config::TenantConfig;
use crate::database::DatabaseStore;
use crate::redis::{ConnectionPool, RedisStore};
use crate::router_store::RouterStore;
use crate::startup::{cache_start, config_start, store_start, test_start};
use crate::startup::{start_up_notes, step_notes};
use crate::startup::{CacheInit, InitAction, InitEvent, InitFailure, StartUp, StoreInit};

verus! {

/// A cache begins with the connection, with the given settings, and keeps the given channel for
/// its error callback.
pub proof fn law_cache_begins_with_its_connection<T: DatabaseStore, P: ConnectionPool>(
    cache_conf: P::RedisSettings,
    cache_error_signal: P::ErrorSignal,
)
    ensures
        ({
            let (cache, first) = cache_start::<T, P>(cache_conf, cache_error_signal);
            &&& first matches InitAction::ConnectCache { cache_conf: conf }
            &&& conf == cache_conf
            &&& cache matches CacheInit::Connecting { cache_error_signal: signal }
            &&& signal == cache_error_signal
        }),
{
}

/// A live store begins with the connection, with the configured settings, and keeps everything
/// else that it was configured with for its later steps.
pub proof fn law_live_store_begins_with_its_connection<
    'a,
    T: DatabaseStore,
    P: ConnectionPool,
    K,
>(
    config: (T::Config, P::RedisSettings, K, P::ErrorSignal, &'static str),
    tenant_config: TenantConfig<'a>,
)
    ensures
        ({
            let (state, first) = store_start::<T, P, K>(config, tenant_config, false);
            &&& first matches InitAction::ConnectCache { cache_conf }
            &&& cache_conf == config.1
            &&& state matches StoreInit::CacheStore {
                cache: CacheInit::Connecting { cache_error_signal },
                db_conf,
                tenant_config: tenant,
                encryption_key,
                inmemory_cache_stream,
            }
            &&& cache_error_signal == config.3
            &&& db_conf == config.0
            &&& tenant == tenant_config
            &&& encryption_key == config.2
            &&& inmemory_cache_stream == config.4
        }),
{
}

/// A test store of [`RouterStore::new`] begins with the database of the given tenant, inside a
/// test transaction, and keeps the cache settings and the key for its later steps.
pub proof fn law_new_test_store_begins_with_its_database<
    'a,
    T: DatabaseStore,
    P: ConnectionPool,
    K,
>(
    config: (T::Config, P::RedisSettings, K, P::ErrorSignal, &'static str),
    tenant_config: TenantConfig<'a>,
)
    ensures
        ({
            let (state, first) = store_start::<T, P, K>(config, tenant_config, true);
            &&& first matches InitAction::OpenDatabase {
                db_conf,
                tenant_config: tenant,
                test_transaction,
            }
            &&& db_conf == config.0
            &&& tenant == tenant_config
            &&& tenant.schema@ == tenant_config.schema@
            &&& tenant.redis_key_prefix@ == tenant_config.redis_key_prefix@
            &&& test_transaction
            &&& state matches StoreInit::OpeningTestDatabase { begun, cache_conf, encryption_key }
            &&& begun == StartUp::NewTest
            &&& cache_conf == config.1
            &&& encryption_key == config.2
        }),
        store_start::<T, P, K>(config, tenant_config, true) == test_start::<T, P, K>(
            StartUp::NewTest,
            config.0,
            tenant_config,
            config.1,
            config.2,
        ),
{
}

/// A test store begins with the database of the given tenant, inside a test transaction, and keeps
/// the cache settings and the key for its later steps.
pub proof fn law_test_store_begins_with_its_database<'a, T: DatabaseStore, P: ConnectionPool, K>(
    begun: StartUp,
    db_conf: T::Config,
    tenant_config: TenantConfig<'a>,
    cache_conf: P::RedisSettings,
    encryption_key: K,
)
    ensures
        ({
            let (state, first) = test_start::<T, P, K>(
                begun,
                db_conf,
                tenant_config,
                cache_conf,
                encryption_key,
            );
            &&& first matches InitAction::OpenDatabase {
                db_conf: conf,
                tenant_config: tenant,
                test_transaction,
            }
            &&& conf == db_conf
            &&& tenant == tenant_config
            &&& test_transaction
            &&& state matches StoreInit::OpeningTestDatabase {
                begun: who,
                cache_conf: settings,
                encryption_key: key,
            }
            &&& who == begun
            &&& settings == cache_conf
            &&& key == encryption_key
        }),
{
}

/// A store on a given cache begins with the database of the given tenant, outside any test
/// transaction, and keeps the tenant, the key, the cache and the stream for its later steps.
pub proof fn law_configured_store_begins_with_its_database<
    'a,
    T: DatabaseStore,
    P: ConnectionPool,
    K,
>(
    begun: StartUp,
    db_conf: T::Config,
    tenant_config: TenantConfig<'a>,
    encryption_key: K,
    cache_store: Arc<RedisStore<P>>,
    inmemory_cache_stream: &'a str,
)
    ensures
        ({
            let (state, first) = config_start::<T, P, K>(
                begun,
                db_conf,
                tenant_config,
                encryption_key,
                cache_store,
                inmemory_cache_stream,
            );
            &&& first matches InitAction::OpenDatabase {
                db_conf: conf,
                tenant_config: tenant,
                test_transaction,
            }
            &&& conf == db_conf
            &&& tenant == tenant_config
            &&& !test_transaction
            &&& state matches StoreInit::OpeningDatabase {
                begun: who,
                tenant_config: kept_tenant,
                encryption_key: key,
                cache_store: cache,
                inmemory_cache_stream: stream,
            }
            &&& who == begun
            &&& kept_tenant == tenant_config
            &&& key == encryption_key
            &&& cache == cache_store
            &&& stream == inmemory_cache_stream
        }),
{
}

/// While a cache waits for its connection: a connection is kept, and its error callback is asked
/// for on the given channel; without one the cache fails. Nothing else moves it.
pub proof fn law_connection_of_a_cache_is_answered<T: DatabaseStore, P: ConnectionPool>(
    cache_error_signal: P::ErrorSignal,
    event: InitEvent<T, P>,
)
    ensures
        ({
            let cache = CacheInit::<P>::Connecting { cache_error_signal };
            let (next, action) = cache.after::<T>(event);
            match event {
                InitEvent::CacheConnected(connected) => {
                    &&& next matches CacheInit::SettingErrorCallback { cache_store }
                    &&& *cache_store == connected
                    &&& action matches InitAction::SetErrorCallback {
                        cache_store: asked,
                        cache_error_signal: signal,
                    }
                    &&& *asked == connected
                    &&& signal == cache_error_signal
                },
                InitEvent::CacheConnectFailed => {
                    &&& next matches CacheInit::Finished(Err(failure))
                    &&& failure.error is InitializationError
                    &&& failure.begun is Direct
                    &&& failure.failed is CacheStore
                    &&& action is Return
                },
                _ => next == cache && action is Ignore,
            }
        }),
{
}

/// While a cache waits for its error callback: once it is set, the cache is handed out. Nothing
/// else moves it, and a cache that is handed out or has failed stays so.
pub proof fn law_error_callback_of_a_cache_is_answered<T: DatabaseStore, P: ConnectionPool>(
    cache_store: Arc<RedisStore<P>>,
    outcome: Result<Arc<RedisStore<P>>, InitFailure>,
    event: InitEvent<T, P>,
)
    ensures
        ({
            let cache = CacheInit::<P>::SettingErrorCallback { cache_store };
            let (next, action) = cache.after::<T>(event);
            match event {
                InitEvent::ErrorCallbackSet => {
                    &&& next matches CacheInit::Finished(Ok(handed_out))
                    &&& handed_out == cache_store
                    &&& action is Return
                },
                _ => next == cache && action is Ignore,
            }
        }),
        (CacheInit::<P>::Finished(outcome)).after::<T>(event).0 == CacheInit::<P>::Finished(
            outcome,
        ),
        (CacheInit::<P>::Finished(outcome)).after::<T>(event).1 is Ignore,
{
}

/// While a live store waits for its connection: a connection is kept, its error callback is asked
/// for on the given channel, and everything else is kept; without one the start-up fails, with an
/// initialization error that is handed on as it is. Nothing else moves it.
pub proof fn law_connection_of_a_live_store_is_answered<
    'a,
    T: DatabaseStore,
    P: ConnectionPool,
    K,
>(
    cache_error_signal: P::ErrorSignal,
    db_conf: T::Config,
    tenant_config: TenantConfig<'a>,
    encryption_key: K,
    inmemory_cache_stream: &'a str,
    event: InitEvent<T, P>,
    next: (StoreInit<'a, T, P, K>, InitAction<'a, T, P>),
)
    requires
        (StoreInit::CacheStore {
            cache: CacheInit::Connecting { cache_error_signal },
            db_conf,
            tenant_config,
            encryption_key,
            inmemory_cache_stream,
        }).leads_to(event, next),
    ensures
        match event {
            InitEvent::CacheConnected(connected) => {
                &&& next.0 matches StoreInit::CacheStore {
                    cache: CacheInit::SettingErrorCallback { cache_store },
                    db_conf: conf,
                    tenant_config: tenant,
                    encryption_key: key,
                    inmemory_cache_stream: stream,
                }
                &&& *cache_store == connected
                &&& conf == db_conf
                &&& tenant == tenant_config
                &&& key == encryption_key
                &&& stream == inmemory_cache_stream
                &&& next.1 matches InitAction::SetErrorCallback {
                    cache_store: asked,
                    cache_error_signal: signal,
                }
                &&& *asked == connected
                &&& signal == cache_error_signal
            },
            InitEvent::CacheConnectFailed => {
                &&& next.0 matches StoreInit::Finished(Err(failure))
                &&& failure.error is InitializationError
                &&& failure.begun is Direct
                &&& failure.failed is CacheStore
                &&& next.1 is Return
            },
            _ => {
                &&& next.1 is Ignore
                &&& next.0 matches StoreInit::CacheStore {
                    cache: CacheInit::Connecting { cache_error_signal: signal },
                    db_conf: conf,
                    tenant_config: tenant,
                    encryption_key: key,
                    inmemory_cache_stream: stream,
                }
                &&& signal == cache_error_signal
                &&& conf == db_conf
                &&& tenant == tenant_config
                &&& key == encryption_key
                &&& stream == inmemory_cache_stream
            },
        },
{
}

/// While a live store waits for its error callback: once it is set, the database of the configured
/// tenant is asked for, outside any test transaction, and everything that later steps need is
/// kept. Nothing else moves it.
pub proof fn law_error_callback_of_a_live_store_is_answered<
    'a,
    T: DatabaseStore,
    P: ConnectionPool,
    K,
>(
    cache_store: Arc<RedisStore<P>>,
    db_conf: T::Config,
    tenant_config: TenantConfig<'a>,
    encryption_key: K,
    inmemory_cache_stream: &'a str,
    event: InitEvent<T, P>,
    next: (StoreInit<'a, T, P, K>, InitAction<'a, T, P>),
)
    requires
        (StoreInit::CacheStore {
            cache: CacheInit::SettingErrorCallback { cache_store },
            db_conf,
            tenant_config,
            encryption_key,
            inmemory_cache_stream,
        }).leads_to(event, next),
    ensures
        match event {
            InitEvent::ErrorCallbackSet => {
                &&& next.0 matches StoreInit::OpeningDatabase {
                    begun,
                    tenant_config: kept_tenant,
                    encryption_key: key,
                    cache_store: cache,
                    inmemory_cache_stream: stream,
                }
                &&& begun is New
                &&& kept_tenant == tenant_config
                &&& key == encryption_key
                &&& cache == cache_store
                &&& stream == inmemory_cache_stream
                &&& next.1 matches InitAction::OpenDatabase {
                    db_conf: conf,
                    tenant_config: tenant,
                    test_transaction,
                }
                &&& conf == db_conf
                &&& tenant == tenant_config
                &&& !test_transaction
            },
            _ => {
                &&& next.1 is Ignore
                &&& next.0 matches StoreInit::CacheStore {
                    cache: CacheInit::SettingErrorCallback { cache_store: cache },
                    db_conf: conf,
                    tenant_config: tenant,
                    encryption_key: key,
                    inmemory_cache_stream: stream,
                }
                &&& cache == cache_store
                &&& conf == db_conf
                &&& tenant == tenant_config
                &&& key == encryption_key
                &&& stream == inmemory_cache_stream
            },
        },
{
}

/// While a store on a given cache waits for its database: with the database, a subscription to the
/// given stream is asked for, of a cache whose pool came of cloning the given cache's pool with the
/// tenant's key prefix, and that same cache is kept with the database and the key; without it the
/// start-up fails with the database's own error. Nothing else moves it.
pub proof fn law_database_of_a_store_is_answered<'a, T: DatabaseStore, P: ConnectionPool, K>(
    begun: StartUp,
    tenant_config: TenantConfig<'a>,
    encryption_key: K,
    cache_store: Arc<RedisStore<P>>,
    inmemory_cache_stream: &'a str,
    event: InitEvent<T, P>,
    next: (StoreInit<'a, T, P, K>, InitAction<'a, T, P>),
)
    requires
        (StoreInit::OpeningDatabase {
            begun,
            tenant_config,
            encryption_key,
            cache_store,
            inmemory_cache_stream,
        }).leads_to(event, next),
    ensures
        match event {
            InitEvent::DatabaseOpened(opened) => {
                &&& next.0 matches StoreInit::Subscribing {
                    begun: who,
                    db_store,
                    encryption_key: key,
                    cache_store: scoped,
                }
                &&& who == begun
                &&& db_store == opened
                &&& key == encryption_key
                &&& call_ensures(
                    P::clone_with_prefix,
                    (&*cache_store.redis_conn, tenant_config.redis_key_prefix),
                    *scoped.redis_conn,
                )
                &&& next.1 matches InitAction::Subscribe { cache_store: subscribed, channel }
                &&& subscribed == scoped
                &&& channel == inmemory_cache_stream
            },
            InitEvent::DatabaseOpenFailed(error) => {
                &&& next.0 matches StoreInit::Finished(Err(failure))
                &&& failure.error == error
                &&& failure.begun == begun
                &&& failure.failed is Database
                &&& next.1 is Return
            },
            _ => {
                &&& next.1 is Ignore
                &&& next.0 matches StoreInit::OpeningDatabase {
                    begun: who,
                    tenant_config: tenant,
                    encryption_key: key,
                    cache_store: cache,
                    inmemory_cache_stream: stream,
                }
                &&& who == begun
                &&& tenant == tenant_config
                &&& key == encryption_key
                &&& cache == cache_store
                &&& stream == inmemory_cache_stream
            },
        },
{
}

/// While a store waits for its subscription: with it the store comes up, on the database, the
/// cache and the key that are there, for no request; without it the start-up fails with an
/// initialization error. Nothing else moves it.
pub proof fn law_subscription_is_answered<'a, T: DatabaseStore, P: ConnectionPool, K>(
    begun: StartUp,
    db_store: T,
    encryption_key: K,
    cache_store: Arc<RedisStore<P>>,
    event: InitEvent<T, P>,
    next: (StoreInit<'a, T, P, K>, InitAction<'a, T, P>),
)
    requires
        (StoreInit::Subscribing { begun, db_store, encryption_key, cache_store }).leads_to(
            event,
            next,
        ),
    ensures
        match event {
            InitEvent::Subscribed => {
                &&& next.0 matches StoreInit::Finished(Ok(store))
                &&& store.db_store == db_store
                &&& store.cache_store == cache_store
                &&& store.master_encryption_key == encryption_key
                &&& store.request_id is None
                &&& next.1 is Return
            },
            InitEvent::SubscribeFailed => {
                &&& next.0 matches StoreInit::Finished(Err(failure))
                &&& failure.error is InitializationError
                &&& failure.begun == begun
                &&& failure.failed is Subscription
                &&& next.1 is Return
            },
            _ => {
                &&& next.1 is Ignore
                &&& next.0 matches StoreInit::Subscribing {
                    begun: who,
                    db_store: db,
                    encryption_key: key,
                    cache_store: cache,
                }
                &&& who == begun
                &&& db == db_store
                &&& key == encryption_key
                &&& cache == cache_store
            },
        },
{
}

/// While a test store waits for its database: with it a connection is asked for, with the given
/// settings, and the database and the key are kept; without it the start-up fails with the
/// database's own error. Nothing else moves it.
pub proof fn law_database_of_a_test_store_is_answered<
    'a,
    T: DatabaseStore,
    P: ConnectionPool,
    K,
>(
    begun: StartUp,
    cache_conf: P::RedisSettings,
    encryption_key: K,
    event: InitEvent<T, P>,
    next: (StoreInit<'a, T, P, K>, InitAction<'a, T, P>),
)
    requires
        (StoreInit::OpeningTestDatabase { begun, cache_conf, encryption_key }).leads_to(
            event,
            next,
        ),
    ensures
        match event {
            InitEvent::DatabaseOpened(opened) => {
                &&& next.0 matches StoreInit::ConnectingTestCache {
                    begun: who,
                    db_store,
                    encryption_key: key,
                }
                &&& who == begun
                &&& db_store == opened
                &&& key == encryption_key
                &&& next.1 matches InitAction::ConnectCache { cache_conf: conf }
                &&& conf == cache_conf
            },
            InitEvent::DatabaseOpenFailed(error) => {
                &&& next.0 matches StoreInit::Finished(Err(failure))
                &&& failure.error == error
                &&& failure.begun == begun
                &&& failure.failed is Database
                &&& next.1 is Return
            },
            _ => {
                &&& next.1 is Ignore
                &&& next.0 matches StoreInit::OpeningTestDatabase {
                    begun: who,
                    cache_conf: conf,
                    encryption_key: key,
                }
                &&& who == begun
                &&& conf == cache_conf
                &&& key == encryption_key
            },
        },
{
}

/// While a test store waits for its connection: with it the store comes up, on the database and
/// the key that are there and the connected cache itself, for no request; without it the start-up
/// fails with an initialization error. Nothing else moves it.
pub proof fn law_connection_of_a_test_store_is_answered<
    'a,
    T: DatabaseStore,
    P: ConnectionPool,
    K,
>(
    begun: StartUp,
    db_store: T,
    encryption_key: K,
    event: InitEvent<T, P>,
    next: (StoreInit<'a, T, P, K>, InitAction<'a, T, P>),
)
    requires
        (StoreInit::ConnectingTestCache { begun, db_store, encryption_key }).leads_to(event, next),
    ensures
        match event {
            InitEvent::CacheConnected(connected) => {
                &&& next.0 matches StoreInit::Finished(Ok(store))
                &&& store.db_store == db_store
                &&& *store.cache_store == connected
                &&& store.master_encryption_key == encryption_key
                &&& store.request_id is None
                &&& next.1 is Return
            },
            InitEvent::CacheConnectFailed => {
                &&& next.0 matches StoreInit::Finished(Err(failure))
                &&& failure.error is InitializationError
                &&& failure.begun == begun
                &&& failure.failed is TestCache
                &&& next.1 is Return
            },
            _ => {
                &&& next.1 is Ignore
                &&& next.0 matches StoreInit::ConnectingTestCache {
                    begun: who,
                    db_store: db,
                    encryption_key: key,
                }
                &&& who == begun
                &&& db == db_store
                &&& key == encryption_key
            },
        },
{
}

/// A start-up that is over stays as it ended, whatever happens.
pub proof fn law_finished_start_up_stays<'a, T: DatabaseStore, P: ConnectionPool, K>(
    outcome: Result<RouterStore<T, P, K>, InitFailure>,
    event: InitEvent<T, P>,
    next: (StoreInit<'a, T, P, K>, InitAction<'a, T, P>),
)
    requires
        (StoreInit::Finished(outcome)).leads_to(event, next),
    ensures
        next.1 is Ignore,
        next.0 matches StoreInit::Finished(kept) && kept == outcome,
{
}

/// A failure has a note of the step that failed, unless that was the database, and after it a note
/// of the start-up, if [`RouterStore::new`] began it. There is no other note.
pub proof fn law_notes_of_a_failure(failure: InitFailure)
    ensures
        ({
            let notes = failure.noted();
            let of_step: int = if failure.failed is Database {
                0
            } else {
                1
            };
            let of_start_up: int = if failure.begun is Direct {
                0
            } else {
                1
            };
            &&& notes.len() == of_step + of_start_up
            &&& failure.failed is CacheStore ==> notes[0] == "Failed to create cache store"@
            &&& failure.failed is TestCache ==> notes[0] == "failed to create redis cache"@
            &&& failure.failed is Subscription ==> notes[0]
                == "Failed to subscribe to inmemory cache stream"@
            &&& failure.begun is New ==> notes[of_step] == "failed to create store"@
            &&& failure.begun is NewTest ==> notes[of_step] == "failed to create test router store"@
        }),
        failure.noted() == step_notes(failure.failed) + start_up_notes(failure.begun),
{
}

} // verus!
