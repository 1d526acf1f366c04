//! How a router store comes to be: which outside step is taken when, and what its outcome means.
//!
//! A start-up is a conversation. It opens with a state and a first [`InitAction`]; whoever runs
//! it performs the action and hands the outcome back as an [`InitEvent`], which gives the next
//! state and the next action, until the action is to return.
use std::sync::Arc;
use vstd::prelude::*;

use crate::config::TenantConfig;
use crate::database::DatabaseStore;
use crate::errors::StorageError;
use crate::redis::{ConnectionPool, RedisStore};
use crate::router_store::RouterStore;

verus! {

/// An outside step of a start-up.
pub enum InitAction<'a, T: DatabaseStore, P: ConnectionPool> {
    /// Connect to Redis with these settings.
    ConnectCache { cache_conf: P::RedisSettings },
    /// Have connection errors of this cache reported on this channel.
    SetErrorCallback { cache_store: Arc<RedisStore<P>>, cache_error_signal: P::ErrorSignal },
    /// Open the database for this tenant, inside a test transaction or not.
    OpenDatabase { db_conf: T::Config, tenant_config: TenantConfig<'a>, test_transaction: bool },
    /// Subscribe this cache to a channel.
    Subscribe { cache_store: Arc<RedisStore<P>>, channel: &'a str },
    /// Return what the state holds: the start-up is over.
    Return,
    /// The event was no answer to the step that is pending; nothing is to be done.
    Ignore,
}

/// The outcome of an outside step of a start-up.
pub enum InitEvent<T, P> {
    /// The connection to Redis stands.
    CacheConnected(RedisStore<P>),
    /// There is no connection to Redis.
    CacheConnectFailed,
    /// Connection errors are reported from now on.
    ErrorCallbackSet,
    /// The database is open.
    DatabaseOpened(T),
    /// The database is not open.
    DatabaseOpenFailed(StorageError),
    /// The subscription stands.
    Subscribed,
    /// There is no subscription.
    SubscribeFailed,
}

/// Who began a start-up, or a part of it.
#[derive(Debug, Clone, Copy, PartialEq, Eq, Structural)]
pub enum StartUp {
    /// [`RouterStore::from_config`] or [`RouterStore::test_store`] by itself, or
    /// [`RouterStore::cache_store`], whose failures [`RouterStore::new`] hands on as they are.
    Direct,
    /// [`RouterStore::new`], for a live store.
    New,
    /// [`RouterStore::new`], for a test store.
    NewTest,
}

/// The step at which a start-up failed.
#[derive(Debug, Clone, Copy, PartialEq, Eq, Structural)]
pub enum FailedStep {
    /// The connection of a cache that is to be handed out.
    CacheStore,
    /// The connection of a test store.
    TestCache,
    /// The database.
    Database,
    /// The subscription.
    Subscription,
}

/// A start-up that failed: its error, and what decides the notes that go with it.
#[derive(Debug, Clone, PartialEq, Eq)]
pub struct InitFailure {
    /// The error.
    pub error: StorageError,
    /// Who began the start-up.
    pub begun: StartUp,
    /// The step that failed.
    pub failed: FailedStep,
}

/// What is noted of a failed step.
pub open spec fn step_notes(failed: FailedStep) -> Seq<Seq<char>> {
    match failed {
        FailedStep::CacheStore => seq!["Failed to create cache store"@],
        FailedStep::TestCache => seq!["failed to create redis cache"@],
        FailedStep::Database => seq![],
        FailedStep::Subscription => seq!["Failed to subscribe to inmemory cache stream"@],
    }
}

/// What is noted of a failed start-up, whatever the step.
pub open spec fn start_up_notes(begun: StartUp) -> Seq<Seq<char>> {
    match begun {
        StartUp::Direct => seq![],
        StartUp::New => seq!["failed to create store"@],
        StartUp::NewTest => seq!["failed to create test router store"@],
    }
}

/// The notes for people that go with a failure, in the order in which they are attached: that of
/// the step first, that of the start-up last.
pub fn failure_notes(begun: StartUp, failed: FailedStep) -> (notes: Vec<&'static str>)
    ensures
        notes.deep_view() == step_notes(failed) + start_up_notes(begun),
{
    let mut notes: Vec<&'static str> = Vec::new();
    match failed {
        FailedStep::CacheStore => notes.push("Failed to create cache store"),
        FailedStep::TestCache => notes.push("failed to create redis cache"),
        FailedStep::Database => {},
        FailedStep::Subscription => notes.push("Failed to subscribe to inmemory cache stream"),
    }
    assert(notes.deep_view() =~= step_notes(failed));
    match begun {
        StartUp::Direct => {},
        StartUp::New => notes.push("failed to create store"),
        StartUp::NewTest => notes.push("failed to create test router store"),
    }
    assert(notes.deep_view() =~= step_notes(failed) + start_up_notes(begun));
    notes
}

impl InitFailure {
    /// What is noted of this failure: first of the step, last of the start-up.
    pub open spec fn noted(self) -> Seq<Seq<char>> {
        step_notes(self.failed) + start_up_notes(self.begun)
    }

    /// The notes for people that go with this failure, in the order in which they are attached.
    pub fn notes(&self) -> (notes: Vec<&'static str>)
        ensures
            notes.deep_view() == self.noted(),
    {
        failure_notes(self.begun, self.failed)
    }
}

/// What [`RouterStore::cache_store`] waits for.
pub enum CacheInit<P: ConnectionPool> {
    /// The connection to Redis.
    Connecting { cache_error_signal: P::ErrorSignal },
    /// The error callback of the connected cache.
    SettingErrorCallback { cache_store: Arc<RedisStore<P>> },
    /// Nothing: this is what it returns.
    Finished(Result<Arc<RedisStore<P>>, InitFailure>),
}

/// What the start-up of a router store waits for.
pub enum StoreInit<'a, T: DatabaseStore, P: ConnectionPool, K> {
    /// The cache that the store is made on.
    CacheStore {
        cache: CacheInit<P>,
        db_conf: T::Config,
        tenant_config: TenantConfig<'a>,
        encryption_key: K,
        inmemory_cache_stream: &'a str,
    },
    /// The database.
    OpeningDatabase {
        begun: StartUp,
        tenant_config: TenantConfig<'a>,
        encryption_key: K,
        cache_store: Arc<RedisStore<P>>,
        inmemory_cache_stream: &'a str,
    },
    /// The subscription of the tenant's cache.
    Subscribing { begun: StartUp, db_store: T, encryption_key: K, cache_store: Arc<RedisStore<P>> },
    /// The database of a test store.
    OpeningTestDatabase { begun: StartUp, cache_conf: P::RedisSettings, encryption_key: K },
    /// The cache of a test store.
    ConnectingTestCache { begun: StartUp, db_store: T, encryption_key: K },
    /// Nothing: this is what the start-up returns.
    Finished(Result<RouterStore<T, P, K>, InitFailure>),
}

/// How [`RouterStore::cache_store`] begins: with the connection.
pub open spec fn cache_start<'a, T: DatabaseStore, P: ConnectionPool>(
    cache_conf: P::RedisSettings,
    cache_error_signal: P::ErrorSignal,
) -> (CacheInit<P>, InitAction<'a, T, P>) {
    (CacheInit::Connecting { cache_error_signal }, InitAction::ConnectCache { cache_conf })
}

/// How a store on a given cache begins: with the database, outside any test transaction.
pub open spec fn config_start<'a, T: DatabaseStore, P: ConnectionPool, K>(
    begun: StartUp,
    db_conf: T::Config,
    tenant_config: TenantConfig<'a>,
    encryption_key: K,
    cache_store: Arc<RedisStore<P>>,
    inmemory_cache_stream: &'a str,
) -> (StoreInit<'a, T, P, K>, InitAction<'a, T, P>) {
    (
        StoreInit::OpeningDatabase {
            begun,
            tenant_config,
            encryption_key,
            cache_store,
            inmemory_cache_stream,
        },
        InitAction::OpenDatabase { db_conf, tenant_config, test_transaction: false },
    )
}

/// How a test store begins: with the database, inside a test transaction.
pub open spec fn test_start<'a, T: DatabaseStore, P: ConnectionPool, K>(
    begun: StartUp,
    db_conf: T::Config,
    tenant_config: TenantConfig<'a>,
    cache_conf: P::RedisSettings,
    encryption_key: K,
) -> (StoreInit<'a, T, P, K>, InitAction<'a, T, P>) {
    (
        StoreInit::OpeningTestDatabase { begun, cache_conf, encryption_key },
        InitAction::OpenDatabase { db_conf, tenant_config, test_transaction: true },
    )
}

/// How [`RouterStore::new`] begins: a test store as [`test_start`] says, any other with its
/// cache, as [`cache_start`] says.
pub open spec fn store_start<'a, T: DatabaseStore, P: ConnectionPool, K>(
    config: (T::Config, P::RedisSettings, K, P::ErrorSignal, &'static str),
    tenant_config: TenantConfig<'a>,
    test_transaction: bool,
) -> (StoreInit<'a, T, P, K>, InitAction<'a, T, P>) {
    let (db_conf, cache_conf, encryption_key, cache_error_signal, inmemory_cache_stream) = config;
    if test_transaction {
        test_start(StartUp::NewTest, db_conf, tenant_config, cache_conf, encryption_key)
    } else {
        let (cache, action) = cache_start::<T, P>(cache_conf, cache_error_signal);
        (
            StoreInit::CacheStore {
                cache,
                db_conf,
                tenant_config,
                encryption_key,
                inmemory_cache_stream,
            },
            action,
        )
    }
}

/// The step after the database of a live store: the subscription of the tenant's cache.
pub open spec fn then_subscribe<'a, T: DatabaseStore, P: ConnectionPool, K>(
    begun: StartUp,
    db_store: T,
    encryption_key: K,
    cache_store: Arc<RedisStore<P>>,
    inmemory_cache_stream: &'a str,
) -> (StoreInit<'a, T, P, K>, InitAction<'a, T, P>) {
    (
        StoreInit::Subscribing { begun, db_store, encryption_key, cache_store },
        InitAction::Subscribe { cache_store, channel: inmemory_cache_stream },
    )
}

/// The step after the database of a test store: the connection.
pub open spec fn then_connect<'a, T: DatabaseStore, P: ConnectionPool, K>(
    begun: StartUp,
    db_store: T,
    encryption_key: K,
    cache_conf: P::RedisSettings,
) -> (StoreInit<'a, T, P, K>, InitAction<'a, T, P>) {
    (
        StoreInit::ConnectingTestCache { begun, db_store, encryption_key },
        InitAction::ConnectCache { cache_conf },
    )
}

/// The end of a start-up that succeeds. The store belongs to no request yet.
pub open spec fn then_succeed<'a, T: DatabaseStore, P: ConnectionPool, K>(
    db_store: T,
    cache_store: Arc<RedisStore<P>>,
    encryption_key: K,
) -> (StoreInit<'a, T, P, K>, InitAction<'a, T, P>) {
    (
        StoreInit::Finished(
            Ok(
                RouterStore {
                    db_store,
                    cache_store,
                    master_encryption_key: encryption_key,
                    request_id: None,
                },
            ),
        ),
        InitAction::Return,
    )
}

/// The end of a start-up that fails.
pub open spec fn then_fail<'a, T: DatabaseStore, P: ConnectionPool, K>(failure: InitFailure) -> (
    StoreInit<'a, T, P, K>,
    InitAction<'a, T, P>,
) {
    (StoreInit::Finished(Err(failure)), InitAction::Return)
}

impl<P: ConnectionPool> CacheInit<P> {
    /// The state and the action that follow an event.
    pub open spec fn after<'a, T: DatabaseStore>(self, event: InitEvent<T, P>) -> (
        Self,
        InitAction<'a, T, P>,
    ) {
        match (self, event) {
            (CacheInit::Connecting { cache_error_signal }, InitEvent::CacheConnected(cache)) => (
                CacheInit::SettingErrorCallback { cache_store: Arc::new(cache) },
                InitAction::SetErrorCallback { cache_store: Arc::new(cache), cache_error_signal },
            ),
            (CacheInit::Connecting { .. }, InitEvent::CacheConnectFailed) => (
                CacheInit::Finished(
                    Err(
                        InitFailure {
                            error: StorageError::InitializationError,
                            begun: StartUp::Direct,
                            failed: FailedStep::CacheStore,
                        },
                    ),
                ),
                InitAction::Return,
            ),
            (CacheInit::SettingErrorCallback { cache_store }, InitEvent::ErrorCallbackSet) => (
                CacheInit::Finished(Ok(cache_store)),
                InitAction::Return,
            ),
            (state, _) => (state, InitAction::Ignore),
        }
    }

    /// Takes the outcome of the pending step and says what comes next.
    pub fn step<'a, T: DatabaseStore>(self, event: InitEvent<T, P>) -> (next: (
        Self,
        InitAction<'a, T, P>,
    ))
        ensures
            next == self.after::<T>(event),
    {
        match (self, event) {
            (CacheInit::Connecting { cache_error_signal }, InitEvent::CacheConnected(cache)) => {
                let cache_store = Arc::new(cache);
                (
                    CacheInit::SettingErrorCallback { cache_store: cache_store.clone() },
                    InitAction::SetErrorCallback { cache_store, cache_error_signal },
                )
            },
            (CacheInit::Connecting { .. }, InitEvent::CacheConnectFailed) => (
                CacheInit::Finished(
                    Err(
                        InitFailure {
                            error: StorageError::InitializationError,
                            begun: StartUp::Direct,
                            failed: FailedStep::CacheStore,
                        },
                    ),
                ),
                InitAction::Return,
            ),
            (CacheInit::SettingErrorCallback { cache_store }, InitEvent::ErrorCallbackSet) => (
                CacheInit::Finished(Ok(cache_store)),
                InitAction::Return,
            ),
            (state, _) => (state, InitAction::Ignore),
        }
    }
}

impl<'a, T: DatabaseStore, P: ConnectionPool, K> StoreInit<'a, T, P, K> {
    /// Whether a state and an action can follow an event.
    ///
    /// While the cache is being made, the steps are those of [`CacheInit`]; once it is there, the
    /// start-up goes on as [`config_start`] says. Only one thing is left open: what
    /// comes of cloning the pool of the cache with the tenant's key prefix.
    pub open spec fn leads_to(
        self,
        event: InitEvent<T, P>,
        next: (Self, InitAction<'a, T, P>),
    ) -> bool {
        match self {
            StoreInit::CacheStore {
                cache,
                db_conf,
                tenant_config,
                encryption_key,
                inmemory_cache_stream,
            } => {
                let (cache, action) = cache.after::<T>(event);
                next == match cache {
                    CacheInit::Finished(Ok(cache_store)) => config_start(
                        StartUp::New,
                        db_conf,
                        tenant_config,
                        encryption_key,
                        cache_store,
                        inmemory_cache_stream,
                    ),
                    CacheInit::Finished(Err(failure)) => then_fail(failure),
                    _ => (
                        StoreInit::CacheStore {
                            cache,
                            db_conf,
                            tenant_config,
                            encryption_key,
                            inmemory_cache_stream,
                        },
                        action,
                    ),
                }
            },
            StoreInit::OpeningDatabase {
                begun,
                tenant_config,
                encryption_key,
                cache_store,
                inmemory_cache_stream,
            } => match event {
                InitEvent::DatabaseOpened(db_store) => exists|scoped: RedisStore<P>| #[trigger]
                    cache_store.scopes_to(tenant_config.redis_key_prefix, scoped)
                        && next == then_subscribe(
                        begun,
                        db_store,
                        encryption_key,
                        Arc::new(scoped),
                        inmemory_cache_stream,
                    ),
                InitEvent::DatabaseOpenFailed(error) => next == then_fail::<T, P, K>(
                    InitFailure { error, begun, failed: FailedStep::Database },
                ),
                _ => next.0 == self && next.1 is Ignore,
            },
            StoreInit::Subscribing { begun, db_store, encryption_key, cache_store } => match event {
                InitEvent::Subscribed => next == then_succeed::<T, P, K>(
                    db_store,
                    cache_store,
                    encryption_key,
                ),
                InitEvent::SubscribeFailed => next == then_fail::<T, P, K>(
                    InitFailure {
                        error: StorageError::InitializationError,
                        begun,
                        failed: FailedStep::Subscription,
                    },
                ),
                _ => next.0 == self && next.1 is Ignore,
            },
            StoreInit::OpeningTestDatabase { begun, cache_conf, encryption_key } => match event {
                InitEvent::DatabaseOpened(db_store) => next == then_connect::<T, P, K>(
                    begun,
                    db_store,
                    encryption_key,
                    cache_conf,
                ),
                InitEvent::DatabaseOpenFailed(error) => next == then_fail::<T, P, K>(
                    InitFailure { error, begun, failed: FailedStep::Database },
                ),
                _ => next.0 == self && next.1 is Ignore,
            },
            StoreInit::ConnectingTestCache { begun, db_store, encryption_key } => match event {
                InitEvent::CacheConnected(cache) => next == then_succeed::<T, P, K>(
                    db_store,
                    Arc::new(cache),
                    encryption_key,
                ),
                InitEvent::CacheConnectFailed => next == then_fail::<T, P, K>(
                    InitFailure {
                        error: StorageError::InitializationError,
                        begun,
                        failed: FailedStep::TestCache,
                    },
                ),
                _ => next.0 == self && next.1 is Ignore,
            },
            StoreInit::Finished(_) => next.0 == self && next.1 is Ignore,
        }
    }

    /// Begins the start-up of a store on a given cache.
    pub(crate) fn begin_configured(
        begun: StartUp,
        db_conf: T::Config,
        tenant_config: TenantConfig<'a>,
        encryption_key: K,
        cache_store: Arc<RedisStore<P>>,
        inmemory_cache_stream: &'a str,
    ) -> (start: (Self, InitAction<'a, T, P>))
        ensures
            start == config_start::<T, P, K>(
                begun,
                db_conf,
                tenant_config,
                encryption_key,
                cache_store,
                inmemory_cache_stream,
            ),
    {
        (
            StoreInit::OpeningDatabase {
                begun,
                tenant_config,
                encryption_key,
                cache_store,
                inmemory_cache_stream,
            },
            InitAction::OpenDatabase { db_conf, tenant_config, test_transaction: false },
        )
    }

    /// Begins the start-up of a test store.
    pub(crate) fn begin_test(
        begun: StartUp,
        db_conf: T::Config,
        tenant_config: TenantConfig<'a>,
        cache_conf: P::RedisSettings,
        encryption_key: K,
    ) -> (start: (Self, InitAction<'a, T, P>))
        ensures
            start == test_start::<T, P, K>(
                begun,
                db_conf,
                tenant_config,
                cache_conf,
                encryption_key,
            ),
    {
        (
            StoreInit::OpeningTestDatabase { begun, cache_conf, encryption_key },
            InitAction::OpenDatabase { db_conf, tenant_config, test_transaction: true },
        )
    }

    /// Takes the outcome of the pending step and says what comes next.
    ///
    /// Once the database is open, it makes a cache on a clone of the given one's pool, with the
    /// tenant's key prefix.
    pub fn step(self, event: InitEvent<T, P>) -> (next: (Self, InitAction<'a, T, P>))
        ensures
            self.leads_to(event, next),
    {
        match (self, event) {
            (
                StoreInit::CacheStore {
                    cache,
                    db_conf,
                    tenant_config,
                    encryption_key,
                    inmemory_cache_stream,
                },
                event,
            ) => {
                let (cache, action) = cache.step(event);
                match cache {
                    CacheInit::Finished(Ok(cache_store)) => StoreInit::begin_configured(
                        StartUp::New,
                        db_conf,
                        tenant_config,
                        encryption_key,
                        cache_store,
                        inmemory_cache_stream,
                    ),
                    CacheInit::Finished(Err(failure)) => (
                        StoreInit::Finished(Err(failure)),
                        InitAction::Return,
                    ),
                    cache => (
                        StoreInit::CacheStore {
                            cache,
                            db_conf,
                            tenant_config,
                            encryption_key,
                            inmemory_cache_stream,
                        },
                        action,
                    ),
                }
            },
            (
                StoreInit::OpeningDatabase {
                    begun,
                    tenant_config,
                    encryption_key,
                    cache_store,
                    inmemory_cache_stream,
                },
                InitEvent::DatabaseOpened(db_store),
            ) => {
                let scoped = Arc::new(cache_store.scoped(tenant_config.redis_key_prefix));
                (
                    StoreInit::Subscribing {
                        begun,
                        db_store,
                        encryption_key,
                        cache_store: scoped.clone(),
                    },
                    InitAction::Subscribe { cache_store: scoped, channel: inmemory_cache_stream },
                )
            },
            (
                StoreInit::Subscribing { db_store, encryption_key, cache_store, .. },
                InitEvent::Subscribed,
            ) => (
                StoreInit::Finished(
                    Ok(
                        RouterStore {
                            db_store,
                            cache_store,
                            master_encryption_key: encryption_key,
                            request_id: None,
                        },
                    ),
                ),
                InitAction::Return,
            ),
            (
                StoreInit::OpeningTestDatabase { begun, cache_conf, encryption_key },
                InitEvent::DatabaseOpened(db_store),
            ) => (
                StoreInit::ConnectingTestCache { begun, db_store, encryption_key },
                InitAction::ConnectCache { cache_conf },
            ),
            (
                StoreInit::ConnectingTestCache { db_store, encryption_key, .. },
                InitEvent::CacheConnected(cache),
            ) => (
                StoreInit::Finished(
                    Ok(
                        RouterStore {
                            db_store,
                            cache_store: Arc::new(cache),
                            master_encryption_key: encryption_key,
                            request_id: None,
                        },
                    ),
                ),
                InitAction::Return,
            ),
            (
                StoreInit::OpeningDatabase { begun, .. }
                | StoreInit::OpeningTestDatabase { begun, .. },
                InitEvent::DatabaseOpenFailed(error),
            ) => (
                StoreInit::Finished(
                    Err(InitFailure { error, begun, failed: FailedStep::Database }),
                ),
                InitAction::Return,
            ),
            (StoreInit::Subscribing { begun, .. }, InitEvent::SubscribeFailed) => (
                StoreInit::Finished(
                    Err(
                        InitFailure {
                            error: StorageError::InitializationError,
                            begun,
                            failed: FailedStep::Subscription,
                        },
                    ),
                ),
                InitAction::Return,
            ),
            (StoreInit::ConnectingTestCache { begun, .. }, InitEvent::CacheConnectFailed) => (
                StoreInit::Finished(
                    Err(
                        InitFailure {
                            error: StorageError::InitializationError,
                            begun,
                            failed: FailedStep::TestCache,
                        },
                    ),
                ),
                InitAction::Return,
            ),
            (state, _) => (state, InitAction::Ignore),
        }
    }
}

} // verus!
