use std::sync::Arc;

use storage_impl::config::TenantConfig;
use storage_impl::database::DatabaseStore;
use storage_impl::errors::{RedisError, StorageError};
use storage_impl::redis::{ConnectionPool, RedisConnInterface, RedisStore};
use storage_impl::router_store::RouterStore;
use storage_impl::startup::{
    failure_notes, CacheInit, FailedStep, InitAction, InitEvent, InitFailure, StartUp, StoreInit,
};

#[derive(Debug, Clone, PartialEq)]
struct Database {
    pools: [&'static str; 4],
}

impl DatabaseStore for Database {
    type Config = &'static str;
    type PgPool = &'static str;

    fn get_master_pool(&self) -> &&'static str {
        &self.pools[0]
    }

    fn get_replica_pool(&self) -> &&'static str {
        &self.pools[1]
    }

    fn get_accounts_master_pool(&self) -> &&'static str {
        &self.pools[2]
    }

    fn get_accounts_replica_pool(&self) -> &&'static str {
        &self.pools[3]
    }
}

#[derive(Debug, Clone, PartialEq)]
struct Pool {
    name: &'static str,
    prefix: String,
    available: bool,
}

impl ConnectionPool for Pool {
    type RedisSettings = u16;
    type ErrorSignal = char;

    fn clone_with_prefix(&self, key_prefix: &str) -> Self {
        Pool {
            prefix: key_prefix.to_string(),
            ..self.clone()
        }
    }

    fn available(pool: &Arc<Self>) -> Result<Arc<Self>, RedisError> {
        if pool.available {
            Ok(pool.clone())
        } else {
            Err(RedisError::Other("unavailable".to_string()))
        }
    }
}

type Store = RouterStore<Database, Pool, Vec<u8>>;
type Init<'a> = StoreInit<'a, Database, Pool, Vec<u8>>;
type Action<'a> = InitAction<'a, Database, Pool>;

const TENANT: TenantConfig<'static> = TenantConfig {
    schema: "public",
    redis_key_prefix: "tenant",
};

fn database() -> Database {
    Database {
        pools: ["master", "replica", "accounts master", "accounts replica"],
    }
}

fn pool(name: &'static str, prefix: &str) -> Pool {
    Pool {
        name,
        prefix: prefix.to_string(),
        available: true,
    }
}

fn cache(name: &'static str) -> RedisStore<Pool> {
    RedisStore {
        redis_conn: Arc::new(pool(name, "")),
    }
}

fn start(test_transaction: bool) -> (Init<'static>, Action<'static>) {
    Store::new(
        ("db", 6379, vec![1, 2, 3], '!', "stream"),
        &TENANT,
        test_transaction,
    )
}

fn outcome(state: Init<'_>) -> Result<Store, InitFailure> {
    match state {
        StoreInit::Finished(outcome) => outcome,
        _ => panic!("the start-up is not over"),
    }
}

#[test]
fn a_live_store_comes_up_step_by_step() {
    let (state, action) = start(false);
    assert!(matches!(action, InitAction::ConnectCache { cache_conf: 6379 }));
    let (state, action) = state.step(InitEvent::CacheConnected(cache("plain")));
    match action {
        InitAction::SetErrorCallback {
            cache_store,
            cache_error_signal,
        } => {
            assert_eq!(*cache_store.redis_conn, pool("plain", ""));
            assert_eq!(cache_error_signal, '!');
        }
        _ => panic!("the error callback is not asked for"),
    }
    let (state, action) = state.step(InitEvent::ErrorCallbackSet);
    assert!(matches!(
        action,
        InitAction::OpenDatabase {
            db_conf: "db",
            tenant_config: TenantConfig { schema: "public", redis_key_prefix: "tenant" },
            test_transaction: false
        }
    ));
    let (state, action) = state.step(InitEvent::DatabaseOpened(database()));
    match action {
        InitAction::Subscribe {
            cache_store,
            channel,
        } => {
            assert_eq!(*cache_store.redis_conn, pool("plain", "tenant"));
            assert_eq!(channel, "stream");
        }
        _ => panic!("the subscription is not asked for"),
    }
    let (state, action) = state.step(InitEvent::Subscribed);
    assert!(matches!(action, InitAction::Return));
    let store = outcome(state).unwrap();
    assert_eq!(store.db_store, database());
    assert_eq!(*store.cache_store.redis_conn, pool("plain", "tenant"));
    assert_eq!(store.master_key(), &vec![1, 2, 3]);
    assert_eq!(store.request_id, None);
}

#[test]
fn a_test_store_comes_up_without_callback_prefix_and_subscription() {
    let (state, action) = start(true);
    assert!(matches!(
        action,
        InitAction::OpenDatabase {
            db_conf: "db",
            tenant_config: TenantConfig { schema: "public", redis_key_prefix: "tenant" },
            test_transaction: true
        }
    ));
    let (state, action) = state.step(InitEvent::DatabaseOpened(database()));
    assert!(matches!(action, InitAction::ConnectCache { cache_conf: 6379 }));
    let (state, action) = state.step(InitEvent::CacheConnected(cache("plain")));
    assert!(matches!(action, InitAction::Return));
    let store = outcome(state).unwrap();
    assert_eq!(store.db_store, database());
    assert_eq!(*store.cache_store.redis_conn, pool("plain", ""));
    assert_eq!(store.master_key(), &vec![1, 2, 3]);
    assert_eq!(store.request_id, None);
}

#[test]
fn a_live_store_without_a_connection_never_opens_its_database() {
    let (state, _) = start(false);
    let (state, action) = state.step(InitEvent::CacheConnectFailed);
    assert!(matches!(action, InitAction::Return));
    assert_eq!(outcome(state).unwrap_err().error, StorageError::InitializationError);
}

#[test]
fn a_test_store_without_a_connection_fails_to_initialize() {
    let (state, _) = start(true);
    let (state, _) = state.step(InitEvent::DatabaseOpened(database()));
    let (state, action) = state.step(InitEvent::CacheConnectFailed);
    assert!(matches!(action, InitAction::Return));
    assert_eq!(outcome(state).unwrap_err().error, StorageError::InitializationError);
}

#[test]
fn the_error_of_the_database_is_handed_on() {
    let (state, _) = start(true);
    let (state, action) = state.step(InitEvent::DatabaseOpenFailed(
        StorageError::DatabaseConnectionError,
    ));
    assert!(matches!(action, InitAction::Return));
    assert_eq!(outcome(state).unwrap_err().error, StorageError::DatabaseConnectionError);

    let (state, _) =
        Store::from_config("db", &TENANT, vec![9], Arc::new(cache("plain")), "stream");
    let error = StorageError::Other("no such host".to_string());
    let (state, action) = state.step(InitEvent::DatabaseOpenFailed(error.clone()));
    assert!(matches!(action, InitAction::Return));
    assert_eq!(outcome(state).unwrap_err().error, error);
}

#[test]
fn a_store_that_cannot_subscribe_fails_to_initialize() {
    let (state, action) =
        Store::from_config("db", &TENANT, vec![9], Arc::new(cache("plain")), "stream");
    assert!(matches!(
        action,
        InitAction::OpenDatabase {
            db_conf: "db",
            tenant_config: TenantConfig { schema: "public", redis_key_prefix: "tenant" },
            test_transaction: false
        }
    ));
    let (state, _) = state.step(InitEvent::DatabaseOpened(database()));
    let (state, action) = state.step(InitEvent::SubscribeFailed);
    assert!(matches!(action, InitAction::Return));
    assert_eq!(outcome(state).unwrap_err().error, StorageError::InitializationError);
}

#[test]
fn a_store_from_its_configuration_shares_nothing_but_the_connection() {
    let shared = Arc::new(cache("plain"));
    let (state, _) = Store::from_config("db", &TENANT, vec![9], shared.clone(), "stream");
    let (state, _) = state.step(InitEvent::DatabaseOpened(database()));
    let (state, _) = state.step(InitEvent::Subscribed);
    let store = outcome(state).unwrap();
    assert_eq!(*store.cache_store.redis_conn, pool("plain", "tenant"));
    assert_eq!(*shared.redis_conn, pool("plain", ""));
    assert_eq!(store.master_key(), &vec![9]);
}

#[test]
fn a_cache_is_handed_out_once_its_errors_are_reported() {
    let (state, action) = Store::cache_store(6380, '?');
    assert!(matches!(action, InitAction::ConnectCache { cache_conf: 6380 }));
    let (state, action) = state.step::<Database>(InitEvent::CacheConnected(cache("plain")));
    assert!(matches!(
        action,
        InitAction::SetErrorCallback {
            cache_error_signal: '?',
            ..
        }
    ));
    let (state, action) = state.step::<Database>(InitEvent::ErrorCallbackSet);
    assert!(matches!(action, InitAction::Return));
    match state {
        CacheInit::Finished(Ok(cache_store)) => {
            assert_eq!(*cache_store.redis_conn, pool("plain", ""));
        }
        _ => panic!("there is no cache"),
    }
}

#[test]
fn a_cache_without_a_connection_fails_to_initialize() {
    let (state, _) = Store::cache_store(6380, '?');
    let (state, action) = state.step::<Database>(InitEvent::CacheConnectFailed);
    assert!(matches!(action, InitAction::Return));
    match state {
        CacheInit::Finished(Err(failure)) => {
            assert_eq!(failure.error, StorageError::InitializationError);
            assert_eq!(failure.notes(), ["Failed to create cache store"]);
        }
        _ => panic!("there is a cache"),
    }
}

#[test]
fn an_event_out_of_turn_changes_nothing() {
    let (state, _) = start(false);
    let (state, action) = state.step(InitEvent::Subscribed);
    assert!(matches!(action, InitAction::Ignore));
    let (state, action) = state.step(InitEvent::DatabaseOpened(database()));
    assert!(matches!(action, InitAction::Ignore));
    let (state, action) = state.step(InitEvent::CacheConnected(cache("plain")));
    assert!(matches!(action, InitAction::SetErrorCallback { .. }));
    let (_, action) = state.step(InitEvent::CacheConnected(cache("plain")));
    assert!(matches!(action, InitAction::Ignore));
}

#[test]
fn a_finished_start_up_stays_finished() {
    let (state, _) = start(false);
    let (state, _) = state.step(InitEvent::CacheConnectFailed);
    let (state, action) = state.step(InitEvent::CacheConnected(cache("plain")));
    assert!(matches!(action, InitAction::Ignore));
    assert_eq!(outcome(state).unwrap_err().error, StorageError::InitializationError);
}

#[test]
fn the_pools_are_those_of_the_database() {
    let store = RouterStore {
        db_store: database(),
        cache_store: Arc::new(cache("plain")),
        master_encryption_key: vec![0u8; 32],
        request_id: None,
    };
    assert_eq!(*store.get_master_pool(), "master");
    assert_eq!(*store.get_replica_pool(), "replica");
    assert_eq!(*store.get_accounts_master_pool(), "accounts master");
    assert_eq!(*store.get_accounts_replica_pool(), "accounts replica");
}

#[test]
fn the_connection_is_that_of_the_cache() {
    let mut store = RouterStore {
        db_store: database(),
        cache_store: Arc::new(cache("plain")),
        master_encryption_key: vec![0u8; 32],
        request_id: None,
    };
    assert!(Arc::ptr_eq(
        &store.get_redis_conn().unwrap(),
        &store.cache_store.redis_conn
    ));
    store.cache_store = Arc::new(RedisStore {
        redis_conn: Arc::new(Pool {
            available: false,
            ..pool("plain", "")
        }),
    });
    assert_eq!(
        store.get_redis_conn(),
        Err(RedisError::Other("unavailable".to_string()))
    );
}

#[test]
fn a_test_store_needs_no_error_signal() {
    let (state, action) = Store::test_store("db", &TENANT, 6379, vec![7]);
    assert!(matches!(action, InitAction::OpenDatabase { test_transaction: true, .. }));
    let (state, _) = state.step(InitEvent::DatabaseOpened(database()));
    let (state, _) = state.step(InitEvent::CacheConnected(cache("plain")));
    assert_eq!(outcome(state).unwrap().master_key(), &vec![7]);
}

#[test]
fn a_clone_shares_the_cache() {
    let store = RouterStore {
        db_store: database(),
        cache_store: Arc::new(cache("plain")),
        master_encryption_key: vec![1u8],
        request_id: Some("req_1".to_string()),
    };
    let copy = store.clone();
    assert_eq!(copy.db_store, store.db_store);
    assert!(Arc::ptr_eq(&copy.cache_store, &store.cache_store));
    assert_eq!(copy.master_key(), store.master_key());
    assert_eq!(copy.request_id, store.request_id);
}

fn live_until_database() -> Init<'static> {
    let (state, _) = start(false);
    let (state, _) = state.step(InitEvent::CacheConnected(cache("plain")));
    state.step(InitEvent::ErrorCallbackSet).0
}

#[test]
fn a_failed_live_start_up_is_noted() {
    let (state, _) = start(false);
    let (state, _) = state.step(InitEvent::CacheConnectFailed);
    assert_eq!(outcome(state).unwrap_err().notes(), ["Failed to create cache store"]);

    let (state, _) = live_until_database().step(InitEvent::DatabaseOpenFailed(
        StorageError::DatabaseConnectionError,
    ));
    let failure = outcome(state).unwrap_err();
    assert_eq!(failure.error, StorageError::DatabaseConnectionError);
    assert_eq!(failure.notes(), ["failed to create store"]);

    let (state, _) = live_until_database().step(InitEvent::DatabaseOpened(database()));
    let (state, _) = state.step(InitEvent::SubscribeFailed);
    let failure = outcome(state).unwrap_err();
    assert_eq!(failure.error, StorageError::InitializationError);
    assert_eq!(
        failure.notes(),
        [
            "Failed to subscribe to inmemory cache stream",
            "failed to create store"
        ]
    );
}

#[test]
fn a_failed_new_test_store_is_noted() {
    let (state, _) = start(true);
    let (state, _) = state.step(InitEvent::DatabaseOpenFailed(
        StorageError::DatabaseConnectionError,
    ));
    assert_eq!(
        outcome(state).unwrap_err().notes(),
        ["failed to create test router store"]
    );

    let (state, _) = start(true);
    let (state, _) = state.step(InitEvent::DatabaseOpened(database()));
    let (state, _) = state.step(InitEvent::CacheConnectFailed);
    assert_eq!(
        outcome(state).unwrap_err().notes(),
        [
            "failed to create redis cache",
            "failed to create test router store"
        ]
    );
}

#[test]
fn a_start_up_that_was_begun_directly_adds_no_note_of_its_own() {
    let (state, _) = Store::test_store("db", &TENANT, 6379, vec![7]);
    let (state, _) = state.step(InitEvent::DatabaseOpened(database()));
    let (state, _) = state.step(InitEvent::CacheConnectFailed);
    assert_eq!(outcome(state).unwrap_err().notes(), ["failed to create redis cache"]);

    let (state, _) = Store::test_store("db", &TENANT, 6379, vec![7]);
    let (state, _) = state.step(InitEvent::DatabaseOpenFailed(
        StorageError::DatabaseConnectionError,
    ));
    assert!(outcome(state).unwrap_err().notes().is_empty());

    let shared = Arc::new(cache("plain"));
    let (state, _) = Store::from_config("db", &TENANT, vec![9], shared.clone(), "stream");
    let (state, _) = state.step(InitEvent::DatabaseOpened(database()));
    let (state, _) = state.step(InitEvent::SubscribeFailed);
    assert_eq!(
        outcome(state).unwrap_err().notes(),
        ["Failed to subscribe to inmemory cache stream"]
    );

    let (state, _) = Store::from_config("db", &TENANT, vec![9], shared, "stream");
    let (state, _) = state.step(InitEvent::DatabaseOpenFailed(
        StorageError::DatabaseConnectionError,
    ));
    assert!(outcome(state).unwrap_err().notes().is_empty());
}

#[test]
fn the_note_of_the_step_comes_before_that_of_the_start_up() {
    assert_eq!(
        failure_notes(StartUp::Direct, FailedStep::CacheStore),
        ["Failed to create cache store"]
    );
    assert_eq!(
        failure_notes(StartUp::NewTest, FailedStep::TestCache),
        [
            "failed to create redis cache",
            "failed to create test router store"
        ]
    );
    assert_eq!(
        failure_notes(StartUp::New, FailedStep::Subscription),
        [
            "Failed to subscribe to inmemory cache stream",
            "failed to create store"
        ]
    );
    assert!(failure_notes(StartUp::Direct, FailedStep::Database).is_empty());
}

#[test]
fn tenants_on_one_cache_have_their_own_prefix() {
    let other_tenant = TenantConfig {
        schema: "other",
        redis_key_prefix: "other_tenant",
    };
    let shared = Arc::new(cache("plain"));
    let (one, _) = Store::from_config("db", &TENANT, vec![1], shared.clone(), "stream");
    let (other, _) = Store::from_config("db", &other_tenant, vec![2], shared.clone(), "stream");
    let (one, _) = one.step(InitEvent::DatabaseOpened(database()));
    let (other, _) = other.step(InitEvent::DatabaseOpened(database()));
    let (other, _) = other.step(InitEvent::Subscribed);
    let (one, _) = one.step(InitEvent::Subscribed);
    let one = outcome(one).unwrap();
    let other = outcome(other).unwrap();
    assert_eq!(*one.cache_store.redis_conn, pool("plain", "tenant"));
    assert_eq!(*other.cache_store.redis_conn, pool("plain", "other_tenant"));
    assert_eq!(*shared.redis_conn, pool("plain", ""));
    assert!(!Arc::ptr_eq(&one.cache_store, &shared));
    assert!(!Arc::ptr_eq(&one.cache_store, &other.cache_store));
    assert!(!Arc::ptr_eq(&one.cache_store.redis_conn, &shared.redis_conn));
}

#[test]
fn an_outcome_that_is_told_twice_asks_for_nothing() {
    let (state, _) = start(false);
    let (state, action) = state.step(InitEvent::CacheConnected(cache("plain")));
    assert!(matches!(action, InitAction::SetErrorCallback { .. }));
    let (state, action) = state.step(InitEvent::CacheConnected(cache("plain")));
    assert!(matches!(action, InitAction::Ignore));
    let (state, action) = state.step(InitEvent::ErrorCallbackSet);
    assert!(matches!(action, InitAction::OpenDatabase { .. }));
    let (state, action) = state.step(InitEvent::ErrorCallbackSet);
    assert!(matches!(action, InitAction::Ignore));
    let (state, action) = state.step(InitEvent::DatabaseOpened(database()));
    assert!(matches!(action, InitAction::Subscribe { .. }));
    let (state, action) = state.step(InitEvent::DatabaseOpened(database()));
    assert!(matches!(action, InitAction::Ignore));
    let (state, action) = state.step(InitEvent::Subscribed);
    assert!(matches!(action, InitAction::Return));
    let (_, action) = state.step(InitEvent::Subscribed);
    assert!(matches!(action, InitAction::Ignore));
}

#[test]
fn a_scoped_cache_has_a_pool_of_its_own() {
    let plain = cache("plain");
    let scoped = plain.scoped("tenant");
    assert_eq!(*scoped.redis_conn, pool("plain", "tenant"));
    assert_eq!(*plain.redis_conn, pool("plain", ""));
    assert!(Arc::ptr_eq(&plain.get_redis_conn().unwrap(), &plain.redis_conn));
}

#[test]
fn a_new_test_store_differs_from_a_test_store_in_its_notes_alone() {
    let fail = |state: Init<'static>| {
        let (state, action) = state.step(InitEvent::DatabaseOpened(database()));
        assert!(matches!(action, InitAction::ConnectCache { cache_conf: 6379 }));
        let (state, action) = state.step(InitEvent::CacheConnectFailed);
        assert!(matches!(action, InitAction::Return));
        outcome(state).unwrap_err()
    };
    let by_new = fail(start(true).0);
    let direct = fail(Store::test_store("db", &TENANT, 6379, vec![1, 2, 3]).0);
    assert_eq!(by_new.error, direct.error);
    assert_eq!(by_new.failed, direct.failed);
    assert_eq!(by_new.begun, StartUp::NewTest);
    assert_eq!(direct.begun, StartUp::Direct);
    assert_ne!(by_new.notes(), direct.notes());
}

#[test]
fn a_live_store_goes_on_as_a_store_from_its_configuration() {
    let fail = |state: Init<'static>| {
        let (state, action) = state.step(InitEvent::DatabaseOpened(database()));
        match action {
            InitAction::Subscribe {
                cache_store,
                channel,
            } => {
                assert_eq!(*cache_store.redis_conn, pool("plain", "tenant"));
                assert_eq!(channel, "stream");
            }
            _ => panic!("the subscription is not asked for"),
        }
        let (state, _) = state.step(InitEvent::SubscribeFailed);
        outcome(state).unwrap_err()
    };
    let live = fail(live_until_database());
    let shared = Arc::new(cache("plain"));
    let direct = fail(Store::from_config("db", &TENANT, vec![1, 2, 3], shared, "stream").0);
    assert_eq!(live.error, direct.error);
    assert_eq!(live.failed, direct.failed);
    assert_eq!(live.begun, StartUp::New);
    assert_eq!(direct.begun, StartUp::Direct);
}
