use std::sync::Arc;

use storage_impl::config::TenantConfig;
use storage_impl::database::DatabaseStore;
use storage_impl::drainer::{
    DrainerMetric, DrainerPush, KvStorePartition, PartitionKey, PushAction, PushEvent,
};
use storage_impl::errors::RedisError;
use storage_impl::kv_router_store::KVRouterStore;
use storage_impl::redis::{ConnectionPool, RedisConnInterface, RedisEntryId, RedisStore};
use storage_impl::router_store::RouterStore;

#[derive(Debug, Clone, PartialEq)]
struct Database;

impl DatabaseStore for Database {
    type Config = ();
    type PgPool = &'static str;

    fn get_master_pool(&self) -> &&'static str {
        &"master"
    }

    fn get_replica_pool(&self) -> &&'static str {
        &"replica"
    }

    fn get_accounts_master_pool(&self) -> &&'static str {
        &"accounts master"
    }

    fn get_accounts_replica_pool(&self) -> &&'static str {
        &"accounts replica"
    }
}

#[derive(Debug, Clone, PartialEq)]
struct Pool(u16);

impl ConnectionPool for Pool {
    type RedisSettings = ();
    type ErrorSignal = ();

    fn clone_with_prefix(&self, _key_prefix: &str) -> Self {
        self.clone()
    }

    fn available(pool: &Arc<Self>) -> Result<Arc<Self>, RedisError> {
        Ok(pool.clone())
    }
}

struct ByLength;

impl KvStorePartition for ByLength {
    fn shard_key(partition_key: PartitionKey, num_partitions: u8) -> String {
        format!("shard_{}", partition_key.text.len() % usize::from(num_partitions))
    }
}

type Store = KVRouterStore<Database, Pool, Vec<u8>>;

fn text(value: &str) -> String {
    value.to_string()
}

fn router_store(request_id: Option<String>) -> RouterStore<Database, Pool, Vec<u8>> {
    RouterStore {
        db_store: Database,
        cache_store: Arc::new(RedisStore {
            redis_conn: Arc::new(Pool(6379)),
        }),
        master_encryption_key: vec![4, 5, 6],
        request_id,
    }
}

fn kv_store(request_id: Option<String>) -> Store {
    Store::from_store(router_store(request_id), text("DRAINER_STREAM"), 4, 900, None)
}

#[test]
fn a_kv_store_takes_over_the_request() {
    let store = kv_store(Some(text("req_1")));
    assert_eq!(store.request_id, Some(text("req_1")));
    assert_eq!(store.router_store.request_id, Some(text("req_1")));
    assert_eq!(kv_store(None).request_id, None);
    assert_eq!(store.drainer_stream_name, "DRAINER_STREAM");
    assert_eq!(store.drainer_num_partitions, 4);
    assert_eq!(store.ttl_for_kv, 900);
}

#[test]
fn soft_kill_is_off_unless_it_is_switched_on() {
    let make = |soft_kill| Store::from_store(router_store(None), text("s"), 1, 1, soft_kill);
    assert!(!make(None).soft_kill_mode);
    assert!(!make(Some(false)).soft_kill_mode);
    assert!(make(Some(true)).soft_kill_mode);
}

#[test]
fn the_streams_of_a_tenant_carry_its_schema() {
    let tenant = TenantConfig {
        schema: "public",
        redis_key_prefix: "tenant",
    };
    let store = Store::new(
        (router_store(Some(text("req_1"))), text("DRAINER_STREAM"), 64, 900, Some(true)),
        &tenant,
        false,
    )
    .unwrap();
    assert_eq!(store.drainer_stream_name, "public_DRAINER_STREAM");
    assert_eq!(store.drainer_num_partitions, 64);
    assert_eq!(store.ttl_for_kv, 900);
    assert_eq!(store.request_id, Some(text("req_1")));
    assert!(store.soft_kill_mode);
    assert_eq!(
        store.get_drainer_stream_name("shard_3"),
        "{shard_3}_public_DRAINER_STREAM"
    );
}

#[test]
fn a_test_transaction_makes_no_difference_to_a_kv_store() {
    let tenant = TenantConfig {
        schema: "public",
        redis_key_prefix: "tenant",
    };
    let make = |test_transaction| {
        Store::new(
            (router_store(None), text("s"), 2, 3, None),
            &tenant,
            test_transaction,
        )
        .unwrap()
    };
    assert_eq!(make(true).drainer_stream_name, make(false).drainer_stream_name);
    assert_eq!(make(true).soft_kill_mode, make(false).soft_kill_mode);
}

#[test]
fn tenants_and_shards_have_streams_of_their_own() {
    let named = |schema| {
        let tenant = TenantConfig {
            schema,
            redis_key_prefix: "",
        };
        Store::new((router_store(None), text("s"), 2, 3, None), &tenant, false).unwrap()
    };
    assert_ne!(
        named("a").get_drainer_stream_name("shard_0"),
        named("b").get_drainer_stream_name("shard_0")
    );
    assert_ne!(
        named("a").get_drainer_stream_name("shard_0"),
        named("a").get_drainer_stream_name("shard_1")
    );
}

#[test]
fn the_shard_key_stands_in_braces() {
    assert_eq!(
        kv_store(None).get_drainer_stream_name("shard_0"),
        "{shard_0}_DRAINER_STREAM"
    );
    assert_eq!(kv_store(None).get_drainer_stream_name(""), "{}_DRAINER_STREAM");
}

#[test]
fn key_pools_and_connection_are_those_of_the_router_store() {
    let store = kv_store(None);
    assert_eq!(store.master_key(), &vec![4, 5, 6]);
    assert_eq!(*store.get_master_pool(), "master");
    assert_eq!(*store.get_replica_pool(), "replica");
    assert_eq!(*store.get_accounts_master_pool(), "accounts master");
    assert_eq!(*store.get_accounts_replica_pool(), "accounts replica");
    assert_eq!(store.get_redis_conn(), Ok(Arc::new(Pool(6379))));
}

#[test]
fn a_push_serializes_then_appends_then_counts() {
    let store = kv_store(Some(text("req_1")));
    let (push, action) = store.push_to_drainer_stream::<ByLength, u8>(
        7,
        PartitionKey {
            text: text("mid_m1_pid_p1"),
        },
    );
    match action {
        PushAction::SerializeEntry {
            redis_entry,
            request_id,
            global_id,
        } => {
            assert_eq!(redis_entry, 7);
            assert_eq!(request_id, "req_1");
            assert_eq!(global_id, "mid_m1_pid_p1");
        }
        _ => panic!("the entry is not serialized"),
    }
    let fields = vec![(text("typed_sql"), text("{}")), (text("global_id"), text("x"))];
    let (push, action) = push.step::<u8>(PushEvent::Serialized(fields.clone()));
    match action {
        PushAction::AppendEntry {
            cache_store,
            stream_name,
            entry_id,
            fields: appended,
        } => {
            assert!(Arc::ptr_eq(&cache_store, &store.router_store.cache_store));
            assert_eq!(*cache_store.redis_conn, Pool(6379));
            assert_eq!(stream_name, "{shard_1}_DRAINER_STREAM");
            assert_eq!(entry_id, RedisEntryId::AutoGeneratedID);
            assert_eq!(appended, fields);
        }
        _ => panic!("the entry is not appended"),
    }
    let (push, action) = push.step::<u8>(PushEvent::Appended);
    match action {
        PushAction::Return { result, metric } => {
            assert_eq!(result, Ok(()));
            assert_eq!(metric, Some(DrainerMetric::KvPushedToDrainer));
        }
        _ => panic!("the push does not return"),
    }
    assert!(matches!(push, DrainerPush::Finished));
}

#[test]
fn a_push_outside_a_request_has_an_empty_request_id() {
    let store = kv_store(None);
    let (push, action) = store.push_to_shard('e', text("gid"), "shard_9");
    match push {
        DrainerPush::Serializing {
            cache_store,
            stream_name,
        } => {
            assert!(Arc::ptr_eq(&cache_store, &store.router_store.cache_store));
            assert_eq!(stream_name, "{shard_9}_DRAINER_STREAM");
        }
        _ => panic!("the push does not wait for its fields"),
    }
    match action {
        PushAction::SerializeEntry {
            redis_entry,
            request_id,
            global_id,
        } => {
            assert_eq!(redis_entry, 'e');
            assert_eq!(request_id, "");
            assert_eq!(global_id, "gid");
        }
        _ => panic!("the entry is not serialized"),
    }
}

#[test]
fn an_entry_without_text_is_neither_appended_nor_counted() {
    let (push, _) = kv_store(None).push_to_shard((), text("gid"), "shard_0");
    let (push, action) = push.step::<()>(PushEvent::SerializationFailed);
    match action {
        PushAction::Return { result, metric } => {
            assert_eq!(result, Err(RedisError::JsonSerializationFailed));
            assert_eq!(metric, None);
        }
        _ => panic!("the push does not return"),
    }
    let (_, action) = push.step::<()>(PushEvent::Serialized(vec![]));
    assert!(matches!(action, PushAction::Ignore));
}

#[test]
fn a_refused_entry_is_counted_as_failed() {
    let (push, _) = kv_store(None).push_to_shard((), text("gid"), "shard_0");
    let (push, _) = push.step::<()>(PushEvent::Serialized(vec![]));
    let (push, action) = push.step::<()>(PushEvent::AppendFailed);
    match action {
        PushAction::Return { result, metric } => {
            assert_eq!(result, Err(RedisError::StreamAppendFailed));
            assert_eq!(metric, Some(DrainerMetric::KvFailedToPushToDrainer));
        }
        _ => panic!("the push does not return"),
    }
    let (_, action) = push.step::<()>(PushEvent::Appended);
    assert!(matches!(action, PushAction::Ignore));
}

#[test]
fn an_answer_out_of_turn_is_ignored() {
    let (push, _) = kv_store(None).push_to_shard((), text("gid"), "shard_0");
    let (push, action) = push.step::<()>(PushEvent::Appended);
    assert!(matches!(action, PushAction::Ignore));
    let (push, _) = push.step::<()>(PushEvent::Serialized(vec![]));
    let (push, action) = push.step::<()>(PushEvent::Serialized(vec![]));
    assert!(matches!(action, PushAction::Ignore));
    assert!(matches!(push, DrainerPush::Appending));
}

#[test]
fn a_clone_writes_to_the_same_streams() {
    let store = kv_store(Some(text("req_1")));
    let copy = store.clone();
    assert_eq!(
        copy.get_drainer_stream_name("shard_0"),
        store.get_drainer_stream_name("shard_0")
    );
    assert_eq!(copy.drainer_num_partitions, store.drainer_num_partitions);
    assert_eq!(copy.ttl_for_kv, store.ttl_for_kv);
    assert_eq!(copy.request_id, store.request_id);
    assert_eq!(copy.soft_kill_mode, store.soft_kill_mode);
    assert_eq!(copy.master_key(), store.master_key());
}

#[test]
fn tenants_whose_names_run_over_can_share_a_stream() {
    let stream = |schema, name| {
        let tenant = TenantConfig {
            schema,
            redis_key_prefix: "",
        };
        Store::new((router_store(None), text(name), 2, 3, None), &tenant, false)
            .unwrap()
            .get_drainer_stream_name("shard_0")
    };
    assert_eq!(stream("a_b", "c"), stream("a", "b_c"));
    assert_ne!(stream("a_b", "c"), stream("a", "c_b"));
}

#[test]
fn the_first_braces_enclose_the_shard_key() {
    let name = kv_store(None).get_drainer_stream_name("shard_{2");
    let end = name.find('}').unwrap();
    assert_eq!(&name[1..end], "shard_{2");
    let name = kv_store(None).get_drainer_stream_name("a}b");
    let end = name.find('}').unwrap();
    assert_eq!(&name[1..end], "a");
}
