//! The key-value store: a router store whose writes go through drainer streams.
use std::sync::Arc;
use vstd::prelude::*;

use crate::config::TenantConfig;
use crate::database::DatabaseStore;
use crate::drainer::{DrainerPush, KvStorePartition, PartitionKey, PushAction};
use crate::errors::{RedisError, StorageError};
use crate::joined::{alike_when_joined, joined, law_joined_names, law_joined_text};
use crate::redis::{ConnectionPool, RedisConnInterface, RedisStore};
use crate::router_store::RouterStore;
use crate::seq_facts::{lemma_common_prefix, lemma_common_suffix};

verus! {

/// A router store with what its drainer streams need.
#[derive(Debug)]
pub struct KVRouterStore<T: DatabaseStore, P: ConnectionPool, K> {
    pub router_store: RouterStore<T, P, K>,
    pub drainer_stream_name: String,
    pub drainer_num_partitions: u8,
    pub ttl_for_kv: u32,
    pub request_id: Option<String>,
    pub soft_kill_mode: bool,
}

impl<T: DatabaseStore + Clone, P: ConnectionPool, K: Clone> Clone for KVRouterStore<T, P, K> {
    /// A store on a clone of the router store, with the same streams, for the same request.
    fn clone(&self) -> (store: Self)
        ensures
            cloned(self.router_store, store.router_store),
            store.drainer_stream_name == self.drainer_stream_name,
            store.drainer_num_partitions == self.drainer_num_partitions,
            store.ttl_for_kv == self.ttl_for_kv,
            store.request_id == self.request_id,
            store.soft_kill_mode == self.soft_kill_mode,
    {
        KVRouterStore {
            router_store: self.router_store.clone(),
            drainer_stream_name: self.drainer_stream_name.clone(),
            drainer_num_partitions: self.drainer_num_partitions,
            ttl_for_kv: self.ttl_for_kv,
            request_id: self.request_id.clone(),
            soft_kill_mode: self.soft_kill_mode,
        }
    }
}

/// The name of a tenant's drainer streams, before any shard is named.
pub open spec fn tenant_stream_name(schema: Seq<char>, stream_name: Seq<char>) -> Seq<char> {
    joined(schema, stream_name)
}

/// The name of the drainer stream of a shard, with the shard key in braces.
pub open spec fn shard_stream_name(shard_key: Seq<char>, stream_name: Seq<char>) -> Seq<char> {
    "{"@ + shard_key + "}_"@ + stream_name
}

/// The text of an id that may be missing.
pub open spec fn id_text(id: Option<String>) -> Seq<char> {
    match id {
        Some(text) => text@,
        None => Seq::empty(),
    }
}

impl<T: DatabaseStore, P: ConnectionPool, K> DatabaseStore for KVRouterStore<T, P, K> {
    type Config = (RouterStore<T, P, K>, String, u8, u32, Option<bool>);

    type PgPool = T::PgPool;

    fn get_master_pool(&self) -> (pool: &T::PgPool)
        ensures
            call_ensures(T::get_master_pool, (&self.router_store.db_store,), pool),
    {
        self.router_store.get_master_pool()
    }

    fn get_replica_pool(&self) -> (pool: &T::PgPool)
        ensures
            call_ensures(T::get_replica_pool, (&self.router_store.db_store,), pool),
    {
        self.router_store.get_replica_pool()
    }

    fn get_accounts_master_pool(&self) -> (pool: &T::PgPool)
        ensures
            call_ensures(T::get_accounts_master_pool, (&self.router_store.db_store,), pool),
    {
        self.router_store.get_accounts_master_pool()
    }

    fn get_accounts_replica_pool(&self) -> (pool: &T::PgPool)
        ensures
            call_ensures(T::get_accounts_replica_pool, (&self.router_store.db_store,), pool),
    {
        self.router_store.get_accounts_replica_pool()
    }
}

impl<T: DatabaseStore, P: ConnectionPool, K> RedisConnInterface for KVRouterStore<T, P, K> {
    type RedisConnectionPool = P;

    fn get_redis_conn(&self) -> (conn: Result<Arc<P>, RedisError>)
        ensures
            call_ensures(P::available, (&self.router_store.cache_store.redis_conn,), conn),
    {
        self.router_store.get_redis_conn()
    }
}

impl<T: DatabaseStore, P: ConnectionPool, K> KVRouterStore<T, P, K> {
    /// The key-value store of a tenant. Its streams are named after the tenant's schema.
    pub fn new(
        config: (RouterStore<T, P, K>, String, u8, u32, Option<bool>),
        tenant_config: &TenantConfig<'_>,
        _test_transaction: bool,
    ) -> (store: Result<Self, StorageError>)
        ensures
            store matches Ok(store) && {
                &&& store.router_store == config.0
                &&& store.drainer_stream_name@ == tenant_stream_name(
                    tenant_config.schema@,
                    config.1@,
                )
                &&& store.drainer_num_partitions == config.2
                &&& store.ttl_for_kv == config.3
                &&& store.request_id == config.0.request_id
                &&& store.soft_kill_mode == (config.4 == Some(true))
            },
    {
        let (router_store, stream_name, drainer_num_partitions, ttl_for_kv, soft_kill_mode) =
            config;
        let drainer_stream_name = tenant_config.schema.to_string().concat("_").concat(
            stream_name.as_str(),
        );
        Ok(
            Self::from_store(
                router_store,
                drainer_stream_name,
                drainer_num_partitions,
                ttl_for_kv,
                soft_kill_mode,
            ),
        )
    }

    /// A key-value store on a router store, for the same request. It is not in soft-kill mode
    /// unless told so.
    pub fn from_store(
        store: RouterStore<T, P, K>,
        drainer_stream_name: String,
        drainer_num_partitions: u8,
        ttl_for_kv: u32,
        soft_kill: Option<bool>,
    ) -> (kv_store: Self)
        ensures
            kv_store == (KVRouterStore::<T, P, K> {
                router_store: store,
                drainer_stream_name,
                drainer_num_partitions,
                ttl_for_kv,
                request_id: store.request_id,
                soft_kill_mode: soft_kill == Some(true),
            }),
    {
        let request_id = store.request_id.clone();

        Self {
            router_store: store,
            drainer_stream_name,
            drainer_num_partitions,
            ttl_for_kv,
            request_id,
            soft_kill_mode: soft_kill.unwrap_or(false),
        }
    }

    /// The master key of the router store.
    pub fn master_key(&self) -> (key: &K)
        ensures
            *key == self.router_store.master_encryption_key,
    {
        self.router_store.master_key()
    }

    /// The name of the drainer stream of a shard.
    pub fn get_drainer_stream_name(&self, shard_key: &str) -> (name: String)
        ensures
            name@ == shard_stream_name(shard_key@, self.drainer_stream_name@),
    {
        "{".to_string().concat(shard_key).concat("}_").concat(self.drainer_stream_name.as_str())
    }

    /// Begins to push an entry to the drainer stream of the shard that its partition key belongs
    /// to among the partitions of this store, on the connection of its router store's cache.
    pub fn push_to_drainer_stream<R: KvStorePartition, E>(
        &self,
        redis_entry: E,
        partition_key: PartitionKey,
    ) -> (begun: (DrainerPush<P>, PushAction<E, P>))
        ensures
            begun.0 matches DrainerPush::Serializing { cache_store, stream_name } && cache_store
                == self.router_store.cache_store && exists|shard_key: String| #[trigger]
                call_ensures(R::shard_key, (partition_key, self.drainer_num_partitions), shard_key)
                    && stream_name@ == shard_stream_name(shard_key@, self.drainer_stream_name@),
            begun.1 matches PushAction::SerializeEntry { redis_entry: entry, request_id, global_id }
                && entry == redis_entry && request_id@ == id_text(self.request_id) && global_id@
                == partition_key.text@ && (match self.request_id {
                Some(own) => request_id@ == own@,
                None => request_id@.len() == 0,
            }),
    {
        let global_id = partition_key.text.clone();
        let shard_key = R::shard_key(partition_key, self.drainer_num_partitions);
        self.push_to_shard(redis_entry, global_id, shard_key.as_str())
    }

    /// Begins to push an entry to the drainer stream of a shard, on the connection of the router
    /// store's cache.
    pub fn push_to_shard<E>(&self, redis_entry: E, global_id: String, shard_key: &str) -> (begun: (
        DrainerPush<P>,
        PushAction<E, P>,
    ))
        ensures
            begun.0 matches DrainerPush::Serializing { cache_store, stream_name } && cache_store
                == self.router_store.cache_store && stream_name@ == shard_stream_name(
                shard_key@,
                self.drainer_stream_name@,
            ),
            begun.1 matches PushAction::SerializeEntry {
                redis_entry: entry,
                request_id,
                global_id: id,
            } && entry == redis_entry && request_id@ == id_text(self.request_id) && id == global_id
                && (match self.request_id {
                Some(own) => request_id@ == own@,
                None => request_id@.len() == 0,
            }),
    {
        let request_id = match &self.request_id {
            Some(request_id) => request_id.clone(),
            None => String::new(),
        };
        (
            DrainerPush::Serializing {
                cache_store: self.router_store.cache_store.clone(),
                stream_name: self.get_drainer_stream_name(shard_key),
            },
            PushAction::SerializeEntry { redis_entry, request_id, global_id },
        )
    }
}

/// The name of a tenant's streams begins with the tenant's schema, goes on with one `_` and ends
/// with the name that the streams were given, whatever the two are.
pub proof fn law_streams_are_named_after_the_schema(schema: Seq<char>, stream_name: Seq<char>)
    ensures
        ({
            let name = tenant_stream_name(schema, stream_name);
            let n = schema.len() as int;
            &&& name.len() == n + 1 + stream_name.len()
            &&& name.take(n) == schema
            &&& name[n] == '_'
            &&& name.skip(n + 1) == stream_name
        }),
{
    law_joined_text(schema, stream_name);
}

/// The name of a shard's stream is the shard key in braces, one `_` and the name of the store's
/// streams, whatever the two are.
pub proof fn law_shard_streams_are_named_after_the_shard(
    shard_key: Seq<char>,
    stream_name: Seq<char>,
)
    ensures
        ({
            let name = shard_stream_name(shard_key, stream_name);
            let n = shard_key.len() as int;
            &&& name.len() == n + 3 + stream_name.len()
            &&& name[0] == '{'
            &&& name.subrange(1, n + 1) == shard_key
            &&& name[n + 1] == '}'
            &&& name[n + 2] == '_'
            &&& name.skip(n + 3) == stream_name
        }),
{
    reveal_strlit("{");
    reveal_strlit("}_");
    let name = shard_stream_name(shard_key, stream_name);
    let n = shard_key.len() as int;
    assert(name.subrange(1, n + 1) =~= shard_key);
    assert(name.skip(n + 3) =~= stream_name);
}

/// The text of an id is the whole id, letter for letter, and nothing if there is none. So two
/// requests that are told apart by their ids are told apart by the texts.
pub proof fn law_ids_are_handed_on_whole(id: String, other: String)
    ensures
        id_text(Some(id)).len() == id@.len(),
        forall|i: int| 0 <= i < id@.len() ==> #[trigger] id_text(Some(id))[i] == id@[i],
        id_text(None).len() == 0,
        id_text(Some(id)) == id_text(Some(other)) <==> id@ == other@,
{
}

/// Within a store, every shard has a stream of its own.
pub proof fn law_shards_have_their_own_streams(
    shard_key: Seq<char>,
    other: Seq<char>,
    stream_name: Seq<char>,
)
    ensures
        shard_stream_name(shard_key, stream_name) == shard_stream_name(other, stream_name)
            <==> shard_key == other,
{
    lemma_common_suffix("{"@ + shard_key + "}_"@, "{"@ + other + "}_"@, stream_name);
    lemma_common_suffix("{"@ + shard_key, "{"@ + other, "}_"@);
    lemma_common_prefix("{"@, shard_key, other);
}

/// On any shard, two tenants share a stream exactly if their schemas and the names that their
/// streams were given are the same, or cannot be told apart once they are joined.
pub proof fn law_tenants_with_one_stream(
    schema: Seq<char>,
    stream_name: Seq<char>,
    other_schema: Seq<char>,
    other_name: Seq<char>,
    shard_key: Seq<char>,
)
    ensures
        shard_stream_name(shard_key, tenant_stream_name(schema, stream_name)) == shard_stream_name(
            shard_key,
            tenant_stream_name(other_schema, other_name),
        ) <==> alike_when_joined(schema, stream_name, other_schema, other_name),
{
    lemma_common_prefix(
        "{"@ + shard_key + "}_"@,
        joined(schema, stream_name),
        joined(other_schema, other_name),
    );
    law_joined_names(schema, stream_name, other_schema, other_name);
}

/// Tenants with different schemas never share a stream, on any shard, if their streams were given
/// the same name.
pub proof fn law_tenants_have_their_own_streams(
    schema: Seq<char>,
    other_schema: Seq<char>,
    stream_name: Seq<char>,
    shard_key: Seq<char>,
)
    ensures
        shard_stream_name(shard_key, tenant_stream_name(schema, stream_name)) == shard_stream_name(
            shard_key,
            tenant_stream_name(other_schema, stream_name),
        ) <==> schema == other_schema,
{
    lemma_common_prefix(
        "{"@ + shard_key + "}_"@,
        joined(schema, stream_name),
        joined(other_schema, stream_name),
    );
    lemma_common_suffix(schema + "_"@, other_schema + "_"@, stream_name);
    lemma_common_suffix(schema, other_schema, "_"@);
}

/// The shard key is what the first pair of braces in the name of a stream encloses, which is what
/// a Redis cluster hashes, as long as the key itself closes no brace.
pub proof fn law_shard_key_is_the_hash_tag(shard_key: Seq<char>, stream_name: Seq<char>)
    requires
        !shard_key.contains('}'),
    ensures
        ({
            let name = shard_stream_name(shard_key, stream_name);
            let end = shard_key.len() as int + 1;
            &&& name[0] == '{'
            &&& name[end] == '}'
            &&& forall|i: int| 1 <= i < end ==> name[i] != '}'
            &&& name.subrange(1, end) == shard_key
        }),
{
    reveal_strlit("{");
    reveal_strlit("}_");
    let name = shard_stream_name(shard_key, stream_name);
    let end = shard_key.len() as int + 1;
    assert forall|i: int| 1 <= i < end implies name[i] != '}' by {
        assert(name[i] == shard_key[i - 1]);
    }
    assert(name.subrange(1, end) =~= shard_key);
}

} // verus!
