//! What holds of every start-up, whatever the outside answers.
use std::sync::Arc;
use vstd::prelude::*;

use crate::config::TenantConfig;
use crate::database::DatabaseStore;
use crate::errors::StorageError;
use crate::redis::{ConnectionPool, RedisStore};
use crate::seq_facts::lemma_seen_stays_seen;
use crate::startup::{cache_start, config_start, store_start, test_start, then_subscribe};
use crate::startup::{CacheInit, FailedStep, InitAction, InitEvent, InitFailure, StartUp, StoreInit};

verus! {

impl<P: ConnectionPool> CacheInit<P> {
    /// The state that is reached after a row of events, the latest last.
    pub open spec fn reached<T: DatabaseStore>(self, events: Seq<InitEvent<T, P>>) -> Self
        decreases events.len(),
    {
        if events.len() == 0 {
            self
        } else {
            self.reached::<T>(events.drop_last()).after::<T>(events.last()).0
        }
    }

    /// The action that answers the last of a row of events.
    pub open spec fn answer<'a, T: DatabaseStore>(
        self,
        events: Seq<InitEvent<T, P>>,
    ) -> InitAction<'a, T, P> {
        self.reached::<T>(events.drop_last()).after::<T>(events.last()).1
    }

    /// How many steps are still to be taken, if none of them fails.
    pub open spec fn steps_left(self) -> nat {
        match self {
            CacheInit::Connecting { .. } => 2,
            CacheInit::SettingErrorCallback { .. } => 1,
            CacheInit::Finished(_) => 0,
        }
    }
}

impl<'a, T: DatabaseStore, P: ConnectionPool, K> StoreInit<'a, T, P, K> {
    /// The state after the first `n` of what followed the events.
    pub open spec fn state_after(
        self,
        followed: Seq<(Self, InitAction<'a, T, P>)>,
        n: int,
    ) -> Self {
        if n == 0 {
            self
        } else {
            followed[n - 1].0
        }
    }

    /// Whether a start-up that stands here can run like this: each event is followed by a state
    /// and an action that it leads to.
    pub open spec fn runs(
        self,
        events: Seq<InitEvent<T, P>>,
        followed: Seq<(Self, InitAction<'a, T, P>)>,
    ) -> bool {
        &&& followed.len() == events.len()
        &&& forall|i: int|
            0 <= i < events.len() ==> self.state_after(followed, i).leads_to(
                events[i],
                #[trigger] followed[i],
            )
    }

    /// How many steps the start-up has still to take, if none of them fails.
    pub open spec fn steps_left(self) -> nat {
        match self {
            StoreInit::CacheStore { cache: CacheInit::Connecting { .. }, .. } => 4,
            StoreInit::CacheStore { .. } => 3,
            StoreInit::OpeningDatabase { .. } => 2,
            StoreInit::Subscribing { .. } => 1,
            StoreInit::OpeningTestDatabase { .. } => 2,
            StoreInit::ConnectingTestCache { .. } => 1,
            StoreInit::Finished(_) => 0,
        }
    }
}

impl<'a, T: DatabaseStore, P: ConnectionPool, K> StoreInit<'a, T, P, K> {
    /// The same state of a start-up that another began. The making of a cache, and a store that
    /// came up, do not show who began.
    pub open spec fn begun_by(self, begun: StartUp) -> Self {
        match self {
            StoreInit::OpeningDatabase {
                tenant_config,
                encryption_key,
                cache_store,
                inmemory_cache_stream,
                ..
            } => StoreInit::OpeningDatabase {
                begun,
                tenant_config,
                encryption_key,
                cache_store,
                inmemory_cache_stream,
            },
            StoreInit::Subscribing { db_store, encryption_key, cache_store, .. } =>
            StoreInit::Subscribing { begun, db_store, encryption_key, cache_store },
            StoreInit::OpeningTestDatabase { cache_conf, encryption_key, .. } =>
            StoreInit::OpeningTestDatabase { begun, cache_conf, encryption_key },
            StoreInit::ConnectingTestCache { db_store, encryption_key, .. } =>
            StoreInit::ConnectingTestCache { begun, db_store, encryption_key },
            StoreInit::Finished(Err(InitFailure { error, failed, .. })) => StoreInit::Finished(
                Err(InitFailure { error, begun, failed }),
            ),
            StoreInit::CacheStore { .. } | StoreInit::Finished(Ok(_)) => self,
        }
    }
}

/// The same row of states, of a start-up that another began, with the same actions.
pub open spec fn all_begun_by<'a, T: DatabaseStore, P: ConnectionPool, K>(
    followed: Seq<(StoreInit<'a, T, P, K>, InitAction<'a, T, P>)>,
    begun: StartUp,
) -> Seq<(StoreInit<'a, T, P, K>, InitAction<'a, T, P>)> {
    Seq::new(followed.len(), |i: int| (followed[i].0.begun_by(begun), followed[i].1))
}

/// Two actions that ask for the same: the same outside step, or to return.
pub open spec fn same_step<'a, T: DatabaseStore, P: ConnectionPool>(
    one: InitAction<'a, T, P>,
    other: InitAction<'a, T, P>,
) -> bool {
    match one {
        InitAction::ConnectCache { .. } => other is ConnectCache,
        InitAction::SetErrorCallback { .. } => other is SetErrorCallback,
        InitAction::OpenDatabase { .. } => other is OpenDatabase,
        InitAction::Subscribe { .. } => other is Subscribe,
        InitAction::Return => other is Return,
        InitAction::Ignore => false,
    }
}

/// The first events of a run are a run.
proof fn lemma_run_so_far<'a, T: DatabaseStore, P: ConnectionPool, K>(
    start: StoreInit<'a, T, P, K>,
    events: Seq<InitEvent<T, P>>,
    followed: Seq<(StoreInit<'a, T, P, K>, InitAction<'a, T, P>)>,
    n: int,
)
    requires
        start.runs(events, followed),
        0 <= n <= events.len(),
    ensures
        start.runs(events.take(n), followed.take(n)),
{
    let so_far = followed.take(n);
    assert forall|i: int| 0 <= i < n implies start.state_after(so_far, i).leads_to(
        events.take(n)[i],
        #[trigger] so_far[i],
    ) by {
        assert(so_far[i] == followed[i]);
        assert(start.state_after(so_far, i) == start.state_after(followed, i));
    }
}

/// A run without its last event is a run, and the last event leads on from where it stands.
proof fn lemma_run_before_last<'a, T: DatabaseStore, P: ConnectionPool, K>(
    start: StoreInit<'a, T, P, K>,
    events: Seq<InitEvent<T, P>>,
    followed: Seq<(StoreInit<'a, T, P, K>, InitAction<'a, T, P>)>,
)
    requires
        start.runs(events, followed),
        events.len() > 0,
    ensures
        start.runs(events.drop_last(), followed.drop_last()),
        start.state_after(followed.drop_last(), events.len() - 1).leads_to(
            events.last(),
            followed.last(),
        ),
        start.state_after(followed, events.len() as int) == followed.last().0,
{
    let last = followed.len() - 1;
    lemma_run_so_far(start, events, followed, last);
    assert(events.take(last) =~= events.drop_last());
    assert(followed.take(last) =~= followed.drop_last());
    assert(followed[last] == followed.last());
}

/// Every answer to a pending step brings a start-up nearer to its end, and an event that answers
/// nothing changes nothing. The start-up returns when no step is left.
pub proof fn law_start_up_ends<'a, T: DatabaseStore, P: ConnectionPool, K>(
    state: StoreInit<'a, T, P, K>,
    event: InitEvent<T, P>,
    next: (StoreInit<'a, T, P, K>, InitAction<'a, T, P>),
)
    requires
        state.leads_to(event, next),
    ensures
        next.1 is Ignore ==> next.0 == state,
        !(next.1 is Ignore) ==> next.0.steps_left() < state.steps_left(),
        next.1 is Return <==> state.steps_left() > 0 && next.0.steps_left() == 0,
{
}

/// Whatever happens during a start-up, no two events are answered with the same outside step, and
/// no two with the order to return.
pub proof fn law_steps_are_taken_at_most_once<'a, T: DatabaseStore, P: ConnectionPool, K>(
    start: StoreInit<'a, T, P, K>,
    events: Seq<InitEvent<T, P>>,
    followed: Seq<(StoreInit<'a, T, P, K>, InitAction<'a, T, P>)>,
    i: int,
    j: int,
)
    requires
        start.runs(events, followed),
        0 <= i < j < events.len(),
    ensures
        !same_step(followed[i].1, followed[j].1),
{
    lemma_steps_only_shrink(start, events, followed, i + 1, j);
    lemma_step_has_its_place(start.state_after(followed, i), events[i], followed[i]);
    lemma_step_has_its_place(start.state_after(followed, j), events[j], followed[j]);
}

/// An action tells how many steps are left behind it.
proof fn lemma_step_has_its_place<'a, T: DatabaseStore, P: ConnectionPool, K>(
    state: StoreInit<'a, T, P, K>,
    event: InitEvent<T, P>,
    next: (StoreInit<'a, T, P, K>, InitAction<'a, T, P>),
)
    requires
        state.leads_to(event, next),
    ensures
        next.1 is Ignore || next.0.steps_left() < state.steps_left(),
        match next.1 {
            InitAction::SetErrorCallback { .. } => next.0.steps_left() == 3,
            InitAction::OpenDatabase { .. } => next.0.steps_left() == 2,
            InitAction::ConnectCache { .. } | InitAction::Subscribe { .. } => next.0.steps_left()
                == 1,
            InitAction::Return => next.0.steps_left() == 0,
            InitAction::Ignore => true,
        },
{
}

proof fn lemma_steps_only_shrink<'a, T: DatabaseStore, P: ConnectionPool, K>(
    start: StoreInit<'a, T, P, K>,
    events: Seq<InitEvent<T, P>>,
    followed: Seq<(StoreInit<'a, T, P, K>, InitAction<'a, T, P>)>,
    earlier: int,
    later: int,
)
    requires
        start.runs(events, followed),
        0 <= earlier <= later <= events.len(),
    ensures
        start.state_after(followed, later).steps_left() <= start.state_after(
            followed,
            earlier,
        ).steps_left(),
    decreases later,
{
    if earlier < later {
        lemma_steps_only_shrink(start, events, followed, earlier, later - 1);
        law_start_up_ends(
            start.state_after(followed, later - 1),
            events[later - 1],
            followed[later - 1],
        );
    }
}

/// Whatever happens while a cache is made, no two events are answered with the same outside step,
/// and no two with the order to return.
pub proof fn law_cache_steps_are_taken_at_most_once<'a, T: DatabaseStore, P: ConnectionPool>(
    cache: CacheInit<P>,
    events: Seq<InitEvent<T, P>>,
    i: int,
    j: int,
)
    requires
        0 < i < j <= events.len(),
    ensures
        !same_step(cache.answer::<T>(events.take(i)), cache.answer::<T>(events.take(j))),
{
    assert(events.take(j).drop_last() =~= events.take(j - 1));
    assert(events.take(j - 1).take(i) =~= events.take(i));
    lemma_cache_steps_only_shrink(cache, events.take(j - 1), i);
}

proof fn lemma_cache_steps_only_shrink<T: DatabaseStore, P: ConnectionPool>(
    cache: CacheInit<P>,
    events: Seq<InitEvent<T, P>>,
    i: int,
)
    requires
        0 <= i <= events.len(),
    ensures
        cache.reached::<T>(events).steps_left() <= cache.reached::<T>(events.take(i)).steps_left(),
    decreases events.len(),
{
    if i < events.len() {
        assert(events.drop_last().take(i) =~= events.take(i));
        lemma_cache_steps_only_shrink(cache, events.drop_last(), i);
    } else {
        assert(events.take(i) =~= events);
    }
}

/// A test store makes do with a database in a test transaction and a plain connection: whatever
/// happens, nothing is ever asked of the outside but that connection, after the database was
/// opened.
pub proof fn law_test_store_is_bare<'a, T: DatabaseStore, P: ConnectionPool, K>(
    begun: StartUp,
    db_conf: T::Config,
    tenant_config: TenantConfig<'a>,
    cache_conf: P::RedisSettings,
    encryption_key: K,
    events: Seq<InitEvent<T, P>>,
    followed: Seq<(StoreInit<'a, T, P, K>, InitAction<'a, T, P>)>,
)
    requires
        events.len() > 0,
        test_start(begun, db_conf, tenant_config, cache_conf, encryption_key).0.runs(
            events,
            followed,
        ),
    ensures
        ({
            let first = test_start::<T, P, K>(
                begun,
                db_conf,
                tenant_config,
                cache_conf,
                encryption_key,
            ).1;
            let action = followed.last().1;
            &&& first matches InitAction::OpenDatabase {
                db_conf: conf,
                tenant_config: tenant,
                test_transaction,
            }
            &&& conf == db_conf && tenant == tenant_config && test_transaction
            &&& action is ConnectCache || action is Return || action is Ignore
            &&& action matches InitAction::ConnectCache { cache_conf: asked } ==> asked
                == cache_conf && events.last() is DatabaseOpened
        }),
{
    let start = test_start(begun, db_conf, tenant_config, cache_conf, encryption_key).0;
    lemma_run_before_last(start, events, followed);
    lemma_test_states(
        begun,
        db_conf,
        tenant_config,
        cache_conf,
        encryption_key,
        events.drop_last(),
        followed.drop_last(),
    );
}

proof fn lemma_test_states<'a, T: DatabaseStore, P: ConnectionPool, K>(
    begun: StartUp,
    db_conf: T::Config,
    tenant_config: TenantConfig<'a>,
    cache_conf: P::RedisSettings,
    encryption_key: K,
    events: Seq<InitEvent<T, P>>,
    followed: Seq<(StoreInit<'a, T, P, K>, InitAction<'a, T, P>)>,
)
    requires
        test_start(begun, db_conf, tenant_config, cache_conf, encryption_key).0.runs(
            events,
            followed,
        ),
    ensures
        match test_start(
            begun,
            db_conf,
            tenant_config,
            cache_conf,
            encryption_key,
        ).0.state_after(followed, events.len() as int) {
            StoreInit::OpeningTestDatabase { begun: who, cache_conf: conf, encryption_key: key } =>
            who == begun && conf == cache_conf && key == encryption_key,
            StoreInit::ConnectingTestCache { begun: who, db_store, encryption_key: key } => {
                &&& who == begun
                &&& key == encryption_key
                &&& events.contains(InitEvent::DatabaseOpened(db_store))
            },
            StoreInit::Finished(Ok(store)) => {
                &&& store.master_encryption_key == encryption_key
                &&& store.request_id == None::<String>
                &&& events.contains(InitEvent::DatabaseOpened(store.db_store))
                &&& events.contains(InitEvent::CacheConnected(*store.cache_store))
            },
            StoreInit::Finished(Err(failure)) => failure.begun == begun && match failure.failed {
                FailedStep::Database => events.contains(
                    InitEvent::DatabaseOpenFailed(failure.error),
                ),
                FailedStep::TestCache => failure.error == StorageError::InitializationError
                    && events.contains(InitEvent::CacheConnectFailed),
                _ => false,
            },
            _ => false,
        },
    decreases events.len(),
{
    if events.len() > 0 {
        let start = test_start(begun, db_conf, tenant_config, cache_conf, encryption_key).0;
        lemma_run_before_last(start, events, followed);
        lemma_test_states(
            begun,
            db_conf,
            tenant_config,
            cache_conf,
            encryption_key,
            events.drop_last(),
            followed.drop_last(),
        );
        lemma_seen_stays_seen(events);
    }
}

/// A test store that comes up holds the key it was given, belongs to no request, and has the
/// database and the cache that the outside delivered. One that does not come up failed at the
/// database, with the database's own error, or at the connection, with an initialization error.
pub proof fn law_test_store_outcome<'a, T: DatabaseStore, P: ConnectionPool, K>(
    begun: StartUp,
    db_conf: T::Config,
    tenant_config: TenantConfig<'a>,
    cache_conf: P::RedisSettings,
    encryption_key: K,
    events: Seq<InitEvent<T, P>>,
    followed: Seq<(StoreInit<'a, T, P, K>, InitAction<'a, T, P>)>,
)
    requires
        events.len() > 0,
        test_start(begun, db_conf, tenant_config, cache_conf, encryption_key).0.runs(
            events,
            followed,
        ),
    ensures
        followed.last().0 matches StoreInit::Finished(outcome) ==> match outcome {
            Ok(store) => {
                &&& store.master_encryption_key == encryption_key
                &&& store.request_id == None::<String>
                &&& events.contains(InitEvent::DatabaseOpened(store.db_store))
                &&& events.contains(InitEvent::CacheConnected(*store.cache_store))
            },
            Err(failure) => failure.begun == begun && match failure.failed {
                FailedStep::Database => events.contains(
                    InitEvent::DatabaseOpenFailed(failure.error),
                ),
                FailedStep::TestCache => failure.error == StorageError::InitializationError
                    && events.contains(InitEvent::CacheConnectFailed),
                _ => false,
            },
        },
{
    lemma_test_states(
        begun,
        db_conf,
        tenant_config,
        cache_conf,
        encryption_key,
        events,
        followed,
    );
}

/// A cache is handed out only if it was connected and its error callback was set. What is not
/// handed out failed with an initialization error, because there was no connection. The callback
/// goes to the cache that was just connected, on the channel that was given.
pub proof fn law_cache_outcome<'a, T: DatabaseStore, P: ConnectionPool>(
    cache_conf: P::RedisSettings,
    cache_error_signal: P::ErrorSignal,
    events: Seq<InitEvent<T, P>>,
)
    ensures
        ({
            let (cache, _) = cache_start::<T, P>(cache_conf, cache_error_signal);
            &&& match cache.reached::<T>(events) {
                CacheInit::Connecting { cache_error_signal: signal } => signal
                    == cache_error_signal,
                CacheInit::SettingErrorCallback { cache_store } => events.contains(
                    InitEvent::CacheConnected(*cache_store),
                ),
                CacheInit::Finished(Ok(cache_store)) => {
                    &&& events.contains(InitEvent::CacheConnected(*cache_store))
                    &&& events.contains(InitEvent::ErrorCallbackSet)
                },
                CacheInit::Finished(Err(failure)) => {
                    &&& failure.error == StorageError::InitializationError
                    &&& failure.begun == StartUp::Direct
                    &&& failure.failed == FailedStep::CacheStore
                    &&& events.contains(InitEvent::CacheConnectFailed)
                },
            }
            &&& events.len() > 0 ==> match cache.answer::<T>(events) {
                InitAction::SetErrorCallback { cache_store, cache_error_signal: signal } => {
                    &&& signal == cache_error_signal
                    &&& events.last() == InitEvent::<T, P>::CacheConnected(*cache_store)
                },
                InitAction::Return | InitAction::Ignore => true,
                _ => false,
            }
        }),
    decreases events.len(),
{
    if events.len() > 0 {
        law_cache_outcome(cache_conf, cache_error_signal, events.drop_last());
        lemma_seen_stays_seen(events);
    }
}

/// A store on a given cache that comes up holds the key it was given, belongs to no request, and
/// has the database that was opened and a cache on a clone of the given one's pool with the
/// tenant's key prefix, which is subscribed. One that does not come up failed at the database,
/// with the database's own error, or at the subscription, with an initialization error.
pub proof fn law_configured_store_outcome<'a, T: DatabaseStore, P: ConnectionPool, K>(
    begun: StartUp,
    db_conf: T::Config,
    tenant_config: TenantConfig<'a>,
    encryption_key: K,
    cache_store: Arc<RedisStore<P>>,
    inmemory_cache_stream: &'a str,
    events: Seq<InitEvent<T, P>>,
    followed: Seq<(StoreInit<'a, T, P, K>, InitAction<'a, T, P>)>,
)
    requires
        config_start(
            begun,
            db_conf,
            tenant_config,
            encryption_key,
            cache_store,
            inmemory_cache_stream,
        ).0.runs(events, followed),
    ensures
        ({
            let (start, _) = config_start(
                begun,
                db_conf,
                tenant_config,
                encryption_key,
                cache_store,
                inmemory_cache_stream,
            );
            let state = start.state_after(followed, events.len() as int);
            match state {
                StoreInit::OpeningDatabase { .. } => state == start,
                StoreInit::Subscribing {
                    begun: who,
                    db_store,
                    encryption_key: key,
                    cache_store: scoped,
                } => {
                    &&& who == begun
                    &&& key == encryption_key
                    &&& events.contains(InitEvent::DatabaseOpened(db_store))
                    &&& cache_store.scopes_to(tenant_config.redis_key_prefix, *scoped)
                },
                StoreInit::Finished(Ok(store)) => {
                    &&& store.master_encryption_key == encryption_key
                    &&& store.request_id == None::<String>
                    &&& events.contains(InitEvent::DatabaseOpened(store.db_store))
                    &&& events.contains(InitEvent::Subscribed)
                    &&& cache_store.scopes_to(tenant_config.redis_key_prefix, *store.cache_store)
                },
                StoreInit::Finished(Err(failure)) => failure.begun == begun
                    && match failure.failed {
                    FailedStep::Database => events.contains(
                        InitEvent::DatabaseOpenFailed(failure.error),
                    ),
                    FailedStep::Subscription => failure.error == StorageError::InitializationError
                        && events.contains(InitEvent::SubscribeFailed),
                    _ => false,
                },
                _ => false,
            }
        }),
    decreases events.len(),
{
    if events.len() > 0 {
        let (start, _) = config_start(
            begun,
            db_conf,
            tenant_config,
            encryption_key,
            cache_store,
            inmemory_cache_stream,
        );
        lemma_run_before_last(start, events, followed);
        law_configured_store_outcome(
            begun,
            db_conf,
            tenant_config,
            encryption_key,
            cache_store,
            inmemory_cache_stream,
            events.drop_last(),
            followed.drop_last(),
        );
        lemma_seen_stays_seen(events);
    }
}

/// Whatever happens, a store on a given cache asks for nothing but a subscription, once the
/// database is open: of a cache on a clone of the given one's pool with the tenant's key prefix, to
/// the given stream.
pub proof fn law_configured_store_steps<'a, T: DatabaseStore, P: ConnectionPool, K>(
    begun: StartUp,
    db_conf: T::Config,
    tenant_config: TenantConfig<'a>,
    encryption_key: K,
    cache_store: Arc<RedisStore<P>>,
    inmemory_cache_stream: &'a str,
    events: Seq<InitEvent<T, P>>,
    followed: Seq<(StoreInit<'a, T, P, K>, InitAction<'a, T, P>)>,
)
    requires
        events.len() > 0,
        config_start(
            begun,
            db_conf,
            tenant_config,
            encryption_key,
            cache_store,
            inmemory_cache_stream,
        ).0.runs(events, followed),
    ensures
        match followed.last().1 {
            InitAction::Subscribe { cache_store: scoped, channel } => {
                &&& channel == inmemory_cache_stream
                &&& events.last() is DatabaseOpened
                &&& cache_store.scopes_to(tenant_config.redis_key_prefix, *scoped)
            },
            InitAction::Return | InitAction::Ignore => true,
            _ => false,
        },
{
    let (start, _) = config_start(
        begun,
        db_conf,
        tenant_config,
        encryption_key,
        cache_store,
        inmemory_cache_stream,
    );
    lemma_run_before_last(start, events, followed);
    law_configured_store_outcome(
        begun,
        db_conf,
        tenant_config,
        encryption_key,
        cache_store,
        inmemory_cache_stream,
        events.drop_last(),
        followed.drop_last(),
    );
}

/// Stores of different tenants on one shared cache do not get in each other's way: whatever else
/// they are configured with and however their start-ups run, the pool of each store's cache is
/// a clone of the shared one's pool, as it was given, with that store's own tenant's key prefix.
pub proof fn law_stores_on_one_cache_have_their_own_prefix<
    'a,
    T: DatabaseStore,
    P: ConnectionPool,
    K,
>(
    cache_store: Arc<RedisStore<P>>,
    one: (StartUp, T::Config, TenantConfig<'a>, K, &'a str),
    events: Seq<InitEvent<T, P>>,
    followed: Seq<(StoreInit<'a, T, P, K>, InitAction<'a, T, P>)>,
    other: (StartUp, T::Config, TenantConfig<'a>, K, &'a str),
    other_events: Seq<InitEvent<T, P>>,
    other_followed: Seq<(StoreInit<'a, T, P, K>, InitAction<'a, T, P>)>,
)
    requires
        events.len() > 0,
        other_events.len() > 0,
        config_start(one.0, one.1, one.2, one.3, cache_store, one.4).0.runs(events, followed),
        config_start(other.0, other.1, other.2, other.3, cache_store, other.4).0.runs(
            other_events,
            other_followed,
        ),
    ensures
        match (followed.last().0, other_followed.last().0) {
            (StoreInit::Finished(Ok(store)), StoreInit::Finished(Ok(other_store))) => {
                &&& cache_store.scopes_to(one.2.redis_key_prefix, *store.cache_store)
                &&& cache_store.scopes_to(other.2.redis_key_prefix, *other_store.cache_store)
            },
            _ => true,
        },
{
    law_configured_store_outcome(
        one.0,
        one.1,
        one.2,
        one.3,
        cache_store,
        one.4,
        events,
        followed,
    );
    law_configured_store_outcome(
        other.0,
        other.1,
        other.2,
        other.3,
        cache_store,
        other.4,
        other_events,
        other_followed,
    );
}

/// Whether a cache is one that was connected, with a key prefix.
pub open spec fn scoped_from<T: DatabaseStore, P: ConnectionPool>(
    events: Seq<InitEvent<T, P>>,
    key_prefix: &str,
    cache_store: RedisStore<P>,
) -> bool {
    exists|connected: RedisStore<P>| #[trigger]
        events.contains(InitEvent::CacheConnected(connected)) && connected.scopes_to(
            key_prefix,
            cache_store,
        )
}

/// Whatever happens, every step of a live store is taken with what it was configured with, and in
/// its turn: the error callback goes to the cache that was just connected, the database is opened
/// outside any test transaction once the callback is set, and once the database is open, a cache on
/// a clone of the connected one's pool with the tenant's key prefix is subscribed to the configured
/// stream.
pub proof fn law_live_store_steps<'a, T: DatabaseStore, P: ConnectionPool, K>(
    config: (T::Config, P::RedisSettings, K, P::ErrorSignal, &'static str),
    tenant_config: TenantConfig<'a>,
    events: Seq<InitEvent<T, P>>,
    followed: Seq<(StoreInit<'a, T, P, K>, InitAction<'a, T, P>)>,
)
    requires
        events.len() > 0,
        store_start(config, tenant_config, false).0.runs(events, followed),
    ensures
        match followed.last().1 {
            InitAction::ConnectCache { .. } => false,
            InitAction::SetErrorCallback { cache_store, cache_error_signal } => {
                &&& cache_error_signal == config.3
                &&& events.last() == InitEvent::<T, P>::CacheConnected(*cache_store)
            },
            InitAction::OpenDatabase { db_conf, tenant_config: tenant, test_transaction } => {
                &&& db_conf == config.0
                &&& tenant == tenant_config
                &&& !test_transaction
                &&& events.last() is ErrorCallbackSet
            },
            InitAction::Subscribe { cache_store, channel } => {
                &&& channel == config.4
                &&& events.last() is DatabaseOpened
                &&& scoped_from(events, tenant_config.redis_key_prefix, *cache_store)
            },
            InitAction::Return | InitAction::Ignore => true,
        },
{
    let (start, _) = store_start(config, tenant_config, false);
    lemma_run_before_last(start, events, followed);
    lemma_live_states(config, tenant_config, events.drop_last(), followed.drop_last());
    lemma_seen_stays_seen(events);
}

/// A live store that comes up holds the key it was given, belongs to no request, and has the
/// database that was opened and a cache on a clone of the connected one's pool with the tenant's
/// key prefix, which is subscribed. One that does not come up failed at the connection or at the
/// subscription, with an initialization error, or at the database, with the database's own error.
pub proof fn law_live_store_outcome<'a, T: DatabaseStore, P: ConnectionPool, K>(
    config: (T::Config, P::RedisSettings, K, P::ErrorSignal, &'static str),
    tenant_config: TenantConfig<'a>,
    events: Seq<InitEvent<T, P>>,
    followed: Seq<(StoreInit<'a, T, P, K>, InitAction<'a, T, P>)>,
)
    requires
        events.len() > 0,
        store_start(config, tenant_config, false).0.runs(events, followed),
    ensures
        followed.last().0 matches StoreInit::Finished(outcome) ==> match outcome {
            Ok(store) => {
                &&& store.master_encryption_key == config.2
                &&& store.request_id == None::<String>
                &&& events.contains(InitEvent::ErrorCallbackSet)
                &&& events.contains(InitEvent::DatabaseOpened(store.db_store))
                &&& events.contains(InitEvent::Subscribed)
                &&& scoped_from(events, tenant_config.redis_key_prefix, *store.cache_store)
            },
            Err(failure) => match failure.failed {
                FailedStep::CacheStore => {
                    &&& failure.begun == StartUp::Direct
                    &&& failure.error == StorageError::InitializationError
                    &&& events.contains(InitEvent::CacheConnectFailed)
                },
                FailedStep::Database => {
                    &&& failure.begun == StartUp::New
                    &&& events.contains(InitEvent::DatabaseOpenFailed(failure.error))
                },
                FailedStep::Subscription => {
                    &&& failure.begun == StartUp::New
                    &&& failure.error == StorageError::InitializationError
                    &&& events.contains(InitEvent::SubscribeFailed)
                },
                FailedStep::TestCache => false,
            },
        },
{
    lemma_live_states(config, tenant_config, events, followed);
}

proof fn lemma_live_states<'a, T: DatabaseStore, P: ConnectionPool, K>(
    config: (T::Config, P::RedisSettings, K, P::ErrorSignal, &'static str),
    tenant_config: TenantConfig<'a>,
    events: Seq<InitEvent<T, P>>,
    followed: Seq<(StoreInit<'a, T, P, K>, InitAction<'a, T, P>)>,
)
    requires
        store_start(config, tenant_config, false).0.runs(events, followed),
    ensures
        match store_start(config, tenant_config, false).0.state_after(
            followed,
            events.len() as int,
        ) {
            StoreInit::CacheStore {
                cache,
                db_conf,
                tenant_config: tenant,
                encryption_key,
                inmemory_cache_stream,
            } => {
                &&& db_conf == config.0
                &&& tenant == tenant_config
                &&& encryption_key == config.2
                &&& inmemory_cache_stream == config.4
                &&& match cache {
                    CacheInit::Connecting { cache_error_signal } => cache_error_signal == config.3,
                    CacheInit::SettingErrorCallback { cache_store } => events.contains(
                        InitEvent::CacheConnected(*cache_store),
                    ),
                    CacheInit::Finished(_) => false,
                }
            },
            StoreInit::OpeningDatabase {
                begun,
                tenant_config: tenant,
                encryption_key,
                cache_store,
                inmemory_cache_stream,
            } => {
                &&& begun == StartUp::New
                &&& tenant == tenant_config
                &&& encryption_key == config.2
                &&& inmemory_cache_stream == config.4
                &&& events.contains(InitEvent::CacheConnected(*cache_store))
                &&& events.contains(InitEvent::ErrorCallbackSet)
            },
            StoreInit::Subscribing { begun, db_store, encryption_key, cache_store } => {
                &&& begun == StartUp::New
                &&& encryption_key == config.2
                &&& events.contains(InitEvent::ErrorCallbackSet)
                &&& events.contains(InitEvent::DatabaseOpened(db_store))
                &&& scoped_from(events, tenant_config.redis_key_prefix, *cache_store)
            },
            StoreInit::Finished(Ok(store)) => {
                &&& store.master_encryption_key == config.2
                &&& store.request_id == None::<String>
                &&& events.contains(InitEvent::ErrorCallbackSet)
                &&& events.contains(InitEvent::DatabaseOpened(store.db_store))
                &&& events.contains(InitEvent::Subscribed)
                &&& scoped_from(events, tenant_config.redis_key_prefix, *store.cache_store)
            },
            StoreInit::Finished(Err(failure)) => match failure.failed {
                FailedStep::CacheStore => {
                    &&& failure.begun == StartUp::Direct
                    &&& failure.error == StorageError::InitializationError
                    &&& events.contains(InitEvent::CacheConnectFailed)
                },
                FailedStep::Database => {
                    &&& failure.begun == StartUp::New
                    &&& events.contains(InitEvent::DatabaseOpenFailed(failure.error))
                },
                FailedStep::Subscription => {
                    &&& failure.begun == StartUp::New
                    &&& failure.error == StorageError::InitializationError
                    &&& events.contains(InitEvent::SubscribeFailed)
                },
                FailedStep::TestCache => false,
            },
            _ => false,
        },
    decreases events.len(),
{
    if events.len() > 0 {
        let (start, _) = store_start(config, tenant_config, false);
        lemma_run_before_last(start, events, followed);
        lemma_live_states(config, tenant_config, events.drop_last(), followed.drop_last());
        lemma_seen_stays_seen(events);
    }
}

/// A live store that does not come up says so in the note of the step that failed, if it has one,
/// and then in its own; only a failed connection is left with the note of the step alone.
pub proof fn law_live_store_failure_notes<'a, T: DatabaseStore, P: ConnectionPool, K>(
    config: (T::Config, P::RedisSettings, K, P::ErrorSignal, &'static str),
    tenant_config: TenantConfig<'a>,
    events: Seq<InitEvent<T, P>>,
    followed: Seq<(StoreInit<'a, T, P, K>, InitAction<'a, T, P>)>,
)
    requires
        events.len() > 0,
        store_start(config, tenant_config, false).0.runs(events, followed),
    ensures
        followed.last().0 matches StoreInit::Finished(Err(failure)) ==> match failure.failed {
            FailedStep::CacheStore => failure.noted() =~= seq!["Failed to create cache store"@],
            FailedStep::Database => failure.noted() =~= seq!["failed to create store"@],
            FailedStep::Subscription => failure.noted() =~= seq![
                "Failed to subscribe to inmemory cache stream"@,
                "failed to create store"@,
            ],
            FailedStep::TestCache => false,
        },
{
    law_live_store_outcome(config, tenant_config, events, followed);
}

/// A test store of [`RouterStore::new`](crate::RouterStore::new) that does not come up says so in
/// the note of the step that failed, if it has one, and then in its own.
pub proof fn law_new_test_store_failure_notes<'a, T: DatabaseStore, P: ConnectionPool, K>(
    config: (T::Config, P::RedisSettings, K, P::ErrorSignal, &'static str),
    tenant_config: TenantConfig<'a>,
    events: Seq<InitEvent<T, P>>,
    followed: Seq<(StoreInit<'a, T, P, K>, InitAction<'a, T, P>)>,
)
    requires
        events.len() > 0,
        store_start(config, tenant_config, true).0.runs(events, followed),
    ensures
        followed.last().0 matches StoreInit::Finished(Err(failure)) ==> match failure.failed {
            FailedStep::Database => failure.noted() =~= seq!["failed to create test router store"@],
            FailedStep::TestCache => failure.noted() =~= seq![
                "failed to create redis cache"@,
                "failed to create test router store"@,
            ],
            _ => false,
        },
{
    law_test_store_outcome(
        StartUp::NewTest,
        config.0,
        tenant_config,
        config.1,
        config.2,
        events,
        followed,
    );
}

/// The step that [`RouterStore::new`](crate::RouterStore::new) begins with is not asked for again,
/// whatever happens.
pub proof fn law_first_step_of_new_is_not_taken_again<'a, T: DatabaseStore, P: ConnectionPool, K>(
    config: (T::Config, P::RedisSettings, K, P::ErrorSignal, &'static str),
    tenant_config: TenantConfig<'a>,
    test_transaction: bool,
    events: Seq<InitEvent<T, P>>,
    followed: Seq<(StoreInit<'a, T, P, K>, InitAction<'a, T, P>)>,
    i: int,
)
    requires
        store_start(config, tenant_config, test_transaction).0.runs(events, followed),
        0 <= i < events.len(),
    ensures
        !same_step(store_start(config, tenant_config, test_transaction).1, followed[i].1),
{
    let (start, _) = store_start(config, tenant_config, test_transaction);
    lemma_run_so_far(start, events, followed, i + 1);
    if test_transaction {
        law_test_store_is_bare(
            StartUp::NewTest,
            config.0,
            tenant_config,
            config.1,
            config.2,
            events.take(i + 1),
            followed.take(i + 1),
        );
    } else {
        law_live_store_steps(
            config,
            tenant_config,
            events.take(i + 1),
            followed.take(i + 1),
        );
    }
}

/// The step that a store on a given cache begins with is not asked for again, whatever happens.
pub proof fn law_first_step_on_a_cache_is_not_taken_again<
    'a,
    T: DatabaseStore,
    P: ConnectionPool,
    K,
>(
    begun: StartUp,
    db_conf: T::Config,
    tenant_config: TenantConfig<'a>,
    encryption_key: K,
    cache_store: Arc<RedisStore<P>>,
    inmemory_cache_stream: &'a str,
    events: Seq<InitEvent<T, P>>,
    followed: Seq<(StoreInit<'a, T, P, K>, InitAction<'a, T, P>)>,
    i: int,
)
    requires
        config_start(
            begun,
            db_conf,
            tenant_config,
            encryption_key,
            cache_store,
            inmemory_cache_stream,
        ).0.runs(events, followed),
        0 <= i < events.len(),
    ensures
        !same_step(
            config_start::<T, P, K>(
                begun,
                db_conf,
                tenant_config,
                encryption_key,
                cache_store,
                inmemory_cache_stream,
            ).1,
            followed[i].1,
        ),
{
    let (start, _) = config_start(
        begun,
        db_conf,
        tenant_config,
        encryption_key,
        cache_store,
        inmemory_cache_stream,
    );
    lemma_run_so_far(start, events, followed, i + 1);
    law_configured_store_steps(
        begun,
        db_conf,
        tenant_config,
        encryption_key,
        cache_store,
        inmemory_cache_stream,
        events.take(i + 1),
        followed.take(i + 1),
    );
}

proof fn lemma_runs_alike<'a, T: DatabaseStore, P: ConnectionPool, K>(
    start: StoreInit<'a, T, P, K>,
    begun: StartUp,
    other: StartUp,
    events: Seq<InitEvent<T, P>>,
    followed: Seq<(StoreInit<'a, T, P, K>, InitAction<'a, T, P>)>,
)
    requires
        !(start is CacheStore),
        start.begun_by(begun) == start,
        start.runs(events, followed),
    ensures
        start.begun_by(other).runs(events, all_begun_by(followed, other)),
        all_begun_by(all_begun_by(followed, other), begun) == followed,
{
    let alike = all_begun_by(followed, other);
    assert forall|i: int| 0 <= i < events.len() implies start.begun_by(other).state_after(
        alike,
        i,
    ).leads_to(events[i], #[trigger] alike[i]) by {
        lemma_who_began_is_kept(start, begun, events, followed, i);
        lemma_step_alike(start.state_after(followed, i), begun, other, events[i], followed[i]);
        assert(start.begun_by(other).state_after(alike, i) == start.state_after(
            followed,
            i,
        ).begun_by(other));
    }
    assert forall|i: int| 0 <= i < events.len() implies #[trigger] all_begun_by(
        alike,
        begun,
    )[i] == followed[i] by {
        lemma_who_began_is_kept(start, begun, events, followed, i + 1);
    }
    assert(all_begun_by(alike, begun) =~= followed);
}

proof fn lemma_who_began_is_kept<'a, T: DatabaseStore, P: ConnectionPool, K>(
    start: StoreInit<'a, T, P, K>,
    begun: StartUp,
    events: Seq<InitEvent<T, P>>,
    followed: Seq<(StoreInit<'a, T, P, K>, InitAction<'a, T, P>)>,
    n: int,
)
    requires
        !(start is CacheStore),
        start.begun_by(begun) == start,
        start.runs(events, followed),
        0 <= n <= events.len(),
    ensures
        !(start.state_after(followed, n) is CacheStore),
        start.state_after(followed, n).begun_by(begun) == start.state_after(followed, n),
    decreases n,
{
    if n > 0 {
        lemma_who_began_is_kept(start, begun, events, followed, n - 1);
        let before = start.state_after(followed, n - 1);
        assert(before.leads_to(events[n - 1], followed[n - 1]));
        lemma_step_alike(before, begun, begun, events[n - 1], followed[n - 1]);
    }
}

proof fn lemma_step_alike<'a, T: DatabaseStore, P: ConnectionPool, K>(
    state: StoreInit<'a, T, P, K>,
    begun: StartUp,
    other: StartUp,
    event: InitEvent<T, P>,
    next: (StoreInit<'a, T, P, K>, InitAction<'a, T, P>),
)
    requires
        !(state is CacheStore),
        state.begun_by(begun) == state,
        state.leads_to(event, next),
    ensures
        !(next.0 is CacheStore),
        next.0.begun_by(begun) == next.0,
        state.begun_by(other).leads_to(event, (next.0.begun_by(other), next.1)),
{
    match (state, event) {
        (
            StoreInit::OpeningDatabase {
                tenant_config,
                encryption_key,
                cache_store,
                inmemory_cache_stream,
                ..
            },
            InitEvent::DatabaseOpened(db_store),
        ) => {
            let scoped = choose|scoped: RedisStore<P>| #[trigger]
                cache_store.scopes_to(tenant_config.redis_key_prefix, scoped)
                    && next == then_subscribe(
                    begun,
                    db_store,
                    encryption_key,
                    Arc::new(scoped),
                    inmemory_cache_stream,
                );
            assert(state.begun_by(other)->OpeningDatabase_cache_store == cache_store);
            assert(state.begun_by(other)->OpeningDatabase_tenant_config == tenant_config);
            assert((next.0.begun_by(other), next.1) == then_subscribe(
                other,
                db_store,
                encryption_key,
                Arc::new(scoped),
                inmemory_cache_stream,
            ));
        },
        _ => {},
    }
}

/// Who began the start-up of a test store shows in nothing but the notes of a failure:
/// [`RouterStore::new`](crate::RouterStore::new) and
/// [`RouterStore::test_store`](crate::RouterStore::test_store) begin with the same step, and what
/// can follow the events of the one can follow those of the other, up to who began.
pub proof fn law_test_stores_run_alike<'a, T: DatabaseStore, P: ConnectionPool, K>(
    begun: StartUp,
    other: StartUp,
    db_conf: T::Config,
    tenant_config: TenantConfig<'a>,
    cache_conf: P::RedisSettings,
    encryption_key: K,
    events: Seq<InitEvent<T, P>>,
    followed: Seq<(StoreInit<'a, T, P, K>, InitAction<'a, T, P>)>,
)
    requires
        test_start(begun, db_conf, tenant_config, cache_conf, encryption_key).0.runs(
            events,
            followed,
        ),
    ensures
        test_start::<T, P, K>(begun, db_conf, tenant_config, cache_conf, encryption_key).1
            == test_start::<T, P, K>(other, db_conf, tenant_config, cache_conf, encryption_key).1,
        test_start(other, db_conf, tenant_config, cache_conf, encryption_key).0.runs(
            events,
            all_begun_by(followed, other),
        ),
        all_begun_by(all_begun_by(followed, other), begun) == followed,
{
    let (start, _) = test_start(begun, db_conf, tenant_config, cache_conf, encryption_key);
    lemma_runs_alike(start, begun, other, events, followed);
}

/// Who began the start-up of a store on a given cache shows in nothing but the notes of a failure:
/// it begins with the same step, and what can follow the events of the one can follow those of the
/// other, up to who began.
pub proof fn law_configured_stores_run_alike<'a, T: DatabaseStore, P: ConnectionPool, K>(
    begun: StartUp,
    other: StartUp,
    db_conf: T::Config,
    tenant_config: TenantConfig<'a>,
    encryption_key: K,
    cache_store: Arc<RedisStore<P>>,
    inmemory_cache_stream: &'a str,
    events: Seq<InitEvent<T, P>>,
    followed: Seq<(StoreInit<'a, T, P, K>, InitAction<'a, T, P>)>,
)
    requires
        config_start(
            begun,
            db_conf,
            tenant_config,
            encryption_key,
            cache_store,
            inmemory_cache_stream,
        ).0.runs(events, followed),
    ensures
        config_start::<T, P, K>(
            begun,
            db_conf,
            tenant_config,
            encryption_key,
            cache_store,
            inmemory_cache_stream,
        ).1 == config_start::<T, P, K>(
            other,
            db_conf,
            tenant_config,
            encryption_key,
            cache_store,
            inmemory_cache_stream,
        ).1,
        config_start(
            other,
            db_conf,
            tenant_config,
            encryption_key,
            cache_store,
            inmemory_cache_stream,
        ).0.runs(events, all_begun_by(followed, other)),
        all_begun_by(all_begun_by(followed, other), begun) == followed,
{
    let (start, _) = config_start(
        begun,
        db_conf,
        tenant_config,
        encryption_key,
        cache_store,
        inmemory_cache_stream,
    );
    lemma_runs_alike(start, begun, other, events, followed);
}

/// Once its cache is there, a live start-up goes on as
/// [`RouterStore::from_config`](crate::RouterStore::from_config) on that cache, up to who began:
/// it asks for the same first step, and exactly what can follow more events of the one can follow
/// them in the other.
pub proof fn law_live_store_goes_on_as_from_config<'a, T: DatabaseStore, P: ConnectionPool, K>(
    config: (T::Config, P::RedisSettings, K, P::ErrorSignal, &'static str),
    tenant_config: TenantConfig<'a>,
    cache_store: Arc<RedisStore<P>>,
    events: Seq<InitEvent<T, P>>,
    followed: Seq<(StoreInit<'a, T, P, K>, InitAction<'a, T, P>)>,
    more: Seq<InitEvent<T, P>>,
    then_followed: Seq<(StoreInit<'a, T, P, K>, InitAction<'a, T, P>)>,
)
    requires
        events.len() > 0,
        store_start(config, tenant_config, false).0.runs(events, followed),
        !(cache_start::<T, P>(config.1, config.3).0.reached::<T>(events.drop_last()) is Finished),
        cache_start::<T, P>(config.1, config.3).0.reached::<T>(events) == CacheInit::Finished(
            Ok(cache_store),
        ),
    ensures
        ({
            let (live, _) = store_start(config, tenant_config, false);
            let (start, first) = config_start(
                StartUp::Direct,
                config.0,
                tenant_config,
                config.2,
                cache_store,
                config.4,
            );
            &&& followed.last().1 == first
            &&& live.runs(events + more, followed + then_followed) ==> start.runs(
                more,
                all_begun_by(then_followed, StartUp::Direct),
            )
            &&& start.runs(more, then_followed) ==> live.runs(
                events + more,
                followed + all_begun_by(then_followed, StartUp::New),
            )
        }),
{
    let (live, _) = store_start(config, tenant_config, false);
    let (new, _) = config_start(
        StartUp::New,
        config.0,
        tenant_config,
        config.2,
        cache_store,
        config.4,
    );
    let (start, _) = config_start(
        StartUp::Direct,
        config.0,
        tenant_config,
        config.2,
        cache_store,
        config.4,
    );
    law_live_store_is_a_cache_then_a_store(config, tenant_config, events, followed);
    if live.runs(events + more, followed + then_followed) {
        lemma_rest_of_run(live, events, followed, more, then_followed);
        lemma_runs_alike(new, StartUp::New, StartUp::Direct, more, then_followed);
    }
    if start.runs(more, then_followed) {
        lemma_runs_alike(start, StartUp::Direct, StartUp::New, more, then_followed);
        lemma_run_goes_on(
            live,
            events,
            followed,
            more,
            all_begun_by(then_followed, StartUp::New),
        );
    }
}

/// What a run does after its first events is a run from where they led.
proof fn lemma_rest_of_run<'a, T: DatabaseStore, P: ConnectionPool, K>(
    start: StoreInit<'a, T, P, K>,
    events: Seq<InitEvent<T, P>>,
    followed: Seq<(StoreInit<'a, T, P, K>, InitAction<'a, T, P>)>,
    more: Seq<InitEvent<T, P>>,
    then_followed: Seq<(StoreInit<'a, T, P, K>, InitAction<'a, T, P>)>,
)
    requires
        followed.len() == events.len(),
        events.len() > 0,
        start.runs(events + more, followed + then_followed),
    ensures
        followed.last().0.runs(more, then_followed),
{
    let all = followed + then_followed;
    let n = events.len() as int;
    assert(all.len() == n + then_followed.len());
    assert((events + more).len() == n + more.len());
    assert forall|i: int| 0 <= i < more.len() implies followed.last().0.state_after(
        then_followed,
        i,
    ).leads_to(more[i], #[trigger] then_followed[i]) by {
        assert(all[n + i] == then_followed[i]);
        assert((events + more)[n + i] == more[i]);
        assert(start.state_after(all, n + i) == followed.last().0.state_after(then_followed, i));
    }
}

/// A run goes on with a run from where it stands.
proof fn lemma_run_goes_on<'a, T: DatabaseStore, P: ConnectionPool, K>(
    start: StoreInit<'a, T, P, K>,
    events: Seq<InitEvent<T, P>>,
    followed: Seq<(StoreInit<'a, T, P, K>, InitAction<'a, T, P>)>,
    more: Seq<InitEvent<T, P>>,
    then_followed: Seq<(StoreInit<'a, T, P, K>, InitAction<'a, T, P>)>,
)
    requires
        events.len() > 0,
        start.runs(events, followed),
        followed.last().0.runs(more, then_followed),
    ensures
        start.runs(events + more, followed + then_followed),
{
    let all = followed + then_followed;
    let n = events.len() as int;
    assert forall|i: int| 0 <= i < n + more.len() implies start.state_after(all, i).leads_to(
        (events + more)[i],
        #[trigger] all[i],
    ) by {
        if i < n {
            assert(all[i] == followed[i]);
            assert(start.state_after(all, i) == start.state_after(followed, i));
        } else {
            assert(all[i] == then_followed[i - n]);
            assert(start.state_after(all, i) == followed.last().0.state_after(
                then_followed,
                i - n,
            ));
        }
    }
}

/// When both of its steps succeed, the cache that was connected is handed out.
pub proof fn law_cache_comes_up<T: DatabaseStore, P: ConnectionPool>(
    cache_conf: P::RedisSettings,
    cache_error_signal: P::ErrorSignal,
    connected: RedisStore<P>,
)
    ensures
        cache_start::<T, P>(cache_conf, cache_error_signal).0.reached::<T>(
            seq![InitEvent::CacheConnected(connected), InitEvent::ErrorCallbackSet],
        ) == CacheInit::Finished(Ok(Arc::new(connected))),
{
    let cache = cache_start::<T, P>(cache_conf, cache_error_signal).0;
    let none = Seq::<InitEvent<T, P>>::empty();
    let one = seq![InitEvent::<T, P>::CacheConnected(connected)];
    let two = seq![InitEvent::<T, P>::CacheConnected(connected), InitEvent::ErrorCallbackSet];
    assert(one.drop_last() =~= none);
    assert(two.drop_last() =~= one);
    assert(cache.reached::<T>(none) == cache);
    assert(cache.reached::<T>(one) == cache.after::<T>(one.last()).0);
}

/// When all of its steps succeed, a store on a given cache comes up: after database and
/// subscription.
pub proof fn law_configured_store_comes_up<'a, T: DatabaseStore, P: ConnectionPool, K>(
    begun: StartUp,
    db_conf: T::Config,
    tenant_config: TenantConfig<'a>,
    encryption_key: K,
    cache_store: Arc<RedisStore<P>>,
    inmemory_cache_stream: &'a str,
    db_store: T,
    followed: Seq<(StoreInit<'a, T, P, K>, InitAction<'a, T, P>)>,
)
    requires
        config_start(
            begun,
            db_conf,
            tenant_config,
            encryption_key,
            cache_store,
            inmemory_cache_stream,
        ).0.runs(seq![InitEvent::DatabaseOpened(db_store), InitEvent::Subscribed], followed),
    ensures
        followed.last().1 is Return,
        match followed.last().0 {
            StoreInit::Finished(Ok(store)) => {
                &&& store.db_store == db_store
                &&& store.master_encryption_key == encryption_key
                &&& store.request_id == None::<String>
                &&& cache_store.scopes_to(tenant_config.redis_key_prefix, *store.cache_store)
            },
            _ => false,
        },
{
    let (start, _) = config_start(
        begun,
        db_conf,
        tenant_config,
        encryption_key,
        cache_store,
        inmemory_cache_stream,
    );
    assert(start.leads_to(InitEvent::DatabaseOpened(db_store), followed[0]));
    assert(followed[0].0.leads_to(InitEvent::Subscribed, followed[1]));
}

/// When all of its steps succeed, a live store comes up: after connection, callback, database and
/// subscription.
pub proof fn law_live_store_comes_up<'a, T: DatabaseStore, P: ConnectionPool, K>(
    config: (T::Config, P::RedisSettings, K, P::ErrorSignal, &'static str),
    tenant_config: TenantConfig<'a>,
    connected: RedisStore<P>,
    db_store: T,
    followed: Seq<(StoreInit<'a, T, P, K>, InitAction<'a, T, P>)>,
)
    requires
        store_start(config, tenant_config, false).0.runs(
            seq![
                InitEvent::CacheConnected(connected),
                InitEvent::ErrorCallbackSet,
                InitEvent::DatabaseOpened(db_store),
                InitEvent::Subscribed,
            ],
            followed,
        ),
    ensures
        followed.last().1 is Return,
        match followed.last().0 {
            StoreInit::Finished(Ok(store)) => {
                &&& store.db_store == db_store
                &&& store.master_encryption_key == config.2
                &&& store.request_id == None::<String>
                &&& connected.scopes_to(tenant_config.redis_key_prefix, *store.cache_store)
            },
            _ => false,
        },
{
    let (start, _) = store_start(config, tenant_config, false);
    assert(start.leads_to(InitEvent::CacheConnected(connected), followed[0]));
    assert(followed[0].0.leads_to(InitEvent::ErrorCallbackSet, followed[1]));
    assert(followed[1].0.leads_to(InitEvent::DatabaseOpened(db_store), followed[2]));
    assert(followed[2].0.leads_to(InitEvent::Subscribed, followed[3]));
}

/// When both of its steps succeed, a test store comes up: after database and connection.
pub proof fn law_test_store_comes_up<'a, T: DatabaseStore, P: ConnectionPool, K>(
    begun: StartUp,
    db_conf: T::Config,
    tenant_config: TenantConfig<'a>,
    cache_conf: P::RedisSettings,
    encryption_key: K,
    db_store: T,
    connected: RedisStore<P>,
    followed: Seq<(StoreInit<'a, T, P, K>, InitAction<'a, T, P>)>,
)
    requires
        test_start(begun, db_conf, tenant_config, cache_conf, encryption_key).0.runs(
            seq![InitEvent::DatabaseOpened(db_store), InitEvent::CacheConnected(connected)],
            followed,
        ),
    ensures
        followed.last().1 is Return,
        match followed.last().0 {
            StoreInit::Finished(Ok(store)) => {
                &&& store.db_store == db_store
                &&& *store.cache_store == connected
                &&& store.master_encryption_key == encryption_key
                &&& store.request_id == None::<String>
            },
            _ => false,
        },
{
    let (start, _) = test_start(begun, db_conf, tenant_config, cache_conf, encryption_key);
    assert(start.leads_to(InitEvent::DatabaseOpened(db_store), followed[0]));
    assert(followed[0].0.leads_to(InitEvent::CacheConnected(connected), followed[1]));
}

/// A live start-up is the making of a cache followed by the start-up on that cache: as long as the
/// cache is being made, the two ask for the same steps; with the event that completes it, the
/// start-up goes on as [`RouterStore::from_config`](crate::RouterStore::from_config) begins, and
/// with the event that makes it fail, the start-up fails in the same way.
pub proof fn law_live_store_is_a_cache_then_a_store<'a, T: DatabaseStore, P: ConnectionPool, K>(
    config: (T::Config, P::RedisSettings, K, P::ErrorSignal, &'static str),
    tenant_config: TenantConfig<'a>,
    events: Seq<InitEvent<T, P>>,
    followed: Seq<(StoreInit<'a, T, P, K>, InitAction<'a, T, P>)>,
)
    requires
        store_start(config, tenant_config, false).0.runs(events, followed),
    ensures
        ({
            let (cache, cache_first) = cache_start::<T, P>(config.1, config.3);
            let (_, store_first) = store_start::<T, P, K>(config, tenant_config, false);
            &&& store_first == cache_first
            &&& events.len() > 0 && !(cache.reached::<T>(events.drop_last()) is Finished) ==> {
                match cache.reached::<T>(events) {
                    CacheInit::Finished(Ok(cache_store)) => followed.last() == config_start::<
                        T,
                        P,
                        K,
                    >(StartUp::New, config.0, tenant_config, config.2, cache_store, config.4),
                    CacheInit::Finished(Err(failure)) => {
                        &&& followed.last().0 == StoreInit::<'a, T, P, K>::Finished(Err(failure))
                        &&& followed.last().1 is Return
                    },
                    _ => followed.last().1 == cache.answer::<T>(events),
                }
            }
        }),
{
    if events.len() > 0 {
        let (start, _) = store_start(config, tenant_config, false);
        lemma_run_before_last(start, events, followed);
        lemma_store_waits_for_its_cache(
            config,
            tenant_config,
            events.drop_last(),
            followed.drop_last(),
        );
    }
}

proof fn lemma_store_waits_for_its_cache<'a, T: DatabaseStore, P: ConnectionPool, K>(
    config: (T::Config, P::RedisSettings, K, P::ErrorSignal, &'static str),
    tenant_config: TenantConfig<'a>,
    events: Seq<InitEvent<T, P>>,
    followed: Seq<(StoreInit<'a, T, P, K>, InitAction<'a, T, P>)>,
)
    requires
        store_start(config, tenant_config, false).0.runs(events, followed),
    ensures
        ({
            let cache = cache_start::<T, P>(config.1, config.3).0;
            let start = store_start::<T, P, K>(config, tenant_config, false).0;
            !(cache.reached::<T>(events) is Finished) ==> match start.state_after(
                followed,
                events.len() as int,
            ) {
                StoreInit::CacheStore {
                    cache: inner,
                    db_conf,
                    tenant_config: tenant,
                    encryption_key,
                    inmemory_cache_stream,
                } => {
                    &&& inner == cache.reached::<T>(events)
                    &&& db_conf == config.0
                    &&& tenant == tenant_config
                    &&& encryption_key == config.2
                    &&& inmemory_cache_stream == config.4
                },
                _ => false,
            }
        }),
    decreases events.len(),
{
    if events.len() > 0 {
        let (start, _) = store_start(config, tenant_config, false);
        lemma_run_before_last(start, events, followed);
        lemma_store_waits_for_its_cache(
            config,
            tenant_config,
            events.drop_last(),
            followed.drop_last(),
        );
    }
}

} // verus!
