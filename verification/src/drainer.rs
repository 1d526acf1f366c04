//! How a write reaches its drainer stream: the entry is serialized, then appended, and the
//! outcome is counted.
use std::sync::Arc;
use vstd::prelude::*;

use crate::errors::RedisError;
use crate::redis::{RedisEntryId, RedisStore};
use crate::seq_facts::lemma_seen_stays_seen;

verus! {

/// The key by which a record is assigned to a partition.
#[derive(Debug, Clone, PartialEq, Eq)]
pub struct PartitionKey {
    /// The key as text.
    pub text: String,
}

/// A kind of record that is spread over partitions.
///
/// How records are spread is for the implementation to say; nothing is promised here of the
/// shard key.
pub trait KvStorePartition {
    /// The key of the shard that a record belongs to.
    fn shard_key(partition_key: PartitionKey, num_partitions: u8) -> String;
}

/// A counter of the drainer.
#[derive(Debug, Clone, Copy, PartialEq, Eq, Structural)]
pub enum DrainerMetric {
    /// Entries that were pushed.
    KvPushedToDrainer,
    /// Entries that could not be pushed.
    KvFailedToPushToDrainer,
}

/// An outside step of a push.
pub enum PushAction<E, P> {
    /// Turn the entry into the fields of a stream entry, with these two ids among them.
    SerializeEntry { redis_entry: E, request_id: String, global_id: String },
    /// Append these fields to the stream, on the connection of this cache.
    AppendEntry {
        cache_store: Arc<RedisStore<P>>,
        stream_name: String,
        entry_id: RedisEntryId,
        fields: Vec<(String, String)>,
    },
    /// Count one on the metric, if there is one, and return the result: the push is over.
    Return { result: Result<(), RedisError>, metric: Option<DrainerMetric> },
    /// The event was no answer to the step that is pending; nothing is to be done.
    Ignore,
}

/// The outcome of an outside step of a push.
pub enum PushEvent {
    /// The fields of the stream entry.
    Serialized(Vec<(String, String)>),
    /// The entry has no text.
    SerializationFailed,
    /// The entry is in the stream.
    Appended,
    /// The entry is not in the stream.
    AppendFailed,
}

/// What a push waits for.
#[derive(Debug)]
pub enum DrainerPush<P> {
    /// The fields of the entry for this stream on this cache.
    Serializing { cache_store: Arc<RedisStore<P>>, stream_name: String },
    /// The stream.
    Appending,
    /// Nothing: the push has returned.
    Finished,
}

impl<P> DrainerPush<P> {
    /// The state and the action that follow an event.
    pub open spec fn after<E>(self, event: PushEvent) -> (Self, PushAction<E, P>) {
        match (self, event) {
            (
                DrainerPush::Serializing { cache_store, stream_name },
                PushEvent::Serialized(fields),
            ) => (
                DrainerPush::Appending,
                PushAction::AppendEntry {
                    cache_store,
                    stream_name,
                    entry_id: RedisEntryId::AutoGeneratedID,
                    fields,
                },
            ),
            (DrainerPush::Serializing { .. }, PushEvent::SerializationFailed) => (
                DrainerPush::Finished,
                PushAction::Return {
                    result: Err(RedisError::JsonSerializationFailed),
                    metric: None,
                },
            ),
            (DrainerPush::Appending, PushEvent::Appended) => (
                DrainerPush::Finished,
                PushAction::Return {
                    result: Ok(()),
                    metric: Some(DrainerMetric::KvPushedToDrainer),
                },
            ),
            (DrainerPush::Appending, PushEvent::AppendFailed) => (
                DrainerPush::Finished,
                PushAction::Return {
                    result: Err(RedisError::StreamAppendFailed),
                    metric: Some(DrainerMetric::KvFailedToPushToDrainer),
                },
            ),
            (state, _) => (state, PushAction::Ignore),
        }
    }

    /// Takes the outcome of the pending step and says what comes next.
    pub fn step<E>(self, event: PushEvent) -> (next: (Self, PushAction<E, P>))
        ensures
            next == self.after::<E>(event),
    {
        match (self, event) {
            (
                DrainerPush::Serializing { cache_store, stream_name },
                PushEvent::Serialized(fields),
            ) => (
                DrainerPush::Appending,
                PushAction::AppendEntry {
                    cache_store,
                    stream_name,
                    entry_id: RedisEntryId::AutoGeneratedID,
                    fields,
                },
            ),
            (DrainerPush::Serializing { .. }, PushEvent::SerializationFailed) => (
                DrainerPush::Finished,
                PushAction::Return {
                    result: Err(RedisError::JsonSerializationFailed),
                    metric: None,
                },
            ),
            (DrainerPush::Appending, PushEvent::Appended) => (
                DrainerPush::Finished,
                PushAction::Return {
                    result: Ok(()),
                    metric: Some(DrainerMetric::KvPushedToDrainer),
                },
            ),
            (DrainerPush::Appending, PushEvent::AppendFailed) => (
                DrainerPush::Finished,
                PushAction::Return {
                    result: Err(RedisError::StreamAppendFailed),
                    metric: Some(DrainerMetric::KvFailedToPushToDrainer),
                },
            ),
            (state, _) => (state, PushAction::Ignore),
        }
    }
}

impl<P> DrainerPush<P> {
    /// The state that a push is in after a row of events, the latest last.
    pub open spec fn reached<E>(self, events: Seq<PushEvent>) -> Self
        decreases events.len(),
    {
        if events.len() == 0 {
            self
        } else {
            self.reached::<E>(events.drop_last()).after::<E>(events.last()).0
        }
    }

    /// The action that answers the last of a row of events.
    pub open spec fn answer<E>(self, events: Seq<PushEvent>) -> PushAction<E, P> {
        self.reached::<E>(events.drop_last()).after::<E>(events.last()).1
    }

    /// How many steps a push has still to take.
    pub open spec fn steps_left(self) -> nat {
        match self {
            DrainerPush::Serializing { .. } => 2,
            DrainerPush::Appending => 1,
            DrainerPush::Finished => 0,
        }
    }
}

/// A push that succeeds is counted as pushed, one that Redis refuses as failed, and one whose
/// entry cannot be serialized is not counted at all. There is no other result.
pub proof fn law_every_append_is_counted_once<E, P>(push: DrainerPush<P>, event: PushEvent)
    ensures
        push.after::<E>(event).1 matches PushAction::Return { result, metric } ==> {
            ||| result == Ok::<(), RedisError>(()) && metric == Some(
                DrainerMetric::KvPushedToDrainer,
            )
            ||| result == Err::<(), RedisError>(RedisError::StreamAppendFailed) && metric == Some(
                DrainerMetric::KvFailedToPushToDrainer,
            )
            ||| result == Err::<(), RedisError>(RedisError::JsonSerializationFailed) && metric
                == None::<DrainerMetric>
        },
{
}

/// While a push waits for its fields: with them it asks for the append of exactly these, to its
/// stream, on its cache, under an id that the server picks; without them it is over, with an error
/// of its own and nothing counted. Nothing else moves it.
pub proof fn law_serialization_is_answered<E, P>(
    cache_store: Arc<RedisStore<P>>,
    stream_name: String,
    event: PushEvent,
)
    ensures
        ({
            let push = DrainerPush::Serializing { cache_store, stream_name };
            let (next, action) = push.after::<E>(event);
            match event {
                PushEvent::Serialized(fields) => next is Appending && (match action {
                    PushAction::AppendEntry {
                        cache_store: cache,
                        stream_name: name,
                        entry_id,
                        fields: appended,
                    } => cache == cache_store && name == stream_name && appended == fields
                        && entry_id is AutoGeneratedID,
                    _ => false,
                }),
                PushEvent::SerializationFailed => next is Finished && (match action {
                    PushAction::Return { result: Err(error), metric: None } => error
                        is JsonSerializationFailed,
                    _ => false,
                }),
                PushEvent::Appended | PushEvent::AppendFailed => next == push && action is Ignore,
            }
        }),
{
}

/// While a push waits for its stream: once the entry is appended, it succeeds and is counted as
/// pushed; if the entry is refused, it fails and is counted as failed. Nothing else moves it.
pub proof fn law_append_is_answered<E, P>(event: PushEvent)
    ensures
        ({
            let push = DrainerPush::<P>::Appending;
            let (next, action) = push.after::<E>(event);
            match event {
                PushEvent::Appended => next is Finished && (match action {
                    PushAction::Return { result: Ok(_), metric: Some(metric) } => metric
                        is KvPushedToDrainer,
                    _ => false,
                }),
                PushEvent::AppendFailed => next is Finished && (match action {
                    PushAction::Return { result: Err(error), metric: Some(metric) } => error
                        is StreamAppendFailed && metric is KvFailedToPushToDrainer,
                    _ => false,
                }),
                PushEvent::Serialized(_) | PushEvent::SerializationFailed => next == push
                    && action is Ignore,
            }
        }),
{
}

/// A push that is over stays over.
pub proof fn law_finished_push_stays<E, P>(event: PushEvent)
    ensures
        DrainerPush::<P>::Finished.after::<E>(event).0 is Finished,
        DrainerPush::<P>::Finished.after::<E>(event).1 is Ignore,
{
}

/// Whatever happens during a push, only the stream that it began with is ever appended to, on the
/// cache that it began with, and only with the fields that the entry was serialized to.
pub proof fn law_push_appends_to_its_stream<E, P>(
    cache_store: Arc<RedisStore<P>>,
    stream_name: String,
    events: Seq<PushEvent>,
)
    requires
        events.len() > 0,
    ensures
        (DrainerPush::Serializing { cache_store, stream_name }).answer::<E>(
            events,
        ) matches PushAction::AppendEntry {
            cache_store: cache,
            stream_name: name,
            fields,
            ..
        } ==> cache == cache_store && name == stream_name && events.last()
            == PushEvent::Serialized(fields),
{
    lemma_stream_is_kept::<E, P>(cache_store, stream_name, events.drop_last());
}

proof fn lemma_stream_is_kept<E, P>(
    cache_store: Arc<RedisStore<P>>,
    stream_name: String,
    events: Seq<PushEvent>,
)
    ensures
        (DrainerPush::Serializing { cache_store, stream_name }).reached::<E>(
            events,
        ) matches DrainerPush::Serializing { cache_store: cache, stream_name: name } ==> cache
            == cache_store && name == stream_name,
    decreases events.len(),
{
    if events.len() > 0 {
        lemma_stream_is_kept::<E, P>(cache_store, stream_name, events.drop_last());
    }
}

/// Whatever happens during a push, it appends at most once and returns at most once.
pub proof fn law_push_appends_and_returns_at_most_once<E, P>(
    push: DrainerPush<P>,
    events: Seq<PushEvent>,
    i: int,
    j: int,
)
    requires
        0 < i < j <= events.len(),
    ensures
        !(push.answer::<E>(events.take(i)) is AppendEntry && push.answer::<E>(
            events.take(j),
        ) is AppendEntry),
        !(push.answer::<E>(events.take(i)) is Return && push.answer::<E>(events.take(j)) is Return),
{
    assert(events.take(j).drop_last() =~= events.take(j - 1));
    assert(events.take(j - 1).take(i) =~= events.take(i));
    lemma_steps_only_shrink::<E, P>(push, events.take(j - 1), i);
}

proof fn lemma_steps_only_shrink<E, P>(push: DrainerPush<P>, events: Seq<PushEvent>, i: int)
    requires
        0 <= i <= events.len(),
    ensures
        push.reached::<E>(events).steps_left() <= push.reached::<E>(events.take(i)).steps_left(),
    decreases events.len(),
{
    if i < events.len() {
        assert(events.drop_last().take(i) =~= events.take(i));
        lemma_steps_only_shrink::<E, P>(push, events.drop_last(), i);
    } else {
        assert(events.take(i) =~= events);
    }
}

/// A push that succeeds has serialized its entry and had it appended.
pub proof fn law_push_succeeds_only_by_appending<E, P>(
    cache_store: Arc<RedisStore<P>>,
    stream_name: String,
    events: Seq<PushEvent>,
)
    requires
        events.len() > 0,
    ensures
        (DrainerPush::Serializing { cache_store, stream_name }).answer::<E>(
            events,
        ) matches PushAction::Return { result: Ok(_), .. } ==> events.last() is Appended && exists|
            fields: Vec<(String, String)>,
        |
            events.contains(PushEvent::Serialized(fields)),
{
    lemma_appending_means_serialized::<E, P>(cache_store, stream_name, events.drop_last());
    lemma_seen_stays_seen(events);
}

proof fn lemma_appending_means_serialized<E, P>(
    cache_store: Arc<RedisStore<P>>,
    stream_name: String,
    events: Seq<PushEvent>,
)
    ensures
        (DrainerPush::Serializing { cache_store, stream_name }).reached::<E>(
            events,
        ) is Appending ==> exists|
            fields: Vec<(String, String)>,
        |
            events.contains(PushEvent::Serialized(fields)),
    decreases events.len(),
{
    if events.len() > 0 {
        lemma_appending_means_serialized::<E, P>(cache_store, stream_name, events.drop_last());
        lemma_seen_stays_seen(events);
    }
}

/// When both of its steps succeed, a push appends the serialized fields to its stream, on its
/// cache, under an id that the server picks, and then succeeds.
pub proof fn law_push_goes_through<E, P>(
    cache_store: Arc<RedisStore<P>>,
    stream_name: String,
    fields: Vec<(String, String)>,
)
    ensures
        ({
            let push = DrainerPush::Serializing { cache_store, stream_name };
            let serialized = PushEvent::Serialized(fields);
            &&& push.answer::<E>(seq![serialized]) == (PushAction::<E, P>::AppendEntry {
                cache_store,
                stream_name,
                entry_id: RedisEntryId::AutoGeneratedID,
                fields,
            })
            &&& push.answer::<E>(seq![serialized, PushEvent::Appended]) == (PushAction::<
                E,
                P,
            >::Return { result: Ok(()), metric: Some(DrainerMetric::KvPushedToDrainer) })
        }),
{
    let push = DrainerPush::Serializing { cache_store, stream_name };
    let none = Seq::<PushEvent>::empty();
    let one = seq![PushEvent::Serialized(fields)];
    assert(one.drop_last() =~= none);
    assert(seq![PushEvent::Serialized(fields), PushEvent::Appended].drop_last() =~= one);
    assert(push.reached::<E>(none) == push);
    assert(push.reached::<E>(one) == push.after::<E>(one.last()).0);
}

/// A push is at its end after its entry was serialized and appended, or as soon as one of the two
/// failed: no third answer is waited for.
pub proof fn law_push_ends<E, P>(push: DrainerPush<P>, event: PushEvent)
    ensures
        push.after::<E>(event).1 is Ignore ==> push.after::<E>(event).0 == push,
        !(push.after::<E>(event).1 is Ignore) ==> push.after::<E>(event).0.steps_left()
            < push.steps_left(),
        push.after::<E>(event).1 is Return <==> push.steps_left() > 0 && push.after::<E>(
            event,
        ).0.steps_left() == 0,
{
}

} // verus!
