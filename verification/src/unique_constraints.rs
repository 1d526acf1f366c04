//! Unique constraints that a record claims in Redis before it is written.
//!
//! The constraints of a record are members of a set that belongs to its table. Adding them is
//! the check: a set that already holds them refuses.
use std::sync::Arc;
use vstd::prelude::*;

use crate::errors::RedisError;
use crate::redis::SaddReply;
use crate::seq_facts::lemma_common_prefix;

verus! {

/// The name of the set that holds the constraints of a table.
pub open spec fn constraint_set_key(table: Seq<char>) -> Seq<char> {
    "unique_constraint:"@ + table
}

/// Whether two rows of constraints have one in common.
pub open spec fn share_a_constraint(a: Seq<Seq<char>>, b: Seq<Seq<char>>) -> bool {
    exists|constraint: Seq<char>| #[trigger]
        a.contains(constraint) && b.contains(constraint)
}

/// Members to be added to a set, all in one call.
#[derive(Debug)]
pub struct SaddRequest<P> {
    /// The connection on which they are added.
    pub redis_conn: Arc<P>,
    /// The name of the set.
    pub key: String,
    /// The members.
    pub members: Vec<String>,
}

/// A record that must be unique in its table.
pub trait UniqueConstraints {
    /// The texts of which no two records of the table may share one.
    spec fn constraints(&self) -> Seq<Seq<char>>;

    /// The name of the table.
    spec fn table(&self) -> Seq<char>;

    /// The texts of which no two records of the table may share one.
    fn unique_constraints(&self) -> (constraints: Vec<String>)
        ensures
            constraints.deep_view() == self.constraints(),
    ;

    /// The name of the table.
    fn table_name(&self) -> (name: &str)
        ensures
            name@ == self.table(),
    ;

    /// Begins the check of the constraints: it asks for them to be added to the set of the
    /// table, on the given connection. [`constraint_verdict`] says what the answer means.
    fn check_for_constraints<P>(&self, redis_conn: &Arc<P>) -> (request: SaddRequest<P>)
        ensures
            request.redis_conn == *redis_conn,
            request.key@ == constraint_set_key(self.table()),
            request.members.deep_view() == self.constraints(),
    {
        SaddRequest {
            redis_conn: redis_conn.clone(),
            key: "unique_constraint:".to_string().concat(self.table_name()),
            members: self.unique_constraints(),
        }
    }
}

/// Ends the check of the constraints: it succeeds if they were added. A refusal is an error of its
/// own, and a failed call fails the check with its error.
pub fn constraint_verdict(sadd_result: Result<SaddReply, RedisError>) -> (verdict: Result<
    (),
    RedisError,
>)
    ensures
        verdict == (match sadd_result {
            Ok(SaddReply::KeySet) => Ok::<(), RedisError>(()),
            Ok(SaddReply::KeyNotSet) => Err(RedisError::SetAddMembersFailed),
            Err(error) => Err(error),
        }),
{
    match sadd_result? {
        SaddReply::KeyNotSet => Err(RedisError::SetAddMembersFailed),
        SaddReply::KeySet => Ok(()),
    }
}

/// The name of a set begins with the word for unique constraints and a colon, and ends with the
/// name of the table, whatever the table.
pub proof fn law_set_is_named_after_its_table(table: Seq<char>)
    ensures
        ({
            let key = constraint_set_key(table);
            let n = "unique_constraint"@.len() as int;
            &&& key.len() == n + 1 + table.len()
            &&& key.take(n) == "unique_constraint"@
            &&& key[n] == ':'
            &&& key.skip(n + 1) == table
        }),
{
    reveal_strlit("unique_constraint");
    reveal_strlit("unique_constraint:");
    let key = constraint_set_key(table);
    let n = "unique_constraint"@.len() as int;
    assert(key.take(n) =~= "unique_constraint"@);
    assert(key.skip(n + 1) =~= table);
}

/// Single constraints are shared exactly if they are the same.
pub(crate) proof fn lemma_single_constraints(a: Seq<Seq<char>>, b: Seq<Seq<char>>)
    requires
        a.len() == 1,
        b.len() == 1,
    ensures
        share_a_constraint(a, b) <==> a == b,
{
    if share_a_constraint(a, b) {
        assert(a =~= b);
    }
    if a == b {
        assert(a.contains(a[0]));
    }
}

/// Constraints of tables with different names never meet: their sets have different names.
pub proof fn law_tables_have_their_own_sets(table: Seq<char>, other: Seq<char>)
    ensures
        constraint_set_key(table) == constraint_set_key(other) <==> table == other,
{
    lemma_common_prefix("unique_constraint:"@, table, other);
}

} // verus!
