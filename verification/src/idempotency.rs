//! Which status a client-chosen key of an actor was bound to.

use vstd::prelude::*;

use crate::clock::Timestamp;
use crate::domain::Id;
use crate::model::IdempotencyRecord;
use crate::text::same_text;

verus! {

/// What a key stands for.
#[derive(Debug, Clone, Copy, PartialEq, Eq, Structural)]
pub enum IdempotencyLookup {
    /// The key was bound to this status.
    Existing(Id),
    /// The key was never bound.
    Reserved,
}

/// The status that the first record of an actor and key binds.
pub open spec fn bound_status(
    records: Seq<IdempotencyRecord>,
    actor_id: Id,
    key: Seq<char>,
) -> Option<Id>
    decreases records.len(),
{
    if records.len() == 0 {
        None
    } else if records[0].actor_id == actor_id && records[0].key@ == key {
        Some(records[0].status_id)
    } else {
        bound_status(records.skip(1), actor_id, key)
    }
}

/// Looks a key of an actor up. Looking changes nothing.
pub fn check_or_reserve(records: &[IdempotencyRecord], actor_id: Id, key: &str) -> (r:
    IdempotencyLookup)
    ensures
        r == (match bound_status(records@, actor_id, key@) {
            Some(status_id) => IdempotencyLookup::Existing(status_id),
            None => IdempotencyLookup::Reserved,
        }),
{
    let mut i: usize = 0;
    assert(records@.skip(0) =~= records@);
    while i < records.len()
        invariant
            i <= records.len(),
            bound_status(records@, actor_id, key@) == bound_status(
                records@.skip(i as int),
                actor_id,
                key@,
            ),
        decreases records.len() - i,
    {
        assert(records@.skip(i as int)[0] == records@[i as int]);
        assert(records@.skip(i as int).skip(1) =~= records@.skip(i + 1));
        if records[i].actor_id == actor_id && same_text(records[i].key.as_str(), key) {
            return IdempotencyLookup::Existing(records[i].status_id);
        }
        i += 1;
    }
    IdempotencyLookup::Reserved
}

/// Whether `after` is `before` with a key bound: unchanged where it was
/// bound already, and with one record more where it was not.
pub open spec fn is_bound(
    before: Seq<IdempotencyRecord>,
    after: Seq<IdempotencyRecord>,
    actor_id: Id,
    key: Seq<char>,
    status_id: Id,
    now: Timestamp,
) -> bool {
    if bound_status(before, actor_id, key) is Some {
        after == before
    } else {
        &&& after.len() == before.len() + 1
        &&& after.drop_last() == before
        &&& after.last().actor_id == actor_id
        &&& after.last().key@ == key
        &&& after.last().status_id == status_id
        &&& after.last().created_at == now
    }
}

/// Binds a key of an actor to a status. A key that is bound already keeps
/// its status.
pub fn bind(
    records: &mut Vec<IdempotencyRecord>,
    actor_id: Id,
    key: &str,
    status_id: Id,
    now: Timestamp,
)
    ensures
        is_bound(old(records)@, final(records)@, actor_id, key@, status_id, now),
{
    match check_or_reserve(records.as_slice(), actor_id, key) {
        IdempotencyLookup::Existing(_) => {},
        IdempotencyLookup::Reserved => {
            let ghost before = records@;
            records.push(
                IdempotencyRecord { actor_id, key: key.to_owned(), status_id, created_at: now },
            );
            assert(records@.drop_last() =~= before);
        },
    }
}

proof fn lemma_bound_status_after_push(
    before: Seq<IdempotencyRecord>,
    record: IdempotencyRecord,
    actor_id: Id,
    key: Seq<char>,
)
    ensures
        bound_status(before.push(record), actor_id, key) == (match bound_status(
            before,
            actor_id,
            key,
        ) {
            Some(id) => Some(id),
            None => if record.actor_id == actor_id && record.key@ == key {
                Some(record.status_id)
            } else {
                None
            },
        }),
    decreases before.len(),
{
    if before.len() > 0 {
        lemma_bound_status_after_push(before.skip(1), record, actor_id, key);
        assert(before.push(record).skip(1) =~= before.skip(1).push(record));
        assert(before.push(record)[0] == before[0]);
    } else {
        assert(before.push(record).skip(1) =~= Seq::<IdempotencyRecord>::empty());
        assert(before.push(record)[0] == record);
        assert(bound_status(before.push(record).skip(1), actor_id, key) is None);
    }
}

/// The first binding of a key wins: after a key is bound it stands for the
/// status it was first bound to, and binding it changes what no other key or
/// actor stands for.
pub proof fn law_first_binding_wins(
    before: Seq<IdempotencyRecord>,
    after: Seq<IdempotencyRecord>,
    actor_id: Id,
    key: Seq<char>,
    status_id: Id,
    now: Timestamp,
    other_actor: Id,
    other_key: Seq<char>,
)
    requires
        is_bound(before, after, actor_id, key, status_id, now),
    ensures
        bound_status(after, actor_id, key) == Some(
            match bound_status(before, actor_id, key) {
                Some(first) => first,
                None => status_id,
            },
        ),
        other_actor != actor_id || other_key != key ==> bound_status(after, other_actor, other_key)
            == bound_status(before, other_actor, other_key),
{
    if bound_status(before, actor_id, key) is None {
        assert(after =~= before.push(after.last()));
        lemma_bound_status_after_push(before, after.last(), actor_id, key);
        lemma_bound_status_after_push(before, after.last(), other_actor, other_key);
    }
}

} // verus!
