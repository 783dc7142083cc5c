//! What the changes of this crate do to the stored rows, and what stays true
//! of the rows under them.

use vstd::prelude::*;

use crate::clock::Timestamp;
use crate::domain::{AccountRef, Id};
use crate::effects::{is_boost, Effect, Fresh};
use crate::inbound_handlers::{
    announce_effects, interaction_events, like_effects, undo_announce_effects, undo_like_effects,
};
use crate::interaction_service::{local_notification, reblog_effects};
use crate::json::JsonModel;
use crate::model::{CountKind, Status, StatusEdit};
use crate::note_ingest::{is_ingested, mention_events, reply_effects};
use crate::notification_sink::{NotificationEvent, NotificationType};

verus! {

/// The stored rows that interactions touch, and the events that were
/// emitted.
pub struct Store {
    /// Status rows by id.
    pub statuses: Map<Id, Status>,
    /// The counters of the status rows.
    pub counts: Map<(Id, CountKind), int>,
    /// Favourite rows: actor and status.
    pub favourites: Set<(Id, Id)>,
    /// Bookmark rows: actor and status.
    pub bookmarks: Set<(Id, Id)>,
    /// Pin rows: actor and status.
    pub pins: Set<(Id, Id)>,
    /// The events that were emitted, in order.
    pub events: Seq<NotificationEvent>,
}

/// The counters of a new status row.
pub open spec fn count_of(status: Status, kind: CountKind) -> int {
    match kind {
        CountKind::Reblogs => status.reblogs_count as int,
        CountKind::Favourites => status.favourites_count as int,
        CountKind::Replies => status.replies_count as int,
    }
}

/// The counters with those of one status row set.
pub open spec fn with_counts_of(counts: Map<(Id, CountKind), int>, status: Status) -> Map<
    (Id, CountKind),
    int,
> {
    counts.insert(
        (status.id, CountKind::Reblogs),
        count_of(status, CountKind::Reblogs),
    ).insert(
        (status.id, CountKind::Favourites),
        count_of(status, CountKind::Favourites),
    ).insert((status.id, CountKind::Replies), count_of(status, CountKind::Replies))
}

/// The counters without those of one status row.
pub open spec fn without_counts_of(counts: Map<(Id, CountKind), int>, id: Id) -> Map<
    (Id, CountKind),
    int,
> {
    counts.remove((id, CountKind::Reblogs)).remove((id, CountKind::Favourites)).remove(
        (id, CountKind::Replies),
    )
}

/// The store after one change. Tags, mentions, attachments and poll rows are
/// none of its rows.
pub open spec fn after(store: Store, effect: Effect) -> Store {
    match effect {
        Effect::InsertStatus(status) => Store {
            statuses: store.statuses.insert(status.id, status),
            counts: with_counts_of(store.counts, status),
            ..store
        },
        Effect::DeleteStatus(id) => Store {
            statuses: store.statuses.remove(id),
            counts: without_counts_of(store.counts, id),
            ..store
        },
        Effect::AdjustCounts { status_id, kind, delta } => if store.statuses.dom().contains(
            status_id,
        ) {
            Store {
                counts: store.counts.insert(
                    (status_id, kind),
                    store.counts[(status_id, kind)] + delta,
                ),
                ..store
            }
        } else {
            store
        },
        Effect::ApplyEdit { row_id, edit, at } => if store.statuses.dom().contains(edit.status_id) {
            Store {
                statuses: store.statuses.insert(
                    edit.status_id,
                    Status {
                        content: edit.content,
                        spoiler_text: edit.spoiler_text,
                        sensitive: edit.sensitive,
                        edited_at: Some(at),
                        ..store.statuses[edit.status_id]
                    },
                ),
                ..store
            }
        } else {
            store
        },
        Effect::AddBookmark { id, actor_id, status_id, at } => Store {
            bookmarks: store.bookmarks.insert((actor_id, status_id)),
            ..store
        },
        Effect::RemoveBookmark { actor_id, status_id } => Store {
            bookmarks: store.bookmarks.remove((actor_id, status_id)),
            ..store
        },
        Effect::SetPin { actor_id, status_id, pinned, at } => Store {
            pins: if pinned {
                store.pins.insert((actor_id, status_id))
            } else {
                store.pins.remove((actor_id, status_id))
            },
            ..store
        },
        Effect::Emit(event) => Store { events: store.events.push(event), ..store },
        _ => store,
    }
}

/// The store after a row of changes, in order.
pub open spec fn after_all(store: Store, effects: Seq<Effect>) -> Store
    decreases effects.len(),
{
    if effects.len() == 0 {
        store
    } else {
        after(after_all(store, effects.drop_last()), effects.last())
    }
}

/// Recording a favourite: the row, and whether it is new.
pub open spec fn favourite_added(store: Store, actor_id: Id, status_id: Id) -> (Store, bool) {
    (
        Store { favourites: store.favourites.insert((actor_id, status_id)), ..store },
        !store.favourites.contains((actor_id, status_id)),
    )
}

/// Deleting a favourite: the row goes, and whether there was one.
pub open spec fn favourite_removed(store: Store, actor_id: Id, status_id: Id) -> (Store, bool) {
    (
        Store { favourites: store.favourites.remove((actor_id, status_id)), ..store },
        store.favourites.contains((actor_id, status_id)),
    )
}

/// The boosts of a status.
pub open spec fn boosts_of(store: Store, target: Id) -> Set<Id> {
    Set::new(
        |id: Id|
            store.statuses.dom().contains(id) && store.statuses[id].reblog_of_id == Some(target),
    )
}

/// The replies to a status.
pub open spec fn replies_to(store: Store, target: Id) -> Set<Id> {
    Set::new(
        |id: Id|
            store.statuses.dom().contains(id) && store.statuses[id].in_reply_to_id == Some(target),
    )
}

/// The actors who favourited a status.
pub open spec fn fans_of(store: Store, target: Id) -> Set<Id> {
    Set::new(|actor: Id| store.favourites.contains((actor, target)))
}

/// Whether the counters of one status are the numbers of its rows.
pub open spec fn counters_agree_on(store: Store, id: Id) -> bool {
    &&& store.counts.dom().contains((id, CountKind::Reblogs))
    &&& store.counts.dom().contains((id, CountKind::Favourites))
    &&& store.counts.dom().contains((id, CountKind::Replies))
    &&& boosts_of(store, id).finite()
    &&& replies_to(store, id).finite()
    &&& fans_of(store, id).finite()
    &&& store.counts[(id, CountKind::Reblogs)] == boosts_of(store, id).len()
    &&& store.counts[(id, CountKind::Replies)] == replies_to(store, id).len()
    &&& store.counts[(id, CountKind::Favourites)] == fans_of(store, id).len()
}

/// Whether every status row is filed under its own id.
pub open spec fn filed_by_id(store: Store) -> bool {
    forall|id: Id| #[trigger]
        store.statuses.dom().contains(id) ==> store.statuses[id].id == id
}

/// Whether there are counters for stored rows only.
pub open spec fn counters_have_rows(store: Store) -> bool {
    forall|id: Id, kind: CountKind| #[trigger]
        store.counts.dom().contains((id, kind)) ==> store.statuses.dom().contains(id)
}

/// Whether every counter is the number of the rows that it counts.
pub open spec fn counters_agree(store: Store) -> bool {
    &&& filed_by_id(store)
    &&& counters_have_rows(store)
    &&& forall|id: Id| #[trigger]
        store.statuses.dom().contains(id) ==> counters_agree_on(store, id)
}

/// Whether an id is fresh: no row has it and no row points at it.
pub open spec fn is_unused(store: Store, id: Id) -> bool {
    &&& !store.statuses.dom().contains(id)
    &&& boosts_of(store, id) == Set::<Id>::empty()
    &&& replies_to(store, id) == Set::<Id>::empty()
    &&& fans_of(store, id) == Set::<Id>::empty()
}

/// Whether an actor has boosted a status.
pub open spec fn has_boosted(store: Store, actor_id: Id, target: Id) -> bool {
    exists|id: Id| #[trigger]
        boosts_of(store, target).contains(id) && store.statuses[id].actor_id == actor_id
}

/// Whether the rows of two stores are the same; their events may differ.
pub open spec fn same_rows(a: Store, b: Store) -> bool {
    &&& a.statuses == b.statuses
    &&& a.counts == b.counts
    &&& a.favourites == b.favourites
    &&& a.bookmarks == b.bookmarks
    &&& a.pins == b.pins
}

proof fn lemma_after_two(store: Store, effects: Seq<Effect>)
    requires
        effects.len() == 2,
    ensures
        after_all(store, effects) == after(after(store, effects[0]), effects[1]),
{
    reveal_with_fuel(after_all, 3);
    assert(effects.drop_last()[0] == effects[0]);
}

proof fn lemma_after_one(store: Store, effects: Seq<Effect>)
    requires
        effects.len() == 1,
    ensures
        after_all(store, effects) == after(store, effects[0]),
{
    reveal_with_fuel(after_all, 2);
}

proof fn lemma_after_all_splits(store: Store, first: Seq<Effect>, second: Seq<Effect>)
    ensures
        after_all(store, first + second) == after_all(after_all(store, first), second),
    decreases second.len(),
{
    if second.len() == 0 {
        assert(first + second =~= first);
    } else {
        lemma_after_all_splits(store, first, second.drop_last());
        assert((first + second).drop_last() =~= first + second.drop_last());
        assert((first + second).last() == second.last());
    }
}

/// Whether all changes are emitted events.
pub open spec fn only_emits(effects: Seq<Effect>) -> bool {
    forall|k: int| 0 <= k < effects.len() ==> #[trigger] effects[k] is Emit
}

proof fn lemma_emits_change_no_row(store: Store, effects: Seq<Effect>)
    requires
        only_emits(effects),
    ensures
        same_rows(after_all(store, effects), store),
        counters_agree(store) ==> counters_agree(after_all(store, effects)),
    decreases effects.len(),
{
    if effects.len() > 0 {
        let init = effects.drop_last();
        assert forall|k: int| 0 <= k < init.len() implies #[trigger] init[k] is Emit by {
            assert(init[k] == effects[k]);
        }
        lemma_emits_change_no_row(store, init);
        assert(effects[effects.len() - 1] is Emit);
    }
    lemma_same_rows_agree(store, after_all(store, effects));
}

proof fn lemma_same_rows_agree(a: Store, b: Store)
    requires
        same_rows(b, a),
    ensures
        counters_agree(a) ==> counters_agree(b),
        forall|id: Id| #[trigger] boosts_of(a, id) == boosts_of(b, id),
        forall|id: Id| #[trigger] replies_to(a, id) == replies_to(b, id),
        forall|id: Id| #[trigger] fans_of(a, id) == fans_of(b, id),
{
    assert forall|id: Id| #[trigger] boosts_of(a, id) == boosts_of(b, id) by {
        assert(boosts_of(a, id) =~= boosts_of(b, id));
    }
    assert forall|id: Id| #[trigger] replies_to(a, id) == replies_to(b, id) by {
        assert(replies_to(a, id) =~= replies_to(b, id));
    }
    assert forall|id: Id| #[trigger] fans_of(a, id) == fans_of(b, id) by {
        assert(fans_of(a, id) =~= fans_of(b, id));
    }
    if counters_agree(a) {
        assert forall|id: Id| #[trigger] b.statuses.dom().contains(id) implies counters_agree_on(
            b,
            id,
        ) by {
            assert(a.statuses.dom().contains(id));
            assert(counters_agree_on(a, id));
            assert(boosts_of(a, id) == boosts_of(b, id));
            assert(replies_to(a, id) == replies_to(b, id));
            assert(fans_of(a, id) == fans_of(b, id));
        }
        assert forall|id: Id| #[trigger] b.statuses.dom().contains(id) implies b.statuses[id].id
            == id by {
            assert(a.statuses.dom().contains(id));
        }
    }
}

/// Inserting a boost or a reply and counting it keeps the counters right.
proof fn lemma_counted_insert(store: Store, row: Status, target: Id, kind: CountKind)
    requires
        counters_agree(store),
        is_unused(store, row.id),
        store.statuses.dom().contains(target),
        row.reblogs_count == 0 && row.favourites_count == 0 && row.replies_count == 0,
        kind == CountKind::Reblogs ==> row.reblog_of_id == Some(target)
            && row.in_reply_to_id is None,
        kind == CountKind::Replies ==> row.in_reply_to_id == Some(target)
            && row.reblog_of_id is None,
        kind != CountKind::Favourites,
    ensures
        counters_agree(
            after(
                after(store, Effect::InsertStatus(row)),
                Effect::AdjustCounts { status_id: target, kind, delta: 1 },
            ),
        ),
{
    let mid = after(store, Effect::InsertStatus(row));
    let done = after(mid, Effect::AdjustCounts { status_id: target, kind, delta: 1 });
    assert(row.id != target);
    assert(counters_agree_on(store, target));
    assert forall|id: Id| #[trigger] boosts_of(done, id) == (if row.reblog_of_id == Some(id) {
        boosts_of(store, id).insert(row.id)
    } else {
        boosts_of(store, id)
    }) by {
        assert(boosts_of(done, id) =~= (if row.reblog_of_id == Some(id) {
            boosts_of(store, id).insert(row.id)
        } else {
            boosts_of(store, id)
        }));
    }
    assert forall|id: Id| #[trigger] replies_to(done, id) == (if row.in_reply_to_id == Some(id) {
        replies_to(store, id).insert(row.id)
    } else {
        replies_to(store, id)
    }) by {
        assert(replies_to(done, id) =~= (if row.in_reply_to_id == Some(id) {
            replies_to(store, id).insert(row.id)
        } else {
            replies_to(store, id)
        }));
    }
    assert forall|id: Id| #[trigger] fans_of(done, id) == fans_of(store, id) by {
        assert(fans_of(done, id) =~= fans_of(store, id));
    }
    assert forall|id: Id| #[trigger] done.statuses.dom().contains(id) implies counters_agree_on(
        done,
        id,
    ) by {
        assert(boosts_of(done, id) == (if row.reblog_of_id == Some(id) {
            boosts_of(store, id).insert(row.id)
        } else {
            boosts_of(store, id)
        }));
        assert(replies_to(done, id) == (if row.in_reply_to_id == Some(id) {
            replies_to(store, id).insert(row.id)
        } else {
            replies_to(store, id)
        }));
        assert(fans_of(done, id) == fans_of(store, id));
        assert(!boosts_of(store, id).contains(row.id));
        assert(!replies_to(store, id).contains(row.id));
        if id != row.id {
            assert(store.statuses.dom().contains(id));
            assert(counters_agree_on(store, id));
        }
    }
    assert forall|id: Id| #[trigger] done.statuses.dom().contains(id) implies done.statuses[id].id
        == id by {
        if id != row.id {
            assert(store.statuses.dom().contains(id));
        }
    }
}

/// An inbound `Announce` keeps every counter equal to the number of its
/// rows, and leaves the actor's boost behind.
pub proof fn law_announce_keeps_counters(
    store: Store,
    effects: Seq<Effect>,
    activity_id: Seq<char>,
    target: Status,
    actor_id: Id,
    fresh: Fresh,
)
    requires
        counters_agree(store),
        store.statuses.dom().contains(target.id),
        is_unused(store, fresh.id),
        announce_effects(effects, activity_id, target, actor_id, fresh),
    ensures
        counters_agree(after_all(store, effects)),
        has_boosted(after_all(store, effects), actor_id, target.id),
        after_all(store, effects).counts[(target.id, CountKind::Reblogs)] == store.counts[(
            target.id,
            CountKind::Reblogs,
        )] + 1,
{
    let rows = effects.take(2);
    let events = effects.skip(2);
    let boost = effects[0]->InsertStatus_0;
    assert(rows + events =~= effects);
    lemma_after_all_splits(store, rows, events);
    lemma_after_two(store, rows);
    lemma_counted_insert(store, boost, target.id, CountKind::Reblogs);
    let mid = after_all(store, rows);
    assert(only_emits(events));
    lemma_emits_change_no_row(mid, events);
    let done = after_all(store, effects);
    assert(boosts_of(done, target.id).contains(boost.id));
}

/// A local boost keeps every counter equal to the number of its rows, and
/// leaves the actor's boost behind.
pub proof fn law_reblog_keeps_counters(
    store: Store,
    reblog: Status,
    target: Status,
    actor_id: Id,
    uri: Seq<char>,
    fresh: Fresh,
)
    requires
        counters_agree(store),
        store.statuses.dom().contains(target.id),
        is_unused(store, fresh.id),
        is_boost(reblog, fresh, actor_id, uri, Some(uri), target, true),
    ensures
        counters_agree(after_all(store, reblog_effects(reblog, target.id))),
        has_boosted(after_all(store, reblog_effects(reblog, target.id)), actor_id, target.id),
        after_all(store, reblog_effects(reblog, target.id)).counts[(
            target.id,
            CountKind::Reblogs,
        )] == store.counts[(target.id, CountKind::Reblogs)] + 1,
{
    let effects = reblog_effects(reblog, target.id);
    lemma_after_two(store, effects);
    lemma_counted_insert(store, reblog, target.id, CountKind::Reblogs);
    assert(boosts_of(after_all(store, effects), target.id).contains(reblog.id));
}

/// Taking a boost back keeps every counter equal to the number of its rows.
pub proof fn law_undo_announce_keeps_counters(store: Store, target: Id, boost: Status)
    requires
        counters_agree(store),
        store.statuses.dom().contains(target),
        boosts_of(store, target).contains(boost.id),
        boost == store.statuses[boost.id],
        boost.in_reply_to_id is None,
        boost.id != target,
    ensures
        counters_agree(after_all(store, undo_announce_effects(target, Some(boost)))),
        after_all(store, undo_announce_effects(target, Some(boost))).counts[(
            target,
            CountKind::Reblogs,
        )] == store.counts[(target, CountKind::Reblogs)] - 1,
{
    let effects = undo_announce_effects(target, Some(boost));
    lemma_after_two(store, effects);
    let done = after_all(store, effects);
    assert(counters_agree_on(store, target));
    assert forall|id: Id| #[trigger] boosts_of(done, id) == (if id == target {
        boosts_of(store, id).remove(boost.id)
    } else {
        boosts_of(store, id)
    }) by {
        assert(boosts_of(done, id) =~= (if id == target {
            boosts_of(store, id).remove(boost.id)
        } else {
            boosts_of(store, id)
        }));
    }
    assert forall|id: Id| #[trigger] replies_to(done, id) == replies_to(store, id) by {
        assert(replies_to(done, id) =~= replies_to(store, id));
    }
    assert forall|id: Id| #[trigger] fans_of(done, id) == fans_of(store, id) by {
        assert(fans_of(done, id) =~= fans_of(store, id));
    }
    assert forall|id: Id| #[trigger] done.statuses.dom().contains(id) implies counters_agree_on(
        done,
        id,
    ) by {
        assert(store.statuses.dom().contains(id));
        assert(counters_agree_on(store, id));
        assert(boosts_of(done, id) == (if id == target {
            boosts_of(store, id).remove(boost.id)
        } else {
            boosts_of(store, id)
        }));
        assert(replies_to(done, id) == replies_to(store, id));
        assert(fans_of(done, id) == fans_of(store, id));
    }
    assert forall|id: Id| #[trigger] done.statuses.dom().contains(id) implies done.statuses[id].id
        == id by {
        assert(store.statuses.dom().contains(id));
    }
}

proof fn lemma_favourites_only(a: Store, b: Store, target: Id)
    requires
        counters_agree(a),
        a.statuses.dom().contains(target),
        b.statuses == a.statuses,
        b.counts.dom() =~= a.counts.dom(),
        forall|id: Id, kind: CountKind|
            id != target || kind != CountKind::Favourites ==> #[trigger] b.counts[(id, kind)]
                == a.counts[(id, kind)],
        forall|id: Id| id != target ==> #[trigger] fans_of(b, id) == fans_of(a, id),
        fans_of(b, target).finite(),
        b.counts[(target, CountKind::Favourites)] == fans_of(b, target).len(),
    ensures
        counters_agree(b),
{
    assert forall|id: Id| #[trigger] b.statuses.dom().contains(id) implies counters_agree_on(
        b,
        id,
    ) by {
        assert(a.statuses.dom().contains(id));
        assert(counters_agree_on(a, id));
        assert(boosts_of(b, id) =~= boosts_of(a, id));
        assert(replies_to(b, id) =~= replies_to(a, id));
        if id != target {
            assert(fans_of(b, id) == fans_of(a, id));
        }
    }
    assert forall|id: Id| #[trigger] b.statuses.dom().contains(id) implies b.statuses[id].id
        == id by {
        assert(a.statuses.dom().contains(id));
    }
}

/// The store after a favourite is recorded and, where it is new, the given
/// changes are made.
pub open spec fn after_favourite(
    store: Store,
    actor_id: Id,
    target: Id,
    effects: Seq<Effect>,
) -> Store {
    let (recorded, is_new) = favourite_added(store, actor_id, target);
    if is_new {
        after_all(recorded, effects)
    } else {
        recorded
    }
}

/// The changes of a new favourite, from here or from afar, besides its row.
pub open spec fn favourite_effects(
    effects: Seq<Effect>,
    actor_id: Id,
    target: Status,
    now: Timestamp,
) -> bool {
    ||| effects == like_effects(target, actor_id, now)
    ||| effects == seq![
        Effect::AdjustCounts { status_id: target.id, kind: CountKind::Favourites, delta: 1 },
    ]
}

proof fn lemma_counted_favourite(
    store: Store,
    effects: Seq<Effect>,
    actor_id: Id,
    target: Status,
    now: Timestamp,
)
    requires
        favourite_effects(effects, actor_id, target, now),
    ensures
        same_rows(
            after_all(store, effects),
            after(
                store,
                Effect::AdjustCounts {
                    status_id: target.id,
                    kind: CountKind::Favourites,
                    delta: 1,
                },
            ),
        ),
{
    let counted = effects.take(1);
    let events = effects.skip(1);
    assert(counted + events =~= effects);
    assert(only_emits(events)) by {
        if effects == like_effects(target, actor_id, now) {
            assert(events =~= interaction_events(
                NotificationType::Favourite,
                actor_id,
                target,
                now,
            ));
        }
    }
    lemma_after_all_splits(store, counted, events);
    lemma_after_one(store, counted);
    lemma_emits_change_no_row(after_all(store, counted), events);
}

/// Favouriting, from here or from afar, keeps every counter equal to the
/// number of its rows. Favouriting again changes nothing.
pub proof fn law_favourite_keeps_counters(
    store: Store,
    effects: Seq<Effect>,
    actor_id: Id,
    target: Status,
    now: Timestamp,
)
    requires
        counters_agree(store),
        store.statuses.dom().contains(target.id),
        favourite_effects(effects, actor_id, target, now),
    ensures
        counters_agree(after_favourite(store, actor_id, target.id, effects)),
        after_favourite(store, actor_id, target.id, effects).favourites.contains(
            (actor_id, target.id),
        ),
        store.favourites.contains((actor_id, target.id)) ==> after_favourite(
            store,
            actor_id,
            target.id,
            effects,
        ) == store,
{
    let (recorded, is_new) = favourite_added(store, actor_id, target.id);
    let done = after_favourite(store, actor_id, target.id, effects);
    assert(counters_agree_on(store, target.id));
    if is_new {
        lemma_counted_favourite(recorded, effects, actor_id, target, now);
        let count = Effect::AdjustCounts {
            status_id: target.id,
            kind: CountKind::Favourites,
            delta: 1,
        };
        let mid = after(recorded, count);
        assert(fans_of(mid, target.id) =~= fans_of(store, target.id).insert(actor_id));
        assert(!fans_of(store, target.id).contains(actor_id));
        assert forall|id: Id| id != target.id implies #[trigger] fans_of(mid, id) == fans_of(
            store,
            id,
        ) by {
            assert(fans_of(mid, id) =~= fans_of(store, id));
        }
        assert(mid.counts.dom() =~= store.counts.dom());
        lemma_favourites_only(store, mid, target.id);
        lemma_same_rows_agree(mid, done);
    } else {
        assert(recorded.favourites =~= store.favourites);
        assert(done == store);
    }
}

/// The store after a favourite is deleted and, where there was one, the
/// counter is adjusted.
pub open spec fn after_unfavourite(store: Store, actor_id: Id, target: Id) -> Store {
    let (deleted, removed) = favourite_removed(store, actor_id, target);
    after_all(deleted, undo_like_effects(target, removed))
}

/// Taking a favourite back, from here or from afar, keeps every counter
/// equal to the number of its rows. Without a favourite nothing changes.
pub proof fn law_unfavourite_keeps_counters(store: Store, actor_id: Id, target: Id)
    requires
        counters_agree(store),
        store.statuses.dom().contains(target),
    ensures
        counters_agree(after_unfavourite(store, actor_id, target)),
        !after_unfavourite(store, actor_id, target).favourites.contains((actor_id, target)),
        !store.favourites.contains((actor_id, target)) ==> after_unfavourite(
            store,
            actor_id,
            target,
        ) == store,
{
    let (deleted, removed) = favourite_removed(store, actor_id, target);
    let effects = undo_like_effects(target, removed);
    let done = after_unfavourite(store, actor_id, target);
    assert(counters_agree_on(store, target));
    if removed {
        lemma_after_one(deleted, effects);
        assert(fans_of(done, target) =~= fans_of(store, target).remove(actor_id));
        assert(fans_of(store, target).contains(actor_id));
        assert forall|id: Id| id != target implies #[trigger] fans_of(done, id) == fans_of(
            store,
            id,
        ) by {
            assert(fans_of(done, id) =~= fans_of(store, id));
        }
        assert(done.counts.dom() =~= store.counts.dom());
        lemma_favourites_only(store, done, target);
    } else {
        assert(deleted.favourites =~= store.favourites);
        assert(done == store);
    }
}

/// Taking a first favourite back leaves the rows as they were before it.
pub proof fn law_undo_like_undoes_like(
    store: Store,
    effects: Seq<Effect>,
    actor_id: Id,
    target: Status,
    now: Timestamp,
)
    requires
        store.statuses.dom().contains(target.id),
        store.counts.dom().contains((target.id, CountKind::Favourites)),
        !store.favourites.contains((actor_id, target.id)),
        favourite_effects(effects, actor_id, target, now),
    ensures
        same_rows(
            after_unfavourite(
                after_favourite(store, actor_id, target.id, effects),
                actor_id,
                target.id,
            ),
            store,
        ),
{
    let (recorded, _) = favourite_added(store, actor_id, target.id);
    lemma_counted_favourite(recorded, effects, actor_id, target, now);
    let liked = after_favourite(store, actor_id, target.id, effects);
    let (deleted, removed) = favourite_removed(liked, actor_id, target.id);
    assert(removed);
    lemma_after_one(deleted, undo_like_effects(target.id, true));
    let done = after_unfavourite(liked, actor_id, target.id);
    assert(done.favourites =~= store.favourites);
    assert(done.counts =~= store.counts);
}

/// Taking a first boost back leaves the rows as they were before it.
pub proof fn law_undo_announce_undoes_announce(
    store: Store,
    effects: Seq<Effect>,
    activity_id: Seq<char>,
    target: Status,
    actor_id: Id,
    fresh: Fresh,
)
    requires
        counters_agree(store),
        store.statuses.dom().contains(target.id),
        is_unused(store, fresh.id),
        announce_effects(effects, activity_id, target, actor_id, fresh),
    ensures
        effects[0] matches Effect::InsertStatus(boost) && same_rows(
            after_all(
                after_all(store, effects),
                undo_announce_effects(target.id, Some(boost)),
            ),
            store,
        ),
{
    let rows = effects.take(2);
    let events = effects.skip(2);
    let boost = effects[0]->InsertStatus_0;
    assert(rows + events =~= effects);
    lemma_after_all_splits(store, rows, events);
    lemma_after_two(store, rows);
    let mid = after_all(store, rows);
    assert(only_emits(events));
    lemma_emits_change_no_row(mid, events);
    let boosted = after_all(store, effects);
    let undo = undo_announce_effects(target.id, Some(boost));
    lemma_after_two(boosted, undo);
    let done = after_all(boosted, undo);
    assert(counters_agree_on(store, target.id));
    assert(done.statuses =~= store.statuses);
    assert(done.counts =~= store.counts);
}

/// Taking a remote reply in keeps every counter equal to the number of its
/// rows.
pub proof fn law_ingest_keeps_counters(store: Store, status: Status)
    requires
        counters_agree(store),
        is_unused(store, status.id),
        status.reblog_of_id is None,
        status.reblogs_count == 0 && status.favourites_count == 0 && status.replies_count == 0,
        status.in_reply_to_id matches Some(parent) ==> store.statuses.dom().contains(parent),
    ensures
        counters_agree(
            after_all(store, seq![Effect::InsertStatus(status)] + reply_effects(status)),
        ),
{
    let effects = seq![Effect::InsertStatus(status)] + reply_effects(status);
    match status.in_reply_to_id {
        Some(parent) => {
            lemma_after_two(store, effects);
            lemma_counted_insert(store, status, parent, CountKind::Replies);
        },
        None => {
            lemma_after_one(store, effects);
            let done = after(store, Effect::InsertStatus(status));
            assert forall|id: Id| #[trigger]
                done.statuses.dom().contains(id) implies counters_agree_on(done, id) by {
                assert(boosts_of(done, id) =~= boosts_of(store, id));
                assert(replies_to(done, id) =~= replies_to(store, id));
                assert(fans_of(done, id) =~= fans_of(store, id));
                if id != status.id {
                    assert(store.statuses.dom().contains(id));
                    assert(counters_agree_on(store, id));
                }
            }
            assert forall|id: Id| #[trigger]
                done.statuses.dom().contains(id) implies done.statuses[id].id == id by {
                if id != status.id {
                    assert(store.statuses.dom().contains(id));
                }
            }
        },
    }
}

/// Whether a status with the given URI is stored.
pub open spec fn knows_uri(store: Store, uri: Seq<char>) -> bool {
    exists|id: Id| #[trigger] store.statuses.dom().contains(id) && store.statuses[id].uri@ == uri
}

/// Once a remote `Note` was taken in, a status with its URI is stored, so
/// that the `Note` is known when it comes again.
pub proof fn law_taken_in_notes_are_known(
    store: Store,
    status: Status,
    note: Map<Seq<char>, JsonModel>,
    uri: Seq<char>,
    author: Id,
    parent: Option<Status>,
    fresh: Fresh,
)
    requires
        is_ingested(status, note, uri, author, parent, fresh),
    ensures
        knows_uri(
            after_all(store, seq![Effect::InsertStatus(status)] + reply_effects(status)),
            uri,
        ),
{
    let effects = seq![Effect::InsertStatus(status)] + reply_effects(status);
    if status.in_reply_to_id is Some {
        lemma_after_two(store, effects);
    } else {
        lemma_after_one(store, effects);
    }
    assert(after_all(store, effects).statuses.dom().contains(status.id));
}

/// Bookmarks and pins change no status, no counter and no favourite, and
/// emit nothing.
pub proof fn law_bookmarks_and_pins_stay_private(store: Store, effect: Effect)
    requires
        effect is AddBookmark || effect is RemoveBookmark || effect is SetPin,
    ensures
        after(store, effect).statuses == store.statuses,
        after(store, effect).counts == store.counts,
        after(store, effect).favourites == store.favourites,
        after(store, effect).events == store.events,
{
}

/// Setting and taking back a bookmark twice is the same as doing it once,
/// and taking one back undoes setting it.
pub proof fn law_bookmarks_are_idempotent(
    store: Store,
    id: Id,
    later_id: Id,
    actor_id: Id,
    status_id: Id,
    at: Timestamp,
    later: Timestamp,
)
    ensures
        ({
            let set = after(store, Effect::AddBookmark { id, actor_id, status_id, at });
            let again = after(
                set,
                Effect::AddBookmark { id: later_id, actor_id, status_id, at: later },
            );
            let gone = after(set, Effect::RemoveBookmark { actor_id, status_id });
            &&& again == set
            &&& after(gone, Effect::RemoveBookmark { actor_id, status_id }) == gone
            &&& !store.bookmarks.contains((actor_id, status_id)) ==> gone == store
        }),
{
    let set = after(store, Effect::AddBookmark { id, actor_id, status_id, at });
    let again = after(set, Effect::AddBookmark { id: later_id, actor_id, status_id, at: later });
    let gone = after(set, Effect::RemoveBookmark { actor_id, status_id });
    assert(again.bookmarks =~= set.bookmarks);
    assert(after(gone, Effect::RemoveBookmark { actor_id, status_id }).bookmarks
        =~= gone.bookmarks);
    if !store.bookmarks.contains((actor_id, status_id)) {
        assert(gone.bookmarks =~= store.bookmarks);
    }
}

/// A remote actor's `Delete` or `Update` of a remote status leaves every
/// local status, and every status of another actor, as it was.
pub proof fn law_remote_writes_spare_others(
    store: Store,
    target: Status,
    effect: Effect,
    bystander: Id,
)
    requires
        filed_by_id(store),
        store.statuses.dom().contains(target.id),
        store.statuses[target.id] == target,
        !target.local,
        effect == Effect::DeleteStatus(target.id) || (effect matches Effect::ApplyEdit {
            row_id,
            edit,
            at,
        } && edit.status_id == target.id),
        store.statuses.dom().contains(bystander),
        store.statuses[bystander].local || store.statuses[bystander].actor_id != target.actor_id,
    ensures
        after(store, effect).statuses.dom().contains(bystander),
        after(store, effect).statuses[bystander] == store.statuses[bystander],
        after(store, effect).favourites == store.favourites,
        after(store, effect).events == store.events,
{
}

/// Nobody is told of their own interaction, and of another's the author is
/// told once.
pub proof fn law_one_event_per_interaction(
    kind: NotificationType,
    actor_id: Id,
    target: Status,
    now: Timestamp,
)
    ensures
        interaction_events(kind, actor_id, target, now).len() == (if actor_id == target.actor_id {
            0nat
        } else {
            1nat
        }),
        only_emits(interaction_events(kind, actor_id, target, now)),
{
}

/// A remote interaction is told of as the same local one is, but for where
/// it came from.
pub proof fn law_remote_and_local_events_agree(
    kind: NotificationType,
    actor_id: Id,
    target: Status,
    now: Timestamp,
)
    ensures
        ({
            let told = local_notification(
                AccountRef::Local(target.actor_id),
                kind,
                actor_id,
                target,
                now,
            );
            match told {
                Some(event) => interaction_events(kind, actor_id, target, now) == seq![
                    Effect::Emit(
                        NotificationEvent { origin: AccountRef::Remote(actor_id), ..event },
                    ),
                ],
                None => interaction_events(kind, actor_id, target, now).len() == 0,
            }
        }),
{
}

/// Taking an interaction back tells nobody.
pub proof fn law_revoking_tells_nobody(target: Id, existing: Option<Status>, removed: bool)
    ensures
        forall|k: int|
            0 <= k < undo_announce_effects(target, existing).len() ==> !(
            #[trigger] undo_announce_effects(target, existing)[k] is Emit),
        forall|k: int|
            0 <= k < undo_like_effects(target, removed).len() ==> !(#[trigger] undo_like_effects(
                target,
                removed,
            )[k] is Emit),
{
}

/// Of the mentioned actors each is told once per mention, and the author
/// never.
pub proof fn law_authors_are_not_told_of_their_mentions(
    author: Id,
    status_id: Id,
    mentioned: Seq<Id>,
    now: Timestamp,
)
    ensures
        only_emits(mention_events(author, status_id, mentioned, now)),
        mention_events(author, status_id, mentioned, now).len() == mentioned.filter(
            |id: Id| id != author,
        ).len(),
        forall|k: int|
            0 <= k < mention_events(author, status_id, mentioned, now).len()
                ==> (#[trigger] mention_events(author, status_id, mentioned, now)[k]
                matches Effect::Emit(event) && event.recipient != AccountRef::Local(
                author,
            )),
    decreases mentioned.len(),
{
    reveal(Seq::filter);
    if mentioned.len() > 0 {
        law_authors_are_not_told_of_their_mentions(author, status_id, mentioned.drop_last(), now);
    }
}

/// Deleting a status that is neither a boost nor a reply keeps every counter
/// equal to the number of its rows.
pub proof fn law_delete_keeps_counters(store: Store, target: Status)
    requires
        counters_agree(store),
        store.statuses.dom().contains(target.id),
        store.statuses[target.id] == target,
        target.reblog_of_id is None,
        target.in_reply_to_id is None,
    ensures
        counters_agree(after(store, Effect::DeleteStatus(target.id))),
{
    let done = after(store, Effect::DeleteStatus(target.id));
    assert forall|id: Id| #[trigger] done.statuses.dom().contains(id) implies counters_agree_on(
        done,
        id,
    ) by {
        assert(store.statuses.dom().contains(id));
        assert(counters_agree_on(store, id));
        assert(boosts_of(done, id) =~= boosts_of(store, id));
        assert(replies_to(done, id) =~= replies_to(store, id));
        assert(fans_of(done, id) =~= fans_of(store, id));
    }
    assert forall|id: Id| #[trigger] done.statuses.dom().contains(id) implies done.statuses[id].id
        == id by {
        assert(store.statuses.dom().contains(id));
    }
}

/// Editing a status keeps every counter equal to the number of its rows.
pub proof fn law_edit_keeps_counters(store: Store, row_id: Id, edit: StatusEdit, at: Timestamp)
    requires
        counters_agree(store),
    ensures
        counters_agree(after(store, Effect::ApplyEdit { row_id, edit, at })),
{
    let done = after(store, Effect::ApplyEdit { row_id, edit, at });
    assert forall|id: Id| #[trigger] done.statuses.dom().contains(id) implies counters_agree_on(
        done,
        id,
    ) by {
        assert(store.statuses.dom().contains(id));
        assert(counters_agree_on(store, id));
        assert(boosts_of(done, id) =~= boosts_of(store, id));
        assert(replies_to(done, id) =~= replies_to(store, id));
        assert(fans_of(done, id) =~= fans_of(store, id));
    }
    assert forall|id: Id| #[trigger] done.statuses.dom().contains(id) implies done.statuses[id].id
        == id by {
        assert(store.statuses.dom().contains(id));
    }
}

/// Something that happens to the store, as the handlers and services bring
/// it about.
pub enum Happening {
    /// A remote actor boosts a status for the first time.
    Announce { effects: Seq<Effect>, activity_id: Seq<char>, target: Status, actor_id: Id, fresh: Fresh },
    /// A local actor boosts a status for the first time.
    Reblog { reblog: Status, target: Status, actor_id: Id, uri: Seq<char>, fresh: Fresh },
    /// A boost is taken back.
    Unreblog { target: Id, boost: Status },
    /// A status is favourited, from here or from afar.
    Favourite { effects: Seq<Effect>, actor_id: Id, target: Status, now: Timestamp },
    /// A favourite is taken back, where there is one.
    Unfavourite { actor_id: Id, target: Id },
    /// A remote status is taken in.
    Ingest { status: Status },
    /// A status that is neither a boost nor a reply is deleted.
    Delete { target: Status },
    /// A status is edited.
    Edit { row_id: Id, edit: StatusEdit, at: Timestamp },
    /// A bookmark or a pin is set or taken back.
    Keep { effect: Effect },
}

/// Whether something can happen to the store.
pub open spec fn can_happen(store: Store, happening: Happening) -> bool {
    match happening {
        Happening::Announce { effects, activity_id, target, actor_id, fresh } => {
            &&& store.statuses.dom().contains(target.id)
            &&& is_unused(store, fresh.id)
            &&& announce_effects(effects, activity_id, target, actor_id, fresh)
        },
        Happening::Reblog { reblog, target, actor_id, uri, fresh } => {
            &&& store.statuses.dom().contains(target.id)
            &&& is_unused(store, fresh.id)
            &&& is_boost(reblog, fresh, actor_id, uri, Some(uri), target, true)
        },
        Happening::Unreblog { target, boost } => {
            &&& store.statuses.dom().contains(target)
            &&& boosts_of(store, target).contains(boost.id)
            &&& boost == store.statuses[boost.id]
            &&& boost.in_reply_to_id is None
            &&& boost.id != target
        },
        Happening::Favourite { effects, actor_id, target, now } => {
            &&& store.statuses.dom().contains(target.id)
            &&& favourite_effects(effects, actor_id, target, now)
        },
        Happening::Unfavourite { actor_id, target } => store.statuses.dom().contains(target),
        Happening::Ingest { status } => {
            &&& is_unused(store, status.id)
            &&& status.reblog_of_id is None
            &&& status.reblogs_count == 0 && status.favourites_count == 0 && status.replies_count
                == 0
            &&& status.in_reply_to_id matches Some(parent) ==> store.statuses.dom().contains(parent)
        },
        Happening::Delete { target } => {
            &&& store.statuses.dom().contains(target.id)
            &&& store.statuses[target.id] == target
            &&& target.reblog_of_id is None
            &&& target.in_reply_to_id is None
        },
        Happening::Edit { row_id, edit, at } => true,
        Happening::Keep { effect } => effect is AddBookmark || effect is RemoveBookmark
            || effect is SetPin,
    }
}

/// The store after something happened to it.
pub open spec fn happened(store: Store, happening: Happening) -> Store {
    match happening {
        Happening::Announce { effects, .. } => after_all(store, effects),
        Happening::Reblog { reblog, target, .. } => after_all(
            store,
            reblog_effects(reblog, target.id),
        ),
        Happening::Unreblog { target, boost } => after_all(
            store,
            undo_announce_effects(target, Some(boost)),
        ),
        Happening::Favourite { effects, actor_id, target, .. } => after_favourite(
            store,
            actor_id,
            target.id,
            effects,
        ),
        Happening::Unfavourite { actor_id, target } => after_unfavourite(store, actor_id, target),
        Happening::Ingest { status } => after_all(
            store,
            seq![Effect::InsertStatus(status)] + reply_effects(status),
        ),
        Happening::Delete { target } => after(store, Effect::DeleteStatus(target.id)),
        Happening::Edit { row_id, edit, at } => after(
            store,
            Effect::ApplyEdit { row_id, edit, at },
        ),
        Happening::Keep { effect } => after(store, effect),
    }
}

/// Whether a row of things can happen one after the other.
pub open spec fn can_all_happen(store: Store, history: Seq<Happening>) -> bool
    decreases history.len(),
{
    history.len() == 0 || (can_all_happen(store, history.drop_last()) && can_happen(
        all_happened(store, history.drop_last()),
        history.last(),
    ))
}

/// The store after a row of things happened to it.
pub open spec fn all_happened(store: Store, history: Seq<Happening>) -> Store
    decreases history.len(),
{
    if history.len() == 0 {
        store
    } else {
        happened(all_happened(store, history.drop_last()), history.last())
    }
}

/// Whichever of the listed things happen, and in whatever order: every counter
/// stays equal to the number of the rows that it counts. The deletion of a
/// boost or of a reply is not among them: it leaves the counter of the status
/// that was boosted or replied to as it was.
pub proof fn law_counters_always_agree(store: Store, history: Seq<Happening>)
    requires
        counters_agree(store),
        can_all_happen(store, history),
    ensures
        counters_agree(all_happened(store, history)),
    decreases history.len(),
{
    if history.len() > 0 {
        law_counters_always_agree(store, history.drop_last());
        let before = all_happened(store, history.drop_last());
        match history.last() {
            Happening::Announce { effects, activity_id, target, actor_id, fresh } => {
                law_announce_keeps_counters(
                    before,
                    effects,
                    activity_id,
                    target,
                    actor_id,
                    fresh,
                );
            },
            Happening::Reblog { reblog, target, actor_id, uri, fresh } => {
                law_reblog_keeps_counters(before, reblog, target, actor_id, uri, fresh);
            },
            Happening::Unreblog { target, boost } => {
                law_undo_announce_keeps_counters(before, target, boost);
            },
            Happening::Favourite { effects, actor_id, target, now } => {
                law_favourite_keeps_counters(before, effects, actor_id, target, now);
            },
            Happening::Unfavourite { actor_id, target } => {
                law_unfavourite_keeps_counters(before, actor_id, target);
            },
            Happening::Ingest { status } => {
                law_ingest_keeps_counters(before, status);
            },
            Happening::Delete { target } => {
                law_delete_keeps_counters(before, target);
            },
            Happening::Edit { row_id, edit, at } => {
                law_edit_keeps_counters(before, row_id, edit, at);
            },
            Happening::Keep { effect } => {
                law_bookmarks_and_pins_stay_private(before, effect);
                let done = after(before, effect);
                assert forall|id: Id| #[trigger]
                    done.statuses.dom().contains(id) implies counters_agree_on(done, id) by {
                    assert(counters_agree_on(before, id));
                    assert(boosts_of(done, id) =~= boosts_of(before, id));
                    assert(replies_to(done, id) =~= replies_to(before, id));
                    assert(fans_of(done, id) =~= fans_of(before, id));
                }
                assert(filed_by_id(done)) by {
                    assert(filed_by_id(before));
                }
            },
        }
    }
}

} // verus!
