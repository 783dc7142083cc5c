//! The tables of favourites, pins and bookmarks: at most one row for each
//! actor and status.

use vstd::prelude::*;

use crate::clock::Timestamp;
use crate::domain::Id;
use crate::model::Status;

verus! {

/// A favourite or a pin of a status by an actor.
#[derive(Debug, Clone, Copy, PartialEq, Eq, Structural)]
pub struct InteractionRow {
    pub actor_id: Id,
    pub status_id: Id,
    pub created_at: Timestamp,
}

/// A bookmark of a status by an actor, with an id of its own.
#[derive(Debug, Clone, Copy, PartialEq, Eq, Structural)]
pub struct BookmarkRow {
    pub id: Id,
    pub actor_id: Id,
    pub status_id: Id,
    pub created_at: Timestamp,
}

/// Whether a row is that of the given actor and status.
pub open spec fn is_of(row: InteractionRow, actor_id: Id, status_id: Id) -> bool {
    row.actor_id == actor_id && row.status_id == status_id
}

/// Whether an actor holds an interaction with a status.
pub open spec fn holds(rows: Seq<InteractionRow>, actor_id: Id, status_id: Id) -> bool {
    exists|i: int| 0 <= i < rows.len() && is_of(#[trigger] rows[i], actor_id, status_id)
}

/// Whether no two rows are of the same actor and status.
pub open spec fn one_row_each(rows: Seq<InteractionRow>) -> bool {
    forall|i: int, j: int|
        0 <= i < j < rows.len() ==> !is_of(
            #[trigger] rows[i],
            (#[trigger] rows[j]).actor_id,
            rows[j].status_id,
        )
}

/// The rows with one inserted, unless the actor and status have one already.
pub open spec fn with_row(rows: Seq<InteractionRow>, row: InteractionRow) -> Seq<InteractionRow> {
    if holds(rows, row.actor_id, row.status_id) {
        rows
    } else {
        rows.push(row)
    }
}

/// The rows without those of the given actor and status.
pub open spec fn without_rows(rows: Seq<InteractionRow>, actor_id: Id, status_id: Id) -> Seq<
    InteractionRow,
> {
    rows.filter(|row: InteractionRow| !is_of(row, actor_id, status_id))
}

fn holds_row(rows: &[InteractionRow], actor_id: Id, status_id: Id) -> (r: bool)
    ensures
        r == holds(rows@, actor_id, status_id),
{
    let mut i: usize = 0;
    while i < rows.len()
        invariant
            i <= rows.len(),
            forall|j: int| 0 <= j < i ==> !is_of(#[trigger] rows@[j], actor_id, status_id),
        decreases rows.len() - i,
    {
        if rows[i].actor_id == actor_id && rows[i].status_id == status_id {
            assert(is_of(rows@[i as int], actor_id, status_id));
            return true;
        }
        i += 1;
    }
    false
}

/// Inserts a row unless there is one; whether it was inserted.
fn insert_row(rows: &mut Vec<InteractionRow>, row: InteractionRow) -> (r: bool)
    ensures
        final(rows)@ == with_row(old(rows)@, row),
        r == !holds(old(rows)@, row.actor_id, row.status_id),
{
    if holds_row(rows.as_slice(), row.actor_id, row.status_id) {
        return false;
    }
    rows.push(row);
    true
}

/// Deletes the rows of an actor and status; whether there was one.
fn delete_rows(rows: &mut Vec<InteractionRow>, actor_id: Id, status_id: Id) -> (r: bool)
    ensures
        final(rows)@ == without_rows(old(rows)@, actor_id, status_id),
        r == holds(old(rows)@, actor_id, status_id),
{
    let ghost before = rows@;
    let held: bool = holds_row(rows.as_slice(), actor_id, status_id);
    let mut kept: Vec<InteractionRow> = Vec::new();
    let mut i: usize = 0;
    proof {
        reveal(Seq::filter);
        assert(before.take(0) =~= Seq::<InteractionRow>::empty());
    }
    while i < rows.len()
        invariant
            rows@ == before,
            i <= rows.len(),
            kept@ == without_rows(before.take(i as int), actor_id, status_id),
        decreases rows.len() - i,
    {
        proof {
            reveal(Seq::filter);
            assert(before.take(i + 1).drop_last() =~= before.take(i as int));
        }
        let row: InteractionRow = rows[i];
        if row.actor_id != actor_id || row.status_id != status_id {
            kept.push(row);
        }
        i += 1;
    }
    assert(before.take(i as int) =~= before);
    *rows = kept;
    held
}

/// Records a favourite. Whether it is new; one that is known stays as it is.
pub fn add_favourite(
    favourites: &mut Vec<InteractionRow>,
    actor_id: Id,
    status_id: Id,
    now: Timestamp,
) -> (r: bool)
    ensures
        final(favourites)@ == with_row(
            old(favourites)@,
            (InteractionRow { actor_id, status_id, created_at: now }),
        ),
        r == !holds(old(favourites)@, actor_id, status_id),
{
    insert_row(favourites, InteractionRow { actor_id, status_id, created_at: now })
}

/// Deletes a favourite. Whether there was one.
pub fn remove_favourite(favourites: &mut Vec<InteractionRow>, actor_id: Id, status_id: Id) -> (r:
    bool)
    ensures
        final(favourites)@ == without_rows(old(favourites)@, actor_id, status_id),
        r == holds(old(favourites)@, actor_id, status_id),
{
    delete_rows(favourites, actor_id, status_id)
}

/// Whether an actor favourited a status.
pub fn exists_favourite(favourites: &[InteractionRow], actor_id: Id, status_id: Id) -> (r: bool)
    ensures
        r == holds(favourites@, actor_id, status_id),
{
    holds_row(favourites, actor_id, status_id)
}

/// Pins or unpins a status. Whether that changed anything.
pub fn set_pin(
    pins: &mut Vec<InteractionRow>,
    actor_id: Id,
    status_id: Id,
    pinned: bool,
    now: Timestamp,
) -> (r: bool)
    ensures
        final(pins)@ == (if pinned {
            with_row(old(pins)@, (InteractionRow { actor_id, status_id, created_at: now }))
        } else {
            without_rows(old(pins)@, actor_id, status_id)
        }),
        r == (pinned != holds(old(pins)@, actor_id, status_id)),
{
    if pinned {
        insert_row(pins, InteractionRow { actor_id, status_id, created_at: now })
    } else {
        delete_rows(pins, actor_id, status_id)
    }
}

/// Whether an actor pinned a status.
pub fn exists_pin(pins: &[InteractionRow], actor_id: Id, status_id: Id) -> (r: bool)
    ensures
        r == holds(pins@, actor_id, status_id),
{
    holds_row(pins, actor_id, status_id)
}

/// Whether a bookmark is that of the given actor and status.
pub open spec fn marks(row: BookmarkRow, actor_id: Id, status_id: Id) -> bool {
    row.actor_id == actor_id && row.status_id == status_id
}

/// Whether an actor bookmarked a status.
pub open spec fn is_bookmarked(rows: Seq<BookmarkRow>, actor_id: Id, status_id: Id) -> bool {
    exists|i: int| 0 <= i < rows.len() && marks(#[trigger] rows[i], actor_id, status_id)
}

/// Whether an actor bookmarked a status.
pub fn exists_bookmark(bookmarks: &[BookmarkRow], actor_id: Id, status_id: Id) -> (r: bool)
    ensures
        r == is_bookmarked(bookmarks@, actor_id, status_id),
{
    let mut i: usize = 0;
    while i < bookmarks.len()
        invariant
            i <= bookmarks.len(),
            forall|j: int| 0 <= j < i ==> !marks(#[trigger] bookmarks@[j], actor_id, status_id),
        decreases bookmarks.len() - i,
    {
        if bookmarks[i].actor_id == actor_id && bookmarks[i].status_id == status_id {
            assert(marks(bookmarks@[i as int], actor_id, status_id));
            return true;
        }
        i += 1;
    }
    false
}

/// Sets a bookmark. Whether it is new; one that is known keeps its id.
pub fn add_bookmark(
    bookmarks: &mut Vec<BookmarkRow>,
    id: Id,
    actor_id: Id,
    status_id: Id,
    now: Timestamp,
) -> (r: bool)
    ensures
        r == !is_bookmarked(old(bookmarks)@, actor_id, status_id),
        final(bookmarks)@ == (if r {
            old(bookmarks)@.push((BookmarkRow { id, actor_id, status_id, created_at: now }))
        } else {
            old(bookmarks)@
        }),
{
    if exists_bookmark(bookmarks.as_slice(), actor_id, status_id) {
        return false;
    }
    bookmarks.push(BookmarkRow { id, actor_id, status_id, created_at: now });
    true
}

/// Takes a bookmark back. Whether there was one.
pub fn remove_bookmark(bookmarks: &mut Vec<BookmarkRow>, actor_id: Id, status_id: Id) -> (r: bool)
    ensures
        r == is_bookmarked(old(bookmarks)@, actor_id, status_id),
        final(bookmarks)@ == old(bookmarks)@.filter(
            |row: BookmarkRow| !marks(row, actor_id, status_id),
        ),
{
    let ghost before = bookmarks@;
    let ghost keep = |row: BookmarkRow| !marks(row, actor_id, status_id);
    let held: bool = exists_bookmark(bookmarks.as_slice(), actor_id, status_id);
    let mut kept: Vec<BookmarkRow> = Vec::new();
    let mut i: usize = 0;
    proof {
        reveal(Seq::filter);
        assert(before.take(0) =~= Seq::<BookmarkRow>::empty());
    }
    while i < bookmarks.len()
        invariant
            bookmarks@ == before,
            i <= bookmarks.len(),
            keep == (|row: BookmarkRow| !marks(row, actor_id, status_id)),
            kept@ == before.take(i as int).filter(keep),
        decreases bookmarks.len() - i,
    {
        proof {
            reveal(Seq::filter);
            assert(before.take(i + 1).drop_last() =~= before.take(i as int));
        }
        let row: BookmarkRow = bookmarks[i];
        if row.actor_id != actor_id || row.status_id != status_id {
            kept.push(row);
        }
        i += 1;
    }
    assert(before.take(i as int) =~= before);
    *bookmarks = kept;
    held
}

/// The first boost of a status by an actor.
pub open spec fn boost_in(statuses: Seq<Status>, actor_id: Id, status_id: Id) -> Option<Status>
    decreases statuses.len(),
{
    if statuses.len() == 0 {
        None
    } else if statuses[0].actor_id == actor_id && statuses[0].reblog_of_id == Some(status_id) {
        Some(statuses[0])
    } else {
        boost_in(statuses.skip(1), actor_id, status_id)
    }
}

/// The boost of a status by an actor.
pub fn find_reblog(statuses: &[Status], actor_id: Id, status_id: Id) -> (r: Option<Status>)
    ensures
        r == boost_in(statuses@, actor_id, status_id),
{
    let mut i: usize = 0;
    assert(statuses@.skip(0) =~= statuses@);
    while i < statuses.len()
        invariant
            i <= statuses.len(),
            boost_in(statuses@, actor_id, status_id) == boost_in(
                statuses@.skip(i as int),
                actor_id,
                status_id,
            ),
        decreases statuses.len() - i,
    {
        assert(statuses@.skip(i as int)[0] == statuses@[i as int]);
        assert(statuses@.skip(i as int).skip(1) =~= statuses@.skip(i + 1));
        if statuses[i].actor_id == actor_id {
            if let Some(target) = statuses[i].reblog_of_id {
                if target == status_id {
                    return Some(statuses[i].clone());
                }
            }
        }
        i += 1;
    }
    None
}

/// The statuses among `status_ids` whose pair with an actor is held, in the
/// order they were asked for.
pub open spec fn held_ids(rows: Seq<InteractionRow>, actor_id: Id, status_ids: Seq<Id>) -> Seq<
    Id,
> {
    status_ids.filter(|id: Id| holds(rows, actor_id, id))
}

fn held_among(rows: &[InteractionRow], actor_id: Id, status_ids: &[Id]) -> (r: Vec<Id>)
    ensures
        r@ == held_ids(rows@, actor_id, status_ids@),
{
    let mut out: Vec<Id> = Vec::new();
    let mut i: usize = 0;
    proof {
        reveal(Seq::filter);
        assert(status_ids@.take(0) =~= out@);
    }
    while i < status_ids.len()
        invariant
            i <= status_ids.len(),
            out@ == held_ids(rows@, actor_id, status_ids@.take(i as int)),
        decreases status_ids.len() - i,
    {
        proof {
            reveal(Seq::filter);
            assert(status_ids@.take(i + 1).drop_last() =~= status_ids@.take(i as int));
        }
        if holds_row(rows, actor_id, status_ids[i]) {
            out.push(status_ids[i]);
        }
        i += 1;
    }
    assert(status_ids@.take(i as int) =~= status_ids@);
    out
}

/// The statuses among `status_ids` that an actor favourited: the same
/// answers as one [`exists_favourite`] per status.
pub fn favourited_status_ids(favourites: &[InteractionRow], actor_id: Id, status_ids: &[Id]) -> (r:
    Vec<Id>)
    ensures
        r@ == held_ids(favourites@, actor_id, status_ids@),
{
    held_among(favourites, actor_id, status_ids)
}

/// The statuses among `status_ids` that an actor pinned: the same answers as
/// one [`exists_pin`] per status.
pub fn pinned_status_ids(pins: &[InteractionRow], actor_id: Id, status_ids: &[Id]) -> (r: Vec<Id>)
    ensures
        r@ == held_ids(pins@, actor_id, status_ids@),
{
    held_among(pins, actor_id, status_ids)
}

/// The statuses among `status_ids` that an actor bookmarked: the same
/// answers as one [`exists_bookmark`] per status.
pub fn bookmarked_status_ids(bookmarks: &[BookmarkRow], actor_id: Id, status_ids: &[Id]) -> (r: Vec<
    Id,
>)
    ensures
        r@ == status_ids@.filter(|id: Id| is_bookmarked(bookmarks@, actor_id, id)),
{
    let ghost held = |id: Id| is_bookmarked(bookmarks@, actor_id, id);
    let mut out: Vec<Id> = Vec::new();
    let mut i: usize = 0;
    proof {
        reveal(Seq::filter);
        assert(status_ids@.take(0) =~= out@);
    }
    while i < status_ids.len()
        invariant
            i <= status_ids.len(),
            held == (|id: Id| is_bookmarked(bookmarks@, actor_id, id)),
            out@ == status_ids@.take(i as int).filter(held),
        decreases status_ids.len() - i,
    {
        proof {
            reveal(Seq::filter);
            assert(status_ids@.take(i + 1).drop_last() =~= status_ids@.take(i as int));
        }
        if exists_bookmark(bookmarks, actor_id, status_ids[i]) {
            out.push(status_ids[i]);
        }
        i += 1;
    }
    assert(status_ids@.take(i as int) =~= status_ids@);
    out
}

/// The statuses among `status_ids` that an actor boosted: the same answers
/// as one [`find_reblog`] per status.
pub fn reblogged_status_ids(statuses: &[Status], actor_id: Id, status_ids: &[Id]) -> (r: Vec<Id>)
    ensures
        r@ == status_ids@.filter(|id: Id| boost_in(statuses@, actor_id, id) is Some),
{
    let ghost held = |id: Id| boost_in(statuses@, actor_id, id) is Some;
    let mut out: Vec<Id> = Vec::new();
    let mut i: usize = 0;
    proof {
        reveal(Seq::filter);
        assert(status_ids@.take(0) =~= out@);
    }
    while i < status_ids.len()
        invariant
            i <= status_ids.len(),
            held == (|id: Id| boost_in(statuses@, actor_id, id) is Some),
            out@ == status_ids@.take(i as int).filter(held),
        decreases status_ids.len() - i,
    {
        proof {
            reveal(Seq::filter);
            assert(status_ids@.take(i + 1).drop_last() =~= status_ids@.take(i as int));
        }
        if find_reblog(statuses, actor_id, status_ids[i]).is_some() {
            out.push(status_ids[i]);
        }
        i += 1;
    }
    assert(status_ids@.take(i as int) =~= status_ids@);
    out
}

/// Recording keeps the rows one for each actor and status, makes the pair
/// held, and changes what is held of no other pair. Recording again changes
/// nothing.
pub proof fn law_recording_is_idempotent(
    rows: Seq<InteractionRow>,
    row: InteractionRow,
    again: InteractionRow,
    other_actor: Id,
    other_status: Id,
)
    requires
        one_row_each(rows),
        is_of(again, row.actor_id, row.status_id),
    ensures
        one_row_each(with_row(rows, row)),
        holds(with_row(rows, row), row.actor_id, row.status_id),
        with_row(with_row(rows, row), again) == with_row(rows, row),
        !is_of(row, other_actor, other_status) ==> holds(
            with_row(rows, row),
            other_actor,
            other_status,
        ) == holds(rows, other_actor, other_status),
{
    let done = with_row(rows, row);
    if !holds(rows, row.actor_id, row.status_id) {
        assert(is_of(done[rows.len() as int], row.actor_id, row.status_id));
        assert forall|i: int, j: int| 0 <= i < j < done.len() implies !is_of(
            #[trigger] done[i],
            (#[trigger] done[j]).actor_id,
            done[j].status_id,
        ) by {
            assert(done[i] == rows[i]);
            if j < rows.len() {
                assert(done[j] == rows[j]);
            }
        }
    }
    if holds(rows, other_actor, other_status) {
        let i = choose|i: int|
            0 <= i < rows.len() && is_of(#[trigger] rows[i], other_actor, other_status);
        assert(is_of(done[i], other_actor, other_status));
    }
    if holds(done, other_actor, other_status) && !is_of(row, other_actor, other_status) {
        let i = choose|i: int|
            0 <= i < done.len() && is_of(#[trigger] done[i], other_actor, other_status);
        assert(is_of(rows[i], other_actor, other_status));
    }
}

proof fn lemma_filter_keeps_all(rows: Seq<InteractionRow>, actor_id: Id, status_id: Id)
    requires
        !holds(rows, actor_id, status_id),
    ensures
        without_rows(rows, actor_id, status_id) == rows,
    decreases rows.len(),
{
    reveal(Seq::filter);
    if rows.len() > 0 {
        let init = rows.drop_last();
        if holds(init, actor_id, status_id) {
            let i = choose|i: int|
                0 <= i < init.len() && is_of(#[trigger] init[i], actor_id, status_id);
            assert(is_of(rows[i], actor_id, status_id));
        }
        lemma_filter_keeps_all(init, actor_id, status_id);
        assert(!is_of(rows[rows.len() - 1], actor_id, status_id));
        assert(init.push(rows.last()) =~= rows);
    } else {
        assert(without_rows(rows, actor_id, status_id) =~= rows);
    }
}

/// After a pair was deleted it is not held, and deleting what was just
/// recorded for the first time leaves the rows as they were.
pub proof fn law_deleting_undoes_recording(rows: Seq<InteractionRow>, row: InteractionRow)
    ensures
        !holds(
            without_rows(rows, row.actor_id, row.status_id),
            row.actor_id,
            row.status_id,
        ),
        !holds(rows, row.actor_id, row.status_id) ==> without_rows(
            with_row(rows, row),
            row.actor_id,
            row.status_id,
        ) == rows,
{
    let keep = |r: InteractionRow| !is_of(r, row.actor_id, row.status_id);
    let left = without_rows(rows, row.actor_id, row.status_id);
    broadcast use vstd::seq_lib::group_filter_ensures;

    if holds(left, row.actor_id, row.status_id) {
        let i = choose|i: int|
            0 <= i < left.len() && is_of(#[trigger] left[i], row.actor_id, row.status_id);
        assert(keep(left[i]));
    }
    if !holds(rows, row.actor_id, row.status_id) {
        lemma_filter_keeps_all(rows, row.actor_id, row.status_id);
        rows.lemma_filter_push(row, keep);
    }
}

} // verus!
