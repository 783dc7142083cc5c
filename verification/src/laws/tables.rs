//! The tables of boosts, favourites, pins, bookmarks and idempotency keys:
//! what is found in them, and what a write leaves.

use vstd::prelude::*;

use crate::clock::Timestamp;
use crate::domain::{Id, Visibility};
use crate::error::AppError;
use crate::idempotency::{bind, bound_status, check_or_reserve, IdempotencyLookup};
use crate::interaction_repository::{
    bookmark_page, bookmark_pair, bookmarked_by, list_bookmarks, older_than, row_to_status, visibility_from_str, BookmarkCursor,
    BookmarkPage, BookmarkedStatusRow, Page, StatusRow,
};
use crate::interaction_rows::{
    add_bookmark, add_favourite, bookmarked_status_ids, boost_in, exists_bookmark,
    exists_favourite, exists_pin, favourited_status_ids, find_reblog, holds, is_bookmarked, is_of,
    marks, pinned_status_ids, reblogged_status_ids, remove_bookmark, remove_favourite, set_pin,
    BookmarkRow, InteractionRow,
};
use crate::laws::refuses;
use crate::model::{IdempotencyRecord, Status};
use crate::text::u64_value;

verus! {

/// Whether one of the rows is the boost of a status by an actor.
pub open spec fn is_boosted(rows: Seq<Status>, actor_id: Id, status_id: Id) -> bool {
    exists|i: int|
        0 <= i < rows.len() && (#[trigger] rows[i]).actor_id == actor_id && rows[i].reblog_of_id
            == Some(status_id)
}

proof fn lemma_boost_in(rows: Seq<Status>, actor_id: Id, status_id: Id)
    ensures
        match boost_in(rows, actor_id, status_id) {
            Some(boost) => rows.contains(boost) && boost.actor_id == actor_id && boost.reblog_of_id
                == Some(status_id),
            None => !is_boosted(rows, actor_id, status_id),
        },
    decreases rows.len(),
{
    if rows.len() > 0 {
        let rest = rows.skip(1);
        lemma_boost_in(rest, actor_id, status_id);
        if rows[0].actor_id == actor_id && rows[0].reblog_of_id == Some(status_id) {
            assert(rows.contains(rows[0]));
        } else {
            match boost_in(rest, actor_id, status_id) {
                Some(boost) => {
                    let i = choose|i: int| 0 <= i < rest.len() && rest[i] == boost;
                    assert(rows[i + 1] == boost);
                },
                None => {
                    if is_boosted(rows, actor_id, status_id) {
                        let i = choose|i: int|
                            0 <= i < rows.len() && (#[trigger] rows[i]).actor_id == actor_id
                                && rows[i].reblog_of_id == Some(status_id);
                        assert(rest[i - 1] == rows[i]);
                    }
                },
            }
        }
    }
}

/// A boost is found exactly where some row is a boost of the status by the
/// actor, whatever other rows there are, and what is found is such a row.
pub proof fn law_boosts_are_found(rows: &[Status], actor_id: Id, status_id: Id, r: Option<Status>)
    requires
        call_ensures(find_reblog, (rows, actor_id, status_id), r),
    ensures
        r is Some <==> is_boosted(rows@, actor_id, status_id),
        r matches Some(boost) ==> rows@.contains(boost) && boost.actor_id == actor_id
            && boost.reblog_of_id == Some(status_id),
{
    lemma_boost_in(rows@, actor_id, status_id);
    if let Some(boost) = r {
        let i = choose|i: int| 0 <= i < rows@.len() && rows@[i] == boost;
        assert(rows@[i].actor_id == actor_id);
    }
}

/// Asked about several statuses, the boosted ones are given, each as often as
/// it was asked about and in that order.
pub proof fn law_several_boosts_are_found(
    rows: &[Status],
    actor_id: Id,
    status_ids: &[Id],
    r: Vec<Id>,
)
    requires
        call_ensures(reblogged_status_ids, (rows, actor_id, status_ids), r),
    ensures
        r@ == status_ids@.filter(|id: Id| is_boosted(rows@, actor_id, id)),
{
    let is = |id: Id| is_boosted(rows@, actor_id, id);
    let given = |id: Id| boost_in(rows@, actor_id, id) is Some;
    assert forall|id: Id| #[trigger] is(id) == given(id) by {
        lemma_boost_in(rows@, actor_id, id);
        if let Some(boost) = boost_in(rows@, actor_id, id) {
            let i = choose|i: int| 0 <= i < rows@.len() && rows@[i] == boost;
            assert(rows@[i].actor_id == actor_id);
        }
    }
    assert(is =~= given);
}

/// Whether one of the rows is of the given actor and status.
pub open spec fn has_row(rows: Seq<InteractionRow>, actor_id: Id, status_id: Id) -> bool {
    exists|i: int|
        0 <= i < rows.len() && (#[trigger] rows[i]).actor_id == actor_id && rows[i].status_id
            == status_id
}

proof fn lemma_has_row(rows: Seq<InteractionRow>, actor_id: Id, status_id: Id)
    ensures
        has_row(rows, actor_id, status_id) == holds(rows, actor_id, status_id),
{
    if has_row(rows, actor_id, status_id) {
        let i = choose|i: int|
            0 <= i < rows.len() && (#[trigger] rows[i]).actor_id == actor_id && rows[i].status_id
                == status_id;
        assert(is_of(rows[i], actor_id, status_id));
    }
    if holds(rows, actor_id, status_id) {
        let i = choose|i: int|
            0 <= i < rows.len() && is_of(#[trigger] rows[i], actor_id, status_id);
        assert(rows[i].actor_id == actor_id);
    }
}

/// A favourite or a pin is there exactly where some row is of that actor and
/// that status.
pub proof fn law_favourites_and_pins_are_found(
    rows: &[InteractionRow],
    actor_id: Id,
    status_id: Id,
    favourite: bool,
    pin: bool,
)
    requires
        call_ensures(exists_favourite, (rows, actor_id, status_id), favourite),
        call_ensures(exists_pin, (rows, actor_id, status_id), pin),
    ensures
        favourite == has_row(rows@, actor_id, status_id),
        pin == has_row(rows@, actor_id, status_id),
{
    lemma_has_row(rows@, actor_id, status_id);
}

/// Asked about several statuses, the favourited or pinned ones are given, each
/// as often as it was asked about and in that order.
pub proof fn law_several_favourites_and_pins_are_found(
    rows: &[InteractionRow],
    actor_id: Id,
    status_ids: &[Id],
    favourites: Vec<Id>,
    pins: Vec<Id>,
)
    requires
        call_ensures(favourited_status_ids, (rows, actor_id, status_ids), favourites),
        call_ensures(pinned_status_ids, (rows, actor_id, status_ids), pins),
    ensures
        favourites@ == status_ids@.filter(|id: Id| has_row(rows@, actor_id, id)),
        pins@ == status_ids@.filter(|id: Id| has_row(rows@, actor_id, id)),
{
    let is = |id: Id| has_row(rows@, actor_id, id);
    let given = |id: Id| holds(rows@, actor_id, id);
    assert forall|id: Id| #[trigger] is(id) == given(id) by {
        lemma_has_row(rows@, actor_id, id);
    }
    assert(is =~= given);
}

/// Whether writing a row left the table as it should: as it was where the
/// actor and status had a row, and with one row more where they had none.
pub open spec fn row_was_added(
    before: Seq<InteractionRow>,
    after: Seq<InteractionRow>,
    actor_id: Id,
    status_id: Id,
    now: Timestamp,
    r: bool,
) -> bool {
    &&& r == !has_row(before, actor_id, status_id)
    &&& !r ==> after == before
    &&& r ==> after == before.push(InteractionRow { actor_id, status_id, created_at: now })
}

/// Whether deleting a row left the table as it should: without a row of the
/// actor and status, and with all other rows in their order.
pub open spec fn row_was_removed(
    before: Seq<InteractionRow>,
    after: Seq<InteractionRow>,
    actor_id: Id,
    status_id: Id,
    r: bool,
) -> bool {
    &&& r == has_row(before, actor_id, status_id)
    &&& after == before.filter(
        |row: InteractionRow| row.actor_id != actor_id || row.status_id != status_id,
    )
}

proof fn lemma_without_rows(rows: Seq<InteractionRow>, actor_id: Id, status_id: Id)
    ensures
        crate::interaction_rows::without_rows(rows, actor_id, status_id) == rows.filter(
            |row: InteractionRow| row.actor_id != actor_id || row.status_id != status_id,
        ),
{
    let keep = |row: InteractionRow| !is_of(row, actor_id, status_id);
    let kept = |row: InteractionRow| row.actor_id != actor_id || row.status_id != status_id;
    assert(keep =~= kept);
}

/// A favourite is recorded once for each actor and status.
pub proof fn law_favourites_are_added_once(
    rows: &mut Vec<InteractionRow>,
    actor_id: Id,
    status_id: Id,
    now: Timestamp,
    r: bool,
)
    requires
        call_ensures(add_favourite, (rows, actor_id, status_id, now), r),
    ensures
        row_was_added((*old(rows))@, (*final(rows))@, actor_id, status_id, now, r),
{
    lemma_has_row((*rows)@, actor_id, status_id);
}

/// Taking a favourite back deletes that favourite and no other.
pub proof fn law_favourites_are_removed(
    rows: &mut Vec<InteractionRow>,
    actor_id: Id,
    status_id: Id,
    r: bool,
)
    requires
        call_ensures(remove_favourite, (rows, actor_id, status_id), r),
    ensures
        row_was_removed((*old(rows))@, (*final(rows))@, actor_id, status_id, r),
{
    lemma_has_row((*rows)@, actor_id, status_id);
    lemma_without_rows((*rows)@, actor_id, status_id);
}

/// Pinning records the pin once, and unpinning deletes that pin and no other.
pub proof fn law_pins_are_set(
    rows: &mut Vec<InteractionRow>,
    actor_id: Id,
    status_id: Id,
    pinned: bool,
    now: Timestamp,
    r: bool,
)
    requires
        call_ensures(set_pin, (rows, actor_id, status_id, pinned, now), r),
    ensures
        if pinned {
            row_was_added((*old(rows))@, (*final(rows))@, actor_id, status_id, now, r)
        } else {
            row_was_removed((*old(rows))@, (*final(rows))@, actor_id, status_id, r)
        },
{
    lemma_has_row((*rows)@, actor_id, status_id);
    lemma_without_rows((*rows)@, actor_id, status_id);
}

/// Whether one of the rows is the bookmark of a status by an actor.
pub open spec fn has_bookmark(rows: Seq<BookmarkRow>, actor_id: Id, status_id: Id) -> bool {
    exists|i: int|
        0 <= i < rows.len() && (#[trigger] rows[i]).actor_id == actor_id && rows[i].status_id
            == status_id
}

proof fn lemma_has_bookmark(rows: Seq<BookmarkRow>, actor_id: Id, status_id: Id)
    ensures
        has_bookmark(rows, actor_id, status_id) == is_bookmarked(rows, actor_id, status_id),
{
    if has_bookmark(rows, actor_id, status_id) {
        let i = choose|i: int|
            0 <= i < rows.len() && (#[trigger] rows[i]).actor_id == actor_id && rows[i].status_id
                == status_id;
        assert(marks(rows[i], actor_id, status_id));
    }
    if is_bookmarked(rows, actor_id, status_id) {
        let i = choose|i: int|
            0 <= i < rows.len() && marks(#[trigger] rows[i], actor_id, status_id);
        assert(rows[i].actor_id == actor_id);
    }
}

/// A bookmark is there exactly where some row is of that actor and that
/// status; asked about several statuses, the bookmarked ones are given in the
/// order they were asked about.
pub proof fn law_bookmarks_are_found(
    rows: &[BookmarkRow],
    actor_id: Id,
    status_id: Id,
    r: bool,
    status_ids: &[Id],
    several: Vec<Id>,
)
    requires
        call_ensures(exists_bookmark, (rows, actor_id, status_id), r),
        call_ensures(bookmarked_status_ids, (rows, actor_id, status_ids), several),
    ensures
        r == has_bookmark(rows@, actor_id, status_id),
        several@ == status_ids@.filter(|id: Id| has_bookmark(rows@, actor_id, id)),
{
    lemma_has_bookmark(rows@, actor_id, status_id);
    let is = |id: Id| has_bookmark(rows@, actor_id, id);
    let given = |id: Id| is_bookmarked(rows@, actor_id, id);
    assert forall|id: Id| #[trigger] is(id) == given(id) by {
        lemma_has_bookmark(rows@, actor_id, id);
    }
    assert(is =~= given);
}

/// A bookmark is recorded once for each actor and status, under its own id.
pub proof fn law_bookmarks_are_added_once(
    rows: &mut Vec<BookmarkRow>,
    id: Id,
    actor_id: Id,
    status_id: Id,
    now: Timestamp,
    r: bool,
)
    requires
        call_ensures(add_bookmark, (rows, id, actor_id, status_id, now), r),
    ensures
        r == !has_bookmark((*old(rows))@, actor_id, status_id),
        !r ==> (*final(rows))@ == (*old(rows))@,
        r ==> (*final(rows))@ == (*old(rows))@.push(
            BookmarkRow { id, actor_id, status_id, created_at: now },
        ),
{
    lemma_has_bookmark((*rows)@, actor_id, status_id);
}

/// Taking a bookmark back deletes that bookmark and no other.
pub proof fn law_bookmarks_are_removed(
    rows: &mut Vec<BookmarkRow>,
    actor_id: Id,
    status_id: Id,
    r: bool,
)
    requires
        call_ensures(remove_bookmark, (rows, actor_id, status_id), r),
    ensures
        r == has_bookmark((*old(rows))@, actor_id, status_id),
        (*final(rows))@ == (*old(rows))@.filter(
            |row: BookmarkRow| row.actor_id != actor_id || row.status_id != status_id,
        ),
{
    lemma_has_bookmark((*rows)@, actor_id, status_id);
    let keep = |row: BookmarkRow| !marks(row, actor_id, status_id);
    let kept = |row: BookmarkRow| row.actor_id != actor_id || row.status_id != status_id;
    assert(keep =~= kept);
}

/// Whether the k-th record is the first of an actor and key, and binds it to
/// the given status.
pub open spec fn binds(
    records: Seq<IdempotencyRecord>,
    k: int,
    actor_id: Id,
    key: Seq<char>,
    status_id: Id,
) -> bool {
    &&& 0 <= k < records.len()
    &&& records[k].actor_id == actor_id
    &&& records[k].key@ == key
    &&& records[k].status_id == status_id
    &&& forall|j: int|
        0 <= j < k ==> (#[trigger] records[j]).actor_id != actor_id || records[j].key@ != key
}

/// Whether the first record of an actor and key binds it to the given status.
pub open spec fn stands_for(
    records: Seq<IdempotencyRecord>,
    actor_id: Id,
    key: Seq<char>,
    status_id: Id,
) -> bool {
    exists|k: int| #[trigger] binds(records, k, actor_id, key, status_id)
}

/// Whether no record is of an actor and key.
pub open spec fn is_unbound(
    records: Seq<IdempotencyRecord>,
    actor_id: Id,
    key: Seq<char>,
) -> bool {
    forall|j: int|
        0 <= j < records.len() ==> (#[trigger] records[j]).actor_id != actor_id || records[j].key@
            != key
}

proof fn lemma_bound_status(records: Seq<IdempotencyRecord>, actor_id: Id, key: Seq<char>)
    ensures
        match bound_status(records, actor_id, key) {
            Some(status_id) => stands_for(records, actor_id, key, status_id),
            None => is_unbound(records, actor_id, key),
        },
    decreases records.len(),
{
    if records.len() > 0 {
        if records[0].actor_id == actor_id && records[0].key@ == key {
            assert(binds(records, 0, actor_id, key, records[0].status_id));
            assert(stands_for(records, actor_id, key, records[0].status_id));
        } else {
            let rest = records.skip(1);
            lemma_bound_status(rest, actor_id, key);
            match bound_status(rest, actor_id, key) {
                Some(status_id) => {
                    let k = choose|k: int| binds(rest, k, actor_id, key, status_id);
                    assert forall|j: int| 0 <= j < k + 1 implies (#[trigger] records[j]).actor_id
                        != actor_id || records[j].key@ != key by {
                        if j > 0 {
                            assert(rest[j - 1] == records[j]);
                        }
                    }
                    assert(records[k + 1] == rest[k]);
                    assert(binds(records, k + 1, actor_id, key, status_id));
                    assert(bound_status(records, actor_id, key) == Some(status_id));
                },
                None => {
                    assert forall|j: int| 0 <= j < records.len() implies (
                    #[trigger] records[j]).actor_id != actor_id || records[j].key@ != key by {
                        if j > 0 {
                            assert(rest[j - 1] == records[j]);
                        }
                    }
                },
            }
        }
    }
}

/// A key stands for the status that its first record binds; without a record
/// of the actor and the key it is free.
pub proof fn law_keys_stand_for_their_first_status(
    records: &[IdempotencyRecord],
    actor_id: Id,
    key: &str,
    r: IdempotencyLookup,
)
    requires
        call_ensures(check_or_reserve, (records, actor_id, key), r),
    ensures
        match r {
            IdempotencyLookup::Existing(status_id) => stands_for(
                records@,
                actor_id,
                key@,
                status_id,
            ),
            IdempotencyLookup::Reserved => is_unbound(records@, actor_id, key@),
        },
{
    lemma_bound_status(records@, actor_id, key@);
}

/// Binding adds one record where the actor and the key had none, and changes
/// nothing where they had one.
pub proof fn law_keys_are_bound_once(
    records: &mut Vec<IdempotencyRecord>,
    actor_id: Id,
    key: &str,
    status_id: Id,
    now: Timestamp,
)
    requires
        call_ensures(bind, (records, actor_id, key, status_id, now), ()),
    ensures
        !is_unbound((*old(records))@, actor_id, key@) ==> (*final(records))@ == (*old(records))@,
        is_unbound((*old(records))@, actor_id, key@) ==> {
            let after = (*final(records))@;
            &&& after.len() == (*old(records))@.len() + 1
            &&& after.take((*old(records))@.len() as int) == (*old(records))@
            &&& after.last().actor_id == actor_id
            &&& after.last().key@ == key@
            &&& after.last().status_id == status_id
            &&& after.last().created_at == now
        },
{
    let before = (*records)@;
    lemma_bound_status(before, actor_id, key@);
    if let Some(first) = bound_status(before, actor_id, key@) {
        let k = choose|k: int| binds(before, k, actor_id, key@, first);
        assert(!is_unbound(before, actor_id, key@));
    } else {
        assert((*final(records))@.take(before.len() as int) =~= (*final(records))@.drop_last());
    }
}

/// Whether a status is what a row holds, column by column.
pub open spec fn is_read_from(status: Status, row: StatusRow) -> bool {
    &&& status.id.0 == row.id
    &&& status.actor_id.0 == row.actor_id
    &&& status.uri == row.uri
    &&& status.url == row.url
    &&& status.content == row.content
    &&& match status.visibility {
        Visibility::Public => row.visibility@ == "public"@,
        Visibility::Unlisted => row.visibility@ == "unlisted"@,
        Visibility::Private => row.visibility@ == "private"@,
        Visibility::Direct => row.visibility@ == "direct"@,
    }
    &&& status.sensitive == row.sensitive
    &&& status.spoiler_text == row.spoiler_text
    &&& status.in_reply_to_id is Some == row.in_reply_to_id is Some
    &&& status.in_reply_to_id matches Some(id) ==> Some(id.0) == row.in_reply_to_id
    &&& status.in_reply_to_account_id is Some == row.in_reply_to_account_id is Some
    &&& status.in_reply_to_account_id matches Some(id) ==> Some(id.0)
        == row.in_reply_to_account_id
    &&& status.reblog_of_id is Some == row.reblog_of_id is Some
    &&& status.reblog_of_id matches Some(id) ==> Some(id.0) == row.reblog_of_id
    &&& status.poll_id is Some == row.poll_id is Some
    &&& status.poll_id matches Some(id) ==> Some(id.0) == row.poll_id
    &&& status.language == row.language
    &&& status.reblogs_count == row.reblogs_count
    &&& status.favourites_count == row.favourites_count
    &&& status.replies_count == row.replies_count
    &&& status.local == row.local
    &&& status.created_at == row.created_at
    &&& status.edited_at == row.edited_at
}

/// A row that names a visibility is read column by column.
pub proof fn law_rows_are_read_column_by_column(row: StatusRow, r: Status)
    requires
        row.visibility@ == "public"@ || row.visibility@ == "unlisted"@ || row.visibility@
            == "private"@ || row.visibility@ == "direct"@,
        call_ensures(row_to_status, (row,), r),
    ensures
        is_read_from(r, row),
{
    crate::interaction_repository::law_visibility_names(r.visibility, row.visibility@);
}

/// Each of the four names stands for its own visibility.
pub proof fn law_visibilities_have_names(raw: &str, r: Visibility)
    requires
        call_ensures(visibility_from_str, (raw,), r),
    ensures
        raw@ == "public"@ ==> r is Public,
        raw@ == "unlisted"@ ==> r is Unlisted,
        raw@ == "private"@ ==> r is Private,
        raw@ == "direct"@ ==> r is Direct,
{
    crate::interaction_repository::law_visibility_names(r, raw@);
    reveal_strlit("public");
    reveal_strlit("unlisted");
    reveal_strlit("private");
    reveal_strlit("direct");
    assert("public"@.len() == 6 && "public"@[0] == 'p');
    assert("unlisted"@.len() == 8);
    assert("private"@.len() == 7);
    assert("direct"@.len() == 6 && "direct"@[0] == 'd');
}

/// Whether a row names one of the four visibilities.
pub open spec fn names_a_visibility(row: StatusRow) -> bool {
    row.visibility@ == "public"@ || row.visibility@ == "unlisted"@ || row.visibility@
        == "private"@ || row.visibility@ == "direct"@
}

proof fn lemma_pair_is_read(row: BookmarkedStatusRow)
    requires
        names_a_visibility(row.status),
        row.bookmark_id >= 0,
    ensures
        bookmark_pair(row).0.0 == row.bookmark_id,
        is_read_from(bookmark_pair(row).1, row.status),
{
    let v = crate::interaction_repository::named_visibility(row.status.visibility@)->0;
    crate::interaction_repository::law_visibility_names(v, row.status.visibility@);
}

/// Whether a listed bookmark is that of a row of the actor.
pub open spec fn is_bookmark_of(
    pair: (BookmarkCursor, Status),
    row: BookmarkedStatusRow,
    actor_id: Id,
) -> bool {
    &&& row.actor_id == actor_id.0
    &&& pair.0.0 == row.bookmark_id
    &&& is_read_from(pair.1, row.status)
}

/// Whether a listed bookmark is that of some row of the actor.
pub open spec fn has_its_row(
    rows: Seq<BookmarkedStatusRow>,
    pair: (BookmarkCursor, Status),
    actor_id: Id,
) -> bool {
    exists|i: int| 0 <= i < rows.len() && is_bookmark_of(pair, #[trigger] rows[i], actor_id)
}

/// Whether a row of the actor is listed.
pub open spec fn is_in_list(
    list: Seq<(BookmarkCursor, Status)>,
    row: BookmarkedStatusRow,
    actor_id: Id,
) -> bool {
    exists|k: int| 0 <= k < list.len() && is_bookmark_of(#[trigger] list[k], row, actor_id)
}

/// The bookmarks of an actor are listed all and once, nobody else's is, and
/// the greater bookmark id comes first.
pub proof fn law_actors_bookmarks_are_listed(
    rows: Vec<BookmarkedStatusRow>,
    actor_id: Id,
    r: Vec<(BookmarkCursor, Status)>,
)
    requires
        forall|i: int| 0 <= i < rows@.len() ==> names_a_visibility((#[trigger] rows@[i]).status),
        crate::interaction_repository::bookmarks_are_keyed(rows@),
        call_ensures(list_bookmarks, (rows, actor_id), r),
    ensures
        forall|i: int, j: int| 0 <= i < j < r@.len() ==> r@[i].0.0 > r@[j].0.0,
        r@.len() == rows@.filter(
            |row: BookmarkedStatusRow| row.actor_id == actor_id.0,
        ).len(),
        forall|k: int|
            0 <= k < r@.len() ==> has_its_row(rows@, #[trigger] r@[k], actor_id),
        forall|i: int|
            0 <= i < rows@.len() && rows@[i].actor_id == actor_id.0 ==> is_in_list(
                r@,
                #[trigger] rows@[i],
                actor_id,
            ),
{
    let own = bookmarked_by(rows@, actor_id);
    assert(own =~= rows@.filter(|row: BookmarkedStatusRow| row.actor_id == actor_id.0));
    crate::interaction_repository::lemma_one_actors_rows(rows@, actor_id);
    crate::interaction_repository::lemma_newest_first(own);
    crate::interaction_repository::lemma_listed_are_rows(own);
    assert forall|k: int| 0 <= k < r@.len() implies has_its_row(
        rows@,
        #[trigger] r@[k],
        actor_id,
    ) by {
        assert(r@.contains(r@[k]));
        assert(crate::interaction_repository::is_row_of(own, r@[k]));
        let a = choose|a: int| 0 <= a < own.len() && r@[k] == bookmark_pair(#[trigger] own[a]);
        assert(own.contains(own[a]));
        let i = choose|i: int| 0 <= i < rows@.len() && rows@[i] == own[a];
        lemma_pair_is_read(rows@[i]);
        assert(is_bookmark_of(r@[k], rows@[i], actor_id));
    }
    assert forall|i: int|
        0 <= i < rows@.len() && rows@[i].actor_id == actor_id.0 implies is_in_list(
        r@,
        #[trigger] rows@[i],
        actor_id,
    ) by {
        assert(rows@.contains(rows@[i]));
        assert(own.contains(rows@[i]));
        let a = choose|a: int| 0 <= a < own.len() && own[a] == rows@[i];
        let pair = bookmark_pair(own[a]);
        assert(crate::interaction_repository::is_row_of(own, pair));
        assert(r@.contains(pair));
        let k = choose|k: int| 0 <= k < r@.len() && r@[k] == pair;
        lemma_pair_is_read(rows@[i]);
        assert(is_bookmark_of(r@[k], rows@[i], actor_id));
    }
}

/// A page holds the first of the bookmarks older than its cursor, as many as
/// it may hold. Where it may hold some and leaves some, it names its last
/// bookmark, in a text that reads back as that cursor; otherwise it names
/// none.
pub proof fn law_pages_hold_what_comes_next(
    list: &[(BookmarkCursor, Status)],
    max_id: Option<BookmarkCursor>,
    limit: usize,
    r: BookmarkPage,
)
    requires
        call_ensures(bookmark_page, (list, max_id, limit), r),
    ensures
        ({
            let older = list@.filter(
                |pair: (BookmarkCursor, Status)|
                    max_id matches Some(cursor) ==> pair.0.0 < cursor.0,
            );
            &&& r.items@ == older.take(
                if limit < older.len() {
                    limit as int
                } else {
                    older.len() as int
                },
            )
            &&& r.next_cursor is Some <==> 0 < limit < older.len()
            &&& r.next_cursor matches Some(text) ==> u64_value(text@) == Some(
                r.items@.last().0.0 as int,
            )
        }),
{
    let wanted = |pair: (BookmarkCursor, Status)|
        max_id matches Some(cursor) ==> pair.0.0 < cursor.0;
    let older = list@.filter(wanted);
    match max_id {
        Some(cursor) => {
            let smaller = |pair: (BookmarkCursor, Status)| pair.0.0 < cursor.0;
            assert(wanted =~= smaller);
            assert(older == older_than(list@, max_id));
        },
        None => {
            lemma_filter_keeps_all(list@, wanted);
            assert(older == older_than(list@, max_id));
        },
    }
    assert(older.take(older.len() as int) =~= older);
    assert(older.take(0) =~= Seq::<(BookmarkCursor, Status)>::empty());
    if 0 < limit < older.len() {
        crate::text::law_decimal_round_trip(older[limit - 1].0.0 as nat);
    }
}

proof fn lemma_filter_keeps_all<A>(list: Seq<A>, pred: spec_fn(A) -> bool)
    requires
        forall|x: A| #[trigger] pred(x),
    ensures
        list.filter(pred) == list,
    decreases list.len(),
{
    reveal(Seq::filter);
    if list.len() > 0 {
        lemma_filter_keeps_all(list.drop_last(), pred);
        assert(list.drop_last().push(list.last()) =~= list);
    }
}

/// A page of bookmarks shows their statuses, all and in order. An empty page
/// leads nowhere.
pub proof fn law_pages_show_the_bookmarked_statuses(
    page: BookmarkPage,
    prev_cursor: Option<String>,
    r: Page<Status>,
)
    requires
        call_ensures(BookmarkPage::statuses, (page, prev_cursor), r),
    ensures
        r.items@.len() == page.items@.len(),
        forall|i: int| 0 <= i < r.items@.len() ==> #[trigger] r.items@[i] == page.items@[i].1,
        r.next_cursor == page.next_cursor,
        page.items@.len() > 0 ==> r.prev_cursor == prev_cursor,
        page.items@.len() == 0 ==> r.prev_cursor is None,
{
    let goal = page.items@.map_values(|pair: (BookmarkCursor, Status)| pair.1);
    assert(forall|i: int| 0 <= i < goal.len() ==> #[trigger] goal[i] == page.items@[i].1);
}

/// What a cursor is written as reads back as that cursor, and what is no
/// number is refused.
pub proof fn law_cursors_read_back(
    cursor: &BookmarkCursor,
    text: String,
    raw: &str,
    r: Result<BookmarkCursor, AppError>,
)
    requires
        call_ensures(BookmarkCursor::encode, (cursor,), text),
        call_ensures(BookmarkCursor::decode, (raw,), r),
    ensures
        raw@ == text@ ==> r == Ok::<BookmarkCursor, AppError>(*cursor),
        r is Ok <==> u64_value(raw@) is Some,
        r matches Ok(read) ==> u64_value(raw@) == Some(read.0 as int),
        r matches Err(e) ==> refuses(e, 422, "invalid cursor value: '"@ + raw@ + "'"@),
{
    crate::text::law_decimal_round_trip(cursor.0 as nat);
}

} // verus!
