//! Rows of favourites, bookmarks, pins and boosts: how they are read, and
//! the cursor that bookmarks are paged by.

use vstd::prelude::*;

use crate::clock::Timestamp;
use crate::domain::{Id, Visibility};
use crate::error::{AppError, UNPROCESSABLE_ENTITY};
use crate::model::Status;
use crate::text::{
    decimal_text, joined, law_decimal_round_trip, natural_to_text, parse_u64, same_text, u64_value,
};

verus! {

/// The visibility that a name stands for.
pub open spec fn named_visibility(name: Seq<char>) -> Option<Visibility> {
    if name == "public"@ {
        Some(Visibility::Public)
    } else if name == "unlisted"@ {
        Some(Visibility::Unlisted)
    } else if name == "private"@ {
        Some(Visibility::Private)
    } else if name == "direct"@ {
        Some(Visibility::Direct)
    } else {
        None
    }
}

/// The visibility that a name stands for.
pub fn find_visibility(name: &str) -> (r: Option<Visibility>)
    ensures
        r == named_visibility(name@),
{
    if same_text(name, "public") {
        Some(Visibility::Public)
    } else if same_text(name, "unlisted") {
        Some(Visibility::Unlisted)
    } else if same_text(name, "private") {
        Some(Visibility::Private)
    } else if same_text(name, "direct") {
        Some(Visibility::Direct)
    } else {
        None
    }
}

/// The name of a visibility.
pub open spec fn visibility_name(visibility: Visibility) -> Seq<char> {
    match visibility {
        Visibility::Public => "public"@,
        Visibility::Unlisted => "unlisted"@,
        Visibility::Private => "private"@,
        Visibility::Direct => "direct"@,
    }
}

/// The name of a visibility stands for that visibility, and no other name
/// does.
pub proof fn law_visibility_names(visibility: Visibility, name: Seq<char>)
    ensures
        named_visibility(visibility_name(visibility)) == Some(visibility),
        named_visibility(name) == Some(visibility) <==> name == visibility_name(visibility),
{
    reveal_strlit("public");
    reveal_strlit("unlisted");
    reveal_strlit("private");
    reveal_strlit("direct");
    assert("public"@.len() == 6);
    assert("unlisted"@.len() == 8);
    assert("private"@.len() == 7);
    assert("direct"@.len() == 6);
    assert("public"@[0] == 'p');
    assert("direct"@[0] == 'd');
}

/// The visibility in a `statuses` row, which holds one of the four names.
pub fn visibility_from_str(raw: &str) -> (r: Visibility)
    requires
        named_visibility(raw@) is Some,
    ensures
        named_visibility(raw@) == Some(r),
{
    match find_visibility(raw) {
        Some(visibility) => visibility,
        None => Visibility::Direct,
    }
}

/// A row of the `statuses` table.
#[derive(Debug, PartialEq, Eq)]
pub struct StatusRow {
    pub id: i64,
    pub actor_id: i64,
    pub uri: String,
    pub url: Option<String>,
    pub content: String,
    pub visibility: String,
    pub sensitive: bool,
    pub spoiler_text: String,
    pub in_reply_to_id: Option<i64>,
    pub in_reply_to_account_id: Option<i64>,
    pub reblog_of_id: Option<i64>,
    pub poll_id: Option<i64>,
    pub language: Option<String>,
    pub reblogs_count: i64,
    pub favourites_count: i64,
    pub replies_count: i64,
    pub local: bool,
    pub created_at: Timestamp,
    pub edited_at: Option<Timestamp>,
}

/// An optional id.
pub open spec fn optional_id(raw: Option<i64>) -> Option<Id> {
    match raw {
        Some(value) => Some(Id(value)),
        None => None,
    }
}

fn id_from(raw: Option<i64>) -> (r: Option<Id>)
    ensures
        r == optional_id(raw),
{
    match raw {
        Some(value) => Some(Id(value)),
        None => None,
    }
}

/// The status that a row holds.
pub open spec fn status_in(row: StatusRow, visibility: Visibility) -> Status {
    Status {
        id: Id(row.id),
        actor_id: Id(row.actor_id),
        uri: row.uri,
        url: row.url,
        content: row.content,
        visibility,
        sensitive: row.sensitive,
        spoiler_text: row.spoiler_text,
        in_reply_to_id: optional_id(row.in_reply_to_id),
        in_reply_to_account_id: optional_id(row.in_reply_to_account_id),
        reblog_of_id: optional_id(row.reblog_of_id),
        poll_id: optional_id(row.poll_id),
        language: row.language,
        reblogs_count: row.reblogs_count,
        favourites_count: row.favourites_count,
        replies_count: row.replies_count,
        local: row.local,
        created_at: row.created_at,
        edited_at: row.edited_at,
    }
}

/// The status that a row holds.
pub fn row_to_status(row: StatusRow) -> (r: Status)
    requires
        named_visibility(row.visibility@) is Some,
    ensures
        r == status_in(row, named_visibility(row.visibility@)->0),
{
    let visibility: Visibility = visibility_from_str(row.visibility.as_str());
    Status {
        id: Id(row.id),
        actor_id: Id(row.actor_id),
        uri: row.uri,
        url: row.url,
        content: row.content,
        visibility,
        sensitive: row.sensitive,
        spoiler_text: row.spoiler_text,
        in_reply_to_id: id_from(row.in_reply_to_id),
        in_reply_to_account_id: id_from(row.in_reply_to_account_id),
        reblog_of_id: id_from(row.reblog_of_id),
        poll_id: id_from(row.poll_id),
        language: row.language,
        reblogs_count: row.reblogs_count,
        favourites_count: row.favourites_count,
        replies_count: row.replies_count,
        local: row.local,
        created_at: row.created_at,
        edited_at: row.edited_at,
    }
}

/// A place in a list of bookmarks: the bookmark's own id.
#[derive(Debug, Clone, Copy, PartialEq, Eq, PartialOrd, Ord, Hash, Structural)]
pub struct BookmarkCursor(pub u64);

/// The cursor that a text is read as.
pub open spec fn cursor_read(raw: Seq<char>) -> Option<BookmarkCursor> {
    match u64_value(raw) {
        Some(n) => Some(BookmarkCursor(n as u64)),
        None => None,
    }
}

/// The message for a cursor that cannot be read.
pub open spec fn bad_cursor_message(raw: Seq<char>) -> Seq<char> {
    "invalid cursor value: '"@ + raw + "'"@
}

impl BookmarkCursor {
    /// The decimal notation of the id.
    pub fn encode(&self) -> (r: String)
        ensures
            r@ == decimal_text(self.0 as nat),
    {
        natural_to_text(self.0 as u128)
    }

    /// Reads a cursor; `422` for anything but a `u64`.
    pub fn decode(raw: &str) -> (r: Result<BookmarkCursor, AppError>)
        ensures
            match cursor_read(raw@) {
                Some(cursor) => r == Ok::<BookmarkCursor, AppError>(cursor),
                None => r matches Err(e) && e.is_client(
                    UNPROCESSABLE_ENTITY,
                    bad_cursor_message(raw@),
                ),
            },
    {
        match parse_u64(raw) {
            Some(n) => Ok(BookmarkCursor(n)),
            None => {
                let mut message: String = joined("invalid cursor value: '", raw);
                message.append("'");
                Err(AppError::client(UNPROCESSABLE_ENTITY, message))
            },
        }
    }

    /// Reading an encoded cursor gives the cursor back.
    pub proof fn law_cursor_round_trip(self)
        ensures
            cursor_read(decimal_text(self.0 as nat)) == Some(self),
    {
        law_decimal_round_trip(self.0 as nat);
    }
}

/// A bookmark joined with the status it points at.
#[derive(Debug, PartialEq, Eq)]
pub struct BookmarkedStatusRow {
    pub bookmark_id: i64,
    /// Who bookmarked the status.
    pub actor_id: i64,
    pub status: StatusRow,
}

/// The bookmarks of one actor, in row order.
pub open spec fn bookmarked_by(rows: Seq<BookmarkedStatusRow>, actor_id: Id) -> Seq<
    BookmarkedStatusRow,
> {
    rows.filter(|row: BookmarkedStatusRow| row.actor_id == actor_id.0)
}

/// Whether the row names a visibility.
pub open spec fn readable_row(row: BookmarkedStatusRow) -> bool {
    named_visibility(row.status.visibility@) is Some
}

/// The cursor and the status of a bookmark row.
pub open spec fn bookmark_pair(row: BookmarkedStatusRow) -> (BookmarkCursor, Status) {
    (
        BookmarkCursor(row.bookmark_id as u64),
        status_in(row.status, named_visibility(row.status.visibility@)->0),
    )
}

/// The cursor and the status of a bookmark row.
pub fn bookmarked_row_to_pair(row: BookmarkedStatusRow) -> (r: (BookmarkCursor, Status))
    requires
        readable_row(row),
    ensures
        r == bookmark_pair(row),
{
    (BookmarkCursor(row.bookmark_id as u64), row_to_status(row.status))
}

/// The first place at or after `from` whose cursor is smaller than `cursor`.
pub open spec fn cursor_place(
    pairs: Seq<(BookmarkCursor, Status)>,
    from: int,
    cursor: BookmarkCursor,
) -> int
    decreases pairs.len() - from,
{
    if from >= pairs.len() || pairs[from].0.0 < cursor.0 {
        from
    } else {
        cursor_place(pairs, from + 1, cursor)
    }
}

/// The bookmarks of a row of rows, those with the greatest bookmark id
/// first.
pub open spec fn newest_first(rows: Seq<BookmarkedStatusRow>) -> Seq<(BookmarkCursor, Status)>
    decreases rows.len(),
{
    if rows.len() == 0 {
        Seq::empty()
    } else {
        let rest = newest_first(rows.drop_last());
        let pair = bookmark_pair(rows.last());
        rest.insert(cursor_place(rest, 0, pair.0), pair)
    }
}

proof fn lemma_bookmarked_by_step(rows: Seq<BookmarkedStatusRow>, k: int, actor_id: Id)
    requires
        0 <= k < rows.len(),
    ensures
        newest_first(bookmarked_by(rows.take(k + 1), actor_id)) == (if rows[k].actor_id
            == actor_id.0 {
            let rest = newest_first(bookmarked_by(rows.take(k), actor_id));
            let pair = bookmark_pair(rows[k]);
            rest.insert(cursor_place(rest, 0, pair.0), pair)
        } else {
            newest_first(bookmarked_by(rows.take(k), actor_id))
        }),
{
    reveal(Seq::filter);
    let before = bookmarked_by(rows.take(k), actor_id);
    assert(rows.take(k + 1).drop_last() =~= rows.take(k));
    assert(before.push(rows[k]).drop_last() =~= before);
}

/// The bookmarks of an actor among all rows, the most recent bookmark first:
/// the order is that of the bookmarks, not of the statuses.
pub fn list_bookmarks(rows: Vec<BookmarkedStatusRow>, actor_id: Id) -> (r: Vec<
    (BookmarkCursor, Status),
>)
    requires
        forall|i: int|
            0 <= i < rows.len() && rows@[i].actor_id == actor_id.0 ==> readable_row(
                #[trigger] rows@[i],
            ),
    ensures
        r@ == newest_first(bookmarked_by(rows@, actor_id)),
{
    let ghost all = rows@;
    let mut rest: Vec<BookmarkedStatusRow> = rows;
    let mut turned: Vec<BookmarkedStatusRow> = Vec::new();
    while rest.len() > 0
        invariant
            rest.len() + turned.len() == all.len(),
            rest@ == all.take(rest@.len() as int),
            forall|i: int|
                0 <= i < turned.len() ==> #[trigger] turned@[i] == all[all.len() - 1 - i],
        decreases rest.len(),
    {
        if let Some(row) = rest.pop() {
            turned.push(row);
        }
    }
    let mut out: Vec<(BookmarkCursor, Status)> = Vec::new();
    proof {
        reveal(Seq::filter);
        assert(all.take(0) =~= Seq::<BookmarkedStatusRow>::empty());
        assert(bookmarked_by(all.take(0), actor_id) =~= Seq::<BookmarkedStatusRow>::empty());
    }
    while turned.len() > 0
        invariant
            turned.len() <= all.len(),
            forall|i: int|
                0 <= i < turned.len() ==> #[trigger] turned@[i] == all[all.len() - 1 - i],
            forall|i: int|
                0 <= i < all.len() && all[i].actor_id == actor_id.0 ==> readable_row(
                    #[trigger] all[i],
                ),
            out@ == newest_first(bookmarked_by(all.take(all.len() - turned.len()), actor_id)),
        decreases turned.len(),
    {
        let ghost k = all.len() - turned.len();
        proof {
            lemma_bookmarked_by_step(all, k, actor_id);
        }
        if let Some(row) = turned.pop() {
            assert(row == all[k]);
            if row.actor_id == actor_id.0 {
                let pair: (BookmarkCursor, Status) = bookmarked_row_to_pair(row);
                let mut at: usize = 0;
                while at < out.len() && out[at].0.0 >= pair.0.0
                    invariant
                        at <= out.len(),
                        cursor_place(out@, 0, pair.0) == cursor_place(out@, at as int, pair.0),
                    decreases out.len() - at,
                {
                    at += 1;
                }
                out.insert(at, pair);
            }
        }
    }
    assert(all.take(all.len() as int) =~= all);
    out
}

/// A page of a list.
#[derive(Debug, PartialEq, Eq)]
pub struct Page<T> {
    pub items: Vec<T>,
    pub prev_cursor: Option<String>,
    pub next_cursor: Option<String>,
}

/// The bookmarks of a list that are older than a cursor; all of them without
/// one.
pub open spec fn older_than(
    list: Seq<(BookmarkCursor, Status)>,
    cursor: Option<BookmarkCursor>,
) -> Seq<(BookmarkCursor, Status)> {
    match cursor {
        Some(c) => list.filter(|pair: (BookmarkCursor, Status)| pair.0.0 < c.0),
        None => list,
    }
}

/// A page of bookmarks, and where the next one goes on.
#[derive(Debug, PartialEq, Eq)]
pub struct BookmarkPage {
    pub items: Vec<(BookmarkCursor, Status)>,
    pub next_cursor: Option<String>,
}

/// Whether `page` holds the first `limit` bookmarks of a list that are older
/// than a cursor. Where it leaves some, it names the cursor of its last one.
pub open spec fn is_page(
    page: BookmarkPage,
    list: Seq<(BookmarkCursor, Status)>,
    max_id: Option<BookmarkCursor>,
    limit: nat,
) -> bool {
    let older = older_than(list, max_id);
    if 0 < limit < older.len() {
        &&& page.items@ == older.take(limit as int)
        &&& page.next_cursor matches Some(text) && text@ == decimal_text(
            older[limit - 1].0.0 as nat,
        )
    } else {
        &&& page.items@ == (if limit == 0 {
            Seq::empty()
        } else {
            older
        })
        &&& page.next_cursor is None
    }
}

/// Cuts a page out of a list of bookmarks: the first `limit` of those older
/// than `max_id`.
pub fn bookmark_page(
    list: &[(BookmarkCursor, Status)],
    max_id: Option<BookmarkCursor>,
    limit: usize,
) -> (r: BookmarkPage)
    ensures
        is_page(r, list@, max_id, limit as nat),
{
    let ghost older = older_than(list@, max_id);
    let mut items: Vec<(BookmarkCursor, Status)> = Vec::new();
    let mut i: usize = 0;
    proof {
        reveal(Seq::filter);
        assert(list@.take(0) =~= items@);
        assert(older_than(list@.take(0), max_id) =~= items@);
    }
    while i < list.len()
        invariant
            i <= list.len(),
            items@ == older_than(list@.take(i as int), max_id),
        decreases list.len() - i,
    {
        proof {
            reveal(Seq::filter);
            assert(list@.take(i + 1).drop_last() =~= list@.take(i as int));
            assert(list@.take(i + 1) =~= list@.take(i as int).push(list@[i as int]));
        }
        let is_older: bool = match max_id {
            Some(cursor) => list[i].0.0 < cursor.0,
            None => true,
        };
        if is_older {
            items.push((list[i].0, list[i].1.clone()));
        }
        i += 1;
    }
    assert(list@.take(i as int) =~= list@);
    if limit == 0 {
        return BookmarkPage { items: Vec::new(), next_cursor: None };
    }
    if items.len() <= limit {
        return BookmarkPage { items, next_cursor: None };
    }
    let next_cursor: Option<String> = Some(items[limit - 1].0.encode());
    items.truncate(limit);
    assert(items@ =~= older.take(limit as int));
    BookmarkPage { items, next_cursor }
}

impl BookmarkPage {
    /// The page of the bookmarked statuses. `prev_cursor` is where newer
    /// bookmarks go on; an empty page goes on nowhere.
    pub fn statuses(self, prev_cursor: Option<String>) -> (r: Page<Status>)
        ensures
            r.items@ == self.items@.map_values(|pair: (BookmarkCursor, Status)| pair.1),
            r.prev_cursor == (if self.items@.len() == 0 {
                None
            } else {
                prev_cursor
            }),
            r.next_cursor == self.next_cursor,
    {
        let ghost goal = self.items@.map_values(|pair: (BookmarkCursor, Status)| pair.1);
        let mut items: Vec<Status> = Vec::new();
        let mut i: usize = 0;
        while i < self.items.len()
            invariant
                i <= self.items.len(),
                goal == self.items@.map_values(|pair: (BookmarkCursor, Status)| pair.1),
                items@ == goal.take(i as int),
            decreases self.items.len() - i,
        {
            items.push(self.items[i].1.clone());
            i += 1;
        }
        assert(goal.take(i as int) =~= goal);
        let prev_cursor: Option<String> = if self.items.len() == 0 {
            None
        } else {
            prev_cursor
        };
        Page { items, prev_cursor, next_cursor: self.next_cursor }
    }
}

proof fn lemma_cursor_place(
    pairs: Seq<(BookmarkCursor, Status)>,
    from: int,
    cursor: BookmarkCursor,
)
    requires
        0 <= from <= pairs.len(),
    ensures
        from <= cursor_place(pairs, from, cursor) <= pairs.len(),
        forall|j: int| from <= j < cursor_place(pairs, from, cursor) ==> pairs[j].0.0 >= cursor.0,
        cursor_place(pairs, from, cursor) < pairs.len() ==> pairs[cursor_place(
            pairs,
            from,
            cursor,
        )].0.0 < cursor.0,
    decreases pairs.len() - from,
{
    if from < pairs.len() && pairs[from].0.0 >= cursor.0 {
        lemma_cursor_place(pairs, from + 1, cursor);
    }
}

/// Listing bookmarks loses none, adds none, and puts no bookmark before a
/// more recent one.
pub proof fn law_bookmarks_are_listed_newest_first(rows: Seq<BookmarkedStatusRow>)
    ensures
        newest_first(rows).to_multiset() == rows.map_values(
            |row: BookmarkedStatusRow| bookmark_pair(row),
        ).to_multiset(),
        newest_first(rows).len() == rows.len(),
        forall|i: int, j: int|
            0 <= i < j < rows.len() ==> newest_first(rows)[i].0.0 >= newest_first(rows)[j].0.0,
    decreases rows.len(),
{
    let pairs = rows.map_values(|row: BookmarkedStatusRow| bookmark_pair(row));
    if rows.len() > 0 {
        let init = rows.drop_last();
        let rest = newest_first(init);
        let pair = bookmark_pair(rows.last());
        let at = cursor_place(rest, 0, pair.0);
        law_bookmarks_are_listed_newest_first(init);
        lemma_cursor_place(rest, 0, pair.0);
        rest.insert_ensures(at, pair);
        vstd::seq_lib::to_multiset_insert(rest, at, pair);
        let init_pairs = init.map_values(|row: BookmarkedStatusRow| bookmark_pair(row));
        vstd::seq_lib::to_multiset_build(init_pairs, pair);
        assert(pairs =~= init_pairs.push(pair));
    } else {
        assert(pairs =~= newest_first(rows));
    }
}

/// Whether the rows have the keys of the table: no two bookmarks share an id,
/// no actor bookmarked a status twice, and no id is negative.
pub open spec fn bookmarks_are_keyed(rows: Seq<BookmarkedStatusRow>) -> bool {
    &&& forall|i: int| 0 <= i < rows.len() ==> (#[trigger] rows[i]).bookmark_id >= 0
    &&& forall|i: int, j: int|
        0 <= i < j < rows.len() ==> (#[trigger] rows[i]).bookmark_id != (
        #[trigger] rows[j]).bookmark_id && (rows[i].actor_id != rows[j].actor_id
            || rows[i].status.id != rows[j].status.id)
}

/// Whether a pair is that of a row.
pub open spec fn is_row_of(
    rows: Seq<BookmarkedStatusRow>,
    pair: (BookmarkCursor, Status),
) -> bool {
    exists|i: int| 0 <= i < rows.len() && pair == bookmark_pair(#[trigger] rows[i])
}

/// The cursor that a page is read with: the one that the page before names,
/// and none for the first page.
pub open spec fn page_start(pages: Seq<BookmarkPage>, k: int) -> Option<BookmarkCursor> {
    if k <= 0 {
        None
    } else {
        match pages[k - 1].next_cursor {
            Some(text) => cursor_read(text@),
            None => None,
        }
    }
}

/// Whether `pages` are the pages of a list read in turn, each with the cursor
/// that the page before names, until a page names none.
pub open spec fn are_pages(
    pages: Seq<BookmarkPage>,
    list: Seq<(BookmarkCursor, Status)>,
    limit: nat,
) -> bool {
    &&& pages.len() > 0
    &&& forall|k: int|
        0 <= k < pages.len() ==> is_page(#[trigger] pages[k], list, page_start(pages, k), limit)
    &&& forall|k: int| 0 <= k < pages.len() - 1 ==> (#[trigger] pages[k]).next_cursor is Some
    &&& pages.last().next_cursor is None
}

/// The bookmarks of a row of pages, one page after the other.
pub open spec fn joined_pages(pages: Seq<BookmarkPage>) -> Seq<(BookmarkCursor, Status)>
    decreases pages.len(),
{
    if pages.len() == 0 {
        Seq::empty()
    } else {
        joined_pages(pages.drop_last()) + pages.last().items@
    }
}

pub(crate) proof fn lemma_one_actors_rows(rows: Seq<BookmarkedStatusRow>, actor_id: Id)
    requires
        bookmarks_are_keyed(rows),
    ensures
        bookmarks_are_keyed(bookmarked_by(rows, actor_id)),
        forall|row: BookmarkedStatusRow| #[trigger]
            bookmarked_by(rows, actor_id).contains(row) <==> rows.contains(row) && row.actor_id
                == actor_id.0,
    decreases rows.len(),
{
    reveal(Seq::filter);
    let all = bookmarked_by(rows, actor_id);
    if rows.len() > 0 {
        let init = rows.drop_last();
        let last = rows.last();
        let before = bookmarked_by(init, actor_id);
        assert(rows =~= init.push(last));
        assert(bookmarks_are_keyed(init)) by {
            assert forall|i: int| 0 <= i < init.len() implies (#[trigger] init[i]).bookmark_id
                >= 0 by {
                assert(init[i] == rows[i]);
            }
            assert forall|i: int, j: int| 0 <= i < j < init.len() implies (
            #[trigger] init[i]).bookmark_id != (#[trigger] init[j]).bookmark_id && (
            init[i].actor_id != init[j].actor_id || init[i].status.id != init[j].status.id) by {
                assert(init[i] == rows[i] && init[j] == rows[j]);
            }
        }
        lemma_one_actors_rows(init, actor_id);
        assert(all =~= if last.actor_id == actor_id.0 {
            before.push(last)
        } else {
            before
        });
        assert(rows[rows.len() - 1] == last);
        assert forall|row: BookmarkedStatusRow| #[trigger] all.contains(row) <==> rows.contains(row)
            && row.actor_id == actor_id.0 by {
            assert(before.contains(row) <==> init.contains(row) && row.actor_id == actor_id.0);
            if all.contains(row) {
                let k = choose|k: int| 0 <= k < all.len() && all[k] == row;
                if k < before.len() {
                    assert(before[k] == row);
                    let i = choose|i: int| 0 <= i < init.len() && init[i] == row;
                    assert(rows[i] == row);
                }
            }
            if rows.contains(row) && row.actor_id == actor_id.0 {
                let i = choose|i: int| 0 <= i < rows.len() && rows[i] == row;
                if i < init.len() {
                    assert(init[i] == row);
                    let k = choose|k: int| 0 <= k < before.len() && before[k] == row;
                    assert(all[k] == row);
                } else {
                    assert(all[before.len() as int] == row);
                }
            }
        }
        assert forall|i: int, j: int| 0 <= i < j < all.len() implies (
        #[trigger] all[i]).bookmark_id != (#[trigger] all[j]).bookmark_id && (all[i].actor_id
            != all[j].actor_id || all[i].status.id != all[j].status.id) by {
            assert(all[i] == before[i]);
            if j < before.len() {
                assert(all[j] == before[j]);
            } else {
                assert(before.contains(before[i]));
                let k = choose|k: int| 0 <= k < init.len() && init[k] == before[i];
                assert(rows[k] == all[i]);
            }
        }
        assert forall|i: int| 0 <= i < all.len() implies (#[trigger] all[i]).bookmark_id >= 0 by {
            if i < before.len() {
                assert(all[i] == before[i]);
            }
        }
    }
}

proof fn lemma_insert_contains(
    list: Seq<(BookmarkCursor, Status)>,
    at: int,
    pair: (BookmarkCursor, Status),
)
    requires
        0 <= at <= list.len(),
    ensures
        forall|p: (BookmarkCursor, Status)| #[trigger]
            list.insert(at, pair).contains(p) <==> list.contains(p) || p == pair,
{
    let all = list.insert(at, pair);
    list.insert_ensures(at, pair);
    assert forall|p: (BookmarkCursor, Status)| #[trigger] all.contains(p) <==> list.contains(p)
        || p == pair by {
        if all.contains(p) {
            let k = choose|k: int| 0 <= k < all.len() && all[k] == p;
            if k < at {
                assert(list[k] == p);
            } else if k > at {
                assert(list[k - 1] == p);
            }
        }
        if list.contains(p) {
            let k = choose|k: int| 0 <= k < list.len() && list[k] == p;
            if k < at {
                assert(all[k] == p);
            } else {
                assert(all[k + 1] == p);
            }
        }
        if p == pair {
            assert(all[at] == p);
        }
    }
}

pub(crate) proof fn lemma_listed_are_rows(rows: Seq<BookmarkedStatusRow>)
    ensures
        forall|p: (BookmarkCursor, Status)| #[trigger]
            newest_first(rows).contains(p) <==> is_row_of(rows, p),
    decreases rows.len(),
{
    if rows.len() > 0 {
        let init = rows.drop_last();
        let rest = newest_first(init);
        let pair = bookmark_pair(rows.last());
        lemma_listed_are_rows(init);
        lemma_cursor_place(rest, 0, pair.0);
        lemma_insert_contains(rest, cursor_place(rest, 0, pair.0), pair);
        assert forall|p: (BookmarkCursor, Status)| #[trigger]
            newest_first(rows).contains(p) <==> is_row_of(rows, p) by {
            assert(rest.contains(p) <==> is_row_of(init, p));
            if is_row_of(init, p) {
                let i = choose|i: int|
                    0 <= i < init.len() && p == bookmark_pair(#[trigger] init[i]);
                assert(rows[i] == init[i]);
            }
            if p == pair {
                assert(p == bookmark_pair(rows[rows.len() - 1]));
            }
            if is_row_of(rows, p) && p != pair {
                let i = choose|i: int|
                    0 <= i < rows.len() && p == bookmark_pair(#[trigger] rows[i]);
                assert(init[i] == rows[i]);
            }
        }
    }
}

pub(crate) proof fn lemma_newest_first(rows: Seq<BookmarkedStatusRow>)
    requires
        bookmarks_are_keyed(rows),
    ensures
        newest_first(rows).len() == rows.len(),
        forall|i: int, j: int|
            0 <= i < j < rows.len() ==> newest_first(rows)[i].0.0 > newest_first(rows)[j].0.0,
    decreases rows.len(),
{
    if rows.len() > 0 {
        let init = rows.drop_last();
        let rest = newest_first(init);
        let pair = bookmark_pair(rows.last());
        let at = cursor_place(rest, 0, pair.0);
        let all = newest_first(rows);
        assert forall|i: int| 0 <= i < init.len() implies (#[trigger] init[i]).bookmark_id
            >= 0 by {
            assert(init[i] == rows[i]);
        }
        assert forall|i: int, j: int| 0 <= i < j < init.len() implies (
        #[trigger] init[i]).bookmark_id != (#[trigger] init[j]).bookmark_id && (init[i].actor_id
            != init[j].actor_id || init[i].status.id != init[j].status.id) by {
            assert(init[i] == rows[i] && init[j] == rows[j]);
        }
        lemma_newest_first(init);
        lemma_listed_are_rows(init);
        lemma_cursor_place(rest, 0, pair.0);
        rest.insert_ensures(at, pair);
        assert(rows[rows.len() - 1] == rows.last());
        assert forall|k: int| 0 <= k < rest.len() implies (#[trigger] rest[k]).0.0
            != pair.0.0 by {
            assert(rest.contains(rest[k]));
            let i = choose|i: int|
                0 <= i < init.len() && rest[k] == bookmark_pair(#[trigger] init[i]);
            assert(init[i] == rows[i]);
        }
        assert forall|i: int, j: int| 0 <= i < j < rows.len() implies all[i].0.0
            > all[j].0.0 by {
            let m = if i < at {
                i
            } else {
                i - 1
            };
            let n = if j < at {
                j
            } else {
                j - 1
            };
            if i == at {
                assert(all[j] == rest[n]);
                assert(rest[at].0.0 < pair.0.0);
                if n > at {
                    assert(rest[at].0.0 > rest[n].0.0);
                }
            } else if j == at {
                assert(all[i] == rest[i]);
            } else {
                assert(all[i] == rest[m] && all[j] == rest[n]);
            }
        }
    }
}

proof fn lemma_older_is_the_rest(list: Seq<(BookmarkCursor, Status)>, k: int)
    requires
        0 <= k < list.len(),
        forall|i: int, j: int| 0 <= i < j < list.len() ==> list[i].0.0 > list[j].0.0,
    ensures
        older_than(list, Some(list[k].0)) == list.skip(k + 1),
{
    let pred = |pair: (BookmarkCursor, Status)| pair.0.0 < list[k].0.0;
    let head = list.take(k + 1);
    let tail = list.skip(k + 1);
    assert(list =~= head + tail);
    Seq::filter_distributes_over_add(head, tail, pred);
    lemma_filter_keeps_none(head, pred);
    lemma_filter_keeps_all(tail, pred);
    assert(head.filter(pred) + tail.filter(pred) =~= tail);
}

proof fn lemma_filter_keeps_none(
    list: Seq<(BookmarkCursor, Status)>,
    pred: spec_fn((BookmarkCursor, Status)) -> bool,
)
    requires
        forall|i: int| 0 <= i < list.len() ==> !pred(#[trigger] list[i]),
    ensures
        list.filter(pred).len() == 0,
    decreases list.len(),
{
    reveal(Seq::filter);
    if list.len() > 0 {
        assert forall|i: int| 0 <= i < list.drop_last().len() implies !pred(
            #[trigger] list.drop_last()[i],
        ) by {
            assert(list.drop_last()[i] == list[i]);
        }
        lemma_filter_keeps_none(list.drop_last(), pred);
        assert(list[list.len() - 1] == list.last());
    }
}

proof fn lemma_filter_keeps_all(
    list: Seq<(BookmarkCursor, Status)>,
    pred: spec_fn((BookmarkCursor, Status)) -> bool,
)
    requires
        forall|i: int| 0 <= i < list.len() ==> pred(#[trigger] list[i]),
    ensures
        list.filter(pred) == list,
    decreases list.len(),
{
    reveal(Seq::filter);
    if list.len() > 0 {
        assert forall|i: int| 0 <= i < list.drop_last().len() implies pred(
            #[trigger] list.drop_last()[i],
        ) by {
            assert(list.drop_last()[i] == list[i]);
        }
        lemma_filter_keeps_all(list.drop_last(), pred);
        assert(list[list.len() - 1] == list.last());
        assert(list.drop_last().push(list.last()) =~= list);
    }
}

/// The pages of an actor's bookmarks, each read with the cursor that the page
/// before names until a page names none, hold every bookmark of the actor
/// once and nobody else's, the most recent bookmark first, however many a page
/// may hold; and no page holds more. Without bookmarks there is one page, an
/// empty one.
pub proof fn law_pages_join_to_the_list(
    rows: Seq<BookmarkedStatusRow>,
    actor_id: Id,
    limit: nat,
    pages: Seq<BookmarkPage>,
)
    requires
        limit > 0,
        bookmarks_are_keyed(rows),
        are_pages(pages, newest_first(bookmarked_by(rows, actor_id)), limit),
    ensures
        joined_pages(pages) == newest_first(bookmarked_by(rows, actor_id)),
        forall|p: (BookmarkCursor, Status)| #[trigger]
            joined_pages(pages).contains(p) <==> (exists|i: int|
                0 <= i < rows.len() && (#[trigger] rows[i]).actor_id == actor_id.0 && p
                    == bookmark_pair(rows[i])),
        forall|i: int, j: int|
            0 <= i < j < joined_pages(pages).len() ==> joined_pages(pages)[i].0.0 > joined_pages(
                pages,
            )[j].0.0 && joined_pages(pages)[i].1.id != joined_pages(pages)[j].1.id,
        forall|k: int| 0 <= k < pages.len() ==> (#[trigger] pages[k]).items@.len() <= limit,
        bookmarked_by(rows, actor_id).len() == 0 ==> pages.len() == 1 && pages[0].items@.len() == 0
            && pages[0].next_cursor is None,
{
    let own = bookmarked_by(rows, actor_id);
    let list = newest_first(own);
    lemma_one_actors_rows(rows, actor_id);
    lemma_newest_first(own);
    lemma_listed_are_rows(own);
    lemma_pages_join(list, limit, pages, pages.len() as int);
    assert(pages.take(pages.len() as int) =~= pages);
    assert forall|p: (BookmarkCursor, Status)| #[trigger] list.contains(p) <==> (exists|i: int|
        0 <= i < rows.len() && (#[trigger] rows[i]).actor_id == actor_id.0 && p == bookmark_pair(
            rows[i],
        )) by {
        assert(list.contains(p) <==> is_row_of(own, p));
        if list.contains(p) {
            let k = choose|k: int| 0 <= k < own.len() && p == bookmark_pair(#[trigger] own[k]);
            assert(own.contains(own[k]));
            let i = choose|i: int| 0 <= i < rows.len() && rows[i] == own[k];
            assert(rows[i].actor_id == actor_id.0);
        }
        if exists|i: int|
            0 <= i < rows.len() && (#[trigger] rows[i]).actor_id == actor_id.0 && p
                == bookmark_pair(rows[i]) {
            let i = choose|i: int|
                0 <= i < rows.len() && (#[trigger] rows[i]).actor_id == actor_id.0 && p
                    == bookmark_pair(rows[i]);
            assert(rows.contains(rows[i]));
            assert(own.contains(rows[i]));
            let k = choose|k: int| 0 <= k < own.len() && own[k] == rows[i];
            assert(p == bookmark_pair(own[k]));
        }
    }
    assert forall|i: int, j: int| 0 <= i < j < list.len() implies list[i].0.0 > list[j].0.0
        && list[i].1.id != list[j].1.id by {
        assert(list.contains(list[i]) && list.contains(list[j]));
        assert(is_row_of(own, list[i]) && is_row_of(own, list[j]));
        let a = choose|a: int| 0 <= a < own.len() && list[i] == bookmark_pair(#[trigger] own[a]);
        let b = choose|b: int| 0 <= b < own.len() && list[j] == bookmark_pair(#[trigger] own[b]);
        assert(own.contains(own[a]) && own.contains(own[b]));
        assert(a != b);
        if a < b {
            assert(own[a].status.id != own[b].status.id);
        } else {
            assert(own[b].status.id != own[a].status.id);
        }
    }
    assert forall|k: int| 0 <= k < pages.len() implies (#[trigger] pages[k]).items@.len()
        <= limit by {
        assert(is_page(pages[k], list, page_start(pages, k), limit));
    }
    if own.len() == 0 {
        assert(is_page(pages[0], list, page_start(pages, 0), limit));
    }
}

proof fn lemma_page_goes_on(
    list: Seq<(BookmarkCursor, Status)>,
    start: Option<BookmarkCursor>,
    n: int,
    limit: nat,
    page: BookmarkPage,
)
    requires
        limit > 0,
        forall|i: int, j: int| 0 <= i < j < list.len() ==> list[i].0.0 > list[j].0.0,
        0 <= n <= list.len(),
        older_than(list, start) == list.skip(n),
        is_page(page, list, start, limit),
    ensures
        n + page.items@.len() <= list.len(),
        list.take(n) + page.items@ == list.take(n + page.items@.len()),
        match page.next_cursor {
            Some(text) => older_than(list, cursor_read(text@)) == list.skip(n + page.items@.len()),
            None => n + page.items@.len() == list.len(),
        },
{
    let older = list.skip(n);
    assert(list.take(n) + page.items@ =~= list.take(n + page.items@.len()));
    if limit < older.len() {
        let last = n + limit - 1;
        assert(older[limit - 1] == list[last]);
        list[last].0.law_cursor_round_trip();
        lemma_older_is_the_rest(list, last);
    }
}

proof fn lemma_pages_join(
    list: Seq<(BookmarkCursor, Status)>,
    limit: nat,
    pages: Seq<BookmarkPage>,
    k: int,
)
    requires
        limit > 0,
        forall|i: int, j: int| 0 <= i < j < list.len() ==> list[i].0.0 > list[j].0.0,
        are_pages(pages, list, limit),
        0 <= k <= pages.len(),
    ensures
        joined_pages(pages.take(k)).len() <= list.len(),
        joined_pages(pages.take(k)) == list.take(joined_pages(pages.take(k)).len() as int),
        k < pages.len() ==> older_than(list, page_start(pages, k)) == list.skip(
            joined_pages(pages.take(k)).len() as int,
        ),
        k == pages.len() ==> joined_pages(pages.take(k)) == list,
    decreases k,
{
    if k == 0 {
        assert(pages.take(0) =~= Seq::<BookmarkPage>::empty());
        assert(list.take(0) =~= Seq::<(BookmarkCursor, Status)>::empty());
        assert(list.skip(0) =~= list);
    } else {
        lemma_pages_join(list, limit, pages, k - 1);
        let n = joined_pages(pages.take(k - 1)).len() as int;
        let page = pages[k - 1];
        lemma_page_goes_on(list, page_start(pages, k - 1), n, limit, page);
        assert(pages.take(k).drop_last() =~= pages.take(k - 1));
        assert(joined_pages(pages.take(k)) == joined_pages(pages.take(k - 1)) + page.items@);
        if k < pages.len() {
            assert(page.next_cursor is Some);
        } else {
            assert(pages.last() == page);
            assert(list.take(list.len() as int) =~= list);
        }
    }
}

} // verus!
