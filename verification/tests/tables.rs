use statuses::account_provider::{
    account_ref_id, contributed_counts, list_statuses, passes_filters, resolve_reblog_target,
    Candidate, StatusFilters,
};
use statuses::clock::Timestamp;
use statuses::domain::{AccountRef, Id, Visibility};
use statuses::error::UNPROCESSABLE_ENTITY;
use statuses::interaction_repository::{
    bookmark_page, list_bookmarks, row_to_status, visibility_from_str, BookmarkCursor,
    BookmarkPage, BookmarkedStatusRow, StatusRow,
};
use statuses::interaction_rows::{
    add_bookmark, add_favourite, bookmarked_status_ids, exists_bookmark, exists_favourite,
    exists_pin, favourited_status_ids, find_reblog, pinned_status_ids, reblogged_status_ids,
    remove_bookmark, remove_favourite, set_pin, BookmarkRow, InteractionRow,
};
use statuses::model::Status;

fn now() -> Timestamp {
    Timestamp::new(0, 0).expect("within the calendar")
}

fn id(value: i64) -> Id {
    Id::from_i64(value)
}

fn row(status_id: i64, actor_id: i64) -> StatusRow {
    StatusRow {
        id: status_id,
        actor_id,
        uri: format!("https://kawasemi.example/statuses/{status_id}"),
        url: None,
        content: "a post".to_string(),
        visibility: "public".to_string(),
        sensitive: false,
        spoiler_text: String::new(),
        in_reply_to_id: None,
        in_reply_to_account_id: None,
        reblog_of_id: None,
        poll_id: None,
        language: None,
        reblogs_count: 0,
        favourites_count: 0,
        replies_count: 0,
        local: true,
        created_at: now(),
        edited_at: None,
    }
}

fn status(status_id: i64, actor_id: i64) -> Status {
    row_to_status(row(status_id, actor_id))
}

#[test]
fn add_favourite_records_a_new_favourite() {
    let mut rows: Vec<InteractionRow> = Vec::new();
    assert!(add_favourite(&mut rows, id(1), id(5), now()));
    assert!(exists_favourite(&rows, id(1), id(5)));
}

#[test]
fn add_favourite_suppresses_duplicate_registration() {
    let mut rows: Vec<InteractionRow> = Vec::new();
    assert!(add_favourite(&mut rows, id(1), id(5), now()));
    assert!(!add_favourite(&mut rows, id(1), id(5), now()));
    assert_eq!(rows.len(), 1);
}

#[test]
fn remove_favourite_revokes_and_is_idempotent() {
    let mut rows: Vec<InteractionRow> = Vec::new();
    add_favourite(&mut rows, id(1), id(5), now());
    assert!(remove_favourite(&mut rows, id(1), id(5)));
    assert!(!remove_favourite(&mut rows, id(1), id(5)));
    assert!(!exists_favourite(&rows, id(1), id(5)));
}

#[test]
fn favourites_are_independent_per_actor() {
    let mut rows: Vec<InteractionRow> = Vec::new();
    assert!(add_favourite(&mut rows, id(1), id(5), now()));
    assert!(add_favourite(&mut rows, id(2), id(5), now()));
    assert!(exists_favourite(&rows, id(1), id(5)));
    assert!(exists_favourite(&rows, id(2), id(5)));
    remove_favourite(&mut rows, id(1), id(5));
    assert!(!exists_favourite(&rows, id(1), id(5)));
    assert!(exists_favourite(&rows, id(2), id(5)));
}

#[test]
fn add_bookmark_records_a_new_bookmark() {
    let mut rows: Vec<BookmarkRow> = Vec::new();
    assert!(add_bookmark(&mut rows, id(100), id(1), id(5), now()));
    assert!(exists_bookmark(&rows, id(1), id(5)));
}

#[test]
fn add_bookmark_suppresses_duplicate_registration() {
    let mut rows: Vec<BookmarkRow> = Vec::new();
    assert!(add_bookmark(&mut rows, id(100), id(1), id(5), now()));
    assert!(!add_bookmark(&mut rows, id(101), id(1), id(5), now()));
    assert_eq!(rows.len(), 1);
    assert_eq!(rows[0].id, id(100));
}

#[test]
fn remove_bookmark_revokes_and_is_idempotent() {
    let mut rows: Vec<BookmarkRow> = Vec::new();
    add_bookmark(&mut rows, id(100), id(1), id(5), now());
    add_bookmark(&mut rows, id(101), id(1), id(6), now());
    assert!(remove_bookmark(&mut rows, id(1), id(5)));
    assert!(!remove_bookmark(&mut rows, id(1), id(5)));
    assert!(exists_bookmark(&rows, id(1), id(6)));
}

#[test]
fn set_pin_true_records_a_new_pin() {
    let mut rows: Vec<InteractionRow> = Vec::new();
    assert!(set_pin(&mut rows, id(1), id(5), true, now()));
    assert!(exists_pin(&rows, id(1), id(5)));
}

#[test]
fn set_pin_true_suppresses_duplicate_registration() {
    let mut rows: Vec<InteractionRow> = Vec::new();
    set_pin(&mut rows, id(1), id(5), true, now());
    assert!(!set_pin(&mut rows, id(1), id(5), true, now()));
    assert_eq!(rows.len(), 1);
}

#[test]
fn set_pin_false_revokes_and_is_idempotent() {
    let mut rows: Vec<InteractionRow> = Vec::new();
    set_pin(&mut rows, id(1), id(5), true, now());
    assert!(set_pin(&mut rows, id(1), id(5), false, now()));
    assert!(!set_pin(&mut rows, id(1), id(5), false, now()));
    assert!(!exists_pin(&rows, id(1), id(5)));
}

fn boost(status_id: i64, actor_id: i64, target: i64) -> Status {
    let mut out = row(status_id, actor_id);
    out.reblog_of_id = Some(target);
    row_to_status(out)
}

#[test]
fn find_reblog_locates_the_actors_own_boost_row() {
    let mut rows = vec![status(5, 1)];
    assert_eq!(find_reblog(&rows, id(2), id(5)), None);
    rows.push(boost(9, 2, 5));
    let found = find_reblog(&rows, id(2), id(5)).expect("the boost is there");
    assert_eq!(found, boost(9, 2, 5));
    assert_eq!(found.id, id(9));
    assert_eq!(found.reblog_of_id, Some(id(5)));
    assert_eq!(find_reblog(&rows, id(2), id(9)), None);
}

#[test]
fn find_reblog_is_scoped_to_the_requesting_actor() {
    let rows = vec![status(5, 1), boost(9, 2, 5)];
    assert_eq!(find_reblog(&rows, id(3), id(5)), None);
}

const VIEWER: i64 = 1;
const OTHER_ACTOR: i64 = 2;
const AUTHOR: i64 = 3;
const MINE: i64 = 5;
const THEIRS: i64 = 6;
const UNTOUCHED: i64 = 7;
const UNKNOWN: i64 = i64::MAX - 17;

fn asked() -> Vec<Id> {
    vec![id(MINE), id(THEIRS), id(UNTOUCHED), id(UNKNOWN)]
}

/// Only the viewer's own interaction is in a batched answer.
fn assert_batch_membership(batched: &[Id], what: &str) {
    assert!(batched.contains(&id(MINE)), "{what}: the viewer's own interaction is there");
    assert!(!batched.contains(&id(THEIRS)), "{what}: another actor's is not");
    assert!(!batched.contains(&id(UNTOUCHED)), "{what}: a status left alone is not");
    assert!(!batched.contains(&id(UNKNOWN)), "{what}: an unknown id is not");
    assert_eq!(batched.len(), 1, "{what}: nothing else is there");
}

#[test]
fn favourited_status_ids_matches_calling_the_singular_version_per_status() {
    let mut rows: Vec<InteractionRow> = Vec::new();
    add_favourite(&mut rows, id(VIEWER), id(MINE), now());
    add_favourite(&mut rows, id(OTHER_ACTOR), id(THEIRS), now());
    let per_call: Vec<Id> =
        asked().into_iter().filter(|s| exists_favourite(&rows, id(VIEWER), *s)).collect();
    let batched = favourited_status_ids(&rows, id(VIEWER), &asked());
    assert_eq!(batched, per_call);
    assert_batch_membership(&batched, "favourited_status_ids");
}

#[test]
fn bookmarked_status_ids_matches_calling_the_singular_version_per_status() {
    let mut rows: Vec<BookmarkRow> = Vec::new();
    add_bookmark(&mut rows, id(100), id(VIEWER), id(MINE), now());
    add_bookmark(&mut rows, id(101), id(OTHER_ACTOR), id(THEIRS), now());
    let per_call: Vec<Id> =
        asked().into_iter().filter(|s| exists_bookmark(&rows, id(VIEWER), *s)).collect();
    let batched = bookmarked_status_ids(&rows, id(VIEWER), &asked());
    assert_eq!(batched, per_call);
    assert_batch_membership(&batched, "bookmarked_status_ids");
}

#[test]
fn pinned_status_ids_matches_calling_the_singular_version_per_status() {
    let mut rows: Vec<InteractionRow> = Vec::new();
    set_pin(&mut rows, id(VIEWER), id(MINE), true, now());
    set_pin(&mut rows, id(OTHER_ACTOR), id(THEIRS), true, now());
    let per_call: Vec<Id> =
        asked().into_iter().filter(|s| exists_pin(&rows, id(VIEWER), *s)).collect();
    let batched = pinned_status_ids(&rows, id(VIEWER), &asked());
    assert_eq!(batched, per_call);
    assert_batch_membership(&batched, "pinned_status_ids");
}

#[test]
fn reblogged_status_ids_matches_calling_the_singular_version_per_status() {
    let rows = vec![
        status(MINE, AUTHOR),
        status(THEIRS, AUTHOR),
        status(UNTOUCHED, AUTHOR),
        boost(9, VIEWER, MINE),
        boost(10, OTHER_ACTOR, THEIRS),
    ];
    let per_call: Vec<Id> =
        asked().into_iter().filter(|s| find_reblog(&rows, id(VIEWER), *s).is_some()).collect();
    let batched = reblogged_status_ids(&rows, id(VIEWER), &asked());
    assert_eq!(batched, per_call);
    assert_batch_membership(&batched, "reblogged_status_ids");
    assert!(!batched.contains(&id(9)), "the boosted status is named, not the boost");
}

#[test]
fn batched_answers_keep_the_order_of_the_question() {
    let mut rows: Vec<InteractionRow> = Vec::new();
    add_favourite(&mut rows, id(1), id(5), now());
    add_favourite(&mut rows, id(1), id(7), now());
    assert_eq!(favourited_status_ids(&rows, id(1), &[id(7), id(6), id(5)]), vec![id(7), id(5)]);
}

#[test]
fn batched_interaction_state_returns_empty_for_an_empty_slice_without_querying() {
    assert!(favourited_status_ids(&[], id(1), &[]).is_empty());
    assert!(bookmarked_status_ids(&[], id(1), &[]).is_empty());
    assert!(pinned_status_ids(&[], id(1), &[]).is_empty());
    assert!(reblogged_status_ids(&[], id(1), &[]).is_empty());
}

fn bookmarked(bookmark_id: i64, actor_id: i64, status_id: i64) -> BookmarkedStatusRow {
    BookmarkedStatusRow { bookmark_id, actor_id, status: row(status_id, 1) }
}

fn status_ids(listed: &[(BookmarkCursor, Status)]) -> Vec<Id> {
    listed.iter().map(|pair| pair.1.id).collect()
}

#[test]
fn list_bookmarks_orders_by_bookmark_creation_not_status_creation() {
    let rows = vec![bookmarked(10, 4, 3), bookmarked(30, 4, 1), bookmarked(20, 4, 2)];
    let listed = list_bookmarks(rows, id(4));
    let shown: Vec<(u64, Id)> = listed.iter().map(|pair| (pair.0 .0, pair.1.id)).collect();
    assert_eq!(shown, vec![(30, id(1)), (20, id(2)), (10, id(3))]);
}

#[test]
fn list_bookmarks_is_scoped_to_the_requesting_actor() {
    let rows = || vec![bookmarked(10, 4, 3)];
    assert_eq!(list_bookmarks(rows(), id(4)).len(), 1);
    assert!(list_bookmarks(rows(), id(5)).is_empty());
    let mixed =
        vec![bookmarked(10, 4, 3), bookmarked(20, 5, 3), bookmarked(30, 5, 2), bookmarked(40, 4, 1)];
    assert_eq!(status_ids(&list_bookmarks(mixed, id(4))), vec![id(1), id(3)]);
}

#[test]
fn list_bookmarks_paginates_with_its_own_cursor() {
    let rows = vec![bookmarked(10, 4, 1), bookmarked(20, 4, 2), bookmarked(30, 4, 3)];
    let listed = list_bookmarks(rows, id(4));
    let first_page = bookmark_page(&listed, None, 2);
    assert_eq!(status_ids(&first_page.items), vec![id(3), id(2)]);
    let next_cursor = first_page.next_cursor.expect("there are more");
    let max_id = BookmarkCursor::decode(&next_cursor).expect("can be read");
    let second_page = bookmark_page(&listed, Some(max_id), 2);
    assert_eq!(status_ids(&second_page.items), vec![id(1)]);
    assert_eq!(second_page.next_cursor, None);
}

#[test]
fn list_bookmarks_returns_empty_page_when_nothing_bookmarked() {
    let listed = list_bookmarks(Vec::new(), id(4));
    let page = bookmark_page(&listed, None, 20).statuses(None);
    assert!(page.items.is_empty());
    assert!(page.next_cursor.is_none());
    assert!(page.prev_cursor.is_none());
}

#[test]
fn pages_of_bookmarks_join_to_the_list() {
    let listed = list_bookmarks(
        vec![
            bookmarked(40, 4, 8),
            bookmarked(45, 5, 8),
            bookmarked(10, 4, 3),
            bookmarked(30, 4, 1),
            bookmarked(50, 4, 2),
            bookmarked(20, 4, 9),
        ],
        id(4),
    );
    assert_eq!(status_ids(&listed), vec![id(2), id(8), id(1), id(9), id(3)]);
    for limit in 1..7 {
        let mut max_id: Option<BookmarkCursor> = None;
        let mut joined: Vec<(BookmarkCursor, Status)> = Vec::new();
        loop {
            let page = bookmark_page(&listed, max_id, limit);
            assert!(page.items.len() <= limit);
            joined.extend(page.items);
            match page.next_cursor {
                Some(text) => max_id = Some(BookmarkCursor::decode(&text).expect("can be read")),
                None => break,
            }
        }
        assert_eq!(joined, listed);
    }
    assert_eq!(
        bookmark_page(&listed, None, 0),
        BookmarkPage { items: Vec::new(), next_cursor: None }
    );
}

#[test]
fn a_page_of_bookmarks_is_a_page_of_their_statuses() {
    let listed = list_bookmarks(vec![bookmarked(10, 4, 3), bookmarked(30, 4, 1)], id(4));
    let shown = bookmark_page(&listed, None, 1).statuses(Some(BookmarkCursor(30).encode()));
    let ids: Vec<Id> = shown.items.iter().map(|s| s.id).collect();
    assert_eq!(ids, vec![id(1)]);
    assert_eq!(shown.prev_cursor.as_deref(), Some("30"));
    assert_eq!(shown.next_cursor.as_deref(), Some("30"));
    let empty = bookmark_page(&[], None, 1).statuses(Some(BookmarkCursor(30).encode()));
    assert_eq!(empty.prev_cursor, None);
}

#[test]
fn cursors_round_trip_and_reject_everything_else() {
    for value in [0u64, 7, 1000, u64::MAX] {
        let cursor = BookmarkCursor(value);
        assert_eq!(BookmarkCursor::decode(&cursor.encode()), Ok(cursor));
    }
    let err = BookmarkCursor::decode("x1").expect_err("must be rejected");
    assert_eq!(err.status, UNPROCESSABLE_ENTITY);
    assert_eq!(err.public_message, "invalid cursor value: 'x1'");
    assert!(BookmarkCursor::decode("-1").is_err());
}

#[test]
fn rows_are_read_field_by_field() {
    let mut raw = row(5, 1);
    raw.visibility = "direct".to_string();
    raw.in_reply_to_id = Some(4);
    raw.in_reply_to_account_id = Some(2);
    raw.poll_id = Some(8);
    raw.replies_count = 3;
    let read = row_to_status(raw);
    assert_eq!(read.id, id(5));
    assert_eq!(read.visibility, Visibility::Direct);
    assert_eq!(read.in_reply_to_id, Some(id(4)));
    assert_eq!(read.in_reply_to_account_id, Some(id(2)));
    assert_eq!(read.poll_id, Some(id(8)));
    assert_eq!(read.replies_count, 3);
    assert_eq!(visibility_from_str("private"), Visibility::Private);
}

const ALL: StatusFilters = StatusFilters {
    exclude_replies: false,
    exclude_reblogs: false,
    only_media: false,
    pinned: false,
};

fn candidate(status: Status) -> Candidate {
    Candidate { status, visible: true, media_ids: Vec::new(), is_pinned: false }
}

#[test]
fn filters_leave_out_what_they_name() {
    let mut reply = status(6, 1);
    reply.in_reply_to_id = Some(id(2));
    let plain = status(5, 1);
    assert!(passes_filters(&reply, &ALL, &[], false));
    assert!(!passes_filters(&reply, &StatusFilters { exclude_replies: true, ..ALL }, &[], false));
    assert!(!passes_filters(
        &boost(7, 1, 2),
        &StatusFilters { exclude_reblogs: true, ..ALL },
        &[],
        false
    ));
    let media = StatusFilters { only_media: true, ..ALL };
    assert!(!passes_filters(&plain, &media, &[], false));
    assert!(passes_filters(&plain, &media, &[id(1)], false));
    let pinned = StatusFilters { pinned: true, ..ALL };
    assert!(!passes_filters(&plain, &pinned, &[], false));
    assert!(passes_filters(&plain, &pinned, &[], true));
}

#[test]
fn listed_statuses_are_visible_and_in_order() {
    let mut hidden = candidate(status(6, 1));
    hidden.visible = false;
    let candidates = vec![candidate(status(7, 1)), hidden, candidate(status(5, 1))];
    let shown: Vec<Id> = list_statuses(&candidates, &ALL).iter().map(|s| s.id).collect();
    assert_eq!(shown, vec![id(7), id(5)]);
}

#[test]
fn a_boost_shows_its_target_only_to_those_who_may_see_it() {
    let target = status(5, 1);
    let shared = boost(9, 2, 5);
    assert_eq!(resolve_reblog_target(&shared, Some(target.clone()), true), Some(target.clone()));
    assert_eq!(resolve_reblog_target(&shared, Some(target.clone()), false), None);
    assert_eq!(resolve_reblog_target(&shared, None, true), None);
    assert_eq!(resolve_reblog_target(&target, Some(shared), true), None);
}

#[test]
fn statuses_count_towards_statuses_alone() {
    let counts = contributed_counts(12, Some(now()));
    assert_eq!((counts.followers, counts.following, counts.statuses), (0, 0, 12));
    assert_eq!(counts.last_status_at, Some(now()));
    assert_eq!(account_ref_id(&AccountRef::Remote(id(4))), id(4));
    assert_eq!(account_ref_id(&AccountRef::Local(id(3))), id(3));
}
