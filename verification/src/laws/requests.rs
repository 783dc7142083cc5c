//! What requests ask for, and what times and errors are.

use vstd::prelude::*;

use crate::clock::{parse_rfc3339, rfc3339, Timestamp};
use crate::domain::{Id, Visibility};
use crate::endpoints::{
    bookmarks_page, create_status, edit_status, edit_to_json, first_non_id, ids_of,
    parse_id, parse_media_ids, parse_optional_limit, parse_visibility, quoted,
    read_bookmarks_scope, read_statuses_scope, write_bookmarks_scope, write_favourites_scope,
    write_statuses_scope, BookmarksQueryParams, CreateStatus, CreateStatusRequest, EditStatus,
    EditStatusRequest, PageParams, StatusEditJson,
};
use crate::error::{forbidden, malformed, not_found, rejected, AppError};
use crate::laws::{nanos, refuses};
use crate::model::StatusEdit;
use crate::text::{i64_value, u64_value};

verus! {

/// Whether a text names a visibility.
pub open spec fn is_name_of(text: Seq<char>, visibility: Visibility) -> bool {
    match visibility {
        Visibility::Public => text == "public"@,
        Visibility::Unlisted => text == "unlisted"@,
        Visibility::Private => text == "private"@,
        Visibility::Direct => text == "direct"@,
    }
}

/// Whether a text names no visibility.
pub open spec fn names_none(text: Seq<char>) -> bool {
    text != "public"@ && text != "unlisted"@ && text != "private"@ && text != "direct"@
}

/// The message for a text that names no visibility.
pub open spec fn no_visibility(text: Seq<char>) -> Seq<char> {
    "visibility must be one of \"public\"/\"unlisted\"/\"private\"/\"direct\", got "@ + quoted(text)
}

/// The id of a status is the number that it is given as, and anything else is
/// a `404`.
pub proof fn law_ids_are_read(raw: &str, r: Result<Id, AppError>)
    requires
        call_ensures(parse_id, (raw,), r),
    ensures
        r is Ok <==> i64_value(raw@) is Some,
        r matches Ok(id) ==> i64_value(raw@) == Some(id.0 as int),
        r matches Err(e) ==> refuses(e, 404, "status not found"@),
{
}

/// A visibility is read by its name, and anything else is refused.
pub proof fn law_visibilities_are_read(raw: &str, r: Result<Visibility, AppError>)
    requires
        call_ensures(parse_visibility, (raw,), r),
    ensures
        match r {
            Ok(visibility) => is_name_of(raw@, visibility),
            Err(e) => names_none(raw@) && refuses(e, 422, no_visibility(raw@)),
        },
{
}

/// Whether the first text that is no number is the given one.
pub open spec fn fails_first_on(raw: Seq<String>, bad: Seq<char>) -> bool {
    exists|k: int|
        0 <= k < raw.len() && (#[trigger] raw[k])@ == bad && i64_value(raw[k]@) is None && (forall|
            j: int,
        | 0 <= j < k ==> i64_value((#[trigger] raw[j])@) is Some)
}

/// Whether ids are the numbers that texts stand for, all and in order.
pub open spec fn are_ids_of(ids: Seq<Id>, raw: Seq<String>) -> bool {
    &&& ids.len() == raw.len()
    &&& forall|k: int|
        0 <= k < ids.len() ==> i64_value(raw[k]@) == Some((#[trigger] ids[k]).0 as int)
}

proof fn lemma_first_non_id(raw: Seq<String>)
    ensures
        match first_non_id(raw) {
            Some(bad) => fails_first_on(raw, bad),
            None => forall|k: int| 0 <= k < raw.len() ==> i64_value((#[trigger] raw[k])@) is Some,
        },
    decreases raw.len(),
{
    if raw.len() > 0 {
        if i64_value(raw[0]@) is None {
            assert(raw[0]@ == raw[0]@);
            assert(fails_first_on(raw, raw[0]@));
        } else {
            let rest = raw.skip(1);
            lemma_first_non_id(rest);
            match first_non_id(rest) {
                Some(bad) => {
                    let k = choose|k: int|
                        0 <= k < rest.len() && (#[trigger] rest[k])@ == bad && i64_value(
                            rest[k]@,
                        ) is None && (forall|j: int|
                            0 <= j < k ==> i64_value((#[trigger] rest[j])@) is Some);
                    assert forall|j: int| 0 <= j < k + 1 implies i64_value(
                        (#[trigger] raw[j])@,
                    ) is Some by {
                        if j > 0 {
                            assert(rest[j - 1] == raw[j]);
                        }
                    }
                    assert(raw[k + 1] == rest[k]);
                },
                None => {
                    assert forall|k: int| 0 <= k < raw.len() implies i64_value(
                        (#[trigger] raw[k])@,
                    ) is Some by {
                        if k > 0 {
                            assert(rest[k - 1] == raw[k]);
                        }
                    }
                },
            }
        }
    }
}

proof fn lemma_ids_of(raw: Seq<String>)
    requires
        first_non_id(raw) is None,
    ensures
        are_ids_of(ids_of(raw), raw),
{
    lemma_first_non_id(raw);
    let ids = ids_of(raw);
    assert forall|k: int| 0 <= k < ids.len() implies i64_value(raw[k]@) == Some(
        (#[trigger] ids[k]).0 as int,
    ) by {
        assert(i64_value(raw[k]@) is Some);
    }
}

/// Media ids are read all and in order; where one is no number, the first
/// such is named in the refusal.
pub proof fn law_media_ids_are_read(raw: &[String], r: Result<Vec<Id>, AppError>)
    requires
        call_ensures(parse_media_ids, (raw,), r),
    ensures
        match r {
            Ok(ids) => are_ids_of(ids@, raw@),
            Err(e) => exists|bad: Seq<char>| #[trigger]
                fails_first_on(raw@, bad) && refuses(e, 422, "invalid media id "@ + quoted(bad)),
        },
{
    lemma_first_non_id(raw@);
    match first_non_id(raw@) {
        Some(bad) => {
            assert(fails_first_on(raw@, bad));
        },
        None => {
            lemma_ids_of(raw@);
        },
    }
}

/// A limit is the number that it is given as, where one is given, and anything
/// else is refused.
pub proof fn law_limits_are_read(raw: Option<&str>, r: Result<Option<u64>, AppError>)
    requires
        call_ensures(parse_optional_limit, (raw,), r),
    ensures
        match raw {
            None => r matches Ok(limit) && limit is None,
            Some(text) => match r {
                Ok(limit) => limit matches Some(n) && u64_value(text@) == Some(n as int),
                Err(e) => u64_value(text@) is None && refuses(
                    e,
                    422,
                    "invalid limit "@ + quoted(text@),
                ),
            },
        },
{
}

/// The query for bookmarks is read as it was asked, with its limit read as a
/// number.
pub proof fn law_bookmark_queries_are_read(
    params: BookmarksQueryParams,
    r: Result<PageParams, AppError>,
)
    requires
        call_ensures(bookmarks_page, (params,), r),
    ensures
        r is Ok <==> (params.limit matches Some(text) ==> u64_value(text@) is Some),
        r matches Ok(page) ==> {
            &&& page.max_id == params.max_id
            &&& page.since_id == params.since_id
            &&& page.min_id == params.min_id
            &&& page.limit is Some == params.limit is Some
            &&& page.limit matches Some(n) ==> u64_value(params.limit->0@) == Some(n as int)
        },
        r matches Err(e) ==> refuses(e, 422, "invalid limit "@ + quoted(params.limit->0@)),
{
}

/// What a request to publish asks for is what is published: its text, content
/// warning, sensitivity, language, media, what it replies to, its visibility
/// (public where none is asked for), and its poll with the options in order,
/// open for as many seconds as asked. The first of media, reply and
/// visibility that cannot be read is why it is refused.
pub proof fn law_what_is_asked_for_is_published(
    body: CreateStatusRequest,
    now: Timestamp,
    r: Result<CreateStatus, AppError>,
)
    requires
        call_ensures(create_status, (body, now), r),
    ensures
        match r {
            Ok(input) => {
                &&& input.content@ == body.status@
                &&& input.spoiler_text@ == body.spoiler_text@
                &&& input.sensitive == body.sensitive
                &&& input.language == body.language
                &&& are_ids_of(input.media_ids@, body.media_ids@)
                &&& match body.in_reply_to_id {
                    Some(raw) => input.in_reply_to_id matches Some(id) && i64_value(raw@) == Some(
                        id.0 as int,
                    ),
                    None => input.in_reply_to_id is None,
                }
                &&& match body.visibility {
                    Some(raw) => is_name_of(raw@, input.visibility),
                    None => input.visibility is Public,
                }
                &&& match body.poll {
                    Some(asked) => input.poll matches Some(poll) && {
                        &&& poll.options@ == asked.options@
                        &&& poll.multiple == asked.multiple
                        &&& match asked.expires_in {
                            Some(seconds) => poll.expires_at matches Some(deadline) && nanos(
                                deadline,
                            ) == nanos(now) + seconds * 1000000000 && deadline.offset()
                                == now.offset(),
                            None => poll.expires_at is None,
                        }
                    },
                    None => input.poll is None,
                }
            },
            Err(e) => {
                let media = forall|k: int|
                    0 <= k < body.media_ids@.len() ==> i64_value(
                        (#[trigger] body.media_ids@[k])@,
                    ) is Some;
                let reply = body.in_reply_to_id matches Some(raw) ==> i64_value(raw@) is Some;
                ||| exists|bad: Seq<char>| #[trigger]
                    fails_first_on(body.media_ids@, bad) && refuses(
                        e,
                        422,
                        "invalid media id "@ + quoted(bad),
                    )
                ||| media && !reply && refuses(
                    e,
                    422,
                    "invalid in_reply_to_id "@ + quoted(body.in_reply_to_id->0@),
                )
                ||| media && reply && (body.visibility matches Some(raw) && names_none(raw@)
                    && refuses(e, 422, no_visibility(raw@)))
            },
        },
{
    lemma_first_non_id(body.media_ids@);
    match first_non_id(body.media_ids@) {
        Some(bad) => {
            assert(fails_first_on(body.media_ids@, bad));
        },
        None => {
            lemma_ids_of(body.media_ids@);
        },
    }
}

/// What a request to edit asks for is what the status becomes.
pub proof fn law_what_is_asked_for_is_edited(
    body: EditStatusRequest,
    r: Result<EditStatus, AppError>,
)
    requires
        call_ensures(edit_status, (body,), r),
    ensures
        match r {
            Ok(input) => {
                &&& input.content@ == body.status@
                &&& input.spoiler_text@ == body.spoiler_text@
                &&& input.sensitive == body.sensitive
                &&& are_ids_of(input.media_ids@, body.media_ids@)
            },
            Err(e) => exists|bad: Seq<char>| #[trigger]
                fails_first_on(body.media_ids@, bad) && refuses(
                    e,
                    422,
                    "invalid media id "@ + quoted(bad),
                ),
        },
{
    lemma_first_non_id(body.media_ids@);
    match first_non_id(body.media_ids@) {
        Some(bad) => {
            assert(fails_first_on(body.media_ids@, bad));
        },
        None => {
            lemma_ids_of(body.media_ids@);
        },
    }
}

/// A version in the history shows the text, content warning, sensitivity and
/// time of the edit.
pub proof fn law_edits_are_shown(edit: &StatusEdit, created_at: String, r: StatusEditJson)
    requires
        call_ensures(edit_to_json, (edit, created_at), r),
    ensures
        r.content@ == edit.content@,
        r.spoiler_text@ == edit.spoiler_text@,
        r.sensitive == edit.sensitive,
        r.created_at@ == created_at@,
{
}

/// Each thing that a token may allow has a scope of its own.
pub proof fn law_scopes(
    write: &str,
    favourite: &str,
    bookmark: &str,
    bookmarks: &str,
    read: &str,
)
    requires
        call_ensures(write_statuses_scope, (), write),
        call_ensures(write_favourites_scope, (), favourite),
        call_ensures(write_bookmarks_scope, (), bookmark),
        call_ensures(read_bookmarks_scope, (), bookmarks),
        call_ensures(read_statuses_scope, (), read),
    ensures
        write@ == "write:statuses"@,
        favourite@ == "write:favourites"@,
        bookmark@ == "write:bookmarks"@,
        bookmarks@ == "read:bookmarks"@,
        read@ == "read:statuses"@,
{
}

/// Times are compared by the instant they stand for, whatever their offset,
/// and what is some seconds later is that much later at the same offset.
pub proof fn law_times_pass(
    a: &Timestamp,
    b: &Timestamp,
    after: bool,
    seconds: i64,
    later: Timestamp,
)
    requires
        call_ensures(Timestamp::at_or_after, (a, b), after),
        call_ensures(Timestamp::plus_seconds, (a, seconds), later),
    ensures
        after <==> nanos(*a) >= nanos(*b),
        nanos(later) == nanos(*a) + seconds * 1000000000,
        later.offset() == a.offset(),
{
}

/// A time that was written reads back as that time.
pub proof fn law_times_read_back(
    at: &Timestamp,
    text: String,
    raw: &str,
    read: Option<Timestamp>,
)
    requires
        call_ensures(rfc3339, (at,), text),
        call_ensures(parse_rfc3339, (raw,), read),
        raw@ == text@,
    ensures
        read == Some(*at),
{
    if let Some(t) = read {
        crate::clock::law_readings_are_unique(raw@, t, *at);
    }
}

/// Each kind of refusal has its status and says what it was given to say.
pub proof fn law_refusals(
    message: &str,
    unacceptable: AppError,
    unreadable: AppError,
    not_allowed: AppError,
    not_there: AppError,
)
    requires
        call_ensures(rejected, (message,), unacceptable),
        call_ensures(malformed, (message,), unreadable),
        call_ensures(forbidden, (message,), not_allowed),
        call_ensures(not_found, (), not_there),
    ensures
        refuses(unacceptable, 422, message@),
        refuses(unreadable, 422, message@),
        refuses(not_allowed, 403, message@),
        refuses(not_there, 404, "status not found"@),
{
}

} // verus!
