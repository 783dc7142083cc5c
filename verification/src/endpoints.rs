//! The request shapes of the HTTP surface: paths, scopes, and how request
//! fields are read.

use vstd::prelude::*;

use crate::clock::Timestamp;
use crate::domain::{Id, Visibility};
use crate::error::{not_found, AppError, NOT_FOUND, UNPROCESSABLE_ENTITY};
use crate::interaction_repository::{find_visibility, named_visibility};
use crate::model::StatusEdit;
use crate::text::{i64_value, joined, parse_i64, parse_u64, u64_value};

verus! {

pub const STATUSES_PATH: &'static str = "/api/v1/statuses";

pub const STATUS_PATH: &'static str = "/api/v1/statuses/{id}";

pub const STATUS_HISTORY_PATH: &'static str = "/api/v1/statuses/{id}/history";

pub const STATUS_SOURCE_PATH: &'static str = "/api/v1/statuses/{id}/source";

pub const STATUS_CONTEXT_PATH: &'static str = "/api/v1/statuses/{id}/context";

pub const STATUS_REBLOG_PATH: &'static str = "/api/v1/statuses/{id}/reblog";

pub const STATUS_UNREBLOG_PATH: &'static str = "/api/v1/statuses/{id}/unreblog";

pub const STATUS_FAVOURITE_PATH: &'static str = "/api/v1/statuses/{id}/favourite";

pub const STATUS_UNFAVOURITE_PATH: &'static str = "/api/v1/statuses/{id}/unfavourite";

pub const STATUS_BOOKMARK_PATH: &'static str = "/api/v1/statuses/{id}/bookmark";

pub const STATUS_UNBOOKMARK_PATH: &'static str = "/api/v1/statuses/{id}/unbookmark";

pub const STATUS_PIN_PATH: &'static str = "/api/v1/statuses/{id}/pin";

pub const STATUS_UNPIN_PATH: &'static str = "/api/v1/statuses/{id}/unpin";

pub const BOOKMARKS_PATH: &'static str = "/api/v1/bookmarks";

pub const POLL_PATH: &'static str = "/api/v1/polls/{id}";

pub const POLL_VOTES_PATH: &'static str = "/api/v1/polls/{id}/votes";

/// The scope for publishing, editing, deleting, boosting, pinning and voting.
pub fn write_statuses_scope() -> (r: &'static str)
    ensures
        r@ == "write:statuses"@,
{
    "write:statuses"
}

/// The scope for favouriting.
pub fn write_favourites_scope() -> (r: &'static str)
    ensures
        r@ == "write:favourites"@,
{
    "write:favourites"
}

/// The scope for bookmarking.
pub fn write_bookmarks_scope() -> (r: &'static str)
    ensures
        r@ == "write:bookmarks"@,
{
    "write:bookmarks"
}

/// The scope for listing bookmarks.
pub fn read_bookmarks_scope() -> (r: &'static str)
    ensures
        r@ == "read:bookmarks"@,
{
    "read:bookmarks"
}

/// The scope for reading the source of a status.
pub fn read_statuses_scope() -> (r: &'static str)
    ensures
        r@ == "read:statuses"@,
{
    "read:statuses"
}

/// A text in quotes with its special characters escaped, as `str`'s `Debug`
/// writes it.
pub uninterp spec fn quoted(text: Seq<char>) -> Seq<char>;

/// Quotes and escapes a text with the `Debug` form of `str`.
///
/// Trusted: the result is a function of the text.
#[verifier::external_body]
fn quote(text: &str) -> (r: String)
    ensures
        r@ == quoted(text@),
{
    format!("{text:?}")
}

/// The `422` whose message quotes a request value.
fn rejected_value(what: &str, value: &str) -> (r: AppError)
    ensures
        r.is_client(UNPROCESSABLE_ENTITY, what@ + quoted(value@)),
{
    AppError::client(UNPROCESSABLE_ENTITY, joined(what, quote(value).as_str()))
}

/// Reads the id in a path. What is no id names no status.
pub fn parse_id(raw: &str) -> (r: Result<Id, AppError>)
    ensures
        match i64_value(raw@) {
            Some(n) => r == Ok::<Id, AppError>(Id(n as i64)),
            None => r matches Err(e) && e.is_client(NOT_FOUND, "status not found"@),
        },
{
    match parse_i64(raw) {
        Some(n) => Ok(Id(n)),
        None => Err(not_found()),
    }
}

/// The message for a visibility that does not exist, before the value.
pub open spec fn visibility_complaint() -> Seq<char> {
    "visibility must be one of \"public\"/\"unlisted\"/\"private\"/\"direct\", got "@
}

/// Reads a visibility by its name.
pub fn parse_visibility(raw: &str) -> (r: Result<Visibility, AppError>)
    ensures
        match named_visibility(raw@) {
            Some(visibility) => r == Ok::<Visibility, AppError>(visibility),
            None => r matches Err(e) && e.is_client(
                UNPROCESSABLE_ENTITY,
                visibility_complaint() + quoted(raw@),
            ),
        },
{
    match find_visibility(raw) {
        Some(visibility) => Ok(visibility),
        None => Err(
            rejected_value(
                "visibility must be one of \"public\"/\"unlisted\"/\"private\"/\"direct\", got ",
                raw,
            ),
        ),
    }
}

/// The first text that is no id.
pub open spec fn first_non_id(raw: Seq<String>) -> Option<Seq<char>>
    decreases raw.len(),
{
    if raw.len() == 0 {
        None
    } else if i64_value(raw[0]@) is None {
        Some(raw[0]@)
    } else {
        first_non_id(raw.skip(1))
    }
}

/// The ids that a row of texts stands for.
pub open spec fn ids_of(raw: Seq<String>) -> Seq<Id> {
    raw.map_values(|s: String| Id(i64_value(s@)->0 as i64))
}

/// Reads a row of media ids; the first that is none is an error.
pub fn parse_media_ids(raw: &[String]) -> (r: Result<Vec<Id>, AppError>)
    ensures
        match first_non_id(raw@) {
            None => r matches Ok(ids) && ids@ == ids_of(raw@),
            Some(bad) => r matches Err(e) && e.is_client(
                UNPROCESSABLE_ENTITY,
                "invalid media id "@ + quoted(bad),
            ),
        },
{
    let mut ids: Vec<Id> = Vec::new();
    let mut i: usize = 0;
    assert(raw@.skip(0) =~= raw@);
    while i < raw.len()
        invariant
            i <= raw.len(),
            first_non_id(raw@) == first_non_id(raw@.skip(i as int)),
            ids@ == ids_of(raw@).take(i as int),
        decreases raw.len() - i,
    {
        assert(raw@.skip(i as int)[0] == raw@[i as int]);
        assert(raw@.skip(i as int).skip(1) =~= raw@.skip(i + 1));
        match parse_i64(raw[i].as_str()) {
            Some(n) => {
                ids.push(Id(n));
                assert(ids@ =~= ids_of(raw@).take(i + 1));
            },
            None => {
                return Err(rejected_value("invalid media id ", raw[i].as_str()));
            },
        }
        i += 1;
    }
    assert(ids_of(raw@).take(i as int) =~= ids_of(raw@));
    Ok(ids)
}

/// Reads the limit of a page, if one is given.
pub fn parse_optional_limit(raw: Option<&str>) -> (r: Result<Option<u64>, AppError>)
    ensures
        match raw {
            None => r == Ok::<Option<u64>, AppError>(None),
            Some(text) => match u64_value(text@) {
                Some(n) => r == Ok::<Option<u64>, AppError>(Some(n as u64)),
                None => r matches Err(e) && e.is_client(
                    UNPROCESSABLE_ENTITY,
                    "invalid limit "@ + quoted(text@),
                ),
            },
        },
{
    match raw {
        None => Ok(None),
        Some(text) => match parse_u64(text) {
            Some(n) => Ok(Some(n)),
            None => Err(rejected_value("invalid limit ", text)),
        },
    }
}

/// The poll of a request to publish a status.
#[derive(Debug, PartialEq, Eq)]
pub struct CreatePollRequest {
    pub options: Vec<String>,
    pub multiple: bool,
    /// How many seconds the poll is open for.
    pub expires_in: Option<i64>,
}

/// A request to publish a status.
#[derive(Debug, PartialEq, Eq)]
pub struct CreateStatusRequest {
    pub status: String,
    pub media_ids: Vec<String>,
    pub poll: Option<CreatePollRequest>,
    pub visibility: Option<String>,
    pub spoiler_text: String,
    pub sensitive: bool,
    pub in_reply_to_id: Option<String>,
    pub language: Option<String>,
}

/// A request to edit a status.
#[derive(Debug, PartialEq, Eq)]
pub struct EditStatusRequest {
    pub status: String,
    pub spoiler_text: String,
    pub sensitive: bool,
    pub media_ids: Vec<String>,
}

/// A request to vote.
#[derive(Debug, PartialEq, Eq)]
pub struct VoteRequest {
    pub choices: Vec<i32>,
}

/// The poll of a status to publish.
#[derive(Debug, PartialEq, Eq)]
pub struct CreateStatusPoll {
    pub options: Vec<String>,
    pub multiple: bool,
    pub expires_at: Option<Timestamp>,
}

/// A status to publish.
#[derive(Debug, PartialEq, Eq)]
pub struct CreateStatus {
    pub content: String,
    pub visibility: Visibility,
    pub spoiler_text: String,
    pub sensitive: bool,
    pub media_ids: Vec<Id>,
    pub in_reply_to_id: Option<Id>,
    pub language: Option<String>,
    pub poll: Option<CreateStatusPoll>,
}

/// The new fields of a status.
#[derive(Debug, PartialEq, Eq)]
pub struct EditStatus {
    pub content: String,
    pub spoiler_text: String,
    pub sensitive: bool,
    pub media_ids: Vec<Id>,
}

/// Why a request to publish is refused: the message of the `422` for the
/// first field that cannot be read.
pub open spec fn create_refusal(body: CreateStatusRequest) -> Option<Seq<char>> {
    if first_non_id(body.media_ids@) is Some {
        Some("invalid media id "@ + quoted(first_non_id(body.media_ids@)->0))
    } else if body.in_reply_to_id matches Some(raw) && i64_value(raw@) is None {
        Some("invalid in_reply_to_id "@ + quoted(body.in_reply_to_id->0@))
    } else if body.visibility matches Some(raw) && named_visibility(raw@) is None {
        Some(visibility_complaint() + quoted(body.visibility->0@))
    } else {
        None
    }
}

/// Whether every field of a request to publish can be read.
pub open spec fn is_readable(body: CreateStatusRequest) -> bool {
    &&& first_non_id(body.media_ids@) is None
    &&& body.in_reply_to_id matches Some(raw) ==> i64_value(raw@) is Some
    &&& body.visibility matches Some(raw) ==> named_visibility(raw@) is Some
}

/// Whether the deadline that a request asks for is within the calendar.
pub open spec fn deadline_fits(body: CreateStatusRequest, now: Timestamp) -> bool {
    body.poll matches Some(poll) && poll.expires_in matches Some(seconds) ==> now.can_add(
        seconds as int,
    )
}

/// Whether a poll to publish is the one that a request asks for.
pub open spec fn is_requested_poll(
    poll: Option<CreateStatusPoll>,
    request: Option<CreatePollRequest>,
    now: Timestamp,
) -> bool {
    match (poll, request) {
        (Some(poll), Some(request)) => {
            &&& poll.options == request.options
            &&& poll.multiple == request.multiple
            &&& match (poll.expires_at, request.expires_in) {
                (Some(deadline), Some(seconds)) => {
                    &&& deadline.instant() == now.instant() + seconds
                        * crate::clock::NANOS_PER_SECOND
                    &&& deadline.offset() == now.offset()
                },
                (None, None) => true,
                _ => false,
            }
        },
        (None, None) => true,
        _ => false,
    }
}

/// Whether a status to publish is the one that a request asks for.
pub open spec fn is_requested(
    input: CreateStatus,
    body: CreateStatusRequest,
    now: Timestamp,
) -> bool {
    &&& input.content == body.status
    &&& input.visibility == (match body.visibility {
        Some(raw) => named_visibility(raw@)->0,
        None => Visibility::Public,
    })
    &&& input.spoiler_text == body.spoiler_text
    &&& input.sensitive == body.sensitive
    &&& input.media_ids@ == ids_of(body.media_ids@)
    &&& input.in_reply_to_id == (match body.in_reply_to_id {
        Some(raw) => Some(Id(i64_value(raw@)->0 as i64)),
        None => None,
    })
    &&& input.language == body.language
    &&& is_requested_poll(input.poll, body.poll, now)
}

/// Reads a request to publish a status. Without a visibility it is public.
pub fn create_status(body: CreateStatusRequest, now: Timestamp) -> (r: Result<
    CreateStatus,
    AppError,
>)
    requires
        is_readable(body) ==> deadline_fits(body, now),
    ensures
        match create_refusal(body) {
            Some(message) => r matches Err(e) && e.is_client(UNPROCESSABLE_ENTITY, message),
            None => r matches Ok(input) && is_requested(input, body, now),
        },
{
    let media_ids: Vec<Id> = match parse_media_ids(body.media_ids.as_slice()) {
        Ok(ids) => ids,
        Err(e) => {
            return Err(e);
        },
    };
    let in_reply_to_id: Option<Id> = match &body.in_reply_to_id {
        Some(raw) => match parse_i64(raw.as_str()) {
            Some(n) => Some(Id(n)),
            None => {
                return Err(rejected_value("invalid in_reply_to_id ", raw.as_str()));
            },
        },
        None => None,
    };
    let visibility: Visibility = match &body.visibility {
        Some(raw) => match parse_visibility(raw.as_str()) {
            Ok(visibility) => visibility,
            Err(e) => {
                return Err(e);
            },
        },
        None => Visibility::Public,
    };
    let poll: Option<CreateStatusPoll> = match body.poll {
        Some(poll) => {
            let expires_at: Option<Timestamp> = match poll.expires_in {
                Some(seconds) => Some(now.plus_seconds(seconds)),
                None => None,
            };
            Some(CreateStatusPoll { options: poll.options, multiple: poll.multiple, expires_at })
        },
        None => None,
    };
    Ok(
        CreateStatus {
            content: body.status,
            visibility,
            spoiler_text: body.spoiler_text,
            sensitive: body.sensitive,
            media_ids,
            in_reply_to_id,
            language: body.language,
            poll,
        },
    )
}

/// Reads a request to edit a status.
pub fn edit_status(body: EditStatusRequest) -> (r: Result<EditStatus, AppError>)
    ensures
        match first_non_id(body.media_ids@) {
            Some(bad) => r matches Err(e) && e.is_client(
                UNPROCESSABLE_ENTITY,
                "invalid media id "@ + quoted(bad),
            ),
            None => r matches Ok(input) && input.content == body.status && input.spoiler_text
                == body.spoiler_text && input.sensitive == body.sensitive && input.media_ids@
                == ids_of(body.media_ids@),
        },
{
    let media_ids: Vec<Id> = match parse_media_ids(body.media_ids.as_slice()) {
        Ok(ids) => ids,
        Err(e) => {
            return Err(e);
        },
    };
    Ok(
        EditStatus {
            content: body.status,
            spoiler_text: body.spoiler_text,
            sensitive: body.sensitive,
            media_ids,
        },
    )
}

/// One version of a status in its history.
#[derive(Debug, PartialEq, Eq)]
pub struct StatusEditJson {
    pub content: String,
    pub spoiler_text: String,
    pub sensitive: bool,
    /// When the version was made, as the API writes times.
    pub created_at: String,
}

/// A version of a status as the history shows it. `created_at` is its time
/// as the API writes times.
pub fn edit_to_json(edit: &StatusEdit, created_at: String) -> (r: StatusEditJson)
    ensures
        r.content == edit.content,
        r.spoiler_text == edit.spoiler_text,
        r.sensitive == edit.sensitive,
        r.created_at == created_at,
{
    StatusEditJson {
        content: edit.content.clone(),
        spoiler_text: edit.spoiler_text.clone(),
        sensitive: edit.sensitive,
        created_at,
    }
}

/// What an author edits: the text of a status.
#[derive(Debug, PartialEq, Eq)]
pub struct StatusSourceJson {
    pub id: Id,
    pub text: String,
    pub spoiler_text: String,
}

/// The query of a request for bookmarks.
#[derive(Debug, PartialEq, Eq)]
pub struct BookmarksQueryParams {
    pub max_id: Option<String>,
    pub since_id: Option<String>,
    pub min_id: Option<String>,
    pub limit: Option<String>,
}

/// Which page is asked for.
#[derive(Debug, PartialEq, Eq)]
pub struct PageParams {
    pub max_id: Option<String>,
    pub since_id: Option<String>,
    pub min_id: Option<String>,
    pub limit: Option<u64>,
}

/// Reads the query of a request for bookmarks.
pub fn bookmarks_page(params: BookmarksQueryParams) -> (r: Result<PageParams, AppError>)
    ensures
        match params.limit {
            Some(raw) => match u64_value(raw@) {
                Some(n) => r matches Ok(page) && page.limit == Some(n as u64) && page.max_id
                    == params.max_id && page.since_id == params.since_id && page.min_id
                    == params.min_id,
                None => r matches Err(e) && e.is_client(
                    UNPROCESSABLE_ENTITY,
                    "invalid limit "@ + quoted(raw@),
                ),
            },
            None => r matches Ok(page) && page.limit is None && page.max_id == params.max_id
                && page.since_id == params.since_id && page.min_id == params.min_id,
        },
{
    let limit: Option<u64> = match &params.limit {
        Some(raw) => match parse_optional_limit(Some(raw.as_str())) {
            Ok(limit) => limit,
            Err(e) => {
                return Err(e);
            },
        },
        None => None,
    };
    Ok(
        PageParams {
            max_id: params.max_id,
            since_id: params.since_id,
            min_id: params.min_id,
            limit,
        },
    )
}

} // verus!
