//! The values that everything else is made of: what is made of what, and what
//! the names and pages of things are.

use vstd::prelude::*;

use crate::activity_builder::{StatusActivityBuilder, UndoKind};
use crate::clock::{parse_rfc3339, rfc3339_reading, Timestamp};
use crate::create_note::{effects_of_vote, CreateNoteHandler};
use crate::domain::{ActorUrls, Handle, Id, Visibility};
use crate::effects::{boost_of, Effect, Fresh};
use crate::endpoints::{
    BOOKMARKS_PATH, POLL_PATH, POLL_VOTES_PATH, STATUSES_PATH, STATUS_BOOKMARK_PATH,
    STATUS_CONTEXT_PATH, STATUS_FAVOURITE_PATH, STATUS_HISTORY_PATH, STATUS_PATH, STATUS_PIN_PATH,
    STATUS_REBLOG_PATH, STATUS_SOURCE_PATH, STATUS_UNBOOKMARK_PATH, STATUS_UNFAVOURITE_PATH,
    STATUS_UNPIN_PATH, STATUS_UNREBLOG_PATH,
};
use crate::error::AppError;
use crate::inbound_handlers::{
    note_of, object_of, reference_of, InboundActivityDispatcher, ParsedActivity, StatusHandler,
};
use crate::ingest_service::StatusIngestService;
use crate::interaction_repository::{
    bookmarked_row_to_pair, find_visibility, BookmarkCursor, BookmarkedStatusRow,
};
use crate::interaction_service::InteractionService;
use crate::json::{JsonModel, JsonObject};
use crate::laws::activities::{activity_page, actor_page};
use crate::laws::inbound::{carries, is_about, is_about_nothing, is_handler_of};
use crate::laws::requests::{is_name_of, names_none};
use crate::laws::tables::{is_read_from, names_a_visibility};
use crate::laws::{refuses, says, Properties};
use crate::model::{PollOption, Status};
use crate::notification_sink::{NoopSink, NotificationEvent};
use crate::order::{
    distinct_values, law_by_index_is_sorted, options_by_index, sorted_values,
};
use crate::poll_repository::{poll_not_found, VoteWrite};
use crate::poll_service::PollService;
use crate::text::{chars_of, ends_with, integer_text, joined, same_text};

verus! {

/// A time is any reading and offset within the calendar, and keeps both.
pub proof fn law_times_keep_reading_and_offset(
    local_nanos: i128,
    offset_seconds: i32,
    made: Option<Timestamp>,
    at: &Timestamp,
    reading: i128,
    offset: i32,
)
    requires
        call_ensures(Timestamp::new, (local_nanos, offset_seconds), made),
        call_ensures(Timestamp::local_nanos, (at,), reading),
        call_ensures(Timestamp::offset_seconds, (at,), offset),
    ensures
        made is Some <==> -377705116800000000000 <= local_nanos <= 253402300799999999999 && -93599
            <= offset_seconds <= 93599,
        made matches Some(t) ==> t.local() == local_nanos && t.offset() == offset_seconds,
        reading == at.local(),
        offset == at.offset(),
{
}

/// A text is read as the time that it stands for.
pub proof fn law_times_are_read(text: &str, r: Option<Timestamp>)
    requires
        call_ensures(parse_rfc3339, (text,), r),
    ensures
        match r {
            Some(at) => rfc3339_reading(text@) == Some((at.local() as i128, at.offset() as i32)),
            None => rfc3339_reading(text@) is None,
        },
{
}

/// What is made of something holds it.
pub proof fn law_what_is_made_holds_what_it_was_made_of(
    number: i64,
    id: Id,
    back: i64,
    text: &str,
    handle: Handle,
    urls: ActorUrls,
    given: ActorUrls,
    builder: StatusActivityBuilder,
    of_builder: StatusActivityBuilder,
    interactions: InteractionService,
    polls: PollService,
    create: CreateNoteHandler,
    ingest: StatusIngestService,
    object: JsonObject,
    dispatcher: InboundActivityDispatcher,
)
    requires
        call_ensures(Id::from_i64, (number,), id),
        call_ensures(Id::as_i64, (&id,), back),
        call_ensures(Handle::new, (text,), handle),
        call_ensures(ActorUrls::new, (text,), urls),
        call_ensures(StatusActivityBuilder::new, (given,), builder),
        call_ensures(InteractionService::new, (of_builder,), interactions),
        call_ensures(PollService::new, (of_builder,), polls),
        call_ensures(CreateNoteHandler::new, (text,), create),
        call_ensures(StatusIngestService::new, (text,), ingest),
        call_ensures(JsonObject::new, (), object),
        call_ensures(InboundActivityDispatcher::new, (), dispatcher),
    ensures
        id.0 == number && back == number,
        handle.name@ == text@,
        urls.domain@ == text@,
        builder.urls == given,
        interactions.activity_builder == of_builder,
        polls.activity_builder == of_builder,
        create.domain@ == text@,
        ingest.domain@ == text@,
        object@.dom() == Set::<Seq<char>>::empty(),
        dispatcher.handlers@.len() == 0,
{
    assert(object@.dom() =~= Set::<Seq<char>>::empty());
}

/// Actors, Activities and other objects have pages under the domain.
pub proof fn law_pages(
    urls: &ActorUrls,
    handle: &Handle,
    kind: &str,
    id: Id,
    actor: String,
    object: String,
    builder: &StatusActivityBuilder,
    activity: String,
    resolved: String,
)
    requires
        call_ensures(ActorUrls::actor_url, (urls, handle), actor),
        call_ensures(ActorUrls::object_url, (urls, kind, id), object),
        call_ensures(StatusActivityBuilder::mint_activity_id, (builder, id), activity),
        call_ensures(StatusActivityBuilder::resolve_actor_url, (builder, handle), resolved),
    ensures
        actor@ == actor_page(*urls, handle.name@),
        object@ == "https://"@ + urls.domain@ + "/"@ + kind@ + "/"@ + integer_text(id.0 as int),
        activity@ == activity_page(builder.urls, id),
        resolved@ == actor_page(builder.urls, handle.name@),
{
}

/// Each kind of Activity has its own name.
pub proof fn law_activities_have_names(
    undone: UndoKind,
    name: &str,
    handler: StatusHandler,
    activity_type: &str,
)
    requires
        call_ensures(UndoKind::activity_type, (undone,), name),
        call_ensures(StatusHandler::activity_type, (handler,), activity_type),
    ensures
        undone is Announce ==> name@ == "Announce"@,
        undone is Like ==> name@ == "Like"@,
        is_handler_of(handler, activity_type@),
{
}

/// A boost is an empty status of the booster that points at the boosted one
/// and shares its visibility.
pub proof fn law_boosts_point_at_their_target(
    target: &Status,
    fresh: Fresh,
    actor_id: Id,
    uri: &str,
    url: Option<String>,
    local: bool,
    r: Status,
)
    requires
        call_ensures(boost_of, (target, fresh, actor_id, uri, url, local), r),
    ensures
        r.id == fresh.id,
        r.actor_id == actor_id,
        r.uri@ == uri@,
        r.url is Some == url is Some,
        url matches Some(text) ==> r.url->0@ == text@,
        r.content@.len() == 0,
        r.spoiler_text@.len() == 0,
        r.visibility == target.visibility,
        r.reblog_of_id == Some(target.id),
        r.in_reply_to_id is None,
        r.in_reply_to_account_id is None,
        r.poll_id is None,
        r.language is None,
        !r.sensitive,
        r.local == local,
        r.reblogs_count == 0,
        r.favourites_count == 0,
        r.replies_count == 0,
        r.created_at == fresh.now,
        r.edited_at is None,
{
}

/// An error that blames the caller says what it was given to say.
pub proof fn law_client_errors(status: u16, message: String, r: AppError, no_poll: AppError)
    requires
        call_ensures(AppError::client, (status, message), r),
        call_ensures(poll_not_found, (), no_poll),
    ensures
        refuses(r, status as int, message@),
        refuses(no_poll, 404, "poll not found"@),
{
}

/// What an Activity refers to and embeds is read as it stands there.
pub proof fn law_activities_are_read(
    activity: &ParsedActivity,
    reference: Option<&String>,
    object: Option<&JsonObject>,
    note: Option<&JsonObject>,
)
    requires
        call_ensures(reference_of, (activity,), reference),
        call_ensures(object_of, (activity,), object),
        call_ensures(note_of, (activity,), note),
    ensures
        match reference {
            Some(uri) => is_about(*activity, uri@),
            None => is_about_nothing(*activity),
        },
        match object {
            Some(o) => carries(*activity, o@),
            None => forall|o: Properties| !#[trigger] carries(*activity, o),
        },
        match note {
            Some(o) => carries(*activity, o@) && says(o@, "type"@, "Note"@),
            None => forall|o: Properties| #[trigger]
                carries(*activity, o) ==> !says(o, "type"@, "Note"@),
        },
{
    if let JsonModel::Object(top) = activity.raw@ {
        if reference is None {
            assert forall|uri: Seq<char>| !#[trigger] crate::laws::refers_to(
                top,
                "object"@,
                uri,
            ) by {}
        }
    }
}

/// A visibility is found by its name alone, and a bookmark row is read column
/// by column.
pub proof fn law_rows_are_read(
    name: &str,
    visibility: Option<Visibility>,
    row: BookmarkedStatusRow,
    pair: (BookmarkCursor, Status),
)
    requires
        call_ensures(find_visibility, (name,), visibility),
        names_a_visibility(row.status),
        row.bookmark_id >= 0,
        call_ensures(bookmarked_row_to_pair, (row,), pair),
    ensures
        match visibility {
            Some(v) => is_name_of(name@, v),
            None => names_none(name@),
        },
        pair.0.0 == row.bookmark_id,
        is_read_from(pair.1, row.status),
{
    crate::interaction_repository::law_visibility_names(
        pair.1.visibility,
        row.status.visibility@,
    );
}

/// A property is set to a text, or found to be one.
pub proof fn law_texts_are_set_and_found(
    object: &mut JsonObject,
    key: &str,
    value: &str,
    other: &JsonObject,
    found: bool,
)
    requires
        call_ensures(JsonObject::insert_text, (object, key, value), ()),
        call_ensures(JsonObject::has_text, (other, key, value), found),
    ensures
        says(final(object)@, key@, value@),
        forall|k: Seq<char>|
            k != key@ ==> (#[trigger] final(object)@.dom().contains(k) == old(
                object,
            )@.dom().contains(k)),
        forall|k: Seq<char>|
            k != key@ && old(object)@.dom().contains(k) ==> #[trigger] final(object)@[k] == old(
                object,
            )@[k],
        found == says(other@, key@, value@),
{
}

/// The sink that drops events takes every one.
pub proof fn law_the_noop_sink_takes_everything(
    sink: &NoopSink,
    event: NotificationEvent,
    r: Result<(), AppError>,
)
    requires
        call_ensures(NoopSink::emit, (sink, event), r),
    ensures
        r is Ok,
{
}

/// Sorting keeps every value and puts none before a smaller one; keeping each
/// once keeps every value and puts each before all greater ones; options are
/// sorted by their index.
pub proof fn law_values_are_sorted(
    values: &[i32],
    sorted: Vec<i32>,
    distinct: Vec<i32>,
    options: &[PollOption],
    ordered: Vec<PollOption>,
)
    requires
        call_ensures(sorted_values, (values,), sorted),
        call_ensures(distinct_values, (values,), distinct),
        call_ensures(options_by_index, (options,), ordered),
    ensures
        sorted@.to_multiset() == values@.to_multiset(),
        forall|i: int, j: int| 0 <= i < j < sorted@.len() ==> sorted@[i] <= sorted@[j],
        forall|v: i32| distinct@.contains(v) <==> values@.contains(v),
        forall|i: int, j: int| 0 <= i < j < distinct@.len() ==> distinct@[i] < distinct@[j],
        ordered@.to_multiset() == options@.to_multiset(),
        forall|i: int, j: int| 0 <= i < j < ordered@.len() ==> ordered@[i].idx <= ordered@[j].idx,
{
    law_by_index_is_sorted(options@);
}

/// The row changes of a vote are all made, in order.
pub proof fn law_votes_are_written_in_order(writes: &[VoteWrite], r: Vec<Effect>)
    requires
        call_ensures(effects_of_vote, (writes,), r),
    ensures
        r@.len() == writes@.len(),
        forall|i: int| 0 <= i < r@.len() ==> #[trigger] r@[i] == Effect::Vote(writes@[i]),
{
}

/// Texts are compared, joined, taken apart and looked at by their end
/// character by character.
pub proof fn law_texts(
    a: &str,
    b: &str,
    same: bool,
    both: String,
    chars: Vec<char>,
    ends: bool,
)
    requires
        call_ensures(same_text, (a, b), same),
        call_ensures(joined, (a, b), both),
        call_ensures(chars_of, (a,), chars),
        call_ensures(ends_with, (a, b), ends),
    ensures
        same <==> a@ == b@,
        both@ == a@ + b@,
        chars@ == a@,
        ends <==> exists|start: Seq<char>| a@ == #[trigger] (start + b@),
{
    if ends {
        let start = a@.take(a@.len() - b@.len());
        assert(a@ =~= start + a@.subrange(a@.len() - b@.len(), a@.len() as int));
        assert(a@ == start + b@);
    }
    if exists|start: Seq<char>| a@ == #[trigger] (start + b@) {
        let start = choose|start: Seq<char>| a@ == #[trigger] (start + b@);
        assert(a@.subrange(a@.len() - b@.len(), a@.len() as int) =~= b@);
    }
}

/// Where clients find things.
pub proof fn law_paths()
    ensures
        STATUSES_PATH@ == "/api/v1/statuses"@,
        STATUS_PATH@ == "/api/v1/statuses/{id}"@,
        STATUS_HISTORY_PATH@ == "/api/v1/statuses/{id}/history"@,
        STATUS_SOURCE_PATH@ == "/api/v1/statuses/{id}/source"@,
        STATUS_CONTEXT_PATH@ == "/api/v1/statuses/{id}/context"@,
        STATUS_REBLOG_PATH@ == "/api/v1/statuses/{id}/reblog"@,
        STATUS_UNREBLOG_PATH@ == "/api/v1/statuses/{id}/unreblog"@,
        STATUS_FAVOURITE_PATH@ == "/api/v1/statuses/{id}/favourite"@,
        STATUS_UNFAVOURITE_PATH@ == "/api/v1/statuses/{id}/unfavourite"@,
        STATUS_BOOKMARK_PATH@ == "/api/v1/statuses/{id}/bookmark"@,
        STATUS_UNBOOKMARK_PATH@ == "/api/v1/statuses/{id}/unbookmark"@,
        STATUS_PIN_PATH@ == "/api/v1/statuses/{id}/pin"@,
        STATUS_UNPIN_PATH@ == "/api/v1/statuses/{id}/unpin"@,
        BOOKMARKS_PATH@ == "/api/v1/bookmarks"@,
        POLL_PATH@ == "/api/v1/polls/{id}"@,
        POLL_VOTES_PATH@ == "/api/v1/polls/{id}/votes"@,
{
}

} // verus!
