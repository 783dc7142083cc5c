//! What one instance publishes is what another reads: the Activities that
//! the builder writes, as the inbound handlers take them.

use vstd::prelude::*;

use crate::activity_builder::{
    announce_activity, create_activity, created_object, delete_activity, like_activity,
    undo_activity, undone_activity, update_activity, updated_object, vote_activity, vote_note,
    UndoKind,
};
use crate::addressing::{addressed_cc, addressed_to, PUBLIC_COLLECTION_URI};
use crate::clock::{law_readings_are_unique, reads_as, rfc3339_of, Timestamp};
use crate::domain::{ActorUrls, Id, Visibility};
use crate::effects::Fresh;
use crate::inbound_handlers::{activity_reference, embedded_note, embedded_object, is_edit};
use crate::inbound_note::{any_has_suffix, visibility_of};
use crate::ingest_service::{
    after_scheme, authority_stops, document_refusal, fetched_refusal, host_of, separator_at,
};
use crate::interaction_service::followers_uri_of;
use crate::json::{reference_prop, text_prop, texts_of, texts_prop, JsonModel};
use crate::model::{Poll, PollOption, Status, StatusEdit};
use crate::note_ingest::is_ingested;
use crate::text::{first_stop, has_suffix, same_ignoring_ascii_case};

verus! {

/// The property names of Activities and their objects tell each other
/// apart by length and by their first characters.
pub(crate) proof fn lemma_property_names()
    ensures
        "id"@.len() == 2 && "id"@[0] == 'i',
        "to"@.len() == 2 && "to"@[0] == 't',
        "cc"@.len() == 2 && "cc"@[0] == 'c',
        "url"@.len() == 3,
        "type"@.len() == 4 && "type"@[0] == 't',
        "name"@.len() == 4 && "name"@[0] == 'n',
        "actor"@.len() == 5 && "actor"@[1] == 'c',
        "anyOf"@.len() == 5 && "anyOf"@[1] == 'n' && "anyOf"@[0] == 'a',
        "oneOf"@.len() == 5 && "oneOf"@[1] == 'n' && "oneOf"@[0] == 'o',
        "object"@.len() == 6,
        "content"@.len() == 7 && "content"@[0] == 'c',
        "summary"@.len() == 7 && "summary"@[0] == 's',
        "endTime"@.len() == 7 && "endTime"@[0] == 'e',
        "updated"@.len() == 7 && "updated"@[0] == 'u',
        "published"@.len() == 9 && "published"@[0] == 'p',
        "sensitive"@.len() == 9 && "sensitive"@[0] == 's',
        "inReplyTo"@.len() == 9 && "inReplyTo"@[0] == 'i',
        "attributedTo"@.len() == 12,
{
    reveal_strlit("id");
    reveal_strlit("to");
    reveal_strlit("cc");
    reveal_strlit("url");
    reveal_strlit("type");
    reveal_strlit("name");
    reveal_strlit("actor");
    reveal_strlit("anyOf");
    reveal_strlit("oneOf");
    reveal_strlit("object");
    reveal_strlit("content");
    reveal_strlit("summary");
    reveal_strlit("endTime");
    reveal_strlit("updated");
    reveal_strlit("published");
    reveal_strlit("sensitive");
    reveal_strlit("inReplyTo");
    reveal_strlit("attributedTo");
}

/// The names of the types tell each other apart.
proof fn lemma_type_names()
    ensures
        "Note"@.len() == 4 && "Note"@[0] == 'N',
        "Vote"@.len() == 4 && "Vote"@[0] == 'V',
        "Like"@.len() == 4 && "Like"@[0] == 'L',
        "Create"@.len() == 6,
        "Announce"@.len() == 8 && "Announce"@[0] == 'A',
        "Question"@.len() == 8 && "Question"@[0] == 'Q',
{
    reveal_strlit("Note");
    reveal_strlit("Vote");
    reveal_strlit("Like");
    reveal_strlit("Create");
    reveal_strlit("Announce");
    reveal_strlit("Question");
}

/// The texts of an array of texts are those texts.
proof fn lemma_texts_of_array(items: Seq<Seq<char>>)
    ensures
        texts_of(items.map_values(|s: Seq<char>| JsonModel::Str(s))) == items,
    decreases items.len(),
{
    let values = items.map_values(|s: Seq<char>| JsonModel::Str(s));
    if items.len() > 0 {
        let init = items.drop_last();
        lemma_texts_of_array(init);
        assert(values.drop_last() =~= init.map_values(|s: Seq<char>| JsonModel::Str(s)));
        assert(init.push(items.last()) =~= items);
    } else {
        assert(texts_of(values) =~= items);
    }
}

/// An `Announce` refers to the status that was boosted.
pub proof fn law_announce_names_its_target(
    activity_id: Seq<char>,
    actor_url: Seq<char>,
    reblog: Status,
    target: Status,
    to: Seq<Seq<char>>,
    cc: Seq<Seq<char>>,
)
    ensures
        ({
            let activity = announce_activity(activity_id, actor_url, reblog, target, to, cc);
            &&& text_prop(activity, "type"@) == Some("Announce"@)
            &&& text_prop(activity, "id"@) == Some(activity_id)
            &&& text_prop(activity, "actor"@) == Some(actor_url)
            &&& activity_reference(JsonModel::Object(activity)) == Some(target.uri@)
        }),
{
    lemma_property_names();
}

/// A `Like` refers to the status that was favourited.
pub proof fn law_like_names_its_target(
    activity_id: Seq<char>,
    actor_url: Seq<char>,
    target: Status,
    recipient_uri: Seq<char>,
)
    ensures
        ({
            let activity = like_activity(activity_id, actor_url, target, recipient_uri);
            &&& text_prop(activity, "type"@) == Some("Like"@)
            &&& text_prop(activity, "id"@) == Some(activity_id)
            &&& text_prop(activity, "actor"@) == Some(actor_url)
            &&& activity_reference(JsonModel::Object(activity)) == Some(target.uri@)
        }),
{
    lemma_property_names();
}

/// A `Delete` refers to the status that was deleted.
pub proof fn law_delete_names_its_target(
    activity_id: Seq<char>,
    actor_url: Seq<char>,
    status: Status,
    to: Seq<Seq<char>>,
    cc: Seq<Seq<char>>,
)
    ensures
        ({
            let activity = delete_activity(activity_id, actor_url, status, to, cc);
            &&& text_prop(activity, "type"@) == Some("Delete"@)
            &&& text_prop(activity, "id"@) == Some(activity_id)
            &&& text_prop(activity, "actor"@) == Some(actor_url)
            &&& activity_reference(JsonModel::Object(activity)) == Some(status.uri@)
        }),
{
    lemma_property_names();
}

/// An `Undo` embeds the Activity that it takes back, of the same actor, with
/// its type and its target.
pub proof fn law_undo_embeds_what_it_takes_back(
    activity_id: Seq<char>,
    inner_id: Seq<char>,
    actor_url: Seq<char>,
    undone: UndoKind,
    target: Status,
    recipient_uri: Seq<char>,
)
    ensures
        ({
            let inner = undone_activity(inner_id, actor_url, undone, target);
            let activity = undo_activity(activity_id, actor_url, inner, recipient_uri);
            &&& text_prop(activity, "type"@) == Some("Undo"@)
            &&& text_prop(activity, "actor"@) == Some(actor_url)
            &&& text_prop(inner, "actor"@) == Some(actor_url)
            &&& embedded_object(JsonModel::Object(activity)) == Some(inner)
            &&& reference_prop(inner, "object"@) == Some(target.uri@)
            &&& (text_prop(inner, "type"@) == Some("Announce"@) <==> undone == UndoKind::Announce)
            &&& (text_prop(inner, "type"@) == Some("Like"@) <==> undone == UndoKind::Like)
        }),
{
    lemma_property_names();
    lemma_type_names();
}

/// A vote is read as one: its `Create` embeds a `Note` that names the chosen
/// title and replies to the status of the poll. No type `Vote` is sent.
pub proof fn law_votes_are_read_as_votes(
    activity_id: Seq<char>,
    note_id: Seq<char>,
    actor_url: Seq<char>,
    title: Seq<char>,
    target: Status,
    recipient_uri: Seq<char>,
)
    ensures
        ({
            let note = vote_note(note_id, actor_url, title, target, recipient_uri);
            let activity = vote_activity(activity_id, actor_url, note, recipient_uri);
            &&& text_prop(activity, "type"@) == Some("Create"@)
            &&& embedded_note(JsonModel::Object(activity)) == Some(note)
            &&& text_prop(note, "name"@) == Some(title)
            &&& text_prop(note, "inReplyTo"@) == Some(target.uri@)
            &&& text_prop(activity, "type"@) != Some("Vote"@)
            &&& text_prop(note, "type"@) != Some("Vote"@)
        }),
{
    lemma_property_names();
    lemma_type_names();
}

/// The `Create` of a status embeds its object: a `Note` that the inbound
/// handler takes, or with a poll a `Question` that it leaves alone.
pub proof fn law_create_embeds_its_object(
    activity_id: Seq<char>,
    actor_url: Seq<char>,
    status: Status,
    to: Seq<Seq<char>>,
    cc: Seq<Seq<char>>,
    in_reply_to: Option<Seq<char>>,
    poll: Option<(Poll, Seq<PollOption>)>,
)
    ensures
        ({
            let object = created_object(status, actor_url, to, cc, in_reply_to, poll);
            let activity = create_activity(activity_id, actor_url, status, to, cc, object);
            &&& text_prop(activity, "type"@) == Some("Create"@)
            &&& embedded_object(JsonModel::Object(activity)) == Some(object)
            &&& embedded_note(JsonModel::Object(activity)) == (if poll is None {
                Some(object)
            } else {
                None
            })
        }),
{
    lemma_property_names();
    lemma_type_names();
    let object = created_object(status, actor_url, to, cc, in_reply_to, poll);
    assert(text_prop(object, "type"@) == Some(
        if poll is Some {
            "Question"@
        } else {
            "Note"@
        },
    ));
}

/// The properties of a published `Note`.
proof fn lemma_published_note(
    status: Status,
    actor_url: Seq<char>,
    to: Seq<Seq<char>>,
    cc: Seq<Seq<char>>,
    in_reply_to: Option<Seq<char>>,
)
    ensures
        ({
            let note = created_object(status, actor_url, to, cc, in_reply_to, None);
            &&& text_prop(note, "id"@) == Some(status.uri@)
            &&& text_prop(note, "type"@) == Some("Note"@)
            &&& text_prop(note, "attributedTo"@) == Some(actor_url)
            &&& reference_prop(note, "attributedTo"@) == Some(actor_url)
            &&& text_prop(note, "content"@) == Some(status.content@)
            &&& text_prop(note, "published"@) == Some(rfc3339_of(status.created_at))
            &&& crate::json::flag_prop(note, "sensitive"@) == status.sensitive
            &&& crate::json::text_or_empty(note, "summary"@) == status.spoiler_text@
            &&& text_prop(note, "inReplyTo"@) == in_reply_to
            &&& text_prop(note, "url"@) is None
            &&& texts_prop(note, "to"@) == to
            &&& texts_prop(note, "cc"@) == cc
        }),
{
    lemma_property_names();
    lemma_texts_of_array(to);
    lemma_texts_of_array(cc);
    let note = created_object(status, actor_url, to, cc, in_reply_to, None);
    if status.spoiler_text@.len() == 0 {
        assert(status.spoiler_text@ =~= Seq::<char>::empty());
    }
}

/// Reading an addressing gives the visibility that it was derived from, as
/// long as no mentioned actor goes by the URI of everyone or, for a direct
/// status, by that of a followers collection.
pub proof fn law_visibility_survives_addressing(
    visibility: Visibility,
    mentions: Seq<Seq<char>>,
    actor_url: Seq<char>,
)
    requires
        visibility != Visibility::Public ==> !mentions.contains(PUBLIC_COLLECTION_URI@),
        visibility == Visibility::Direct ==> !any_has_suffix(mentions, "/followers"@),
    ensures
        visibility_of(
            addressed_to(visibility, mentions, followers_uri_of(actor_url)),
            addressed_cc(visibility, mentions, followers_uri_of(actor_url)),
        ) == visibility,
{
    let everyone = PUBLIC_COLLECTION_URI@;
    let followers = followers_uri_of(actor_url);
    let to = addressed_to(visibility, mentions, followers);
    let cc = addressed_cc(visibility, mentions, followers);
    reveal_strlit("/followers");
    reveal_strlit("https://www.w3.org/ns/activitystreams#Public");
    assert(followers.last() == 's');
    assert(everyone.last() == 'c');
    assert(followers.subrange(
        followers.len() - "/followers"@.len(),
        followers.len() as int,
    ) =~= "/followers"@);
    assert(has_suffix(followers, "/followers"@));
    match visibility {
        Visibility::Public => {
            assert(to[0] == everyone);
        },
        Visibility::Unlisted => {
            assert(cc[0] == everyone);
            if to.contains(everyone) {
                let i = choose|i: int| 0 <= i < to.len() && to[i] == everyone;
                assert(i > 0);
                assert(mentions[i - 1] == everyone);
            }
        },
        Visibility::Private => {
            if to.contains(everyone) {
                let i = choose|i: int| 0 <= i < to.len() && to[i] == everyone;
                assert(i > 0);
                assert(mentions[i - 1] == everyone);
            }
            assert(!cc.contains(everyone));
            assert(has_suffix(to[0], "/followers"@));
        },
        Visibility::Direct => {
            assert(to == mentions);
            assert(!cc.contains(everyone));
        },
    }
}

/// A published status is taken in as it was written: the same URI, content,
/// content warning, sensitivity, visibility and time. The written time has to
/// read back, which writing it ensures.
pub proof fn law_published_notes_are_taken_in_as_written(
    status: Status,
    actor_url: Seq<char>,
    mentions: Seq<Seq<char>>,
    in_reply_to: Option<Seq<char>>,
    taken: Status,
    author: Id,
    parent: Option<Status>,
    fresh: Fresh,
)
    requires
        status.visibility != Visibility::Public ==> !mentions.contains(PUBLIC_COLLECTION_URI@),
        status.visibility == Visibility::Direct ==> !any_has_suffix(mentions, "/followers"@),
        reads_as(rfc3339_of(status.created_at), status.created_at),
        is_ingested(
            taken,
            created_object(
                status,
                actor_url,
                addressed_to(status.visibility, mentions, followers_uri_of(actor_url)),
                addressed_cc(status.visibility, mentions, followers_uri_of(actor_url)),
                in_reply_to,
                None,
            ),
            status.uri@,
            author,
            parent,
            fresh,
        ),
    ensures
        taken.uri@ == status.uri@,
        taken.content@ == status.content@,
        taken.spoiler_text@ == status.spoiler_text@,
        taken.sensitive == status.sensitive,
        taken.visibility == status.visibility,
        taken.created_at == status.created_at,
        taken.actor_id == author,
        !taken.local,
{
    let to = addressed_to(status.visibility, mentions, followers_uri_of(actor_url));
    let cc = addressed_cc(status.visibility, mentions, followers_uri_of(actor_url));
    lemma_published_note(status, actor_url, to, cc, in_reply_to);
    law_visibility_survives_addressing(status.visibility, mentions, actor_url);
    law_readings_are_unique(rfc3339_of(status.created_at), taken.created_at, status.created_at);
}

/// The `Update` of a status embeds a `Note` with the id of the status, and
/// an edit that is read from it has the new content, content warning and
/// sensitivity.
pub proof fn law_published_edits_are_taken_in_as_written(
    activity_id: Seq<char>,
    status: Status,
    actor_url: Seq<char>,
    to: Seq<Seq<char>>,
    cc: Seq<Seq<char>>,
    in_reply_to: Option<Seq<char>>,
    edit: StatusEdit,
    target: Status,
    now: Timestamp,
)
    requires
        is_edit(edit, updated_object(status, actor_url, to, cc, in_reply_to), target, now),
    ensures
        ({
            let note = updated_object(status, actor_url, to, cc, in_reply_to);
            let activity = update_activity(activity_id, actor_url, status, to, cc, note);
            &&& text_prop(activity, "type"@) == Some("Update"@)
            &&& embedded_note(JsonModel::Object(activity)) == Some(note)
            &&& text_prop(note, "id"@) == Some(status.uri@)
            &&& edit.content@ == status.content@
            &&& edit.spoiler_text@ == status.spoiler_text@
            &&& edit.sensitive == status.sensitive
        }),
{
    lemma_property_names();
    if status.spoiler_text@.len() == 0 {
        assert(status.spoiler_text@ =~= Seq::<char>::empty());
    }
}

/// Whether a text could be the host of a URL: it holds no character that
/// ends the authority part.
pub open spec fn is_host(domain: Seq<char>) -> bool {
    forall|i: int| 0 <= i < domain.len() ==> !authority_stops().contains(#[trigger] domain[i])
}

proof fn lemma_stop_after_host(url: Seq<char>, from: int, end: int)
    requires
        0 <= from <= end < url.len(),
        forall|i: int| from <= i < end ==> !authority_stops().contains(#[trigger] url[i]),
        authority_stops().contains(url[end]),
    ensures
        first_stop(url, from, authority_stops()) == end,
    decreases end - from,
{
    if from < end {
        lemma_stop_after_host(url, from + 1, end);
    }
}

/// The host of a URL of this instance is its domain.
proof fn lemma_own_host(domain: Seq<char>, path: Seq<char>)
    requires
        is_host(domain),
        path.len() > 0 && path[0] == '/',
    ensures
        host_of("https://"@ + domain + path) == domain,
{
    reveal_strlit("https://");
    let scheme = "https://"@;
    let url = scheme + domain + path;
    assert(scheme.len() == 8);
    assert(url[0] == 'h' && url[1] == 't' && url[2] == 't' && url[3] == 'p' && url[4] == 's');
    assert(url[5] == ':' && url[6] == '/' && url[7] == '/');
    assert(separator_at(url, 5));
    reveal_with_fuel(after_scheme, 7);
    assert(after_scheme(url, 0) == 8);
    let end = 8 + domain.len();
    assert forall|i: int| 8 <= i < end implies !authority_stops().contains(#[trigger] url[i]) by {
        assert(url[i] == domain[i - 8]);
    }
    assert(url[end as int] == path[0]);
    lemma_stop_after_host(url, 8, end as int);
    assert(url.subrange(8, end as int) =~= domain);
}

/// What an instance publishes under its own URLs can be fetched: neither the
/// document nor the place it was fetched from is refused.
pub proof fn law_own_notes_can_be_fetched(
    urls: ActorUrls,
    status: Status,
    handle: Seq<char>,
    to: Seq<Seq<char>>,
    cc: Seq<Seq<char>>,
    in_reply_to: Option<Seq<char>>,
)
    requires
        is_host(urls.domain@),
        status.uri@ == urls.object_url_of("statuses"@, status.id),
    ensures
        ({
            let note = created_object(
                status,
                urls.actor_url_of(handle),
                to,
                cc,
                in_reply_to,
                None,
            );
            &&& document_refusal(JsonModel::Object(note)) is None
            &&& fetched_refusal(status.uri@, JsonModel::Object(note)) is None
        }),
{
    let actor_url = urls.actor_url_of(handle);
    lemma_published_note(status, actor_url, to, cc, in_reply_to);
    reveal_strlit("/users/");
    reveal_strlit("/");
    let id_text = crate::text::integer_text(status.id.0 as int);
    let user_path = "/users/"@ + handle;
    let status_path = "/"@ + "statuses"@ + "/"@ + id_text;
    assert("https://"@ + urls.domain@ + user_path =~= actor_url);
    assert("https://"@ + urls.domain@ + status_path =~= status.uri@);
    assert(user_path[0] == '/');
    assert(status_path[0] == '/');
    lemma_own_host(urls.domain@, user_path);
    lemma_own_host(urls.domain@, status_path);
    assert(same_ignoring_ascii_case(urls.domain@, urls.domain@));
}

} // verus!
