//! What is sent for what local actors do, property by property.

use vstd::prelude::*;

use crate::activity_builder::{option_note, DeliveryRequest, StatusActivityBuilder, UndoKind};
use crate::addressing::{ActorRef, Addressing};
use crate::clock::{rfc3339_text, Timestamp};
use crate::domain::{ActorUrls, Handle, Id, Recipient};
use crate::error::AppError;
use crate::interaction_service::{InteractionService, NewFavourite, NewReblog};
use crate::json::{string_views, JsonModel};
use crate::laws::{lists, lists_only, refuses, says, Properties};
use crate::model::{Poll, PollOption, Status};
use crate::order::{by_index, law_by_index_is_sorted};
use crate::poll_service::{PollService, PollVisible};
use crate::text::integer_text;
use crate::wire::lemma_property_names;

verus! {

/// The page of a local actor.
pub open spec fn actor_page(urls: ActorUrls, name: Seq<char>) -> Seq<char> {
    "https://"@ + urls.domain@ + "/users/"@ + name
}

/// The page of an Activity.
pub open spec fn activity_page(urls: ActorUrls, id: Id) -> Seq<char> {
    "https://"@ + urls.domain@ + "/"@ + "activities"@ + "/"@ + integer_text(id.0 as int)
}

/// How a time is written.
pub open spec fn written(at: Timestamp) -> Seq<char> {
    rfc3339_text(at.local() as i128, at.offset() as i32)
}

/// What a request sends.
pub open spec fn sent(request: DeliveryRequest) -> Properties {
    request.activity@->Object_0
}

/// What an Activity embeds.
pub open spec fn embedded(activity: Properties) -> Properties {
    activity["object"@]->Object_0
}

/// Whether a request sends an object, from the given actor and to the given
/// recipients.
pub open spec fn is_from_to(
    request: DeliveryRequest,
    sender: Handle,
    recipients: Seq<Recipient>,
) -> bool {
    &&& request.activity@ is Object
    &&& request.sender == sender
    &&& request.recipients@ == recipients
}

/// Whether an object embeds another.
pub open spec fn embeds(activity: Properties) -> bool {
    activity.dom().contains("object"@) && activity["object"@] is Object
}

proof fn lemma_lists(to: Seq<String>)
    ensures
        forall|m: Properties, key: Seq<char>|
            m.dom().contains(key) && #[trigger] m[key] == crate::json::text_array(string_views(to))
                ==> lists(m, key, to),
{
    let items = string_views(to).map_values(|s: Seq<char>| JsonModel::Str(s));
    assert(items.len() == to.len());
    assert forall|i: int| 0 <= i < to.len() implies #[trigger] items[i] == JsonModel::Str(
        to[i]@,
    ) by {
        assert(string_views(to)[i] == to[i]@);
    }
}

/// Whether a value stands for an option of a poll: its title, and how many
/// votes it has.
pub open spec fn describes_option(value: JsonModel, option: PollOption) -> bool {
    &&& value matches JsonModel::Object(note) && {
        &&& note.dom() == set!["type"@, "name"@, "replies"@]
        &&& says(note, "type"@, "Note"@)
        &&& says(note, "name"@, option.title@)
        &&& note["replies"@] matches JsonModel::Object(replies) && {
            &&& replies.dom() == set!["type"@, "totalItems"@]
            &&& says(replies, "type"@, "Collection"@)
            &&& replies["totalItems"@] == JsonModel::Int(option.votes_count as int)
        }
    }
}

proof fn lemma_describes_option(option: PollOption)
    ensures
        describes_option(option_note(option), option),
{
    reveal_strlit("type");
    reveal_strlit("name");
    reveal_strlit("replies");
    reveal_strlit("totalItems");
    assert("type"@[0] == 't' && "name"@[0] == 'n');
    assert("type"@.len() == 4 && "name"@.len() == 4 && "replies"@.len() == 7
        && "totalItems"@.len() == 10);
    let note = option_note(option)->Object_0;
    let replies = note["replies"@]->Object_0;
    assert(note.dom() =~= set!["type"@, "name"@, "replies"@]);
    assert(replies.dom() =~= set!["type"@, "totalItems"@]);
}

/// Whether a value is a list of the options of a poll, all of them, in the
/// order of their indices.
pub open spec fn describes_options(value: JsonModel, options: Seq<PollOption>) -> bool {
    &&& value matches JsonModel::Array(items) && (exists|ordered: Seq<PollOption>|
        {
            &&& #[trigger] ordered.to_multiset() == options.to_multiset()
            &&& ordered.len() == items.len()
            &&& forall|i: int, j: int|
                0 <= i < j < ordered.len() ==> ordered[i].idx <= ordered[j].idx
            &&& forall|i: int|
                0 <= i < items.len() ==> describes_option(#[trigger] items[i], ordered[i])
        })
}

proof fn lemma_describes_options(options: Seq<PollOption>)
    ensures
        describes_options(crate::activity_builder::option_notes(options), options),
{
    let ordered = by_index(options);
    law_by_index_is_sorted(options);
    let items = ordered.map_values(|o: PollOption| option_note(o));
    assert forall|i: int| 0 <= i < items.len() implies describes_option(
        #[trigger] items[i],
        ordered[i],
    ) by {
        lemma_describes_option(ordered[i]);
    }
    assert(ordered.to_multiset() == options.to_multiset());
}

/// The options of a poll are all sent, in the order of their indices, each
/// with its title and its votes.
pub proof fn law_all_options_are_sent(options: &[PollOption], r: crate::json::Json)
    requires
        call_ensures(crate::activity_builder::poll_options_value, (options,), r),
    ensures
        describes_options(r@, options@),
{
    lemma_describes_options(options@);
}

/// A published status is sent as a `Create` of its author, addressed as its
/// object is. The object is the status: its URI, author, content, time and
/// sensitivity, its content warning where it has one, and what it replies to
/// where it replies. Without a poll it is a `Note`; with one it is a
/// `Question` with all options, under `anyOf` where several may be chosen and
/// under `oneOf` where one may, and the deadline where there is one.
pub proof fn law_creates_say_what_was_published(
    builder: &StatusActivityBuilder,
    sender: &Handle,
    fresh: Id,
    status: &Status,
    addressing: &Addressing,
    recipients: Vec<Recipient>,
    in_reply_to_uri: Option<&str>,
    poll: Option<(&Poll, &[PollOption])>,
    r: DeliveryRequest,
)
    requires
        call_ensures(
            StatusActivityBuilder::deliver_create,
            (builder, sender, fresh, status, addressing, recipients, in_reply_to_uri, poll),
            r,
        ),
    ensures
        is_from_to(r, *sender, recipients@),
        ({
            let activity = sent(r);
            let object = embedded(activity);
            &&& activity.dom() == set![
                "id"@,
                "type"@,
                "actor"@,
                "published"@,
                "to"@,
                "cc"@,
                "object"@,
            ]
            &&& says(activity, "id"@, activity_page(builder.urls, fresh))
            &&& says(activity, "type"@, "Create"@)
            &&& says(activity, "actor"@, actor_page(builder.urls, sender.name@))
            &&& says(activity, "published"@, written(status.created_at))
            &&& lists(activity, "to"@, addressing.to@)
            &&& lists(activity, "cc"@, addressing.cc@)
            &&& embeds(activity)
            &&& object.dom().subset_of(
                set![
                    "id"@,
                    "type"@,
                    "attributedTo"@,
                    "content"@,
                    "published"@,
                    "sensitive"@,
                    "summary"@,
                    "inReplyTo"@,
                    "anyOf"@,
                    "oneOf"@,
                    "endTime"@,
                    "to"@,
                    "cc"@,
                ],
            )
            &&& says(object, "id"@, status.uri@)
            &&& says(
                object,
                "type"@,
                if poll is Some {
                    "Question"@
                } else {
                    "Note"@
                },
            )
            &&& says(object, "attributedTo"@, actor_page(builder.urls, sender.name@))
            &&& says(object, "content"@, status.content@)
            &&& says(object, "published"@, written(status.created_at))
            &&& object.dom().contains("sensitive"@)
            &&& object["sensitive"@] == JsonModel::Bool(status.sensitive)
            &&& lists(object, "to"@, addressing.to@)
            &&& lists(object, "cc"@, addressing.cc@)
            &&& if status.spoiler_text@.len() > 0 {
                says(object, "summary"@, status.spoiler_text@)
            } else {
                !object.dom().contains("summary"@)
            }
            &&& match in_reply_to_uri {
                Some(uri) => says(object, "inReplyTo"@, uri@),
                None => !object.dom().contains("inReplyTo"@),
            }
            &&& match poll {
                Some((poll, options)) => {
                    &&& object.dom().contains("anyOf"@) <==> poll.multiple
                    &&& object.dom().contains("oneOf"@) <==> !poll.multiple
                    &&& describes_options(
                        object[if poll.multiple {
                            "anyOf"@
                        } else {
                            "oneOf"@
                        }],
                        options@,
                    )
                    &&& match poll.expires_at {
                        Some(deadline) => says(object, "endTime"@, written(deadline)),
                        None => !object.dom().contains("endTime"@),
                    }
                },
                None => {
                    &&& !object.dom().contains("anyOf"@)
                    &&& !object.dom().contains("oneOf"@)
                    &&& !object.dom().contains("endTime"@)
                },
            }
        }),
{
    lemma_property_names();
    lemma_lists(addressing.to@);
    lemma_lists(addressing.cc@);
    if let Some((poll, options)) = poll {
        lemma_describes_options(options@);
    }
    assert(sent(r).dom() =~= set![
        "id"@,
        "type"@,
        "actor"@,
        "published"@,
        "to"@,
        "cc"@,
        "object"@,
    ]);
}

/// An edited status is sent as an `Update` of its author, made when the status
/// was last changed, with the `Note` that the status now is.
pub proof fn law_updates_say_what_was_edited(
    builder: &StatusActivityBuilder,
    sender: &Handle,
    fresh: Id,
    status: &Status,
    addressing: &Addressing,
    recipients: Vec<Recipient>,
    in_reply_to_uri: Option<&str>,
    r: DeliveryRequest,
)
    requires
        call_ensures(
            StatusActivityBuilder::deliver_update,
            (builder, sender, fresh, status, addressing, recipients, in_reply_to_uri),
            r,
        ),
    ensures
        is_from_to(r, *sender, recipients@),
        ({
            let activity = sent(r);
            let object = embedded(activity);
            let changed = match status.edited_at {
                Some(at) => at,
                None => status.created_at,
            };
            &&& activity.dom() == set![
                "id"@,
                "type"@,
                "actor"@,
                "published"@,
                "to"@,
                "cc"@,
                "object"@,
            ]
            &&& says(activity, "id"@, activity_page(builder.urls, fresh))
            &&& says(activity, "type"@, "Update"@)
            &&& says(activity, "actor"@, actor_page(builder.urls, sender.name@))
            &&& says(activity, "published"@, written(changed))
            &&& lists(activity, "to"@, addressing.to@)
            &&& lists(activity, "cc"@, addressing.cc@)
            &&& embeds(activity)
            &&& object.dom().subset_of(
                set![
                    "id"@,
                    "type"@,
                    "attributedTo"@,
                    "content"@,
                    "published"@,
                    "updated"@,
                    "sensitive"@,
                    "summary"@,
                    "inReplyTo"@,
                    "to"@,
                    "cc"@,
                ],
            )
            &&& says(object, "id"@, status.uri@)
            &&& says(object, "type"@, "Note"@)
            &&& says(object, "attributedTo"@, actor_page(builder.urls, sender.name@))
            &&& says(object, "content"@, status.content@)
            &&& says(object, "published"@, written(status.created_at))
            &&& says(object, "updated"@, written(changed))
            &&& object.dom().contains("sensitive"@)
            &&& object["sensitive"@] == JsonModel::Bool(status.sensitive)
            &&& lists(object, "to"@, addressing.to@)
            &&& lists(object, "cc"@, addressing.cc@)
            &&& if status.spoiler_text@.len() > 0 {
                says(object, "summary"@, status.spoiler_text@)
            } else {
                !object.dom().contains("summary"@)
            }
            &&& match in_reply_to_uri {
                Some(uri) => says(object, "inReplyTo"@, uri@),
                None => !object.dom().contains("inReplyTo"@),
            }
        }),
{
    lemma_property_names();
    lemma_lists(addressing.to@);
    lemma_lists(addressing.cc@);
    assert(sent(r).dom() =~= set![
        "id"@,
        "type"@,
        "actor"@,
        "published"@,
        "to"@,
        "cc"@,
        "object"@,
    ]);
}

/// A boost is sent as an `Announce` of the booster that names the boosted
/// status.
pub proof fn law_announces_name_what_was_boosted(
    builder: &StatusActivityBuilder,
    sender: &Handle,
    fresh: Id,
    reblog: &Status,
    target: &Status,
    addressing: &Addressing,
    recipients: Vec<Recipient>,
    r: DeliveryRequest,
)
    requires
        call_ensures(
            StatusActivityBuilder::deliver_announce,
            (builder, sender, fresh, reblog, target, addressing, recipients),
            r,
        ),
    ensures
        is_from_to(r, *sender, recipients@),
        ({
            let activity = sent(r);
            &&& activity.dom() == set![
                "id"@,
                "type"@,
                "actor"@,
                "published"@,
                "object"@,
                "to"@,
                "cc"@,
            ]
            &&& says(activity, "id"@, activity_page(builder.urls, fresh))
            &&& says(activity, "type"@, "Announce"@)
            &&& says(activity, "actor"@, actor_page(builder.urls, sender.name@))
            &&& says(activity, "published"@, written(reblog.created_at))
            &&& says(activity, "object"@, target.uri@)
            &&& lists(activity, "to"@, addressing.to@)
            &&& lists(activity, "cc"@, addressing.cc@)
        }),
{
    lemma_property_names();
    lemma_lists(addressing.to@);
    lemma_lists(addressing.cc@);
    assert(sent(r).dom() =~= set![
        "id"@,
        "type"@,
        "actor"@,
        "published"@,
        "object"@,
        "to"@,
        "cc"@,
    ]);
}

/// A deleted status is sent as a `Delete` of its author that names it.
pub proof fn law_deletes_name_what_was_deleted(
    builder: &StatusActivityBuilder,
    sender: &Handle,
    fresh: Id,
    status: &Status,
    addressing: &Addressing,
    recipients: Vec<Recipient>,
    r: DeliveryRequest,
)
    requires
        call_ensures(
            StatusActivityBuilder::deliver_delete,
            (builder, sender, fresh, status, addressing, recipients),
            r,
        ),
    ensures
        is_from_to(r, *sender, recipients@),
        ({
            let activity = sent(r);
            &&& activity.dom() == set!["id"@, "type"@, "actor"@, "object"@, "to"@, "cc"@]
            &&& says(activity, "id"@, activity_page(builder.urls, fresh))
            &&& says(activity, "type"@, "Delete"@)
            &&& says(activity, "actor"@, actor_page(builder.urls, sender.name@))
            &&& says(activity, "object"@, status.uri@)
            &&& lists(activity, "to"@, addressing.to@)
            &&& lists(activity, "cc"@, addressing.cc@)
        }),
{
    lemma_property_names();
    lemma_lists(addressing.to@);
    lemma_lists(addressing.cc@);
    assert(sent(r).dom() =~= set!["id"@, "type"@, "actor"@, "object"@, "to"@, "cc"@]);
}

/// Whether an Activity is a `Like` of a status by an actor, to its author
/// alone.
pub open spec fn is_like(
    activity: Properties,
    id: Seq<char>,
    actor: Seq<char>,
    target: Seq<char>,
    author: Seq<char>,
) -> bool {
    &&& activity.dom() == set!["id"@, "type"@, "actor"@, "object"@, "to"@]
    &&& says(activity, "id"@, id)
    &&& says(activity, "type"@, "Like"@)
    &&& says(activity, "actor"@, actor)
    &&& says(activity, "object"@, target)
    &&& lists_only(activity, "to"@, author)
}

/// Whether an Activity is an `Undo` by an actor of what that actor did to a
/// status, to its author alone.
pub open spec fn is_undo(
    activity: Properties,
    id: Seq<char>,
    inner_id: Seq<char>,
    actor: Seq<char>,
    undone: UndoKind,
    target: Seq<char>,
    author: Seq<char>,
) -> bool {
    let inner = embedded(activity);
    &&& activity.dom() == set!["id"@, "type"@, "actor"@, "object"@, "to"@]
    &&& says(activity, "id"@, id)
    &&& says(activity, "type"@, "Undo"@)
    &&& says(activity, "actor"@, actor)
    &&& lists_only(activity, "to"@, author)
    &&& embeds(activity)
    &&& inner.dom() == set!["id"@, "type"@, "actor"@, "object"@]
    &&& says(inner, "id"@, inner_id)
    &&& says(
        inner,
        "type"@,
        match undone {
            UndoKind::Announce => "Announce"@,
            UndoKind::Like => "Like"@,
        },
    )
    &&& says(inner, "actor"@, actor)
    &&& says(inner, "object"@, target)
}

/// Whether an Activity is a vote of an actor for a title: a `Create` of the
/// actor with a `Note` of the actor that names the title and replies to the
/// status of the poll, both to the author of the poll alone.
pub open spec fn is_vote(
    activity: Properties,
    id: Seq<char>,
    note_id: Seq<char>,
    actor: Seq<char>,
    title: Seq<char>,
    target: Seq<char>,
    author: Seq<char>,
) -> bool {
    let note = embedded(activity);
    &&& activity.dom() == set!["id"@, "type"@, "actor"@, "to"@, "object"@]
    &&& says(activity, "id"@, id)
    &&& says(activity, "type"@, "Create"@)
    &&& says(activity, "actor"@, actor)
    &&& lists_only(activity, "to"@, author)
    &&& embeds(activity)
    &&& note.dom() == set!["id"@, "type"@, "name"@, "attributedTo"@, "inReplyTo"@, "to"@]
    &&& says(note, "id"@, note_id)
    &&& says(note, "type"@, "Note"@)
    &&& says(note, "name"@, title)
    &&& says(note, "attributedTo"@, actor)
    &&& says(note, "inReplyTo"@, target)
    &&& lists_only(note, "to"@, author)
}

proof fn lemma_like(
    id: Seq<char>,
    actor: Seq<char>,
    target: Status,
    author: Seq<char>,
)
    ensures
        is_like(
            crate::activity_builder::like_activity(id, actor, target, author),
            id,
            actor,
            target.uri@,
            author,
        ),
{
    lemma_property_names();
    let activity = crate::activity_builder::like_activity(id, actor, target, author);
    assert(activity.dom() =~= set!["id"@, "type"@, "actor"@, "object"@, "to"@]);
}

proof fn lemma_undo(
    id: Seq<char>,
    inner_id: Seq<char>,
    actor: Seq<char>,
    undone: UndoKind,
    target: Status,
    author: Seq<char>,
)
    ensures
        is_undo(
            crate::activity_builder::undo_activity(
                id,
                actor,
                crate::activity_builder::undone_activity(inner_id, actor, undone, target),
                author,
            ),
            id,
            inner_id,
            actor,
            undone,
            target.uri@,
            author,
        ),
{
    lemma_property_names();
    let inner = crate::activity_builder::undone_activity(inner_id, actor, undone, target);
    let activity = crate::activity_builder::undo_activity(id, actor, inner, author);
    assert(activity.dom() =~= set!["id"@, "type"@, "actor"@, "object"@, "to"@]);
    assert(inner.dom() =~= set!["id"@, "type"@, "actor"@, "object"@]);
}

proof fn lemma_vote(
    id: Seq<char>,
    note_id: Seq<char>,
    actor: Seq<char>,
    title: Seq<char>,
    target: Status,
    author: Seq<char>,
)
    ensures
        is_vote(
            crate::activity_builder::vote_activity(
                id,
                actor,
                crate::activity_builder::vote_note(note_id, actor, title, target, author),
                author,
            ),
            id,
            note_id,
            actor,
            title,
            target.uri@,
            author,
        ),
{
    lemma_property_names();
    let note = crate::activity_builder::vote_note(note_id, actor, title, target, author);
    let activity = crate::activity_builder::vote_activity(id, actor, note, author);
    assert(activity.dom() =~= set!["id"@, "type"@, "actor"@, "to"@, "object"@]);
    assert(note.dom() =~= set![
        "id"@,
        "type"@,
        "name"@,
        "attributedTo"@,
        "inReplyTo"@,
        "to"@,
    ]);
}

/// A favourite is sent as a `Like` of the one who favourited, that names the
/// status, to its author alone.
pub proof fn law_likes_name_what_was_favourited(
    builder: &StatusActivityBuilder,
    sender: &Handle,
    fresh: Id,
    target: &Status,
    recipient: &ActorRef,
    r: DeliveryRequest,
)
    requires
        call_ensures(
            StatusActivityBuilder::deliver_like,
            (builder, sender, fresh, target, recipient),
            r,
        ),
    ensures
        is_from_to(r, *sender, seq![recipient.recipient]),
        is_like(
            sent(r),
            activity_page(builder.urls, fresh),
            actor_page(builder.urls, sender.name@),
            target.uri@,
            recipient.uri@,
        ),
{
    lemma_like(
        activity_page(builder.urls, fresh),
        actor_page(builder.urls, sender.name@),
        *target,
        recipient.uri@,
    );
}

/// What is taken back is sent as an `Undo` of the one who did it, with what it
/// was and to which status, to the author of the status alone.
pub proof fn law_undos_name_what_was_taken_back(
    builder: &StatusActivityBuilder,
    sender: &Handle,
    inner_fresh: Id,
    fresh: Id,
    undone: UndoKind,
    target: &Status,
    recipient: &ActorRef,
    r: DeliveryRequest,
)
    requires
        call_ensures(
            StatusActivityBuilder::deliver_undo,
            (builder, sender, inner_fresh, fresh, undone, target, recipient),
            r,
        ),
    ensures
        is_from_to(r, *sender, seq![recipient.recipient]),
        is_undo(
            sent(r),
            activity_page(builder.urls, fresh),
            activity_page(builder.urls, inner_fresh),
            actor_page(builder.urls, sender.name@),
            undone,
            target.uri@,
            recipient.uri@,
        ),
{
    lemma_undo(
        activity_page(builder.urls, fresh),
        activity_page(builder.urls, inner_fresh),
        actor_page(builder.urls, sender.name@),
        undone,
        *target,
        recipient.uri@,
    );
}

/// A vote is sent once for each chosen title, in order, each as the voter's
/// own: the voter acts in the `Create` and is the author of the `Note`, and
/// both go to the author of the poll alone.
pub proof fn law_votes_are_the_voters_own(
    builder: &StatusActivityBuilder,
    sender: &Handle,
    fresh_ids: &[Id],
    poll: &Poll,
    target: &Status,
    titles: &[String],
    recipient: &ActorRef,
    r: Vec<DeliveryRequest>,
)
    requires
        call_ensures(
            StatusActivityBuilder::deliver_vote,
            (builder, sender, fresh_ids, poll, target, titles, recipient),
            r,
        ),
    ensures
        r@.len() == titles@.len(),
        forall|k: int|
            0 <= k < r@.len() ==> is_from_to(
                #[trigger] r@[k],
                *sender,
                seq![recipient.recipient],
            ) && is_vote(
                sent(r@[k]),
                activity_page(builder.urls, fresh_ids@[2 * k + 1]),
                activity_page(builder.urls, fresh_ids@[2 * k]),
                actor_page(builder.urls, sender.name@),
                titles@[k]@,
                target.uri@,
                recipient.uri@,
            ),
{
    assert forall|k: int| 0 <= k < r@.len() implies is_from_to(
        #[trigger] r@[k],
        *sender,
        seq![recipient.recipient],
    ) && is_vote(
        sent(r@[k]),
        activity_page(builder.urls, fresh_ids@[2 * k + 1]),
        activity_page(builder.urls, fresh_ids@[2 * k]),
        actor_page(builder.urls, sender.name@),
        titles@[k]@,
        target.uri@,
        recipient.uri@,
    ) by {
        lemma_vote(
            activity_page(builder.urls, fresh_ids@[2 * k + 1]),
            activity_page(builder.urls, fresh_ids@[2 * k]),
            actor_page(builder.urls, sender.name@),
            titles@[k]@,
            *target,
            recipient.uri@,
        );
    }
}

/// A vote of a local actor is sent to the author of the poll, as the voter's
/// own, once for each title.
pub proof fn law_local_votes_go_to_the_author(
    service: &PollService,
    voter: &Handle,
    author: &Handle,
    seen: &PollVisible,
    titles: &[String],
    fresh_ids: &[Id],
    r: Vec<DeliveryRequest>,
)
    requires
        call_ensures(PollService::vote, (service, voter, author, seen, titles, fresh_ids), r),
    ensures
        r@.len() == titles@.len(),
        forall|k: int|
            0 <= k < r@.len() ==> is_from_to(
                #[trigger] r@[k],
                *voter,
                seq![Recipient::Local(*author)],
            ) && is_vote(
                sent(r@[k]),
                activity_page(service.activity_builder.urls, fresh_ids@[2 * k + 1]),
                activity_page(service.activity_builder.urls, fresh_ids@[2 * k]),
                actor_page(service.activity_builder.urls, voter.name@),
                titles@[k]@,
                seen.status.uri@,
                actor_page(service.activity_builder.urls, author.name@),
            ),
{
    let urls = service.activity_builder.urls;
    assert forall|k: int| 0 <= k < r@.len() implies is_from_to(
        #[trigger] r@[k],
        *voter,
        seq![Recipient::Local(*author)],
    ) && is_vote(
        sent(r@[k]),
        activity_page(urls, fresh_ids@[2 * k + 1]),
        activity_page(urls, fresh_ids@[2 * k]),
        actor_page(urls, voter.name@),
        titles@[k]@,
        seen.status.uri@,
        actor_page(urls, author.name@),
    ) by {
        lemma_vote(
            activity_page(urls, fresh_ids@[2 * k + 1]),
            activity_page(urls, fresh_ids@[2 * k]),
            actor_page(urls, voter.name@),
            titles@[k]@,
            seen.status,
            actor_page(urls, author.name@),
        );
    }
}

/// A local favourite is sent to the author of the status, as the fan's own.
pub proof fn law_local_likes_go_to_the_author(
    service: &InteractionService,
    new: &NewFavourite,
    fan: &Handle,
    author: &Handle,
    fresh: Id,
    r: DeliveryRequest,
)
    requires
        call_ensures(
            InteractionService::favourite_delivery,
            (service, new, fan, author, fresh),
            r,
        ),
    ensures
        is_from_to(r, *fan, seq![Recipient::Local(*author)]),
        is_like(
            sent(r),
            activity_page(service.activity_builder.urls, fresh),
            actor_page(service.activity_builder.urls, fan.name@),
            new.target.uri@,
            actor_page(service.activity_builder.urls, author.name@),
        ),
{
    let urls = service.activity_builder.urls;
    lemma_like(
        activity_page(urls, fresh),
        actor_page(urls, fan.name@),
        new.target,
        actor_page(urls, author.name@),
    );
}

/// What a local actor takes back is sent to the author of the status, as the
/// actor's own.
pub proof fn law_local_undos_go_to_the_author(
    service: &InteractionService,
    undone: UndoKind,
    target: &Status,
    actor: &Handle,
    author: &Handle,
    inner_fresh: Id,
    fresh: Id,
    r: DeliveryRequest,
)
    requires
        call_ensures(
            InteractionService::undo_delivery,
            (service, undone, target, actor, author, inner_fresh, fresh),
            r,
        ),
    ensures
        is_from_to(r, *actor, seq![Recipient::Local(*author)]),
        is_undo(
            sent(r),
            activity_page(service.activity_builder.urls, fresh),
            activity_page(service.activity_builder.urls, inner_fresh),
            actor_page(service.activity_builder.urls, actor.name@),
            undone,
            target.uri@,
            actor_page(service.activity_builder.urls, author.name@),
        ),
{
    let urls = service.activity_builder.urls;
    lemma_undo(
        activity_page(urls, fresh),
        activity_page(urls, inner_fresh),
        actor_page(urls, actor.name@),
        undone,
        *target,
        actor_page(urls, author.name@),
    );
}

/// A local boost is sent as an `Announce` of the booster that names the
/// boosted status. It is addressed by the visibility of the boost: everyone
/// for a public or unlisted one, the booster's followers for all but a direct
/// one, to whom alone it is delivered.
pub proof fn law_local_announces_go_to_the_followers(
    service: &InteractionService,
    new: &NewReblog,
    booster: &Handle,
    followers: &[Recipient],
    fresh: Id,
    r: DeliveryRequest,
)
    requires
        call_ensures(
            InteractionService::reblog_delivery,
            (service, new, booster, followers, fresh),
            r,
        ),
    ensures
        is_from_to(
            r,
            *booster,
            if new.reblog.visibility is Direct {
                Seq::empty()
            } else {
                followers@
            },
        ),
        ({
            let urls = service.activity_builder.urls;
            let activity = sent(r);
            let everyone = "https://www.w3.org/ns/activitystreams#Public"@;
            let circle = actor_page(urls, booster.name@) + "/followers"@;
            let nobody = |key: Seq<char>|
                activity.dom().contains(key) && activity[key] == JsonModel::Array(Seq::empty());
            &&& activity.dom() == set![
                "id"@,
                "type"@,
                "actor"@,
                "published"@,
                "object"@,
                "to"@,
                "cc"@,
            ]
            &&& says(activity, "id"@, activity_page(urls, fresh))
            &&& says(activity, "type"@, "Announce"@)
            &&& says(activity, "actor"@, actor_page(urls, booster.name@))
            &&& says(activity, "published"@, written(new.reblog.created_at))
            &&& says(activity, "object"@, new.target.uri@)
            &&& match new.reblog.visibility {
                crate::domain::Visibility::Public => lists_only(activity, "to"@, everyone)
                    && lists_only(activity, "cc"@, circle),
                crate::domain::Visibility::Unlisted => lists_only(activity, "to"@, circle)
                    && lists_only(activity, "cc"@, everyone),
                crate::domain::Visibility::Private => lists_only(activity, "to"@, circle)
                    && nobody("cc"@),
                crate::domain::Visibility::Direct => nobody("to"@) && nobody("cc"@),
            }
        }),
{
    lemma_property_names();
    assert(sent(r).dom() =~= set![
        "id"@,
        "type"@,
        "actor"@,
        "published"@,
        "object"@,
        "to"@,
        "cc"@,
    ]);
    let nobody = Seq::<Seq<char>>::empty();
    assert(nobody.map_values(|s: Seq<char>| JsonModel::Str(s)) =~= Seq::<JsonModel>::empty());
}

/// A local actor is named by what the directory holds; an unknown one is a
/// `404`.
pub proof fn law_only_known_actors_send(
    actor_id: Id,
    found: Option<Handle>,
    r: Result<Handle, AppError>,
)
    requires
        call_ensures(crate::activity_builder::resolve_handle, (actor_id, found), r),
    ensures
        r is Ok <==> found is Some,
        r matches Ok(handle) ==> Some(handle) == found,
        r matches Err(e) ==> refuses(
            e,
            404,
            "actor id Id("@ + integer_text(actor_id.0 as int)
                + ") does not resolve to an existing local actor"@,
        ),
{
}

} // verus!
