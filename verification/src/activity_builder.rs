//! The Activities that local actions are delivered as.

use vstd::prelude::*;

use crate::addressing::{ActorRef, Addressing};
use crate::clock::{reads_as, rfc3339, rfc3339_of, Timestamp};
use crate::domain::{ActorUrls, Handle, Id, Recipient};
use crate::error::{AppError, NOT_FOUND};
use crate::json::{
    items_model, json_model, string_array, string_views, text_array, Json, JsonModel, JsonObject,
};
use crate::model::{Poll, PollOption, Status};
use crate::order::{by_index, options_by_index};
use crate::text::{i64_to_text, integer_text, joined};

verus! {

/// The interaction that an `Undo` takes back.
#[derive(Debug, Clone, Copy, PartialEq, Eq, Structural)]
pub enum UndoKind {
    Announce,
    Like,
}

impl UndoKind {
    /// The type of the Activity that is taken back.
    pub open spec fn activity_name(self) -> Seq<char> {
        match self {
            UndoKind::Announce => "Announce"@,
            UndoKind::Like => "Like"@,
        }
    }

    /// The type of the Activity that is taken back.
    pub fn activity_type(self) -> (r: &'static str)
        ensures
            r@ == self.activity_name(),
    {
        match self {
            UndoKind::Announce => "Announce",
            UndoKind::Like => "Like",
        }
    }
}

/// One Activity on its way: what is sent, by whom, and to whom.
#[derive(Debug, PartialEq, Eq)]
pub struct DeliveryRequest {
    pub activity: Json,
    pub sender: Handle,
    pub recipients: Vec<Recipient>,
}

impl DeliveryRequest {
    /// Whether the request sends the given Activity from the given sender to
    /// the given recipients.
    pub open spec fn sends(
        self,
        activity: Map<Seq<char>, JsonModel>,
        sender: Handle,
        recipients: Seq<Recipient>,
    ) -> bool {
        &&& self.activity@ == JsonModel::Object(activity)
        &&& self.sender == sender
        &&& self.recipients@ == recipients
    }
}

/// The message for an actor that is not a local one.
pub open spec fn unknown_actor_message(actor_id: Id) -> Seq<char> {
    "actor id Id("@ + integer_text(actor_id.0 as int)
        + ") does not resolve to an existing local actor"@
}

/// The handle of a local actor, by what was found for its id.
pub fn resolve_handle(actor_id: Id, found: Option<Handle>) -> (r: Result<Handle, AppError>)
    ensures
        match found {
            Some(handle) => r == Ok::<Handle, AppError>(handle),
            None => r matches Err(e) && e.is_client(NOT_FOUND, unknown_actor_message(actor_id)),
        },
{
    match found {
        Some(handle) => Ok(handle),
        None => {
            let mut message: String = joined("actor id Id(", i64_to_text(actor_id.0).as_str());
            message.append(") does not resolve to an existing local actor");
            Err(AppError::client(NOT_FOUND, message))
        },
    }
}

/// Builds the Activities of the instance's own actors.
#[derive(Debug, PartialEq, Eq)]
pub struct StatusActivityBuilder {
    pub urls: ActorUrls,
}

/// The object that stands for a poll option: its title and how many votes
/// it has.
pub open spec fn option_note(option: PollOption) -> JsonModel {
    JsonModel::Object(
        map![
            "type"@ => JsonModel::Str("Note"@),
            "name"@ => JsonModel::Str(option.title@),
            "replies"@ => JsonModel::Object(
                map![
                    "type"@ => JsonModel::Str("Collection"@),
                    "totalItems"@ => JsonModel::Int(option.votes_count as int),
                ],
            ),
        ],
    )
}

/// The options of a poll in the order of their indices.
pub open spec fn option_notes(options: Seq<PollOption>) -> JsonModel {
    JsonModel::Array(by_index(options).map_values(|o: PollOption| option_note(o)))
}

/// The options of a poll in the order of their indices.
pub fn poll_options_value(options: &[PollOption]) -> (r: Json)
    ensures
        r@ == option_notes(options@),
{
    let sorted: Vec<PollOption> = options_by_index(options);
    let ghost goal = sorted@.map_values(|o: PollOption| option_note(o));
    let mut notes: Vec<Json> = Vec::new();
    let mut i: usize = 0;
    assert(items_model(notes@) =~= goal.take(0));
    while i < sorted.len()
        invariant
            i <= sorted.len(),
            goal == sorted@.map_values(|o: PollOption| option_note(o)),
            items_model(notes@) == goal.take(i as int),
        decreases sorted.len() - i,
    {
        let ghost before = notes@;
        let mut replies: JsonObject = JsonObject::new();
        replies.insert_text("type", "Collection");
        replies.insert("totalItems", Json::Int(sorted[i].votes_count));
        let mut note: JsonObject = JsonObject::new();
        note.insert_text("type", "Note");
        note.insert_text("name", sorted[i].title.as_str());
        note.insert("replies", Json::Object(replies));
        notes.push(Json::Object(note));
        proof {
            assert(notes@.drop_last() =~= before);
            assert(json_model(notes@.last()) == option_note(sorted@[i as int]));
            assert(goal.take(i + 1) =~= goal.take(i as int).push(option_note(sorted@[i as int])));
        }
        i += 1;
    }
    assert(goal.take(i as int) =~= goal);
    Json::Array(notes)
}

/// An object without its optional properties.
pub open spec fn with_text_unless_empty(
    object: Map<Seq<char>, JsonModel>,
    key: Seq<char>,
    text: Seq<char>,
) -> Map<Seq<char>, JsonModel> {
    if text.len() > 0 {
        object.insert(key, JsonModel::Str(text))
    } else {
        object
    }
}

/// An object with a property that may be absent.
pub open spec fn with_optional_text(
    object: Map<Seq<char>, JsonModel>,
    key: Seq<char>,
    text: Option<Seq<char>>,
) -> Map<Seq<char>, JsonModel> {
    match text {
        Some(s) => object.insert(key, JsonModel::Str(s)),
        None => object,
    }
}

/// The poll part of a `Question`: its options, under `anyOf` where several
/// may be chosen and under `oneOf` where one may, and its deadline.
pub open spec fn with_poll(
    object: Map<Seq<char>, JsonModel>,
    poll: Option<(Poll, Seq<PollOption>)>,
) -> Map<Seq<char>, JsonModel> {
    match poll {
        Some((poll, options)) => {
            let choices = if poll.multiple {
                "anyOf"@
            } else {
                "oneOf"@
            };
            with_optional_text(
                object.insert(choices, option_notes(options)),
                "endTime"@,
                match poll.expires_at {
                    Some(deadline) => Some(rfc3339_of(deadline)),
                    None => None,
                },
            )
        },
        None => object,
    }
}

/// An object with its `to` and `cc`.
pub open spec fn with_addressing(
    object: Map<Seq<char>, JsonModel>,
    to: Seq<Seq<char>>,
    cc: Seq<Seq<char>>,
) -> Map<Seq<char>, JsonModel> {
    object.insert("to"@, text_array(to)).insert("cc"@, text_array(cc))
}

/// The `Note`, or with a poll the `Question`, that a status is published as.
pub open spec fn created_object(
    status: Status,
    actor_url: Seq<char>,
    to: Seq<Seq<char>>,
    cc: Seq<Seq<char>>,
    in_reply_to: Option<Seq<char>>,
    poll: Option<(Poll, Seq<PollOption>)>,
) -> Map<Seq<char>, JsonModel> {
    let kind = if poll is Some {
        "Question"@
    } else {
        "Note"@
    };
    let plain = map![
        "id"@ => JsonModel::Str(status.uri@),
        "type"@ => JsonModel::Str(kind),
        "attributedTo"@ => JsonModel::Str(actor_url),
        "content"@ => JsonModel::Str(status.content@),
        "published"@ => JsonModel::Str(rfc3339_of(status.created_at)),
        "sensitive"@ => JsonModel::Bool(status.sensitive),
    ];
    let summarised = with_text_unless_empty(plain, "summary"@, status.spoiler_text@);
    let replying = with_optional_text(summarised, "inReplyTo"@, in_reply_to);
    with_addressing(with_poll(replying, poll), to, cc)
}

/// The `Create` of a status.
pub open spec fn create_activity(
    activity_id: Seq<char>,
    actor_url: Seq<char>,
    status: Status,
    to: Seq<Seq<char>>,
    cc: Seq<Seq<char>>,
    object: Map<Seq<char>, JsonModel>,
) -> Map<Seq<char>, JsonModel> {
    with_addressing(
        map![
            "id"@ => JsonModel::Str(activity_id),
            "type"@ => JsonModel::Str("Create"@),
            "actor"@ => JsonModel::Str(actor_url),
            "published"@ => JsonModel::Str(rfc3339_of(status.created_at)),
        ],
        to,
        cc,
    ).insert("object"@, JsonModel::Object(object))
}

/// When a status was last changed.
pub open spec fn last_changed(status: Status) -> Timestamp {
    match status.edited_at {
        Some(edited_at) => edited_at,
        None => status.created_at,
    }
}

/// The `Note` that an edited status is published as.
pub open spec fn updated_object(
    status: Status,
    actor_url: Seq<char>,
    to: Seq<Seq<char>>,
    cc: Seq<Seq<char>>,
    in_reply_to: Option<Seq<char>>,
) -> Map<Seq<char>, JsonModel> {
    let plain = map![
        "id"@ => JsonModel::Str(status.uri@),
        "type"@ => JsonModel::Str("Note"@),
        "attributedTo"@ => JsonModel::Str(actor_url),
        "content"@ => JsonModel::Str(status.content@),
        "published"@ => JsonModel::Str(rfc3339_of(status.created_at)),
        "updated"@ => JsonModel::Str(rfc3339_of(last_changed(status))),
        "sensitive"@ => JsonModel::Bool(status.sensitive),
    ];
    let summarised = with_text_unless_empty(plain, "summary"@, status.spoiler_text@);
    with_addressing(with_optional_text(summarised, "inReplyTo"@, in_reply_to), to, cc)
}

/// The `Update` of a status.
pub open spec fn update_activity(
    activity_id: Seq<char>,
    actor_url: Seq<char>,
    status: Status,
    to: Seq<Seq<char>>,
    cc: Seq<Seq<char>>,
    object: Map<Seq<char>, JsonModel>,
) -> Map<Seq<char>, JsonModel> {
    with_addressing(
        map![
            "id"@ => JsonModel::Str(activity_id),
            "type"@ => JsonModel::Str("Update"@),
            "actor"@ => JsonModel::Str(actor_url),
            "published"@ => JsonModel::Str(rfc3339_of(last_changed(status))),
        ],
        to,
        cc,
    ).insert("object"@, JsonModel::Object(object))
}

/// The `Announce` of a boost.
pub open spec fn announce_activity(
    activity_id: Seq<char>,
    actor_url: Seq<char>,
    reblog: Status,
    target: Status,
    to: Seq<Seq<char>>,
    cc: Seq<Seq<char>>,
) -> Map<Seq<char>, JsonModel> {
    with_addressing(
        map![
            "id"@ => JsonModel::Str(activity_id),
            "type"@ => JsonModel::Str("Announce"@),
            "actor"@ => JsonModel::Str(actor_url),
            "published"@ => JsonModel::Str(rfc3339_of(reblog.created_at)),
            "object"@ => JsonModel::Str(target.uri@),
        ],
        to,
        cc,
    )
}

/// The `Like` of a status, addressed to its author.
pub open spec fn like_activity(
    activity_id: Seq<char>,
    actor_url: Seq<char>,
    target: Status,
    recipient_uri: Seq<char>,
) -> Map<Seq<char>, JsonModel> {
    map![
        "id"@ => JsonModel::Str(activity_id),
        "type"@ => JsonModel::Str("Like"@),
        "actor"@ => JsonModel::Str(actor_url),
        "object"@ => JsonModel::Str(target.uri@),
        "to"@ => text_array(seq![recipient_uri]),
    ]
}

/// The Activity that an `Undo` takes back.
pub open spec fn undone_activity(
    inner_id: Seq<char>,
    actor_url: Seq<char>,
    undone: UndoKind,
    target: Status,
) -> Map<Seq<char>, JsonModel> {
    map![
        "id"@ => JsonModel::Str(inner_id),
        "type"@ => JsonModel::Str(undone.activity_name()),
        "actor"@ => JsonModel::Str(actor_url),
        "object"@ => JsonModel::Str(target.uri@),
    ]
}

/// The `Undo` of an interaction, addressed to the author of its target.
pub open spec fn undo_activity(
    activity_id: Seq<char>,
    actor_url: Seq<char>,
    inner: Map<Seq<char>, JsonModel>,
    recipient_uri: Seq<char>,
) -> Map<Seq<char>, JsonModel> {
    map![
        "id"@ => JsonModel::Str(activity_id),
        "type"@ => JsonModel::Str("Undo"@),
        "actor"@ => JsonModel::Str(actor_url),
        "object"@ => JsonModel::Object(inner),
        "to"@ => text_array(seq![recipient_uri]),
    ]
}

/// The `Delete` of a status.
pub open spec fn delete_activity(
    activity_id: Seq<char>,
    actor_url: Seq<char>,
    status: Status,
    to: Seq<Seq<char>>,
    cc: Seq<Seq<char>>,
) -> Map<Seq<char>, JsonModel> {
    with_addressing(
        map![
            "id"@ => JsonModel::Str(activity_id),
            "type"@ => JsonModel::Str("Delete"@),
            "actor"@ => JsonModel::Str(actor_url),
            "object"@ => JsonModel::Str(status.uri@),
        ],
        to,
        cc,
    )
}

/// The `Note` that a vote for one option is sent as.
pub open spec fn vote_note(
    note_id: Seq<char>,
    actor_url: Seq<char>,
    title: Seq<char>,
    target: Status,
    recipient_uri: Seq<char>,
) -> Map<Seq<char>, JsonModel> {
    map![
        "id"@ => JsonModel::Str(note_id),
        "type"@ => JsonModel::Str("Note"@),
        "name"@ => JsonModel::Str(title),
        "attributedTo"@ => JsonModel::Str(actor_url),
        "inReplyTo"@ => JsonModel::Str(target.uri@),
        "to"@ => text_array(seq![recipient_uri]),
    ]
}

/// The `Create` that carries a vote for one option.
pub open spec fn vote_activity(
    activity_id: Seq<char>,
    actor_url: Seq<char>,
    note: Map<Seq<char>, JsonModel>,
    recipient_uri: Seq<char>,
) -> Map<Seq<char>, JsonModel> {
    map![
        "id"@ => JsonModel::Str(activity_id),
        "type"@ => JsonModel::Str("Create"@),
        "actor"@ => JsonModel::Str(actor_url),
        "to"@ => text_array(seq![recipient_uri]),
        "object"@ => JsonModel::Object(note),
    ]
}

/// The view of an optional text.
pub open spec fn optional_view(text: Option<&str>) -> Option<Seq<char>> {
    match text {
        Some(s) => Some(s@),
        None => None,
    }
}

/// The views of a poll and its options.
pub open spec fn poll_view(poll: Option<(&Poll, &[PollOption])>) -> Option<
    (Poll, Seq<PollOption>),
> {
    match poll {
        Some((poll, options)) => Some((*poll, options@)),
        None => None,
    }
}

/// Whether the deadline of a poll can be written, where it has one.
pub open spec fn deadline_writable(poll: Option<(Poll, Seq<PollOption>)>) -> bool {
    match poll {
        Some((poll, _)) => poll.expires_at matches Some(deadline) ==> deadline.writable(),
        None => true,
    }
}

fn insert_addressing(object: &mut JsonObject, addressing: &Addressing)
    ensures
        final(object)@ == with_addressing(
            old(object)@,
            string_views(addressing.to@),
            string_views(addressing.cc@),
        ),
{
    object.insert("to", string_array(addressing.to.as_slice()));
    object.insert("cc", string_array(addressing.cc.as_slice()));
}

fn insert_recipient(object: &mut JsonObject, recipient: &ActorRef)
    ensures
        final(object)@ == old(object)@.insert("to"@, text_array(seq![recipient.uri@])),
{
    let mut to: Vec<String> = Vec::new();
    to.push(recipient.uri.clone());
    assert(string_views(to@) =~= seq![recipient.uri@]);
    object.insert("to", string_array(to.as_slice()));
}

fn sole(recipient: &Recipient) -> (r: Vec<Recipient>)
    ensures
        r@ == seq![*recipient],
{
    let mut out: Vec<Recipient> = Vec::new();
    out.push(recipient.clone());
    assert(out@ =~= seq![*recipient]);
    out
}

impl StatusActivityBuilder {
    pub fn new(urls: ActorUrls) -> (r: StatusActivityBuilder)
        ensures
            r.urls == urls,
    {
        StatusActivityBuilder { urls }
    }

    /// The URL of the Activity with the given id.
    pub open spec fn activity_url(self, id: Id) -> Seq<char> {
        self.urls.object_url_of("activities"@, id)
    }

    /// The URL of an Activity, minted from a fresh id.
    pub fn mint_activity_id(&self, id: Id) -> (r: String)
        ensures
            r@ == self.activity_url(id),
    {
        self.urls.object_url("activities", id)
    }

    /// The URL of a local actor.
    pub fn resolve_actor_url(&self, handle: &Handle) -> (r: String)
        ensures
            r@ == self.urls.actor_url_of(handle.name@),
    {
        self.urls.actor_url(handle)
    }

    /// Delivers the `Create` of a status.
    pub fn deliver_create(
        &self,
        sender: &Handle,
        fresh: Id,
        status: &Status,
        addressing: &Addressing,
        recipients: Vec<Recipient>,
        in_reply_to_uri: Option<&str>,
        poll: Option<(&Poll, &[PollOption])>,
    ) -> (r: DeliveryRequest)
        requires
            status.created_at.writable(),
            deadline_writable(poll_view(poll)),
        ensures
            r.sends(
                create_activity(
                    self.activity_url(fresh),
                    self.urls.actor_url_of(sender.name@),
                    *status,
                    string_views(addressing.to@),
                    string_views(addressing.cc@),
                    created_object(
                        *status,
                        self.urls.actor_url_of(sender.name@),
                        string_views(addressing.to@),
                        string_views(addressing.cc@),
                        optional_view(in_reply_to_uri),
                        poll_view(poll),
                    ),
                ),
                *sender,
                recipients@,
            ),
            reads_as(rfc3339_of(status.created_at), status.created_at),
    {
        let actor_url: String = self.resolve_actor_url(sender);
        let published: String = rfc3339(&status.created_at);

        let mut object: JsonObject = JsonObject::new();
        object.insert_text("id", status.uri.as_str());
        object.insert_text(
            "type",
            if poll.is_some() {
                "Question"
            } else {
                "Note"
            },
        );
        object.insert_text("attributedTo", actor_url.as_str());
        object.insert_text("content", status.content.as_str());
        object.insert_text("published", published.as_str());
        object.insert("sensitive", Json::Bool(status.sensitive));
        if !status.spoiler_text.as_str().is_empty() {
            object.insert_text("summary", status.spoiler_text.as_str());
        }
        if let Some(uri) = in_reply_to_uri {
            object.insert_text("inReplyTo", uri);
        }
        if let Some((poll, options)) = poll {
            let choices_key: &str = if poll.multiple {
                "anyOf"
            } else {
                "oneOf"
            };
            object.insert(choices_key, poll_options_value(options));
            if let Some(expires_at) = &poll.expires_at {
                object.insert_text("endTime", rfc3339(expires_at).as_str());
            }
        }
        insert_addressing(&mut object, addressing);

        let mut activity: JsonObject = JsonObject::new();
        activity.insert_text("id", self.mint_activity_id(fresh).as_str());
        activity.insert_text("type", "Create");
        activity.insert_text("actor", actor_url.as_str());
        activity.insert_text("published", published.as_str());
        insert_addressing(&mut activity, addressing);
        activity.insert("object", Json::Object(object));

        DeliveryRequest { activity: Json::Object(activity), sender: sender.clone(), recipients }
    }

    /// Delivers the `Announce` of a boost.
    pub fn deliver_announce(
        &self,
        sender: &Handle,
        fresh: Id,
        reblog: &Status,
        target: &Status,
        addressing: &Addressing,
        recipients: Vec<Recipient>,
    ) -> (r: DeliveryRequest)
        requires
            reblog.created_at.writable(),
        ensures
            r.sends(
                announce_activity(
                    self.activity_url(fresh),
                    self.urls.actor_url_of(sender.name@),
                    *reblog,
                    *target,
                    string_views(addressing.to@),
                    string_views(addressing.cc@),
                ),
                *sender,
                recipients@,
            ),
    {
        let mut activity: JsonObject = JsonObject::new();
        activity.insert_text("id", self.mint_activity_id(fresh).as_str());
        activity.insert_text("type", "Announce");
        activity.insert_text("actor", self.resolve_actor_url(sender).as_str());
        activity.insert_text("published", rfc3339(&reblog.created_at).as_str());
        activity.insert_text("object", target.uri.as_str());
        insert_addressing(&mut activity, addressing);
        DeliveryRequest { activity: Json::Object(activity), sender: sender.clone(), recipients }
    }

    /// Delivers the `Like` of a status to its author.
    pub fn deliver_like(
        &self,
        sender: &Handle,
        fresh: Id,
        target: &Status,
        recipient: &ActorRef,
    ) -> (r: DeliveryRequest)
        ensures
            r.sends(
                like_activity(
                    self.activity_url(fresh),
                    self.urls.actor_url_of(sender.name@),
                    *target,
                    recipient.uri@,
                ),
                *sender,
                seq![recipient.recipient],
            ),
    {
        let mut activity: JsonObject = JsonObject::new();
        activity.insert_text("id", self.mint_activity_id(fresh).as_str());
        activity.insert_text("type", "Like");
        activity.insert_text("actor", self.resolve_actor_url(sender).as_str());
        activity.insert_text("object", target.uri.as_str());
        insert_recipient(&mut activity, recipient);
        DeliveryRequest {
            activity: Json::Object(activity),
            sender: sender.clone(),
            recipients: sole(&recipient.recipient),
        }
    }

    /// Delivers the `Undo` of an interaction to the author of its target.
    /// The Activity that is taken back gets an id of its own.
    pub fn deliver_undo(
        &self,
        sender: &Handle,
        inner_fresh: Id,
        fresh: Id,
        undone: UndoKind,
        target: &Status,
        recipient: &ActorRef,
    ) -> (r: DeliveryRequest)
        ensures
            r.sends(
                undo_activity(
                    self.activity_url(fresh),
                    self.urls.actor_url_of(sender.name@),
                    undone_activity(
                        self.activity_url(inner_fresh),
                        self.urls.actor_url_of(sender.name@),
                        undone,
                        *target,
                    ),
                    recipient.uri@,
                ),
                *sender,
                seq![recipient.recipient],
            ),
    {
        let actor_url: String = self.resolve_actor_url(sender);

        let mut inner: JsonObject = JsonObject::new();
        inner.insert_text("id", self.mint_activity_id(inner_fresh).as_str());
        inner.insert_text("type", undone.activity_type());
        inner.insert_text("actor", actor_url.as_str());
        inner.insert_text("object", target.uri.as_str());

        let mut activity: JsonObject = JsonObject::new();
        activity.insert_text("id", self.mint_activity_id(fresh).as_str());
        activity.insert_text("type", "Undo");
        activity.insert_text("actor", actor_url.as_str());
        activity.insert("object", Json::Object(inner));
        insert_recipient(&mut activity, recipient);
        DeliveryRequest {
            activity: Json::Object(activity),
            sender: sender.clone(),
            recipients: sole(&recipient.recipient),
        }
    }

    /// Delivers the `Delete` of a status.
    pub fn deliver_delete(
        &self,
        sender: &Handle,
        fresh: Id,
        status: &Status,
        addressing: &Addressing,
        recipients: Vec<Recipient>,
    ) -> (r: DeliveryRequest)
        ensures
            r.sends(
                delete_activity(
                    self.activity_url(fresh),
                    self.urls.actor_url_of(sender.name@),
                    *status,
                    string_views(addressing.to@),
                    string_views(addressing.cc@),
                ),
                *sender,
                recipients@,
            ),
    {
        let mut activity: JsonObject = JsonObject::new();
        activity.insert_text("id", self.mint_activity_id(fresh).as_str());
        activity.insert_text("type", "Delete");
        activity.insert_text("actor", self.resolve_actor_url(sender).as_str());
        activity.insert_text("object", status.uri.as_str());
        insert_addressing(&mut activity, addressing);
        DeliveryRequest { activity: Json::Object(activity), sender: sender.clone(), recipients }
    }

    /// Delivers the `Update` of a status.
    pub fn deliver_update(
        &self,
        sender: &Handle,
        fresh: Id,
        status: &Status,
        addressing: &Addressing,
        recipients: Vec<Recipient>,
        in_reply_to_uri: Option<&str>,
    ) -> (r: DeliveryRequest)
        requires
            status.created_at.writable(),
            last_changed(*status).writable(),
        ensures
            r.sends(
                update_activity(
                    self.activity_url(fresh),
                    self.urls.actor_url_of(sender.name@),
                    *status,
                    string_views(addressing.to@),
                    string_views(addressing.cc@),
                    updated_object(
                        *status,
                        self.urls.actor_url_of(sender.name@),
                        string_views(addressing.to@),
                        string_views(addressing.cc@),
                        optional_view(in_reply_to_uri),
                    ),
                ),
                *sender,
                recipients@,
            ),
    {
        let actor_url: String = self.resolve_actor_url(sender);
        let published: String = rfc3339(&status.created_at);
        let changed: Timestamp = match status.edited_at {
            Some(edited_at) => edited_at,
            None => status.created_at,
        };
        let updated: String = rfc3339(&changed);

        let mut object: JsonObject = JsonObject::new();
        object.insert_text("id", status.uri.as_str());
        object.insert_text("type", "Note");
        object.insert_text("attributedTo", actor_url.as_str());
        object.insert_text("content", status.content.as_str());
        object.insert_text("published", published.as_str());
        object.insert_text("updated", updated.as_str());
        object.insert("sensitive", Json::Bool(status.sensitive));
        if !status.spoiler_text.as_str().is_empty() {
            object.insert_text("summary", status.spoiler_text.as_str());
        }
        if let Some(uri) = in_reply_to_uri {
            object.insert_text("inReplyTo", uri);
        }
        insert_addressing(&mut object, addressing);

        let mut activity: JsonObject = JsonObject::new();
        activity.insert_text("id", self.mint_activity_id(fresh).as_str());
        activity.insert_text("type", "Update");
        activity.insert_text("actor", actor_url.as_str());
        activity.insert_text("published", updated.as_str());
        insert_addressing(&mut activity, addressing);
        activity.insert("object", Json::Object(object));

        DeliveryRequest { activity: Json::Object(activity), sender: sender.clone(), recipients }
    }

    /// The Activity of a vote for one title.
    pub open spec fn vote_for(
        self,
        sender: Handle,
        note_fresh: Id,
        fresh: Id,
        title: Seq<char>,
        target: Status,
        recipient_uri: Seq<char>,
    ) -> Map<Seq<char>, JsonModel> {
        vote_activity(
            self.activity_url(fresh),
            self.urls.actor_url_of(sender.name@),
            vote_note(
                self.activity_url(note_fresh),
                self.urls.actor_url_of(sender.name@),
                title,
                target,
                recipient_uri,
            ),
            recipient_uri,
        )
    }

    /// Delivers a vote to the author of the poll: one `Create` per chosen
    /// title, each with a `Note` that names the title. `fresh_ids` holds, for
    /// each title in turn, the ids of its `Note` and of its `Create`.
    pub fn deliver_vote(
        &self,
        sender: &Handle,
        fresh_ids: &[Id],
        poll: &Poll,
        target: &Status,
        choice_titles: &[String],
        recipient: &ActorRef,
    ) -> (r: Vec<DeliveryRequest>)
        requires
            poll.status_id == target.id,
            fresh_ids.len() == 2 * choice_titles.len(),
        ensures
            r.len() == choice_titles.len(),
            forall|k: int|
                0 <= k < r.len() ==> (#[trigger] r@[k]).sends(
                    self.vote_for(
                        *sender,
                        fresh_ids@[2 * k],
                        fresh_ids@[2 * k + 1],
                        choice_titles@[k]@,
                        *target,
                        recipient.uri@,
                    ),
                    *sender,
                    seq![recipient.recipient],
                ),
    {
        let actor_url: String = self.resolve_actor_url(sender);
        let mut out: Vec<DeliveryRequest> = Vec::new();
        let mut i: usize = 0;
        while i < choice_titles.len()
            invariant
                i <= choice_titles.len(),
                fresh_ids.len() == 2 * choice_titles.len(),
                actor_url@ == self.urls.actor_url_of(sender.name@),
                out.len() == i,
                forall|k: int|
                    0 <= k < i ==> (#[trigger] out@[k]).sends(
                        self.vote_for(
                            *sender,
                            fresh_ids@[2 * k],
                            fresh_ids@[2 * k + 1],
                            choice_titles@[k]@,
                            *target,
                            recipient.uri@,
                        ),
                        *sender,
                        seq![recipient.recipient],
                    ),
            decreases choice_titles.len() - i,
        {
            let mut object: JsonObject = JsonObject::new();
            object.insert_text("id", self.mint_activity_id(fresh_ids[2 * i]).as_str());
            object.insert_text("type", "Note");
            object.insert_text("name", choice_titles[i].as_str());
            object.insert_text("attributedTo", actor_url.as_str());
            object.insert_text("inReplyTo", target.uri.as_str());
            insert_recipient(&mut object, recipient);

            let mut activity: JsonObject = JsonObject::new();
            activity.insert_text("id", self.mint_activity_id(fresh_ids[2 * i + 1]).as_str());
            activity.insert_text("type", "Create");
            activity.insert_text("actor", actor_url.as_str());
            insert_recipient(&mut activity, recipient);
            activity.insert("object", Json::Object(object));

            out.push(
                DeliveryRequest {
                    activity: Json::Object(activity),
                    sender: sender.clone(),
                    recipients: sole(&recipient.recipient),
                },
            );
            i += 1;
        }
        out
    }
}

} // verus!
