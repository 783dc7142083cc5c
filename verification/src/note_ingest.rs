//! Taking a remote `Note` in as a status.
//!
//! The same stages serve an inbound `Create` and a `Note` that was fetched by
//! its URL.

use vstd::prelude::*;

use crate::clock::{parse_rfc3339, reads_as, rfc3339_reading, Timestamp};
use crate::domain::{AccountRef, Id};
use crate::effects::{Effect, Fresh, HandleOutcome, Plan};
use crate::error::{malformed, AppError, UNPROCESSABLE_ENTITY};
use crate::inbound_note::{
    attachment_texts, derive_inbound_visibility, extract_attachments, extract_tag_mentions,
    inbound_visibility, mention_text, mention_texts, note_attachments, tag_mentions, MentionText,
};
use crate::json::{
    flag_prop, string_or_empty, string_views, text_or_empty, text_prop, JsonModel, JsonObject,
};
use crate::model::{text_view, CountKind, Mention, RemoteAttachment, Status, Tag};
use crate::notification_sink::{NotificationEvent, NotificationType};
use crate::text::{eq_ignore_ascii_case, same_ignoring_ascii_case};

verus! {

/// Asks for the status with the URI `uri`.
#[derive(Debug, PartialEq, Eq)]
pub struct NoteLookup<'a> {
    pub object: &'a JsonObject,
    pub actor_id: Id,
    pub uri: &'a String,
}

/// Asks for the status that the `Note` replies to: the one with the URI
/// `parent_uri`, if there is one to ask for.
#[derive(Debug, PartialEq, Eq)]
pub struct NoteParent<'a> {
    pub object: &'a JsonObject,
    pub actor_id: Id,
    pub uri: &'a String,
    pub parent_uri: Option<&'a String>,
}

/// Whether a `Note` is known already.
#[derive(Debug, PartialEq, Eq)]
pub enum NoteKnown<'a> {
    Existing(Status),
    New(NoteParent<'a>),
}

/// A `Note` that is ready to be written.
#[derive(Debug, PartialEq, Eq)]
pub struct NoteDraft {
    pub status: Status,
    pub tag_mentions: Vec<Mention>,
    pub attachments: Vec<RemoteAttachment>,
}

/// Begins to take a `Note` in. It has to have an `id`.
pub fn ingest_note_object<'a>(object: &'a JsonObject, actor_id: Id) -> (r: Result<
    NoteLookup<'a>,
    AppError,
>)
    ensures
        match text_prop(object@, "id"@) {
            Some(uri) => r matches Ok(next) && next.uri@ == uri && next.object == object
                && next.actor_id == actor_id,
            None => r matches Err(e) && e.is_client(
                UNPROCESSABLE_ENTITY,
                "Note object is missing a required 'id' property"@,
            ),
        },
{
    match object.get_text("id") {
        Some(uri) => Ok(NoteLookup { object, actor_id, uri }),
        None => Err(malformed("Note object is missing a required 'id' property")),
    }
}

impl<'a> NoteLookup<'a> {
    /// A `Note` that is known already is not taken in again.
    pub fn found(self, existing: Option<Status>) -> (r: NoteKnown<'a>)
        ensures
            match existing {
                Some(status) => r == NoteKnown::Existing(status),
                None => r matches NoteKnown::New(next) && next.object == self.object
                    && next.actor_id == self.actor_id && next.uri == self.uri && (
                match next.parent_uri {
                    Some(uri) => text_prop(self.object@, "inReplyTo"@) == Some(uri@),
                    None => text_prop(self.object@, "inReplyTo"@) is None,
                }),
            },
    {
        match existing {
            Some(status) => NoteKnown::Existing(status),
            None => NoteKnown::New(
                NoteParent {
                    object: self.object,
                    actor_id: self.actor_id,
                    uri: self.uri,
                    parent_uri: self.object.get_text("inReplyTo"),
                },
            ),
        }
    }
}

/// Whether `at` is when a `Note` says it was published, or `now` where it
/// says nothing readable.
pub open spec fn is_publication(
    note: Map<Seq<char>, JsonModel>,
    now: Timestamp,
    at: Timestamp,
) -> bool {
    match text_prop(note, "published"@) {
        Some(text) => if rfc3339_reading(text) is Some {
            reads_as(text, at)
        } else {
            at == now
        },
        None => at == now,
    }
}

/// Whether a status is what a remote `Note` says.
pub open spec fn is_ingested(
    status: Status,
    note: Map<Seq<char>, JsonModel>,
    uri: Seq<char>,
    actor_id: Id,
    parent: Option<Status>,
    fresh: Fresh,
) -> bool {
    &&& status.id == fresh.id
    &&& status.actor_id == actor_id
    &&& status.uri@ == uri
    &&& text_view(status.url) == Some(
        match text_prop(note, "url"@) {
            Some(url) => url,
            None => uri,
        },
    )
    &&& status.content@ == text_or_empty(note, "content"@)
    &&& status.visibility == inbound_visibility(note)
    &&& status.sensitive == flag_prop(note, "sensitive"@)
    &&& status.spoiler_text@ == text_or_empty(note, "summary"@)
    &&& status.in_reply_to_id == (match parent {
        Some(p) => Some(p.id),
        None => None,
    })
    &&& status.in_reply_to_account_id == (match parent {
        Some(p) => Some(p.actor_id),
        None => None,
    })
    &&& status.reblog_of_id is None
    &&& status.poll_id is None
    &&& status.language is None
    &&& status.reblogs_count == 0
    &&& status.favourites_count == 0
    &&& status.replies_count == 0
    &&& !status.local
    &&& is_publication(note, fresh.now, status.created_at)
    &&& status.edited_at is None
}

/// The parent of a reply: what was found for the URI that it names.
pub open spec fn actual_parent(parent_uri: Option<&String>, parent: Option<Status>) -> Option<
    Status,
> {
    if parent_uri is Some {
        parent
    } else {
        None
    }
}

impl<'a> NoteParent<'a> {
    /// Reads the `Note` as a status.
    pub fn with_parent(self, parent: Option<Status>, fresh: Fresh) -> (r: NoteDraft)
        ensures
            is_ingested(
                r.status,
                self.object@,
                self.uri@,
                self.actor_id,
                actual_parent(self.parent_uri, parent),
                fresh,
            ),
            mention_texts(r.tag_mentions@) == tag_mentions(self.object@),
            attachment_texts(r.attachments@) == note_attachments(self.object@),
    {
        let known: bool = self.parent_uri.is_some();
        let (in_reply_to_id, in_reply_to_account_id): (Option<Id>, Option<Id>) = match &parent {
            Some(p) => if known {
                (Some(p.id), Some(p.actor_id))
            } else {
                (None, None)
            },
            None => (None, None),
        };
        let url: String = match self.object.get_text("url") {
            Some(url) => url.clone(),
            None => self.uri.clone(),
        };
        let published: Option<Timestamp> = match self.object.get_text("published") {
            Some(text) => parse_rfc3339(text.as_str()),
            None => None,
        };
        let created_at: Timestamp = match published {
            Some(at) => at,
            None => fresh.now,
        };
        let status: Status = Status {
            id: fresh.id,
            actor_id: self.actor_id,
            uri: self.uri.clone(),
            url: Some(url),
            content: string_or_empty(self.object, "content"),
            visibility: derive_inbound_visibility(self.object),
            sensitive: self.object.get_flag("sensitive"),
            spoiler_text: string_or_empty(self.object, "summary"),
            in_reply_to_id,
            in_reply_to_account_id,
            reblog_of_id: None,
            poll_id: None,
            language: None,
            reblogs_count: 0,
            favourites_count: 0,
            replies_count: 0,
            local: false,
            created_at,
            edited_at: None,
        };
        NoteDraft {
            status,
            tag_mentions: extract_tag_mentions(self.object),
            attachments: extract_attachments(self.object),
        }
    }
}

/// One more reply of the parent, where there is one.
pub open spec fn reply_effects(status: Status) -> Seq<Effect> {
    match status.in_reply_to_id {
        Some(parent_id) => seq![
            Effect::AdjustCounts { status_id: parent_id, kind: CountKind::Replies, delta: 1 },
        ],
        None => Seq::empty(),
    }
}

/// Attaching the hashtags of a status, in order.
pub open spec fn tag_effects(
    status_id: Id,
    hashtags: Seq<String>,
    tag_ids: Seq<Id>,
    now: Timestamp,
) -> Seq<Effect> {
    Seq::new(
        hashtags.len(),
        |k: int|
            Effect::AssociateTag {
                status_id,
                tag: Tag { id: tag_ids[k], name: hashtags[k], created_at: now },
            },
    )
}

/// Recording whom a status mentions, where it mentions anyone.
pub open spec fn mention_effects(effects: Seq<Effect>, status_id: Id, mentioned: Seq<Id>) -> bool {
    if mentioned.len() > 0 {
        effects.len() == 1 && (effects[0] matches Effect::InsertMentions {
            status_id: id,
            actor_ids,
        } && id == status_id && actor_ids@ == mentioned)
    } else {
        effects.len() == 0
    }
}

/// Recording the attachments of a status, where it has any.
pub open spec fn attachment_effects(
    effects: Seq<Effect>,
    status_id: Id,
    attachments: Seq<RemoteAttachment>,
) -> bool {
    if attachments.len() > 0 {
        effects.len() == 1 && (effects[0] matches Effect::InsertAttachments {
            status_id: id,
            attachments: rows,
        } && id == status_id && rows@ == attachments)
    } else {
        effects.len() == 0
    }
}

impl NoteDraft {
    /// The first changes: the status row, the parent's reply counter, and
    /// the hashtags of the content. `tag_ids` holds a fresh id per hashtag.
    pub fn first_writes(&self, hashtags: &[String], tag_ids: &[Id], now: Timestamp) -> (r: Vec<
        Effect,
    >)
        requires
            hashtags.len() == tag_ids.len(),
        ensures
            r@ == seq![Effect::InsertStatus(self.status)] + reply_effects(self.status)
                + tag_effects(self.status.id, hashtags@, tag_ids@, now),
    {
        let mut effects: Vec<Effect> = Vec::new();
        effects.push(Effect::InsertStatus(self.status.clone()));
        if let Some(parent_id) = self.status.in_reply_to_id {
            effects.push(
                Effect::AdjustCounts { status_id: parent_id, kind: CountKind::Replies, delta: 1 },
            );
        }
        let ghost base = seq![Effect::InsertStatus(self.status)] + reply_effects(self.status);
        let ghost tags = tag_effects(self.status.id, hashtags@, tag_ids@, now);
        assert(effects@ =~= base + tags.take(0));
        let mut i: usize = 0;
        while i < hashtags.len()
            invariant
                i <= hashtags.len(),
                hashtags.len() == tag_ids.len(),
                tags == tag_effects(self.status.id, hashtags@, tag_ids@, now),
                effects@ == base + tags.take(i as int),
            decreases hashtags.len() - i,
        {
            let tag: Tag = Tag { id: tag_ids[i], name: hashtags[i].clone(), created_at: now };
            effects.push(Effect::AssociateTag { status_id: self.status.id, tag });
            assert(effects@ =~= base + tags.take(i + 1));
            i += 1;
        }
        assert(tags.take(i as int) =~= tags);
        effects
    }

    /// The last changes: whom the `tag` array mentions, as far as they are
    /// known here, and the attachments.
    pub fn last_writes(self, mentioned: Vec<Id>) -> (r: Vec<Effect>)
        ensures
            ({
                let k: int = if mentioned@.len() > 0 {
                    1
                } else {
                    0
                };
                &&& k <= r@.len()
                &&& mention_effects(r@.take(k), self.status.id, mentioned@)
                &&& attachment_effects(r@.skip(k), self.status.id, self.attachments@)
            }),
    {
        let status_id: Id = self.status.id;
        let ghost k: int = if mentioned@.len() > 0 {
            1
        } else {
            0
        };
        let mut effects: Vec<Effect> = Vec::new();
        if mentioned.len() > 0 {
            effects.push(Effect::InsertMentions { status_id, actor_ids: mentioned });
        }
        let ghost first = effects@;
        if self.attachments.len() > 0 {
            effects.push(
                Effect::InsertAttachments { status_id, attachments: self.attachments },
            );
        }
        assert(effects@.take(k) =~= first);
        effects
    }
}

/// The local parts of the mentions that name this instance, by saying so or
/// by leaving the domain out, in order.
pub open spec fn local_names(mentions: Seq<MentionText>, domain: Seq<char>) -> Seq<Seq<char>>
    decreases mentions.len(),
{
    if mentions.len() == 0 {
        Seq::empty()
    } else {
        let rest = local_names(mentions.drop_last(), domain);
        match mentions.last().1 {
            Some(named) => if same_ignoring_ascii_case(named, domain) {
                rest.push(mentions.last().0)
            } else {
                rest
            },
            None => rest.push(mentions.last().0),
        }
    }
}

/// The handles to look up for a row of mentions: those that name this
/// instance. Mentions of other domains are passed over.
pub fn resolve_mentions(domain: &str, mentions: &[Mention]) -> (r: Vec<String>)
    ensures
        string_views(r@) == local_names(mention_texts(mentions@), domain@),
{
    let mut out: Vec<String> = Vec::new();
    let ghost texts = mention_texts(mentions@);
    assert(string_views(out@) =~= local_names(texts.take(0), domain@));
    let mut i: usize = 0;
    while i < mentions.len()
        invariant
            i <= mentions.len(),
            texts == mention_texts(mentions@),
            string_views(out@) == local_names(texts.take(i as int), domain@),
        decreases mentions.len() - i,
    {
        proof {
            assert(texts.take(i + 1).drop_last() =~= texts.take(i as int));
            assert(texts.take(i + 1).last() == mention_text(mentions@[i as int]));
        }
        let ours: bool = match &mentions[i].domain {
            Some(named) => eq_ignore_ascii_case(named.as_str(), domain),
            None => true,
        };
        if ours {
            let ghost before = out@;
            out.push(mentions[i].local.clone());
            assert(string_views(out@) =~= string_views(before).push(mentions@[i as int].local@));
        }
        i += 1;
    }
    assert(texts.take(i as int) =~= texts);
    out
}

/// The ids among a row of answers, in order.
pub open spec fn ids_among(answers: Seq<Option<Id>>) -> Seq<Id>
    decreases answers.len(),
{
    if answers.len() == 0 {
        Seq::empty()
    } else {
        match answers.last() {
            Some(id) => ids_among(answers.drop_last()).push(id),
            None => ids_among(answers.drop_last()),
        }
    }
}

/// The ids among the directory's answers, in order.
pub fn resolved_ids(answers: &[Option<Id>]) -> (r: Vec<Id>)
    ensures
        r@ == ids_among(answers@),
{
    let mut out: Vec<Id> = Vec::new();
    let mut i: usize = 0;
    assert(answers@.take(0) =~= Seq::<Option<Id>>::empty());
    while i < answers.len()
        invariant
            i <= answers.len(),
            out@ == ids_among(answers@.take(i as int)),
        decreases answers.len() - i,
    {
        assert(answers@.take(i + 1).drop_last() =~= answers@.take(i as int));
        if let Some(id) = answers[i] {
            out.push(id);
        }
        i += 1;
    }
    assert(answers@.take(i as int) =~= answers@);
    out
}

/// The notifications of the mentioned local actors: one each, in order,
/// none for the author.
pub open spec fn mention_events(
    author: Id,
    status_id: Id,
    mentioned: Seq<Id>,
    now: Timestamp,
) -> Seq<Effect>
    decreases mentioned.len(),
{
    if mentioned.len() == 0 {
        Seq::empty()
    } else {
        let rest = mention_events(author, status_id, mentioned.drop_last(), now);
        if mentioned.last() == author {
            rest
        } else {
            rest.push(
                Effect::Emit(
                    NotificationEvent {
                        recipient: AccountRef::Local(mentioned.last()),
                        origin: AccountRef::Remote(author),
                        kind: NotificationType::Mention,
                        target_status_id: Some(status_id),
                        occurred_at: now,
                    },
                ),
            )
        }
    }
}

/// The notifications of the mentioned local actors.
pub fn notify_mentioned(author: Id, status_id: Id, mentioned: &[Id], now: Timestamp) -> (r: Vec<
    Effect,
>)
    ensures
        r@ == mention_events(author, status_id, mentioned@, now),
{
    let mut out: Vec<Effect> = Vec::new();
    let mut i: usize = 0;
    assert(mentioned@.take(0) =~= Seq::<Id>::empty());
    while i < mentioned.len()
        invariant
            i <= mentioned.len(),
            out@ == mention_events(author, status_id, mentioned@.take(i as int), now),
        decreases mentioned.len() - i,
    {
        assert(mentioned@.take(i + 1).drop_last() =~= mentioned@.take(i as int));
        if mentioned[i] != author {
            out.push(
                Effect::Emit(
                    NotificationEvent {
                        recipient: AccountRef::Local(mentioned[i]),
                        origin: AccountRef::Remote(author),
                        kind: NotificationType::Mention,
                        target_status_id: Some(status_id),
                        occurred_at: now,
                    },
                ),
            );
        }
        i += 1;
    }
    assert(mentioned@.take(i as int) =~= mentioned@);
    out
}

/// The end of an inbound `Create` whose `Note` was taken in: it is handled,
/// and the local actors that the content mentions are told, unless the
/// `Note` was known before. `mentioned` is read only of a new `Note`.
pub fn finish_ingest(
    author: Id,
    status_id: Id,
    is_new: bool,
    mentioned: &[Id],
    now: Timestamp,
) -> (r: Plan)
    ensures
        r.outcome == HandleOutcome::Handled,
        r.effects@ == (if is_new {
            mention_events(author, status_id, mentioned@, now)
        } else {
            Seq::empty()
        }),
{
    let effects: Vec<Effect> = if is_new {
        notify_mentioned(author, status_id, mentioned, now)
    } else {
        Vec::new()
    };
    Plan { effects, outcome: HandleOutcome::Handled }
}

} // verus!
