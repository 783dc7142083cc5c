//! What is made of a remote `Note`.

use vstd::prelude::*;

use crate::clock::{rfc3339_reading, Timestamp};
use crate::domain::{AccountRef, Id, Visibility};
use crate::effects::{Effect, Fresh, HandleOutcome, Plan};
use crate::error::AppError;
use crate::inbound_note::{
    any_has_suffix, attachment_text, attachment_texts, attachment_url, derive_inbound_visibility,
    entry_attachment, extract_attachments, extract_tag_mentions, first_link, link_of,
    listed_attachments, listed_mentions, mention_text, mention_texts, named_mention,
    note_attachments, tag_mention, tag_mentions, MentionText,
};
use crate::json::{texts_of, texts_prop, Json, JsonModel, JsonObject};
use crate::laws::{refuses, says, says_nothing, Properties};
use crate::model::{text_view, CountKind, Mention, RemoteAttachment, Status, Tag};
use crate::note_ingest::{
    finish_ingest, ids_among, ingest_note_object, local_names, mention_events, notify_mentioned,
    resolve_mentions, resolved_ids, NoteDraft, NoteKnown, NoteLookup, NoteParent,
};
use crate::notification_sink::{NotificationEvent, NotificationType};
use crate::text::{first_stop, has_suffix, leading_run};

verus! {

proof fn lemma_first_link(items: Seq<JsonModel>)
    ensures
        match first_link(items) {
            Some(url) => exists|k: int|
                0 <= k < items.len() && link_of(#[trigger] items[k]) == Some(url) && (forall|j: int|
                    0 <= j < k ==> link_of(#[trigger] items[j]) is None),
            None => forall|k: int| 0 <= k < items.len() ==> link_of(#[trigger] items[k]) is None,
        },
    decreases items.len(),
{
    if items.len() > 0 {
        let init = items.drop_last();
        lemma_first_link(init);
        match first_link(init) {
            Some(url) => {
                let k = choose|k: int|
                    0 <= k < init.len() && link_of(#[trigger] init[k]) == Some(url) && (forall|
                        j: int,
                    | 0 <= j < k ==> link_of(#[trigger] init[j]) is None);
                assert(items[k] == init[k]);
                assert forall|j: int| 0 <= j < k implies link_of(#[trigger] items[j]) is None by {
                    assert(items[j] == init[j]);
                }
            },
            None => {
                assert forall|j: int| 0 <= j < init.len() implies link_of(
                    #[trigger] items[j],
                ) is None by {
                    assert(items[j] == init[j]);
                }
                assert(items[items.len() - 1] == items.last());
            },
        }
    }
}

/// A text is a link; an object has that of its `href`, or else that of its
/// `url`; a list has the first that one of its values has; nothing else has
/// one.
pub proof fn law_links(value: JsonModel)
    ensures
        match value {
            JsonModel::Str(url) => link_of(value) == Some(url),
            JsonModel::Object(map) => {
                &&& forall|url: Seq<char>| #[trigger]
                    says(map, "href"@, url) ==> link_of(value) == Some(url)
                &&& says_nothing(map, "href"@) && map.dom().contains("url"@) ==> link_of(value)
                    == link_of(map["url"@])
                &&& says_nothing(map, "href"@) && !map.dom().contains("url"@) ==> link_of(
                    value,
                ) is None
            },
            JsonModel::Array(items) => match link_of(value) {
                Some(url) => exists|k: int|
                    0 <= k < items.len() && link_of(#[trigger] items[k]) == Some(url) && (forall|
                        j: int,
                    | 0 <= j < k ==> link_of(#[trigger] items[j]) is None),
                None => forall|k: int|
                    0 <= k < items.len() ==> link_of(#[trigger] items[k]) is None,
            },
            _ => link_of(value) is None,
        },
{
    if let JsonModel::Array(items) = value {
        lemma_first_link(items);
    }
}

/// The link of a value is the one that it has.
pub proof fn law_links_are_read(value: &Json, r: Option<String>)
    requires
        call_ensures(attachment_url, (value,), r),
    ensures
        match r {
            Some(url) => link_of(value@) == Some(url@),
            None => link_of(value@) is None,
        },
{
}

/// An entry is an attachment where it is an object whose `url` has a link or
/// that has a `href`. The attachment has that link, the media type, and as
/// its description the `name` or else the `summary`.
pub proof fn law_entries_with_a_link_are_attachments(entry: JsonModel)
    ensures
        !(entry is Object) ==> entry_attachment(entry) is None,
        entry matches JsonModel::Object(map) ==> {
            let linked = map.dom().contains("url"@) && link_of(map["url"@]) is Some;
            &&& entry_attachment(entry) is Some <==> linked || !says_nothing(map, "href"@)
            &&& entry_attachment(entry) matches Some((url, media_type, description)) ==> {
                &&& linked ==> link_of(map["url"@]) == Some(url)
                &&& !linked ==> says(map, "href"@, url)
                &&& match media_type {
                    Some(text) => says(map, "mediaType"@, text),
                    None => says_nothing(map, "mediaType"@),
                }
                &&& match description {
                    Some(text) => says(map, "name"@, text) || (says_nothing(map, "name"@) && says(
                        map,
                        "summary"@,
                        text,
                    )),
                    None => says_nothing(map, "name"@) && says_nothing(map, "summary"@),
                }
            }
        },
{
}

proof fn lemma_listed_attachments(entries: Seq<JsonModel>)
    ensures
        listed_attachments(entries) == entries.filter(
            |e: JsonModel| entry_attachment(e) is Some,
        ).map_values(|e: JsonModel| entry_attachment(e)->0),
    decreases entries.len(),
{
    reveal(Seq::filter);
    let has = |e: JsonModel| entry_attachment(e) is Some;
    if entries.len() > 0 {
        lemma_listed_attachments(entries.drop_last());
    }
    assert(listed_attachments(entries) =~= entries.filter(has).map_values(
        |e: JsonModel| entry_attachment(e)->0,
    ));
}

/// Whether an attachment has the given link, media type and description.
pub open spec fn is_attachment(
    attachment: RemoteAttachment,
    url: Seq<char>,
    media_type: Option<Seq<char>>,
    description: Option<Seq<char>>,
) -> bool {
    &&& attachment.url@ == url
    &&& attachment.media_type is Some == media_type is Some
    &&& attachment.media_type matches Some(text) ==> Some(text@) == media_type
    &&& attachment.description is Some == description is Some
    &&& attachment.description matches Some(text) ==> Some(text@) == description
}

/// The attachments of a `Note` are those of the entries that are attachments,
/// one for each such entry and in the order of the entries; without a list
/// of entries there are none.
pub proof fn law_every_attachment_is_taken(object: &JsonObject, r: Vec<RemoteAttachment>)
    requires
        call_ensures(extract_attachments, (object,), r),
    ensures
        ({
            let entries = if object@.dom().contains("attachment"@) {
                match object@["attachment"@] {
                    JsonModel::Array(entries) => entries,
                    _ => Seq::empty(),
                }
            } else {
                Seq::empty()
            };
            let linked = entries.filter(|e: JsonModel| entry_attachment(e) is Some);
            &&& r@.len() == linked.len()
            &&& forall|k: int|
                0 <= k < r@.len() ==> {
                    let expected = entry_attachment(linked[k])->0;
                    is_attachment(#[trigger] r@[k], expected.0, expected.1, expected.2)
                }
        }),
{
    reveal(Seq::filter);
    let entries = if object@.dom().contains("attachment"@) {
        match object@["attachment"@] {
            JsonModel::Array(entries) => entries,
            _ => Seq::empty(),
        }
    } else {
        Seq::empty()
    };
    let has = |e: JsonModel| entry_attachment(e) is Some;
    lemma_listed_attachments(entries);
    let linked = entries.filter(has);
    let texts = attachment_texts(r@);
    assert(texts.len() == r@.len());
    assert(note_attachments(object@) =~= listed_attachments(entries));
    assert forall|k: int| 0 <= k < r@.len() implies ({
        let expected = entry_attachment(linked[k])->0;
        is_attachment(#[trigger] r@[k], expected.0, expected.1, expected.2)
    }) by {
        assert(texts[k] == attachment_text(r@[k]));
        assert(texts[k] == entry_attachment(linked[k])->0);
    }
}

/// What two lists of entries hold together is what the first holds and then
/// what the second holds.
pub proof fn law_attachments_add_up(a: Seq<JsonModel>, b: Seq<JsonModel>)
    ensures
        listed_attachments(a + b) == listed_attachments(a) + listed_attachments(b),
    decreases b.len(),
{
    if b.len() == 0 {
        assert(a + b =~= a);
        assert(listed_attachments(a) + listed_attachments(b) =~= listed_attachments(a));
    } else {
        law_attachments_add_up(a, b.drop_last());
        assert((a + b).drop_last() =~= a + b.drop_last());
        assert((a + b).last() == b.last());
        assert(listed_attachments(a + b) =~= listed_attachments(a) + listed_attachments(b));
    }
}

proof fn lemma_leading_run(n: nat, rest: Seq<char>)
    requires
        rest.len() > 0 ==> rest[0] != '@',
    ensures
        leading_run(Seq::new(n, |i: int| '@') + rest, '@') == n,
    decreases n,
{
    let s = Seq::new(n, |i: int| '@') + rest;
    if n > 0 {
        lemma_leading_run((n - 1) as nat, rest);
        assert(s.skip(1) =~= Seq::new((n - 1) as nat, |i: int| '@') + rest);
        assert(s[0] == '@');
    } else {
        assert(s =~= rest);
    }
}

proof fn lemma_first_stop_at(s: Seq<char>, from: int, at: int)
    requires
        0 <= from <= at <= s.len(),
        forall|i: int| from <= i < at ==> s[i] != '@',
        at < s.len() ==> s[at] == '@',
    ensures
        first_stop(s, from, set!['@']) == at,
    decreases at - from,
{
    if from < at {
        lemma_first_stop_at(s, from + 1, at);
    }
}

/// The `@`s that a name starts with are dropped. What is left is parted at its
/// first `@` into local part and domain; without a domain, all of it is the
/// local part. A name of nothing else is no mention.
pub proof fn law_names_are_parted(ats: nat, local: Seq<char>, domain: Option<Seq<char>>)
    requires
        forall|i: int| 0 <= i < local.len() ==> local[i] != '@',
        local.len() == 0 ==> domain is None,
    ensures
        named_mention(
            Seq::new(ats, |i: int| '@') + local + (match domain {
                Some(text) => seq!['@'] + text,
                None => Seq::empty(),
            }),
        ) == (if local.len() == 0 {
            None
        } else {
            match domain {
                Some(text) => if text.len() > 0 {
                    Some((local, Some(text)))
                } else {
                    Some((local + seq!['@'], None))
                },
                None => Some((local, None)),
            }
        }),
{
    let tail = match domain {
        Some(text) => seq!['@'] + text,
        None => Seq::empty(),
    };
    let run = Seq::new(ats, |i: int| '@');
    let rest = local + tail;
    let name = run + local + tail;
    assert(name =~= run + rest);
    lemma_leading_run(ats, rest);
    assert(name.skip(ats as int) =~= rest);
    lemma_first_stop_at(rest, 0, local.len() as int);
    if let Some(text) = domain {
        assert(rest.take(local.len() as int) =~= local);
        assert(rest.skip(local.len() as int + 1) =~= text);
        if text.len() == 0 {
            assert(rest =~= local + seq!['@']);
        }
    } else {
        assert(rest =~= local);
    }
}

/// A `tag` entry mentions what its `name` stands for, where it is an object
/// of type `Mention`.
pub proof fn law_mention_entries(entry: JsonModel)
    ensures
        match entry {
            JsonModel::Object(tag) => {
                &&& !says(tag, "type"@, "Mention"@) ==> tag_mention(entry) is None
                &&& says_nothing(tag, "name"@) ==> tag_mention(entry) is None
                &&& forall|name: Seq<char>|
                    says(tag, "type"@, "Mention"@) && #[trigger] says(tag, "name"@, name)
                        ==> tag_mention(entry) == named_mention(name)
            },
            _ => tag_mention(entry) is None,
        },
{
}

/// Whether one of the entries mentions the given actor.
pub open spec fn is_mentioned(entries: Seq<JsonModel>, mention: MentionText) -> bool {
    exists|i: int| 0 <= i < entries.len() && tag_mention(#[trigger] entries[i]) == Some(mention)
}

/// Every mention of the entries is listed, once, and in the order in which
/// they first appear: what more entries add comes after what was there.
pub proof fn law_mentions_are_listed_once(entries: Seq<JsonModel>)
    ensures
        listed_mentions(entries).no_duplicates(),
        forall|m: MentionText| #[trigger]
            listed_mentions(entries).contains(m) <==> is_mentioned(entries, m),
        entries.len() > 0 ==> listed_mentions(entries.drop_last()).is_prefix_of(
            listed_mentions(entries),
        ),
    decreases entries.len(),
{
    let all = listed_mentions(entries);
    if entries.len() > 0 {
        let init = entries.drop_last();
        let rest = listed_mentions(init);
        law_mentions_are_listed_once(init);
        assert(all == rest || all == rest.push(tag_mention(entries.last())->0));
        assert(rest.is_prefix_of(all));
        assert forall|m: MentionText| #[trigger] all.contains(m) <==> is_mentioned(entries, m) by {
            assert(rest.contains(m) <==> is_mentioned(init, m));
            if all.contains(m) {
                let k = choose|k: int| 0 <= k < all.len() && all[k] == m;
                if k < rest.len() {
                    assert(rest[k] == m);
                    let i = choose|i: int|
                        0 <= i < init.len() && tag_mention(#[trigger] init[i]) == Some(m);
                    assert(entries[i] == init[i]);
                } else {
                    assert(tag_mention(entries[entries.len() - 1]) == Some(m));
                }
            }
            if is_mentioned(entries, m) {
                let i = choose|i: int|
                    0 <= i < entries.len() && tag_mention(#[trigger] entries[i]) == Some(m);
                if i < init.len() {
                    assert(init[i] == entries[i]);
                    assert(is_mentioned(init, m));
                    let k = choose|k: int| 0 <= k < rest.len() && rest[k] == m;
                    assert(all[k] == m);
                } else {
                    if !rest.contains(m) {
                        assert(all[rest.len() as int] == m);
                    } else {
                        let k = choose|k: int| 0 <= k < rest.len() && rest[k] == m;
                        assert(all[k] == m);
                    }
                }
            }
        }
    } else {
        assert forall|m: MentionText| !(#[trigger] all.contains(m)) && !is_mentioned(
            entries,
            m,
        ) by {}
    }
}

/// Whether a mention has the given local part and domain.
pub open spec fn is_mention(mention: Mention, text: MentionText) -> bool {
    &&& mention.local@ == text.0
    &&& mention.domain is Some == text.1 is Some
    &&& mention.domain matches Some(domain) ==> Some(domain@) == text.1
}

/// The mentions of a `Note` are those that its `tag` lists; without a list
/// there are none.
pub proof fn law_tag_mentions_are_taken(object: &JsonObject, r: Vec<Mention>)
    requires
        call_ensures(extract_tag_mentions, (object,), r),
    ensures
        ({
            let entries = if object@.dom().contains("tag"@) {
                match object@["tag"@] {
                    JsonModel::Array(entries) => entries,
                    _ => Seq::empty(),
                }
            } else {
                Seq::empty()
            };
            &&& r@.len() == listed_mentions(entries).len()
            &&& forall|k: int|
                0 <= k < r@.len() ==> is_mention(#[trigger] r@[k], listed_mentions(entries)[k])
        }),
{
    let texts = mention_texts(r@);
    assert(texts.len() == r@.len());
    assert forall|k: int| 0 <= k < r@.len() implies texts[k] == mention_text(#[trigger] r@[k]) by {}
}

/// Whether a property is the given text or a list that holds it.
pub open spec fn names(object: Properties, key: Seq<char>, text: Seq<char>) -> bool {
    ||| says(object, key, text)
    ||| object.dom().contains(key) && (object[key] matches JsonModel::Array(items)
        && items.contains(JsonModel::Str(text)))
}

proof fn lemma_texts_of(items: Seq<JsonModel>, text: Seq<char>)
    ensures
        texts_of(items).contains(text) <==> items.contains(JsonModel::Str(text)),
    decreases items.len(),
{
    let all = texts_of(items);
    if items.len() > 0 {
        let init = items.drop_last();
        let rest = texts_of(init);
        lemma_texts_of(init, text);
        if all.contains(text) {
            let k = choose|k: int| 0 <= k < all.len() && all[k] == text;
            if k < rest.len() {
                assert(rest[k] == text);
                let i = choose|i: int| 0 <= i < init.len() && init[i] == JsonModel::Str(text);
                assert(items[i] == JsonModel::Str(text));
            } else {
                assert(items[items.len() - 1] == JsonModel::Str(text));
            }
        }
        if items.contains(JsonModel::Str(text)) {
            let i = choose|i: int| 0 <= i < items.len() && items[i] == JsonModel::Str(text);
            if i < init.len() {
                assert(init[i] == JsonModel::Str(text));
                let k = choose|k: int| 0 <= k < rest.len() && rest[k] == text;
                assert(all[k] == text);
            } else {
                assert(all[rest.len() as int] == text);
            }
        }
    }
}

proof fn lemma_names(object: Properties, key: Seq<char>, text: Seq<char>)
    ensures
        texts_prop(object, key).contains(text) <==> names(object, key, text),
{
    if object.dom().contains(key) {
        match object[key] {
            JsonModel::Str(s) => {
                assert(seq![s][0] == s);
                assert(texts_prop(object, key) == seq![s]);
            },
            JsonModel::Array(items) => {
                lemma_texts_of(items, text);
            },
            _ => {},
        }
    }
}

/// Whether a property names a followers collection.
pub open spec fn names_followers(object: Properties, key: Seq<char>) -> bool {
    exists|actor: Seq<char>| #[trigger] names(object, key, actor + "/followers"@)
}

proof fn lemma_names_followers(object: Properties, key: Seq<char>)
    ensures
        any_has_suffix(texts_prop(object, key), "/followers"@) <==> names_followers(object, key),
{
    let texts = texts_prop(object, key);
    let suffix = "/followers"@;
    if any_has_suffix(texts, suffix) {
        let i = choose|i: int| 0 <= i < texts.len() && has_suffix(#[trigger] texts[i], suffix);
        let actor = texts[i].take(texts[i].len() - suffix.len());
        assert(texts[i] =~= actor + suffix) by {
            assert(texts[i].subrange(texts[i].len() - suffix.len(), texts[i].len() as int) == suffix);
            assert(texts[i] =~= actor + texts[i].subrange(
                texts[i].len() - suffix.len(),
                texts[i].len() as int,
            ));
        }
        assert(texts.contains(actor + suffix));
        lemma_names(object, key, actor + suffix);
        assert(names(object, key, actor + suffix));
    }
    if names_followers(object, key) {
        let actor = choose|actor: Seq<char>| #[trigger] names(object, key, actor + suffix);
        lemma_names(object, key, actor + suffix);
        let i = choose|i: int| 0 <= i < texts.len() && texts[i] == actor + suffix;
        assert(texts[i].subrange(texts[i].len() - suffix.len(), texts[i].len() as int) =~= suffix);
        assert(has_suffix(texts[i], suffix));
    }
}

/// A `Note` is public where it is to everyone, unlisted where everyone is only
/// in copy, private where it is neither but to or in copy to a followers
/// collection, and direct otherwise.
pub proof fn law_notes_are_seen_by_those_addressed(object: &JsonObject, r: Visibility)
    requires
        call_ensures(derive_inbound_visibility, (object,), r),
    ensures
        ({
            let everyone = "https://www.w3.org/ns/activitystreams#Public"@;
            let open_to = names(object@, "to"@, everyone);
            let open_cc = names(object@, "cc"@, everyone);
            let circle = names_followers(object@, "to"@) || names_followers(object@, "cc"@);
            &&& r is Public <==> open_to
            &&& r is Unlisted <==> !open_to && open_cc
            &&& r is Private <==> !open_to && !open_cc && circle
            &&& r is Direct <==> !open_to && !open_cc && !circle
        }),
{
    let everyone = "https://www.w3.org/ns/activitystreams#Public"@;
    lemma_names(object@, "to"@, everyone);
    lemma_names(object@, "cc"@, everyone);
    lemma_names_followers(object@, "to"@);
    lemma_names_followers(object@, "cc"@);
}

/// Whether a text is what a property says, or empty where it says nothing.
pub open spec fn is_text_of(object: Properties, key: Seq<char>, text: Seq<char>) -> bool {
    says(object, key, text) || (says_nothing(object, key) && text.len() == 0)
}

/// A remote `Note` becomes a remote status of its author: its URI, content,
/// content warning, sensitivity, link and time are what the `Note` says, it
/// replies to the status that was found for what it names, and nothing has
/// been done to it yet. Its mentions and attachments come with it.
pub proof fn law_notes_become_statuses(
    stage: NoteParent,
    parent: Option<Status>,
    fresh: Fresh,
    draft: NoteDraft,
    visibility: Visibility,
    mentions: Vec<Mention>,
    attachments: Vec<RemoteAttachment>,
)
    requires
        call_ensures(NoteParent::with_parent, (stage, parent, fresh), draft),
        call_ensures(derive_inbound_visibility, (stage.object,), visibility),
        call_ensures(extract_tag_mentions, (stage.object,), mentions),
        call_ensures(extract_attachments, (stage.object,), attachments),
    ensures
        ({
            let note = stage.object@;
            let s = draft.status;
            &&& s.id == fresh.id
            &&& s.actor_id == stage.actor_id
            &&& s.uri@ == stage.uri@
            &&& s.url matches Some(url) && (says(note, "url"@, url@) || (says_nothing(note, "url"@)
                && url@ == stage.uri@))
            &&& is_text_of(note, "content"@, s.content@)
            &&& is_text_of(note, "summary"@, s.spoiler_text@)
            &&& s.sensitive <==> note.dom().contains("sensitive"@) && note["sensitive"@]
                == JsonModel::Bool(true)
            &&& s.visibility == visibility
            &&& match (stage.parent_uri, parent) {
                (Some(_), Some(p)) => s.in_reply_to_id == Some(p.id) && s.in_reply_to_account_id
                    == Some(p.actor_id),
                _ => s.in_reply_to_id is None && s.in_reply_to_account_id is None,
            }
            &&& s.reblog_of_id is None
            &&& s.poll_id is None
            &&& s.language is None
            &&& s.reblogs_count == 0
            &&& s.favourites_count == 0
            &&& s.replies_count == 0
            &&& !s.local
            &&& s.edited_at is None
            &&& forall|text: Seq<char>| #[trigger]
                says(note, "published"@, text) ==> (match rfc3339_reading(text) {
                    Some((local_nanos, offset)) => s.created_at.local() as i128 == local_nanos
                        && s.created_at.offset() as i32 == offset,
                    None => s.created_at == fresh.now,
                })
            &&& says_nothing(note, "published"@) ==> s.created_at == fresh.now
        }),
        draft.tag_mentions@.len() == mentions@.len(),
        forall|k: int|
            0 <= k < mentions@.len() ==> (#[trigger] draft.tag_mentions@[k]).local@
                == mentions@[k].local@ && text_view(draft.tag_mentions@[k].domain) == text_view(
                mentions@[k].domain,
            ),
        draft.attachments@.len() == attachments@.len(),
        forall|k: int|
            0 <= k < attachments@.len() ==> (#[trigger] draft.attachments@[k]).url@
                == attachments@[k].url@ && text_view(draft.attachments@[k].media_type) == text_view(
                attachments@[k].media_type,
            ) && text_view(draft.attachments@[k].description) == text_view(
                attachments@[k].description,
            ),
{
    let a = mention_texts(draft.tag_mentions@);
    let b = mention_texts(mentions@);
    assert(a.len() == draft.tag_mentions@.len() && b.len() == mentions@.len());
    assert forall|k: int| 0 <= k < mentions@.len() implies (
    #[trigger] draft.tag_mentions@[k]).local@ == mentions@[k].local@ && text_view(
        draft.tag_mentions@[k].domain,
    ) == text_view(mentions@[k].domain) by {
        assert(a[k] == mention_text(draft.tag_mentions@[k]));
        assert(b[k] == mention_text(mentions@[k]));
    }
    let c = attachment_texts(draft.attachments@);
    let d = attachment_texts(attachments@);
    assert(c.len() == draft.attachments@.len() && d.len() == attachments@.len());
    assert forall|k: int| 0 <= k < attachments@.len() implies (
    #[trigger] draft.attachments@[k]).url@ == attachments@[k].url@ && text_view(
        draft.attachments@[k].media_type,
    ) == text_view(attachments@[k].media_type) && text_view(draft.attachments@[k].description)
        == text_view(attachments@[k].description) by {
        assert(c[k] == attachment_text(draft.attachments@[k]));
        assert(d[k] == attachment_text(attachments@[k]));
    }
}

/// A `Note` is looked up by its `id`, and without one it is refused. One that
/// is known is that status; a new one asks for what it says it replies to.
pub proof fn law_notes_are_known_by_their_id(
    object: &JsonObject,
    actor_id: Id,
    begun: Result<NoteLookup, AppError>,
    lookup: NoteLookup,
    existing: Option<Status>,
    known: NoteKnown,
)
    requires
        call_ensures(ingest_note_object, (object, actor_id), begun),
        call_ensures(NoteLookup::found, (lookup, existing), known),
    ensures
        begun is Ok <==> !says_nothing(object@, "id"@),
        begun matches Ok(next) ==> says(object@, "id"@, next.uri@) && next.object == object
            && next.actor_id == actor_id,
        begun matches Err(e) ==> refuses(
            e,
            422,
            "Note object is missing a required 'id' property"@,
        ),
        match known {
            NoteKnown::Existing(status) => existing == Some(status),
            NoteKnown::New(next) => {
                &&& existing is None
                &&& next.object == lookup.object
                &&& next.actor_id == lookup.actor_id
                &&& next.uri == lookup.uri
                &&& match next.parent_uri {
                    Some(uri) => says(lookup.object@, "inReplyTo"@, uri@),
                    None => says_nothing(lookup.object@, "inReplyTo"@),
                }
            },
        },
{
}

/// Taking a new status in writes its row, counts it as a reply where it is
/// one, and attaches every hashtag, in order, and nothing else.
pub proof fn law_new_statuses_are_written_down(
    draft: &NoteDraft,
    hashtags: &[String],
    tag_ids: &[Id],
    now: Timestamp,
    r: Vec<Effect>,
)
    requires
        hashtags@.len() == tag_ids@.len(),
        call_ensures(NoteDraft::first_writes, (draft, hashtags, tag_ids, now), r),
    ensures
        ({
            let first: int = if draft.status.in_reply_to_id is Some {
                2
            } else {
                1
            };
            &&& r@.len() == first + hashtags@.len()
            &&& r@[0] == Effect::InsertStatus(draft.status)
            &&& draft.status.in_reply_to_id matches Some(parent) ==> r@[1]
                == (Effect::AdjustCounts {
                status_id: parent,
                kind: CountKind::Replies,
                delta: 1,
            })
            &&& forall|k: int|
                0 <= k < hashtags@.len() ==> r@[first + k] == (Effect::AssociateTag {
                    status_id: draft.status.id,
                    tag: Tag { id: tag_ids@[k], name: #[trigger] hashtags@[k], created_at: now },
                })
        }),
{
}

/// Whom a status mentions and what is attached to it is written down all and
/// in order, where there is anyone or anything.
pub proof fn law_mentions_and_attachments_are_written_down(
    draft: NoteDraft,
    mentioned: Vec<Id>,
    r: Vec<Effect>,
)
    requires
        call_ensures(NoteDraft::last_writes, (draft, mentioned), r),
    ensures
        ({
            let first: int = if mentioned@.len() > 0 {
                1
            } else {
                0
            };
            let second: int = if draft.attachments@.len() > 0 {
                1
            } else {
                0
            };
            &&& r@.len() == first + second
            &&& first == 1 ==> (r@[0] matches Effect::InsertMentions { status_id, actor_ids }
                && status_id == draft.status.id && actor_ids@ == mentioned@)
            &&& second == 1 ==> (r@[first] matches Effect::InsertAttachments {
                status_id,
                attachments,
            } && status_id == draft.status.id && attachments@ == draft.attachments@)
        }),
{
    let k: int = if mentioned@.len() > 0 {
        1
    } else {
        0
    };
    assert(r@ =~= r@.take(k) + r@.skip(k));
    if k == 1 {
        assert(r@.take(1)[0] == r@[0]);
    }
    if draft.attachments@.len() > 0 {
        assert(r@.skip(k)[0] == r@[k]);
    }
}

/// Whether two letters are the same but for their case.
pub open spec fn same_letter(a: char, b: char) -> bool {
    ||| a == b
    ||| 'A' <= a <= 'Z' && b as int == a as int + 32
    ||| 'A' <= b <= 'Z' && a as int == b as int + 32
}

/// Whether two hosts are the same: letter by letter, in either case.
pub open spec fn same_host(a: Seq<char>, b: Seq<char>) -> bool {
    a.len() == b.len() && (forall|i: int| 0 <= i < a.len() ==> same_letter(#[trigger] a[i], b[i]))
}

pub(crate) proof fn lemma_same_host(a: Seq<char>, b: Seq<char>)
    ensures
        crate::text::same_ignoring_ascii_case(a, b) == same_host(a, b),
{
    assert forall|x: char, y: char|
        (crate::text::ascii_lower(x) == crate::text::ascii_lower(y)) == #[trigger] same_letter(
            x,
            y,
        ) by {
        lemma_same_letter(x, y);
    }
    if crate::text::same_ignoring_ascii_case(a, b) {
        assert forall|i: int| 0 <= i < a.len() implies same_letter(#[trigger] a[i], b[i]) by {
            assert(crate::text::ascii_lower(a[i]) == crate::text::ascii_lower(b[i]));
        }
    }
    if same_host(a, b) {
        assert forall|i: int| 0 <= i < a.len() implies crate::text::ascii_lower(#[trigger] a[i])
            == crate::text::ascii_lower(b[i]) by {
            assert(same_letter(a[i], b[i]));
        }
    }
}

proof fn lemma_same_letter(x: char, y: char)
    ensures
        (crate::text::ascii_lower(x) == crate::text::ascii_lower(y)) == same_letter(x, y),
{
    if 'A' <= x <= 'Z' {
        assert(crate::text::ascii_lower(x) as int == x as int + 32);
    }
    if 'A' <= y <= 'Z' {
        assert(crate::text::ascii_lower(y) as int == y as int + 32);
    }
}

/// Whether a mention names this instance: by its domain, in any case, or by
/// naming none.
pub open spec fn is_of_here(mention: Mention, domain: Seq<char>) -> bool {
    mention.domain matches Some(named) ==> same_host(named@, domain)
}

proof fn lemma_local_names(mentions: Seq<Mention>, domain: Seq<char>)
    ensures
        local_names(mention_texts(mentions), domain) == mentions.filter(
            |m: Mention| is_of_here(m, domain),
        ).map_values(|m: Mention| m.local@),
    decreases mentions.len(),
{
    reveal(Seq::filter);
    let here = |m: Mention| is_of_here(m, domain);
    let texts = mention_texts(mentions);
    if mentions.len() > 0 {
        let init = mentions.drop_last();
        let last = mentions.last();
        lemma_local_names(init, domain);
        assert(texts.drop_last() =~= mention_texts(init));
        assert(texts.last() == mention_text(last));
        if let Some(named) = last.domain {
            lemma_same_host(named@, domain);
        }
    }
    assert(local_names(texts, domain) =~= mentions.filter(here).map_values(|m: Mention| m.local@));
}

/// Of the mentions those are looked up that name this instance, all of them
/// and in order, by their local part.
pub proof fn law_local_mentions_are_looked_up(domain: &str, mentions: &[Mention], r: Vec<String>)
    requires
        call_ensures(resolve_mentions, (domain, mentions), r),
    ensures
        ({
            let here = mentions@.filter(|m: Mention| is_of_here(m, domain@));
            &&& r@.len() == here.len()
            &&& forall|k: int| 0 <= k < r@.len() ==> (#[trigger] r@[k])@ == here[k].local@
        }),
{
    lemma_local_names(mentions@, domain@);
    let here = mentions@.filter(|m: Mention| is_of_here(m, domain@));
    let views = crate::json::string_views(r@);
    assert(views.len() == r@.len());
    assert forall|k: int| 0 <= k < r@.len() implies (#[trigger] r@[k])@ == here[k].local@ by {
        assert(views[k] == r@[k]@);
    }
}

/// The actors that were found are taken, all and in order.
pub proof fn law_found_actors_are_taken(answers: &[Option<Id>], r: Vec<Id>)
    requires
        call_ensures(resolved_ids, (answers,), r),
    ensures
        r@ == answers@.filter(|a: Option<Id>| a is Some).map_values(|a: Option<Id>| a->0),
{
    lemma_ids_among(answers@);
}

proof fn lemma_ids_among(answers: Seq<Option<Id>>)
    ensures
        ids_among(answers) == answers.filter(|a: Option<Id>| a is Some).map_values(
            |a: Option<Id>| a->0,
        ),
    decreases answers.len(),
{
    reveal(Seq::filter);
    let found = |a: Option<Id>| a is Some;
    if answers.len() > 0 {
        lemma_ids_among(answers.drop_last());
    }
    assert(ids_among(answers) =~= answers.filter(found).map_values(|a: Option<Id>| a->0));
}

/// What a mentioned local actor is told.
pub open spec fn told_of_mention(
    actor: Id,
    author: Id,
    status_id: Id,
    now: Timestamp,
) -> Effect {
    Effect::Emit(
        NotificationEvent {
            recipient: AccountRef::Local(actor),
            origin: AccountRef::Remote(author),
            kind: NotificationType::Mention,
            target_status_id: Some(status_id),
            occurred_at: now,
        },
    )
}

proof fn lemma_mention_events(author: Id, status_id: Id, mentioned: Seq<Id>, now: Timestamp)
    ensures
        mention_events(author, status_id, mentioned, now) == mentioned.filter(
            |id: Id| id != author,
        ).map_values(|id: Id| told_of_mention(id, author, status_id, now)),
    decreases mentioned.len(),
{
    reveal(Seq::filter);
    let others = |id: Id| id != author;
    if mentioned.len() > 0 {
        lemma_mention_events(author, status_id, mentioned.drop_last(), now);
    }
    assert(mention_events(author, status_id, mentioned, now) =~= mentioned.filter(
        others,
    ).map_values(|id: Id| told_of_mention(id, author, status_id, now)));
}

/// Of a new `Note` every mentioned actor but its author is told, once for each
/// mention and in order; of a known one nobody is. Either way it is handled.
pub proof fn law_mentioned_actors_are_told(
    author: Id,
    status_id: Id,
    is_new: bool,
    mentioned: &[Id],
    now: Timestamp,
    told: Vec<Effect>,
    plan: Plan,
)
    requires
        call_ensures(notify_mentioned, (author, status_id, mentioned, now), told),
        call_ensures(finish_ingest, (author, status_id, is_new, mentioned, now), plan),
    ensures
        told@ == mentioned@.filter(|id: Id| id != author).map_values(
            |id: Id| told_of_mention(id, author, status_id, now),
        ),
        plan.outcome == HandleOutcome::Handled,
        is_new ==> plan.effects@ == told@,
        !is_new ==> plan.effects@.len() == 0,
{
    lemma_mention_events(author, status_id, mentioned@, now);
}

} // verus!
