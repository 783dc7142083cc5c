//! What an inbound `Note` says: its visibility, its mentions and its
//! attachments.

use vstd::prelude::*;

use crate::addressing::PUBLIC_COLLECTION_URI;
use crate::domain::Visibility;
use crate::json::{
    items_model, json_model, lemma_items_model, optional_string, prop, string_array_prop,
    string_views, text_prop, texts_prop, Json, JsonModel, JsonObject,
};
use crate::model::{text_view, Mention, RemoteAttachment};
use crate::text::{
    chars_of, count_leading, ends_with, find_char, first_stop, has_suffix, leading_run, same_text,
};

verus! {

/// Whether one of the texts ends with `suffix`.
pub open spec fn any_has_suffix(texts: Seq<Seq<char>>, suffix: Seq<char>) -> bool {
    exists|i: int| 0 <= i < texts.len() && has_suffix(#[trigger] texts[i], suffix)
}

/// The visibility that an addressing stands for.
pub open spec fn visibility_of(to: Seq<Seq<char>>, cc: Seq<Seq<char>>) -> Visibility {
    if to.contains(PUBLIC_COLLECTION_URI@) {
        Visibility::Public
    } else if cc.contains(PUBLIC_COLLECTION_URI@) {
        Visibility::Unlisted
    } else if any_has_suffix(to, "/followers"@) || any_has_suffix(cc, "/followers"@) {
        Visibility::Private
    } else {
        Visibility::Direct
    }
}

/// The visibility of an inbound object.
pub open spec fn inbound_visibility(object: Map<Seq<char>, JsonModel>) -> Visibility {
    visibility_of(texts_prop(object, "to"@), texts_prop(object, "cc"@))
}

fn contains_text(items: &Vec<String>, text: &str) -> (r: bool)
    ensures
        r == string_views(items@).contains(text@),
{
    let mut i: usize = 0;
    while i < items.len()
        invariant
            i <= items.len(),
            forall|j: int| 0 <= j < i ==> string_views(items@)[j] != text@,
        decreases items.len() - i,
    {
        if same_text(items[i].as_str(), text) {
            assert(string_views(items@)[i as int] == text@);
            return true;
        }
        i += 1;
    }
    false
}

fn any_ends_with(items: &Vec<String>, suffix: &str) -> (r: bool)
    ensures
        r == any_has_suffix(string_views(items@), suffix@),
{
    let mut i: usize = 0;
    while i < items.len()
        invariant
            i <= items.len(),
            forall|j: int| 0 <= j < i ==> !has_suffix(#[trigger] string_views(items@)[j], suffix@),
        decreases items.len() - i,
    {
        if ends_with(items[i].as_str(), suffix) {
            assert(has_suffix(string_views(items@)[i as int], suffix@));
            return true;
        }
        i += 1;
    }
    false
}

/// The visibility of an inbound object: public where everyone is addressed,
/// unlisted where everyone is in copy, private where a followers collection
/// is named, and direct otherwise.
pub fn derive_inbound_visibility(object: &JsonObject) -> (r: Visibility)
    ensures
        r == inbound_visibility(object@),
{
    let to: Vec<String> = string_array_prop(object, "to");
    let cc: Vec<String> = string_array_prop(object, "cc");
    if contains_text(&to, PUBLIC_COLLECTION_URI) {
        Visibility::Public
    } else if contains_text(&cc, PUBLIC_COLLECTION_URI) {
        Visibility::Unlisted
    } else if any_ends_with(&to, "/followers") || any_ends_with(&cc, "/followers") {
        Visibility::Private
    } else {
        Visibility::Direct
    }
}

/// A mention as text: the local part and, where given, the domain.
pub type MentionText = (Seq<char>, Option<Seq<char>>);

/// A mention as text.
pub open spec fn mention_text(mention: Mention) -> MentionText {
    (mention.local@, text_view(mention.domain))
}

/// Mentions as texts.
pub open spec fn mention_texts(mentions: Seq<Mention>) -> Seq<MentionText> {
    mentions.map_values(|m: Mention| mention_text(m))
}

/// What a mention's name stands for: its leading `@`s are dropped, and the
/// first `@` that is left parts the local part from the domain, unless one
/// of the two would be empty. A name of nothing but `@`s is no mention.
pub open spec fn named_mention(name: Seq<char>) -> Option<MentionText> {
    let trimmed = name.skip(leading_run(name, '@'));
    let at = first_stop(trimmed, 0, set!['@']);
    if trimmed.len() == 0 {
        None
    } else if 0 < at && at + 1 < trimmed.len() {
        Some((trimmed.take(at), Some(trimmed.skip(at + 1))))
    } else {
        Some((trimmed, None))
    }
}

/// The mention that a `tag` entry holds.
pub open spec fn tag_mention(entry: JsonModel) -> Option<MentionText> {
    match entry {
        JsonModel::Object(tag) => if text_prop(tag, "type"@) == Some("Mention"@) {
            match text_prop(tag, "name"@) {
                Some(name) => named_mention(name),
                None => None,
            }
        } else {
            None
        },
        _ => None,
    }
}

/// Whether a mention of the same local part and domain is among `mentions`.
pub open spec fn mention_seen(mentions: Seq<MentionText>, mention: MentionText) -> bool {
    mentions.contains(mention)
}

/// The mentions of a row of `tag` entries, each once, in order of first
/// appearance.
pub open spec fn listed_mentions(entries: Seq<JsonModel>) -> Seq<MentionText>
    decreases entries.len(),
{
    if entries.len() == 0 {
        Seq::empty()
    } else {
        let rest = listed_mentions(entries.drop_last());
        match tag_mention(entries.last()) {
            Some(mention) => if mention_seen(rest, mention) {
                rest
            } else {
                rest.push(mention)
            },
            None => rest,
        }
    }
}

/// The mentions that an object's `tag` array lists.
pub open spec fn tag_mentions(object: Map<Seq<char>, JsonModel>) -> Seq<MentionText> {
    match prop(object, "tag"@) {
        Some(JsonModel::Array(entries)) => listed_mentions(entries),
        _ => Seq::empty(),
    }
}

fn parse_mention(name: &str) -> (r: Option<Mention>)
    ensures
        match r {
            Some(mention) => named_mention(name@) == Some(mention_text(mention)),
            None => named_mention(name@) is None,
        },
{
    let chars: Vec<char> = chars_of(name);
    let n: usize = chars.len();
    let start: usize = count_leading(&chars, '@');
    if start == n {
        return None;
    }
    let trimmed: &str = name.substring_char(start, n);
    let rest: Vec<char> = chars_of(trimmed);
    assert(rest@ =~= name@.skip(start as int));
    let at: usize = find_char(&rest, 0, '@');
    if 0 < at && at < rest.len() - 1 {
        let local: String = trimmed.substring_char(0, at).to_owned();
        let domain: String = trimmed.substring_char(at + 1, rest.len()).to_owned();
        assert(local@ =~= rest@.take(at as int));
        assert(domain@ =~= rest@.skip(at + 1));
        Some(Mention { local, domain: Some(domain) })
    } else {
        assert(trimmed@ =~= rest@);
        Some(Mention { local: trimmed.to_owned(), domain: None })
    }
}

fn same_mention(a: &Mention, b: &Mention) -> (r: bool)
    ensures
        r == (mention_text(*a) == mention_text(*b)),
{
    if !same_text(a.local.as_str(), b.local.as_str()) {
        return false;
    }
    match (&a.domain, &b.domain) {
        (Some(x), Some(y)) => same_text(x.as_str(), y.as_str()),
        (None, None) => true,
        _ => false,
    }
}

fn seen_before(mentions: &Vec<Mention>, mention: &Mention) -> (r: bool)
    ensures
        r == mention_seen(mention_texts(mentions@), mention_text(*mention)),
{
    let mut i: usize = 0;
    while i < mentions.len()
        invariant
            i <= mentions.len(),
            forall|j: int|
                0 <= j < i ==> #[trigger] mention_texts(mentions@)[j] != mention_text(*mention),
        decreases mentions.len() - i,
    {
        if same_mention(&mentions[i], mention) {
            assert(mention_texts(mentions@)[i as int] == mention_text(*mention));
            return true;
        }
        i += 1;
    }
    false
}

fn mention_of_entry(entry: &Json) -> (r: Option<Mention>)
    ensures
        match r {
            Some(mention) => tag_mention(entry@) == Some(mention_text(mention)),
            None => tag_mention(entry@) is None,
        },
{
    match entry {
        Json::Object(tag) => {
            if tag.has_text("type", "Mention") {
                match tag.get_text("name") {
                    Some(name) => parse_mention(name.as_str()),
                    None => None,
                }
            } else {
                None
            }
        },
        _ => None,
    }
}

/// The mentions that an object's `tag` array lists, each once, in order of
/// first appearance.
pub fn extract_tag_mentions(object: &JsonObject) -> (r: Vec<Mention>)
    ensures
        mention_texts(r@) == tag_mentions(object@),
{
    let mut out: Vec<Mention> = Vec::new();
    assert(mention_texts(out@) =~= Seq::<MentionText>::empty());
    match object.get("tag") {
        Some(Json::Array(entries)) => {
            let ghost models = items_model(entries@);
            proof {
                lemma_items_model(entries@);
                assert(models.take(0) =~= Seq::<JsonModel>::empty());
            }
            let mut i: usize = 0;
            while i < entries.len()
                invariant
                    i <= entries.len(),
                    models.len() == entries.len(),
                    forall|j: int|
                        0 <= j < entries.len() ==> #[trigger] models[j] == json_model(entries@[j]),
                    mention_texts(out@) == listed_mentions(models.take(i as int)),
                decreases entries.len() - i,
            {
                proof {
                    let upto = models.take(i + 1);
                    assert(upto.drop_last() =~= models.take(i as int));
                    assert(upto.last() == json_model(entries@[i as int]));
                }
                if let Some(mention) = mention_of_entry(&entries[i]) {
                    if !seen_before(&out, &mention) {
                        let ghost before = out@;
                        out.push(mention);
                        assert(mention_texts(out@) =~= mention_texts(before).push(
                            mention_text(mention),
                        ));
                    }
                }
                i += 1;
            }
            assert(models.take(i as int) =~= models);
        },
        _ => {},
    }
    out
}

/// The link that an attachment's `url` stands for: a string itself, the
/// `href` of an object or else what its `url` stands for, or the first that
/// an array offers.
pub open spec fn link_of(value: JsonModel) -> Option<Seq<char>>
    decreases value,
{
    match value {
        JsonModel::Str(url) => Some(url),
        JsonModel::Object(map) => match text_prop(map, "href"@) {
            Some(href) => Some(href),
            None => if map.dom().contains("url"@) {
                link_of(map["url"@])
            } else {
                None
            },
        },
        JsonModel::Array(items) => first_link(items),
        _ => None,
    }
}

/// The first link that a row of values offers.
pub open spec fn first_link(items: Seq<JsonModel>) -> Option<Seq<char>>
    decreases items,
{
    if items.len() == 0 {
        None
    } else {
        match first_link(items.drop_last()) {
            Some(url) => Some(url),
            None => link_of(items.last()),
        }
    }
}

/// The link that an attachment's `url` stands for.
pub fn attachment_url(value: &Json) -> (r: Option<String>)
    ensures
        text_view(r) == link_of(value@),
    decreases value,
{
    match value {
        Json::Str(url) => Some(url.clone()),
        Json::Object(map) => {
            match map.get_text("href") {
                Some(href) => Some(href.clone()),
                None => match map.find("url") {
                    Some(i) => {
                        proof {
                            assert(decreases_to!(value => map));
                            assert(decreases_to!(map => map.entries));
                            assert(decreases_to!(map.entries => map.entries@));
                            assert(decreases_to!(map.entries@ => map.entries@[i as int]));
                            assert(decreases_to!(map.entries@[i as int] => map.entries@[i as int].1));
                        }
                        attachment_url(&map.entries[i].1)
                    },
                    None => None,
                },
            }
        },
        Json::Array(items) => {
            let ghost models = items_model(items@);
            proof {
                lemma_items_model(items@);
                assert(models.take(0) =~= Seq::<JsonModel>::empty());
            }
            let mut i: usize = 0;
            while i < items.len()
                invariant
                    i <= items.len(),
                    *value == Json::Array(*items),
                    models == items_model(items@),
                    models.len() == items.len(),
                    forall|j: int|
                        0 <= j < items.len() ==> #[trigger] models[j] == json_model(items@[j]),
                    first_link(models.take(i as int)) is None,
                decreases items.len() - i,
            {
                proof {
                    let upto = models.take(i + 1);
                    assert(upto.drop_last() =~= models.take(i as int));
                    assert(upto.last() == json_model(items@[i as int]));
                    assert(decreases_to!(value => items));
                    assert(decreases_to!(items => items@));
                    assert(decreases_to!(items@ => items@[i as int]));
                }
                let found: Option<String> = attachment_url(&items[i]);
                if found.is_some() {
                    proof {
                        lemma_first_link_sticks(models, i + 1);
                    }
                    return found;
                }
                i += 1;
            }
            assert(models.take(i as int) =~= models);
            None
        },
        _ => None,
    }
}

proof fn lemma_first_link_sticks(items: Seq<JsonModel>, k: int)
    requires
        0 <= k <= items.len(),
        first_link(items.take(k)) is Some,
    ensures
        first_link(items) == first_link(items.take(k)),
    decreases items.len() - k,
{
    if k < items.len() {
        let next = items.take(k + 1);
        assert(next.drop_last() =~= items.take(k));
        lemma_first_link_sticks(items, k + 1);
    } else {
        assert(items.take(k) =~= items);
    }
}

/// An attachment as text: its link, media type and description.
pub type AttachmentText = (Seq<char>, Option<Seq<char>>, Option<Seq<char>>);

/// An attachment as text.
pub open spec fn attachment_text(attachment: RemoteAttachment) -> AttachmentText {
    (attachment.url@, text_view(attachment.media_type), text_view(attachment.description))
}

/// Attachments as texts.
pub open spec fn attachment_texts(attachments: Seq<RemoteAttachment>) -> Seq<AttachmentText> {
    attachments.map_values(|a: RemoteAttachment| attachment_text(a))
}

/// The link of an `attachment` entry: what its `url` stands for, or its
/// `href`.
pub open spec fn entry_link(entry: Map<Seq<char>, JsonModel>) -> Option<Seq<char>> {
    match (match prop(entry, "url"@) {
        Some(value) => link_of(value),
        None => None,
    }) {
        Some(url) => Some(url),
        None => text_prop(entry, "href"@),
    }
}

/// The attachment that an `attachment` entry stands for; none without a
/// link.
pub open spec fn entry_attachment(entry: JsonModel) -> Option<AttachmentText> {
    match entry {
        JsonModel::Object(map) => match entry_link(map) {
            Some(url) => Some(
                (
                    url,
                    text_prop(map, "mediaType"@),
                    match text_prop(map, "name"@) {
                        Some(name) => Some(name),
                        None => text_prop(map, "summary"@),
                    },
                ),
            ),
            None => None,
        },
        _ => None,
    }
}

/// The attachments of a row of entries, in order.
pub open spec fn listed_attachments(entries: Seq<JsonModel>) -> Seq<AttachmentText>
    decreases entries.len(),
{
    if entries.len() == 0 {
        Seq::empty()
    } else {
        match entry_attachment(entries.last()) {
            Some(attachment) => listed_attachments(entries.drop_last()).push(attachment),
            None => listed_attachments(entries.drop_last()),
        }
    }
}

/// The attachments that an object's `attachment` array lists.
pub open spec fn note_attachments(object: Map<Seq<char>, JsonModel>) -> Seq<AttachmentText> {
    match prop(object, "attachment"@) {
        Some(JsonModel::Array(entries)) => listed_attachments(entries),
        _ => Seq::empty(),
    }
}

fn attachment_of_entry(entry: &Json) -> (r: Option<RemoteAttachment>)
    ensures
        match r {
            Some(attachment) => entry_attachment(entry@) == Some(attachment_text(attachment)),
            None => entry_attachment(entry@) is None,
        },
{
    match entry {
        Json::Object(map) => {
            let linked: Option<String> = match map.get("url") {
                Some(value) => attachment_url(value),
                None => None,
            };
            let link: Option<String> = match linked {
                Some(url) => Some(url),
                None => optional_string(map, "href"),
            };
            match link {
                Some(url) => {
                    let name: Option<String> = optional_string(map, "name");
                    let description: Option<String> = match name {
                        Some(name) => Some(name),
                        None => optional_string(map, "summary"),
                    };
                    Some(
                        RemoteAttachment {
                            url,
                            media_type: optional_string(map, "mediaType"),
                            description,
                        },
                    )
                },
                None => None,
            }
        },
        _ => None,
    }
}

/// The attachments that an object's `attachment` array lists, in order.
/// Entries without a link are passed over.
pub fn extract_attachments(object: &JsonObject) -> (r: Vec<RemoteAttachment>)
    ensures
        attachment_texts(r@) == note_attachments(object@),
{
    let mut out: Vec<RemoteAttachment> = Vec::new();
    assert(attachment_texts(out@) =~= Seq::<AttachmentText>::empty());
    match object.get("attachment") {
        Some(Json::Array(entries)) => {
            let ghost models = items_model(entries@);
            proof {
                lemma_items_model(entries@);
                assert(models.take(0) =~= Seq::<JsonModel>::empty());
            }
            let mut i: usize = 0;
            while i < entries.len()
                invariant
                    i <= entries.len(),
                    models.len() == entries.len(),
                    forall|j: int|
                        0 <= j < entries.len() ==> #[trigger] models[j] == json_model(entries@[j]),
                    attachment_texts(out@) == listed_attachments(models.take(i as int)),
                decreases entries.len() - i,
            {
                proof {
                    let upto = models.take(i + 1);
                    assert(upto.drop_last() =~= models.take(i as int));
                    assert(upto.last() == json_model(entries@[i as int]));
                }
                if let Some(attachment) = attachment_of_entry(&entries[i]) {
                    let ghost before = out@;
                    out.push(attachment);
                    assert(attachment_texts(out@) =~= attachment_texts(before).push(
                        attachment_text(attachment),
                    ));
                }
                i += 1;
            }
            assert(models.take(i as int) =~= models);
        },
        _ => {},
    }
    out
}

} // verus!
