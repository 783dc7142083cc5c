//! Documents: what a JSON value holds, what URLs and numbers stand for, and
//! which documents are taken in.

use vstd::prelude::*;

use crate::domain::Id;
use crate::error::AppError;
use crate::ingest_service::{
    after_scheme, authority_stops, host_from_url, host_of, separator_at, status_line,
    DocumentActor, StatusIngestService,
};
use crate::json::{
    entries_model, lemma_items_model, object_reference_uri, optional_string, string_array,
    string_array_prop, string_or_empty, string_views, texts_of, Json, JsonModel,
    JsonObject,
};
use crate::laws::notes::{is_text_of, lemma_same_host, same_host};
use crate::laws::{refers_to, refers_to_nothing, refuses, says, says_nothing, Properties};
use crate::note_ingest::NoteLookup;
use crate::text::{
    decimal_text, digits_value, eq_ignore_ascii_case, first_stop, i64_to_text, integer_text,
    natural_to_text, parse_i64, parse_u64, unsigned_value,
};

verus! {

/// A JSON value holds what it was made of.
pub proof fn law_values_hold_what_they_were_made_of(value: Json)
    ensures
        match value {
            Json::Null => value@ is Null,
            Json::Bool(b) => value@ == JsonModel::Bool(b),
            Json::Int(n) => value@ == JsonModel::Int(n as int),
            Json::Decimal(s) => value@ == JsonModel::Decimal(s@),
            Json::Str(s) => value@ == JsonModel::Str(s@),
            Json::Array(items) => value@ matches JsonModel::Array(models) && models.len()
                == items@.len() && (forall|i: int|
                0 <= i < models.len() ==> #[trigger] models[i] == items@[i]@),
            Json::Object(object) => value@ == JsonModel::Object(object@),
        },
{
    if let Json::Array(items) = value {
        lemma_items_model(items@);
    }
}

/// Whether one of the entries has a key.
pub open spec fn has_key(entries: Seq<(String, Json)>, key: Seq<char>) -> bool {
    exists|i: int| 0 <= i < entries.len() && (#[trigger] entries[i]).0@ == key
}

/// Whether an entry is the last with a key.
pub open spec fn is_last_of(entries: Seq<(String, Json)>, i: int, key: Seq<char>) -> bool {
    &&& 0 <= i < entries.len()
    &&& entries[i].0@ == key
    &&& forall|j: int| i < j < entries.len() ==> (#[trigger] entries[j]).0@ != key
}

proof fn lemma_keys(entries: Seq<(String, Json)>, key: Seq<char>)
    ensures
        entries_model(entries).dom().contains(key) <==> has_key(entries, key),
    decreases entries.len(),
{
    if entries.len() > 0 {
        let init = entries.drop_last();
        lemma_keys(init, key);
        if has_key(init, key) {
            let i = choose|i: int| 0 <= i < init.len() && (#[trigger] init[i]).0@ == key;
            assert(entries[i].0@ == key);
        }
        if entries.last().0@ == key {
            assert(entries[entries.len() - 1].0@ == key);
        } else if has_key(entries, key) {
            let i = choose|i: int| 0 <= i < entries.len() && (#[trigger] entries[i]).0@ == key;
            assert(init[i].0@ == key);
        }
    }
}

proof fn lemma_last_of(entries: Seq<(String, Json)>, i: int, key: Seq<char>)
    requires
        is_last_of(entries, i, key),
    ensures
        entries_model(entries)[key] == entries[i].1@,
    decreases entries.len(),
{
    let init = entries.drop_last();
    if i < init.len() {
        assert(entries[entries.len() - 1].0@ != key);
        assert forall|j: int| i < j < init.len() implies (#[trigger] init[j]).0@ != key by {
            assert(init[j] == entries[j]);
        }
        lemma_last_of(init, i, key);
    }
}

/// An object has the properties that were set, each with the value it was set
/// to last.
pub proof fn law_objects_hold_what_was_set_last(object: JsonObject, key: Seq<char>, i: int)
    ensures
        object@.dom().contains(key) <==> has_key(object.entries@, key),
        is_last_of(object.entries@, i, key) ==> object@[key] == object.entries@[i].1@,
{
    lemma_keys(object.entries@, key);
    if is_last_of(object.entries@, i, key) {
        lemma_last_of(object.entries@, i, key);
    }
}

/// Setting a property gives it that value and leaves all others.
pub proof fn law_properties_are_set(object: &mut JsonObject, key: &str, value: Json)
    requires
        call_ensures(JsonObject::insert, (object, key, value), ()),
    ensures
        final(object)@.dom().contains(key@),
        final(object)@[key@] == value@,
        forall|other: Seq<char>|
            other != key@ ==> (#[trigger] final(object)@.dom().contains(other) == old(
                object,
            )@.dom().contains(other)),
        forall|other: Seq<char>|
            other != key@ && old(object)@.dom().contains(other) ==> #[trigger] final(object)@[other]
                == old(object)@[other],
{
}

/// A property is read as what it is.
pub proof fn law_properties_are_read(
    object: &JsonObject,
    key: &str,
    value: Option<&Json>,
    text: Option<&String>,
    flag: bool,
    inner: Option<&JsonObject>,
    owned: Option<String>,
    filled: String,
    reference: Option<&String>,
)
    requires
        call_ensures(JsonObject::get, (object, key), value),
        call_ensures(JsonObject::get_text, (object, key), text),
        call_ensures(JsonObject::get_flag, (object, key), flag),
        call_ensures(JsonObject::get_object, (object, key), inner),
        call_ensures(optional_string, (object, key), owned),
        call_ensures(string_or_empty, (object, key), filled),
        call_ensures(object_reference_uri, (object, key), reference),
    ensures
        value is Some <==> object@.dom().contains(key@),
        value matches Some(v) ==> object@[key@] == v@,
        match text {
            Some(s) => says(object@, key@, s@),
            None => says_nothing(object@, key@),
        },
        flag <==> object@.dom().contains(key@) && object@[key@] == JsonModel::Bool(true),
        match inner {
            Some(o) => object@.dom().contains(key@) && object@[key@] == JsonModel::Object(o@),
            None => object@.dom().contains(key@) ==> !(object@[key@] is Object),
        },
        match owned {
            Some(s) => says(object@, key@, s@),
            None => says_nothing(object@, key@),
        },
        is_text_of(object@, key@, filled@),
        match reference {
            Some(uri) => refers_to(object@, key@, uri@),
            None => refers_to_nothing(object@, key@),
        },
{
    if reference is None {
        assert forall|uri: Seq<char>| !#[trigger] refers_to(object@, key@, uri) by {}
    }
}

proof fn lemma_texts_of(items: Seq<JsonModel>)
    ensures
        texts_of(items) == items.filter(|v: JsonModel| v is Str).map_values(
            |v: JsonModel| v->Str_0,
        ),
    decreases items.len(),
{
    reveal(Seq::filter);
    let is_text = |v: JsonModel| v is Str;
    if items.len() > 0 {
        lemma_texts_of(items.drop_last());
    }
    assert(texts_of(items) =~= items.filter(is_text).map_values(|v: JsonModel| v->Str_0));
}

/// A property lists the texts of its list, all and in order, or the one text
/// that it is.
pub proof fn law_listed_texts_are_read(object: &JsonObject, key: &str, r: Vec<String>)
    requires
        call_ensures(string_array_prop, (object, key), r),
    ensures
        !object@.dom().contains(key@) ==> r@.len() == 0,
        object@.dom().contains(key@) ==> (match object@[key@] {
            JsonModel::Str(s) => r@.len() == 1 && r@[0]@ == s,
            JsonModel::Array(items) => {
                let texts = items.filter(|v: JsonModel| v is Str);
                &&& r@.len() == texts.len()
                &&& forall|k: int|
                    0 <= k < r@.len() ==> JsonModel::Str((#[trigger] r@[k])@) == texts[k]
            },
            _ => r@.len() == 0,
        }),
{
    let views = string_views(r@);
    assert(views.len() == r@.len());
    assert(forall|k: int| 0 <= k < r@.len() ==> views[k] == (#[trigger] r@[k])@);
    if object@.dom().contains(key@) {
        if let JsonModel::Array(items) = object@[key@] {
            lemma_texts_of(items);
            let texts = items.filter(|v: JsonModel| v is Str);
            assert forall|k: int| 0 <= k < r@.len() implies JsonModel::Str((#[trigger] r@[k])@)
                == texts[k] by {
                assert(views[k] == texts[k]->Str_0);
                lemma_filtered_are_texts(items, k);
            }
        }
    }
}

proof fn lemma_filtered_are_texts(items: Seq<JsonModel>, k: int)
    requires
        0 <= k < items.filter(|v: JsonModel| v is Str).len(),
    ensures
        items.filter(|v: JsonModel| v is Str)[k] is Str,
    decreases items.len(),
{
    reveal(Seq::filter);
    let is_text = |v: JsonModel| v is Str;
    if items.len() > 0 {
        let rest = items.drop_last().filter(is_text);
        if k < rest.len() {
            lemma_filtered_are_texts(items.drop_last(), k);
        }
    }
}

/// A list of texts holds them all, in order.
pub proof fn law_texts_are_listed(items: &[String], r: Json)
    requires
        call_ensures(string_array, (items,), r),
    ensures
        r@ matches JsonModel::Array(models) && models.len() == items@.len() && (forall|i: int|
            0 <= i < models.len() ==> #[trigger] models[i] == JsonModel::Str(items@[i]@)),
{
    let views = string_views(items@);
    assert(views.len() == items@.len());
    let models = views.map_values(|s: Seq<char>| JsonModel::Str(s));
    assert forall|i: int| 0 <= i < models.len() implies #[trigger] models[i] == JsonModel::Str(
        items@[i]@,
    ) by {
        assert(views[i] == items@[i]@);
    }
}

/// Two texts are the same up to case where they are so letter by letter.
pub proof fn law_case_is_ignored_letter_by_letter(a: &str, b: &str, r: bool)
    requires
        call_ensures(eq_ignore_ascii_case, (a, b), r),
    ensures
        r == same_host(a@, b@),
{
    lemma_same_host(a@, b@);
}

/// The digit of a number below ten.
pub open spec fn digit(d: int) -> char {
    ('0' as int + d) as char
}

/// A number is written digit by digit: one below ten is its digit, and ten
/// times a number and a digit is that number followed by that digit.
pub proof fn law_numbers_are_written_digit_by_digit(n: nat, d: nat)
    requires
        d < 10,
    ensures
        decimal_text(d) == seq![digit(d as int)],
        n > 0 ==> decimal_text(10 * n + d) == decimal_text(n).push(digit(d as int)),
        integer_text(n as int) == decimal_text(n),
        n > 0 ==> integer_text(-(n as int)) == seq!['-'] + decimal_text(n),
{
    if n > 0 {
        assert((10 * n + d) / 10 == n && (10 * n + d) % 10 == d);
    }
}

/// A number is read digit by digit: a digit is its number, and what is
/// followed by a digit is ten times as much and that digit. What is not a row
/// of digits is no number.
pub proof fn law_numbers_are_read_digit_by_digit(s: Seq<char>, d: nat)
    requires
        d < 10,
    ensures
        unsigned_value(seq![digit(d as int)]) == Some(d as int),
        unsigned_value(s) matches Some(n) ==> unsigned_value(s.push(digit(d as int))) == Some(
            10 * n + d,
        ),
        unsigned_value(s) is Some <==> s.len() > 0 && (forall|i: int|
            0 <= i < s.len() ==> '0' <= #[trigger] s[i] <= '9'),
{
    let one = seq![digit(d as int)];
    assert(one.drop_last() =~= Seq::<char>::empty());
    assert(digits_value(one.drop_last()) == 0);
    assert(crate::text::is_digit(one[0]));
    assert(one.last() == digit(d as int));
    assert(digits_value(one) == d);
    let more = s.push(digit(d as int));
    assert(more.drop_last() =~= s);
    assert(more.last() == digit(d as int));
    if unsigned_value(s) is Some {
        assert forall|i: int| 0 <= i < more.len() implies crate::text::is_digit(
            #[trigger] more[i],
        ) by {
            if i < s.len() {
                assert(crate::text::is_digit(s[i]));
            }
        }
    }
    if s.len() > 0 && (forall|i: int| 0 <= i < s.len() ==> '0' <= #[trigger] s[i] <= '9') {
        assert forall|i: int| 0 <= i < s.len() implies crate::text::is_digit(#[trigger] s[i]) by {}
    }
    if unsigned_value(s) is Some {
        assert forall|i: int| 0 <= i < s.len() implies '0' <= #[trigger] s[i] <= '9' by {
            assert(crate::text::is_digit(s[i]));
        }
    }
}

/// A number is read with its sign, where it is one and fits: a plus or none
/// for what is not negative, a minus only where negative numbers fit.
pub proof fn law_numbers_are_read_with_their_sign(
    s: &str,
    signed: Option<i64>,
    unsigned: Option<u64>,
)
    requires
        call_ensures(parse_i64, (s,), signed),
        call_ensures(parse_u64, (s,), unsigned),
    ensures
        ({
            let minus = s@.len() > 0 && s@[0] == '-';
            let plus = s@.len() > 0 && s@[0] == '+';
            let digits = unsigned_value(
                if plus || minus {
                    s@.skip(1)
                } else {
                    s@
                },
            );
            &&& match digits {
                Some(n) => {
                    let value = if minus {
                        -n
                    } else {
                        n
                    };
                    &&& signed is Some <==> -0x8000_0000_0000_0000 <= value
                        <= 0x7fff_ffff_ffff_ffff
                    &&& signed matches Some(read) ==> read == value
                    &&& unsigned is Some <==> !minus && n <= 0xffff_ffff_ffff_ffff
                    &&& unsigned matches Some(read) ==> read == n
                },
                None => signed is None && unsigned is None,
            }
        }),
{
    if s@.len() > 0 && s@[0] == '-' {
        if unsigned_value(s@) is Some {
            assert(crate::text::is_digit(s@[0]));
        }
    }
}

/// What a number is written as is what was written for it.
pub proof fn law_numbers_are_written(n: u128, text: String, i: i64, signed: String)
    requires
        call_ensures(natural_to_text, (n,), text),
        call_ensures(i64_to_text, (i,), signed),
    ensures
        text@ == decimal_text(n as nat),
        signed@ == integer_text(i as int),
{
}

/// Whether a character ends the host of a URL.
pub open spec fn ends_host(c: char) -> bool {
    c == '/' || c == '?' || c == '#'
}

/// Whether `://` stands at a place.
pub open spec fn scheme_ends_at(url: Seq<char>, i: int) -> bool {
    0 <= i && i + 2 < url.len() && url[i] == ':' && url[i + 1] == '/' && url[i + 2] == '/'
}

/// Whether no `://` stands before a place.
pub open spec fn no_scheme_before(url: Seq<char>, n: int) -> bool {
    forall|i: int| 0 <= i < n ==> !#[trigger] scheme_ends_at(url, i)
}

proof fn lemma_after_scheme(url: Seq<char>, from: int, at: int)
    requires
        0 <= from <= at,
        forall|i: int| from <= i < at ==> !#[trigger] scheme_ends_at(url, i),
        scheme_ends_at(url, at),
    ensures
        after_scheme(url, from) == at + 3,
    decreases at - from,
{
    assert(separator_at(url, from) == scheme_ends_at(url, from));
    if from < at {
        lemma_after_scheme(url, from + 1, at);
    }
}

proof fn lemma_no_scheme(url: Seq<char>, from: int)
    requires
        0 <= from,
        no_scheme_before(url, url.len() as int),
    ensures
        after_scheme(url, from) == 0,
    decreases url.len() - from,
{
    assert(separator_at(url, from) == scheme_ends_at(url, from));
    if from < url.len() {
        lemma_no_scheme(url, from + 1);
    }
}

proof fn lemma_host_end(url: Seq<char>, from: int, end: int)
    requires
        0 <= from <= end <= url.len(),
        forall|i: int| from <= i < end ==> !ends_host(#[trigger] url[i]),
        end < url.len() ==> ends_host(url[end]),
    ensures
        first_stop(url, from, authority_stops()) == end,
    decreases end - from,
{
    if from < end {
        assert(!ends_host(url[from]));
        lemma_host_end(url, from + 1, end);
    }
}

/// The host of a URL is what follows its first `://`, or its start where there
/// is none, up to the next `/`, `?` or `#` or the end.
pub proof fn law_hosts_follow_the_scheme(scheme: Seq<char>, host: Seq<char>, rest: Seq<char>)
    requires
        forall|i: int| 0 <= i < host.len() ==> !ends_host(#[trigger] host[i]),
        rest.len() > 0 ==> ends_host(rest[0]),
    ensures
        no_scheme_before(
            scheme + seq![':', '/', '/'] + host + rest,
            scheme.len() as int,
        ) ==> host_of(scheme + seq![':', '/', '/'] + host + rest) == host,
        no_scheme_before(host + rest, (host + rest).len() as int) ==> host_of(host + rest) == host,
{
    let url = scheme + seq![':', '/', '/'] + host + rest;
    let n = scheme.len() as int;
    if no_scheme_before(url, n) {
        assert(scheme_ends_at(url, n));
        lemma_after_scheme(url, 0, n);
        let start = n + 3;
        let end = start + host.len();
        assert forall|i: int| start <= i < end implies !ends_host(#[trigger] url[i]) by {
            assert(url[i] == host[i - start]);
        }
        if rest.len() > 0 {
            assert(url[end] == rest[0]);
        }
        lemma_host_end(url, start, end);
        assert(url.subrange(start, end) =~= host);
    }
    let bare = host + rest;
    if no_scheme_before(bare, bare.len() as int) {
        lemma_no_scheme(bare, 0);
        let end = host.len() as int;
        assert forall|i: int| 0 <= i < end implies !ends_host(#[trigger] bare[i]) by {
            assert(bare[i] == host[i]);
        }
        if rest.len() > 0 {
            assert(bare[end] == rest[0]);
        }
        lemma_host_end(bare, 0, end);
        assert(bare.subrange(0, end) =~= host);
    }
}

/// The host that is read of a URL is its host.
pub proof fn law_hosts_are_read(url: &str, r: &str)
    requires
        call_ensures(host_from_url, (url,), r),
    ensures
        r@ == host_of(url@),
{
}

/// Whether a document is a `Note` with an author.
pub open spec fn is_note_by(document: JsonModel, note: Properties, author: Seq<char>) -> bool {
    &&& document == JsonModel::Object(note)
    &&& says(note, "type"@, "Note"@)
    &&& refers_to(note, "attributedTo"@, author)
}

/// The message for a `Note` that is not from its author's host.
pub open spec fn other_host(note: Seq<char>, author: Seq<char>) -> Seq<char> {
    "Note object 'id' host '"@ + note + "' does not match its 'attributedTo' host '"@ + author
        + "' (origin/authority check failed)"@
}

/// The message for a `Note` that is not from the host it was fetched from.
pub open spec fn other_place(note: Seq<char>, fetched: Seq<char>) -> Seq<char> {
    "Note object 'id' host '"@ + note + "' does not match the fetched url's host '"@ + fetched
        + "' (origin/authority check failed)"@
}

/// A document is taken in where it is a `Note` with an author and, where it
/// has an `id`, that is on the host of the author. Whoever it names as the
/// author is who it is attributed to.
pub proof fn law_documents_come_from_their_author(
    service: &StatusIngestService,
    document: &Json,
    r: Result<DocumentActor, AppError>,
)
    requires
        call_ensures(StatusIngestService::ingest_document, (service, document), r),
    ensures
        match r {
            Ok(next) => {
                &&& is_note_by(document@, next.object@, next.attributed_to@)
                &&& forall|uri: Seq<char>| #[trigger]
                    says(next.object@, "id"@, uri) ==> same_host(
                        host_of(uri),
                        host_of(next.attributed_to@),
                    )
            },
            Err(e) => match document@ {
                JsonModel::Object(note) => {
                    ||| !says(note, "type"@, "Note"@) && refuses(
                        e,
                        422,
                        "ingested document is not a Note"@,
                    )
                    ||| says(note, "type"@, "Note"@) && refers_to_nothing(note, "attributedTo"@)
                        && refuses(
                        e,
                        422,
                        "Note object is missing a required 'attributedTo' property"@,
                    )
                    ||| exists|uri: Seq<char>, author: Seq<char>|
                        is_note_by(document@, note, author) && #[trigger] says(note, "id"@, uri)
                            && !same_host(host_of(uri), #[trigger] host_of(author)) && refuses(
                            e,
                            422,
                            other_host(host_of(uri), host_of(author)),
                        )
                },
                _ => refuses(e, 422, "ingested document must be a JSON object"@),
            },
        },
{
    if let JsonModel::Object(note) = document@ {
        let author = crate::json::reference_prop(note, "attributedTo"@);
        let uri = crate::json::text_prop(note, "id"@);
        if author is None {
            assert forall|u: Seq<char>| !#[trigger] refers_to(note, "attributedTo"@, u) by {}
        } else if uri is Some {
            lemma_same_host(host_of(uri->0), host_of(author->0));
            assert(says(note, "id"@, uri->0));
            assert(refers_to(note, "attributedTo"@, author->0));
            assert(host_of(author->0) == host_of(author->0));
        }
    }
}

/// A document that was fetched is taken in where any document would be and,
/// where it has an `id`, that is on the host it was fetched from.
pub proof fn law_fetched_documents_come_from_where_they_say(
    service: &StatusIngestService,
    url: &str,
    document: &Json,
    r: Result<DocumentActor, AppError>,
    unfetched: Result<DocumentActor, AppError>,
)
    requires
        call_ensures(StatusIngestService::ingest_url, (service, url, document), r),
        call_ensures(StatusIngestService::ingest_document, (service, document), unfetched),
    ensures
        match r {
            Ok(next) => {
                &&& unfetched is Ok
                &&& is_note_by(document@, next.object@, next.attributed_to@)
                &&& forall|uri: Seq<char>| #[trigger]
                    says(next.object@, "id"@, uri) ==> same_host(host_of(uri), host_of(url@))
                        && same_host(host_of(uri), host_of(next.attributed_to@))
            },
            Err(e) => match unfetched {
                Err(same) => e.kind == same.kind && e.status == same.status && e.public_message@
                    == same.public_message@ && e.tag == same.tag,
                Ok(next) => exists|uri: Seq<char>| #[trigger]
                    says(next.object@, "id"@, uri) && !same_host(host_of(uri), host_of(url@))
                        && refuses(e, 422, other_place(host_of(uri), host_of(url@))),
            },
        },
{
    law_documents_come_from_their_author(service, document, unfetched);
    if let JsonModel::Object(note) = document@ {
        let author = crate::json::reference_prop(note, "attributedTo"@);
        if let Some(uri) = crate::json::text_prop(note, "id"@) {
            lemma_same_host(host_of(uri), host_of(url@));
            assert(says(note, "id"@, uri));
            if author is Some {
                lemma_same_host(host_of(uri), host_of(author->0));
            }
        }
    }
}

/// A fetch succeeded where its code is one of success, and is otherwise a
/// `404` that names the URL and the code.
pub proof fn law_failed_fetches_are_not_found(
    service: &StatusIngestService,
    url: &str,
    code: u16,
    r: Result<(), AppError>,
)
    requires
        call_ensures(StatusIngestService::check_fetch, (service, url, code), r),
    ensures
        r is Ok <==> 200 <= code <= 299,
        r matches Err(e) ==> refuses(
            e,
            404,
            "remote status '"@ + url@ + "' could not be fetched (upstream status "@ + status_line(
                code,
            ) + ")"@,
        ),
{
}

/// A document is looked up by its `id`, as one of the actor that was found for
/// its author; without an `id` it is refused.
pub proof fn law_documents_are_known_by_their_id(
    stage: DocumentActor,
    actor_id: Id,
    r: Result<NoteLookup, AppError>,
)
    requires
        call_ensures(DocumentActor::resolved, (stage, actor_id), r),
    ensures
        match r {
            Ok(next) => says(stage.object@, "id"@, next.uri@) && next.object == stage.object
                && next.actor_id == actor_id,
            Err(e) => says_nothing(stage.object@, "id"@) && refuses(
                e,
                422,
                "Note object is missing a required 'id' property"@,
            ),
        },
{
}

} // verus!
