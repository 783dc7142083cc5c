//! Taking in a remote `Note` that was fetched rather than delivered: by its
//! URL, or as a document that is at hand.

use vstd::prelude::*;

use axum::http::StatusCode;

use crate::domain::Id;
use crate::error::{malformed, AppError, NOT_FOUND, UNPROCESSABLE_ENTITY};
use crate::json::{object_reference_uri, reference_prop, text_prop, Json, JsonModel, JsonObject};
use crate::note_ingest::{ingest_note_object, NoteLookup};
use crate::text::{
    chars_of, eq_ignore_ascii_case, first_stop, joined, same_ignoring_ascii_case,
};

verus! {

/// Whether `://` starts at `i`.
pub open spec fn separator_at(url: Seq<char>, i: int) -> bool {
    &&& 0 <= i
    &&& i + 3 <= url.len()
    &&& url[i] == ':'
    &&& url[i + 1] == '/'
    &&& url[i + 2] == '/'
}

/// Where the part after the first `://` starts, looking from `from` on; 0
/// where there is none.
pub open spec fn after_scheme(url: Seq<char>, from: int) -> int
    decreases url.len() - from,
{
    if from >= url.len() {
        0
    } else if separator_at(url, from) {
        from + 3
    } else {
        after_scheme(url, from + 1)
    }
}

/// The characters that end the authority part of a URL.
pub open spec fn authority_stops() -> Set<char> {
    set!['/', '?', '#']
}

/// The host, with its port where it names one: what stands between the
/// first `://`, or the start, and the next `/`, `?` or `#`.
pub open spec fn host_of(url: Seq<char>) -> Seq<char> {
    let start = after_scheme(url, 0);
    url.subrange(start, first_stop(url, start, authority_stops()))
}

fn find_after_scheme(chars: &Vec<char>) -> (r: usize)
    ensures
        r == after_scheme(chars@, 0),
        r <= chars.len(),
{
    let n: usize = chars.len();
    let mut i: usize = 0;
    while i < n
        invariant
            n == chars.len(),
            i <= n,
            after_scheme(chars@, 0) == after_scheme(chars@, i as int),
        decreases n - i,
    {
        if n - i >= 3 && chars[i] == ':' && chars[i + 1] == '/' && chars[i + 2] == '/' {
            return i + 3;
        }
        i += 1;
    }
    0
}

/// The host of a URL, with its port where it names one.
pub fn host_from_url(url: &str) -> (r: &str)
    ensures
        r@ == host_of(url@),
{
    let chars: Vec<char> = chars_of(url);
    let n: usize = chars.len();
    let start: usize = find_after_scheme(&chars);
    let mut end: usize = start;
    while end < n && chars[end] != '/' && chars[end] != '?' && chars[end] != '#'
        invariant
            n == chars.len(),
            start <= end <= n,
            chars@ == url@,
            first_stop(url@, start as int, authority_stops()) == first_stop(
                url@,
                end as int,
                authority_stops(),
            ),
        decreases n - end,
    {
        end += 1;
    }
    url.substring_char(start, end)
}

/// The text of an HTTP status code, as `http::StatusCode` displays it.
pub uninterp spec fn status_line(code: u16) -> Seq<char>;

/// Displays an HTTP status code with `axum::http::StatusCode`.
///
/// Trusted: the text is a function of the code, and every code of three
/// digits has one.
#[verifier::external_body]
fn display_status(code: u16) -> (r: String)
    requires
        100 <= code < 1000,
    ensures
        r@ == status_line(code),
{
    StatusCode::from_u16(code).expect("a status code has three digits").to_string()
}

/// Whether a response code says that the request succeeded.
pub open spec fn is_success(code: u16) -> bool {
    200 <= code < 300
}

/// The message for a status that could not be fetched.
pub open spec fn unfetched_message(url: Seq<char>, code: u16) -> Seq<char> {
    "remote status '"@ + url + "' could not be fetched (upstream status "@ + status_line(code)
        + ")"@
}

/// The message for a `Note` whose `id` and author are on different hosts.
pub open spec fn author_mismatch_message(
    document_host: Seq<char>,
    attributed_to_host: Seq<char>,
) -> Seq<char> {
    "Note object 'id' host '"@ + document_host + "' does not match its 'attributedTo' host '"@
        + attributed_to_host + "' (origin/authority check failed)"@
}

/// The message for a `Note` that was fetched from another host than its
/// `id` names.
pub open spec fn fetch_mismatch_message(document_host: Seq<char>, fetched_host: Seq<char>) -> Seq<
    char,
> {
    "Note object 'id' host '"@ + document_host + "' does not match the fetched url's host '"@
        + fetched_host + "' (origin/authority check failed)"@
}

/// Takes in `Note`s from outside the inbound dispatch.
#[derive(Debug, PartialEq, Eq)]
pub struct StatusIngestService {
    /// The domain of this instance.
    pub domain: String,
}

/// Asks for the id of the actor with the URI `attributed_to`.
#[derive(Debug, PartialEq, Eq)]
pub struct DocumentActor<'a> {
    pub object: &'a JsonObject,
    pub attributed_to: &'a String,
}

/// Why a document is not taken in: the message of the `422`, or `None`
/// where it may be attributed to the actor that it names.
pub open spec fn document_refusal(document: JsonModel) -> Option<Seq<char>> {
    match document {
        JsonModel::Object(object) => if text_prop(object, "type"@) != Some("Note"@) {
            Some("ingested document is not a Note"@)
        } else {
            match reference_prop(object, "attributedTo"@) {
                None => Some("Note object is missing a required 'attributedTo' property"@),
                Some(author) => match text_prop(object, "id"@) {
                    Some(uri) => if same_ignoring_ascii_case(host_of(uri), host_of(author)) {
                        None
                    } else {
                        Some(author_mismatch_message(host_of(uri), host_of(author)))
                    },
                    None => None,
                },
            }
        },
        _ => Some("ingested document must be a JSON object"@),
    }
}

/// Why a document that was fetched from `url` is not taken in: besides what
/// holds of every document, its `id` has to be on the host it came from.
pub open spec fn fetched_refusal(url: Seq<char>, document: JsonModel) -> Option<Seq<char>> {
    match document_refusal(document) {
        Some(message) => Some(message),
        None => match document {
            JsonModel::Object(object) => match text_prop(object, "id"@) {
                Some(uri) => if same_ignoring_ascii_case(host_of(uri), host_of(url)) {
                    None
                } else {
                    Some(fetch_mismatch_message(host_of(uri), host_of(url)))
                },
                None => None,
            },
            _ => None,
        },
    }
}

impl StatusIngestService {
    pub fn new(domain: &str) -> (r: StatusIngestService)
        ensures
            r.domain@ == domain@,
    {
        StatusIngestService { domain: domain.to_owned() }
    }

    /// A fetch that did not succeed is a `404` to the caller.
    pub fn check_fetch(&self, url: &str, code: u16) -> (r: Result<(), AppError>)
        requires
            100 <= code < 1000,
        ensures
            if is_success(code) {
                r is Ok
            } else {
                r matches Err(e) && e.is_client(NOT_FOUND, unfetched_message(url@, code))
            },
    {
        if 200 <= code && code < 300 {
            return Ok(());
        }
        let mut message: String = joined("remote status '", url);
        message.append("' could not be fetched (upstream status ");
        message.append(display_status(code).as_str());
        message.append(")");
        Err(AppError::client(NOT_FOUND, message))
    }

    /// Decides on the document that was fetched from `url`.
    pub fn ingest_url<'a>(&self, url: &str, document: &'a Json) -> (r: Result<
        DocumentActor<'a>,
        AppError,
    >)
        ensures
            match fetched_refusal(url@, document@) {
                Some(message) => r matches Err(e) && e.is_client(UNPROCESSABLE_ENTITY, message),
                None => r matches Ok(next) && document@ == JsonModel::Object(next.object@)
                    && reference_prop(next.object@, "attributedTo"@) == Some(
                    next.attributed_to@,
                ),
            },
    {
        let next: DocumentActor<'a> = match self.ingest_document(document) {
            Ok(next) => next,
            Err(e) => {
                return Err(e);
            },
        };
        if let Some(uri) = next.object.get_text("id") {
            let document_host: &str = host_from_url(uri.as_str());
            let fetched_host: &str = host_from_url(url);
            if !eq_ignore_ascii_case(document_host, fetched_host) {
                let mut message: String = joined("Note object 'id' host '", document_host);
                message.append("' does not match the fetched url's host '");
                message.append(fetched_host);
                message.append("' (origin/authority check failed)");
                return Err(malformed(message.as_str()));
            }
        }
        Ok(next)
    }

    /// Decides on a document: only a `Note` whose `id` is on the host of its
    /// author may be attributed to that author.
    pub fn ingest_document<'a>(&self, document: &'a Json) -> (r: Result<
        DocumentActor<'a>,
        AppError,
    >)
        ensures
            match document_refusal(document@) {
                Some(message) => r matches Err(e) && e.is_client(UNPROCESSABLE_ENTITY, message),
                None => r matches Ok(next) && document@ == JsonModel::Object(next.object@)
                    && reference_prop(next.object@, "attributedTo"@) == Some(
                    next.attributed_to@,
                ),
            },
    {
        let object: &'a JsonObject = match document {
            Json::Object(object) => object,
            _ => {
                return Err(malformed("ingested document must be a JSON object"));
            },
        };
        if !object.has_text("type", "Note") {
            return Err(malformed("ingested document is not a Note"));
        }
        let attributed_to: &'a String = match object_reference_uri(object, "attributedTo") {
            Some(uri) => uri,
            None => {
                return Err(
                    malformed("Note object is missing a required 'attributedTo' property"),
                );
            },
        };
        if let Some(uri) = object.get_text("id") {
            let document_host: &str = host_from_url(uri.as_str());
            let attributed_to_host: &str = host_from_url(attributed_to.as_str());
            if !eq_ignore_ascii_case(document_host, attributed_to_host) {
                let mut message: String = joined("Note object 'id' host '", document_host);
                message.append("' does not match its 'attributedTo' host '");
                message.append(attributed_to_host);
                message.append("' (origin/authority check failed)");
                return Err(malformed(message.as_str()));
            }
        }
        Ok(DocumentActor { object, attributed_to })
    }
}

impl<'a> DocumentActor<'a> {
    /// Takes the `Note` in as one of the resolved actor, exactly as an
    /// inbound `Create` of it would be.
    pub fn resolved(self, actor_id: Id) -> (r: Result<NoteLookup<'a>, AppError>)
        ensures
            match text_prop(self.object@, "id"@) {
                Some(uri) => r matches Ok(next) && next.uri@ == uri && next.object == self.object
                    && next.actor_id == actor_id,
                None => r matches Err(e) && e.is_client(
                    UNPROCESSABLE_ENTITY,
                    "Note object is missing a required 'id' property"@,
                ),
            },
    {
        ingest_note_object(self.object, actor_id)
    }
}

/// A document that is taken in after a fetch names the host that it was
/// fetched from as the host of its author.
pub proof fn law_fetched_notes_vouch_only_for_their_own_host(url: Seq<char>, document: JsonModel)
    requires
        fetched_refusal(url, document) is None,
        document matches JsonModel::Object(object) && text_prop(object, "id"@) is Some,
    ensures
        same_ignoring_ascii_case(
            host_of(url),
            host_of(reference_prop(document->Object_0, "attributedTo"@)->0),
        ),
{
    let object = document->Object_0;
    let id_host = host_of(text_prop(object, "id"@)->0);
    let author_host = host_of(reference_prop(object, "attributedTo"@)->0);
    let fetched = host_of(url);
    assert forall|i: int| 0 <= i < fetched.len() implies crate::text::ascii_lower(
        #[trigger] fetched[i],
    ) == crate::text::ascii_lower(author_host[i]) by {
        assert(crate::text::ascii_lower(id_host[i]) == crate::text::ascii_lower(fetched[i]));
        assert(crate::text::ascii_lower(id_host[i]) == crate::text::ascii_lower(author_host[i]));
    }
}

} // verus!
