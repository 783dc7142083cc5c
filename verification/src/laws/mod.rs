//! What the operations of this crate are for, as statements about their
//! arguments and results.
//!
//! A law takes the arguments of a call and what the call gave, and says what
//! has to hold between them. Nothing that the operations themselves are
//! written with is needed to read it: the words below speak of the values
//! alone.

use vstd::prelude::*;

use crate::clock::Timestamp;
use crate::error::{AppError, ErrorKind};
use crate::json::JsonModel;

pub mod accounts;
pub mod activities;
pub mod addressing;
pub mod documents;
pub mod inbound;
pub mod interactions;
pub mod notes;
pub mod polls;
pub mod requests;
pub mod tables;
pub mod values;

verus! {

/// A JSON object by its properties.
pub type Properties = Map<Seq<char>, JsonModel>;

/// Whether an error blames the caller, with the given status and message and
/// no mark.
pub open spec fn refuses(e: AppError, status: int, message: Seq<char>) -> bool {
    &&& e.kind == ErrorKind::Client
    &&& e.status == status
    &&& e.public_message@ == message
    &&& e.tag is None
}

/// Whether a property is the given text.
pub open spec fn says(object: Properties, key: Seq<char>, text: Seq<char>) -> bool {
    object.dom().contains(key) && object[key] == JsonModel::Str(text)
}

/// Whether a property is no text, or not there.
pub open spec fn says_nothing(object: Properties, key: Seq<char>) -> bool {
    object.dom().contains(key) ==> !(object[key] is Str)
}

/// Whether a property is a list of the one given text.
pub open spec fn lists_only(object: Properties, key: Seq<char>, text: Seq<char>) -> bool {
    &&& object.dom().contains(key)
    &&& object[key] matches JsonModel::Array(items) && items.len() == 1 && items[0]
        == JsonModel::Str(text)
}

/// Whether a property is a list of the given texts, in order.
pub open spec fn lists(object: Properties, key: Seq<char>, texts: Seq<String>) -> bool {
    &&& object.dom().contains(key)
    &&& object[key] matches JsonModel::Array(items) && items.len() == texts.len() && (forall|i: int|
        0 <= i < texts.len() ==> #[trigger] items[i] == JsonModel::Str(texts[i]@))
}

/// Whether a property refers to the given URI: by being it, or by being an
/// object with that `id`.
pub open spec fn refers_to(object: Properties, key: Seq<char>, uri: Seq<char>) -> bool {
    ||| says(object, key, uri)
    ||| object.dom().contains(key) && (object[key] matches JsonModel::Object(inner) && says(
        inner,
        "id"@,
        uri,
    ))
}

/// Whether a property refers to nothing.
pub open spec fn refers_to_nothing(object: Properties, key: Seq<char>) -> bool {
    forall|uri: Seq<char>| !#[trigger] refers_to(object, key, uri)
}

/// Nanoseconds since 1970-01-01T00:00:00Z.
pub open spec fn nanos(at: Timestamp) -> int {
    at.local() - at.offset() * 1000000000
}

} // verus!
