//! The rows of the statuses core.

use vstd::prelude::*;

use crate::clock::Timestamp;
use crate::domain::{copy_text, Id, Visibility};

verus! {

/// A post or a boost.
#[derive(Debug, PartialEq, Eq)]
pub struct Status {
    pub id: Id,
    pub actor_id: Id,
    pub uri: String,
    pub url: Option<String>,
    pub content: String,
    pub visibility: Visibility,
    pub sensitive: bool,
    pub spoiler_text: String,
    pub in_reply_to_id: Option<Id>,
    pub in_reply_to_account_id: Option<Id>,
    pub reblog_of_id: Option<Id>,
    pub poll_id: Option<Id>,
    pub language: Option<String>,
    pub reblogs_count: i64,
    pub favourites_count: i64,
    pub replies_count: i64,
    pub local: bool,
    pub created_at: Timestamp,
    pub edited_at: Option<Timestamp>,
}

impl Clone for Status {
    fn clone(&self) -> (r: Status)
        ensures
            r == *self,
    {
        Status {
            id: self.id,
            actor_id: self.actor_id,
            uri: self.uri.clone(),
            url: copy_text(&self.url),
            content: self.content.clone(),
            visibility: self.visibility,
            sensitive: self.sensitive,
            spoiler_text: self.spoiler_text.clone(),
            in_reply_to_id: self.in_reply_to_id,
            in_reply_to_account_id: self.in_reply_to_account_id,
            reblog_of_id: self.reblog_of_id,
            poll_id: self.poll_id,
            language: copy_text(&self.language),
            reblogs_count: self.reblogs_count,
            favourites_count: self.favourites_count,
            replies_count: self.replies_count,
            local: self.local,
            created_at: self.created_at,
            edited_at: self.edited_at,
        }
    }
}

/// One version of the editable fields of a status.
#[derive(Debug, PartialEq, Eq)]
pub struct StatusEdit {
    pub status_id: Id,
    pub content: String,
    pub spoiler_text: String,
    pub sensitive: bool,
    pub created_at: Timestamp,
}

/// A poll of a status.
#[derive(Debug, Clone, Copy, PartialEq, Eq, Structural)]
pub struct Poll {
    pub id: Id,
    pub status_id: Id,
    pub expires_at: Option<Timestamp>,
    pub multiple: bool,
}

/// A choice of a poll, addressed by the poll and its index.
#[derive(Debug, PartialEq, Eq)]
pub struct PollOption {
    pub poll_id: Id,
    pub idx: i32,
    pub title: String,
    pub votes_count: i64,
}

impl Clone for PollOption {
    fn clone(&self) -> (r: PollOption)
        ensures
            r == *self,
    {
        PollOption {
            poll_id: self.poll_id,
            idx: self.idx,
            title: self.title.clone(),
            votes_count: self.votes_count,
        }
    }
}

/// One selected choice of one voter.
#[derive(Debug, Clone, Copy, PartialEq, Eq, Structural)]
pub struct PollVote {
    pub poll_id: Id,
    pub actor_id: Id,
    pub choice: i32,
    pub created_at: Timestamp,
}

/// The status that a client-chosen key of an actor was bound to.
#[derive(Debug, PartialEq, Eq)]
pub struct IdempotencyRecord {
    pub actor_id: Id,
    pub key: String,
    pub status_id: Id,
    pub created_at: Timestamp,
}

/// A hashtag.
#[derive(Debug, PartialEq, Eq)]
pub struct Tag {
    pub id: Id,
    pub name: String,
    pub created_at: Timestamp,
}

/// Which counter of a status.
#[derive(Debug, Clone, Copy, PartialEq, Eq, Structural)]
pub enum CountKind {
    Reblogs,
    Favourites,
    Replies,
}

/// A media attachment of a remote status.
#[derive(Debug, PartialEq, Eq)]
pub struct RemoteAttachment {
    pub url: String,
    pub media_type: Option<String>,
    pub description: Option<String>,
}

/// A mention as it was written: the local part and, where given, the domain.
#[derive(Debug, PartialEq, Eq)]
pub struct Mention {
    pub local: String,
    pub domain: Option<String>,
}

/// The text of an optional string.
pub open spec fn text_view(text: Option<String>) -> Option<Seq<char>> {
    match text {
        Some(s) => Some(s@),
        None => None,
    }
}

} // verus!
