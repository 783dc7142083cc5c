//! The changes that handlers and services ask for, in the order they are to
//! be made.

use vstd::prelude::*;

use crate::clock::Timestamp;
use crate::domain::Id;
use crate::model::{CountKind, RemoteAttachment, Status, StatusEdit, Tag};
use crate::notification_sink::NotificationEvent;
use crate::poll_repository::VoteWrite;

verus! {

/// One change to make. None of them sends an Activity: that takes a
/// `DeliveryRequest`, which only what local actors do comes with.
#[derive(Debug, PartialEq, Eq)]
pub enum Effect {
    /// Insert a status row.
    InsertStatus(Status),
    /// Delete a status row.
    DeleteStatus(Id),
    /// Add `delta` to a counter of a status.
    AdjustCounts { status_id: Id, kind: CountKind, delta: i64 },
    /// Archive the editable fields of a status under a row id of their own
    /// and replace them.
    ApplyEdit { row_id: Id, edit: StatusEdit, at: Timestamp },
    /// Insert the tag unless its name is known, and attach it to the status.
    AssociateTag { status_id: Id, tag: Tag },
    /// Record whom a status mentions.
    InsertMentions { status_id: Id, actor_ids: Vec<Id> },
    /// Record the attachments of a remote status.
    InsertAttachments { status_id: Id, attachments: Vec<RemoteAttachment> },
    /// Change the rows of a poll.
    Vote(VoteWrite),
    /// Insert a bookmark row unless the pair is known.
    AddBookmark { id: Id, actor_id: Id, status_id: Id, at: Timestamp },
    /// Delete a bookmark row.
    RemoveBookmark { actor_id: Id, status_id: Id },
    /// Insert or delete a pin row.
    SetPin { actor_id: Id, status_id: Id, pinned: bool, at: Timestamp },
    /// Tell an account.
    Emit(NotificationEvent),
}

/// What came of handling an inbound Activity.
#[derive(Debug, Clone, Copy, PartialEq, Eq, Structural)]
pub enum HandleOutcome {
    Handled,
    Ignored,
}

/// The end of a handler: the changes to make, then the outcome.
#[derive(Debug, PartialEq, Eq)]
pub struct Plan {
    pub effects: Vec<Effect>,
    pub outcome: HandleOutcome,
}

/// Either the outcome, or what has to be asked next.
#[derive(Debug, PartialEq, Eq)]
pub enum Step<N> {
    Done(HandleOutcome),
    Next(N),
}

/// An id and the time it was drawn at.
#[derive(Debug, Clone, Copy, PartialEq, Eq, Structural)]
pub struct Fresh {
    pub id: Id,
    pub now: Timestamp,
}

/// Whether a status is a boost: an empty post that points at its target and
/// shares its visibility.
pub open spec fn is_boost(
    status: Status,
    fresh: Fresh,
    actor_id: Id,
    uri: Seq<char>,
    url: Option<Seq<char>>,
    target: Status,
    local: bool,
) -> bool {
    &&& status.id == fresh.id
    &&& status.actor_id == actor_id
    &&& status.uri@ == uri
    &&& crate::model::text_view(status.url) == url
    &&& status.content@.len() == 0
    &&& status.visibility == target.visibility
    &&& !status.sensitive
    &&& status.spoiler_text@.len() == 0
    &&& status.in_reply_to_id is None
    &&& status.in_reply_to_account_id is None
    &&& status.reblog_of_id == Some(target.id)
    &&& status.poll_id is None
    &&& status.language is None
    &&& status.reblogs_count == 0
    &&& status.favourites_count == 0
    &&& status.replies_count == 0
    &&& status.local == local
    &&& status.created_at == fresh.now
    &&& status.edited_at is None
}

/// The boost of a status.
pub fn boost_of(
    target: &Status,
    fresh: Fresh,
    actor_id: Id,
    uri: &str,
    url: Option<String>,
    local: bool,
) -> (r: Status)
    ensures
        is_boost(r, fresh, actor_id, uri@, crate::model::text_view(url), *target, local),
{
    Status {
        id: fresh.id,
        actor_id,
        uri: uri.to_owned(),
        url,
        content: String::new(),
        visibility: target.visibility,
        sensitive: false,
        spoiler_text: String::new(),
        in_reply_to_id: None,
        in_reply_to_account_id: None,
        reblog_of_id: Some(target.id),
        poll_id: None,
        language: None,
        reblogs_count: 0,
        favourites_count: 0,
        replies_count: 0,
        local,
        created_at: fresh.now,
        edited_at: None,
    }
}

} // verus!
