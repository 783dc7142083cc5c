//! What a notification says, and the sink that drops it.

use vstd::prelude::*;

use crate::clock::Timestamp;
use crate::domain::{AccountRef, Id};
use crate::error::AppError;

verus! {

/// What a notification is about.
#[derive(Debug, Clone, Copy, PartialEq, Eq, Structural)]
pub enum NotificationType {
    Mention,
    Follow,
    FollowRequest,
    Favourite,
    Reblog,
    Poll,
    Status,
    Update,
}

/// Something an account is told of.
#[derive(Debug, Clone, Copy, PartialEq, Eq, Structural)]
pub struct NotificationEvent {
    pub recipient: AccountRef,
    pub origin: AccountRef,
    pub kind: NotificationType,
    pub target_status_id: Option<Id>,
    pub occurred_at: Timestamp,
}

/// The sink that accepts every event and does nothing with it.
#[derive(Debug, Clone, Copy, Default)]
pub struct NoopSink;

impl NoopSink {
    pub fn emit(&self, event: NotificationEvent) -> (r: Result<(), AppError>)
        ensures
            r is Ok,
    {
        Ok(())
    }
}

} // verus!
