//! What local actors do with statuses: boosting, favouriting, bookmarking
//! and pinning.
//!
//! As with the inbound handlers, each stage names what has to be read or
//! recorded next, and the answer gives the next stage or the changes to make.

use vstd::prelude::*;

use crate::activity_builder::{
    announce_activity, like_activity, undo_activity, undone_activity, DeliveryRequest,
    StatusActivityBuilder, UndoKind,
};
use crate::addressing::{
    addressed_cc, addressed_to, derive_addressing, derive_recipients,
    reaches_followers, ActorRef, Addressing,
};
use crate::clock::Timestamp;
use crate::domain::{AccountRef, Handle, Id, Recipient, Visibility};
use crate::effects::{boost_of, is_boost, Effect, Fresh};
use crate::error::{not_found, rejected, AppError, ErrorKind, NOT_FOUND, UNPROCESSABLE_ENTITY};
use crate::json::string_views;
use crate::model::{CountKind, Status};
use crate::notification_sink::{NotificationEvent, NotificationType};
use crate::text::joined;

verus! {

/// The interactions of the instance's own actors.
#[derive(Debug, PartialEq, Eq)]
pub struct InteractionService {
    pub activity_builder: StatusActivityBuilder,
}

/// A status, and the changes to make before it is handed out.
#[derive(Debug, PartialEq, Eq)]
pub struct Applied {
    pub status: Status,
    pub effects: Vec<Effect>,
}

/// Whether an error is the `404` of a status that cannot be seen.
pub open spec fn is_not_found(error: AppError) -> bool {
    error.is_client(NOT_FOUND, "status not found"@)
}

/// Asks whether `target` is visible to `actor_id`.
#[derive(Debug, PartialEq, Eq)]
pub struct ReblogVisible {
    pub actor_id: Id,
    pub target: Status,
}

/// Asks, in a transaction, for a boost of `target` by `actor_id`.
#[derive(Debug, PartialEq, Eq)]
pub struct ReblogDuplicate {
    pub actor_id: Id,
    pub target: Status,
}

/// What a boost request comes to.
#[derive(Debug, PartialEq, Eq)]
pub enum ReblogDecision {
    /// The status is boosted already: hand out that boost, change nothing.
    Existing(Status),
    /// Make the changes in the transaction and commit it, then deliver and
    /// notify.
    New(NewReblog),
}

/// A boost that is to be written.
#[derive(Debug, PartialEq, Eq)]
pub struct NewReblog {
    pub actor_id: Id,
    pub target: Status,
    pub reblog: Status,
}

/// The changes of a new boost: its row, and one more in the target's
/// counter.
pub open spec fn reblog_effects(reblog: Status, target_id: Id) -> Seq<Effect> {
    seq![
        Effect::InsertStatus(reblog),
        Effect::AdjustCounts { status_id: target_id, kind: CountKind::Reblogs, delta: 1 },
    ]
}

/// The notification of an interaction of a local actor.
pub open spec fn local_event(
    recipient: AccountRef,
    kind: NotificationType,
    actor_id: Id,
    target: Status,
    now: Timestamp,
) -> NotificationEvent {
    NotificationEvent {
        recipient,
        origin: AccountRef::Local(actor_id),
        kind,
        target_status_id: Some(target.id),
        occurred_at: now,
    }
}

/// The notification of an interaction, unless the actor interacts with
/// their own status.
pub open spec fn local_notification(
    recipient: AccountRef,
    kind: NotificationType,
    actor_id: Id,
    target: Status,
    now: Timestamp,
) -> Option<NotificationEvent> {
    if actor_id == target.actor_id {
        None
    } else {
        Some(local_event(recipient, kind, actor_id, target, now))
    }
}

fn notification(
    recipient: AccountRef,
    kind: NotificationType,
    actor_id: Id,
    target: &Status,
    now: Timestamp,
) -> (r: Option<NotificationEvent>)
    ensures
        r == local_notification(recipient, kind, actor_id, *target, now),
{
    if actor_id == target.actor_id {
        return None;
    }
    Some(
        NotificationEvent {
            recipient,
            origin: AccountRef::Local(actor_id),
            kind,
            target_status_id: Some(target.id),
            occurred_at: now,
        },
    )
}

/// Where the account of an actor lives, by what came of looking its handle
/// up: a client error means that the actor is not a local one.
pub fn account_ref_for_notification(actor_id: Id, lookup: Result<Handle, AppError>) -> (r: Result<
    AccountRef,
    AppError,
>)
    ensures
        match lookup {
            Ok(_) => r == Ok::<AccountRef, AppError>(AccountRef::Local(actor_id)),
            Err(e) => if e.kind == ErrorKind::Client {
                r == Ok::<AccountRef, AppError>(AccountRef::Remote(actor_id))
            } else {
                r == Err::<AccountRef, AppError>(e)
            },
        },
{
    match lookup {
        Ok(_) => Ok(AccountRef::Local(actor_id)),
        Err(e) => match e.kind {
            ErrorKind::Client => Ok(AccountRef::Remote(actor_id)),
            ErrorKind::Server => Err(e),
        },
    }
}

/// The followers collection of the actor with the given URL.
pub open spec fn followers_uri_of(actor_url: Seq<char>) -> Seq<char> {
    actor_url + "/followers"@
}

/// Whether an addressing is that of a status without mentions.
pub open spec fn is_plain_addressing(
    addressing: Addressing,
    visibility: Visibility,
    followers_uri: Seq<char>,
) -> bool {
    &&& string_views(addressing.to@) == addressed_to(visibility, Seq::empty(), followers_uri)
    &&& string_views(addressing.cc@) == addressed_cc(visibility, Seq::empty(), followers_uri)
    &&& addressing.addresses_followers == reaches_followers(visibility)
}

impl InteractionService {
    pub fn new(activity_builder: StatusActivityBuilder) -> (r: InteractionService)
        ensures
            r.activity_builder == activity_builder,
    {
        InteractionService { activity_builder }
    }

    /// The URL of a local actor.
    pub open spec fn actor_url(self, handle: Handle) -> Seq<char> {
        self.activity_builder.urls.actor_url_of(handle.name@)
    }

    /// Whether `actor` refers to the local actor with the given handle.
    pub open spec fn is_actor_ref(self, actor: ActorRef, handle: Handle) -> bool {
        actor.uri@ == self.actor_url(handle) && actor.recipient == Recipient::Local(handle)
    }

    /// The reference of a local actor.
    pub fn actor_ref_for(&self, handle: &Handle) -> (r: ActorRef)
        ensures
            self.is_actor_ref(r, *handle),
    {
        ActorRef {
            uri: self.activity_builder.urls.actor_url(handle),
            recipient: Recipient::Local(handle.clone()),
        }
    }

    /// The addressing and the recipients of a status without mentions.
    pub fn build_addressing(&self, status: &Status, author: &Handle, followers: &[Recipient]) -> (r:
        (Addressing, Vec<Recipient>))
        ensures
            is_plain_addressing(
                r.0,
                status.visibility,
                followers_uri_of(self.actor_url(*author)),
            ),
            r.1@ == (if reaches_followers(status.visibility) {
                followers@
            } else {
                Seq::empty()
            }),
    {
        let author_url: String = self.activity_builder.urls.actor_url(author);
        let followers_uri: String = joined(author_url.as_str(), "/followers");
        let nobody: Vec<ActorRef> = Vec::new();
        let addressing: Addressing = derive_addressing(
            status,
            nobody.as_slice(),
            followers_uri.as_str(),
        );
        let recipients: Vec<Recipient> = derive_recipients(
            &addressing,
            nobody.as_slice(),
            followers,
        );
        proof {
            assert(crate::addressing::mention_uris(nobody@) =~= Seq::<Seq<char>>::empty());
            assert(recipients@ =~= (if reaches_followers(status.visibility) {
                followers@
            } else {
                Seq::empty()
            }));
        }
        (addressing, recipients)
    }

    /// Begins to boost a status, by what was found for its id.
    pub fn reblog(&self, actor_id: Id, target: Option<Status>) -> (r: Result<
        ReblogVisible,
        AppError,
    >)
        ensures
            match target {
                Some(status) => r == Ok::<ReblogVisible, AppError>(
                    ReblogVisible { actor_id, target: status },
                ),
                None => r matches Err(e) && is_not_found(e),
            },
    {
        match target {
            Some(status) => Ok(ReblogVisible { actor_id, target: status }),
            None => Err(not_found()),
        }
    }

    /// Decides on the boost, by whether there is one already.
    pub fn reblog_checked(
        &self,
        stage: ReblogDuplicate,
        existing: Option<Status>,
        fresh: Fresh,
    ) -> (r: ReblogDecision)
        ensures
            match existing {
                Some(boost) => r == ReblogDecision::Existing(boost),
                None => r matches ReblogDecision::New(new) && new.actor_id == stage.actor_id
                    && new.target == stage.target && ({
                    let uri = self.activity_builder.urls.object_url_of("statuses"@, fresh.id);
                    is_boost(
                        new.reblog,
                        fresh,
                        stage.actor_id,
                        uri,
                        Some(uri),
                        stage.target,
                        true,
                    )
                }),
            },
    {
        match existing {
            Some(boost) => ReblogDecision::Existing(boost),
            None => {
                let uri: String = self.activity_builder.urls.object_url("statuses", fresh.id);
                let reblog: Status = boost_of(
                    &stage.target,
                    fresh,
                    stage.actor_id,
                    uri.as_str(),
                    Some(uri.clone()),
                    true,
                );
                ReblogDecision::New(
                    NewReblog { actor_id: stage.actor_id, target: stage.target, reblog },
                )
            },
        }
    }

    /// The `Announce` of a new boost, to the followers of the booster.
    pub fn reblog_delivery(
        &self,
        new: &NewReblog,
        booster: &Handle,
        followers: &[Recipient],
        fresh: Id,
    ) -> (r: DeliveryRequest)
        requires
            new.reblog.created_at.writable(),
        ensures
            ({
                let followers_uri = followers_uri_of(self.actor_url(*booster));
                let visibility = new.reblog.visibility;
                r.sends(
                    announce_activity(
                        self.activity_builder.activity_url(fresh),
                        self.actor_url(*booster),
                        new.reblog,
                        new.target,
                        addressed_to(visibility, Seq::empty(), followers_uri),
                        addressed_cc(visibility, Seq::empty(), followers_uri),
                    ),
                    *booster,
                    if reaches_followers(visibility) {
                        followers@
                    } else {
                        Seq::empty()
                    },
                )
            }),
    {
        let (addressing, recipients): (Addressing, Vec<Recipient>) = self.build_addressing(
            &new.reblog,
            booster,
            followers,
        );
        self.activity_builder.deliver_announce(
            booster,
            fresh,
            &new.reblog,
            &new.target,
            &addressing,
            recipients,
        )
    }

    /// Begins to take a boost back, by what was found for the id of its
    /// target.
    pub fn unreblog(&self, actor_id: Id, target: Option<Status>) -> (r: Result<
        UnreblogLookup,
        AppError,
    >)
        ensures
            match target {
                Some(status) => r == Ok::<UnreblogLookup, AppError>(
                    UnreblogLookup { actor_id, target: status },
                ),
                None => r matches Err(e) && is_not_found(e),
            },
    {
        match target {
            Some(status) => Ok(UnreblogLookup { actor_id, target: status }),
            None => Err(not_found()),
        }
    }

    /// The `Undo` of an interaction, to the author of its target.
    pub fn undo_delivery(
        &self,
        undone: UndoKind,
        target: &Status,
        actor: &Handle,
        author: &Handle,
        inner_fresh: Id,
        fresh: Id,
    ) -> (r: DeliveryRequest)
        ensures
            r.sends(
                undo_activity(
                    self.activity_builder.activity_url(fresh),
                    self.actor_url(*actor),
                    undone_activity(
                        self.activity_builder.activity_url(inner_fresh),
                        self.actor_url(*actor),
                        undone,
                        *target,
                    ),
                    self.actor_url(*author),
                ),
                *actor,
                seq![Recipient::Local(*author)],
            ),
    {
        let recipient: ActorRef = self.actor_ref_for(author);
        self.activity_builder.deliver_undo(actor, inner_fresh, fresh, undone, target, &recipient)
    }

    /// Begins to favourite a status, by what was found for its id.
    pub fn favourite(&self, actor_id: Id, status_id: Id, target: Option<Status>) -> (r: Result<
        FavouriteVisible,
        AppError,
    >)
        ensures
            match target {
                Some(status) => r == Ok::<FavouriteVisible, AppError>(
                    FavouriteVisible { actor_id, status_id, target: status },
                ),
                None => r matches Err(e) && is_not_found(e),
            },
    {
        match target {
            Some(status) => Ok(FavouriteVisible { actor_id, status_id, target: status }),
            None => Err(not_found()),
        }
    }

    /// The `Like` of a favourite, to the author of its target.
    pub fn favourite_delivery(
        &self,
        new: &NewFavourite,
        fan: &Handle,
        author: &Handle,
        fresh: Id,
    ) -> (r: DeliveryRequest)
        ensures
            r.sends(
                like_activity(
                    self.activity_builder.activity_url(fresh),
                    self.actor_url(*fan),
                    new.target,
                    self.actor_url(*author),
                ),
                *fan,
                seq![Recipient::Local(*author)],
            ),
    {
        let recipient: ActorRef = self.actor_ref_for(author);
        self.activity_builder.deliver_like(fan, fresh, &new.target, &recipient)
    }

    /// Begins to take a favourite back, by what was found for the id of its
    /// target. No visibility is asked for.
    pub fn unfavourite(&self, actor_id: Id, status_id: Id, target: Option<Status>) -> (r: Result<
        UnfavouriteRecord,
        AppError,
    >)
        ensures
            match target {
                Some(status) => r == Ok::<UnfavouriteRecord, AppError>(
                    UnfavouriteRecord { actor_id, status_id, target: status },
                ),
                None => r matches Err(e) && is_not_found(e),
            },
    {
        match target {
            Some(status) => Ok(UnfavouriteRecord { actor_id, status_id, target: status }),
            None => Err(not_found()),
        }
    }

    /// Sets or takes back a bookmark, by what was found for the id of the
    /// status. Only setting one asks for visibility.
    pub fn bookmark(&self, actor_id: Id, status_id: Id, on: bool, target: Option<Status>) -> (r:
        Result<BookmarkStep, AppError>)
        ensures
            match target {
                Some(status) => if on {
                    r == Ok::<BookmarkStep, AppError>(
                        BookmarkStep::CheckVisible(
                            BookmarkVisible { actor_id, status_id, target: status },
                        ),
                    )
                } else {
                    r matches Ok(BookmarkStep::Apply(applied)) && applied.status == status
                        && applied.effects@ == seq![
                        Effect::RemoveBookmark { actor_id, status_id },
                    ]
                },
                None => r matches Err(e) && is_not_found(e),
            },
    {
        match target {
            Some(status) => {
                if on {
                    return Ok(
                        BookmarkStep::CheckVisible(
                            BookmarkVisible { actor_id, status_id, target: status },
                        ),
                    );
                }
                let mut effects: Vec<Effect> = Vec::new();
                effects.push(Effect::RemoveBookmark { actor_id, status_id });
                assert(effects@ =~= seq![Effect::RemoveBookmark { actor_id, status_id }]);
                Ok(BookmarkStep::Apply(Applied { status, effects }))
            },
            None => Err(not_found()),
        }
    }

    /// Pins or unpins a status, by what was found for its id. Only one's own
    /// statuses can be pinned, and no direct ones.
    pub fn pin(
        &self,
        actor_id: Id,
        status_id: Id,
        on: bool,
        target: Option<Status>,
        now: Timestamp,
    ) -> (r: Result<Applied, AppError>)
        ensures
            match target {
                Some(status) => if status.actor_id != actor_id {
                    r matches Err(e) && is_not_found(e)
                } else if on && status.visibility == Visibility::Direct {
                    r matches Err(e) && e.is_client(
                        UNPROCESSABLE_ENTITY,
                        "a direct-visibility status cannot be pinned to a profile"@,
                    )
                } else {
                    r matches Ok(applied) && applied.status == status && applied.effects@ == seq![
                        Effect::SetPin { actor_id, status_id, pinned: on, at: now },
                    ]
                },
                None => r matches Err(e) && is_not_found(e),
            },
    {
        match target {
            Some(status) => {
                if status.actor_id != actor_id {
                    return Err(not_found());
                }
                if on && status.visibility == Visibility::Direct {
                    return Err(
                        rejected("a direct-visibility status cannot be pinned to a profile"),
                    );
                }
                let mut effects: Vec<Effect> = Vec::new();
                effects.push(Effect::SetPin { actor_id, status_id, pinned: on, at: now });
                assert(effects@ =~= seq![
                    Effect::SetPin { actor_id, status_id, pinned: on, at: now },
                ]);
                Ok(Applied { status, effects })
            },
            None => Err(not_found()),
        }
    }
}

impl ReblogVisible {
    /// A status that the actor may not see does not exist to them.
    pub fn seen(self, visible: bool) -> (r: Result<ReblogDuplicate, AppError>)
        ensures
            if visible {
                r == Ok::<ReblogDuplicate, AppError>(
                    ReblogDuplicate { actor_id: self.actor_id, target: self.target },
                )
            } else {
                r matches Err(e) && is_not_found(e)
            },
    {
        if visible {
            Ok(ReblogDuplicate { actor_id: self.actor_id, target: self.target })
        } else {
            Err(not_found())
        }
    }
}

impl NewReblog {
    /// The changes to make in the transaction.
    pub fn writes(&self) -> (r: Vec<Effect>)
        ensures
            r@ == reblog_effects(self.reblog, self.target.id),
    {
        let mut effects: Vec<Effect> = Vec::new();
        effects.push(Effect::InsertStatus(self.reblog.clone()));
        effects.push(
            Effect::AdjustCounts {
                status_id: self.target.id,
                kind: CountKind::Reblogs,
                delta: 1,
            },
        );
        assert(effects@ =~= reblog_effects(self.reblog, self.target.id));
        effects
    }

    /// The notification of the target's author, unless they boosted their
    /// own status.
    pub fn notification(&self, author: AccountRef) -> (r: Option<NotificationEvent>)
        ensures
            r == local_notification(
                author,
                NotificationType::Reblog,
                self.actor_id,
                self.target,
                self.reblog.created_at,
            ),
    {
        notification(
            author,
            NotificationType::Reblog,
            self.actor_id,
            &self.target,
            self.reblog.created_at,
        )
    }
}

/// Asks for a boost of `target` by `actor_id`.
#[derive(Debug, PartialEq, Eq)]
pub struct UnreblogLookup {
    pub actor_id: Id,
    pub target: Status,
}

/// What taking a boost back comes to.
#[derive(Debug, PartialEq, Eq)]
pub enum UnreblogDecision {
    /// There was no boost: hand out the target, change nothing.
    Unchanged(Status),
    /// Make the changes, deliver the `Undo`, and hand out the target anew.
    Undo(Applied),
}

impl UnreblogLookup {
    /// Decides, by whether there is a boost.
    pub fn checked(self, existing: Option<Status>) -> (r: UnreblogDecision)
        ensures
            match existing {
                Some(boost) => r matches UnreblogDecision::Undo(applied) && applied.status
                    == self.target && applied.effects@
                    == crate::inbound_handlers::undo_announce_effects(
                    self.target.id,
                    Some(boost),
                ),
                None => r == UnreblogDecision::Unchanged(self.target),
            },
    {
        match existing {
            Some(boost) => {
                let mut effects: Vec<Effect> = Vec::new();
                effects.push(Effect::DeleteStatus(boost.id));
                effects.push(
                    Effect::AdjustCounts {
                        status_id: self.target.id,
                        kind: CountKind::Reblogs,
                        delta: -1,
                    },
                );
                assert(effects@ =~= crate::inbound_handlers::undo_announce_effects(
                    self.target.id,
                    Some(boost),
                ));
                UnreblogDecision::Undo(Applied { status: self.target, effects })
            },
            None => UnreblogDecision::Unchanged(self.target),
        }
    }
}

/// Asks whether `target` is visible to `actor_id`.
#[derive(Debug, PartialEq, Eq)]
pub struct FavouriteVisible {
    pub actor_id: Id,
    pub status_id: Id,
    pub target: Status,
}

/// Asks, in a transaction, to record a favourite of `status_id` by
/// `actor_id`, and whether it is new.
#[derive(Debug, PartialEq, Eq)]
pub struct FavouriteRecord {
    pub actor_id: Id,
    pub status_id: Id,
    pub target: Status,
}

/// A favourite that was recorded for the first time.
#[derive(Debug, PartialEq, Eq)]
pub struct NewFavourite {
    pub actor_id: Id,
    pub target: Status,
    /// When it was recorded.
    pub at: Timestamp,
    /// The changes to make in the same transaction.
    pub effects: Vec<Effect>,
}

impl FavouriteVisible {
    /// A status that the actor may not see does not exist to them.
    pub fn seen(self, visible: bool) -> (r: Result<FavouriteRecord, AppError>)
        ensures
            if visible {
                r == Ok::<FavouriteRecord, AppError>(
                    FavouriteRecord {
                        actor_id: self.actor_id,
                        status_id: self.status_id,
                        target: self.target,
                    },
                )
            } else {
                r matches Err(e) && is_not_found(e)
            },
    {
        if visible {
            Ok(
                FavouriteRecord {
                    actor_id: self.actor_id,
                    status_id: self.status_id,
                    target: self.target,
                },
            )
        } else {
            Err(not_found())
        }
    }
}

impl FavouriteRecord {
    /// A favourite that was known already changes nothing.
    pub fn recorded(self, is_new: bool, now: Timestamp) -> (r: Option<NewFavourite>)
        ensures
            if is_new {
                r matches Some(new) && new.actor_id == self.actor_id && new.target == self.target
                    && new.at == now && new.effects@ == seq![
                    Effect::AdjustCounts {
                        status_id: self.status_id,
                        kind: CountKind::Favourites,
                        delta: 1,
                    },
                ]
            } else {
                r is None
            },
    {
        if !is_new {
            return None;
        }
        let mut effects: Vec<Effect> = Vec::new();
        effects.push(
            Effect::AdjustCounts {
                status_id: self.status_id,
                kind: CountKind::Favourites,
                delta: 1,
            },
        );
        assert(effects@ =~= seq![
            Effect::AdjustCounts {
                status_id: self.status_id,
                kind: CountKind::Favourites,
                delta: 1,
            },
        ]);
        Some(NewFavourite { actor_id: self.actor_id, target: self.target, at: now, effects })
    }
}

impl NewFavourite {
    /// The notification of the target's author, unless they favourited
    /// their own status.
    pub fn notification(&self) -> (r: Option<NotificationEvent>)
        ensures
            r == local_notification(
                AccountRef::Local(self.target.actor_id),
                NotificationType::Favourite,
                self.actor_id,
                self.target,
                self.at,
            ),
    {
        notification(
            AccountRef::Local(self.target.actor_id),
            NotificationType::Favourite,
            self.actor_id,
            &self.target,
            self.at,
        )
    }
}

/// Asks, in a transaction, to delete the favourite of `status_id` by
/// `actor_id`, and whether there was one.
#[derive(Debug, PartialEq, Eq)]
pub struct UnfavouriteRecord {
    pub actor_id: Id,
    pub status_id: Id,
    pub target: Status,
}

impl UnfavouriteRecord {
    /// The changes to make in the same transaction, followed by an `Undo`;
    /// none where there was no favourite.
    pub fn removed(self, removed: bool) -> (r: Option<Applied>)
        ensures
            if removed {
                r matches Some(applied) && applied.status == self.target && applied.effects@
                    == crate::inbound_handlers::undo_like_effects(self.status_id, true)
            } else {
                r is None
            },
    {
        if !removed {
            return None;
        }
        let mut effects: Vec<Effect> = Vec::new();
        effects.push(
            Effect::AdjustCounts {
                status_id: self.status_id,
                kind: CountKind::Favourites,
                delta: -1,
            },
        );
        assert(effects@ =~= crate::inbound_handlers::undo_like_effects(self.status_id, true));
        Some(Applied { status: self.target, effects })
    }
}

/// What setting or taking back a bookmark comes to.
#[derive(Debug, PartialEq, Eq)]
pub enum BookmarkStep {
    CheckVisible(BookmarkVisible),
    Apply(Applied),
}

/// Asks whether `target` is visible to `actor_id`.
#[derive(Debug, PartialEq, Eq)]
pub struct BookmarkVisible {
    pub actor_id: Id,
    pub status_id: Id,
    pub target: Status,
}

impl BookmarkVisible {
    /// A status that the actor may not see does not exist to them.
    pub fn seen(self, visible: bool, fresh: Fresh) -> (r: Result<Applied, AppError>)
        ensures
            if visible {
                r matches Ok(applied) && applied.status == self.target && applied.effects@ == seq![
                    Effect::AddBookmark {
                        id: fresh.id,
                        actor_id: self.actor_id,
                        status_id: self.status_id,
                        at: fresh.now,
                    },
                ]
            } else {
                r matches Err(e) && is_not_found(e)
            },
    {
        if !visible {
            return Err(not_found());
        }
        let mut effects: Vec<Effect> = Vec::new();
        effects.push(
            Effect::AddBookmark {
                id: fresh.id,
                actor_id: self.actor_id,
                status_id: self.status_id,
                at: fresh.now,
            },
        );
        assert(effects@ =~= seq![
            Effect::AddBookmark {
                id: fresh.id,
                actor_id: self.actor_id,
                status_id: self.status_id,
                at: fresh.now,
            },
        ]);
        Ok(Applied { status: self.target, effects })
    }
}

/// The status as it is after an interaction, by what was found for its id.
pub fn refetched(found: Option<Status>) -> (r: Result<Status, AppError>)
    ensures
        match found {
            Some(status) => r == Ok::<Status, AppError>(status),
            None => r matches Err(e) && is_not_found(e),
        },
{
    match found {
        Some(status) => Ok(status),
        None => Err(not_found()),
    }
}

} // verus!
