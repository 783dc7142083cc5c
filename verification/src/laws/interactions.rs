//! What local actors do with statuses.

use vstd::prelude::*;

use crate::addressing::{ActorRef, Addressing};
use crate::clock::Timestamp;
use crate::domain::{AccountRef, Handle, Id, Recipient, Visibility};
use crate::effects::{Effect, Fresh};
use crate::error::AppError;
use crate::interaction_service::{
    account_ref_for_notification, refetched, Applied, BookmarkStep, BookmarkVisible,
    FavouriteRecord, FavouriteVisible, InteractionService, NewFavourite, NewReblog,
    ReblogDecision, ReblogDuplicate, ReblogVisible, UnfavouriteRecord, UnreblogDecision,
    UnreblogLookup,
};
use crate::laws::activities::actor_page;
use crate::laws::refuses;
use crate::model::{CountKind, Status};
use crate::notification_sink::{NotificationEvent, NotificationType};
use crate::text::integer_text;

verus! {

/// A status that is not there is a `404` to whatever is done with it; one that
/// is there is what is acted on, for the actor who asked.
pub proof fn law_only_stored_statuses_are_acted_on(
    service: &InteractionService,
    actor_id: Id,
    status_id: Id,
    target: Option<Status>,
    reblog: Result<ReblogVisible, AppError>,
    unreblog: Result<UnreblogLookup, AppError>,
    favourite: Result<FavouriteVisible, AppError>,
    unfavourite: Result<UnfavouriteRecord, AppError>,
    again: Result<Status, AppError>,
)
    requires
        call_ensures(InteractionService::reblog, (service, actor_id, target), reblog),
        call_ensures(InteractionService::unreblog, (service, actor_id, target), unreblog),
        call_ensures(
            InteractionService::favourite,
            (service, actor_id, status_id, target),
            favourite,
        ),
        call_ensures(
            InteractionService::unfavourite,
            (service, actor_id, status_id, target),
            unfavourite,
        ),
        call_ensures(refetched, (target,), again),
    ensures
        match reblog {
            Ok(next) => target == Some(next.target) && next.actor_id == actor_id,
            Err(e) => target is None && refuses(e, 404, "status not found"@),
        },
        match unreblog {
            Ok(next) => target == Some(next.target) && next.actor_id == actor_id,
            Err(e) => target is None && refuses(e, 404, "status not found"@),
        },
        match favourite {
            Ok(next) => target == Some(next.target) && next.actor_id == actor_id && next.status_id
                == status_id,
            Err(e) => target is None && refuses(e, 404, "status not found"@),
        },
        match unfavourite {
            Ok(next) => target == Some(next.target) && next.actor_id == actor_id && next.status_id
                == status_id,
            Err(e) => target is None && refuses(e, 404, "status not found"@),
        },
        match again {
            Ok(status) => target == Some(status),
            Err(e) => target is None && refuses(e, 404, "status not found"@),
        },
{
}

/// A status that the actor may not see is a `404` to boosting, favouriting and
/// bookmarking it.
pub proof fn law_only_visible_statuses_are_acted_on(
    visible: bool,
    reblog: ReblogVisible,
    reblogged: Result<ReblogDuplicate, AppError>,
    favourite: FavouriteVisible,
    favourited: Result<FavouriteRecord, AppError>,
    bookmark: BookmarkVisible,
    fresh: Fresh,
    bookmarked: Result<Applied, AppError>,
)
    requires
        call_ensures(ReblogVisible::seen, (reblog, visible), reblogged),
        call_ensures(FavouriteVisible::seen, (favourite, visible), favourited),
        call_ensures(BookmarkVisible::seen, (bookmark, visible, fresh), bookmarked),
    ensures
        match reblogged {
            Ok(next) => visible && next.actor_id == reblog.actor_id && next.target == reblog.target,
            Err(e) => !visible && refuses(e, 404, "status not found"@),
        },
        match favourited {
            Ok(next) => visible && next.actor_id == favourite.actor_id && next.status_id
                == favourite.status_id && next.target == favourite.target,
            Err(e) => !visible && refuses(e, 404, "status not found"@),
        },
        match bookmarked {
            Ok(applied) => {
                &&& visible
                &&& applied.status == bookmark.target
                &&& applied.effects@.len() == 1
                &&& applied.effects@[0] == (Effect::AddBookmark {
                    id: fresh.id,
                    actor_id: bookmark.actor_id,
                    status_id: bookmark.status_id,
                    at: fresh.now,
                })
            },
            Err(e) => !visible && refuses(e, 404, "status not found"@),
        },
{
}

/// A status is boosted once by an actor: a boost that is there is handed out,
/// and a new one is an empty local status of the booster that points at the
/// boosted one and shares its visibility, under a page of its own.
pub proof fn law_boosts_are_made_once(
    service: &InteractionService,
    stage: ReblogDuplicate,
    existing: Option<Status>,
    fresh: Fresh,
    r: ReblogDecision,
)
    requires
        call_ensures(
            InteractionService::reblog_checked,
            (service, stage, existing, fresh),
            r,
        ),
    ensures
        match r {
            ReblogDecision::Existing(boost) => existing == Some(boost),
            ReblogDecision::New(new) => {
                let boost = new.reblog;
                let page = "https://"@ + service.activity_builder.urls.domain@ + "/"@ + "statuses"@
                    + "/"@ + integer_text(fresh.id.0 as int);
                &&& existing is None
                &&& new.actor_id == stage.actor_id
                &&& new.target == stage.target
                &&& boost.id == fresh.id
                &&& boost.actor_id == stage.actor_id
                &&& boost.uri@ == page
                &&& boost.url matches Some(url) && url@ == page
                &&& boost.content@.len() == 0
                &&& boost.spoiler_text@.len() == 0
                &&& boost.visibility == stage.target.visibility
                &&& boost.reblog_of_id == Some(stage.target.id)
                &&& boost.in_reply_to_id is None
                &&& boost.in_reply_to_account_id is None
                &&& boost.poll_id is None
                &&& boost.language is None
                &&& !boost.sensitive
                &&& boost.local
                &&& boost.reblogs_count == 0
                &&& boost.favourites_count == 0
                &&& boost.replies_count == 0
                &&& boost.created_at == fresh.now
                &&& boost.edited_at is None
            },
        },
{
}

/// Whether an effect changes a counter of a status by the given amount.
pub open spec fn counts(effect: Effect, status: Id, counter: CountKind, by: int) -> bool {
    effect matches Effect::AdjustCounts { status_id, kind, delta } && status_id == status && kind
        == counter && delta == by
}

/// A new boost is written down and counted once.
pub proof fn law_new_boosts_are_counted(new: &NewReblog, r: Vec<Effect>)
    requires
        call_ensures(NewReblog::writes, (new,), r),
    ensures
        r@.len() == 2,
        r@[0] == Effect::InsertStatus(new.reblog),
        counts(r@[1], new.target.id, CountKind::Reblogs, 1),
{
}

/// A boost that is there is deleted and counted off; where there is none
/// nothing changes.
pub proof fn law_boosts_are_taken_back(
    stage: UnreblogLookup,
    existing: Option<Status>,
    r: UnreblogDecision,
)
    requires
        call_ensures(UnreblogLookup::checked, (stage, existing), r),
    ensures
        match r {
            UnreblogDecision::Unchanged(status) => existing is None && status == stage.target,
            UnreblogDecision::Undo(applied) => {
                &&& existing matches Some(boost) && applied.effects@.len() == 2
                    && applied.effects@[0] == Effect::DeleteStatus(boost.id)
                &&& counts(applied.effects@[1], stage.target.id, CountKind::Reblogs, -1)
                &&& applied.status == stage.target
            },
        },
{
}

/// A new favourite is counted once, and one that is known is not; one that is
/// taken back is counted off, where there was one.
pub proof fn law_favourites_are_counted(
    stage: FavouriteRecord,
    is_new: bool,
    now: Timestamp,
    recorded: Option<NewFavourite>,
    back: UnfavouriteRecord,
    was_there: bool,
    removed: Option<Applied>,
)
    requires
        call_ensures(FavouriteRecord::recorded, (stage, is_new, now), recorded),
        call_ensures(UnfavouriteRecord::removed, (back, was_there), removed),
    ensures
        recorded is Some <==> is_new,
        recorded matches Some(new) ==> {
            &&& new.actor_id == stage.actor_id
            &&& new.target == stage.target
            &&& new.at == now
            &&& new.effects@.len() == 1
            &&& counts(new.effects@[0], stage.status_id, CountKind::Favourites, 1)
        },
        removed is Some <==> was_there,
        removed matches Some(applied) ==> {
            &&& applied.status == back.target
            &&& applied.effects@.len() == 1
            &&& counts(applied.effects@[0], back.status_id, CountKind::Favourites, -1)
        },
{
}

/// Whether an event tells an account that a local actor did something to a
/// status.
pub open spec fn tells(
    event: NotificationEvent,
    recipient: AccountRef,
    kind: NotificationType,
    actor_id: Id,
    status: Id,
    at: Timestamp,
) -> bool {
    &&& event.recipient == recipient
    &&& event.origin == AccountRef::Local(actor_id)
    &&& event.kind == kind
    &&& event.target_status_id == Some(status)
    &&& event.occurred_at == at
}

/// The author of a status is told that it was boosted or favourited, unless it
/// was the author who did it.
pub proof fn law_authors_are_told(
    boost: &NewReblog,
    author: AccountRef,
    boosted: Option<NotificationEvent>,
    favourite: &NewFavourite,
    favourited: Option<NotificationEvent>,
)
    requires
        call_ensures(NewReblog::notification, (boost, author), boosted),
        call_ensures(NewFavourite::notification, (favourite,), favourited),
    ensures
        boosted is Some <==> boost.actor_id != boost.target.actor_id,
        boosted matches Some(event) ==> tells(
            event,
            author,
            NotificationType::Reblog,
            boost.actor_id,
            boost.target.id,
            boost.reblog.created_at,
        ),
        favourited is Some <==> favourite.actor_id != favourite.target.actor_id,
        favourited matches Some(event) ==> tells(
            event,
            AccountRef::Local(favourite.target.actor_id),
            NotificationType::Favourite,
            favourite.actor_id,
            favourite.target.id,
            favourite.at,
        ),
{
}

/// An actor whose handle is found is local; one that is unknown here is
/// remote; any other failure is passed on.
pub proof fn law_accounts_are_where_they_are_found(
    actor_id: Id,
    lookup: Result<Handle, AppError>,
    r: Result<AccountRef, AppError>,
)
    requires
        call_ensures(account_ref_for_notification, (actor_id, lookup), r),
    ensures
        lookup is Ok ==> r == Ok::<AccountRef, AppError>(AccountRef::Local(actor_id)),
        lookup matches Err(e) && e.kind is Client ==> r == Ok::<AccountRef, AppError>(
            AccountRef::Remote(actor_id),
        ),
        lookup matches Err(e) && e.kind is Server ==> r == Err::<AccountRef, AppError>(
            lookup->Err_0,
        ),
{
}

/// A bookmark is set only after the actor was found to see the status, and
/// taken back without asking.
pub proof fn law_bookmarks_are_set_and_taken_back(
    service: &InteractionService,
    actor_id: Id,
    status_id: Id,
    on: bool,
    target: Option<Status>,
    r: Result<BookmarkStep, AppError>,
)
    requires
        call_ensures(
            InteractionService::bookmark,
            (service, actor_id, status_id, on, target),
            r,
        ),
    ensures
        match r {
            Ok(BookmarkStep::CheckVisible(next)) => on && target == Some(next.target)
                && next.actor_id == actor_id && next.status_id == status_id,
            Ok(BookmarkStep::Apply(applied)) => !on && target == Some(applied.status)
                && applied.effects@.len() == 1 && applied.effects@[0]
                == (Effect::RemoveBookmark { actor_id, status_id }),
            Err(e) => target is None && refuses(e, 404, "status not found"@),
        },
{
}

/// Only one's own statuses are pinned or unpinned, anyone else's is a `404`,
/// and a direct one is not pinned.
pub proof fn law_only_own_statuses_are_pinned(
    service: &InteractionService,
    actor_id: Id,
    status_id: Id,
    on: bool,
    target: Option<Status>,
    now: Timestamp,
    r: Result<Applied, AppError>,
)
    requires
        call_ensures(
            InteractionService::pin,
            (service, actor_id, status_id, on, target, now),
            r,
        ),
    ensures
        r is Ok <==> (target matches Some(status) && status.actor_id == actor_id && !(on
            && status.visibility is Direct)),
        r matches Ok(applied) ==> target == Some(applied.status) && applied.effects@.len() == 1
            && applied.effects@[0] == (Effect::SetPin {
            actor_id,
            status_id,
            pinned: on,
            at: now,
        }),
        r matches Err(e) ==> if target matches Some(status) && status.actor_id == actor_id {
            refuses(e, 422, "a direct-visibility status cannot be pinned to a profile"@)
        } else {
            refuses(e, 404, "status not found"@)
        },
{
}

/// A local actor is referred to by their page and delivered to by their
/// handle.
pub proof fn law_local_actors_are_referred_to(
    service: &InteractionService,
    handle: &Handle,
    r: ActorRef,
)
    requires
        call_ensures(InteractionService::actor_ref_for, (service, handle), r),
    ensures
        r.uri@ == actor_page(service.activity_builder.urls, handle.name@),
        r.recipient == Recipient::Local(*handle),
{
}

/// What mentions nobody is addressed by its visibility and the followers of
/// its author alone, and delivered to them unless it is direct.
pub proof fn law_plain_statuses_are_addressed(
    service: &InteractionService,
    status: &Status,
    author: &Handle,
    followers: &[Recipient],
    r: (Addressing, Vec<Recipient>),
)
    requires
        call_ensures(
            InteractionService::build_addressing,
            (service, status, author, followers),
            r,
        ),
    ensures
        ({
            let everyone = "https://www.w3.org/ns/activitystreams#Public"@;
            let circle = actor_page(service.activity_builder.urls, author.name@) + "/followers"@;
            let only = |texts: Seq<String>, text: Seq<char>|
                texts.len() == 1 && texts[0]@ == text;
            &&& match status.visibility {
                Visibility::Public => only(r.0.to@, everyone) && only(r.0.cc@, circle),
                Visibility::Unlisted => only(r.0.to@, circle) && only(r.0.cc@, everyone),
                Visibility::Private => only(r.0.to@, circle) && r.0.cc@.len() == 0,
                Visibility::Direct => r.0.to@.len() == 0 && r.0.cc@.len() == 0,
            }
            &&& r.0.addresses_followers <==> !(status.visibility is Direct)
            &&& r.1@ == (if status.visibility is Direct {
                Seq::empty()
            } else {
                followers@
            })
        }),
{
    let to = crate::json::string_views(r.0.to@);
    let cc = crate::json::string_views(r.0.cc@);
    assert(to.len() == r.0.to@.len() && cc.len() == r.0.cc@.len());
    assert(to.len() > 0 ==> to[0] == r.0.to@[0]@);
    assert(cc.len() > 0 ==> cc[0] == r.0.cc@[0]@);
}

} // verus!
