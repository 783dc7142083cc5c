//! What inbound Activities bring about.

use vstd::prelude::*;

use crate::clock::Timestamp;
use crate::create_note::{CreateActor, CreateNoteHandler, NoteRoute, VoteProbe};
use crate::domain::{AccountRef, Id};
use crate::effects::{Effect, Fresh, HandleOutcome, Plan, Step};
use crate::error::AppError;
use crate::inbound_handlers::{
    register_status_handlers, undo_announce, undo_like, AnnounceActor, AnnounceDuplicate,
    AnnounceHandler, AnnounceLookup, DeleteActor, DeleteHandler, DeleteLookup,
    InboundActivityDispatcher, LikeActor, LikeHandler, LikeLookup, LikeRecord, ParsedActivity,
    StatusHandler, UndoActor, UndoHandler, UndoLookup, UndoRecord, UpdateActor, UpdateHandler,
    UpdateLookup,
};
use crate::json::JsonModel;
use crate::laws::notes::is_text_of;
use crate::laws::{refers_to, refers_to_nothing, refuses, says, says_nothing, Properties};
use crate::model::{CountKind, Status};
use crate::notification_sink::{NotificationEvent, NotificationType};

verus! {

/// Whether an Activity refers to the given URI.
pub open spec fn is_about(activity: ParsedActivity, uri: Seq<char>) -> bool {
    activity.raw@ matches JsonModel::Object(top) && refers_to(top, "object"@, uri)
}

/// Whether an Activity refers to nothing.
pub open spec fn is_about_nothing(activity: ParsedActivity) -> bool {
    activity.raw@ matches JsonModel::Object(top) ==> refers_to_nothing(top, "object"@)
}

/// Whether an Activity embeds the given object.
pub open spec fn carries(activity: ParsedActivity, object: Properties) -> bool {
    &&& activity.raw@ matches JsonModel::Object(top) && top.dom().contains("object"@)
        && top["object"@] == JsonModel::Object(object)
}

proof fn lemma_about(activity: ParsedActivity)
    ensures
        match crate::inbound_handlers::activity_reference(activity.raw@) {
            Some(uri) => is_about(activity, uri),
            None => is_about_nothing(activity),
        },
{
    if let JsonModel::Object(top) = activity.raw@ {
        if crate::inbound_handlers::activity_reference(activity.raw@) is None {
            assert forall|uri: Seq<char>| !#[trigger] refers_to(top, "object"@, uri) by {}
        }
    }
}

/// An `Announce`, `Like` or `Delete` asks for the status that it refers to;
/// without a reference it is ignored.
pub proof fn law_activities_ask_for_what_they_refer_to(
    activity: &ParsedActivity,
    announce: &AnnounceHandler,
    announced: Step<AnnounceLookup>,
    like: &LikeHandler,
    liked: Step<LikeLookup>,
    delete: &DeleteHandler,
    deleted: Step<DeleteLookup>,
)
    requires
        call_ensures(AnnounceHandler::handle, (announce, activity), announced),
        call_ensures(LikeHandler::handle, (like, activity), liked),
        call_ensures(DeleteHandler::handle, (delete, activity), deleted),
    ensures
        match announced {
            Step::Next(next) => is_about(*activity, next.uri@) && next.activity_id@ == activity.id@,
            Step::Done(outcome) => outcome == HandleOutcome::Ignored && is_about_nothing(*activity),
        },
        match liked {
            Step::Next(next) => is_about(*activity, next.uri@),
            Step::Done(outcome) => outcome == HandleOutcome::Ignored && is_about_nothing(*activity),
        },
        match deleted {
            Step::Next(next) => is_about(*activity, next.uri@),
            Step::Done(outcome) => outcome == HandleOutcome::Ignored && is_about_nothing(*activity),
        },
{
    lemma_about(*activity);
}

/// Only a stored local status is boosted, favourited or freed of either from
/// afar, and only a stored remote one is deleted or edited from afar; any
/// other is ignored, but that there is nothing to take back on an unknown one.
pub proof fn law_only_the_right_statuses_are_touched(
    target: Option<Status>,
    announce: AnnounceLookup,
    announced: Step<AnnounceActor>,
    like: LikeLookup,
    liked: Step<LikeActor>,
    delete: DeleteLookup,
    deleted: Step<DeleteActor>,
    update: UpdateLookup,
    updated: Step<UpdateActor>,
    undo: UndoLookup,
    undone: Step<UndoActor>,
)
    requires
        call_ensures(AnnounceLookup::found, (announce, target), announced),
        call_ensures(LikeLookup::found, (like, target), liked),
        call_ensures(DeleteLookup::found, (delete, target), deleted),
        call_ensures(UpdateLookup::found, (update, target), updated),
        call_ensures(UndoLookup::found, (undo, target), undone),
    ensures
        match announced {
            Step::Next(next) => target == Some(next.target) && next.target.local
                && next.activity_id == announce.activity_id,
            Step::Done(outcome) => outcome == HandleOutcome::Ignored && (target matches Some(s)
                ==> !s.local),
        },
        match liked {
            Step::Next(next) => target == Some(next.target) && next.target.local,
            Step::Done(outcome) => outcome == HandleOutcome::Ignored && (target matches Some(s)
                ==> !s.local),
        },
        match deleted {
            Step::Next(next) => target == Some(next.target) && !next.target.local,
            Step::Done(outcome) => outcome == HandleOutcome::Ignored && (target matches Some(s)
                ==> s.local),
        },
        match updated {
            Step::Next(next) => target == Some(next.target) && !next.target.local && next.object
                == update.object,
            Step::Done(outcome) => outcome == HandleOutcome::Ignored && (target matches Some(s)
                ==> s.local),
        },
        match undone {
            Step::Next(next) => target == Some(next.target) && next.target.local
                && next.is_announce == undo.is_announce,
            Step::Done(outcome) => match target {
                Some(s) => !s.local && outcome == HandleOutcome::Ignored,
                None => outcome == HandleOutcome::Handled,
            },
        },
{
}

/// Who acts is the signing actor, on the status that was found.
pub proof fn law_the_signing_actor_acts(
    actor_id: Id,
    announce: AnnounceActor,
    announced: AnnounceDuplicate,
    like: LikeActor,
    liked: LikeRecord,
    undo: UndoActor,
    undone: UndoRecord,
)
    requires
        call_ensures(AnnounceActor::resolved, (announce, actor_id), announced),
        call_ensures(LikeActor::resolved, (like, actor_id), liked),
        call_ensures(UndoActor::resolved, (undo, actor_id), undone),
    ensures
        announced.actor_id == actor_id && announced.target == announce.target
            && announced.activity_id == announce.activity_id,
        liked.actor_id == actor_id && liked.target == like.target,
        match undone {
            UndoRecord::FindReblog { target, actor_id: who } => undo.is_announce && target
                == undo.target && who == actor_id,
            UndoRecord::RemoveFavourite { target, actor_id: who } => !undo.is_announce && target
                == undo.target && who == actor_id,
        },
{
}

/// What the author of a status is told of what a remote actor did to it.
pub open spec fn told_from_afar(
    kind: NotificationType,
    actor_id: Id,
    target: Status,
    now: Timestamp,
) -> Effect {
    Effect::Emit(
        NotificationEvent {
            recipient: AccountRef::Local(target.actor_id),
            origin: AccountRef::Remote(actor_id),
            kind,
            target_status_id: Some(target.id),
            occurred_at: now,
        },
    )
}

/// A first boost from afar is written down as an empty remote status of the
/// booster that points at the boosted one and shares its visibility, is
/// counted once, and is told to the author unless the author boosted it. One
/// that is known changes nothing.
pub proof fn law_boosts_from_afar(
    stage: AnnounceDuplicate,
    existing: Option<Status>,
    fresh: Fresh,
    plan: Plan,
)
    requires
        call_ensures(AnnounceDuplicate::checked, (stage, existing, fresh), plan),
    ensures
        plan.outcome == HandleOutcome::Handled,
        existing is Some ==> plan.effects@.len() == 0,
        existing is None ==> {
            &&& plan.effects@.len() == (if stage.actor_id == stage.target.actor_id {
                2int
            } else {
                3
            })
            &&& plan.effects@[0] matches Effect::InsertStatus(boost) && {
                &&& boost.id == fresh.id
                &&& boost.actor_id == stage.actor_id
                &&& boost.uri@ == stage.activity_id@
                &&& boost.url is None
                &&& boost.content@.len() == 0
                &&& boost.spoiler_text@.len() == 0
                &&& boost.visibility == stage.target.visibility
                &&& boost.reblog_of_id == Some(stage.target.id)
                &&& boost.in_reply_to_id is None
                &&& boost.in_reply_to_account_id is None
                &&& boost.poll_id is None
                &&& boost.language is None
                &&& !boost.sensitive
                &&& !boost.local
                &&& boost.reblogs_count == 0
                &&& boost.favourites_count == 0
                &&& boost.replies_count == 0
                &&& boost.created_at == fresh.now
                &&& boost.edited_at is None
            }
            &&& plan.effects@[1] == (Effect::AdjustCounts {
                status_id: stage.target.id,
                kind: CountKind::Reblogs,
                delta: 1,
            })
            &&& stage.actor_id != stage.target.actor_id ==> plan.effects@[2] == told_from_afar(
                NotificationType::Reblog,
                stage.actor_id,
                stage.target,
                fresh.now,
            )
        },
{
    if existing is None {
        let events = plan.effects@.skip(2);
        assert(events.len() == plan.effects@.len() - 2);
        if events.len() > 0 {
            assert(events[0] == plan.effects@[2]);
        }
    }
}

/// A first favourite from afar is counted once and told to the author unless
/// the author favourited it. One that is known changes nothing.
pub proof fn law_favourites_from_afar(stage: LikeRecord, is_new: bool, now: Timestamp, plan: Plan)
    requires
        call_ensures(LikeRecord::recorded, (stage, is_new, now), plan),
    ensures
        plan.outcome == HandleOutcome::Handled,
        !is_new ==> plan.effects@.len() == 0,
        is_new ==> {
            let counted = Effect::AdjustCounts {
                status_id: stage.target.id,
                kind: CountKind::Favourites,
                delta: 1,
            };
            plan.effects@ == (if stage.actor_id == stage.target.actor_id {
                seq![counted]
            } else {
                seq![
                    counted,
                    told_from_afar(NotificationType::Favourite, stage.actor_id, stage.target, now),
                ]
            })
        },
{
    if is_new {
        let counted = Effect::AdjustCounts {
            status_id: stage.target.id,
            kind: CountKind::Favourites,
            delta: 1,
        };
        assert(plan.effects@ =~= (if stage.actor_id == stage.target.actor_id {
            seq![counted]
        } else {
            seq![
                counted,
                told_from_afar(NotificationType::Favourite, stage.actor_id, stage.target, now),
            ]
        }));
    }
}

/// A status is deleted from afar by its own author alone; anyone else is
/// refused.
pub proof fn law_deletes_from_afar(stage: DeleteActor, actor_id: Id, r: Result<Plan, AppError>)
    requires
        call_ensures(DeleteActor::resolved, (stage, actor_id), r),
    ensures
        r is Ok <==> actor_id == stage.target.actor_id,
        r matches Ok(plan) ==> plan.outcome == HandleOutcome::Handled && plan.effects@.len() == 1
            && plan.effects@[0] == Effect::DeleteStatus(stage.target.id),
        r matches Err(e) ==> refuses(
            e,
            403,
            "the signed actor does not own the status named by this Delete"@,
        ),
{
}

/// An `Update` is of the `Note` that it embeds, by its `id`: without an `id`
/// it is refused, and without a `Note` ignored.
pub proof fn law_updates_are_of_notes(
    handler: &UpdateHandler,
    activity: &ParsedActivity,
    r: Result<Step<UpdateLookup>, AppError>,
)
    requires
        call_ensures(UpdateHandler::handle, (handler, activity), r),
    ensures
        match r {
            Ok(Step::Next(next)) => carries(*activity, next.object@) && says(
                next.object@,
                "type"@,
                "Note"@,
            ) && says(next.object@, "id"@, next.uri@),
            Ok(Step::Done(outcome)) => outcome == HandleOutcome::Ignored && (forall|o: Properties|
                #[trigger] carries(*activity, o) ==> !says(o, "type"@, "Note"@)),
            Err(e) => refuses(e, 422, "Update(Note) object is missing a required 'id' property"@)
                && (exists|o: Properties| #[trigger]
                carries(*activity, o) && says(o, "type"@, "Note"@) && says_nothing(o, "id"@)),
        },
{
    if let Err(e) = r {
        let o = crate::inbound_handlers::embedded_note(activity.raw@)->0;
        assert(carries(*activity, o));
    }
}

/// A status is edited from afar by its own author alone, to what the `Note`
/// now says; anyone else is refused.
pub proof fn law_edits_from_afar(
    stage: UpdateActor,
    actor_id: Id,
    fresh: Fresh,
    r: Result<Plan, AppError>,
)
    requires
        call_ensures(UpdateActor::resolved, (stage, actor_id, fresh), r),
    ensures
        r is Ok <==> actor_id == stage.target.actor_id,
        r matches Ok(plan) ==> {
            &&& plan.outcome == HandleOutcome::Handled
            &&& plan.effects@.len() == 1
            &&& plan.effects@[0] matches Effect::ApplyEdit { row_id, edit, at } && {
                &&& row_id == fresh.id
                &&& at == fresh.now
                &&& edit.status_id == stage.target.id
                &&& is_text_of(stage.object@, "content"@, edit.content@)
                &&& is_text_of(stage.object@, "summary"@, edit.spoiler_text@)
                &&& edit.sensitive <==> stage.object@.dom().contains("sensitive"@)
                    && stage.object@["sensitive"@] == JsonModel::Bool(true)
                &&& edit.created_at == fresh.now
            }
        },
        r matches Err(e) ==> refuses(
            e,
            403,
            "the signed actor does not own the status named by this Update"@,
        ),
{
}

/// An `Undo` is of the `Announce` or `Like` that it embeds, by what that
/// refers to: without a reference it is refused, and of anything else
/// ignored.
pub proof fn law_undos_are_of_boosts_and_favourites(
    handler: &UndoHandler,
    activity: &ParsedActivity,
    r: Result<Step<UndoLookup>, AppError>,
)
    requires
        call_ensures(UndoHandler::handle, (handler, activity), r),
    ensures
        forall|inner: Properties| #[trigger]
            carries(*activity, inner) ==> (if says(inner, "type"@, "Announce"@) || says(
                inner,
                "type"@,
                "Like"@,
            ) {
                match r {
                    Ok(Step::Next(next)) => refers_to(inner, "object"@, next.uri@)
                        && next.is_announce == says(inner, "type"@, "Announce"@),
                    Ok(Step::Done(_)) => false,
                    Err(e) => refers_to_nothing(inner, "object"@) && refuses(
                        e,
                        422,
                        "Undo's inner Activity is missing a required 'object' reference"@,
                    ),
                }
            } else {
                r matches Ok(Step::Done(outcome)) && outcome == HandleOutcome::Ignored
            }),
        (forall|inner: Properties| !#[trigger] carries(*activity, inner)) ==> (r matches Ok(
            Step::Done(outcome),
        ) && outcome == HandleOutcome::Ignored),
{
    if let Some(inner) = crate::inbound_handlers::embedded_object(activity.raw@) {
        assert(carries(*activity, inner));
        if crate::json::reference_prop(inner, "object"@) is None {
            assert forall|uri: Seq<char>| !#[trigger] refers_to(inner, "object"@, uri) by {}
        }
    }
}

/// Taking a boost back deletes it and counts it off, where there is one;
/// taking a favourite back counts it off, where there was one. Otherwise
/// nothing changes.
pub proof fn law_what_is_taken_back_goes(
    target: &Status,
    existing: Option<Status>,
    unboosted: Plan,
    removed: bool,
    unliked: Plan,
)
    requires
        call_ensures(undo_announce, (target, existing), unboosted),
        call_ensures(undo_like, (target, removed), unliked),
    ensures
        unboosted.outcome == HandleOutcome::Handled,
        match existing {
            Some(boost) => unboosted.effects@.len() == 2 && unboosted.effects@[0]
                == Effect::DeleteStatus(boost.id) && (unboosted.effects@[1]
                matches Effect::AdjustCounts { status_id, kind, delta } && status_id == target.id
                && kind == CountKind::Reblogs && delta == -1),
            None => unboosted.effects@.len() == 0,
        },
        unliked.outcome == HandleOutcome::Handled,
        removed ==> unliked.effects@.len() == 1 && (unliked.effects@[0]
            matches Effect::AdjustCounts { status_id, kind, delta } && status_id == target.id
            && kind == CountKind::Favourites && delta == -1),
        !removed ==> unliked.effects@.len() == 0,
{
}

/// A `Create` is of the `Note` that it embeds; without one it is ignored.
pub proof fn law_creates_are_of_notes(
    handler: &CreateNoteHandler,
    activity: &ParsedActivity,
    r: Step<CreateActor>,
)
    requires
        call_ensures(CreateNoteHandler::handle, (handler, activity), r),
    ensures
        match r {
            Step::Next(next) => carries(*activity, next.object@) && says(
                next.object@,
                "type"@,
                "Note"@,
            ),
            Step::Done(outcome) => outcome == HandleOutcome::Ignored && (forall|o: Properties|
                #[trigger] carries(*activity, o) ==> !says(o, "type"@, "Note"@)),
        },
{
}

/// A `Note` that has a `name` and replies to something may be a vote; any
/// other is taken in, as one of the signing actor.
pub proof fn law_only_named_replies_may_be_votes(
    stage: CreateActor,
    actor_id: Id,
    r: NoteRoute<VoteProbe>,
)
    requires
        call_ensures(CreateActor::resolved, (stage, actor_id), r),
    ensures
        match r {
            NoteRoute::Vote(next) => {
                &&& says(stage.object@, "name"@, next.name@)
                &&& says(stage.object@, "inReplyTo"@, next.in_reply_to_uri@)
                &&& next.object == stage.object
                &&& next.actor_id == actor_id
            },
            NoteRoute::Ingest { object, actor_id: who } => {
                &&& object == stage.object
                &&& who == actor_id
                &&& says_nothing(stage.object@, "name"@) || says_nothing(
                    stage.object@,
                    "inReplyTo"@,
                )
            },
        },
{
}

/// Whether a handler is the one of the given type of Activity.
pub open spec fn is_handler_of(handler: StatusHandler, activity_type: Seq<char>) -> bool {
    match handler {
        StatusHandler::CreateNote => activity_type == "Create"@,
        StatusHandler::Announce => activity_type == "Announce"@,
        StatusHandler::Like => activity_type == "Like"@,
        StatusHandler::Delete => activity_type == "Delete"@,
        StatusHandler::Update => activity_type == "Update"@,
        StatusHandler::Undo => activity_type == "Undo"@,
    }
}

proof fn lemma_routes(handlers: Seq<StatusHandler>, activity_type: Seq<char>)
    ensures
        InboundActivityDispatcher::routes(handlers, activity_type) == handlers.filter(
            |h: StatusHandler| is_handler_of(h, activity_type),
        ),
    decreases handlers.len(),
{
    reveal(Seq::filter);
    if handlers.len() > 0 {
        lemma_routes(handlers.drop_last(), activity_type);
    }
}

/// An Activity is handed to every registered handler of its type, in the order
/// of registration, and to no other.
pub proof fn law_activities_reach_their_handlers(
    dispatcher: &InboundActivityDispatcher,
    activity_type: &str,
    r: Vec<StatusHandler>,
)
    requires
        call_ensures(InboundActivityDispatcher::dispatch, (dispatcher, activity_type), r),
    ensures
        r@ == dispatcher.handlers@.filter(
            |h: StatusHandler| is_handler_of(h, activity_type@),
        ),
{
    lemma_routes(dispatcher.handlers@, activity_type@);
}

/// Registering adds each of the six handlers once, after those that are there.
pub proof fn law_every_handler_is_registered(dispatcher: &mut InboundActivityDispatcher)
    requires
        call_ensures(register_status_handlers, (dispatcher,), ()),
    ensures
        final(dispatcher).handlers@.take(old(dispatcher).handlers@.len() as int) == old(
            dispatcher,
        ).handlers@,
        final(dispatcher).handlers@.len() == old(dispatcher).handlers@.len() + 6,
        final(dispatcher).handlers@.skip(old(dispatcher).handlers@.len() as int).no_duplicates(),
{
    let before = dispatcher.handlers@;
    let after = final(dispatcher).handlers@;
    assert(after.take(before.len() as int) =~= before);
    assert(after.skip(before.len() as int) =~= crate::inbound_handlers::status_handlers());
}

} // verus!
