//! The handlers of inbound Activities.
//!
//! A handler alternates between reading the store and deciding. Each stage is
//! a value that names what has to be read next; handing the answer to it gives
//! the next stage, the outcome, or the changes to make.

use vstd::prelude::*;

use crate::clock::Timestamp;
use crate::domain::{AccountRef, Id};
use crate::effects::{boost_of, is_boost, Effect, Fresh, HandleOutcome, Plan, Step};
use crate::error::{forbidden, malformed, AppError, FORBIDDEN, UNPROCESSABLE_ENTITY};
use crate::json::{
    flag_prop, object_reference_uri, prop, reference_prop, string_or_empty, text_or_empty,
    text_prop, Json, JsonModel, JsonObject,
};
use crate::model::{CountKind, Status, StatusEdit};
use crate::notification_sink::{NotificationEvent, NotificationType};
use crate::text::same_text;

verus! {

/// An inbound Activity whose envelope was read.
#[derive(Debug, PartialEq, Eq)]
pub struct ParsedActivity {
    pub id: String,
    pub activity_type: String,
    pub raw: Json,
}

/// What an Activity refers to, where it is an object that has a reference.
pub open spec fn activity_reference(raw: JsonModel) -> Option<Seq<char>> {
    match raw {
        JsonModel::Object(top) => reference_prop(top, "object"@),
        _ => None,
    }
}

/// The object that an Activity embeds.
pub open spec fn embedded_object(raw: JsonModel) -> Option<Map<Seq<char>, JsonModel>> {
    match raw {
        JsonModel::Object(top) => match prop(top, "object"@) {
            Some(JsonModel::Object(object)) => Some(object),
            _ => None,
        },
        _ => None,
    }
}

/// The `Note` that an Activity embeds.
pub open spec fn embedded_note(raw: JsonModel) -> Option<Map<Seq<char>, JsonModel>> {
    match embedded_object(raw) {
        Some(object) => if text_prop(object, "type"@) == Some("Note"@) {
            Some(object)
        } else {
            None
        },
        None => None,
    }
}

pub fn reference_of(activity: &ParsedActivity) -> (r: Option<&String>)
    ensures
        match r {
            Some(uri) => activity_reference(activity.raw@) == Some(uri@),
            None => activity_reference(activity.raw@) is None,
        },
{
    match &activity.raw {
        Json::Object(top) => object_reference_uri(top, "object"),
        _ => None,
    }
}

pub fn object_of(activity: &ParsedActivity) -> (r: Option<&JsonObject>)
    ensures
        match r {
            Some(object) => embedded_object(activity.raw@) == Some(object@),
            None => embedded_object(activity.raw@) is None,
        },
{
    match &activity.raw {
        Json::Object(top) => top.get_object("object"),
        _ => None,
    }
}

pub fn note_of(activity: &ParsedActivity) -> (r: Option<&JsonObject>)
    ensures
        match r {
            Some(object) => embedded_note(activity.raw@) == Some(object@),
            None => embedded_note(activity.raw@) is None,
        },
{
    match object_of(activity) {
        Some(object) => if object.has_text("type", "Note") {
            Some(object)
        } else {
            None
        },
        None => None,
    }
}

/// The notification that the author of a local status gets when a remote
/// actor interacts with it.
pub open spec fn interaction_event(
    kind: NotificationType,
    actor_id: Id,
    target: Status,
    now: Timestamp,
) -> NotificationEvent {
    NotificationEvent {
        recipient: AccountRef::Local(target.actor_id),
        origin: AccountRef::Remote(actor_id),
        kind,
        target_status_id: Some(target.id),
        occurred_at: now,
    }
}

/// The events of an interaction: one for the target's author, unless the
/// author interacts with their own status.
pub open spec fn interaction_events(
    kind: NotificationType,
    actor_id: Id,
    target: Status,
    now: Timestamp,
) -> Seq<Effect> {
    if actor_id == target.actor_id {
        Seq::empty()
    } else {
        seq![Effect::Emit(interaction_event(kind, actor_id, target, now))]
    }
}

fn push_interaction_event(
    effects: &mut Vec<Effect>,
    kind: NotificationType,
    actor_id: Id,
    target: &Status,
    now: Timestamp,
)
    ensures
        final(effects)@ == old(effects)@ + interaction_events(kind, actor_id, *target, now),
{
    if actor_id != target.actor_id {
        effects.push(
            Effect::Emit(
                NotificationEvent {
                    recipient: AccountRef::Local(target.actor_id),
                    origin: AccountRef::Remote(actor_id),
                    kind,
                    target_status_id: Some(target.id),
                    occurred_at: now,
                },
            ),
        );
    }
    assert(effects@ =~= old(effects)@ + interaction_events(kind, actor_id, *target, now));
}

/// Handles `Announce`: a remote actor boosts a local status.
#[derive(Debug, Clone, Copy, PartialEq, Eq)]
pub struct AnnounceHandler;

/// Asks for the status with the URI `uri`.
#[derive(Debug, PartialEq, Eq)]
pub struct AnnounceLookup<'a> {
    pub activity_id: &'a String,
    pub uri: &'a String,
}

/// Asks for the id of the signing actor.
#[derive(Debug, PartialEq, Eq)]
pub struct AnnounceActor<'a> {
    pub activity_id: &'a String,
    pub target: Status,
}

/// Asks for a boost of `target` by `actor_id`.
#[derive(Debug, PartialEq, Eq)]
pub struct AnnounceDuplicate<'a> {
    pub activity_id: &'a String,
    pub target: Status,
    pub actor_id: Id,
}

impl AnnounceHandler {
    pub fn new() -> (r: AnnounceHandler)
        ensures
            r == AnnounceHandler,
    {
        AnnounceHandler
    }

    /// An Activity without a reference is not this handler's concern.
    pub fn handle<'a>(&self, activity: &'a ParsedActivity) -> (r: Step<AnnounceLookup<'a>>)
        ensures
            match activity_reference(activity.raw@) {
                Some(uri) => r matches Step::Next(next) && next.uri@ == uri && next.activity_id
                    == activity.id,
                None => r == Step::<AnnounceLookup>::Done(HandleOutcome::Ignored),
            },
    {
        match reference_of(activity) {
            Some(uri) => Step::Next(AnnounceLookup { activity_id: &activity.id, uri }),
            None => Step::Done(HandleOutcome::Ignored),
        }
    }
}

impl<'a> AnnounceLookup<'a> {
    /// Only a known local status can be boosted from afar.
    pub fn found(self, target: Option<Status>) -> (r: Step<AnnounceActor<'a>>)
        ensures
            match target {
                Some(status) => if status.local {
                    r == Step::Next(
                        AnnounceActor { activity_id: self.activity_id, target: status },
                    )
                } else {
                    r == Step::<AnnounceActor>::Done(HandleOutcome::Ignored)
                },
                None => r == Step::<AnnounceActor>::Done(HandleOutcome::Ignored),
            },
    {
        match target {
            Some(status) => if status.local {
                Step::Next(AnnounceActor { activity_id: self.activity_id, target: status })
            } else {
                Step::Done(HandleOutcome::Ignored)
            },
            None => Step::Done(HandleOutcome::Ignored),
        }
    }
}

impl<'a> AnnounceActor<'a> {
    pub fn resolved(self, actor_id: Id) -> (r: AnnounceDuplicate<'a>)
        ensures
            r == (AnnounceDuplicate {
                activity_id: self.activity_id,
                target: self.target,
                actor_id,
            }),
    {
        AnnounceDuplicate { activity_id: self.activity_id, target: self.target, actor_id }
    }
}

/// The changes of a first `Announce`: the boost row, one more in the
/// target's counter, and the author's notification.
pub open spec fn announce_effects(
    effects: Seq<Effect>,
    activity_id: Seq<char>,
    target: Status,
    actor_id: Id,
    fresh: Fresh,
) -> bool {
    &&& effects.len() >= 2
    &&& effects[0] matches Effect::InsertStatus(boost) && is_boost(
        boost,
        fresh,
        actor_id,
        activity_id,
        None,
        target,
        false,
    )
    &&& effects[1] == (Effect::AdjustCounts {
        status_id: target.id,
        kind: CountKind::Reblogs,
        delta: 1,
    })
    &&& effects.skip(2) == interaction_events(
        NotificationType::Reblog,
        actor_id,
        target,
        fresh.now,
    )
}

impl<'a> AnnounceDuplicate<'a> {
    /// A boost that is known already is handled without a further change.
    pub fn checked(self, existing: Option<Status>, fresh: Fresh) -> (r: Plan)
        ensures
            r.outcome == HandleOutcome::Handled,
            match existing {
                Some(_) => r.effects@.len() == 0,
                None => announce_effects(
                    r.effects@,
                    self.activity_id@,
                    self.target,
                    self.actor_id,
                    fresh,
                ),
            },
    {
        let mut effects: Vec<Effect> = Vec::new();
        if existing.is_none() {
            effects.push(
                Effect::InsertStatus(
                    boost_of(
                        &self.target,
                        fresh,
                        self.actor_id,
                        self.activity_id.as_str(),
                        None,
                        false,
                    ),
                ),
            );
            effects.push(
                Effect::AdjustCounts {
                    status_id: self.target.id,
                    kind: CountKind::Reblogs,
                    delta: 1,
                },
            );
            let ghost base = effects@;
            push_interaction_event(
                &mut effects,
                NotificationType::Reblog,
                self.actor_id,
                &self.target,
                fresh.now,
            );
            assert(effects@.skip(2) =~= interaction_events(
                NotificationType::Reblog,
                self.actor_id,
                self.target,
                fresh.now,
            ));
        }
        Plan { effects, outcome: HandleOutcome::Handled }
    }
}

/// Handles `Like`: a remote actor favourites a local status.
#[derive(Debug, Clone, Copy, PartialEq, Eq)]
pub struct LikeHandler;

/// Asks for the status with the URI `uri`.
#[derive(Debug, PartialEq, Eq)]
pub struct LikeLookup<'a> {
    pub uri: &'a String,
}

/// Asks for the id of the signing actor.
#[derive(Debug, PartialEq, Eq)]
pub struct LikeActor {
    pub target: Status,
}

/// Asks to record a favourite of `target` by `actor_id`, and whether it is
/// new.
#[derive(Debug, PartialEq, Eq)]
pub struct LikeRecord {
    pub target: Status,
    pub actor_id: Id,
}

impl LikeHandler {
    pub fn new() -> (r: LikeHandler)
        ensures
            r == LikeHandler,
    {
        LikeHandler
    }

    /// An Activity without a reference is not this handler's concern.
    pub fn handle<'a>(&self, activity: &'a ParsedActivity) -> (r: Step<LikeLookup<'a>>)
        ensures
            match activity_reference(activity.raw@) {
                Some(uri) => r matches Step::Next(next) && next.uri@ == uri,
                None => r == Step::<LikeLookup>::Done(HandleOutcome::Ignored),
            },
    {
        match reference_of(activity) {
            Some(uri) => Step::Next(LikeLookup { uri }),
            None => Step::Done(HandleOutcome::Ignored),
        }
    }
}

impl<'a> LikeLookup<'a> {
    /// Only a known local status can be favourited from afar.
    pub fn found(self, target: Option<Status>) -> (r: Step<LikeActor>)
        ensures
            match target {
                Some(status) => if status.local {
                    r == Step::Next(LikeActor { target: status })
                } else {
                    r == Step::<LikeActor>::Done(HandleOutcome::Ignored)
                },
                None => r == Step::<LikeActor>::Done(HandleOutcome::Ignored),
            },
    {
        match target {
            Some(status) => if status.local {
                Step::Next(LikeActor { target: status })
            } else {
                Step::Done(HandleOutcome::Ignored)
            },
            None => Step::Done(HandleOutcome::Ignored),
        }
    }
}

impl LikeActor {
    pub fn resolved(self, actor_id: Id) -> (r: LikeRecord)
        ensures
            r == (LikeRecord { target: self.target, actor_id }),
    {
        LikeRecord { target: self.target, actor_id }
    }
}

/// The changes of a first `Like` besides the favourite row: one more in the
/// target's counter, and the author's notification.
pub open spec fn like_effects(target: Status, actor_id: Id, now: Timestamp) -> Seq<Effect> {
    seq![
        Effect::AdjustCounts { status_id: target.id, kind: CountKind::Favourites, delta: 1 },
    ] + interaction_events(NotificationType::Favourite, actor_id, target, now)
}

impl LikeRecord {
    /// A favourite that was known already is handled without a further
    /// change.
    pub fn recorded(self, is_new: bool, now: Timestamp) -> (r: Plan)
        ensures
            r.outcome == HandleOutcome::Handled,
            r.effects@ == (if is_new {
                like_effects(self.target, self.actor_id, now)
            } else {
                Seq::empty()
            }),
    {
        let mut effects: Vec<Effect> = Vec::new();
        if is_new {
            effects.push(
                Effect::AdjustCounts {
                    status_id: self.target.id,
                    kind: CountKind::Favourites,
                    delta: 1,
                },
            );
            push_interaction_event(
                &mut effects,
                NotificationType::Favourite,
                self.actor_id,
                &self.target,
                now,
            );
        }
        assert(effects@ =~= (if is_new {
            like_effects(self.target, self.actor_id, now)
        } else {
            Seq::empty()
        }));
        Plan { effects, outcome: HandleOutcome::Handled }
    }
}

/// Handles `Delete`: a remote actor deletes a status of their own.
#[derive(Debug, Clone, Copy, PartialEq, Eq)]
pub struct DeleteHandler;

/// Asks for the status with the URI `uri`.
#[derive(Debug, PartialEq, Eq)]
pub struct DeleteLookup<'a> {
    pub uri: &'a String,
}

/// Asks for the id of the signing actor.
#[derive(Debug, PartialEq, Eq)]
pub struct DeleteActor {
    pub target: Status,
}

impl DeleteHandler {
    pub fn new() -> (r: DeleteHandler)
        ensures
            r == DeleteHandler,
    {
        DeleteHandler
    }

    /// An Activity without a reference is not this handler's concern.
    pub fn handle<'a>(&self, activity: &'a ParsedActivity) -> (r: Step<DeleteLookup<'a>>)
        ensures
            match activity_reference(activity.raw@) {
                Some(uri) => r matches Step::Next(next) && next.uri@ == uri,
                None => r == Step::<DeleteLookup>::Done(HandleOutcome::Ignored),
            },
    {
        match reference_of(activity) {
            Some(uri) => Step::Next(DeleteLookup { uri }),
            None => Step::Done(HandleOutcome::Ignored),
        }
    }
}

impl<'a> DeleteLookup<'a> {
    /// A local status is never deleted from afar.
    pub fn found(self, target: Option<Status>) -> (r: Step<DeleteActor>)
        ensures
            match target {
                Some(status) => if status.local {
                    r == Step::<DeleteActor>::Done(HandleOutcome::Ignored)
                } else {
                    r == Step::Next(DeleteActor { target: status })
                },
                None => r == Step::<DeleteActor>::Done(HandleOutcome::Ignored),
            },
    {
        match target {
            Some(status) => if status.local {
                Step::Done(HandleOutcome::Ignored)
            } else {
                Step::Next(DeleteActor { target: status })
            },
            None => Step::Done(HandleOutcome::Ignored),
        }
    }
}

impl DeleteActor {
    /// Only the owner of a status may delete it.
    pub fn resolved(self, actor_id: Id) -> (r: Result<Plan, AppError>)
        ensures
            if actor_id == self.target.actor_id {
                r matches Ok(plan) && plan.outcome == HandleOutcome::Handled && plan.effects@
                    == seq![Effect::DeleteStatus(self.target.id)]
            } else {
                r matches Err(e) && e.is_client(
                    FORBIDDEN,
                    "the signed actor does not own the status named by this Delete"@,
                )
            },
    {
        if actor_id != self.target.actor_id {
            return Err(
                forbidden("the signed actor does not own the status named by this Delete"),
            );
        }
        let mut effects: Vec<Effect> = Vec::new();
        effects.push(Effect::DeleteStatus(self.target.id));
        assert(effects@ =~= seq![Effect::DeleteStatus(self.target.id)]);
        Ok(Plan { effects, outcome: HandleOutcome::Handled })
    }
}

/// Handles `Update`: a remote actor edits a status of their own.
#[derive(Debug, Clone, Copy, PartialEq, Eq)]
pub struct UpdateHandler;

/// Asks for the status with the URI `uri`.
#[derive(Debug, PartialEq, Eq)]
pub struct UpdateLookup<'a> {
    pub object: &'a JsonObject,
    pub uri: &'a String,
}

/// Asks for the id of the signing actor.
#[derive(Debug, PartialEq, Eq)]
pub struct UpdateActor<'a> {
    pub object: &'a JsonObject,
    pub target: Status,
}

impl UpdateHandler {
    pub fn new() -> (r: UpdateHandler)
        ensures
            r == UpdateHandler,
    {
        UpdateHandler
    }

    /// Only an embedded `Note` is this handler's concern, and it has to have
    /// an `id`.
    pub fn handle<'a>(&self, activity: &'a ParsedActivity) -> (r: Result<
        Step<UpdateLookup<'a>>,
        AppError,
    >)
        ensures
            match embedded_note(activity.raw@) {
                Some(note) => match text_prop(note, "id"@) {
                    Some(uri) => r matches Ok(Step::Next(next)) && next.uri@ == uri
                        && next.object@ == note,
                    None => r matches Err(e) && e.is_client(
                        UNPROCESSABLE_ENTITY,
                        "Update(Note) object is missing a required 'id' property"@,
                    ),
                },
                None => r matches Ok(Step::Done(HandleOutcome::Ignored)),
            },
    {
        match note_of(activity) {
            Some(object) => match object.get_text("id") {
                Some(uri) => Ok(Step::Next(UpdateLookup { object, uri })),
                None => Err(malformed("Update(Note) object is missing a required 'id' property")),
            },
            None => Ok(Step::Done(HandleOutcome::Ignored)),
        }
    }
}

impl<'a> UpdateLookup<'a> {
    /// A local status is never edited from afar.
    pub fn found(self, target: Option<Status>) -> (r: Step<UpdateActor<'a>>)
        ensures
            match target {
                Some(status) => if status.local {
                    r == Step::<UpdateActor>::Done(HandleOutcome::Ignored)
                } else {
                    r == Step::Next(UpdateActor { object: self.object, target: status })
                },
                None => r == Step::<UpdateActor>::Done(HandleOutcome::Ignored),
            },
    {
        match target {
            Some(status) => if status.local {
                Step::Done(HandleOutcome::Ignored)
            } else {
                Step::Next(UpdateActor { object: self.object, target: status })
            },
            None => Step::Done(HandleOutcome::Ignored),
        }
    }
}

/// Whether an edit takes its fields from a `Note`.
pub open spec fn is_edit(
    edit: StatusEdit,
    note: Map<Seq<char>, JsonModel>,
    target: Status,
    now: Timestamp,
) -> bool {
    &&& edit.status_id == target.id
    &&& edit.content@ == text_or_empty(note, "content"@)
    &&& edit.spoiler_text@ == text_or_empty(note, "summary"@)
    &&& edit.sensitive == flag_prop(note, "sensitive"@)
    &&& edit.created_at == now
}

impl<'a> UpdateActor<'a> {
    /// Only the owner of a status may edit it. Absent fields become empty.
    pub fn resolved(self, actor_id: Id, fresh: Fresh) -> (r: Result<Plan, AppError>)
        ensures
            if actor_id == self.target.actor_id {
                r matches Ok(plan) && plan.outcome == HandleOutcome::Handled && plan.effects@.len()
                    == 1 && (plan.effects@[0] matches Effect::ApplyEdit { row_id, edit, at }
                    && row_id == fresh.id && is_edit(
                    edit,
                    self.object@,
                    self.target,
                    fresh.now,
                ) && at == fresh.now)
            } else {
                r matches Err(e) && e.is_client(
                    FORBIDDEN,
                    "the signed actor does not own the status named by this Update"@,
                )
            },
    {
        if actor_id != self.target.actor_id {
            return Err(
                forbidden("the signed actor does not own the status named by this Update"),
            );
        }
        let edit: StatusEdit = StatusEdit {
            status_id: self.target.id,
            content: string_or_empty(self.object, "content"),
            spoiler_text: string_or_empty(self.object, "summary"),
            sensitive: self.object.get_flag("sensitive"),
            created_at: fresh.now,
        };
        let mut effects: Vec<Effect> = Vec::new();
        effects.push(Effect::ApplyEdit { row_id: fresh.id, edit, at: fresh.now });
        Ok(Plan { effects, outcome: HandleOutcome::Handled })
    }
}

/// Handles `Undo`: a remote actor takes back a boost or a favourite.
#[derive(Debug, Clone, Copy, PartialEq, Eq)]
pub struct UndoHandler;

/// Asks for the status with the URI `uri`.
#[derive(Debug, PartialEq, Eq)]
pub struct UndoLookup<'a> {
    pub is_announce: bool,
    pub uri: &'a String,
}

/// Asks for the id of the signing actor.
#[derive(Debug, PartialEq, Eq)]
pub struct UndoActor {
    pub is_announce: bool,
    pub target: Status,
}

/// What taking back an interaction needs.
#[derive(Debug, PartialEq, Eq)]
pub enum UndoRecord {
    /// Asks for a boost of `target` by `actor_id`.
    FindReblog { target: Status, actor_id: Id },
    /// Asks to delete the favourite of `target` by `actor_id`, and whether
    /// there was one.
    RemoveFavourite { target: Status, actor_id: Id },
}

impl UndoHandler {
    pub fn new() -> (r: UndoHandler)
        ensures
            r == UndoHandler,
    {
        UndoHandler
    }

    /// Only an embedded `Announce` or `Like` is this handler's concern, and
    /// it has to have a reference.
    pub fn handle<'a>(&self, activity: &'a ParsedActivity) -> (r: Result<
        Step<UndoLookup<'a>>,
        AppError,
    >)
        ensures
            match embedded_object(activity.raw@) {
                Some(inner) => if text_prop(inner, "type"@) == Some("Announce"@) || text_prop(
                    inner,
                    "type"@,
                ) == Some("Like"@) {
                    match reference_prop(inner, "object"@) {
                        Some(uri) => r matches Ok(Step::Next(next)) && next.uri@ == uri
                            && next.is_announce == (text_prop(inner, "type"@) == Some(
                            "Announce"@,
                        )),
                        None => r matches Err(e) && e.is_client(
                            UNPROCESSABLE_ENTITY,
                            "Undo's inner Activity is missing a required 'object' reference"@,
                        ),
                    }
                } else {
                    r matches Ok(Step::Done(HandleOutcome::Ignored))
                },
                None => r matches Ok(Step::Done(HandleOutcome::Ignored)),
            },
    {
        match object_of(activity) {
            Some(inner) => {
                let is_announce: bool = inner.has_text("type", "Announce");
                if !is_announce && !inner.has_text("type", "Like") {
                    return Ok(Step::Done(HandleOutcome::Ignored));
                }
                match object_reference_uri(inner, "object") {
                    Some(uri) => Ok(Step::Next(UndoLookup { is_announce, uri })),
                    None => Err(
                        malformed("Undo's inner Activity is missing a required 'object' reference"),
                    ),
                }
            },
            None => Ok(Step::Done(HandleOutcome::Ignored)),
        }
    }
}

impl<'a> UndoLookup<'a> {
    /// A remote status is not this handler's concern, and there is nothing
    /// to take back on an unknown one.
    pub fn found(self, target: Option<Status>) -> (r: Step<UndoActor>)
        ensures
            match target {
                Some(status) => if status.local {
                    r == Step::Next(UndoActor { is_announce: self.is_announce, target: status })
                } else {
                    r == Step::<UndoActor>::Done(HandleOutcome::Ignored)
                },
                None => r == Step::<UndoActor>::Done(HandleOutcome::Handled),
            },
    {
        match target {
            Some(status) => if status.local {
                Step::Next(UndoActor { is_announce: self.is_announce, target: status })
            } else {
                Step::Done(HandleOutcome::Ignored)
            },
            None => Step::Done(HandleOutcome::Handled),
        }
    }
}

impl UndoActor {
    pub fn resolved(self, actor_id: Id) -> (r: UndoRecord)
        ensures
            r == (if self.is_announce {
                UndoRecord::FindReblog { target: self.target, actor_id }
            } else {
                UndoRecord::RemoveFavourite { target: self.target, actor_id }
            }),
    {
        if self.is_announce {
            UndoRecord::FindReblog { target: self.target, actor_id }
        } else {
            UndoRecord::RemoveFavourite { target: self.target, actor_id }
        }
    }
}

/// The changes of taking back a boost: the boost row goes, and one less in
/// the target's counter.
pub open spec fn undo_announce_effects(target_id: Id, existing: Option<Status>) -> Seq<Effect> {
    match existing {
        Some(reblog) => seq![
            Effect::DeleteStatus(reblog.id),
            Effect::AdjustCounts {
                status_id: target_id,
                kind: CountKind::Reblogs,
                delta: (-1) as i64,
            },
        ],
        None => Seq::empty(),
    }
}

/// The changes of taking back a favourite besides its row: one less in the
/// target's counter.
pub open spec fn undo_like_effects(target_id: Id, removed: bool) -> Seq<Effect> {
    if removed {
        seq![
            Effect::AdjustCounts {
                status_id: target_id,
                kind: CountKind::Favourites,
                delta: (-1) as i64,
            },
        ]
    } else {
        Seq::empty()
    }
}

/// Takes back a boost, where there is one.
pub fn undo_announce(target: &Status, existing: Option<Status>) -> (r: Plan)
    ensures
        r.outcome == HandleOutcome::Handled,
        r.effects@ == undo_announce_effects(target.id, existing),
{
    let mut effects: Vec<Effect> = Vec::new();
    if let Some(reblog) = &existing {
        effects.push(Effect::DeleteStatus(reblog.id));
        effects.push(
            Effect::AdjustCounts { status_id: target.id, kind: CountKind::Reblogs, delta: -1 },
        );
    }
    assert(effects@ =~= undo_announce_effects(target.id, existing));
    Plan { effects, outcome: HandleOutcome::Handled }
}

/// Takes back a favourite, where there was one.
pub fn undo_like(target: &Status, removed: bool) -> (r: Plan)
    ensures
        r.outcome == HandleOutcome::Handled,
        r.effects@ == undo_like_effects(target.id, removed),
{
    let mut effects: Vec<Effect> = Vec::new();
    if removed {
        effects.push(
            Effect::AdjustCounts { status_id: target.id, kind: CountKind::Favourites, delta: -1 },
        );
    }
    assert(effects@ =~= undo_like_effects(target.id, removed));
    Plan { effects, outcome: HandleOutcome::Handled }
}

/// A handler of this module.
#[derive(Debug, Clone, Copy, PartialEq, Eq, Structural)]
pub enum StatusHandler {
    CreateNote,
    Announce,
    Like,
    Delete,
    Update,
    Undo,
}

impl StatusHandler {
    /// The type of Activity that the handler takes.
    pub open spec fn takes(self) -> Seq<char> {
        match self {
            StatusHandler::CreateNote => "Create"@,
            StatusHandler::Announce => "Announce"@,
            StatusHandler::Like => "Like"@,
            StatusHandler::Delete => "Delete"@,
            StatusHandler::Update => "Update"@,
            StatusHandler::Undo => "Undo"@,
        }
    }

    /// The type of Activity that the handler takes.
    pub fn activity_type(self) -> (r: &'static str)
        ensures
            r@ == self.takes(),
    {
        match self {
            StatusHandler::CreateNote => "Create",
            StatusHandler::Announce => "Announce",
            StatusHandler::Like => "Like",
            StatusHandler::Delete => "Delete",
            StatusHandler::Update => "Update",
            StatusHandler::Undo => "Undo",
        }
    }
}

/// The registered handlers, in the order of registration.
#[derive(Debug, PartialEq, Eq)]
pub struct InboundActivityDispatcher {
    pub handlers: Vec<StatusHandler>,
}

impl InboundActivityDispatcher {
    pub fn new() -> (r: InboundActivityDispatcher)
        ensures
            r.handlers@.len() == 0,
    {
        InboundActivityDispatcher { handlers: Vec::new() }
    }

    /// The handlers that an Activity of the given type is handed to.
    pub open spec fn routes(handlers: Seq<StatusHandler>, activity_type: Seq<char>) -> Seq<
        StatusHandler,
    >
        decreases handlers.len(),
    {
        if handlers.len() == 0 {
            Seq::empty()
        } else {
            let rest = Self::routes(handlers.drop_last(), activity_type);
            if handlers.last().takes() == activity_type {
                rest.push(handlers.last())
            } else {
                rest
            }
        }
    }

    /// The handlers that an Activity of the given type is handed to.
    pub fn dispatch(&self, activity_type: &str) -> (r: Vec<StatusHandler>)
        ensures
            r@ == Self::routes(self.handlers@, activity_type@),
    {
        let mut out: Vec<StatusHandler> = Vec::new();
        let mut i: usize = 0;
        assert(self.handlers@.take(0) =~= Seq::<StatusHandler>::empty());
        while i < self.handlers.len()
            invariant
                i <= self.handlers.len(),
                out@ == Self::routes(self.handlers@.take(i as int), activity_type@),
            decreases self.handlers.len() - i,
        {
            assert(self.handlers@.take(i + 1).drop_last() =~= self.handlers@.take(i as int));
            let handler: StatusHandler = self.handlers[i];
            if same_text(handler.activity_type(), activity_type) {
                out.push(handler);
            }
            i += 1;
        }
        assert(self.handlers@.take(i as int) =~= self.handlers@);
        out
    }
}

/// The handlers of the statuses core.
pub open spec fn status_handlers() -> Seq<StatusHandler> {
    seq![
        StatusHandler::CreateNote,
        StatusHandler::Announce,
        StatusHandler::Like,
        StatusHandler::Delete,
        StatusHandler::Update,
        StatusHandler::Undo,
    ]
}

/// Every handler of the statuses core is the one handler of its type.
pub proof fn law_every_type_has_one_handler(handler: StatusHandler)
    ensures
        InboundActivityDispatcher::routes(status_handlers(), handler.takes()) == seq![handler],
{
    reveal_strlit("Create");
    reveal_strlit("Announce");
    reveal_strlit("Like");
    reveal_strlit("Delete");
    reveal_strlit("Update");
    reveal_strlit("Undo");
    assert("Create"@[0] == 'C');
    assert("Delete"@[0] == 'D');
    assert("Update"@[0] == 'U');
    assert("Like"@[0] == 'L');
    assert("Undo"@[0] == 'U');
    assert("Create"@.len() == 6 && "Delete"@.len() == 6 && "Update"@.len() == 6);
    assert("Like"@.len() == 4 && "Undo"@.len() == 4 && "Announce"@.len() == 8);
    let all = status_handlers();
    assert(all.drop_last() =~= all.take(5));
    assert(all.take(5).drop_last() =~= all.take(4));
    assert(all.take(4).drop_last() =~= all.take(3));
    assert(all.take(3).drop_last() =~= all.take(2));
    assert(all.take(2).drop_last() =~= all.take(1));
    assert(all.take(1).drop_last() =~= Seq::<StatusHandler>::empty());
    reveal_with_fuel(InboundActivityDispatcher::routes, 7);
    assert(InboundActivityDispatcher::routes(all, handler.takes()) =~= seq![handler]);
}

/// Registers the handlers of the statuses core.
pub fn register_status_handlers(dispatcher: &mut InboundActivityDispatcher)
    ensures
        final(dispatcher).handlers@ == old(dispatcher).handlers@ + status_handlers(),
{
    dispatcher.handlers.push(StatusHandler::CreateNote);
    dispatcher.handlers.push(StatusHandler::Announce);
    dispatcher.handlers.push(StatusHandler::Like);
    dispatcher.handlers.push(StatusHandler::Delete);
    dispatcher.handlers.push(StatusHandler::Update);
    dispatcher.handlers.push(StatusHandler::Undo);
    assert(dispatcher.handlers@ =~= old(dispatcher).handlers@ + status_handlers());
}

} // verus!
