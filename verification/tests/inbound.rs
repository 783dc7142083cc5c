use statuses::clock::Timestamp;
use statuses::create_note::{CreateNoteHandler, NoteRoute};
use statuses::domain::{AccountRef, Id, Visibility};
use statuses::effects::{Effect, Fresh, HandleOutcome, Step};
use statuses::error::{AppError, ErrorKind, FORBIDDEN, UNPROCESSABLE_ENTITY};
use statuses::inbound_handlers::{
    register_status_handlers, undo_announce, undo_like, AnnounceHandler, DeleteHandler,
    InboundActivityDispatcher, LikeHandler, ParsedActivity, StatusHandler, UndoHandler, UndoRecord,
    UpdateHandler,
};
use statuses::interaction_rows::{
    add_favourite, find_reblog, remove_favourite, InteractionRow,
};
use statuses::json::{Json, JsonObject};
use statuses::model::{CountKind, Mention, Poll, PollOption, PollVote, Status, StatusEdit};
use statuses::note_ingest::{
    finish_ingest, ingest_note_object, resolve_mentions, resolved_ids, NoteKnown,
};
use statuses::notification_sink::{NotificationEvent, NotificationType};
use statuses::poll_repository::{tally, PollBook, VoteWrite};

const TEST_DOMAIN: &str = "kawasemi.example";
const PUBLIC: &str = "https://www.w3.org/ns/activitystreams#Public";
const REMOTE_ALICE: &str = "https://remote.example/actors/alice";
const ALICE: i64 = 900;
const BOB: i64 = 901;

fn now() -> Timestamp {
    Timestamp::new(1_784_851_200_000_000_000, 0).expect("within the calendar")
}

fn text(value: &str) -> Json {
    Json::Str(value.to_string())
}

fn object(entries: Vec<(&str, Json)>) -> Json {
    let mut out = JsonObject::new();
    for (key, value) in entries {
        out.insert(key, value);
    }
    Json::Object(out)
}

fn activity(id: &str, activity_type: &str, inner: Json) -> ParsedActivity {
    ParsedActivity {
        id: id.to_string(),
        activity_type: activity_type.to_string(),
        raw: object(vec![
            ("id", text(id)),
            ("type", text(activity_type)),
            ("actor", text(REMOTE_ALICE)),
            ("object", inner),
        ]),
    }
}

/// What the handlers read and change.
struct World {
    next_id: i64,
    statuses: Vec<Status>,
    edits: Vec<StatusEdit>,
    favourites: Vec<InteractionRow>,
    polls: Vec<Poll>,
    options: Vec<PollOption>,
    votes: Vec<PollVote>,
    events: Vec<NotificationEvent>,
    mentions: Vec<(Id, Vec<Id>)>,
    tags: Vec<(Id, String)>,
    handles: Vec<(String, Id)>,
}

impl World {
    fn new() -> World {
        World {
            next_id: 1,
            statuses: Vec::new(),
            edits: Vec::new(),
            favourites: Vec::new(),
            polls: Vec::new(),
            options: Vec::new(),
            votes: Vec::new(),
            events: Vec::new(),
            mentions: Vec::new(),
            tags: Vec::new(),
            handles: Vec::new(),
        }
    }

    fn fresh(&mut self) -> Fresh {
        let id = Id::from_i64(self.next_id);
        self.next_id += 1;
        Fresh { id, now: now() }
    }

    fn post(&mut self, author: i64, local: bool, poll_id: Option<Id>) -> Status {
        let id = self.fresh().id;
        let status = Status {
            id,
            actor_id: Id::from_i64(author),
            uri: format!("https://{}/statuses/{}", if local { TEST_DOMAIN } else { "remote.example" }, id.as_i64()),
            url: None,
            content: "a post".to_string(),
            visibility: Visibility::Public,
            sensitive: false,
            spoiler_text: String::new(),
            in_reply_to_id: None,
            in_reply_to_account_id: None,
            reblog_of_id: None,
            poll_id,
            language: None,
            reblogs_count: 0,
            favourites_count: 0,
            replies_count: 0,
            local,
            created_at: now(),
            edited_at: None,
        };
        self.statuses.push(status.clone());
        status
    }

    fn find_by_uri(&self, uri: &str) -> Option<Status> {
        self.statuses.iter().find(|s| s.uri == uri).cloned()
    }

    fn find(&self, id: Id) -> Option<Status> {
        self.statuses.iter().find(|s| s.id == id).cloned()
    }

    fn apply(&mut self, effects: Vec<Effect>) {
        for effect in effects {
            match effect {
                Effect::InsertStatus(status) => self.statuses.push(status),
                Effect::DeleteStatus(id) => self.statuses.retain(|s| s.id != id),
                Effect::AdjustCounts { status_id, kind, delta } => {
                    for status in self.statuses.iter_mut() {
                        if status.id == status_id {
                            match kind {
                                CountKind::Reblogs => status.reblogs_count += delta,
                                CountKind::Favourites => status.favourites_count += delta,
                                CountKind::Replies => status.replies_count += delta,
                            }
                        }
                    }
                }
                Effect::ApplyEdit { row_id: _, edit, at } => {
                    for status in self.statuses.iter_mut() {
                        if status.id == edit.status_id {
                            self.edits.push(StatusEdit {
                                status_id: status.id,
                                content: status.content.clone(),
                                spoiler_text: status.spoiler_text.clone(),
                                sensitive: status.sensitive,
                                created_at: at,
                            });
                            status.content = edit.content.clone();
                            status.spoiler_text = edit.spoiler_text.clone();
                            status.sensitive = edit.sensitive;
                            status.edited_at = Some(at);
                        }
                    }
                }
                Effect::AssociateTag { status_id, tag } => self.tags.push((status_id, tag.name)),
                Effect::InsertMentions { status_id, actor_ids } => {
                    self.mentions.push((status_id, actor_ids))
                }
                Effect::Vote(VoteWrite::Insert(vote)) => self.votes.push(vote),
                Effect::Vote(VoteWrite::Count { poll_id, idx }) => {
                    for option in self.options.iter_mut() {
                        if option.poll_id == poll_id && option.idx == idx {
                            option.votes_count += 1;
                        }
                    }
                }
                Effect::Emit(event) => self.events.push(event),
                other => panic!("no handler asks for {other:?}"),
            }
        }
    }

    fn announce(&mut self, activity: &ParsedActivity, actor: i64) -> HandleOutcome {
        let lookup = match AnnounceHandler::new().handle(activity) {
            Step::Done(outcome) => return outcome,
            Step::Next(next) => next,
        };
        let target = self.find_by_uri(lookup.uri);
        let next = match lookup.found(target) {
            Step::Done(outcome) => return outcome,
            Step::Next(next) => next,
        };
        let duplicate = next.resolved(Id::from_i64(actor));
        let existing = find_reblog(&self.statuses, duplicate.actor_id, duplicate.target.id);
        let fresh = self.fresh();
        let plan = duplicate.checked(existing, fresh);
        self.apply(plan.effects);
        plan.outcome
    }

    fn like(&mut self, activity: &ParsedActivity, actor: i64) -> HandleOutcome {
        let lookup = match LikeHandler::new().handle(activity) {
            Step::Done(outcome) => return outcome,
            Step::Next(next) => next,
        };
        let target = self.find_by_uri(lookup.uri);
        let next = match lookup.found(target) {
            Step::Done(outcome) => return outcome,
            Step::Next(next) => next,
        };
        let record = next.resolved(Id::from_i64(actor));
        let is_new =
            add_favourite(&mut self.favourites, record.actor_id, record.target.id, now());
        let plan = record.recorded(is_new, now());
        self.apply(plan.effects);
        plan.outcome
    }

    fn undo(&mut self, activity: &ParsedActivity, actor: i64) -> Result<HandleOutcome, AppError> {
        let lookup = match UndoHandler::new().handle(activity)? {
            Step::Done(outcome) => return Ok(outcome),
            Step::Next(next) => next,
        };
        let target = self.find_by_uri(lookup.uri);
        let next = match lookup.found(target) {
            Step::Done(outcome) => return Ok(outcome),
            Step::Next(next) => next,
        };
        let plan = match next.resolved(Id::from_i64(actor)) {
            UndoRecord::FindReblog { target, actor_id } => {
                undo_announce(&target, find_reblog(&self.statuses, actor_id, target.id))
            }
            UndoRecord::RemoveFavourite { target, actor_id } => {
                let removed = remove_favourite(&mut self.favourites, actor_id, target.id);
                undo_like(&target, removed)
            }
        };
        self.apply(plan.effects);
        Ok(plan.outcome)
    }

    fn delete(&mut self, activity: &ParsedActivity, actor: i64) -> Result<HandleOutcome, AppError> {
        let lookup = match DeleteHandler::new().handle(activity) {
            Step::Done(outcome) => return Ok(outcome),
            Step::Next(next) => next,
        };
        let target = self.find_by_uri(lookup.uri);
        let next = match lookup.found(target) {
            Step::Done(outcome) => return Ok(outcome),
            Step::Next(next) => next,
        };
        let plan = next.resolved(Id::from_i64(actor))?;
        self.apply(plan.effects);
        Ok(plan.outcome)
    }

    fn update(&mut self, activity: &ParsedActivity, actor: i64) -> Result<HandleOutcome, AppError> {
        let lookup = match UpdateHandler::new().handle(activity)? {
            Step::Done(outcome) => return Ok(outcome),
            Step::Next(next) => next,
        };
        let target = self.find_by_uri(lookup.uri);
        let next = match lookup.found(target) {
            Step::Done(outcome) => return Ok(outcome),
            Step::Next(next) => next,
        };
        let fresh = self.fresh();
        let plan = next.resolved(Id::from_i64(actor), fresh)?;
        self.apply(plan.effects);
        Ok(plan.outcome)
    }

    fn look_up(&self, names: &[String]) -> Vec<Id> {
        let answers: Vec<Option<Id>> = names
            .iter()
            .map(|name| self.handles.iter().find(|h| h.0 == *name).map(|h| h.1))
            .collect();
        resolved_ids(&answers)
    }

    /// Takes a `Note` in, whose content holds `hashtags`. Whether it was
    /// unknown before.
    fn ingest(
        &mut self,
        note: &JsonObject,
        actor: Id,
        hashtags: &[String],
    ) -> Result<(Status, bool), AppError> {
        let lookup = ingest_note_object(note, actor)?;
        let existing = self.find_by_uri(lookup.uri);
        let parent_stage = match lookup.found(existing) {
            NoteKnown::Existing(status) => return Ok((status, false)),
            NoteKnown::New(next) => next,
        };
        let parent = parent_stage.parent_uri.and_then(|uri| self.find_by_uri(uri));
        let fresh = self.fresh();
        let draft = parent_stage.with_parent(parent, fresh);
        let status = draft.status.clone();
        let mut tag_ids: Vec<Id> = Vec::new();
        for _ in hashtags {
            tag_ids.push(self.fresh().id);
        }
        let first = draft.first_writes(hashtags, &tag_ids, now());
        self.apply(first);
        let names = resolve_mentions(TEST_DOMAIN, &draft.tag_mentions);
        let ids = self.look_up(&names);
        let last = draft.last_writes(ids);
        self.apply(last);
        Ok((status, true))
    }

    /// Takes the `Note` of a `Create` in. `hashtags` and `mentioned` are
    /// what its content holds.
    fn take_in(
        &mut self,
        note: &JsonObject,
        actor: Id,
        hashtags: &[String],
        mentioned: &[Mention],
    ) -> Result<HandleOutcome, AppError> {
        let (status, is_new) = self.ingest(note, actor, hashtags)?;
        let ids = self.look_up(&resolve_mentions(TEST_DOMAIN, mentioned));
        let plan = finish_ingest(actor, status.id, is_new, &ids, now());
        self.apply(plan.effects);
        Ok(plan.outcome)
    }

    fn create(
        &mut self,
        activity: &ParsedActivity,
        actor: i64,
        hashtags: &[String],
        mentioned: &[Mention],
    ) -> Result<HandleOutcome, AppError> {
        let handler = CreateNoteHandler::new(TEST_DOMAIN);
        let next = match handler.handle(activity) {
            Step::Done(outcome) => return Ok(outcome),
            Step::Next(next) => next,
        };
        let probe = match next.resolved(Id::from_i64(actor)) {
            NoteRoute::Ingest { object, actor_id } => {
                return self.take_in(object, actor_id, hashtags, mentioned);
            }
            NoteRoute::Vote(probe) => probe,
        };
        let target = self.find_by_uri(probe.in_reply_to_uri);
        let stage = match probe.found(target) {
            NoteRoute::Ingest { object, actor_id } => {
                return self.take_in(object, actor_id, hashtags, mentioned);
            }
            NoteRoute::Vote(stage) => stage,
        };
        let counted = tally(stage.poll_id, true, &self.options, &self.votes, None)?;
        let cast = match stage.tallied(&counted) {
            NoteRoute::Ingest { object, actor_id } => {
                return self.take_in(object, actor_id, hashtags, mentioned);
            }
            NoteRoute::Vote(cast) => cast,
        };
        let book = PollBook {
            poll: self.polls.iter().find(|p| p.id == cast.poll_id).copied(),
            valid_indices: self
                .options
                .iter()
                .filter(|o| o.poll_id == cast.poll_id)
                .map(|o| o.idx)
                .collect(),
            already_voted: self
                .votes
                .iter()
                .any(|v| v.poll_id == cast.poll_id && v.actor_id == cast.actor_id),
        };
        let plan = cast.cast(now(), &book)?;
        self.apply(plan.effects);
        Ok(plan.outcome)
    }

    fn poll_post(&mut self, titles: &[&str]) -> (Status, Id) {
        let poll_id = self.fresh().id;
        let status = self.post(10, true, Some(poll_id));
        self.polls.push(Poll { id: poll_id, status_id: status.id, expires_at: None, multiple: false });
        let mut idx: i32 = 0;
        for title in titles {
            self.options.push(PollOption { poll_id, idx, title: title.to_string(), votes_count: 0 });
            idx += 1;
        }
        (status, poll_id)
    }
}

fn mention(local: &str, domain: Option<&str>) -> Mention {
    Mention { local: local.to_string(), domain: domain.map(|d| d.to_string()) }
}

#[test]
fn create_note_ingests_a_remote_status_with_reply_and_visibility() {
    let mut world = World::new();
    let parent = world.post(10, true, None);
    let create = activity(
        "https://remote.example/activities/create-1",
        "Create",
        object(vec![
            ("id", text("https://remote.example/notes/1")),
            ("type", text("Note")),
            ("attributedTo", text(REMOTE_ALICE)),
            ("content", text("hello #kawasemi")),
            ("inReplyTo", text(&parent.uri)),
            ("published", text("2026-07-24T09:00:00+09:00")),
            ("to", Json::Array(vec![text("https://remote.example/actors/alice/followers")])),
            ("cc", Json::Array(vec![text(PUBLIC)])),
        ]),
    );
    let outcome = world.create(&create, ALICE, &["kawasemi".to_string()], &[]).expect("handled");
    assert_eq!(outcome, HandleOutcome::Handled);
    let ingested = world.find_by_uri("https://remote.example/notes/1").expect("ingested");
    assert_eq!(ingested.visibility, Visibility::Unlisted);
    assert!(!ingested.local);
    assert_eq!(ingested.url.as_deref(), Some("https://remote.example/notes/1"));
    assert_eq!(ingested.in_reply_to_id, Some(parent.id));
    assert_eq!(ingested.in_reply_to_account_id, Some(parent.actor_id));
    assert_eq!(
        ingested.created_at,
        Timestamp::new((1_784_851_200 + 32_400) * 1_000_000_000, 32_400).expect("within the calendar")
    );
    assert_eq!(world.find(parent.id).expect("still there").replies_count, 1);
    assert!(world.tags.contains(&(ingested.id, "kawasemi".to_string())));
}

#[test]
fn an_unreadable_publication_time_is_the_time_of_arrival() {
    let mut world = World::new();
    let create = activity(
        "https://remote.example/activities/create-9",
        "Create",
        object(vec![
            ("id", text("https://remote.example/notes/9")),
            ("type", text("Note")),
            ("published", text("yesterday")),
        ]),
    );
    world.create(&create, ALICE, &[], &[]).expect("handled");
    let ingested = world.find_by_uri("https://remote.example/notes/9").expect("ingested");
    assert_eq!(ingested.created_at, now());
    assert_eq!(ingested.visibility, Visibility::Direct);
    assert_eq!(ingested.content, "");
}

#[test]
fn create_ignores_a_non_note_inner_object() {
    let mut world = World::new();
    let create = activity(
        "https://remote.example/activities/create-2",
        "Create",
        object(vec![
            ("id", text("https://remote.example/questions/1")),
            ("type", text("Question")),
        ]),
    );
    assert_eq!(world.create(&create, ALICE, &[], &[]).unwrap(), HandleOutcome::Ignored);
    assert!(world.statuses.is_empty());
}

#[test]
fn create_note_redelivery_is_idempotent() {
    let mut world = World::new();
    let create = activity(
        "https://remote.example/activities/create-3",
        "Create",
        object(vec![
            ("id", text("https://remote.example/notes/3")),
            ("type", text("Note")),
            ("content", text("redelivered")),
            ("to", Json::Array(vec![text(PUBLIC)])),
        ]),
    );
    assert_eq!(world.create(&create, ALICE, &[], &[]).unwrap(), HandleOutcome::Handled);
    assert_eq!(world.create(&create, ALICE, &[], &[]).unwrap(), HandleOutcome::Handled);
    assert_eq!(world.statuses.len(), 1);
}

#[test]
fn a_note_without_an_id_is_malformed() {
    let mut world = World::new();
    let create = activity(
        "https://remote.example/activities/create-4",
        "Create",
        object(vec![("type", text("Note")), ("content", text("anonymous"))]),
    );
    let err = world.create(&create, ALICE, &[], &[]).expect_err("malformed");
    assert_eq!(err.status, UNPROCESSABLE_ENTITY);
    assert_eq!(err.public_message, "Note object is missing a required 'id' property");
}

#[test]
fn create_note_matching_the_vote_wire_shape_records_a_vote_not_a_status() {
    let mut world = World::new();
    let (poll_status, poll_id) = world.poll_post(&["Pizza", "Sushi", "Tacos"]);
    let create = activity(
        "https://remote.example/activities/create-vote",
        "Create",
        object(vec![
            ("id", text("https://remote.example/notes/vote-1")),
            ("type", text("Note")),
            ("name", text("Sushi")),
            ("inReplyTo", text(&poll_status.uri)),
            ("to", Json::Array(vec![text(&poll_status.uri)])),
        ]),
    );
    assert_eq!(world.create(&create, BOB, &[], &[]).unwrap(), HandleOutcome::Handled);
    assert!(world.find_by_uri("https://remote.example/notes/vote-1").is_none());
    let result = tally(poll_id, true, &world.options, &world.votes, None).unwrap();
    let sushi = result.options.iter().find(|o| o.title == "Sushi").expect("Sushi must exist");
    assert_eq!(sushi.votes_count, 1);

    // The same vote again is handled, and counts once.
    assert_eq!(world.create(&create, BOB, &[], &[]).unwrap(), HandleOutcome::Handled);
    assert_eq!(world.votes.len(), 1);
}

#[test]
fn a_vote_in_a_closed_poll_is_an_error() {
    let mut world = World::new();
    let (poll_status, _) = world.poll_post(&["Pizza"]);
    world.polls[0].expires_at = Some(now());
    let create = activity(
        "https://remote.example/activities/create-late",
        "Create",
        object(vec![
            ("id", text("https://remote.example/notes/late")),
            ("type", text("Note")),
            ("name", text("Pizza")),
            ("inReplyTo", text(&poll_status.uri)),
        ]),
    );
    let err = world.create(&create, BOB, &[], &[]).expect_err("closed");
    assert_eq!(err.public_message, "poll has already closed");
}

#[test]
fn create_note_with_unmatched_name_falls_through_to_ordinary_ingestion() {
    let mut world = World::new();
    let (poll_status, _) = world.poll_post(&["Pizza", "Sushi"]);
    let create = activity(
        "https://remote.example/activities/create-not-a-vote",
        "Create",
        object(vec![
            ("id", text("https://remote.example/notes/not-a-vote")),
            ("type", text("Note")),
            ("name", text("Ramen")),
            ("inReplyTo", text(&poll_status.uri)),
            ("content", text("not actually a vote")),
            ("to", Json::Array(vec![text(PUBLIC)])),
        ]),
    );
    assert_eq!(world.create(&create, BOB, &[], &[]).unwrap(), HandleOutcome::Handled);
    assert!(world.find_by_uri("https://remote.example/notes/not-a-vote").is_some());
    assert!(world.votes.is_empty());
}

fn mentioning_note(uri: &str, content: &str) -> ParsedActivity {
    activity(
        "https://remote.example/activities/create-mention",
        "Create",
        object(vec![
            ("id", text(uri)),
            ("type", text("Note")),
            ("attributedTo", text(REMOTE_ALICE)),
            ("content", text(content)),
            ("to", Json::Array(vec![text(PUBLIC)])),
        ]),
    )
}

#[test]
fn create_note_mentioning_a_local_actor_emits_a_mention_notification_event_exactly_once() {
    let mut world = World::new();
    let bob = Id::from_i64(20);
    world.handles.push(("bob".to_string(), bob));
    let create = mentioning_note("https://remote.example/notes/mention-1", "hello @bob, welcome!");
    world.create(&create, ALICE, &[], &[mention("bob", None)]).expect("handled");
    world.create(&create, ALICE, &[], &[mention("bob", None)]).expect("handled");
    let ingested = world.find_by_uri("https://remote.example/notes/mention-1").expect("ingested");
    assert_eq!(world.events.len(), 1);
    assert_eq!(world.events[0].kind, NotificationType::Mention);
    assert_eq!(world.events[0].recipient, AccountRef::Local(bob));
    assert_eq!(world.events[0].origin, AccountRef::Remote(Id::from_i64(ALICE)));
    assert_eq!(world.events[0].target_status_id, Some(ingested.id));
}

#[test]
fn the_end_of_an_ingest_is_handled_and_tells_only_of_new_notes() {
    let (author, status) = (Id::from_i64(ALICE), Id::from_i64(5));
    let mentioned = [Id::from_i64(20), author, Id::from_i64(21)];
    let plan = finish_ingest(author, status, true, &mentioned, now());
    assert_eq!(plan.outcome, HandleOutcome::Handled);
    let event = |recipient: i64| {
        Effect::Emit(NotificationEvent {
            recipient: AccountRef::Local(Id::from_i64(recipient)),
            origin: AccountRef::Remote(author),
            kind: NotificationType::Mention,
            target_status_id: Some(status),
            occurred_at: now(),
        })
    };
    assert_eq!(plan.effects, vec![event(20), event(21)]);
    let known = finish_ingest(author, status, false, &mentioned, now());
    assert_eq!(known.outcome, HandleOutcome::Handled);
    assert!(known.effects.is_empty());
}

#[test]
fn create_note_mentioning_two_local_actors_emits_two_mention_notification_events() {
    let mut world = World::new();
    world.handles.push(("bob".to_string(), Id::from_i64(20)));
    world.handles.push(("carol".to_string(), Id::from_i64(21)));
    let create = mentioning_note("https://remote.example/notes/mention-2", "hey @bob and @carol");
    world
        .create(&create, ALICE, &[], &[mention("bob", None), mention("carol", None)])
        .expect("handled");
    assert_eq!(world.events.len(), 2);
    let recipients: Vec<AccountRef> = world.events.iter().map(|e| e.recipient).collect();
    assert_eq!(
        recipients,
        vec![AccountRef::Local(Id::from_i64(20)), AccountRef::Local(Id::from_i64(21))]
    );
    assert!(world.events.iter().all(|e| e.kind == NotificationType::Mention));
}

#[test]
fn create_note_mentioning_a_different_domain_emits_no_notification_event() {
    let mut world = World::new();
    world.handles.push(("bob".to_string(), Id::from_i64(20)));
    let create = mentioning_note("https://remote.example/notes/mention-3", "hi @bob@other.example");
    world
        .create(&create, ALICE, &[], &[mention("bob", Some("other.example"))])
        .expect("handled");
    assert!(world.events.is_empty());
}

#[test]
fn create_note_mentioning_an_unregistered_handle_emits_no_notification_event() {
    let mut world = World::new();
    let create = mentioning_note("https://remote.example/notes/mention-4", "hi @nobody");
    world.create(&create, ALICE, &[], &[mention("nobody", None)]).expect("handled");
    assert!(world.events.is_empty());
}

#[test]
fn create_note_self_mention_via_a_coincident_id_is_not_notified() {
    let mut world = World::new();
    world.handles.push(("alice".to_string(), Id::from_i64(ALICE)));
    let create =
        mentioning_note("https://remote.example/notes/mention-5", "talking to myself, @alice");
    world.create(&create, ALICE, &[], &[mention("alice", None)]).expect("handled");
    assert!(world.events.is_empty());
}

fn announce_of(uri: &str) -> ParsedActivity {
    activity("https://remote.example/activities/announce-1", "Announce", text(uri))
}

fn like_of(uri: &str) -> ParsedActivity {
    activity("https://remote.example/activities/like-1", "Like", text(uri))
}

#[test]
fn announce_of_a_local_post_records_reblog_and_increments_count() {
    let mut world = World::new();
    let target = world.post(10, true, None);
    let outcome = world.announce(&announce_of(&target.uri), ALICE);
    assert_eq!(outcome, HandleOutcome::Handled);
    assert_eq!(world.find(target.id).expect("still there").reblogs_count, 1);
    let boost = find_reblog(&world.statuses, Id::from_i64(ALICE), target.id).expect("recorded");
    assert_eq!(boost.uri, "https://remote.example/activities/announce-1");
    assert_eq!(boost.url, None);
    assert!(!boost.local);
    assert_eq!(boost.content, "");
}

#[test]
fn announce_of_a_local_post_emits_a_reblog_notification_event_exactly_once() {
    let mut world = World::new();
    let target = world.post(10, true, None);
    world.announce(&announce_of(&target.uri), ALICE);
    world.announce(&announce_of(&target.uri), ALICE);
    assert_eq!(world.events.len(), 1);
    assert_eq!(world.events[0].kind, NotificationType::Reblog);
    assert_eq!(world.events[0].recipient, AccountRef::Local(Id::from_i64(10)));
    assert_eq!(world.events[0].origin, AccountRef::Remote(Id::from_i64(ALICE)));
    assert_eq!(world.events[0].target_status_id, Some(target.id));
    assert_eq!(world.find(target.id).expect("still there").reblogs_count, 1);
}

#[test]
fn announce_of_a_remote_post_is_ignored() {
    let mut world = World::new();
    let target = world.post(10, false, None);
    assert_eq!(world.announce(&announce_of(&target.uri), ALICE), HandleOutcome::Ignored);
    assert!(world.events.is_empty());
    assert_eq!(world.statuses.len(), 1);
}

#[test]
fn announce_of_an_embedded_object_goes_by_its_id() {
    let mut world = World::new();
    let target = world.post(10, true, None);
    let announce = activity(
        "https://remote.example/activities/announce-2",
        "Announce",
        object(vec![("id", text(&target.uri))]),
    );
    assert_eq!(world.announce(&announce, ALICE), HandleOutcome::Handled);
    let nothing = activity("https://remote.example/activities/announce-3", "Announce", Json::Null);
    assert_eq!(world.announce(&nothing, ALICE), HandleOutcome::Ignored);
}

#[test]
fn like_of_a_local_post_increments_count_and_is_idempotent() {
    let mut world = World::new();
    let target = world.post(10, true, None);
    assert_eq!(world.like(&like_of(&target.uri), ALICE), HandleOutcome::Handled);
    assert_eq!(world.like(&like_of(&target.uri), ALICE), HandleOutcome::Handled);
    assert_eq!(world.find(target.id).expect("still there").favourites_count, 1);
    assert_eq!(world.favourites.len(), 1);
}

#[test]
fn like_of_a_local_post_emits_a_favourite_notification_event_exactly_once() {
    let mut world = World::new();
    let target = world.post(10, true, None);
    world.like(&like_of(&target.uri), ALICE);
    world.like(&like_of(&target.uri), ALICE);
    assert_eq!(world.events.len(), 1);
    assert_eq!(world.events[0].kind, NotificationType::Favourite);
    assert_eq!(world.events[0].recipient, AccountRef::Local(Id::from_i64(10)));
    assert_eq!(world.events[0].origin, AccountRef::Remote(Id::from_i64(ALICE)));
    assert_eq!(world.events[0].target_status_id, Some(target.id));
}

#[test]
fn like_of_a_remote_post_is_ignored_and_emits_no_notification() {
    let mut world = World::new();
    let target = world.post(10, false, None);
    assert_eq!(world.like(&like_of(&target.uri), ALICE), HandleOutcome::Ignored);
    assert!(world.events.is_empty());
    assert!(world.favourites.is_empty());
}

#[test]
fn an_interaction_with_ones_own_post_is_not_notified() {
    let mut world = World::new();
    let target = world.post(ALICE, true, None);
    world.like(&like_of(&target.uri), ALICE);
    world.announce(&announce_of(&target.uri), ALICE);
    assert!(world.events.is_empty());
    let refreshed = world.find(target.id).expect("still there");
    assert_eq!((refreshed.favourites_count, refreshed.reblogs_count), (1, 1));
}

fn delete_of(uri: &str) -> ParsedActivity {
    activity("https://remote.example/activities/delete-1", "Delete", text(uri))
}

#[test]
fn delete_removes_a_remote_origin_status_owned_by_the_signed_actor() {
    let mut world = World::new();
    let target = world.post(ALICE, false, None);
    assert_eq!(world.delete(&delete_of(&target.uri), ALICE).unwrap(), HandleOutcome::Handled);
    assert!(world.find(target.id).is_none());
}

#[test]
fn delete_is_forbidden_when_the_signed_actor_does_not_own_the_target() {
    let mut world = World::new();
    let target = world.post(ALICE, false, None);
    let err = world.delete(&delete_of(&target.uri), BOB).expect_err("must be rejected");
    assert_eq!(err.kind, ErrorKind::Client);
    assert_eq!(err.status, FORBIDDEN);
    assert_eq!(
        err.public_message,
        "the signed actor does not own the status named by this Delete"
    );
    assert!(world.find(target.id).is_some());
}

#[test]
fn delete_of_a_local_status_is_ignored() {
    let mut world = World::new();
    let target = world.post(ALICE, true, None);
    assert_eq!(world.delete(&delete_of(&target.uri), ALICE).unwrap(), HandleOutcome::Ignored);
    assert!(world.find(target.id).is_some());
}

fn update_of(uri: Option<&str>) -> ParsedActivity {
    let mut note = JsonObject::new();
    if let Some(uri) = uri {
        note.insert_text("id", uri);
    }
    note.insert_text("type", "Note");
    note.insert_text("content", "edited content");
    note.insert_text("summary", "cw");
    note.insert("sensitive", Json::Bool(true));
    activity("https://remote.example/activities/update-1", "Update", Json::Object(note))
}

#[test]
fn update_edits_a_remote_origin_status() {
    let mut world = World::new();
    let target = world.post(ALICE, false, None);
    let outcome = world.update(&update_of(Some(&target.uri)), ALICE).expect("handled");
    assert_eq!(outcome, HandleOutcome::Handled);
    let refreshed = world.find(target.id).expect("still there");
    assert_eq!(refreshed.content, "edited content");
    assert_eq!(refreshed.spoiler_text, "cw");
    assert!(refreshed.sensitive);
    assert!(refreshed.edited_at.is_some());
    assert_eq!(world.edits.len(), 1);
    assert_eq!(world.edits[0].content, "a post");
}

#[test]
fn update_of_anothers_or_a_local_status_changes_nothing() {
    let mut world = World::new();
    let theirs = world.post(ALICE, false, None);
    let ours = world.post(ALICE, true, None);
    let err = world.update(&update_of(Some(&theirs.uri)), BOB).expect_err("must be rejected");
    assert_eq!(err.status, FORBIDDEN);
    assert_eq!(
        err.public_message,
        "the signed actor does not own the status named by this Update"
    );
    assert_eq!(
        world.update(&update_of(Some(&ours.uri)), ALICE).unwrap(),
        HandleOutcome::Ignored
    );
    assert_eq!(world.find(theirs.id), Some(theirs.clone()));
    assert_eq!(world.find(ours.id), Some(ours.clone()));
}

#[test]
fn update_without_an_id_is_malformed() {
    let mut world = World::new();
    let err = world.update(&update_of(None), ALICE).expect_err("malformed");
    assert_eq!(err.status, UNPROCESSABLE_ENTITY);
    assert_eq!(err.public_message, "Update(Note) object is missing a required 'id' property");
}

fn undo_of(kind: &str, target: Option<&str>) -> ParsedActivity {
    let mut inner = JsonObject::new();
    inner.insert_text("id", "https://remote.example/activities/undone");
    inner.insert_text("type", kind);
    inner.insert_text("actor", REMOTE_ALICE);
    if let Some(uri) = target {
        inner.insert_text("object", uri);
    }
    activity("https://remote.example/activities/undo-1", "Undo", Json::Object(inner))
}

#[test]
fn undo_announce_reverts_reblog_and_decrements_count() {
    let mut world = World::new();
    let target = world.post(10, true, None);
    world.announce(&announce_of(&target.uri), ALICE);
    let outcome = world.undo(&undo_of("Announce", Some(&target.uri)), ALICE).expect("handled");
    assert_eq!(outcome, HandleOutcome::Handled);
    assert_eq!(world.find(target.id).expect("still there").reblogs_count, 0);
    assert_eq!(world.statuses.len(), 1);
    world.undo(&undo_of("Announce", Some(&target.uri)), ALICE).expect("handled");
    assert_eq!(world.find(target.id).expect("still there").reblogs_count, 0);
}

#[test]
fn undo_like_reverts_favourite_and_decrements_count() {
    let mut world = World::new();
    let target = world.post(10, true, None);
    world.like(&like_of(&target.uri), ALICE);
    world.undo(&undo_of("Like", Some(&target.uri)), ALICE).expect("handled");
    assert_eq!(world.find(target.id).expect("still there").favourites_count, 0);
    assert!(world.favourites.is_empty());
}

#[test]
fn undo_ignores_non_announce_or_like_inner_types() {
    let mut world = World::new();
    let undo = undo_of("Follow", Some("https://kawasemi.example/@someone"));
    assert_eq!(world.undo(&undo, ALICE).unwrap(), HandleOutcome::Ignored);
}

#[test]
fn undo_on_a_remote_post_is_ignored_and_changes_nothing() {
    for kind in ["Announce", "Like"] {
        let mut world = World::new();
        let target = world.post(10, false, None);
        let undo = undo_of(kind, Some(&target.uri));
        assert_eq!(world.undo(&undo, ALICE).unwrap(), HandleOutcome::Ignored);
        assert_eq!(world.statuses, vec![target]);
        assert!(world.favourites.is_empty());
        assert!(world.events.is_empty());
    }
}

#[test]
fn undo_on_an_unknown_post_is_handled() {
    for kind in ["Announce", "Like"] {
        let mut world = World::new();
        let undo = undo_of(kind, Some("https://remote.example/notes/unknown"));
        assert_eq!(world.undo(&undo, ALICE).unwrap(), HandleOutcome::Handled);
        assert!(world.statuses.is_empty());
    }
}

#[test]
fn undo_without_a_reference_is_malformed() {
    let mut world = World::new();
    let err = world.undo(&undo_of("Like", None), ALICE).expect_err("malformed");
    assert_eq!(err.status, UNPROCESSABLE_ENTITY);
    assert_eq!(
        err.public_message,
        "Undo's inner Activity is missing a required 'object' reference"
    );
}

#[test]
fn register_status_handlers_wires_create_through_the_real_dispatcher() {
    let mut dispatcher = InboundActivityDispatcher::new();
    register_status_handlers(&mut dispatcher);
    assert_eq!(dispatcher.dispatch("Create"), vec![StatusHandler::CreateNote]);

    let mut world = World::new();
    let create = activity(
        "https://remote.example/activities/create-dispatched",
        "Create",
        object(vec![
            ("id", text("https://remote.example/notes/dispatched-1")),
            ("type", text("Note")),
            ("content", text("dispatched via the real InboundActivityDispatcher")),
            ("to", Json::Array(vec![text(PUBLIC)])),
        ]),
    );
    for handler in dispatcher.dispatch(&create.activity_type) {
        assert_eq!(handler, StatusHandler::CreateNote);
        world.create(&create, ALICE, &[], &[]).expect("handled");
    }
    assert!(world.find_by_uri("https://remote.example/notes/dispatched-1").is_some());
}

#[test]
fn every_type_has_its_handler_and_no_other_type_has_one() {
    let mut dispatcher = InboundActivityDispatcher::new();
    assert!(dispatcher.dispatch("Create").is_empty());
    register_status_handlers(&mut dispatcher);
    assert_eq!(dispatcher.dispatch("Announce"), vec![StatusHandler::Announce]);
    assert_eq!(dispatcher.dispatch("Like"), vec![StatusHandler::Like]);
    assert_eq!(dispatcher.dispatch("Delete"), vec![StatusHandler::Delete]);
    assert_eq!(dispatcher.dispatch("Update"), vec![StatusHandler::Update]);
    assert_eq!(dispatcher.dispatch("Undo"), vec![StatusHandler::Undo]);
    assert!(dispatcher.dispatch("Follow").is_empty());
}
