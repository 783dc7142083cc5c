use statuses::activity_builder::{DeliveryRequest, StatusActivityBuilder, UndoKind};
use statuses::clock::Timestamp;
use statuses::domain::{AccountRef, ActorUrls, Handle, Id, Recipient, Visibility};
use statuses::effects::{Effect, Fresh};
use statuses::error::{AppError, ErrorKind, NOT_FOUND, UNPROCESSABLE_ENTITY};
use statuses::interaction_repository::{list_bookmarks, BookmarkedStatusRow, StatusRow};
use statuses::interaction_rows::{
    add_bookmark, add_favourite, exists_bookmark, exists_favourite, exists_pin, find_reblog,
    remove_bookmark, remove_favourite, set_pin, BookmarkRow, InteractionRow,
};
use statuses::interaction_service::{
    account_ref_for_notification, refetched, BookmarkStep, InteractionService, ReblogDecision,
    UnreblogDecision,
};
use statuses::json::{string_array_prop, Json, JsonObject};
use statuses::model::{CountKind, Status};
use statuses::notification_sink::{NoopSink, NotificationEvent, NotificationType};

const ALICE: i64 = 10;
const BOB: i64 = 20;
const CAROL: i64 = 30;

fn now() -> Timestamp {
    Timestamp::new(1_784_851_200_000_000_000, 0).expect("within the calendar")
}

fn handle(actor: Id) -> Handle {
    Handle::new(match actor.as_i64() {
        ALICE => "alice",
        CAROL => "carol",
        _ => "bob",
    })
}

/// A server with three local actors.
struct Server {
    service: InteractionService,
    next_id: i64,
    statuses: Vec<Status>,
    favourites: Vec<InteractionRow>,
    bookmarks: Vec<BookmarkRow>,
    pins: Vec<InteractionRow>,
    sent: Vec<DeliveryRequest>,
    events: Vec<NotificationEvent>,
}

impl Server {
    fn new() -> Server {
        Server {
            service: InteractionService::new(StatusActivityBuilder::new(ActorUrls::new(
                "kawasemi.example",
            ))),
            next_id: 1,
            statuses: Vec::new(),
            favourites: Vec::new(),
            bookmarks: Vec::new(),
            pins: Vec::new(),
            sent: Vec::new(),
            events: Vec::new(),
        }
    }

    fn fresh(&mut self) -> Fresh {
        let id = Id::from_i64(self.next_id);
        self.next_id += 1;
        Fresh { id, now: now() }
    }

    fn post(&mut self, author: i64, visibility: Visibility) -> Status {
        let id = self.fresh().id;
        let status = Status {
            id,
            actor_id: Id::from_i64(author),
            uri: format!("https://kawasemi.example/statuses/{}", id.as_i64()),
            url: None,
            content: "a post".to_string(),
            visibility,
            sensitive: false,
            spoiler_text: String::new(),
            in_reply_to_id: None,
            in_reply_to_account_id: None,
            reblog_of_id: None,
            poll_id: None,
            language: None,
            reblogs_count: 0,
            favourites_count: 0,
            replies_count: 0,
            local: true,
            created_at: now(),
            edited_at: None,
        };
        self.statuses.push(status.clone());
        status
    }

    fn find(&self, id: Id) -> Option<Status> {
        self.statuses.iter().find(|s| s.id == id).cloned()
    }

    /// Public and unlisted posts are visible to everyone, others to their
    /// author.
    fn visible(&self, status: &Status, viewer: Id) -> bool {
        status.actor_id == viewer
            || status.visibility == Visibility::Public
            || status.visibility == Visibility::Unlisted
    }

    fn apply(&mut self, effects: Vec<Effect>) {
        for effect in effects {
            match effect {
                Effect::InsertStatus(status) => self.statuses.push(status),
                Effect::DeleteStatus(id) => self.statuses.retain(|s| s.id != id),
                Effect::AdjustCounts { status_id, kind, delta } => {
                    for status in self.statuses.iter_mut() {
                        if status.id == status_id {
                            match kind {
                                CountKind::Reblogs => status.reblogs_count += delta,
                                CountKind::Favourites => status.favourites_count += delta,
                                CountKind::Replies => status.replies_count += delta,
                            }
                        }
                    }
                }
                Effect::AddBookmark { id, actor_id, status_id, at } => {
                    add_bookmark(&mut self.bookmarks, id, actor_id, status_id, at);
                }
                Effect::RemoveBookmark { actor_id, status_id } => {
                    remove_bookmark(&mut self.bookmarks, actor_id, status_id);
                }
                Effect::SetPin { actor_id, status_id, pinned, at } => {
                    set_pin(&mut self.pins, actor_id, status_id, pinned, at);
                }
                other => panic!("no local interaction asks for {other:?}"),
            }
        }
    }

    fn reblog(&mut self, actor: i64, target: Id, followers: &[Recipient]) -> Result<Status, AppError> {
        let actor_id = Id::from_i64(actor);
        let stage = self.service.reblog(actor_id, self.find(target))?;
        let visible = self.visible(&stage.target, actor_id);
        let stage = stage.seen(visible)?;
        let existing = find_reblog(&self.statuses, actor_id, target);
        let fresh = self.fresh();
        let new = match self.service.reblog_checked(stage, existing, fresh) {
            ReblogDecision::Existing(boost) => return Ok(boost),
            ReblogDecision::New(new) => new,
        };
        self.apply(new.writes());
        let activity_id = self.fresh().id;
        let request = self.service.reblog_delivery(&new, &handle(actor_id), followers, activity_id);
        self.sent.push(request);
        let author = AccountRef::Local(new.target.actor_id);
        if let Some(event) = new.notification(author) {
            self.events.push(event);
        }
        Ok(new.reblog)
    }

    fn unreblog(&mut self, actor: i64, target: Id) -> Result<Status, AppError> {
        let actor_id = Id::from_i64(actor);
        let stage = self.service.unreblog(actor_id, self.find(target))?;
        let existing = find_reblog(&self.statuses, actor_id, target);
        match stage.checked(existing) {
            UnreblogDecision::Unchanged(status) => Ok(status),
            UnreblogDecision::Undo(applied) => {
                self.apply(applied.effects);
                let inner = self.fresh().id;
                let outer = self.fresh().id;
                let request = self.service.undo_delivery(
                    UndoKind::Announce,
                    &applied.status,
                    &handle(actor_id),
                    &handle(applied.status.actor_id),
                    inner,
                    outer,
                );
                self.sent.push(request);
                refetched(self.find(target))
            }
        }
    }

    fn favourite(&mut self, actor: i64, target: Id) -> Result<Status, AppError> {
        let actor_id = Id::from_i64(actor);
        let stage = self.service.favourite(actor_id, target, self.find(target))?;
        let visible = self.visible(&stage.target, actor_id);
        let stage = stage.seen(visible)?;
        let is_new = add_favourite(&mut self.favourites, stage.actor_id, stage.status_id, now());
        if let Some(new) = stage.recorded(is_new, now()) {
            let event = new.notification();
            let activity_id = self.fresh().id;
            let request = self.service.favourite_delivery(
                &new,
                &handle(actor_id),
                &handle(new.target.actor_id),
                activity_id,
            );
            self.sent.push(request);
            self.apply(new.effects);
            self.events.extend(event);
        }
        refetched(self.find(target))
    }

    fn unfavourite(&mut self, actor: i64, target: Id) -> Result<Status, AppError> {
        let actor_id = Id::from_i64(actor);
        let stage = self.service.unfavourite(actor_id, target, self.find(target))?;
        let removed = remove_favourite(&mut self.favourites, stage.actor_id, stage.status_id);
        if let Some(applied) = stage.removed(removed) {
            self.apply(applied.effects);
            let inner = self.fresh().id;
            let outer = self.fresh().id;
            let request = self.service.undo_delivery(
                UndoKind::Like,
                &applied.status,
                &handle(actor_id),
                &handle(applied.status.actor_id),
                inner,
                outer,
            );
            self.sent.push(request);
        }
        refetched(self.find(target))
    }

    fn bookmark(&mut self, actor: i64, target: Id, on: bool) -> Result<Status, AppError> {
        let actor_id = Id::from_i64(actor);
        let applied = match self.service.bookmark(actor_id, target, on, self.find(target))? {
            BookmarkStep::CheckVisible(stage) => {
                let visible = self.visible(&stage.target, actor_id);
                let fresh = self.fresh();
                stage.seen(visible, fresh)?
            }
            BookmarkStep::Apply(applied) => applied,
        };
        self.apply(applied.effects);
        Ok(applied.status)
    }

    fn pin(&mut self, actor: i64, target: Id, on: bool) -> Result<Status, AppError> {
        let applied =
            self.service.pin(Id::from_i64(actor), target, on, self.find(target), now())?;
        self.apply(applied.effects);
        Ok(applied.status)
    }
}

fn raw(request: &DeliveryRequest) -> &JsonObject {
    match &request.activity {
        Json::Object(object) => object,
        other => panic!("expected an object, got {other:?}"),
    }
}

fn kind(request: &DeliveryRequest) -> String {
    raw(request).get_text("type").expect("a type").clone()
}

#[test]
fn reblog_increments_count_and_dispatches_announce() {
    let mut server = Server::new();
    let target = server.post(ALICE, Visibility::Public);
    let followers = vec![Recipient::Local(Handle::new("dave"))];
    let boost = server.reblog(BOB, target.id, &followers).expect("must succeed");
    assert_eq!(boost.reblog_of_id, Some(target.id));
    assert_eq!(boost.actor_id, Id::from_i64(BOB));
    assert_eq!(boost.uri, format!("https://kawasemi.example/statuses/{}", boost.id.as_i64()));
    assert_eq!(boost.url.as_ref(), Some(&boost.uri));
    assert!(boost.local);
    assert_eq!(server.find(target.id).expect("still there").reblogs_count, 1);
    assert_eq!(server.sent.len(), 1);
    assert_eq!(kind(&server.sent[0]), "Announce");
    assert_eq!(server.sent[0].sender, Handle::new("bob"));
    assert_eq!(server.sent[0].recipients, followers);
    assert_eq!(
        string_array_prop(raw(&server.sent[0]), "cc"),
        vec!["https://kawasemi.example/users/bob/followers".to_string()]
    );
}

#[test]
fn reblogging_twice_does_not_duplicate_or_double_count() {
    let mut server = Server::new();
    let target = server.post(ALICE, Visibility::Public);
    let first = server.reblog(BOB, target.id, &[]).expect("must succeed");
    let second = server.reblog(BOB, target.id, &[]).expect("must succeed");
    assert_eq!(first.id, second.id);
    assert_eq!(server.find(target.id).expect("still there").reblogs_count, 1);
    assert_eq!(server.sent.len(), 1);
}

#[test]
fn reblogging_an_invisible_private_status_is_rejected() {
    let mut server = Server::new();
    let target = server.post(ALICE, Visibility::Private);
    let err = server.reblog(BOB, target.id, &[]).expect_err("must be rejected");
    assert_eq!(err.status, NOT_FOUND);
    assert_eq!(err.public_message, "status not found");
    assert!(server.sent.is_empty());
}

#[test]
fn unreblog_decrements_count_and_dispatches_undo_announce() {
    let mut server = Server::new();
    let target = server.post(ALICE, Visibility::Public);
    server.reblog(BOB, target.id, &[]).expect("must succeed");
    let shown = server.unreblog(BOB, target.id).expect("must succeed");
    assert_eq!(shown.reblogs_count, 0);
    assert_eq!(server.statuses.len(), 1);
    assert_eq!(kind(&server.sent[1]), "Undo");
    let inner = raw(&server.sent[1]).get_object("object").expect("embedded");
    assert_eq!(inner.get_text("type").map(|s| s.as_str()), Some("Announce"));
    assert_eq!(server.sent[1].recipients, vec![Recipient::Local(Handle::new("alice"))]);
}

#[test]
fn unreblog_without_a_prior_reblog_is_a_no_op() {
    let mut server = Server::new();
    let target = server.post(ALICE, Visibility::Public);
    let shown = server.unreblog(BOB, target.id).expect("must succeed");
    assert_eq!(shown, target);
    assert!(server.sent.is_empty());
}

#[test]
fn favourite_increments_count_and_dispatches_like() {
    let mut server = Server::new();
    let target = server.post(ALICE, Visibility::Public);
    let shown = server.favourite(BOB, target.id).expect("must succeed");
    assert_eq!(shown.favourites_count, 1);
    assert_eq!(kind(&server.sent[0]), "Like");
    assert_eq!(server.sent[0].recipients, vec![Recipient::Local(Handle::new("alice"))]);
    assert_eq!(
        string_array_prop(raw(&server.sent[0]), "to"),
        vec!["https://kawasemi.example/users/alice".to_string()]
    );
}

#[test]
fn favouriting_twice_does_not_double_count() {
    let mut server = Server::new();
    let target = server.post(ALICE, Visibility::Public);
    server.favourite(BOB, target.id).expect("must succeed");
    let shown = server.favourite(BOB, target.id).expect("must succeed");
    assert_eq!(shown.favourites_count, 1);
    assert_eq!(server.sent.len(), 1);
}

#[test]
fn favouriting_what_cannot_be_seen_is_rejected() {
    let mut server = Server::new();
    let target = server.post(ALICE, Visibility::Direct);
    assert_eq!(server.favourite(BOB, target.id).expect_err("hidden").status, NOT_FOUND);
    assert_eq!(server.favourite(BOB, Id::from_i64(99)).expect_err("unknown").status, NOT_FOUND);
    assert!(server.favourites.is_empty());
}

#[test]
fn unfavourite_decrements_count_and_dispatches_undo_like() {
    let mut server = Server::new();
    let target = server.post(ALICE, Visibility::Public);
    server.favourite(BOB, target.id).expect("must succeed");
    let shown = server.unfavourite(BOB, target.id).expect("must succeed");
    assert_eq!(shown.favourites_count, 0);
    assert_eq!(kind(&server.sent[1]), "Undo");
    let inner = raw(&server.sent[1]).get_object("object").expect("embedded");
    assert_eq!(inner.get_text("type").map(|s| s.as_str()), Some("Like"));
    server.unfavourite(BOB, target.id).expect("must succeed");
    assert_eq!(server.sent.len(), 2);
}

#[test]
fn bookmark_and_unbookmark_persist_state_with_no_federation_dispatch() {
    let mut server = Server::new();
    let target = server.post(ALICE, Visibility::Public);
    let bob = Id::from_i64(BOB);
    assert_eq!(server.bookmark(BOB, target.id, true).expect("must succeed"), target);
    assert!(exists_bookmark(&server.bookmarks, bob, target.id));
    assert_eq!(server.bookmark(BOB, target.id, false).expect("must succeed"), target);
    assert!(!exists_bookmark(&server.bookmarks, bob, target.id));
    assert!(server.sent.is_empty());
    assert!(server.events.is_empty());
}

#[test]
fn only_setting_a_bookmark_asks_for_visibility() {
    let mut server = Server::new();
    let target = server.post(ALICE, Visibility::Private);
    assert_eq!(server.bookmark(BOB, target.id, true).expect_err("hidden").status, NOT_FOUND);
    assert!(server.bookmark(BOB, target.id, false).is_ok());
}

#[test]
fn pin_and_unpin_own_status_with_no_federation_dispatch() {
    let mut server = Server::new();
    let target = server.post(ALICE, Visibility::Public);
    let alice = Id::from_i64(ALICE);
    server.pin(ALICE, target.id, true).expect("must succeed");
    assert!(exists_pin(&server.pins, alice, target.id));
    server.pin(ALICE, target.id, false).expect("must succeed");
    assert!(!exists_pin(&server.pins, alice, target.id));
    assert!(server.sent.is_empty());
}

#[test]
fn pinning_a_non_owned_status_is_rejected() {
    let mut server = Server::new();
    let target = server.post(ALICE, Visibility::Public);
    assert_eq!(server.pin(BOB, target.id, true).expect_err("not theirs").status, NOT_FOUND);
    assert!(server.pins.is_empty());
}

#[test]
fn pinning_a_direct_status_is_rejected() {
    let mut server = Server::new();
    let target = server.post(ALICE, Visibility::Direct);
    let err = server.pin(ALICE, target.id, true).expect_err("must be rejected");
    assert_eq!(err.status, UNPROCESSABLE_ENTITY);
    assert_eq!(err.public_message, "a direct-visibility status cannot be pinned to a profile");
    assert!(server.pin(ALICE, target.id, false).is_ok());
}

#[test]
fn favourite_emits_a_favourite_notification_event() {
    let mut server = Server::new();
    let target = server.post(ALICE, Visibility::Public);
    server.favourite(BOB, target.id).expect("must succeed");
    assert_eq!(
        server.events,
        vec![NotificationEvent {
            recipient: AccountRef::Local(Id::from_i64(ALICE)),
            origin: AccountRef::Local(Id::from_i64(BOB)),
            kind: NotificationType::Favourite,
            target_status_id: Some(target.id),
            occurred_at: now(),
        }]
    );
}

#[test]
fn favouriting_twice_emits_only_one_notification_event() {
    let mut server = Server::new();
    let target = server.post(ALICE, Visibility::Public);
    server.favourite(BOB, target.id).expect("must succeed");
    server.favourite(BOB, target.id).expect("must succeed");
    assert_eq!(server.events.len(), 1);
}

#[test]
fn unfavourite_does_not_emit_a_notification_event() {
    let mut server = Server::new();
    let target = server.post(ALICE, Visibility::Public);
    server.favourite(BOB, target.id).expect("must succeed");
    assert_eq!(server.events.len(), 1);
    server.unfavourite(BOB, target.id).expect("must succeed");
    assert_eq!(server.events.len(), 1);
}

#[test]
fn self_favourite_does_not_emit_a_notification_event() {
    let mut server = Server::new();
    let target = server.post(ALICE, Visibility::Public);
    server.favourite(ALICE, target.id).expect("must succeed");
    assert!(server.events.is_empty());
    assert_eq!(server.sent.len(), 1);
}

#[test]
fn reblog_emits_a_reblog_notification_event() {
    let mut server = Server::new();
    let target = server.post(ALICE, Visibility::Public);
    server.reblog(BOB, target.id, &[]).expect("must succeed");
    assert_eq!(server.events.len(), 1);
    assert_eq!(server.events[0].kind, NotificationType::Reblog);
    assert_eq!(server.events[0].recipient, AccountRef::Local(Id::from_i64(ALICE)));
    assert_eq!(server.events[0].origin, AccountRef::Local(Id::from_i64(BOB)));
    assert_eq!(server.events[0].target_status_id, Some(target.id));
}

#[test]
fn reblogging_twice_emits_only_one_notification_event() {
    let mut server = Server::new();
    let target = server.post(ALICE, Visibility::Public);
    server.reblog(BOB, target.id, &[]).expect("must succeed");
    server.reblog(BOB, target.id, &[]).expect("must succeed");
    assert_eq!(server.events.len(), 1);
}

#[test]
fn unreblog_does_not_emit_a_notification_event() {
    let mut server = Server::new();
    let target = server.post(ALICE, Visibility::Public);
    server.reblog(BOB, target.id, &[]).expect("must succeed");
    assert_eq!(server.events.len(), 1);
    server.unreblog(BOB, target.id).expect("must succeed");
    assert_eq!(server.events.len(), 1);
}

#[test]
fn self_reblog_does_not_emit_a_notification_event() {
    let mut server = Server::new();
    let target = server.post(ALICE, Visibility::Public);
    server.reblog(ALICE, target.id, &[]).expect("must succeed");
    assert!(server.events.is_empty());
}

#[test]
fn favourite_counter_matches_the_actual_favourite_row_count_at_every_step() {
    let mut server = Server::new();
    let target = server.post(ALICE, Visibility::Public);
    let rows_on_target = |server: &Server| {
        server.favourites.iter().filter(|row| row.status_id == target.id).count() as i64
    };
    assert_eq!(target.favourites_count, 0);
    assert_eq!(rows_on_target(&server), 0);
    let steps = [
        (BOB, true, 1),
        (BOB, true, 1),
        (CAROL, true, 2),
        (BOB, false, 1),
        (BOB, false, 1),
        (ALICE, true, 2),
    ];
    for (actor, on, expected) in steps {
        let shown = if on {
            server.favourite(actor, target.id).expect("must succeed")
        } else {
            server.unfavourite(actor, target.id).expect("must succeed")
        };
        assert_eq!(shown.favourites_count, expected);
        assert_eq!(rows_on_target(&server), expected);
    }
}

#[test]
fn a_direct_boost_is_addressed_and_sent_to_nobody() {
    let mut server = Server::new();
    let target = server.post(ALICE, Visibility::Direct);
    let followers = vec![Recipient::Local(Handle::new("dave"))];
    server.reblog(ALICE, target.id, &followers).expect("must succeed");
    assert!(server.sent[0].recipients.is_empty());
    assert!(string_array_prop(raw(&server.sent[0]), "to").is_empty());
    assert!(string_array_prop(raw(&server.sent[0]), "cc").is_empty());
}

#[test]
fn an_author_without_a_local_handle_is_remote() {
    let id = Id::from_i64(7);
    assert_eq!(
        account_ref_for_notification(id, Ok(Handle::new("alice"))).unwrap(),
        AccountRef::Local(id)
    );
    let unknown = AppError::client(NOT_FOUND, "no such actor".to_string());
    assert_eq!(account_ref_for_notification(id, Err(unknown)).unwrap(), AccountRef::Remote(id));
    let failure = AppError {
        kind: ErrorKind::Server,
        status: 500,
        public_message: "internal error".to_string(),
        tag: None,
    };
    assert_eq!(account_ref_for_notification(id, Err(failure.clone())), Err(failure));
}

#[test]
fn a_status_that_is_gone_after_an_interaction_is_not_found() {
    assert_eq!(refetched(None).expect_err("gone").status, NOT_FOUND);
}

#[test]
fn noop_sink_returns_ok_and_touches_nothing() {
    let event = NotificationEvent {
        recipient: AccountRef::Local(Id::from_i64(1)),
        origin: AccountRef::Local(Id::from_i64(2)),
        kind: NotificationType::Favourite,
        target_status_id: Some(Id::from_i64(3)),
        occurred_at: now(),
    };
    assert!(NoopSink.emit(event).is_ok());
}

#[test]
fn favourites_seen_by_the_service_are_the_rows() {
    let mut server = Server::new();
    let target = server.post(ALICE, Visibility::Public);
    server.favourite(BOB, target.id).expect("must succeed");
    assert!(exists_favourite(&server.favourites, Id::from_i64(BOB), target.id));
    assert!(!exists_favourite(&server.favourites, Id::from_i64(ALICE), target.id));
}

/// The row of a public status.
fn stored(status: &Status) -> StatusRow {
    StatusRow {
        id: status.id.as_i64(),
        actor_id: status.actor_id.as_i64(),
        uri: status.uri.clone(),
        url: status.url.clone(),
        content: status.content.clone(),
        visibility: "public".to_string(),
        sensitive: status.sensitive,
        spoiler_text: status.spoiler_text.clone(),
        in_reply_to_id: None,
        in_reply_to_account_id: None,
        reblog_of_id: None,
        poll_id: None,
        language: status.language.clone(),
        reblogs_count: status.reblogs_count,
        favourites_count: status.favourites_count,
        replies_count: status.replies_count,
        local: status.local,
        created_at: status.created_at,
        edited_at: status.edited_at,
    }
}

#[test]
fn list_bookmarks_returns_bookmarked_statuses() {
    let mut server = Server::new();
    let first = server.post(ALICE, Visibility::Public);
    let second = server.post(ALICE, Visibility::Public);
    server.post(ALICE, Visibility::Public);
    server.bookmark(BOB, first.id, true).expect("must succeed");
    server.bookmark(BOB, second.id, true).expect("must succeed");
    server.bookmark(CAROL, first.id, true).expect("must succeed");
    let rows: Vec<BookmarkedStatusRow> = server
        .bookmarks
        .iter()
        .map(|mark| BookmarkedStatusRow {
            bookmark_id: mark.id.as_i64(),
            actor_id: mark.actor_id.as_i64(),
            status: stored(&server.find(mark.status_id).expect("still there")),
        })
        .collect();
    let listed: Vec<Status> =
        list_bookmarks(rows, Id::from_i64(BOB)).into_iter().map(|pair| pair.1).collect();
    assert_eq!(listed, vec![second, first]);
}
