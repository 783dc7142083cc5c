//! One instance sends, another reads.

use statuses::activity_builder::{DeliveryRequest, StatusActivityBuilder, UndoKind};
use statuses::addressing::{derive_addressing, ActorRef};
use statuses::clock::Timestamp;
use statuses::create_note::{CreateNoteHandler, NoteRoute};
use statuses::domain::{ActorUrls, Handle, Id, Recipient, Visibility};
use statuses::effects::{Effect, Fresh, HandleOutcome, Step};
use statuses::inbound_handlers::{
    AnnounceHandler, DeleteHandler, LikeHandler, ParsedActivity, UndoHandler, UpdateHandler,
};
use statuses::ingest_service::StatusIngestService;
use statuses::json::{Json, JsonObject};
use statuses::model::{Poll, PollOption, Status};
use statuses::note_ingest::{ingest_note_object, NoteKnown};
use statuses::poll_repository::PollTally;

const FOLLOWERS: &str = "https://kawasemi.example/users/alice/followers";

fn at(nanos: i128, offset: i32) -> Timestamp {
    Timestamp::new(nanos, offset).expect("within the calendar")
}

fn fresh() -> Fresh {
    Fresh { id: Id::from_i64(500), now: at(0, 0) }
}

fn builder() -> StatusActivityBuilder {
    StatusActivityBuilder::new(ActorUrls::new("kawasemi.example"))
}

fn alice() -> Handle {
    Handle::new("alice")
}

fn bob() -> ActorRef {
    ActorRef {
        uri: "https://remote.example/users/bob".to_string(),
        recipient: Recipient::Remote {
            inbox: "https://remote.example/inbox".to_string(),
            shared_inbox: None,
        },
    }
}

fn post(visibility: Visibility) -> Status {
    Status {
        id: Id::from_i64(7),
        actor_id: Id::from_i64(10),
        uri: "https://kawasemi.example/statuses/7".to_string(),
        url: None,
        content: "hello @bob".to_string(),
        visibility,
        sensitive: true,
        spoiler_text: "greeting".to_string(),
        in_reply_to_id: None,
        in_reply_to_account_id: None,
        reblog_of_id: None,
        poll_id: None,
        language: None,
        reblogs_count: 3,
        favourites_count: 4,
        replies_count: 5,
        local: true,
        created_at: at(1_784_851_200_250_000_000, 32400),
        edited_at: None,
    }
}

/// The delivered Activity as its receiver reads it.
fn received(request: DeliveryRequest) -> ParsedActivity {
    let (id, activity_type) = match &request.activity {
        Json::Object(top) => (
            top.get_text("id").expect("an id").clone(),
            top.get_text("type").expect("a type").clone(),
        ),
        other => panic!("expected an object, got {other:?}"),
    };
    ParsedActivity { id, activity_type, raw: request.activity }
}

fn create_of(status: &Status) -> ParsedActivity {
    let mentions = vec![bob()];
    let addressing = derive_addressing(status, &mentions, FOLLOWERS);
    received(builder().deliver_create(
        &alice(),
        Id::from_i64(1000),
        status,
        &addressing,
        Vec::new(),
        None,
        None,
    ))
}

fn taken_in(activity: &ParsedActivity) -> Status {
    let handler = CreateNoteHandler::new("remote.example");
    let stage = match handler.handle(activity) {
        Step::Next(stage) => stage,
        Step::Done(outcome) => panic!("the Note is to be taken in, got {outcome:?}"),
    };
    let (object, actor_id) = match stage.resolved(Id::from_i64(900)) {
        NoteRoute::Ingest { object, actor_id } => (object, actor_id),
        NoteRoute::Vote(probe) => panic!("no vote, got {probe:?}"),
    };
    match ingest_note_object(object, actor_id).expect("has an id").found(None) {
        NoteKnown::New(next) => next.with_parent(None, fresh()).status,
        NoteKnown::Existing(status) => panic!("nothing was stored, got {status:?}"),
    }
}

#[test]
fn a_published_status_is_taken_in_as_it_was_written() {
    for visibility in [
        Visibility::Public,
        Visibility::Unlisted,
        Visibility::Private,
        Visibility::Direct,
    ] {
        let status = post(visibility);
        let taken = taken_in(&create_of(&status));
        assert_eq!(taken.uri, status.uri);
        assert_eq!(taken.content, status.content);
        assert_eq!(taken.spoiler_text, status.spoiler_text);
        assert_eq!(taken.sensitive, status.sensitive);
        assert_eq!(taken.visibility, status.visibility);
        assert_eq!(taken.created_at, status.created_at);
        assert!(!taken.local);
        assert_eq!((taken.reblogs_count, taken.favourites_count, taken.replies_count), (0, 0, 0));
    }
}

#[test]
fn a_published_status_can_be_fetched_from_its_own_uri() {
    let status = post(Visibility::Public);
    let activity = create_of(&status);
    let document = match activity.raw {
        Json::Object(top) => {
            let mut found: Option<Json> = None;
            for (key, value) in top.entries {
                if key == "object" {
                    found = Some(value);
                }
            }
            found.expect("an object")
        }
        other => panic!("expected an object, got {other:?}"),
    };
    let service = StatusIngestService::new("remote.example");
    let stage = service.ingest_url(&status.uri, &document).expect("accepted");
    assert_eq!(stage.attributed_to.as_str(), "https://kawasemi.example/users/alice");
    assert!(service.ingest_url("https://elsewhere.example/statuses/7", &document).is_err());
}

#[test]
fn a_published_poll_is_left_alone() {
    let status = post(Visibility::Public);
    let poll = Poll {
        id: Id::from_i64(3),
        status_id: status.id,
        expires_at: None,
        multiple: false,
    };
    let options: Vec<PollOption> = Vec::new();
    let addressing = derive_addressing(&status, &[], FOLLOWERS);
    let activity = received(builder().deliver_create(
        &alice(),
        Id::from_i64(1000),
        &status,
        &addressing,
        Vec::new(),
        None,
        Some((&poll, &options)),
    ));
    let handler = CreateNoteHandler::new("remote.example");
    assert_eq!(handler.handle(&activity), Step::Done(HandleOutcome::Ignored));
}

#[test]
fn a_sent_vote_is_read_as_a_vote_for_the_same_option() {
    let target = post(Visibility::Public);
    let poll = Poll {
        id: Id::from_i64(3),
        status_id: target.id,
        expires_at: None,
        multiple: true,
    };
    let titles = vec!["Sushi".to_string()];
    let requests = builder().deliver_vote(
        &alice(),
        &[Id::from_i64(1000), Id::from_i64(1001)],
        &poll,
        &target,
        &titles,
        &bob(),
    );
    let activity = received(requests.into_iter().next().expect("one request"));

    let handler = CreateNoteHandler::new("remote.example");
    let stage = match handler.handle(&activity) {
        Step::Next(stage) => stage,
        Step::Done(outcome) => panic!("a vote, got {outcome:?}"),
    };
    let probe = match stage.resolved(Id::from_i64(900)) {
        NoteRoute::Vote(probe) => probe,
        NoteRoute::Ingest { .. } => panic!("a vote is not taken in"),
    };
    assert_eq!(probe.in_reply_to_uri.as_str(), target.uri);
    let mut stored = post(Visibility::Public);
    stored.poll_id = Some(poll.id);
    let stage = match probe.found(Some(stored)) {
        NoteRoute::Vote(stage) => stage,
        NoteRoute::Ingest { .. } => panic!("a vote is not taken in"),
    };
    let option = |idx: i32, title: &str| PollOption {
        poll_id: poll.id,
        idx,
        title: title.to_string(),
        votes_count: 0,
    };
    let tally = PollTally {
        poll_id: poll.id,
        options: vec![option(0, "Pizza"), option(1, "Sushi")],
        voters_count: 0,
        own_votes: Vec::new(),
    };
    match stage.tallied(&tally) {
        NoteRoute::Vote(cast) => {
            assert_eq!((cast.poll_id, cast.actor_id, cast.idx), (poll.id, Id::from_i64(900), 1))
        }
        NoteRoute::Ingest { .. } => panic!("a vote is not taken in"),
    }
}

#[test]
fn sent_interactions_name_their_target() {
    let target = post(Visibility::Public);
    let addressing = derive_addressing(&target, &[], FOLLOWERS);

    let announce = received(builder().deliver_announce(
        &alice(),
        Id::from_i64(1),
        &post(Visibility::Public),
        &target,
        &addressing,
        Vec::new(),
    ));
    match AnnounceHandler::new().handle(&announce) {
        Step::Next(lookup) => {
            assert_eq!(lookup.uri.as_str(), target.uri);
            assert_eq!(lookup.activity_id.as_str(), "https://kawasemi.example/activities/1");
        }
        Step::Done(outcome) => panic!("a reference, got {outcome:?}"),
    }

    let like = received(builder().deliver_like(&alice(), Id::from_i64(2), &target, &bob()));
    match LikeHandler::new().handle(&like) {
        Step::Next(lookup) => assert_eq!(lookup.uri.as_str(), target.uri),
        Step::Done(outcome) => panic!("a reference, got {outcome:?}"),
    }

    let delete = received(builder().deliver_delete(
        &alice(),
        Id::from_i64(3),
        &target,
        &addressing,
        Vec::new(),
    ));
    match DeleteHandler::new().handle(&delete) {
        Step::Next(lookup) => assert_eq!(lookup.uri.as_str(), target.uri),
        Step::Done(outcome) => panic!("a reference, got {outcome:?}"),
    }

    for (undone, is_announce) in [(UndoKind::Announce, true), (UndoKind::Like, false)] {
        let undo = received(builder().deliver_undo(
            &alice(),
            Id::from_i64(4),
            Id::from_i64(5),
            undone,
            &target,
            &bob(),
        ));
        match UndoHandler::new().handle(&undo) {
            Ok(Step::Next(lookup)) => {
                assert_eq!(lookup.uri.as_str(), target.uri);
                assert_eq!(lookup.is_announce, is_announce);
            }
            other => panic!("an interaction to take back, got {other:?}"),
        }
    }
}

#[test]
fn a_published_edit_is_taken_in_as_it_was_written() {
    let mut edited = post(Visibility::Public);
    edited.content = "hello again".to_string();
    edited.spoiler_text = String::new();
    edited.edited_at = Some(at(1_784_900_000_000_000_000, 0));
    let addressing = derive_addressing(&edited, &[], FOLLOWERS);
    let update = received(builder().deliver_update(
        &alice(),
        Id::from_i64(6),
        &edited,
        &addressing,
        Vec::new(),
        None,
    ));
    let lookup = match UpdateHandler::new().handle(&update) {
        Ok(Step::Next(lookup)) => lookup,
        other => panic!("an edit, got {other:?}"),
    };
    assert_eq!(lookup.uri.as_str(), edited.uri);
    let mut stored = post(Visibility::Public);
    stored.local = false;
    let stage = match lookup.found(Some(stored)) {
        Step::Next(stage) => stage,
        Step::Done(outcome) => panic!("a known status, got {outcome:?}"),
    };
    let plan = stage.resolved(Id::from_i64(10), fresh()).expect("the owner");
    match plan.effects.first() {
        Some(Effect::ApplyEdit { row_id, edit, at }) => {
            assert_eq!(*row_id, fresh().id);
            assert_eq!(edit.content, "hello again");
            assert_eq!(edit.spoiler_text, "");
            assert!(edit.sensitive);
            assert_eq!(*at, fresh().now);
        }
        other => panic!("an edit, got {other:?}"),
    }
}

#[test]
fn a_null_property_is_no_text() {
    let mut object = JsonObject::new();
    object.insert("id", Json::Null);
    assert!(ingest_note_object(&object, Id::from_i64(1)).is_err());
}
