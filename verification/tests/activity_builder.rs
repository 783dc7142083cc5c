use statuses::activity_builder::{
    resolve_handle, DeliveryRequest, StatusActivityBuilder, UndoKind,
};
use statuses::addressing::{derive_addressing, ActorRef, Addressing};
use statuses::clock::Timestamp;
use statuses::domain::{ActorUrls, Handle, Id, Recipient, Visibility};
use statuses::error::{ErrorKind, NOT_FOUND};
use statuses::json::{string_array_prop, Json, JsonObject};
use statuses::model::{Poll, PollOption, Status};

/// Seconds from 1970-01-01 to 2026-07-24, both at midnight UTC.
const JULY_24: i128 = 1784851200;

const DAY: i128 = 86400;

fn utc(seconds: i128) -> Timestamp {
    Timestamp::new(seconds * 1_000_000_000, 0).expect("within the calendar")
}

fn sample_status(id: i64, actor_id: i64) -> Status {
    Status {
        id: Id::from_i64(id),
        actor_id: Id::from_i64(actor_id),
        uri: format!("https://kawasemi.example/statuses/{id}"),
        url: Some(format!("https://kawasemi.example/@alice/{id}")),
        content: "hello world".to_string(),
        visibility: Visibility::Public,
        sensitive: false,
        spoiler_text: String::new(),
        in_reply_to_id: None,
        in_reply_to_account_id: None,
        reblog_of_id: None,
        poll_id: None,
        language: Some("en".to_string()),
        reblogs_count: 0,
        favourites_count: 0,
        replies_count: 0,
        local: true,
        created_at: utc(JULY_24),
        edited_at: None,
    }
}

fn sample_addressing() -> Addressing {
    derive_addressing(
        &sample_status(1, 10),
        &[],
        "https://kawasemi.example/users/alice/followers",
    )
}

fn builder() -> StatusActivityBuilder {
    StatusActivityBuilder::new(ActorUrls::new("kawasemi.example"))
}

fn remote(inbox: &str) -> Recipient {
    Recipient::Remote { inbox: inbox.to_string(), shared_inbox: None }
}

fn object_in(value: &Json) -> &JsonObject {
    match value {
        Json::Object(object) => object,
        other => panic!("expected an object, got {other:?}"),
    }
}

fn raw_of(request: &DeliveryRequest) -> &JsonObject {
    object_in(&request.activity)
}

fn inner_of(request: &DeliveryRequest) -> &JsonObject {
    raw_of(request).get_object("object").expect("object present")
}

fn text(object: &JsonObject, key: &str) -> String {
    object.get_text(key).expect("a text property").clone()
}

#[test]
fn deliver_create_builds_canonical_create_note_with_addressing_and_reaches_mixed_recipients() {
    let status = sample_status(1, 10);
    let addressing = sample_addressing();
    let recipients = vec![
        Recipient::Local(Handle::new("alice")),
        remote("https://remote-a.example/inbox"),
    ];

    let request = builder().deliver_create(
        &Handle::new("alice"),
        Id::from_i64(1000),
        &status,
        &addressing,
        recipients.clone(),
        None,
        None,
    );

    assert_eq!(request.recipients, recipients);
    assert_eq!(request.sender, Handle::new("alice"));
    let raw = raw_of(&request);
    assert_eq!(text(raw, "type"), "Create");
    assert_eq!(text(raw, "actor"), "https://kawasemi.example/users/alice");
    let object = inner_of(&request);
    assert_eq!(text(object, "type"), "Note");
    assert_eq!(text(object, "id"), status.uri);
    assert_eq!(text(object, "content"), "hello world");
    assert_eq!(string_array_prop(object, "to"), addressing.to);
    assert_eq!(string_array_prop(object, "cc"), addressing.cc);
    assert_eq!(string_array_prop(raw, "to"), addressing.to);
    assert!(object.get("inReplyTo").is_none());
}

#[test]
fn a_create_carries_its_time_in_rfc_3339() {
    let request = builder().deliver_create(
        &Handle::new("alice"),
        Id::from_i64(1000),
        &sample_status(1, 10),
        &sample_addressing(),
        Vec::new(),
        None,
        None,
    );
    assert_eq!(text(raw_of(&request), "published"), "2026-07-24T00:00:00Z");
    assert_eq!(text(inner_of(&request), "published"), "2026-07-24T00:00:00Z");
    assert_eq!(text(raw_of(&request), "id"), "https://kawasemi.example/activities/1000");
    assert_eq!(text(inner_of(&request), "attributedTo"), "https://kawasemi.example/users/alice");
    assert!(!inner_of(&request).get_flag("sensitive"));
}

#[test]
fn offsets_and_fractions_are_written_out() {
    let mut status = sample_status(1, 10);
    status.created_at =
        Timestamp::new(JULY_24 * 1_000_000_000 + 120_000_000, 32400).expect("within the calendar");
    let request = builder().deliver_create(
        &Handle::new("alice"),
        Id::from_i64(1),
        &status,
        &sample_addressing(),
        Vec::new(),
        None,
        None,
    );
    assert_eq!(text(inner_of(&request), "published"), "2026-07-24T00:00:00.12+09:00");
}

#[test]
fn deliver_create_includes_in_reply_to_when_provided() {
    let request = builder().deliver_create(
        &Handle::new("alice"),
        Id::from_i64(1000),
        &sample_status(2, 10),
        &sample_addressing(),
        vec![Recipient::Local(Handle::new("alice"))],
        Some("https://kawasemi.example/statuses/1"),
        None,
    );
    assert_eq!(text(inner_of(&request), "inReplyTo"), "https://kawasemi.example/statuses/1");
}

#[test]
fn deliver_create_includes_summary_only_when_spoiler_text_present() {
    let mut status = sample_status(3, 10);
    status.spoiler_text = "content warning".to_string();
    let request = builder().deliver_create(
        &Handle::new("alice"),
        Id::from_i64(1000),
        &status,
        &sample_addressing(),
        vec![Recipient::Local(Handle::new("alice"))],
        None,
        None,
    );
    assert_eq!(text(inner_of(&request), "summary"), "content warning");

    let plain = builder().deliver_create(
        &Handle::new("alice"),
        Id::from_i64(1001),
        &sample_status(3, 10),
        &sample_addressing(),
        Vec::new(),
        None,
        None,
    );
    assert!(inner_of(&plain).get("summary").is_none());
}

#[test]
fn deliver_create_mints_distinct_activity_ids_across_calls() {
    let addressing = sample_addressing();
    let first = builder().deliver_create(
        &Handle::new("alice"),
        Id::from_i64(1000),
        &sample_status(1, 10),
        &addressing,
        vec![Recipient::Local(Handle::new("alice"))],
        None,
        None,
    );
    let second = builder().deliver_create(
        &Handle::new("alice"),
        Id::from_i64(1001),
        &sample_status(2, 10),
        &addressing,
        vec![Recipient::Local(Handle::new("alice"))],
        None,
        None,
    );
    assert_ne!(text(raw_of(&first), "id"), text(raw_of(&second), "id"));
}

fn option(poll_id: Id, idx: i32, title: &str, votes_count: i64) -> PollOption {
    PollOption { poll_id, idx, title: title.to_string(), votes_count }
}

#[test]
fn deliver_create_embeds_single_choice_poll_as_question_with_one_of_and_end_time() {
    let mut status = sample_status(20, 10);
    let poll_id = Id::from_i64(500);
    status.poll_id = Some(poll_id);
    let poll = Poll {
        id: poll_id,
        status_id: status.id,
        expires_at: Some(utc(JULY_24 + 8 * DAY)),
        multiple: false,
    };
    let options = vec![option(poll_id, 0, "Cats", 3), option(poll_id, 1, "Dogs", 5)];

    let request = builder().deliver_create(
        &Handle::new("alice"),
        Id::from_i64(1000),
        &status,
        &sample_addressing(),
        vec![Recipient::Local(Handle::new("alice"))],
        None,
        Some((&poll, &options)),
    );

    let object = inner_of(&request);
    assert_eq!(text(object, "type"), "Question");
    assert!(object.get("anyOf").is_none());
    let one_of = match object.get("oneOf") {
        Some(Json::Array(items)) => items,
        other => panic!("oneOf present for a single-choice poll, got {other:?}"),
    };
    assert_eq!(one_of.len(), 2);
    let cats = object_in(&one_of[0]);
    assert_eq!(text(cats, "type"), "Note");
    assert_eq!(text(cats, "name"), "Cats");
    let replies = cats.get_object("replies").expect("replies present");
    assert_eq!(text(replies, "type"), "Collection");
    assert_eq!(replies.get("totalItems"), Some(&Json::Int(3)));
    let dogs = object_in(&one_of[1]);
    assert_eq!(text(dogs, "name"), "Dogs");
    assert_eq!(
        dogs.get_object("replies").expect("replies present").get("totalItems"),
        Some(&Json::Int(5))
    );
    assert_eq!(text(object, "endTime"), "2026-08-01T00:00:00Z");
}

#[test]
fn deliver_create_embeds_multiple_choice_poll_under_any_of() {
    let mut status = sample_status(21, 10);
    let poll_id = Id::from_i64(501);
    status.poll_id = Some(poll_id);
    let poll = Poll { id: poll_id, status_id: status.id, expires_at: None, multiple: true };
    let options = vec![option(poll_id, 0, "Tabs", 0), option(poll_id, 1, "Spaces", 0)];

    let request = builder().deliver_create(
        &Handle::new("alice"),
        Id::from_i64(1000),
        &status,
        &sample_addressing(),
        vec![Recipient::Local(Handle::new("alice"))],
        None,
        Some((&poll, &options)),
    );

    let object = inner_of(&request);
    assert_eq!(text(object, "type"), "Question");
    assert!(object.get("oneOf").is_none());
    match object.get("anyOf") {
        Some(Json::Array(items)) => assert_eq!(items.len(), 2),
        other => panic!("anyOf present for a multi-choice poll, got {other:?}"),
    }
    assert!(object.get("endTime").is_none());
}

#[test]
fn poll_options_are_written_in_index_order() {
    let poll_id = Id::from_i64(502);
    let status = sample_status(23, 10);
    let poll = Poll { id: poll_id, status_id: status.id, expires_at: None, multiple: true };
    let options = vec![
        option(poll_id, 2, "third", 0),
        option(poll_id, 0, "first", 0),
        option(poll_id, 1, "second", 0),
    ];
    let request = builder().deliver_create(
        &Handle::new("alice"),
        Id::from_i64(1000),
        &status,
        &sample_addressing(),
        Vec::new(),
        None,
        Some((&poll, &options)),
    );
    let names: Vec<String> = match inner_of(&request).get("anyOf") {
        Some(Json::Array(items)) => {
            items.iter().map(|item| text(object_in(item), "name")).collect()
        }
        other => panic!("anyOf present, got {other:?}"),
    };
    assert_eq!(names, vec!["first".to_string(), "second".to_string(), "third".to_string()]);
}

#[test]
fn deliver_create_without_poll_still_emits_a_plain_note() {
    let request = builder().deliver_create(
        &Handle::new("alice"),
        Id::from_i64(1000),
        &sample_status(22, 10),
        &sample_addressing(),
        vec![Recipient::Local(Handle::new("alice"))],
        None,
        None,
    );
    let object = inner_of(&request);
    assert_eq!(text(object, "type"), "Note");
    assert!(object.get("oneOf").is_none());
    assert!(object.get("anyOf").is_none());
    assert!(object.get("endTime").is_none());
}

#[test]
fn deliver_announce_builds_canonical_announce_with_object_as_target_uri() {
    let target = sample_status(1, 10);
    let reblog = sample_status(2, 20);
    let addressing = sample_addressing();

    let request = builder().deliver_announce(
        &Handle::new("bob"),
        Id::from_i64(1000),
        &reblog,
        &target,
        &addressing,
        vec![Recipient::Local(Handle::new("bob"))],
    );

    let raw = raw_of(&request);
    assert_eq!(text(raw, "type"), "Announce");
    assert_eq!(text(raw, "actor"), "https://kawasemi.example/users/bob");
    assert_eq!(text(raw, "object"), target.uri);
    assert_eq!(string_array_prop(raw, "to"), addressing.to);
}

#[test]
fn deliver_like_addresses_single_recipient_and_object_is_target_uri() {
    let target = sample_status(5, 10);
    let recipient = ActorRef {
        uri: "https://remote.example/users/dave".to_string(),
        recipient: remote("https://remote.example/inbox"),
    };

    let request =
        builder().deliver_like(&Handle::new("carol"), Id::from_i64(1000), &target, &recipient);

    assert_eq!(request.recipients, vec![recipient.recipient.clone()]);
    let raw = raw_of(&request);
    assert_eq!(text(raw, "type"), "Like");
    assert_eq!(text(raw, "actor"), "https://kawasemi.example/users/carol");
    assert_eq!(text(raw, "object"), target.uri);
    assert_eq!(string_array_prop(raw, "to"), vec![recipient.uri.clone()]);
}

#[test]
fn deliver_undo_announce_embeds_inner_announce_object() {
    let target = sample_status(6, 10);
    let recipient = ActorRef {
        uri: "https://remote.example/users/frank".to_string(),
        recipient: remote("https://remote.example/inbox"),
    };

    let request = builder().deliver_undo(
        &Handle::new("erin"),
        Id::from_i64(1000),
        Id::from_i64(1001),
        UndoKind::Announce,
        &target,
        &recipient,
    );

    let raw = raw_of(&request);
    assert_eq!(text(raw, "type"), "Undo");
    let inner = inner_of(&request);
    assert_eq!(text(inner, "type"), "Announce");
    assert_eq!(text(inner, "object"), target.uri);
    assert_ne!(text(raw, "id"), text(inner, "id"));
}

#[test]
fn deliver_undo_like_embeds_inner_like_object() {
    let recipient = ActorRef {
        uri: "https://remote.example/users/harry".to_string(),
        recipient: remote("https://remote.example/inbox"),
    };
    let request = builder().deliver_undo(
        &Handle::new("gina"),
        Id::from_i64(1000),
        Id::from_i64(1001),
        UndoKind::Like,
        &sample_status(7, 10),
        &recipient,
    );
    assert_eq!(text(inner_of(&request), "type"), "Like");
}

#[test]
fn deliver_delete_builds_canonical_delete_with_object_as_status_uri() {
    let status = sample_status(8, 10);
    let request = builder().deliver_delete(
        &Handle::new("alice"),
        Id::from_i64(1000),
        &status,
        &sample_addressing(),
        vec![Recipient::Local(Handle::new("alice"))],
    );
    let raw = raw_of(&request);
    assert_eq!(text(raw, "type"), "Delete");
    assert_eq!(text(raw, "object"), status.uri);
}

#[test]
fn deliver_update_builds_canonical_update_with_updated_timestamp() {
    let mut status = sample_status(9, 10);
    status.edited_at = Some(utc(JULY_24 + DAY + 43200));
    let request = builder().deliver_update(
        &Handle::new("alice"),
        Id::from_i64(1000),
        &status,
        &sample_addressing(),
        vec![Recipient::Local(Handle::new("alice"))],
        None,
    );
    let raw = raw_of(&request);
    assert_eq!(text(raw, "type"), "Update");
    let object = inner_of(&request);
    assert_eq!(text(object, "type"), "Note");
    assert_eq!(text(object, "updated"), "2026-07-25T12:00:00Z");
    assert_eq!(text(object, "published"), "2026-07-24T00:00:00Z");
}

#[test]
fn an_unedited_status_was_last_changed_when_it_was_created() {
    let request = builder().deliver_update(
        &Handle::new("alice"),
        Id::from_i64(1000),
        &sample_status(9, 10),
        &sample_addressing(),
        Vec::new(),
        None,
    );
    assert_eq!(text(inner_of(&request), "updated"), "2026-07-24T00:00:00Z");
}

#[test]
fn deliver_vote_builds_create_note_with_name_and_never_emits_vote_type() {
    let target = sample_status(11, 10);
    let poll = Poll {
        id: Id::from_i64(200),
        status_id: target.id,
        expires_at: None,
        multiple: false,
    };
    let recipient = ActorRef {
        uri: "https://remote.example/users/jill".to_string(),
        recipient: remote("https://remote.example/inbox"),
    };

    let requests = builder().deliver_vote(
        &Handle::new("iris"),
        &[Id::from_i64(1000), Id::from_i64(1001)],
        &poll,
        &target,
        &["Option A".to_string()],
        &recipient,
    );

    assert_eq!(requests.len(), 1);
    let raw = raw_of(&requests[0]);
    assert_eq!(text(raw, "type"), "Create");
    let object = inner_of(&requests[0]);
    assert_eq!(text(object, "type"), "Note");
    assert_eq!(text(object, "name"), "Option A");
    assert_eq!(text(object, "inReplyTo"), target.uri);
    assert_eq!(string_array_prop(raw, "to"), vec![recipient.uri.clone()]);
    assert_ne!(text(raw, "id"), text(object, "id"));
    assert!(!format!("{:?}", requests[0].activity).contains("\"Vote\""));
}

#[test]
fn deliver_vote_with_multiple_choices_delivers_one_create_per_choice() {
    let target = sample_status(12, 10);
    let poll = Poll {
        id: Id::from_i64(201),
        status_id: target.id,
        expires_at: None,
        multiple: true,
    };
    let recipient = ActorRef {
        uri: "https://remote.example/users/liam".to_string(),
        recipient: remote("https://remote.example/inbox"),
    };
    let ids: Vec<Id> = vec![
        Id::from_i64(1000),
        Id::from_i64(1001),
        Id::from_i64(1002),
        Id::from_i64(1003),
    ];
    let titles = vec!["Option A".to_string(), "Option B".to_string()];
    let requests =
        builder().deliver_vote(&Handle::new("kate"), &ids, &poll, &target, &titles, &recipient);
    assert_eq!(requests.len(), 2);
    assert_eq!(text(inner_of(&requests[0]), "name"), "Option A");
    assert_eq!(text(inner_of(&requests[1]), "name"), "Option B");
    assert_ne!(text(raw_of(&requests[0]), "id"), text(raw_of(&requests[1]), "id"));
}

#[test]
fn deliver_create_fails_when_sender_actor_is_unknown() {
    let status = sample_status(1, 999);
    let addressing = sample_addressing();
    let mut sent: Vec<DeliveryRequest> = Vec::new();

    let err = resolve_handle(status.actor_id, None)
        .map(|sender| {
            sent.push(builder().deliver_create(
                &sender,
                Id::from_i64(1000),
                &status,
                &addressing,
                vec![Recipient::Local(Handle::new("alice"))],
                None,
                None,
            ))
        })
        .expect_err("unknown sender actor must fail");

    assert_eq!(err.kind, ErrorKind::Client);
    assert_eq!(err.status, NOT_FOUND);
    assert_eq!(
        err.public_message,
        "actor id Id(999) does not resolve to an existing local actor"
    );
    assert_eq!(sent.len(), 0, "nothing is sent before the sender resolves");
}

#[test]
fn deliver_vote_fails_when_voting_actor_is_unknown() {
    let target = sample_status(13, 10);
    let poll = Poll {
        id: Id::from_i64(202),
        status_id: target.id,
        expires_at: None,
        multiple: false,
    };
    let recipient = ActorRef {
        uri: "https://remote.example/users/mona".to_string(),
        recipient: remote("https://remote.example/inbox"),
    };
    let mut sent: Vec<DeliveryRequest> = Vec::new();

    let err = resolve_handle(Id::from_i64(999), None)
        .map(|sender| {
            sent.extend(builder().deliver_vote(
                &sender,
                &[Id::from_i64(1000), Id::from_i64(1001)],
                &poll,
                &target,
                &["Option A".to_string()],
                &recipient,
            ))
        })
        .expect_err("unknown voting actor must fail");

    assert_eq!(err.kind, ErrorKind::Client);
    assert_eq!(sent.len(), 0);
}

#[test]
fn a_known_actor_resolves_to_its_handle() {
    let found = resolve_handle(Id::from_i64(10), Some(Handle::new("alice")));
    assert_eq!(found, Ok(Handle::new("alice")));
}
