use statuses::clock::Timestamp;
use statuses::domain::{Id, Visibility};
use statuses::model::{IdempotencyRecord, Poll, PollOption, PollVote, Status, StatusEdit, Tag};

/// Seconds from 1970-01-01 to 2026-07-24, both at midnight UTC.
const JULY_24: i128 = 1784851200;

fn utc(seconds: i128) -> Timestamp {
    Timestamp::new(seconds * 1_000_000_000, 0).expect("within the calendar")
}

fn sample_status(
    reblog_of_id: Option<Id>,
    in_reply_to_id: Option<Id>,
    poll_id: Option<Id>,
) -> Status {
    Status {
        id: Id::from_i64(1),
        actor_id: Id::from_i64(10),
        uri: "https://example.test/statuses/1".to_string(),
        url: Some("https://example.test/@alice/1".to_string()),
        content: "hello".to_string(),
        visibility: Visibility::Public,
        sensitive: false,
        spoiler_text: String::new(),
        in_reply_to_id,
        in_reply_to_account_id: in_reply_to_id.map(|_| Id::from_i64(11)),
        reblog_of_id,
        poll_id,
        language: Some("en".to_string()),
        reblogs_count: 0,
        favourites_count: 0,
        replies_count: 0,
        local: true,
        created_at: utc(JULY_24),
        edited_at: None,
    }
}

fn visibility_ordinal(v: Visibility) -> u8 {
    match v {
        Visibility::Public => 0,
        Visibility::Unlisted => 1,
        Visibility::Private => 2,
        Visibility::Direct => 3,
    }
}

#[test]
fn visibility_has_exactly_four_distinct_variants() {
    let all: [Visibility; 4] = [
        Visibility::Public,
        Visibility::Unlisted,
        Visibility::Private,
        Visibility::Direct,
    ];
    assert_eq!(all.len(), 4);
    let ordinals: Vec<u8> = all.iter().copied().map(visibility_ordinal).collect();
    let mut sorted: Vec<u8> = ordinals.clone();
    sorted.sort_unstable();
    sorted.dedup();
    assert_eq!(sorted.len(), 4, "expected 4 distinct Visibility variants");
    assert_eq!(ordinals, vec![0, 1, 2, 3]);
}

#[test]
fn visibility_is_imported_from_core_runtime_domain_not_redefined() {
    let status = sample_status(None, None, None);
    let _: Visibility = status.visibility;
}

#[test]
fn status_can_be_constructed_with_reblog_reply_and_poll_relations_populated() {
    let reblog_of = Id::from_i64(100);
    let in_reply_to = Id::from_i64(200);
    let poll = Id::from_i64(300);
    let status = sample_status(Some(reblog_of), Some(in_reply_to), Some(poll));

    assert_eq!(status.reblog_of_id, Some(reblog_of));
    assert_eq!(status.in_reply_to_id, Some(in_reply_to));
    assert_eq!(status.poll_id, Some(poll));
    assert!(status.in_reply_to_account_id.is_some());
}

#[test]
fn status_can_be_constructed_with_reblog_reply_and_poll_relations_absent() {
    let status = sample_status(None, None, None);

    assert_eq!(status.reblog_of_id, None);
    assert_eq!(status.in_reply_to_id, None);
    assert_eq!(status.poll_id, None);
    assert_eq!(status.in_reply_to_account_id, None);
}

#[test]
fn status_reblog_reply_and_poll_relations_are_independent_of_each_other() {
    let status = sample_status(None, None, Some(Id::from_i64(9)));
    assert_eq!(status.reblog_of_id, None);
    assert_eq!(status.in_reply_to_id, None);
    assert_eq!(status.poll_id, Some(Id::from_i64(9)));
}

#[test]
fn status_holds_no_dialect_fields_beyond_the_core_field_set() {
    let status = sample_status(Some(Id::from_i64(1)), None, None);
    let Status {
        id: _,
        actor_id: _,
        uri: _,
        url: _,
        content: _,
        visibility: _,
        sensitive: _,
        spoiler_text: _,
        in_reply_to_id: _,
        in_reply_to_account_id: _,
        reblog_of_id,
        poll_id: _,
        language: _,
        reblogs_count: _,
        favourites_count: _,
        replies_count: _,
        local: _,
        created_at: _,
        edited_at: _,
    } = status;
    assert!(reblog_of_id.is_some());
}

#[test]
fn status_edit_holds_one_prior_version_of_the_editable_fields() {
    let edit = StatusEdit {
        status_id: Id::from_i64(1),
        content: "previous content".to_string(),
        spoiler_text: "previous cw".to_string(),
        sensitive: true,
        created_at: utc(JULY_24 - 43200),
    };
    assert_eq!(edit.status_id, Id::from_i64(1));
    assert_eq!(edit.content, "previous content");
    assert!(edit.sensitive);
}

#[test]
fn poll_links_back_to_its_status_and_may_have_no_expiry() {
    let poll = Poll {
        id: Id::from_i64(1),
        status_id: Id::from_i64(2),
        expires_at: None,
        multiple: false,
    };
    assert_eq!(poll.status_id, Id::from_i64(2));
    assert!(poll.expires_at.is_none());
    assert!(!poll.multiple);
}

#[test]
fn poll_option_is_addressed_by_poll_id_and_idx() {
    let option = PollOption {
        poll_id: Id::from_i64(1),
        idx: 0,
        title: "Yes".to_string(),
        votes_count: 5,
    };
    assert_eq!(option.poll_id, Id::from_i64(1));
    assert_eq!(option.idx, 0);
    assert_eq!(option.votes_count, 5);
}

#[test]
fn poll_vote_single_choice_is_one_row_per_voter() {
    let vote = PollVote {
        poll_id: Id::from_i64(1),
        actor_id: Id::from_i64(42),
        choice: 0,
        created_at: utc(JULY_24),
    };
    assert_eq!(vote.actor_id, Id::from_i64(42));
    assert_eq!(vote.choice, 0);
}

#[test]
fn poll_vote_multiple_choice_is_distinguished_by_choice_index() {
    let voter = Id::from_i64(42);
    let poll_id = Id::from_i64(1);
    let now = utc(JULY_24);
    let first = PollVote { poll_id, actor_id: voter, choice: 0, created_at: now };
    let second = PollVote { poll_id, actor_id: voter, choice: 1, created_at: now };
    assert_ne!(first, second);
    assert_eq!(first.poll_id, second.poll_id);
    assert_eq!(first.actor_id, second.actor_id);
}

#[test]
fn idempotency_record_binds_actor_and_key_to_the_created_status() {
    let record = IdempotencyRecord {
        actor_id: Id::from_i64(42),
        key: "client-generated-key-1".to_string(),
        status_id: Id::from_i64(1),
        created_at: utc(JULY_24),
    };
    assert_eq!(record.actor_id, Id::from_i64(42));
    assert_eq!(record.key, "client-generated-key-1");
    assert_eq!(record.status_id, Id::from_i64(1));
}

#[test]
fn tag_holds_a_normalized_name_and_its_own_id() {
    let tag = Tag {
        id: Id::from_i64(1),
        name: "rustlang".to_string(),
        created_at: utc(JULY_24),
    };
    assert_eq!(tag.id, Id::from_i64(1));
    assert_eq!(tag.name, "rustlang");
}

#[test]
fn a_copy_of_a_status_is_equal_to_it() {
    let status = sample_status(None, Some(Id::from_i64(2)), None);
    assert_eq!(status.clone(), status);
}
