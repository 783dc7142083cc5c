use statuses::clock::Timestamp;
use statuses::domain::{Id, Visibility};
use statuses::endpoints::{
    bookmarks_page, create_status, edit_status, edit_to_json, parse_id, parse_media_ids,
    parse_optional_limit, parse_visibility, read_bookmarks_scope, read_statuses_scope,
    write_bookmarks_scope, write_favourites_scope, write_statuses_scope, BookmarksQueryParams,
    CreatePollRequest, CreateStatusRequest, EditStatusRequest, BOOKMARKS_PATH, POLL_VOTES_PATH,
    STATUS_PATH,
};
use statuses::error::{ErrorKind, NOT_FOUND, UNPROCESSABLE_ENTITY};
use statuses::model::StatusEdit;

fn utc(seconds: i128) -> Timestamp {
    Timestamp::new(seconds * 1_000_000_000, 0).expect("within the calendar")
}

fn request(text: &str) -> CreateStatusRequest {
    CreateStatusRequest {
        status: text.to_string(),
        media_ids: Vec::new(),
        poll: None,
        visibility: None,
        spoiler_text: String::new(),
        sensitive: false,
        in_reply_to_id: None,
        language: None,
    }
}

#[test]
fn parse_visibility_accepts_every_canonical_variant() {
    assert_eq!(parse_visibility("public").unwrap(), Visibility::Public);
    assert_eq!(parse_visibility("unlisted").unwrap(), Visibility::Unlisted);
    assert_eq!(parse_visibility("private").unwrap(), Visibility::Private);
    assert_eq!(parse_visibility("direct").unwrap(), Visibility::Direct);
}

#[test]
fn parse_visibility_rejects_unknown_value() {
    let err = parse_visibility("bogus").expect_err("must be rejected");
    assert_eq!(err.status, UNPROCESSABLE_ENTITY);
}

#[test]
fn parse_media_ids_parses_decimal_strings() {
    let ids = parse_media_ids(&["1".to_string(), "2".to_string()]).unwrap();
    assert_eq!(ids, vec![Id::from_i64(1), Id::from_i64(2)]);
}

#[test]
fn parse_media_ids_rejects_a_non_numeric_value() {
    let err = parse_media_ids(&["abc".to_string()]).expect_err("must be rejected");
    assert_eq!(err.status, UNPROCESSABLE_ENTITY);
}

#[test]
fn parse_optional_limit_is_none_when_absent() {
    assert_eq!(parse_optional_limit(None).unwrap(), None);
}

#[test]
fn parse_optional_limit_rejects_a_non_numeric_value() {
    let err = parse_optional_limit(Some("abc")).expect_err("must be rejected");
    assert_eq!(err.status, UNPROCESSABLE_ENTITY);
}

#[test]
fn parse_id_treats_an_unparseable_segment_as_404() {
    let err = parse_id("not-a-number").expect_err("must be rejected");
    assert_eq!(err.status, NOT_FOUND);
}

#[test]
fn parse_id_reads_signed_decimals_within_range() {
    assert_eq!(parse_id("42").unwrap(), Id::from_i64(42));
    assert_eq!(parse_id("-7").unwrap(), Id::from_i64(-7));
    assert_eq!(parse_id("+7").unwrap(), Id::from_i64(7));
    assert_eq!(parse_id("9223372036854775807").unwrap(), Id::from_i64(i64::MAX));
    assert_eq!(parse_id("-9223372036854775808").unwrap(), Id::from_i64(i64::MIN));
    assert!(parse_id("9223372036854775808").is_err());
    assert!(parse_id("").is_err());
    assert!(parse_id("+").is_err());
    assert!(parse_id("1 ").is_err());
}

#[test]
fn a_rejected_visibility_is_quoted_in_the_message() {
    let err = parse_visibility("bo\"gus").expect_err("must be rejected");
    assert_eq!(err.kind, ErrorKind::Client);
    assert_eq!(
        err.public_message,
        "visibility must be one of \"public\"/\"unlisted\"/\"private\"/\"direct\", got \"bo\\\"gus\""
    );
    assert_eq!(err.tag, None);
}

#[test]
fn the_first_bad_media_id_is_named() {
    let raw = vec!["1".to_string(), "x".to_string(), "y".to_string()];
    let err = parse_media_ids(&raw).expect_err("must be rejected");
    assert_eq!(err.public_message, "invalid media id \"x\"");
}

#[test]
fn limits_are_unsigned() {
    assert_eq!(parse_optional_limit(Some("20")).unwrap(), Some(20));
    assert_eq!(parse_optional_limit(Some("18446744073709551615")).unwrap(), Some(u64::MAX));
    assert!(parse_optional_limit(Some("18446744073709551616")).is_err());
    assert!(parse_optional_limit(Some("-1")).is_err());
}

#[test]
fn a_request_without_a_visibility_is_public() {
    let input = create_status(request("hi"), utc(0)).unwrap();
    assert_eq!(input.content, "hi");
    assert_eq!(input.visibility, Visibility::Public);
    assert_eq!(input.in_reply_to_id, None);
    assert!(input.poll.is_none());
}

#[test]
fn every_field_of_a_request_is_read() {
    let body = CreateStatusRequest {
        status: "which?".to_string(),
        media_ids: vec!["5".to_string()],
        poll: Some(CreatePollRequest {
            options: vec!["a".to_string(), "b".to_string()],
            multiple: true,
            expires_in: Some(300),
        }),
        visibility: Some("unlisted".to_string()),
        spoiler_text: "cw".to_string(),
        sensitive: true,
        in_reply_to_id: Some("77".to_string()),
        language: Some("en".to_string()),
    };
    let input = create_status(body, utc(1_000)).unwrap();
    assert_eq!(input.visibility, Visibility::Unlisted);
    assert_eq!(input.spoiler_text, "cw");
    assert!(input.sensitive);
    assert_eq!(input.media_ids, vec![Id::from_i64(5)]);
    assert_eq!(input.in_reply_to_id, Some(Id::from_i64(77)));
    assert_eq!(input.language.as_deref(), Some("en"));
    let poll = input.poll.expect("a poll was asked for");
    assert_eq!(poll.options, vec!["a".to_string(), "b".to_string()]);
    assert!(poll.multiple);
    assert_eq!(poll.expires_at, Some(utc(1_300)));
}

#[test]
fn a_bad_reply_target_is_rejected_before_a_bad_visibility() {
    let mut body = request("hi");
    body.in_reply_to_id = Some("no".to_string());
    body.visibility = Some("bogus".to_string());
    let err = create_status(body, utc(0)).expect_err("must be rejected");
    assert_eq!(err.status, UNPROCESSABLE_ENTITY);
    assert_eq!(err.public_message, "invalid in_reply_to_id \"no\"");
}

#[test]
fn an_edit_request_is_read() {
    let body = EditStatusRequest {
        status: "new".to_string(),
        spoiler_text: String::new(),
        sensitive: true,
        media_ids: vec!["9".to_string()],
    };
    let input = edit_status(body).unwrap();
    assert_eq!(input.content, "new");
    assert!(input.sensitive);
    assert_eq!(input.media_ids, vec![Id::from_i64(9)]);

    let bad = EditStatusRequest {
        status: String::new(),
        spoiler_text: String::new(),
        sensitive: false,
        media_ids: vec!["".to_string()],
    };
    assert_eq!(edit_status(bad).expect_err("must be rejected").public_message, "invalid media id \"\"");
}

#[test]
fn a_version_is_shown_with_its_time() {
    let edit = StatusEdit {
        status_id: Id::from_i64(1),
        content: "old".to_string(),
        spoiler_text: "cw".to_string(),
        sensitive: false,
        created_at: utc(0),
    };
    let shown = edit_to_json(&edit, "1970-01-01T00:00:00.000Z".to_string());
    assert_eq!(shown.content, "old");
    assert_eq!(shown.spoiler_text, "cw");
    assert!(!shown.sensitive);
    assert_eq!(shown.created_at, "1970-01-01T00:00:00.000Z");
}

#[test]
fn a_bookmarks_query_keeps_its_cursors() {
    let page = bookmarks_page(BookmarksQueryParams {
        max_id: Some("9".to_string()),
        since_id: None,
        min_id: Some("3".to_string()),
        limit: Some("40".to_string()),
    })
    .unwrap();
    assert_eq!(page.max_id.as_deref(), Some("9"));
    assert_eq!(page.since_id, None);
    assert_eq!(page.min_id.as_deref(), Some("3"));
    assert_eq!(page.limit, Some(40));

    let err = bookmarks_page(BookmarksQueryParams {
        max_id: None,
        since_id: None,
        min_id: None,
        limit: Some("many".to_string()),
    })
    .expect_err("must be rejected");
    assert_eq!(err.public_message, "invalid limit \"many\"");
}

#[test]
fn paths_and_scopes_are_those_of_the_api() {
    assert_eq!(STATUS_PATH, "/api/v1/statuses/{id}");
    assert_eq!(BOOKMARKS_PATH, "/api/v1/bookmarks");
    assert_eq!(POLL_VOTES_PATH, "/api/v1/polls/{id}/votes");
    assert_eq!(write_statuses_scope(), "write:statuses");
    assert_eq!(write_favourites_scope(), "write:favourites");
    assert_eq!(write_bookmarks_scope(), "write:bookmarks");
    assert_eq!(read_bookmarks_scope(), "read:bookmarks");
    assert_eq!(read_statuses_scope(), "read:statuses");
}
