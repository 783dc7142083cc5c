use statuses::clock::{parse_rfc3339, rfc3339, Timestamp};
use statuses::domain::{ActorUrls, Handle, Id};
use statuses::json::{
    object_reference_uri, optional_string, string_array, string_array_prop, string_or_empty, Json,
    JsonObject,
};
use statuses::model::PollOption;
use statuses::order::{distinct_values, options_by_index, sorted_values};
use statuses::text::{
    ends_with, eq_ignore_ascii_case, i64_to_text, joined, natural_to_text, parse_i64, parse_u64,
};

#[test]
fn integers_are_written_in_decimal_and_read_back() {
    for value in [0i64, 7, -7, 10, 1234567890, i64::MAX, i64::MIN] {
        assert_eq!(i64_to_text(value), format!("{value}"));
        assert_eq!(parse_i64(&i64_to_text(value)), Some(value));
    }
    assert_eq!(natural_to_text(u128::MAX), format!("{}", u128::MAX));
    assert_eq!(parse_u64("+18446744073709551615"), Some(u64::MAX));
    assert_eq!(parse_u64("0018"), Some(18));
    assert_eq!(parse_i64("--1"), None);
    assert_eq!(parse_i64("1_000"), None);
}

#[test]
fn text_is_compared_and_joined_by_characters() {
    assert_eq!(joined("caf\u{e9}", "!"), "caf\u{e9}!");
    assert!(ends_with("https://a/followers", "/followers"));
    assert!(!ends_with("/follower", "/followers"));
    assert!(eq_ignore_ascii_case("Remote.EXAMPLE", "remote.example"));
    assert!(!eq_ignore_ascii_case("\u{c9}", "\u{e9}"));
    assert!(!eq_ignore_ascii_case("ab", "abc"));
}

#[test]
fn urls_follow_the_scheme_of_the_instance() {
    let urls = ActorUrls::new("kawasemi.example");
    assert_eq!(urls.actor_url(&Handle::new("alice")), "https://kawasemi.example/users/alice");
    assert_eq!(
        urls.object_url("statuses", Id::from_i64(42)),
        "https://kawasemi.example/statuses/42"
    );
}

#[test]
fn timestamps_stay_within_the_calendar() {
    assert!(Timestamp::new(0, 93599).is_some());
    assert!(Timestamp::new(0, 93600).is_none());
    assert!(Timestamp::new(253402300799999999999, 0).is_some());
    assert!(Timestamp::new(253402300800000000000, 0).is_none());
    assert!(Timestamp::new(-377705116800000000000, 0).is_some());
    assert!(Timestamp::new(-377705116800000000001, 0).is_none());
}

#[test]
fn instants_are_compared_across_offsets() {
    let utc = Timestamp::new(0, 0).expect("within the calendar");
    let tokyo = Timestamp::new(32400 * 1_000_000_000, 32400).expect("within the calendar");
    assert!(utc.at_or_after(&tokyo));
    assert!(tokyo.at_or_after(&utc));
    let later = utc.plus_seconds(1);
    assert!(later.at_or_after(&tokyo));
    assert!(!tokyo.at_or_after(&later));
    assert_eq!(later.local_nanos(), 1_000_000_000);
    assert_eq!(tokyo.offset_seconds(), 32400);
}

#[test]
fn times_are_written_in_rfc_3339_and_read_back() {
    let cases = [
        (0i128, 0i32, "1970-01-01T00:00:00Z"),
        (-62167219200000000000, 0, "0000-01-01T00:00:00Z"),
        (253402300799999999999, 0, "9999-12-31T23:59:59.999999999Z"),
        (1_500_000_000, -5400, "1970-01-01T00:00:01.5-01:30"),
        (1, 86340, "1970-01-01T00:00:00.000000001+23:59"),
    ];
    for (local, offset, written) in cases {
        let at = Timestamp::new(local, offset).expect("within the calendar");
        assert_eq!(rfc3339(&at), written);
        assert_eq!(parse_rfc3339(written), Some(at));
    }
    assert_eq!(parse_rfc3339("2026-07-24"), None);
    assert_eq!(parse_rfc3339(""), None);
    assert_eq!(parse_rfc3339("2026-07-24t00:00:00z"), parse_rfc3339("2026-07-24T00:00:00Z"));
}

#[test]
fn a_property_that_is_set_again_shadows_its_earlier_value() {
    let mut object = JsonObject::new();
    object.insert_text("a", "first");
    object.insert("b", Json::Bool(true));
    object.insert_text("a", "second");
    assert_eq!(optional_string(&object, "a"), Some("second".to_string()));
    assert!(object.get_flag("b"));
    assert!(!object.get_flag("a"));
    assert_eq!(string_or_empty(&object, "b"), "");
    assert!(object.has_text("a", "second"));
    assert!(object.get("c").is_none());
}

#[test]
fn references_are_strings_or_embedded_ids() {
    let mut inner = JsonObject::new();
    inner.insert_text("id", "https://a/1");
    let mut object = JsonObject::new();
    object.insert_text("plain", "https://a/2");
    object.insert("embedded", Json::Object(inner));
    object.insert("number", Json::Int(3));
    assert_eq!(object_reference_uri(&object, "plain").map(|s| s.as_str()), Some("https://a/2"));
    assert_eq!(object_reference_uri(&object, "embedded").map(|s| s.as_str()), Some("https://a/1"));
    assert_eq!(object_reference_uri(&object, "number"), None);
    assert_eq!(object_reference_uri(&object, "missing"), None);
}

#[test]
fn lists_of_texts_skip_what_is_no_text() {
    let texts = vec!["a".to_string(), "b".to_string()];
    let mut object = JsonObject::new();
    object.insert("list", string_array(&texts));
    assert_eq!(string_array_prop(&object, "list"), texts);
    object.insert("mixed", Json::Array(vec![Json::Null, Json::Str("c".to_string()), Json::Int(1)]));
    assert_eq!(string_array_prop(&object, "mixed"), vec!["c".to_string()]);
    object.insert_text("one", "d");
    assert_eq!(string_array_prop(&object, "one"), vec!["d".to_string()]);
    assert!(string_array_prop(&object, "none").is_empty());
}

#[test]
fn values_and_options_are_put_in_order() {
    assert_eq!(sorted_values(&[3, 1, 2, 1]), vec![1, 1, 2, 3]);
    assert_eq!(distinct_values(&[3, 1, 2, 1]), vec![1, 2, 3]);
    let option = |idx: i32| PollOption {
        poll_id: Id::from_i64(1),
        idx,
        title: format!("option {idx}"),
        votes_count: 0,
    };
    let ordered: Vec<i32> =
        options_by_index(&[option(2), option(0), option(1)]).iter().map(|o| o.idx).collect();
    assert_eq!(ordered, vec![0, 1, 2]);
}
