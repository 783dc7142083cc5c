use statuses::clock::Timestamp;
use statuses::domain::Id;
use statuses::idempotency::{bind, check_or_reserve, IdempotencyLookup};
use statuses::model::IdempotencyRecord;

fn now() -> Timestamp {
    Timestamp::new(0, 0).expect("within the calendar")
}

#[test]
fn check_or_reserve_reports_reserved_for_a_fresh_key() {
    let records: Vec<IdempotencyRecord> = Vec::new();
    let lookup = check_or_reserve(&records, Id::from_i64(1), "client-key-1");
    assert_eq!(lookup, IdempotencyLookup::Reserved);
}

#[test]
fn check_or_reserve_resolves_to_the_bound_status_after_bind() {
    let mut records: Vec<IdempotencyRecord> = Vec::new();
    bind(&mut records, Id::from_i64(1), "key", Id::from_i64(7), now());
    let lookup = check_or_reserve(&records, Id::from_i64(1), "key");
    assert_eq!(lookup, IdempotencyLookup::Existing(Id::from_i64(7)));
}

#[test]
fn repeated_check_or_reserve_after_bind_is_stable() {
    let mut records: Vec<IdempotencyRecord> = Vec::new();
    let actor = Id::from_i64(1);
    let status = Id::from_i64(7);
    assert_eq!(check_or_reserve(&records, actor, "client-key-3"), IdempotencyLookup::Reserved);
    bind(&mut records, actor, "client-key-3", status, now());
    for _ in 0..3 {
        assert_eq!(
            check_or_reserve(&records, actor, "client-key-3"),
            IdempotencyLookup::Existing(status)
        );
    }
    assert_eq!(records.len(), 1);
}

#[test]
fn idempotency_key_is_scoped_per_actor() {
    let mut records: Vec<IdempotencyRecord> = Vec::new();
    let (actor_a, actor_b) = (Id::from_i64(1), Id::from_i64(2));
    let (status_a, status_b) = (Id::from_i64(7), Id::from_i64(8));
    let shared_key = "shared-literal-key";
    bind(&mut records, actor_a, shared_key, status_a, now());
    assert_eq!(check_or_reserve(&records, actor_b, shared_key), IdempotencyLookup::Reserved);
    bind(&mut records, actor_b, shared_key, status_b, now());
    assert_eq!(
        check_or_reserve(&records, actor_a, shared_key),
        IdempotencyLookup::Existing(status_a)
    );
    assert_eq!(
        check_or_reserve(&records, actor_b, shared_key),
        IdempotencyLookup::Existing(status_b)
    );
}

#[test]
fn bind_does_not_overwrite_an_existing_binding() {
    let mut records: Vec<IdempotencyRecord> = Vec::new();
    bind(&mut records, Id::from_i64(1), "key", Id::from_i64(7), now());
    bind(&mut records, Id::from_i64(1), "key", Id::from_i64(8), now());
    let lookup = check_or_reserve(&records, Id::from_i64(1), "key");
    assert_eq!(lookup, IdempotencyLookup::Existing(Id::from_i64(7)));
}

#[test]
fn distinct_keys_for_the_same_actor_are_independent() {
    let mut records: Vec<IdempotencyRecord> = Vec::new();
    bind(&mut records, Id::from_i64(1), "a", Id::from_i64(7), now());
    bind(&mut records, Id::from_i64(1), "b", Id::from_i64(8), now());
    assert_eq!(
        check_or_reserve(&records, Id::from_i64(1), "a"),
        IdempotencyLookup::Existing(Id::from_i64(7))
    );
    assert_eq!(
        check_or_reserve(&records, Id::from_i64(1), "b"),
        IdempotencyLookup::Existing(Id::from_i64(8))
    );
}
