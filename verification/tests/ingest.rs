use statuses::clock::Timestamp;
use statuses::create_note::{CreateNoteHandler, NoteRoute};
use statuses::domain::{Id, Visibility};
use statuses::effects::{Effect, Fresh, Step};
use statuses::error::{AppError, ErrorKind, NOT_FOUND, UNPROCESSABLE_ENTITY};
use statuses::inbound_handlers::ParsedActivity;
use statuses::inbound_note::{
    attachment_url, derive_inbound_visibility, extract_attachments, extract_tag_mentions,
};
use statuses::ingest_service::{host_from_url, DocumentActor, StatusIngestService};
use statuses::json::{Json, JsonObject};
use statuses::model::{Mention, RemoteAttachment, Status};
use statuses::note_ingest::{
    ingest_note_object, resolve_mentions, resolved_ids, NoteDraft, NoteKnown, NoteLookup,
};

const REMOTE_ALICE: &str = "https://remote.example/actors/alice";
const NOTE_URI: &str = "https://remote.example/notes/1";
const PUBLIC: &str = "https://www.w3.org/ns/activitystreams#Public";
const TEST_DOMAIN: &str = "kawasemi.example";

fn now() -> Timestamp {
    Timestamp::new(1_784_851_200_000_000_000, 0).expect("within the calendar")
}

fn fresh() -> Fresh {
    Fresh { id: Id::from_i64(5), now: now() }
}

fn text(value: &str) -> Json {
    Json::Str(value.to_string())
}

fn object(entries: Vec<(&str, Json)>) -> Json {
    let mut out = JsonObject::new();
    for (key, value) in entries {
        out.insert(key, value);
    }
    Json::Object(out)
}

fn note_document(uri: &str) -> Json {
    object(vec![
        ("@context", text("https://www.w3.org/ns/activitystreams")),
        ("id", text(uri)),
        ("type", text("Note")),
        ("attributedTo", text(REMOTE_ALICE)),
        ("content", text("hello from an out-of-dispatch fetch")),
        ("to", Json::Array(vec![text(PUBLIC)])),
    ])
}

fn with(mut document: Json, key: &str, value: Json) -> Json {
    if let Json::Object(object) = &mut document {
        object.insert(key, value);
    }
    document
}

fn service() -> StatusIngestService {
    StatusIngestService::new(TEST_DOMAIN)
}

fn draft_of(lookup: NoteLookup, parent: Option<Status>) -> NoteDraft {
    match lookup.found(None) {
        NoteKnown::New(next) => next.with_parent(parent, fresh()),
        NoteKnown::Existing(status) => panic!("nothing was stored, got {status:?}"),
    }
}

fn ingest(document: &Json) -> Result<NoteDraft, AppError> {
    let stage: DocumentActor = service().ingest_document(document)?;
    assert_eq!(stage.attributed_to.as_str().to_ascii_lowercase(), REMOTE_ALICE);
    let lookup = stage.resolved(Id::from_i64(900))?;
    Ok(draft_of(lookup, None))
}

fn local_parent() -> Status {
    Status {
        id: Id::from_i64(77),
        actor_id: Id::from_i64(10),
        uri: "https://kawasemi.example/statuses/77".to_string(),
        url: None,
        content: "a local parent post".to_string(),
        visibility: Visibility::Public,
        sensitive: false,
        spoiler_text: String::new(),
        in_reply_to_id: None,
        in_reply_to_account_id: None,
        reblog_of_id: None,
        poll_id: None,
        language: None,
        reblogs_count: 0,
        favourites_count: 0,
        replies_count: 0,
        local: true,
        created_at: now(),
        edited_at: None,
    }
}

#[test]
fn ingest_document_ingests_a_standalone_note() {
    let draft = ingest(&note_document(NOTE_URI)).expect("must ingest");
    assert_eq!(draft.status.uri, NOTE_URI);
    assert_eq!(draft.status.content, "hello from an out-of-dispatch fetch");
    assert_eq!(draft.status.visibility, Visibility::Public);
    assert!(!draft.status.local);
    let writes = draft.first_writes(&[], &[], now());
    assert_eq!(writes, vec![Effect::InsertStatus(draft.status.clone())]);
}

#[test]
fn ingest_document_reflects_a_reply_to_a_known_status() {
    let parent = local_parent();
    let document = with(note_document(NOTE_URI), "inReplyTo", text(&parent.uri));
    let service = service();
    let stage = service.ingest_document(&document).expect("must ingest");
    let lookup = stage.resolved(Id::from_i64(900)).expect("has an id");
    let draft = draft_of(lookup, Some(parent.clone()));
    assert_eq!(draft.status.in_reply_to_id, Some(parent.id));
    assert_eq!(draft.status.in_reply_to_account_id, Some(parent.actor_id));
    assert_eq!(draft.first_writes(&[], &[], now()).len(), 2);
}

#[test]
fn ingest_document_is_idempotent_on_repeated_uri() {
    let document = note_document(NOTE_URI);
    let first = ingest(&document).expect("must ingest").status;
    let service = service();
    let again = service
        .ingest_document(&document)
        .expect("accepted")
        .resolved(Id::from_i64(900))
        .expect("has an id");
    match again.found(Some(first.clone())) {
        NoteKnown::Existing(status) => assert_eq!(status, first),
        NoteKnown::New(next) => panic!("the Note is known, got {next:?}"),
    }
}

#[test]
fn ingest_document_rejects_a_non_note_type() {
    let document = object(vec![
        ("id", text("https://remote.example/actors/alice")),
        ("type", text("Person")),
    ]);
    let error = service().ingest_document(&document).expect_err("must be rejected");
    assert_eq!(error.kind, ErrorKind::Client);
    assert_eq!(error.status, UNPROCESSABLE_ENTITY);
    assert_eq!(error.public_message, "ingested document is not a Note");
}

#[test]
fn a_document_that_is_no_object_is_rejected() {
    let error = service().ingest_document(&Json::Array(Vec::new())).expect_err("rejected");
    assert_eq!(error.public_message, "ingested document must be a JSON object");
}

#[test]
fn ingest_document_rejects_a_note_missing_attributed_to() {
    let document = object(vec![
        ("id", text(NOTE_URI)),
        ("type", text("Note")),
        ("content", text("no author here")),
    ]);
    let error = service().ingest_document(&document).expect_err("must be rejected");
    assert_eq!(error.status, UNPROCESSABLE_ENTITY);
    assert_eq!(
        error.public_message,
        "Note object is missing a required 'attributedTo' property"
    );
}

#[test]
fn a_fetched_note_without_an_id_is_rejected_when_its_author_is_known() {
    let document = object(vec![("type", text("Note")), ("attributedTo", text(REMOTE_ALICE))]);
    let service = service();
    let stage = service.ingest_document(&document).expect("attributable");
    let error = stage.resolved(Id::from_i64(900)).expect_err("no id");
    assert_eq!(error.public_message, "Note object is missing a required 'id' property");
}

fn forged() -> Json {
    object(vec![
        ("@context", text("https://www.w3.org/ns/activitystreams")),
        ("id", text("https://evil.example/notes/forged")),
        ("type", text("Note")),
        ("attributedTo", text(REMOTE_ALICE)),
        ("content", text("evil.example claims this was written by remote.example/alice")),
        ("to", Json::Array(vec![text(PUBLIC)])),
    ])
}

#[test]
fn ingest_document_rejects_a_note_whose_id_host_differs_from_attributed_to_host() {
    let error = service().ingest_document(&forged()).expect_err("must be rejected");
    assert_eq!(error.kind, ErrorKind::Client);
    assert_eq!(error.status, UNPROCESSABLE_ENTITY);
    assert_eq!(
        error.public_message,
        "Note object 'id' host 'evil.example' does not match its 'attributedTo' host \
         'remote.example' (origin/authority check failed)"
    );
}

#[test]
fn ingest_url_rejects_a_note_whose_id_host_differs_from_attributed_to_host() {
    let error = service()
        .ingest_url("https://evil.example/notes/forged", &forged())
        .expect_err("must be rejected");
    assert_eq!(error.status, UNPROCESSABLE_ENTITY);
}

#[test]
fn ingest_url_rejects_a_note_whose_id_and_attributed_to_agree_on_a_host_different_from_the_fetched_url(
) {
    let error = service()
        .ingest_url("https://evil.example/anything", &note_document(NOTE_URI))
        .expect_err("must be rejected");
    assert_eq!(error.kind, ErrorKind::Client);
    assert_eq!(error.status, UNPROCESSABLE_ENTITY);
}

#[test]
fn ingest_document_accepts_an_id_and_attributed_to_host_differing_only_in_case() {
    let document = note_document("https://Remote.Example/notes/1");
    assert!(service().ingest_document(&document).is_ok());
}

#[test]
fn ingest_url_accepts_a_fetched_url_and_id_host_differing_only_in_case() {
    let document = note_document(NOTE_URI);
    assert!(service().ingest_url("https://Remote.Example/notes/1", &document).is_ok());
}

#[test]
fn ingest_url_fetches_and_ingests_a_note() {
    let document = note_document(NOTE_URI);
    let service = service();
    service.check_fetch(NOTE_URI, 200).expect("a success");
    let stage = service.ingest_url(NOTE_URI, &document).expect("accepted");
    let draft = draft_of(stage.resolved(Id::from_i64(900)).expect("has an id"), None);
    assert_eq!(draft.status.uri, NOTE_URI);
    assert_eq!(draft.status.content, "hello from an out-of-dispatch fetch");
}

#[test]
fn ingest_url_maps_a_non_success_fetch_to_not_found() {
    let error = service().check_fetch(NOTE_URI, 404).expect_err("not fetched");
    assert_eq!(error.status, NOT_FOUND);
    assert_eq!(
        error.public_message,
        "remote status 'https://remote.example/notes/1' could not be fetched (upstream status \
         404 Not Found)"
    );
}

#[test]
fn only_codes_from_200_to_299_are_successes() {
    for code in [200u16, 204, 299] {
        assert!(service().check_fetch(NOTE_URI, code).is_ok());
    }
    for code in [100u16, 199, 300, 500] {
        assert!(service().check_fetch(NOTE_URI, code).is_err());
    }
    let odd = service().check_fetch(NOTE_URI, 799).expect_err("not a success");
    assert!(odd.public_message.ends_with("(upstream status 799 <unknown status code>)"));
}

#[test]
fn ingest_document_matches_the_inbound_dispatch_path_for_the_same_note() {
    let document = note_document(NOTE_URI);
    let via_service = ingest(&document).expect("must ingest");

    let mut raw = JsonObject::new();
    raw.insert_text("type", "Create");
    raw.insert("object", note_document(NOTE_URI));
    let activity = ParsedActivity {
        id: "https://remote.example/notes/1/activity".to_string(),
        activity_type: "Create".to_string(),
        raw: Json::Object(raw),
    };
    let handler = CreateNoteHandler::new(TEST_DOMAIN);
    let next = match handler.handle(&activity) {
        Step::Next(next) => next,
        Step::Done(outcome) => panic!("the Note is to be taken in, got {outcome:?}"),
    };
    let via_dispatch = match next.resolved(Id::from_i64(900)) {
        NoteRoute::Ingest { object, actor_id } => {
            draft_of(ingest_note_object(object, actor_id).expect("has an id"), None)
        }
        NoteRoute::Vote(probe) => panic!("no vote, got {probe:?}"),
    };
    assert_eq!(via_dispatch, via_service);
}

#[test]
fn ingest_document_persists_tag_mentions_and_attachments() {
    let document = with(
        note_document(NOTE_URI),
        "tag",
        Json::Array(vec![
            object(vec![
                ("type", text("Mention")),
                ("href", text("https://kawasemi.example/actors/bob")),
                ("name", text("@bob@kawasemi.example")),
            ]),
            object(vec![
                ("type", text("Mention")),
                ("href", text("https://other.example/actors/eve")),
                ("name", text("@eve@other.example")),
            ]),
        ]),
    );
    let document = with(
        document,
        "attachment",
        Json::Array(vec![object(vec![
            ("type", text("Document")),
            ("mediaType", text("image/png")),
            ("url", text("https://remote.example/media/1.png")),
            ("name", text("alt text")),
        ])]),
    );
    let draft = ingest(&document).expect("must ingest");
    let names = resolve_mentions(TEST_DOMAIN, &draft.tag_mentions);
    assert_eq!(names, vec!["bob".to_string()]);
    let bob = Id::from_i64(20);
    let status_id = draft.status.id;
    let writes = draft.last_writes(resolved_ids(&[Some(bob)]));
    assert_eq!(
        writes,
        vec![
            Effect::InsertMentions { status_id, actor_ids: vec![bob] },
            Effect::InsertAttachments {
                status_id,
                attachments: vec![RemoteAttachment {
                    url: "https://remote.example/media/1.png".to_string(),
                    media_type: Some("image/png".to_string()),
                    description: Some("alt text".to_string()),
                }],
            },
        ]
    );
}

#[test]
fn nothing_is_written_for_no_mentions_and_no_attachments() {
    let draft = ingest(&note_document(NOTE_URI)).expect("must ingest");
    assert!(draft.last_writes(Vec::new()).is_empty());
}

#[test]
fn hosts_are_what_stands_between_the_scheme_and_the_path() {
    assert_eq!(host_from_url("https://remote.example/notes/1"), "remote.example");
    assert_eq!(host_from_url("https://remote.example:8443?x"), "remote.example:8443");
    assert_eq!(host_from_url("remote.example#frag"), "remote.example");
    assert_eq!(host_from_url("https://"), "");
    assert_eq!(host_from_url(""), "");
    assert_eq!(host_from_url("a://b://c/d"), "b:");
}

fn addressed(to: Vec<Json>, cc: Vec<Json>) -> JsonObject {
    let mut out = JsonObject::new();
    out.insert("to", Json::Array(to));
    out.insert("cc", Json::Array(cc));
    out
}

#[test]
fn inbound_visibility_goes_by_the_collections_that_are_named() {
    let followers = "https://remote.example/actors/alice/followers";
    assert_eq!(
        derive_inbound_visibility(&addressed(vec![text(PUBLIC)], vec![text(followers)])),
        Visibility::Public
    );
    assert_eq!(
        derive_inbound_visibility(&addressed(vec![text(followers)], vec![text(PUBLIC)])),
        Visibility::Unlisted
    );
    assert_eq!(
        derive_inbound_visibility(&addressed(vec![], vec![Json::Null, text(followers)])),
        Visibility::Private
    );
    assert_eq!(
        derive_inbound_visibility(&addressed(vec![text("https://kawasemi.example/users/bob")], vec![])),
        Visibility::Direct
    );
    let mut single = JsonObject::new();
    single.insert_text("to", PUBLIC);
    assert_eq!(derive_inbound_visibility(&single), Visibility::Public);
}

fn tagged(names: &[&str]) -> JsonObject {
    let mut out = JsonObject::new();
    let mut entries: Vec<Json> = Vec::new();
    for name in names {
        entries.push(object(vec![("type", text("Mention")), ("name", text(name))]));
    }
    entries.push(object(vec![("type", text("Hashtag")), ("name", text("#x"))]));
    entries.push(Json::Bool(true));
    out.insert("tag", Json::Array(entries));
    out
}

fn named(local: &str, domain: Option<&str>) -> Mention {
    Mention { local: local.to_string(), domain: domain.map(|d| d.to_string()) }
}

#[test]
fn tag_mentions_are_parted_at_the_first_at_and_listed_once() {
    let note = tagged(&["@bob@kawasemi.example", "@@carol", "dave", "@bob@kawasemi.example", "@", "@e@"]);
    assert_eq!(
        extract_tag_mentions(&note),
        vec![
            named("bob", Some("kawasemi.example")),
            named("carol", None),
            named("dave", None),
            named("e@", None),
        ]
    );
    assert!(extract_tag_mentions(&JsonObject::new()).is_empty());
}

#[test]
fn tag_mentions_are_the_same_only_with_the_same_local_part_and_domain() {
    let note = tagged(&["@x@", "@x@@", "@x@", "@x@@", "@x"]);
    assert_eq!(
        extract_tag_mentions(&note),
        vec![named("x@", None), named("x", Some("@")), named("x", None)]
    );
}

#[test]
fn local_mentions_are_those_of_this_domain_in_any_case_and_those_of_none() {
    let mentions = vec![
        named("bob", Some("Kawasemi.Example")),
        named("carol", None),
        named("eve", Some("other.example")),
    ];
    assert_eq!(
        resolve_mentions(TEST_DOMAIN, &mentions),
        vec!["bob".to_string(), "carol".to_string()]
    );
    assert_eq!(
        resolved_ids(&[None, Some(Id::from_i64(3)), None]),
        vec![Id::from_i64(3)]
    );
}

#[test]
fn attachment_links_are_found_in_every_shape() {
    assert_eq!(attachment_url(&text("https://a/1")), Some("https://a/1".to_string()));
    let link = object(vec![("href", text("https://a/2"))]);
    assert_eq!(attachment_url(&link), Some("https://a/2".to_string()));
    let nested = object(vec![("url", object(vec![("href", text("https://a/3"))]))]);
    assert_eq!(attachment_url(&nested), Some("https://a/3".to_string()));
    let list = Json::Array(vec![Json::Null, object(vec![]), text("https://a/4"), text("https://a/5")]);
    assert_eq!(attachment_url(&list), Some("https://a/4".to_string()));
    assert_eq!(attachment_url(&Json::Int(1)), None);
}

#[test]
fn attachments_without_a_link_are_passed_over() {
    let mut note = JsonObject::new();
    note.insert(
        "attachment",
        Json::Array(vec![
            object(vec![("mediaType", text("image/png"))]),
            object(vec![("href", text("https://a/6")), ("summary", text("a cat"))]),
            text("https://a/7"),
        ]),
    );
    assert_eq!(
        extract_attachments(&note),
        vec![RemoteAttachment {
            url: "https://a/6".to_string(),
            media_type: None,
            description: Some("a cat".to_string()),
        }]
    );
}
