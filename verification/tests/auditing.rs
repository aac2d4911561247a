use nodescale_state::audit::{to_i64, validate_next, KnownAction};
use nodescale_state::metadata::digest_object_text;
use nodescale_state::names::{AuditKind, AuditOutcome};
use nodescale_state::{
    AuditActor, AuditLog, DeviceId, Failpoint, Generation, InvitationId, JoinSessionId,
    MetadataObject, MetadataValue, NetworkId, SanitizedMetadata, StateError, StateStore,
    Timestamp,
};

fn actor() -> AuditActor {
    AuditActor { source: "test".into(), actor_id: Some("someone".into()) }
}

fn text(value: &str) -> MetadataValue {
    MetadataValue::Text(value.into())
}

fn object(entries: Vec<(&str, MetadataValue)>) -> MetadataValue {
    MetadataValue::Object(MetadataObject::from_entries(
        entries.into_iter().map(|(k, v)| (k.to_string(), v)).collect(),
    ))
}

fn record(store: &StateStore, log: &mut AuditLog, generation: Option<u64>) -> Result<(), StateError> {
    store.append_audit(
        log,
        Some(NetworkId { text: "net".into() }),
        Some(DeviceId { text: "dev".into() }),
        actor(),
        AuditKind::DeviceCreated,
        AuditOutcome::Success,
        generation.map(|value| Generation { value }),
        &SanitizedMetadata::empty(),
    )
}

fn record_n4(
    store: &StateStore,
    log: &mut AuditLog,
    action: &str,
    kind: AuditKind,
) -> Result<bool, StateError> {
    store.append_n4_audit(
        log,
        NetworkId { text: "net".into() },
        InvitationId { text: "inv".into() },
        Some(JoinSessionId { text: "session".into() }),
        action,
        actor(),
        kind,
        AuditOutcome::Success,
        &SanitizedMetadata::empty(),
    )
}

#[test]
fn events_are_recorded_with_their_facts() {
    let store = StateStore::new();
    let mut log = AuditLog::new(vec![]);
    assert_eq!(record(&store, &mut log, Some(4)), Ok(()));
    assert_eq!(log.events.len(), 1);
    let event = &log.events[0];
    assert_eq!(event.network_id, Some(NetworkId { text: "net".into() }));
    assert_eq!(event.device_id, Some(DeviceId { text: "dev".into() }));
    assert_eq!(event.actor, actor());
    assert_eq!(event.kind, AuditKind::DeviceCreated);
    assert_eq!(event.outcome, AuditOutcome::Success);
    assert_eq!(event.generation, Some(4));
    assert_eq!(event.metadata_json, "{}");
    assert_eq!(event.correlation, None);
    assert!(event.recorded_at.timestamp_millis() > 1_600_000_000_000);
    assert_eq!(Timestamp::parse(&event.recorded_at.to_rfc3339()), Some(event.recorded_at));
}

#[test]
fn injected_failures_record_nothing() {
    let mut store = StateStore::new();
    let mut log = AuditLog::new(vec![]);
    store.set_failpoint(Failpoint::BeforeAuditInsert, true);
    assert_eq!(record(&store, &mut log, None), Err(StateError::InjectedFailure));
    assert_eq!(
        record_n4(&store, &mut log, "a", AuditKind::InvitationCreated),
        Err(StateError::InjectedFailure)
    );
    assert!(log.events.is_empty());
    store.set_failpoint(Failpoint::BeforeAuditInsert, false);
    assert_eq!(record(&store, &mut log, None), Ok(()));
    assert_eq!(log.events.len(), 1);
}

#[test]
fn confirmation_failpoint_hits_only_redeemed_invitations() {
    let mut store = StateStore::new();
    let mut log = AuditLog::new(vec![]);
    store.set_failpoint(Failpoint::BeforeN4ConfirmationAudit, true);
    assert_eq!(record(&store, &mut log, None), Ok(()));
    assert_eq!(record_n4(&store, &mut log, "a", AuditKind::InvitationCreated), Ok(true));
    assert_eq!(
        record_n4(&store, &mut log, "a", AuditKind::InvitationRedeemed),
        Err(StateError::InjectedFailure)
    );
    assert_eq!(log.events.len(), 2);
}

#[test]
fn generations_out_of_range_are_not_recorded() {
    let store = StateStore::new();
    let mut log = AuditLog::new(vec![]);
    assert_eq!(
        record(&store, &mut log, Some(1 << 63)),
        Err(StateError::Conflict("generation exceeds SQLite integer range".into()))
    );
    assert!(log.events.is_empty());
    assert_eq!(record(&store, &mut log, Some((1 << 63) - 1)), Ok(()));
    assert_eq!(log.events[0].generation, Some(i64::MAX));
    assert_eq!(to_i64(Generation { value: 5 }), Ok(5));
}

#[test]
fn invitation_actions_are_recorded_once() {
    let store = StateStore::new();
    let mut log = AuditLog::new(vec![KnownAction {
        action_id: "earlier".into(),
        event_kind: "invitation_created".into(),
    }]);
    assert_eq!(record_n4(&store, &mut log, "earlier", AuditKind::InvitationCreated), Ok(false));
    assert_eq!(record_n4(&store, &mut log, "earlier", AuditKind::InvitationRevoked), Ok(true));
    assert_eq!(record_n4(&store, &mut log, "now", AuditKind::InvitationCreated), Ok(true));
    assert_eq!(record_n4(&store, &mut log, "now", AuditKind::InvitationCreated), Ok(false));
    assert_eq!(log.events.len(), 2);
    let correlation = log.events[1].correlation.as_ref().unwrap();
    assert_eq!(correlation.action_id, "now");
    assert_eq!(correlation.invitation_id.text, "inv");
    assert_eq!(correlation.join_session_id.as_ref().unwrap().text, "session");
    assert!(log.has_recorded("now", AuditKind::InvitationCreated));
    assert!(!log.has_recorded("now", AuditKind::InvitationRevoked));
}

#[test]
fn generations_must_advance() {
    let g = |value| Generation { value };
    assert_eq!(validate_next(g(1), g(2)), Ok(()));
    let refused = Err(StateError::Conflict("generation must advance monotonically".into()));
    assert_eq!(validate_next(g(2), g(2)), refused);
    assert_eq!(validate_next(g(3), g(2)), refused);
}

#[test]
fn metadata_is_written_as_json() {
    let metadata = SanitizedMetadata::new(object(vec![
        ("platform", text("linux \"x\"")),
        ("count", MetadataValue::Number(3.into())),
        ("flags", MetadataValue::Array(vec![MetadataValue::Bool(true), MetadataValue::Null])),
    ]))
    .unwrap();
    assert_eq!(
        metadata.json().unwrap(),
        "{\"count\":3,\"flags\":[true,null],\"platform\":\"linux \\\"x\\\"\"}"
    );
    assert_eq!(SanitizedMetadata::empty().json().unwrap(), "{}");
    assert_eq!(SanitizedMetadata::default().json().unwrap(), "{}");
}

#[test]
fn entries_are_written_by_key() {
    let metadata = SanitizedMetadata::new(object(vec![
        ("b", MetadataValue::Bool(false)),
        ("a", object(vec![])),
        ("b", MetadataValue::Number((-7).into())),
    ]))
    .unwrap();
    assert_eq!(metadata.json().unwrap(), "{\"a\":{},\"b\":-7}");
    let list = MetadataValue::Array(vec![text("x"), MetadataValue::Array(vec![])]);
    assert_eq!(SanitizedMetadata::new(list).unwrap().json().unwrap(), "[\"x\",[]]");
}

#[test]
fn objects_are_walked_by_key() {
    let keys = |object: &MetadataObject| -> Vec<String> {
        object.in_order().iter().map(|entry| entry.0.clone()).collect()
    };
    let object_of = MetadataObject::new()
        .insert("m".into(), text("1"))
        .insert("b".into(), text("2"))
        .insert("z".into(), text("3"))
        .insert("m".into(), text("4"));
    assert_eq!(keys(&object_of), ["b", "m", "z"]);
    assert_eq!(object_of.in_order()[1].1, text("4"));
    let refused = SanitizedMetadata::new(object(vec![
        ("z_token", MetadataValue::Null),
        ("a_secret", MetadataValue::Null),
    ]));
    assert_eq!(refused, Err(StateError::UnsafeAuditMetadata("a_secret".into())));
}

#[test]
fn presented_metadata_is_kept_as_a_digest() {
    assert_eq!(SanitizedMetadata::empty().n4_digest_json().unwrap(), "{}");
    let metadata = SanitizedMetadata::new(object(vec![("a", text("b"))])).unwrap();
    assert_eq!(
        metadata.n4_digest_json().unwrap(),
        "{\"sha256\":\"db4a7ecb114bc66c623a06c4ff6fe8daa2f49cc270ebbf7a1f81e22ab061c837\"}"
    );
    assert_eq!(
        digest_object_text("abc"),
        "{\"sha256\":\"ba7816bf8f01cfea414140de5dae2223b00361a396177a9cb410ff61f20015ad\"}"
    );
}

#[test]
fn unsafe_metadata_is_refused() {
    let refused = |value| SanitizedMetadata::new(value).err().unwrap();
    for key in
        ["secret", "My_Token", "PASSWORD2", "credential", "api_key", "x_private_key", "nonce"]
    {
        assert_eq!(
            refused(object(vec![(key, MetadataValue::Null)])),
            StateError::UnsafeAuditMetadata(key.into())
        );
    }
    let nonce = format!("nsbind_{}A", "b".repeat(42));
    assert_eq!(
        refused(object(vec![(&nonce, MetadataValue::Null)])),
        StateError::UnsafeAuditMetadata("N6 secret key".into())
    );
    assert_eq!(refused(text(&nonce)), StateError::UnsafeAuditMetadata("N6 secret value".into()));
    assert_eq!(
        refused(text(&"x".repeat(1025))),
        StateError::UnsafeAuditMetadata("oversized string".into())
    );
    assert!(SanitizedMetadata::new(text(&"x".repeat(1024))).is_ok());
    assert_eq!(
        refused(object(vec![(
            "outer",
            MetadataValue::Array(vec![text("fine"), object(vec![("token", text("t"))])])
        )])),
        StateError::UnsafeAuditMetadata("token".into())
    );
}

#[test]
fn the_first_problem_is_reported() {
    let value = object(vec![
        ("fine", text("x")),
        ("inner", object(vec![("secret_a", MetadataValue::Null)])),
        ("secret_b", MetadataValue::Null),
    ]);
    assert_eq!(
        SanitizedMetadata::new(value).err().unwrap(),
        StateError::UnsafeAuditMetadata("secret_a".into())
    );
}
