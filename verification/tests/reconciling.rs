use nodescale_state::digest::sha256_fingerprint;
use nodescale_state::import::{headscale_import_row, tailscale_import_row};
use nodescale_state::inventory::{
    load_observation_page, load_observations, Inventory, ObservationRow,
};
use nodescale_state::names::{AuditKind, AuditOutcome, FailureKind};
use nodescale_state::observation::{map_provider_failure, same_version, validate_snapshot};
use nodescale_state::reconcile::{AdoptionConflict, Effect, ObservationRecord, PendingAction};
use nodescale_state::report::ImportStatusRow;
use nodescale_state::snapshot::{
    begin_headscale_import, begin_tailscale_import, reconciliation_import_config,
    validate_inspection, ReconciliationImportConfig, ReconciliationImportRow, Snapshot,
};
use nodescale_state::{
    AdoptionState, AuditActor, AuditLog, CompatibilityStatus, DatabaseFailure, DeviceId, Failpoint,
    Generation, HeadscaleImportConfig, Network, NetworkId, NodeIdentity, ObservationClassification,
    ProviderError, ProviderInstanceId, ProviderKind, ProviderNode, ProviderReconciliationState,
    ReconciliationFailure, ServerInspection, StateError, StateStore, Stored, TailscaleImportConfig,
    Timestamp, TlsVerificationPolicy,
};

fn at(seconds: i64) -> Timestamp {
    Timestamp::new(seconds, 0).unwrap()
}

fn network_id() -> NetworkId {
    NetworkId { text: "net".into() }
}

fn instance() -> ProviderInstanceId {
    ProviderInstanceId { text: "inst".into() }
}

fn actor() -> AuditActor {
    AuditActor { source: "worker".into(), actor_id: None }
}

fn key(text: &str) -> String {
    sha256_fingerprint(text.as_bytes())
}

fn node(id: &str, key_text: &str, expired: bool, body: &str) -> ProviderNode {
    ProviderNode {
        identity: NodeIdentity {
            provider_instance_id: instance(),
            node_id: id.into(),
            stable_key_fingerprint: key(key_text),
        },
        machine_key: format!("mkey:{key_text}"),
        expired,
        json: format!("{{\"body\":\"{body}\",\"at\":9}}"),
        timeless_json: format!("{{\"body\":\"{body}\",\"at\":0}}"),
    }
}

fn inspection() -> ServerInspection {
    ServerInspection {
        provider_name: "headscale".into(),
        instance_id: instance(),
        mutation_allowed: false,
        compatibility: CompatibilityStatus::Compatible,
        provider_version: "v0.29.3".into(),
    }
}

fn expected() -> ReconciliationImportConfig {
    ReconciliationImportConfig {
        provider_instance_id: instance(),
        provider_name: "headscale",
        compatibility_pin: "0.29.3".into(),
    }
}

fn snapshot(nodes: Vec<ProviderNode>) -> Snapshot {
    expected().inspected(Ok(inspection())).unwrap().listed(Ok(nodes)).unwrap()
}

fn row(
    node: ProviderNode,
    classification: &str,
    adoption: &str,
    generation: u64,
) -> ObservationRow {
    ObservationRow {
        device_id: None,
        provider_instance_id: Stored { text: "inst".into(), parsed: Ok(instance()) },
        provider_node_id: node.identity.node_id.clone(),
        stable_key_fingerprint: node.identity.stable_key_fingerprint.clone(),
        classification: classification.into(),
        adoption_state: adoption.into(),
        semantic_fingerprint: sha256_fingerprint(node.timeless_json.as_bytes()),
        semantic_generation: generation,
        node: Ok(node),
        first_observed_at: at(10).to_rfc3339(),
        last_observed_at: at(20).to_rfc3339(),
        snapshot_at: at(20).to_rfc3339(),
    }
}

fn pending(id: &str) -> PendingAction {
    PendingAction {
        action_id: format!("action-{id}"),
        authority_id: "authority".into(),
        authority_generation: 4,
        provider_instance_id: "inst".into(),
        provider_node_id: id.into(),
        proof_generation: 6,
    }
}

fn reconcile(
    rows: Vec<ObservationRow>,
    actions: Vec<PendingAction>,
    nodes: Vec<ProviderNode>,
) -> (Vec<Effect>, Vec<AuditKind>) {
    let mut log = AuditLog::new(vec![]);
    let plan = StateStore::new()
        .reconcile_read_only(
            &network_id(),
            Some(import_row("headscale", true, false)),
            rows,
            &actions,
            snapshot(nodes),
            at(30),
            &mut log,
            actor(),
        )
        .unwrap();
    assert_eq!(plan.success.compatibility, CompatibilityStatus::Compatible);
    assert_eq!(plan.success.provider_version, "v0.29.3");
    assert_eq!(plan.success.at, at(30));
    (plan.effects, log.events.iter().map(|event| event.kind).collect())
}

fn stored(effect: &Effect) -> &ObservationRecord {
    match effect {
        Effect::Store(record) => record,
        other => panic!("{other:?}"),
    }
}

#[test]
fn versions_are_compared_without_leading_v() {
    assert!(same_version("v0.29.3", "0.29.3"));
    assert!(same_version("vv1", "v1"));
    assert!(same_version("v", ""));
    assert!(!same_version("0.29.3", "0.29.4"));
    assert!(!same_version("0.29", "0.29.3"));
}

#[test]
fn inspections_are_accepted_only_when_exact() {
    let refused = |change: &dyn Fn(&mut ServerInspection)| {
        let mut seen = inspection();
        change(&mut seen);
        expected().inspected(Ok(seen)).err()
    };
    assert_eq!(refused(&|_| {}), None);
    assert_eq!(
        refused(&|i| i.compatibility = CompatibilityStatus::CompatibleWithConstraints),
        None
    );
    let incompatible = Some(ReconciliationFailure::Incompatible);
    assert_eq!(refused(&|i| i.provider_name = "tailscale".into()), incompatible);
    assert_eq!(refused(&|i| i.instance_id.text = "other".into()), incompatible);
    assert_eq!(refused(&|i| i.mutation_allowed = true), incompatible);
    assert_eq!(
        refused(&|i| i.compatibility = CompatibilityStatus::ReadOnlyDegraded),
        incompatible
    );
    assert_eq!(refused(&|i| i.provider_version = "v0.30".into()), incompatible);
    let config = headscale_config();
    assert_eq!(validate_inspection(&inspection(), &config), Ok(()));
}

#[test]
fn provider_errors_have_their_meaning() {
    let text = || "x".to_string();
    for (error, failure) in [
        (ProviderError::AuthenticationFailed, ReconciliationFailure::AuthenticationFailed),
        (ProviderError::MalformedResponse(text()), ReconciliationFailure::Malformed),
        (ProviderError::Conflict(text()), ReconciliationFailure::IdentityConflict),
        (ProviderError::Unsupported(text()), ReconciliationFailure::Incompatible),
        (ProviderError::Rejected(text()), ReconciliationFailure::Incompatible),
        (ProviderError::Unreachable(text()), ReconciliationFailure::Unreachable),
        (ProviderError::Timeout, ReconciliationFailure::Unreachable),
        (ProviderError::TlsFailure, ReconciliationFailure::Unreachable),
        (ProviderError::AmbiguousMutation(text()), ReconciliationFailure::Unreachable),
    ] {
        assert_eq!(map_provider_failure(error), failure);
    }
    assert_eq!(
        expected().inspected(Err(ProviderError::Timeout)).err(),
        Some(ReconciliationFailure::Unreachable)
    );
    assert_eq!(
        expected()
            .inspected(Ok(inspection()))
            .unwrap()
            .listed(Err(ProviderError::MalformedResponse(text())))
            .err(),
        Some(ReconciliationFailure::Malformed)
    );
}

#[test]
fn snapshots_are_ordered() {
    let ids = ["m", "b", "z", "a", "k", "bb", "aa"];
    let nodes = ids.iter().map(|id| node(id, id, false, "x")).collect();
    let ordered = validate_snapshot(nodes, &instance()).unwrap();
    let got: Vec<_> = ordered.iter().map(|n| n.identity.node_id.as_str()).collect();
    assert_eq!(got, ["a", "aa", "b", "bb", "k", "m", "z"]);
}

#[test]
fn snapshots_with_doubled_or_foreign_nodes_are_refused() {
    let twice = vec![node("a", "1", false, "x"), node("b", "2", false, "x"), node("a", "3", true, "y")];
    assert_eq!(
        validate_snapshot(twice, &instance()),
        Err(ReconciliationFailure::IdentityConflict)
    );
    let mut foreign = node("a", "1", false, "x");
    foreign.identity.provider_instance_id.text = "other".into();
    assert_eq!(
        validate_snapshot(vec![foreign], &instance()),
        Err(ReconciliationFailure::IdentityConflict)
    );
    assert_eq!(validate_snapshot(vec![], &instance()), Ok(vec![]));
}

#[test]
fn stored_observations_read_back() {
    let mut stored_row = row(node("a", "1", false, "x"), "quarantined", "adopted", 3);
    stored_row.device_id =
        Some(Stored { text: "dev".into(), parsed: Ok(DeviceId { text: "dev".into() }) });
    let read = StateStore::new().provider_observations(&network_id(), vec![stored_row]).unwrap();
    assert_eq!(read.len(), 1);
    let seen = &read[0];
    assert_eq!(seen.network_id, network_id());
    assert_eq!(seen.device_id, Some(DeviceId { text: "dev".into() }));
    assert_eq!(seen.canonical_provider_node_id, "a");
    assert_eq!(seen.classification, ObservationClassification::Quarantined);
    assert_eq!(seen.adoption_state, AdoptionState::Adopted);
    assert_eq!(seen.semantic_generation, 3);
    assert_eq!(seen.first_observed_at, at(10));
    assert_eq!(seen.last_observed_at, at(20));
    assert_eq!(seen.node, node("a", "1", false, "x"));
}

#[test]
fn unreadable_observations_are_refused_in_order() {
    let refused = |change: &dyn Fn(&mut ObservationRow)| {
        let mut bad = row(node("a", "1", false, "x"), "active", "unmanaged", 1);
        change(&mut bad);
        load_observations(&network_id(), vec![bad]).err().unwrap()
    };
    let conflict = |text: &str| StateError::Conflict(text.into());
    assert_eq!(
        refused(&|r| r.device_id = Some(Stored { text: "d".into(), parsed: Err("dev".into()) })),
        conflict("dev")
    );
    assert_eq!(
        refused(&|r| r.provider_instance_id.parsed = Err("inst".into())),
        conflict("inst")
    );
    assert_eq!(
        refused(&|r| r.node = Err("json".into())),
        StateError::Serialization("json".into())
    );
    for change in [
        |r: &mut ObservationRow| r.first_observed_at = "x".into(),
        |r: &mut ObservationRow| r.last_observed_at = "x".into(),
        |r: &mut ObservationRow| r.snapshot_at = "x".into(),
    ] {
        assert_eq!(refused(&change), conflict("invalid observation timestamp"));
    }
    assert_eq!(
        refused(&|r| r.classification = "x".into()),
        conflict("unknown provider observation classification")
    );
    assert_eq!(
        refused(&|r| r.adoption_state = "x".into()),
        conflict("unknown provider observation adoption state")
    );
    assert_eq!(
        refused(&|r| {
            r.node = Err("json".into());
            r.adoption_state = "x".into();
        }),
        StateError::Serialization("json".into())
    );
}

#[test]
fn page_limits_fit_the_database() {
    let rows = || vec![row(node("a", "1", false, "x"), "active", "unmanaged", 1)];
    assert_eq!(
        load_observation_page(&network_id(), rows(), None, usize::MAX),
        Err(StateError::Conflict("observation page limit is invalid".into()))
    );
    let page = load_observation_page(&network_id(), rows(), None, i64::MAX as usize).unwrap();
    assert_eq!(page.len(), 1);
}

#[test]
fn inventories_keep_one_observation_of_a_node() {
    let read = StateStore::new()
        .provider_observations(
            &network_id(),
            vec![
                row(node("b", "1", false, "x"), "active", "unmanaged", 1),
                row(node("a", "2", false, "x"), "active", "unmanaged", 2),
                row(node("b", "3", false, "y"), "revoked", "unmanaged", 3),
            ],
        )
        .unwrap();
    let got: Vec<_> = read
        .iter()
        .map(|o| (o.canonical_provider_node_id.as_str(), o.semantic_generation))
        .collect();
    assert_eq!(got, [("a", 2), ("b", 3)]);
    let empty = Inventory::new();
    assert_eq!(empty.len(), 0);
    assert!(empty.find("a").is_none());
}

#[test]
fn new_nodes_are_discovered() {
    let (effects, kinds) =
        reconcile(vec![], vec![], vec![node("b", "2", true, "y"), node("a", "1", false, "x")]);
    assert_eq!(effects.len(), 2);
    let first = stored(&effects[0]);
    assert_eq!(first.provider_node_id, "a");
    assert_eq!(first.network_id, network_id());
    assert_eq!(first.provider_instance_id, instance());
    assert_eq!(first.device_id, None);
    assert_eq!(first.classification, ObservationClassification::DiscoveredUnmanaged);
    assert_eq!(first.stable_key_fingerprint, key("1"));
    assert_eq!(first.semantic_fingerprint, key("{\"body\":\"x\",\"at\":0}"));
    assert_eq!(first.semantic_generation, None);
    assert_eq!(first.first_observed_at, at(30));
    assert_eq!(first.observation_id.len(), 36);
    let second = stored(&effects[1]);
    assert_eq!(second.classification, ObservationClassification::ProviderExpired);
    assert_ne!(first.observation_id, second.observation_id);
    assert_eq!(
        kinds,
        [
            AuditKind::ReconciliationStarted,
            AuditKind::NodeDiscovered,
            AuditKind::NodeDiscovered,
            AuditKind::ReconciliationCompleted,
        ]
    );
    let columns = first.columns();
    assert_eq!(columns.classification, "discovered_unmanaged");
    assert_eq!(columns.adoption_state, "unmanaged");
    assert_eq!(columns.normalized_json, "{\"body\":\"x\",\"at\":9}");
    assert_eq!(columns.snapshot_at, "1970-01-01T00:00:30+00:00");
}

#[test]
fn unchanged_nodes_are_not_audited() {
    let same = node("a", "1", false, "x");
    let (effects, kinds) = reconcile(
        vec![row(same.clone(), "discovered_unmanaged", "unmanaged", 7)],
        vec![],
        vec![same],
    );
    assert!(kinds.is_empty());
    let record = stored(&effects[0]);
    assert_eq!(record.semantic_generation, Some(7));
    assert_eq!(record.first_observed_at, at(10));
    assert_eq!(record.last_observed_at, at(30));
}

#[test]
fn repeated_snapshot_changes_nothing() {
    let nodes = || vec![node("a", "1", true, "x"), node("b", "2", false, "y")];
    let rows = || {
        vec![
            row(node("a", "1", false, "old"), "active", "unmanaged", 1),
            row(node("c", "3", false, "z"), "active", "unmanaged", 1),
        ]
    };
    let (effects, kinds) = reconcile(rows(), vec![], nodes());
    assert_eq!(
        kinds,
        [
            AuditKind::ReconciliationStarted,
            AuditKind::NodeExpired,
            AuditKind::NodeDiscovered,
            AuditKind::NodeMissing,
            AuditKind::ReconciliationCompleted,
        ]
    );
    let mut after = vec![];
    for effect in &effects {
        match effect {
            Effect::Store(record) => {
                let name = record.columns().classification;
                after.push(row(
                    record.node.clone(),
                    name,
                    "unmanaged",
                    record.semantic_generation.unwrap_or(1),
                ));
            }
            Effect::Missing(missing) => {
                assert_eq!(missing.semantic_generation, Some(2));
                after.push(row(node("c", "3", false, "z"), "provider_missing", "unmanaged", 2));
            }
            other => panic!("{other:?}"),
        }
    }
    let (_, again) = reconcile(after, vec![], nodes());
    assert!(again.is_empty());
}

#[test]
fn changed_nodes_advance_their_generation() {
    let (effects, kinds) = reconcile(
        vec![row(node("a", "1", false, "old"), "active", "unmanaged", 7)],
        vec![],
        vec![node("a", "1", false, "new")],
    );
    assert_eq!(kinds[1], AuditKind::NodeChanged);
    let record = stored(&effects[0]);
    assert_eq!(record.classification, ObservationClassification::Active);
    assert_eq!(record.semantic_generation, Some(8));
    assert_eq!(record.node, node("a", "1", false, "new"));
    let (effects, kinds) = reconcile(
        vec![row(node("a", "1", false, "x"), "active", "unmanaged", 7)],
        vec![],
        vec![node("a", "1", true, "x")],
    );
    assert_eq!(kinds[1], AuditKind::NodeExpired);
    assert_eq!(
        stored(&effects[0]).classification,
        ObservationClassification::ProviderExpired
    );
}

#[test]
fn reports_never_activate_a_node() {
    for name in [
        "discovered_unmanaged",
        "provider_missing",
        "provider_expired",
        "provider_removed",
        "identity_conflict",
    ] {
        let (effects, _) = reconcile(
            vec![row(node("a", "1", false, "x"), name, "unmanaged", 1)],
            vec![],
            vec![node("a", "1", false, "y")],
        );
        assert_eq!(
            stored(&effects[0]).classification,
            ObservationClassification::DiscoveredUnmanaged
        );
    }
    for (name, kept) in [
        ("expected_joining", ObservationClassification::ExpectedJoining),
        ("quarantined", ObservationClassification::Quarantined),
        ("revoked", ObservationClassification::Revoked),
    ] {
        let (effects, _) = reconcile(
            vec![row(node("a", "1", false, "x"), name, "unmanaged", 1)],
            vec![],
            vec![node("a", "1", false, "y")],
        );
        assert_eq!(stored(&effects[0]).classification, kept);
    }
}

#[test]
fn another_key_is_a_conflict() {
    let known = node("a", "1", false, "x");
    let (effects, kinds) = reconcile(
        vec![row(known.clone(), "active", "unmanaged", 7)],
        vec![],
        vec![node("a", "2", false, "y")],
    );
    assert_eq!(kinds[1], AuditKind::NodeIdentityConflict);
    let record = stored(&effects[0]);
    assert_eq!(record.classification, ObservationClassification::IdentityConflict);
    assert_eq!(record.node, known);
    assert_eq!(record.stable_key_fingerprint, key("1"));
    assert_eq!(record.semantic_generation, Some(8));
    let mut other = node("a", "1", false, "y");
    other.machine_key = "mkey:else".into();
    let (effects, kinds) = reconcile(
        vec![row(known, "identity_conflict", "unmanaged", 8)],
        vec![],
        vec![other],
    );
    assert!(kinds.is_empty());
    assert_eq!(stored(&effects[0]).semantic_generation, Some(8));
}

#[test]
fn missing_nodes_are_marked_once() {
    let rows = vec![
        row(node("a", "1", false, "x"), "active", "unmanaged", 1),
        row(node("b", "2", false, "x"), "provider_missing", "unmanaged", 5),
    ];
    let (effects, kinds) = reconcile(rows, vec![], vec![]);
    assert_eq!(effects.len(), 1);
    match &effects[0] {
        Effect::Missing(missing) => {
            assert_eq!(missing.provider_node_id, "a");
            assert_eq!(missing.provider_instance_id, instance());
            assert_eq!(missing.snapshot_at, at(30));
            assert_eq!(missing.semantic_generation, Some(2));
        }
        other => panic!("{other:?}"),
    }
    assert_eq!(kinds[1], AuditKind::NodeMissing);
}

#[test]
fn changed_observations_end_pending_adoptions() {
    let state = "pending_device_credential_proof";
    let cases = [
        (node("a", "1", false, "new"), AdoptionConflict::ObservationChanged, "observation_changed"),
        (node("a", "1", true, "x"), AdoptionConflict::ProviderExpired, "provider_expired"),
        (node("a", "2", false, "x"), AdoptionConflict::IdentityConflict, "identity_conflict"),
    ];
    for (reported, reason, code) in cases {
        let (effects, _) = reconcile(
            vec![row(node("a", "1", false, "x"), "active", state, 7)],
            vec![pending("b"), pending("a")],
            vec![reported],
        );
        assert_eq!(effects.len(), 2);
        let Effect::Conflict(decision) = &effects[1] else { panic!() };
        assert_eq!(decision.action_id, "action-a");
        assert_eq!(decision.authority_generation, 4);
        assert_eq!(decision.proof_generation, 6);
        assert_eq!(decision.observation_generation, 8);
        assert_eq!(decision.reason, reason);
        assert_eq!(decision.reason.code(), code);
        assert_eq!(decision.decided_at_ms, 30_000);
        assert_eq!(decision.safe_correlation_digest, sha256_fingerprint(b"action-a"));
        assert_eq!(decision.decision_id.len(), 36);
        assert_eq!(decision.event.kind, AuditKind::AdoptionActionConflicted);
        assert_eq!(decision.event.generation, Some(8));
        assert_eq!(decision.event.recorded_at, at(30));
        assert_eq!(decision.event.metadata_json, "{}");
    }
    let (effects, _) = reconcile(
        vec![row(node("a", "1", false, "x"), "active", state, 7)],
        vec![pending("a")],
        vec![],
    );
    let Effect::Conflict(decision) = &effects[1] else { panic!() };
    assert_eq!(decision.reason.code(), "provider_missing");
}

#[test]
fn adoptions_survive_unchanged_observations() {
    let (effects, _) = reconcile(
        vec![row(node("a", "1", false, "x"), "active", "pending_device_credential_proof", 7)],
        vec![pending("a")],
        vec![node("a", "1", false, "x")],
    );
    assert_eq!(effects.len(), 1);
    let (effects, _) = reconcile(
        vec![row(node("a", "1", false, "x"), "active", "adopted", 7)],
        vec![pending("a")],
        vec![node("a", "1", false, "y")],
    );
    assert_eq!(effects.len(), 1);
    let (effects, _) = reconcile(
        vec![row(node("a", "1", false, "x"), "active", "pending_device_credential_proof", 7)],
        vec![],
        vec![node("a", "1", false, "y")],
    );
    assert_eq!(effects.len(), 1);
}

#[test]
fn reconciliation_fails_as_a_whole() {
    let mut store = StateStore::new();
    let mut log = AuditLog::new(vec![]);
    let mut attempt = |store: &StateStore, rows, actions: Vec<PendingAction>, nodes| {
        let result = store.reconcile_read_only(
            &network_id(),
            Some(import_row("headscale", true, false)),
            rows,
            &actions,
            snapshot(nodes),
            at(30),
            &mut log,
            actor(),
        );
        assert!(log.events.is_empty());
        result.err()
    };
    let state = |error| Some(ReconciliationFailure::State(error));
    let huge = row(
        node("a", "1", false, "x"),
        "active",
        "pending_device_credential_proof",
        i64::MAX as u64,
    );
    assert_eq!(
        attempt(&store, vec![huge], vec![pending("a")], vec![]),
        state(StateError::Conflict("observation generation exceeds SQLite integer range".into()))
    );
    assert_eq!(
        attempt(&store, vec![row(node("a", "1", false, "x"), "?", "unmanaged", 1)], vec![], vec![]),
        state(StateError::Conflict("unknown provider observation classification".into()))
    );
    store.set_failpoint(Failpoint::BeforeAuditInsert, true);
    assert_eq!(
        attempt(&store, vec![], vec![], vec![node("a", "1", false, "x")]),
        state(StateError::InjectedFailure)
    );
    assert_eq!(attempt(&store, vec![], vec![], vec![]), None);
}

fn import_row(kind: &str, read_only: bool, mutation: bool) -> ReconciliationImportRow {
    ReconciliationImportRow {
        provider_instance_id: Stored { text: "inst".into(), parsed: Ok(instance()) },
        provider_kind: kind.into(),
        compatibility_pin: "0.29.3".into(),
        read_only,
        mutation_allowed: mutation,
    }
}

#[test]
fn snapshots_of_another_provider_are_not_applied() {
    let store = StateStore::new();
    let mut log = AuditLog::new(vec![]);
    let mut attempt = |import: Option<ReconciliationImportRow>| {
        let result = store.reconcile_read_only(
            &network_id(),
            import,
            vec![],
            &vec![],
            snapshot(vec![node("a", "1", false, "x")]),
            at(30),
            &mut log,
            actor(),
        );
        if result.is_err() {
            assert!(log.events.is_empty());
        }
        result.err()
    };
    let state = |error| Some(ReconciliationFailure::State(error));
    assert_eq!(attempt(None), state(StateError::NotFound("net".into())));
    assert_eq!(
        attempt(Some(import_row("headscale", true, true))),
        state(StateError::Conflict("persisted provider import is not read-only".into()))
    );
    let mut other = import_row("headscale", true, false);
    other.provider_instance_id.parsed = Ok(ProviderInstanceId { text: "other".into() });
    assert_eq!(attempt(Some(other)), Some(ReconciliationFailure::IdentityConflict));
    let incompatible = Some(ReconciliationFailure::Incompatible);
    assert_eq!(attempt(Some(import_row("tailscale", true, false))), incompatible);
    let mut pinned = import_row("headscale", true, false);
    pinned.compatibility_pin = "0.30".into();
    assert_eq!(attempt(Some(pinned.clone())), incompatible);
    pinned.compatibility_pin = "v0.29.3".into();
    assert_eq!(attempt(Some(pinned)), None);
}

#[test]
fn only_read_only_imports_are_reconciled() {
    let config =
        |row| reconciliation_import_config(&network_id(), row).map(|config| config.provider_name);
    assert_eq!(config(Some(import_row("headscale", true, false))), Ok("headscale"));
    assert_eq!(config(Some(import_row("tailscale", true, false))), Ok("tailscale"));
    let conflict = |text: &str| Err(StateError::Conflict(text.into()));
    let not_read_only = conflict("persisted provider import is not read-only");
    assert_eq!(config(Some(import_row("headscale", false, false))), not_read_only);
    assert_eq!(config(Some(import_row("headscale", true, true))), not_read_only);
    assert_eq!(
        config(Some(import_row("other", true, false))),
        conflict("unsupported persisted provider kind")
    );
    assert_eq!(config(None), Err(StateError::NotFound("net".into())));
    let mut bad = import_row("headscale", true, false);
    bad.provider_instance_id.parsed = Err("id".into());
    assert_eq!(config(Some(bad)), conflict("id"));
    let good = reconciliation_import_config(
        &network_id(),
        Some(import_row("headscale", true, false)),
    )
    .unwrap();
    assert!(good.is_for(&instance()));
    assert!(!good.is_for(&ProviderInstanceId { text: "other".into() }));
}

fn headscale_config() -> HeadscaleImportConfig {
    HeadscaleImportConfig::new(
        "https://head".into(),
        instance(),
        "secret://k".into(),
        "0.29.3".into(),
        TlsVerificationPolicy::Verify,
    )
    .unwrap()
}

fn tailscale_config() -> TailscaleImportConfig {
    TailscaleImportConfig::new("tail.net".into(), instance(), "secret://k".into()).unwrap()
}

fn network(kind: ProviderKind) -> Network {
    Network {
        network_id: network_id(),
        name: "home".into(),
        state: "Active".into(),
        provider_kind: kind,
        provider_instance_id: instance(),
        membership_generation: Generation { value: 2 },
        policy_generation: Generation { value: 1 },
        created_at: at(1),
        updated_at: at(1),
    }
}

#[test]
fn headscale_import_stores_and_audits() {
    let store = StateStore::new();
    let mut log = AuditLog::new(vec![]);
    let made = network(ProviderKind::Headscale);
    let taken = snapshot(vec![node("b", "2", true, "y"), node("a", "1", false, "x")]);
    let row = headscale_import_row(&made, &headscale_config(), &taken, at(30));
    assert_eq!(row.server_url, "https://head");
    assert_eq!(row.tls_verification, "verify");
    assert_eq!((row.read_only, row.mutation_allowed), (1, 0));
    assert_eq!(row.compatibility, "compatible");
    assert_eq!(row.provider_version, "v0.29.3");
    assert_eq!(row.last_success_at, "1970-01-01T00:00:30+00:00");
    let records = store
        .import_headscale_network(
            &made,
            &headscale_config(),
            taken,
            Ok(()),
            at(30),
            &mut log,
            actor(),
        )
        .unwrap();
    assert_eq!(records.len(), 2);
    assert_eq!(records[0].provider_node_id, "a");
    assert_eq!(records[0].classification, ObservationClassification::DiscoveredUnmanaged);
    assert_eq!(records[1].classification, ObservationClassification::ProviderExpired);
    let kinds: Vec<_> = log.events.iter().map(|event| event.kind).collect();
    assert_eq!(
        kinds,
        [
            AuditKind::NetworkImported,
            AuditKind::ReconciliationStarted,
            AuditKind::NodeDiscovered,
            AuditKind::NodeExpired,
            AuditKind::ReconciliationCompleted,
        ]
    );
    assert_eq!(log.events[0].generation, Some(2));
    assert_eq!(log.events[1].generation, None);
}

#[test]
fn imports_fail_as_a_whole() {
    let mut store = StateStore::new();
    let mut log = AuditLog::new(vec![]);
    let mut attempt = |store: &StateStore, made: &Network, stored| {
        let result = store.import_headscale_network(
            made,
            &headscale_config(),
            snapshot(vec![node("a", "1", false, "x")]),
            stored,
            at(30),
            &mut log,
            actor(),
        );
        if result.is_err() {
            assert!(log.events.is_empty());
        }
        result.err()
    };
    assert_eq!(
        attempt(&store, &network(ProviderKind::Tailscale), Ok(())),
        Some(ReconciliationFailure::Incompatible)
    );
    let state = |error| Some(ReconciliationFailure::State(error));
    let mut huge = network(ProviderKind::Headscale);
    huge.policy_generation = Generation { value: u64::MAX };
    assert_eq!(
        attempt(&store, &huge, Ok(())),
        state(StateError::Conflict("generation exceeds SQLite integer range".into()))
    );
    let twice = DatabaseFailure { constraint_violated: true, text: "UNIQUE".into() };
    assert_eq!(
        attempt(&store, &network(ProviderKind::Headscale), Err(twice)),
        state(StateError::Conflict("UNIQUE".into()))
    );
    store.set_failpoint(Failpoint::BeforeAuditInsert, true);
    assert_eq!(
        attempt(&store, &network(ProviderKind::Headscale), Ok(())),
        state(StateError::InjectedFailure)
    );
}

#[test]
fn imports_refuse_snapshots_of_another_pin() {
    let mut log = AuditLog::new(vec![]);
    let mut config = headscale_config();
    config.compatibility_pin = "0.30".into();
    let made = network(ProviderKind::Headscale);
    let taken = snapshot(vec![node("a", "1", false, "x")]);
    assert_eq!(
        StateStore::new()
            .import_headscale_network(&made, &config, taken, Ok(()), at(30), &mut log, actor())
            .err(),
        Some(ReconciliationFailure::Incompatible)
    );
    let made = network(ProviderKind::Tailscale);
    let taken = snapshot(vec![]);
    assert_eq!(
        StateStore::new()
            .import_tailscale_network(
                &made,
                &tailscale_config(),
                taken,
                Ok(()),
                at(30),
                &mut log,
                actor(),
            )
            .err(),
        Some(ReconciliationFailure::Incompatible)
    );
    assert!(log.events.is_empty());
}

#[test]
fn import_checks_come_before_the_provider() {
    let other = ProviderInstanceId { text: "other".into() };
    let made = network(ProviderKind::Headscale);
    assert!(begin_headscale_import(&made, &headscale_config(), &instance()).is_ok());
    let incompatible = Err(ReconciliationFailure::Incompatible);
    assert_eq!(begin_headscale_import(&made, &headscale_config(), &other), incompatible);
    let mut config = headscale_config();
    config.mutation_allowed = true;
    assert_eq!(begin_headscale_import(&made, &config, &instance()), incompatible);
    let mut config = headscale_config();
    config.read_only = false;
    assert_eq!(begin_headscale_import(&made, &config, &instance()), incompatible);
    let mut config = headscale_config();
    config.server_url = "http://head".into();
    assert_eq!(
        begin_headscale_import(&made, &config, &instance()),
        Err(ReconciliationFailure::State(StateError::Conflict(
            "Headscale server URL must be a clean HTTPS origin".into()
        )))
    );
    let made = network(ProviderKind::Tailscale);
    let begun = begin_tailscale_import(&made, &tailscale_config(), &instance()).unwrap();
    assert_eq!(begun.provider_name, "tailscale");
    assert_eq!(begun.compatibility_pin, "api-v2");
    assert_eq!(begin_tailscale_import(&made, &tailscale_config(), &other), incompatible);
    assert_eq!(
        begin_tailscale_import(&network(ProviderKind::Headscale), &tailscale_config(), &instance()),
        incompatible
    );
}

#[test]
fn tailscale_import_stores_and_audits() {
    let mut seen = inspection();
    seen.provider_name = "tailscale".into();
    seen.provider_version = "api-v2".into();
    let made = network(ProviderKind::Tailscale);
    let taken = begin_tailscale_import(&made, &tailscale_config(), &instance())
        .unwrap()
        .inspected(Ok(seen))
        .unwrap()
        .listed(Ok(vec![node("a", "1", false, "x")]))
        .unwrap();
    let row = tailscale_import_row(&made, &tailscale_config(), &taken, at(30));
    assert_eq!(row.server_url, "https://api.tailscale.com/api/v2/tailnet/tail.net");
    assert_eq!(row.custom_root_ca_sha256, None);
    let mut log = AuditLog::new(vec![]);
    let records = StateStore::new()
        .import_tailscale_network(
            &made,
            &tailscale_config(),
            taken,
            Ok(()),
            at(30),
            &mut log,
            actor(),
        )
        .unwrap();
    assert_eq!(records.len(), 1);
    assert_eq!(log.events.len(), 4);
}

#[test]
fn failures_are_recorded_once() {
    let mut store = StateStore::new();
    let mut log = AuditLog::new(vec![]);
    let failure = ReconciliationFailure::AuthenticationFailed;
    let recorded = store
        .record_failure_for(&network_id(), Some(None), at(40), &failure, &mut log, actor())
        .unwrap();
    assert_eq!(recorded.kind, FailureKind::Authentication);
    assert_eq!(recorded.detail, "provider authentication failed");
    assert_eq!(recorded.at, at(40));
    assert_eq!(log.events.len(), 1);
    assert_eq!(log.events[0].kind, AuditKind::ReconciliationFailed);
    assert_eq!(log.events[0].outcome, AuditOutcome::Provider(FailureKind::Authentication));
    let last = Some(Some("authentication".to_string()));
    store.record_failure_for(&network_id(), last, at(50), &failure, &mut log, actor()).unwrap();
    assert_eq!(log.events.len(), 1);
    assert_eq!(
        store.record_failure_for(&network_id(), None, at(50), &failure, &mut log, actor()),
        Err(StateError::NotFound("net".into()))
    );
    store.set_failpoint(Failpoint::BeforeAuditInsert, true);
    assert_eq!(
        store.record_failure_for(&network_id(), Some(None), at(50), &failure, &mut log, actor()),
        Err(StateError::InjectedFailure)
    );
}

#[test]
fn mismatched_instances_are_identity_conflicts() {
    let store = StateStore::new();
    let mut log = AuditLog::new(vec![]);
    let last = |kind: &str| Some(Some(kind.to_string()));
    let (recorded, failure) = store
        .record_instance_mismatch(&network_id(), last("state"), at(60), &mut log, actor())
        .unwrap();
    assert_eq!(recorded.kind, FailureKind::IdentityConflict);
    assert_eq!(recorded.detail, "provider instance mismatch");
    assert_eq!(recorded.at, at(60));
    assert_eq!(failure, ReconciliationFailure::IdentityConflict);
    assert_eq!(log.events.len(), 1);
    assert_eq!(log.events[0].outcome, AuditOutcome::Provider(FailureKind::IdentityConflict));
    store
        .record_instance_mismatch(&network_id(), last("identity_conflict"), at(70), &mut log, actor())
        .unwrap();
    assert_eq!(log.events.len(), 1);
    assert_eq!(
        store.record_instance_mismatch(&network_id(), None, at(70), &mut log, actor()),
        Err(StateError::NotFound("net".into()))
    );
}

#[test]
fn failures_have_their_details() {
    let store = StateStore::new();
    for (failure, kind, detail) in [
        (ReconciliationFailure::Unreachable, FailureKind::Unreachable, "provider unreachable"),
        (
            ReconciliationFailure::Incompatible,
            FailureKind::Incompatible,
            "provider compatibility rejected",
        ),
        (ReconciliationFailure::Malformed, FailureKind::Malformed, "provider response malformed"),
        (
            ReconciliationFailure::IdentityConflict,
            FailureKind::IdentityConflict,
            "provider identity conflict",
        ),
        (
            ReconciliationFailure::State(StateError::InjectedFailure),
            FailureKind::State,
            "local state failure",
        ),
    ] {
        let mut log = AuditLog::new(vec![]);
        let recorded = store
            .record_failure_for(&network_id(), Some(None), at(1), &failure, &mut log, actor())
            .unwrap();
        assert_eq!((recorded.kind, recorded.detail), (kind, detail));
    }
}

fn status() -> ImportStatusRow {
    ImportStatusRow {
        compatibility: "compatible".into(),
        provider_version: "v0.29.3".into(),
        last_success_at: Some(at(30).to_rfc3339()),
        last_attempt_at: Some(at(40).to_rfc3339()),
        last_failure_kind: None,
        last_failure_detail: None,
    }
}

#[test]
fn report_counts_observations() {
    let names = ["active", "provider_missing", "active", "quarantined", "revoked", "identity_conflict",
        "discovered_unmanaged", "provider_expired", "provider_missing", "provider_missing"];
    let names: Vec<String> = names.iter().map(|n| n.to_string()).collect();
    let report =
        StateStore::new().reconciliation_report(&network_id(), &names, Some(status())).unwrap();
    assert_eq!(report.observed_count, 10);
    assert_eq!(report.active_trusted_count, 2);
    assert_eq!(report.provider_missing_count, 3);
    assert_eq!(report.quarantined_count, 1);
    assert_eq!(report.identity_conflict_count, 1);
    assert_eq!(report.discovered_unmanaged_count, 1);
    assert_eq!(report.provider_expired_count, 1);
    assert_eq!(report.provider_state, ProviderReconciliationState::Healthy);
    assert_eq!(report.last_attempted_reconciliation, Some(at(40)));
    assert_eq!(report.last_successful_reconciliation, Some(at(30)));
    assert!(report.warnings.is_empty());
    assert!(!report.provider_mutation_enabled);
}

#[test]
fn report_counts_are_those_of_the_inventory() {
    let rows = || {
        vec![
            row(node("b", "1", false, "x"), "active", "unmanaged", 1),
            row(node("a", "2", false, "x"), "provider_missing", "unmanaged", 2),
            row(node("c", "3", false, "y"), "active", "unmanaged", 3),
        ]
    };
    let seen = StateStore::new().provider_observations(&network_id(), rows()).unwrap();
    let names: Vec<String> = rows().iter().rev().map(|r| r.classification.clone()).collect();
    let report =
        StateStore::new().reconciliation_report(&network_id(), &names, Some(status())).unwrap();
    let count = |class| seen.iter().filter(|o| o.classification == class).count() as u64;
    assert_eq!(report.observed_count, seen.len() as u64);
    assert_eq!(report.active_trusted_count, count(ObservationClassification::Active));
    assert_eq!(report.provider_missing_count, count(ObservationClassification::ProviderMissing));
    assert_eq!(report.quarantined_count, count(ObservationClassification::Quarantined));
}

#[test]
fn report_shows_a_success() {
    let mut log = AuditLog::new(vec![]);
    let plan = StateStore::new()
        .reconcile_read_only(
            &network_id(),
            Some(import_row("headscale", true, false)),
            vec![],
            &vec![],
            snapshot(vec![]),
            at(50),
            &mut log,
            actor(),
        )
        .unwrap();
    let columns = plan.success.columns();
    let row = ImportStatusRow {
        compatibility: columns.compatibility.into(),
        provider_version: columns.provider_version,
        last_success_at: Some(columns.last_success_at),
        last_attempt_at: Some(columns.last_attempt_at),
        last_failure_kind: columns.last_failure_kind,
        last_failure_detail: columns.last_failure_detail,
    };
    let report =
        StateStore::new().reconciliation_report(&network_id(), &vec![], Some(row)).unwrap();
    assert_eq!(report.provider_state, ProviderReconciliationState::Healthy);
    assert_eq!(report.last_successful_reconciliation, Some(at(50)));
    assert_eq!(report.last_attempted_reconciliation, Some(at(50)));
    assert!(report.warnings.is_empty());
}

#[test]
fn repeated_reports_change_nothing() {
    let mut later = node("a", "1", false, "x");
    later.json = "{\"body\":\"x\",\"at\":77}".into();
    let mut known = row(node("a", "1", false, "x"), "quarantined", "adopted", 5);
    known.device_id =
        Some(Stored { text: "dev".into(), parsed: Ok(DeviceId { text: "dev".into() }) });
    let gone = row(node("b", "2", false, "x"), "provider_missing", "unmanaged", 3);
    let (effects, kinds) = reconcile(vec![known, gone], vec![pending("a")], vec![later.clone()]);
    assert!(kinds.is_empty());
    assert_eq!(effects.len(), 1);
    let kept = stored(&effects[0]);
    assert_eq!(kept.classification, ObservationClassification::Quarantined);
    assert_eq!(kept.semantic_generation, Some(5));
    assert_eq!(kept.device_id, Some(DeviceId { text: "dev".into() }));
    assert_eq!(kept.first_observed_at, at(10));
    assert_eq!(kept.last_observed_at, at(30));
    assert_eq!(kept.node, later);
}

#[test]
fn failed_attempts_keep_the_inventory() {
    let store = StateStore::new();
    let names: Vec<String> = ["active", "provider_missing"].map(String::from).to_vec();
    let before = store.reconciliation_report(&network_id(), &names, Some(status())).unwrap();
    let mut log = AuditLog::new(vec![]);
    let failure = ReconciliationFailure::Malformed;
    let recorded = store
        .record_failure_for(&network_id(), Some(None), at(90), &failure, &mut log, actor())
        .unwrap();
    let columns = recorded.columns();
    let mut row = status();
    row.last_attempt_at = Some(columns.last_attempt_at);
    row.last_failure_kind = Some(columns.last_failure_kind.into());
    row.last_failure_detail = Some(columns.last_failure_detail.into());
    let mut after = store.reconciliation_report(&network_id(), &names, Some(row)).unwrap();
    assert_eq!(after.provider_state, ProviderReconciliationState::Malformed);
    assert_eq!(after.last_attempted_reconciliation, Some(at(90)));
    assert_eq!(after.warnings, ["provider response malformed"]);
    after.provider_state = before.provider_state;
    after.last_attempted_reconciliation = before.last_attempted_reconciliation;
    after.warnings = vec![];
    assert_eq!(after, before);
}

#[test]
fn report_shows_outages() {
    let show = |kind: Option<&str>, success: bool| {
        let mut row = status();
        row.last_failure_kind = kind.map(|k| k.to_string());
        row.last_failure_detail = kind.map(|_| "why".to_string());
        if !success {
            row.last_success_at = None;
        }
        StateStore::new().reconciliation_report(&network_id(), &vec![], Some(row)).unwrap()
    };
    assert_eq!(show(None, false).provider_state, ProviderReconciliationState::NeverReconciled);
    for (kind, state) in [
        ("unreachable", ProviderReconciliationState::Unreachable),
        ("authentication", ProviderReconciliationState::AuthenticationFailed),
        ("incompatible", ProviderReconciliationState::Incompatible),
        ("malformed", ProviderReconciliationState::Malformed),
        ("identity_conflict", ProviderReconciliationState::IdentityConflict),
        ("state", ProviderReconciliationState::StateFailure),
        ("anything", ProviderReconciliationState::StateFailure),
    ] {
        let report = show(Some(kind), true);
        assert_eq!(report.provider_state, state);
        assert_eq!(report.warnings, ["why"]);
        assert_eq!(report.last_successful_reconciliation, Some(at(30)));
    }
}

#[test]
fn report_needs_readable_records() {
    let refused = |change: &dyn Fn(&mut ImportStatusRow)| {
        let mut row = status();
        change(&mut row);
        StateStore::new().reconciliation_report(&network_id(), &vec![], Some(row)).err().unwrap()
    };
    assert_eq!(
        refused(&|r| r.compatibility = "x".into()),
        StateError::Conflict("unknown persisted provider compatibility".into())
    );
    let time = StateError::Conflict("invalid persisted reconciliation time".into());
    assert_eq!(refused(&|r| r.last_attempt_at = Some("x".into())), time);
    assert_eq!(refused(&|r| r.last_success_at = Some("x".into())), time);
    assert_eq!(
        StateStore::new().reconciliation_report(&network_id(), &vec![], None),
        Err(StateError::NotFound("net".into()))
    );
}

#[test]
fn observation_pages_are_checked() {
    let store = StateStore::new();
    let page = |limit, found: Option<Result<Network, String>>, rows| {
        store.provider_observation_page(&network_id(), None, limit, found, rows)
    };
    let home = || Some(Ok(network(ProviderKind::Headscale)));
    let good = || row(node("a", "1", false, "x"), "active", "unmanaged", 1);
    assert_eq!(page(0, None, vec![]), Ok(vec![]));
    assert_eq!(page(5, None, vec![good()]), Err(StateError::NotFound("net".into())));
    assert_eq!(
        page(5, Some(Err("json".into())), vec![good()]),
        Err(StateError::Serialization("json".into()))
    );
    assert_eq!(page(500, home(), vec![good()]).unwrap().len(), 1);
    let inconsistent = |change: &dyn Fn(&mut ObservationRow)| {
        let mut bad = good();
        change(&mut bad);
        page(5, home(), vec![good(), bad]).err()
    };
    let refused =
        Some(StateError::Conflict("provider observation identity is inconsistent".into()));
    let other = || ProviderInstanceId { text: "other".into() };
    assert_eq!(inconsistent(&|r| r.provider_instance_id.parsed = Ok(other())), refused);
    assert_eq!(inconsistent(&|r| r.provider_node_id = "b".into()), refused);
    assert_eq!(inconsistent(&|r| r.stable_key_fingerprint = "x".into()), refused);
    assert_eq!(inconsistent(&|r| r.stable_key_fingerprint = key("2")), refused);
    assert_eq!(inconsistent(&|r| r.semantic_fingerprint = key("2")), refused);
    assert_eq!(
        inconsistent(&|r| {
            r.node.as_mut().unwrap().identity.provider_instance_id = other();
        }),
        refused
    );
    assert_eq!(
        inconsistent(&|r| r.snapshot_at = "x".into()),
        Some(StateError::Conflict("invalid observation timestamp".into()))
    );
}

#[test]
fn observation_pages_join() {
    let store = StateStore::new();
    let rows = || {
        (0..130)
            .map(|i| {
                let id = format!("{i:03}");
                row(node(&id, &id, false, "x"), "active", "unmanaged", 1)
            })
            .collect::<Vec<_>>()
    };
    let page = |after: Option<&str>, limit| {
        store
            .provider_observation_page(
                &network_id(),
                after,
                limit,
                Some(Ok(network(ProviderKind::Headscale))),
                rows(),
            )
            .unwrap()
            .into_iter()
            .map(|seen| seen.canonical_provider_node_id)
            .collect::<Vec<_>>()
    };
    let first = page(None, 1000);
    assert_eq!(first.len(), 100);
    let second = page(first.last().map(|id| id.as_str()), 1000);
    assert_eq!(second.len(), 30);
    assert_eq!(second[0], "100");
    assert_eq!(page(Some("004"), 2), ["005", "006"]);
    assert!(page(Some("129"), 5).is_empty());
}
