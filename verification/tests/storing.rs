use nodescale_state::names::AuditKind;
use nodescale_state::records::{
    device_row, invitation_row, join_session_row, network_row, revocation_row,
};
use nodescale_state::store::{
    dump_queries, revoking_state, stale_network_generation, JoinSessionRecords, StoredDevice,
    StoredDeviceGenerations,
};
use nodescale_state::{
    AuditActor, AuditLog, DatabaseFailure, Device, DeviceGenerations, DeviceId, Failpoint,
    Generation, Invitation, InvitationId, InvitationState, JoinConstraints, JoinSession,
    JoinSessionId, JoinSessionState, MembershipState, Network, NetworkId, NodeIdentity,
    ProviderCredentialId, ProviderInstanceId, ProviderKind, Revocation, RevocationId,
    RevocationState, Roles, StateError, StateStore, StoredGeneration, Timestamp, DEVICE_PAGE_MAX,
};

fn at(seconds: i64) -> Timestamp {
    Timestamp::new(seconds, 0).unwrap()
}

fn g(value: u64) -> Generation {
    Generation { value }
}

fn actor() -> AuditActor {
    AuditActor { source: "operator".into(), actor_id: Some("o".into()) }
}

fn network_id() -> NetworkId {
    NetworkId { text: "net".into() }
}

fn device_id() -> DeviceId {
    DeviceId { text: "dev".into() }
}

fn session_id() -> JoinSessionId {
    JoinSessionId { text: "session".into() }
}

fn network(membership: u64) -> Network {
    Network {
        network_id: network_id(),
        name: "Home".into(),
        state: "Active".into(),
        provider_kind: ProviderKind::Headscale,
        provider_instance_id: ProviderInstanceId { text: "inst".into() },
        membership_generation: g(membership),
        policy_generation: g(1),
        created_at: at(1),
        updated_at: at(2),
    }
}

fn device(state: MembershipState) -> Device {
    Device {
        device_id: device_id(),
        network_id: network_id(),
        display_name: "Laptop".into(),
        membership_state: state,
        provider_identity: Some(NodeIdentity {
            provider_instance_id: ProviderInstanceId { text: "inst".into() },
            node_id: "7".into(),
            stable_key_fingerprint: "sha256:k".into(),
        }),
        generations: DeviceGenerations {
            credential: g(2),
            keryx_binding: g(3),
            fleet_projection: g(4),
        },
        fleet_projection_status: "NotProjected".into(),
        created_at: at(1),
        updated_at: at(2),
        revoked_at: None,
    }
}

fn pending() -> MembershipState {
    MembershipState::named("PendingApproval")
}

fn invitation() -> Invitation {
    Invitation {
        invitation_id: InvitationId { text: "inv".into() },
        network_id: network_id(),
        state: InvitationState::Issued,
        secret_verifier: "verifier".into(),
        provider_credential_reference: Some(ProviderCredentialId { text: "cred".into() }),
        max_uses: 3,
        used_count: 2,
        roles: Roles { json: "[]".into() },
        join_constraints: JoinConstraints {
            expected_platform: None,
            expected_hostname_hint: None,
            json: "{}".into(),
        },
        created_at: at(1),
        expires_at: at(9),
    }
}

fn session(state: JoinSessionState) -> JoinSession {
    JoinSession {
        join_session_id: session_id(),
        invitation_id: InvitationId { text: "inv".into() },
        network_id: network_id(),
        device_id: Some(device_id()),
        state,
        n4: false,
        created_at: at(1),
        expires_at: at(9),
        updated_at: at(2),
    }
}

fn revocation() -> Revocation {
    Revocation {
        revocation_id: RevocationId { text: "rev".into() },
        network_id: network_id(),
        device_id: device_id(),
        state: RevocationState::ApplicationTrustRemovalPending,
        requested_at: at(20),
        updated_at: at(21),
        application_trust_removed_at: None,
        provider_cleanup_completed_at: Some(at(22)),
    }
}

fn duplicate() -> DatabaseFailure {
    DatabaseFailure { constraint_violated: true, text: "UNIQUE constraint failed".into() }
}

fn broken() -> DatabaseFailure {
    DatabaseFailure { constraint_violated: false, text: "disk I/O error".into() }
}

fn armed() -> StateStore {
    let mut store = StateStore::new();
    store.set_failpoint(Failpoint::BeforeAuditInsert, true);
    store
}

fn conflict<T>(text: &str) -> Result<T, StateError> {
    Err(StateError::Conflict(text.into()))
}

const RANGE: &str = "generation exceeds SQLite integer range";

#[test]
fn rows_hold_what_the_records_say() {
    let row = network_row(&network(6)).unwrap();
    assert_eq!(row.state, "active");
    assert_eq!(row.provider_kind, "headscale");
    assert_eq!((row.membership_generation, row.policy_generation), (6, 1));
    assert_eq!(row.created_at, "1970-01-01T00:00:01+00:00");
    let row = device_row(&device(pending())).unwrap();
    assert_eq!(row.membership_state, "pendingapproval");
    assert_eq!(row.fleet_projection_status, "notprojected");
    assert_eq!(row.provider_node.as_deref(), Some("7"));
    assert_eq!(row.provider_key_fingerprint.as_deref(), Some("sha256:k"));
    assert_eq!(row.revoked_at, None);
    let row = invitation_row(&invitation());
    assert_eq!(row.state, "issued");
    assert_eq!((row.max_uses, row.used_count), (3, 2));
    assert_eq!(row.provider_credential_reference.as_deref(), Some("cred"));
    let row = join_session_row(&session(JoinSessionState::InvitationValidated));
    assert_eq!(row.state, "invitationvalidated");
    assert_eq!(row.device.as_deref(), Some("dev"));
    let row = revocation_row(&revocation());
    assert_eq!(row.state, "applicationtrustremovalpending");
    assert_eq!(row.application_trust_removed_at, None);
    assert_eq!(
        row.provider_cleanup_completed_at.as_deref(),
        Some("1970-01-01T00:00:22+00:00")
    );
}

#[test]
fn networks_are_created_with_an_event() {
    let mut log = AuditLog::new(vec![]);
    let store = StateStore::new();
    assert_eq!(store.create_network(&network(6), Ok(()), &mut log, actor()), Ok(()));
    assert_eq!(log.events.len(), 1);
    assert_eq!(log.events[0].kind, AuditKind::NetworkCreated);
    assert_eq!(log.events[0].generation, Some(6));
    assert_eq!(
        store.create_network(&network(u64::MAX), Err(duplicate()), &mut log, actor()),
        conflict(RANGE)
    );
    assert_eq!(
        store.create_network(&network(6), Err(duplicate()), &mut log, actor()),
        conflict("UNIQUE constraint failed")
    );
    assert_eq!(
        store.create_network(&network(6), Err(broken()), &mut log, actor()),
        Err(StateError::Sqlite("disk I/O error".into()))
    );
    assert_eq!(
        armed().create_network(&network(6), Ok(()), &mut log, actor()),
        Err(StateError::InjectedFailure)
    );
    assert_eq!(log.events.len(), 1);
}

#[test]
fn created_networks_read_back() {
    let store = StateStore::new();
    let mut log = AuditLog::new(vec![]);
    let made = network(6);
    let mut table: Vec<Network> = vec![];
    for attempt in 0..2 {
        let taken = table.iter().any(|stored| stored.network_id == made.network_id);
        let answer = if taken { Err(duplicate()) } else { Ok(()) };
        match store.create_network(&made, answer, &mut log, actor()) {
            Ok(()) => table.push(made.clone()),
            Err(error) => {
                assert_eq!(attempt, 1);
                assert_eq!(Err::<(), _>(error), conflict("UNIQUE constraint failed"));
            }
        }
    }
    assert_eq!(table.len(), 1);
    assert_eq!(log.events.len(), 1);
    let read = store.network(&made.network_id, table.pop().map(Ok)).unwrap();
    assert_eq!(read, made);
    let number = StoredGeneration { number: read.membership_generation.value, refusal: None };
    assert_eq!(
        store.network_generation(&made.network_id, Some(number)),
        Ok(made.membership_generation)
    );
}

#[test]
fn known_names_are_told_apart() {
    assert_eq!(InvitationState::named("Revoking"), InvitationState::Revoking);
    assert_eq!(JoinSessionState::named("Expired"), JoinSessionState::Expired);
    assert_eq!(ProviderKind::named("Tailscale"), ProviderKind::Tailscale);
    for name in ["issued", "", "Unknown"] {
        assert!(matches!(InvitationState::named(name), InvitationState::Other(_)));
        assert_eq!(InvitationState::named(name).as_str(), name);
        assert_eq!(JoinSessionState::named(name).as_str(), name);
        assert_eq!(ProviderKind::named(name).as_str(), name);
    }
}

#[test]
fn devices_do_not_begin_trusted() {
    let mut log = AuditLog::new(vec![]);
    let store = StateStore::new();
    assert_eq!(MembershipState::named("Active"), MembershipState::Active);
    for state in [MembershipState::named("Active"), MembershipState::Suspended] {
        assert_eq!(
            store.create_device(&device(state), Err(duplicate()), &mut log, actor()),
            Err(StateError::ActivationGated)
        );
    }
    assert!(log.events.is_empty());
    assert_eq!(store.create_device(&device(pending()), Ok(()), &mut log, actor()), Ok(()));
    assert_eq!(log.events[0].kind, AuditKind::DeviceCreated);
    assert_eq!(log.events[0].device_id, Some(device_id()));
    assert_eq!(log.events[0].generation, Some(2));
    let mut huge = device(pending());
    huge.generations.fleet_projection = g(u64::MAX);
    assert_eq!(store.create_device(&huge, Ok(()), &mut log, actor()), conflict(RANGE));
    assert_eq!(
        store.create_device(&device(pending()), Err(duplicate()), &mut log, actor()),
        conflict("UNIQUE constraint failed")
    );
    assert_eq!(
        armed().create_device(&device(pending()), Ok(()), &mut log, actor()),
        Err(StateError::InjectedFailure)
    );
    assert_eq!(log.events.len(), 1);
}

#[test]
fn invitations_and_sessions_are_created_with_an_event() {
    let mut log = AuditLog::new(vec![]);
    let store = StateStore::new();
    assert_eq!(store.issue_invitation(&invitation(), Ok(()), &mut log, actor()), Ok(()));
    let made = session(JoinSessionState::InvitationValidated);
    assert_eq!(store.create_join_session(&made, Ok(()), &mut log, actor()), Ok(()));
    let kinds: Vec<_> = log.events.iter().map(|event| event.kind).collect();
    assert_eq!(kinds, [AuditKind::InvitationIssued, AuditKind::JoinSessionCreated]);
    assert_eq!(log.events[1].device_id, Some(device_id()));
    assert_eq!(
        store.issue_invitation(&invitation(), Err(duplicate()), &mut log, actor()),
        conflict("UNIQUE constraint failed")
    );
    assert_eq!(
        store.create_join_session(&made, Err(broken()), &mut log, actor()),
        Err(StateError::Sqlite("disk I/O error".into()))
    );
    assert_eq!(
        armed().issue_invitation(&invitation(), Ok(()), &mut log, actor()),
        Err(StateError::InjectedFailure)
    );
    assert_eq!(
        armed().create_join_session(&made, Ok(()), &mut log, actor()),
        Err(StateError::InjectedFailure)
    );
    assert_eq!(log.events.len(), 2);
}

#[test]
fn records_are_read_by_name() {
    let store = StateStore::new();
    assert_eq!(store.network(&network_id(), Some(Ok(network(6)))), Ok(network(6)));
    assert_eq!(store.network(&network_id(), None), Err(StateError::NotFound("net".into())));
    assert_eq!(
        store.network(&network_id(), Some(Err("eof".into()))),
        Err(StateError::Serialization("eof".into()))
    );
    let known = device(pending());
    assert_eq!(store.device(&device_id(), Some(Ok(known.clone()))), Ok(known));
    assert_eq!(store.device(&device_id(), None), Err(StateError::NotFound("dev".into())));
    let made = session(JoinSessionState::Failed);
    assert_eq!(store.join_session(&session_id(), Some(Ok(made.clone()))), Ok(made));
    assert_eq!(
        store.join_session(&session_id(), None),
        Err(StateError::NotFound("session".into()))
    );
}

fn stored(number: u64, refusal: Option<&str>) -> StoredGeneration {
    StoredGeneration { number, refusal: refusal.map(|text| text.to_string()) }
}

#[test]
fn generations_are_read() {
    let store = StateStore::new();
    assert_eq!(store.network_generation(&network_id(), Some(stored(5, None))), Ok(g(5)));
    assert_eq!(
        store.network_generation(&network_id(), Some(stored(0, Some("zero")))),
        conflict("zero")
    );
    assert_eq!(
        store.network_generation(&network_id(), None),
        Err(StateError::NotFound("net".into()))
    );
    let all = |credential, keryx_binding, fleet_projection| {
        store.device_generations(
            &device_id(),
            Some(StoredDeviceGenerations { credential, keryx_binding, fleet_projection }),
        )
    };
    assert_eq!(
        all(stored(2, None), stored(3, None), stored(4, None)),
        Ok(DeviceGenerations { credential: g(2), keryx_binding: g(3), fleet_projection: g(4) })
    );
    assert_eq!(
        all(stored(2, None), stored(0, Some("b")), stored(0, Some("c"))),
        conflict("b")
    );
    assert_eq!(
        store.device_generations(&device_id(), None),
        Err(StateError::NotFound("dev".into()))
    );
}

#[test]
fn revocation_states_are_read() {
    let store = StateStore::new();
    for (name, state) in [
        ("requested", RevocationState::Requested),
        ("applicationtrustremovalpending", RevocationState::ApplicationTrustRemovalPending),
        ("credentialrevocationpending", RevocationState::CredentialRevocationPending),
        ("keryxbindingdisablepending", RevocationState::KeryxBindingDisablePending),
        ("providercleanuppending", RevocationState::ProviderCleanupPending),
        ("revoked", RevocationState::Revoked),
    ] {
        assert_eq!(store.revocation_state(&device_id(), Some(name.into())), Ok(state));
    }
    assert_eq!(
        store.revocation_state(&device_id(), Some("Revoked".into())),
        conflict("unknown revocation state")
    );
    assert_eq!(
        store.revocation_state(&device_id(), None),
        Err(StateError::NotFound("dev".into()))
    );
}

fn records(fenced: bool, state: &str) -> JoinSessionRecords {
    JoinSessionRecords {
        fenced,
        record: Some(Ok(session(JoinSessionState::InvitationValidated))),
        state: state.into(),
    }
}

fn transition(
    store: &StateStore,
    records: JoinSessionRecords,
    expected: JoinSessionState,
    moved: Result<JoinSession, String>,
) -> (Result<JoinSession, StateError>, usize) {
    let mut log = AuditLog::new(vec![]);
    let result = store.transition_join_session(
        &session_id(),
        records,
        &expected,
        &JoinSessionState::Failed,
        moved,
        &mut log,
        actor(),
    );
    if let Ok(after) = &result {
        assert_eq!(after.state, "failed");
    }
    (result.map(|after| after.session), log.events.len())
}

#[test]
fn sessions_move_from_the_expected_state() {
    let store = StateStore::new();
    let moved = session(JoinSessionState::Failed);
    let from = || JoinSessionState::InvitationValidated;
    let stored = "invitationvalidated";
    assert_eq!(
        transition(&store, records(false, stored), from(), Ok(moved.clone())),
        (Ok(moved.clone()), 1)
    );
    assert_eq!(
        transition(&store, records(true, stored), from(), Ok(moved.clone())),
        (conflict("N4 join sessions require fenced lifecycle APIs"), 0)
    );
    let concurrent = || (conflict("join session state changed concurrently"), 0);
    assert_eq!(
        transition(&store, records(false, stored), JoinSessionState::Expired, Ok(moved.clone())),
        concurrent()
    );
    assert_eq!(
        transition(&store, records(false, "failed"), from(), Ok(moved.clone())),
        concurrent()
    );
    assert_eq!(
        transition(&store, records(false, stored), from(), Err("not allowed".into())),
        (conflict("not allowed"), 0)
    );
    let mut absent = records(false, stored);
    absent.record = None;
    assert_eq!(
        transition(&store, absent, from(), Ok(moved.clone())),
        (Err(StateError::NotFound("session".into())), 0)
    );
    assert_eq!(
        transition(&armed(), records(false, stored), from(), Ok(moved)),
        (Err(StateError::InjectedFailure), 0)
    );
}

#[test]
fn revocations_move_the_device() {
    let mut log = AuditLog::new(vec![]);
    let store = StateStore::new();
    let after = store
        .record_revocation(
            &revocation(),
            Some(Ok(device(pending()))),
            Ok(MembershipState::Revoking),
            Ok(()),
            &mut log,
            actor(),
        )
        .unwrap();
    let mut wanted = device(MembershipState::Revoking);
    wanted.updated_at = at(21);
    assert_eq!(after.device, wanted);
    assert_eq!(after.membership_state, "revoking");
    assert_eq!(revoking_state(), MembershipState::Revoking);
    assert_eq!(log.events[0].kind, AuditKind::RevocationRequested);
    let mut refused = |device, revoking, stored| {
        let result = store.record_revocation(
            &revocation(),
            device,
            revoking,
            stored,
            &mut log,
            actor(),
        );
        assert_eq!(log.events.len(), 1);
        result.err().unwrap()
    };
    let known = || Some(Ok(device(pending())));
    assert_eq!(
        refused(None, Ok(MembershipState::Revoking), Ok(())),
        StateError::NotFound("dev".into())
    );
    assert_eq!(
        refused(known(), Err("terminal".into()), Err(duplicate())),
        StateError::Conflict("terminal".into())
    );
    assert_eq!(
        refused(known(), Ok(MembershipState::Revoking), Err(duplicate())),
        StateError::Conflict("UNIQUE constraint failed".into())
    );
    let mut log = AuditLog::new(vec![]);
    assert_eq!(
        armed().record_revocation(
            &revocation(),
            known(),
            Ok(MembershipState::Revoking),
            Ok(()),
            &mut log,
            actor()
        ),
        Err(StateError::InjectedFailure)
    );
}

#[test]
fn membership_generations_advance() {
    let mut log = AuditLog::new(vec![]);
    let store = StateStore::new();
    let advance = |record, stored, expected, next, log: &mut AuditLog| {
        store.advance_membership_generation_at(
            &network_id(),
            record,
            stored,
            g(expected),
            g(next),
            at(50),
            log,
            actor(),
        )
    };
    let known = || Some(Ok(network(6)));
    let after = advance(known(), Some(6), 6, 9, &mut log).unwrap();
    assert_eq!(after.membership_generation, g(9));
    assert_eq!(after.updated_at, at(50));
    assert_eq!(after.policy_generation, g(1));
    assert_eq!(log.events[0].kind, AuditKind::MembershipGenerationAdvanced);
    assert_eq!(log.events[0].generation, Some(9));
    let stale = |expected, actual| Err(StateError::StaleGeneration { expected, actual });
    assert_eq!(
        advance(None, None, 6, 6, &mut log),
        conflict("generation must advance monotonically")
    );
    assert_eq!(advance(None, Some(6), 6, 7, &mut log), Err(StateError::NotFound("net".into())));
    assert_eq!(advance(Some(Ok(after)), Some(9), 6, 7, &mut log), stale(6, 9));
    assert_eq!(advance(known(), Some(8), 6, 7, &mut log), stale(6, 8));
    assert_eq!(advance(known(), None, 6, 7, &mut log), Err(StateError::NotFound("net".into())));
    assert_eq!(advance(known(), Some(6), 6, u64::MAX, &mut log), conflict(RANGE));
    assert_eq!(log.events.len(), 1);
    assert_eq!(
        stale_network_generation(&network_id(), g(6), Some(8)),
        StateError::StaleGeneration { expected: 6, actual: 8 }
    );
    assert_eq!(
        armed().advance_membership_generation(
            &network_id(),
            known(),
            Some(6),
            g(6),
            g(7),
            &mut log,
            actor()
        ),
        Err(StateError::InjectedFailure)
    );
    let now = store
        .advance_membership_generation(
            &network_id(),
            known(),
            Some(6),
            g(6),
            g(7),
            &mut log,
            actor(),
        )
        .unwrap();
    assert!(at(1_700_000_000).is_before(&now.updated_at));
}

#[test]
fn credential_generations_advance() {
    let mut log = AuditLog::new(vec![]);
    let store = StateStore::new();
    let advance = |record, stored, expected, next, log: &mut AuditLog| {
        store.advance_device_credential_generation_at(
            &device_id(),
            record,
            stored,
            g(expected),
            g(next),
            at(50),
            log,
            actor(),
        )
    };
    let known = || Some(Ok(device(pending())));
    let after = advance(known(), Some(2), 2, 3, &mut log).unwrap();
    assert_eq!(
        after.generations,
        DeviceGenerations { credential: g(3), keryx_binding: g(3), fleet_projection: g(4) }
    );
    assert_eq!(log.events[0].device_id, Some(device_id()));
    assert_eq!(log.events[0].network_id, Some(network_id()));
    let stale = |expected, actual| Err(StateError::StaleGeneration { expected, actual });
    assert_eq!(
        advance(known(), Some(2), 2, 1, &mut log),
        conflict("generation must advance monotonically")
    );
    assert_eq!(advance(None, Some(2), 2, 3, &mut log), Err(StateError::NotFound("dev".into())));
    assert_eq!(advance(known(), Some(2), 1, 3, &mut log), stale(1, 2));
    assert_eq!(advance(known(), Some(5), 2, 3, &mut log), stale(2, 5));
    assert_eq!(advance(known(), None, 2, 3, &mut log), Err(StateError::NotFound("dev".into())));
    assert_eq!(advance(known(), Some(2), 2, u64::MAX, &mut log), conflict(RANGE));
    assert_eq!(log.events.len(), 1);
    let now = store
        .advance_device_credential_generation(
            &device_id(),
            known(),
            Some(2),
            g(2),
            g(4),
            &mut log,
            actor(),
        )
        .unwrap();
    assert_eq!(now.generations.credential, g(4));
    assert!(at(1_700_000_000).is_before(&now.updated_at));
}

fn stored_device(name: &str) -> StoredDevice {
    let mut known = device(pending());
    known.device_id.text = name.into();
    StoredDevice { device_id: name.into(), record: Ok(known) }
}

fn names(page: Vec<Device>) -> Vec<String> {
    page.into_iter().map(|device| device.device_id.text).collect()
}

#[test]
fn device_pages_are_bounded() {
    let store = StateStore::new();
    assert_eq!(DEVICE_PAGE_MAX, 32);
    let bounds = || conflict("operator device page limit is out of bounds");
    assert_eq!(store.operator_device_page(None, 0, vec![]), bounds());
    assert_eq!(store.operator_device_page(None, 33, vec![]), bounds());
    assert_eq!(store.operator_device_page(None, 32, vec![]), Ok(vec![]));
    let all = || ["a", "b", "c", "d"].iter().map(|name| stored_device(name)).collect::<Vec<_>>();
    let page = |after: Option<&str>, limit| {
        let after = after.map(|text| DeviceId { text: text.into() });
        names(store.operator_device_page(after, limit, all()).unwrap())
    };
    assert_eq!(page(None, 3), ["a", "b", "c"]);
    assert_eq!(page(Some("c"), 3), ["d"]);
    assert_eq!(page(Some("aa"), 2), ["b", "c"]);
    assert!(page(Some("d"), 2).is_empty());
    let many = (0..40).map(|i| stored_device(&format!("{i:02}"))).collect();
    assert_eq!(store.operator_device_page(None, 32, many).unwrap().len(), 32);
}

#[test]
fn unreadable_devices_outside_the_page_do_not_matter() {
    let store = StateStore::new();
    let all = || {
        let mut all = vec![stored_device("a"), stored_device("b"), stored_device("c")];
        all[1].record = Err("first".into());
        all[2].record = Err("second".into());
        all
    };
    assert_eq!(names(store.operator_device_page(None, 1, all()).unwrap()), ["a"]);
    assert_eq!(
        store.operator_device_page(None, 3, all()),
        Err(StateError::Serialization("first".into()))
    );
    let after = Some(DeviceId { text: "b".into() });
    assert_eq!(
        store.operator_device_page(after, 3, all()),
        Err(StateError::Serialization("second".into()))
    );
}

#[test]
fn counts_know_their_tables() {
    let store = StateStore::new();
    assert_eq!(store.count("devices"), Ok("SELECT COUNT(*) FROM devices WHERE network_id=?1"));
    assert_eq!(
        store.count("keryx_bindings"),
        Ok("SELECT COUNT(*) FROM keryx_bindings WHERE network_id=?1")
    );
    assert_eq!(store.count("networks"), conflict("unknown count table"));
    assert_eq!(store.fleet_projection_count(&network_id()), Ok(0));
}

#[test]
fn dump_holds_every_text() {
    assert_eq!(dump_queries().len(), 8);
    assert!(dump_queries().iter().all(|query| query.starts_with("SELECT ")));
    let texts = vec!["ab".to_string(), String::new(), "c".to_string()];
    assert_eq!(StateStore::new().database_text_dump_for_test(&texts), "abc");
    assert_eq!(StateStore::new().database_text_dump_for_test(&vec![]), "");
}
