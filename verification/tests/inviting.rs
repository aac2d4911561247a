use nodescale_state::audit::KnownAction;
use nodescale_state::authorization::ImportRow;
use nodescale_state::dispatch::{
    begun_session_state, confirmed_session_state, failed_session_state, n4_reference_row,
};
use nodescale_state::lifecycle::{
    ExpiryRow, ListedInvitation, N4Details, StoredInvitation, StoredSession,
};
use nodescale_state::names::{AuditKind, AuditOutcome, DispatchState};
use nodescale_state::redemption::{n4_issue_rows, reserved_session_state};
use nodescale_state::{
    AuditActor, AuditLog, AuthorityRecords, CleanupAnswers, DatabaseFailure, Failpoint, Generation,
    Invitation, InvitationId, InvitationState, JoinConstraints, JoinSession, JoinSessionId,
    JoinSessionState, MetadataObject, MetadataValue, MutationAuthorizationContext, MutationPolicyMode,
    N4CleanupIntent, N4CleanupState, N4CleanupTarget, N4CredentialConfirmation, N4DispatchFailure,
    N4InvalidationOutcome, N4InvitationContext, N4Lifecycle, N4PresentedMetadata,
    N4RedemptionReservation, Network, NetworkId, ProviderCredentialId,
    ProviderCredentialReference, ProviderInstanceId, ProviderKind, ProviderMutationCapability,
    ProviderMutationConfiguration, Roles, SanitizedMetadata, StateError, StateStore, Stored,
    Timestamp,
};

fn at(seconds: i64) -> Timestamp {
    Timestamp::new(seconds, 0).unwrap()
}

fn actor() -> AuditActor {
    AuditActor { source: "service".into(), actor_id: Some("a".into()) }
}

fn network_id() -> NetworkId {
    NetworkId { text: "net".into() }
}

fn invitation_id() -> InvitationId {
    InvitationId { text: "inv".into() }
}

fn session_id() -> JoinSessionId {
    JoinSessionId { text: "session".into() }
}

fn instance() -> ProviderInstanceId {
    ProviderInstanceId { text: "inst".into() }
}

fn credential_id() -> ProviderCredentialId {
    ProviderCredentialId { text: "cred".into() }
}

fn fingerprint() -> String {
    format!("sha256:{}", "0f".repeat(32))
}

fn invitation(state: InvitationState, used_count: u32) -> Invitation {
    Invitation {
        invitation_id: invitation_id(),
        network_id: network_id(),
        state,
        secret_verifier: "argon".into(),
        provider_credential_reference: None,
        max_uses: 1,
        used_count,
        roles: Roles { json: "[\"node\"]".into() },
        join_constraints: JoinConstraints {
            expected_platform: Some("linux".into()),
            expected_hostname_hint: None,
            json: "{\"expected_platform\":\"linux\"}".into(),
        },
        created_at: at(100),
        expires_at: at(1000),
    }
}

fn details() -> N4Details {
    N4Details {
        network_id: network_id(),
        provider_instance_id: Stored { text: "inst".into(), parsed: Ok(instance()) },
        provider_principal_id: "user:1".into(),
        revision: 1,
        consumed_at_ms: None,
        revoked_at_ms: None,
        expired_at_ms: None,
        last_redemption_at_ms: None,
        last_redemption_metadata_json: "{}".into(),
    }
}

fn issued() -> N4Lifecycle {
    N4Lifecycle {
        invitation: StoredInvitation {
            record: Ok(invitation(InvitationState::Issued, 0)),
            state: "issued".into(),
            used_count: 0,
        },
        details: details(),
        dispatch: None,
        session: None,
        reference: None,
        metadata: None,
    }
}

fn session(state: JoinSessionState) -> JoinSession {
    JoinSession {
        join_session_id: session_id(),
        invitation_id: invitation_id(),
        network_id: network_id(),
        device_id: None,
        state,
        n4: true,
        created_at: at(200),
        expires_at: at(1000),
        updated_at: at(200),
    }
}

fn network() -> Network {
    Network {
        network_id: network_id(),
        name: "home".into(),
        state: "Active".into(),
        provider_kind: ProviderKind::Headscale,
        provider_instance_id: instance(),
        membership_generation: Generation { value: 1 },
        policy_generation: Generation { value: 1 },
        created_at: at(1),
        updated_at: at(1),
    }
}

fn authority_with(capabilities: Vec<ProviderMutationCapability>) -> AuthorityRecords {
    let mut records = AuthorityRecords {
        network_id: network_id(),
        configuration: None,
        import: Some(ImportRow {
            provider_instance: "inst".into(),
            read_only: 1,
            mutation_allowed: 0,
        }),
    };
    let made = ProviderMutationConfiguration::new(
        instance(),
        Generation { value: 3 },
        Generation { value: 5 },
        fingerprint(),
        "headscale".into(),
        "v0.29.3".into(),
        true,
        false,
        at(50),
        at(2000),
        MutationPolicyMode::File,
        capabilities,
    )
    .unwrap();
    let mut log = AuditLog::new(vec![]);
    StateStore::new()
        .replace_provider_mutation_configuration(&mut records, None, None, made, &mut log, actor())
        .unwrap();
    records
}

fn authority() -> AuthorityRecords {
    authority_with(vec![
        ProviderMutationCapability::CreateJoinCredential,
        ProviderMutationCapability::InvalidateJoinCredential,
    ])
}

fn unauthorized() -> AuthorityRecords {
    authority_with(vec![ProviderMutationCapability::DeleteNode])
}

fn context() -> N4InvitationContext {
    N4InvitationContext::new(instance(), "user:1".into()).unwrap()
}

fn presented() -> N4PresentedMetadata {
    N4PresentedMetadata {
        platform: Some("linux".into()),
        hostname_hint: None,
        correlation: SanitizedMetadata::empty(),
    }
}

fn log() -> AuditLog {
    AuditLog::new(vec![])
}

fn armed(failpoint: Failpoint) -> StateStore {
    let mut store = StateStore::new();
    store.set_failpoint(failpoint, true);
    store
}

fn conflict<T>(text: &str) -> Result<T, StateError> {
    Err(StateError::Conflict(text.into()))
}

/// The refusal of an operation, without what it would have stored.
fn refusal<T>(result: Result<T, StateError>) -> Result<(), StateError> {
    result.map(|_| ())
}

fn not_found<T>(text: &str) -> Result<T, StateError> {
    Err(StateError::NotFound(text.into()))
}

fn denied<T>(text: &'static str) -> Result<T, StateError> {
    Err(StateError::MutationAuthorizationDenied(text))
}

fn kinds(log: &AuditLog) -> Vec<AuditKind> {
    log.events.iter().map(|event| event.kind).collect()
}

fn action(log: &AuditLog, index: usize) -> &str {
    &log.events[index].correlation.as_ref().unwrap().action_id
}

fn reserve_at(
    lifecycle: Option<N4Lifecycle>,
    revision: u64,
    now: Timestamp,
    shown: N4PresentedMetadata,
    records: &AuthorityRecords,
    log: &mut AuditLog,
) -> Result<(N4Lifecycle, N4RedemptionReservation), StateError> {
    StateStore::new().reserve_n4_redemption(
        invitation_id(),
        lifecycle,
        revision,
        session_id(),
        Ok(session(JoinSessionState::InvitationValidated)),
        now,
        shown,
        records,
        log,
        actor(),
    )
}

fn reserved() -> N4Lifecycle {
    reserve_at(Some(issued()), 1, at(200), presented(), &authority(), &mut log()).unwrap().0
}

fn begun() -> N4Lifecycle {
    StateStore::new()
        .begin_n4_credential_dispatch(
            session_id(),
            Some(reserved()),
            Ok(session(JoinSessionState::ProviderCredentialIssuing)),
            &authority(),
            at(210),
            actor(),
        )
        .unwrap()
        .0
}

fn confirmation() -> N4CredentialConfirmation {
    N4CredentialConfirmation {
        credential_id: credential_id(),
        provider_reference: ProviderCredentialReference { text: "42".into() },
        provider_principal_id: "user:1".into(),
        ephemeral: false,
        approved_tags: vec!["tag:nodescale-node".into()],
        expires_at: at(900),
        confirmed_at: at(220),
        safe_correlation: SanitizedMetadata::empty(),
    }
}

fn confirm_on(
    store: &StateStore,
    lifecycle: Option<N4Lifecycle>,
    confirmation: N4CredentialConfirmation,
    issued: Result<JoinSession, String>,
    stored: Result<(), DatabaseFailure>,
    log: &mut AuditLog,
) -> Result<N4Lifecycle, StateError> {
    store.confirm_n4_credential(
        &session_id(),
        lifecycle,
        confirmation,
        issued,
        stored,
        log,
        actor(),
    )
}

fn issued_session() -> Result<JoinSession, String> {
    Ok(session(JoinSessionState::ProviderCredentialIssued))
}

fn confirmed() -> N4Lifecycle {
    confirm_on(
        &StateStore::new(),
        Some(begun()),
        confirmation(),
        issued_session(),
        Ok(()),
        &mut log(),
    )
    .unwrap()
}

fn answers(intent: N4CleanupIntent) -> CleanupAnswers {
    CleanupAnswers {
        pending: Ok(intent.pending_state()),
        ended: Ok(intent.ended_state()),
        pending_session: Ok(session(JoinSessionState::ProviderCredentialRevocationPending)),
        ended_session: Ok(session(intent.ended_session_state())),
    }
}

fn prepare(
    lifecycle: N4Lifecycle,
    intent: N4CleanupIntent,
    now: Timestamp,
    log: &mut AuditLog,
) -> Result<(N4Lifecycle, N4CleanupTarget), StateError> {
    match intent {
        N4CleanupIntent::Revoked => StateStore::new().prepare_n4_revocation(
            invitation_id(),
            Some(lifecycle),
            answers(intent),
            now,
            log,
            actor(),
        ),
        N4CleanupIntent::Expired => StateStore::new().prepare_n4_expiry(
            invitation_id(),
            Some(lifecycle),
            answers(intent),
            now,
            log,
            actor(),
        ),
    }
}

fn settle_on(
    store: &StateStore,
    target: N4CleanupTarget,
    lifecycle: Option<N4Lifecycle>,
    outcome: N4InvalidationOutcome,
    log: &mut AuditLog,
) -> Result<N4Lifecycle, StateError> {
    let intent = target.intent;
    store.settle_n4_credential_invalidation(
        target,
        lifecycle,
        outcome,
        Ok(intent.ended_state()),
        Ok(session(intent.ended_session_state())),
        at(310),
        log,
        actor(),
    )
}

fn settle(
    target: N4CleanupTarget,
    lifecycle: N4Lifecycle,
    outcome: N4InvalidationOutcome,
) -> Result<N4Lifecycle, StateError> {
    settle_on(&StateStore::new(), target, Some(lifecycle), outcome, &mut log())
}

fn fail(
    lifecycle: Option<N4Lifecycle>,
    failure: N4DispatchFailure,
    log: &mut AuditLog,
) -> Result<N4Lifecycle, StateError> {
    StateStore::new().fail_n4_credential_dispatch(
        &session_id(),
        lifecycle,
        failure,
        Ok(session(failed_session_state(failure))),
        at(230),
        log,
        actor(),
    )
}

fn state_of(lifecycle: &N4Lifecycle) -> &InvitationState {
    &lifecycle.invitation.record.as_ref().unwrap().state
}

fn dispatch_state(lifecycle: &N4Lifecycle) -> &DispatchState {
    &lifecycle.dispatch.as_ref().unwrap().state
}

fn session_state(lifecycle: &N4Lifecycle) -> &JoinSessionState {
    &lifecycle.session.as_ref().unwrap().record.as_ref().unwrap().state
}

#[test]
fn principals_are_safe_identifiers() {
    assert_eq!(context().provider_principal_id, "user:1");
    for bad in ["", "a b", "user/1", &"x".repeat(256)] {
        assert_eq!(
            N4InvitationContext::new(instance(), bad.to_string()),
            conflict("invalid N4 provider principal")
        );
    }
}

#[test]
fn issued_invitations_are_single_use() {
    let mut made = invitation(InvitationState::Issued, 0);
    made.max_uses = 7;
    made.used_count = 2;
    made.provider_credential_reference = Some(credential_id());
    let rows = n4_issue_rows(&made, &context(), &actor());
    assert_eq!(rows.invitation.provider_credential_reference, None);
    assert_eq!((rows.invitation.max_uses, rows.invitation.used_count), (1, 0));
    assert_eq!(rows.roles_json, "[\"node\"]");
    assert_eq!(rows.constraints_json, "{\"expected_platform\":\"linux\"}");
    assert_eq!(rows.provider_principal_id, "user:1");
    assert_eq!(rows.created_by_source, "service");
    assert_eq!(rows.created_by_id.as_deref(), Some("a"));
    assert_eq!(rows.revision, 1);
    assert_eq!(rows.last_redemption_metadata_json, "{}");
}

#[test]
fn issued_invitations_are_shown_as_new() {
    let view = StateStore::new().n4_invitation_view(invitation_id(), Some(issued())).unwrap();
    assert_eq!(view.revision, 1);
    assert_eq!((view.used_count, view.max_uses), (0, 1));
    assert_eq!(view.cleanup_state, N4CleanupState::Absent);
    assert_eq!(view.context, context());
    assert_eq!((view.consumed_at, view.revoked_at, view.expired_at), (None, None, None));
}

#[test]
fn issuing_checks_everything_first() {
    let store = StateStore::new();
    let issue = |store: &StateStore, sound, found, records: &AuthorityRecords, seconds, stored| {
        let mut log = log();
        let result = store.issue_n4_invitation(
            &invitation(InvitationState::Issued, 0),
            sound,
            found,
            &context(),
            records,
            at(seconds),
            stored,
            &mut log,
            actor(),
        );
        if result.is_err() {
            assert!(log.events.is_empty());
        } else {
            assert_eq!(kinds(&log), [AuditKind::InvitationCreated]);
            assert_eq!(action(&log, 0), "invitation:inv:created");
        }
        result
    };
    let home = || Some(Ok(network()));
    let good = authority();
    assert_eq!(issue(&store, true, home(), &good, 100, Ok(())), Ok(()));
    assert_eq!(issue(&store, true, home(), &good, 999, Ok(())), Ok(()));
    let invalid = || conflict("invalid N4 invitation input");
    assert_eq!(issue(&store, false, None, &good, 100, Ok(())), invalid());
    assert_eq!(issue(&store, true, home(), &good, 99, Ok(())), invalid());
    assert_eq!(issue(&store, true, home(), &good, 1000, Ok(())), invalid());
    let mut other = network();
    other.network_id.text = "other".into();
    assert_eq!(issue(&store, true, Some(Ok(other)), &good, 100, Ok(())), invalid());
    assert_eq!(issue(&store, true, None, &good, 100, Ok(())), not_found("net"));
    let refused = || denied("N4 requires exact enabled create/invalidate configuration");
    assert_eq!(issue(&store, true, home(), &unauthorized(), 100, Ok(())), refused());
    let only_create =
        authority_with(vec![ProviderMutationCapability::CreateJoinCredential]);
    assert_eq!(issue(&store, true, home(), &only_create, 100, Ok(())), refused());
    let mut unimported = authority();
    unimported.import = None;
    assert_eq!(issue(&store, true, home(), &unimported, 100, Ok(())), refused());
    let twice = DatabaseFailure { constraint_violated: true, text: "UNIQUE".into() };
    assert_eq!(issue(&store, true, home(), &good, 100, Err(twice)), conflict("UNIQUE"));
    assert_eq!(
        issue(&armed(Failpoint::BeforeAuditInsert), true, home(), &good, 100, Ok(())),
        Err(StateError::InjectedFailure)
    );
}

#[test]
fn known_actions_are_not_recorded_again() {
    let mut log = AuditLog::new(vec![KnownAction {
        action_id: "redemption:session".into(),
        event_kind: "invitation_redemption_started".into(),
    }]);
    reserve_at(Some(issued()), 1, at(200), presented(), &authority(), &mut log).unwrap();
    assert_eq!(kinds(&log), [AuditKind::RedemptionSessionCreated]);
}

#[test]
fn candidates_check_tokens_of_their_invitation() {
    let store = StateStore::new();
    let candidate =
        store.n4_invitation_candidate(invitation_id(), Some(issued())).ok().unwrap();
    assert_eq!(candidate.revision, 1);
    assert_eq!(candidate.state, InvitationState::Issued);
    assert_eq!(candidate.expires_at, at(1000));
    assert_eq!(candidate.context, context());
    assert_eq!(candidate.secret_verifier.as_str(), "argon");
    assert_eq!(candidate.verify(&invitation_id(), Ok(true)), Ok(true));
    assert_eq!(candidate.verify(&invitation_id(), Ok(false)), Ok(false));
    assert_eq!(
        candidate.verify(&invitation_id(), Err("bad hash".into())),
        conflict("N4 invitation verifier could not be evaluated")
    );
    let other = InvitationId { text: "other".into() };
    assert_eq!(candidate.verify(&other, Ok(true)), Ok(false));
    assert_eq!(candidate.verify(&other, Err("bad hash".into())), Ok(false));
    let refused = |lifecycle| {
        store.n4_invitation_candidate(invitation_id(), lifecycle).err().unwrap()
    };
    assert_eq!(refused(None), StateError::NotFound("inv".into()));
    let mut bad = issued();
    bad.invitation.record = Err("eof".into());
    assert_eq!(refused(Some(bad)), StateError::Serialization("eof".into()));
    let mut bad = issued();
    bad.details.provider_instance_id.parsed = Err("not an id".into());
    assert_eq!(refused(Some(bad)), StateError::Conflict("not an id".into()));
    let mut bad = issued();
    bad.details.provider_principal_id = "a b".into();
    assert_eq!(
        refused(Some(bad)),
        StateError::Conflict("invalid N4 provider principal".into())
    );
}

#[test]
fn views_show_no_secret() {
    let store = StateStore::new();
    let view = store.n4_invitation_view(invitation_id(), Some(confirmed())).unwrap();
    assert_eq!(view.state, InvitationState::Consumed);
    assert_eq!(view.revision, 3);
    assert_eq!(view.used_count, 1);
    assert_eq!(view.max_uses, 1);
    assert_eq!(view.consumed_at, Some(at(220)));
    assert_eq!(view.revoked_at, None);
    assert_eq!(view.cleanup_state, N4CleanupState::Active);
    assert_eq!(view.context, context());
    let shown = format!("{view:?}");
    assert!(!shown.contains("argon") && !shown.contains("42"));
    let view = store.n4_invitation_view(invitation_id(), Some(issued())).unwrap();
    assert_eq!(view.cleanup_state, N4CleanupState::Absent);
}

#[test]
fn unreadable_views_are_refused() {
    let store = StateStore::new();
    let refused = |change: &dyn Fn(&mut N4Lifecycle)| {
        let mut bad = confirmed();
        change(&mut bad);
        store.n4_invitation_view(invitation_id(), Some(bad)).err().unwrap()
    };
    assert_eq!(
        refused(&|l| l.metadata.as_mut().unwrap().invalidation_state = "odd".into()),
        StateError::Conflict("invalid N4 cleanup state".into())
    );
    let time = StateError::Conflict("invalid persisted N4 timestamp".into());
    assert_eq!(refused(&|l| l.details.consumed_at_ms = Some(i64::MAX)), time);
    assert_eq!(refused(&|l| l.details.revoked_at_ms = Some(i64::MIN)), time);
    assert_eq!(refused(&|l| l.details.expired_at_ms = Some(i64::MAX)), time);
    assert_eq!(
        refused(&|l| l.invitation.record = Err("eof".into())),
        StateError::Serialization("eof".into())
    );
    assert_eq!(store.n4_invitation_view(invitation_id(), None), not_found("inv"));
}

#[test]
fn lists_are_ordered_by_creation() {
    let store = StateStore::new();
    let listed = |name: &str, seconds: i64, lifecycle| ListedInvitation {
        invitation_id: Stored {
            text: name.into(),
            parsed: Ok(InvitationId { text: name.into() }),
        },
        created_at: at(seconds).to_rfc3339(),
        lifecycle,
    };
    let mut elsewhere = issued();
    elsewhere.details.network_id.text = "other".into();
    let views = store
        .list_n4_invitations(
            &network_id(),
            vec![
                listed("d", 200, Some(issued())),
                listed("b", 100, Some(issued())),
                listed("e", 50, Some(elsewhere)),
                listed("a", 100, Some(confirmed())),
                listed("f", 50, None),
                listed("c", 300, Some(issued())),
            ],
        )
        .unwrap();
    let names: Vec<_> = views.iter().map(|view| view.invitation_id.text.as_str()).collect();
    assert_eq!(names, ["a", "b", "d", "c"]);
    assert_eq!(views[0].state, InvitationState::Consumed);
    let alone = store
        .n4_invitation_view(InvitationId { text: "a".into() }, Some(confirmed()))
        .unwrap();
    assert_eq!(views[0], alone);
    let mut unparsed = listed("c", 10, Some(issued()));
    unparsed.invitation_id.parsed = Err("not an id".into());
    let mut unreadable = issued();
    unreadable.invitation.record = Err("no json".into());
    assert_eq!(
        store.list_n4_invitations(
            &network_id(),
            vec![listed("a", 20, Some(unreadable)), unparsed, listed("d", 1, None)],
        ),
        conflict("not an id")
    );
    assert_eq!(
        store.list_n4_invitations(
            &NetworkId { text: "unknown".into() },
            vec![listed("a", 1, Some(issued()))],
        ),
        Ok(vec![])
    );
}

#[test]
fn sessions_are_asked_for_their_states() {
    assert_eq!(reserved_session_state(), JoinSessionState::InvitationValidated);
    assert_eq!(begun_session_state(), JoinSessionState::ProviderCredentialIssuing);
    assert_eq!(confirmed_session_state(), JoinSessionState::ProviderCredentialIssued);
    for intent in [N4CleanupIntent::Revoked, N4CleanupIntent::Expired] {
        assert_eq!(
            intent.pending_session_state(),
            JoinSessionState::ProviderCredentialRevocationPending
        );
    }
}

#[test]
fn due_invitations_are_found() {
    let store = StateStore::new();
    let row = |name: &str, state: &str, seconds: i64| ExpiryRow {
        invitation_id: Stored {
            text: name.into(),
            parsed: Ok(InvitationId { text: name.into() }),
        },
        state: state.into(),
        expires_at: at(seconds).to_rfc3339(),
    };
    let ids = store
        .expired_n4_invitation_ids(
            at(500),
            vec![
                row("d", "consumed", 499),
                row("b", "expired", 1),
                row("e", "issued", 501),
                row("c", "revoked", 1),
                row("a", "issued", 500),
            ],
        )
        .unwrap();
    let names: Vec<_> = ids.iter().map(|id| id.text.as_str()).collect();
    assert_eq!(names, ["a", "d"]);
    let mut bad = row("f", "issued", 1);
    bad.invitation_id.parsed = Err("not an id".into());
    assert_eq!(
        store.expired_n4_invitation_ids(at(500), vec![row("a", "issued", 1), bad]),
        conflict("not an id")
    );
    let mut later = row("f", "issued", 900);
    later.invitation_id.parsed = Err("not an id".into());
    assert_eq!(store.expired_n4_invitation_ids(at(500), vec![later]), Ok(vec![]));
}

#[test]
fn reserving_takes_the_single_use() {
    let mut log = log();
    let mut shown = presented();
    shown.correlation =
        SanitizedMetadata::new(MetadataValue::Object(MetadataObject::from_entries(vec![(
            "k".into(),
            MetadataValue::Text("v".into()),
        )])))
        .unwrap();
    let (after, reservation) =
        reserve_at(Some(issued()), 1, at(200), shown, &authority(), &mut log).unwrap();
    assert_eq!(*state_of(&after), InvitationState::Redeeming);
    assert_eq!(after.invitation.state, "redeeming");
    assert_eq!(after.invitation.used_count, 1);
    assert_eq!(after.invitation.record.as_ref().unwrap().used_count, 1);
    assert_eq!(after.details.revision, 2);
    assert_eq!(after.details.last_redemption_at_ms, Some(200_000));
    assert_eq!(
        after.details.last_redemption_metadata_json,
        "{\"sha256\":\"666c1aa02e8068c6d5cc1d3295009432c16790bec28ec8ce119d0d1a18d61319\"}"
    );
    let dispatch = after.dispatch.as_ref().unwrap();
    assert_eq!(dispatch.state, DispatchState::Reserved);
    assert_eq!(dispatch.create_request_id.len(), 36);
    assert_eq!(dispatch.fence, None);
    assert_eq!(dispatch.provider_principal_id, "user:1");
    let stored = after.session.as_ref().unwrap();
    assert_eq!(stored.state, "invitationvalidated");
    assert_eq!(stored.updated_at, at(200).to_rfc3339());
    assert_eq!(reservation.join_session_id, session_id());
    assert_eq!(reservation.expires_at, at(1000));
    assert_eq!(reservation.context, context());
    assert_eq!(
        kinds(&log),
        [AuditKind::InvitationRedemptionStarted, AuditKind::RedemptionSessionCreated]
    );
    assert_eq!(action(&log, 0), "redemption:session");
    assert_eq!(log.events[0].metadata_json, "{}");
}

#[test]
fn request_identifiers_differ() {
    let first = reserved().dispatch.unwrap().create_request_id;
    let second = reserved().dispatch.unwrap().create_request_id;
    assert_ne!(first, second);
}

#[test]
fn reservations_are_refused() {
    let refuse = |lifecycle, revision, seconds, shown, records: &AuthorityRecords| {
        let mut log = log();
        let result = reserve_at(lifecycle, revision, at(seconds), shown, records, &mut log);
        assert!(log.events.is_empty());
        result.err().unwrap()
    };
    let good = authority();
    let not_reservable = StateError::Conflict("N4 invitation is not reservable".into());
    assert_eq!(refuse(None, 1, 200, presented(), &good), StateError::NotFound("inv".into()));
    assert_eq!(refuse(Some(issued()), 2, 200, presented(), &good), not_reservable);
    assert_eq!(refuse(Some(issued()), 1, 1000, presented(), &good), not_reservable);
    assert_eq!(
        refuse(Some(issued()), 1, 200, N4PresentedMetadata::default(), &good),
        not_reservable
    );
    let mut wrong = presented();
    wrong.platform = Some("windows".into());
    assert_eq!(refuse(Some(issued()), 1, 200, wrong, &good), not_reservable);
    let mut hinted = issued();
    hinted.invitation.record.as_mut().unwrap().join_constraints.expected_hostname_hint =
        Some("host".into());
    assert_eq!(refuse(Some(hinted), 1, 200, presented(), &good), not_reservable);
    let mut shared = issued();
    shared.invitation.record.as_mut().unwrap().max_uses = 2;
    assert_eq!(refuse(Some(shared), 1, 200, presented(), &good), not_reservable);
    for used in [reserved(), confirmed()] {
        let revision = used.details.revision;
        assert_eq!(refuse(Some(used), revision, 240, presented(), &good), not_reservable);
    }
    assert_eq!(
        refuse(Some(issued()), 1, 200, presented(), &unauthorized()),
        StateError::MutationAuthorizationDenied("N4 provider configuration unavailable")
    );
    let lost = StateError::Conflict("N4 reservation lost".into());
    let mut raced = issued();
    raced.invitation.state = "redeeming".into();
    assert_eq!(refuse(Some(raced), 1, 200, presented(), &good), lost);
    let mut raced = issued();
    raced.invitation.used_count = 1;
    assert_eq!(refuse(Some(raced), 1, 200, presented(), &good), lost);
    let mut huge = issued();
    huge.details.revision = u64::MAX;
    assert_eq!(
        refuse(Some(huge), u64::MAX, 200, presented(), &good),
        StateError::Conflict("revision overflow".into())
    );
    let store = StateStore::new();
    let refused = store.reserve_n4_redemption(
        invitation_id(),
        Some(issued()),
        1,
        session_id(),
        Err("no session".into()),
        at(200),
        presented(),
        &good,
        &mut log(),
        actor(),
    );
    assert_eq!(refused.err(), Some(StateError::Conflict("no session".into())));
    let failed = armed(Failpoint::BeforeAuditInsert).reserve_n4_redemption(
        invitation_id(),
        Some(issued()),
        1,
        session_id(),
        Ok(session(JoinSessionState::InvitationValidated)),
        at(200),
        presented(),
        &good,
        &mut log(),
        actor(),
    );
    assert_eq!(failed.err(), Some(StateError::InjectedFailure));
}

#[test]
fn requests_are_fenced_before_they_are_handed_over() {
    let (after, dispatch) = StateStore::new()
        .begin_n4_credential_dispatch(
            session_id(),
            Some(reserved()),
            Ok(session(JoinSessionState::ProviderCredentialIssuing)),
            &authority(),
            at(210),
            actor(),
        )
        .unwrap();
    assert_eq!(dispatch.authorization_generation, Generation { value: 3 });
    assert_eq!(dispatch.configuration_generation, Generation { value: 5 });
    assert_eq!(dispatch.configuration_fingerprint, fingerprint());
    assert_eq!(dispatch.context, context());
    assert_eq!(dispatch.invitation_id, invitation_id());
    let stored = after.dispatch.as_ref().unwrap();
    assert_eq!(stored.state, DispatchState::DispatchStarted);
    assert_eq!(stored.dispatched_at_ms, Some(210_000));
    let fence = stored.fence.as_ref().unwrap();
    assert_eq!((fence.authorization_generation, fence.configuration_generation), (3, 5));
    assert_eq!(*session_state(&after), JoinSessionState::ProviderCredentialIssuing);
    assert_eq!(after.session.as_ref().unwrap().state, "providercredentialissuing");
    assert_eq!(after.details.revision, 2);
}

#[test]
fn requests_are_handed_over_once() {
    let issuing = || Ok(session(JoinSessionState::ProviderCredentialIssuing));
    let store = StateStore::new();
    let refuse = |lifecycle: Option<N4Lifecycle>, advanced, records: &AuthorityRecords, seconds| {
        store
            .begin_n4_credential_dispatch(
                session_id(),
                lifecycle,
                advanced,
                records,
                at(seconds),
                actor(),
            )
            .err()
            .unwrap()
    };
    let good = authority();
    let fenced = StateError::Conflict("N4 dispatch already fenced".into());
    assert_eq!(refuse(Some(begun()), issuing(), &good, 211), fenced);
    assert_eq!(refuse(Some(confirmed()), issuing(), &good, 230), fenced);
    let missing = StateError::NotFound("session".into());
    assert_eq!(refuse(None, issuing(), &good, 210), missing);
    assert_eq!(refuse(Some(issued()), issuing(), &good, 210), missing);
    assert_eq!(
        refuse(Some(reserved()), issuing(), &unauthorized(), 210),
        StateError::MutationAuthorizationDenied("N4 create authority unavailable")
    );
    let not_dispatchable = StateError::Conflict("N4 session not dispatchable".into());
    assert_eq!(refuse(Some(reserved()), issuing(), &good, 1000), not_dispatchable);
    let mut moved = reserved();
    moved.session = Some(StoredSession {
        record: Ok(session(JoinSessionState::Failed)),
        state: "failed".into(),
        updated_at: at(205).to_rfc3339(),
    });
    assert_eq!(refuse(Some(moved), issuing(), &good, 210), not_dispatchable);
    let mut unreadable = reserved();
    unreadable.session.as_mut().unwrap().record = Err("eof".into());
    assert_eq!(
        refuse(Some(unreadable), issuing(), &good, 210),
        StateError::Serialization("eof".into())
    );
    assert_eq!(
        refuse(Some(reserved()), Err("no".into()), &good, 210),
        StateError::Conflict("no".into())
    );
    let mut unparsed = reserved();
    unparsed.dispatch.as_mut().unwrap().network_id.parsed = Err("not an id".into());
    assert_eq!(
        refuse(Some(unparsed), issuing(), &good, 210),
        StateError::Conflict("not an id".into())
    );
    let mut huge = authority();
    huge.configuration.as_mut().unwrap().authorization_generation.number = u64::MAX;
    assert_eq!(
        refuse(Some(reserved()), issuing(), &huge, 210),
        StateError::Conflict("generation overflow".into())
    );
}

#[test]
fn authorizations_come_with_the_request() {
    let begin = |records: &AuthorityRecords, seconds| {
        StateStore::new().begin_n4_credential_dispatch_with_authorization(
            session_id(),
            Some(reserved()),
            Ok(session(JoinSessionState::ProviderCredentialIssuing)),
            records,
            at(seconds),
            actor(),
        )
    };
    let (after, dispatch, authorization) = begin(&authority(), 210).ok().unwrap();
    assert_eq!(*dispatch_state(&after), DispatchState::DispatchStarted);
    assert_eq!(
        authorization.validate(MutationAuthorizationContext::headscale(
            network_id(),
            instance(),
            dispatch.authorization_generation,
            dispatch.configuration_generation,
            dispatch.configuration_fingerprint,
            "v0.29.3".into(),
            false,
            ProviderMutationCapability::CreateJoinCredential,
            MutationPolicyMode::File,
            at(211),
        )),
        Ok(())
    );
    let unavailable =
        StateError::MutationAuthorizationDenied("N4 create authority unavailable");
    assert_eq!(begin(&unauthorized(), 210).err().unwrap(), unavailable);
    assert_eq!(begin(&authority(), 2000).err().unwrap(), unavailable);
    let mut revoked = authority();
    revoked.configuration.as_mut().unwrap().revoked = 1;
    assert_eq!(begin(&revoked, 210).err().unwrap(), unavailable);
    let mut unimported = authority();
    unimported.import.as_mut().unwrap().mutation_allowed = 1;
    assert_eq!(begin(&unimported, 210).err().unwrap(), unavailable);
    let mut unset = authority();
    unset.configuration.as_mut().unwrap().policy_mode = "odd".into();
    assert_eq!(
        begin(&unset, 210).err().unwrap(),
        StateError::MutationAuthorizationDenied("invalid policy mode")
    );
    let mut endless = authority();
    endless.configuration.as_mut().unwrap().expires_at_ms = i64::MAX;
    assert_eq!(
        begin(&endless, 210).err().unwrap(),
        StateError::MutationAuthorizationDenied("invalid persisted expiry")
    );
}

#[test]
fn confirmations_consume_the_invitation() {
    let mut log = log();
    let row = n4_reference_row(&session_id(), &Some(begun()), &confirmation()).unwrap();
    assert_eq!(row.provider_reference, "42");
    assert_eq!((row.authorization_generation, row.configuration_generation), (3, 5));
    assert_eq!((row.confirmed_at_ms, row.expires_at_ms, row.max_uses), (220_000, 900_000, 1));
    let after = confirm_on(
        &StateStore::new(),
        Some(begun()),
        confirmation(),
        issued_session(),
        Ok(()),
        &mut log,
    )
    .unwrap();
    assert_eq!(*state_of(&after), InvitationState::Consumed);
    assert_eq!(after.invitation.state, "consumed");
    assert_eq!(
        after.invitation.record.as_ref().unwrap().provider_credential_reference,
        Some(credential_id())
    );
    assert_eq!(after.details.consumed_at_ms, Some(220_000));
    assert_eq!(after.details.revision, 3);
    assert_eq!(*dispatch_state(&after), DispatchState::Confirmed);
    assert_eq!(after.dispatch.as_ref().unwrap().resolved_at_ms, Some(220_000));
    assert_eq!(after.reference.as_ref().unwrap().text, "42");
    let metadata = after.metadata.as_ref().unwrap();
    assert_eq!(metadata.invalidation_state, "active");
    assert_eq!(metadata.approved_tags, ["tag:nodescale-node"]);
    assert_eq!(metadata.safe_correlation_json, "{}");
    assert_eq!(
        kinds(&log),
        [AuditKind::InvitationRedeemed, AuditKind::JoinCredentialIssued]
    );
    assert_eq!(action(&log, 1), "credential-confirm:session");
}

#[test]
fn confirmations_are_refused() {
    let store = StateStore::new();
    let refuse = |lifecycle, change: &dyn Fn(&mut N4CredentialConfirmation)| {
        let mut given = confirmation();
        change(&mut given);
        let mut log = log();
        let result = confirm_on(&store, lifecycle, given, issued_session(), Ok(()), &mut log);
        assert!(log.events.is_empty());
        result.err().unwrap()
    };
    let invalid = StateError::Conflict("invalid N4 credential metadata".into());
    let open = || Some(begun());
    assert_eq!(refuse(open(), &|c| c.provider_principal_id = "a b".into()), invalid);
    assert_eq!(refuse(open(), &|c| c.ephemeral = true), invalid);
    assert_eq!(refuse(open(), &|c| c.approved_tags = vec![]), invalid);
    assert_eq!(
        refuse(open(), &|c| c.approved_tags = vec!["tag:nodescale-node".into(); 5]),
        invalid
    );
    assert_eq!(
        refuse(open(), &|c| c.approved_tags.push("tag:else".into())),
        invalid
    );
    let unfit =
        StateError::Conflict("N4 confirmation is not valid for the durable fence".into());
    assert_eq!(refuse(open(), &|c| c.provider_principal_id = "user:2".into()), unfit);
    assert_eq!(refuse(open(), &|c| c.expires_at = at(1001)), unfit);
    assert_eq!(refuse(open(), &|c| c.expires_at = at(220)), unfit);
    assert_eq!(refuse(open(), &|c| c.confirmed_at = at(1000)), unfit);
    assert_eq!(refuse(Some(confirmed()), &|_| {}), unfit);
    assert_eq!(refuse(None, &|_| {}), StateError::NotFound("session".into()));
    assert_eq!(refuse(Some(issued()), &|_| {}), StateError::NotFound("session".into()));
    assert_eq!(
        refuse(Some(reserved()), &|_| {}),
        StateError::Sqlite(
            "Invalid column type Null at index: 6, name: authorization_generation".into()
        )
    );
    let attempt = |store: &StateStore, issued, stored| {
        confirm_on(store, open(), confirmation(), issued, stored, &mut log()).err().unwrap()
    };
    let twice = DatabaseFailure { constraint_violated: true, text: "UNIQUE".into() };
    assert_eq!(
        attempt(&store, Err("no".into()), Err(twice)),
        StateError::Conflict("UNIQUE".into())
    );
    assert_eq!(
        attempt(&store, Err("no".into()), Ok(())),
        StateError::Conflict("no".into())
    );
    for point in [Failpoint::BeforeN4ConfirmationAudit, Failpoint::BeforeAuditInsert] {
        assert_eq!(
            attempt(&armed(point), issued_session(), Ok(())),
            StateError::InjectedFailure
        );
    }
}

#[test]
fn failures_lose_the_invitation() {
    for (lifecycle, failure, dispatch, ended) in [
        (
            reserved(),
            N4DispatchFailure::PreDispatch,
            DispatchState::FailedPreDispatch,
            JoinSessionState::Failed,
        ),
        (
            begun(),
            N4DispatchFailure::DefiniteNoApply,
            DispatchState::FailedNoApply,
            JoinSessionState::Failed,
        ),
        (
            begun(),
            N4DispatchFailure::Ambiguous,
            DispatchState::Ambiguous,
            JoinSessionState::ProviderCredentialAmbiguous,
        ),
    ] {
        let mut log = log();
        let after = fail(Some(lifecycle), failure, &mut log).unwrap();
        assert_eq!(*state_of(&after), InvitationState::Failed);
        assert_eq!(after.invitation.state, "failed");
        assert_eq!(*dispatch_state(&after), dispatch);
        assert_eq!(after.dispatch.as_ref().unwrap().resolved_at_ms, Some(230_000));
        assert_eq!(*session_state(&after), ended);
        assert_eq!(after.details.revision, 2);
        assert_eq!(kinds(&log), [AuditKind::InvitationRedemptionFailed]);
        assert_eq!(log.events[0].outcome, AuditOutcome::Failed);
        assert_eq!(action(&log, 0), "credential-failure:session");
    }
}

#[test]
fn failures_fit_the_request() {
    let fence = || conflict("N4 failure conflicts with dispatch fence");
    assert_eq!(
        refusal(fail(Some(begun()), N4DispatchFailure::PreDispatch, &mut log())),
        fence()
    );
    assert_eq!(
        refusal(fail(Some(reserved()), N4DispatchFailure::Ambiguous, &mut log())),
        fence()
    );
    assert_eq!(
        refusal(fail(Some(confirmed()), N4DispatchFailure::DefiniteNoApply, &mut log())),
        fence()
    );
    assert_eq!(
        refusal(fail(None, N4DispatchFailure::PreDispatch, &mut log())),
        not_found("session")
    );
    let refused = StateStore::new().fail_n4_credential_dispatch(
        &session_id(),
        Some(reserved()),
        N4DispatchFailure::PreDispatch,
        Err("no".into()),
        at(230),
        &mut log(),
        actor(),
    );
    assert_eq!(refusal(refused), conflict("no"));
}

#[test]
fn unused_invitations_end_at_once() {
    for (intent, seconds, state, kind) in [
        (
            N4CleanupIntent::Revoked,
            300,
            InvitationState::Revoked,
            AuditKind::InvitationRevoked,
        ),
        (
            N4CleanupIntent::Expired,
            1000,
            InvitationState::Expired,
            AuditKind::InvitationExpired,
        ),
    ] {
        let mut log = log();
        let (after, target) = prepare(issued(), intent, at(seconds), &mut log).ok().unwrap();
        assert_eq!(*state_of(&after), state);
        assert_eq!(after.details.revision, 2);
        assert_eq!(
            (after.details.revoked_at_ms, after.details.expired_at_ms),
            if intent == N4CleanupIntent::Revoked {
                (Some(300_000), None)
            } else {
                (None, Some(1_000_000))
            }
        );
        assert_eq!(target.join_session_id, None);
        assert!(!target.cleanup_uncertain);
        assert_eq!(kinds(&log), [kind]);
        assert_eq!(action(&log, 0), format!("invitation:inv:{intent:?}"));
        let (again, _) = prepare(after, N4CleanupIntent::Revoked, at(1100), &mut log).ok().unwrap();
        assert_eq!(*state_of(&again), state);
        assert_eq!(again.details.revision, 2);
        assert_eq!(log.events.len(), 1);
    }
}

#[test]
fn expiry_waits_for_the_deadline() {
    let early = prepare(issued(), N4CleanupIntent::Expired, at(999), &mut log());
    assert_eq!(
        early.err(),
        Some(StateError::Conflict("N4 invitation has not reached its expiry deadline".into()))
    );
}

#[test]
fn reserved_requests_are_closed() {
    let (after, target) =
        prepare(reserved(), N4CleanupIntent::Revoked, at(300), &mut log()).ok().unwrap();
    assert_eq!(*dispatch_state(&after), DispatchState::Revoked);
    assert_eq!(after.dispatch.as_ref().unwrap().resolved_at_ms, Some(300_000));
    assert_eq!(*session_state(&after), JoinSessionState::Revoked);
    assert_eq!(target.join_session_id, Some(session_id()));
    assert!(target.cleanup_uncertain);
    let failed = fail(Some(begun()), N4DispatchFailure::DefiniteNoApply, &mut log()).unwrap();
    let (after, _) = prepare(failed, N4CleanupIntent::Expired, at(1000), &mut log()).ok().unwrap();
    assert_eq!(*dispatch_state(&after), DispatchState::Expired);
    assert_eq!(after.dispatch.as_ref().unwrap().resolved_at_ms, Some(230_000));
    assert_eq!(*session_state(&after), JoinSessionState::Failed);
}

#[test]
fn uncertain_requests_stay_pending_until_the_deadline() {
    let ambiguous = || fail(Some(begun()), N4DispatchFailure::Ambiguous, &mut log()).unwrap();
    for lifecycle in [begun(), ambiguous()] {
        let mut log = log();
        let (after, target) =
            prepare(lifecycle, N4CleanupIntent::Revoked, at(300), &mut log).ok().unwrap();
        assert!(target.cleanup_uncertain);
        assert_eq!(*state_of(&after), InvitationState::Revoking);
        assert_eq!(*dispatch_state(&after), DispatchState::RevocationPending);
        assert_eq!(
            *session_state(&after),
            JoinSessionState::ProviderCredentialRevocationPending
        );
        assert!(log.events.is_empty());
        let (same, _) = prepare(after, N4CleanupIntent::Revoked, at(310), &mut log).ok().unwrap();
        assert_eq!(*state_of(&same), InvitationState::Revoking);
        assert!(log.events.is_empty());
        let (ended, _) = prepare(same, N4CleanupIntent::Expired, at(1000), &mut log).ok().unwrap();
        assert_eq!(*state_of(&ended), InvitationState::Expired);
        assert_eq!(*dispatch_state(&ended), DispatchState::Expired);
        assert_eq!(kinds(&log), [AuditKind::InvitationExpired]);
    }
    let (open, _) = prepare(begun(), N4CleanupIntent::Expired, at(1000), &mut log()).ok().unwrap();
    assert_eq!(*state_of(&open), InvitationState::Expired);
    assert_eq!(*dispatch_state(&open), DispatchState::DispatchStarted);
}

#[test]
fn preparations_are_refused() {
    let refuse = |lifecycle: Option<N4Lifecycle>, change: &dyn Fn(&mut CleanupAnswers)| {
        let mut given = answers(N4CleanupIntent::Revoked);
        change(&mut given);
        let mut log = log();
        let result = StateStore::new().prepare_n4_cleanup(
            invitation_id(),
            lifecycle,
            given,
            at(300),
            N4CleanupIntent::Revoked,
            &mut log,
            actor(),
        );
        assert!(log.events.is_empty());
        result.err().unwrap()
    };
    let no = || Err("no".to_string());
    let refused = StateError::Conflict("no".into());
    assert_eq!(refuse(None, &|_| {}), StateError::NotFound("inv".into()));
    assert_eq!(refuse(Some(issued()), &|a| a.pending = no().map(|_: ()| InvitationState::Issued)), refused);
    assert_eq!(refuse(Some(issued()), &|a| a.ended = no().map(|_: ()| InvitationState::Issued)), refused);
    assert_eq!(
        refuse(Some(reserved()), &|a| a.ended_session = Err("no".into())),
        refused
    );
    assert_eq!(
        refuse(Some(confirmed()), &|a| a.pending_session = Err("no".into())),
        refused
    );
    let mut lost = confirmed();
    lost.session = None;
    assert_eq!(
        refuse(Some(lost), &|_| {}),
        StateError::Sqlite("Query returned no rows".into())
    );
    let mut unparsed = confirmed();
    unparsed.reference.as_mut().unwrap().parsed = Err("not a reference".into());
    assert_eq!(
        refuse(Some(unparsed), &|_| {}),
        StateError::Conflict("not a reference".into())
    );
    let failed = armed(Failpoint::BeforeAuditInsert).prepare_n4_revocation(
        invitation_id(),
        Some(issued()),
        answers(N4CleanupIntent::Revoked),
        at(300),
        &mut log(),
        actor(),
    );
    assert_eq!(failed.err(), Some(StateError::InjectedFailure));
}

#[test]
fn confirmed_credentials_are_invalidated() {
    for (intent, seconds) in [(N4CleanupIntent::Revoked, 300), (N4CleanupIntent::Expired, 1000)] {
        let (pending, target) =
            prepare(confirmed(), intent, at(seconds), &mut log()).ok().unwrap();
        assert_eq!(*state_of(&pending), intent.pending_state());
        assert_eq!(*dispatch_state(&pending), DispatchState::RevocationPending);
        assert_eq!(pending.metadata.as_ref().unwrap().invalidation_state, "pending");
        assert_eq!(pending.details.revision, 3);
        assert_eq!(target.credential_id, Some(credential_id()));
        assert_eq!(target.provider_reference.as_ref().unwrap().text, "42");
        assert!(!target.cleanup_uncertain);
        let mut log = log();
        let after = settle_on(
            &StateStore::new(),
            target,
            Some(pending),
            N4InvalidationOutcome::Confirmed,
            &mut log,
        )
        .unwrap();
        assert_eq!(*state_of(&after), intent.ended_state());
        assert_eq!(after.details.revision, 4);
        let metadata = after.metadata.as_ref().unwrap();
        assert_eq!(metadata.invalidation_state, "confirmed");
        assert_eq!(metadata.invalidated_at_ms, Some(310_000));
        assert_eq!(after.dispatch.as_ref().unwrap().resolved_at_ms, Some(220_000));
        assert_eq!(*session_state(&after), intent.ended_session_state());
        assert_eq!(log.events.len(), 2);
        assert_eq!(log.events[0].kind, AuditKind::JoinCredentialInvalidated);
        assert_eq!(action(&log, 1), format!("credential-invalidation:cred:{intent:?}"));
    }
}

fn pending() -> (N4Lifecycle, N4CleanupTarget) {
    prepare(confirmed(), N4CleanupIntent::Revoked, at(300), &mut log()).ok().unwrap()
}

#[test]
fn unachieved_invalidations_are_remembered() {
    for (outcome, name) in [
        (N4InvalidationOutcome::Retryable, "retryable"),
        (N4InvalidationOutcome::Ambiguous, "ambiguous"),
        (N4InvalidationOutcome::AuthenticationFailed, "blocked"),
        (N4InvalidationOutcome::CompatibilityBlocked, "blocked"),
        (N4InvalidationOutcome::Blocked, "blocked"),
    ] {
        let (lifecycle, target) = pending();
        let after = settle(target.clone(), lifecycle, outcome).unwrap();
        assert_eq!(after.metadata.as_ref().unwrap().invalidation_state, name);
        assert_eq!(*state_of(&after), InvitationState::Revoking);
        let after = settle(target, after, N4InvalidationOutcome::AlreadySatisfied).unwrap();
        assert_eq!(*state_of(&after), InvitationState::Revoked);
    }
    let (_, target) = pending();
    let kept = settle(target, confirmed(), N4InvalidationOutcome::Retryable).unwrap();
    assert_eq!(kept.metadata.as_ref().unwrap().invalidation_state, "active");
}

#[test]
fn settlements_are_final() {
    let (lifecycle, target) = pending();
    let after = settle(target.clone(), lifecycle, N4InvalidationOutcome::Confirmed).unwrap();
    let mut log = log();
    let again = settle_on(
        &StateStore::new(),
        target.clone(),
        Some(after),
        N4InvalidationOutcome::Confirmed,
        &mut log,
    )
    .unwrap();
    assert_eq!(again.details.revision, 4);
    assert!(log.events.is_empty());
    let mut other = target;
    other.intent = N4CleanupIntent::Expired;
    assert_eq!(
        refusal(settle(other, again, N4InvalidationOutcome::Confirmed)),
        conflict("N4 terminal invalidation intent conflicts with durable dispatch")
    );
}

#[test]
fn settlements_are_exact() {
    let changed = |change: &dyn Fn(&mut N4CleanupTarget)| {
        let (lifecycle, mut target) = pending();
        change(&mut target);
        refusal(settle(target, lifecycle, N4InvalidationOutcome::Confirmed))
    };
    let inexact =
        || conflict("N4 invalidation target does not exactly match durable provenance");
    assert_eq!(changed(&|t| t.join_session_id = None), inexact());
    assert_eq!(changed(&|t| t.credential_id.as_mut().unwrap().text = "x".into()), inexact());
    assert_eq!(
        changed(&|t| t.provider_reference.as_mut().unwrap().text = "43".into()),
        inexact()
    );
    assert_eq!(changed(&|t| t.network_id.text = "x".into()), inexact());
    assert_eq!(changed(&|t| t.provider_instance_id.text = "x".into()), inexact());
    let (_, target) = pending();
    let nothing = || conflict("N4 invalidation target has no exact durable credential");
    let confirmed_outcome = N4InvalidationOutcome::Confirmed;
    assert_eq!(refusal(settle(target.clone(), begun(), confirmed_outcome)), nothing());
    assert_eq!(
        refusal(settle_on(
            &StateStore::new(),
            target.clone(),
            None,
            confirmed_outcome,
            &mut log()
        )),
        nothing()
    );
    assert_eq!(
        refusal(settle(target.clone(), confirmed(), confirmed_outcome)),
        conflict("N4 invalidation is not pending")
    );
    let (mut settled, _) = pending();
    settled.metadata.as_mut().unwrap().invalidation_state = "confirmed".into();
    assert_eq!(
        refusal(settle(target.clone(), settled, confirmed_outcome)),
        conflict("N4 invalidation metadata did not settle exactly once")
    );
    let (lifecycle, _) = pending();
    assert_eq!(
        refusal(settle_on(
            &armed(Failpoint::BeforeAuditInsert),
            target.clone(),
            Some(lifecycle),
            confirmed_outcome,
            &mut log()
        )),
        Err(StateError::InjectedFailure)
    );
    let (lifecycle, _) = pending();
    assert_eq!(
        refusal(StateStore::new().settle_n4_credential_invalidation(
            target,
            Some(lifecycle),
            confirmed_outcome,
            Ok(InvitationState::Revoked),
            Err("no".into()),
            at(310),
            &mut log(),
            actor(),
        )),
        conflict("no")
    );
}

#[test]
fn used_invitations_are_never_reserved_again() {
    let mut lifecycles = vec![reserved(), begun(), confirmed()];
    lifecycles.push(fail(Some(begun()), N4DispatchFailure::Ambiguous, &mut log()).unwrap());
    lifecycles.push(pending().0);
    let (lifecycle, target) = pending();
    lifecycles.push(settle(target, lifecycle, N4InvalidationOutcome::Confirmed).unwrap());
    for lifecycle in lifecycles {
        let revision = lifecycle.details.revision;
        assert!(revision >= 2);
        let result = reserve_at(
            Some(lifecycle),
            revision,
            at(400),
            presented(),
            &authority(),
            &mut log(),
        );
        assert_eq!(
            result.err(),
            Some(StateError::Conflict("N4 invitation is not reservable".into()))
        );
    }
}

#[test]
fn finished_invitations_never_change() {
    let finished = || {
        let (lifecycle, target) = pending();
        settle(target, lifecycle, N4InvalidationOutcome::Confirmed).unwrap()
    };
    assert!(fail(Some(finished()), N4DispatchFailure::Ambiguous, &mut log()).is_err());
    let (same, target) =
        prepare(finished(), N4CleanupIntent::Expired, at(1000), &mut log()).ok().unwrap();
    assert_eq!(*state_of(&same), InvitationState::Revoked);
    assert_eq!(*dispatch_state(&same), DispatchState::Revoked);
    assert_eq!(same.details.revision, 4);
    assert_eq!(same.details.expired_at_ms, None);
    assert_eq!(target.credential_id, Some(credential_id()));
    let (same, _) =
        prepare(finished(), N4CleanupIntent::Revoked, at(1000), &mut log()).ok().unwrap();
    assert_eq!(same.dispatch.unwrap().credential_id.unwrap().text, "cred");
}
