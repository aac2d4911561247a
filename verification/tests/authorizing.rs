use nodescale_state::authorization::{
    ConfigurationRow, HeadscaleMutationAuthorizationContext, ImportRow, StoredCredentialReference,
};
use nodescale_state::capabilities::CapabilitySet;
use nodescale_state::names::AuditKind;
use nodescale_state::{
    AuditActor, AuditLog, AuthorityRecords, ConfirmedProviderCredentialReference, DatabaseFailure,
    Failpoint, Generation, MutationAuthorizationContext, MutationPolicyMode, NetworkId,
    ProviderCredentialId, ProviderCredentialReference, ProviderError, ProviderInstanceId,
    ProviderMutationCapability, ProviderMutationConfiguration, StateError, StateStore, Stored,
    StoredGeneration, Timestamp,
};

fn at(seconds: i64) -> Timestamp {
    Timestamp::new(seconds, 0).unwrap()
}

fn g(value: u64) -> Generation {
    Generation { value }
}

fn network() -> NetworkId {
    NetworkId { text: "net".into() }
}

fn instance() -> ProviderInstanceId {
    ProviderInstanceId { text: "inst".into() }
}

fn fingerprint() -> String {
    format!("sha256:{}", "ab".repeat(32))
}

fn actor() -> AuditActor {
    AuditActor { source: "owner".into(), actor_id: None }
}

fn configuration(
    authorization: u64,
    configuration: u64,
    mode: MutationPolicyMode,
    capabilities: Vec<ProviderMutationCapability>,
) -> Result<ProviderMutationConfiguration, StateError> {
    ProviderMutationConfiguration::new(
        instance(),
        g(authorization),
        g(configuration),
        fingerprint(),
        "headscale".into(),
        "v0.29.3".into(),
        true,
        false,
        at(100),
        at(200),
        mode,
        capabilities,
    )
}

fn creating() -> Vec<ProviderMutationCapability> {
    vec![
        ProviderMutationCapability::CreateJoinCredential,
        ProviderMutationCapability::InvalidateJoinCredential,
        ProviderMutationCapability::CreateJoinCredential,
    ]
}

fn imported() -> AuthorityRecords {
    AuthorityRecords {
        network_id: network(),
        configuration: None,
        import: Some(ImportRow {
            provider_instance: "inst".into(),
            read_only: 1,
            mutation_allowed: 0,
        }),
    }
}

fn configured() -> AuthorityRecords {
    let mut records = imported();
    let mut log = AuditLog::new(vec![]);
    let made = configuration(3, 5, MutationPolicyMode::File, creating()).unwrap();
    StateStore::new()
        .replace_provider_mutation_configuration(&mut records, None, None, made, &mut log, actor())
        .unwrap();
    records
}

fn denied<T>(text: &'static str) -> Result<T, StateError> {
    Err(StateError::MutationAuthorizationDenied(text))
}

fn conflict<T>(text: &str) -> Result<T, StateError> {
    Err(StateError::Conflict(text.into()))
}

fn context(
    capability: ProviderMutationCapability,
    now: Timestamp,
) -> MutationAuthorizationContext {
    MutationAuthorizationContext::headscale(
        network(),
        instance(),
        g(3),
        g(5),
        fingerprint(),
        "v0.29.3".into(),
        false,
        capability,
        MutationPolicyMode::File,
        now,
    )
}

fn issue(
    records: &AuthorityRecords,
    capability: ProviderMutationCapability,
    seconds: i64,
) -> Result<nodescale_state::MutationAuthorization, StateError> {
    StateStore::new().issue_mutation_authorization(records, instance(), capability, at(seconds))
}

#[test]
fn capability_sets_hold_each_once() {
    let set = CapabilitySet::from_list(&creating());
    assert!(set.contains(ProviderMutationCapability::CreateJoinCredential));
    assert!(!set.contains(ProviderMutationCapability::DeleteNode));
    assert_eq!(
        set.list(),
        vec![
            ProviderMutationCapability::CreateJoinCredential,
            ProviderMutationCapability::InvalidateJoinCredential,
        ]
    );
    assert!(CapabilitySet::empty().is_empty());
    assert!(!set.is_empty());
}

#[test]
fn invalid_configurations_are_refused() {
    let refused = "invalid provider mutation configuration";
    let make = |fp: &str, adapter: &str, version: &str, from: Timestamp, to: Timestamp| {
        ProviderMutationConfiguration::new(
            instance(),
            g(1),
            g(1),
            fp.into(),
            adapter.into(),
            version.into(),
            true,
            false,
            from,
            to,
            MutationPolicyMode::Database,
            creating(),
        )
    };
    let fp = fingerprint();
    assert!(make(&fp, "headscale", "v0.29.3", at(1), at(2)).is_ok());
    assert_eq!(make("sha256:0", "headscale", "v0.29.3", at(1), at(2)), conflict(refused));
    assert_eq!(make(&fp, "tailscale", "v0.29.3", at(1), at(2)), conflict(refused));
    assert_eq!(make(&fp, "headscale", "v0.29.2", at(1), at(2)), conflict(refused));
    assert_eq!(make(&fp, "headscale", "v0.29.3", at(2), at(2)), conflict(refused));
    assert_eq!(make(&fp, "headscale", "v0.29.3", at(-1), at(2)), conflict(refused));
    assert_eq!(configuration(1, 1, MutationPolicyMode::Database, vec![]), conflict(refused));
    let policy = vec![ProviderMutationCapability::ManagePolicy];
    assert_eq!(configuration(1, 1, MutationPolicyMode::File, policy.clone()), conflict(refused));
    assert!(configuration(1, 1, MutationPolicyMode::Database, policy).is_ok());
}

#[test]
fn replacement_stores_the_configuration_and_audits_it() {
    let store = StateStore::new();
    let mut records = imported();
    let mut log = AuditLog::new(vec![]);
    let made = configuration(3, 5, MutationPolicyMode::File, creating()).unwrap();
    store
        .replace_provider_mutation_configuration(&mut records, None, None, made, &mut log, actor())
        .unwrap();
    assert_eq!(
        records.configuration,
        Some(ConfigurationRow {
            provider_instance: "inst".into(),
            authorization_generation: StoredGeneration { number: 3, refusal: None },
            configuration_generation: StoredGeneration { number: 5, refusal: None },
            configuration_fingerprint: fingerprint(),
            adapter: "headscale".into(),
            expected_version: "v0.29.3".into(),
            enabled: 1,
            revoked: 0,
            not_before_ms: 100_000,
            expires_at_ms: 200_000,
            policy_mode: "file".into(),
            capabilities: vec!["CreateJoinCredential".into(), "InvalidateJoinCredential".into()],
        })
    );
    assert_eq!(log.events.len(), 1);
    assert_eq!(log.events[0].kind, AuditKind::MutationConfigured);
    assert_eq!(log.events[0].generation, Some(3));
}

#[test]
fn replacement_is_compare_and_swap() {
    let store = StateStore::new();
    let attempt = |records: &mut AuthorityRecords, ea, ec, auth, conf| {
        let mut log = AuditLog::new(vec![]);
        let made = configuration(auth, conf, MutationPolicyMode::File, creating()).unwrap();
        store.replace_provider_mutation_configuration(records, ea, ec, made, &mut log, actor())
    };
    let stale = |expected, actual| Err(StateError::StaleGeneration { expected, actual });
    assert_eq!(attempt(&mut imported(), Some(g(2)), None, 9, 9), stale(2, 0));
    assert_eq!(attempt(&mut imported(), None, Some(g(4)), 9, 9), stale(4, 0));
    assert_eq!(attempt(&mut configured(), None, None, 9, 9), stale(0, 3));
    assert_eq!(attempt(&mut configured(), Some(g(2)), Some(g(5)), 9, 9), stale(2, 3));
    assert_eq!(attempt(&mut configured(), Some(g(3)), Some(g(4)), 9, 9), stale(4, 5));
    assert_eq!(attempt(&mut configured(), Some(g(3)), None, 9, 9), stale(0, 5));
    let advance = "replacement mutation generations must advance";
    assert_eq!(attempt(&mut configured(), Some(g(3)), Some(g(5)), 3, 6), conflict(advance));
    assert_eq!(attempt(&mut configured(), Some(g(3)), Some(g(5)), 4, 5), conflict(advance));
    let mut records = configured();
    assert_eq!(attempt(&mut records, Some(g(3)), Some(g(5)), 4, 6), Ok(()));
    let row = records.configuration.unwrap();
    assert_eq!(row.authorization_generation.number, 4);
    assert_eq!(row.configuration_generation.number, 6);
}

#[test]
fn replacement_needs_the_exact_read_only_import() {
    let mut store = StateStore::new();
    let mut log = AuditLog::new(vec![]);
    let mut attempt = |store: &StateStore, mut records: AuthorityRecords, auth: u64| {
        let made = configuration(auth, 1, MutationPolicyMode::File, creating()).unwrap();
        let result = store.replace_provider_mutation_configuration(
            &mut records,
            None,
            None,
            made,
            &mut log,
            actor(),
        );
        assert_eq!(records.configuration.is_some(), result.is_ok());
        result
    };
    let required = "exact read-only import is required";
    let mut records = imported();
    records.import = None;
    assert_eq!(attempt(&store, records, 1), denied(required));
    let mut records = imported();
    records.import.as_mut().unwrap().mutation_allowed = 1;
    assert_eq!(attempt(&store, records, 1), denied(required));
    let mut records = imported();
    records.import.as_mut().unwrap().read_only = 0;
    assert_eq!(attempt(&store, records, 1), denied(required));
    let mut records = imported();
    records.import.as_mut().unwrap().provider_instance = "other".into();
    assert_eq!(attempt(&store, records, 1), denied(required));
    assert_eq!(
        attempt(&store, imported(), 1 << 63),
        conflict("generation exceeds SQLite integer range")
    );
    store.set_failpoint(Failpoint::BeforeAuditInsert, true);
    assert_eq!(attempt(&store, imported(), 1), Err(StateError::InjectedFailure));
}

#[test]
fn the_provider_of_a_configuration_cannot_change() {
    let mut records = configured();
    records.configuration.as_mut().unwrap().provider_instance = "other".into();
    let made = configuration(9, 9, MutationPolicyMode::File, creating()).unwrap();
    let result = StateStore::new().replace_provider_mutation_configuration(
        &mut records,
        Some(g(3)),
        Some(g(5)),
        made,
        &mut AuditLog::new(vec![]),
        actor(),
    );
    assert_eq!(result, conflict("mutation provider identity cannot be replaced"));
}

#[test]
fn authorizations_are_good_in_their_window() {
    let create = ProviderMutationCapability::CreateJoinCredential;
    for (seconds, good) in [(99, false), (100, true), (199, true), (200, false)] {
        let authorization = issue(&configured(), create, 150).unwrap();
        assert_eq!(authorization.validate(context(create, at(seconds))).is_ok(), good);
        assert_eq!(issue(&configured(), create, seconds).is_ok(), good);
    }
    let last = Timestamp::new(199, 999_999_999).unwrap();
    assert!(issue(&configured(), create, 150).unwrap().validate(context(create, last)).is_ok());
}

#[test]
fn authorizations_match_every_fact() {
    let create = ProviderMutationCapability::CreateJoinCredential;
    let refused = denied("authorization facts do not match");
    let check = |change: &dyn Fn(&mut HeadscaleMutationAuthorizationContext)| {
        let mut facts = HeadscaleMutationAuthorizationContext {
            network_id: network(),
            provider_instance_id: instance(),
            authorization_generation: g(3),
            configuration_generation: g(5),
            configuration_fingerprint: fingerprint(),
            version: "v0.29.3".into(),
            dirty: false,
            capability: create,
            policy_mode: MutationPolicyMode::Unknown,
            now: at(150),
        };
        change(&mut facts);
        issue(&configured(), create, 150).unwrap().validate_for_headscale(facts)
    };
    assert_eq!(check(&|_| {}), Ok(()));
    let rejected = Err(ProviderError::Rejected(
        "mutation authorization denied: authorization facts do not match".into(),
    ));
    assert_eq!(check(&|f| f.network_id.text = "x".into()), rejected);
    assert_eq!(check(&|f| f.provider_instance_id.text = "x".into()), rejected);
    assert_eq!(check(&|f| f.authorization_generation = g(4)), rejected);
    assert_eq!(check(&|f| f.configuration_generation = g(4)), rejected);
    assert_eq!(check(&|f| f.configuration_fingerprint.push('0')), rejected);
    assert_eq!(check(&|f| f.version = "v0.29.4".into()), rejected);
    assert_eq!(check(&|f| f.dirty = true), rejected);
    assert_eq!(
        check(&|f| f.capability = ProviderMutationCapability::InvalidateJoinCredential),
        rejected
    );
    let other = issue(&configured(), create, 150).unwrap();
    assert_eq!(
        other.validate(context(ProviderMutationCapability::DeleteNode, at(150))),
        refused
    );
}

#[test]
fn policies_are_managed_in_the_database_only() {
    let manage = ProviderMutationCapability::ManagePolicy;
    let mut records = imported();
    let made = configuration(3, 5, MutationPolicyMode::Database, vec![manage]).unwrap();
    StateStore::new()
        .replace_provider_mutation_configuration(
            &mut records,
            None,
            None,
            made,
            &mut AuditLog::new(vec![]),
            actor(),
        )
        .unwrap();
    let authorization = issue(&records, manage, 150).unwrap();
    assert_eq!(
        authorization.validate(context(manage, at(150))),
        denied("authorization facts do not match")
    );
    let database = MutationAuthorizationContext::headscale(
        network(),
        instance(),
        g(3),
        g(5),
        fingerprint(),
        "v0.29.3".into(),
        false,
        manage,
        MutationPolicyMode::Database,
        at(150),
    );
    assert_eq!(issue(&records, manage, 150).unwrap().validate(database), Ok(()));
    records.configuration.as_mut().unwrap().policy_mode = "file".into();
    assert_eq!(
        issue(&records, manage, 150).err(),
        Some(StateError::MutationAuthorizationDenied("configuration is not currently issuable"))
    );
}

#[test]
fn authorizations_are_issued_from_current_configurations_only() {
    let create = ProviderMutationCapability::CreateJoinCredential;
    let refusal = |change: &dyn Fn(&mut AuthorityRecords)| {
        let mut records = configured();
        change(&mut records);
        issue(&records, create, 150).err().unwrap()
    };
    let absent = StateError::MutationAuthorizationDenied("no current configured capability");
    assert_eq!(issue(&imported(), create, 150).err().unwrap(), absent);
    assert_eq!(refusal(&|r| r.import = None), absent);
    assert_eq!(refusal(&|r| r.configuration.as_mut().unwrap().capabilities.clear()), absent);
    assert_eq!(
        issue(&configured(), ProviderMutationCapability::DeleteNode, 150).err().unwrap(),
        absent
    );
    let off = StateError::MutationAuthorizationDenied("configuration is not currently issuable");
    assert_eq!(refusal(&|r| r.configuration.as_mut().unwrap().enabled = 0), off);
    assert_eq!(refusal(&|r| r.configuration.as_mut().unwrap().enabled = 2), off);
    assert_eq!(refusal(&|r| r.configuration.as_mut().unwrap().revoked = 1), off);
    assert_eq!(
        refusal(&|r| r.configuration.as_mut().unwrap().adapter = "tailscale".into()),
        off
    );
    assert_eq!(
        refusal(&|r| r.configuration.as_mut().unwrap().configuration_fingerprint.clear()),
        off
    );
    assert_eq!(
        refusal(&|r| r.configuration.as_mut().unwrap().not_before_ms = i64::MIN),
        StateError::MutationAuthorizationDenied("invalid persisted not-before")
    );
    assert_eq!(
        refusal(&|r| r.configuration.as_mut().unwrap().expires_at_ms = i64::MAX),
        StateError::MutationAuthorizationDenied("invalid persisted expiry")
    );
    assert_eq!(
        refusal(&|r| {
            r.configuration.as_mut().unwrap().authorization_generation.refusal =
                Some("zero".into())
        }),
        StateError::Conflict("zero".into())
    );
    assert_eq!(
        refusal(&|r| {
            r.configuration.as_mut().unwrap().configuration_generation.refusal =
                Some("nil".into())
        }),
        StateError::Conflict("nil".into())
    );
    assert_eq!(
        refusal(&|r| r.configuration.as_mut().unwrap().policy_mode = "odd".into()),
        StateError::MutationAuthorizationDenied("invalid policy mode")
    );
}

#[test]
fn replaced_configurations_retire_authorizations() {
    let create = ProviderMutationCapability::CreateJoinCredential;
    let before = issue(&configured(), create, 150).unwrap();
    let after = MutationAuthorizationContext::headscale(
        network(),
        instance(),
        g(4),
        g(6),
        fingerprint(),
        "v0.29.3".into(),
        false,
        create,
        MutationPolicyMode::File,
        at(150),
    );
    assert_eq!(before.validate(after), denied("authorization facts do not match"));
}

fn reference(confirmed: Timestamp, expires: Timestamp, uses: u32) -> Result<
    ConfirmedProviderCredentialReference,
    StateError,
> {
    ConfirmedProviderCredentialReference::new(
        ProviderCredentialId { text: "cred".into() },
        network(),
        instance(),
        ProviderCredentialReference { text: "key-7".into() },
        g(3),
        g(5),
        fingerprint(),
        confirmed,
        expires,
        uses,
    )
}

#[test]
fn confirmed_references_are_checked() {
    let refused = conflict("invalid confirmed provider credential reference");
    assert!(reference(at(150), at(160), 1).is_ok());
    assert_eq!(reference(at(150), at(150), 1), refused);
    assert_eq!(reference(at(-5), at(150), 1), refused);
    assert_eq!(reference(at(150), at(160), 2), refused);
}

#[test]
fn confirmed_references_are_bound_to_current_authority() {
    let mut store = StateStore::new();
    let made = reference(at(150), at(160), 1).unwrap();
    let row = store.confirmed_reference_row(&configured(), &made).unwrap();
    assert_eq!(row.credential, "cred");
    assert_eq!(row.provider_reference, "key-7");
    assert_eq!(row.confirmed_at_ms, 150_000);
    assert_eq!(row.expires_at_ms, 160_000);
    let mut log = AuditLog::new(vec![]);
    let record = |store: &StateStore, records: &AuthorityRecords, stored, log: &mut AuditLog| {
        store.record_confirmed_provider_credential_reference(records, &made, stored, log, actor())
    };
    assert_eq!(record(&store, &configured(), Ok(()), &mut log), Ok(()));
    assert_eq!(log.events.len(), 1);
    assert_eq!(log.events[0].kind, AuditKind::CredentialReferenceConfirmed);
    assert_eq!(log.events[0].generation, Some(3));
    let unbound = denied("confirmed credential reference is not bound to current authority");
    assert_eq!(record(&store, &imported(), Ok(()), &mut log), unbound);
    let mut moved = configured();
    moved.configuration.as_mut().unwrap().authorization_generation.number = 4;
    assert_eq!(record(&store, &moved, Ok(()), &mut log), unbound);
    let mut ended = configured();
    ended.configuration.as_mut().unwrap().expires_at_ms = 150_000;
    assert_eq!(record(&store, &ended, Ok(()), &mut log), unbound);
    let twice = DatabaseFailure { constraint_violated: true, text: "UNIQUE".into() };
    assert_eq!(record(&store, &configured(), Err(twice), &mut log), conflict("UNIQUE"));
    store.set_failpoint(Failpoint::BeforeAuditInsert, true);
    assert_eq!(
        record(&store, &configured(), Ok(()), &mut log),
        Err(StateError::InjectedFailure)
    );
    assert_eq!(log.events.len(), 1);
}

fn stored() -> StoredCredentialReference {
    StoredCredentialReference {
        network_id: Stored { text: "net".into(), parsed: Ok(network()) },
        provider_instance_id: Stored { text: "inst".into(), parsed: Ok(instance()) },
        provider_reference: Stored {
            text: "key-7".into(),
            parsed: Ok(ProviderCredentialReference { text: "key-7".into() }),
        },
        authorization_generation: StoredGeneration { number: 3, refusal: None },
        configuration_generation: StoredGeneration { number: 5, refusal: None },
        configuration_fingerprint: fingerprint(),
        confirmed_at_ms: 150_000,
        expires_at_ms: 160_000,
        max_uses: 1,
    }
}

#[test]
fn confirmed_references_read_back() {
    let store = StateStore::new();
    let id = || ProviderCredentialId { text: "cred".into() };
    assert_eq!(
        store.confirmed_provider_credential_reference(id(), Some(stored())),
        reference(at(150), at(160), 1)
    );
    assert_eq!(
        store.confirmed_provider_credential_reference(id(), None),
        Err(StateError::NotFound("cred".into()))
    );
    let read = |change: &dyn Fn(&mut StoredCredentialReference)| {
        let mut row = stored();
        change(&mut row);
        store.confirmed_provider_credential_reference(id(), Some(row)).err().unwrap()
    };
    let bad = |text: &str| StateError::Conflict(text.into());
    assert_eq!(read(&|r| r.network_id.parsed = Err("n".into())), bad("n"));
    assert_eq!(read(&|r| r.provider_instance_id.parsed = Err("i".into())), bad("i"));
    assert_eq!(read(&|r| r.provider_reference.parsed = Err("r".into())), bad("r"));
    assert_eq!(read(&|r| r.authorization_generation.refusal = Some("a".into())), bad("a"));
    assert_eq!(read(&|r| r.configuration_generation.refusal = Some("c".into())), bad("c"));
    assert_eq!(
        read(&|r| r.confirmed_at_ms = i64::MIN),
        StateError::MutationAuthorizationDenied("invalid persisted confirmation time")
    );
    assert_eq!(
        read(&|r| r.expires_at_ms = i64::MAX),
        StateError::MutationAuthorizationDenied("invalid persisted credential expiry")
    );
    assert_eq!(
        read(&|r| r.max_uses = 2),
        bad("invalid confirmed provider credential reference")
    );
}
