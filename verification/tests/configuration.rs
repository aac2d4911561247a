use nodescale_state::config::{import_config, HeadscaleImportRow};
use nodescale_state::names::{
    audit_kind_name, audit_outcome_name, classification_name, cleanup_name, compatibility_name,
    failure_kind_name, mutation_capability_name, parse_adoption_state, parse_classification,
    parse_cleanup_state, parse_compatibility, parse_dispatch_state, parse_policy_mode,
    parse_revocation_state, policy_mode_name, revocation_name, AuditKind, AuditOutcome,
    DispatchState, FailureKind,
};
use nodescale_state::{
    AdoptionState, CompatibilityStatus, HeadscaleImportConfig, MutationPolicyMode, N4CleanupState,
    ObservationClassification, ProviderInstanceId, ProviderMutationCapability, RevocationState,
    StateError, TailscaleImportConfig, TlsVerificationPolicy,
};

fn instance() -> ProviderInstanceId {
    ProviderInstanceId { text: "instance-1".into() }
}

fn headscale(url: &str, secret: &str, pin: &str) -> Result<HeadscaleImportConfig, StateError> {
    HeadscaleImportConfig::new(
        url.into(),
        instance(),
        secret.into(),
        pin.into(),
        TlsVerificationPolicy::Verify,
    )
}

fn conflict<T>(text: &str) -> Result<T, StateError> {
    Err(StateError::Conflict(text.into()))
}

#[test]
fn headscale_import_is_read_only() {
    let config = headscale("https://head.example:8443", "secret://vault/key", "0.29.3").unwrap();
    assert_eq!(config.server_url, "https://head.example:8443");
    assert_eq!(config.provider_instance_id, instance());
    assert!(config.read_only);
    assert!(!config.mutation_allowed);
    assert_eq!(config.custom_root_ca_sha256, None);
    assert_eq!(config.validate_for_persistence(), Ok(()));
}

#[test]
fn headscale_urls_are_clean_origins() {
    for url in [
        "http://head.example",
        "https://",
        "https://head.example/",
        "https://user@head.example",
        "https://head.example?x",
        "https://head.example#x",
        "https://head example",
        "head.example",
        "",
    ] {
        assert_eq!(
            headscale(url, "secret://k", "1"),
            conflict("Headscale server URL must be a clean HTTPS origin"),
            "{url}"
        );
    }
}

#[test]
fn headscale_secrets_are_references() {
    let text = "credential must be an opaque secret:// reference, not plaintext";
    assert_eq!(headscale("https://h", "plaintext", "1"), conflict(text));
    assert_eq!(headscale("https://h", "secret://a b", "1"), conflict(text));
    let longest = format!("secret://{}", "k".repeat(246));
    assert!(headscale("https://h", &longest, "1").is_ok());
    assert_eq!(headscale("https://h", &format!("{longest}k"), "1"), conflict(text));
}

#[test]
fn headscale_pins_are_short() {
    let text = "Headscale compatibility pin is invalid";
    assert_eq!(headscale("https://h", "secret://k", ""), conflict(text));
    assert_eq!(headscale("https://h", "secret://k", "0 1"), conflict(text));
    assert!(headscale("https://h", "secret://k", &"1".repeat(64)).is_ok());
    assert_eq!(headscale("https://h", "secret://k", &"1".repeat(65)), conflict(text));
    assert_eq!(headscale("https://h", "secret://k", &"é".repeat(33)), conflict(text));
}

#[test]
fn headscale_configurations_changed_by_hand_are_checked() {
    let mut config = headscale("https://h", "secret://k", "1").unwrap();
    config.server_url = "http://h".into();
    assert_eq!(
        config.validate_for_persistence(),
        conflict("Headscale server URL must be a clean HTTPS origin")
    );
}

#[test]
fn headscale_root_is_pinned() {
    let fingerprint = format!("sha256:{}", "5f".repeat(32));
    let config = headscale("https://h", "secret://k", "1").unwrap();
    let pinned = config.clone().with_custom_root_ca_sha256(fingerprint.clone()).unwrap();
    assert_eq!(pinned.custom_root_ca_sha256, Some(fingerprint));
    assert_eq!(pinned.server_url, config.server_url);
    assert_eq!(
        config.with_custom_root_ca_sha256("sha256:5F".into()),
        conflict("custom root CA fingerprint must be canonical sha256")
    );
}

#[test]
fn tailscale_import_is_read_only() {
    let config =
        TailscaleImportConfig::new("a-b_c.d@e".into(), instance(), "secret://k".into()).unwrap();
    assert_eq!(config.compatibility_pin, "api-v2");
    assert!(config.read_only);
    assert!(!config.mutation_allowed);
    assert_eq!(
        config.scoped_api_url(),
        "https://api.tailscale.com/api/v2/tailnet/a-b_c.d@e"
    );
}

#[test]
fn tailnets_are_plain_names() {
    for name in ["", " a", "a ", "a/b", "é"] {
        assert_eq!(
            TailscaleImportConfig::new(name.into(), instance(), "secret://k".into()),
            conflict("Tailscale tailnet is invalid"),
            "{name}"
        );
    }
    assert!(TailscaleImportConfig::new("a".repeat(256), instance(), "secret://k".into()).is_ok());
    assert!(TailscaleImportConfig::new("a".repeat(257), instance(), "secret://k".into()).is_err());
    assert_eq!(
        TailscaleImportConfig::new("a".into(), instance(), "key".into()),
        conflict("credential must be an opaque secret:// reference, not plaintext")
    );
}

fn row(parsed: Result<ProviderInstanceId, String>, root: Option<String>) -> HeadscaleImportRow {
    HeadscaleImportRow {
        provider_instance_id: parsed,
        server_url: "https://h".into(),
        opaque_secret_reference: "secret://k".into(),
        compatibility_pin: "0.29.3".into(),
        custom_root_ca_sha256: root,
    }
}

#[test]
fn stored_import_reads_back() {
    let fingerprint = format!("sha256:{}", "00".repeat(32));
    let (id, config) = import_config(row(Ok(instance()), Some(fingerprint.clone()))).unwrap();
    assert_eq!(id, instance());
    let made = headscale("https://h", "secret://k", "0.29.3")
        .unwrap()
        .with_custom_root_ca_sha256(fingerprint)
        .unwrap();
    assert_eq!(config, made);
}

#[test]
fn stored_import_is_checked() {
    assert_eq!(import_config(row(Err("not an id".into()), None)), conflict("not an id"));
    assert_eq!(
        import_config(row(Ok(instance()), Some("md5:0".into()))),
        conflict("custom root CA fingerprint must be canonical sha256")
    );
    let mut bad = row(Ok(instance()), None);
    bad.compatibility_pin = String::new();
    assert_eq!(import_config(bad), conflict("Headscale compatibility pin is invalid"));
}

#[test]
fn names_read_back() {
    for value in [
        ObservationClassification::ExpectedJoining,
        ObservationClassification::DiscoveredUnmanaged,
        ObservationClassification::Active,
        ObservationClassification::ProviderMissing,
        ObservationClassification::ProviderExpired,
        ObservationClassification::ProviderRemoved,
        ObservationClassification::IdentityConflict,
        ObservationClassification::Quarantined,
        ObservationClassification::Revoked,
    ] {
        assert_eq!(parse_classification(classification_name(value)), Ok(value));
    }
    for value in [
        CompatibilityStatus::Compatible,
        CompatibilityStatus::CompatibleWithConstraints,
        CompatibilityStatus::ReadOnlyDegraded,
        CompatibilityStatus::Unsupported,
        CompatibilityStatus::Unreachable,
        CompatibilityStatus::AuthenticationFailed,
    ] {
        assert_eq!(parse_compatibility(compatibility_name(value)), Ok(value));
    }
    for value in [MutationPolicyMode::Database, MutationPolicyMode::File, MutationPolicyMode::Unknown]
    {
        assert_eq!(parse_policy_mode(policy_mode_name(value)), Ok(value));
    }
    for value in [
        RevocationState::Requested,
        RevocationState::ApplicationTrustRemovalPending,
        RevocationState::CredentialRevocationPending,
        RevocationState::KeryxBindingDisablePending,
        RevocationState::ProviderCleanupPending,
        RevocationState::Revoked,
    ] {
        assert_eq!(parse_revocation_state(revocation_name(value)), Ok(value));
    }
    for value in [
        N4CleanupState::Active,
        N4CleanupState::Pending,
        N4CleanupState::Confirmed,
        N4CleanupState::Retryable,
        N4CleanupState::Ambiguous,
        N4CleanupState::Blocked,
        N4CleanupState::Absent,
    ] {
        assert_eq!(parse_cleanup_state(cleanup_name(value)), Ok(value));
    }
}

#[test]
fn names_are_the_stored_ones() {
    assert_eq!(classification_name(ObservationClassification::ProviderMissing), "provider_missing");
    assert_eq!(
        compatibility_name(CompatibilityStatus::CompatibleWithConstraints),
        "compatible_with_constraints"
    );
    assert_eq!(
        mutation_capability_name(ProviderMutationCapability::CreateJoinCredential),
        "CreateJoinCredential"
    );
    assert_eq!(policy_mode_name(MutationPolicyMode::Database), "database");
    assert_eq!(
        revocation_name(RevocationState::KeryxBindingDisablePending),
        "keryxbindingdisablepending"
    );
    assert_eq!(failure_kind_name(FailureKind::Authentication), "authentication");
    assert_eq!(
        audit_kind_name(AuditKind::AdoptionActionConflicted),
        "device.adoption_action_conflicted"
    );
    assert_eq!(audit_outcome_name(AuditOutcome::Failed), "failed");
    assert_eq!(
        audit_outcome_name(AuditOutcome::Provider(FailureKind::Malformed)),
        "malformed"
    );
    assert_eq!(
        parse_adoption_state("pending_device_credential_proof"),
        Ok(AdoptionState::PendingDeviceCredentialProof)
    );
    assert_eq!(parse_dispatch_state("revocation_pending"), DispatchState::RevocationPending);
    assert!(matches!(parse_dispatch_state("odd"), DispatchState::Other(_)));
    assert_eq!(parse_dispatch_state("odd").as_str(), "odd");
}

#[test]
fn unknown_names_are_refused() {
    assert_eq!(
        parse_classification("gone"),
        conflict("unknown provider observation classification")
    );
    assert_eq!(
        parse_adoption_state("gone"),
        conflict("unknown provider observation adoption state")
    );
    assert_eq!(parse_compatibility("gone"), conflict("unknown persisted provider compatibility"));
    assert_eq!(parse_revocation_state("Revoked"), conflict("unknown revocation state"));
    assert_eq!(parse_cleanup_state("gone"), conflict("invalid N4 cleanup state"));
    assert_eq!(
        parse_policy_mode("gone"),
        Err(StateError::MutationAuthorizationDenied("invalid policy mode"))
    );
}
