//! The closed vocabularies of the state and the names under which they are
//! stored.

use crate::error::{conflict, StateError, StateErrorView};
use crate::text::same_text;
use vstd::prelude::*;

verus! {

/// A point at which a failure can be injected.
#[derive(Clone, Copy, Debug, PartialEq, Eq, Structural)]
pub enum Failpoint {
    BeforeAuditInsert,
    BeforeN4ConfirmationAudit,
    BeforeAdoptionExpiryCommit,
}

/// How TLS is verified. There is deliberately no insecure choice.
#[derive(Clone, Copy, Debug, PartialEq, Eq, Structural)]
pub enum TlsVerificationPolicy {
    Verify,
}

/// What became of handing a join credential request to the provider.
#[derive(Clone, Copy, Debug, PartialEq, Eq, Structural)]
pub enum N4DispatchFailure {
    PreDispatch,
    DefiniteNoApply,
    Ambiguous,
}

/// What the provider answered to the invalidation of a join credential.
#[derive(Clone, Copy, Debug, PartialEq, Eq, Structural)]
pub enum N4InvalidationOutcome {
    Confirmed,
    AlreadySatisfied,
    Retryable,
    Ambiguous,
    AuthenticationFailed,
    CompatibilityBlocked,
    Blocked,
}

/// Why a provider call failed.
#[derive(Debug, PartialEq, Eq)]
pub enum ProviderError {
    AuthenticationFailed,
    MalformedResponse(String),
    Conflict(String),
    Unsupported(String),
    Rejected(String),
    Unreachable(String),
    Timeout,
    TlsFailure,
    AmbiguousMutation(String),
}

/// What a provider observation is taken to be.
#[derive(Clone, Copy, Debug, PartialEq, Eq, Structural)]
pub enum ObservationClassification {
    ExpectedJoining,
    DiscoveredUnmanaged,
    Active,
    ProviderMissing,
    ProviderExpired,
    ProviderRemoved,
    IdentityConflict,
    Quarantined,
    Revoked,
}

impl ObservationClassification {
    /// The stored name.
    pub open spec fn text(self) -> Seq<char> {
        match self {
            ObservationClassification::ExpectedJoining => "expected_joining"@,
            ObservationClassification::DiscoveredUnmanaged => "discovered_unmanaged"@,
            ObservationClassification::Active => "active"@,
            ObservationClassification::ProviderMissing => "provider_missing"@,
            ObservationClassification::ProviderExpired => "provider_expired"@,
            ObservationClassification::ProviderRemoved => "provider_removed"@,
            ObservationClassification::IdentityConflict => "identity_conflict"@,
            ObservationClassification::Quarantined => "quarantined"@,
            ObservationClassification::Revoked => "revoked"@,
        }
    }
}

/// The stored name of a classification.
pub fn classification_name(value: ObservationClassification) -> (name: &'static str)
    ensures
        name@ == value.text(),
{
    match value {
        ObservationClassification::ExpectedJoining => "expected_joining",
        ObservationClassification::DiscoveredUnmanaged => "discovered_unmanaged",
        ObservationClassification::Active => "active",
        ObservationClassification::ProviderMissing => "provider_missing",
        ObservationClassification::ProviderExpired => "provider_expired",
        ObservationClassification::ProviderRemoved => "provider_removed",
        ObservationClassification::IdentityConflict => "identity_conflict",
        ObservationClassification::Quarantined => "quarantined",
        ObservationClassification::Revoked => "revoked",
    }
}

/// The value of a stored name of a classification.
pub fn parse_classification(value: &str) -> (result: Result<ObservationClassification, StateError>)
    ensures
        match result {
            Ok(known) => known.text() == value@,
            Err(error) => {
                &&& forall|known: ObservationClassification| #[trigger] known.text() != value@
                &&& error@ == StateErrorView::Conflict("unknown provider observation classification"@)
            },
        },
{
    if same_text(value, "expected_joining") {
        Ok(ObservationClassification::ExpectedJoining)
    } else if same_text(value, "discovered_unmanaged") {
        Ok(ObservationClassification::DiscoveredUnmanaged)
    } else if same_text(value, "active") {
        Ok(ObservationClassification::Active)
    } else if same_text(value, "provider_missing") {
        Ok(ObservationClassification::ProviderMissing)
    } else if same_text(value, "provider_expired") {
        Ok(ObservationClassification::ProviderExpired)
    } else if same_text(value, "provider_removed") {
        Ok(ObservationClassification::ProviderRemoved)
    } else if same_text(value, "identity_conflict") {
        Ok(ObservationClassification::IdentityConflict)
    } else if same_text(value, "quarantined") {
        Ok(ObservationClassification::Quarantined)
    } else if same_text(value, "revoked") {
        Ok(ObservationClassification::Revoked)
    } else {
        Err(conflict("unknown provider observation classification"))
    }
}

/// Different values of `ObservationClassification` have different stored names.
pub proof fn law_observation_classification_names_distinct(left: ObservationClassification, right: ObservationClassification)
    requires
        left.text() == right.text(),
    ensures
        left == right,
{
    reveal_strlit("expected_joining");
    reveal_strlit("discovered_unmanaged");
    reveal_strlit("active");
    reveal_strlit("provider_missing");
    reveal_strlit("provider_expired");
    reveal_strlit("provider_removed");
    reveal_strlit("identity_conflict");
    reveal_strlit("quarantined");
    reveal_strlit("revoked");
    assert("expected_joining"@.len() == 16);
    assert("discovered_unmanaged"@.len() == 20);
    assert("active"@.len() == 6);
    assert("provider_missing"@.len() == 16);
    assert("provider_expired"@.len() == 16);
    assert("provider_removed"@.len() == 16);
    assert("identity_conflict"@.len() == 17);
    assert("quarantined"@.len() == 11);
    assert("revoked"@.len() == 7);
    assert("expected_joining"@[0] != "provider_missing"@[0]);
    assert("expected_joining"@[0] != "provider_expired"@[0]);
    assert("expected_joining"@[0] != "provider_removed"@[0]);
    assert("provider_missing"@[9] != "provider_expired"@[9]);
    assert("provider_missing"@[9] != "provider_removed"@[9]);
    assert("provider_expired"@[9] != "provider_removed"@[9]);
}

/// How far an observation is on its way to a managed device. Adoption is staging
/// only: no value of it creates a trusted device.
#[derive(Clone, Copy, Debug, PartialEq, Eq, Structural)]
pub enum AdoptionState {
    Unmanaged,
    PendingDeviceCredentialProof,
    Adopted,
}

impl AdoptionState {
    /// The stored name.
    pub open spec fn text(self) -> Seq<char> {
        match self {
            AdoptionState::Unmanaged => "unmanaged"@,
            AdoptionState::PendingDeviceCredentialProof => "pending_device_credential_proof"@,
            AdoptionState::Adopted => "adopted"@,
        }
    }
}

/// The value of a stored name of an adoption state.
pub fn parse_adoption_state(value: &str) -> (result: Result<AdoptionState, StateError>)
    ensures
        match result {
            Ok(known) => known.text() == value@,
            Err(error) => {
                &&& forall|known: AdoptionState| #[trigger] known.text() != value@
                &&& error@ == StateErrorView::Conflict("unknown provider observation adoption state"@)
            },
        },
{
    if same_text(value, "unmanaged") {
        Ok(AdoptionState::Unmanaged)
    } else if same_text(value, "pending_device_credential_proof") {
        Ok(AdoptionState::PendingDeviceCredentialProof)
    } else if same_text(value, "adopted") {
        Ok(AdoptionState::Adopted)
    } else {
        Err(conflict("unknown provider observation adoption state"))
    }
}

/// Different values of `AdoptionState` have different stored names.
pub proof fn law_adoption_state_names_distinct(left: AdoptionState, right: AdoptionState)
    requires
        left.text() == right.text(),
    ensures
        left == right,
{
    reveal_strlit("unmanaged");
    reveal_strlit("pending_device_credential_proof");
    reveal_strlit("adopted");
    assert("unmanaged"@.len() == 9);
    assert("pending_device_credential_proof"@.len() == 31);
    assert("adopted"@.len() == 7);
}

/// Whether a provider can be worked with.
#[derive(Clone, Copy, Debug, PartialEq, Eq, Structural)]
pub enum CompatibilityStatus {
    Compatible,
    CompatibleWithConstraints,
    ReadOnlyDegraded,
    Unsupported,
    Unreachable,
    AuthenticationFailed,
}

impl CompatibilityStatus {
    /// The stored name.
    pub open spec fn text(self) -> Seq<char> {
        match self {
            CompatibilityStatus::Compatible => "compatible"@,
            CompatibilityStatus::CompatibleWithConstraints => "compatible_with_constraints"@,
            CompatibilityStatus::ReadOnlyDegraded => "read_only_degraded"@,
            CompatibilityStatus::Unsupported => "unsupported"@,
            CompatibilityStatus::Unreachable => "unreachable"@,
            CompatibilityStatus::AuthenticationFailed => "authentication_failed"@,
        }
    }
}

/// The stored name of a compatibility.
pub fn compatibility_name(value: CompatibilityStatus) -> (name: &'static str)
    ensures
        name@ == value.text(),
{
    match value {
        CompatibilityStatus::Compatible => "compatible",
        CompatibilityStatus::CompatibleWithConstraints => "compatible_with_constraints",
        CompatibilityStatus::ReadOnlyDegraded => "read_only_degraded",
        CompatibilityStatus::Unsupported => "unsupported",
        CompatibilityStatus::Unreachable => "unreachable",
        CompatibilityStatus::AuthenticationFailed => "authentication_failed",
    }
}

/// The value of a stored name of a compatibility.
pub fn parse_compatibility(value: &str) -> (result: Result<CompatibilityStatus, StateError>)
    ensures
        match result {
            Ok(known) => known.text() == value@,
            Err(error) => {
                &&& forall|known: CompatibilityStatus| #[trigger] known.text() != value@
                &&& error@ == StateErrorView::Conflict("unknown persisted provider compatibility"@)
            },
        },
{
    if same_text(value, "compatible") {
        Ok(CompatibilityStatus::Compatible)
    } else if same_text(value, "compatible_with_constraints") {
        Ok(CompatibilityStatus::CompatibleWithConstraints)
    } else if same_text(value, "read_only_degraded") {
        Ok(CompatibilityStatus::ReadOnlyDegraded)
    } else if same_text(value, "unsupported") {
        Ok(CompatibilityStatus::Unsupported)
    } else if same_text(value, "unreachable") {
        Ok(CompatibilityStatus::Unreachable)
    } else if same_text(value, "authentication_failed") {
        Ok(CompatibilityStatus::AuthenticationFailed)
    } else {
        Err(conflict("unknown persisted provider compatibility"))
    }
}

/// Different values of `CompatibilityStatus` have different stored names.
pub proof fn law_compatibility_status_names_distinct(left: CompatibilityStatus, right: CompatibilityStatus)
    requires
        left.text() == right.text(),
    ensures
        left == right,
{
    reveal_strlit("compatible");
    reveal_strlit("compatible_with_constraints");
    reveal_strlit("read_only_degraded");
    reveal_strlit("unsupported");
    reveal_strlit("unreachable");
    reveal_strlit("authentication_failed");
    assert("compatible"@.len() == 10);
    assert("compatible_with_constraints"@.len() == 27);
    assert("read_only_degraded"@.len() == 18);
    assert("unsupported"@.len() == 11);
    assert("unreachable"@.len() == 11);
    assert("authentication_failed"@.len() == 21);
    assert("unsupported"@[2] != "unreachable"@[2]);
}

/// A change that may be made at a provider.
#[derive(Clone, Copy, Debug, PartialEq, Eq, Structural)]
pub enum ProviderMutationCapability {
    EnsureNetworkPrincipal,
    CreateJoinCredential,
    InvalidateJoinCredential,
    ReplaceNodeTags,
    ExpireNode,
    DeleteNode,
    ManagePolicy,
}

impl ProviderMutationCapability {
    /// The stored name.
    pub open spec fn text(self) -> Seq<char> {
        match self {
            ProviderMutationCapability::EnsureNetworkPrincipal => "EnsureNetworkPrincipal"@,
            ProviderMutationCapability::CreateJoinCredential => "CreateJoinCredential"@,
            ProviderMutationCapability::InvalidateJoinCredential => "InvalidateJoinCredential"@,
            ProviderMutationCapability::ReplaceNodeTags => "ReplaceNodeTags"@,
            ProviderMutationCapability::ExpireNode => "ExpireNode"@,
            ProviderMutationCapability::DeleteNode => "DeleteNode"@,
            ProviderMutationCapability::ManagePolicy => "ManagePolicy"@,
        }
    }
}

/// The stored name of a capability.
pub fn mutation_capability_name(value: ProviderMutationCapability) -> (name: &'static str)
    ensures
        name@ == value.text(),
{
    match value {
        ProviderMutationCapability::EnsureNetworkPrincipal => "EnsureNetworkPrincipal",
        ProviderMutationCapability::CreateJoinCredential => "CreateJoinCredential",
        ProviderMutationCapability::InvalidateJoinCredential => "InvalidateJoinCredential",
        ProviderMutationCapability::ReplaceNodeTags => "ReplaceNodeTags",
        ProviderMutationCapability::ExpireNode => "ExpireNode",
        ProviderMutationCapability::DeleteNode => "DeleteNode",
        ProviderMutationCapability::ManagePolicy => "ManagePolicy",
    }
}

/// Different values of `ProviderMutationCapability` have different stored names.
pub proof fn law_provider_mutation_capability_names_distinct(left: ProviderMutationCapability, right: ProviderMutationCapability)
    requires
        left.text() == right.text(),
    ensures
        left == right,
{
    reveal_strlit("EnsureNetworkPrincipal");
    reveal_strlit("CreateJoinCredential");
    reveal_strlit("InvalidateJoinCredential");
    reveal_strlit("ReplaceNodeTags");
    reveal_strlit("ExpireNode");
    reveal_strlit("DeleteNode");
    reveal_strlit("ManagePolicy");
    assert("EnsureNetworkPrincipal"@.len() == 22);
    assert("CreateJoinCredential"@.len() == 20);
    assert("InvalidateJoinCredential"@.len() == 24);
    assert("ReplaceNodeTags"@.len() == 15);
    assert("ExpireNode"@.len() == 10);
    assert("DeleteNode"@.len() == 10);
    assert("ManagePolicy"@.len() == 12);
    assert("ExpireNode"@[0] != "DeleteNode"@[0]);
}

/// Where the provider keeps its policy.
#[derive(Clone, Copy, Debug, PartialEq, Eq, Structural)]
pub enum MutationPolicyMode {
    Database,
    File,
    Unknown,
}

impl MutationPolicyMode {
    /// The stored name.
    pub open spec fn text(self) -> Seq<char> {
        match self {
            MutationPolicyMode::Database => "database"@,
            MutationPolicyMode::File => "file"@,
            MutationPolicyMode::Unknown => "unknown"@,
        }
    }
}

/// The stored name of a policy mode.
pub fn policy_mode_name(value: MutationPolicyMode) -> (name: &'static str)
    ensures
        name@ == value.text(),
{
    match value {
        MutationPolicyMode::Database => "database",
        MutationPolicyMode::File => "file",
        MutationPolicyMode::Unknown => "unknown",
    }
}

/// The value of a stored name of a policy mode.
pub fn parse_policy_mode(value: &str) -> (result: Result<MutationPolicyMode, StateError>)
    ensures
        match result {
            Ok(known) => known.text() == value@,
            Err(error) => {
                &&& forall|known: MutationPolicyMode| #[trigger] known.text() != value@
                &&& error@ == StateErrorView::MutationAuthorizationDenied("invalid policy mode"@)
            },
        },
{
    if same_text(value, "database") {
        Ok(MutationPolicyMode::Database)
    } else if same_text(value, "file") {
        Ok(MutationPolicyMode::File)
    } else if same_text(value, "unknown") {
        Ok(MutationPolicyMode::Unknown)
    } else {
        Err(StateError::MutationAuthorizationDenied("invalid policy mode"))
    }
}

/// Different values of `MutationPolicyMode` have different stored names.
pub proof fn law_mutation_policy_mode_names_distinct(left: MutationPolicyMode, right: MutationPolicyMode)
    requires
        left.text() == right.text(),
    ensures
        left == right,
{
    reveal_strlit("database");
    reveal_strlit("file");
    reveal_strlit("unknown");
    assert("database"@.len() == 8);
    assert("file"@.len() == 4);
    assert("unknown"@.len() == 7);
}

/// How far a revocation is.
#[derive(Clone, Copy, Debug, PartialEq, Eq, Structural)]
pub enum RevocationState {
    Requested,
    ApplicationTrustRemovalPending,
    CredentialRevocationPending,
    KeryxBindingDisablePending,
    ProviderCleanupPending,
    Revoked,
}

impl RevocationState {
    /// The stored name.
    pub open spec fn text(self) -> Seq<char> {
        match self {
            RevocationState::Requested => "requested"@,
            RevocationState::ApplicationTrustRemovalPending => "applicationtrustremovalpending"@,
            RevocationState::CredentialRevocationPending => "credentialrevocationpending"@,
            RevocationState::KeryxBindingDisablePending => "keryxbindingdisablepending"@,
            RevocationState::ProviderCleanupPending => "providercleanuppending"@,
            RevocationState::Revoked => "revoked"@,
        }
    }
}

/// The stored name of a revocation state.
pub fn revocation_name(value: RevocationState) -> (name: &'static str)
    ensures
        name@ == value.text(),
{
    match value {
        RevocationState::Requested => "requested",
        RevocationState::ApplicationTrustRemovalPending => "applicationtrustremovalpending",
        RevocationState::CredentialRevocationPending => "credentialrevocationpending",
        RevocationState::KeryxBindingDisablePending => "keryxbindingdisablepending",
        RevocationState::ProviderCleanupPending => "providercleanuppending",
        RevocationState::Revoked => "revoked",
    }
}

/// The value of a stored name of a revocation state.
pub fn parse_revocation_state(value: &str) -> (result: Result<RevocationState, StateError>)
    ensures
        match result {
            Ok(known) => known.text() == value@,
            Err(error) => {
                &&& forall|known: RevocationState| #[trigger] known.text() != value@
                &&& error@ == StateErrorView::Conflict("unknown revocation state"@)
            },
        },
{
    if same_text(value, "requested") {
        Ok(RevocationState::Requested)
    } else if same_text(value, "applicationtrustremovalpending") {
        Ok(RevocationState::ApplicationTrustRemovalPending)
    } else if same_text(value, "credentialrevocationpending") {
        Ok(RevocationState::CredentialRevocationPending)
    } else if same_text(value, "keryxbindingdisablepending") {
        Ok(RevocationState::KeryxBindingDisablePending)
    } else if same_text(value, "providercleanuppending") {
        Ok(RevocationState::ProviderCleanupPending)
    } else if same_text(value, "revoked") {
        Ok(RevocationState::Revoked)
    } else {
        Err(conflict("unknown revocation state"))
    }
}

/// Different values of `RevocationState` have different stored names.
pub proof fn law_revocation_state_names_distinct(left: RevocationState, right: RevocationState)
    requires
        left.text() == right.text(),
    ensures
        left == right,
{
    reveal_strlit("requested");
    reveal_strlit("applicationtrustremovalpending");
    reveal_strlit("credentialrevocationpending");
    reveal_strlit("keryxbindingdisablepending");
    reveal_strlit("providercleanuppending");
    reveal_strlit("revoked");
    assert("requested"@.len() == 9);
    assert("applicationtrustremovalpending"@.len() == 30);
    assert("credentialrevocationpending"@.len() == 27);
    assert("keryxbindingdisablepending"@.len() == 26);
    assert("providercleanuppending"@.len() == 22);
    assert("revoked"@.len() == 7);
}

/// How far the invalidation of a join credential is.
#[derive(Clone, Copy, Debug, PartialEq, Eq, Structural)]
pub enum N4CleanupState {
    Active,
    Pending,
    Confirmed,
    Retryable,
    Ambiguous,
    Blocked,
    Absent,
}

impl N4CleanupState {
    /// The stored name.
    pub open spec fn text(self) -> Seq<char> {
        match self {
            N4CleanupState::Active => "active"@,
            N4CleanupState::Pending => "pending"@,
            N4CleanupState::Confirmed => "confirmed"@,
            N4CleanupState::Retryable => "retryable"@,
            N4CleanupState::Ambiguous => "ambiguous"@,
            N4CleanupState::Blocked => "blocked"@,
            N4CleanupState::Absent => "none"@,
        }
    }
}

/// The stored name of a cleanup state.
pub fn cleanup_name(value: N4CleanupState) -> (name: &'static str)
    ensures
        name@ == value.text(),
{
    match value {
        N4CleanupState::Active => "active",
        N4CleanupState::Pending => "pending",
        N4CleanupState::Confirmed => "confirmed",
        N4CleanupState::Retryable => "retryable",
        N4CleanupState::Ambiguous => "ambiguous",
        N4CleanupState::Blocked => "blocked",
        N4CleanupState::Absent => "none",
    }
}

/// The value of a stored name of a cleanup state.
pub fn parse_cleanup_state(value: &str) -> (result: Result<N4CleanupState, StateError>)
    ensures
        match result {
            Ok(known) => known.text() == value@,
            Err(error) => {
                &&& forall|known: N4CleanupState| #[trigger] known.text() != value@
                &&& error@ == StateErrorView::Conflict("invalid N4 cleanup state"@)
            },
        },
{
    if same_text(value, "active") {
        Ok(N4CleanupState::Active)
    } else if same_text(value, "pending") {
        Ok(N4CleanupState::Pending)
    } else if same_text(value, "confirmed") {
        Ok(N4CleanupState::Confirmed)
    } else if same_text(value, "retryable") {
        Ok(N4CleanupState::Retryable)
    } else if same_text(value, "ambiguous") {
        Ok(N4CleanupState::Ambiguous)
    } else if same_text(value, "blocked") {
        Ok(N4CleanupState::Blocked)
    } else if same_text(value, "none") {
        Ok(N4CleanupState::Absent)
    } else {
        Err(conflict("invalid N4 cleanup state"))
    }
}

/// Different values of `N4CleanupState` have different stored names.
pub proof fn law_cleanup_state_names_distinct(left: N4CleanupState, right: N4CleanupState)
    requires
        left.text() == right.text(),
    ensures
        left == right,
{
    reveal_strlit("active");
    reveal_strlit("pending");
    reveal_strlit("confirmed");
    reveal_strlit("retryable");
    reveal_strlit("ambiguous");
    reveal_strlit("blocked");
    reveal_strlit("none");
    assert("active"@.len() == 6);
    assert("pending"@.len() == 7);
    assert("confirmed"@.len() == 9);
    assert("retryable"@.len() == 9);
    assert("ambiguous"@.len() == 9);
    assert("blocked"@.len() == 7);
    assert("none"@.len() == 4);
    assert("pending"@[0] != "blocked"@[0]);
    assert("confirmed"@[0] != "retryable"@[0]);
    assert("confirmed"@[0] != "ambiguous"@[0]);
    assert("retryable"@[0] != "ambiguous"@[0]);
}

/// The kinds of failed reconciliation that are recorded.
#[derive(Clone, Copy, Debug, PartialEq, Eq, Structural)]
pub enum FailureKind {
    Unreachable,
    Authentication,
    Incompatible,
    Malformed,
    IdentityConflict,
    State,
}

impl FailureKind {
    /// The stored name.
    pub open spec fn text(self) -> Seq<char> {
        match self {
            FailureKind::Unreachable => "unreachable"@,
            FailureKind::Authentication => "authentication"@,
            FailureKind::Incompatible => "incompatible"@,
            FailureKind::Malformed => "malformed"@,
            FailureKind::IdentityConflict => "identity_conflict"@,
            FailureKind::State => "state"@,
        }
    }
}

/// The stored name of a kind of failure.
pub fn failure_kind_name(value: FailureKind) -> (name: &'static str)
    ensures
        name@ == value.text(),
{
    match value {
        FailureKind::Unreachable => "unreachable",
        FailureKind::Authentication => "authentication",
        FailureKind::Incompatible => "incompatible",
        FailureKind::Malformed => "malformed",
        FailureKind::IdentityConflict => "identity_conflict",
        FailureKind::State => "state",
    }
}

/// The kinds of events that the audit trail records.
#[derive(Clone, Copy, Debug, PartialEq, Eq, Structural)]
pub enum AuditKind {
    NetworkCreated,
    DeviceCreated,
    InvitationCreated,
    InvitationRevoked,
    InvitationExpired,
    JoinCredentialInvalidated,
    InvitationRedemptionStarted,
    RedemptionSessionCreated,
    InvitationRedeemed,
    JoinCredentialIssued,
    InvitationRedemptionFailed,
    InvitationIssued,
    JoinSessionCreated,
    JoinSessionStateChanged,
    RevocationRequested,
    MutationConfigured,
    CredentialReferenceConfirmed,
    MembershipGenerationAdvanced,
    CredentialGenerationAdvanced,
    NetworkImported,
    ReconciliationStarted,
    NodeExpired,
    NodeDiscovered,
    ReconciliationCompleted,
    NodeIdentityConflict,
    NodeChanged,
    NodeMissing,
    ReconciliationFailed,
    AdoptionActionConflicted,
}

impl AuditKind {
    /// The stored name.
    pub open spec fn text(self) -> Seq<char> {
        match self {
            AuditKind::NetworkCreated => "network.created"@,
            AuditKind::DeviceCreated => "device.created"@,
            AuditKind::InvitationCreated => "invitation_created"@,
            AuditKind::InvitationRevoked => "invitation_revoked"@,
            AuditKind::InvitationExpired => "invitation_expired"@,
            AuditKind::JoinCredentialInvalidated => "provider_join_credential_invalidated"@,
            AuditKind::InvitationRedemptionStarted => "invitation_redemption_started"@,
            AuditKind::RedemptionSessionCreated => "join_session_created"@,
            AuditKind::InvitationRedeemed => "invitation_redeemed"@,
            AuditKind::JoinCredentialIssued => "provider_join_credential_issued"@,
            AuditKind::InvitationRedemptionFailed => "invitation_redemption_failed"@,
            AuditKind::InvitationIssued => "invitation.issued"@,
            AuditKind::JoinSessionCreated => "join_session.created"@,
            AuditKind::JoinSessionStateChanged => "join_session.state_changed"@,
            AuditKind::RevocationRequested => "revocation.requested"@,
            AuditKind::MutationConfigured => "provider_mutation_configured"@,
            AuditKind::CredentialReferenceConfirmed => "provider_credential_reference.confirmed"@,
            AuditKind::MembershipGenerationAdvanced => "membership.generation.advanced"@,
            AuditKind::CredentialGenerationAdvanced => "device.credential_generation.advanced"@,
            AuditKind::NetworkImported => "network_imported"@,
            AuditKind::ReconciliationStarted => "provider_reconciliation_started"@,
            AuditKind::NodeExpired => "provider_node_expired"@,
            AuditKind::NodeDiscovered => "provider_node_discovered"@,
            AuditKind::ReconciliationCompleted => "provider_reconciliation_completed"@,
            AuditKind::NodeIdentityConflict => "provider_identity_conflict"@,
            AuditKind::NodeChanged => "provider_node_changed"@,
            AuditKind::NodeMissing => "provider_node_missing"@,
            AuditKind::ReconciliationFailed => "provider_reconciliation_failed"@,
            AuditKind::AdoptionActionConflicted => "device.adoption_action_conflicted"@,
        }
    }
}

/// The stored name of an audit event.
pub fn audit_kind_name(value: AuditKind) -> (name: &'static str)
    ensures
        name@ == value.text(),
{
    match value {
        AuditKind::NetworkCreated => "network.created",
        AuditKind::DeviceCreated => "device.created",
        AuditKind::InvitationCreated => "invitation_created",
        AuditKind::InvitationRevoked => "invitation_revoked",
        AuditKind::InvitationExpired => "invitation_expired",
        AuditKind::JoinCredentialInvalidated => "provider_join_credential_invalidated",
        AuditKind::InvitationRedemptionStarted => "invitation_redemption_started",
        AuditKind::RedemptionSessionCreated => "join_session_created",
        AuditKind::InvitationRedeemed => "invitation_redeemed",
        AuditKind::JoinCredentialIssued => "provider_join_credential_issued",
        AuditKind::InvitationRedemptionFailed => "invitation_redemption_failed",
        AuditKind::InvitationIssued => "invitation.issued",
        AuditKind::JoinSessionCreated => "join_session.created",
        AuditKind::JoinSessionStateChanged => "join_session.state_changed",
        AuditKind::RevocationRequested => "revocation.requested",
        AuditKind::MutationConfigured => "provider_mutation_configured",
        AuditKind::CredentialReferenceConfirmed => "provider_credential_reference.confirmed",
        AuditKind::MembershipGenerationAdvanced => "membership.generation.advanced",
        AuditKind::CredentialGenerationAdvanced => "device.credential_generation.advanced",
        AuditKind::NetworkImported => "network_imported",
        AuditKind::ReconciliationStarted => "provider_reconciliation_started",
        AuditKind::NodeExpired => "provider_node_expired",
        AuditKind::NodeDiscovered => "provider_node_discovered",
        AuditKind::ReconciliationCompleted => "provider_reconciliation_completed",
        AuditKind::NodeIdentityConflict => "provider_identity_conflict",
        AuditKind::NodeChanged => "provider_node_changed",
        AuditKind::NodeMissing => "provider_node_missing",
        AuditKind::ReconciliationFailed => "provider_reconciliation_failed",
        AuditKind::AdoptionActionConflicted => "device.adoption_action_conflicted",
    }
}

/// How an audited action ended.
#[derive(Clone, Copy, Debug, PartialEq, Eq, Structural)]
pub enum AuditOutcome {
    Success,
    Failed,
    Provider(FailureKind),
}

impl AuditOutcome {
    /// The recorded name.
    pub open spec fn text(self) -> Seq<char> {
        match self {
            AuditOutcome::Success => "success"@,
            AuditOutcome::Failed => "failed"@,
            AuditOutcome::Provider(kind) => kind.text(),
        }
    }
}

/// The recorded name of an outcome.
pub fn audit_outcome_name(value: AuditOutcome) -> (name: &'static str)
    ensures
        name@ == value.text(),
{
    match value {
        AuditOutcome::Success => "success",
        AuditOutcome::Failed => "failed",
        AuditOutcome::Provider(kind) => failure_kind_name(kind),
    }
}

/// Why a join credential is cleaned up.
#[derive(Clone, Copy, Debug, PartialEq, Eq, Structural)]
pub enum N4CleanupIntent {
    Revoked,
    Expired,
}

impl N4CleanupIntent {
    /// The name used in the identifiers of audited actions.
    pub open spec fn text(self) -> Seq<char> {
        match self {
            N4CleanupIntent::Revoked => "Revoked"@,
            N4CleanupIntent::Expired => "Expired"@,
        }
    }

    /// The name used in the identifiers of audited actions.
    pub fn name(self) -> (name: &'static str)
        ensures
            name@ == self.text(),
    {
        match self {
            N4CleanupIntent::Revoked => "Revoked",
            N4CleanupIntent::Expired => "Expired",
        }
    }
}

/// How the provider of a network is doing, as last recorded.
#[derive(Clone, Copy, Debug, PartialEq, Eq, Structural)]
pub enum ProviderReconciliationState {
    NeverReconciled,
    Healthy,
    Unreachable,
    AuthenticationFailed,
    Incompatible,
    Malformed,
    IdentityConflict,
    StateFailure,
}

/// The names by which this library tells the states of an invitation apart.
pub open spec fn is_invitation_state_name(name: Seq<char>) -> bool {
    ||| name == "Issued"@
    ||| name == "Redeeming"@
    ||| name == "Consumed"@
    ||| name == "Failed"@
    ||| name == "Revoking"@
    ||| name == "Revoked"@
    ||| name == "Expiring"@
    ||| name == "Expired"@
}

/// The name of a state of an invitation that this library does not tell apart.
#[derive(Debug, PartialEq, Eq)]
pub struct OtherInvitationState {
    name: String,
}

impl OtherInvitationState {
    #[verifier::type_invariant]
    spec fn unlisted(self) -> bool {
        !is_invitation_state_name(self.name@)
    }

    /// The name.
    pub closed spec fn name(self) -> Seq<char> {
        self.name@
    }

    /// The name, which is none of those that are told apart.
    pub fn as_str(&self) -> (name: &str)
        ensures
            name@ == self.name(),
            !is_invitation_state_name(name@),
    {
        proof {
            use_type_invariant(self);
        }
        self.name.as_str()
    }
}

impl Clone for OtherInvitationState {
    fn clone(&self) -> (copy: Self)
        ensures
            copy == *self,
    {
        proof {
            use_type_invariant(self);
        }
        OtherInvitationState { name: self.name.clone() }
    }
}

/// The state of an invitation.
#[derive(Debug, PartialEq, Eq)]
pub enum InvitationState {
    Issued,
    Redeeming,
    Consumed,
    Failed,
    Revoking,
    Revoked,
    Expiring,
    Expired,
    /// A state that this library does not tell apart, by its name.
    Other(OtherInvitationState),
}

impl InvitationState {
    /// The state of the given name.
    pub fn named(name: &str) -> (state: Self)
        ensures
            state.text() == name@,
            state is Other <==> !is_invitation_state_name(name@),
    {
        if same_text(name, "Issued") {
            InvitationState::Issued
        } else if same_text(name, "Redeeming") {
            InvitationState::Redeeming
        } else if same_text(name, "Consumed") {
            InvitationState::Consumed
        } else if same_text(name, "Failed") {
            InvitationState::Failed
        } else if same_text(name, "Revoking") {
            InvitationState::Revoking
        } else if same_text(name, "Revoked") {
            InvitationState::Revoked
        } else if same_text(name, "Expiring") {
            InvitationState::Expiring
        } else if same_text(name, "Expired") {
            InvitationState::Expired
        } else {
            InvitationState::Other(OtherInvitationState { name: name.to_owned() })
        }
    }

    /// The name of the state.
    pub open spec fn text(self) -> Seq<char> {
        match self {
            InvitationState::Issued => "Issued"@,
            InvitationState::Redeeming => "Redeeming"@,
            InvitationState::Consumed => "Consumed"@,
            InvitationState::Failed => "Failed"@,
            InvitationState::Revoking => "Revoking"@,
            InvitationState::Revoked => "Revoked"@,
            InvitationState::Expiring => "Expiring"@,
            InvitationState::Expired => "Expired"@,
            InvitationState::Other(other) => other.name(),
        }
    }

    /// The name of the state.
    pub fn as_str(&self) -> (name: &str)
        ensures
            name@ == self.text(),
    {
        match self {
            InvitationState::Issued => "Issued",
            InvitationState::Redeeming => "Redeeming",
            InvitationState::Consumed => "Consumed",
            InvitationState::Failed => "Failed",
            InvitationState::Revoking => "Revoking",
            InvitationState::Revoked => "Revoked",
            InvitationState::Expiring => "Expiring",
            InvitationState::Expired => "Expired",
            InvitationState::Other(other) => other.as_str(),
        }
    }
}

impl Clone for InvitationState {
    fn clone(&self) -> (copy: Self)
        ensures
            copy == *self,
    {
        match self {
            InvitationState::Issued => InvitationState::Issued,
            InvitationState::Redeeming => InvitationState::Redeeming,
            InvitationState::Consumed => InvitationState::Consumed,
            InvitationState::Failed => InvitationState::Failed,
            InvitationState::Revoking => InvitationState::Revoking,
            InvitationState::Revoked => InvitationState::Revoked,
            InvitationState::Expiring => InvitationState::Expiring,
            InvitationState::Expired => InvitationState::Expired,
            InvitationState::Other(other) => InvitationState::Other(other.clone()),
        }
    }
}

/// The names by which this library tells the states of a join session apart.
pub open spec fn is_join_session_state_name(name: Seq<char>) -> bool {
    ||| name == "InvitationValidated"@
    ||| name == "ProviderCredentialIssuing"@
    ||| name == "ProviderCredentialIssued"@
    ||| name == "ProviderCredentialAmbiguous"@
    ||| name == "ProviderCredentialRevocationPending"@
    ||| name == "Revoked"@
    ||| name == "Expired"@
    ||| name == "Failed"@
}

/// The name of a state of a join session that this library does not tell apart.
#[derive(Debug, PartialEq, Eq)]
pub struct OtherJoinSessionState {
    name: String,
}

impl OtherJoinSessionState {
    #[verifier::type_invariant]
    spec fn unlisted(self) -> bool {
        !is_join_session_state_name(self.name@)
    }

    /// The name.
    pub closed spec fn name(self) -> Seq<char> {
        self.name@
    }

    /// The name, which is none of those that are told apart.
    pub fn as_str(&self) -> (name: &str)
        ensures
            name@ == self.name(),
            !is_join_session_state_name(name@),
    {
        proof {
            use_type_invariant(self);
        }
        self.name.as_str()
    }
}

impl Clone for OtherJoinSessionState {
    fn clone(&self) -> (copy: Self)
        ensures
            copy == *self,
    {
        proof {
            use_type_invariant(self);
        }
        OtherJoinSessionState { name: self.name.clone() }
    }
}

/// The state of a join session.
#[derive(Debug, PartialEq, Eq)]
pub enum JoinSessionState {
    InvitationValidated,
    ProviderCredentialIssuing,
    ProviderCredentialIssued,
    ProviderCredentialAmbiguous,
    ProviderCredentialRevocationPending,
    Revoked,
    Expired,
    Failed,
    /// A state that this library does not tell apart, by its name.
    Other(OtherJoinSessionState),
}

impl JoinSessionState {
    /// The state of the given name.
    pub fn named(name: &str) -> (state: Self)
        ensures
            state.text() == name@,
            state is Other <==> !is_join_session_state_name(name@),
    {
        if same_text(name, "InvitationValidated") {
            JoinSessionState::InvitationValidated
        } else if same_text(name, "ProviderCredentialIssuing") {
            JoinSessionState::ProviderCredentialIssuing
        } else if same_text(name, "ProviderCredentialIssued") {
            JoinSessionState::ProviderCredentialIssued
        } else if same_text(name, "ProviderCredentialAmbiguous") {
            JoinSessionState::ProviderCredentialAmbiguous
        } else if same_text(name, "ProviderCredentialRevocationPending") {
            JoinSessionState::ProviderCredentialRevocationPending
        } else if same_text(name, "Revoked") {
            JoinSessionState::Revoked
        } else if same_text(name, "Expired") {
            JoinSessionState::Expired
        } else if same_text(name, "Failed") {
            JoinSessionState::Failed
        } else {
            JoinSessionState::Other(OtherJoinSessionState { name: name.to_owned() })
        }
    }

    /// The name of the state.
    pub open spec fn text(self) -> Seq<char> {
        match self {
            JoinSessionState::InvitationValidated => "InvitationValidated"@,
            JoinSessionState::ProviderCredentialIssuing => "ProviderCredentialIssuing"@,
            JoinSessionState::ProviderCredentialIssued => "ProviderCredentialIssued"@,
            JoinSessionState::ProviderCredentialAmbiguous => "ProviderCredentialAmbiguous"@,
            JoinSessionState::ProviderCredentialRevocationPending => "ProviderCredentialRevocationPending"@,
            JoinSessionState::Revoked => "Revoked"@,
            JoinSessionState::Expired => "Expired"@,
            JoinSessionState::Failed => "Failed"@,
            JoinSessionState::Other(other) => other.name(),
        }
    }

    /// The name of the state.
    pub fn as_str(&self) -> (name: &str)
        ensures
            name@ == self.text(),
    {
        match self {
            JoinSessionState::InvitationValidated => "InvitationValidated",
            JoinSessionState::ProviderCredentialIssuing => "ProviderCredentialIssuing",
            JoinSessionState::ProviderCredentialIssued => "ProviderCredentialIssued",
            JoinSessionState::ProviderCredentialAmbiguous => "ProviderCredentialAmbiguous",
            JoinSessionState::ProviderCredentialRevocationPending => "ProviderCredentialRevocationPending",
            JoinSessionState::Revoked => "Revoked",
            JoinSessionState::Expired => "Expired",
            JoinSessionState::Failed => "Failed",
            JoinSessionState::Other(other) => other.as_str(),
        }
    }
}

impl Clone for JoinSessionState {
    fn clone(&self) -> (copy: Self)
        ensures
            copy == *self,
    {
        match self {
            JoinSessionState::InvitationValidated => JoinSessionState::InvitationValidated,
            JoinSessionState::ProviderCredentialIssuing => JoinSessionState::ProviderCredentialIssuing,
            JoinSessionState::ProviderCredentialIssued => JoinSessionState::ProviderCredentialIssued,
            JoinSessionState::ProviderCredentialAmbiguous => JoinSessionState::ProviderCredentialAmbiguous,
            JoinSessionState::ProviderCredentialRevocationPending => JoinSessionState::ProviderCredentialRevocationPending,
            JoinSessionState::Revoked => JoinSessionState::Revoked,
            JoinSessionState::Expired => JoinSessionState::Expired,
            JoinSessionState::Failed => JoinSessionState::Failed,
            JoinSessionState::Other(other) => JoinSessionState::Other(other.clone()),
        }
    }
}

/// The names by which this library tells the states of a device in its network apart.
pub open spec fn is_membership_state_name(name: Seq<char>) -> bool {
    ||| name == "Active"@
    ||| name == "Suspended"@
    ||| name == "Revoking"@
}

/// The name of a state of a device in its network that this library does not tell apart.
#[derive(Debug, PartialEq, Eq)]
pub struct OtherMembershipState {
    name: String,
}

impl OtherMembershipState {
    #[verifier::type_invariant]
    spec fn unlisted(self) -> bool {
        !is_membership_state_name(self.name@)
    }

    /// The name.
    pub closed spec fn name(self) -> Seq<char> {
        self.name@
    }

    /// The name, which is none of those that are told apart.
    pub fn as_str(&self) -> (name: &str)
        ensures
            name@ == self.name(),
            !is_membership_state_name(name@),
    {
        proof {
            use_type_invariant(self);
        }
        self.name.as_str()
    }
}

impl Clone for OtherMembershipState {
    fn clone(&self) -> (copy: Self)
        ensures
            copy == *self,
    {
        proof {
            use_type_invariant(self);
        }
        OtherMembershipState { name: self.name.clone() }
    }
}

/// The state of a device in its network.
#[derive(Debug, PartialEq, Eq)]
pub enum MembershipState {
    Active,
    Suspended,
    Revoking,
    /// A state that this library does not tell apart, by its name.
    Other(OtherMembershipState),
}

impl MembershipState {
    /// The state of the given name.
    pub fn named(name: &str) -> (state: Self)
        ensures
            state.text() == name@,
            state is Other <==> !is_membership_state_name(name@),
    {
        if same_text(name, "Active") {
            MembershipState::Active
        } else if same_text(name, "Suspended") {
            MembershipState::Suspended
        } else if same_text(name, "Revoking") {
            MembershipState::Revoking
        } else {
            MembershipState::Other(OtherMembershipState { name: name.to_owned() })
        }
    }

    /// The name of the state.
    pub open spec fn text(self) -> Seq<char> {
        match self {
            MembershipState::Active => "Active"@,
            MembershipState::Suspended => "Suspended"@,
            MembershipState::Revoking => "Revoking"@,
            MembershipState::Other(other) => other.name(),
        }
    }

    /// The name of the state.
    pub fn as_str(&self) -> (name: &str)
        ensures
            name@ == self.text(),
    {
        match self {
            MembershipState::Active => "Active",
            MembershipState::Suspended => "Suspended",
            MembershipState::Revoking => "Revoking",
            MembershipState::Other(other) => other.as_str(),
        }
    }
}

impl Clone for MembershipState {
    fn clone(&self) -> (copy: Self)
        ensures
            copy == *self,
    {
        match self {
            MembershipState::Active => MembershipState::Active,
            MembershipState::Suspended => MembershipState::Suspended,
            MembershipState::Revoking => MembershipState::Revoking,
            MembershipState::Other(other) => MembershipState::Other(other.clone()),
        }
    }
}

/// The names by which this library tells the products behind a provider apart.
pub open spec fn is_provider_kind_name(name: Seq<char>) -> bool {
    ||| name == "Headscale"@
    ||| name == "Tailscale"@
}

/// The name of a product behind a provider that this library does not tell apart.
#[derive(Debug, PartialEq, Eq)]
pub struct OtherProviderKind {
    name: String,
}

impl OtherProviderKind {
    #[verifier::type_invariant]
    spec fn unlisted(self) -> bool {
        !is_provider_kind_name(self.name@)
    }

    /// The name.
    pub closed spec fn name(self) -> Seq<char> {
        self.name@
    }

    /// The name, which is none of those that are told apart.
    pub fn as_str(&self) -> (name: &str)
        ensures
            name@ == self.name(),
            !is_provider_kind_name(name@),
    {
        proof {
            use_type_invariant(self);
        }
        self.name.as_str()
    }
}

impl Clone for OtherProviderKind {
    fn clone(&self) -> (copy: Self)
        ensures
            copy == *self,
    {
        proof {
            use_type_invariant(self);
        }
        OtherProviderKind { name: self.name.clone() }
    }
}

/// The product behind a provider.
#[derive(Debug, PartialEq, Eq)]
pub enum ProviderKind {
    Headscale,
    Tailscale,
    /// A product that this library does not tell apart, by its name.
    Other(OtherProviderKind),
}

impl ProviderKind {
    /// The product of the given name.
    pub fn named(name: &str) -> (product: Self)
        ensures
            product.text() == name@,
            product is Other <==> !is_provider_kind_name(name@),
    {
        if same_text(name, "Headscale") {
            ProviderKind::Headscale
        } else if same_text(name, "Tailscale") {
            ProviderKind::Tailscale
        } else {
            ProviderKind::Other(OtherProviderKind { name: name.to_owned() })
        }
    }

    /// The name of the product.
    pub open spec fn text(self) -> Seq<char> {
        match self {
            ProviderKind::Headscale => "Headscale"@,
            ProviderKind::Tailscale => "Tailscale"@,
            ProviderKind::Other(other) => other.name(),
        }
    }

    /// The name of the product.
    pub fn as_str(&self) -> (name: &str)
        ensures
            name@ == self.text(),
    {
        match self {
            ProviderKind::Headscale => "Headscale",
            ProviderKind::Tailscale => "Tailscale",
            ProviderKind::Other(other) => other.as_str(),
        }
    }
}

impl Clone for ProviderKind {
    fn clone(&self) -> (copy: Self)
        ensures
            copy == *self,
    {
        match self {
            ProviderKind::Headscale => ProviderKind::Headscale,
            ProviderKind::Tailscale => ProviderKind::Tailscale,
            ProviderKind::Other(other) => ProviderKind::Other(other.clone()),
        }
    }
}

/// The stored names by which this library tells the states of a join credential request apart.
pub open spec fn is_dispatch_state_name(name: Seq<char>) -> bool {
    ||| name == "reserved"@
    ||| name == "dispatch_started"@
    ||| name == "ambiguous"@
    ||| name == "confirmed"@
    ||| name == "revocation_pending"@
    ||| name == "failed_pre_dispatch"@
    ||| name == "failed_no_apply"@
    ||| name == "revoked"@
    ||| name == "expired"@
}

/// The stored name of a state of a join credential request that this library does not tell apart.
#[derive(Debug, PartialEq, Eq)]
pub struct OtherDispatchState {
    name: String,
}

impl OtherDispatchState {
    #[verifier::type_invariant]
    spec fn unlisted(self) -> bool {
        !is_dispatch_state_name(self.name@)
    }

    /// The stored name.
    pub closed spec fn name(self) -> Seq<char> {
        self.name@
    }

    /// The stored name, which is none of those that are told apart.
    pub fn as_str(&self) -> (name: &str)
        ensures
            name@ == self.name(),
            !is_dispatch_state_name(name@),
    {
        proof {
            use_type_invariant(self);
        }
        self.name.as_str()
    }
}

impl Clone for OtherDispatchState {
    fn clone(&self) -> (copy: Self)
        ensures
            copy == *self,
    {
        proof {
            use_type_invariant(self);
        }
        OtherDispatchState { name: self.name.clone() }
    }
}

/// How far a join credential request is on its way to the provider.
#[derive(Debug, PartialEq, Eq)]
pub enum DispatchState {
    Reserved,
    DispatchStarted,
    Ambiguous,
    Confirmed,
    RevocationPending,
    FailedPreDispatch,
    FailedNoApply,
    Revoked,
    Expired,
    /// A state that this library does not tell apart, by its stored name.
    Other(OtherDispatchState),
}

impl DispatchState {
    /// The stored name of the state.
    pub open spec fn text(self) -> Seq<char> {
        match self {
            DispatchState::Reserved => "reserved"@,
            DispatchState::DispatchStarted => "dispatch_started"@,
            DispatchState::Ambiguous => "ambiguous"@,
            DispatchState::Confirmed => "confirmed"@,
            DispatchState::RevocationPending => "revocation_pending"@,
            DispatchState::FailedPreDispatch => "failed_pre_dispatch"@,
            DispatchState::FailedNoApply => "failed_no_apply"@,
            DispatchState::Revoked => "revoked"@,
            DispatchState::Expired => "expired"@,
            DispatchState::Other(other) => other.name(),
        }
    }

    /// The stored name of the state.
    pub fn as_str(&self) -> (name: &str)
        ensures
            name@ == self.text(),
    {
        match self {
            DispatchState::Reserved => "reserved",
            DispatchState::DispatchStarted => "dispatch_started",
            DispatchState::Ambiguous => "ambiguous",
            DispatchState::Confirmed => "confirmed",
            DispatchState::RevocationPending => "revocation_pending",
            DispatchState::FailedPreDispatch => "failed_pre_dispatch",
            DispatchState::FailedNoApply => "failed_no_apply",
            DispatchState::Revoked => "revoked",
            DispatchState::Expired => "expired",
            DispatchState::Other(other) => other.as_str(),
        }
    }
}

impl Clone for DispatchState {
    fn clone(&self) -> (copy: Self)
        ensures
            copy == *self,
    {
        match self {
            DispatchState::Reserved => DispatchState::Reserved,
            DispatchState::DispatchStarted => DispatchState::DispatchStarted,
            DispatchState::Ambiguous => DispatchState::Ambiguous,
            DispatchState::Confirmed => DispatchState::Confirmed,
            DispatchState::RevocationPending => DispatchState::RevocationPending,
            DispatchState::FailedPreDispatch => DispatchState::FailedPreDispatch,
            DispatchState::FailedNoApply => DispatchState::FailedNoApply,
            DispatchState::Revoked => DispatchState::Revoked,
            DispatchState::Expired => DispatchState::Expired,
            DispatchState::Other(other) => DispatchState::Other(other.clone()),
        }
    }
}

/// The state of the given stored name.
pub fn parse_dispatch_state(value: &str) -> (state: DispatchState)
    ensures
        state.text() == value@,
        state is Other <==> !is_dispatch_state_name(value@),
{
    if same_text(value, "reserved") {
        DispatchState::Reserved
    } else if same_text(value, "dispatch_started") {
        DispatchState::DispatchStarted
    } else if same_text(value, "ambiguous") {
        DispatchState::Ambiguous
    } else if same_text(value, "confirmed") {
        DispatchState::Confirmed
    } else if same_text(value, "revocation_pending") {
        DispatchState::RevocationPending
    } else if same_text(value, "failed_pre_dispatch") {
        DispatchState::FailedPreDispatch
    } else if same_text(value, "failed_no_apply") {
        DispatchState::FailedNoApply
    } else if same_text(value, "revoked") {
        DispatchState::Revoked
    } else if same_text(value, "expired") {
        DispatchState::Expired
    } else {
        DispatchState::Other(OtherDispatchState { name: value.to_owned() })
    }
}

} // verus!
