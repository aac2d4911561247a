//! The names under which kinds and states are stored and shown.

use crate::names::{
    is_dispatch_state_name, is_invitation_state_name, is_join_session_state_name,
    is_membership_state_name, is_provider_kind_name, AdoptionState, AuditKind, AuditOutcome,
    CompatibilityStatus, DispatchState, FailureKind, InvitationState, JoinSessionState,
    MembershipState, MutationPolicyMode, N4CleanupIntent, N4CleanupState, ObservationClassification,
    ProviderKind, ProviderMutationCapability, RevocationState,
};
use vstd::prelude::*;

verus! {

/// The name of every observation classification that is told apart.
pub proof fn law_observation_classification_names(value: ObservationClassification)
    ensures
        value == ObservationClassification::ExpectedJoining ==> value.text() == "expected_joining"@,
        value == ObservationClassification::DiscoveredUnmanaged ==> value.text()
            == "discovered_unmanaged"@,
        value == ObservationClassification::Active ==> value.text() == "active"@,
        value == ObservationClassification::ProviderMissing ==> value.text() == "provider_missing"@,
        value == ObservationClassification::ProviderExpired ==> value.text() == "provider_expired"@,
        value == ObservationClassification::ProviderRemoved ==> value.text() == "provider_removed"@,
        value == ObservationClassification::IdentityConflict ==> value.text()
            == "identity_conflict"@,
        value == ObservationClassification::Quarantined ==> value.text() == "quarantined"@,
        value == ObservationClassification::Revoked ==> value.text() == "revoked"@,
{
}

/// The name of every adoption state that is told apart.
pub proof fn law_adoption_state_names(value: AdoptionState)
    ensures
        value == AdoptionState::Unmanaged ==> value.text() == "unmanaged"@,
        value == AdoptionState::PendingDeviceCredentialProof ==> value.text()
            == "pending_device_credential_proof"@,
        value == AdoptionState::Adopted ==> value.text() == "adopted"@,
{
}

/// The name of every compatibility status that is told apart.
pub proof fn law_compatibility_status_names(value: CompatibilityStatus)
    ensures
        value == CompatibilityStatus::Compatible ==> value.text() == "compatible"@,
        value == CompatibilityStatus::CompatibleWithConstraints ==> value.text()
            == "compatible_with_constraints"@,
        value == CompatibilityStatus::ReadOnlyDegraded ==> value.text() == "read_only_degraded"@,
        value == CompatibilityStatus::Unsupported ==> value.text() == "unsupported"@,
        value == CompatibilityStatus::Unreachable ==> value.text() == "unreachable"@,
        value == CompatibilityStatus::AuthenticationFailed ==> value.text()
            == "authentication_failed"@,
{
}

/// The name of every provider mutation capability that is told apart.
pub proof fn law_provider_mutation_capability_names(value: ProviderMutationCapability)
    ensures
        value == ProviderMutationCapability::EnsureNetworkPrincipal ==> value.text()
            == "EnsureNetworkPrincipal"@,
        value == ProviderMutationCapability::CreateJoinCredential ==> value.text()
            == "CreateJoinCredential"@,
        value == ProviderMutationCapability::InvalidateJoinCredential ==> value.text()
            == "InvalidateJoinCredential"@,
        value == ProviderMutationCapability::ReplaceNodeTags ==> value.text() == "ReplaceNodeTags"@,
        value == ProviderMutationCapability::ExpireNode ==> value.text() == "ExpireNode"@,
        value == ProviderMutationCapability::DeleteNode ==> value.text() == "DeleteNode"@,
        value == ProviderMutationCapability::ManagePolicy ==> value.text() == "ManagePolicy"@,
{
}

/// The name of every mutation policy mode that is told apart.
pub proof fn law_mutation_policy_mode_names(value: MutationPolicyMode)
    ensures
        value == MutationPolicyMode::Database ==> value.text() == "database"@,
        value == MutationPolicyMode::File ==> value.text() == "file"@,
        value == MutationPolicyMode::Unknown ==> value.text() == "unknown"@,
{
}

/// The name of every revocation state that is told apart.
pub proof fn law_revocation_state_names(value: RevocationState)
    ensures
        value == RevocationState::Requested ==> value.text() == "requested"@,
        value == RevocationState::ApplicationTrustRemovalPending ==> value.text()
            == "applicationtrustremovalpending"@,
        value == RevocationState::CredentialRevocationPending ==> value.text()
            == "credentialrevocationpending"@,
        value == RevocationState::KeryxBindingDisablePending ==> value.text()
            == "keryxbindingdisablepending"@,
        value == RevocationState::ProviderCleanupPending ==> value.text()
            == "providercleanuppending"@,
        value == RevocationState::Revoked ==> value.text() == "revoked"@,
{
}

/// The name of every cleanup state that is told apart.
pub proof fn law_n4_cleanup_state_names(value: N4CleanupState)
    ensures
        value == N4CleanupState::Active ==> value.text() == "active"@,
        value == N4CleanupState::Pending ==> value.text() == "pending"@,
        value == N4CleanupState::Confirmed ==> value.text() == "confirmed"@,
        value == N4CleanupState::Retryable ==> value.text() == "retryable"@,
        value == N4CleanupState::Ambiguous ==> value.text() == "ambiguous"@,
        value == N4CleanupState::Blocked ==> value.text() == "blocked"@,
        value == N4CleanupState::Absent ==> value.text() == "none"@,
{
}

/// The name of every failure kind that is told apart.
pub proof fn law_failure_kind_names(value: FailureKind)
    ensures
        value == FailureKind::Unreachable ==> value.text() == "unreachable"@,
        value == FailureKind::Authentication ==> value.text() == "authentication"@,
        value == FailureKind::Incompatible ==> value.text() == "incompatible"@,
        value == FailureKind::Malformed ==> value.text() == "malformed"@,
        value == FailureKind::IdentityConflict ==> value.text() == "identity_conflict"@,
        value == FailureKind::State ==> value.text() == "state"@,
{
}

/// The name of every audit kind that is told apart.
pub proof fn law_audit_kind_names(value: AuditKind)
    ensures
        value == AuditKind::NetworkCreated ==> value.text() == "network.created"@,
        value == AuditKind::DeviceCreated ==> value.text() == "device.created"@,
        value == AuditKind::InvitationCreated ==> value.text() == "invitation_created"@,
        value == AuditKind::InvitationRevoked ==> value.text() == "invitation_revoked"@,
        value == AuditKind::InvitationExpired ==> value.text() == "invitation_expired"@,
        value == AuditKind::JoinCredentialInvalidated ==> value.text()
            == "provider_join_credential_invalidated"@,
        value == AuditKind::InvitationRedemptionStarted ==> value.text()
            == "invitation_redemption_started"@,
        value == AuditKind::RedemptionSessionCreated ==> value.text() == "join_session_created"@,
        value == AuditKind::InvitationRedeemed ==> value.text() == "invitation_redeemed"@,
        value == AuditKind::JoinCredentialIssued ==> value.text()
            == "provider_join_credential_issued"@,
        value == AuditKind::InvitationRedemptionFailed ==> value.text()
            == "invitation_redemption_failed"@,
        value == AuditKind::InvitationIssued ==> value.text() == "invitation.issued"@,
        value == AuditKind::JoinSessionCreated ==> value.text() == "join_session.created"@,
        value == AuditKind::JoinSessionStateChanged ==> value.text()
            == "join_session.state_changed"@,
        value == AuditKind::RevocationRequested ==> value.text() == "revocation.requested"@,
        value == AuditKind::MutationConfigured ==> value.text() == "provider_mutation_configured"@,
        value == AuditKind::CredentialReferenceConfirmed ==> value.text()
            == "provider_credential_reference.confirmed"@,
        value == AuditKind::MembershipGenerationAdvanced ==> value.text()
            == "membership.generation.advanced"@,
        value == AuditKind::CredentialGenerationAdvanced ==> value.text()
            == "device.credential_generation.advanced"@,
        value == AuditKind::NetworkImported ==> value.text() == "network_imported"@,
        value == AuditKind::ReconciliationStarted ==> value.text()
            == "provider_reconciliation_started"@,
        value == AuditKind::NodeExpired ==> value.text() == "provider_node_expired"@,
        value == AuditKind::NodeDiscovered ==> value.text() == "provider_node_discovered"@,
        value == AuditKind::ReconciliationCompleted ==> value.text()
            == "provider_reconciliation_completed"@,
        value == AuditKind::NodeIdentityConflict ==> value.text() == "provider_identity_conflict"@,
        value == AuditKind::NodeChanged ==> value.text() == "provider_node_changed"@,
        value == AuditKind::NodeMissing ==> value.text() == "provider_node_missing"@,
        value == AuditKind::ReconciliationFailed ==> value.text()
            == "provider_reconciliation_failed"@,
        value == AuditKind::AdoptionActionConflicted ==> value.text()
            == "device.adoption_action_conflicted"@,
{
}

/// The name of every audit outcome that is told apart.
pub proof fn law_audit_outcome_names(value: AuditOutcome)
    ensures
        value == AuditOutcome::Success ==> value.text() == "success"@,
        value == AuditOutcome::Failed ==> value.text() == "failed"@,
{
}

/// The name of every cleanup intent that is told apart.
pub proof fn law_n4_cleanup_intent_names(value: N4CleanupIntent)
    ensures
        value == N4CleanupIntent::Revoked ==> value.text() == "Revoked"@,
        value == N4CleanupIntent::Expired ==> value.text() == "Expired"@,
{
}

/// The name of every invitation state that is told apart.
pub proof fn law_invitation_state_names(value: InvitationState)
    ensures
        value == InvitationState::Issued ==> value.text() == "Issued"@,
        value == InvitationState::Redeeming ==> value.text() == "Redeeming"@,
        value == InvitationState::Consumed ==> value.text() == "Consumed"@,
        value == InvitationState::Failed ==> value.text() == "Failed"@,
        value == InvitationState::Revoking ==> value.text() == "Revoking"@,
        value == InvitationState::Revoked ==> value.text() == "Revoked"@,
        value == InvitationState::Expiring ==> value.text() == "Expiring"@,
        value == InvitationState::Expired ==> value.text() == "Expired"@,
{
}

/// The name of every join session state that is told apart.
pub proof fn law_join_session_state_names(value: JoinSessionState)
    ensures
        value == JoinSessionState::InvitationValidated ==> value.text() == "InvitationValidated"@,
        value == JoinSessionState::ProviderCredentialIssuing ==> value.text()
            == "ProviderCredentialIssuing"@,
        value == JoinSessionState::ProviderCredentialIssued ==> value.text()
            == "ProviderCredentialIssued"@,
        value == JoinSessionState::ProviderCredentialAmbiguous ==> value.text()
            == "ProviderCredentialAmbiguous"@,
        value == JoinSessionState::ProviderCredentialRevocationPending ==> value.text()
            == "ProviderCredentialRevocationPending"@,
        value == JoinSessionState::Revoked ==> value.text() == "Revoked"@,
        value == JoinSessionState::Expired ==> value.text() == "Expired"@,
        value == JoinSessionState::Failed ==> value.text() == "Failed"@,
{
}

/// The name of every membership state that is told apart.
pub proof fn law_membership_state_names(value: MembershipState)
    ensures
        value == MembershipState::Active ==> value.text() == "Active"@,
        value == MembershipState::Suspended ==> value.text() == "Suspended"@,
        value == MembershipState::Revoking ==> value.text() == "Revoking"@,
{
}

/// The name of every provider kind that is told apart.
pub proof fn law_provider_kind_names(value: ProviderKind)
    ensures
        value == ProviderKind::Headscale ==> value.text() == "Headscale"@,
        value == ProviderKind::Tailscale ==> value.text() == "Tailscale"@,
{
}

/// The name of every dispatch state that is told apart.
pub proof fn law_dispatch_state_names(value: DispatchState)
    ensures
        value == DispatchState::Reserved ==> value.text() == "reserved"@,
        value == DispatchState::DispatchStarted ==> value.text() == "dispatch_started"@,
        value == DispatchState::Ambiguous ==> value.text() == "ambiguous"@,
        value == DispatchState::Confirmed ==> value.text() == "confirmed"@,
        value == DispatchState::RevocationPending ==> value.text() == "revocation_pending"@,
        value == DispatchState::FailedPreDispatch ==> value.text() == "failed_pre_dispatch"@,
        value == DispatchState::FailedNoApply ==> value.text() == "failed_no_apply"@,
        value == DispatchState::Revoked ==> value.text() == "revoked"@,
        value == DispatchState::Expired ==> value.text() == "expired"@,
{
}

/// The names that are told apart.
pub proof fn law_invitation_state_names_known(name: Seq<char>)
    ensures
        is_invitation_state_name(name) <==> {
            ||| name == "Issued"@
            ||| name == "Redeeming"@
            ||| name == "Consumed"@
            ||| name == "Failed"@
            ||| name == "Revoking"@
            ||| name == "Revoked"@
            ||| name == "Expiring"@
            ||| name == "Expired"@
        },
{
}

/// The names that are told apart.
pub proof fn law_join_session_state_names_known(name: Seq<char>)
    ensures
        is_join_session_state_name(name) <==> {
            ||| name == "InvitationValidated"@
            ||| name == "ProviderCredentialIssuing"@
            ||| name == "ProviderCredentialIssued"@
            ||| name == "ProviderCredentialAmbiguous"@
            ||| name == "ProviderCredentialRevocationPending"@
            ||| name == "Revoked"@
            ||| name == "Expired"@
            ||| name == "Failed"@
        },
{
}

/// The names that are told apart.
pub proof fn law_membership_state_names_known(name: Seq<char>)
    ensures
        is_membership_state_name(name) <==> {
            ||| name == "Active"@
            ||| name == "Suspended"@
            ||| name == "Revoking"@
        },
{
}

/// The names that are told apart.
pub proof fn law_provider_kind_names_known(name: Seq<char>)
    ensures
        is_provider_kind_name(name) <==> {
            ||| name == "Headscale"@
            ||| name == "Tailscale"@
        },
{
}

/// The names that are told apart.
pub proof fn law_dispatch_state_names_known(name: Seq<char>)
    ensures
        is_dispatch_state_name(name) <==> {
            ||| name == "reserved"@
            ||| name == "dispatch_started"@
            ||| name == "ambiguous"@
            ||| name == "confirmed"@
            ||| name == "revocation_pending"@
            ||| name == "failed_pre_dispatch"@
            ||| name == "failed_no_apply"@
            ||| name == "revoked"@
            ||| name == "expired"@
        },
{
}

/// An outcome of a provider goes by the name of the kind of its failure.
pub proof fn law_provider_outcome_names(kind: FailureKind)
    ensures
        AuditOutcome::Provider(kind).text() == kind.text(),
{
}

} // verus!
