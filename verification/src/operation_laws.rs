//! What the operations of the fenced lifecycle answer, store and record, said of
//! each call by what goes into it and what comes out.

use crate::audit::{AuditActor, AuditFact, AuditLog, StateStore};
use crate::authorization::{AuthorityRecords, CredentialReferenceRow, MutationAuthorization};
use crate::cleanup::{CleanupAnswers, N4CleanupTarget};
use crate::dispatch::{
    begun_session_state, confirmed_session_state, failed_session_state, n4_reference_row,
    N4CredentialConfirmation, N4CredentialDispatch,
};
use crate::error::{DatabaseFailure, StateError, StateErrorView};
use crate::ids::{InvitationId, JoinSessionId};
use crate::invitation_laws::law_confirmation_is_refused_for_bad_metadata_only;
use crate::lifecycle::{N4InvitationContext, N4Lifecycle};
use crate::names::{
    AuditKind, AuditOutcome, DispatchState, Failpoint, InvitationState, JoinSessionState,
    MembershipState, N4CleanupIntent, N4DispatchFailure, N4InvalidationOutcome,
    ProviderMutationCapability,
};
use crate::records::{Invitation, JoinSession, Network};
use crate::redemption::{
    reserved_session_state, N4PresentedMetadata, N4RedemptionReservation,
};
use crate::rules::is_identifier;
use crate::store::revoking_state;
use crate::time::Timestamp;
use vstd::prelude::*;

verus! {

/// Issuing an invitation succeeds only for a sound invitation, between its
/// creation and its expiry, under a configuration in force for both
/// capabilities, whose rows the database took. It leaves one event, unless that
/// event was recorded before; a refusal leaves none.
pub proof fn law_issuing_an_invitation(
    store: &StateStore,
    invitation: &Invitation,
    sound: bool,
    network: Option<Result<Network, String>>,
    context: &N4InvitationContext,
    authority: &AuthorityRecords,
    now: Timestamp,
    stored: Result<(), DatabaseFailure>,
    log: &mut AuditLog,
    actor: AuditActor,
    result: Result<(), StateError>,
)
    requires
        call_ensures(
            StateStore::issue_n4_invitation,
            (store, invitation, sound, network, context, authority, now, stored, log, actor),
            result,
        ),
    ensures
        result is Ok ==> {
            &&& sound
            &&& stored is Ok
            &&& !now.before(invitation.created_at)
            &&& now.before(invitation.expires_at)
            &&& !store.is_armed(Failpoint::BeforeAuditInsert)
            &&& authority.network_id@ == invitation.network_id@
            &&& authority.import matches Some(import) && import.provider_instance@
                == context.provider_instance_id@
            &&& authority.configuration matches Some(row) && {
                &&& row.provider_instance@ == context.provider_instance_id@
                &&& row.enabled == 1
                &&& row.revoked == 0
                &&& row.not_before_ms <= now.millis() < row.expires_at_ms
            }
        },
        ({
            let action = "invitation:"@ + invitation.invitation_id@ + ":created"@;
            let fact = AuditFact {
                network_id: Some(invitation.network_id),
                device_id: None,
                actor,
                kind: AuditKind::InvitationCreated,
                outcome: AuditOutcome::Success,
                generation: None,
                metadata_json: "{}"@,
                correlation: Some((invitation.invitation_id, None, action)),
            };
            &&& result is Ok && !old(log).is_recorded(action, AuditKind::InvitationCreated)
                ==> final(log)@ =~= old(log)@.push(fact)
            &&& result is Ok && old(log).is_recorded(action, AuditKind::InvitationCreated)
                ==> final(log)@ =~= old(log)@
        }),
        result is Err ==> *final(log) == *old(log),
{
}

/// Reserving a redemption takes the use of an issued, unused, current invitation
/// of the expected revision for a device that presents what is asked for. The
/// reservation names what is stored, and the two events of one action are left,
/// each unless it was recorded before; a refusal leaves none.
pub proof fn law_reserving_a_redemption(
    store: &StateStore,
    invitation_id: InvitationId,
    lifecycle: Option<N4Lifecycle>,
    expected_revision: u64,
    join_session_id: JoinSessionId,
    session: Result<JoinSession, String>,
    now: Timestamp,
    presented: N4PresentedMetadata,
    authority: &AuthorityRecords,
    log: &mut AuditLog,
    actor: AuditActor,
    result: Result<(N4Lifecycle, N4RedemptionReservation), StateError>,
)
    requires
        call_ensures(
            StateStore::reserve_n4_redemption,
            (
                store,
                invitation_id,
                lifecycle,
                expected_revision,
                join_session_id,
                session,
                now,
                presented,
                authority,
                log,
                actor,
            ),
            result,
        ),
    ensures
        result is Ok ==> (lifecycle matches Some(stored) && stored.invitation.record matches Ok(
            record,
        ) && {
            let (after, reservation) = result->Ok_0;
            &&& stored.details.revision == expected_revision
            &&& record.state == InvitationState::Issued
            &&& record.used_count == 0
            &&& record.max_uses == 1
            &&& now.before(record.expires_at)
            &&& record.join_constraints.expected_platform matches Some(wanted) ==> (
            presented.platform matches Some(given) && given@ == wanted@)
            &&& record.join_constraints.expected_hostname_hint matches Some(wanted) ==> (
            presented.hostname_hint matches Some(given) && given@ == wanted@)
            &&& authority.configuration matches Some(row) && row.enabled == 1 && row.revoked == 0
                && row.not_before_ms <= now.millis() < row.expires_at_ms
            &&& after.invitation.used_count == 1
            &&& after.details.revision == expected_revision + 1
            &&& after.dispatch matches Some(request) && request.state == DispatchState::Reserved
                && request.join_session_id.text@ == join_session_id@
            &&& reservation.join_session_id == join_session_id
            &&& reservation.invitation_id == invitation_id
            &&& reservation.network_id == record.network_id
            &&& reservation.expires_at == record.expires_at
            &&& stored.details.provider_instance_id.parsed matches Ok(instance) && instance
                == reservation.context.provider_instance_id
            &&& reservation.context.provider_principal_id@ == stored.details.provider_principal_id@
        }),
        result is Ok && (forall|kind: AuditKind|
            !old(log).is_recorded("redemption:"@ + join_session_id@, kind)) ==> {
            let fact = |kind: AuditKind|
                AuditFact {
                    network_id: Some(lifecycle->Some_0.details.network_id),
                    device_id: None,
                    actor,
                    kind,
                    outcome: AuditOutcome::Success,
                    generation: None,
                    metadata_json: "{}"@,
                    correlation: Some(
                        (invitation_id, Some(join_session_id), "redemption:"@ + join_session_id@),
                    ),
                };
            final(log)@ =~= old(log)@.push(fact(AuditKind::InvitationRedemptionStarted)).push(
                fact(AuditKind::RedemptionSessionCreated),
            )
        },
        result is Err ==> *final(log) == *old(log),
{
}

/// Handing a request over succeeds only for a reserved request of a session that
/// has not expired, under a configuration in force for the creation of
/// credentials. It is fenced by that configuration, and what is handed out bears
/// the same fence.
pub proof fn law_handing_a_request_over(
    store: &StateStore,
    join_session_id: JoinSessionId,
    lifecycle: Option<N4Lifecycle>,
    advanced: Result<JoinSession, String>,
    authority: &AuthorityRecords,
    now: Timestamp,
    actor: AuditActor,
    result: Result<(N4Lifecycle, N4CredentialDispatch), StateError>,
)
    requires
        call_ensures(
            StateStore::begin_n4_credential_dispatch,
            (store, join_session_id, lifecycle, advanced, authority, now, actor),
            result,
        ),
    ensures
        result is Ok ==> (lifecycle matches Some(stored) && stored.dispatch matches Some(request)
            && authority.configuration matches Some(row) && {
            let (after, dispatched) = result->Ok_0;
            &&& request.state == DispatchState::Reserved
            &&& row.enabled == 1
            &&& row.revoked == 0
            &&& row.not_before_ms <= now.millis() < row.expires_at_ms
            &&& exists|i: int|
                0 <= i < row.capabilities@.len() && (#[trigger] row.capabilities@[i])@
                    == "CreateJoinCredential"@
            &&& after.dispatch matches Some(begun) && begun.fence matches Some(fence) && begun.state
                == DispatchState::DispatchStarted && fence.authorization_generation
                == row.authorization_generation.number && fence.configuration_generation
                == row.configuration_generation.number && fence.configuration_fingerprint@
                == row.configuration_fingerprint@
            &&& after.invitation == stored.invitation
            &&& after.details == stored.details
            &&& dispatched.join_session_id == join_session_id
            &&& dispatched.authorization_generation.value == row.authorization_generation.number
            &&& dispatched.configuration_generation.value == row.configuration_generation.number
            &&& dispatched.configuration_fingerprint@ == row.configuration_fingerprint@
            &&& request.invitation_id.parsed matches Ok(id) && id == dispatched.invitation_id
            &&& request.network_id.parsed matches Ok(id) && id == dispatched.network_id
        }),
        (lifecycle matches Some(stored) && stored.dispatch matches Some(request)
            && stored.session is Some && request.state != DispatchState::Reserved) ==> (
        result matches Err(error) && error@ == StateErrorView::Conflict(
            "N4 dispatch already fenced"@,
        )),
{
}

/// Handing a request over with an authorization does the same, at a provider
/// that is imported read-only; the authorization is for the creation of the
/// credential and bears the generations of the fence.
pub proof fn law_handing_a_request_over_with_authorization(
    store: &StateStore,
    join_session_id: JoinSessionId,
    lifecycle: Option<N4Lifecycle>,
    advanced: Result<JoinSession, String>,
    authority: &AuthorityRecords,
    now: Timestamp,
    actor: AuditActor,
    result: Result<(N4Lifecycle, N4CredentialDispatch, MutationAuthorization), StateError>,
)
    requires
        call_ensures(
            StateStore::begin_n4_credential_dispatch_with_authorization,
            (store, join_session_id, lifecycle, advanced, authority, now, actor),
            result,
        ),
    ensures
        result is Ok ==> (lifecycle matches Some(stored) && stored.dispatch matches Some(request)
            && authority.configuration matches Some(row) && {
            let (after, dispatched, authorization) = result->Ok_0;
            &&& request.state == DispatchState::Reserved
            &&& row.enabled == 1
            &&& row.revoked == 0
            &&& !now.before_millis(row.not_before_ms as int)
            &&& now.before_millis(row.expires_at_ms as int)
            &&& row.adapter@ == "headscale"@
            &&& row.expected_version@ == "v0.29.3"@
            &&& authority.import matches Some(import) && import.read_only == 1
                && import.mutation_allowed == 0
            &&& exists|i: int|
                0 <= i < row.capabilities@.len() && (#[trigger] row.capabilities@[i])@
                    == "CreateJoinCredential"@
            &&& after.dispatch matches Some(begun) && begun.fence matches Some(fence) && begun.state
                == DispatchState::DispatchStarted && fence.authorization_generation
                == authorization@.authorization_generation.value && fence.configuration_generation
                == authorization@.configuration_generation.value && fence.configuration_fingerprint@
                == authorization@.configuration_fingerprint@
            &&& after.invitation == stored.invitation
            &&& after.details == stored.details
            &&& dispatched.join_session_id == join_session_id
            &&& dispatched.authorization_generation == authorization@.authorization_generation
            &&& dispatched.configuration_generation == authorization@.configuration_generation
            &&& dispatched.configuration_fingerprint@ == authorization@.configuration_fingerprint@
            &&& dispatched.network_id == authorization@.network_id
            &&& dispatched.context.provider_instance_id == authorization@.provider_instance_id
            &&& authorization@.capability == ProviderMutationCapability::CreateJoinCredential
            &&& authorization@.not_before.millis() == row.not_before_ms
            &&& authorization@.expires_at.millis() == row.expires_at_ms
        }),
        (lifecycle matches Some(stored) && stored.dispatch matches Some(request)
            && stored.session is Some && request.state != DispatchState::Reserved) ==> (
        result matches Err(error) && error@ == StateErrorView::Conflict(
            "N4 dispatch already fenced"@,
        )),
{
}

/// Confirming a credential consumes the invitation and leaves the two events of
/// one action, each unless it was recorded before; a refusal leaves none. One to
/// four approved tags on a credential that is not ephemeral, for a safe
/// principal, are never refused as metadata.
pub proof fn law_confirming_a_credential(
    store: &StateStore,
    join_session_id: &JoinSessionId,
    lifecycle: Option<N4Lifecycle>,
    confirmation: N4CredentialConfirmation,
    issued: Result<JoinSession, String>,
    stored: Result<(), DatabaseFailure>,
    log: &mut AuditLog,
    actor: AuditActor,
    result: Result<N4Lifecycle, StateError>,
)
    requires
        lifecycle matches Some(current) ==> current.details.revision < u64::MAX,
        call_ensures(
            StateStore::confirm_n4_credential,
            (store, join_session_id, lifecycle, confirmation, issued, stored, log, actor),
            result,
        ),
    ensures
        result is Ok ==> (lifecycle matches Some(before) && before.invitation.record matches Ok(
            record,
        ) && before.dispatch matches Some(request) && {
            let after = result->Ok_0;
            &&& stored is Ok
            &&& !confirmation.ephemeral
            &&& 1 <= confirmation.approved_tags@.len() <= 4
            &&& request.state == DispatchState::DispatchStarted
            &&& request.provider_principal_id@ == confirmation.provider_principal_id@
            &&& record.state == InvitationState::Redeeming
            &&& !record.expires_at.before(confirmation.expires_at)
            &&& after.invitation.record matches Ok(consumed) && consumed.state
                == InvitationState::Consumed && consumed.provider_credential_reference == Some(
                confirmation.credential_id,
            )
            &&& after.details.revision == before.details.revision + 1
            &&& after.details.consumed_at_ms matches Some(at) && at
                == confirmation.confirmed_at.millis()
            &&& after.metadata matches Some(metadata) && metadata.approved_tags@
                == confirmation.approved_tags@ && metadata.invalidation_state@ == "active"@
        }),
        result is Ok && (forall|kind: AuditKind|
            !old(log).is_recorded("credential-confirm:"@ + join_session_id@, kind)) ==> {
            let fact = |kind: AuditKind|
                AuditFact {
                    network_id: Some(lifecycle->Some_0.details.network_id),
                    device_id: None,
                    actor,
                    kind,
                    outcome: AuditOutcome::Success,
                    generation: None,
                    metadata_json: "{}"@,
                    correlation: Some(
                        (
                            lifecycle->Some_0.dispatch->Some_0.invitation_id.parsed->Ok_0,
                            Some(*join_session_id),
                            "credential-confirm:"@ + join_session_id@,
                        ),
                    ),
                };
            final(log)@ =~= old(log)@.push(fact(AuditKind::InvitationRedeemed)).push(
                fact(AuditKind::JoinCredentialIssued),
            )
        },
        result is Err ==> *final(log) == *old(log),
        store.is_armed(Failpoint::BeforeN4ConfirmationAudit) ==> result is Err,
        is_identifier(confirmation.provider_principal_id@) && !confirmation.ephemeral && 1
            <= confirmation.approved_tags@.len() <= 4 && (forall|i: int|
            0 <= i < confirmation.approved_tags@.len() ==> {
                let tag = (#[trigger] confirmation.approved_tags@[i])@;
                ||| tag == "tag:nodescale-node"@
                ||| tag == "tag:nodescale-worker"@
                ||| tag == "tag:nodescale-controller"@
                ||| tag == "tag:nodescale-profile-host"@
                ||| tag == "tag:nodescale-observer"@
                ||| tag == "tag:nodescale-admin"@
            }) && stored is Ok && issued is Ok && (lifecycle matches Some(before)
            && before.dispatch matches Some(request) && request.invitation_id.parsed is Ok) ==> !(
        result matches Err(error) && error@ == StateErrorView::Conflict(
            "invalid N4 credential metadata"@,
        )),
{
    law_confirmation_is_refused_for_bad_metadata_only(join_session_id@, lifecycle, confirmation);
}

/// A failed request loses the invitation and leaves one failed event, unless it
/// was recorded before; a refusal leaves none.
pub proof fn law_failing_a_request(
    store: &StateStore,
    join_session_id: &JoinSessionId,
    lifecycle: Option<N4Lifecycle>,
    failure: N4DispatchFailure,
    failed: Result<JoinSession, String>,
    now: Timestamp,
    log: &mut AuditLog,
    actor: AuditActor,
    result: Result<N4Lifecycle, StateError>,
)
    requires
        call_ensures(
            StateStore::fail_n4_credential_dispatch,
            (store, join_session_id, lifecycle, failure, failed, now, log, actor),
            result,
        ),
    ensures
        result is Ok ==> (lifecycle matches Some(before) && before.dispatch matches Some(request)
            && {
            let after = result->Ok_0;
            &&& failure == N4DispatchFailure::PreDispatch ==> request.state
                == DispatchState::Reserved
            &&& failure != N4DispatchFailure::PreDispatch ==> request.state
                == DispatchState::DispatchStarted
            &&& after.invitation.record matches Ok(lost) && lost.state == InvitationState::Failed
            &&& after.details == before.details
            &&& after.dispatch matches Some(resolved) && {
                &&& failure == N4DispatchFailure::PreDispatch ==> resolved.state
                    == DispatchState::FailedPreDispatch
                &&& failure == N4DispatchFailure::DefiniteNoApply ==> resolved.state
                    == DispatchState::FailedNoApply
                &&& failure == N4DispatchFailure::Ambiguous ==> resolved.state
                    == DispatchState::Ambiguous
                &&& resolved.resolved_at_ms matches Some(at) && at == now.millis()
            }
        }),
        ({
            let action = "credential-failure:"@ + join_session_id@;
            let fact = AuditFact {
                network_id: Some(lifecycle->Some_0.details.network_id),
                device_id: None,
                actor,
                kind: AuditKind::InvitationRedemptionFailed,
                outcome: AuditOutcome::Failed,
                generation: None,
                metadata_json: "{}"@,
                correlation: Some(
                    (
                        lifecycle->Some_0.dispatch->Some_0.invitation_id.parsed->Ok_0,
                        Some(*join_session_id),
                        action,
                    ),
                ),
            };
            &&& result is Ok && !old(log).is_recorded(action, AuditKind::InvitationRedemptionFailed)
                ==> final(log)@ =~= old(log)@.push(fact)
            &&& result is Ok && old(log).is_recorded(action, AuditKind::InvitationRedemptionFailed)
                ==> final(log)@ =~= old(log)@
        }),
        result is Err ==> *final(log) == *old(log),
{
}

/// Preparing a revocation and preparing an expiry are the two ways of one
/// preparation: each hands out its own reason. The expiry waits for the
/// deadline; the revocation does not.
pub proof fn law_preparing_the_end(
    store: &StateStore,
    invitation_id: InvitationId,
    lifecycle: Option<N4Lifecycle>,
    answers: CleanupAnswers,
    now: Timestamp,
    revocation_log: &mut AuditLog,
    expiry_log: &mut AuditLog,
    actor: AuditActor,
    revoked: Result<(N4Lifecycle, N4CleanupTarget), StateError>,
    expired: Result<(N4Lifecycle, N4CleanupTarget), StateError>,
)
    requires
        lifecycle matches Some(current) ==> current.details.revision < u64::MAX,
        call_ensures(
            StateStore::prepare_n4_revocation,
            (store, invitation_id, lifecycle, answers, now, revocation_log, actor),
            revoked,
        ),
        call_ensures(
            StateStore::prepare_n4_expiry,
            (store, invitation_id, lifecycle, answers, now, expiry_log, actor),
            expired,
        ),
    ensures
        revoked is Ok ==> revoked->Ok_0.1.intent == N4CleanupIntent::Revoked
            && revoked->Ok_0.1.invitation_id == invitation_id,
        expired is Ok ==> expired->Ok_0.1.intent == N4CleanupIntent::Expired
            && expired->Ok_0.1.invitation_id == invitation_id,
        revoked is Err ==> *final(revocation_log) == *old(revocation_log),
        expired is Err ==> *final(expiry_log) == *old(expiry_log),
        (lifecycle matches Some(stored) && stored.invitation.record matches Ok(record)
            && now.before(record.expires_at)) ==> (expired matches Err(error) && error@
            == StateErrorView::Conflict("N4 invitation has not reached its expiry deadline"@)),
        // An unused invitation without a request ends at once, each time under the
        // reason of the call.
        (lifecycle matches Some(stored) && stored.invitation.record matches Ok(record)
            && stored.dispatch is None && record.state == InvitationState::Issued) ==> {
            &&& revoked is Ok ==> {
                let after = revoked->Ok_0.0;
                &&& after.details.revoked_at_ms matches Some(at) && at == now.millis()
                &&& after.details.expired_at_ms == lifecycle->Some_0.details.expired_at_ms
                &&& after.details.revision == lifecycle->Some_0.details.revision + 1
            }
            &&& expired is Ok ==> {
                let after = expired->Ok_0.0;
                &&& after.details.expired_at_ms matches Some(at) && at == now.millis()
                &&& after.details.revoked_at_ms == lifecycle->Some_0.details.revoked_at_ms
                &&& after.details.revision == lifecycle->Some_0.details.revision + 1
            }
        },
{
}

/// The preparation of a cleanup is the revocation or the expiry that is meant.
pub proof fn law_preparing_a_cleanup(
    store: &StateStore,
    invitation_id: InvitationId,
    lifecycle: Option<N4Lifecycle>,
    answers: CleanupAnswers,
    now: Timestamp,
    intent: N4CleanupIntent,
    log: &mut AuditLog,
    actor: AuditActor,
    result: Result<(N4Lifecycle, N4CleanupTarget), StateError>,
)
    requires
        lifecycle matches Some(current) ==> current.details.revision < u64::MAX,
        call_ensures(
            StateStore::prepare_n4_cleanup,
            (store, invitation_id, lifecycle, answers, now, intent, log, actor),
            result,
        ),
    ensures
        result is Ok ==> result->Ok_0.1.intent == intent && result->Ok_0.1.invitation_id
            == invitation_id,
        result is Ok ==> (lifecycle matches Some(stored) && stored.invitation.record matches Ok(
            record,
        ) && {
            let (after, target) = result->Ok_0;
            &&& target.network_id == record.network_id
            &&& intent == N4CleanupIntent::Expired ==> !now.before(record.expires_at)
            &&& record.state == InvitationState::Revoked || record.state == InvitationState::Expired
                ==> after == stored && final(log)@ =~= old(log)@
            &&& record.state != InvitationState::Revoked && record.state
                != InvitationState::Expired && (stored.dispatch matches Some(request)
                && request.state == DispatchState::Confirmed && request.credential_id is Some
                && stored.reference is Some) ==> {
                &&& after.dispatch matches Some(pending) && pending.state
                    == DispatchState::RevocationPending
                &&& after.details == stored.details
                &&& target.provider_reference is Some
                &&& !target.cleanup_uncertain
                &&& final(log)@ =~= old(log)@
            }
        }),
        result is Err ==> *final(log) == *old(log),
{
}

/// Settling a pending invalidation that the provider confirmed notes its time
/// under the reason of the target alone; one that was not achieved leaves all
/// but the state of the invalidation as it was, and no event.
pub proof fn law_settling_an_invalidation(
    store: &StateStore,
    target: N4CleanupTarget,
    lifecycle: Option<N4Lifecycle>,
    outcome: N4InvalidationOutcome,
    ended: Result<InvitationState, String>,
    ended_session: Result<JoinSession, String>,
    now: Timestamp,
    log: &mut AuditLog,
    actor: AuditActor,
    result: Result<N4Lifecycle, StateError>,
)
    requires
        lifecycle matches Some(current) ==> current.details.revision < u64::MAX,
        call_ensures(
            StateStore::settle_n4_credential_invalidation,
            (store, target, lifecycle, outcome, ended, ended_session, now, log, actor),
            result,
        ),
    ensures
        result is Err ==> *final(log) == *old(log),
        result is Ok ==> (lifecycle matches Some(before) && before.dispatch matches Some(request)
            && {
            let after = result->Ok_0;
            let achieved = outcome == N4InvalidationOutcome::Confirmed || outcome
                == N4InvalidationOutcome::AlreadySatisfied;
            &&& achieved && request.state == DispatchState::RevocationPending && target.intent
                == N4CleanupIntent::Expired ==> {
                &&& after.details.expired_at_ms matches Some(at) && at == now.millis()
                &&& after.details.revoked_at_ms == before.details.revoked_at_ms
                &&& after.details.revision == before.details.revision + 1
                &&& after.dispatch matches Some(closed) && closed.state == DispatchState::Expired
            }
            &&& achieved && request.state == DispatchState::RevocationPending && target.intent
                == N4CleanupIntent::Revoked ==> {
                &&& after.details.revoked_at_ms matches Some(at) && at == now.millis()
                &&& after.details.expired_at_ms == before.details.expired_at_ms
                &&& after.details.revision == before.details.revision + 1
                &&& after.dispatch matches Some(closed) && closed.state == DispatchState::Revoked
            }
            &&& achieved && request.state == DispatchState::RevocationPending ==> (
            after.metadata matches Some(metadata) && metadata.invalidation_state@ == "confirmed"@
                && (metadata.invalidated_at_ms matches Some(at) && at == now.millis()))
            &&& achieved ==> request.state == DispatchState::RevocationPending || request.state
                == DispatchState::Revoked || request.state == DispatchState::Expired
            &&& achieved && request.state != DispatchState::RevocationPending ==> after == before
                && *final(log) == *old(log)
            &&& !achieved ==> {
                &&& after.invitation == before.invitation
                &&& after.details == before.details
                &&& after.dispatch == before.dispatch
                &&& after.session == before.session
                &&& *final(log) == *old(log)
            }
        }),
        result is Ok && outcome == N4InvalidationOutcome::Confirmed
            && lifecycle->Some_0.dispatch->Some_0.state == DispatchState::RevocationPending && (
        forall|kind: AuditKind|
            !old(log).is_recorded(
                "credential-invalidation:"@
                    + lifecycle->Some_0.dispatch->Some_0.credential_id->Some_0.text@ + ":"@
                    + target.intent.text(),
                kind,
            )) ==> {
            &&& final(log)@.len() == old(log)@.len() + 2
            &&& final(log)@[old(log)@.len() as int].kind == AuditKind::JoinCredentialInvalidated
            &&& target.intent == N4CleanupIntent::Revoked ==> final(log)@.last().kind
                == AuditKind::InvitationRevoked
            &&& target.intent == N4CleanupIntent::Expired ==> final(log)@.last().kind
                == AuditKind::InvitationExpired
        },
{
}

/// The states that sessions and invitations are asked to move to: each step has
/// its own, and a cleanup those of its reason.
pub proof fn law_states_that_are_asked_for(
    failure: N4DispatchFailure,
    intent: N4CleanupIntent,
    reserved: JoinSessionState,
    begun: JoinSessionState,
    confirmed: JoinSessionState,
    failed: JoinSessionState,
    pending: InvitationState,
    ended: InvitationState,
    pending_session: JoinSessionState,
    ended_session: JoinSessionState,
    revoking: MembershipState,
)
    requires
        call_ensures(reserved_session_state, (), reserved),
        call_ensures(begun_session_state, (), begun),
        call_ensures(confirmed_session_state, (), confirmed),
        call_ensures(failed_session_state, (failure,), failed),
        call_ensures(N4CleanupIntent::pending_state, (intent,), pending),
        call_ensures(N4CleanupIntent::ended_state, (intent,), ended),
        call_ensures(N4CleanupIntent::pending_session_state, (intent,), pending_session),
        call_ensures(N4CleanupIntent::ended_session_state, (intent,), ended_session),
        call_ensures(revoking_state, (), revoking),
    ensures
        reserved == JoinSessionState::InvitationValidated,
        begun == JoinSessionState::ProviderCredentialIssuing,
        confirmed == JoinSessionState::ProviderCredentialIssued,
        failure == N4DispatchFailure::Ambiguous ==> failed
            == JoinSessionState::ProviderCredentialAmbiguous,
        failure != N4DispatchFailure::Ambiguous ==> failed == JoinSessionState::Failed,
        intent == N4CleanupIntent::Revoked ==> pending == InvitationState::Revoking && ended
            == InvitationState::Revoked && ended_session == JoinSessionState::Revoked,
        intent == N4CleanupIntent::Expired ==> pending == InvitationState::Expiring && ended
            == InvitationState::Expired && ended_session == JoinSessionState::Expired,
        pending_session == JoinSessionState::ProviderCredentialRevocationPending,
        revoking == MembershipState::Revoking,
{
}

/// The row of a confirmed credential is made exactly where the confirmation
/// belongs to the request, and bears its fence, for one use.
pub proof fn law_making_the_row_of_a_credential(
    join_session_id: &JoinSessionId,
    lifecycle: &Option<N4Lifecycle>,
    confirmation: &N4CredentialConfirmation,
    result: Result<CredentialReferenceRow, StateError>,
)
    requires
        call_ensures(n4_reference_row, (join_session_id, lifecycle, confirmation), result),
    ensures
        result matches Ok(row) ==> (*lifecycle matches Some(stored)
            && stored.dispatch matches Some(request) && request.fence matches Some(fence) && {
            &&& request.state == DispatchState::DispatchStarted
            &&& row.credential@ == confirmation.credential_id@
            &&& row.provider_reference@ == confirmation.provider_reference@
            &&& row.network@ == request.network_id.text@
            &&& row.provider_instance@ == request.provider_instance_id.text@
            &&& row.authorization_generation == fence.authorization_generation
            &&& row.configuration_generation == fence.configuration_generation
            &&& row.configuration_fingerprint@ == fence.configuration_fingerprint@
            &&& row.confirmed_at_ms == confirmation.confirmed_at.millis()
            &&& row.expires_at_ms == confirmation.expires_at.millis()
            &&& row.max_uses == 1
        }),
        *lifecycle is None && !confirmation.is_admissible() ==> (result matches Err(error) && error@
            == StateErrorView::Conflict("invalid N4 credential metadata"@)),
        *lifecycle is None && confirmation.is_admissible() ==> (result matches Err(error) && error@
            == StateErrorView::NotFound(join_session_id@)),
{
}

} // verus!
