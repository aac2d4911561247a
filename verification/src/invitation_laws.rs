//! What each step of the fenced lifecycle of an invitation admits, changes and
//! leaves alone, said on the stored records and on what callers present.

use crate::audit::{AuditActor, AuditFact, AuditLog, StateStore};
use crate::authority_laws::law_window_is_half_open;
use crate::authorization::{
    AuthorityRecords, AuthorizationFacts, ConfigurationRow, CredentialReferenceRow,
};
use crate::cleanup::{
    is_invalidated, is_prepared, is_settled, preparation_events, preparation_problem,
    settlement_events, settlement_problem, settles, stays_unsettled, target_of, CleanupAnswers,
    N4CleanupTarget,
};
use crate::dispatch::{
    begin_authorized_problem, begin_problem, confirm_problem, confirm_rest_problem, fail_problem,
    failed_session, is_authorization_for, is_begun, is_confirmed, is_failed,
    N4CredentialConfirmation, N4CredentialDispatch,
};
use crate::error::StateErrorView;
use crate::ids::{InvitationId, JoinSessionId, NetworkId};
use crate::lifecycle::N4Lifecycle;
use crate::names::{
    AuditKind, AuditOutcome, DispatchState, InvitationState, JoinSessionState, MutationPolicyMode,
    N4CleanupIntent, N4DispatchFailure, N4InvalidationOutcome, ProviderMutationCapability,
};
use crate::records::{Invitation, JoinSession};
use crate::redemption::{
    is_reserved, n4_fact, recorded_once, reserve_problem, N4PresentedMetadata,
};
use crate::rules::{is_fingerprint, is_identifier};
use crate::text::ascii_lower;
use crate::time::{is_millis, Timestamp};
use vstd::prelude::*;

verus! {

/// A reservation is made only for an invitation that is issued, was never used,
/// is for one use, has not expired and is of the revision that the caller saw;
/// and only for a device that presents the very platform and the very host name
/// that the invitation asks for.
pub proof fn law_reservation_meets_the_invitation(
    invitation: Seq<char>,
    lifecycle: Option<N4Lifecycle>,
    expected_revision: u64,
    session: Result<JoinSession, String>,
    now: Timestamp,
    presented: N4PresentedMetadata,
    authority: AuthorityRecords,
)
    requires
        reserve_problem(
            invitation,
            lifecycle,
            expected_revision,
            session,
            now,
            presented,
            authority,
        ) is None,
    ensures
        lifecycle matches Some(stored) && stored.invitation.record matches Ok(record) && {
            &&& stored.details.revision == expected_revision
            &&& record.state == InvitationState::Issued
            &&& stored.invitation.state@ == "issued"@
            &&& record.used_count == 0
            &&& stored.invitation.used_count == 0
            &&& record.max_uses == 1
            &&& now.before(record.expires_at)
            &&& record.join_constraints.expected_platform matches Some(wanted) ==> (
            presented.platform matches Some(given) && given@ == wanted@)
            &&& record.join_constraints.expected_hostname_hint matches Some(wanted) ==> (
            presented.hostname_hint matches Some(given) && given@ == wanted@)
            &&& stored.details.provider_instance_id.parsed is Ok
            &&& is_identifier(stored.details.provider_principal_id@)
            &&& authority.network_id@ == record.network_id@
            &&& authority.configuration matches Some(row) && {
                &&& row.provider_instance@ == stored.details.provider_instance_id.text@
                &&& row.enabled == 1
                &&& row.revoked == 0
                &&& row.not_before_ms <= now.millis() < row.expires_at_ms
                &&& exists|i: int|
                    0 <= i < row.capabilities@.len() && (#[trigger] row.capabilities@[i])@
                        == "CreateJoinCredential"@
                &&& exists|i: int|
                    0 <= i < row.capabilities@.len() && (#[trigger] row.capabilities@[i])@
                        == "InvalidateJoinCredential"@
            }
        },
        session is Ok,
{
}

/// A device that presents what the invitation asks for is not turned away: an
/// issued, unused, current invitation for one use, of the revision that the
/// caller saw, is reserved under a configuration in force for both capabilities.
pub proof fn law_reservation_is_owed(
    invitation: Seq<char>,
    stored: N4Lifecycle,
    record: Invitation,
    session: Result<JoinSession, String>,
    now: Timestamp,
    presented: N4PresentedMetadata,
    authority: AuthorityRecords,
    row: ConfigurationRow,
)
    requires
        stored.invitation.record == Ok::<Invitation, String>(record),
        record.state == InvitationState::Issued,
        stored.invitation.state@ == "issued"@,
        record.used_count == 0,
        stored.invitation.used_count == 0,
        record.max_uses == 1,
        stored.details.revision <= 0x7fff_ffff_ffff_ffff,
        now.before(record.expires_at),
        record.join_constraints.expected_platform is Some ==> (presented.platform is Some
            && presented.platform->Some_0@ == record.join_constraints.expected_platform->Some_0@),
        record.join_constraints.expected_hostname_hint is Some ==> (presented.hostname_hint is Some
            && presented.hostname_hint->Some_0@
            == record.join_constraints.expected_hostname_hint->Some_0@),
        stored.details.provider_instance_id.parsed is Ok,
        is_identifier(stored.details.provider_principal_id@),
        authority.network_id@ == record.network_id@,
        authority.configuration == Some(row),
        row.provider_instance@ == stored.details.provider_instance_id.text@,
        row.enabled == 1,
        row.revoked == 0,
        row.not_before_ms <= now.millis() < row.expires_at_ms,
        exists|i: int|
            0 <= i < row.capabilities@.len() && (#[trigger] row.capabilities@[i])@
                == "CreateJoinCredential"@,
        exists|i: int|
            0 <= i < row.capabilities@.len() && (#[trigger] row.capabilities@[i])@
                == "InvalidateJoinCredential"@,
        session is Ok,
    ensures
        reserve_problem(
            invitation,
            Some(stored),
            stored.details.revision,
            session,
            now,
            presented,
            authority,
        ) is None,
{
}

/// What stands in the way of a reservation is named: an unknown invitation, one
/// that is not open to this caller, or a missing authority.
pub proof fn law_refused_reservation_says_why(
    invitation: Seq<char>,
    stored: N4Lifecycle,
    record: Invitation,
    expected_revision: u64,
    session: Result<JoinSession, String>,
    now: Timestamp,
    presented: N4PresentedMetadata,
    authority: AuthorityRecords,
)
    requires
        stored.invitation.record == Ok::<Invitation, String>(record),
        stored.details.provider_instance_id.parsed is Ok,
        is_identifier(stored.details.provider_principal_id@),
    ensures
        reserve_problem(
            invitation,
            None,
            expected_revision,
            session,
            now,
            presented,
            authority,
        ) == Some(StateErrorView::NotFound(invitation)),
        (stored.details.revision != expected_revision || record.state != InvitationState::Issued
            || record.used_count != 0 || record.max_uses != 1 || !now.before(record.expires_at) || (
        record.join_constraints.expected_platform is Some && (presented.platform is None
            || presented.platform->Some_0@ != record.join_constraints.expected_platform->Some_0@))
            || (record.join_constraints.expected_hostname_hint is Some && (
        presented.hostname_hint is None || presented.hostname_hint->Some_0@
            != record.join_constraints.expected_hostname_hint->Some_0@))) ==> reserve_problem(
            invitation,
            Some(stored),
            expected_revision,
            session,
            now,
            presented,
            authority,
        ) == Some(StateErrorView::Conflict("N4 invitation is not reservable"@)),
{
}

/// A reservation takes the single use: the invitation is being redeemed, the
/// next revision begins, the time and the digest of what was presented are
/// remembered, and a request is reserved for exactly this session, invitation,
/// network, provider and principal. Everything else of the invitation stays.
pub proof fn law_reservation_takes_the_single_use(
    before: N4Lifecycle,
    record: Invitation,
    invitation_id: InvitationId,
    join_session_id: JoinSessionId,
    session: JoinSession,
    now: Timestamp,
    presented: N4PresentedMetadata,
    after: N4Lifecycle,
)
    requires
        before.invitation.record == Ok::<Invitation, String>(record),
        before.details.provider_instance_id.parsed is Ok,
        before.details.revision < u64::MAX,
        is_reserved(before, invitation_id, join_session_id, session, now, presented, after),
    ensures
        after.invitation.record matches Ok(taken) && {
            &&& taken.state == InvitationState::Redeeming
            &&& taken.used_count == 1
            &&& taken.max_uses == record.max_uses
            &&& taken.invitation_id == record.invitation_id
            &&& taken.network_id == record.network_id
            &&& taken.expires_at == record.expires_at
            &&& taken.created_at == record.created_at
            &&& taken.join_constraints == record.join_constraints
            &&& taken.roles == record.roles
            &&& taken.secret_verifier == record.secret_verifier
            &&& taken.provider_credential_reference == record.provider_credential_reference
        },
        after.invitation.state@ == "redeeming"@,
        after.invitation.used_count == 1,
        after.details.revision == before.details.revision + 1,
        after.details.network_id == before.details.network_id,
        after.details.provider_instance_id == before.details.provider_instance_id,
        after.details.provider_principal_id == before.details.provider_principal_id,
        after.details.consumed_at_ms == before.details.consumed_at_ms,
        after.details.revoked_at_ms == before.details.revoked_at_ms,
        after.details.expired_at_ms == before.details.expired_at_ms,
        after.details.last_redemption_at_ms matches Some(at) && at == now.millis(),
        after.details.last_redemption_metadata_json@ == presented.correlation.digest_document(),
        after.session matches Some(row) && row.record == Ok::<JoinSession, String>(session)
            && row.updated_at@ == now.text() && row.state@ == ascii_lower(session.state.text()),
        after.dispatch matches Some(request) && {
            &&& request.state == DispatchState::Reserved
            &&& request.join_session_id.text@ == join_session_id@
            &&& request.join_session_id.parsed == Ok::<JoinSessionId, String>(join_session_id)
            &&& request.invitation_id.text@ == invitation_id@
            &&& request.invitation_id.parsed == Ok::<InvitationId, String>(invitation_id)
            &&& request.network_id.text@ == record.network_id@
            &&& request.network_id.parsed == Ok::<NetworkId, String>(record.network_id)
            &&& request.provider_instance_id.parsed == before.details.provider_instance_id.parsed
            &&& request.provider_instance_id.text@
                == before.details.provider_instance_id.parsed->Ok_0@
            &&& request.provider_principal_id@ == before.details.provider_principal_id@
            &&& request.create_request_id@.len() == 36
            &&& request.fence is None
            &&& request.credential_id is None
            &&& request.dispatched_at_ms is None
            &&& request.resolved_at_ms is None
        },
        after.reference == before.reference,
        after.metadata == before.metadata,
{
}

/// A request is handed over only once, by a session that is validated and has
/// not expired, and under a configuration in force that grants the creation of
/// credentials.
pub proof fn law_dispatch_is_admitted_once(
    join_session: Seq<char>,
    lifecycle: Option<N4Lifecycle>,
    advanced: Result<JoinSession, String>,
    authority: AuthorityRecords,
    now: Timestamp,
)
    ensures
        begin_problem(join_session, lifecycle, advanced, authority, now) is None <==> {
            &&& advanced is Ok
            &&& lifecycle matches Some(stored) && stored.dispatch matches Some(request)
                && stored.session matches Some(row) && row.record matches Ok(session)
                && authority.configuration matches Some(configuration) && {
                &&& request.state == DispatchState::Reserved
                &&& session.n4
                &&& session.state == JoinSessionState::InvitationValidated
                &&& now.before(session.expires_at)
                &&& authority.network_id@ == request.network_id.text@
                &&& configuration.provider_instance@ == request.provider_instance_id.text@
                &&& configuration.enabled == 1
                &&& configuration.revoked == 0
                &&& configuration.not_before_ms <= now.millis() < configuration.expires_at_ms
                &&& exists|i: int|
                    0 <= i < configuration.capabilities@.len()
                        && (#[trigger] configuration.capabilities@[i])@ == "CreateJoinCredential"@
                &&& configuration.authorization_generation.number <= 0x7fff_ffff_ffff_ffff
                &&& configuration.configuration_generation.number <= 0x7fff_ffff_ffff_ffff
                &&& configuration.authorization_generation.refusal is None
                &&& configuration.configuration_generation.refusal is None
                &&& request.invitation_id.parsed is Ok
                &&& request.network_id.parsed is Ok
                &&& request.provider_instance_id.parsed is Ok
                &&& is_identifier(request.provider_principal_id@)
            }
        },
        (lifecycle is None || lifecycle->Some_0.dispatch is None || lifecycle->Some_0.session
            is None) ==> begin_problem(join_session, lifecycle, advanced, authority, now) == Some(
            StateErrorView::NotFound(join_session),
        ),
        (lifecycle matches Some(stored) && stored.session is Some && (
        stored.dispatch matches Some(request) && request.state != DispatchState::Reserved))
            ==> begin_problem(join_session, lifecycle, advanced, authority, now) == Some(
            StateErrorView::Conflict("N4 dispatch already fenced"@),
        ),
{
}

/// A request is handed over with an authorization only once, by a session that
/// is validated and has not expired, at a provider imported read-only, and under
/// a configuration in force, of the supported adapter and version, that grants
/// the creation of credentials.
pub proof fn law_authorized_dispatch_is_admitted_once(
    join_session: Seq<char>,
    lifecycle: Option<N4Lifecycle>,
    advanced: Result<JoinSession, String>,
    authority: AuthorityRecords,
    now: Timestamp,
)
    ensures
        begin_authorized_problem(join_session, lifecycle, advanced, authority, now) is None ==> {
            &&& advanced is Ok
            &&& lifecycle matches Some(stored) && stored.dispatch matches Some(request)
                && stored.session matches Some(row) && row.record matches Ok(session)
                && authority.configuration matches Some(configuration)
                && authority.import matches Some(import) && {
                &&& request.state == DispatchState::Reserved
                &&& session.n4
                &&& session.state == JoinSessionState::InvitationValidated
                &&& now.before(session.expires_at)
                &&& authority.network_id@ == request.network_id.text@
                &&& import.provider_instance@ == request.provider_instance_id.text@
                &&& import.read_only == 1
                &&& import.mutation_allowed == 0
                &&& configuration.provider_instance@ == request.provider_instance_id.text@
                &&& configuration.enabled == 1
                &&& configuration.revoked == 0
                &&& !now.before_millis(configuration.not_before_ms as int)
                &&& now.before_millis(configuration.expires_at_ms as int)
                &&& configuration.adapter@ == "headscale"@
                &&& configuration.expected_version@ == "v0.29.3"@
                &&& is_fingerprint(configuration.configuration_fingerprint@)
                &&& exists|i: int|
                    0 <= i < configuration.capabilities@.len()
                        && (#[trigger] configuration.capabilities@[i])@ == "CreateJoinCredential"@
                &&& configuration.authorization_generation.number <= 0x7fff_ffff_ffff_ffff
                &&& configuration.configuration_generation.number <= 0x7fff_ffff_ffff_ffff
                &&& configuration.authorization_generation.refusal is None
                &&& configuration.configuration_generation.refusal is None
                &&& configuration.policy_mode@ == "database"@ || configuration.policy_mode@
                    == "file"@ || configuration.policy_mode@ == "unknown"@
                &&& request.invitation_id.parsed is Ok
                &&& request.network_id.parsed is Ok
                &&& request.provider_instance_id.parsed is Ok
                &&& is_identifier(request.provider_principal_id@)
            }
        },
        (lifecycle is None || lifecycle->Some_0.dispatch is None || lifecycle->Some_0.session
            is None) ==> begin_authorized_problem(
            join_session,
            lifecycle,
            advanced,
            authority,
            now,
        ) == Some(StateErrorView::NotFound(join_session)),
        (lifecycle matches Some(stored) && stored.session is Some && (
        stored.dispatch matches Some(request) && request.state != DispatchState::Reserved))
            ==> begin_authorized_problem(join_session, lifecycle, advanced, authority, now) == Some(
            StateErrorView::Conflict("N4 dispatch already fenced"@),
        ),
{
}

/// Whoever may hand a request over may do so with an authorization, where the
/// provider is imported read-only, the configuration is of the supported adapter
/// and version and can be read.
pub proof fn law_authorized_dispatch_is_owed(
    join_session: Seq<char>,
    lifecycle: Option<N4Lifecycle>,
    advanced: Result<JoinSession, String>,
    authority: AuthorityRecords,
    row: ConfigurationRow,
    now: Timestamp,
)
    requires
        0 <= now.nanoseconds() < 1_000_000_000,
        begin_problem(join_session, lifecycle, advanced, authority, now) is None,
        authority.configuration == Some(row),
        authority.import is Some,
        authority.import->Some_0.provider_instance@ == row.provider_instance@,
        authority.import->Some_0.read_only == 1,
        authority.import->Some_0.mutation_allowed == 0,
        is_millis(row.not_before_ms as int),
        is_millis(row.expires_at_ms as int),
        row.adapter@ == "headscale"@,
        row.expected_version@ == "v0.29.3"@,
        is_fingerprint(row.configuration_fingerprint@),
        row.policy_mode@ == "database"@ || row.policy_mode@ == "file"@ || row.policy_mode@
            == "unknown"@,
    ensures
        begin_authorized_problem(join_session, lifecycle, advanced, authority, now) is None,
{
    law_window_is_half_open(row, now);
    assert(MutationPolicyMode::Database.text() == "database"@);
    assert(MutationPolicyMode::File.text() == "file"@);
    assert(MutationPolicyMode::Unknown.text() == "unknown"@);
}

/// Handing the request over fences it: it is started, bears the generations and
/// the fingerprint of the configuration and the time, and nothing else of it or
/// of the invitation changes.
pub proof fn law_dispatch_is_fenced(
    before: N4Lifecycle,
    row: ConfigurationRow,
    advanced: JoinSession,
    now: Timestamp,
    after: N4Lifecycle,
)
    requires
        before.dispatch is Some,
        is_begun(before, row, advanced, now, after),
    ensures
        after.dispatch matches Some(request) && {
            let reserved = before.dispatch->Some_0;
            &&& request.state == DispatchState::DispatchStarted
            &&& request.fence matches Some(fence) && fence.authorization_generation
                == row.authorization_generation.number && fence.configuration_generation
                == row.configuration_generation.number && fence.configuration_fingerprint@
                == row.configuration_fingerprint@
            &&& request.dispatched_at_ms matches Some(at) && at == now.millis()
            &&& request.join_session_id == reserved.join_session_id
            &&& request.invitation_id == reserved.invitation_id
            &&& request.network_id == reserved.network_id
            &&& request.provider_instance_id == reserved.provider_instance_id
            &&& request.provider_principal_id == reserved.provider_principal_id
            &&& request.create_request_id == reserved.create_request_id
            &&& request.credential_id == reserved.credential_id
            &&& request.resolved_at_ms == reserved.resolved_at_ms
        },
        after.session matches Some(stored) && stored.record == Ok::<JoinSession, String>(advanced)
            && stored.updated_at@ == now.text()
            && stored.state@ == ascii_lower(advanced.state.text()),
        after.invitation == before.invitation,
        after.details == before.details,
        after.reference == before.reference,
        after.metadata == before.metadata,
{
}

/// What is handed to the provider names the stored request, and the generations
/// and the fingerprint that fence it.
pub proof fn law_dispatch_names_the_stored_request(
    dispatched: N4CredentialDispatch,
    join_session_id: JoinSessionId,
    before: N4Lifecycle,
    row: ConfigurationRow,
    advanced: JoinSession,
    now: Timestamp,
    after: N4Lifecycle,
)
    requires
        before.dispatch is Some,
        is_begun(before, row, advanced, now, after),
        dispatched.dispatches(join_session_id, before.dispatch->Some_0, row),
    ensures
        dispatched.join_session_id == join_session_id,
        before.dispatch->Some_0.invitation_id.parsed matches Ok(id) && id
            == dispatched.invitation_id,
        before.dispatch->Some_0.network_id.parsed matches Ok(id) && id == dispatched.network_id,
        before.dispatch->Some_0.provider_instance_id.parsed matches Ok(id) && id
            == dispatched.context.provider_instance_id,
        dispatched.context.provider_principal_id@
            == before.dispatch->Some_0.provider_principal_id@,
        after.dispatch->Some_0.fence matches Some(fence) && {
            &&& dispatched.authorization_generation.value == fence.authorization_generation
            &&& dispatched.configuration_generation.value == fence.configuration_generation
            &&& dispatched.configuration_fingerprint@ == fence.configuration_fingerprint@
        },
{
}

/// The authorization that goes with a request is for the creation of a
/// credential at its network and provider, and bears all that the configuration
/// bears.
pub proof fn law_dispatch_authorization_is_for_creation(
    facts: AuthorizationFacts,
    before: N4Lifecycle,
    row: ConfigurationRow,
)
    requires
        before.dispatch is Some,
        is_authorization_for(facts, before.dispatch->Some_0, row),
    ensures
        facts.capability == ProviderMutationCapability::CreateJoinCredential,
        before.dispatch->Some_0.network_id.parsed matches Ok(id) && id == facts.network_id,
        before.dispatch->Some_0.provider_instance_id.parsed matches Ok(id) && id
            == facts.provider_instance_id,
        facts.authorization_generation.value == row.authorization_generation.number,
        facts.configuration_generation.value == row.configuration_generation.number,
        facts.configuration_fingerprint@ == row.configuration_fingerprint@,
        facts.adapter@ == row.adapter@,
        facts.expected_version@ == row.expected_version@,
        facts.not_before.millis() == row.not_before_ms,
        facts.expires_at.millis() == row.expires_at_ms,
        facts.policy_mode.text() == row.policy_mode@,
{
}

/// A confirmation is refused for its metadata only where the principal is no
/// safe identifier, the credential is ephemeral, it carries no tag or more than
/// four, or one of its tags is not approved; there it always is. One to four
/// approved tags are never the reason.
pub proof fn law_confirmation_is_refused_for_bad_metadata_only(
    join_session: Seq<char>,
    lifecycle: Option<N4Lifecycle>,
    confirmation: N4CredentialConfirmation,
)
    ensures
        confirm_problem(join_session, lifecycle, confirmation) == Some(
            StateErrorView::Conflict("invalid N4 credential metadata"@),
        ) <==> {
            ||| !is_identifier(confirmation.provider_principal_id@)
            ||| confirmation.ephemeral
            ||| confirmation.approved_tags@.len() == 0
            ||| confirmation.approved_tags@.len() > 4
            ||| exists|i: int|
                0 <= i < confirmation.approved_tags@.len() && {
                    let tag = (#[trigger] confirmation.approved_tags@[i])@;
                    &&& tag != "tag:nodescale-node"@
                    &&& tag != "tag:nodescale-worker"@
                    &&& tag != "tag:nodescale-controller"@
                    &&& tag != "tag:nodescale-profile-host"@
                    &&& tag != "tag:nodescale-observer"@
                    &&& tag != "tag:nodescale-admin"@
                }
        },
{
    reveal_strlit("invalid N4 credential metadata");
    reveal_strlit("N4 confirmation is not valid for the durable fence");
    reveal_strlit("generation overflow");
    assert("invalid N4 credential metadata"@.len() == 30);
    assert("N4 confirmation is not valid for the durable fence"@.len() == 50);
    assert("generation overflow"@.len() == 19);
}

/// A confirmation with admissible metadata is stored exactly if the request is
/// started and fenced, for the same principal, the invitation is being redeemed
/// for its single use, and the credential was confirmed before both expire and
/// does not outlive the invitation.
pub proof fn law_confirmation_belongs_to_the_request(
    join_session: Seq<char>,
    lifecycle: Option<N4Lifecycle>,
    confirmation: N4CredentialConfirmation,
)
    requires
        confirm_problem(join_session, lifecycle, confirmation) != Some(
            StateErrorView::Conflict("invalid N4 credential metadata"@),
        ),
    ensures
        confirm_problem(join_session, lifecycle, confirmation) is None <==> (
        lifecycle matches Some(stored) && stored.dispatch matches Some(request)
            && request.fence matches Some(fence) && stored.invitation.record matches Ok(record) && {
            &&& stored.session is Some
            &&& request.state == DispatchState::DispatchStarted
            &&& request.provider_principal_id@ == confirmation.provider_principal_id@
            &&& record.state == InvitationState::Redeeming
            &&& record.used_count == 1
            &&& record.max_uses == 1
            &&& confirmation.confirmed_at.before(record.expires_at)
            &&& confirmation.confirmed_at.before(confirmation.expires_at)
            &&& !record.expires_at.before(confirmation.expires_at)
            &&& fence.authorization_generation <= 0x7fff_ffff_ffff_ffff
            &&& fence.configuration_generation <= 0x7fff_ffff_ffff_ffff
        }),
        (lifecycle is None || lifecycle->Some_0.dispatch is None || lifecycle->Some_0.session
            is None) ==> confirm_problem(join_session, lifecycle, confirmation) == Some(
            StateErrorView::NotFound(join_session),
        ),
        (lifecycle matches Some(stored) && stored.dispatch matches Some(request)
            && stored.invitation.record matches Ok(record) && stored.session is Some
            && request.fence is Some && (request.state
            != DispatchState::DispatchStarted || request.provider_principal_id@
            != confirmation.provider_principal_id@ || record.state != InvitationState::Redeeming
            || !confirmation.confirmed_at.before(record.expires_at) || record.expires_at.before(
            confirmation.expires_at,
        ))) ==> confirm_problem(join_session, lifecycle, confirmation) == Some(
            StateErrorView::Conflict("N4 confirmation is not valid for the durable fence"@),
        ),
{
}

/// Once a confirmation belongs to its request, it fails only where the session
/// cannot be read, its rules refuse the next state, or the invitation of the
/// request cannot be read.
pub proof fn law_confirmation_fails_for_the_session_only(
    stored: N4Lifecycle,
    issued: Result<JoinSession, String>,
)
    requires
        stored.session is Some,
        stored.dispatch is Some,
    ensures
        confirm_rest_problem(stored, issued) is None <==> {
            &&& stored.session->Some_0.record is Ok
            &&& issued is Ok
            &&& stored.dispatch->Some_0.invitation_id.parsed is Ok
        },
        stored.session->Some_0.record is Ok && issued is Err ==> confirm_rest_problem(
            stored,
            issued,
        ) == Some(StateErrorView::Conflict(issued->Err_0@)),
{
}

/// The stored row of a confirmed credential bears the fence of its request and
/// what the provider confirmed, for one use.
pub proof fn law_confirmed_row_bears_the_fence(
    row: CredentialReferenceRow,
    before: N4Lifecycle,
    confirmation: N4CredentialConfirmation,
)
    requires
        before.dispatch is Some,
        row.confirms(before.dispatch->Some_0, confirmation),
    ensures
        row.credential@ == confirmation.credential_id@,
        row.provider_reference@ == confirmation.provider_reference@,
        row.network@ == before.dispatch->Some_0.network_id.text@,
        row.provider_instance@ == before.dispatch->Some_0.provider_instance_id.text@,
        before.dispatch->Some_0.fence matches Some(fence) && row.authorization_generation
            == fence.authorization_generation && row.configuration_generation
            == fence.configuration_generation && row.configuration_fingerprint@
            == fence.configuration_fingerprint@,
        row.confirmed_at_ms == confirmation.confirmed_at.millis(),
        row.expires_at_ms == confirmation.expires_at.millis(),
        row.max_uses == 1,
{
}

/// A confirmation consumes the invitation at the time of the confirmation, at
/// the next revision, names its credential on the invitation and on the request,
/// and remembers what was confirmed, with the credential still active. Neither
/// the revocation nor the expiry of the invitation is touched, and the fence of
/// the request stays.
pub proof fn law_confirmation_consumes(
    before: N4Lifecycle,
    record: Invitation,
    confirmation: N4CredentialConfirmation,
    issued: JoinSession,
    after: N4Lifecycle,
)
    requires
        before.invitation.record == Ok::<Invitation, String>(record),
        before.dispatch is Some,
        before.details.revision < u64::MAX,
        is_confirmed(before, confirmation, issued, after),
    ensures
        after.invitation.record matches Ok(consumed) && {
            &&& consumed.state == InvitationState::Consumed
            &&& consumed.provider_credential_reference == Some(confirmation.credential_id)
            &&& consumed.used_count == record.used_count
            &&& consumed.max_uses == record.max_uses
            &&& consumed.invitation_id == record.invitation_id
            &&& consumed.network_id == record.network_id
            &&& consumed.expires_at == record.expires_at
            &&& consumed.created_at == record.created_at
            &&& consumed.join_constraints == record.join_constraints
            &&& consumed.roles == record.roles
            &&& consumed.secret_verifier == record.secret_verifier
        },
        after.invitation.state@ == "consumed"@,
        after.invitation.used_count == before.invitation.used_count,
        after.details.revision == before.details.revision + 1,
        after.details.consumed_at_ms matches Some(at) && at == confirmation.confirmed_at.millis(),
        after.details.revoked_at_ms == before.details.revoked_at_ms,
        after.details.expired_at_ms == before.details.expired_at_ms,
        after.details.last_redemption_at_ms == before.details.last_redemption_at_ms,
        after.details.last_redemption_metadata_json == before.details.last_redemption_metadata_json,
        after.details.network_id == before.details.network_id,
        after.details.provider_instance_id == before.details.provider_instance_id,
        after.details.provider_principal_id == before.details.provider_principal_id,
        after.session matches Some(row) && row.record == Ok::<JoinSession, String>(issued)
            && row.updated_at@ == confirmation.confirmed_at.text()
            && row.state@ == ascii_lower(issued.state.text()),
        after.dispatch matches Some(request) && {
            let started = before.dispatch->Some_0;
            &&& request.state == DispatchState::Confirmed
            &&& request.credential_id matches Some(id) && id.parsed matches Ok(known) && known
                == confirmation.credential_id && id.text@ == known@
            &&& request.resolved_at_ms matches Some(at) && at == confirmation.confirmed_at.millis()
            &&& request.fence == started.fence
            &&& request.dispatched_at_ms == started.dispatched_at_ms
            &&& request.join_session_id == started.join_session_id
            &&& request.invitation_id == started.invitation_id
            &&& request.network_id == started.network_id
            &&& request.provider_instance_id == started.provider_instance_id
            &&& request.provider_principal_id == started.provider_principal_id
            &&& request.create_request_id == started.create_request_id
        },
        after.reference matches Some(reference) && reference.parsed matches Ok(known) && known
            == confirmation.provider_reference && reference.text@ == known@,
        after.metadata matches Some(metadata) && {
            &&& metadata.provider_principal_id@ == confirmation.provider_principal_id@
            &&& metadata.ephemeral == confirmation.ephemeral
            &&& metadata.approved_tags@ == confirmation.approved_tags@
            &&& metadata.expires_at_ms == confirmation.expires_at.millis()
            &&& metadata.confirmed_at_ms == confirmation.confirmed_at.millis()
            &&& metadata.invalidation_state@ == "active"@
            &&& metadata.invalidated_at_ms is None
            &&& metadata.safe_correlation_json@ == confirmation.safe_correlation.digest_document()
        },
{
}

/// A request fails before it is handed over only while it is reserved, and in
/// any other way only once it is started; a failure that fits is stored wherever
/// the records can be read and the rules of sessions agree.
pub proof fn law_failure_fits_the_fence(
    join_session: Seq<char>,
    lifecycle: Option<N4Lifecycle>,
    failure: N4DispatchFailure,
    failed: Result<JoinSession, String>,
)
    ensures
        fail_problem(join_session, lifecycle, failure, failed) is None <==> {
            &&& failed is Ok
            &&& lifecycle matches Some(stored) && stored.dispatch matches Some(request)
                && stored.session matches Some(session) && {
                &&& failure == N4DispatchFailure::PreDispatch ==> request.state
                    == DispatchState::Reserved
                &&& failure == N4DispatchFailure::DefiniteNoApply ==> request.state
                    == DispatchState::DispatchStarted
                &&& failure == N4DispatchFailure::Ambiguous ==> request.state
                    == DispatchState::DispatchStarted
                &&& stored.invitation.record is Ok
                &&& session.record is Ok
                &&& request.invitation_id.parsed is Ok
            }
        },
        (lifecycle is None || lifecycle->Some_0.dispatch is None || lifecycle->Some_0.session
            is None) ==> fail_problem(join_session, lifecycle, failure, failed) == Some(
            StateErrorView::NotFound(join_session),
        ),
        (lifecycle matches Some(stored) && stored.dispatch matches Some(request)
            && stored.session is Some && request.state != DispatchState::Reserved && request.state
            != DispatchState::DispatchStarted) ==> fail_problem(
            join_session,
            lifecycle,
            failure,
            failed,
        ) == Some(StateErrorView::Conflict("N4 failure conflicts with dispatch fence"@)),
{
}

/// A failure loses the invitation and resolves the request at that time, under
/// the name of the failure; a request whose outcome is unknown never counts as
/// failed for good. The details, the fence and the rest stay.
pub proof fn law_failure_is_recorded_by_its_kind(
    before: N4Lifecycle,
    record: Invitation,
    failure: N4DispatchFailure,
    failed: JoinSession,
    now: Timestamp,
    after: N4Lifecycle,
)
    requires
        before.invitation.record == Ok::<Invitation, String>(record),
        before.dispatch is Some,
        is_failed(before, failure, failed, now, after),
    ensures
        after.invitation.record matches Ok(lost) && {
            &&& lost.state == InvitationState::Failed
            &&& lost.used_count == record.used_count
            &&& lost.max_uses == record.max_uses
            &&& lost.invitation_id == record.invitation_id
            &&& lost.network_id == record.network_id
            &&& lost.expires_at == record.expires_at
            &&& lost.created_at == record.created_at
            &&& lost.join_constraints == record.join_constraints
            &&& lost.roles == record.roles
            &&& lost.secret_verifier == record.secret_verifier
            &&& lost.provider_credential_reference == record.provider_credential_reference
        },
        after.invitation.state@ == "failed"@,
        after.invitation.used_count == before.invitation.used_count,
        after.dispatch matches Some(request) && {
            let open = before.dispatch->Some_0;
            &&& failure == N4DispatchFailure::PreDispatch <==> request.state
                == DispatchState::FailedPreDispatch
            &&& failure == N4DispatchFailure::DefiniteNoApply <==> request.state
                == DispatchState::FailedNoApply
            &&& failure == N4DispatchFailure::Ambiguous <==> request.state
                == DispatchState::Ambiguous
            &&& request.resolved_at_ms matches Some(at) && at == now.millis()
            &&& request.fence == open.fence
            &&& request.credential_id == open.credential_id
            &&& request.dispatched_at_ms == open.dispatched_at_ms
            &&& request.join_session_id == open.join_session_id
            &&& request.invitation_id == open.invitation_id
            &&& request.network_id == open.network_id
            &&& request.provider_instance_id == open.provider_instance_id
            &&& request.provider_principal_id == open.provider_principal_id
            &&& request.create_request_id == open.create_request_id
        },
        after.session matches Some(row) && row.record == Ok::<JoinSession, String>(failed)
            && row.updated_at@ == now.text() && row.state@ == ascii_lower(failed.state.text()),
        after.details == before.details,
        after.reference == before.reference,
        after.metadata == before.metadata,
{
}

/// The session of a failed request fails, unless the outcome is unknown: then it
/// stays in doubt.
pub proof fn law_failed_session_is_in_doubt_only_if_ambiguous(failure: N4DispatchFailure)
    ensures
        failure == N4DispatchFailure::Ambiguous <==> failed_session(failure)
            == JoinSessionState::ProviderCredentialAmbiguous,
        failure != N4DispatchFailure::Ambiguous <==> failed_session(failure)
            == JoinSessionState::Failed,
{
}

/// The end of an invitation is prepared only where its records can be read; its
/// expiry only once its deadline is reached, its revocation at any time.
pub proof fn law_expiry_waits_for_the_deadline(
    store: StateStore,
    invitation: Seq<char>,
    lifecycle: Option<N4Lifecycle>,
    intent: N4CleanupIntent,
    answers: CleanupAnswers,
    now: Timestamp,
)
    ensures
        preparation_problem(store, invitation, lifecycle, intent, answers, now) is None ==> (
        lifecycle matches Some(stored) && stored.invitation.record matches Ok(record) && {
            &&& intent == N4CleanupIntent::Expired ==> !now.before(record.expires_at)
            &&& stored.details.provider_instance_id.parsed is Ok
            &&& stored.dispatch matches Some(request) ==> {
                &&& request.join_session_id.parsed is Ok
                &&& request.credential_id matches Some(id) ==> id.parsed is Ok && (
                stored.reference matches Some(name) ==> name.parsed is Ok)
            }
        }),
        lifecycle is None ==> preparation_problem(
            store,
            invitation,
            lifecycle,
            intent,
            answers,
            now,
        ) == Some(StateErrorView::NotFound(invitation)),
        (lifecycle matches Some(stored) && stored.invitation.record matches Ok(record)
            && now.before(record.expires_at)) ==> preparation_problem(
            store,
            invitation,
            lifecycle,
            N4CleanupIntent::Expired,
            answers,
            now,
        ) == Some(StateErrorView::Conflict("N4 invitation has not reached its expiry deadline"@)),
{
}

/// The end of an invitation is owed: where its records can be read, the deadline
/// of an expiry is reached, the rules of invitations and sessions agree and the
/// event can be recorded, nothing refuses it.
pub proof fn law_cleanup_is_owed(
    store: StateStore,
    invitation: Seq<char>,
    stored: N4Lifecycle,
    record: Invitation,
    intent: N4CleanupIntent,
    answers: CleanupAnswers,
    now: Timestamp,
)
    requires
        stored.invitation.record == Ok::<Invitation, String>(record),
        intent == N4CleanupIntent::Expired ==> !now.before(record.expires_at),
        stored.details.provider_instance_id.parsed is Ok,
        stored.dispatch matches Some(request) ==> request.join_session_id.parsed is Ok,
        stored.dispatch matches Some(request) ==> (request.credential_id
            matches Some(id) ==> id.parsed is Ok),
        stored.reference matches Some(name) ==> name.parsed is Ok,
        stored.dispatch is Some ==> stored.session is Some && stored.session->Some_0.record is Ok,
        answers.pending is Ok,
        answers.ended is Ok,
        answers.pending_session is Ok,
        answers.ended_session is Ok,
        !store.fails_n4_audit(AuditKind::InvitationRevoked),
        !store.fails_n4_audit(AuditKind::InvitationExpired),
    ensures
        preparation_problem(store, invitation, Some(stored), intent, answers, now) is None,
{
}

/// Where the rules of invitations refuse the pending state, an invitation that
/// has no request and is not under way to its end is refused for their reason.
pub proof fn law_cleanup_obeys_the_rules_of_invitations(
    store: StateStore,
    invitation: Seq<char>,
    stored: N4Lifecycle,
    record: Invitation,
    intent: N4CleanupIntent,
    answers: CleanupAnswers,
    now: Timestamp,
)
    requires
        stored.invitation.record == Ok::<Invitation, String>(record),
        intent == N4CleanupIntent::Expired ==> !now.before(record.expires_at),
        stored.details.provider_instance_id.parsed is Ok,
        stored.dispatch is None,
        record.state != InvitationState::Revoked,
        record.state != InvitationState::Expired,
        record.state != InvitationState::Revoking,
        record.state != InvitationState::Expiring,
    ensures
        answers.pending is Err ==> preparation_problem(
            store,
            invitation,
            Some(stored),
            intent,
            answers,
            now,
        ) == Some(StateErrorView::Conflict(answers.pending->Err_0@)),
        answers.pending is Ok && answers.ended is Err ==> preparation_problem(
            store,
            invitation,
            Some(stored),
            intent,
            answers,
            now,
        ) == Some(StateErrorView::Conflict(answers.ended->Err_0@)),
{
}

/// What is handed out for the cleanup is the invitation, its network, provider
/// and reason, and of the request what is stored: the credential is uncertain
/// exactly where there is a request but no name for its credential.
pub proof fn law_cleanup_target_names_what_is_stored(
    invitation_id: InvitationId,
    stored: N4Lifecycle,
    record: Invitation,
    intent: N4CleanupIntent,
)
    requires
        stored.invitation.record == Ok::<Invitation, String>(record),
        stored.details.provider_instance_id.parsed is Ok,
        stored.dispatch matches Some(request) ==> request.join_session_id.parsed is Ok,
        stored.dispatch matches Some(request) ==> (request.credential_id
            matches Some(id) ==> id.parsed is Ok),
        stored.reference matches Some(name) ==> name.parsed is Ok,
    ensures
        target_of(invitation_id, stored, intent).invitation_id == invitation_id,
        target_of(invitation_id, stored, intent).network_id == record.network_id,
        target_of(invitation_id, stored, intent).provider_instance_id
            == stored.details.provider_instance_id.parsed->Ok_0,
        target_of(invitation_id, stored, intent).intent == intent,
        stored.dispatch is None ==> {
            let target = target_of(invitation_id, stored, intent);
            &&& target.join_session_id is None
            &&& target.credential_id is None
            &&& target.provider_reference is None
            &&& !target.cleanup_uncertain
        },
        stored.dispatch matches Some(request) ==> {
            let target = target_of(invitation_id, stored, intent);
            &&& target.join_session_id == Some(request.join_session_id.parsed->Ok_0)
            &&& match request.credential_id {
                Some(id) => target.credential_id == Some(id.parsed->Ok_0),
                None => target.credential_id is None && target.provider_reference is None
                    && target.cleanup_uncertain,
            }
            &&& request.credential_id is Some ==> match stored.reference {
                Some(name) => target.provider_reference == Some(name.parsed->Ok_0)
                    && !target.cleanup_uncertain,
                None => target.provider_reference is None && target.cleanup_uncertain,
            }
        },
{
}

/// An invitation that ended stays as it is, and so does one whose credential is
/// being invalidated, except that an expiry ends a revocation for which there is
/// nothing to ask the provider about.
pub proof fn law_cleanup_leaves_the_rest_alone(
    before: N4Lifecycle,
    record: Invitation,
    intent: N4CleanupIntent,
    answers: CleanupAnswers,
    now: Timestamp,
    after: N4Lifecycle,
)
    requires
        before.invitation.record == Ok::<Invitation, String>(record),
        is_prepared(before, intent, answers, now, after),
    ensures
        record.state == InvitationState::Revoked || record.state == InvitationState::Expired
            ==> after == before,
        (before.dispatch matches Some(request) && request.state == DispatchState::RevocationPending
            && (intent == N4CleanupIntent::Revoked || (request.credential_id is Some
            && before.reference is Some))) ==> after == before,
{
}

/// A confirmed credential that is known by name, and, on a revocation, a request
/// whose outcome is not known, is still to be dealt with at the provider: the
/// request becomes pending, the invitation and the session move to what their
/// rules answered, a stored credential is marked pending, and the invitation has
/// not ended yet.
pub proof fn law_cleanup_asks_the_provider_first(
    before: N4Lifecycle,
    record: Invitation,
    intent: N4CleanupIntent,
    answers: CleanupAnswers,
    now: Timestamp,
    after: N4Lifecycle,
)
    requires
        before.invitation.record == Ok::<Invitation, String>(record),
        record.state != InvitationState::Revoked,
        record.state != InvitationState::Expired,
        before.dispatch matches Some(request) && {
            ||| request.state == DispatchState::Confirmed && request.credential_id is Some
                && before.reference is Some
            ||| intent == N4CleanupIntent::Revoked && !(request.credential_id is Some
                && before.reference is Some) && (request.state == DispatchState::DispatchStarted
                || request.state == DispatchState::Ambiguous)
        },
        answers.pending is Ok,
        answers.pending_session is Ok,
        is_prepared(before, intent, answers, now, after),
    ensures
        after.invitation.record matches Ok(pending) && {
            &&& pending.state == answers.pending->Ok_0
            &&& pending.used_count == record.used_count
            &&& pending.max_uses == record.max_uses
            &&& pending.invitation_id == record.invitation_id
            &&& pending.network_id == record.network_id
            &&& pending.expires_at == record.expires_at
            &&& pending.created_at == record.created_at
            &&& pending.roles == record.roles
            &&& pending.join_constraints == record.join_constraints
            &&& pending.secret_verifier == record.secret_verifier
            &&& pending.provider_credential_reference == record.provider_credential_reference
        },
        after.invitation.state@ == ascii_lower(answers.pending->Ok_0.text()),
        after.invitation.used_count == before.invitation.used_count,
        after.details == before.details,
        after.dispatch matches Some(request) && {
            let open = before.dispatch->Some_0;
            &&& request.state == DispatchState::RevocationPending
            &&& request.credential_id == open.credential_id
            &&& request.fence == open.fence
            &&& request.dispatched_at_ms == open.dispatched_at_ms
            &&& request.resolved_at_ms == open.resolved_at_ms
            &&& request.join_session_id == open.join_session_id
            &&& request.invitation_id == open.invitation_id
            &&& request.network_id == open.network_id
            &&& request.provider_instance_id == open.provider_instance_id
            &&& request.provider_principal_id == open.provider_principal_id
            &&& request.create_request_id == open.create_request_id
        },
        after.session matches Some(row) && row.record matches Ok(session) && session
            == answers.pending_session->Ok_0 && row.updated_at@ == now.text()
            && row.state@ == ascii_lower(session.state.text()),
        after.reference == before.reference,
        before.metadata is None ==> after.metadata is None,
        before.metadata matches Some(known) ==> (after.metadata matches Some(pending) && {
            &&& pending.invalidation_state@ == (if before.dispatch->Some_0.credential_id is Some
                && before.reference is Some {
                "pending"@
            } else {
                known.invalidation_state@
            })
            &&& pending.invalidated_at_ms == known.invalidated_at_ms
            &&& pending.provider_principal_id == known.provider_principal_id
            &&& pending.ephemeral == known.ephemeral
            &&& pending.approved_tags == known.approved_tags
            &&& pending.expires_at_ms == known.expires_at_ms
            &&& pending.confirmed_at_ms == known.confirmed_at_ms
            &&& pending.safe_correlation_json == known.safe_correlation_json
        }),
{
}

/// An invitation with nothing to ask the provider about ends at once: its time
/// is noted under the reason alone, at the next revision; a request that is not
/// under way is resolved under the reason; its session ends, unless it has ended
/// or failed before.
pub proof fn law_cleanup_ends_what_never_reached_the_provider(
    before: N4Lifecycle,
    record: Invitation,
    intent: N4CleanupIntent,
    answers: CleanupAnswers,
    now: Timestamp,
    after: N4Lifecycle,
)
    requires
        before.invitation.record == Ok::<Invitation, String>(record),
        record.state != InvitationState::Revoked,
        record.state != InvitationState::Expired,
        before.details.revision < u64::MAX,
        before.dispatch matches Some(request) ==> {
            let referenced = request.credential_id is Some && before.reference is Some;
            &&& request.state == DispatchState::RevocationPending ==> intent
                == N4CleanupIntent::Expired && !referenced
            &&& request.state == DispatchState::Confirmed ==> !referenced
            &&& request.state == DispatchState::DispatchStarted || request.state
                == DispatchState::Ambiguous ==> referenced || intent == N4CleanupIntent::Expired
        },
        before.dispatch is Some ==> before.session is Some && before.session->Some_0.record is Ok,
        answers.ended is Ok,
        answers.ended_session is Ok,
        is_prepared(before, intent, answers, now, after),
    ensures
        after.invitation.record matches Ok(ended) && {
            &&& ended.state == (if intent == N4CleanupIntent::Expired && record.state
                == InvitationState::Revoking {
                InvitationState::Expired
            } else {
                answers.ended->Ok_0
            })
            &&& ended.used_count == record.used_count
            &&& ended.max_uses == record.max_uses
            &&& ended.invitation_id == record.invitation_id
            &&& ended.network_id == record.network_id
            &&& ended.expires_at == record.expires_at
            &&& ended.created_at == record.created_at
            &&& ended.roles == record.roles
            &&& ended.join_constraints == record.join_constraints
            &&& ended.secret_verifier == record.secret_verifier
            &&& ended.provider_credential_reference == record.provider_credential_reference
        },
        after.invitation.state@ == ascii_lower(after.invitation.record->Ok_0.state.text()),
        after.invitation.used_count == before.invitation.used_count,
        after.details.revision == before.details.revision + 1,
        intent == N4CleanupIntent::Revoked ==> {
            &&& after.details.revoked_at_ms matches Some(at) && at == now.millis()
            &&& after.details.expired_at_ms == before.details.expired_at_ms
        },
        intent == N4CleanupIntent::Expired ==> {
            &&& after.details.expired_at_ms matches Some(at) && at == now.millis()
            &&& after.details.revoked_at_ms == before.details.revoked_at_ms
        },
        after.details.consumed_at_ms == before.details.consumed_at_ms,
        after.details.last_redemption_at_ms == before.details.last_redemption_at_ms,
        after.details.last_redemption_metadata_json == before.details.last_redemption_metadata_json,
        after.details.network_id == before.details.network_id,
        after.details.provider_instance_id == before.details.provider_instance_id,
        after.details.provider_principal_id == before.details.provider_principal_id,
        before.dispatch is None ==> after.dispatch is None && after.session == before.session,
        before.dispatch matches Some(open) ==> (after.dispatch matches Some(request) && {
            &&& if open.state == DispatchState::Reserved || open.state
                == DispatchState::FailedPreDispatch || open.state == DispatchState::FailedNoApply
                || open.state == DispatchState::RevocationPending {
                &&& intent == N4CleanupIntent::Revoked ==> request.state == DispatchState::Revoked
                &&& intent == N4CleanupIntent::Expired ==> request.state == DispatchState::Expired
                &&& open.resolved_at_ms is Some ==> request.resolved_at_ms == open.resolved_at_ms
                &&& open.resolved_at_ms is None ==> request.resolved_at_ms is Some
                    && request.resolved_at_ms->Some_0 == now.millis()
            } else {
                request.state == open.state && request.resolved_at_ms == open.resolved_at_ms
            }
            &&& request.credential_id == open.credential_id
            &&& request.fence == open.fence
            &&& request.dispatched_at_ms == open.dispatched_at_ms
            &&& request.join_session_id == open.join_session_id
            &&& request.invitation_id == open.invitation_id
            &&& request.network_id == open.network_id
            &&& request.provider_instance_id == open.provider_instance_id
            &&& request.provider_principal_id == open.provider_principal_id
            &&& request.create_request_id == open.create_request_id
        }),
        before.dispatch is Some ==> {
            let state = before.session->Some_0.record->Ok_0.state;
            if state == JoinSessionState::Failed || (intent == N4CleanupIntent::Revoked && state
                == JoinSessionState::Revoked) || (intent == N4CleanupIntent::Expired && state
                == JoinSessionState::Expired) {
                after.session == before.session
            } else {
                after.session matches Some(row) && row.record matches Ok(session) && session
                    == answers.ended_session->Ok_0 && row.updated_at@ == now.text()
                    && row.state@ == ascii_lower(session.state.text())
            }
        },
        after.reference == before.reference,
        after.metadata == before.metadata,
{
}

/// The end of an invitation is an event, under the name of the reason, exactly
/// where the invitation ends at once and the event is new; a cleanup that has to
/// ask the provider first is none yet.
pub proof fn law_cleanup_is_recorded_when_it_ends(
    log: AuditLog,
    before: N4Lifecycle,
    record: Invitation,
    invitation_id: InvitationId,
    intent: N4CleanupIntent,
    actor: AuditActor,
)
    requires
        before.invitation.record == Ok::<Invitation, String>(record),
    ensures
        record.state == InvitationState::Revoked || record.state == InvitationState::Expired
            ==> preparation_events(log, before, invitation_id, intent, actor).len() == 0,
        (before.dispatch matches Some(request) && request.state == DispatchState::Confirmed
            && request.credential_id is Some && before.reference is Some) ==> preparation_events(
            log,
            before,
            invitation_id,
            intent,
            actor,
        ).len() == 0,
        record.state != InvitationState::Revoked && record.state != InvitationState::Expired && (
        before.dispatch is None || before.dispatch->Some_0.state == DispatchState::Reserved)
            && intent == N4CleanupIntent::Revoked && !log.is_recorded(
            "invitation:"@ + invitation_id@ + ":"@ + "Revoked"@,
            AuditKind::InvitationRevoked,
        ) ==> {
            let events = preparation_events(log, before, invitation_id, intent, actor);
            &&& events.len() == 1
            &&& events[0].kind == AuditKind::InvitationRevoked
            &&& events[0].outcome == AuditOutcome::Success
            &&& events[0].actor == actor
            &&& events[0].network_id == Some(before.details.network_id)
            &&& events[0].correlation == Some(
                (
                    invitation_id,
                    None::<JoinSessionId>,
                    "invitation:"@ + invitation_id@ + ":"@ + "Revoked"@,
                ),
            )
        },
        record.state != InvitationState::Revoked && record.state != InvitationState::Expired && (
        before.dispatch is None || before.dispatch->Some_0.state == DispatchState::Reserved)
            && intent == N4CleanupIntent::Expired && !log.is_recorded(
            "invitation:"@ + invitation_id@ + ":"@ + "Expired"@,
            AuditKind::InvitationExpired,
        ) ==> {
            let events = preparation_events(log, before, invitation_id, intent, actor);
            &&& events.len() == 1
            &&& events[0].kind == AuditKind::InvitationExpired
            &&& events[0].outcome == AuditOutcome::Success
            &&& events[0].actor == actor
            &&& events[0].network_id == Some(before.details.network_id)
            &&& events[0].correlation == Some(
                (
                    invitation_id,
                    None::<JoinSessionId>,
                    "invitation:"@ + invitation_id@ + ":"@ + "Expired"@,
                ),
            )
        },
{
}

/// A settlement is taken only for the very session, credential, provider name,
/// network and provider that are stored.
pub proof fn law_settlement_is_for_the_stored_credential(
    store: StateStore,
    target: N4CleanupTarget,
    lifecycle: Option<N4Lifecycle>,
    outcome: N4InvalidationOutcome,
    ended: Result<InvitationState, String>,
    ended_session: Result<JoinSession, String>,
)
    ensures
        settlement_problem(store, target, lifecycle, outcome, ended, ended_session) is None ==> (
        lifecycle matches Some(stored) && stored.dispatch matches Some(request)
            && request.credential_id matches Some(id) && stored.reference matches Some(name)
            && target.join_session_id matches Some(session)
            && target.credential_id matches Some(credential)
            && target.provider_reference matches Some(reference) && {
            &&& session@ == request.join_session_id.text@
            &&& credential@ == id.text@
            &&& reference@ == name.text@
            &&& target.network_id@ == request.network_id.text@
            &&& target.provider_instance_id@ == request.provider_instance_id.text@
        }),
        (lifecycle is None || lifecycle->Some_0.dispatch is None
            || lifecycle->Some_0.dispatch->Some_0.credential_id is None
            || lifecycle->Some_0.reference is None) ==> settlement_problem(
            store,
            target,
            lifecycle,
            outcome,
            ended,
            ended_session,
        ) == Some(
            StateErrorView::Conflict("N4 invalidation target has no exact durable credential"@),
        ),
{
}

/// A settlement for the stored credential is owed: an invalidation that was not
/// achieved is always taken; one that was achieved is taken where it is pending
/// and not settled yet, the records can be read, the rules agree and the event
/// can be recorded, or where it was settled before for the same reason.
pub proof fn law_settlement_is_owed(
    store: StateStore,
    target: N4CleanupTarget,
    stored: N4Lifecycle,
    outcome: N4InvalidationOutcome,
    ended: Result<InvitationState, String>,
    ended_session: Result<JoinSession, String>,
)
    requires
        stored.dispatch is Some,
        stored.dispatch->Some_0.credential_id is Some,
        stored.reference is Some,
        target.join_session_id is Some,
        target.credential_id is Some,
        target.provider_reference is Some,
        target.join_session_id->Some_0@ == stored.dispatch->Some_0.join_session_id.text@,
        target.credential_id->Some_0@ == stored.dispatch->Some_0.credential_id->Some_0.text@,
        target.provider_reference->Some_0@ == stored.reference->Some_0.text@,
        target.network_id@ == stored.dispatch->Some_0.network_id.text@,
        target.provider_instance_id@ == stored.dispatch->Some_0.provider_instance_id.text@,
    ensures
        outcome != N4InvalidationOutcome::Confirmed && outcome
            != N4InvalidationOutcome::AlreadySatisfied ==> settlement_problem(
            store,
            target,
            Some(stored),
            outcome,
            ended,
            ended_session,
        ) is None,
        (target.intent == N4CleanupIntent::Revoked && stored.dispatch->Some_0.state
            == DispatchState::Revoked) || (target.intent == N4CleanupIntent::Expired
            && stored.dispatch->Some_0.state == DispatchState::Expired) ==> settlement_problem(
            store,
            target,
            Some(stored),
            outcome,
            ended,
            ended_session,
        ) is None,
        outcome == N4InvalidationOutcome::Confirmed || outcome
            == N4InvalidationOutcome::AlreadySatisfied ==> {
            let problem = settlement_problem(
                store,
                target,
                Some(stored),
                outcome,
                ended,
                ended_session,
            );
            let state = stored.dispatch->Some_0.state;
            &&& state == DispatchState::RevocationPending ==> (problem is None <==> {
                &&& stored.metadata matches Some(known) && (known.invalidation_state@ == "pending"@
                    || known.invalidation_state@ == "retryable"@ || known.invalidation_state@
                    == "ambiguous"@ || known.invalidation_state@ == "blocked"@)
                &&& stored.invitation.record is Ok
                &&& ended is Ok
                &&& stored.session is Some && stored.session->Some_0.record is Ok
                &&& ended_session is Ok
                &&& !store.fails_n4_audit(AuditKind::JoinCredentialInvalidated)
            })
            &&& state != DispatchState::RevocationPending && state != DispatchState::Revoked
                && state != DispatchState::Expired ==> problem == Some(
                StateErrorView::Conflict("N4 invalidation is not pending"@),
            )
            &&& (state == DispatchState::Revoked && target.intent == N4CleanupIntent::Expired) || (
            state == DispatchState::Expired && target.intent == N4CleanupIntent::Revoked)
                ==> problem == Some(
                StateErrorView::Conflict(
                    "N4 terminal invalidation intent conflicts with durable dispatch"@,
                ),
            )
        },
{
}

/// An invalidation is achieved where the provider confirmed it or found it done
/// already, and in no other way; and it is settled once the request bears the
/// reason.
pub proof fn law_invalidation_is_achieved_by_the_provider(
    outcome: N4InvalidationOutcome,
    target: N4CleanupTarget,
    stored: N4Lifecycle,
)
    requires
        stored.dispatch is Some,
    ensures
        is_invalidated(outcome) <==> outcome == N4InvalidationOutcome::Confirmed || outcome
            == N4InvalidationOutcome::AlreadySatisfied,
        target.intent == N4CleanupIntent::Revoked ==> (is_settled(target, stored) <==>
            stored.dispatch->Some_0.state == DispatchState::Revoked),
        target.intent == N4CleanupIntent::Expired ==> (is_settled(target, stored) <==>
            stored.dispatch->Some_0.state == DispatchState::Expired),
{
}

/// A settlement notes its time under its own reason alone, an expiry as the time
/// of expiry and a revocation as the time of revocation, at the next revision;
/// the request bears the reason, and the credential counts as invalidated since
/// then.
pub proof fn law_settlement_notes_its_own_reason(
    before: N4Lifecycle,
    record: Invitation,
    intent: N4CleanupIntent,
    state: InvitationState,
    session: JoinSession,
    now: Timestamp,
    after: N4Lifecycle,
)
    requires
        before.invitation.record == Ok::<Invitation, String>(record),
        before.details.revision < u64::MAX,
        before.dispatch matches Some(request) && request.state == DispatchState::RevocationPending,
        before.metadata is Some,
        settles(before, intent, state, session, now, after),
    ensures
        intent == N4CleanupIntent::Expired ==> {
            &&& after.details.expired_at_ms matches Some(at) && at == now.millis()
            &&& after.details.revoked_at_ms == before.details.revoked_at_ms
            &&& after.dispatch->Some_0.state == DispatchState::Expired
        },
        intent == N4CleanupIntent::Revoked ==> {
            &&& after.details.revoked_at_ms matches Some(at) && at == now.millis()
            &&& after.details.expired_at_ms == before.details.expired_at_ms
            &&& after.dispatch->Some_0.state == DispatchState::Revoked
        },
        after.details.revision == before.details.revision + 1,
        after.details.consumed_at_ms == before.details.consumed_at_ms,
        after.details.last_redemption_at_ms == before.details.last_redemption_at_ms,
        after.details.last_redemption_metadata_json == before.details.last_redemption_metadata_json,
        after.details.network_id == before.details.network_id,
        after.details.provider_instance_id == before.details.provider_instance_id,
        after.details.provider_principal_id == before.details.provider_principal_id,
        after.invitation.record matches Ok(ended) && {
            &&& ended.state == state
            &&& ended.used_count == record.used_count
            &&& ended.max_uses == record.max_uses
            &&& ended.invitation_id == record.invitation_id
            &&& ended.network_id == record.network_id
            &&& ended.expires_at == record.expires_at
            &&& ended.created_at == record.created_at
            &&& ended.roles == record.roles
            &&& ended.join_constraints == record.join_constraints
            &&& ended.secret_verifier == record.secret_verifier
            &&& ended.provider_credential_reference == record.provider_credential_reference
        },
        after.invitation.state@ == ascii_lower(state.text()),
        after.invitation.used_count == before.invitation.used_count,
        after.dispatch matches Some(request) && {
            let open = before.dispatch->Some_0;
            &&& open.resolved_at_ms is Some ==> request.resolved_at_ms == open.resolved_at_ms
            &&& open.resolved_at_ms is None ==> request.resolved_at_ms is Some
                && request.resolved_at_ms->Some_0 == now.millis()
            &&& request.credential_id == open.credential_id
            &&& request.fence == open.fence
            &&& request.dispatched_at_ms == open.dispatched_at_ms
            &&& request.join_session_id == open.join_session_id
            &&& request.invitation_id == open.invitation_id
            &&& request.network_id == open.network_id
            &&& request.provider_instance_id == open.provider_instance_id
            &&& request.provider_principal_id == open.provider_principal_id
            &&& request.create_request_id == open.create_request_id
        },
        after.session matches Some(row) && row.record == Ok::<JoinSession, String>(session)
            && row.updated_at@ == now.text() && row.state@ == ascii_lower(session.state.text()),
        after.reference == before.reference,
        after.metadata matches Some(metadata) && {
            let known = before.metadata->Some_0;
            &&& metadata.invalidation_state@ == "confirmed"@
            &&& metadata.invalidated_at_ms matches Some(at) && at == now.millis()
            &&& metadata.provider_principal_id == known.provider_principal_id
            &&& metadata.ephemeral == known.ephemeral
            &&& metadata.approved_tags == known.approved_tags
            &&& metadata.expires_at_ms == known.expires_at_ms
            &&& metadata.confirmed_at_ms == known.confirmed_at_ms
            &&& metadata.safe_correlation_json == known.safe_correlation_json
        },
{
}

/// An invalidation that was not achieved is remembered under the name of its
/// outcome while it is open, and changes nothing else; once it is settled it
/// changes nothing at all.
pub proof fn law_missed_invalidation_is_remembered(
    before: N4Lifecycle,
    outcome: N4InvalidationOutcome,
    after: N4Lifecycle,
)
    requires
        stays_unsettled(before, outcome, after),
    ensures
        after.invitation == before.invitation,
        after.details == before.details,
        after.dispatch == before.dispatch,
        after.session == before.session,
        after.reference == before.reference,
        before.metadata is None ==> after.metadata is None,
        before.metadata matches Some(known) ==> (after.metadata matches Some(kept) && {
            &&& known.invalidation_state@ == "pending"@ || known.invalidation_state@
                == "retryable"@ || known.invalidation_state@ == "ambiguous"@
                || known.invalidation_state@ == "blocked"@ ==> kept.invalidation_state@ == (if outcome
                == N4InvalidationOutcome::Retryable {
                "retryable"@
            } else if outcome == N4InvalidationOutcome::Ambiguous {
                "ambiguous"@
            } else {
                "blocked"@
            })
            &&& known.invalidation_state@ == "active"@ || known.invalidation_state@
                == "confirmed"@ ==> kept == known
            &&& kept.invalidated_at_ms == known.invalidated_at_ms
            &&& kept.provider_principal_id == known.provider_principal_id
            &&& kept.ephemeral == known.ephemeral
            &&& kept.approved_tags == known.approved_tags
            &&& kept.expires_at_ms == known.expires_at_ms
            &&& kept.confirmed_at_ms == known.confirmed_at_ms
            &&& kept.safe_correlation_json == known.safe_correlation_json
        }),
{
    reveal_strlit("active");
    reveal_strlit("confirmed");
    reveal_strlit("pending");
    reveal_strlit("retryable");
    reveal_strlit("ambiguous");
    reveal_strlit("blocked");
    assert("active"@.len() == 6);
    assert("confirmed"@.len() == 9);
    assert("pending"@.len() == 7);
    assert("blocked"@.len() == 7);
    assert("confirmed"@[0] != "retryable"@[0]);
    assert("confirmed"@[0] != "ambiguous"@[0]);
    assert("retryable"@.len() == 9);
    assert("ambiguous"@.len() == 9);
}

/// A settlement that is new leaves two events: that the credential was
/// invalidated, and that the invitation ended for the reason, both of the one
/// action that names the credential and the reason.
pub proof fn law_settlement_leaves_two_events(
    log: AuditLog,
    target: N4CleanupTarget,
    before: N4Lifecycle,
    actor: AuditActor,
    action: Seq<char>,
)
    requires
        before.dispatch is Some,
        before.dispatch->Some_0.credential_id is Some,
        action == "credential-invalidation:"@ + before.dispatch->Some_0.credential_id->Some_0.text@
            + ":"@ + (if target.intent == N4CleanupIntent::Revoked {
            "Revoked"@
        } else {
            "Expired"@
        }),
        forall|kind: AuditKind| !log.is_recorded(action, kind),
    ensures
        settlement_events(log, target, before, actor).len() == 2,
        ({
            let events = settlement_events(log, target, before, actor);
            &&& events[0].kind == AuditKind::JoinCredentialInvalidated
            &&& target.intent == N4CleanupIntent::Revoked ==> events[1].kind
                == AuditKind::InvitationRevoked
            &&& target.intent == N4CleanupIntent::Expired ==> events[1].kind
                == AuditKind::InvitationExpired
            &&& forall|i: int|
                0 <= i < 2 ==> {
                    let event = #[trigger] events[i];
                    &&& event.outcome == AuditOutcome::Success
                    &&& event.actor == actor
                    &&& event.network_id == Some(before.details.network_id)
                    &&& event.device_id is None
                    &&& event.generation is None
                    &&& event.metadata_json == "{}"@
                    &&& event.correlation == Some(
                        (target.invitation_id, target.join_session_id, action),
                    )
                }
        }),
{
}

/// An event of an invitation names the network, the invitation, the session, the
/// action and who acted, and holds nothing else; it is recorded exactly if no
/// event of its kind was recorded for the action.
pub proof fn law_invitation_event_is_plain_and_recorded_once(
    log: AuditLog,
    network_id: NetworkId,
    invitation_id: InvitationId,
    session: Option<JoinSessionId>,
    action: Seq<char>,
    actor: AuditActor,
    kind: AuditKind,
    outcome: AuditOutcome,
)
    ensures
        ({
            let fact = n4_fact(network_id, invitation_id, session, action, actor, kind, outcome);
            &&& fact.network_id == Some(network_id)
            &&& fact.device_id is None
            &&& fact.actor == actor
            &&& fact.kind == kind
            &&& fact.outcome == outcome
            &&& fact.generation is None
            &&& fact.metadata_json == "{}"@
            &&& fact.correlation == Some((invitation_id, session, action))
            &&& log.is_recorded(action, kind) ==> recorded_once(log, fact) =~= Seq::<
                AuditFact,
            >::empty()
            &&& !log.is_recorded(action, kind) ==> recorded_once(log, fact) =~= seq![fact]
        }),
{
}

/// The deadline overtakes a revocation for which there is nothing to ask the
/// provider about: the invitation expires, whatever the rules of invitations
/// would answer.
pub proof fn law_expiry_overtakes_a_revocation(
    store: StateStore,
    invitation: Seq<char>,
    before: N4Lifecycle,
    record: Invitation,
    answers: CleanupAnswers,
    now: Timestamp,
    after: N4Lifecycle,
)
    requires
        before.invitation.record == Ok::<Invitation, String>(record),
        record.state == InvitationState::Revoking,
        !now.before(record.expires_at),
        before.details.provider_instance_id.parsed is Ok,
        before.dispatch matches Some(request) && request.state == DispatchState::RevocationPending
            && request.join_session_id.parsed is Ok && request.credential_id is None,
        before.session is Some,
        before.session->Some_0.record is Ok,
        answers.ended_session is Ok,
        !store.fails_n4_audit(AuditKind::InvitationExpired),
    ensures
        preparation_problem(
            store,
            invitation,
            Some(before),
            N4CleanupIntent::Expired,
            answers,
            now,
        ) is None,
        is_prepared(before, N4CleanupIntent::Expired, answers, now, after) ==> {
            &&& after.invitation.record matches Ok(ended) && ended.state == InvitationState::Expired
            &&& after.dispatch matches Some(request) && request.state == DispatchState::Expired
            &&& after.details.expired_at_ms matches Some(at) && at == now.millis()
            &&& after.details.revoked_at_ms == before.details.revoked_at_ms
        },
{
}

} // verus!
