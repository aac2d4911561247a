//! Which refusal comes for which reason, where all that is looked at before is
//! in order.

use crate::audit::StateStore;
use crate::authorization::{
    issue_problem, replacement_problem, AuthorityRecords, ConfigurationFacts, ConfigurationRow,
    StoredCredentialReference,
};
use crate::cleanup::{preparation_problem, settlement_problem, CleanupAnswers, N4CleanupTarget};
use crate::dispatch::{
    begin_authorized_problem, begin_problem, confirm_problem, fail_problem,
    N4CredentialConfirmation,
};
use crate::error::StateErrorView;
use crate::ids::Generation;
use crate::inventory::ObservationRow;
use crate::lifecycle::{view_problem, N4Dispatch, N4Lifecycle};
use crate::names::{
    AdoptionState, AuditKind, CompatibilityStatus, DispatchState, InvitationState,
    JoinSessionState, MutationPolicyMode, N4CleanupIntent, N4CleanupState, N4DispatchFailure,
    N4InvalidationOutcome, ObservationClassification, ProviderMutationCapability,
};
use crate::records::{Invitation, JoinSession};
use crate::redemption::{reserve_problem, N4PresentedMetadata};
use crate::report::ImportStatusRow;
use crate::rules::{is_fingerprint, is_identifier};
use crate::snapshot::ReconciliationImportRow;
use crate::time::{instant_of_text, is_millis, Timestamp};
use vstd::prelude::*;

verus! {

/// A reservation that the invitation admits is denied without a configuration in
/// force, lost where the columns beside the record say otherwise, refused for
/// the reason of the rules of sessions, and has no revision beyond the range.
pub proof fn law_admitted_reservation_is_refused_late(
    invitation: Seq<char>,
    stored: N4Lifecycle,
    record: Invitation,
    session: Result<JoinSession, String>,
    now: Timestamp,
    presented: N4PresentedMetadata,
    authority: AuthorityRecords,
)
    requires
        stored.invitation.record == Ok::<Invitation, String>(record),
        stored.details.provider_instance_id.parsed is Ok,
        is_identifier(stored.details.provider_principal_id@),
        record.state == InvitationState::Issued,
        record.used_count == 0,
        record.max_uses == 1,
        now.before(record.expires_at),
        record.join_constraints.expected_platform is None,
        record.join_constraints.expected_hostname_hint is None,
    ensures
        ({
            let problem = reserve_problem(
                invitation,
                Some(stored),
                stored.details.revision,
                session,
                now,
                presented,
                authority,
            );
            let allowed = authority.allows_lifecycle(
                record.network_id@,
                stored.details.provider_instance_id.text@,
                now.millis(),
            );
            &&& !allowed ==> problem == Some(
                StateErrorView::MutationAuthorizationDenied(
                    "N4 provider configuration unavailable"@,
                ),
            )
            &&& allowed && (stored.invitation.state@ != "issued"@ || stored.invitation.used_count
                != 0) ==> problem == Some(StateErrorView::Conflict("N4 reservation lost"@))
            &&& allowed && stored.invitation.state@ == "issued"@ && stored.invitation.used_count
                == 0 && session is Err ==> problem == Some(
                StateErrorView::Conflict(session->Err_0@),
            )
            &&& allowed && stored.invitation.state@ == "issued"@ && stored.invitation.used_count
                == 0 && session is Ok && stored.details.revision > 0x7fff_ffff_ffff_ffff
                ==> problem == Some(StateErrorView::Conflict("revision overflow"@))
        }),
{
}

/// What cannot be read of an invitation refuses its reservation first.
pub proof fn law_unreadable_invitation_is_not_reserved(
    invitation: Seq<char>,
    stored: N4Lifecycle,
    expected_revision: u64,
    session: Result<JoinSession, String>,
    now: Timestamp,
    presented: N4PresentedMetadata,
    authority: AuthorityRecords,
)
    ensures
        ({
            let problem = reserve_problem(
                invitation,
                Some(stored),
                expected_revision,
                session,
                now,
                presented,
                authority,
            );
            &&& stored.invitation.record is Err ==> problem == Some(
                StateErrorView::Serialization(stored.invitation.record->Err_0@),
            )
            &&& stored.invitation.record is Ok && stored.details.provider_instance_id.parsed is Err
                ==> problem == Some(
                StateErrorView::Conflict(stored.details.provider_instance_id.parsed->Err_0@),
            )
            &&& stored.invitation.record is Ok && stored.details.provider_instance_id.parsed is Ok
                && !is_identifier(stored.details.provider_principal_id@) ==> problem == Some(
                StateErrorView::Conflict("invalid N4 provider principal"@),
            )
        }),
{
}

/// A reserved request is not handed over without a configuration in force for
/// the creation of credentials, by a session that is not validated or has
/// expired, against the rules of sessions, or with generations out of range.
pub proof fn law_request_is_refused_for_its_session(
    join_session: Seq<char>,
    stored: N4Lifecycle,
    request: N4Dispatch,
    session: Result<JoinSession, String>,
    advanced: Result<JoinSession, String>,
    authority: AuthorityRecords,
    now: Timestamp,
)
    requires
        stored.dispatch == Some(request),
        stored.session is Some,
        stored.session->Some_0.record == session,
        request.state == DispatchState::Reserved,
    ensures
        ({
            let problem = begin_problem(join_session, Some(stored), advanced, authority, now);
            let in_force = authority.configuration matches Some(row) && authority.network_id@
                == request.network_id.text@ && row.provider_instance@
                == request.provider_instance_id.text@ && row.enabled == 1 && row.revoked == 0
                && row.not_before_ms <= now.millis() < row.expires_at_ms && exists|i: int|
                0 <= i < row.capabilities@.len() && (#[trigger] row.capabilities@[i])@
                    == "CreateJoinCredential"@;
            let ready = session matches Ok(known) && known.n4 && known.state
                == JoinSessionState::InvitationValidated && now.before(known.expires_at);
            let row = authority.configuration->Some_0;
            &&& !in_force ==> problem == Some(
                StateErrorView::MutationAuthorizationDenied("N4 create authority unavailable"@),
            )
            &&& in_force && session is Err ==> problem == Some(
                StateErrorView::Serialization(session->Err_0@),
            )
            &&& in_force && session is Ok && !ready ==> problem == Some(
                StateErrorView::Conflict("N4 session not dispatchable"@),
            )
            &&& in_force && ready && advanced is Err ==> problem == Some(
                StateErrorView::Conflict(advanced->Err_0@),
            )
            &&& in_force && ready && advanced is Ok && (row.authorization_generation.number
                > 0x7fff_ffff_ffff_ffff || row.configuration_generation.number
                > 0x7fff_ffff_ffff_ffff) ==> problem == Some(
                StateErrorView::Conflict("generation overflow"@),
            )
        }),
{
}

/// With an authorization the same refusals come, and a window that cannot be
/// read is named.
pub proof fn law_authorized_request_is_refused_for_its_session(
    join_session: Seq<char>,
    stored: N4Lifecycle,
    request: N4Dispatch,
    session: Result<JoinSession, String>,
    advanced: Result<JoinSession, String>,
    authority: AuthorityRecords,
    row: ConfigurationRow,
    now: Timestamp,
)
    requires
        stored.dispatch == Some(request),
        stored.session is Some,
        stored.session->Some_0.record == session,
        request.state == DispatchState::Reserved,
        authority.configuration == Some(row),
        authority.network_id@ == request.network_id.text@,
        row.provider_instance@ == request.provider_instance_id.text@,
        authority.import matches Some(import) && import.provider_instance@
            == request.provider_instance_id.text@ && import.read_only == 1
            && import.mutation_allowed == 0,
        row.grants(ProviderMutationCapability::CreateJoinCredential),
    ensures
        ({
            let problem = begin_authorized_problem(
                join_session,
                Some(stored),
                advanced,
                authority,
                now,
            );
            let readable = is_millis(row.not_before_ms as int) && is_millis(
                row.expires_at_ms as int,
            );
            let in_force = row.enabled == 1 && row.revoked == 0 && !now.before_millis(
                row.not_before_ms as int,
            ) && now.before_millis(row.expires_at_ms as int) && row.adapter@ == "headscale"@
                && row.expected_version@ == "v0.29.3"@ && is_fingerprint(
                row.configuration_fingerprint@,
            );
            let ready = session matches Ok(known) && known.n4 && known.state
                == JoinSessionState::InvitationValidated && now.before(known.expires_at);
            &&& !is_millis(row.not_before_ms as int) ==> problem == Some(
                StateErrorView::MutationAuthorizationDenied("invalid persisted not-before"@),
            )
            &&& is_millis(row.not_before_ms as int) && !is_millis(row.expires_at_ms as int)
                ==> problem == Some(
                StateErrorView::MutationAuthorizationDenied("invalid persisted expiry"@),
            )
            &&& readable && !in_force ==> problem == Some(
                StateErrorView::MutationAuthorizationDenied("N4 create authority unavailable"@),
            )
            &&& readable && in_force && session is Ok && !ready ==> problem == Some(
                StateErrorView::Conflict("N4 session not dispatchable"@),
            )
            &&& readable && in_force && ready && advanced is Err ==> problem == Some(
                StateErrorView::Conflict(advanced->Err_0@),
            )
        }),
{
}

/// A confirmation without a fence, or for an invitation that cannot be read, is
/// refused for that; a failure for what it cannot read.
pub proof fn law_unreadable_request_is_not_resolved(
    join_session: Seq<char>,
    stored: N4Lifecycle,
    request: N4Dispatch,
    confirmation: N4CredentialConfirmation,
    failed: Result<JoinSession, String>,
)
    requires
        stored.dispatch == Some(request),
        stored.session is Some,
        confirmation.is_admissible(),
    ensures
        request.fence is None ==> confirm_problem(join_session, Some(stored), confirmation) == Some(
            StateErrorView::Sqlite(
                "Invalid column type Null at index: 6, name: authorization_generation"@,
            ),
        ),
        request.fence is Some && stored.invitation.record is Err ==> confirm_problem(
            join_session,
            Some(stored),
            confirmation,
        ) == Some(StateErrorView::Serialization(stored.invitation.record->Err_0@)),
        request.state == DispatchState::DispatchStarted && stored.invitation.record is Err
            ==> fail_problem(
            join_session,
            Some(stored),
            N4DispatchFailure::Ambiguous,
            failed,
        ) == Some(StateErrorView::Serialization(stored.invitation.record->Err_0@)),
        request.state == DispatchState::DispatchStarted && stored.invitation.record is Ok
            && stored.session->Some_0.record is Ok && failed is Err ==> fail_problem(
            join_session,
            Some(stored),
            N4DispatchFailure::DefiniteNoApply,
            failed,
        ) == Some(StateErrorView::Conflict(failed->Err_0@)),
        request.state == DispatchState::DispatchStarted ==> fail_problem(
            join_session,
            Some(stored),
            N4DispatchFailure::PreDispatch,
            failed,
        ) == Some(StateErrorView::Conflict("N4 failure conflicts with dispatch fence"@)),
        request.state == DispatchState::Reserved ==> fail_problem(
            join_session,
            Some(stored),
            N4DispatchFailure::Ambiguous,
            failed,
        ) == Some(StateErrorView::Conflict("N4 failure conflicts with dispatch fence"@)),
{
}

/// A cleanup that has to ask the provider, or to end a session, needs the
/// session and what its rules answer.
pub proof fn law_cleanup_needs_the_session(
    store: StateStore,
    invitation: Seq<char>,
    stored: N4Lifecycle,
    record: Invitation,
    request: N4Dispatch,
    answers: CleanupAnswers,
    now: Timestamp,
)
    requires
        stored.invitation.record == Ok::<Invitation, String>(record),
        record.state == InvitationState::Consumed,
        stored.details.provider_instance_id.parsed is Ok,
        stored.dispatch == Some(request),
        request.state == DispatchState::Confirmed,
        request.join_session_id.parsed is Ok,
        request.credential_id is Some,
        request.credential_id->Some_0.parsed is Ok,
        stored.reference is Some,
        stored.reference->Some_0.parsed is Ok,
    ensures
        ({
            let problem = preparation_problem(
                store,
                invitation,
                Some(stored),
                N4CleanupIntent::Revoked,
                answers,
                now,
            );
            &&& answers.pending is Err ==> problem == Some(
                StateErrorView::Conflict(answers.pending->Err_0@),
            )
            &&& answers.pending is Ok && stored.session is None ==> problem == Some(
                StateErrorView::Sqlite("Query returned no rows"@),
            )
            &&& answers.pending is Ok && stored.session is Some && stored.session->Some_0.record
                is Err ==> problem == Some(
                StateErrorView::Serialization(stored.session->Some_0.record->Err_0@),
            )
            &&& answers.pending is Ok && stored.session is Some && stored.session->Some_0.record
                is Ok && answers.pending_session is Err ==> problem == Some(
                StateErrorView::Conflict(answers.pending_session->Err_0@),
            )
        }),
{
}

/// A target that differs from what is stored in any of its five names is
/// refused, whatever the provider answered.
pub proof fn law_settlement_is_refused_for_another_target(
    store: StateStore,
    target: N4CleanupTarget,
    stored: N4Lifecycle,
    request: N4Dispatch,
    outcome: N4InvalidationOutcome,
    ended: Result<InvitationState, String>,
    ended_session: Result<JoinSession, String>,
)
    requires
        stored.dispatch == Some(request),
        request.credential_id is Some,
        stored.reference is Some,
        target.join_session_id is None || target.join_session_id->Some_0@
            != request.join_session_id.text@ || target.credential_id is None
            || target.credential_id->Some_0@ != request.credential_id->Some_0.text@
            || target.provider_reference is None || target.provider_reference->Some_0@
            != stored.reference->Some_0.text@ || target.network_id@ != request.network_id.text@
            || target.provider_instance_id@ != request.provider_instance_id.text@,
    ensures
        settlement_problem(store, target, Some(stored), outcome, ended, ended_session) == Some(
            StateErrorView::Conflict(
                "N4 invalidation target does not exactly match durable provenance"@,
            ),
        ),
{
}

/// A pending invalidation that the provider confirmed is refused where its state
/// is settled, the invitation cannot be read, or the rules refuse the end.
pub proof fn law_settlement_is_refused_for_what_is_stored(
    store: StateStore,
    target: N4CleanupTarget,
    stored: N4Lifecycle,
    request: N4Dispatch,
    ended: Result<InvitationState, String>,
    ended_session: Result<JoinSession, String>,
)
    requires
        stored.dispatch == Some(request),
        request.state == DispatchState::RevocationPending,
        request.credential_id is Some,
        stored.reference is Some,
        target.join_session_id is Some,
        target.credential_id is Some,
        target.provider_reference is Some,
        target.join_session_id->Some_0@ == request.join_session_id.text@,
        target.credential_id->Some_0@ == request.credential_id->Some_0.text@,
        target.provider_reference->Some_0@ == stored.reference->Some_0.text@,
        target.network_id@ == request.network_id.text@,
        target.provider_instance_id@ == request.provider_instance_id.text@,
    ensures
        ({
            let problem = settlement_problem(
                store,
                target,
                Some(stored),
                N4InvalidationOutcome::Confirmed,
                ended,
                ended_session,
            );
            let open = stored.metadata matches Some(known) && (known.invalidation_state@
                == "pending"@ || known.invalidation_state@ == "retryable"@
                || known.invalidation_state@ == "ambiguous"@ || known.invalidation_state@
                == "blocked"@);
            &&& !open ==> problem == Some(
                StateErrorView::Conflict("N4 invalidation metadata did not settle exactly once"@),
            )
            &&& open && stored.invitation.record is Err ==> problem == Some(
                StateErrorView::Serialization(stored.invitation.record->Err_0@),
            )
            &&& open && stored.invitation.record is Ok && ended is Err ==> problem == Some(
                StateErrorView::Conflict(ended->Err_0@),
            )
            &&& open && stored.invitation.record is Ok && ended is Ok && stored.session is None
                ==> problem == Some(StateErrorView::Sqlite("Query returned no rows"@))
            &&& open && stored.invitation.record is Ok && ended is Ok && stored.session is Some
                && stored.session->Some_0.record is Ok && ended_session is Err ==> problem == Some(
                StateErrorView::Conflict(ended_session->Err_0@),
            )
            &&& open && stored.invitation.record is Ok && ended is Ok && stored.session is Some
                && stored.session->Some_0.record is Ok && ended_session is Ok
                && store.fails_n4_audit(AuditKind::JoinCredentialInvalidated) ==> problem == Some(
                StateErrorView::InjectedFailure,
            )
        }),
{
}

/// A replacement is refused for another provider, for generations that are not
/// the current ones or do not move on, without a read-only import, and for
/// generations out of range, in this order.
pub proof fn law_replacement_is_refused_in_order(
    records: AuthorityRecords,
    expected_authorization: Option<Generation>,
    expected_configuration: Option<Generation>,
    replacement: ConfigurationFacts,
    row: ConfigurationRow,
)
    requires
        records.configuration == Some(row),
    ensures
        ({
            let problem = replacement_problem(
                records,
                expected_authorization,
                expected_configuration,
                replacement,
            );
            let same = row.provider_instance@ == replacement.provider_instance_id@;
            let known = expected_authorization matches Some(number) && number.value
                == row.authorization_generation.number;
            let both = known && (expected_configuration matches Some(number) && number.value
                == row.configuration_generation.number);
            let advances = replacement.authorization_generation.value
                > row.authorization_generation.number && replacement.configuration_generation.value
                > row.configuration_generation.number;
            let imported = records.import matches Some(import) && import.provider_instance@
                == replacement.provider_instance_id@ && import.read_only == 1
                && import.mutation_allowed == 0;
            &&& !same ==> problem == Some(
                StateErrorView::Conflict("mutation provider identity cannot be replaced"@),
            )
            &&& same && expected_authorization is None ==> problem == Some(
                StateErrorView::StaleGeneration {
                    expected: 0,
                    actual: row.authorization_generation.number,
                },
            )
            &&& same && known && expected_configuration is None ==> problem == Some(
                StateErrorView::StaleGeneration {
                    expected: 0,
                    actual: row.configuration_generation.number,
                },
            )
            &&& same && known && !both && expected_configuration is Some ==> problem == Some(
                StateErrorView::StaleGeneration {
                    expected: expected_configuration->Some_0.value,
                    actual: row.configuration_generation.number,
                },
            )
            &&& same && both && !advances ==> problem == Some(
                StateErrorView::Conflict("replacement mutation generations must advance"@),
            )
            &&& same && both && advances && !imported ==> problem == Some(
                StateErrorView::MutationAuthorizationDenied("exact read-only import is required"@),
            )
            &&& same && both && advances && imported && (replacement.authorization_generation.value
                > 0x7fff_ffff_ffff_ffff || replacement.configuration_generation.value
                > 0x7fff_ffff_ffff_ffff) ==> problem == Some(
                StateErrorView::Conflict("generation exceeds SQLite integer range"@),
            )
        }),
{
}

/// The first configuration of a network is refused where one is expected.
pub proof fn law_first_configuration_expects_none(
    records: AuthorityRecords,
    expected_configuration: Generation,
    replacement: ConfigurationFacts,
)
    requires
        records.configuration is None,
    ensures
        replacement_problem(records, None, Some(expected_configuration), replacement) == Some(
            StateErrorView::StaleGeneration { expected: expected_configuration.value, actual: 0 },
        ),
{
}

/// No authorization is minted without a granting configuration, with a window
/// that cannot be read, from a configuration that is not in force, or from one
/// whose generations or policy mode cannot be read.
pub proof fn law_minting_is_refused_in_order(
    records: AuthorityRecords,
    instance: Seq<char>,
    capability: ProviderMutationCapability,
    now: Timestamp,
    row: ConfigurationRow,
)
    requires
        records.configuration == Some(row),
        row.provider_instance@ == instance,
    ensures
        ({
            let problem = issue_problem(records, instance, capability, now);
            let granting = (records.import matches Some(import) && import.provider_instance@
                == instance && import.read_only == 1 && import.mutation_allowed == 0) && exists|
                i: int,
            |
                0 <= i < row.capabilities@.len() && (#[trigger] row.capabilities@[i])@
                    == capability.text();
            let readable = is_millis(row.not_before_ms as int) && is_millis(
                row.expires_at_ms as int,
            );
            let in_force = row.enabled == 1 && row.revoked == 0 && !now.before_millis(
                row.not_before_ms as int,
            ) && now.before_millis(row.expires_at_ms as int) && row.adapter@ == "headscale"@
                && row.expected_version@ == "v0.29.3"@ && is_fingerprint(
                row.configuration_fingerprint@,
            ) && (capability == ProviderMutationCapability::ManagePolicy ==> row.policy_mode@
                == "database"@);
            &&& !granting ==> problem == Some(
                StateErrorView::MutationAuthorizationDenied("no current configured capability"@),
            )
            &&& granting && !is_millis(row.not_before_ms as int) ==> problem == Some(
                StateErrorView::MutationAuthorizationDenied("invalid persisted not-before"@),
            )
            &&& granting && is_millis(row.not_before_ms as int) && !is_millis(
                row.expires_at_ms as int,
            ) ==> problem == Some(
                StateErrorView::MutationAuthorizationDenied("invalid persisted expiry"@),
            )
            &&& granting && readable && !in_force ==> problem == Some(
                StateErrorView::MutationAuthorizationDenied(
                    "configuration is not currently issuable"@,
                ),
            )
            &&& granting && readable && in_force && row.authorization_generation.refusal is Some
                ==> problem == Some(
                StateErrorView::Conflict(row.authorization_generation.refusal->Some_0@),
            )
            &&& granting && readable && in_force && row.authorization_generation.refusal is None
                && row.configuration_generation.refusal is Some ==> problem == Some(
                StateErrorView::Conflict(row.configuration_generation.refusal->Some_0@),
            )
            &&& granting && readable && in_force && row.authorization_generation.refusal is None
                && row.configuration_generation.refusal is None && row.policy_mode@ != "database"@
                && row.policy_mode@ != "file"@ && row.policy_mode@ != "unknown"@ ==> problem
                == Some(StateErrorView::MutationAuthorizationDenied("invalid policy mode"@))
        }),
{
    assert forall|mode: MutationPolicyMode| row.policy_mode@ != "database"@ && row.policy_mode@
        != "file"@ && row.policy_mode@ != "unknown"@ implies #[trigger] mode.text()
        != row.policy_mode@ by {}
}

/// A stored reference whose times cannot be read, or that does not fit together,
/// is refused for that.
pub proof fn law_stored_reference_is_refused_in_order(stored: StoredCredentialReference)
    requires
        stored.network_id.parsed is Ok,
        stored.provider_instance_id.parsed is Ok,
        stored.provider_reference.parsed is Ok,
        stored.authorization_generation.refusal is None,
        stored.configuration_generation.refusal is None,
    ensures
        !is_millis(stored.confirmed_at_ms as int) ==> stored.problem() == Some(
            StateErrorView::MutationAuthorizationDenied("invalid persisted confirmation time"@),
        ),
        is_millis(stored.confirmed_at_ms as int) && !is_millis(stored.expires_at_ms as int)
            ==> stored.problem() == Some(
            StateErrorView::MutationAuthorizationDenied("invalid persisted credential expiry"@),
        ),
        is_millis(stored.confirmed_at_ms as int) && is_millis(stored.expires_at_ms as int) && (
        stored.max_uses != 1 || stored.confirmed_at_ms >= stored.expires_at_ms
            || stored.confirmed_at_ms < 0) ==> stored.problem() == Some(
            StateErrorView::Conflict("invalid confirmed provider credential reference"@),
        ),
{
}

/// A stored observation is refused for the first of its parts that cannot be
/// read.
pub proof fn law_stored_observation_is_refused_in_order(row: ObservationRow)
    ensures
        (row.device_id matches Some(device) && device.parsed is Err) ==> row.problem() == Some(
            StateErrorView::Conflict(row.device_id->Some_0.parsed->Err_0@),
        ),
        row.device_id is None && row.provider_instance_id.parsed is Err ==> row.problem() == Some(
            StateErrorView::Conflict(row.provider_instance_id.parsed->Err_0@),
        ),
        row.device_id is None && row.provider_instance_id.parsed is Ok && row.node is Err
            ==> row.problem() == Some(StateErrorView::Serialization(row.node->Err_0@)),
        row.device_id is None && row.provider_instance_id.parsed is Ok && row.node is Ok && (
        instant_of_text(row.first_observed_at@) is None || instant_of_text(row.last_observed_at@)
            is None || instant_of_text(row.snapshot_at@) is None) ==> row.problem() == Some(
            StateErrorView::Conflict("invalid observation timestamp"@),
        ),
        row.device_id is None && row.provider_instance_id.parsed is Ok && row.node is Ok
            && instant_of_text(row.first_observed_at@) is Some && instant_of_text(
            row.last_observed_at@,
        ) is Some && instant_of_text(row.snapshot_at@) is Some ==> {
            &&& (forall|known: ObservationClassification| #[trigger] known.text()
                != row.classification@) ==> row.problem() == Some(
                StateErrorView::Conflict("unknown provider observation classification"@),
            )
            &&& (exists|known: ObservationClassification| #[trigger] known.text()
                == row.classification@) && (forall|known: AdoptionState| #[trigger] known.text()
                != row.adoption_state@) ==> row.problem() == Some(
                StateErrorView::Conflict("unknown provider observation adoption state"@),
            )
        },
{
}

/// An invitation is not shown where the state of its cleanup is unknown or one
/// of its times names no instant; a report is not made for the like; an import
/// of another kind is not reconciled.
pub proof fn law_unknown_names_are_refused(
    stored: N4Lifecycle,
    invitation: Seq<char>,
    status: ImportStatusRow,
    import: ReconciliationImportRow,
)
    ensures
        stored.invitation.record is Ok && (stored.metadata matches Some(known) && forall|
            state: N4CleanupState,
        |
            #[trigger] state.text() != known.invalidation_state@) ==> view_problem(
            Some(stored),
            invitation,
        ) == Some(StateErrorView::Conflict("invalid N4 cleanup state"@)),
        stored.invitation.record is Ok && stored.metadata is None && (
        stored.details.consumed_at_ms matches Some(at) && !is_millis(at as int)) ==> view_problem(
            Some(stored),
            invitation,
        ) == Some(StateErrorView::Conflict("invalid persisted N4 timestamp"@)),
        (forall|known: CompatibilityStatus| #[trigger] known.text() != status.compatibility@)
            ==> status.problem() == Some(
            StateErrorView::Conflict("unknown persisted provider compatibility"@),
        ),
        (exists|known: CompatibilityStatus| #[trigger] known.text() == status.compatibility@) && (
        status.last_attempt_at matches Some(text) && instant_of_text(text@) is None)
            ==> status.problem() == Some(
            StateErrorView::Conflict("invalid persisted reconciliation time"@),
        ),
        import.provider_instance_id.parsed is Ok && import.read_only && !import.mutation_allowed
            && import.provider_kind@ != "headscale"@ && import.provider_kind@ != "tailscale"@
            ==> import.problem() == Some(
            StateErrorView::Conflict("unsupported persisted provider kind"@),
        ),
{
    assert(N4CleanupState::Absent.text() == "none"@);
}

/// A cleanup that ends an invitation with a reserved request needs every answer
/// of the rules, the session, and its event.
pub proof fn law_end_needs_every_answer(
    store: StateStore,
    invitation: Seq<char>,
    stored: N4Lifecycle,
    record: Invitation,
    request: N4Dispatch,
    answers: CleanupAnswers,
    now: Timestamp,
)
    requires
        stored.invitation.record == Ok::<Invitation, String>(record),
        record.state == InvitationState::Redeeming,
        stored.details.provider_instance_id.parsed is Ok,
        stored.dispatch == Some(request),
        request.state == DispatchState::Reserved,
        request.join_session_id.parsed is Ok,
        request.credential_id is None,
    ensures
        ({
            let problem = preparation_problem(
                store,
                invitation,
                Some(stored),
                N4CleanupIntent::Revoked,
                answers,
                now,
            );
            let answered = answers.pending is Ok && answers.ended is Ok;
            &&& answers.pending is Err ==> problem == Some(
                StateErrorView::Conflict(answers.pending->Err_0@),
            )
            &&& answers.pending is Ok && answers.ended is Err ==> problem == Some(
                StateErrorView::Conflict(answers.ended->Err_0@),
            )
            &&& answered && stored.session is None ==> problem == Some(
                StateErrorView::Sqlite("Query returned no rows"@),
            )
            &&& answered && stored.session is Some && stored.session->Some_0.record is Err
                ==> problem == Some(
                StateErrorView::Serialization(stored.session->Some_0.record->Err_0@),
            )
            &&& answered && (stored.session matches Some(row) && row.record matches Ok(session)
                && session.state == JoinSessionState::InvitationValidated)
                && answers.ended_session is Err ==> problem == Some(
                StateErrorView::Conflict(answers.ended_session->Err_0@),
            )
            &&& answered && (stored.session matches Some(row) && row.record is Ok)
                && answers.ended_session is Ok && store.fails_n4_audit(AuditKind::InvitationRevoked)
                ==> problem == Some(StateErrorView::InjectedFailure)
        }),
{
}

} // verus!
