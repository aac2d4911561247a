//! What holds of an invitation of the fenced lifecycle from its issue to its
//! end, whatever happens to it in between.

use crate::audit::StateStore;
use crate::authorization::ConfigurationRow;
use crate::cleanup::{
    cleanup_path, cleanup_problem, has_unsettled, is_pending, is_prepared, is_settled, known_reference,
    must_end_session, provenance_problem, settle_problem, settlement_problem, settles,
    stays_unsettled, target_of, CleanupAnswers, CleanupPath, N4CleanupTarget,
};
use crate::dispatch::{
    confirm_problem, failed_session, fails_from, is_begun, is_confirmed, is_failed,
    N4CredentialConfirmation,
};
use crate::error::StateErrorView;
use crate::ids::{InvitationId, JoinSessionId};
use crate::lifecycle::N4Lifecycle;
use crate::names::{
    InvitationState, JoinSessionState, N4CleanupIntent, N4DispatchFailure, N4InvalidationOutcome,
};
use crate::records::JoinSession;
use crate::redemption::{is_reservable, is_reserved, N4PresentedMetadata};
use crate::store::is_moved_to;
use crate::text::ascii_lower;
use crate::time::Timestamp;
use vstd::prelude::*;

verus! {

/// Something that happens to an invitation of the lifecycle.
pub enum N4Step {
    Reserve {
        invitation_id: InvitationId,
        join_session_id: JoinSessionId,
        expected_revision: u64,
        session: JoinSession,
        now: Timestamp,
        presented: N4PresentedMetadata,
    },
    Begin { row: ConfigurationRow, advanced: JoinSession, now: Timestamp },
    Confirm { confirmation: N4CredentialConfirmation, issued: JoinSession },
    Fail { failure: N4DispatchFailure, failed: JoinSession, now: Timestamp },
    Prepare { intent: N4CleanupIntent, answers: CleanupAnswers, now: Timestamp },
    Settle {
        intent: N4CleanupIntent,
        state: InvitationState,
        session: JoinSession,
        now: Timestamp,
    },
    Unsettle { outcome: N4InvalidationOutcome },
}

/// The rules of invitations answer a transition, where they admit it, with the
/// state that was asked for.
pub open spec fn answers_fit(intent: N4CleanupIntent, answers: CleanupAnswers) -> bool {
    &&& answers.pending matches Ok(state) ==> state == intent.pending()
    &&& answers.ended matches Ok(state) ==> state == intent.ended()
}

/// The step is admitted and takes the lifecycle from the one to the other.
pub open spec fn steps(before: N4Lifecycle, step: N4Step, after: N4Lifecycle) -> bool {
    &&& before.invitation.record is Ok
    &&& before.details.revision < u64::MAX
    &&& match step {
        N4Step::Reserve {
            invitation_id,
            join_session_id,
            expected_revision,
            session,
            now,
            presented,
        } => {
            &&& is_reservable(before, expected_revision, now, presented)
            &&& is_reserved(before, invitation_id, join_session_id, session, now, presented, after)
        },
        N4Step::Begin { row, advanced, now } => {
            &&& before.dispatch matches Some(dispatch) && dispatch.state is Reserved
            &&& is_begun(before, row, advanced, now, after)
        },
        N4Step::Confirm { confirmation, issued } => {
            &&& before.dispatch matches Some(dispatch) && confirmation.fits(
                dispatch,
                before.invitation.record->Ok_0,
            )
            &&& is_confirmed(before, confirmation, issued, after)
        },
        N4Step::Fail { failure, failed, now } => {
            &&& before.dispatch matches Some(dispatch) && fails_from(failure, dispatch.state)
            &&& is_failed(before, failure, failed, now, after)
        },
        N4Step::Prepare { intent, answers, now } => {
            &&& answers_fit(intent, answers)
            &&& cleanup_problem(before, intent, answers) is None
            &&& is_prepared(before, intent, answers, now, after)
        },
        N4Step::Settle { intent, state, session, now } => {
            &&& before.dispatch matches Some(dispatch) && dispatch.state is RevocationPending
            &&& has_unsettled(before.metadata)
            &&& state == intent.ended()
            &&& settles(before, intent, state, session, now, after)
        },
        N4Step::Unsettle { outcome } => stays_unsettled(before, outcome, after),
    }
}

/// The rules of join sessions answer each step with the session in the state that
/// was asked for.
pub open spec fn is_answered_as_asked(step: N4Step) -> bool {
    match step {
        N4Step::Reserve { session, .. } => session.state.text()
            == JoinSessionState::InvitationValidated.text(),
        N4Step::Begin { advanced, .. } => advanced.state.text()
            == JoinSessionState::ProviderCredentialIssuing.text(),
        N4Step::Confirm { issued, .. } => issued.state.text()
            == JoinSessionState::ProviderCredentialIssued.text(),
        N4Step::Fail { failure, failed, .. } => failed.state.text() == failed_session(
            failure,
        ).text(),
        N4Step::Prepare { intent, answers, .. } => {
            &&& is_moved_to(
                answers.pending_session,
                JoinSessionState::ProviderCredentialRevocationPending,
            )
            &&& is_moved_to(answers.ended_session, intent.ended_session())
        },
        N4Step::Settle { intent, session, .. } => session.state.text()
            == intent.ended_session().text(),
        N4Step::Unsettle { .. } => true,
    }
}

/// The state to which a step moves the join session, if it moves it.
pub open spec fn next_session_state(before: N4Lifecycle, step: N4Step) -> Option<JoinSessionState> {
    match step {
        N4Step::Reserve { .. } => Some(JoinSessionState::InvitationValidated),
        N4Step::Begin { .. } => Some(JoinSessionState::ProviderCredentialIssuing),
        N4Step::Confirm { .. } => Some(JoinSessionState::ProviderCredentialIssued),
        N4Step::Fail { failure, .. } => Some(failed_session(failure)),
        N4Step::Prepare { intent, .. } => match cleanup_path(before, intent) {
            CleanupPath::Stays => None,
            CleanupPath::Pends => Some(JoinSessionState::ProviderCredentialRevocationPending),
            CleanupPath::Ends => if before.dispatch is Some && must_end_session(before, intent) {
                Some(intent.ended_session())
            } else {
                None
            },
        },
        N4Step::Settle { intent, .. } => Some(intent.ended_session()),
        N4Step::Unsettle { .. } => None,
    }
}

/// Each step moves the join session to the one state that is meant for it, in the
/// record and beside it, or leaves it as it is.
pub proof fn law_session_moves_as_asked(before: N4Lifecycle, step: N4Step, after: N4Lifecycle)
    requires
        steps(before, step, after),
        is_answered_as_asked(step),
    ensures
        match next_session_state(before, step) {
            Some(state) => after.session matches Some(row) && {
                &&& row.record matches Ok(session) && session.state.text() == state.text()
                &&& row.state@ == ascii_lower(state.text())
            },
            None => after.session == before.session,
        },
{
}

/// The single use of the invitation is taken.
pub open spec fn is_taken(lifecycle: N4Lifecycle) -> bool {
    lifecycle.invitation.record matches Ok(invitation) && invitation.used_count == 1
}

/// A reservation takes the single use of an invitation.
pub proof fn law_reservation_takes_the_use(
    before: N4Lifecycle,
    invitation_id: InvitationId,
    join_session_id: JoinSessionId,
    session: JoinSession,
    now: Timestamp,
    presented: N4PresentedMetadata,
    after: N4Lifecycle,
)
    requires
        is_reserved(before, invitation_id, join_session_id, session, now, presented, after),
    ensures
        is_taken(after),
{
}

/// An invitation is redeemed once at most: when its use is taken it stays taken,
/// whatever happens, and it can never be reserved again, at whatever revision
/// and time and whatever is presented.
pub proof fn law_use_is_taken_for_good(before: N4Lifecycle, step: N4Step, after: N4Lifecycle)
    requires
        is_taken(before),
        steps(before, step, after),
    ensures
        is_taken(after),
        forall|expected_revision: u64, now: Timestamp, presented: N4PresentedMetadata|
            !is_reservable(after, expected_revision, now, presented),
{
}

/// The request was handed over, or was closed without it.
pub open spec fn is_past_reservation(lifecycle: N4Lifecycle) -> bool {
    lifecycle.dispatch matches Some(dispatch) && !(dispatch.state is Reserved)
}

/// The request for a credential is handed to the provider once at most: once it
/// was, no step brings it back to where it could be handed over.
pub proof fn law_request_is_handed_over_once(before: N4Lifecycle, step: N4Step, after: N4Lifecycle)
    requires
        is_taken(before),
        is_past_reservation(before),
        steps(before, step, after),
    ensures
        is_past_reservation(after),
        !(step is Begin),
{
}

/// The revision of an invitation never goes back, and moves on with every
/// reservation and confirmation.
pub proof fn law_revision_never_goes_back(before: N4Lifecycle, step: N4Step, after: N4Lifecycle)
    requires
        steps(before, step, after),
    ensures
        after.details.revision >= before.details.revision,
        step is Reserve || step is Confirm || step is Settle ==> after.details.revision
            == before.details.revision + 1,
{
}

/// An invitation that ended without anything at the provider stays as it is when
/// it is cleaned up again, whatever the intent, and can no longer be confirmed.
pub proof fn law_ended_invitation_is_left_alone(
    before: N4Lifecycle,
    intent: N4CleanupIntent,
    answers: CleanupAnswers,
    now: Timestamp,
    after: N4Lifecycle,
    again: N4CleanupIntent,
    confirmation: N4CredentialConfirmation,
)
    requires
        before.invitation.record is Ok,
        answers_fit(intent, answers),
        cleanup_problem(before, intent, answers) is None,
        cleanup_path(before, intent) is Ends,
        is_prepared(before, intent, answers, now, after),
    ensures
        cleanup_path(after, again) is Stays,
        after.dispatch matches Some(dispatch) ==> !confirmation.fits(
            dispatch,
            after.invitation.record->Ok_0,
        ),
{
}

/// A confirmed credential never goes unnoticed: when its invitation is revoked or
/// expires, its invalidation at the provider becomes pending.
pub proof fn law_confirmed_credential_is_cleaned_up(
    before: N4Lifecycle,
    confirmation: N4CredentialConfirmation,
    issued: JoinSession,
    after: N4Lifecycle,
    intent: N4CleanupIntent,
)
    requires
        is_confirmed(before, confirmation, issued, after),
    ensures
        cleanup_path(after, intent) is Pends,
        known_reference(after) matches Some(reference) && reference.text@
            == confirmation.provider_reference@,
{
}

/// The credential of the invitation is known, and its request is no longer under
/// way.
pub open spec fn has_credential(lifecycle: N4Lifecycle) -> bool {
    &&& is_taken(lifecycle)
    &&& lifecycle.dispatch matches Some(dispatch) && dispatch.credential_id is Some && !(
    dispatch.state is Reserved) && !(dispatch.state is DispatchStarted)
}

/// A confirmation makes the credential of the invitation known.
pub proof fn law_confirmation_makes_the_credential_known(
    before: N4Lifecycle,
    confirmation: N4CredentialConfirmation,
    issued: JoinSession,
    after: N4Lifecycle,
)
    requires
        before.invitation.record is Ok,
        is_taken(before),
        is_confirmed(before, confirmation, issued, after),
    ensures
        has_credential(after),
        after.dispatch->Some_0.credential_id->Some_0.text@ == confirmation.credential_id@,
{
}

/// There is one credential for an invitation at most: once it is known it stays
/// the same, whatever happens, and no other is ever asked for, confirmed or
/// given up.
pub proof fn law_credential_is_never_replaced(before: N4Lifecycle, step: N4Step, after: N4Lifecycle)
    requires
        has_credential(before),
        steps(before, step, after),
    ensures
        has_credential(after),
        after.dispatch->Some_0.credential_id == before.dispatch->Some_0.credential_id,
        after.reference == before.reference,
        !(step is Reserve),
        !(step is Begin),
        !(step is Confirm),
        !(step is Fail),
{
}

/// The invitation ended, and its request, if there is one, is not open.
pub open spec fn is_finished(lifecycle: N4Lifecycle) -> bool {
    &&& lifecycle.invitation.record matches Ok(invitation) && (invitation.state is Revoked
        || invitation.state is Expired)
    &&& lifecycle.dispatch matches Some(dispatch) ==> !(dispatch.state is Reserved) && !(
    dispatch.state is DispatchStarted) && !(dispatch.state is RevocationPending)
}

/// A finished invitation stays exactly as it ended, whatever happens.
pub proof fn law_finished_invitation_never_changes(
    before: N4Lifecycle,
    step: N4Step,
    after: N4Lifecycle,
)
    requires
        is_finished(before),
        steps(before, step, after),
    ensures
        is_finished(after),
        after.invitation == before.invitation,
        after.details == before.details,
        after.dispatch == before.dispatch,
        after.session == before.session,
{
}

/// A settled invalidation finishes the invitation.
pub proof fn law_settlement_finishes_the_invitation(
    before: N4Lifecycle,
    intent: N4CleanupIntent,
    session: JoinSession,
    now: Timestamp,
    after: N4Lifecycle,
)
    requires
        before.invitation.record is Ok,
        before.dispatch matches Some(dispatch) && dispatch.state is RevocationPending,
        settles(before, intent, intent.ended(), session, now, after),
    ensures
        is_finished(after),
{
}

/// The stored identifiers of the request name what they were read as.
pub open spec fn has_exact_ids(lifecycle: N4Lifecycle) -> bool {
    &&& lifecycle.dispatch matches Some(dispatch) && {
        &&& dispatch.join_session_id.parsed matches Ok(id) && id@ == dispatch.join_session_id.text@
        &&& dispatch.credential_id matches Some(credential) && (credential.parsed matches Ok(id)
            && id@ == credential.text@)
        &&& dispatch.network_id.text@ == lifecycle.invitation.record->Ok_0.network_id@
        &&& lifecycle.details.provider_instance_id.parsed matches Ok(id) && id@
            == dispatch.provider_instance_id.text@
    }
    &&& lifecycle.reference matches Some(reference) && (reference.parsed matches Ok(value) && value@
        == reference.text@)
}

/// What the preparation of a cleanup hands out is exactly what the settlement
/// accepts: only the rules of invitations and join sessions can still refuse it.
pub proof fn law_prepared_target_settles(
    before: N4Lifecycle,
    invitation_id: InvitationId,
    intent: N4CleanupIntent,
    state: InvitationState,
    session: JoinSession,
    now: Timestamp,
    after: N4Lifecycle,
    ended: InvitationState,
    ended_session: JoinSession,
)
    requires
        before.invitation.record is Ok,
        before.metadata is Some,
        has_exact_ids(before),
        before.dispatch->Some_0.state is Confirmed,
        is_pending(before, state, session, now, after),
    ensures
        provenance_problem(target_of(invitation_id, before, intent), Some(after)) is None,
        settle_problem(
            target_of(invitation_id, before, intent),
            after,
            Ok(ended),
            Ok(ended_session),
        ) is None,
{
}

/// Settling is done once: repeated with the same intent it changes nothing, and
/// with the other intent it is refused.
pub proof fn law_settlement_is_final(
    store: StateStore,
    target: N4CleanupTarget,
    before: N4Lifecycle,
    state: InvitationState,
    session: JoinSession,
    now: Timestamp,
    after: N4Lifecycle,
    other: N4CleanupTarget,
    outcome: N4InvalidationOutcome,
    ended: Result<InvitationState, String>,
    ended_session: Result<JoinSession, String>,
)
    requires
        before.dispatch matches Some(dispatch) && dispatch.state is RevocationPending,
        settles(before, target.intent, state, session, now, after),
        provenance_problem(target, Some(after)) is None,
        outcome == N4InvalidationOutcome::Confirmed || outcome
            == N4InvalidationOutcome::AlreadySatisfied,
        other == (N4CleanupTarget { intent: other.intent, ..target }),
        other.intent != target.intent,
    ensures
        is_settled(target, after),
        settlement_problem(store, target, Some(after), outcome, ended, ended_session) is None,
        settlement_problem(store, other, Some(after), outcome, ended, ended_session) == Some(
            StateErrorView::Conflict(
                "N4 terminal invalidation intent conflicts with durable dispatch"@,
            ),
        ),
{
}

/// A confirmation is accepted once: after it the same request cannot be
/// confirmed again, with whatever is confirmed.
pub proof fn law_confirmation_is_accepted_once(
    before: N4Lifecycle,
    confirmation: N4CredentialConfirmation,
    issued: JoinSession,
    after: N4Lifecycle,
    join_session: Seq<char>,
    again: N4CredentialConfirmation,
)
    requires
        is_confirmed(before, confirmation, issued, after),
    ensures
        confirm_problem(join_session, Some(after), again) is Some,
{
}

} // verus!
