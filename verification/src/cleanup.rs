//! Ending an invitation of the fenced lifecycle, by revocation or expiry, and
//! settling the invalidation of its credential.

use crate::audit::{AuditActor, AuditFact, AuditLog, StateStore};
use crate::error::{accepted, conflict, found, StateError, StateErrorView};
use crate::ids::{
    parse_problem, InvitationId, JoinSessionId, NetworkId, ProviderCredentialId,
    ProviderCredentialReference, ProviderInstanceId, Stored,
};
use crate::lifecycle::{
    unreadable, N4CredentialMetadata, N4Details, N4Dispatch, N4Lifecycle, StoredInvitation,
    StoredSession,
};
use crate::names::{
    AuditKind, AuditOutcome, DispatchState, InvitationState, JoinSessionState, N4CleanupIntent,
    N4InvalidationOutcome,
};
use crate::records::{Invitation, JoinSession};
use crate::redemption::{is_stored_session, n4_fact, recorded_once, stored_session};
use crate::store::either;
use crate::text::{ascii_lower, lower, same_text};
use crate::time::Timestamp;
use vstd::prelude::*;

verus! {

/// What has to be cleaned up at the provider, by its exact provenance.
#[derive(PartialEq, Eq)]
pub struct N4CleanupTarget {
    pub invitation_id: InvitationId,
    pub join_session_id: Option<JoinSessionId>,
    pub credential_id: Option<ProviderCredentialId>,
    pub provider_reference: Option<ProviderCredentialReference>,
    pub network_id: NetworkId,
    pub provider_instance_id: ProviderInstanceId,
    pub intent: N4CleanupIntent,
    pub cleanup_uncertain: bool,
}

impl Clone for N4CleanupTarget {
    fn clone(&self) -> (copy: Self)
        ensures
            copy == *self,
    {
        N4CleanupTarget {
            invitation_id: self.invitation_id.clone(),
            join_session_id: match &self.join_session_id {
                Some(value) => Some(value.clone()),
                None => None,
            },
            credential_id: match &self.credential_id {
                Some(value) => Some(value.clone()),
                None => None,
            },
            provider_reference: match &self.provider_reference {
                Some(value) => Some(value.clone()),
                None => None,
            },
            network_id: self.network_id.clone(),
            provider_instance_id: self.provider_instance_id.clone(),
            intent: self.intent,
            cleanup_uncertain: self.cleanup_uncertain,
        }
    }
}

/// What the rules of invitations and of join sessions answer to a cleanup.
#[derive(Debug, PartialEq, Eq)]
pub struct CleanupAnswers {
    /// The transition of the invitation to the pending state of the intent.
    pub pending: Result<InvitationState, String>,
    /// The transition from the pending state of the intent to the final one.
    pub ended: Result<InvitationState, String>,
    /// The session, moved to the pending revocation of its credential.
    pub pending_session: Result<JoinSession, String>,
    /// The session, moved to the final state of the intent.
    pub ended_session: Result<JoinSession, String>,
}

impl N4CleanupIntent {
    /// The state of an invitation whose cleanup is pending.
    pub open spec fn pending(self) -> InvitationState {
        match self {
            N4CleanupIntent::Revoked => InvitationState::Revoking,
            N4CleanupIntent::Expired => InvitationState::Expiring,
        }
    }

    /// The state of an invitation that was cleaned up.
    pub open spec fn ended(self) -> InvitationState {
        match self {
            N4CleanupIntent::Revoked => InvitationState::Revoked,
            N4CleanupIntent::Expired => InvitationState::Expired,
        }
    }

    /// The state of a session whose invitation was cleaned up.
    pub open spec fn ended_session(self) -> JoinSessionState {
        match self {
            N4CleanupIntent::Revoked => JoinSessionState::Revoked,
            N4CleanupIntent::Expired => JoinSessionState::Expired,
        }
    }

    /// The state of a request whose invitation was cleaned up.
    pub open spec fn ended_dispatch(self) -> DispatchState {
        match self {
            N4CleanupIntent::Revoked => DispatchState::Revoked,
            N4CleanupIntent::Expired => DispatchState::Expired,
        }
    }

    /// The kind of the event by which an invitation ends.
    pub open spec fn kind(self) -> AuditKind {
        match self {
            N4CleanupIntent::Revoked => AuditKind::InvitationRevoked,
            N4CleanupIntent::Expired => AuditKind::InvitationExpired,
        }
    }

    /// The state of an invitation whose cleanup is pending.
    pub fn pending_state(self) -> (state: InvitationState)
        ensures
            state == self.pending(),
    {
        match self {
            N4CleanupIntent::Revoked => InvitationState::Revoking,
            N4CleanupIntent::Expired => InvitationState::Expiring,
        }
    }

    /// The state of an invitation that was cleaned up.
    pub fn ended_state(self) -> (state: InvitationState)
        ensures
            state == self.ended(),
    {
        match self {
            N4CleanupIntent::Revoked => InvitationState::Revoked,
            N4CleanupIntent::Expired => InvitationState::Expired,
        }
    }

    /// The state of a session whose invitation was cleaned up.
    pub fn ended_session_state(self) -> (state: JoinSessionState)
        ensures
            state == self.ended_session(),
    {
        match self {
            N4CleanupIntent::Revoked => JoinSessionState::Revoked,
            N4CleanupIntent::Expired => JoinSessionState::Expired,
        }
    }

    /// The state of a session whose credential is still to be invalidated.
    pub fn pending_session_state(self) -> (state: JoinSessionState)
        ensures
            state == JoinSessionState::ProviderCredentialRevocationPending,
    {
        JoinSessionState::ProviderCredentialRevocationPending
    }

    fn ended_dispatch_state(self) -> (state: DispatchState)
        ensures
            state == self.ended_dispatch(),
    {
        match self {
            N4CleanupIntent::Revoked => DispatchState::Revoked,
            N4CleanupIntent::Expired => DispatchState::Expired,
        }
    }

    fn audit_kind(self) -> (kind: AuditKind)
        ensures
            kind == self.kind(),
    {
        match self {
            N4CleanupIntent::Revoked => AuditKind::InvitationRevoked,
            N4CleanupIntent::Expired => AuditKind::InvitationExpired,
        }
    }
}

/// The provider's name for the credential of the request, where both are stored.
pub open spec fn known_reference(lifecycle: N4Lifecycle) -> Option<
    Stored<ProviderCredentialReference>,
> {
    match lifecycle.dispatch {
        Some(dispatch) => if dispatch.credential_id is Some {
            lifecycle.reference
        } else {
            None
        },
        None => None,
    }
}

/// Why an optional stored text is not that of an identifier, if it is not.
pub open spec fn optional_parse_problem<T>(stored: Option<Stored<T>>) -> Option<StateErrorView> {
    match stored {
        Some(known) => parse_problem(known),
        None => None,
    }
}

/// The stored identifier of the credential of the request.
pub open spec fn known_credential(lifecycle: N4Lifecycle) -> Option<Stored<ProviderCredentialId>> {
    match lifecycle.dispatch {
        Some(dispatch) => dispatch.credential_id,
        None => None,
    }
}

/// The stored identifier of the session of the request.
pub open spec fn known_session(lifecycle: N4Lifecycle) -> Option<Stored<JoinSessionId>> {
    match lifecycle.dispatch {
        Some(dispatch) => Some(dispatch.join_session_id),
        None => None,
    }
}

/// Why there is no target for the cleanup of an invitation, if there is none.
pub open spec fn target_problem(
    invitation: Seq<char>,
    lifecycle: Option<N4Lifecycle>,
    intent: N4CleanupIntent,
    now: Timestamp,
) -> Option<StateErrorView> {
    match lifecycle {
        None => Some(StateErrorView::NotFound(invitation)),
        Some(stored) => if unreadable(stored.invitation.record) is Some {
            unreadable(stored.invitation.record)
        } else if intent == N4CleanupIntent::Expired && now.before(
            stored.invitation.record->Ok_0.expires_at,
        ) {
            Some(StateErrorView::Conflict("N4 invitation has not reached its expiry deadline"@))
        } else {
            either(
                parse_problem(stored.details.provider_instance_id),
                either(
                    optional_parse_problem(known_session(stored)),
                    either(
                        optional_parse_problem(known_credential(stored)),
                        optional_parse_problem(known_reference(stored)),
                    ),
                ),
            )
        },
    }
}

/// What an optional stored text was read as.
pub open spec fn optional_parsed<T>(stored: Option<Stored<T>>) -> Option<T> {
    match stored {
        Some(known) => Some(known.parsed->Ok_0),
        None => None,
    }
}

/// What has to be cleaned up for an invitation.
pub open spec fn target_of(
    invitation_id: InvitationId,
    stored: N4Lifecycle,
    intent: N4CleanupIntent,
) -> N4CleanupTarget {
    N4CleanupTarget {
        invitation_id,
        join_session_id: optional_parsed(known_session(stored)),
        credential_id: optional_parsed(known_credential(stored)),
        provider_reference: optional_parsed(known_reference(stored)),
        network_id: stored.invitation.record->Ok_0.network_id,
        provider_instance_id: stored.details.provider_instance_id.parsed->Ok_0,
        intent,
        cleanup_uncertain: known_reference(stored) is None && stored.dispatch is Some,
    }
}

/// What the preparation of a cleanup does.
pub enum CleanupPath {
    /// There is nothing left to do, or it is under way.
    Stays,
    /// The provider has to be asked: the invalidation becomes pending.
    Pends,
    /// Nothing exists at the provider: the invitation ends.
    Ends,
}

/// What the preparation of a cleanup does.
pub open spec fn cleanup_path(stored: N4Lifecycle, intent: N4CleanupIntent) -> CleanupPath {
    let invitation = stored.invitation.record->Ok_0;
    let referenced = known_reference(stored) is Some;
    if invitation.state is Revoked || invitation.state is Expired {
        CleanupPath::Stays
    } else {
        match stored.dispatch {
            None => CleanupPath::Ends,
            Some(dispatch) => if dispatch.state is RevocationPending && !(intent
                == N4CleanupIntent::Expired && !referenced) {
                CleanupPath::Stays
            } else if !referenced && (dispatch.state is DispatchStarted
                || dispatch.state is Ambiguous) && intent == N4CleanupIntent::Revoked {
                CleanupPath::Pends
            } else if referenced && dispatch.state is Confirmed {
                CleanupPath::Pends
            } else {
                CleanupPath::Ends
            },
        }
    }
}

/// The session of the request is not stored.
pub open spec fn no_session_problem() -> StateErrorView {
    StateErrorView::Sqlite("Query returned no rows"@)
}

/// Why the stored session cannot be had, if it cannot.
pub open spec fn stored_session_problem(session: Option<StoredSession>) -> Option<StateErrorView> {
    match session {
        None => Some(no_session_problem()),
        Some(stored) => unreadable(stored.record),
    }
}

/// Why an answer is a refusal, if it is one.
pub open spec fn refusal<T>(answer: Result<T, String>) -> Option<StateErrorView> {
    match answer {
        Ok(_) => None,
        Err(text) => Some(StateErrorView::Conflict(text@)),
    }
}

/// Expiry is the final reason once the deadline is reached, even where a
/// revocation was pending.
pub open spec fn overtakes(stored: N4Lifecycle, intent: N4CleanupIntent) -> bool {
    intent == N4CleanupIntent::Expired && stored.invitation.record->Ok_0.state is Revoking
}

/// The invitation must still move to the pending state of the intent.
pub open spec fn must_pend(stored: N4Lifecycle, intent: N4CleanupIntent) -> bool {
    !overtakes(stored, intent) && stored.invitation.record->Ok_0.state != intent.pending()
}

/// The session must still move to the final state of the intent.
pub open spec fn must_end_session(stored: N4Lifecycle, intent: N4CleanupIntent) -> bool {
    let session = stored.session->Some_0.record->Ok_0;
    session.state != intent.ended_session() && !(session.state is Failed)
}

/// Why the preparation of a cleanup fails, if it does, once its target is known.
pub open spec fn cleanup_problem(
    stored: N4Lifecycle,
    intent: N4CleanupIntent,
    answers: CleanupAnswers,
) -> Option<StateErrorView> {
    match cleanup_path(stored, intent) {
        CleanupPath::Stays => None,
        CleanupPath::Pends => either(
            refusal(answers.pending),
            either(stored_session_problem(stored.session), refusal(answers.pending_session)),
        ),
        CleanupPath::Ends => either(
            if must_pend(stored, intent) {
                refusal(answers.pending)
            } else {
                None
            },
            either(
                if overtakes(stored, intent) {
                    None
                } else {
                    refusal(answers.ended)
                },
                if stored.dispatch is Some {
                    either(
                        stored_session_problem(stored.session),
                        if must_end_session(stored, intent) {
                            refusal(answers.ended_session)
                        } else {
                            None
                        },
                    )
                } else {
                    None
                },
            ),
        ),
    }
}

/// The stored invitation in another state.
pub open spec fn is_moved(before: StoredInvitation, state: InvitationState, after: StoredInvitation) -> bool {
    &&& after.record == Ok::<Invitation, String>(Invitation { state, ..before.record->Ok_0 })
    &&& after.state@ == ascii_lower(state.text())
    &&& after.used_count == before.used_count
}

/// The metadata of a credential in another state of invalidation.
pub open spec fn is_metadata_moved(
    before: Option<N4CredentialMetadata>,
    state: Seq<char>,
    after: Option<N4CredentialMetadata>,
) -> bool {
    match (before, after) {
        (None, None) => true,
        (Some(metadata), Some(moved)) => {
            &&& moved == (N4CredentialMetadata {
                invalidation_state: moved.invalidation_state,
                ..metadata
            })
            &&& moved.invalidation_state@ == state
        },
        _ => false,
    }
}

/// The invalidation of the credential becomes pending.
pub open spec fn is_pending(
    before: N4Lifecycle,
    state: InvitationState,
    session: JoinSession,
    now: Timestamp,
    after: N4Lifecycle,
) -> bool {
    &&& is_moved(before.invitation, state, after.invitation)
    &&& after.details == before.details
    &&& after.dispatch == Some(
        N4Dispatch { state: DispatchState::RevocationPending, ..before.dispatch->Some_0 },
    )
    &&& is_stored_session(after.session, session, now)
    &&& after.reference == before.reference
    &&& if known_reference(before) is Some {
        is_metadata_moved(before.metadata, "pending"@, after.metadata)
    } else {
        after.metadata == before.metadata
    }
}

/// A request that nothing at the provider answers to can be closed.
pub open spec fn can_close(state: DispatchState) -> bool {
    state is Reserved || state is FailedPreDispatch || state is FailedNoApply
        || state is RevocationPending
}

/// The number of milliseconds, unless there is one already.
pub open spec fn or_millis(millis: Option<i64>, now: Timestamp) -> Option<int> {
    match millis {
        Some(value) => Some(value as int),
        None => Some(now.millis()),
    }
}

/// The request of an invitation that ended.
pub open spec fn is_closed(
    before: Option<N4Dispatch>,
    intent: N4CleanupIntent,
    now: Timestamp,
    after: Option<N4Dispatch>,
) -> bool {
    match (before, after) {
        (None, None) => true,
        (Some(dispatch), Some(closed)) => if can_close(dispatch.state) {
            &&& closed == (N4Dispatch {
                state: intent.ended_dispatch(),
                resolved_at_ms: closed.resolved_at_ms,
                ..dispatch
            })
            &&& or_millis(dispatch.resolved_at_ms, now) == (match closed.resolved_at_ms {
                Some(value) => Some(value as int),
                None => None,
            })
        } else {
            closed == dispatch
        },
        _ => false,
    }
}

/// The details of an invitation that ended: the time and the next revision.
pub open spec fn is_ended_details(
    before: N4Details,
    intent: N4CleanupIntent,
    now: Timestamp,
    after: N4Details,
) -> bool {
    let revision = (before.revision + 1) as u64;
    match intent {
        N4CleanupIntent::Revoked => {
            &&& after == (N4Details { revoked_at_ms: after.revoked_at_ms, revision, ..before })
            &&& after.revoked_at_ms matches Some(at) && at == now.millis()
        },
        N4CleanupIntent::Expired => {
            &&& after == (N4Details { expired_at_ms: after.expired_at_ms, revision, ..before })
            &&& after.expired_at_ms matches Some(at) && at == now.millis()
        },
    }
}

/// The state in which an invitation ends without anything at the provider.
pub open spec fn end_state(
    stored: N4Lifecycle,
    intent: N4CleanupIntent,
    answers: CleanupAnswers,
) -> InvitationState {
    if overtakes(stored, intent) {
        InvitationState::Expired
    } else {
        answers.ended->Ok_0
    }
}

/// The invitation ends without anything at the provider.
pub open spec fn is_ended(
    before: N4Lifecycle,
    intent: N4CleanupIntent,
    answers: CleanupAnswers,
    now: Timestamp,
    after: N4Lifecycle,
) -> bool {
    &&& is_moved(before.invitation, end_state(before, intent, answers), after.invitation)
    &&& is_ended_details(before.details, intent, now, after.details)
    &&& is_closed(before.dispatch, intent, now, after.dispatch)
    &&& if before.dispatch is Some && must_end_session(before, intent) {
        is_stored_session(after.session, answers.ended_session->Ok_0, now)
    } else {
        after.session == before.session
    }
    &&& after.reference == before.reference
    &&& after.metadata == before.metadata
}

/// The name of the action of ending an invitation.
pub open spec fn cleanup_action(invitation: Seq<char>, intent: N4CleanupIntent) -> Seq<char> {
    "invitation:"@ + invitation + ":"@ + intent.text()
}

fn parsed_optional_session(stored: &Option<N4Dispatch>) -> (result: Result<
    Option<JoinSessionId>,
    StateError,
>)
    ensures
        ({
            let known = match *stored {
                Some(dispatch) => Some(dispatch.join_session_id),
                None => None,
            };
            match result {
                Ok(id) => optional_parse_problem(known) is None && id == optional_parsed(known),
                Err(error) => optional_parse_problem(known) == Some(error@),
            }
        }),
{
    match stored {
        Some(dispatch) => match &dispatch.join_session_id.parsed {
            Ok(id) => Ok(Some(id.clone())),
            Err(text) => Err(StateError::Conflict(text.clone())),
        },
        None => Ok(None),
    }
}

fn parsed_optional_credential(stored: &Option<N4Dispatch>) -> (result: Result<
    Option<ProviderCredentialId>,
    StateError,
>)
    ensures
        ({
            let known = match *stored {
                Some(dispatch) => dispatch.credential_id,
                None => None,
            };
            match result {
                Ok(id) => optional_parse_problem(known) is None && id == optional_parsed(known),
                Err(error) => optional_parse_problem(known) == Some(error@),
            }
        }),
{
    match stored {
        Some(dispatch) => match &dispatch.credential_id {
            Some(credential) => match &credential.parsed {
                Ok(id) => Ok(Some(id.clone())),
                Err(text) => Err(StateError::Conflict(text.clone())),
            },
            None => Ok(None),
        },
        None => Ok(None),
    }
}

fn parsed_optional_reference(stored: &N4Lifecycle) -> (result: Result<
    Option<ProviderCredentialReference>,
    StateError,
>)
    ensures
        match result {
            Ok(reference) => {
                &&& optional_parse_problem(known_reference(*stored)) is None
                &&& reference == optional_parsed(known_reference(*stored))
            },
            Err(error) => optional_parse_problem(known_reference(*stored)) == Some(error@),
        },
{
    match &stored.dispatch {
        Some(dispatch) => {
            if dispatch.credential_id.is_none() {
                return Ok(None);
            }
            match &stored.reference {
                Some(reference) => match &reference.parsed {
                    Ok(value) => Ok(Some(value.clone())),
                    Err(text) => Err(StateError::Conflict(text.clone())),
                },
                None => Ok(None),
            }
        },
        None => Ok(None),
    }
}

fn cleanup_target(
    invitation_id: InvitationId,
    stored: &N4Lifecycle,
    intent: N4CleanupIntent,
    now: Timestamp,
) -> (result: Result<N4CleanupTarget, StateError>)
    ensures
        match result {
            Ok(target) => {
                &&& target_problem(invitation_id@, Some(*stored), intent, now) is None
                &&& target == target_of(invitation_id, *stored, intent)
            },
            Err(error) => target_problem(invitation_id@, Some(*stored), intent, now) == Some(
                error@,
            ),
        },
{
    let invitation = match &stored.invitation.record {
        Ok(invitation) => invitation,
        Err(text) => return Err(StateError::Serialization(text.clone())),
    };
    let expiring = match intent {
        N4CleanupIntent::Expired => true,
        N4CleanupIntent::Revoked => false,
    };
    if expiring && now.is_before(&invitation.expires_at) {
        return Err(conflict("N4 invitation has not reached its expiry deadline"));
    }
    let provider_instance_id = match &stored.details.provider_instance_id.parsed {
        Ok(instance) => instance.clone(),
        Err(text) => return Err(StateError::Conflict(text.clone())),
    };
    let join_session_id = parsed_optional_session(&stored.dispatch)?;
    let credential_id = parsed_optional_credential(&stored.dispatch)?;
    let provider_reference = parsed_optional_reference(stored)?;
    let cleanup_uncertain = provider_reference.is_none() && join_session_id.is_some();
    Ok(
        N4CleanupTarget {
            invitation_id,
            join_session_id,
            credential_id,
            provider_reference,
            network_id: invitation.network_id.clone(),
            provider_instance_id,
            intent,
            cleanup_uncertain,
        },
    )
}

fn path_of(
    state: &InvitationState,
    dispatch: &Option<N4Dispatch>,
    referenced: bool,
    intent: N4CleanupIntent,
    stored: Ghost<N4Lifecycle>,
) -> (path: CleanupPath)
    requires
        stored@.invitation.record matches Ok(invitation) && invitation.state == *state,
        stored@.dispatch == *dispatch,
        referenced == (known_reference(stored@) is Some),
    ensures
        path == cleanup_path(stored@, intent),
{
    match state {
        InvitationState::Revoked => return CleanupPath::Stays,
        InvitationState::Expired => return CleanupPath::Stays,
        _ => {},
    }
    match dispatch {
        None => CleanupPath::Ends,
        Some(dispatch) => match (&dispatch.state, referenced, intent) {
            (DispatchState::RevocationPending, false, N4CleanupIntent::Expired) => CleanupPath::Ends,
            (DispatchState::RevocationPending, _, _) => CleanupPath::Stays,
            (DispatchState::DispatchStarted, false, N4CleanupIntent::Revoked) => CleanupPath::Pends,
            (DispatchState::Ambiguous, false, N4CleanupIntent::Revoked) => CleanupPath::Pends,
            (DispatchState::Confirmed, true, _) => CleanupPath::Pends,
            _ => CleanupPath::Ends,
        },
    }
}

fn check_stored_session(session: &Option<StoredSession>) -> (result: Result<(), StateError>)
    ensures
        match result {
            Ok(()) => stored_session_problem(*session) is None,
            Err(error) => stored_session_problem(*session) == Some(error@),
        },
{
    match session {
        None => Err(StateError::Sqlite("Query returned no rows".to_owned())),
        Some(stored) => match &stored.record {
            Ok(_) => Ok(()),
            Err(text) => Err(StateError::Serialization(text.clone())),
        },
    }
}

fn moved(before: StoredInvitation, state: InvitationState) -> (after: StoredInvitation)
    requires
        before.record is Ok,
    ensures
        is_moved(before, state, after),
{
    let column = lower(state.as_str());
    match before.record {
        Ok(mut invitation) => {
            invitation.state = state;
            StoredInvitation { record: Ok(invitation), state: column, used_count: before.used_count }
        },
        Err(text) => StoredInvitation {
            record: Err(text),
            state: column,
            used_count: before.used_count,
        },
    }
}

fn is_state_pending(state: &InvitationState, intent: N4CleanupIntent) -> (result: bool)
    ensures
        result == (*state == intent.pending()),
{
    match (state, intent) {
        (InvitationState::Revoking, N4CleanupIntent::Revoked) => true,
        (InvitationState::Expiring, N4CleanupIntent::Expired) => true,
        _ => false,
    }
}

fn is_overtaken(state: &InvitationState, intent: N4CleanupIntent) -> (result: bool)
    ensures
        result == (intent == N4CleanupIntent::Expired && state is Revoking),
{
    match (state, intent) {
        (InvitationState::Revoking, N4CleanupIntent::Expired) => true,
        _ => false,
    }
}

fn needs_end(session: &JoinSession, intent: N4CleanupIntent) -> (result: bool)
    ensures
        result == (session.state != intent.ended_session() && !(session.state is Failed)),
{
    match (&session.state, intent) {
        (JoinSessionState::Failed, _) => false,
        (JoinSessionState::Revoked, N4CleanupIntent::Revoked) => false,
        (JoinSessionState::Expired, N4CleanupIntent::Expired) => false,
        _ => true,
    }
}

fn closed(before: Option<N4Dispatch>, intent: N4CleanupIntent, now: Timestamp) -> (after: Option<
    N4Dispatch,
>)
    ensures
        is_closed(before, intent, now, after),
{
    match before {
        None => None,
        Some(mut dispatch) => {
            let closes = match dispatch.state {
                DispatchState::Reserved => true,
                DispatchState::FailedPreDispatch => true,
                DispatchState::FailedNoApply => true,
                DispatchState::RevocationPending => true,
                _ => false,
            };
            if closes {
                dispatch.state = intent.ended_dispatch_state();
                if dispatch.resolved_at_ms.is_none() {
                    dispatch.resolved_at_ms = Some(now.timestamp_millis());
                }
            }
            Some(dispatch)
        },
    }
}

fn ended_details(before: N4Details, intent: N4CleanupIntent, now: Timestamp) -> (after: N4Details)
    requires
        before.revision < u64::MAX,
    ensures
        is_ended_details(before, intent, now, after),
{
    let mut details = before;
    details.revision = details.revision + 1;
    match intent {
        N4CleanupIntent::Revoked => details.revoked_at_ms = Some(now.timestamp_millis()),
        N4CleanupIntent::Expired => details.expired_at_ms = Some(now.timestamp_millis()),
    }
    details
}

fn metadata_moved(before: Option<N4CredentialMetadata>, state: &str) -> (after: Option<
    N4CredentialMetadata,
>)
    ensures
        is_metadata_moved(before, state@, after),
{
    match before {
        None => None,
        Some(mut metadata) => {
            metadata.invalidation_state = state.to_owned();
            Some(metadata)
        },
    }
}

/// What the preparation of a cleanup leaves behind.
pub open spec fn is_prepared(
    before: N4Lifecycle,
    intent: N4CleanupIntent,
    answers: CleanupAnswers,
    now: Timestamp,
    after: N4Lifecycle,
) -> bool {
    match cleanup_path(before, intent) {
        CleanupPath::Stays => after == before,
        CleanupPath::Pends => is_pending(
            before,
            answers.pending->Ok_0,
            answers.pending_session->Ok_0,
            now,
            after,
        ),
        CleanupPath::Ends => is_ended(before, intent, answers, now, after),
    }
}

/// Why the end of an invitation is not prepared, if it is not.
pub open spec fn preparation_problem(
    store: StateStore,
    invitation: Seq<char>,
    lifecycle: Option<N4Lifecycle>,
    intent: N4CleanupIntent,
    answers: CleanupAnswers,
    now: Timestamp,
) -> Option<StateErrorView> {
    either(
        target_problem(invitation, lifecycle, intent, now),
        either(
            cleanup_problem(lifecycle->Some_0, intent, answers),
            if cleanup_path(lifecycle->Some_0, intent) is Ends {
                store.n4_audit_problem(intent.kind())
            } else {
                None
            },
        ),
    )
}

/// The events of the preparation of a cleanup: only the end of an invitation is
/// one.
pub open spec fn preparation_events(
    log: AuditLog,
    before: N4Lifecycle,
    invitation_id: InvitationId,
    intent: N4CleanupIntent,
    actor: AuditActor,
) -> Seq<AuditFact> {
    if cleanup_path(before, intent) is Ends {
        recorded_once(
            log,
            n4_fact(
                before.details.network_id,
                invitation_id,
                None,
                cleanup_action(invitation_id@, intent),
                actor,
                intent.kind(),
                AuditOutcome::Success,
            ),
        )
    } else {
        Seq::empty()
    }
}

impl StateStore {
    /// Prepares the end of an invitation. Where a credential may exist at the
    /// provider, its invalidation becomes pending; otherwise the invitation
    /// ends. The lifecycle as it is then is returned, to be stored, with what
    /// has to be cleaned up at the provider.
    pub fn prepare_n4_cleanup(
        &self,
        invitation_id: InvitationId,
        lifecycle: Option<N4Lifecycle>,
        answers: CleanupAnswers,
        now: Timestamp,
        intent: N4CleanupIntent,
        log: &mut AuditLog,
        actor: AuditActor,
    ) -> (result: Result<(N4Lifecycle, N4CleanupTarget), StateError>)
        requires
            lifecycle matches Some(current) ==> current.details.revision < u64::MAX,
        ensures
            final(log).known == old(log).known,
            ({
                let problem = preparation_problem(
                    *self,
                    invitation_id@,
                    lifecycle,
                    intent,
                    answers,
                    now,
                );
                let before = lifecycle->Some_0;
                match result {
                    Ok((after, target)) => {
                        &&& problem is None
                        &&& target == target_of(invitation_id, before, intent)
                        &&& is_prepared(before, intent, answers, now, after)
                        &&& final(log)@ == old(log)@ + preparation_events(
                            *old(log),
                            before,
                            invitation_id,
                            intent,
                            actor,
                        )
                    },
                    Err(error) => {
                        &&& *final(log) == *old(log)
                        &&& problem == Some(error@)
                    },
                }
            }),
    {
        let stored = found(lifecycle, invitation_id.text.as_str())?;
        let ghost before = stored;
        let target = cleanup_target(invitation_id.clone(), &stored, intent, now)?;
        let referenced = target.provider_reference.is_some();
        assert(log@ + Seq::<AuditFact>::empty() =~= log@);
        let path = match &stored.invitation.record {
            Ok(invitation) => path_of(
                &invitation.state,
                &stored.dispatch,
                referenced,
                intent,
                Ghost(before),
            ),
            Err(text) => return Err(StateError::Serialization(text.clone())),
        };
        match path {
            CleanupPath::Stays => Ok((stored, target)),
            CleanupPath::Pends => {
                let state = accepted(answers.pending)?;
                check_stored_session(&stored.session)?;
                let session = accepted(answers.pending_session)?;
                let dispatch = match stored.dispatch {
                    Some(mut dispatch) => {
                        dispatch.state = DispatchState::RevocationPending;
                        Some(dispatch)
                    },
                    None => None,
                };
                let metadata = if referenced {
                    metadata_moved(stored.metadata, "pending")
                } else {
                    stored.metadata
                };
                let after = N4Lifecycle {
                    invitation: moved(stored.invitation, state),
                    details: stored.details,
                    dispatch,
                    session: Some(stored_session(session, now)),
                    reference: stored.reference,
                    metadata,
                };
                Ok((after, target))
            },
            CleanupPath::Ends => {
                let (overtaken, pends) = match &stored.invitation.record {
                    Ok(invitation) => (
                        is_overtaken(&invitation.state, intent),
                        !is_state_pending(&invitation.state, intent),
                    ),
                    Err(_) => (false, false),
                };
                if !overtaken && pends {
                    accepted(answers.pending)?;
                }
                let state = if overtaken {
                    InvitationState::Expired
                } else {
                    accepted(answers.ended)?
                };
                let mut session = stored.session;
                if stored.dispatch.is_some() {
                    check_stored_session(&session)?;
                    let ends_session = match &session {
                        Some(row) => match &row.record {
                            Ok(record) => needs_end(record, intent),
                            Err(_) => false,
                        },
                        None => false,
                    };
                    if ends_session {
                        session = Some(stored_session(accepted(answers.ended_session)?, now));
                    }
                }
                let mut action = "invitation:".to_owned();
                action.append(invitation_id.text.as_str());
                action.append(":");
                action.append(intent.name());
                self.record_n4(
                    log,
                    &stored.details.network_id,
                    &invitation_id,
                    None,
                    action.as_str(),
                    actor,
                    intent.audit_kind(),
                    AuditOutcome::Success,
                )?;
                let after = N4Lifecycle {
                    invitation: moved(stored.invitation, state),
                    details: ended_details(stored.details, intent, now),
                    dispatch: closed(stored.dispatch, intent, now),
                    session,
                    reference: stored.reference,
                    metadata: stored.metadata,
                };
                Ok((after, target))
            },
        }
    }

    /// Prepares the revocation of an invitation.
    pub fn prepare_n4_revocation(
        &self,
        invitation_id: InvitationId,
        lifecycle: Option<N4Lifecycle>,
        answers: CleanupAnswers,
        now: Timestamp,
        log: &mut AuditLog,
        actor: AuditActor,
    ) -> (result: Result<(N4Lifecycle, N4CleanupTarget), StateError>)
        requires
            lifecycle matches Some(current) ==> current.details.revision < u64::MAX,
        ensures
            final(log).known == old(log).known,
            ({
                let problem = preparation_problem(
                    *self,
                    invitation_id@,
                    lifecycle,
                    N4CleanupIntent::Revoked,
                    answers,
                    now,
                );
                let before = lifecycle->Some_0;
                match result {
                    Ok((after, target)) => {
                        &&& problem is None
                        &&& target == target_of(invitation_id, before, N4CleanupIntent::Revoked)
                        &&& is_prepared(before, N4CleanupIntent::Revoked, answers, now, after)
                        &&& final(log)@ == old(log)@ + preparation_events(
                            *old(log),
                            before,
                            invitation_id,
                            N4CleanupIntent::Revoked,
                            actor,
                        )
                    },
                    Err(error) => {
                        &&& *final(log) == *old(log)
                        &&& problem == Some(error@)
                    },
                }
            }),
    {
        self.prepare_n4_cleanup(
            invitation_id,
            lifecycle,
            answers,
            now,
            N4CleanupIntent::Revoked,
            log,
            actor,
        )
    }

    /// Prepares the expiry of an invitation.
    pub fn prepare_n4_expiry(
        &self,
        invitation_id: InvitationId,
        lifecycle: Option<N4Lifecycle>,
        answers: CleanupAnswers,
        now: Timestamp,
        log: &mut AuditLog,
        actor: AuditActor,
    ) -> (result: Result<(N4Lifecycle, N4CleanupTarget), StateError>)
        requires
            lifecycle matches Some(current) ==> current.details.revision < u64::MAX,
        ensures
            final(log).known == old(log).known,
            ({
                let problem = preparation_problem(
                    *self,
                    invitation_id@,
                    lifecycle,
                    N4CleanupIntent::Expired,
                    answers,
                    now,
                );
                let before = lifecycle->Some_0;
                match result {
                    Ok((after, target)) => {
                        &&& problem is None
                        &&& target == target_of(invitation_id, before, N4CleanupIntent::Expired)
                        &&& is_prepared(before, N4CleanupIntent::Expired, answers, now, after)
                        &&& final(log)@ == old(log)@ + preparation_events(
                            *old(log),
                            before,
                            invitation_id,
                            N4CleanupIntent::Expired,
                            actor,
                        )
                    },
                    Err(error) => {
                        &&& *final(log) == *old(log)
                        &&& problem == Some(error@)
                    },
                }
            }),
    {
        self.prepare_n4_cleanup(
            invitation_id,
            lifecycle,
            answers,
            now,
            N4CleanupIntent::Expired,
            log,
            actor,
        )
    }
}

/// Why there is nothing to settle, if there is nothing: no credential is stored,
/// or the target is not exactly it.
pub open spec fn provenance_problem(target: N4CleanupTarget, lifecycle: Option<N4Lifecycle>) -> Option<
    StateErrorView,
> {
    if !(lifecycle matches Some(stored) && known_reference(stored) is Some) {
        Some(
            StateErrorView::Conflict("N4 invalidation target has no exact durable credential"@),
        )
    } else {
        let stored = lifecycle->Some_0;
        let dispatch = stored.dispatch->Some_0;
        if !(target.join_session_id matches Some(id) && id@ == dispatch.join_session_id.text@) || !(
        target.credential_id matches Some(id) && id@ == dispatch.credential_id->Some_0.text@) || !(
        target.provider_reference matches Some(reference) && reference@
            == stored.reference->Some_0.text@) || target.network_id@ != dispatch.network_id.text@
            || target.provider_instance_id@ != dispatch.provider_instance_id.text@ {
            Some(
                StateErrorView::Conflict(
                    "N4 invalidation target does not exactly match durable provenance"@,
                ),
            )
        } else {
            None
        }
    }
}

/// The invalidation is not settled yet.
pub open spec fn is_unsettled(state: Seq<char>) -> bool {
    state == "pending"@ || state == "retryable"@ || state == "ambiguous"@ || state == "blocked"@
}

/// The credential has a stored state of invalidation that is not settled yet.
pub open spec fn has_unsettled(metadata: Option<N4CredentialMetadata>) -> bool {
    metadata matches Some(known) && is_unsettled(known.invalidation_state@)
}

/// The provider no longer honours the credential.
pub open spec fn is_invalidated(outcome: N4InvalidationOutcome) -> bool {
    outcome == N4InvalidationOutcome::Confirmed || outcome
        == N4InvalidationOutcome::AlreadySatisfied
}

/// The stored name of an invalidation that was not achieved.
pub open spec fn unsettled_text(outcome: N4InvalidationOutcome) -> Seq<char> {
    if outcome == N4InvalidationOutcome::Retryable {
        "retryable"@
    } else if outcome == N4InvalidationOutcome::Ambiguous {
        "ambiguous"@
    } else {
        "blocked"@
    }
}

/// The invalidation was settled before, with the same intent.
pub open spec fn is_settled(target: N4CleanupTarget, stored: N4Lifecycle) -> bool {
    stored.dispatch->Some_0.state == target.intent.ended_dispatch()
}

/// Why an invalidation that the provider confirmed is not settled, if it is not.
/// `ended` and `ended_session` are what the rules of invitations and of join
/// sessions answer.
pub open spec fn settle_problem(
    target: N4CleanupTarget,
    stored: N4Lifecycle,
    ended: Result<InvitationState, String>,
    ended_session: Result<JoinSession, String>,
) -> Option<StateErrorView> {
    let dispatch = stored.dispatch->Some_0;
    if dispatch.state is Revoked || dispatch.state is Expired {
        Some(
            StateErrorView::Conflict(
                "N4 terminal invalidation intent conflicts with durable dispatch"@,
            ),
        )
    } else if !(dispatch.state is RevocationPending) {
        Some(StateErrorView::Conflict("N4 invalidation is not pending"@))
    } else if !has_unsettled(stored.metadata) {
        Some(StateErrorView::Conflict("N4 invalidation metadata did not settle exactly once"@))
    } else {
        either(
            unreadable(stored.invitation.record),
            either(
                refusal(ended),
                either(stored_session_problem(stored.session), refusal(ended_session)),
            ),
        )
    }
}

/// A settled invalidation takes the lifecycle from the one to the other: the
/// invitation ends and its request is closed.
pub open spec fn settles(
    before: N4Lifecycle,
    intent: N4CleanupIntent,
    state: InvitationState,
    session: JoinSession,
    now: Timestamp,
    after: N4Lifecycle,
) -> bool {
    &&& is_moved(before.invitation, state, after.invitation)
    &&& is_ended_details(before.details, intent, now, after.details)
    &&& is_closed(before.dispatch, intent, now, after.dispatch)
    &&& is_stored_session(after.session, session, now)
    &&& after.reference == before.reference
    &&& after.metadata matches Some(metadata) && {
        &&& metadata == (N4CredentialMetadata {
            invalidation_state: metadata.invalidation_state,
            invalidated_at_ms: metadata.invalidated_at_ms,
            ..before.metadata->Some_0
        })
        &&& metadata.invalidation_state@ == "confirmed"@
        &&& metadata.invalidated_at_ms matches Some(at) && at == now.millis()
    }
}

/// An invalidation that was not achieved is remembered for another attempt.
pub open spec fn stays_unsettled(
    before: N4Lifecycle,
    outcome: N4InvalidationOutcome,
    after: N4Lifecycle,
) -> bool {
    &&& after == (N4Lifecycle { metadata: after.metadata, ..before })
    &&& if has_unsettled(before.metadata) {
        is_metadata_moved(before.metadata, unsettled_text(outcome), after.metadata)
    } else {
        after.metadata == before.metadata
    }
}

/// The name of the action of invalidating a credential.
pub open spec fn invalidation_action(credential: Seq<char>, intent: N4CleanupIntent) -> Seq<char> {
    "credential-invalidation:"@ + credential + ":"@ + intent.text()
}

/// Why a settlement fails, if it does.
pub open spec fn settlement_problem(
    store: StateStore,
    target: N4CleanupTarget,
    lifecycle: Option<N4Lifecycle>,
    outcome: N4InvalidationOutcome,
    ended: Result<InvitationState, String>,
    ended_session: Result<JoinSession, String>,
) -> Option<StateErrorView> {
    either(
        provenance_problem(target, lifecycle),
        if !is_invalidated(outcome) || is_settled(target, lifecycle->Some_0) {
            None
        } else {
            either(
                settle_problem(target, lifecycle->Some_0, ended, ended_session),
                store.n4_audit_problem(AuditKind::JoinCredentialInvalidated),
            )
        },
    )
}

/// The events of a settlement.
pub open spec fn settlement_events(
    log: AuditLog,
    target: N4CleanupTarget,
    before: N4Lifecycle,
    actor: AuditActor,
) -> Seq<AuditFact> {
    let action = invalidation_action(
        before.dispatch->Some_0.credential_id->Some_0.text@,
        target.intent,
    );
    recorded_once(
        log,
        n4_fact(
            before.details.network_id,
            target.invitation_id,
            target.join_session_id,
            action,
            actor,
            AuditKind::JoinCredentialInvalidated,
            AuditOutcome::Success,
        ),
    ) + recorded_once(
        log,
        n4_fact(
            before.details.network_id,
            target.invitation_id,
            target.join_session_id,
            action,
            actor,
            target.intent.kind(),
            AuditOutcome::Success,
        ),
    )
}

fn check_provenance(target: &N4CleanupTarget, lifecycle: &Option<N4Lifecycle>) -> (result: Result<
    (),
    StateError,
>)
    ensures
        match result {
            Ok(()) => provenance_problem(*target, *lifecycle) is None,
            Err(error) => provenance_problem(*target, *lifecycle) == Some(error@),
        },
{
    let stored = match lifecycle {
        Some(stored) => stored,
        None => return Err(conflict("N4 invalidation target has no exact durable credential")),
    };
    let dispatch = match &stored.dispatch {
        Some(dispatch) => dispatch,
        None => return Err(conflict("N4 invalidation target has no exact durable credential")),
    };
    let credential = match &dispatch.credential_id {
        Some(credential) => credential,
        None => return Err(conflict("N4 invalidation target has no exact durable credential")),
    };
    let reference = match &stored.reference {
        Some(reference) => reference,
        None => return Err(conflict("N4 invalidation target has no exact durable credential")),
    };
    let same_session = match &target.join_session_id {
        Some(id) => same_text(id.text.as_str(), dispatch.join_session_id.text.as_str()),
        None => false,
    };
    let same_credential = match &target.credential_id {
        Some(id) => same_text(id.text.as_str(), credential.text.as_str()),
        None => false,
    };
    let same_reference = match &target.provider_reference {
        Some(known) => same_text(known.text.as_str(), reference.text.as_str()),
        None => false,
    };
    if !same_session || !same_credential || !same_reference || !same_text(
        target.network_id.text.as_str(),
        dispatch.network_id.text.as_str(),
    ) || !same_text(
        target.provider_instance_id.text.as_str(),
        dispatch.provider_instance_id.text.as_str(),
    ) {
        return Err(conflict("N4 invalidation target does not exactly match durable provenance"));
    }
    Ok(())
}

fn unsettled(metadata: &Option<N4CredentialMetadata>) -> (result: bool)
    ensures
        result == has_unsettled(*metadata),
{
    match metadata {
        Some(known) => {
            let state = known.invalidation_state.as_str();
            same_text(state, "pending") || same_text(state, "retryable") || same_text(
                state,
                "ambiguous",
            ) || same_text(state, "blocked")
        },
        None => false,
    }
}

impl StateStore {
    /// Settles the invalidation of a credential by what the provider answered.
    /// The lifecycle as it is then is returned, to be stored.
    pub fn settle_n4_credential_invalidation(
        &self,
        target: N4CleanupTarget,
        lifecycle: Option<N4Lifecycle>,
        outcome: N4InvalidationOutcome,
        ended: Result<InvitationState, String>,
        ended_session: Result<JoinSession, String>,
        now: Timestamp,
        log: &mut AuditLog,
        actor: AuditActor,
    ) -> (result: Result<N4Lifecycle, StateError>)
        requires
            lifecycle matches Some(current) ==> current.details.revision < u64::MAX,
        ensures
            final(log).known == old(log).known,
            ({
                let problem = settlement_problem(
                    *self,
                    target,
                    lifecycle,
                    outcome,
                    ended,
                    ended_session,
                );
                let before = lifecycle->Some_0;
                match result {
                    Ok(after) => {
                        &&& problem is None
                        &&& if !is_invalidated(outcome) {
                            &&& stays_unsettled(before, outcome, after)
                            &&& *final(log) == *old(log)
                        } else if is_settled(target, before) {
                            &&& after == before
                            &&& *final(log) == *old(log)
                        } else {
                            &&& settles(
                                before,
                                target.intent,
                                ended->Ok_0,
                                ended_session->Ok_0,
                                now,
                                after,
                            )
                            &&& final(log)@ == old(log)@ + settlement_events(
                                *old(log),
                                target,
                                before,
                                actor,
                            )
                        }
                    },
                    Err(error) => {
                        &&& *final(log) == *old(log)
                        &&& problem == Some(error@)
                    },
                }
            }),
    {
        check_provenance(&target, &lifecycle)?;
        let stored = match lifecycle {
            Some(stored) => stored,
            None => return Err(
                conflict("N4 invalidation target has no exact durable credential"),
            ),
        };
        let state: &'static str = match outcome {
            N4InvalidationOutcome::Retryable => "retryable",
            N4InvalidationOutcome::Ambiguous => "ambiguous",
            _ => "blocked",
        };
        let invalidated = match outcome {
            N4InvalidationOutcome::Confirmed => true,
            N4InvalidationOutcome::AlreadySatisfied => true,
            _ => false,
        };
        if !invalidated {
            let mut after = stored;
            if unsettled(&after.metadata) {
                after.metadata = metadata_moved(after.metadata, state);
            }
            return Ok(after);
        }
        let (settled, finished, pending, credential) = match &stored.dispatch {
            Some(dispatch) => {
                let (settled, finished, pending) = match (&dispatch.state, target.intent) {
                    (DispatchState::Revoked, N4CleanupIntent::Revoked) => (true, true, false),
                    (DispatchState::Expired, N4CleanupIntent::Expired) => (true, true, false),
                    (DispatchState::Revoked, _) => (false, true, false),
                    (DispatchState::Expired, _) => (false, true, false),
                    (DispatchState::RevocationPending, _) => (false, false, true),
                    _ => (false, false, false),
                };
                let credential = match &dispatch.credential_id {
                    Some(id) => id.text.clone(),
                    None => String::new(),
                };
                (settled, finished, pending, credential)
            },
            None => (false, false, false, String::new()),
        };
        if settled {
            return Ok(stored);
        }
        if finished {
            return Err(
                conflict("N4 terminal invalidation intent conflicts with durable dispatch"),
            );
        }
        if !pending {
            return Err(conflict("N4 invalidation is not pending"));
        }
        if !unsettled(&stored.metadata) {
            return Err(conflict("N4 invalidation metadata did not settle exactly once"));
        }
        if let Err(text) = &stored.invitation.record {
            return Err(StateError::Serialization(text.clone()));
        }
        let state = accepted(ended)?;
        check_stored_session(&stored.session)?;
        let session = accepted(ended_session)?;
        let mut action = "credential-invalidation:".to_owned();
        action.append(credential.as_str());
        action.append(":");
        action.append(target.intent.name());
        let session_id = match &target.join_session_id {
            Some(id) => Some(id),
            None => None,
        };
        self.record_n4_pair(
            log,
            &stored.details.network_id,
            &target.invitation_id,
            session_id,
            action.as_str(),
            actor,
            AuditKind::JoinCredentialInvalidated,
            target.intent.audit_kind(),
        )?;
        let metadata = match stored.metadata {
            Some(mut metadata) => {
                metadata.invalidation_state = "confirmed".to_owned();
                metadata.invalidated_at_ms = Some(now.timestamp_millis());
                Some(metadata)
            },
            None => None,
        };
        Ok(
            N4Lifecycle {
                invitation: moved(stored.invitation, state),
                details: ended_details(stored.details, target.intent, now),
                dispatch: closed(stored.dispatch, target.intent, now),
                session: Some(stored_session(session, now)),
                reference: stored.reference,
                metadata,
            },
        )
    }
}

} // verus!
