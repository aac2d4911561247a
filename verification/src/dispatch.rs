//! Handing the request for a join credential to the provider, once, and what
//! comes back.

use crate::audit::{AuditActor, AuditLog, StateStore};
use crate::authorization::{
    AuthorityRecords, AuthorizationFacts, ConfigurationRow, CredentialReferenceRow,
    MutationAuthorization,
};
use crate::error::{
    accepted, conflict, decoded, found, storage_problem, storage_result, DatabaseFailure,
    StateError, StateErrorView,
};
use crate::ids::{
    generation, parse_problem, Generation, InvitationId, JoinSessionId, NetworkId,
    ProviderCredentialId, ProviderCredentialReference, ProviderInstanceId, Stored,
};
use crate::lifecycle::{
    principal_problem, unreadable, DispatchFence, N4CredentialMetadata, N4Details, N4Dispatch,
    N4InvitationContext, N4Lifecycle, StoredInvitation, StoredSession,
};
use crate::metadata::SanitizedMetadata;
use crate::names::{
    parse_policy_mode, AuditKind, AuditOutcome, DispatchState, InvitationState, JoinSessionState,
    MutationPolicyMode, N4DispatchFailure, ProviderMutationCapability,
};
use crate::records::{Invitation, JoinSession};
use crate::redemption::{
    is_stored_id, is_stored_session, n4_fact, recorded_once, stored_session,
};
use crate::rules::{is_approved_tag, is_identifier, n4_approved_tag, safe_identifier};
use crate::store::either;
use crate::text::{join, same_text};
use crate::time::Timestamp;
use vstd::prelude::*;

verus! {

/// A credential request that is handed to the provider.
#[derive(Debug, PartialEq, Eq)]
pub struct N4CredentialDispatch {
    pub join_session_id: JoinSessionId,
    pub invitation_id: InvitationId,
    pub network_id: NetworkId,
    pub context: N4InvitationContext,
    pub authorization_generation: Generation,
    pub configuration_generation: Generation,
    pub configuration_fingerprint: String,
}

impl Clone for N4CredentialDispatch {
    fn clone(&self) -> (copy: Self)
        ensures
            copy == *self,
    {
        N4CredentialDispatch {
            join_session_id: self.join_session_id.clone(),
            invitation_id: self.invitation_id.clone(),
            network_id: self.network_id.clone(),
            context: self.context.clone(),
            authorization_generation: self.authorization_generation,
            configuration_generation: self.configuration_generation,
            configuration_fingerprint: self.configuration_fingerprint.clone(),
        }
    }
}

/// A lifecycle with a request and a session is stored.
pub open spec fn has_dispatch(lifecycle: Option<N4Lifecycle>) -> bool {
    lifecycle matches Some(stored) && stored.dispatch is Some && stored.session is Some
}

/// The configuration under which a request may be handed over, if there is one.
pub open spec fn creating(
    authority: AuthorityRecords,
    dispatch: N4Dispatch,
    now: Timestamp,
) -> Option<ConfigurationRow> {
    match authority.current(dispatch.network_id.text@, dispatch.provider_instance_id.text@) {
        Some(row) => if row.is_on() && row.covers_millis(now.millis()) && row.grants(
            ProviderMutationCapability::CreateJoinCredential,
        ) {
            Some(row)
        } else {
            None
        },
        None => None,
    }
}

/// The session may hand its request over.
pub open spec fn is_dispatchable(session: JoinSession, now: Timestamp) -> bool {
    session.n4 && session.state is InvitationValidated && now.before(session.expires_at)
}

/// Why a session does not move to the issuing of its credential, if it does not.
/// `advanced` is what the rules of join sessions answer.
pub open spec fn session_problem(
    record: Result<JoinSession, String>,
    advanced: Result<JoinSession, String>,
    now: Timestamp,
) -> Option<StateErrorView> {
    if unreadable(record) is Some {
        unreadable(record)
    } else if !is_dispatchable(record->Ok_0, now) {
        Some(StateErrorView::Conflict("N4 session not dispatchable"@))
    } else if advanced is Err {
        Some(StateErrorView::Conflict(advanced->Err_0@))
    } else {
        None
    }
}

/// Why the generations of a configuration are out of range for the database, if
/// they are.
pub open spec fn overflow_problem(authorization: u64, configuration: u64) -> Option<StateErrorView> {
    if authorization > i64::MAX || configuration > i64::MAX {
        Some(StateErrorView::Conflict("generation overflow"@))
    } else {
        None
    }
}

/// Why the stored request cannot be handed over, by its own identifiers.
pub open spec fn dispatch_id_problem(dispatch: N4Dispatch, row: ConfigurationRow) -> Option<
    StateErrorView,
> {
    either(
        parse_problem(dispatch.invitation_id),
        either(
            parse_problem(dispatch.network_id),
            either(
                parse_problem(dispatch.provider_instance_id),
                either(
                    principal_problem(dispatch.provider_principal_id@),
                    either(
                        row.authorization_generation.problem(),
                        row.configuration_generation.problem(),
                    ),
                ),
            ),
        ),
    )
}

/// Why a request is not handed over, if it is not.
pub open spec fn begin_problem(
    join_session: Seq<char>,
    lifecycle: Option<N4Lifecycle>,
    advanced: Result<JoinSession, String>,
    authority: AuthorityRecords,
    now: Timestamp,
) -> Option<StateErrorView> {
    if !has_dispatch(lifecycle) {
        Some(StateErrorView::NotFound(join_session))
    } else {
        let dispatch = lifecycle->Some_0.dispatch->Some_0;
        let session = lifecycle->Some_0.session->Some_0;
        if !(dispatch.state is Reserved) {
            Some(StateErrorView::Conflict("N4 dispatch already fenced"@))
        } else {
            match creating(authority, dispatch, now) {
                None => Some(
                    StateErrorView::MutationAuthorizationDenied("N4 create authority unavailable"@),
                ),
                Some(row) => either(
                    session_problem(session.record, advanced, now),
                    either(
                        overflow_problem(
                            row.authorization_generation.number,
                            row.configuration_generation.number,
                        ),
                        dispatch_id_problem(dispatch, row),
                    ),
                ),
            }
        }
    }
}

/// Handing the request over takes the lifecycle from the one to the other: the
/// request is fenced by the configuration it was made under.
pub open spec fn is_begun(
    before: N4Lifecycle,
    row: ConfigurationRow,
    advanced: JoinSession,
    now: Timestamp,
    after: N4Lifecycle,
) -> bool {
    &&& after.invitation == before.invitation
    &&& after.details == before.details
    &&& after.reference == before.reference
    &&& after.metadata == before.metadata
    &&& is_stored_session(after.session, advanced, now)
    &&& after.dispatch matches Some(dispatch) && {
        &&& dispatch == (N4Dispatch {
            state: DispatchState::DispatchStarted,
            fence: dispatch.fence,
            dispatched_at_ms: dispatch.dispatched_at_ms,
            ..before.dispatch->Some_0
        })
        &&& dispatch.fence matches Some(fence) && {
            &&& fence.authorization_generation == row.authorization_generation.number
            &&& fence.configuration_generation == row.configuration_generation.number
            &&& fence.configuration_fingerprint@ == row.configuration_fingerprint@
        }
        &&& dispatch.dispatched_at_ms matches Some(at) && at == now.millis()
    }
}

impl N4CredentialDispatch {
    /// The request is the stored one, made under the given configuration.
    pub open spec fn dispatches(
        self,
        join_session_id: JoinSessionId,
        dispatch: N4Dispatch,
        row: ConfigurationRow,
    ) -> bool {
        &&& self.join_session_id == join_session_id
        &&& dispatch.invitation_id.parsed == Ok::<InvitationId, String>(self.invitation_id)
        &&& dispatch.network_id.parsed == Ok::<NetworkId, String>(self.network_id)
        &&& dispatch.provider_instance_id.parsed == Ok::<ProviderInstanceId, String>(
            self.context.provider_instance_id,
        )
        &&& self.context.provider_principal_id@ == dispatch.provider_principal_id@
        &&& self.authorization_generation.value == row.authorization_generation.number
        &&& self.configuration_generation.value == row.configuration_generation.number
        &&& self.configuration_fingerprint@ == row.configuration_fingerprint@
    }
}

/// A stored lifecycle with a request, without its session.
struct OpenDispatch {
    invitation: StoredInvitation,
    details: N4Details,
    dispatch: N4Dispatch,
    reference: Option<Stored<ProviderCredentialReference>>,
    metadata: Option<N4CredentialMetadata>,
}

fn open_dispatch(lifecycle: Option<N4Lifecycle>, join_session_id: &JoinSessionId) -> (result: Result<
    (OpenDispatch, StoredSession),
    StateError,
>)
    ensures
        match result {
            Ok((opened, session)) => {
                &&& has_dispatch(lifecycle)
                &&& lifecycle->Some_0 == opened.with(Some(session))
            },
            Err(error) => !has_dispatch(lifecycle) && error@ == StateErrorView::NotFound(
                join_session_id@,
            ),
        },
{
    let stored = found(lifecycle, join_session_id.text.as_str())?;
    let dispatch = found(stored.dispatch, join_session_id.text.as_str())?;
    let session = found(stored.session, join_session_id.text.as_str())?;
    let opened = OpenDispatch {
        invitation: stored.invitation,
        details: stored.details,
        dispatch,
        reference: stored.reference,
        metadata: stored.metadata,
    };
    Ok((opened, session))
}

fn check_session(
    record: Result<JoinSession, String>,
    advanced: Result<JoinSession, String>,
    now: Timestamp,
) -> (result: Result<JoinSession, StateError>)
    ensures
        match result {
            Ok(session) => {
                &&& session_problem(record, advanced, now) is None
                &&& advanced == Ok::<JoinSession, String>(session)
            },
            Err(error) => session_problem(record, advanced, now) == Some(error@),
        },
{
    let session = decoded(record)?;
    let validated = match session.state {
        JoinSessionState::InvitationValidated => true,
        _ => false,
    };
    if !session.n4 || !validated || !now.is_before(&session.expires_at) {
        return Err(conflict("N4 session not dispatchable"));
    }
    accepted(advanced)
}

fn check_overflow(authorization: u64, configuration: u64) -> (result: Result<(), StateError>)
    ensures
        match result {
            Ok(()) => overflow_problem(authorization, configuration) is None,
            Err(error) => overflow_problem(authorization, configuration) == Some(error@),
        },
{
    if authorization > i64::MAX as u64 || configuration > i64::MAX as u64 {
        return Err(conflict("generation overflow"));
    }
    Ok(())
}

fn is_reserved_state(state: &DispatchState) -> (result: bool)
    ensures
        result == (state is Reserved),
{
    match state {
        DispatchState::Reserved => true,
        _ => false,
    }
}

fn parsed_network(text: &Result<NetworkId, String>) -> (result: Result<NetworkId, StateError>)
    ensures
        match (*text, result) {
            (Ok(id), Ok(copy)) => copy == id,
            (Err(why), Err(error)) => error@ == StateErrorView::Conflict(why@),
            _ => false,
        },
{
    match text {
        Ok(id) => Ok(id.clone()),
        Err(why) => Err(StateError::Conflict(why.clone())),
    }
}

fn parsed_invitation(text: &Result<InvitationId, String>) -> (result: Result<
    InvitationId,
    StateError,
>)
    ensures
        match (*text, result) {
            (Ok(id), Ok(copy)) => copy == id,
            (Err(why), Err(error)) => error@ == StateErrorView::Conflict(why@),
            _ => false,
        },
{
    match text {
        Ok(id) => Ok(id.clone()),
        Err(why) => Err(StateError::Conflict(why.clone())),
    }
}

fn parsed_instance(text: &Result<ProviderInstanceId, String>) -> (result: Result<
    ProviderInstanceId,
    StateError,
>)
    ensures
        match (*text, result) {
            (Ok(id), Ok(copy)) => copy == id,
            (Err(why), Err(error)) => error@ == StateErrorView::Conflict(why@),
            _ => false,
        },
{
    match text {
        Ok(id) => Ok(id.clone()),
        Err(why) => Err(StateError::Conflict(why.clone())),
    }
}

impl OpenDispatch {
    /// The lifecycle with the given session.
    spec fn with(self, session: Option<StoredSession>) -> N4Lifecycle {
        N4Lifecycle {
            invitation: self.invitation,
            details: self.details,
            dispatch: Some(self.dispatch),
            session,
            reference: self.reference,
            metadata: self.metadata,
        }
    }

    fn begun(self, row: &ConfigurationRow, session: JoinSession, now: Timestamp) -> (after:
        N4Lifecycle)
        ensures
            forall|earlier: Option<StoredSession>|
                is_begun(#[trigger] self.with(earlier), *row, session, now, after),
    {
        let mut dispatch = self.dispatch;
        dispatch.state = DispatchState::DispatchStarted;
        dispatch.fence = Some(
            DispatchFence {
                authorization_generation: row.authorization_generation.number,
                configuration_generation: row.configuration_generation.number,
                configuration_fingerprint: row.configuration_fingerprint.clone(),
            },
        );
        dispatch.dispatched_at_ms = Some(now.timestamp_millis());
        N4Lifecycle {
            invitation: self.invitation,
            details: self.details,
            dispatch: Some(dispatch),
            session: Some(stored_session(session, now)),
            reference: self.reference,
            metadata: self.metadata,
        }
    }
}

impl StateStore {
    /// Hands the request for a credential over, once: it is fenced before the
    /// provider sees it. The lifecycle as it is then is returned, to be stored.
    pub fn begin_n4_credential_dispatch(
        &self,
        join_session_id: JoinSessionId,
        lifecycle: Option<N4Lifecycle>,
        advanced: Result<JoinSession, String>,
        authority: &AuthorityRecords,
        now: Timestamp,
        _actor: AuditActor,
    ) -> (result: Result<(N4Lifecycle, N4CredentialDispatch), StateError>)
        ensures
            ({
                let problem = begin_problem(
                    join_session_id@,
                    lifecycle,
                    advanced,
                    *authority,
                    now,
                );
                match result {
                    Ok((after, dispatch)) => {
                        let before = lifecycle->Some_0;
                        let row = creating(*authority, before.dispatch->Some_0, now)->Some_0;
                        &&& problem is None
                        &&& is_begun(before, row, advanced->Ok_0, now, after)
                        &&& dispatch.dispatches(join_session_id, before.dispatch->Some_0, row)
                    },
                    Err(error) => problem == Some(error@),
                }
            }),
    {
        let (opened, session) = open_dispatch(lifecycle, &join_session_id)?;
        if !is_reserved_state(&opened.dispatch.state) {
            return Err(conflict("N4 dispatch already fenced"));
        }
        let millis: i64 = now.timestamp_millis();
        let row = match authority.find(
            opened.dispatch.network_id.text.as_str(),
            opened.dispatch.provider_instance_id.text.as_str(),
        ) {
            Some(row) => if row.enabled == 1 && row.revoked == 0 && row.not_before_ms <= millis
                && millis < row.expires_at_ms && row.has_capability(
                ProviderMutationCapability::CreateJoinCredential,
            ) {
                row
            } else {
                return Err(
                    StateError::MutationAuthorizationDenied("N4 create authority unavailable"),
                );
            },
            None => return Err(
                StateError::MutationAuthorizationDenied("N4 create authority unavailable"),
            ),
        };
        let moved = check_session(session.record, advanced, now)?;
        check_overflow(
            row.authorization_generation.number,
            row.configuration_generation.number,
        )?;
        let invitation_id = parsed_invitation(&opened.dispatch.invitation_id.parsed)?;
        let network_id = parsed_network(&opened.dispatch.network_id.parsed)?;
        let instance = parsed_instance(&opened.dispatch.provider_instance_id.parsed)?;
        let context = N4InvitationContext::new(
            instance,
            opened.dispatch.provider_principal_id.clone(),
        )?;
        let authorization_generation = generation(&row.authorization_generation)?;
        let configuration_generation = generation(&row.configuration_generation)?;
        let after = opened.begun(row, moved, now);
        Ok(
            (
                after,
                N4CredentialDispatch {
                    join_session_id,
                    invitation_id,
                    network_id,
                    context,
                    authorization_generation,
                    configuration_generation,
                    configuration_fingerprint: row.configuration_fingerprint.clone(),
                },
            ),
        )
    }
}

/// The stored policy mode is not a known one.
pub open spec fn policy_problem(row: ConfigurationRow) -> Option<StateErrorView> {
    if forall|mode: MutationPolicyMode| #[trigger] mode.text() != row.policy_mode@ {
        Some(StateErrorView::MutationAuthorizationDenied("invalid policy mode"@))
    } else {
        None
    }
}

/// The configuration under which a request is handed over with an authorization.
pub open spec fn authorizing(authority: AuthorityRecords, dispatch: N4Dispatch) -> Option<
    ConfigurationRow,
> {
    authority.granting(
        dispatch.network_id.text@,
        dispatch.provider_instance_id.text@,
        ProviderMutationCapability::CreateJoinCredential,
    )
}

/// Why a configuration does not authorize the creation of a credential now, if
/// it does not.
pub open spec fn authority_problem(row: Option<ConfigurationRow>, now: Timestamp) -> Option<
    StateErrorView,
> {
    match row {
        None => Some(
            StateErrorView::MutationAuthorizationDenied("N4 create authority unavailable"@),
        ),
        Some(known) => if known.window_problem() is Some {
            known.window_problem()
        } else if !known.is_on() || !known.covers(now) || !known.is_supported() {
            Some(StateErrorView::MutationAuthorizationDenied("N4 create authority unavailable"@))
        } else {
            None
        },
    }
}

/// Why a request is not handed over with an authorization, if it is not.
pub open spec fn begin_authorized_problem(
    join_session: Seq<char>,
    lifecycle: Option<N4Lifecycle>,
    advanced: Result<JoinSession, String>,
    authority: AuthorityRecords,
    now: Timestamp,
) -> Option<StateErrorView> {
    if !has_dispatch(lifecycle) {
        Some(StateErrorView::NotFound(join_session))
    } else {
        let dispatch = lifecycle->Some_0.dispatch->Some_0;
        let session = lifecycle->Some_0.session->Some_0;
        let row = authorizing(authority, dispatch)->Some_0;
        if !(dispatch.state is Reserved) {
            Some(StateErrorView::Conflict("N4 dispatch already fenced"@))
        } else {
            either(
                authority_problem(authorizing(authority, dispatch), now),
                either(
                    session_problem(session.record, advanced, now),
                    either(
                        overflow_problem(
                            row.authorization_generation.number,
                            row.configuration_generation.number,
                        ),
                        either(
                            parse_problem(dispatch.network_id),
                            either(
                                parse_problem(dispatch.provider_instance_id),
                                either(
                                    row.authorization_generation.problem(),
                                    either(
                                        row.configuration_generation.problem(),
                                        either(
                                            policy_problem(row),
                                            either(
                                                parse_problem(dispatch.invitation_id),
                                                principal_problem(dispatch.provider_principal_id@),
                                            ),
                                        ),
                                    ),
                                ),
                            ),
                        ),
                    ),
                ),
            )
        }
    }
}

/// The authorization is minted from the configuration, for the creation of the
/// credential that the request is about.
pub open spec fn is_authorization_for(
    facts: AuthorizationFacts,
    dispatch: N4Dispatch,
    row: ConfigurationRow,
) -> bool {
    &&& dispatch.network_id.parsed == Ok::<NetworkId, String>(facts.network_id)
    &&& dispatch.provider_instance_id.parsed == Ok::<ProviderInstanceId, String>(
        facts.provider_instance_id,
    )
    &&& facts.capability == ProviderMutationCapability::CreateJoinCredential
    &&& facts.authorization_generation.value == row.authorization_generation.number
    &&& facts.configuration_generation.value == row.configuration_generation.number
    &&& facts.configuration_fingerprint@ == row.configuration_fingerprint@
    &&& facts.adapter@ == row.adapter@
    &&& facts.expected_version@ == row.expected_version@
    &&& facts.not_before.is_at(row.not_before_ms as int)
    &&& facts.expires_at.is_at(row.expires_at_ms as int)
    &&& facts.policy_mode.text() == row.policy_mode@
}

impl StateStore {
    /// Hands the request for a credential over, once, and mints the
    /// authorization for it from the same configuration. The lifecycle as it is
    /// then is returned, to be stored.
    pub fn begin_n4_credential_dispatch_with_authorization(
        &self,
        join_session_id: JoinSessionId,
        lifecycle: Option<N4Lifecycle>,
        advanced: Result<JoinSession, String>,
        authority: &AuthorityRecords,
        now: Timestamp,
        _actor: AuditActor,
    ) -> (result: Result<
        (N4Lifecycle, N4CredentialDispatch, MutationAuthorization),
        StateError,
    >)
        ensures
            ({
                let problem = begin_authorized_problem(
                    join_session_id@,
                    lifecycle,
                    advanced,
                    *authority,
                    now,
                );
                match result {
                    Ok((after, dispatch, authorization)) => {
                        let before = lifecycle->Some_0;
                        let row = authorizing(*authority, before.dispatch->Some_0)->Some_0;
                        &&& problem is None
                        &&& is_begun(before, row, advanced->Ok_0, now, after)
                        &&& dispatch.dispatches(join_session_id, before.dispatch->Some_0, row)
                        &&& is_authorization_for(authorization@, before.dispatch->Some_0, row)
                    },
                    Err(error) => problem == Some(error@),
                }
            }),
    {
        let (opened, session) = open_dispatch(lifecycle, &join_session_id)?;
        if !is_reserved_state(&opened.dispatch.state) {
            return Err(conflict("N4 dispatch already fenced"));
        }
        let row = match authority.find_granting(
            opened.dispatch.network_id.text.as_str(),
            opened.dispatch.provider_instance_id.text.as_str(),
            ProviderMutationCapability::CreateJoinCredential,
        ) {
            Some(row) => row,
            None => return Err(
                StateError::MutationAuthorizationDenied("N4 create authority unavailable"),
            ),
        };
        let (not_before, expires_at) = row.window()?;
        if row.enabled != 1 || row.revoked != 0 || now.is_before(&not_before) || !now.is_before(
            &expires_at,
        ) || !row.supported() {
            return Err(StateError::MutationAuthorizationDenied("N4 create authority unavailable"));
        }
        let moved = check_session(session.record, advanced, now)?;
        check_overflow(
            row.authorization_generation.number,
            row.configuration_generation.number,
        )?;
        let network_id = parsed_network(&opened.dispatch.network_id.parsed)?;
        let provider_instance_id = parsed_instance(&opened.dispatch.provider_instance_id.parsed)?;
        let authorization_generation = generation(&row.authorization_generation)?;
        let configuration_generation = generation(&row.configuration_generation)?;
        let policy_mode = parse_policy_mode(row.policy_mode.as_str())?;
        let facts = AuthorizationFacts {
            network_id: network_id.clone(),
            provider_instance_id: provider_instance_id.clone(),
            authorization_generation,
            configuration_generation,
            configuration_fingerprint: row.configuration_fingerprint.clone(),
            adapter: row.adapter.clone(),
            expected_version: row.expected_version.clone(),
            not_before,
            expires_at,
            capability: ProviderMutationCapability::CreateJoinCredential,
            policy_mode,
        };
        let invitation_id = parsed_invitation(&opened.dispatch.invitation_id.parsed)?;
        let context = N4InvitationContext::new(
            provider_instance_id,
            opened.dispatch.provider_principal_id.clone(),
        )?;
        let after = opened.begun(row, moved, now);
        let dispatch = N4CredentialDispatch {
            join_session_id,
            invitation_id,
            network_id,
            context,
            authorization_generation,
            configuration_generation,
            configuration_fingerprint: row.configuration_fingerprint.clone(),
        };
        Ok((after, dispatch, MutationAuthorization::mint(facts)))
    }
}

/// What the provider confirmed of a credential. The credential itself is not
/// part of it.
#[derive(Debug, PartialEq, Eq)]
pub struct N4CredentialConfirmation {
    pub credential_id: ProviderCredentialId,
    pub provider_reference: ProviderCredentialReference,
    pub provider_principal_id: String,
    pub ephemeral: bool,
    pub approved_tags: Vec<String>,
    pub expires_at: Timestamp,
    pub confirmed_at: Timestamp,
    pub safe_correlation: SanitizedMetadata,
}

impl N4CredentialConfirmation {
    /// The confirmed credential is one that the lifecycle asks for.
    pub open spec fn is_admissible(self) -> bool {
        &&& is_identifier(self.provider_principal_id@)
        &&& !self.ephemeral
        &&& 1 <= self.approved_tags@.len() <= 4
        &&& forall|i: int|
            0 <= i < self.approved_tags@.len() ==> is_approved_tag(
                (#[trigger] self.approved_tags@[i])@,
            )
    }

    /// The confirmation belongs to the request: the request is under way for the
    /// same principal, the invitation is being redeemed, and the credential does
    /// not outlive it.
    pub open spec fn fits(self, dispatch: N4Dispatch, invitation: Invitation) -> bool {
        &&& dispatch.state is DispatchStarted
        &&& dispatch.provider_principal_id@ == self.provider_principal_id@
        &&& invitation.state is Redeeming
        &&& invitation.used_count == 1
        &&& invitation.max_uses == 1
        &&& self.confirmed_at.before(invitation.expires_at)
        &&& !invitation.expires_at.before(self.expires_at)
        &&& self.confirmed_at.before(self.expires_at)
    }

    fn admissible(&self) -> (result: bool)
        ensures
            result == self.is_admissible(),
    {
        if !safe_identifier(self.provider_principal_id.as_str()) || self.ephemeral
            || self.approved_tags.len() == 0 || self.approved_tags.len() > 4 {
            return false;
        }
        for i in 0..self.approved_tags.len()
            invariant
                is_identifier(self.provider_principal_id@),
                !self.ephemeral,
                1 <= self.approved_tags@.len() <= 4,
                forall|j: int|
                    0 <= j < i ==> is_approved_tag((#[trigger] self.approved_tags@[j])@),
        {
            if !n4_approved_tag(self.approved_tags[i].as_str()) {
                assert(!is_approved_tag(self.approved_tags@[i as int]@));
                return false;
            }
        }
        true
    }

    fn fitting(&self, dispatch: &N4Dispatch, invitation: &Invitation) -> (result: bool)
        ensures
            result == self.fits(*dispatch, *invitation),
    {
        let started = match dispatch.state {
            DispatchState::DispatchStarted => true,
            _ => false,
        };
        let redeeming = match invitation.state {
            InvitationState::Redeeming => true,
            _ => false,
        };
        started && same_text(
            dispatch.provider_principal_id.as_str(),
            self.provider_principal_id.as_str(),
        ) && redeeming && invitation.used_count == 1 && invitation.max_uses == 1
            && self.confirmed_at.is_before(&invitation.expires_at)
            && !invitation.expires_at.is_before(&self.expires_at) && self.confirmed_at.is_before(
            &self.expires_at,
        )
    }
}

/// A request that was not handed over has no generations to read.
pub open spec fn no_fence_problem() -> StateErrorView {
    StateErrorView::Sqlite("Invalid column type Null at index: 6, name: authorization_generation"@)
}

/// Why a confirmation is not stored, if it is not.
pub open spec fn confirm_problem(
    join_session: Seq<char>,
    lifecycle: Option<N4Lifecycle>,
    confirmation: N4CredentialConfirmation,
) -> Option<StateErrorView> {
    if !confirmation.is_admissible() {
        Some(StateErrorView::Conflict("invalid N4 credential metadata"@))
    } else if !has_dispatch(lifecycle) {
        Some(StateErrorView::NotFound(join_session))
    } else {
        let stored = lifecycle->Some_0;
        let dispatch = stored.dispatch->Some_0;
        match dispatch.fence {
            None => Some(no_fence_problem()),
            Some(fence) => if unreadable(stored.invitation.record) is Some {
                unreadable(stored.invitation.record)
            } else if !confirmation.fits(dispatch, stored.invitation.record->Ok_0) {
                Some(
                    StateErrorView::Conflict("N4 confirmation is not valid for the durable fence"@),
                )
            } else {
                overflow_problem(fence.authorization_generation, fence.configuration_generation)
            },
        }
    }
}

/// Why the rest of a confirmation fails, if it does. `issued` is what the rules
/// of join sessions answer.
pub open spec fn confirm_rest_problem(
    lifecycle: N4Lifecycle,
    issued: Result<JoinSession, String>,
) -> Option<StateErrorView> {
    either(
        unreadable(lifecycle.session->Some_0.record),
        either(
            match issued {
                Ok(_) => None,
                Err(text) => Some(StateErrorView::Conflict(text@)),
            },
            parse_problem(lifecycle.dispatch->Some_0.invitation_id),
        ),
    )
}

impl CredentialReferenceRow {
    /// The row stores the confirmed credential of the request.
    pub open spec fn confirms(
        self,
        dispatch: N4Dispatch,
        confirmation: N4CredentialConfirmation,
    ) -> bool {
        &&& self.credential@ == confirmation.credential_id@
        &&& self.network@ == dispatch.network_id.text@
        &&& self.provider_instance@ == dispatch.provider_instance_id.text@
        &&& self.provider_reference@ == confirmation.provider_reference@
        &&& dispatch.fence matches Some(fence) && {
            &&& self.authorization_generation == fence.authorization_generation
            &&& self.configuration_generation == fence.configuration_generation
            &&& self.configuration_fingerprint@ == fence.configuration_fingerprint@
        }
        &&& self.confirmed_at_ms == confirmation.confirmed_at.millis()
        &&& self.expires_at_ms == confirmation.expires_at.millis()
        &&& self.max_uses == 1
    }
}

/// The row of the confirmed credential of a request, if it may be stored.
pub fn n4_reference_row(
    join_session_id: &JoinSessionId,
    lifecycle: &Option<N4Lifecycle>,
    confirmation: &N4CredentialConfirmation,
) -> (result: Result<CredentialReferenceRow, StateError>)
    ensures
        match result {
            Ok(row) => {
                &&& confirm_problem(join_session_id@, *lifecycle, *confirmation) is None
                &&& row.confirms(lifecycle->Some_0.dispatch->Some_0, *confirmation)
            },
            Err(error) => confirm_problem(join_session_id@, *lifecycle, *confirmation) == Some(
                error@,
            ),
        },
{
    if !confirmation.admissible() {
        return Err(conflict("invalid N4 credential metadata"));
    }
    let stored = match lifecycle {
        Some(stored) => stored,
        None => return Err(StateError::NotFound(join_session_id.text.clone())),
    };
    let dispatch = match &stored.dispatch {
        Some(dispatch) => dispatch,
        None => return Err(StateError::NotFound(join_session_id.text.clone())),
    };
    if stored.session.is_none() {
        return Err(StateError::NotFound(join_session_id.text.clone()));
    }
    let fence = match &dispatch.fence {
        Some(fence) => fence,
        None => return Err(
            StateError::Sqlite(
                "Invalid column type Null at index: 6, name: authorization_generation".to_owned(),
            ),
        ),
    };
    let invitation = match &stored.invitation.record {
        Ok(invitation) => invitation,
        Err(text) => return Err(StateError::Serialization(text.clone())),
    };
    if !confirmation.fitting(dispatch, invitation) {
        return Err(conflict("N4 confirmation is not valid for the durable fence"));
    }
    check_overflow(fence.authorization_generation, fence.configuration_generation)?;
    Ok(
        CredentialReferenceRow {
            credential: confirmation.credential_id.text.clone(),
            network: dispatch.network_id.text.clone(),
            provider_instance: dispatch.provider_instance_id.text.clone(),
            provider_reference: confirmation.provider_reference.text.clone(),
            authorization_generation: fence.authorization_generation as i64,
            configuration_generation: fence.configuration_generation as i64,
            configuration_fingerprint: fence.configuration_fingerprint.clone(),
            confirmed_at_ms: confirmation.confirmed_at.timestamp_millis(),
            expires_at_ms: confirmation.expires_at.timestamp_millis(),
            max_uses: 1,
        },
    )
}

/// A confirmation takes the lifecycle from the one to the other: the invitation
/// is consumed, and the credential is known by its reference.
pub open spec fn is_confirmed(
    before: N4Lifecycle,
    confirmation: N4CredentialConfirmation,
    issued: JoinSession,
    after: N4Lifecycle,
) -> bool {
    &&& after.invitation.record == Ok::<Invitation, String>(
        Invitation {
            state: InvitationState::Consumed,
            provider_credential_reference: Some(confirmation.credential_id),
            ..before.invitation.record->Ok_0
        },
    )
    &&& after.invitation.state@ == "consumed"@
    &&& after.invitation.used_count == before.invitation.used_count
    &&& after.details == (N4Details {
        consumed_at_ms: after.details.consumed_at_ms,
        revision: (before.details.revision + 1) as u64,
        ..before.details
    })
    &&& after.details.consumed_at_ms matches Some(at) && at == confirmation.confirmed_at.millis()
    &&& is_stored_session(after.session, issued, confirmation.confirmed_at)
    &&& after.dispatch matches Some(dispatch) && {
        &&& dispatch == (N4Dispatch {
            state: DispatchState::Confirmed,
            credential_id: dispatch.credential_id,
            resolved_at_ms: dispatch.resolved_at_ms,
            ..before.dispatch->Some_0
        })
        &&& dispatch.credential_id matches Some(id) && is_stored_id(id, confirmation.credential_id)
        &&& dispatch.resolved_at_ms matches Some(at) && at == confirmation.confirmed_at.millis()
    }
    &&& after.reference matches Some(reference) && is_stored_id(
        reference,
        confirmation.provider_reference,
    )
    &&& after.metadata matches Some(metadata) && {
        &&& metadata.provider_principal_id == confirmation.provider_principal_id
        &&& metadata.ephemeral == confirmation.ephemeral
        &&& metadata.approved_tags == confirmation.approved_tags
        &&& metadata.expires_at_ms == confirmation.expires_at.millis()
        &&& metadata.confirmed_at_ms == confirmation.confirmed_at.millis()
        &&& metadata.invalidation_state@ == "active"@
        &&& metadata.invalidated_at_ms is None
        &&& metadata.safe_correlation_json@ == confirmation.safe_correlation.digest_document()
    }
}

/// The name of the action of confirming a credential.
pub open spec fn confirm_action(session: Seq<char>) -> Seq<char> {
    "credential-confirm:"@ + session
}

impl StateStore {
    /// Stores that the provider confirmed the credential of a request: `stored`
    /// is what the database answered to its row. The lifecycle as it is then is
    /// returned, to be stored.
    pub fn confirm_n4_credential(
        &self,
        join_session_id: &JoinSessionId,
        lifecycle: Option<N4Lifecycle>,
        confirmation: N4CredentialConfirmation,
        issued: Result<JoinSession, String>,
        stored: Result<(), DatabaseFailure>,
        log: &mut AuditLog,
        actor: AuditActor,
    ) -> (result: Result<N4Lifecycle, StateError>)
        requires
            lifecycle matches Some(current) ==> current.details.revision < u64::MAX,
        ensures
            final(log).known == old(log).known,
            ({
                let problem = confirm_problem(join_session_id@, lifecycle, confirmation);
                let before = lifecycle->Some_0;
                let invitation_id = before.dispatch->Some_0.invitation_id.parsed->Ok_0;
                match result {
                    Ok(after) => {
                        &&& problem is None
                        &&& stored is Ok
                        &&& confirm_rest_problem(before, issued) is None
                        &&& !self.fails_n4_audit(AuditKind::InvitationRedeemed)
                        &&& is_confirmed(before, confirmation, issued->Ok_0, after)
                        &&& final(log)@ == old(log)@ + recorded_once(
                            *old(log),
                            n4_fact(
                                before.details.network_id,
                                invitation_id,
                                Some(*join_session_id),
                                confirm_action(join_session_id@),
                                actor,
                                AuditKind::InvitationRedeemed,
                                AuditOutcome::Success,
                            ),
                        ) + recorded_once(
                            *old(log),
                            n4_fact(
                                before.details.network_id,
                                invitation_id,
                                Some(*join_session_id),
                                confirm_action(join_session_id@),
                                actor,
                                AuditKind::JoinCredentialIssued,
                                AuditOutcome::Success,
                            ),
                        )
                    },
                    Err(error) => {
                        &&& *final(log) == *old(log)
                        &&& either(
                            problem,
                            either(
                                storage_problem(stored),
                                either(
                                    confirm_rest_problem(before, issued),
                                    self.n4_audit_problem(AuditKind::InvitationRedeemed),
                                ),
                            ),
                        ) == Some(error@)
                    },
                }
            }),
    {
        n4_reference_row(join_session_id, &lifecycle, &confirmation)?;
        storage_result(stored)?;
        let (opened, session) = open_dispatch(lifecycle, join_session_id)?;
        let correlation = confirmation.safe_correlation.n4_digest_json()?;
        let mut invitation = decoded(opened.invitation.record)?;
        decoded(session.record)?;
        let issued = accepted(issued)?;
        let mut dispatch = opened.dispatch;
        let invitation_id = parsed_invitation(&dispatch.invitation_id.parsed)?;
        let mut details = opened.details;
        let action = join("credential-confirm:", join_session_id.text.as_str());
        self.record_n4_pair(
            log,
            &details.network_id,
            &invitation_id,
            Some(join_session_id),
            action.as_str(),
            actor,
            AuditKind::InvitationRedeemed,
            AuditKind::JoinCredentialIssued,
        )?;
        let confirmed_at_ms: i64 = confirmation.confirmed_at.timestamp_millis();
        invitation.state = InvitationState::Consumed;
        invitation.provider_credential_reference = Some(confirmation.credential_id.clone());
        details.consumed_at_ms = Some(confirmed_at_ms);
        details.revision = details.revision + 1;
        dispatch.state = DispatchState::Confirmed;
        dispatch.credential_id = Some(
            Stored {
                text: confirmation.credential_id.text.clone(),
                parsed: Ok(confirmation.credential_id),
            },
        );
        dispatch.resolved_at_ms = Some(confirmed_at_ms);
        let metadata = N4CredentialMetadata {
            provider_principal_id: confirmation.provider_principal_id,
            ephemeral: confirmation.ephemeral,
            approved_tags: confirmation.approved_tags,
            expires_at_ms: confirmation.expires_at.timestamp_millis(),
            confirmed_at_ms,
            invalidation_state: "active".to_owned(),
            invalidated_at_ms: None,
            safe_correlation_json: correlation,
        };
        Ok(
            N4Lifecycle {
                invitation: StoredInvitation {
                    record: Ok(invitation),
                    state: "consumed".to_owned(),
                    used_count: opened.invitation.used_count,
                },
                details,
                dispatch: Some(dispatch),
                session: Some(stored_session(issued, confirmation.confirmed_at)),
                reference: Some(
                    Stored {
                        text: confirmation.provider_reference.text.clone(),
                        parsed: Ok(confirmation.provider_reference),
                    },
                ),
                metadata: Some(metadata),
            },
        )
    }
}

/// The state in which a request fails in the given way.
pub open spec fn fails_from(failure: N4DispatchFailure, state: DispatchState) -> bool {
    match failure {
        N4DispatchFailure::PreDispatch => state is Reserved,
        N4DispatchFailure::DefiniteNoApply => state is DispatchStarted,
        N4DispatchFailure::Ambiguous => state is DispatchStarted,
    }
}

/// The state of a request that failed in the given way.
pub open spec fn failed_state(failure: N4DispatchFailure) -> DispatchState {
    match failure {
        N4DispatchFailure::PreDispatch => DispatchState::FailedPreDispatch,
        N4DispatchFailure::DefiniteNoApply => DispatchState::FailedNoApply,
        N4DispatchFailure::Ambiguous => DispatchState::Ambiguous,
    }
}

/// The state to which the session moves whose request is handed to the provider.
pub fn begun_session_state() -> (state: JoinSessionState)
    ensures
        state == JoinSessionState::ProviderCredentialIssuing,
{
    JoinSessionState::ProviderCredentialIssuing
}

/// The state to which the session moves whose credential is confirmed.
pub fn confirmed_session_state() -> (state: JoinSessionState)
    ensures
        state == JoinSessionState::ProviderCredentialIssued,
{
    JoinSessionState::ProviderCredentialIssued
}

/// The state to which the session of a failed request moves.
pub open spec fn failed_session(failure: N4DispatchFailure) -> JoinSessionState {
    match failure {
        N4DispatchFailure::PreDispatch => JoinSessionState::Failed,
        N4DispatchFailure::DefiniteNoApply => JoinSessionState::Failed,
        N4DispatchFailure::Ambiguous => JoinSessionState::ProviderCredentialAmbiguous,
    }
}

/// The state to which the session of a failed request moves.
pub fn failed_session_state(failure: N4DispatchFailure) -> (state: JoinSessionState)
    ensures
        state == failed_session(failure),
{
    match failure {
        N4DispatchFailure::PreDispatch => JoinSessionState::Failed,
        N4DispatchFailure::DefiniteNoApply => JoinSessionState::Failed,
        N4DispatchFailure::Ambiguous => JoinSessionState::ProviderCredentialAmbiguous,
    }
}

/// Why a failure is not stored, if it is not. `failed` is what the rules of join
/// sessions answer.
pub open spec fn fail_problem(
    join_session: Seq<char>,
    lifecycle: Option<N4Lifecycle>,
    failure: N4DispatchFailure,
    failed: Result<JoinSession, String>,
) -> Option<StateErrorView> {
    if !has_dispatch(lifecycle) {
        Some(StateErrorView::NotFound(join_session))
    } else {
        let stored = lifecycle->Some_0;
        if !fails_from(failure, stored.dispatch->Some_0.state) {
            Some(StateErrorView::Conflict("N4 failure conflicts with dispatch fence"@))
        } else {
            either(unreadable(stored.invitation.record), confirm_rest_problem(stored, failed))
        }
    }
}

/// A failure takes the lifecycle from the one to the other: the invitation is
/// lost, and the request is resolved as failed.
pub open spec fn is_failed(
    before: N4Lifecycle,
    failure: N4DispatchFailure,
    failed: JoinSession,
    now: Timestamp,
    after: N4Lifecycle,
) -> bool {
    &&& after.invitation.record == Ok::<Invitation, String>(
        Invitation { state: InvitationState::Failed, ..before.invitation.record->Ok_0 },
    )
    &&& after.invitation.state@ == "failed"@
    &&& after.invitation.used_count == before.invitation.used_count
    &&& after.details == before.details
    &&& is_stored_session(after.session, failed, now)
    &&& after.dispatch matches Some(dispatch) && {
        &&& dispatch == (N4Dispatch {
            state: failed_state(failure),
            resolved_at_ms: dispatch.resolved_at_ms,
            ..before.dispatch->Some_0
        })
        &&& dispatch.resolved_at_ms matches Some(at) && at == now.millis()
    }
    &&& after.reference == before.reference
    &&& after.metadata == before.metadata
}

/// The name of the action of a failed request.
pub open spec fn failure_action(session: Seq<char>) -> Seq<char> {
    "credential-failure:"@ + session
}

impl StateStore {
    /// Stores that a request failed. The lifecycle as it is then is returned, to
    /// be stored.
    pub fn fail_n4_credential_dispatch(
        &self,
        join_session_id: &JoinSessionId,
        lifecycle: Option<N4Lifecycle>,
        failure: N4DispatchFailure,
        failed: Result<JoinSession, String>,
        now: Timestamp,
        log: &mut AuditLog,
        actor: AuditActor,
    ) -> (result: Result<N4Lifecycle, StateError>)
        ensures
            final(log).known == old(log).known,
            ({
                let problem = fail_problem(join_session_id@, lifecycle, failure, failed);
                let before = lifecycle->Some_0;
                match result {
                    Ok(after) => {
                        &&& problem is None
                        &&& !self.fails_n4_audit(AuditKind::InvitationRedemptionFailed)
                        &&& is_failed(before, failure, failed->Ok_0, now, after)
                        &&& final(log)@ == old(log)@ + recorded_once(
                            *old(log),
                            n4_fact(
                                before.details.network_id,
                                before.dispatch->Some_0.invitation_id.parsed->Ok_0,
                                Some(*join_session_id),
                                failure_action(join_session_id@),
                                actor,
                                AuditKind::InvitationRedemptionFailed,
                                AuditOutcome::Failed,
                            ),
                        )
                    },
                    Err(error) => {
                        &&& *final(log) == *old(log)
                        &&& either(
                            problem,
                            self.n4_audit_problem(AuditKind::InvitationRedemptionFailed),
                        ) == Some(error@)
                    },
                }
            }),
    {
        let (opened, session) = open_dispatch(lifecycle, join_session_id)?;
        let fits = match (failure, &opened.dispatch.state) {
            (N4DispatchFailure::PreDispatch, DispatchState::Reserved) => true,
            (N4DispatchFailure::DefiniteNoApply, DispatchState::DispatchStarted) => true,
            (N4DispatchFailure::Ambiguous, DispatchState::DispatchStarted) => true,
            _ => false,
        };
        if !fits {
            return Err(conflict("N4 failure conflicts with dispatch fence"));
        }
        let mut invitation = decoded(opened.invitation.record)?;
        decoded(session.record)?;
        let failed = accepted(failed)?;
        let mut dispatch = opened.dispatch;
        let invitation_id = parsed_invitation(&dispatch.invitation_id.parsed)?;
        let action = join("credential-failure:", join_session_id.text.as_str());
        self.record_n4(
            log,
            &opened.details.network_id,
            &invitation_id,
            Some(join_session_id),
            action.as_str(),
            actor,
            AuditKind::InvitationRedemptionFailed,
            AuditOutcome::Failed,
        )?;
        invitation.state = InvitationState::Failed;
        dispatch.state = match failure {
            N4DispatchFailure::PreDispatch => DispatchState::FailedPreDispatch,
            N4DispatchFailure::DefiniteNoApply => DispatchState::FailedNoApply,
            N4DispatchFailure::Ambiguous => DispatchState::Ambiguous,
        };
        dispatch.resolved_at_ms = Some(now.timestamp_millis());
        Ok(
            N4Lifecycle {
                invitation: StoredInvitation {
                    record: Ok(invitation),
                    state: "failed".to_owned(),
                    used_count: opened.invitation.used_count,
                },
                details: opened.details,
                dispatch: Some(dispatch),
                session: Some(stored_session(failed, now)),
                reference: opened.reference,
                metadata: opened.metadata,
            },
        )
    }
}

} // verus!
