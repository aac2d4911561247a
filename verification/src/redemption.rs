//! Issuing an invitation of the fenced lifecycle, and reserving its single use.

use crate::audit::{records, AuditActor, AuditFact, AuditLog, StateStore};
use crate::authorization::AuthorityRecords;
use crate::error::{
    accepted, conflict, decoded, found, storage_problem, storage_result, DatabaseFailure,
    StateError, StateErrorView,
};
use crate::ids::{
    random_id, InvitationId, JoinSessionId, NetworkId, ProviderInstanceId, Stored,
};
use crate::lifecycle::{
    cleanup_text, context_problem, is_context, principal_problem, stored_context, unreadable,
    view_problem, N4Details, N4Dispatch, N4InvitationContext, N4InvitationView, N4Lifecycle,
    StoredInvitation, StoredSession,
};
use crate::metadata::SanitizedMetadata;
use crate::names::{
    law_cleanup_state_names_distinct, AuditKind, AuditOutcome, DispatchState, InvitationState,
    JoinSessionState, N4CleanupState,
};
use crate::records::{
    invitation_row, Invitation, InvitationRow, JoinConstraints, JoinSession, Network,
};
use crate::store::{either, record_problem};
use crate::text::{ascii_lower, is_text, join, lower, same_text};
use crate::time::Timestamp;
use vstd::prelude::*;

verus! {

/// The event of an action on an invitation, without further metadata.
pub open spec fn n4_fact(
    network_id: NetworkId,
    invitation_id: InvitationId,
    session: Option<JoinSessionId>,
    action: Seq<char>,
    actor: AuditActor,
    kind: AuditKind,
    outcome: AuditOutcome,
) -> AuditFact {
    AuditFact {
        network_id: Some(network_id),
        device_id: None,
        actor,
        kind,
        outcome,
        generation: None,
        metadata_json: "{}"@,
        correlation: Some((invitation_id, session, action)),
    }
}

/// The trail after an event of an action that is recorded once.
pub open spec fn recorded_once(log: AuditLog, fact: AuditFact) -> Seq<AuditFact> {
    if log.is_recorded(fact.correlation->Some_0.2, fact.kind) {
        Seq::empty()
    } else {
        seq![fact]
    }
}

impl StateStore {
    /// Records an event of an action on an invitation, unless it was recorded
    /// before.
    pub fn record_n4(
        &self,
        log: &mut AuditLog,
        network_id: &NetworkId,
        invitation_id: &InvitationId,
        session: Option<&JoinSessionId>,
        action: &str,
        actor: AuditActor,
        kind: AuditKind,
        outcome: AuditOutcome,
    ) -> (result: Result<(), StateError>)
        ensures
            final(log).known == old(log).known,
            match result {
                Ok(()) => {
                    &&& !self.fails_n4_audit(kind)
                    &&& final(log)@ == old(log)@ + recorded_once(
                        *old(log),
                        n4_fact(
                            *network_id,
                            *invitation_id,
                            match session {
                                Some(id) => Some(*id),
                                None => None,
                            },
                            action@,
                            actor,
                            kind,
                            outcome,
                        ),
                    )
                },
                Err(error) => {
                    &&& self.fails_n4_audit(kind)
                    &&& error@ == StateErrorView::InjectedFailure
                    &&& *final(log) == *old(log)
                },
            },
    {
        let ghost before = log@;
        let session_id = match session {
            Some(id) => Some(id.clone()),
            None => None,
        };
        let ghost kept = session_id;
        self.append_n4_audit(
            log,
            network_id.clone(),
            invitation_id.clone(),
            session_id,
            action,
            actor,
            kind,
            outcome,
            &SanitizedMetadata::empty(),
        )?;
        proof {
            assert(before + Seq::<AuditFact>::empty() =~= before);
            let fact = n4_fact(
                *network_id,
                *invitation_id,
                kept,
                action@,
                actor,
                kind,
                outcome,
            );
            assert(before + seq![fact] =~= before.push(fact));
        }
        Ok(())
    }

    /// Records two events of one action on an invitation, each unless it was
    /// recorded before.
    pub fn record_n4_pair(
        &self,
        log: &mut AuditLog,
        network_id: &NetworkId,
        invitation_id: &InvitationId,
        session: Option<&JoinSessionId>,
        action: &str,
        actor: AuditActor,
        first: AuditKind,
        second: AuditKind,
    ) -> (result: Result<(), StateError>)
        requires
            first != second,
            second != AuditKind::InvitationRedeemed,
        ensures
            final(log).known == old(log).known,
            ({
                let session_id = match session {
                    Some(id) => Some(*id),
                    None => None,
                };
                match result {
                    Ok(()) => {
                        &&& !self.fails_n4_audit(first)
                        &&& final(log)@ == old(log)@ + recorded_once(
                            *old(log),
                            n4_fact(
                                *network_id,
                                *invitation_id,
                                session_id,
                                action@,
                                actor,
                                first,
                                AuditOutcome::Success,
                            ),
                        ) + recorded_once(
                            *old(log),
                            n4_fact(
                                *network_id,
                                *invitation_id,
                                session_id,
                                action@,
                                actor,
                                second,
                                AuditOutcome::Success,
                            ),
                        )
                    },
                    Err(error) => {
                        &&& self.fails_n4_audit(first)
                        &&& error@ == StateErrorView::InjectedFailure
                        &&& *final(log) == *old(log)
                    },
                }
            }),
    {
        let ghost before = *log;
        self.record_n4(
            log,
            network_id,
            invitation_id,
            session,
            action,
            actor.clone(),
            first,
            AuditOutcome::Success,
        )?;
        let ghost between = *log;
        proof {
            let fact = n4_fact(
                *network_id,
                *invitation_id,
                match session {
                    Some(id) => Some(*id),
                    None => None,
                },
                action@,
                actor,
                first,
                AuditOutcome::Success,
            );
            lemma_other_kind(before, between, recorded_once(before, fact), action@, second);
        }
        self.record_n4(
            log,
            network_id,
            invitation_id,
            session,
            action,
            actor,
            second,
            AuditOutcome::Success,
        )
    }
}

/// Events of other kinds do not make an action recorded.
proof fn lemma_other_kind(
    before: AuditLog,
    after: AuditLog,
    added: Seq<AuditFact>,
    action: Seq<char>,
    kind: AuditKind,
)
    requires
        after.known == before.known,
        after@ == before@ + added,
        forall|i: int| 0 <= i < added.len() ==> (#[trigger] added[i]).kind != kind,
    ensures
        after.is_recorded(action, kind) == before.is_recorded(action, kind),
{
    if before.is_recorded(action, kind) && !before.was_known(action, kind) {
        let i = choose|i: int|
            0 <= i < before@.len() && records(#[trigger] before@[i], action, kind);
        assert(after@[i] == before@[i]);
    }
    if after.is_recorded(action, kind) && !after.was_known(action, kind) {
        let i = choose|i: int| 0 <= i < after@.len() && records(#[trigger] after@[i], action, kind);
        if i >= before@.len() {
            assert(after@[i] == added[i - before@.len()]);
        } else {
            assert(before@[i] == after@[i]);
        }
    }
}

/// The rows by which an invitation of the lifecycle is stored, beside its JSON
/// record.
#[derive(PartialEq, Eq)]
pub struct N4IssueRows {
    pub invitation: InvitationRow,
    pub provider_instance: String,
    pub provider_principal_id: String,
    pub roles_json: String,
    pub constraints_json: String,
    pub created_by_source: String,
    pub created_by_id: Option<String>,
    pub revision: u64,
    pub last_redemption_metadata_json: String,
}

impl N4IssueRows {
    /// The rows store a new invitation of the lifecycle: it is for a single use
    /// that is not taken, at its first revision, and nothing was presented yet.
    pub open spec fn issue(
        self,
        invitation: Invitation,
        context: N4InvitationContext,
        actor: AuditActor,
    ) -> bool {
        &&& self.invitation.stores(
            (Invitation {
                provider_credential_reference: None,
                max_uses: 1,
                used_count: 0,
                ..invitation
            }),
        )
        &&& self.provider_instance@ == context.provider_instance_id@
        &&& self.provider_principal_id@ == context.provider_principal_id@
        &&& self.roles_json@ == invitation.roles.json@
        &&& self.constraints_json@ == invitation.join_constraints.json@
        &&& self.created_by_source@ == actor.source@
        &&& self.created_by_id == actor.actor_id
        &&& self.revision == 1
        &&& self.last_redemption_metadata_json@ == "{}"@
    }
}

/// The rows of an invitation that is issued for a single use.
pub fn n4_issue_rows(
    invitation: &Invitation,
    context: &N4InvitationContext,
    actor: &AuditActor,
) -> (rows: N4IssueRows)
    ensures
        rows.issue(*invitation, *context, *actor),
{
    let mut row = invitation_row(invitation);
    row.provider_credential_reference = None;
    row.max_uses = 1;
    row.used_count = 0;
    N4IssueRows {
        invitation: row,
        provider_instance: context.provider_instance_id.text.clone(),
        provider_principal_id: context.provider_principal_id.clone(),
        roles_json: invitation.roles.json.clone(),
        constraints_json: invitation.join_constraints.json.clone(),
        created_by_source: actor.source.clone(),
        created_by_id: match &actor.actor_id {
            Some(id) => Some(id.clone()),
            None => None,
        },
        revision: 1,
        last_redemption_metadata_json: "{}".to_owned(),
    }
}

/// The lifecycle is what the rows of a new invitation are read as, with the JSON
/// record and the identifiers read as what they name.
pub open spec fn reads_issued(
    lifecycle: N4Lifecycle,
    rows: N4IssueRows,
    invitation: Invitation,
    context: N4InvitationContext,
) -> bool {
    &&& lifecycle.invitation.record == Ok::<Invitation, String>(invitation)
    &&& lifecycle.invitation.state@ == rows.invitation.state@
    &&& lifecycle.invitation.used_count == rows.invitation.used_count
    &&& lifecycle.details.network_id@ == rows.invitation.network@
    &&& lifecycle.details.provider_instance_id.parsed == Ok::<ProviderInstanceId, String>(
        context.provider_instance_id,
    )
    &&& lifecycle.details.provider_principal_id@ == rows.provider_principal_id@
    &&& lifecycle.details.revision == rows.revision
    &&& lifecycle.details.consumed_at_ms is None
    &&& lifecycle.details.revoked_at_ms is None
    &&& lifecycle.details.expired_at_ms is None
    &&& lifecycle.details.last_redemption_at_ms is None
    &&& lifecycle.details.last_redemption_metadata_json@ == rows.last_redemption_metadata_json@
    &&& lifecycle.dispatch is None
    &&& lifecycle.session is None
    &&& lifecycle.reference is None
    &&& lifecycle.metadata is None
}

/// An invitation that was just issued can be shown, and is shown as new: at its
/// first revision, its use not taken, nothing ended, nothing to clean up, and
/// with the context that it was issued for.
pub proof fn law_issued_invitation_is_new(
    rows: N4IssueRows,
    invitation: Invitation,
    context: N4InvitationContext,
    actor: AuditActor,
    lifecycle: N4Lifecycle,
    view: N4InvitationView,
)
    requires
        rows.issue(invitation, context, actor),
        principal_problem(context.provider_principal_id@) is None,
        reads_issued(lifecycle, rows, invitation, context),
    ensures
        view_problem(Some(lifecycle), invitation.invitation_id@) is None,
        view.shows(invitation.invitation_id, lifecycle) ==> {
            &&& view.network_id == invitation.network_id
            &&& view.state == invitation.state
            &&& view.revision == 1
            &&& view.used_count == 0
            &&& view.max_uses == invitation.max_uses
            &&& view.consumed_at is None
            &&& view.revoked_at is None
            &&& view.expired_at is None
            &&& view.cleanup_state == N4CleanupState::Absent
            &&& view.context.provider_instance_id == context.provider_instance_id
            &&& view.context.provider_principal_id@ == context.provider_principal_id@
        },
{
    assert(N4CleanupState::Absent.text() == cleanup_text(lifecycle));
    if view.shows(invitation.invitation_id, lifecycle) {
        law_cleanup_state_names_distinct(view.cleanup_state, N4CleanupState::Absent);
    }
}

/// Why an invitation is not issued, if it is not. `sound` says that the rules of
/// invitations admit it for a single use.
pub open spec fn issue_refusal(
    invitation: Invitation,
    sound: bool,
    network: Option<Result<Network, String>>,
    context: N4InvitationContext,
    authority: AuthorityRecords,
    now: Timestamp,
) -> Option<StateErrorView> {
    if !sound {
        Some(StateErrorView::Conflict("invalid N4 invitation input"@))
    } else if record_problem(network, invitation.network_id@) is Some {
        record_problem(network, invitation.network_id@)
    } else if invitation.network_id@ != network->Some_0->Ok_0.network_id@ || now.before(
        invitation.created_at,
    ) || !now.before(invitation.expires_at) {
        Some(StateErrorView::Conflict("invalid N4 invitation input"@))
    } else if !authority.is_imported(invitation.network_id@, context.provider_instance_id@)
        || !authority.allows_lifecycle(
        invitation.network_id@,
        context.provider_instance_id@,
        now.millis(),
    ) {
        Some(
            StateErrorView::MutationAuthorizationDenied(
                "N4 requires exact enabled create/invalidate configuration"@,
            ),
        )
    } else {
        None
    }
}

/// The name of the action of issuing an invitation.
pub open spec fn issue_action(invitation: Seq<char>) -> Seq<char> {
    "invitation:"@ + invitation + ":created"@
}

impl StateStore {
    /// Requires that an invitation may be issued: it is sound and current, and
    /// the owner's configuration grants both the creation and the invalidation
    /// of join credentials.
    pub fn check_n4_issue(
        &self,
        invitation: &Invitation,
        sound: bool,
        network: Option<Result<Network, String>>,
        context: &N4InvitationContext,
        authority: &AuthorityRecords,
        now: Timestamp,
    ) -> (result: Result<(), StateError>)
        ensures
            match result {
                Ok(()) => issue_refusal(*invitation, sound, network, *context, *authority, now)
                    is None,
                Err(error) => issue_refusal(*invitation, sound, network, *context, *authority, now)
                    == Some(error@),
            },
    {
        if !sound {
            return Err(conflict("invalid N4 invitation input"));
        }
        let network = self.network(&invitation.network_id, network)?;
        if !invitation.network_id.same(&network.network_id) || now.is_before(
            &invitation.created_at,
        ) || !now.is_before(&invitation.expires_at) {
            return Err(conflict("invalid N4 invitation input"));
        }
        let network_text = invitation.network_id.text.as_str();
        let instance = context.provider_instance_id.text.as_str();
        if !authority.imported(network_text, instance) || !authority.permits_lifecycle(
            network_text,
            instance,
            &now,
        ) {
            return Err(
                StateError::MutationAuthorizationDenied(
                    "N4 requires exact enabled create/invalidate configuration",
                ),
            );
        }
        Ok(())
    }

    /// Issues an invitation of the lifecycle: `stored` is what the database
    /// answered to its rows.
    pub fn issue_n4_invitation(
        &self,
        invitation: &Invitation,
        sound: bool,
        network: Option<Result<Network, String>>,
        context: &N4InvitationContext,
        authority: &AuthorityRecords,
        now: Timestamp,
        stored: Result<(), DatabaseFailure>,
        log: &mut AuditLog,
        actor: AuditActor,
    ) -> (result: Result<(), StateError>)
        ensures
            final(log).known == old(log).known,
            ({
                let refusal = issue_refusal(*invitation, sound, network, *context, *authority, now);
                match result {
                    Ok(()) => {
                        &&& refusal is None
                        &&& stored is Ok
                        &&& !self.fails_n4_audit(AuditKind::InvitationCreated)
                        &&& final(log)@ == old(log)@ + recorded_once(
                            *old(log),
                            n4_fact(
                                invitation.network_id,
                                invitation.invitation_id,
                                None,
                                issue_action(invitation.invitation_id@),
                                actor,
                                AuditKind::InvitationCreated,
                                AuditOutcome::Success,
                            ),
                        )
                    },
                    Err(error) => {
                        &&& *final(log) == *old(log)
                        &&& either(
                            refusal,
                            either(
                                storage_problem(stored),
                                self.n4_audit_problem(AuditKind::InvitationCreated),
                            ),
                        ) == Some(error@)
                    },
                }
            }),
    {
        self.check_n4_issue(invitation, sound, network, context, authority, now)?;
        storage_result(stored)?;
        let mut action = "invitation:".to_owned();
        action.append(invitation.invitation_id.text.as_str());
        action.append(":created");
        self.record_n4(
            log,
            &invitation.network_id,
            &invitation.invitation_id,
            None,
            action.as_str(),
            actor,
            AuditKind::InvitationCreated,
            AuditOutcome::Success,
        )
    }
}

impl StateStore {
    /// Why an event of an invitation is not recorded, if it is not.
    pub open spec fn n4_audit_problem(self, kind: AuditKind) -> Option<StateErrorView> {
        if self.fails_n4_audit(kind) {
            Some(StateErrorView::InjectedFailure)
        } else {
            None
        }
    }
}

/// What a device presents when it redeems an invitation.
#[derive(Debug, PartialEq, Eq)]
pub struct N4PresentedMetadata {
    pub platform: Option<String>,
    pub hostname_hint: Option<String>,
    pub correlation: SanitizedMetadata,
}

impl Default for N4PresentedMetadata {
    fn default() -> (presented: Self)
        ensures
            presented.platform is None,
            presented.hostname_hint is None,
            presented.correlation.is_empty_object(),
    {
        N4PresentedMetadata {
            platform: None,
            hostname_hint: None,
            correlation: SanitizedMetadata::empty(),
        }
    }
}

/// A reserved redemption.
#[derive(Debug, PartialEq, Eq)]
pub struct N4RedemptionReservation {
    pub join_session_id: JoinSessionId,
    pub invitation_id: InvitationId,
    pub network_id: NetworkId,
    pub expires_at: Timestamp,
    pub context: N4InvitationContext,
}

impl Clone for N4RedemptionReservation {
    fn clone(&self) -> (copy: Self)
        ensures
            copy == *self,
    {
        N4RedemptionReservation {
            join_session_id: self.join_session_id.clone(),
            invitation_id: self.invitation_id.clone(),
            network_id: self.network_id.clone(),
            expires_at: self.expires_at,
            context: self.context.clone(),
        }
    }
}

/// What is expected, if anything is, is what is presented.
pub open spec fn meets(expected: Option<String>, presented: Option<String>) -> bool {
    expected matches Some(wanted) ==> (presented matches Some(given) && given@ == wanted@)
}

fn is_met(expected: &Option<String>, presented: &Option<String>) -> (met: bool)
    ensures
        met == meets(*expected, *presented),
{
    match expected {
        Some(wanted) => is_text(presented, wanted.as_str()),
        None => true,
    }
}

/// The constraints of an invitation are met by what is presented.
pub open spec fn meets_constraints(
    constraints: JoinConstraints,
    presented: N4PresentedMetadata,
) -> bool {
    &&& meets(constraints.expected_platform, presented.platform)
    &&& meets(constraints.expected_hostname_hint, presented.hostname_hint)
}

/// The invitation can be reserved: it is issued, unused, current, of the
/// expected revision, and its constraints are met.
pub open spec fn is_reservable(
    lifecycle: N4Lifecycle,
    expected_revision: u64,
    now: Timestamp,
    presented: N4PresentedMetadata,
) -> bool {
    lifecycle.invitation.record matches Ok(invitation) && {
        &&& lifecycle.details.revision == expected_revision
        &&& invitation.state is Issued
        &&& invitation.used_count == 0
        &&& invitation.max_uses == 1
        &&& now.before(invitation.expires_at)
        &&& meets_constraints(invitation.join_constraints, presented)
    }
}

/// Why a redemption is not reserved, if it is not. `session` is what the rules
/// of join sessions give as the new session, moved to `reserved_session_state`.
pub open spec fn reserve_problem(
    invitation: Seq<char>,
    lifecycle: Option<N4Lifecycle>,
    expected_revision: u64,
    session: Result<JoinSession, String>,
    now: Timestamp,
    presented: N4PresentedMetadata,
    authority: AuthorityRecords,
) -> Option<StateErrorView> {
    match lifecycle {
        None => Some(StateErrorView::NotFound(invitation)),
        Some(stored) => if unreadable(stored.invitation.record) is Some {
            unreadable(stored.invitation.record)
        } else if context_problem(stored.details) is Some {
            context_problem(stored.details)
        } else if !is_reservable(stored, expected_revision, now, presented) {
            Some(StateErrorView::Conflict("N4 invitation is not reservable"@))
        } else if !authority.allows_lifecycle(
            stored.invitation.record->Ok_0.network_id@,
            stored.details.provider_instance_id.text@,
            now.millis(),
        ) {
            Some(
                StateErrorView::MutationAuthorizationDenied(
                    "N4 provider configuration unavailable"@,
                ),
            )
        } else if stored.invitation.state@ != "issued"@ || stored.invitation.used_count != 0 {
            Some(StateErrorView::Conflict("N4 reservation lost"@))
        } else if session is Err {
            Some(StateErrorView::Conflict(session->Err_0@))
        } else if expected_revision > i64::MAX {
            Some(StateErrorView::Conflict("revision overflow"@))
        } else {
            None
        },
    }
}

/// An identifier as it is stored.
pub open spec fn is_stored_id<T: View<V = Seq<char>>>(stored: Stored<T>, id: T) -> bool {
    stored.text@ == id@ && stored.parsed == Ok::<T, String>(id)
}

/// The session is stored as it is, at the given time.
pub open spec fn is_stored_session(
    stored: Option<StoredSession>,
    session: JoinSession,
    at: Timestamp,
) -> bool {
    stored matches Some(row) && row.record == Ok::<JoinSession, String>(session) && row.state@
        == ascii_lower(session.state.text()) && row.updated_at@ == at.text()
}

/// Reserving takes the invitation from the one to the other: its single use is
/// taken, a session and a request for a credential exist, and the revision has
/// moved on.
pub open spec fn is_reserved(
    before: N4Lifecycle,
    invitation_id: InvitationId,
    join_session_id: JoinSessionId,
    session: JoinSession,
    now: Timestamp,
    presented: N4PresentedMetadata,
    after: N4Lifecycle,
) -> bool {
    let invitation = before.invitation.record->Ok_0;
    &&& after.invitation.record == Ok::<Invitation, String>(
        Invitation { state: InvitationState::Redeeming, used_count: 1, ..invitation },
    )
    &&& after.invitation.state@ == "redeeming"@
    &&& after.invitation.used_count == 1
    &&& after.details == (N4Details {
        revision: (before.details.revision + 1) as u64,
        last_redemption_at_ms: after.details.last_redemption_at_ms,
        last_redemption_metadata_json: after.details.last_redemption_metadata_json,
        ..before.details
    })
    &&& after.details.last_redemption_at_ms matches Some(at) && at == now.millis()
    &&& after.details.last_redemption_metadata_json@ == presented.correlation.digest_document()
    &&& is_stored_session(after.session, session, now)
    &&& after.dispatch matches Some(dispatch) && {
        &&& is_stored_id(dispatch.join_session_id, join_session_id)
        &&& is_stored_id(dispatch.invitation_id, invitation_id)
        &&& is_stored_id(dispatch.network_id, invitation.network_id)
        &&& is_stored_id(
            dispatch.provider_instance_id,
            before.details.provider_instance_id.parsed->Ok_0,
        )
        &&& dispatch.provider_principal_id@ == before.details.provider_principal_id@
        &&& dispatch.create_request_id@.len() == 36
        &&& dispatch.state is Reserved
        &&& dispatch.fence is None
        &&& dispatch.credential_id is None
        &&& dispatch.dispatched_at_ms is None
        &&& dispatch.resolved_at_ms is None
    }
    &&& after.reference == before.reference
    &&& after.metadata == before.metadata
}

fn stored_network(id: NetworkId) -> (stored: Stored<NetworkId>)
    ensures
        is_stored_id(stored, id),
{
    Stored { text: id.text.clone(), parsed: Ok(id) }
}

fn stored_invitation_id(id: InvitationId) -> (stored: Stored<InvitationId>)
    ensures
        is_stored_id(stored, id),
{
    Stored { text: id.text.clone(), parsed: Ok(id) }
}

fn stored_session_id(id: JoinSessionId) -> (stored: Stored<JoinSessionId>)
    ensures
        is_stored_id(stored, id),
{
    Stored { text: id.text.clone(), parsed: Ok(id) }
}

fn stored_instance(id: ProviderInstanceId) -> (stored: Stored<ProviderInstanceId>)
    ensures
        is_stored_id(stored, id),
{
    Stored { text: id.text.clone(), parsed: Ok(id) }
}

/// The session as it is stored at the given time.
pub fn stored_session(session: JoinSession, at: Timestamp) -> (stored: StoredSession)
    ensures
        is_stored_session(Some(stored), session, at),
{
    let state = lower(session.state.as_str());
    StoredSession { record: Ok(session), state, updated_at: at.to_rfc3339() }
}

fn reservable(
    invitation: &Invitation,
    details: &N4Details,
    expected_revision: u64,
    now: Timestamp,
    presented: &N4PresentedMetadata,
) -> (result: bool)
    ensures
        result == ({
            &&& details.revision == expected_revision
            &&& invitation.state is Issued
            &&& invitation.used_count == 0
            &&& invitation.max_uses == 1
            &&& now.before(invitation.expires_at)
            &&& meets_constraints(invitation.join_constraints, *presented)
        }),
{
    let issued = match invitation.state {
        InvitationState::Issued => true,
        _ => false,
    };
    details.revision == expected_revision && issued && invitation.used_count == 0
        && invitation.max_uses == 1 && now.is_before(&invitation.expires_at) && is_met(
        &invitation.join_constraints.expected_platform,
        &presented.platform,
    ) && is_met(
        &invitation.join_constraints.expected_hostname_hint,
        &presented.hostname_hint,
    )
}

/// The state to which the new session of a reservation moves.
pub fn reserved_session_state() -> (state: JoinSessionState)
    ensures
        state == JoinSessionState::InvitationValidated,
{
    JoinSessionState::InvitationValidated
}

/// The name of the action of redeeming an invitation.
pub open spec fn redemption_action(session: Seq<char>) -> Seq<char> {
    "redemption:"@ + session
}

impl StateStore {
    /// Reserves the single use of an invitation for a join session. The
    /// lifecycle as it is then is returned, to be stored.
    pub fn reserve_n4_redemption(
        &self,
        invitation_id: InvitationId,
        lifecycle: Option<N4Lifecycle>,
        expected_revision: u64,
        join_session_id: JoinSessionId,
        session: Result<JoinSession, String>,
        now: Timestamp,
        presented: N4PresentedMetadata,
        authority: &AuthorityRecords,
        log: &mut AuditLog,
        actor: AuditActor,
    ) -> (result: Result<(N4Lifecycle, N4RedemptionReservation), StateError>)
        ensures
            final(log).known == old(log).known,
            ({
                let problem = reserve_problem(
                    invitation_id@,
                    lifecycle,
                    expected_revision,
                    session,
                    now,
                    presented,
                    *authority,
                );
                match result {
                    Ok((after, reservation)) => {
                        let before = lifecycle->Some_0;
                        &&& problem is None
                        &&& !self.fails_n4_audit(AuditKind::InvitationRedemptionStarted)
                        &&& is_reserved(
                            before,
                            invitation_id,
                            join_session_id,
                            session->Ok_0,
                            now,
                            presented,
                            after,
                        )
                        &&& reservation.join_session_id == join_session_id
                        &&& reservation.invitation_id == invitation_id
                        &&& reservation.network_id == before.invitation.record->Ok_0.network_id
                        &&& reservation.expires_at == before.invitation.record->Ok_0.expires_at
                        &&& is_context(reservation.context, before.details)
                        &&& final(log)@ == old(log)@ + recorded_once(
                            *old(log),
                            n4_fact(
                                before.details.network_id,
                                invitation_id,
                                Some(join_session_id),
                                redemption_action(join_session_id@),
                                actor,
                                AuditKind::InvitationRedemptionStarted,
                                AuditOutcome::Success,
                            ),
                        ) + recorded_once(
                            *old(log),
                            n4_fact(
                                before.details.network_id,
                                invitation_id,
                                Some(join_session_id),
                                redemption_action(join_session_id@),
                                actor,
                                AuditKind::RedemptionSessionCreated,
                                AuditOutcome::Success,
                            ),
                        )
                    },
                    Err(error) => {
                        &&& *final(log) == *old(log)
                        &&& either(
                            problem,
                            self.n4_audit_problem(AuditKind::InvitationRedemptionStarted),
                        ) == Some(error@)
                    },
                }
            }),
    {
        let stored = found(lifecycle, invitation_id.text.as_str())?;
        let mut invitation = decoded(stored.invitation.record)?;
        let mut details = stored.details;
        let context = stored_context(&details)?;
        if !reservable(&invitation, &details, expected_revision, now, &presented) {
            return Err(conflict("N4 invitation is not reservable"));
        }
        if !authority.permits_lifecycle(
            invitation.network_id.text.as_str(),
            details.provider_instance_id.text.as_str(),
            &now,
        ) {
            return Err(
                StateError::MutationAuthorizationDenied("N4 provider configuration unavailable"),
            );
        }
        if !same_text(stored.invitation.state.as_str(), "issued")
            || stored.invitation.used_count != 0 {
            return Err(conflict("N4 reservation lost"));
        }
        let session = accepted(session)?;
        let document = presented.correlation.n4_digest_json()?;
        if expected_revision > i64::MAX as u64 {
            return Err(conflict("revision overflow"));
        }
        let action = join("redemption:", join_session_id.text.as_str());
        self.record_n4_pair(
            log,
            &details.network_id,
            &invitation_id,
            Some(&join_session_id),
            action.as_str(),
            actor,
            AuditKind::InvitationRedemptionStarted,
            AuditKind::RedemptionSessionCreated,
        )?;
        invitation.state = InvitationState::Redeeming;
        invitation.used_count = 1;
        details.revision = details.revision + 1;
        details.last_redemption_at_ms = Some(now.timestamp_millis());
        details.last_redemption_metadata_json = document;
        let dispatch = N4Dispatch {
            join_session_id: stored_session_id(join_session_id.clone()),
            invitation_id: stored_invitation_id(invitation_id.clone()),
            network_id: stored_network(invitation.network_id.clone()),
            provider_instance_id: stored_instance(context.provider_instance_id.clone()),
            provider_principal_id: context.provider_principal_id.clone(),
            create_request_id: random_id(),
            state: DispatchState::Reserved,
            fence: None,
            credential_id: None,
            dispatched_at_ms: None,
            resolved_at_ms: None,
        };
        let reservation = N4RedemptionReservation {
            join_session_id,
            invitation_id,
            network_id: invitation.network_id.clone(),
            expires_at: invitation.expires_at,
            context,
        };
        let after = N4Lifecycle {
            invitation: StoredInvitation {
                record: Ok(invitation),
                state: "redeeming".to_owned(),
                used_count: 1,
            },
            details,
            dispatch: Some(dispatch),
            session: Some(stored_session(session, now)),
            reference: stored.reference,
            metadata: stored.metadata,
        };
        Ok((after, reservation))
    }
}

} // verus!
