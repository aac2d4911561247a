//! The audit trail, and the store that writes it.

use crate::error::{conflict, StateError, StateErrorView};
use crate::ids::{DeviceId, Generation, InvitationId, JoinSessionId, NetworkId};
use crate::metadata::{metadata_json, SanitizedMetadata};
use crate::names::{audit_kind_name, AuditKind, AuditOutcome, Failpoint};
use crate::text::same_text;
use crate::time::Timestamp;
use vstd::prelude::*;

verus! {

/// Who caused an action.
#[derive(Debug, PartialEq, Eq)]
pub struct AuditActor {
    pub source: String,
    pub actor_id: Option<String>,
}

impl Clone for AuditActor {
    fn clone(&self) -> (copy: Self)
        ensures
            copy == *self,
    {
        AuditActor {
            source: self.source.clone(),
            actor_id: match &self.actor_id {
                Some(text) => Some(text.clone()),
                None => None,
            },
        }
    }
}

/// The invitation action that an event belongs to.
#[derive(Debug, PartialEq, Eq)]
pub struct Correlation {
    pub invitation_id: InvitationId,
    pub join_session_id: Option<JoinSessionId>,
    pub action_id: String,
}

/// One event of the audit trail.
#[derive(Debug, PartialEq, Eq)]
pub struct AuditEvent {
    pub recorded_at: Timestamp,
    pub network_id: Option<NetworkId>,
    pub device_id: Option<DeviceId>,
    pub actor: AuditActor,
    pub kind: AuditKind,
    pub outcome: AuditOutcome,
    pub generation: Option<i64>,
    pub metadata_json: String,
    pub correlation: Option<Correlation>,
}

/// What an event records, apart from the time at which it was recorded.
pub struct AuditFact {
    pub network_id: Option<NetworkId>,
    pub device_id: Option<DeviceId>,
    pub actor: AuditActor,
    pub kind: AuditKind,
    pub outcome: AuditOutcome,
    pub generation: Option<i64>,
    pub metadata_json: Seq<char>,
    pub correlation: Option<(InvitationId, Option<JoinSessionId>, Seq<char>)>,
}

impl View for AuditEvent {
    type V = AuditFact;

    open spec fn view(&self) -> AuditFact {
        AuditFact {
            network_id: self.network_id,
            device_id: self.device_id,
            actor: self.actor,
            kind: self.kind,
            outcome: self.outcome,
            generation: self.generation,
            metadata_json: self.metadata_json@,
            correlation: match self.correlation {
                Some(c) => Some((c.invitation_id, c.join_session_id, c.action_id@)),
                None => None,
            },
        }
    }
}

/// An invitation action that the stored trail already holds.
#[derive(Debug, PartialEq, Eq)]
pub struct KnownAction {
    pub action_id: String,
    pub event_kind: String,
}

/// The events recorded by a transaction, beside the invitation actions recorded
/// by earlier ones.
#[derive(Debug, PartialEq, Eq)]
pub struct AuditLog {
    pub known: Vec<KnownAction>,
    pub events: Vec<AuditEvent>,
}

impl View for AuditLog {
    type V = Seq<AuditFact>;

    open spec fn view(&self) -> Seq<AuditFact> {
        self.events@.map_values(|event: AuditEvent| event@)
    }
}

/// The event is a record of the given kind for the given invitation action.
pub open spec fn records(fact: AuditFact, action_id: Seq<char>, kind: AuditKind) -> bool {
    &&& fact.kind == kind
    &&& fact.correlation matches Some(c) && c.2 == action_id
}

impl AuditLog {
    /// An earlier transaction recorded the invitation action.
    pub open spec fn was_known(self, action_id: Seq<char>, kind: AuditKind) -> bool {
        exists|i: int|
            0 <= i < self.known@.len() && (#[trigger] self.known@[i]).action_id@ == action_id
                && self.known@[i].event_kind@ == kind.text()
    }

    /// The invitation action has been recorded.
    pub open spec fn is_recorded(self, action_id: Seq<char>, kind: AuditKind) -> bool {
        self.was_known(action_id, kind) || exists|i: int|
            0 <= i < self@.len() && records(#[trigger] self@[i], action_id, kind)
    }

    /// A trail to which nothing has been added yet.
    pub fn new(known: Vec<KnownAction>) -> (log: Self)
        ensures
            log.known == known,
            log@ == Seq::<AuditFact>::empty(),
    {
        let log = AuditLog { known, events: Vec::new() };
        assert(log@ =~= Seq::<AuditFact>::empty());
        log
    }

    /// Whether the invitation action has been recorded.
    pub fn has_recorded(&self, action_id: &str, kind: AuditKind) -> (found: bool)
        ensures
            found == self.is_recorded(action_id@, kind),
    {
        for i in 0..self.known.len()
            invariant
                forall|j: int|
                    0 <= j < i ==> !((#[trigger] self.known@[j]).action_id@ == action_id@
                        && self.known@[j].event_kind@ == kind.text()),
        {
            let known = &self.known[i];
            if same_text(known.action_id.as_str(), action_id) && same_text(
                known.event_kind.as_str(),
                audit_kind_name(kind),
            ) {
                return true;
            }
        }
        assert(!self.was_known(action_id@, kind));
        for i in 0..self.events.len()
            invariant
                !self.was_known(action_id@, kind),
                forall|j: int| 0 <= j < i ==> !records(#[trigger] self@[j], action_id@, kind),
        {
            let event = &self.events[i];
            assert(self@[i as int] == event@);
            if event.kind == kind {
                if let Some(correlation) = &event.correlation {
                    if same_text(correlation.action_id.as_str(), action_id) {
                        assert(records(self@[i as int], action_id@, kind));
                        return true;
                    }
                }
            }
        }
        false
    }
}

/// The number of a generation, as it is stored. A number that is out of range
/// for the database is a conflict.
pub open spec fn fits_storage(generation: Generation) -> bool {
    generation.value <= i64::MAX
}

/// The number of a generation, as it is stored.
pub fn to_i64(value: Generation) -> (result: Result<i64, StateError>)
    ensures
        match result {
            Ok(number) => number == value.value,
            Err(error) => {
                &&& !fits_storage(value)
                &&& error@ == StateErrorView::Conflict("generation exceeds SQLite integer range"@)
            },
        },
{
    if value.value <= i64::MAX as u64 {
        Ok(value.value as i64)
    } else {
        Err(conflict("generation exceeds SQLite integer range"))
    }
}

/// Requires that a generation advances.
pub fn validate_next(expected: Generation, next: Generation) -> (result: Result<(), StateError>)
    ensures
        match result {
            Ok(()) => expected.value < next.value,
            Err(error) => {
                &&& next.value <= expected.value
                &&& error@ == StateErrorView::Conflict("generation must advance monotonically"@)
            },
        },
{
    if next.get() <= expected.get() {
        return Err(conflict("generation must advance monotonically"));
    }
    Ok(())
}

/// The state store. It decides what each operation does to the records that it
/// is given; a caller keeps the records in a database and applies an operation
/// in one transaction.
#[derive(Debug, PartialEq, Eq)]
pub struct StateStore {
    fail_before_audit: bool,
    fail_before_n4_confirmation_audit: bool,
    fail_before_adoption_expiry_commit: bool,
}

impl StateStore {
    /// The failure of this point is injected.
    pub closed spec fn is_armed(self, failpoint: Failpoint) -> bool {
        match failpoint {
            Failpoint::BeforeAuditInsert => self.fail_before_audit,
            Failpoint::BeforeN4ConfirmationAudit => self.fail_before_n4_confirmation_audit,
            Failpoint::BeforeAdoptionExpiryCommit => self.fail_before_adoption_expiry_commit,
        }
    }

    /// The record of an invitation event of this kind fails by injection.
    pub open spec fn fails_n4_audit(self, kind: AuditKind) -> bool {
        self.is_armed(Failpoint::BeforeAuditInsert) || (self.is_armed(
            Failpoint::BeforeN4ConfirmationAudit,
        ) && kind == AuditKind::InvitationRedeemed)
    }

    /// Why an event of the given generation is not recorded, if it is not.
    pub open spec fn audit_problem(self, generation: Option<Generation>) -> Option<StateErrorView> {
        if self.is_armed(Failpoint::BeforeAuditInsert) {
            Some(StateErrorView::InjectedFailure)
        } else if generation matches Some(value) && !fits_storage(value) {
            Some(StateErrorView::Conflict("generation exceeds SQLite integer range"@))
        } else {
            None
        }
    }

    /// A store without injected failures.
    pub fn new() -> (store: Self)
        ensures
            forall|failpoint: Failpoint| !store.is_armed(failpoint),
    {
        StateStore {
            fail_before_audit: false,
            fail_before_n4_confirmation_audit: false,
            fail_before_adoption_expiry_commit: false,
        }
    }

    /// Injects the failure of a point, or stops doing so.
    pub fn set_failpoint(&mut self, failpoint: Failpoint, enabled: bool)
        ensures
            forall|point: Failpoint| #[trigger]
                final(self).is_armed(point) == (if point == failpoint {
                    enabled
                } else {
                    old(self).is_armed(point)
                }),
    {
        match failpoint {
            Failpoint::BeforeAuditInsert => self.fail_before_audit = enabled,
            Failpoint::BeforeN4ConfirmationAudit => {
                self.fail_before_n4_confirmation_audit = enabled
            },
            Failpoint::BeforeAdoptionExpiryCommit => {
                self.fail_before_adoption_expiry_commit = enabled
            },
        }
    }

    /// Records an event.
    pub fn append_audit(
        &self,
        log: &mut AuditLog,
        network_id: Option<NetworkId>,
        device_id: Option<DeviceId>,
        actor: AuditActor,
        kind: AuditKind,
        outcome: AuditOutcome,
        generation: Option<Generation>,
        metadata: &SanitizedMetadata,
    ) -> (result: Result<(), StateError>)
        ensures
            final(log).known == old(log).known,
            match result {
                Ok(()) => {
                    &&& self.audit_problem(generation) is None
                    &&& final(log)@ == old(log)@.push(
                        AuditFact {
                            network_id,
                            device_id,
                            actor,
                            kind,
                            outcome,
                            generation: match generation {
                                Some(value) => Some(value.value as i64),
                                None => None,
                            },
                            metadata_json: metadata_json(metadata.value()),
                            correlation: None,
                        },
                    )
                },
                Err(error) => {
                    &&& self.audit_problem(generation) == Some(error@)
                    &&& *final(log) == *old(log)
                },
            },
            metadata.is_empty_object() ==> metadata_json(metadata.value()) == "{}"@,
    {
        let text = metadata.json()?;
        if self.fail_before_audit {
            return Err(StateError::InjectedFailure);
        }
        let number: Option<i64> = match generation {
            Some(value) => Some(to_i64(value)?),
            None => None,
        };
        let event = AuditEvent {
            recorded_at: Timestamp::now(),
            network_id,
            device_id,
            actor,
            kind,
            outcome,
            generation: number,
            metadata_json: text,
            correlation: None,
        };
        let ghost fact = event@;
        log.events.push(event);
        assert(log@ =~= old(log)@.push(fact));
        Ok(())
    }

    /// Records an event of an invitation action, unless that event of the action
    /// has been recorded before. Says whether it was recorded now.
    pub fn append_n4_audit(
        &self,
        log: &mut AuditLog,
        network_id: NetworkId,
        invitation_id: InvitationId,
        join_session_id: Option<JoinSessionId>,
        action_id: &str,
        actor: AuditActor,
        kind: AuditKind,
        outcome: AuditOutcome,
        metadata: &SanitizedMetadata,
    ) -> (result: Result<bool, StateError>)
        ensures
            final(log).known == old(log).known,
            match result {
                Ok(true) => {
                    &&& !self.fails_n4_audit(kind)
                    &&& !old(log).is_recorded(action_id@, kind)
                    &&& final(log)@ == old(log)@.push(
                        AuditFact {
                            network_id: Some(network_id),
                            device_id: None,
                            actor,
                            kind,
                            outcome,
                            generation: None,
                            metadata_json: metadata_json(metadata.value()),
                            correlation: Some((invitation_id, join_session_id, action_id@)),
                        },
                    )
                },
                Ok(false) => {
                    &&& !self.fails_n4_audit(kind)
                    &&& old(log).is_recorded(action_id@, kind)
                    &&& *final(log) == *old(log)
                },
                Err(error) => {
                    &&& self.fails_n4_audit(kind)
                    &&& error@ == StateErrorView::InjectedFailure
                    &&& *final(log) == *old(log)
                },
            },
            metadata.is_empty_object() ==> metadata_json(metadata.value()) == "{}"@,
    {
        let text = metadata.json()?;
        if self.fail_before_audit || (self.fail_before_n4_confirmation_audit && kind
            == AuditKind::InvitationRedeemed) {
            return Err(StateError::InjectedFailure);
        }
        if log.has_recorded(action_id, kind) {
            return Ok(false);
        }
        let event = AuditEvent {
            recorded_at: Timestamp::now(),
            network_id: Some(network_id),
            device_id: None,
            actor,
            kind,
            outcome,
            generation: None,
            metadata_json: text,
            correlation: Some(
                Correlation { invitation_id, join_session_id, action_id: action_id.to_owned() },
            ),
        };
        let ghost fact = event@;
        log.events.push(event);
        assert(log@ =~= old(log)@.push(fact));
        Ok(true)
    }
}

/// Recording an event of an invitation action makes it recorded, so that the
/// same event of the action is never recorded twice.
pub proof fn law_n4_events_are_recorded_once(
    before: AuditLog,
    after: AuditLog,
    fact: AuditFact,
    action_id: Seq<char>,
    kind: AuditKind,
)
    requires
        after.known == before.known,
        after@ == before@.push(fact),
        records(fact, action_id, kind),
    ensures
        after.is_recorded(action_id, kind),
        forall|other: Seq<char>, other_kind: AuditKind|
            before.is_recorded(other, other_kind) ==> after.is_recorded(other, other_kind),
{
    assert(after@[before@.len() as int] == fact);
    assert forall|other: Seq<char>, other_kind: AuditKind|
        before.is_recorded(other, other_kind) implies after.is_recorded(other, other_kind) by {
        if !before.was_known(other, other_kind) {
            let i = choose|i: int|
                0 <= i < before@.len() && records(#[trigger] before@[i], other, other_kind);
            assert(after@[i] == before@[i]);
        }
    }
}

} // verus!
