//! Applying the snapshots of a provider to the inventory.

use crate::audit::{AuditActor, AuditEvent, AuditFact, AuditLog, StateStore};
use crate::digest::{fingerprint_text, sha256_fingerprint};
use crate::error::{
    conflict, ReconciliationFailure, ReconciliationFailureView, StateError, StateErrorView,
};
use crate::ids::{random_id, DeviceId, NetworkId, ProviderInstanceId};
use crate::inventory::{
    first_row_problem, gathers, is_time_of, lemma_lookup, lemma_lookup_entry, load_observations,
    loads_as, lookup, read_as, Inventory, ObservationRow,
};
use crate::names::{
    classification_name, compatibility_name, law_adoption_state_names_distinct,
    law_observation_classification_names_distinct, AdoptionState, AuditKind, AuditOutcome,
    CompatibilityStatus, ObservationClassification,
};
use crate::observation::{
    find_key, first_class, first_classification, is_ascending, is_ordered, next_class,
    next_classification, semantic_fingerprint, semantic_text, ProviderNode, ProviderObservation,
};
use crate::records::optional_text;
use crate::snapshot::{check_round, round_problem, ReconciliationImportRow, Snapshot};
use crate::store::success_fact;
use crate::text::{same_text, text_before};
use crate::time::{lemma_same_instant, Timestamp};
use vstd::prelude::*;
use vstd::utf8::encode_utf8;

verus! {

/// An observation as it is to be stored.
#[derive(Debug, PartialEq, Eq)]
pub struct ObservationRecord {
    /// A fresh identifier, used if there is no row of the node yet.
    pub observation_id: String,
    pub network_id: NetworkId,
    pub device_id: Option<DeviceId>,
    pub provider_instance_id: ProviderInstanceId,
    pub provider_node_id: String,
    pub stable_key_fingerprint: String,
    pub classification: ObservationClassification,
    pub semantic_fingerprint: String,
    pub node: ProviderNode,
    pub first_observed_at: Timestamp,
    pub last_observed_at: Timestamp,
    pub snapshot_at: Timestamp,
    /// The generation of the row, where it is known; a new row begins with the
    /// first one.
    pub semantic_generation: Option<u64>,
}

/// What an observation is to be stored with, apart from the fresh identifier.
pub struct RecordFact {
    pub network_id: NetworkId,
    pub device_id: Option<DeviceId>,
    pub provider_instance_id: ProviderInstanceId,
    pub provider_node_id: Seq<char>,
    pub stable_key_fingerprint: Seq<char>,
    pub classification: ObservationClassification,
    pub semantic_fingerprint: Seq<char>,
    pub node: ProviderNode,
    pub first_observed_at: Timestamp,
    pub last_observed_at: Timestamp,
    pub snapshot_at: Timestamp,
    pub semantic_generation: Option<u64>,
}

impl View for ObservationRecord {
    type V = RecordFact;

    open spec fn view(&self) -> RecordFact {
        RecordFact {
            network_id: self.network_id,
            device_id: self.device_id,
            provider_instance_id: self.provider_instance_id,
            provider_node_id: self.provider_node_id@,
            stable_key_fingerprint: self.stable_key_fingerprint@,
            classification: self.classification,
            semantic_fingerprint: self.semantic_fingerprint@,
            node: self.node,
            first_observed_at: self.first_observed_at,
            last_observed_at: self.last_observed_at,
            snapshot_at: self.snapshot_at,
            semantic_generation: self.semantic_generation,
        }
    }
}

/// The columns by which an observation is stored.
#[derive(Debug, PartialEq, Eq)]
pub struct ObservationColumns {
    pub observation: String,
    pub network: String,
    pub device: Option<String>,
    pub provider_instance: String,
    pub provider_node_id: String,
    pub stable_key_fingerprint: String,
    pub classification: &'static str,
    /// Of a new row: nothing manages it.
    pub adoption_state: &'static str,
    pub semantic_fingerprint: String,
    pub normalized_json: String,
    pub first_observed_at: String,
    pub last_observed_at: String,
    pub snapshot_at: String,
    pub semantic_generation: Option<u64>,
}

impl ObservationColumns {
    /// The columns store the record, and its times can be read from them.
    pub open spec fn stores(self, record: RecordFact) -> bool {
        &&& self.network@ == record.network_id@
        &&& optional_text(self.device) == (match record.device_id {
            Some(id) => Some(id@),
            None => None,
        })
        &&& self.provider_instance@ == record.provider_instance_id@
        &&& self.provider_node_id@ == record.provider_node_id
        &&& self.stable_key_fingerprint@ == record.stable_key_fingerprint
        &&& self.classification@ == record.classification.text()
        &&& self.adoption_state@ == AdoptionState::Unmanaged.text()
        &&& self.semantic_fingerprint@ == record.semantic_fingerprint
        &&& self.normalized_json@ == record.node.json@
        &&& self.first_observed_at@ == record.first_observed_at.text()
        &&& self.last_observed_at@ == record.last_observed_at.text()
        &&& self.snapshot_at@ == record.snapshot_at.text()
        &&& is_time_of(record.first_observed_at, self.first_observed_at@)
        &&& is_time_of(record.last_observed_at, self.last_observed_at@)
        &&& is_time_of(record.snapshot_at, self.snapshot_at@)
        &&& self.semantic_generation == record.semantic_generation
    }
}

impl ObservationRecord {
    /// The columns by which the observation is stored.
    pub fn columns(&self) -> (columns: ObservationColumns)
        ensures
            columns.stores(self@),
            columns.observation@ == self.observation_id@,
    {
        ObservationColumns {
            observation: self.observation_id.clone(),
            network: self.network_id.text.clone(),
            device: match &self.device_id {
                Some(id) => Some(id.text.clone()),
                None => None,
            },
            provider_instance: self.provider_instance_id.text.clone(),
            provider_node_id: self.provider_node_id.clone(),
            stable_key_fingerprint: self.stable_key_fingerprint.clone(),
            classification: classification_name(self.classification),
            adoption_state: "unmanaged",
            semantic_fingerprint: self.semantic_fingerprint.clone(),
            normalized_json: self.node.json.clone(),
            first_observed_at: self.first_observed_at.to_rfc3339(),
            last_observed_at: self.last_observed_at.to_rfc3339(),
            snapshot_at: self.snapshot_at.to_rfc3339(),
            semantic_generation: self.semantic_generation,
        }
    }
}

/// A row that holds the given columns, with its identifiers and its JSON read as
/// what they name.
pub open spec fn holds_columns(
    row: ObservationRow,
    columns: ObservationColumns,
    record: RecordFact,
) -> bool {
    &&& match (row.device_id, record.device_id) {
        (None, None) => true,
        (Some(stored), Some(id)) => stored.parsed == Ok::<DeviceId, String>(id),
        _ => false,
    }
    &&& row.provider_instance_id.parsed == Ok::<ProviderInstanceId, String>(
        record.provider_instance_id,
    )
    &&& row.node == Ok::<ProviderNode, String>(record.node)
    &&& row.provider_node_id@ == columns.provider_node_id@
    &&& row.stable_key_fingerprint@ == columns.stable_key_fingerprint@
    &&& row.classification@ == columns.classification@
    &&& row.adoption_state@ == columns.adoption_state@
    &&& row.semantic_fingerprint@ == columns.semantic_fingerprint@
    &&& row.first_observed_at@ == columns.first_observed_at@
    &&& row.last_observed_at@ == columns.last_observed_at@
    &&& row.snapshot_at@ == columns.snapshot_at@
}

/// A new observation is read back as it was stored, and is unmanaged.
pub proof fn law_stored_observation_reads_back(
    record: RecordFact,
    columns: ObservationColumns,
    row: ObservationRow,
    network_id: NetworkId,
    read: ProviderObservation,
)
    requires
        columns.stores(record),
        holds_columns(row, columns, record),
    ensures
        row.problem() is None,
        row.reads_as(network_id, read) ==> {
            &&& read.device_id == record.device_id
            &&& read.provider_instance_id == record.provider_instance_id
            &&& read.canonical_provider_node_id@ == record.provider_node_id
            &&& read.stable_machine_key_fingerprint@ == record.stable_key_fingerprint
            &&& read.node == record.node
            &&& read.classification == record.classification
            &&& read.adoption_state == AdoptionState::Unmanaged
            &&& read.semantic_fingerprint@ == record.semantic_fingerprint
            &&& read.first_observed_at == record.first_observed_at
            &&& read.last_observed_at == record.last_observed_at
            &&& read.snapshot_at == record.snapshot_at
        },
{
    assert(record.classification.text() == row.classification@);
    assert(AdoptionState::Unmanaged.text() == row.adoption_state@);
    if row.reads_as(network_id, read) {
        law_observation_classification_names_distinct(read.classification, record.classification);
        law_adoption_state_names_distinct(read.adoption_state, AdoptionState::Unmanaged);
        lemma_same_instant(read.first_observed_at, record.first_observed_at);
        lemma_same_instant(read.last_observed_at, record.last_observed_at);
        lemma_same_instant(read.snapshot_at, record.snapshot_at);
    }
}

/// An adoption that awaits the proof of a device.
#[derive(Debug, PartialEq, Eq)]
pub struct PendingAction {
    pub action_id: String,
    pub authority_id: String,
    pub authority_generation: u64,
    pub provider_instance_id: String,
    pub provider_node_id: String,
    pub proof_generation: u64,
}

/// Why a pending adoption ends.
#[derive(Clone, Copy, Debug, PartialEq, Eq, Structural)]
pub enum AdoptionConflict {
    ProviderExpired,
    IdentityConflict,
    ObservationChanged,
    ProviderMissing,
}

impl AdoptionConflict {
    /// The stored code of the reason.
    pub open spec fn text(self) -> Seq<char> {
        match self {
            AdoptionConflict::ProviderExpired => "provider_expired"@,
            AdoptionConflict::IdentityConflict => "identity_conflict"@,
            AdoptionConflict::ObservationChanged => "observation_changed"@,
            AdoptionConflict::ProviderMissing => "provider_missing"@,
        }
    }

    /// The stored code of the reason.
    pub fn code(self) -> (code: &'static str)
        ensures
            code@ == self.text(),
    {
        match self {
            AdoptionConflict::ProviderExpired => "provider_expired",
            AdoptionConflict::IdentityConflict => "identity_conflict",
            AdoptionConflict::ObservationChanged => "observation_changed",
            AdoptionConflict::ProviderMissing => "provider_missing",
        }
    }
}

/// The decision that ends a pending adoption. It also makes the observation of
/// the node unmanaged again.
#[derive(Debug, PartialEq, Eq)]
pub struct AdoptionDecision {
    pub decision_id: String,
    pub action_id: String,
    pub authority_id: String,
    pub authority_generation: u64,
    pub network_id: NetworkId,
    pub provider_instance_id: String,
    pub provider_node_id: String,
    pub observation_generation: u64,
    pub proof_generation: u64,
    pub safe_correlation_digest: String,
    pub reason: AdoptionConflict,
    pub decided_at_ms: i64,
    /// The event under which the decision is audited.
    pub event: AuditEvent,
}

/// What a decision says, apart from its fresh identifier.
pub struct DecisionFact {
    pub action_id: Seq<char>,
    pub authority_id: Seq<char>,
    pub authority_generation: u64,
    pub network_id: NetworkId,
    pub provider_instance_id: Seq<char>,
    pub provider_node_id: Seq<char>,
    pub observation_generation: u64,
    pub proof_generation: u64,
    pub safe_correlation_digest: Seq<char>,
    pub reason: AdoptionConflict,
    pub decided_at: Timestamp,
    pub event: AuditFact,
}

impl AdoptionDecision {
    /// The decision says the given facts under a fresh identifier, and its event
    /// has the time of it.
    pub open spec fn says(self, fact: DecisionFact) -> bool {
        &&& self.decision_id@.len() == 36
        &&& self.action_id@ == fact.action_id
        &&& self.authority_id@ == fact.authority_id
        &&& self.authority_generation == fact.authority_generation
        &&& self.network_id == fact.network_id
        &&& self.provider_instance_id@ == fact.provider_instance_id
        &&& self.provider_node_id@ == fact.provider_node_id
        &&& self.observation_generation == fact.observation_generation
        &&& self.proof_generation == fact.proof_generation
        &&& self.safe_correlation_digest@ == fact.safe_correlation_digest
        &&& self.reason == fact.reason
        &&& self.decided_at_ms == fact.decided_at.millis()
        &&& self.event.recorded_at == fact.decided_at
        &&& self.event@ == fact.event
    }
}

/// The first pending adoption of a node.
pub open spec fn first_pending(pending: Seq<PendingAction>, node_id: Seq<char>) -> Option<
    PendingAction,
>
    decreases pending.len(),
{
    if pending.len() == 0 {
        None
    } else if pending[0].provider_node_id@ == node_id {
        Some(pending[0])
    } else {
        first_pending(pending.drop_first(), node_id)
    }
}

fn find_pending<'a>(pending: &'a Vec<PendingAction>, node_id: &str) -> (found: Option<
    &'a PendingAction,
>)
    ensures
        match found {
            Some(action) => first_pending(pending@, node_id@) == Some(*action),
            None => first_pending(pending@, node_id@) is None,
        },
{
    assert(pending@.skip(0) =~= pending@);
    for i in 0..pending.len()
        invariant
            first_pending(pending@, node_id@) == first_pending(pending@.skip(i as int), node_id@),
    {
        assert(pending@.skip(i as int).drop_first() =~= pending@.skip(i + 1));
        if same_text(pending[i].provider_node_id.as_str(), node_id) {
            return Some(&pending[i]);
        }
    }
    None
}

/// What a pending adoption of a node ends with.
pub open spec fn conflict_fact(
    network_id: NetworkId,
    at: Timestamp,
    actor: AuditActor,
    action: PendingAction,
    generation: u64,
    reason: AdoptionConflict,
) -> DecisionFact {
    DecisionFact {
        action_id: action.action_id@,
        authority_id: action.authority_id@,
        authority_generation: action.authority_generation,
        network_id,
        provider_instance_id: action.provider_instance_id@,
        provider_node_id: action.provider_node_id@,
        observation_generation: generation,
        proof_generation: action.proof_generation,
        safe_correlation_digest: fingerprint_text(encode_utf8(action.action_id@)),
        reason,
        decided_at: at,
        event: AuditFact {
            network_id: Some(network_id),
            device_id: None,
            actor,
            kind: AuditKind::AdoptionActionConflicted,
            outcome: AuditOutcome::Success,
            generation: Some(generation as i64),
            metadata_json: "{}"@,
            correlation: None,
        },
    }
}

/// The generation of an observation does not fit the database.
pub open spec fn observation_generation_problem() -> StateErrorView {
    StateErrorView::Conflict("observation generation exceeds SQLite integer range"@)
}

/// Ends the pending adoption of a node, if there is one.
pub fn terminalize_pending_adoption_for_observation(
    network_id: &NetworkId,
    provider_node_id: &str,
    observation_generation: u64,
    reason: AdoptionConflict,
    now: Timestamp,
    actor: &AuditActor,
    pending: &Vec<PendingAction>,
) -> (result: Result<Option<AdoptionDecision>, StateError>)
    ensures
        match (first_pending(pending@, provider_node_id@), result) {
            (None, Ok(decision)) => decision is None,
            (None, Err(_)) => false,
            (Some(action), Ok(decision)) => {
                &&& observation_generation <= i64::MAX
                &&& decision matches Some(made) && made.says(
                    conflict_fact(*network_id, now, *actor, action, observation_generation, reason),
                )
            },
            (Some(action), Err(error)) => {
                &&& observation_generation > i64::MAX
                &&& error@ == observation_generation_problem()
            },
        },
{
    let action = match find_pending(pending, provider_node_id) {
        Some(action) => action,
        None => return Ok(None),
    };
    if observation_generation > i64::MAX as u64 {
        return Err(conflict("observation generation exceeds SQLite integer range"));
    }
    let event = AuditEvent {
        recorded_at: now,
        network_id: Some(network_id.clone()),
        device_id: None,
        actor: actor.clone(),
        kind: AuditKind::AdoptionActionConflicted,
        outcome: AuditOutcome::Success,
        generation: Some(observation_generation as i64),
        metadata_json: "{}".to_owned(),
        correlation: None,
    };
    Ok(
        Some(
            AdoptionDecision {
                decision_id: random_id(),
                action_id: action.action_id.clone(),
                authority_id: action.authority_id.clone(),
                authority_generation: action.authority_generation,
                network_id: network_id.clone(),
                provider_instance_id: action.provider_instance_id.clone(),
                provider_node_id: action.provider_node_id.clone(),
                observation_generation,
                proof_generation: action.proof_generation,
                safe_correlation_digest: sha256_fingerprint(action.action_id.as_str().as_bytes()),
                reason,
                decided_at_ms: now.timestamp_millis(),
                event,
            },
        ),
    )
}

/// An observation whose node is no longer reported.
#[derive(Debug, PartialEq, Eq)]
pub struct MissingObservation {
    pub provider_instance_id: ProviderInstanceId,
    pub provider_node_id: String,
    pub snapshot_at: Timestamp,
    /// The generation of the row, where it is known.
    pub semantic_generation: Option<u64>,
}

/// What is to be done to the stored observations and adoptions.
#[derive(Debug, PartialEq, Eq)]
pub enum Effect {
    /// The observation is stored in place of the one of the same node.
    Store(ObservationRecord),
    /// A pending adoption ends.
    Conflict(AdoptionDecision),
    /// The observation is marked as missing.
    Missing(MissingObservation),
}

/// What an effect does.
pub enum EffectFact {
    Store(RecordFact),
    Conflict(DecisionFact),
    Missing {
        provider_instance_id: ProviderInstanceId,
        provider_node_id: Seq<char>,
        snapshot_at: Timestamp,
        semantic_generation: Option<u64>,
    },
}

impl Effect {
    /// The effect does what the fact says, under a fresh identifier where there
    /// is one.
    pub open spec fn does(self, fact: EffectFact) -> bool {
        match (self, fact) {
            (Effect::Store(record), EffectFact::Store(stored)) => {
                &&& record@ == stored
                &&& record.observation_id@.len() == 36
            },
            (Effect::Conflict(decision), EffectFact::Conflict(said)) => decision.says(said),
            (
                Effect::Missing(missing),
                EffectFact::Missing {
                    provider_instance_id,
                    provider_node_id,
                    snapshot_at,
                    semantic_generation,
                },
            ) => {
                &&& missing.provider_instance_id == provider_instance_id
                &&& missing.provider_node_id@ == provider_node_id
                &&& missing.snapshot_at == snapshot_at
                &&& missing.semantic_generation == semantic_generation
            },
            _ => false,
        }
    }
}

/// The effects do what the facts say, one by one.
pub open spec fn do_all(effects: Seq<Effect>, facts: Seq<EffectFact>) -> bool {
    &&& effects.len() == facts.len()
    &&& forall|i: int| 0 <= i < effects.len() ==> (#[trigger] effects[i]).does(facts[i])
}

/// What a round of reconciliation is about.
pub struct Round {
    pub network_id: NetworkId,
    pub provider_instance_id: ProviderInstanceId,
    pub snapshot_at: Timestamp,
    pub actor: AuditActor,
    pub pending: Seq<PendingAction>,
}

/// What becomes of the observation of a reported node.
pub struct NodePlan {
    pub node: ProviderNode,
    pub classification: ObservationClassification,
    pub fingerprint: Seq<char>,
    /// The observation is not what it was.
    pub changed: bool,
    pub kind: AuditKind,
}

/// The node is reported under a key that is not the one it was observed with.
pub open spec fn is_conflicting(seen: ProviderObservation, node: ProviderNode) -> bool {
    seen.stable_machine_key_fingerprint@ != node.identity.stable_key_fingerprint@
        || seen.node.machine_key@ != node.machine_key@
}

/// What becomes of the observation of a reported node. A node with another key
/// is not believed: what is known of it stays, marked as a conflict.
pub open spec fn plan_of(previous: Option<ProviderObservation>, node: ProviderNode) -> NodePlan {
    match previous {
        Some(seen) => if is_conflicting(seen, node) {
            NodePlan {
                node: seen.node,
                classification: ObservationClassification::IdentityConflict,
                fingerprint: seen.semantic_fingerprint@,
                changed: seen.classification != ObservationClassification::IdentityConflict,
                kind: AuditKind::NodeIdentityConflict,
            }
        } else {
            let next = next_class(seen.classification, node.expired);
            NodePlan {
                node,
                classification: next,
                fingerprint: semantic_text(node),
                changed: seen.semantic_fingerprint@ != semantic_text(node) || seen.classification
                    != next,
                kind: if next == ObservationClassification::ProviderExpired {
                    AuditKind::NodeExpired
                } else {
                    AuditKind::NodeChanged
                },
            }
        },
        None => NodePlan {
            node,
            classification: first_class(node.expired),
            fingerprint: semantic_text(node),
            changed: true,
            kind: AuditKind::NodeDiscovered,
        },
    }
}

/// The generation of a row that is known: it advances when the observation
/// changes.
pub open spec fn generation_after(
    round: Round,
    previous: Option<ProviderObservation>,
    changed: bool,
) -> Option<u64> {
    match previous {
        Some(seen) => if seen.provider_instance_id@ == round.provider_instance_id@ {
            Some(if changed {
                (seen.semantic_generation + 1) as u64
            } else {
                seen.semantic_generation
            })
        } else {
            None
        },
        None => None,
    }
}

/// How the observation of a reported node is stored.
pub open spec fn record_of(
    round: Round,
    previous: Option<ProviderObservation>,
    node: ProviderNode,
) -> RecordFact {
    let plan = plan_of(previous, node);
    RecordFact {
        network_id: round.network_id,
        device_id: match previous {
            Some(seen) => seen.device_id,
            None => None,
        },
        provider_instance_id: round.provider_instance_id,
        provider_node_id: node.identity.node_id@,
        stable_key_fingerprint: match previous {
            Some(seen) => seen.stable_machine_key_fingerprint@,
            None => node.identity.stable_key_fingerprint@,
        },
        classification: plan.classification,
        semantic_fingerprint: plan.fingerprint,
        node: plan.node,
        first_observed_at: match previous {
            Some(seen) => seen.first_observed_at,
            None => round.snapshot_at,
        },
        last_observed_at: round.snapshot_at,
        snapshot_at: round.snapshot_at,
        semantic_generation: generation_after(round, previous, plan.changed),
    }
}

/// Why the adoption of a node ends when its observation changes to the given
/// classification.
pub open spec fn reason_of(classification: ObservationClassification) -> AdoptionConflict {
    if classification == ObservationClassification::ProviderExpired {
        AdoptionConflict::ProviderExpired
    } else if classification == ObservationClassification::IdentityConflict {
        AdoptionConflict::IdentityConflict
    } else {
        AdoptionConflict::ObservationChanged
    }
}

/// The pending adoption that ends because the observation changes.
pub open spec fn ended_adoption(
    round: Round,
    previous: Option<ProviderObservation>,
    changed: bool,
) -> Option<PendingAction> {
    match previous {
        Some(seen) => if changed && seen.adoption_state
            == AdoptionState::PendingDeviceCredentialProof {
            first_pending(round.pending, seen.canonical_provider_node_id@)
        } else {
            None
        },
        None => None,
    }
}

/// The end of a pending adoption cannot be recorded: the generation of the
/// observation is out of range.
pub open spec fn is_out_of_range(
    round: Round,
    previous: Option<ProviderObservation>,
    changed: bool,
) -> bool {
    ended_adoption(round, previous, changed) is Some && previous->Some_0.semantic_generation + 1
        > i64::MAX
}

/// The end of a pending adoption, if it comes to that.
pub open spec fn conflict_facts(
    round: Round,
    previous: Option<ProviderObservation>,
    changed: bool,
    reason: AdoptionConflict,
) -> Seq<EffectFact> {
    match ended_adoption(round, previous, changed) {
        Some(action) => seq![
            EffectFact::Conflict(
                conflict_fact(
                    round.network_id,
                    round.snapshot_at,
                    round.actor,
                    action,
                    (previous->Some_0.semantic_generation + 1) as u64,
                    reason,
                ),
            ),
        ],
        None => Seq::empty(),
    }
}

/// What is done about a reported node.
pub open spec fn node_facts(
    round: Round,
    previous: Option<ProviderObservation>,
    node: ProviderNode,
) -> Seq<EffectFact> {
    let plan = plan_of(previous, node);
    seq![EffectFact::Store(record_of(round, previous, node))] + conflict_facts(
        round,
        previous,
        plan.changed,
        reason_of(plan.classification),
    )
}

/// A node of the given identifier is reported.
pub open spec fn is_reported(nodes: Seq<ProviderNode>, node_id: Seq<char>) -> bool {
    exists|i: int| 0 <= i < nodes.len() && (#[trigger] nodes[i]).identity.node_id@ == node_id
}

/// The node of the observation is not reported, and was not missing before.
pub open spec fn goes_missing(nodes: Seq<ProviderNode>, seen: ProviderObservation) -> bool {
    !is_reported(nodes, seen.canonical_provider_node_id@) && seen.classification
        != ObservationClassification::ProviderMissing
}

/// What is done about an observation whose node may not be reported.
pub open spec fn missing_facts(
    round: Round,
    nodes: Seq<ProviderNode>,
    seen: ProviderObservation,
) -> Seq<EffectFact> {
    if goes_missing(nodes, seen) {
        seq![
            EffectFact::Missing {
                provider_instance_id: round.provider_instance_id,
                provider_node_id: seen.canonical_provider_node_id@,
                snapshot_at: round.snapshot_at,
                semantic_generation: generation_after(round, Some(seen), true),
            },
        ] + conflict_facts(round, Some(seen), true, AdoptionConflict::ProviderMissing)
    } else {
        Seq::empty()
    }
}

/// What is done about the first reported nodes.
pub open spec fn reported_facts(
    round: Round,
    inventory: Seq<ProviderObservation>,
    nodes: Seq<ProviderNode>,
    count: nat,
) -> Seq<EffectFact>
    decreases count,
{
    if count == 0 {
        Seq::empty()
    } else {
        let node = nodes[count - 1];
        reported_facts(round, inventory, nodes, (count - 1) as nat) + node_facts(
            round,
            lookup(inventory, node.identity.node_id@),
            node,
        )
    }
}

/// What is done about the first observations whose nodes may not be reported.
pub open spec fn unreported_facts(
    round: Round,
    inventory: Seq<ProviderObservation>,
    nodes: Seq<ProviderNode>,
    count: nat,
) -> Seq<EffectFact>
    decreases count,
{
    if count == 0 {
        Seq::empty()
    } else {
        unreported_facts(round, inventory, nodes, (count - 1) as nat) + missing_facts(
            round,
            nodes,
            inventory[count - 1],
        )
    }
}

/// All that a snapshot does.
pub open spec fn snapshot_facts(
    round: Round,
    inventory: Seq<ProviderObservation>,
    nodes: Seq<ProviderNode>,
) -> Seq<EffectFact> {
    reported_facts(round, inventory, nodes, nodes.len()) + unreported_facts(
        round,
        inventory,
        nodes,
        inventory.len(),
    )
}

/// The changes among the first reported nodes, by the kinds of their events.
pub open spec fn reported_changes(
    inventory: Seq<ProviderObservation>,
    nodes: Seq<ProviderNode>,
    count: nat,
) -> Seq<AuditKind>
    decreases count,
{
    if count == 0 {
        Seq::empty()
    } else {
        let node = nodes[count - 1];
        let plan = plan_of(lookup(inventory, node.identity.node_id@), node);
        let before = reported_changes(inventory, nodes, (count - 1) as nat);
        if plan.changed {
            before.push(plan.kind)
        } else {
            before
        }
    }
}

/// The changes among the first observations whose nodes may not be reported.
pub open spec fn unreported_changes(
    inventory: Seq<ProviderObservation>,
    nodes: Seq<ProviderNode>,
    count: nat,
) -> Seq<AuditKind>
    decreases count,
{
    if count == 0 {
        Seq::empty()
    } else {
        let before = unreported_changes(inventory, nodes, (count - 1) as nat);
        if goes_missing(nodes, inventory[count - 1]) {
            before.push(AuditKind::NodeMissing)
        } else {
            before
        }
    }
}

/// All changes that a snapshot brings, by the kinds of their events.
pub open spec fn snapshot_changes(
    inventory: Seq<ProviderObservation>,
    nodes: Seq<ProviderNode>,
) -> Seq<AuditKind> {
    reported_changes(inventory, nodes, nodes.len()) + unreported_changes(
        inventory,
        nodes,
        inventory.len(),
    )
}

/// The end of some pending adoption cannot be recorded.
pub open spec fn has_range_problem(
    round: Round,
    inventory: Seq<ProviderObservation>,
    nodes: Seq<ProviderNode>,
) -> bool {
    ||| exists|i: int|
        0 <= i < nodes.len() && node_range_problem(round, inventory, #[trigger] nodes[i])
    ||| exists|i: int|
        0 <= i < inventory.len() && missing_range_problem(round, nodes, #[trigger] inventory[i])
}

/// The end of the pending adoption of a reported node cannot be recorded.
pub open spec fn node_range_problem(
    round: Round,
    inventory: Seq<ProviderObservation>,
    node: ProviderNode,
) -> bool {
    let previous = lookup(inventory, node.identity.node_id@);
    is_out_of_range(round, previous, plan_of(previous, node).changed)
}

/// The end of the pending adoption of a node that is not reported cannot be
/// recorded.
pub open spec fn missing_range_problem(
    round: Round,
    nodes: Seq<ProviderNode>,
    seen: ProviderObservation,
) -> bool {
    goes_missing(nodes, seen) && is_out_of_range(round, Some(seen), true)
}

/// Every observation can advance to a next generation.
pub open spec fn can_advance(inventory: Seq<ProviderObservation>) -> bool {
    forall|i: int|
        0 <= i < inventory.len() ==> (#[trigger] inventory[i]).semantic_generation < u64::MAX
}

/// What becomes of the observation of a reported node, as computed.
struct NodeDecision {
    node: ProviderNode,
    classification: ObservationClassification,
    fingerprint: String,
    changed: bool,
    kind: AuditKind,
}

fn decide_node(previous: Option<&ProviderObservation>, node: &ProviderNode) -> (decision:
    NodeDecision)
    ensures
        ({
            let plan = plan_of(
                match previous {
                    Some(seen) => Some(*seen),
                    None => None,
                },
                *node,
            );
            &&& decision.node == plan.node
            &&& decision.classification == plan.classification
            &&& decision.fingerprint@ == plan.fingerprint
            &&& decision.changed == plan.changed
            &&& decision.kind == plan.kind
        }),
{
    match previous {
        Some(seen) => {
            if !same_text(
                seen.stable_machine_key_fingerprint.as_str(),
                node.identity.stable_key_fingerprint.as_str(),
            ) || !same_text(seen.node.machine_key.as_str(), node.machine_key.as_str()) {
                NodeDecision {
                    node: seen.node.clone(),
                    classification: ObservationClassification::IdentityConflict,
                    fingerprint: seen.semantic_fingerprint.clone(),
                    changed: seen.classification != ObservationClassification::IdentityConflict,
                    kind: AuditKind::NodeIdentityConflict,
                }
            } else {
                let classification = next_classification(seen.classification, node);
                let fingerprint = semantic_fingerprint(node);
                let changed = !same_text(seen.semantic_fingerprint.as_str(), fingerprint.as_str())
                    || seen.classification != classification;
                let kind = if classification == ObservationClassification::ProviderExpired {
                    AuditKind::NodeExpired
                } else {
                    AuditKind::NodeChanged
                };
                NodeDecision { node: node.clone(), classification, fingerprint, changed, kind }
            }
        },
        None => NodeDecision {
            node: node.clone(),
            classification: first_classification(node),
            fingerprint: semantic_fingerprint(node),
            changed: true,
            kind: AuditKind::NodeDiscovered,
        },
    }
}

/// The facts of the effects that were added to others.
spec fn adds(before: Seq<Effect>, after: Seq<Effect>, facts: Seq<EffectFact>) -> bool {
    &&& after.len() == before.len() + facts.len()
    &&& forall|i: int| 0 <= i < before.len() ==> #[trigger] after[i] == before[i]
    &&& forall|i: int|
        before.len() <= i < after.len() ==> (#[trigger] after[i]).does(facts[i - before.len()])
}

proof fn lemma_adds(
    before: Seq<Effect>,
    after: Seq<Effect>,
    done: Seq<EffectFact>,
    facts: Seq<EffectFact>,
)
    requires
        do_all(before, done),
        adds(before, after, facts),
    ensures
        do_all(after, done + facts),
{
    assert forall|i: int| 0 <= i < after.len() implies (#[trigger] after[i]).does(
        (done + facts)[i],
    ) by {
        if i < before.len() {
            assert(after[i] == before[i]);
            assert(before[i].does(done[i]));
        }
    }
}

/// What one round of reconciliation works with.
struct RoundData<'a> {
    network_id: &'a NetworkId,
    provider_instance_id: &'a ProviderInstanceId,
    snapshot_at: Timestamp,
    actor: &'a AuditActor,
    pending: &'a Vec<PendingAction>,
}

impl<'a> RoundData<'a> {
    spec fn round(self) -> Round {
        Round {
            network_id: *self.network_id,
            provider_instance_id: *self.provider_instance_id,
            snapshot_at: self.snapshot_at,
            actor: *self.actor,
            pending: self.pending@,
        }
    }

    fn end_adoption(
        &self,
        seen: &ProviderObservation,
        changed: bool,
        reason: AdoptionConflict,
        effects: &mut Vec<Effect>,
    ) -> (result: Result<(), StateError>)
        requires
            seen.semantic_generation < u64::MAX,
        ensures
            match result {
                Ok(()) => {
                    &&& !is_out_of_range(self.round(), Some(*seen), changed)
                    &&& adds(
                        old(effects)@,
                        final(effects)@,
                        conflict_facts(self.round(), Some(*seen), changed, reason),
                    )
                },
                Err(error) => {
                    &&& is_out_of_range(self.round(), Some(*seen), changed)
                    &&& error@ == observation_generation_problem()
                },
            },
    {
        if !changed || seen.adoption_state != AdoptionState::PendingDeviceCredentialProof {
            return Ok(());
        }
        let ended = terminalize_pending_adoption_for_observation(
            self.network_id,
            seen.canonical_provider_node_id.as_str(),
            seen.semantic_generation + 1,
            reason,
            self.snapshot_at,
            self.actor,
            self.pending,
        )?;
        if let Some(decision) = ended {
            effects.push(Effect::Conflict(decision));
        }
        Ok(())
    }

    fn generation(&self, seen: &ProviderObservation, changed: bool) -> (generation: Option<u64>)
        requires
            seen.semantic_generation < u64::MAX,
        ensures
            generation == generation_after(self.round(), Some(*seen), changed),
    {
        if !seen.provider_instance_id.same(self.provider_instance_id) {
            return None;
        }
        if changed {
            Some(seen.semantic_generation + 1)
        } else {
            Some(seen.semantic_generation)
        }
    }

    fn apply_node(
        &self,
        previous: Option<&ProviderObservation>,
        node: &ProviderNode,
        effects: &mut Vec<Effect>,
        changes: &mut Vec<AuditKind>,
    ) -> (result: Result<(), StateError>)
        requires
            previous matches Some(seen) ==> seen.semantic_generation < u64::MAX,
        ensures
            ({
                let before = match previous {
                    Some(seen) => Some(*seen),
                    None => None,
                };
                let plan = plan_of(before, *node);
                match result {
                    Ok(()) => {
                        &&& !is_out_of_range(self.round(), before, plan.changed)
                        &&& adds(
                            old(effects)@,
                            final(effects)@,
                            node_facts(self.round(), before, *node),
                        )
                        &&& final(changes)@ == (if plan.changed {
                            old(changes)@.push(plan.kind)
                        } else {
                            old(changes)@
                        })
                    },
                    Err(error) => {
                        &&& is_out_of_range(self.round(), before, plan.changed)
                        &&& error@ == observation_generation_problem()
                    },
                }
            }),
    {
        let decision = decide_node(previous, node);
        let changed = decision.changed;
        let classification = decision.classification;
        if changed {
            changes.push(decision.kind);
        }
        let device_id = match previous {
            Some(seen) => match &seen.device_id {
                Some(id) => Some(id.clone()),
                None => None,
            },
            None => None,
        };
        let stable_key_fingerprint = match previous {
            Some(seen) => seen.stable_machine_key_fingerprint.clone(),
            None => node.identity.stable_key_fingerprint.clone(),
        };
        let first_observed_at = match previous {
            Some(seen) => seen.first_observed_at,
            None => self.snapshot_at,
        };
        let semantic_generation: Option<u64> = match previous {
            Some(seen) => self.generation(seen, changed),
            None => None,
        };
        effects.push(
            Effect::Store(
                ObservationRecord {
                    observation_id: random_id(),
                    network_id: self.network_id.clone(),
                    device_id,
                    provider_instance_id: self.provider_instance_id.clone(),
                    provider_node_id: node.identity.node_id.clone(),
                    stable_key_fingerprint,
                    classification,
                    semantic_fingerprint: decision.fingerprint,
                    node: decision.node,
                    first_observed_at,
                    last_observed_at: self.snapshot_at,
                    snapshot_at: self.snapshot_at,
                    semantic_generation,
                },
            ),
        );
        if let Some(seen) = previous {
            let reason = match classification {
                ObservationClassification::ProviderExpired => AdoptionConflict::ProviderExpired,
                ObservationClassification::IdentityConflict => AdoptionConflict::IdentityConflict,
                _ => AdoptionConflict::ObservationChanged,
            };
            self.end_adoption(seen, changed, reason, effects)?;
        }
        Ok(())
    }

    fn apply_missing(
        &self,
        seen: &ProviderObservation,
        nodes: Ghost<Seq<ProviderNode>>,
        effects: &mut Vec<Effect>,
    ) -> (result: Result<(), StateError>)
        requires
            seen.semantic_generation < u64::MAX,
            goes_missing(nodes@, *seen),
        ensures
            match result {
                Ok(()) => {
                    &&& !missing_range_problem(self.round(), nodes@, *seen)
                    &&& adds(
                        old(effects)@,
                        final(effects)@,
                        missing_facts(self.round(), nodes@, *seen),
                    )
                },
                Err(error) => {
                    &&& missing_range_problem(self.round(), nodes@, *seen)
                    &&& error@ == observation_generation_problem()
                },
            },
    {
        effects.push(
            Effect::Missing(
                MissingObservation {
                    provider_instance_id: self.provider_instance_id.clone(),
                    provider_node_id: seen.canonical_provider_node_id.clone(),
                    snapshot_at: self.snapshot_at,
                    semantic_generation: self.generation(seen, true),
                },
            ),
        );
        self.end_adoption(seen, true, AdoptionConflict::ProviderMissing, effects)
    }
}

/// The identifiers of ordered nodes.
fn node_keys(nodes: &Vec<ProviderNode>) -> (keys: Vec<String>)
    requires
        is_ordered(nodes@),
    ensures
        is_ascending(keys@),
        keys@.len() == nodes@.len(),
        forall|i: int|
            0 <= i < keys@.len() ==> (#[trigger] keys@[i])@ == nodes@[i].identity.node_id@,
{
    let mut keys: Vec<String> = Vec::new();
    for i in 0..nodes.len()
        invariant
            keys@.len() == i,
            forall|j: int| 0 <= j < i ==> (#[trigger] keys@[j])@ == nodes@[j].identity.node_id@,
    {
        keys.push(nodes[i].identity.node_id.clone());
    }
    assert forall|i: int, j: int| 0 <= i < j < keys@.len() implies text_before(
        (#[trigger] keys@[i])@,
        (#[trigger] keys@[j])@,
    ) by {
        assert(text_before(
            nodes@[i].identity.node_id@,
            nodes@[j].identity.node_id@,
        ));
    }
    keys
}

fn plan_reported(
    data: &RoundData,
    inventory: &Inventory,
    nodes: &Vec<ProviderNode>,
    effects: &mut Vec<Effect>,
    changes: &mut Vec<AuditKind>,
) -> (result: Result<(), StateError>)
    requires
        can_advance(inventory@),
        old(effects)@.len() == 0,
        old(changes)@.len() == 0,
    ensures
        match result {
            Ok(()) => {
                &&& do_all(
                    final(effects)@,
                    reported_facts(data.round(), inventory@, nodes@, nodes@.len()),
                )
                &&& final(changes)@ == reported_changes(inventory@, nodes@, nodes@.len())
                &&& forall|i: int|
                    0 <= i < nodes@.len() ==> !node_range_problem(
                        data.round(),
                        inventory@,
                        #[trigger] nodes@[i],
                    )
            },
            Err(error) => {
                &&& has_range_problem(data.round(), inventory@, nodes@)
                &&& error@ == observation_generation_problem()
            },
        },
{
    assert(changes@ =~= Seq::<AuditKind>::empty());
    for i in 0..nodes.len()
        invariant
            can_advance(inventory@),
            do_all(effects@, reported_facts(data.round(), inventory@, nodes@, i as nat)),
            changes@ == reported_changes(inventory@, nodes@, i as nat),
            forall|j: int|
                0 <= j < i ==> !node_range_problem(
                    data.round(),
                    inventory@,
                    #[trigger] nodes@[j],
                ),
    {
        let node = &nodes[i];
        let previous = inventory.find(node.identity.node_id.as_str());
        let ghost before = effects@;
        proof {
            lemma_lookup(inventory@, node.identity.node_id@);
        }
        match data.apply_node(previous, node, effects, changes) {
            Ok(()) => {
                proof {
                    lemma_adds(
                        before,
                        effects@,
                        reported_facts(data.round(), inventory@, nodes@, i as nat),
                        node_facts(
                            data.round(),
                            lookup(inventory@, node.identity.node_id@),
                            *node,
                        ),
                    );
                }
            },
            Err(error) => {
                assert(node_range_problem(data.round(), inventory@, nodes@[i as int]));
                return Err(error);
            },
        }
    }
    Ok(())
}

fn plan_unreported(
    data: &RoundData,
    inventory: &Inventory,
    nodes: &Vec<ProviderNode>,
    effects: &mut Vec<Effect>,
    changes: &mut Vec<AuditKind>,
) -> (result: Result<(), StateError>)
    requires
        is_ordered(nodes@),
        can_advance(inventory@),
        do_all(
            old(effects)@,
            reported_facts(data.round(), inventory@, nodes@, nodes@.len()),
        ),
        old(changes)@ == reported_changes(inventory@, nodes@, nodes@.len()),
        forall|i: int|
            0 <= i < nodes@.len() ==> !node_range_problem(
                data.round(),
                inventory@,
                #[trigger] nodes@[i],
            ),
    ensures
        match result {
            Ok(()) => {
                &&& !has_range_problem(data.round(), inventory@, nodes@)
                &&& do_all(final(effects)@, snapshot_facts(data.round(), inventory@, nodes@))
                &&& final(changes)@ == snapshot_changes(inventory@, nodes@)
            },
            Err(error) => {
                &&& has_range_problem(data.round(), inventory@, nodes@)
                &&& error@ == observation_generation_problem()
            },
        },
{
    let keys = node_keys(nodes);
    let ghost first = reported_facts(data.round(), inventory@, nodes@, nodes@.len());
    let ghost found = reported_changes(inventory@, nodes@, nodes@.len());
    let total: usize = inventory.len();
    proof {
        assert(first + unreported_facts(data.round(), inventory@, nodes@, 0) =~= first);
        assert(found + unreported_changes(inventory@, nodes@, 0) =~= found);
    }
    for i in 0..total
        invariant
            total == inventory@.len(),
            can_advance(inventory@),
            is_ascending(keys@),
            keys@.len() == nodes@.len(),
            forall|j: int|
                0 <= j < keys@.len() ==> (#[trigger] keys@[j])@ == nodes@[j].identity.node_id@,
            do_all(
                effects@,
                first + unreported_facts(data.round(), inventory@, nodes@, i as nat),
            ),
            changes@ == found + unreported_changes(inventory@, nodes@, i as nat),
            forall|j: int|
                0 <= j < i ==> !missing_range_problem(
                    data.round(),
                    nodes@,
                    #[trigger] inventory@[j],
                ),
    {
        let seen = inventory.get(i);
        let reported = match find_key(&keys, seen.canonical_provider_node_id.as_str()) {
            Some(at) => {
                assert(nodes@[at as int].identity.node_id@ == keys@[at as int]@);
                true
            },
            None => {
                proof {
                    if is_reported(nodes@, seen.canonical_provider_node_id@) {
                        let k = choose|k: int|
                            0 <= k < nodes@.len() && (#[trigger] nodes@[k]).identity.node_id@
                                == seen.canonical_provider_node_id@;
                        assert(keys@[k]@ == nodes@[k].identity.node_id@);
                    }
                }
                false
            },
        };
        let ghost done = first + unreported_facts(data.round(), inventory@, nodes@, i as nat);
        let ghost counted = unreported_changes(inventory@, nodes@, i as nat);
        if !reported && seen.classification != ObservationClassification::ProviderMissing {
            let ghost before = effects@;
            match data.apply_missing(seen, Ghost(nodes@), effects) {
                Ok(()) => {
                    proof {
                        let facts = missing_facts(data.round(), nodes@, *seen);
                        lemma_adds(before, effects@, done, facts);
                        assert(done + facts =~= first + unreported_facts(
                            data.round(),
                            inventory@,
                            nodes@,
                            (i + 1) as nat,
                        ));
                    }
                    changes.push(AuditKind::NodeMissing);
                    assert(changes@ =~= found + counted.push(AuditKind::NodeMissing));
                },
                Err(error) => {
                    assert(missing_range_problem(data.round(), nodes@, inventory@[i as int]));
                    return Err(error);
                },
            }
        } else {
            proof {
                assert(done =~= first + unreported_facts(
                    data.round(),
                    inventory@,
                    nodes@,
                    (i + 1) as nat,
                ));
            }
        }
    }
    Ok(())
}

/// What is recorded of a successful round in the import of the network.
#[derive(Debug, PartialEq, Eq)]
pub struct ImportSuccess {
    pub compatibility: CompatibilityStatus,
    pub provider_version: String,
    pub at: Timestamp,
}

/// The columns of the import of the network after a successful round. The last
/// failure is forgotten.
#[derive(Debug, PartialEq, Eq)]
pub struct SuccessColumns {
    pub compatibility: &'static str,
    pub provider_version: String,
    pub last_success_at: String,
    pub last_attempt_at: String,
    pub last_failure_kind: Option<String>,
    pub last_failure_detail: Option<String>,
}

impl SuccessColumns {
    /// The columns store the success, and its time can be read from them.
    pub open spec fn stores(self, success: ImportSuccess) -> bool {
        &&& self.compatibility@ == success.compatibility.text()
        &&& self.provider_version@ == success.provider_version@
        &&& self.last_success_at@ == success.at.text()
        &&& self.last_attempt_at@ == success.at.text()
        &&& is_time_of(success.at, success.at.text())
        &&& self.last_failure_kind is None
        &&& self.last_failure_detail is None
    }
}

impl ImportSuccess {
    /// The columns of the import of the network after the round.
    pub fn columns(&self) -> (columns: SuccessColumns)
        ensures
            columns.stores(*self),
    {
        SuccessColumns {
            compatibility: compatibility_name(self.compatibility),
            provider_version: self.provider_version.clone(),
            last_success_at: self.at.to_rfc3339(),
            last_attempt_at: self.at.to_rfc3339(),
            last_failure_kind: None,
            last_failure_detail: None,
        }
    }
}

/// All that a snapshot does to the stored state, in order.
#[derive(Debug, PartialEq, Eq)]
pub struct ReconciliationPlan {
    pub effects: Vec<Effect>,
    pub success: ImportSuccess,
}

/// The events of the given kinds.
pub open spec fn change_events(
    network_id: NetworkId,
    actor: AuditActor,
    kinds: Seq<AuditKind>,
) -> Seq<AuditFact> {
    kinds.map_values(|kind: AuditKind| success_fact(network_id, None, actor, kind, None))
}

/// The events of a round that brought the given changes; none for no changes.
pub open spec fn round_events(
    network_id: NetworkId,
    actor: AuditActor,
    changes: Seq<AuditKind>,
) -> Seq<AuditFact> {
    if changes.len() == 0 {
        Seq::empty()
    } else {
        change_events(
            network_id,
            actor,
            seq![AuditKind::ReconciliationStarted] + changes
                + seq![AuditKind::ReconciliationCompleted],
        )
    }
}

impl StateStore {
    /// Records events of the given kinds.
    pub fn append_kinds(
        &self,
        log: &mut AuditLog,
        network_id: &NetworkId,
        actor: &AuditActor,
        kinds: &Vec<AuditKind>,
    ) -> (result: Result<(), StateError>)
        ensures
            final(log).known == old(log).known,
            match result {
                Ok(()) => {
                    &&& kinds@.len() > 0 ==> self.audit_problem(None) is None
                    &&& final(log)@ == old(log)@ + change_events(*network_id, *actor, kinds@)
                },
                Err(error) => {
                    &&& kinds@.len() > 0
                    &&& self.audit_problem(None) == Some(error@)
                    &&& *final(log) == *old(log)
                },
            },
    {
        let ghost before = log@;
        let ghost untouched = *log;
        let ghost facts = change_events(*network_id, *actor, kinds@);
        assert(before + facts.take(0) =~= before);
        for i in 0..kinds.len()
            invariant
                log.known == untouched.known,
                untouched == *old(log),
                before == untouched@,
                facts == change_events(*network_id, *actor, kinds@),
                log@ == before + facts.take(i as int),
                i == 0 ==> *log == untouched,
                i > 0 ==> self.audit_problem(None) is None,
        {
            self.append_success(log, network_id.clone(), None, actor.clone(), kinds[i], None)?;
            assert(before + facts.take(i + 1) =~= (before + facts.take(i as int)).push(
                facts[i as int],
            ));
        }
        assert(facts.take(kinds@.len() as int) =~= facts);
        Ok(())
    }

    /// Applies the nodes of a snapshot to an inventory: the effects on the
    /// stored observations and adoptions, and the events of the changes.
    pub fn apply_snapshot(
        &self,
        network_id: &NetworkId,
        inventory: &Inventory,
        pending: &Vec<PendingAction>,
        snapshot: Snapshot,
        snapshot_at: Timestamp,
        log: &mut AuditLog,
        actor: AuditActor,
    ) -> (result: Result<ReconciliationPlan, StateError>)
        requires
            can_advance(inventory@),
        ensures
            final(log).known == old(log).known,
            ({
                let round = Round {
                    network_id: *network_id,
                    provider_instance_id: snapshot.instance(),
                    snapshot_at,
                    actor,
                    pending: pending@,
                };
                let changes = snapshot_changes(inventory@, snapshot.nodes());
                match result {
                    Ok(plan) => {
                        &&& !has_range_problem(round, inventory@, snapshot.nodes())
                        &&& changes.len() > 0 ==> self.audit_problem(None) is None
                        &&& do_all(
                            plan.effects@,
                            snapshot_facts(round, inventory@, snapshot.nodes()),
                        )
                        &&& plan.success.compatibility == snapshot.inspection().compatibility
                        &&& plan.success.provider_version == snapshot.inspection().provider_version
                        &&& plan.success.at == snapshot_at
                        &&& final(log)@ == old(log)@ + round_events(*network_id, actor, changes)
                    },
                    Err(error) => {
                        &&& *final(log) == *old(log)
                        &&& if has_range_problem(round, inventory@, snapshot.nodes()) {
                            error@ == observation_generation_problem()
                        } else {
                            changes.len() > 0 && self.audit_problem(None) == Some(error@)
                        }
                    },
                }
            }),
    {
        let (provider_instance_id, inspection, nodes) = snapshot.parts();
        let data = RoundData {
            network_id,
            provider_instance_id: &provider_instance_id,
            snapshot_at,
            actor: &actor,
            pending,
        };
        let mut effects: Vec<Effect> = Vec::new();
        let mut changes: Vec<AuditKind> = Vec::new();
        plan_reported(&data, inventory, &nodes, &mut effects, &mut changes)?;
        plan_unreported(&data, inventory, &nodes, &mut effects, &mut changes)?;
        if changes.len() > 0 {
            let mut kinds: Vec<AuditKind> = Vec::new();
            kinds.push(AuditKind::ReconciliationStarted);
            for i in 0..changes.len()
                invariant
                    kinds@ == seq![AuditKind::ReconciliationStarted] + changes@.take(i as int),
            {
                kinds.push(changes[i]);
                assert(kinds@ =~= seq![AuditKind::ReconciliationStarted] + changes@.take(i + 1));
            }
            kinds.push(AuditKind::ReconciliationCompleted);
            assert(kinds@ =~= seq![AuditKind::ReconciliationStarted] + changes@
                + seq![AuditKind::ReconciliationCompleted]);
            self.append_kinds(log, network_id, &actor, &kinds)?;
        } else {
            assert(log@ + round_events(*network_id, actor, changes@) =~= log@);
        }
        Ok(
            ReconciliationPlan {
                effects,
                success: ImportSuccess {
                    compatibility: inspection.compatibility,
                    provider_version: inspection.provider_version,
                    at: snapshot_at,
                },
            },
        )
    }

    /// Applies a complete snapshot to the stored observations of a network. The
    /// snapshot is one of the provider that the stored import of the network
    /// names. No device is created or activated.
    pub fn reconcile_read_only(
        &self,
        network_id: &NetworkId,
        import: Option<ReconciliationImportRow>,
        rows: Vec<ObservationRow>,
        pending: &Vec<PendingAction>,
        snapshot: Snapshot,
        snapshot_at: Timestamp,
        log: &mut AuditLog,
        actor: AuditActor,
    ) -> (result: Result<ReconciliationPlan, ReconciliationFailure>)
        requires
            forall|i: int|
                0 <= i < rows@.len() ==> (#[trigger] rows@[i]).semantic_generation < u64::MAX,
        ensures
            final(log).known == old(log).known,
            round_problem(network_id@, import, snapshot) is Some ==> {
                &&& result matches Err(failure) && round_problem(network_id@, import, snapshot)
                    == Some(failure@)
                &&& *final(log) == *old(log)
            },
            round_problem(network_id@, import, snapshot) is None && first_row_problem(rows@)
                is Some ==> {
                &&& result matches Err(failure) && failure@ == ReconciliationFailureView::State(
                    first_row_problem(rows@)->Some_0,
                )
                &&& *final(log) == *old(log)
            },
            round_problem(network_id@, import, snapshot) is None && first_row_problem(rows@)
                is None ==> exists|inventory: Seq<ProviderObservation>|
                #![trigger loads_as(rows@, *network_id, inventory)]
                {
                    let round = Round {
                        network_id: *network_id,
                        provider_instance_id: snapshot.instance(),
                        snapshot_at,
                        actor,
                        pending: pending@,
                    };
                    let changes = snapshot_changes(inventory, snapshot.nodes());
                    &&& loads_as(rows@, *network_id, inventory)
                    &&& match result {
                        Ok(plan) => {
                            &&& !has_range_problem(round, inventory, snapshot.nodes())
                            &&& changes.len() > 0 ==> self.audit_problem(None) is None
                            &&& do_all(
                                plan.effects@,
                                snapshot_facts(round, inventory, snapshot.nodes()),
                            )
                            &&& plan.success.compatibility == snapshot.inspection().compatibility
                            &&& plan.success.provider_version
                                == snapshot.inspection().provider_version
                            &&& plan.success.at == snapshot_at
                            &&& final(log)@ == old(log)@ + round_events(*network_id, actor, changes)
                        },
                        Err(failure) => {
                            &&& *final(log) == *old(log)
                            &&& failure@ matches ReconciliationFailureView::State(error) && if has_range_problem(
                                round,
                                inventory,
                                snapshot.nodes(),
                            ) {
                                error == observation_generation_problem()
                            } else {
                                changes.len() > 0 && self.audit_problem(None) == Some(error)
                            }
                        },
                    }
                },
    {
        check_round(network_id, import, &snapshot)?;
        let ghost all = rows@;
        let inventory = match load_observations(network_id, rows) {
            Ok(inventory) => inventory,
            Err(error) => return Err(ReconciliationFailure::State(error)),
        };
        proof {
            lemma_loaded_can_advance(all, *network_id, inventory@);
        }
        match self.apply_snapshot(
            network_id,
            &inventory,
            pending,
            snapshot,
            snapshot_at,
            log,
            actor,
        ) {
            Ok(plan) => Ok(plan),
            Err(error) => Err(ReconciliationFailure::State(error)),
        }
    }
}

proof fn lemma_loaded_can_advance(
    rows: Seq<ObservationRow>,
    network_id: NetworkId,
    inventory: Seq<ProviderObservation>,
)
    requires
        loads_as(rows, network_id, inventory),
        forall|i: int| 0 <= i < rows.len() ==> (#[trigger] rows[i]).semantic_generation < u64::MAX,
    ensures
        can_advance(inventory),
{
    let observations = choose|observations: Seq<ProviderObservation>| #[trigger]
        read_as(rows, network_id, observations) && gathers(
            inventory,
            observations,
        );
    assert forall|i: int| 0 <= i < inventory.len() implies (
    #[trigger] inventory[i]).semantic_generation < u64::MAX by {
        let key = inventory[i].canonical_provider_node_id@;
        lemma_lookup_entry(inventory, i);
        lemma_lookup(observations, key);
        assert(lookup(inventory, key) == lookup(observations, key));
        let k = choose|k: int| 0 <= k < observations.len() && observations[k] == inventory[i];
        assert(rows[k].reads_as(network_id, observations[k]));
    }
}

/// Reconciliation trusts nothing new: a stored observation is active only if it
/// was, and belongs to a device only if it did.
pub proof fn law_reconciliation_never_activates(
    round: Round,
    previous: Option<ProviderObservation>,
    node: ProviderNode,
)
    ensures
        record_of(round, previous, node).classification == ObservationClassification::Active ==> (
        previous matches Some(seen) && seen.classification == ObservationClassification::Active),
        record_of(round, previous, node).device_id is Some ==> (previous matches Some(seen)
            && seen.device_id == record_of(round, previous, node).device_id),
{
}

/// A node that turns up under another key is never believed: what was known of
/// it, its key and its fingerprint stay, marked as a conflict, as long as the
/// key differs.
pub proof fn law_identity_is_never_overwritten(
    round: Round,
    seen: ProviderObservation,
    node: ProviderNode,
)
    requires
        is_conflicting(seen, node),
    ensures
        record_of(round, Some(seen), node).classification
            == ObservationClassification::IdentityConflict,
        record_of(round, Some(seen), node).node == seen.node,
        record_of(round, Some(seen), node).semantic_fingerprint == seen.semantic_fingerprint@,
        record_of(round, Some(seen), node).stable_key_fingerprint
            == seen.stable_machine_key_fingerprint@,
{
}

/// The generation of a known observation advances exactly when its fingerprint
/// or its classification changes, and never goes back; and the change is then
/// audited.
pub proof fn law_generation_advances_with_change(
    round: Round,
    seen: ProviderObservation,
    node: ProviderNode,
)
    requires
        seen.provider_instance_id@ == round.provider_instance_id@,
        seen.semantic_generation < u64::MAX,
    ensures
        ({
            let record = record_of(round, Some(seen), node);
            let differs = record.semantic_fingerprint != seen.semantic_fingerprint@
                || record.classification != seen.classification;
            &&& plan_of(Some(seen), node).changed == differs
            &&& record.semantic_generation == Some(if differs {
                (seen.semantic_generation + 1) as u64
            } else {
                seen.semantic_generation
            })
        }),
{
}

/// A pending adoption does not outlive a change of the observation that it is
/// about: it ends with the same generation that the observation gets.
pub proof fn law_changed_observation_ends_adoption(
    round: Round,
    seen: ProviderObservation,
    node: ProviderNode,
)
    requires
        seen.adoption_state == AdoptionState::PendingDeviceCredentialProof,
        plan_of(Some(seen), node).changed,
        first_pending(round.pending, seen.canonical_provider_node_id@) is Some,
    ensures
        node_facts(round, Some(seen), node).len() == 2,
        node_facts(round, Some(seen), node)[1] matches EffectFact::Conflict(decision)
            && decision.observation_generation == (seen.semantic_generation + 1) as u64,
{
}

} // verus!
