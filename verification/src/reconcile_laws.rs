//! What a snapshot of a provider does to the inventory, said on the stored
//! observations and the reported nodes.

use crate::audit::{AuditActor, AuditLog, StateStore};
use crate::digest::fingerprint_text;
use crate::error::{ReconciliationFailure, ReconciliationFailureView, StateErrorView};
use crate::ids::NetworkId;
use crate::inventory::{
    gathers, lemma_lookup_entry, loads_as, lookup, read_as, ObservationRow,
};
use crate::names::{AdoptionState, AuditKind, AuditOutcome, ObservationClassification};
use crate::observation::{ProviderNode, ProviderObservation};
use crate::reconcile::{
    do_all, first_pending, has_range_problem, missing_facts, missing_range_problem, node_facts,
    node_range_problem, plan_of, record_of, reported_changes, reported_facts,
    round_events, snapshot_changes, snapshot_facts, unreported_changes, unreported_facts,
    AdoptionConflict, Effect, EffectFact, ImportSuccess,
    ObservationColumns, PendingAction, RecordFact, ReconciliationPlan, Round,
    SuccessColumns,
};
use crate::snapshot::{ReconciliationImportRow, Snapshot};
use crate::time::{instant_of_text, Timestamp};
use vstd::prelude::*;
use vstd::utf8::encode_utf8;

verus! {

/// Whatever is reported of a known node, its observation keeps the device that
/// it belongs to, the key that it was first seen with and the time at which it
/// was, whether anything changes, whether the keys agree or not.
pub proof fn law_known_observation_keeps_its_device_and_key(
    round: Round,
    seen: ProviderObservation,
    node: ProviderNode,
)
    ensures
        record_of(round, Some(seen), node).device_id == seen.device_id,
        record_of(round, Some(seen), node).stable_key_fingerprint
            == seen.stable_machine_key_fingerprint@,
        record_of(round, Some(seen), node).first_observed_at == seen.first_observed_at,
        record_of(round, Some(seen), node).last_observed_at == round.snapshot_at,
        record_of(round, Some(seen), node).snapshot_at == round.snapshot_at,
        record_of(round, Some(seen), node).network_id == round.network_id,
        record_of(round, Some(seen), node).provider_instance_id == round.provider_instance_id,
        record_of(round, Some(seen), node).provider_node_id == node.identity.node_id@,
{
}

/// A node that is reported for the first time belongs to no device, is taken
/// under the key that is reported, begins at the snapshot, and is expired or
/// unmanaged.
pub proof fn law_new_observation_is_unmanaged(round: Round, node: ProviderNode)
    ensures
        record_of(round, None, node).device_id is None,
        record_of(round, None, node).stable_key_fingerprint
            == node.identity.stable_key_fingerprint@,
        record_of(round, None, node).first_observed_at == round.snapshot_at,
        record_of(round, None, node).last_observed_at == round.snapshot_at,
        record_of(round, None, node).snapshot_at == round.snapshot_at,
        record_of(round, None, node).network_id == round.network_id,
        record_of(round, None, node).provider_instance_id == round.provider_instance_id,
        record_of(round, None, node).provider_node_id == node.identity.node_id@,
        record_of(round, None, node).node == node,
        record_of(round, None, node).semantic_fingerprint == fingerprint_text(
            encode_utf8(node.timeless_json@),
        ),
        record_of(round, None, node).semantic_generation is None,
        node.expired ==> record_of(round, None, node).classification
            == ObservationClassification::ProviderExpired,
        !node.expired ==> record_of(round, None, node).classification
            == ObservationClassification::DiscoveredUnmanaged,
        plan_of(None, node).changed,
        plan_of(None, node).kind == AuditKind::NodeDiscovered,
{
}

/// A known node that is reported with its own keys is stored as it is reported:
/// one that expired as expired, one that is active, expected, quarantined or
/// revoked as what it is, any other as unmanaged.
pub proof fn law_report_under_the_same_key_is_taken(
    round: Round,
    seen: ProviderObservation,
    node: ProviderNode,
)
    requires
        seen.stable_machine_key_fingerprint@ == node.identity.stable_key_fingerprint@,
        seen.node.machine_key@ == node.machine_key@,
    ensures
        record_of(round, Some(seen), node).node == node,
        record_of(round, Some(seen), node).semantic_fingerprint == fingerprint_text(
            encode_utf8(node.timeless_json@),
        ),
        node.expired ==> record_of(round, Some(seen), node).classification
            == ObservationClassification::ProviderExpired,
        !node.expired && (seen.classification == ObservationClassification::Active
            || seen.classification == ObservationClassification::ExpectedJoining
            || seen.classification == ObservationClassification::Quarantined || seen.classification
            == ObservationClassification::Revoked) ==> record_of(
            round,
            Some(seen),
            node,
        ).classification == seen.classification,
        !node.expired && (seen.classification == ObservationClassification::DiscoveredUnmanaged
            || seen.classification == ObservationClassification::ProviderMissing
            || seen.classification == ObservationClassification::ProviderExpired
            || seen.classification == ObservationClassification::ProviderRemoved
            || seen.classification == ObservationClassification::IdentityConflict) ==> record_of(
            round,
            Some(seen),
            node,
        ).classification == ObservationClassification::DiscoveredUnmanaged,
        plan_of(Some(seen), node).kind == (if node.expired {
            AuditKind::NodeExpired
        } else {
            AuditKind::NodeChanged
        }),
{
}

/// A known node that is reported with another key is not believed: all that was
/// known of it stays, and it is in conflict; the conflict is a change only the
/// first time.
pub proof fn law_report_under_another_key_is_a_conflict(
    round: Round,
    seen: ProviderObservation,
    node: ProviderNode,
)
    requires
        seen.stable_machine_key_fingerprint@ != node.identity.stable_key_fingerprint@
            || seen.node.machine_key@ != node.machine_key@,
    ensures
        record_of(round, Some(seen), node).node == seen.node,
        record_of(round, Some(seen), node).semantic_fingerprint == seen.semantic_fingerprint@,
        record_of(round, Some(seen), node).classification
            == ObservationClassification::IdentityConflict,
        plan_of(Some(seen), node).changed <==> seen.classification
            != ObservationClassification::IdentityConflict,
        plan_of(Some(seen), node).kind == AuditKind::NodeIdentityConflict,
{
}

/// The generation of a row of the same provider counts its changes: one more if
/// what is stored differs from what was, the same if not. A row of another
/// provider has no generation to count on.
pub proof fn law_generation_counts_changes(
    round: Round,
    seen: ProviderObservation,
    node: ProviderNode,
)
    requires
        seen.semantic_generation < u64::MAX,
    ensures
        seen.provider_instance_id@ == round.provider_instance_id@ ==> {
            let record = record_of(round, Some(seen), node);
            &&& record.semantic_fingerprint == seen.semantic_fingerprint@ && record.classification
                == seen.classification ==> record.semantic_generation == Some(
                seen.semantic_generation,
            )
            &&& record.semantic_fingerprint != seen.semantic_fingerprint@ || record.classification
                != seen.classification ==> (record.semantic_generation matches Some(number)
                && number == seen.semantic_generation + 1)
        },
        seen.provider_instance_id@ != round.provider_instance_id@ ==> record_of(
            round,
            Some(seen),
            node,
        ).semantic_generation is None,
{
}

/// What is done about a reported node begins with its storing; a pending
/// adoption of it ends exactly if what is stored differs from what was, and then
/// for the reason that the new state gives, at the next generation and at the
/// time of the snapshot.
pub proof fn law_change_ends_the_pending_adoption(
    round: Round,
    seen: ProviderObservation,
    node: ProviderNode,
    action: PendingAction,
)
    requires
        seen.semantic_generation < u64::MAX,
        first_pending(round.pending, seen.canonical_provider_node_id@) == Some(action),
    ensures
        ({
            let record = record_of(round, Some(seen), node);
            let facts = node_facts(round, Some(seen), node);
            let differs = record.semantic_fingerprint != seen.semantic_fingerprint@
                || record.classification != seen.classification;
            &&& facts.len() >= 1
            &&& facts[0] == EffectFact::Store(record)
            &&& !differs || seen.adoption_state == AdoptionState::Unmanaged || seen.adoption_state
                == AdoptionState::Adopted ==> facts.len() == 1
            &&& differs && seen.adoption_state == AdoptionState::PendingDeviceCredentialProof ==> {
                &&& facts.len() == 2
                &&& facts[1] matches EffectFact::Conflict(said) && {
                    &&& said.action_id == action.action_id@
                    &&& said.authority_id == action.authority_id@
                    &&& said.authority_generation == action.authority_generation
                    &&& said.network_id == round.network_id
                    &&& said.provider_instance_id == action.provider_instance_id@
                    &&& said.provider_node_id == action.provider_node_id@
                    &&& said.observation_generation == seen.semantic_generation + 1
                    &&& said.proof_generation == action.proof_generation
                    &&& said.safe_correlation_digest == fingerprint_text(
                        encode_utf8(action.action_id@),
                    )
                    &&& said.decided_at == round.snapshot_at
                    &&& record.classification == ObservationClassification::ProviderExpired
                        ==> said.reason == AdoptionConflict::ProviderExpired
                    &&& record.classification == ObservationClassification::IdentityConflict
                        ==> said.reason == AdoptionConflict::IdentityConflict
                    &&& record.classification != ObservationClassification::ProviderExpired
                        && record.classification != ObservationClassification::IdentityConflict
                        ==> said.reason == AdoptionConflict::ObservationChanged
                    &&& said.event.network_id == Some(round.network_id)
                    &&& said.event.actor == round.actor
                    &&& said.event.kind == AuditKind::AdoptionActionConflicted
                    &&& said.event.outcome == AuditOutcome::Success
                    &&& said.event.device_id is None
                    &&& said.event.metadata_json == "{}"@
                    &&& said.event.correlation is None
                    &&& said.observation_generation <= 0x7fff_ffff_ffff_ffff ==> (
                    said.event.generation matches Some(number) && number
                        == said.observation_generation)
                }
            }
        }),
{
}

/// Without a pending adoption of the node nothing ends.
pub proof fn law_no_pending_adoption_no_end(
    round: Round,
    previous: Option<ProviderObservation>,
    node: ProviderNode,
)
    requires
        previous matches Some(seen) ==> first_pending(
            round.pending,
            seen.canonical_provider_node_id@,
        ) is None,
    ensures
        node_facts(round, previous, node) =~= seq![
            EffectFact::Store(record_of(round, previous, node)),
        ],
{
}

/// A known node that is no longer reported goes missing once: it is marked at
/// the time of the snapshot, at the next generation, and a pending adoption of
/// it ends. One that was missing stays as it is, and so does one that is
/// reported.
pub proof fn law_unreported_node_goes_missing_once(
    round: Round,
    nodes: Seq<ProviderNode>,
    seen: ProviderObservation,
)
    requires
        seen.semantic_generation < u64::MAX,
    ensures
        seen.classification == ObservationClassification::ProviderMissing || (exists|i: int|
            0 <= i < nodes.len() && (#[trigger] nodes[i]).identity.node_id@
                == seen.canonical_provider_node_id@) ==> missing_facts(round, nodes, seen).len()
            == 0,
        seen.classification != ObservationClassification::ProviderMissing && (forall|i: int|
            0 <= i < nodes.len() ==> (#[trigger] nodes[i]).identity.node_id@
                != seen.canonical_provider_node_id@) ==> {
            let facts = missing_facts(round, nodes, seen);
            &&& facts.len() >= 1
            &&& facts[0] matches EffectFact::Missing {
                provider_instance_id,
                provider_node_id,
                snapshot_at,
                semantic_generation,
            } && {
                &&& provider_instance_id == round.provider_instance_id
                &&& provider_node_id == seen.canonical_provider_node_id@
                &&& snapshot_at == round.snapshot_at
                &&& seen.provider_instance_id@ == round.provider_instance_id@ ==> (
                semantic_generation matches Some(number) && number == seen.semantic_generation + 1)
            }
            &&& seen.adoption_state != AdoptionState::PendingDeviceCredentialProof
                || first_pending(round.pending, seen.canonical_provider_node_id@) is None
                ==> facts.len() == 1
            &&& seen.adoption_state == AdoptionState::PendingDeviceCredentialProof && first_pending(
                round.pending,
                seen.canonical_provider_node_id@,
            ) is Some ==> {
                let action = first_pending(
                    round.pending,
                    seen.canonical_provider_node_id@,
                )->Some_0;
                &&& facts.len() == 2
                &&& facts[1] matches EffectFact::Conflict(said) && {
                    &&& said.reason == AdoptionConflict::ProviderMissing
                    &&& said.action_id == action.action_id@
                    &&& said.observation_generation == seen.semantic_generation + 1
                    &&& said.decided_at == round.snapshot_at
                }
            }
        },
{
}

/// The pending adoption of a node is the first one that names it, and there is
/// none only if none names it.
pub proof fn law_pending_adoption_is_the_first_of_its_node(
    pending: Seq<PendingAction>,
    node_id: Seq<char>,
)
    ensures
        match first_pending(pending, node_id) {
            Some(action) => exists|i: int|
                0 <= i < pending.len() && #[trigger] pending[i] == action
                    && pending[i].provider_node_id@ == node_id && forall|j: int|
                    0 <= j < i ==> (#[trigger] pending[j]).provider_node_id@ != node_id,
            None => forall|i: int|
                0 <= i < pending.len() ==> (#[trigger] pending[i]).provider_node_id@ != node_id,
        },
    decreases pending.len(),
{
    if pending.len() > 0 && pending[0].provider_node_id@ != node_id {
        let rest = pending.drop_first();
        law_pending_adoption_is_the_first_of_its_node(rest, node_id);
        match first_pending(rest, node_id) {
            Some(action) => {
                let i = choose|i: int|
                    0 <= i < rest.len() && #[trigger] rest[i] == action
                        && rest[i].provider_node_id@ == node_id && forall|j: int|
                        0 <= j < i ==> (#[trigger] rest[j]).provider_node_id@ != node_id;
                assert(pending[i + 1] == action);
                assert forall|j: int| 0 <= j < i + 1 implies (
                #[trigger] pending[j]).provider_node_id@ != node_id by {
                    if j > 0 {
                        assert(rest[j - 1] == pending[j]);
                    }
                }
            },
            None => {
                assert forall|i: int| 0 <= i < pending.len() implies (
                #[trigger] pending[i]).provider_node_id@ != node_id by {
                    if i > 0 {
                        assert(rest[i - 1] == pending[i]);
                    }
                }
            },
        }
    }
}

proof fn lemma_reported_holds(
    round: Round,
    inventory: Seq<ProviderObservation>,
    nodes: Seq<ProviderNode>,
    count: nat,
    at: int,
)
    requires
        0 <= at < count <= nodes.len(),
    ensures
        forall|k: int|
            0 <= k < node_facts(
                round,
                lookup(inventory, nodes[at].identity.node_id@),
                nodes[at],
            ).len() ==> reported_facts(round, inventory, nodes, count).contains(
                #[trigger] node_facts(
                    round,
                    lookup(inventory, nodes[at].identity.node_id@),
                    nodes[at],
                )[k],
            ),
    decreases count,
{
    let before = reported_facts(round, inventory, nodes, (count - 1) as nat);
    let node = nodes[count - 1];
    let added = node_facts(round, lookup(inventory, node.identity.node_id@), node);
    let all = reported_facts(round, inventory, nodes, count);
    assert(all == before + added);
    let wanted = node_facts(
        round,
        lookup(inventory, nodes[at].identity.node_id@),
        nodes[at],
    );
    if at < count - 1 {
        lemma_reported_holds(round, inventory, nodes, (count - 1) as nat, at);
        assert forall|k: int| 0 <= k < wanted.len() implies all.contains(#[trigger] wanted[k]) by {
            let i = choose|i: int| 0 <= i < before.len() && before[i] == wanted[k];
            assert(all[i] == wanted[k]);
        }
    } else {
        assert forall|k: int| 0 <= k < wanted.len() implies all.contains(#[trigger] wanted[k]) by {
            assert(all[before.len() + k] == wanted[k]);
        }
    }
}

proof fn lemma_unreported_holds(
    round: Round,
    inventory: Seq<ProviderObservation>,
    nodes: Seq<ProviderNode>,
    count: nat,
    at: int,
)
    requires
        0 <= at < count <= inventory.len(),
    ensures
        forall|k: int|
            0 <= k < missing_facts(round, nodes, inventory[at]).len() ==> unreported_facts(
                round,
                inventory,
                nodes,
                count,
            ).contains(#[trigger] missing_facts(round, nodes, inventory[at])[k]),
    decreases count,
{
    let before = unreported_facts(round, inventory, nodes, (count - 1) as nat);
    let added = missing_facts(round, nodes, inventory[count - 1]);
    let all = unreported_facts(round, inventory, nodes, count);
    assert(all == before + added);
    let wanted = missing_facts(round, nodes, inventory[at]);
    if at < count - 1 {
        lemma_unreported_holds(round, inventory, nodes, (count - 1) as nat, at);
        assert forall|k: int| 0 <= k < wanted.len() implies all.contains(#[trigger] wanted[k]) by {
            let i = choose|i: int| 0 <= i < before.len() && before[i] == wanted[k];
            assert(all[i] == wanted[k]);
        }
    } else {
        assert forall|k: int| 0 <= k < wanted.len() implies all.contains(#[trigger] wanted[k]) by {
            assert(all[before.len() + k] == wanted[k]);
        }
    }
}

/// A snapshot stores every node that it reports, against what was known of it,
/// and ends whatever adoption that ends.
pub proof fn law_snapshot_stores_every_reported_node(
    round: Round,
    inventory: Seq<ProviderObservation>,
    nodes: Seq<ProviderNode>,
    at: int,
)
    requires
        0 <= at < nodes.len(),
    ensures
        snapshot_facts(round, inventory, nodes).contains(
            EffectFact::Store(
                record_of(round, lookup(inventory, nodes[at].identity.node_id@), nodes[at]),
            ),
        ),
        forall|k: int|
            0 <= k < node_facts(
                round,
                lookup(inventory, nodes[at].identity.node_id@),
                nodes[at],
            ).len() ==> snapshot_facts(round, inventory, nodes).contains(
                #[trigger] node_facts(
                    round,
                    lookup(inventory, nodes[at].identity.node_id@),
                    nodes[at],
                )[k],
            ),
{
    let reported = reported_facts(round, inventory, nodes, nodes.len());
    let all = snapshot_facts(round, inventory, nodes);
    let wanted = node_facts(
        round,
        lookup(inventory, nodes[at].identity.node_id@),
        nodes[at],
    );
    lemma_reported_holds(round, inventory, nodes, nodes.len(), at);
    assert forall|k: int| 0 <= k < wanted.len() implies all.contains(#[trigger] wanted[k]) by {
        let i = choose|i: int| 0 <= i < reported.len() && reported[i] == wanted[k];
        assert(all[i] == wanted[k]);
    }
    assert(wanted[0] == EffectFact::Store(
        record_of(round, lookup(inventory, nodes[at].identity.node_id@), nodes[at]),
    ));
}

/// A snapshot marks every known node that it does not report, unless it was
/// missing before.
pub proof fn law_snapshot_marks_every_unreported_node(
    round: Round,
    inventory: Seq<ProviderObservation>,
    nodes: Seq<ProviderNode>,
    at: int,
)
    requires
        0 <= at < inventory.len(),
        inventory[at].classification != ObservationClassification::ProviderMissing,
        forall|i: int|
            0 <= i < nodes.len() ==> (#[trigger] nodes[i]).identity.node_id@
                != inventory[at].canonical_provider_node_id@,
    ensures
        exists|k: int|
            0 <= k < snapshot_facts(round, inventory, nodes).len() && (#[trigger] snapshot_facts(
                round,
                inventory,
                nodes,
            )[k] matches EffectFact::Missing { provider_node_id, snapshot_at, .. }
                && provider_node_id == inventory[at].canonical_provider_node_id@ && snapshot_at
                == round.snapshot_at),
{
    let reported = reported_facts(round, inventory, nodes, nodes.len());
    let unreported = unreported_facts(round, inventory, nodes, inventory.len());
    let all = snapshot_facts(round, inventory, nodes);
    let wanted = missing_facts(round, nodes, inventory[at]);
    lemma_unreported_holds(round, inventory, nodes, inventory.len(), at);
    assert(wanted.len() >= 1);
    assert(unreported.contains(wanted[0]));
    let i = choose|i: int| 0 <= i < unreported.len() && unreported[i] == wanted[0];
    assert(all[reported.len() + i] == wanted[0]);
}

proof fn lemma_reported_does_no_more(
    round: Round,
    inventory: Seq<ProviderObservation>,
    nodes: Seq<ProviderNode>,
    count: nat,
    k: int,
)
    requires
        count <= nodes.len(),
        0 <= k < reported_facts(round, inventory, nodes, count).len(),
    ensures
        match reported_facts(round, inventory, nodes, count)[k] {
            EffectFact::Store(record) => exists|i: int|
                0 <= i < nodes.len() && record == record_of(
                    round,
                    lookup(inventory, (#[trigger] nodes[i]).identity.node_id@),
                    nodes[i],
                ),
            EffectFact::Conflict(said) => exists|i: int|
                0 <= i < round.pending.len() && (#[trigger] round.pending[i]).action_id@
                    == said.action_id,
            EffectFact::Missing { .. } => false,
        },
    decreases count,
{
    if count > 0 {
        let before = reported_facts(round, inventory, nodes, (count - 1) as nat);
        let node = nodes[count - 1];
        let previous = lookup(inventory, node.identity.node_id@);
        let added = node_facts(round, previous, node);
        let all = reported_facts(round, inventory, nodes, count);
        assert(all == before + added);
        if k < before.len() {
            lemma_reported_does_no_more(round, inventory, nodes, (count - 1) as nat, k);
            assert(all[k] == before[k]);
        } else {
            assert(all[k] == added[k - before.len()]);
            if previous is Some {
                law_pending_adoption_is_the_first_of_its_node(
                    round.pending,
                    previous->Some_0.canonical_provider_node_id@,
                );
            }
            if k == before.len() {
                assert(all[k] == EffectFact::Store(record_of(round, previous, node)));
                assert(nodes[count - 1] == node);
            }
        }
    }
}

proof fn lemma_unreported_does_no_more(
    round: Round,
    inventory: Seq<ProviderObservation>,
    nodes: Seq<ProviderNode>,
    count: nat,
    k: int,
)
    requires
        count <= inventory.len(),
        0 <= k < unreported_facts(round, inventory, nodes, count).len(),
    ensures
        match unreported_facts(round, inventory, nodes, count)[k] {
            EffectFact::Store(_) => false,
            EffectFact::Conflict(said) => exists|i: int|
                0 <= i < round.pending.len() && (#[trigger] round.pending[i]).action_id@
                    == said.action_id,
            EffectFact::Missing { provider_node_id, .. } => exists|i: int|
                0 <= i < inventory.len() && (#[trigger] inventory[i]).canonical_provider_node_id@
                    == provider_node_id && inventory[i].classification
                    != ObservationClassification::ProviderMissing && forall|j: int|
                    0 <= j < nodes.len() ==> (#[trigger] nodes[j]).identity.node_id@
                        != provider_node_id,
        },
    decreases count,
{
    if count > 0 {
        let before = unreported_facts(round, inventory, nodes, (count - 1) as nat);
        let seen = inventory[count - 1];
        let added = missing_facts(round, nodes, seen);
        let all = unreported_facts(round, inventory, nodes, count);
        assert(all == before + added);
        if k < before.len() {
            lemma_unreported_does_no_more(round, inventory, nodes, (count - 1) as nat, k);
            assert(all[k] == before[k]);
        } else {
            assert(all[k] == added[k - before.len()]);
            law_pending_adoption_is_the_first_of_its_node(
                round.pending,
                seen.canonical_provider_node_id@,
            );
            assert(inventory[count - 1] == seen);
        }
    }
}

/// A snapshot does no more than it has to: it stores nothing but what it
/// reports, marks nothing but what it does not report and was not missing, and
/// ends no adoption but a pending one.
pub proof fn law_snapshot_does_no_more(
    round: Round,
    inventory: Seq<ProviderObservation>,
    nodes: Seq<ProviderNode>,
    k: int,
)
    requires
        0 <= k < snapshot_facts(round, inventory, nodes).len(),
    ensures
        match snapshot_facts(round, inventory, nodes)[k] {
            EffectFact::Store(record) => exists|i: int|
                0 <= i < nodes.len() && record == record_of(
                    round,
                    lookup(inventory, (#[trigger] nodes[i]).identity.node_id@),
                    nodes[i],
                ),
            EffectFact::Conflict(said) => exists|i: int|
                0 <= i < round.pending.len() && (#[trigger] round.pending[i]).action_id@
                    == said.action_id,
            EffectFact::Missing { provider_node_id, .. } => exists|i: int|
                0 <= i < inventory.len() && (#[trigger] inventory[i]).canonical_provider_node_id@
                    == provider_node_id && inventory[i].classification
                    != ObservationClassification::ProviderMissing && forall|j: int|
                    0 <= j < nodes.len() ==> (#[trigger] nodes[j]).identity.node_id@
                        != provider_node_id,
        },
{
    let reported = reported_facts(round, inventory, nodes, nodes.len());
    let unreported = unreported_facts(round, inventory, nodes, inventory.len());
    let all = snapshot_facts(round, inventory, nodes);
    if k < reported.len() {
        assert(all[k] == reported[k]);
        lemma_reported_does_no_more(round, inventory, nodes, nodes.len(), k);
    } else {
        assert(all[k] == unreported[k - reported.len()]);
        lemma_unreported_does_no_more(
            round,
            inventory,
            nodes,
            inventory.len(),
            k - reported.len(),
        );
    }
}

proof fn lemma_nothing_reported_changes(
    inventory: Seq<ProviderObservation>,
    nodes: Seq<ProviderNode>,
    count: nat,
)
    requires
        count <= nodes.len(),
        forall|i: int|
            0 <= i < count ==> !plan_of(
                lookup(inventory, (#[trigger] nodes[i]).identity.node_id@),
                nodes[i],
            ).changed,
    ensures
        reported_changes(inventory, nodes, count).len() == 0,
    decreases count,
{
    if count > 0 {
        lemma_nothing_reported_changes(inventory, nodes, (count - 1) as nat);
        assert(!plan_of(
            lookup(inventory, nodes[count - 1].identity.node_id@),
            nodes[count - 1],
        ).changed);
    }
}

proof fn lemma_nothing_goes_missing(
    inventory: Seq<ProviderObservation>,
    nodes: Seq<ProviderNode>,
    count: nat,
)
    requires
        count <= inventory.len(),
        forall|i: int|
            0 <= i < count ==> {
                ||| (#[trigger] inventory[i]).classification
                    == ObservationClassification::ProviderMissing
                ||| exists|j: int|
                    0 <= j < nodes.len() && (#[trigger] nodes[j]).identity.node_id@
                        == inventory[i].canonical_provider_node_id@
            },
    ensures
        unreported_changes(inventory, nodes, count).len() == 0,
    decreases count,
{
    if count > 0 {
        lemma_nothing_goes_missing(inventory, nodes, (count - 1) as nat);
        let last = inventory[count - 1];
        assert(last.classification == ObservationClassification::ProviderMissing || exists|j: int|
            0 <= j < nodes.len() && (#[trigger] nodes[j]).identity.node_id@
                == last.canonical_provider_node_id@);
    }
}

/// A snapshot that says what is known already leaves no trace in the trail: if
/// every reported node is known, under its keys, fingerprint and classification,
/// and every known node is reported or missing, nothing counts as a change and
/// there are no events.
pub proof fn law_repeated_snapshot_is_no_change(
    network_id: NetworkId,
    actor: AuditActor,
    inventory: Seq<ProviderObservation>,
    nodes: Seq<ProviderNode>,
)
    requires
        forall|i: int|
            0 <= i < nodes.len() ==> (lookup(
                inventory,
                (#[trigger] nodes[i]).identity.node_id@,
            ) matches Some(seen) && {
                &&& seen.stable_machine_key_fingerprint@
                    == nodes[i].identity.stable_key_fingerprint@
                &&& seen.node.machine_key@ == nodes[i].machine_key@
                &&& seen.semantic_fingerprint@ == fingerprint_text(
                    encode_utf8(nodes[i].timeless_json@),
                )
                &&& seen.classification == (if nodes[i].expired {
                    ObservationClassification::ProviderExpired
                } else {
                    ObservationClassification::DiscoveredUnmanaged
                }) || (!nodes[i].expired && seen.classification
                    == ObservationClassification::Active)
            }),
        forall|i: int|
            0 <= i < inventory.len() ==> {
                ||| (#[trigger] inventory[i]).classification
                    == ObservationClassification::ProviderMissing
                ||| exists|j: int|
                    0 <= j < nodes.len() && (#[trigger] nodes[j]).identity.node_id@
                        == inventory[i].canonical_provider_node_id@
            },
    ensures
        snapshot_changes(inventory, nodes).len() == 0,
        round_events(network_id, actor, snapshot_changes(inventory, nodes)).len() == 0,
{
    lemma_nothing_reported_changes(inventory, nodes, nodes.len());
    lemma_nothing_goes_missing(inventory, nodes, inventory.len());
}

/// Each further node adds the one event that its change is, and none if nothing
/// changes: a discovery for an unknown node, a conflict for one under another
/// key, an expiry for one that expired, a change for any other.
pub proof fn law_each_changed_node_is_one_event(
    inventory: Seq<ProviderObservation>,
    nodes: Seq<ProviderNode>,
    count: nat,
)
    requires
        count < nodes.len(),
    ensures
        ({
            let node = nodes[count as int];
            let before = reported_changes(inventory, nodes, count);
            let after = reported_changes(inventory, nodes, count + 1);
            match lookup(inventory, node.identity.node_id@) {
                None => after == before.push(AuditKind::NodeDiscovered),
                Some(seen) => if seen.stable_machine_key_fingerprint@
                    != node.identity.stable_key_fingerprint@ || seen.node.machine_key@
                    != node.machine_key@ {
                    if seen.classification == ObservationClassification::IdentityConflict {
                        after == before
                    } else {
                        after == before.push(AuditKind::NodeIdentityConflict)
                    }
                } else if node.expired {
                    if seen.classification == ObservationClassification::ProviderExpired
                        && seen.semantic_fingerprint@ == fingerprint_text(
                        encode_utf8(node.timeless_json@),
                    ) {
                        after == before
                    } else {
                        after == before.push(AuditKind::NodeExpired)
                    }
                } else {
                    if seen.semantic_fingerprint@ != fingerprint_text(
                        encode_utf8(node.timeless_json@),
                    ) || seen.classification == ObservationClassification::ProviderMissing
                        || seen.classification == ObservationClassification::ProviderExpired
                        || seen.classification == ObservationClassification::ProviderRemoved
                        || seen.classification == ObservationClassification::IdentityConflict {
                        after == before.push(AuditKind::NodeChanged)
                    } else {
                        after == before
                    }
                },
            }
        }),
{
}

/// Each further observation adds the one event that it goes missing, if its node
/// is not reported and was not missing, and none otherwise.
pub proof fn law_each_missing_node_is_one_event(
    inventory: Seq<ProviderObservation>,
    nodes: Seq<ProviderNode>,
    count: nat,
)
    requires
        count < inventory.len(),
    ensures
        ({
            let seen = inventory[count as int];
            let before = unreported_changes(inventory, nodes, count);
            let after = unreported_changes(inventory, nodes, count + 1);
            if seen.classification != ObservationClassification::ProviderMissing && (forall|i: int|
                0 <= i < nodes.len() ==> (#[trigger] nodes[i]).identity.node_id@
                    != seen.canonical_provider_node_id@) {
                after == before.push(AuditKind::NodeMissing)
            } else {
                after == before
            }
        }),
{
}

/// The changes of a snapshot are those of all reported nodes and then those of
/// all known ones.
pub proof fn law_snapshot_changes_are_all_changes(
    inventory: Seq<ProviderObservation>,
    nodes: Seq<ProviderNode>,
)
    ensures
        snapshot_changes(inventory, nodes) == reported_changes(inventory, nodes, nodes.len())
            + unreported_changes(inventory, nodes, inventory.len()),
        reported_changes(inventory, nodes, 0).len() == 0,
        unreported_changes(inventory, nodes, 0).len() == 0,
{
}

/// A round with changes is framed in the trail: it begins with its start, ends
/// with its completion, and holds one successful event of the actor for each
/// change between them, in order; a round without changes leaves nothing.
pub proof fn law_round_is_framed_by_its_events(
    network_id: NetworkId,
    actor: AuditActor,
    changes: Seq<AuditKind>,
)
    ensures
        changes.len() == 0 ==> round_events(network_id, actor, changes).len() == 0,
        changes.len() > 0 ==> {
            let events = round_events(network_id, actor, changes);
            &&& events.len() == changes.len() + 2
            &&& events[0].kind == AuditKind::ReconciliationStarted
            &&& events[events.len() - 1].kind == AuditKind::ReconciliationCompleted
            &&& forall|i: int|
                0 <= i < changes.len() ==> (#[trigger] events[i + 1]).kind == changes[i]
            &&& forall|i: int|
                0 <= i < events.len() ==> {
                    let event = #[trigger] events[i];
                    &&& event.network_id == Some(network_id)
                    &&& event.device_id is None
                    &&& event.actor == actor
                    &&& event.outcome == AuditOutcome::Success
                    &&& event.generation is None
                    &&& event.metadata_json == "{}"@
                    &&& event.correlation is None
                }
        },
{
}

/// What is done is what is said: a stored observation, a decision or a mark
/// holds each fact under its name.
pub proof fn law_effects_do_what_they_say(effect: Effect, fact: EffectFact)
    requires
        effect.does(fact),
    ensures
        match effect {
            Effect::Store(record) => fact matches EffectFact::Store(said) && {
                &&& record.network_id == said.network_id
                &&& record.device_id == said.device_id
                &&& record.provider_instance_id == said.provider_instance_id
                &&& record.provider_node_id@ == said.provider_node_id
                &&& record.stable_key_fingerprint@ == said.stable_key_fingerprint
                &&& record.classification == said.classification
                &&& record.semantic_fingerprint@ == said.semantic_fingerprint
                &&& record.node == said.node
                &&& record.first_observed_at == said.first_observed_at
                &&& record.last_observed_at == said.last_observed_at
                &&& record.snapshot_at == said.snapshot_at
                &&& record.semantic_generation == said.semantic_generation
                &&& record.observation_id@.len() == 36
            },
            Effect::Conflict(decision) => fact matches EffectFact::Conflict(said) && {
                &&& decision.action_id@ == said.action_id
                &&& decision.authority_id@ == said.authority_id
                &&& decision.authority_generation == said.authority_generation
                &&& decision.network_id == said.network_id
                &&& decision.provider_instance_id@ == said.provider_instance_id
                &&& decision.provider_node_id@ == said.provider_node_id
                &&& decision.observation_generation == said.observation_generation
                &&& decision.proof_generation == said.proof_generation
                &&& decision.safe_correlation_digest@ == said.safe_correlation_digest
                &&& decision.reason == said.reason
                &&& decision.decided_at_ms == said.decided_at.millis()
                &&& decision.event.recorded_at == said.decided_at
                &&& decision.event.kind == said.event.kind
                &&& decision.event.outcome == said.event.outcome
                &&& decision.event.actor == said.event.actor
                &&& decision.event.network_id == said.event.network_id
                &&& decision.event.generation == said.event.generation
                &&& decision.decision_id@.len() == 36
            },
            Effect::Missing(missing) => fact matches EffectFact::Missing {
                provider_instance_id,
                provider_node_id,
                snapshot_at,
                semantic_generation,
            } && {
                &&& missing.provider_instance_id == provider_instance_id
                &&& missing.provider_node_id@ == provider_node_id
                &&& missing.snapshot_at == snapshot_at
                &&& missing.semantic_generation == semantic_generation
            },
        },
{
}

/// Every column of a stored observation holds the fact of that name; a new row
/// is unmanaged.
pub proof fn law_observation_is_stored_faithfully(columns: ObservationColumns, record: RecordFact)
    requires
        columns.stores(record),
    ensures
        columns.network@ == record.network_id@,
        record.device_id is None ==> columns.device is None,
        record.device_id matches Some(id) ==> (columns.device matches Some(text) && text@ == id@),
        columns.provider_instance@ == record.provider_instance_id@,
        columns.provider_node_id@ == record.provider_node_id,
        columns.stable_key_fingerprint@ == record.stable_key_fingerprint,
        columns.classification@ == record.classification.text(),
        columns.adoption_state@ == "unmanaged"@,
        columns.semantic_fingerprint@ == record.semantic_fingerprint,
        columns.normalized_json@ == record.node.json@,
        columns.first_observed_at@ == record.first_observed_at.text(),
        columns.last_observed_at@ == record.last_observed_at.text(),
        columns.snapshot_at@ == record.snapshot_at.text(),
        columns.semantic_generation == record.semantic_generation,
{
}

/// A successful round is stored with its time as the last success and the last
/// attempt, and forgets the last failure.
pub proof fn law_success_forgets_the_failure(columns: SuccessColumns, success: ImportSuccess)
    requires
        columns.stores(success),
    ensures
        columns.compatibility@ == success.compatibility.text(),
        columns.provider_version@ == success.provider_version@,
        columns.last_success_at@ == success.at.text(),
        columns.last_attempt_at@ == success.at.text(),
        columns.last_failure_kind is None,
        columns.last_failure_detail is None,
{
}

/// The codes of the reasons for which an adoption ends.
pub proof fn law_adoption_conflict_codes(reason: AdoptionConflict)
    ensures
        reason == AdoptionConflict::ProviderExpired ==> reason.text() == "provider_expired"@,
        reason == AdoptionConflict::IdentityConflict ==> reason.text() == "identity_conflict"@,
        reason == AdoptionConflict::ObservationChanged ==> reason.text() == "observation_changed"@,
        reason == AdoptionConflict::ProviderMissing ==> reason.text() == "provider_missing"@,
{
}

proof fn lemma_last_of_its_node(observations: Seq<ProviderObservation>, at: int)
    requires
        0 <= at < observations.len(),
        forall|j: int|
            at < j < observations.len() ==> (
            #[trigger] observations[j]).canonical_provider_node_id@
                != observations[at].canonical_provider_node_id@,
    ensures
        lookup(observations, observations[at].canonical_provider_node_id@) == Some(
            observations[at],
        ),
    decreases observations.len(),
{
    let last = observations.len() - 1;
    if at < last {
        assert(observations[last].canonical_provider_node_id@
            != observations[at].canonical_provider_node_id@);
        let fewer = observations.drop_last();
        assert(fewer[at] == observations[at]);
        assert forall|j: int| at < j < fewer.len() implies (
        #[trigger] fewer[j]).canonical_provider_node_id@ != fewer[at].canonical_provider_node_id@ by {
            assert(observations[j] == fewer[j]);
        }
        lemma_last_of_its_node(fewer, at);
    }
}

/// A reconciliation stores every reported node. The stored row of a known node
/// keeps its device, its key and the time at which it was first observed,
/// whatever is reported; a report under other keys leaves the row as a conflict.
pub proof fn law_reconciling_keeps_what_is_known(
    store: &StateStore,
    network_id: &NetworkId,
    import: Option<ReconciliationImportRow>,
    rows: Vec<ObservationRow>,
    pending: &Vec<PendingAction>,
    snapshot: Snapshot,
    snapshot_at: Timestamp,
    log: &mut AuditLog,
    actor: AuditActor,
    result: Result<ReconciliationPlan, ReconciliationFailure>,
    i: int,
    k: int,
)
    requires
        call_ensures(
            StateStore::reconcile_read_only,
            (store, network_id, import, rows, pending, snapshot, snapshot_at, log, actor),
            result,
        ),
        result is Ok,
        0 <= i < snapshot.nodes().len(),
        0 <= k < rows@.len(),
        rows@[k].provider_node_id@ == snapshot.nodes()[i].identity.node_id@,
        forall|j: int|
            k < j < rows@.len() ==> (#[trigger] rows@[j]).provider_node_id@
                != rows@[k].provider_node_id@,
    ensures
        exists|e: int|
            0 <= e < result->Ok_0.effects@.len() && (
            #[trigger] result->Ok_0.effects@[e] matches Effect::Store(record) && {
                &&& record.provider_node_id@ == rows@[k].provider_node_id@
                &&& rows@[k].device_id is None ==> record.device_id is None
                &&& rows@[k].device_id matches Some(stored) ==> stored.parsed is Ok
                    && record.device_id == Some(stored.parsed->Ok_0)
                &&& record.stable_key_fingerprint@ == rows@[k].stable_key_fingerprint@
                &&& instant_of_text(rows@[k].first_observed_at@) == Some(
                    (record.first_observed_at.seconds(), record.first_observed_at.nanoseconds()),
                )
                &&& record.last_observed_at == snapshot_at
                &&& record.snapshot_at == snapshot_at
                &&& snapshot.nodes()[i].identity.stable_key_fingerprint@
                    != rows@[k].stable_key_fingerprint@ ==> record.classification
                    == ObservationClassification::IdentityConflict && rows@[k].node == Ok::<
                    ProviderNode,
                    String,
                >(record.node)
            }),
        result->Ok_0.success.at == snapshot_at,
        result->Ok_0.success.compatibility == snapshot.inspection().compatibility,
        result->Ok_0.success.provider_version == snapshot.inspection().provider_version,
{
    let plan = result->Ok_0;
    let nodes = snapshot.nodes();
    let round = Round {
        network_id: *network_id,
        provider_instance_id: snapshot.instance(),
        snapshot_at,
        actor,
        pending: pending@,
    };
    let inventory = choose|inventory: Seq<ProviderObservation>|
        #![trigger loads_as(rows@, *network_id, inventory)]
        {
            &&& loads_as(rows@, *network_id, inventory)
            &&& do_all(plan.effects@, snapshot_facts(round, inventory, nodes))
            &&& plan.success.compatibility == snapshot.inspection().compatibility
            &&& plan.success.provider_version == snapshot.inspection().provider_version
            &&& plan.success.at == snapshot_at
        };
    let observations = choose|observations: Seq<ProviderObservation>| #[trigger]
        read_as(rows@, *network_id, observations) && gathers(inventory, observations);
    let id = nodes[i].identity.node_id@;
    assert(rows@[k].reads_as(*network_id, observations[k]));
    assert forall|j: int| k < j < observations.len() implies (
    #[trigger] observations[j]).canonical_provider_node_id@
        != observations[k].canonical_provider_node_id@ by {
        assert(rows@[j].reads_as(*network_id, observations[j]));
    }
    lemma_last_of_its_node(observations, k);
    assert(lookup(inventory, id) == lookup(observations, id));
    assert(lookup(inventory, id) == Some(observations[k]));
    law_snapshot_stores_every_reported_node(round, inventory, nodes, i);
    let facts = snapshot_facts(round, inventory, nodes);
    let said = record_of(round, Some(observations[k]), nodes[i]);
    assert(facts.contains(EffectFact::Store(said)));
    let e = choose|e: int| 0 <= e < facts.len() && facts[e] == EffectFact::Store(said);
    assert(plan.effects@[e].does(facts[e]));
    law_effects_do_what_they_say(plan.effects@[e], facts[e]);
}

/// A reconciliation is refused where the network has no read-only import of the
/// provider, and then nothing is recorded; no refusal leaves an event.
pub proof fn law_reconciling_needs_the_import(
    store: &StateStore,
    network_id: &NetworkId,
    import: Option<ReconciliationImportRow>,
    rows: Vec<ObservationRow>,
    pending: &Vec<PendingAction>,
    snapshot: Snapshot,
    snapshot_at: Timestamp,
    log: &mut AuditLog,
    actor: AuditActor,
    result: Result<ReconciliationPlan, ReconciliationFailure>,
)
    requires
        call_ensures(
            StateStore::reconcile_read_only,
            (store, network_id, import, rows, pending, snapshot, snapshot_at, log, actor),
            result,
        ),
    ensures
        result is Err ==> *final(log) == *old(log),
        import is None ==> (result matches Err(failure) && failure@
            == ReconciliationFailureView::State(StateErrorView::NotFound(network_id@))),
        result is Ok ==> (import matches Some(stored) && {
            &&& stored.read_only
            &&& !stored.mutation_allowed
            &&& stored.provider_instance_id.parsed matches Ok(instance) && instance@
                == snapshot.instance()@
            &&& snapshot.inspection().provider_name@ == stored.provider_kind@
            &&& !snapshot.inspection().mutation_allowed
        }),
        rows@.len() == 0 && snapshot.nodes().len() == 0 && result is Ok ==> final(log)@ =~= old(
            log,
        )@,
{
    if rows@.len() == 0 && snapshot.nodes().len() == 0 && result is Ok {
        let plan = result->Ok_0;
        let round = Round {
            network_id: *network_id,
            provider_instance_id: snapshot.instance(),
            snapshot_at,
            actor,
            pending: pending@,
        };
        let inventory = choose|inventory: Seq<ProviderObservation>|
            #![trigger loads_as(rows@, *network_id, inventory)]
            {
                &&& loads_as(rows@, *network_id, inventory)
                &&& final(log)@ == old(log)@ + round_events(
                    *network_id,
                    actor,
                    snapshot_changes(inventory, snapshot.nodes()),
                )
            };
        let observations = choose|observations: Seq<ProviderObservation>| #[trigger]
            read_as(rows@, *network_id, observations) && gathers(inventory, observations);
        if inventory.len() > 0 {
            lemma_lookup_entry(inventory, 0);
            assert(lookup(observations, inventory[0].canonical_provider_node_id@) is None);
            assert(lookup(inventory, inventory[0].canonical_provider_node_id@) is None);
        }
        assert(snapshot_changes(inventory, snapshot.nodes()).len() == 0);
        assert(round_events(
            *network_id,
            actor,
            snapshot_changes(inventory, snapshot.nodes()),
        ) =~= Seq::empty());
    }
}

/// A snapshot is refused for its range exactly if some pending adoption ends at
/// a generation that does not fit the database: of a known node that is stored
/// otherwise than before, or of one that goes missing.
pub proof fn law_adoption_ends_within_the_range(
    round: Round,
    inventory: Seq<ProviderObservation>,
    nodes: Seq<ProviderNode>,
)
    ensures
        has_range_problem(round, inventory, nodes) <==> {
            ||| exists|i: int|
                0 <= i < nodes.len() && (lookup(
                    inventory,
                    (#[trigger] nodes[i]).identity.node_id@,
                ) matches Some(seen) && {
                    let record = record_of(round, Some(seen), nodes[i]);
                    &&& record.semantic_fingerprint != seen.semantic_fingerprint@
                        || record.classification != seen.classification
                    &&& seen.adoption_state == AdoptionState::PendingDeviceCredentialProof
                    &&& first_pending(round.pending, seen.canonical_provider_node_id@) is Some
                    &&& seen.semantic_generation >= 0x7fff_ffff_ffff_ffff
                })
            ||| exists|i: int|
                0 <= i < inventory.len() && {
                    let seen = #[trigger] inventory[i];
                    &&& seen.classification != ObservationClassification::ProviderMissing
                    &&& forall|j: int|
                        0 <= j < nodes.len() ==> (#[trigger] nodes[j]).identity.node_id@
                            != seen.canonical_provider_node_id@
                    &&& seen.adoption_state == AdoptionState::PendingDeviceCredentialProof
                    &&& first_pending(round.pending, seen.canonical_provider_node_id@) is Some
                    &&& seen.semantic_generation >= 0x7fff_ffff_ffff_ffff
                }
        },
{
    assert forall|i: int| 0 <= i < nodes.len() implies node_range_problem(
        round,
        inventory,
        #[trigger] nodes[i],
    ) == (lookup(inventory, nodes[i].identity.node_id@) matches Some(seen) && {
        let record = record_of(round, Some(seen), nodes[i]);
        &&& record.semantic_fingerprint != seen.semantic_fingerprint@ || record.classification
            != seen.classification
        &&& seen.adoption_state == AdoptionState::PendingDeviceCredentialProof
        &&& first_pending(round.pending, seen.canonical_provider_node_id@) is Some
        &&& seen.semantic_generation >= 0x7fff_ffff_ffff_ffff
    }) by {}
    assert forall|i: int| 0 <= i < inventory.len() implies missing_range_problem(
        round,
        nodes,
        #[trigger] inventory[i],
    ) == ({
        let seen = inventory[i];
        &&& seen.classification != ObservationClassification::ProviderMissing
        &&& forall|j: int|
            0 <= j < nodes.len() ==> (#[trigger] nodes[j]).identity.node_id@
                != seen.canonical_provider_node_id@
        &&& seen.adoption_state == AdoptionState::PendingDeviceCredentialProof
        &&& first_pending(round.pending, seen.canonical_provider_node_id@) is Some
        &&& seen.semantic_generation >= 0x7fff_ffff_ffff_ffff
    }) by {}
}

} // verus!
