//! What the effects of a snapshot make of the stored inventory.

use crate::audit::AuditFact;
use crate::inventory::{is_inventory, lemma_lookup, lemma_lookup_entry, lookup};
use crate::names::{AdoptionState, AuditKind, ObservationClassification};
use crate::observation::{is_ordered, semantic_text, ProviderNode, ProviderObservation};
use crate::reconcile::{
    ended_adoption, first_pending, goes_missing, has_range_problem, is_reported, missing_facts,
    missing_range_problem, node_facts, node_range_problem, plan_of, record_of, reported_changes,
    reported_facts, round_events, snapshot_changes, snapshot_facts, unreported_changes,
    unreported_facts, EffectFact, PendingAction, RecordFact, Round,
};
use crate::text::lemma_text_before_irreflexive;
use vstd::prelude::*;

verus! {

/// The observation of a node after its record was stored: in place of the one
/// that was there, or as a new one, which begins with the given generation.
pub open spec fn is_replaced(
    record: RecordFact,
    previous: Option<ProviderObservation>,
    first_generation: u64,
    after: ProviderObservation,
) -> bool {
    &&& after.canonical_provider_node_id@ == record.provider_node_id
    &&& after.device_id == record.device_id
    &&& after.classification == record.classification
    &&& after.semantic_fingerprint@ == record.semantic_fingerprint
    &&& after.node == record.node
    &&& after.last_observed_at == record.last_observed_at
    &&& after.snapshot_at == record.snapshot_at
    &&& match previous {
        Some(seen) => {
            &&& after.network_id == seen.network_id
            &&& after.provider_instance_id == seen.provider_instance_id
            &&& after.stable_machine_key_fingerprint == seen.stable_machine_key_fingerprint
            &&& after.adoption_state == seen.adoption_state
            &&& after.first_observed_at == seen.first_observed_at
            &&& record.semantic_generation matches Some(known) ==> after.semantic_generation
                == known
        },
        None => {
            &&& after.network_id == record.network_id
            &&& after.provider_instance_id == record.provider_instance_id
            &&& after.stable_machine_key_fingerprint@ == record.stable_key_fingerprint
            &&& after.adoption_state == AdoptionState::Unmanaged
            &&& after.first_observed_at == record.first_observed_at
            &&& after.semantic_generation == first_generation
        },
    }
}

/// The observation of a node after a decision ended its pending adoption.
pub open spec fn released(seen: ProviderObservation) -> ProviderObservation {
    ProviderObservation {
        adoption_state: if seen.adoption_state == AdoptionState::PendingDeviceCredentialProof {
            AdoptionState::Unmanaged
        } else {
            seen.adoption_state
        },
        ..seen
    }
}

/// The node that an effect is about.
pub open spec fn effect_node(fact: EffectFact) -> Seq<char> {
    match fact {
        EffectFact::Store(record) => record.provider_node_id,
        EffectFact::Conflict(decision) => decision.provider_node_id,
        EffectFact::Missing { provider_node_id, .. } => provider_node_id,
    }
}

/// The effect takes the inventory from the one to the other: it changes the
/// observation of its node, and no other.
pub open spec fn takes_effect(
    fact: EffectFact,
    before: Seq<ProviderObservation>,
    first_generation: u64,
    after: Seq<ProviderObservation>,
) -> bool {
    let id = effect_node(fact);
    &&& is_inventory(after)
    &&& forall|key: Seq<char>|
        key != id ==> #[trigger] lookup(after, key) == lookup(before, key)
    &&& match fact {
        EffectFact::Store(record) => lookup(after, id) matches Some(now) && is_replaced(
            record,
            lookup(before, id),
            first_generation,
            now,
        ),
        EffectFact::Conflict(decision) => lookup(after, id) == (match lookup(before, id) {
            Some(seen) => Some(released(seen)),
            None => None,
        }),
        EffectFact::Missing {
            provider_instance_id,
            snapshot_at,
            semantic_generation,
            ..
        } => lookup(after, id) == (match lookup(before, id) {
            Some(seen) => if seen.provider_instance_id@ == provider_instance_id@ {
                Some(
                    ProviderObservation {
                        classification: ObservationClassification::ProviderMissing,
                        semantic_generation: match semantic_generation {
                            Some(known) => known,
                            None => (seen.semantic_generation + 1) as u64,
                        },
                        snapshot_at,
                        ..seen
                    },
                )
            } else {
                Some(seen)
            },
            None => None,
        }),
    }
}

/// The effects take the inventory from state to state, one after the other.
#[verifier::opaque]
pub open spec fn carry_out(
    states: Seq<Seq<ProviderObservation>>,
    facts: Seq<EffectFact>,
    first_generation: u64,
) -> bool {
    &&& states.len() == facts.len() + 1
    &&& forall|i: int|
        0 <= i < facts.len() ==> takes_effect(
            #[trigger] facts[i],
            states[i],
            first_generation,
            states[i + 1],
        )
}

/// Effects are carried out in two parts.
proof fn lemma_parts(
    states: Seq<Seq<ProviderObservation>>,
    first: Seq<EffectFact>,
    second: Seq<EffectFact>,
    first_generation: u64,
)
    requires
        carry_out(states, first + second, first_generation),
    ensures
        states.len() == first.len() + second.len() + 1,
        carry_out(states.take(first.len() as int + 1), first, first_generation),
        carry_out(states.skip(first.len() as int), second, first_generation),
        states.take(first.len() as int + 1)[0] == states[0],
        states.take(first.len() as int + 1).last() == states[first.len() as int],
        states.skip(first.len() as int)[0] == states[first.len() as int],
        states.skip(first.len() as int).last() == states.last(),
{
    reveal(carry_out);
    let facts = first + second;
    let middle = first.len() as int;
    let earlier = states.take(middle + 1);
    let later = states.skip(middle);
    assert forall|i: int| 0 <= i < first.len() implies takes_effect(
        #[trigger] first[i],
        earlier[i],
        first_generation,
        earlier[i + 1],
    ) by {
        assert(facts[i] == first[i]);
    }
    assert forall|i: int| 0 <= i < second.len() implies takes_effect(
        #[trigger] second[i],
        later[i],
        first_generation,
        later[i + 1],
    ) by {
        assert(facts[middle + i] == second[i]);
    }
}

/// All observations are those of the provider that the round is about.
pub open spec fn is_of_provider(inventory: Seq<ProviderObservation>, round: Round) -> bool {
    forall|i: int|
        0 <= i < inventory.len() ==> (#[trigger] inventory[i]).provider_instance_id@
            == round.provider_instance_id@
}

/// The adoption of a node after a round: a pending one ends with a change of the
/// observation, and a new observation is unmanaged.
pub open spec fn adoption_after(
    round: Round,
    previous: Option<ProviderObservation>,
    changed: bool,
) -> AdoptionState {
    match previous {
        Some(seen) => if ended_adoption(round, previous, changed) is Some {
            AdoptionState::Unmanaged
        } else {
            seen.adoption_state
        },
        None => AdoptionState::Unmanaged,
    }
}

/// The observation that a reported node leaves behind, where it was observed
/// before or not. A new one begins with the given generation.
pub open spec fn stored_observation(
    round: Round,
    previous: Option<ProviderObservation>,
    node: ProviderNode,
    first_generation: u64,
    after: ProviderObservation,
) -> bool {
    let record = record_of(round, previous, node);
    &&& after.canonical_provider_node_id@ == record.provider_node_id
    &&& after.stable_machine_key_fingerprint@ == record.stable_key_fingerprint
    &&& after.classification == record.classification
    &&& after.adoption_state == adoption_after(round, previous, plan_of(previous, node).changed)
    &&& after.semantic_fingerprint@ == record.semantic_fingerprint
    &&& after.node == record.node
    &&& after.device_id == record.device_id
    &&& after.first_observed_at == record.first_observed_at
    &&& after.last_observed_at == record.last_observed_at
    &&& after.snapshot_at == record.snapshot_at
    &&& match previous {
        Some(seen) => {
            &&& after.network_id == seen.network_id
            &&& after.provider_instance_id == seen.provider_instance_id
            &&& record.semantic_generation matches Some(known) ==> after.semantic_generation
                == known
        },
        None => {
            &&& after.network_id == round.network_id
            &&& after.provider_instance_id == round.provider_instance_id
            &&& after.semantic_generation == first_generation
        },
    }
}

/// The observation of a node that is not reported: it is missing from the round
/// on in which it was first not reported.
pub open spec fn missing_observation(round: Round, seen: ProviderObservation) -> ProviderObservation {
    if seen.classification == ObservationClassification::ProviderMissing {
        seen
    } else {
        ProviderObservation {
            classification: ObservationClassification::ProviderMissing,
            adoption_state: adoption_after(round, Some(seen), true),
            semantic_generation: (seen.semantic_generation + 1) as u64,
            snapshot_at: round.snapshot_at,
            ..seen
        }
    }
}

/// The inventory after a snapshot: each reported node is stored, each other
/// observation that was there is missing, and there are no others.
pub open spec fn is_applied(
    round: Round,
    before: Seq<ProviderObservation>,
    nodes: Seq<ProviderNode>,
    first_generation: u64,
    after: Seq<ProviderObservation>,
) -> bool {
    &&& is_inventory(after)
    &&& forall|i: int|
        0 <= i < nodes.len() ==> (lookup(after, (#[trigger] nodes[i]).identity.node_id@) matches Some(
            stored,
        ) && stored_observation(
            round,
            lookup(before, nodes[i].identity.node_id@),
            nodes[i],
            first_generation,
            stored,
        ))
    &&& forall|key: Seq<char>|
        !is_reported(nodes, key) ==> #[trigger] lookup(after, key) == (match lookup(before, key) {
            Some(seen) => Some(missing_observation(round, seen)),
            None => None,
        })
}

/// One of the first nodes has the given identifier.
spec fn is_among(nodes: Seq<ProviderNode>, count: nat, node_id: Seq<char>) -> bool {
    exists|i: int| 0 <= i < count && (#[trigger] nodes[i]).identity.node_id@ == node_id
}

/// A reported node is stored as it was planned.
#[verifier::opaque]
spec fn is_stored(
    round: Round,
    before: Seq<ProviderObservation>,
    node: ProviderNode,
    first_generation: u64,
    now: Seq<ProviderObservation>,
) -> bool {
    lookup(now, node.identity.node_id@) matches Some(stored) && stored_observation(
        round,
        lookup(before, node.identity.node_id@),
        node,
        first_generation,
        stored,
    )
}

/// A node that is stored stays so where its observation does not change.
proof fn lemma_stays_stored(
    round: Round,
    before: Seq<ProviderObservation>,
    node: ProviderNode,
    first_generation: u64,
    now: Seq<ProviderObservation>,
    later: Seq<ProviderObservation>,
)
    requires
        is_stored(round, before, node, first_generation, now),
        lookup(later, node.identity.node_id@) == lookup(now, node.identity.node_id@),
    ensures
        is_stored(round, before, node, first_generation, later),
{
    reveal(is_stored);
}

/// The first reported nodes are stored, and nothing else has changed.
spec fn are_reported_stored(
    round: Round,
    before: Seq<ProviderObservation>,
    nodes: Seq<ProviderNode>,
    count: nat,
    first_generation: u64,
    now: Seq<ProviderObservation>,
) -> bool {
    &&& is_inventory(now)
    &&& forall|i: int|
        0 <= i < count ==> is_stored(round, before, #[trigger] nodes[i], first_generation, now)
    &&& forall|key: Seq<char>|
        !is_among(nodes, count, key) ==> #[trigger] lookup(now, key) == lookup(before, key)
}

proof fn lemma_first_pending(pending: Seq<PendingAction>, node_id: Seq<char>)
    ensures
        first_pending(pending, node_id) matches Some(action) ==> action.provider_node_id@ == node_id,
    decreases pending.len(),
{
    if pending.len() > 0 && pending[0].provider_node_id@ != node_id {
        lemma_first_pending(pending.drop_first(), node_id);
    }
}

/// The effects about one reported node store it, and change nothing else.
proof fn lemma_node_stored(
    round: Round,
    before: Seq<ProviderObservation>,
    node: ProviderNode,
    first_generation: u64,
    states: Seq<Seq<ProviderObservation>>,
)
    requires
        carry_out(
            states,
            node_facts(round, lookup(before, node.identity.node_id@), node),
            first_generation,
        ),
        lookup(states[0], node.identity.node_id@) == lookup(before, node.identity.node_id@),
    ensures
        is_inventory(states.last()),
        forall|key: Seq<char>|
            key != node.identity.node_id@ ==> #[trigger] lookup(states.last(), key) == lookup(
                states[0],
                key,
            ),
        is_stored(round, before, node, first_generation, states.last()),
{
    reveal(carry_out);
    reveal(is_stored);
    let id = node.identity.node_id@;
    let previous = lookup(before, id);
    let facts = node_facts(round, previous, node);
    lemma_lookup(before, id);
    assert(facts[0] == EffectFact::Store(record_of(round, previous, node)));
    assert(takes_effect(facts[0], states[0], first_generation, states[1]));
    if facts.len() > 1 {
        lemma_first_pending(round.pending, previous->Some_0.canonical_provider_node_id@);
        assert(takes_effect(facts[1], states[1], first_generation, states[2]));
        assert(effect_node(facts[1]) == id);
    }
}

/// The effects about the reported nodes store them, and change nothing else.
proof fn lemma_reported_stored(
    round: Round,
    before: Seq<ProviderObservation>,
    nodes: Seq<ProviderNode>,
    count: nat,
    first_generation: u64,
    states: Seq<Seq<ProviderObservation>>,
)
    requires
        is_inventory(before),
        is_ordered(nodes),
        count <= nodes.len(),
        states.len() > 0,
        states[0] == before,
        carry_out(states, reported_facts(round, before, nodes, count), first_generation),
    ensures
        are_reported_stored(round, before, nodes, count, first_generation, states.last()),
    decreases count,
{
    if count > 0 {
        let less = (count - 1) as nat;
        let node = nodes[count - 1];
        let id = node.identity.node_id@;
        let first = reported_facts(round, before, nodes, less);
        let facts = reported_facts(round, before, nodes, count);
        let some = node_facts(round, lookup(before, id), node);
        let middle = first.len() as int;
        let earlier = states.take(middle + 1);
        let later = states.skip(middle);
        assert(facts == first + some);
        lemma_parts(states, first, some, first_generation);
        lemma_reported_stored(round, before, nodes, less, first_generation, earlier);
        if is_among(nodes, less, id) {
            let k = choose|k: int|
                0 <= k < less && (#[trigger] nodes[k]).identity.node_id@ == id;
            lemma_text_before_irreflexive(id);
            assert(nodes[count - 1] == node);
        }
        assert(later[0] == earlier.last());
        lemma_node_stored(round, before, node, first_generation, later);
        let now = states.last();
        assert(later.last() == now);
        assert forall|i: int| 0 <= i < count implies is_stored(
            round,
            before,
            #[trigger] nodes[i],
            first_generation,
            now,
        ) by {
            if i < less {
                if nodes[i].identity.node_id@ == id {
                    assert(is_among(nodes, less, id));
                }
                lemma_stays_stored(
                    round,
                    before,
                    nodes[i],
                    first_generation,
                    earlier.last(),
                    now,
                );
            }
        }
        assert forall|key: Seq<char>| !is_among(nodes, count, key) implies #[trigger] lookup(
            now,
            key,
        ) == lookup(before, key) by {
            if is_among(nodes, less, key) {
                let k = choose|k: int|
                    0 <= k < less && (#[trigger] nodes[k]).identity.node_id@ == key;
                assert(nodes[k].identity.node_id@ == key);
            }
            assert(nodes[count - 1].identity.node_id@ == id);
            assert(key != id);
            assert(lookup(now, key) == lookup(earlier.last(), key));
        }
    } else {
        reveal(carry_out);
        assert(states.last() == states[0]);
    }
}

/// One of the first observations is of the node with the given identifier.
spec fn is_entry(inventory: Seq<ProviderObservation>, count: nat, node_id: Seq<char>) -> bool {
    exists|i: int|
        0 <= i < count && (#[trigger] inventory[i]).canonical_provider_node_id@ == node_id
}

/// The first observations whose nodes are not reported are missing, and nothing
/// else has changed since the reported nodes were stored.
spec fn are_unreported_missing(
    round: Round,
    before: Seq<ProviderObservation>,
    nodes: Seq<ProviderNode>,
    count: nat,
    start: Seq<ProviderObservation>,
    now: Seq<ProviderObservation>,
) -> bool {
    &&& is_inventory(now)
    &&& forall|i: int|
        0 <= i < count && !is_reported(
            nodes,
            (#[trigger] before[i]).canonical_provider_node_id@,
        ) ==> lookup(now, before[i].canonical_provider_node_id@) == Some(
            missing_observation(round, before[i]),
        )
    &&& forall|key: Seq<char>|
        !is_entry(before, count, key) || is_reported(nodes, key) ==> #[trigger] lookup(now, key)
            == lookup(start, key)
}

/// The effects about one observation whose node is not reported.
proof fn lemma_made_missing(
    round: Round,
    nodes: Seq<ProviderNode>,
    seen: ProviderObservation,
    first_generation: u64,
    states: Seq<Seq<ProviderObservation>>,
)
    requires
        carry_out(states, missing_facts(round, nodes, seen), first_generation),
        is_inventory(states[0]),
        seen.provider_instance_id@ == round.provider_instance_id@,
        !is_reported(nodes, seen.canonical_provider_node_id@) ==> lookup(
            states[0],
            seen.canonical_provider_node_id@,
        ) == Some(seen),
    ensures
        is_inventory(states.last()),
        forall|key: Seq<char>|
            key != seen.canonical_provider_node_id@ || is_reported(nodes, key)
                ==> #[trigger] lookup(states.last(), key) == lookup(states[0], key),
        !is_reported(nodes, seen.canonical_provider_node_id@) ==> lookup(
            states.last(),
            seen.canonical_provider_node_id@,
        ) == Some(missing_observation(round, seen)),
{
    reveal(carry_out);
    let id = seen.canonical_provider_node_id@;
    let facts = missing_facts(round, nodes, seen);
    if goes_missing(nodes, seen) {
        assert(takes_effect(facts[0], states[0], first_generation, states[1]));
        assert(effect_node(facts[0]) == id);
        if facts.len() > 1 {
            lemma_first_pending(round.pending, id);
            assert(takes_effect(facts[1], states[1], first_generation, states[2]));
            assert(effect_node(facts[1]) == id);
        }
    }
}

/// The effects about the observations whose nodes are not reported make them
/// missing.
proof fn lemma_unreported_missing(
    round: Round,
    before: Seq<ProviderObservation>,
    nodes: Seq<ProviderNode>,
    count: nat,
    first_generation: u64,
    states: Seq<Seq<ProviderObservation>>,
)
    requires
        is_inventory(before),
        is_of_provider(before, round),
        count <= before.len(),
        states.len() > 0,
        is_inventory(states[0]),
        forall|key: Seq<char>|
            !is_reported(nodes, key) ==> #[trigger] lookup(states[0], key) == lookup(before, key),
        carry_out(states, unreported_facts(round, before, nodes, count), first_generation),
    ensures
        are_unreported_missing(round, before, nodes, count, states[0], states.last()),
    decreases count,
{
    if count > 0 {
        let less = (count - 1) as nat;
        let seen = before[count - 1];
        let id = seen.canonical_provider_node_id@;
        let first = unreported_facts(round, before, nodes, less);
        let facts = unreported_facts(round, before, nodes, count);
        let some = missing_facts(round, nodes, seen);
        let middle = first.len() as int;
        let earlier = states.take(middle + 1);
        let later = states.skip(middle);
        assert(facts == first + some);
        lemma_parts(states, first, some, first_generation);
        lemma_unreported_missing(round, before, nodes, less, first_generation, earlier);
        assert(later[0] == earlier.last());
        lemma_lookup_entry(before, count - 1);
        if is_entry(before, less, id) {
            let k = choose|k: int|
                0 <= k < less && (#[trigger] before[k]).canonical_provider_node_id@ == id;
            lemma_text_before_irreflexive(id);
            assert(before[count - 1] == seen);
            assert(before[k].canonical_provider_node_id@ == id);
        }
        lemma_made_missing(round, nodes, seen, first_generation, later);
        let now = states.last();
        assert(later.last() == now);
        assert forall|i: int|
            0 <= i < count && !is_reported(
                nodes,
                (#[trigger] before[i]).canonical_provider_node_id@,
            ) implies lookup(now, before[i].canonical_provider_node_id@) == Some(
            missing_observation(round, before[i]),
        ) by {
            if i < less {
                if before[i].canonical_provider_node_id@ == id {
                    assert(is_entry(before, less, id));
                }
                assert(lookup(now, before[i].canonical_provider_node_id@) == lookup(
                    earlier.last(),
                    before[i].canonical_provider_node_id@,
                ));
            }
        }
        assert forall|key: Seq<char>|
            !is_entry(before, count, key) || is_reported(nodes, key) implies #[trigger] lookup(
            now,
            key,
        ) == lookup(states[0], key) by {
            if !is_reported(nodes, key) {
                assert(before[count - 1].canonical_provider_node_id@ != key);
                if is_entry(before, less, key) {
                    let k = choose|k: int|
                        0 <= k < less && (#[trigger] before[k]).canonical_provider_node_id@ == key;
                    assert(before[k].canonical_provider_node_id@ == key);
                }
            }
            assert(lookup(now, key) == lookup(earlier.last(), key));
        }
    } else {
        reveal(carry_out);
        assert(states.last() == states[0]);
    }
}

/// The effects of a snapshot, carried out one after the other, make the stored
/// inventory that of the snapshot: every reported node is stored as it was
/// planned, and every other observation is missing.
pub proof fn law_effects_apply_the_snapshot(
    round: Round,
    nodes: Seq<ProviderNode>,
    first_generation: u64,
    states: Seq<Seq<ProviderObservation>>,
)
    requires
        states.len() > 0,
        is_inventory(states[0]),
        is_of_provider(states[0], round),
        is_ordered(nodes),
        carry_out(states, snapshot_facts(round, states[0], nodes), first_generation),
    ensures
        is_applied(round, states[0], nodes, first_generation, states.last()),
{
    let before = states[0];
    let first = reported_facts(round, before, nodes, nodes.len());
    let second = unreported_facts(round, before, nodes, before.len());
    let facts = snapshot_facts(round, before, nodes);
    let middle = first.len() as int;
    let earlier = states.take(middle + 1);
    let later = states.skip(middle);
    assert(facts == first + second);
    lemma_parts(states, first, second, first_generation);
    lemma_reported_stored(round, before, nodes, nodes.len(), first_generation, earlier);
    let start = earlier.last();
    assert(later[0] == start);
    assert forall|key: Seq<char>| !is_reported(nodes, key) implies #[trigger] lookup(start, key)
        == lookup(before, key) by {
        assert(!is_among(nodes, nodes.len(), key));
    }
    lemma_unreported_missing(round, before, nodes, before.len(), first_generation, later);
    let after = states.last();
    assert(later.last() == after);
    assert forall|i: int| 0 <= i < nodes.len() implies (lookup(
        after,
        (#[trigger] nodes[i]).identity.node_id@,
    ) matches Some(stored) && stored_observation(
        round,
        lookup(before, nodes[i].identity.node_id@),
        nodes[i],
        first_generation,
        stored,
    )) by {
        assert(is_reported(nodes, nodes[i].identity.node_id@));
        lemma_stays_stored(round, before, nodes[i], first_generation, start, after);
        reveal(is_stored);
    }
    assert forall|key: Seq<char>| !is_reported(nodes, key) implies #[trigger] lookup(after, key)
        == (match lookup(before, key) {
        Some(seen) => Some(missing_observation(round, seen)),
        None => None,
    }) by {
        lemma_lookup(before, key);
        if lookup(before, key) is None {
            assert(!is_entry(before, before.len(), key));
            assert(lookup(after, key) == lookup(start, key));
        } else {
            let k = choose|k: int|
                0 <= k < before.len() && before[k] == lookup(before, key)->Some_0;
            assert(before[k].canonical_provider_node_id@ == key);
        }
    }
}

/// Both nodes are the same but for the time of the report.
pub open spec fn is_same_report(left: ProviderNode, right: ProviderNode) -> bool {
    &&& left.identity.provider_instance_id@ == right.identity.provider_instance_id@
    &&& left.identity.node_id@ == right.identity.node_id@
    &&& left.identity.stable_key_fingerprint@ == right.identity.stable_key_fingerprint@
    &&& left.machine_key@ == right.machine_key@
    &&& left.expired == right.expired
    &&& left.timeless_json@ == right.timeless_json@
}

/// The node is among the reported ones, but for the time of the report.
pub open spec fn is_reported_alike(nodes: Seq<ProviderNode>, node: ProviderNode) -> bool {
    exists|i: int| 0 <= i < nodes.len() && is_same_report(#[trigger] nodes[i], node)
}

/// The same nodes are reported, in whatever order, but for the times of the
/// reports.
pub open spec fn reports_again(nodes: Seq<ProviderNode>, again: Seq<ProviderNode>) -> bool {
    &&& forall|i: int| 0 <= i < again.len() ==> is_reported_alike(nodes, #[trigger] again[i])
    &&& forall|i: int| 0 <= i < nodes.len() ==> is_reported_alike(again, #[trigger] nodes[i])
}

/// Nodes that are reported again have the same identifiers.
proof fn lemma_same_identifiers(
    nodes: Seq<ProviderNode>,
    again: Seq<ProviderNode>,
    node_id: Seq<char>,
)
    requires
        reports_again(nodes, again),
    ensures
        is_reported(again, node_id) == is_reported(nodes, node_id),
{
    if is_reported(again, node_id) {
        let i = choose|i: int|
            0 <= i < again.len() && (#[trigger] again[i]).identity.node_id@ == node_id;
        let j = choose|j: int| 0 <= j < nodes.len() && is_same_report(#[trigger] nodes[j], again[i]);
        assert(nodes[j].identity.node_id@ == node_id);
    }
    if is_reported(nodes, node_id) {
        let i = choose|i: int|
            0 <= i < nodes.len() && (#[trigger] nodes[i]).identity.node_id@ == node_id;
        let j = choose|j: int| 0 <= j < again.len() && is_same_report(#[trigger] again[j], nodes[i]);
        assert(again[j].identity.node_id@ == node_id);
    }
}

/// A node that is reported again is known, and its observation does not change.
proof fn lemma_report_again(
    round: Round,
    before: Seq<ProviderObservation>,
    nodes: Seq<ProviderNode>,
    first_generation: u64,
    after: Seq<ProviderObservation>,
    again: Seq<ProviderNode>,
    at: int,
)
    requires
        is_applied(round, before, nodes, first_generation, after),
        reports_again(nodes, again),
        0 <= at < again.len(),
    ensures
        lookup(after, again[at].identity.node_id@) is Some,
        ({
            let stored = lookup(after, again[at].identity.node_id@);
            let plan = plan_of(stored, again[at]);
            &&& !plan.changed
            &&& plan.classification == stored->Some_0.classification
            &&& plan.fingerprint == stored->Some_0.semantic_fingerprint@
        }),
{
    let j = choose|j: int| 0 <= j < nodes.len() && is_same_report(#[trigger] nodes[j], again[at]);
    let previous = lookup(before, nodes[j].identity.node_id@);
    let stored = lookup(after, nodes[j].identity.node_id@)->Some_0;
    assert(stored_observation(round, previous, nodes[j], first_generation, stored));
    assert(semantic_text(nodes[j]) == semantic_text(again[at]));
}

/// A snapshot that is applied once more changes nothing and is not audited: a
/// repeated report of the same nodes, in whatever order and with later times of
/// the reports, leaves no trace but its time. It is never refused for a
/// generation that is out of range.
pub proof fn law_repeated_snapshot_changes_nothing(
    round: Round,
    nodes: Seq<ProviderNode>,
    first_generation: u64,
    states: Seq<Seq<ProviderObservation>>,
    next: Round,
    again: Seq<ProviderNode>,
)
    requires
        states.len() > 0,
        is_inventory(states[0]),
        is_of_provider(states[0], round),
        is_ordered(nodes),
        carry_out(states, snapshot_facts(round, states[0], nodes), first_generation),
        reports_again(nodes, again),
    ensures
        snapshot_changes(states.last(), again) == Seq::<AuditKind>::empty(),
        round_events(next.network_id, next.actor, snapshot_changes(states.last(), again)) == Seq::<
            AuditFact,
        >::empty(),
        !has_range_problem(next, states.last(), again),
{
    let before = states[0];
    let after = states.last();
    law_effects_apply_the_snapshot(round, nodes, first_generation, states);
    lemma_nothing_reported_changes(
        round,
        before,
        nodes,
        first_generation,
        after,
        again,
        again.len(),
    );
    lemma_nothing_unreported_changes(
        round,
        before,
        nodes,
        first_generation,
        after,
        again,
        after.len(),
    );
    assert(snapshot_changes(after, again) =~= Seq::<AuditKind>::empty());
    assert forall|i: int| 0 <= i < again.len() implies !node_range_problem(
        next,
        after,
        #[trigger] again[i],
    ) by {
        lemma_report_again(round, before, nodes, first_generation, after, again, i);
    }
    assert forall|i: int| 0 <= i < after.len() implies !missing_range_problem(
        next,
        again,
        #[trigger] after[i],
    ) by {
        lemma_stays_missing(round, before, nodes, first_generation, after, again, i);
    }
}

/// The observation is what it was but for the node as it was last reported and
/// the times of the last report and of the last snapshot.
pub open spec fn is_kept(was: ProviderObservation, now: ProviderObservation) -> bool {
    &&& now.network_id == was.network_id
    &&& now.device_id == was.device_id
    &&& now.provider_instance_id == was.provider_instance_id
    &&& now.canonical_provider_node_id@ == was.canonical_provider_node_id@
    &&& now.stable_machine_key_fingerprint@ == was.stable_machine_key_fingerprint@
    &&& now.classification == was.classification
    &&& now.adoption_state == was.adoption_state
    &&& now.semantic_fingerprint@ == was.semantic_fingerprint@
    &&& now.semantic_generation == was.semantic_generation
    &&& now.first_observed_at == was.first_observed_at
}

/// A snapshot that is applied once more keeps the inventory: every observation
/// keeps its classification, adoption, fingerprint, generation, device and first
/// time. Those of the reported nodes get the new time, the others stay as they
/// are.
pub proof fn law_repeated_snapshot_keeps_the_inventory(
    round: Round,
    nodes: Seq<ProviderNode>,
    first_generation: u64,
    states: Seq<Seq<ProviderObservation>>,
    next: Round,
    again: Seq<ProviderNode>,
    later: Seq<Seq<ProviderObservation>>,
    node_id: Seq<char>,
)
    requires
        states.len() > 0,
        is_inventory(states[0]),
        is_of_provider(states[0], round),
        is_ordered(nodes),
        carry_out(states, snapshot_facts(round, states[0], nodes), first_generation),
        next.provider_instance_id@ == round.provider_instance_id@,
        is_ordered(again),
        reports_again(nodes, again),
        later.len() > 0,
        later[0] == states.last(),
        carry_out(later, snapshot_facts(next, later[0], again), first_generation),
    ensures
        match lookup(later[0], node_id) {
            None => lookup(later.last(), node_id) is None,
            Some(was) => lookup(later.last(), node_id) matches Some(now) && {
                &&& is_kept(was, now)
                &&& is_reported(again, node_id) ==> now.last_observed_at == next.snapshot_at
                    && now.snapshot_at == next.snapshot_at
                &&& !is_reported(again, node_id) ==> now == was
            },
        },
{
    let before = states[0];
    let after = states.last();
    law_effects_apply_the_snapshot(round, nodes, first_generation, states);
    lemma_still_of_provider(round, before, nodes, first_generation, after);
    law_effects_apply_the_snapshot(next, again, first_generation, later);
    if is_reported(again, node_id) {
        let i = choose|i: int|
            0 <= i < again.len() && (#[trigger] again[i]).identity.node_id@ == node_id;
        lemma_report_again(round, before, nodes, first_generation, after, again, i);
        lemma_reported_is_kept(next, after, again, first_generation, later.last(), i);
    } else {
        lemma_missing_is_kept(
            round,
            before,
            nodes,
            next,
            again,
            first_generation,
            after,
            later.last(),
            node_id,
        );
    }
}

/// The observation of a node that did not change is kept.
proof fn lemma_reported_is_kept(
    round: Round,
    before: Seq<ProviderObservation>,
    nodes: Seq<ProviderNode>,
    first_generation: u64,
    after: Seq<ProviderObservation>,
    at: int,
)
    requires
        is_of_provider(before, round),
        is_applied(round, before, nodes, first_generation, after),
        0 <= at < nodes.len(),
        lookup(before, nodes[at].identity.node_id@) is Some,
        ({
            let stored = lookup(before, nodes[at].identity.node_id@);
            let plan = plan_of(stored, nodes[at]);
            &&& !plan.changed
            &&& plan.classification == stored->Some_0.classification
            &&& plan.fingerprint == stored->Some_0.semantic_fingerprint@
        }),
    ensures
        lookup(after, nodes[at].identity.node_id@) matches Some(now) && {
            &&& is_kept(lookup(before, nodes[at].identity.node_id@)->Some_0, now)
            &&& now.last_observed_at == round.snapshot_at
            &&& now.snapshot_at == round.snapshot_at
        },
{
    let key = nodes[at].identity.node_id@;
    lemma_lookup(before, key);
    let was = lookup(before, key)->Some_0;
    let k = choose|k: int| 0 <= k < before.len() && before[k] == was;
    assert(before[k].provider_instance_id@ == round.provider_instance_id@);
    lemma_unchanged_is_kept(round, was, nodes[at], first_generation, lookup(after, key)->Some_0);
}

/// An observation whose node is not reported again stays as it is.
proof fn lemma_missing_is_kept(
    round: Round,
    before: Seq<ProviderObservation>,
    nodes: Seq<ProviderNode>,
    next: Round,
    again: Seq<ProviderNode>,
    first_generation: u64,
    after: Seq<ProviderObservation>,
    last: Seq<ProviderObservation>,
    node_id: Seq<char>,
)
    requires
        is_applied(round, before, nodes, first_generation, after),
        reports_again(nodes, again),
        is_applied(next, after, again, first_generation, last),
        !is_reported(again, node_id),
    ensures
        lookup(last, node_id) == lookup(after, node_id),
{
    lemma_same_identifiers(nodes, again, node_id);
}

/// The observation of a node that did not change is kept.
proof fn lemma_unchanged_is_kept(
    round: Round,
    was: ProviderObservation,
    node: ProviderNode,
    first_generation: u64,
    now: ProviderObservation,
)
    requires
        was.canonical_provider_node_id@ == node.identity.node_id@,
        was.provider_instance_id@ == round.provider_instance_id@,
        !plan_of(Some(was), node).changed,
        plan_of(Some(was), node).classification == was.classification,
        plan_of(Some(was), node).fingerprint == was.semantic_fingerprint@,
        stored_observation(round, Some(was), node, first_generation, now),
    ensures
        is_kept(was, now),
        now.last_observed_at == round.snapshot_at,
        now.snapshot_at == round.snapshot_at,
{
}

/// After a round all observations are still those of its provider.
proof fn lemma_still_of_provider(
    round: Round,
    before: Seq<ProviderObservation>,
    nodes: Seq<ProviderNode>,
    first_generation: u64,
    after: Seq<ProviderObservation>,
)
    requires
        is_of_provider(before, round),
        is_applied(round, before, nodes, first_generation, after),
    ensures
        is_of_provider(after, round),
{
    assert forall|i: int| 0 <= i < after.len() implies (#[trigger] after[i]).provider_instance_id@
        == round.provider_instance_id@ by {
        let key = after[i].canonical_provider_node_id@;
        lemma_lookup_entry(after, i);
        lemma_lookup(before, key);
        if lookup(before, key) is Some {
            let k = choose|k: int|
                0 <= k < before.len() && before[k] == lookup(before, key)->Some_0;
            assert(before[k].provider_instance_id@ == round.provider_instance_id@);
        }
        if is_reported(nodes, key) {
            let j = choose|j: int|
                0 <= j < nodes.len() && (#[trigger] nodes[j]).identity.node_id@ == key;
            assert(stored_observation(
                round,
                lookup(before, key),
                nodes[j],
                first_generation,
                after[i],
            ));
        }
    }
}

/// An observation whose node is not reported again is missing already.
proof fn lemma_stays_missing(
    round: Round,
    before: Seq<ProviderObservation>,
    nodes: Seq<ProviderNode>,
    first_generation: u64,
    after: Seq<ProviderObservation>,
    again: Seq<ProviderNode>,
    at: int,
)
    requires
        is_applied(round, before, nodes, first_generation, after),
        reports_again(nodes, again),
        0 <= at < after.len(),
    ensures
        !goes_missing(again, after[at]),
{
    let key = after[at].canonical_provider_node_id@;
    lemma_same_identifiers(nodes, again, key);
    lemma_lookup_entry(after, at);
}

proof fn lemma_nothing_reported_changes(
    round: Round,
    before: Seq<ProviderObservation>,
    nodes: Seq<ProviderNode>,
    first_generation: u64,
    after: Seq<ProviderObservation>,
    again: Seq<ProviderNode>,
    count: nat,
)
    requires
        is_applied(round, before, nodes, first_generation, after),
        reports_again(nodes, again),
        count <= again.len(),
    ensures
        reported_changes(after, again, count) == Seq::<AuditKind>::empty(),
    decreases count,
{
    if count > 0 {
        let less = (count - 1) as nat;
        lemma_nothing_reported_changes(round, before, nodes, first_generation, after, again, less);
        lemma_report_again(round, before, nodes, first_generation, after, again, count - 1);
    }
}

proof fn lemma_nothing_unreported_changes(
    round: Round,
    before: Seq<ProviderObservation>,
    nodes: Seq<ProviderNode>,
    first_generation: u64,
    after: Seq<ProviderObservation>,
    again: Seq<ProviderNode>,
    count: nat,
)
    requires
        is_applied(round, before, nodes, first_generation, after),
        reports_again(nodes, again),
        count <= after.len(),
    ensures
        unreported_changes(after, again, count) == Seq::<AuditKind>::empty(),
    decreases count,
{
    if count > 0 {
        let less = (count - 1) as nat;
        lemma_nothing_unreported_changes(
            round,
            before,
            nodes,
            first_generation,
            after,
            again,
            less,
        );
        lemma_stays_missing(round, before, nodes, first_generation, after, again, count - 1);
    }
}

} // verus!
