//! The inventory of observations: reading the stored rows, and reading it page
//! by page.

use crate::error::{accepted, conflict, decoded, StateError, StateErrorView};
use crate::ids::{parse_problem, DeviceId, NetworkId, ProviderInstanceId, Stored};
use crate::names::{
    law_adoption_state_names_distinct, law_observation_classification_names_distinct,
    parse_adoption_state, parse_classification, AdoptionState, ObservationClassification,
};
use crate::observation::{
    find_key, is_ascending, lemma_insert_ascending, position, semantic_fingerprint, semantic_text,
    ProviderNode, ProviderObservation,
};
use crate::paging::{cursor_text, page_of, select_page, Keyed};
use crate::rules::{is_fingerprint, valid_sha256_fingerprint};
use crate::text::{lemma_text_before_irreflexive, same_text, text_before};
use crate::time::{instant_of_text, lemma_same_instant, Timestamp};
use vstd::prelude::*;

verus! {

/// The largest number of observations that one page holds.
pub const PROVIDER_OBSERVATION_PAGE_MAX: usize = 100;

/// A stored observation, with what reading its identifiers and its JSON gave.
#[derive(Debug, PartialEq, Eq)]
pub struct ObservationRow {
    pub device_id: Option<Stored<DeviceId>>,
    pub provider_instance_id: Stored<ProviderInstanceId>,
    pub provider_node_id: String,
    pub stable_key_fingerprint: String,
    pub classification: String,
    pub adoption_state: String,
    pub semantic_fingerprint: String,
    pub semantic_generation: u64,
    pub node: Result<ProviderNode, String>,
    pub first_observed_at: String,
    pub last_observed_at: String,
    pub snapshot_at: String,
}

/// The instant is the one that the text names.
pub open spec fn is_time_of(instant: Timestamp, text: Seq<char>) -> bool {
    instant_of_text(text) == Some((instant.seconds(), instant.nanoseconds()))
}

impl Keyed for ObservationRow {
    open spec fn key(&self) -> Seq<char> {
        self.provider_node_id@
    }

    fn key_text(&self) -> (text: &str) {
        self.provider_node_id.as_str()
    }
}

impl ObservationRow {
    /// Why the stored observation cannot be read, if it cannot.
    pub open spec fn problem(self) -> Option<StateErrorView> {
        if self.device_id matches Some(device) && parse_problem(device) is Some {
            parse_problem(self.device_id->Some_0)
        } else if parse_problem(self.provider_instance_id) is Some {
            parse_problem(self.provider_instance_id)
        } else if self.node is Err {
            Some(StateErrorView::Serialization(self.node->Err_0@))
        } else if instant_of_text(self.first_observed_at@) is None || instant_of_text(
            self.last_observed_at@,
        ) is None || instant_of_text(self.snapshot_at@) is None {
            Some(StateErrorView::Conflict("invalid observation timestamp"@))
        } else if forall|known: ObservationClassification| #[trigger] known.text()
            != self.classification@ {
            Some(StateErrorView::Conflict("unknown provider observation classification"@))
        } else if forall|known: AdoptionState| #[trigger] known.text() != self.adoption_state@ {
            Some(StateErrorView::Conflict("unknown provider observation adoption state"@))
        } else {
            None
        }
    }

    /// The observation is what the stored one is read as.
    pub open spec fn reads_as(self, network_id: NetworkId, observation: ProviderObservation) -> bool {
        &&& observation.network_id == network_id
        &&& match self.device_id {
            Some(device) => device.parsed matches Ok(id) && observation.device_id == Some(id),
            None => observation.device_id is None,
        }
        &&& self.provider_instance_id.parsed == Ok::<ProviderInstanceId, String>(
            observation.provider_instance_id,
        )
        &&& observation.canonical_provider_node_id == self.provider_node_id
        &&& observation.stable_machine_key_fingerprint == self.stable_key_fingerprint
        &&& self.node == Ok::<ProviderNode, String>(observation.node)
        &&& observation.classification.text() == self.classification@
        &&& observation.adoption_state.text() == self.adoption_state@
        &&& observation.semantic_fingerprint == self.semantic_fingerprint
        &&& observation.semantic_generation == self.semantic_generation
        &&& is_time_of(observation.first_observed_at, self.first_observed_at@)
        &&& is_time_of(observation.last_observed_at, self.last_observed_at@)
        &&& is_time_of(observation.snapshot_at, self.snapshot_at@)
    }
}

fn observation_time(text: &str) -> (result: Result<Timestamp, StateError>)
    ensures
        match result {
            Ok(instant) => is_time_of(instant, text@),
            Err(error) => instant_of_text(text@) is None && error@ == StateErrorView::Conflict(
                "invalid observation timestamp"@,
            ),
        },
{
    match Timestamp::parse(text) {
        Some(instant) => Ok(instant),
        None => Err(conflict("invalid observation timestamp")),
    }
}

/// Reads a stored observation.
pub fn decode_observation(network_id: NetworkId, row: ObservationRow) -> (result: Result<
    ProviderObservation,
    StateError,
>)
    ensures
        match result {
            Ok(observation) => row.problem() is None && row.reads_as(network_id, observation),
            Err(error) => row.problem() == Some(error@),
        },
{
    let device_id = match row.device_id {
        Some(device) => match accepted(device.parsed) {
            Ok(id) => Some(id),
            Err(error) => return Err(error),
        },
        None => None,
    };
    let provider_instance_id = accepted(row.provider_instance_id.parsed)?;
    let node = decoded(row.node)?;
    let first_observed_at = observation_time(row.first_observed_at.as_str())?;
    let last_observed_at = observation_time(row.last_observed_at.as_str())?;
    let snapshot_at = observation_time(row.snapshot_at.as_str())?;
    let classification = parse_classification(row.classification.as_str())?;
    let adoption_state = parse_adoption_state(row.adoption_state.as_str())?;
    Ok(
        ProviderObservation {
            network_id,
            device_id,
            provider_instance_id,
            canonical_provider_node_id: row.provider_node_id,
            stable_machine_key_fingerprint: row.stable_key_fingerprint,
            node,
            classification,
            adoption_state,
            semantic_fingerprint: row.semantic_fingerprint,
            semantic_generation: row.semantic_generation,
            first_observed_at,
            last_observed_at,
            snapshot_at,
        },
    )
}

/// A stored observation is read as one observation only.
pub proof fn law_stored_observation_is_read_one_way(
    row: ObservationRow,
    network_id: NetworkId,
    left: ProviderObservation,
    right: ProviderObservation,
)
    requires
        row.reads_as(network_id, left),
        row.reads_as(network_id, right),
    ensures
        left == right,
{
    law_observation_classification_names_distinct(left.classification, right.classification);
    law_adoption_state_names_distinct(left.adoption_state, right.adoption_state);
    lemma_same_instant(left.first_observed_at, right.first_observed_at);
    lemma_same_instant(left.last_observed_at, right.last_observed_at);
    lemma_same_instant(left.snapshot_at, right.snapshot_at);
}

/// The first of the stored observations that cannot be read, and why.
pub open spec fn first_row_problem(rows: Seq<ObservationRow>) -> Option<StateErrorView>
    decreases rows.len(),
{
    if rows.len() == 0 {
        None
    } else if first_row_problem(rows.drop_last()) is Some {
        first_row_problem(rows.drop_last())
    } else {
        rows.last().problem()
    }
}

/// The observations are what the stored ones are read as, one by one.
pub open spec fn read_as(
    rows: Seq<ObservationRow>,
    network_id: NetworkId,
    observations: Seq<ProviderObservation>,
) -> bool {
    &&& rows.len() == observations.len()
    &&& forall|i: int|
        0 <= i < rows.len() ==> (#[trigger] rows[i]).reads_as(network_id, observations[i])
}

/// Observations in the order of their node identifiers, each identifier once.
pub open spec fn is_inventory(observations: Seq<ProviderObservation>) -> bool {
    forall|i: int, j: int|
        0 <= i < j < observations.len() ==> text_before(
            (#[trigger] observations[i]).canonical_provider_node_id@,
            (#[trigger] observations[j]).canonical_provider_node_id@,
        )
}

/// The observation of a node, if there is one.
pub open spec fn lookup(observations: Seq<ProviderObservation>, node_id: Seq<char>) -> Option<
    ProviderObservation,
>
    decreases observations.len(),
{
    if observations.len() == 0 {
        None
    } else if observations.last().canonical_provider_node_id@ == node_id {
        Some(observations.last())
    } else {
        lookup(observations.drop_last(), node_id)
    }
}

/// The lookup finds what stands in the sequence, and only that.
pub proof fn lemma_lookup(observations: Seq<ProviderObservation>, node_id: Seq<char>)
    ensures
        match lookup(observations, node_id) {
            Some(observation) => observation.canonical_provider_node_id@ == node_id
                && observations.contains(observation),
            None => forall|i: int|
                0 <= i < observations.len() ==> (
                #[trigger] observations[i]).canonical_provider_node_id@ != node_id,
        },
    decreases observations.len(),
{
    if observations.len() > 0 {
        let last = observations.last();
        assert(observations[observations.len() - 1] == last);
        if last.canonical_provider_node_id@ != node_id {
            lemma_lookup(observations.drop_last(), node_id);
            match lookup(observations.drop_last(), node_id) {
                Some(observation) => {
                    let i = choose|i: int|
                        0 <= i < observations.drop_last().len() && observations.drop_last()[i]
                            == observation;
                    assert(observations[i] == observation);
                },
                None => {
                    assert forall|i: int| 0 <= i < observations.len() implies (
                    #[trigger] observations[i]).canonical_provider_node_id@ != node_id by {
                        if i < observations.len() - 1 {
                            assert(observations.drop_last()[i] == observations[i]);
                        }
                    }
                },
            }
        }
    }
}

/// In an inventory the lookup of an identifier finds the entry that has it.
pub proof fn lemma_lookup_entry(observations: Seq<ProviderObservation>, at: int)
    requires
        is_inventory(observations),
        0 <= at < observations.len(),
    ensures
        lookup(observations, observations[at].canonical_provider_node_id@) == Some(
            observations[at],
        ),
    decreases observations.len(),
{
    let key = observations[at].canonical_provider_node_id@;
    if at < observations.len() - 1 {
        lemma_text_before_irreflexive(key);
        let last = observations[observations.len() - 1];
        assert(text_before(key, last.canonical_provider_node_id@));
        let shorter = observations.drop_last();
        assert(shorter[at] == observations[at]);
        assert(is_inventory(shorter)) by {
            assert forall|i: int, j: int| 0 <= i < j < shorter.len() implies text_before(
                (#[trigger] shorter[i]).canonical_provider_node_id@,
                (#[trigger] shorter[j]).canonical_provider_node_id@,
            ) by {
                assert(shorter[i] == observations[i] && shorter[j] == observations[j]);
            }
        }
        lemma_lookup_entry(shorter, at);
    }
}

/// An inventory with its identifiers at hand.
pub struct Inventory {
    keys: Vec<String>,
    observations: Vec<ProviderObservation>,
}

impl View for Inventory {
    type V = Seq<ProviderObservation>;

    closed spec fn view(&self) -> Seq<ProviderObservation> {
        self.observations@
    }
}

impl Inventory {
    #[verifier::type_invariant]
    spec fn valid(self) -> bool {
        &&& is_inventory(self.observations@)
        &&& is_ascending(self.keys@)
        &&& self.keys@.len() == self.observations@.len()
        &&& forall|i: int|
            0 <= i < self.keys@.len() ==> #[trigger] self.keys@[i]
                == self.observations@[i].canonical_provider_node_id
    }

    /// The inventory without observations.
    pub fn new() -> (inventory: Self)
        ensures
            inventory@ == Seq::<ProviderObservation>::empty(),
    {
        Inventory { keys: Vec::new(), observations: Vec::new() }
    }

    /// The number of observations, which are in order.
    pub fn len(&self) -> (count: usize)
        ensures
            count == self@.len(),
            is_inventory(self@),
    {
        proof {
            use_type_invariant(self);
        }
        self.observations.len()
    }

    /// The observation at a place.
    pub fn get(&self, at: usize) -> (observation: &ProviderObservation)
        requires
            at < self@.len(),
        ensures
            *observation == self@[at as int],
    {
        &self.observations[at]
    }

    /// The observation of a node, if there is one.
    pub fn find(&self, node_id: &str) -> (found: Option<&ProviderObservation>)
        ensures
            match found {
                Some(observation) => lookup(self@, node_id@) == Some(*observation),
                None => lookup(self@, node_id@) is None,
            },
    {
        proof {
            use_type_invariant(self);
            lemma_lookup(self@, node_id@);
        }
        match find_key(&self.keys, node_id) {
            Some(at) => {
                proof {
                    lemma_lookup_entry(self@, at as int);
                }
                Some(&self.observations[at])
            },
            None => {
                proof {
                    if lookup(self@, node_id@) is Some {
                        let seen = lookup(self@, node_id@)->Some_0;
                        let i = choose|i: int| 0 <= i < self@.len() && self@[i] == seen;
                        assert(self.keys@[i]@ != node_id@);
                    }
                }
                None
            },
        }
    }

    /// All observations, in their order.
    pub fn into_observations(self) -> (observations: Vec<ProviderObservation>)
        ensures
            observations@ == self@,
            is_inventory(observations@),
    {
        proof {
            use_type_invariant(&self);
        }
        self.observations
    }

    /// The same inventory with an observation in place of an earlier one of the
    /// same node, if there was one.
    pub fn insert(self, observation: ProviderObservation) -> (inventory: Self)
        ensures
            is_inventory(inventory@),
            forall|node_id: Seq<char>| #[trigger]
                lookup(inventory@, node_id) == (if node_id
                    == observation.canonical_provider_node_id@ {
                    Some(observation)
                } else {
                    lookup(self@, node_id)
                }),
    {
        proof {
            use_type_invariant(&self);
        }
        let Inventory { mut keys, mut observations } = self;
        let ghost before = observations@;
        let ghost old_keys = keys@;
        let ghost key = observation.canonical_provider_node_id;
        let at: usize = position(&keys, observation.canonical_provider_node_id.as_str());
        if at < keys.len() && same_text(
            keys[at].as_str(),
            observation.canonical_provider_node_id.as_str(),
        ) {
            proof {
                let after = before.update(at as int, observation);
                assert forall|i: int, j: int| 0 <= i < j < after.len() implies text_before(
                    (#[trigger] after[i]).canonical_provider_node_id@,
                    (#[trigger] after[j]).canonical_provider_node_id@,
                ) by {
                    assert(text_before(
                        before[i].canonical_provider_node_id@,
                        before[j].canonical_provider_node_id@,
                    ));
                }
                lemma_lookup_by_places(after, before, observation, at as int);
            }
            keys[at] = observation.canonical_provider_node_id.clone();
            observations[at] = observation;
            proof {
                assert forall|i: int, j: int| 0 <= i < j < keys@.len() implies text_before(
                    (#[trigger] keys@[i])@,
                    (#[trigger] keys@[j])@,
                ) by {
                    assert(text_before(old_keys[i]@, old_keys[j]@));
                }
            }
            return Inventory { keys, observations };
        }
        proof {
            assert forall|i: int| 0 <= i < old_keys.len() implies (#[trigger] old_keys[i])@
                != key@ by {
                if at < i && old_keys[i]@ == key@ {
                    assert(text_before(old_keys[at as int]@, old_keys[i]@));
                }
                if i < at && old_keys[i]@ == key@ {
                    lemma_text_before_irreflexive(key@);
                }
            }
            lemma_insert_ascending(old_keys, at as int, key);
        }
        keys.insert(at, observation.canonical_provider_node_id.clone());
        observations.insert(at, observation);
        proof {
            let after = observations@;
            assert forall|i: int| 0 <= i < keys@.len() implies #[trigger] keys@[i]
                == after[i].canonical_provider_node_id by {
                if i < at {
                    assert(keys@[i] == old_keys[i]);
                    assert(after[i] == before[i]);
                } else if i > at {
                    assert(keys@[i] == old_keys[i - 1]);
                    assert(after[i] == before[i - 1]);
                }
            }
            assert forall|i: int, j: int| 0 <= i < j < after.len() implies text_before(
                (#[trigger] after[i]).canonical_provider_node_id@,
                (#[trigger] after[j]).canonical_provider_node_id@,
            ) by {
                assert(text_before(keys@[i]@, keys@[j]@));
            }
            lemma_lookup_by_insertion(after, before, observation, at as int);
        }
        Inventory { keys, observations }
    }
}

proof fn lemma_lookup_by_places(
    after: Seq<ProviderObservation>,
    before: Seq<ProviderObservation>,
    observation: ProviderObservation,
    at: int,
)
    requires
        is_inventory(before),
        is_inventory(after),
        0 <= at < before.len(),
        after == before.update(at, observation),
        before[at].canonical_provider_node_id@ == observation.canonical_provider_node_id@,
    ensures
        forall|node_id: Seq<char>| #[trigger]
            lookup(after, node_id) == (if node_id == observation.canonical_provider_node_id@ {
                Some(observation)
            } else {
                lookup(before, node_id)
            }),
{
    assert forall|node_id: Seq<char>| #[trigger]
        lookup(after, node_id) == (if node_id == observation.canonical_provider_node_id@ {
            Some(observation)
        } else {
            lookup(before, node_id)
        }) by {
        lemma_lookup(before, node_id);
        lemma_lookup(after, node_id);
        if node_id == observation.canonical_provider_node_id@ {
            lemma_lookup_entry(after, at);
        } else if lookup(before, node_id) is Some {
            let i = choose|i: int|
                0 <= i < before.len() && before[i] == lookup(before, node_id)->Some_0;
            assert(after[i] == before[i]);
            lemma_lookup_entry(after, i);
        } else if lookup(after, node_id) is Some {
            let i = choose|i: int|
                0 <= i < after.len() && after[i] == lookup(after, node_id)->Some_0;
            assert(after[i] == before[i]);
        }
    }
}

proof fn lemma_lookup_by_insertion(
    after: Seq<ProviderObservation>,
    before: Seq<ProviderObservation>,
    observation: ProviderObservation,
    at: int,
)
    requires
        is_inventory(before),
        is_inventory(after),
        0 <= at <= before.len(),
        after == before.insert(at, observation),
    ensures
        forall|node_id: Seq<char>| #[trigger]
            lookup(after, node_id) == (if node_id == observation.canonical_provider_node_id@ {
                Some(observation)
            } else {
                lookup(before, node_id)
            }),
{
    assert forall|node_id: Seq<char>| #[trigger]
        lookup(after, node_id) == (if node_id == observation.canonical_provider_node_id@ {
            Some(observation)
        } else {
            lookup(before, node_id)
        }) by {
        lemma_lookup(before, node_id);
        lemma_lookup(after, node_id);
        if node_id == observation.canonical_provider_node_id@ {
            assert(after[at] == observation);
            lemma_lookup_entry(after, at);
        } else if lookup(before, node_id) is Some {
            let i = choose|i: int|
                0 <= i < before.len() && before[i] == lookup(before, node_id)->Some_0;
            let j = if i < at {
                i
            } else {
                i + 1
            };
            assert(after[j] == before[i]);
            lemma_lookup_entry(after, j);
        } else if lookup(after, node_id) is Some {
            let i = choose|i: int|
                0 <= i < after.len() && after[i] == lookup(after, node_id)->Some_0;
            let j = if i < at {
                i
            } else {
                i - 1
            };
            assert(i != at);
            assert(after[i] == before[j]);
        }
    }
}

/// The inventory holds, for each node, the last observation of it.
pub open spec fn gathers(
    inventory: Seq<ProviderObservation>,
    observations: Seq<ProviderObservation>,
) -> bool {
    &&& is_inventory(inventory)
    &&& forall|node_id: Seq<char>| #[trigger]
        lookup(inventory, node_id) == lookup(observations, node_id)
}

/// The inventory is what the stored observations are read as.
pub open spec fn loads_as(
    rows: Seq<ObservationRow>,
    network_id: NetworkId,
    inventory: Seq<ProviderObservation>,
) -> bool {
    exists|observations: Seq<ProviderObservation>| #[trigger]
        read_as(rows, network_id, observations) && gathers(inventory, observations)
}

/// How many of the observations are classified as given.
pub open spec fn classified(
    observations: Seq<ProviderObservation>,
    classification: ObservationClassification,
) -> nat
    decreases observations.len(),
{
    if observations.len() == 0 {
        0
    } else {
        classified(observations.drop_last(), classification) + (if observations.last().classification
            == classification {
            1nat
        } else {
            0
        })
    }
}

proof fn lemma_classified_without(
    observations: Seq<ProviderObservation>,
    at: int,
    classification: ObservationClassification,
)
    requires
        0 <= at < observations.len(),
    ensures
        classified(observations, classification) == classified(
            observations.remove(at),
            classification,
        ) + (if observations[at].classification == classification {
            1nat
        } else {
            0
        }),
    decreases observations.len(),
{
    let without = observations.remove(at);
    if at == observations.len() - 1 {
        assert(without =~= observations.drop_last());
    } else {
        let shorter = observations.drop_last();
        lemma_classified_without(shorter, at, classification);
        assert(without.drop_last() =~= shorter.remove(at));
        assert(without.last() == observations.last());
    }
}

/// No two observations are of the same node.
pub open spec fn are_of_different_nodes(observations: Seq<ProviderObservation>) -> bool {
    forall|i: int, j: int|
        0 <= i < j < observations.len() ==> (
        #[trigger] observations[i]).canonical_provider_node_id@ != (
        #[trigger] observations[j]).canonical_provider_node_id@
}

/// Where no two observations are of the same node, the inventory of them holds
/// them all: as many, and as many of each classification.
pub proof fn lemma_inventory_counts(
    inventory: Seq<ProviderObservation>,
    observations: Seq<ProviderObservation>,
    classification: ObservationClassification,
)
    requires
        gathers(inventory, observations),
        are_of_different_nodes(observations),
    ensures
        inventory.len() == observations.len(),
        classified(inventory, classification) == classified(observations, classification),
    decreases observations.len(),
{
    if observations.len() == 0 {
        if inventory.len() > 0 {
            let key = inventory[0].canonical_provider_node_id@;
            lemma_lookup_entry(inventory, 0);
            assert(lookup(inventory, key) == lookup(observations, key));
        }
    } else {
        let last = observations.last();
        let key = last.canonical_provider_node_id@;
        let fewer = observations.drop_last();
        assert(lookup(inventory, key) == lookup(observations, key));
        lemma_lookup(inventory, key);
        let at = choose|at: int| 0 <= at < inventory.len() && inventory[at] == last;
        let rest = inventory.remove(at);
        assert(is_inventory(rest)) by {
            assert forall|i: int, j: int| 0 <= i < j < rest.len() implies text_before(
                (#[trigger] rest[i]).canonical_provider_node_id@,
                (#[trigger] rest[j]).canonical_provider_node_id@,
            ) by {
                let from = if i < at {
                    i
                } else {
                    i + 1
                };
                let to = if j < at {
                    j
                } else {
                    j + 1
                };
                assert(rest[i] == inventory[from] && rest[j] == inventory[to]);
            }
        }
        assert(inventory =~= rest.insert(at, last));
        lemma_lookup_by_insertion(inventory, rest, last, at);
        assert forall|node_id: Seq<char>| #[trigger] lookup(rest, node_id) == lookup(
            fewer,
            node_id,
        ) by {
            assert(lookup(inventory, node_id) == lookup(observations, node_id));
            if node_id == key {
                lemma_lookup(fewer, key);
                lemma_lookup(rest, key);
                if lookup(fewer, key) is Some {
                    let k = choose|k: int|
                        0 <= k < fewer.len() && fewer[k] == lookup(fewer, key)->Some_0;
                    assert(observations[k] == fewer[k]);
                    assert(observations[observations.len() - 1] == last);
                }
                if lookup(rest, key) is Some {
                    let k = choose|k: int|
                        0 <= k < rest.len() && rest[k] == lookup(rest, key)->Some_0;
                    let other = if k < at {
                        k
                    } else {
                        k + 1
                    };
                    assert(inventory[other] == rest[k]);
                    lemma_text_before_irreflexive(key);
                    assert(inventory[at] == last);
                }
            }
        }
        assert(are_of_different_nodes(fewer)) by {
            assert forall|i: int, j: int| 0 <= i < j < fewer.len() implies (
            #[trigger] fewer[i]).canonical_provider_node_id@ != (
            #[trigger] fewer[j]).canonical_provider_node_id@ by {
                assert(observations[i] == fewer[i] && observations[j] == fewer[j]);
            }
        }
        lemma_inventory_counts(rest, fewer, classification);
        lemma_classified_without(inventory, at, classification);
    }
}

/// Reads the stored observations of a network.
pub fn load_observations(network_id: &NetworkId, rows: Vec<ObservationRow>) -> (result: Result<
    Inventory,
    StateError,
>)
    ensures
        match result {
            Ok(inventory) => {
                &&& first_row_problem(rows@) is None
                &&& loads_as(rows@, *network_id, inventory@)
            },
            Err(error) => first_row_problem(rows@) == Some(error@),
        },
{
    let ghost all = rows@;
    let mut inventory = Inventory::new();
    let ghost mut observations: Seq<ProviderObservation> = Seq::empty();
    assert(all.take(0) =~= Seq::<ObservationRow>::empty());
    for row in it: rows
        invariant
            it.seq() == all,
            all == rows@,
            first_row_problem(all.take(it.index() as int)) is None,
            read_as(all.take(it.index() as int), *network_id, observations),
            gathers(inventory@, observations),
    {
        let ghost i = it.index() as int;
        proof {
            assert(row == all[i]);
            assert(all.take(i + 1).drop_last() =~= all.take(i));
            assert(all.take(i + 1).last() == row);
        }
        match decode_observation(network_id.clone(), row) {
            Ok(observation) => {
                let ghost read = observation;
                let ghost before = observations;
                inventory = inventory.insert(observation);
                proof {
                    observations = before.push(read);
                    let longer = all.take(i + 1);
                    assert forall|j: int| 0 <= j < longer.len() implies (
                    #[trigger] longer[j]).reads_as(*network_id, observations[j]) by {
                        if j < i {
                            assert(longer[j] == all.take(i)[j]);
                        }
                    }
                    assert(observations.drop_last() =~= before);
                }
            },
            Err(error) => {
                proof {
                    lemma_first_problem_stays(all, i + 1);
                }
                return Err(error);
            },
        }
    }
    proof {
        assert(all.take(all.len() as int) =~= all);
        assert(read_as(rows@, *network_id, observations) && gathers(inventory@, observations));
    }
    Ok(inventory)
}

/// A problem found among the first rows is the first of all.
proof fn lemma_first_problem_stays(rows: Seq<ObservationRow>, count: int)
    requires
        0 <= count <= rows.len(),
        first_row_problem(rows.take(count)) is Some,
    ensures
        first_row_problem(rows) == first_row_problem(rows.take(count)),
    decreases rows.len() - count,
{
    if count < rows.len() {
        assert(rows.take(count + 1).drop_last() =~= rows.take(count));
        lemma_first_problem_stays(rows, count + 1);
    } else {
        assert(rows.take(count) =~= rows);
    }
}

/// The identity of an observation is the same in all of its parts, and belongs
/// to the provider of its network.
pub open spec fn is_consistent(observation: ProviderObservation, instance: Seq<char>) -> bool {
    &&& observation.provider_instance_id@ == instance
    &&& observation.node.identity.provider_instance_id@ == observation.provider_instance_id@
    &&& observation.node.identity.node_id@ == observation.canonical_provider_node_id@
    &&& is_fingerprint(observation.stable_machine_key_fingerprint@)
    &&& observation.node.identity.stable_key_fingerprint@
        == observation.stable_machine_key_fingerprint@
    &&& semantic_text(observation.node) == observation.semantic_fingerprint@
}

fn consistent(observation: &ProviderObservation, instance: &ProviderInstanceId) -> (result: bool)
    ensures
        result == is_consistent(*observation, instance@),
{
    observation.provider_instance_id.same(instance)
        && observation.node.identity.provider_instance_id.same(&observation.provider_instance_id)
        && same_text(
        observation.node.identity.node_id.as_str(),
        observation.canonical_provider_node_id.as_str(),
    ) && valid_sha256_fingerprint(observation.stable_machine_key_fingerprint.as_str())
        && same_text(
        observation.node.identity.stable_key_fingerprint.as_str(),
        observation.stable_machine_key_fingerprint.as_str(),
    ) && same_text(
        semantic_fingerprint(&observation.node).as_str(),
        observation.semantic_fingerprint.as_str(),
    )
}

/// The number of observations asked for, bounded.
pub open spec fn bounded_page(limit: usize) -> usize {
    if limit < PROVIDER_OBSERVATION_PAGE_MAX {
        limit
    } else {
        PROVIDER_OBSERVATION_PAGE_MAX
    }
}

/// The number of observations asked for, bounded.
pub fn observation_page_limit(limit: usize) -> (bounded: usize)
    ensures
        bounded == bounded_page(limit),
{
    if limit < PROVIDER_OBSERVATION_PAGE_MAX {
        limit
    } else {
        PROVIDER_OBSERVATION_PAGE_MAX
    }
}

/// Reads one page of the rows: the first of those after the cursor, up to the
/// limit. A limit that is out of range for the database is refused.
pub fn load_observation_page(
    network_id: &NetworkId,
    rows: Vec<ObservationRow>,
    after: Option<&str>,
    limit: usize,
) -> (result: Result<Vec<ProviderObservation>, StateError>)
    ensures
        ({
            let chosen = page_of(rows@, cursor_text(after), limit as nat);
            match result {
                Ok(page) => {
                    &&& limit <= i64::MAX
                    &&& first_row_problem(chosen) is None
                    &&& read_as(chosen, *network_id, page@)
                },
                Err(error) => if limit > i64::MAX {
                    error@ == StateErrorView::Conflict("observation page limit is invalid"@)
                } else {
                    first_row_problem(chosen) == Some(error@)
                },
            }
        }),
{
    if limit as u64 > i64::MAX as u64 {
        return Err(conflict("observation page limit is invalid"));
    }
    let chosen = select_page(rows, after, limit);
    let ghost all = chosen@;
    let mut page: Vec<ProviderObservation> = Vec::new();
    assert(all.take(0) =~= Seq::<ObservationRow>::empty());
    for row in it: chosen
        invariant
            it.seq() == all,
            all == chosen@,
            all == page_of(rows@, cursor_text(after), limit as nat),
            limit <= i64::MAX,
            first_row_problem(all.take(it.index() as int)) is None,
            page@.len() == it.index(),
            forall|j: int|
                0 <= j < it.index() ==> (#[trigger] all[j]).reads_as(*network_id, page@[j]),
    {
        let ghost i = it.index() as int;
        proof {
            assert(row == all[i]);
            assert(all.take(i + 1).drop_last() =~= all.take(i));
            assert(all.take(i + 1).last() == row);
        }
        match decode_observation(network_id.clone(), row) {
            Ok(observation) => {
                page.push(observation);
            },
            Err(error) => {
                proof {
                    lemma_first_problem_stays(all, i + 1);
                }
                return Err(error);
            },
        }
    }
    assert(all.take(all.len() as int) =~= all);
    Ok(page)
}

/// Requires that each observation of a page is consistent with itself and with
/// the provider of its network.
pub fn check_observation_page(page: &Vec<ProviderObservation>, instance: &ProviderInstanceId) -> (result:
    Result<(), StateError>)
    ensures
        match result {
            Ok(()) => forall|i: int|
                0 <= i < page@.len() ==> is_consistent(#[trigger] page@[i], instance@),
            Err(error) => {
                &&& exists|i: int|
                    0 <= i < page@.len() && !is_consistent(#[trigger] page@[i], instance@)
                &&& error@ == StateErrorView::Conflict(
                    "provider observation identity is inconsistent"@,
                )
            },
        },
{
    for i in 0..page.len()
        invariant
            forall|j: int| 0 <= j < i ==> is_consistent(#[trigger] page@[j], instance@),
    {
        if !consistent(&page[i], instance) {
            assert(!is_consistent(page@[i as int], instance@));
            return Err(conflict("provider observation identity is inconsistent"));
        }
    }
    Ok(())
}

} // verus!
