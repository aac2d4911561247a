//! Nodes as a provider reports them, and the observations that are kept of them.

use crate::digest::{fingerprint_text, sha256_fingerprint};
use crate::error::{ReconciliationFailure, ReconciliationFailureView};
use crate::ids::{DeviceId, NetworkId, ProviderInstanceId};
use crate::names::{AdoptionState, CompatibilityStatus, ObservationClassification, ProviderError};
use crate::rules::is_fingerprint;
use crate::text::{
    chars_of, is_before, lemma_text_before_irreflexive, lemma_text_before_total,
    lemma_text_before_transitive, same_text, text_before,
};
use crate::time::Timestamp;
use vstd::prelude::*;
use vstd::utf8::encode_utf8;

verus! {

/// The identity under which a provider reports a node.
#[derive(Debug, PartialEq, Eq)]
pub struct NodeIdentity {
    pub provider_instance_id: ProviderInstanceId,
    pub node_id: String,
    pub stable_key_fingerprint: String,
}

impl Clone for NodeIdentity {
    fn clone(&self) -> (copy: Self)
        ensures
            copy == *self,
    {
        NodeIdentity {
            provider_instance_id: self.provider_instance_id.clone(),
            node_id: self.node_id.clone(),
            stable_key_fingerprint: self.stable_key_fingerprint.clone(),
        }
    }
}

/// A node as a provider reports it.
#[derive(Debug, PartialEq, Eq)]
pub struct ProviderNode {
    pub identity: NodeIdentity,
    /// The machine key that the provider gives as evidence of the identity.
    pub machine_key: String,
    pub expired: bool,
    /// All that the provider reports, as JSON.
    pub json: String,
    /// The same, with the time of the report at the beginning of 1970.
    pub timeless_json: String,
}

impl Clone for ProviderNode {
    fn clone(&self) -> (copy: Self)
        ensures
            copy == *self,
    {
        ProviderNode {
            identity: self.identity.clone(),
            machine_key: self.machine_key.clone(),
            expired: self.expired,
            json: self.json.clone(),
            timeless_json: self.timeless_json.clone(),
        }
    }
}

/// What is kept of a node. It is evidence, and never trust.
#[derive(Debug, PartialEq, Eq)]
pub struct ProviderObservation {
    pub network_id: NetworkId,
    pub device_id: Option<DeviceId>,
    pub provider_instance_id: ProviderInstanceId,
    pub canonical_provider_node_id: String,
    pub stable_machine_key_fingerprint: String,
    pub node: ProviderNode,
    pub classification: ObservationClassification,
    pub adoption_state: AdoptionState,
    pub semantic_fingerprint: String,
    pub semantic_generation: u64,
    pub first_observed_at: Timestamp,
    pub last_observed_at: Timestamp,
    pub snapshot_at: Timestamp,
}

impl Clone for ProviderObservation {
    fn clone(&self) -> (copy: Self)
        ensures
            copy == *self,
    {
        ProviderObservation {
            network_id: self.network_id.clone(),
            device_id: match &self.device_id {
                Some(id) => Some(id.clone()),
                None => None,
            },
            provider_instance_id: self.provider_instance_id.clone(),
            canonical_provider_node_id: self.canonical_provider_node_id.clone(),
            stable_machine_key_fingerprint: self.stable_machine_key_fingerprint.clone(),
            node: self.node.clone(),
            classification: self.classification,
            adoption_state: self.adoption_state,
            semantic_fingerprint: self.semantic_fingerprint.clone(),
            semantic_generation: self.semantic_generation,
            first_observed_at: self.first_observed_at,
            last_observed_at: self.last_observed_at,
            snapshot_at: self.snapshot_at,
        }
    }
}

/// The fingerprint of all that a provider reports of a node but the time of the
/// report.
pub open spec fn semantic_text(node: ProviderNode) -> Seq<char> {
    fingerprint_text(encode_utf8(node.timeless_json@))
}

/// The fingerprint of all that a provider reports of a node but the time of the
/// report.
pub fn semantic_fingerprint(node: &ProviderNode) -> (text: String)
    ensures
        text@ == semantic_text(*node),
        is_fingerprint(text@),
{
    sha256_fingerprint(node.timeless_json.as_str().as_bytes())
}

/// What an observation becomes when its node is reported again, with the same
/// identity.
pub open spec fn next_class(
    previous: ObservationClassification,
    expired: bool,
) -> ObservationClassification {
    if expired {
        ObservationClassification::ProviderExpired
    } else if previous == ObservationClassification::Active || previous
        == ObservationClassification::ExpectedJoining || previous
        == ObservationClassification::Quarantined || previous
        == ObservationClassification::Revoked {
        previous
    } else {
        ObservationClassification::DiscoveredUnmanaged
    }
}

/// What an observation becomes when its node is reported again, with the same
/// identity.
pub fn next_classification(previous: ObservationClassification, node: &ProviderNode) -> (next:
    ObservationClassification)
    ensures
        next == next_class(previous, node.expired),
{
    if node.expired {
        return ObservationClassification::ProviderExpired;
    }
    match previous {
        ObservationClassification::Active => previous,
        ObservationClassification::ExpectedJoining => previous,
        ObservationClassification::Quarantined => previous,
        ObservationClassification::Revoked => previous,
        _ => ObservationClassification::DiscoveredUnmanaged,
    }
}

/// What a node is when it is reported for the first time.
pub open spec fn first_class(expired: bool) -> ObservationClassification {
    if expired {
        ObservationClassification::ProviderExpired
    } else {
        ObservationClassification::DiscoveredUnmanaged
    }
}

/// What a node is when it is reported for the first time.
pub fn first_classification(node: &ProviderNode) -> (class: ObservationClassification)
    ensures
        class == first_class(node.expired),
{
    if node.expired {
        ObservationClassification::ProviderExpired
    } else {
        ObservationClassification::DiscoveredUnmanaged
    }
}

/// Reports do not make a node trusted: one that was not active does not become
/// so, whatever is reported of it.
pub proof fn law_reports_never_activate(previous: ObservationClassification, expired: bool)
    ensures
        first_class(expired) != ObservationClassification::Active,
        next_class(previous, expired) == ObservationClassification::Active ==> previous
            == ObservationClassification::Active,
        next_class(next_class(previous, expired), expired) == next_class(previous, expired),
{
}

/// What a failed call to a provider means.
pub open spec fn failure_of(error: ProviderError) -> ReconciliationFailureView {
    match error {
        ProviderError::AuthenticationFailed => ReconciliationFailureView::AuthenticationFailed,
        ProviderError::MalformedResponse(_) => ReconciliationFailureView::Malformed,
        ProviderError::Conflict(_) => ReconciliationFailureView::IdentityConflict,
        ProviderError::Unsupported(_) => ReconciliationFailureView::Incompatible,
        ProviderError::Rejected(_) => ReconciliationFailureView::Incompatible,
        ProviderError::Unreachable(_) => ReconciliationFailureView::Unreachable,
        ProviderError::Timeout => ReconciliationFailureView::Unreachable,
        ProviderError::TlsFailure => ReconciliationFailureView::Unreachable,
        ProviderError::AmbiguousMutation(_) => ReconciliationFailureView::Unreachable,
    }
}

/// What a failed call to a provider means.
pub fn map_provider_failure(error: ProviderError) -> (failure: ReconciliationFailure)
    ensures
        failure@ == failure_of(error),
{
    match error {
        ProviderError::AuthenticationFailed => ReconciliationFailure::AuthenticationFailed,
        ProviderError::MalformedResponse(_) => ReconciliationFailure::Malformed,
        ProviderError::Conflict(_) => ReconciliationFailure::IdentityConflict,
        ProviderError::Unsupported(_) => ReconciliationFailure::Incompatible,
        ProviderError::Rejected(_) => ReconciliationFailure::Incompatible,
        ProviderError::Unreachable(_) => ReconciliationFailure::Unreachable,
        ProviderError::Timeout => ReconciliationFailure::Unreachable,
        ProviderError::TlsFailure => ReconciliationFailure::Unreachable,
        ProviderError::AmbiguousMutation(_) => ReconciliationFailure::Unreachable,
    }
}

/// What a provider says of itself.
#[derive(Debug, PartialEq, Eq)]
pub struct ServerInspection {
    pub provider_name: String,
    pub instance_id: ProviderInstanceId,
    pub mutation_allowed: bool,
    pub compatibility: CompatibilityStatus,
    pub provider_version: String,
}

/// A text without the `v`s that it begins with.
pub open spec fn without_leading_v(text: Seq<char>) -> Seq<char>
    decreases text.len(),
{
    if text.len() > 0 && text[0] == 'v' {
        without_leading_v(text.drop_first())
    } else {
        text
    }
}

fn first_other_than_v(text: &Vec<char>) -> (at: usize)
    ensures
        at <= text@.len(),
        text@.skip(at as int) == without_leading_v(text@),
{
    let mut at: usize = 0;
    assert(text@.skip(0) =~= text@);
    while at < text.len() && text[at] == 'v'
        invariant
            at <= text@.len(),
            without_leading_v(text@) == without_leading_v(text@.skip(at as int)),
        decreases text@.len() - at,
    {
        assert(text@.skip(at as int).drop_first() =~= text@.skip(at + 1));
        at = at + 1;
    }
    at
}

/// Whether two versions are the same but for the `v`s that they begin with.
pub fn same_version(left: &str, right: &str) -> (same: bool)
    ensures
        same == (without_leading_v(left@) == without_leading_v(right@)),
{
    let a = chars_of(left);
    let b = chars_of(right);
    let from: usize = first_other_than_v(&a);
    let start: usize = first_other_than_v(&b);
    let ghost x = without_leading_v(left@);
    let ghost y = without_leading_v(right@);
    let left_total: usize = a.len();
    let right_total: usize = b.len();
    if left_total - from != right_total - start {
        assert(x.len() != y.len());
        return false;
    }
    let count: usize = left_total - from;
    for i in 0..count
        invariant
            from + count == left_total,
            start + count == right_total,
            left_total == a@.len(),
            right_total == b@.len(),
            x == without_leading_v(left@),
            y == without_leading_v(right@),
            x == a@.skip(from as int),
            y == b@.skip(start as int),
            forall|j: int| 0 <= j < i ==> x[j] == y[j],
    {
        if a[from + i] != b[start + i] {
            assert(x[i as int] != y[i as int]);
            return false;
        }
    }
    assert(x =~= y);
    true
}

/// The provider is the expected one, of the pinned version, and cannot be
/// changed through the connection.
pub open spec fn is_acceptable(
    inspection: ServerInspection,
    instance: Seq<char>,
    provider_name: Seq<char>,
    compatibility_pin: Seq<char>,
) -> bool {
    &&& inspection.provider_name@ == provider_name
    &&& inspection.instance_id@ == instance
    &&& !inspection.mutation_allowed
    &&& inspection.compatibility == CompatibilityStatus::Compatible || inspection.compatibility
        == CompatibilityStatus::CompatibleWithConstraints
    &&& without_leading_v(inspection.provider_version@) == without_leading_v(compatibility_pin)
}

/// Requires that the provider is the expected one, of the pinned version, and
/// cannot be changed through the connection.
pub fn validate_read_only_inspection(
    inspection: &ServerInspection,
    provider_instance_id: &ProviderInstanceId,
    provider_name: &str,
    compatibility_pin: &str,
) -> (result: Result<(), ReconciliationFailure>)
    ensures
        match result {
            Ok(()) => is_acceptable(
                *inspection,
                provider_instance_id@,
                provider_name@,
                compatibility_pin@,
            ),
            Err(failure) => {
                &&& !is_acceptable(
                    *inspection,
                    provider_instance_id@,
                    provider_name@,
                    compatibility_pin@,
                )
                &&& failure@ == ReconciliationFailureView::Incompatible
            },
        },
{
    let compatible = match inspection.compatibility {
        CompatibilityStatus::Compatible => true,
        CompatibilityStatus::CompatibleWithConstraints => true,
        _ => false,
    };
    if !same_text(inspection.provider_name.as_str(), provider_name) || !inspection.instance_id.same(
        provider_instance_id,
    ) || inspection.mutation_allowed || !compatible || !same_version(
        inspection.provider_version.as_str(),
        compatibility_pin,
    ) {
        return Err(ReconciliationFailure::Incompatible);
    }
    Ok(())
}

/// Each text comes before the texts after it.
pub open spec fn is_ascending(keys: Seq<String>) -> bool {
    forall|i: int, j: int|
        0 <= i < j < keys.len() ==> text_before((#[trigger] keys[i])@, (#[trigger] keys[j])@)
}

/// The number of texts that come before the given one.
pub fn position(keys: &Vec<String>, key: &str) -> (at: usize)
    requires
        is_ascending(keys@),
    ensures
        at <= keys@.len(),
        forall|i: int| 0 <= i < at ==> text_before((#[trigger] keys@[i])@, key@),
        forall|i: int| at <= i < keys@.len() ==> !text_before((#[trigger] keys@[i])@, key@),
{
    let mut low: usize = 0;
    let mut high: usize = keys.len();
    while low < high
        invariant
            is_ascending(keys@),
            low <= high <= keys@.len(),
            forall|i: int| 0 <= i < low ==> text_before((#[trigger] keys@[i])@, key@),
            forall|i: int| high <= i < keys@.len() ==> !text_before((#[trigger] keys@[i])@, key@),
        decreases high - low,
    {
        let middle: usize = low + (high - low) / 2;
        if is_before(keys[middle].as_str(), key) {
            proof {
                assert forall|i: int| 0 <= i < middle + 1 implies text_before(
                    (#[trigger] keys@[i])@,
                    key@,
                ) by {
                    if low <= i < middle {
                        lemma_text_before_transitive(keys@[i]@, keys@[middle as int]@, key@);
                    }
                }
            }
            low = middle + 1;
        } else {
            proof {
                assert forall|i: int| middle <= i < keys@.len() implies !text_before(
                    (#[trigger] keys@[i])@,
                    key@,
                ) by {
                    if middle < i && text_before(keys@[i]@, key@) {
                        lemma_text_before_transitive(keys@[middle as int]@, keys@[i]@, key@);
                    }
                }
            }
            high = middle;
        }
    }
    low
}

/// Where a text stands among ascending texts, if it does.
pub fn find_key(keys: &Vec<String>, key: &str) -> (found: Option<usize>)
    requires
        is_ascending(keys@),
    ensures
        match found {
            Some(at) => at < keys@.len() && keys@[at as int]@ == key@,
            None => forall|i: int| 0 <= i < keys@.len() ==> (#[trigger] keys@[i])@ != key@,
        },
{
    let at: usize = position(keys, key);
    if at < keys.len() && same_text(keys[at].as_str(), key) {
        Some(at)
    } else {
        proof {
            assert forall|i: int| 0 <= i < keys@.len() implies (#[trigger] keys@[i])@ != key@ by {
                lemma_text_before_irreflexive(key@);
                if at < i && keys@[i]@ == key@ {
                    assert(text_before(keys@[at as int]@, keys@[i]@));
                }
            }
        }
        None
    }
}

/// Ascending texts stay ascending when a new one is put where it belongs.
pub proof fn lemma_insert_ascending(keys: Seq<String>, at: int, key: String)
    requires
        is_ascending(keys),
        0 <= at <= keys.len(),
        forall|i: int| 0 <= i < at ==> text_before((#[trigger] keys[i])@, key@),
        forall|i: int| at <= i < keys.len() ==> !text_before((#[trigger] keys[i])@, key@),
        forall|i: int| 0 <= i < keys.len() ==> (#[trigger] keys[i])@ != key@,
    ensures
        is_ascending(keys.insert(at, key)),
{
    let longer = keys.insert(at, key);
    assert forall|i: int, j: int| 0 <= i < j < longer.len() implies text_before(
        (#[trigger] longer[i])@,
        (#[trigger] longer[j])@,
    ) by {
        if i == at {
            assert(longer[j] == keys[j - 1]);
            lemma_text_before_total(keys[j - 1]@, key@);
        } else if j == at {
            assert(longer[i] == keys[i]);
        } else {
            let a = if i < at {
                i
            } else {
                i - 1
            };
            let b = if j < at {
                j
            } else {
                j - 1
            };
            assert(longer[i] == keys[a]);
            assert(longer[j] == keys[b]);
        }
    }
}

/// Every node is of the expected provider, and no two have the same identifier.
pub open spec fn is_snapshot(nodes: Seq<ProviderNode>, instance: Seq<char>) -> bool {
    &&& forall|i: int|
        0 <= i < nodes.len() ==> (#[trigger] nodes[i]).identity.provider_instance_id@ == instance
    &&& forall|i: int, j: int|
        0 <= i < j < nodes.len() ==> (#[trigger] nodes[i]).identity.node_id@ != (
        #[trigger] nodes[j]).identity.node_id@
}

/// Nodes in the order of their identifiers, each identifier once.
pub open spec fn is_ordered(nodes: Seq<ProviderNode>) -> bool {
    forall|i: int, j: int|
        0 <= i < j < nodes.len() ==> text_before(
            (#[trigger] nodes[i]).identity.node_id@,
            (#[trigger] nodes[j]).identity.node_id@,
        )
}

/// The nodes are the same, up to their order.
pub open spec fn same_nodes(left: Seq<ProviderNode>, right: Seq<ProviderNode>) -> bool {
    &&& left.len() == right.len()
    &&& forall|i: int| 0 <= i < left.len() ==> right.contains(#[trigger] left[i])
    &&& forall|i: int| 0 <= i < right.len() ==> left.contains(#[trigger] right[i])
}

/// Puts the nodes of a snapshot in the order of their identifiers, and requires
/// that they are of the expected provider and that no identifier occurs twice.
pub fn validate_snapshot(nodes: Vec<ProviderNode>, expected_instance: &ProviderInstanceId) -> (result:
    Result<Vec<ProviderNode>, ReconciliationFailure>)
    ensures
        match result {
            Ok(ordered) => {
                &&& is_snapshot(nodes@, expected_instance@)
                &&& is_ordered(ordered@)
                &&& same_nodes(nodes@, ordered@)
            },
            Err(failure) => {
                &&& !is_snapshot(nodes@, expected_instance@)
                &&& failure@ == ReconciliationFailureView::IdentityConflict
            },
        },
{
    let mut ordered: Vec<ProviderNode> = Vec::new();
    let mut keys: Vec<String> = Vec::new();
    for i in 0..nodes.len()
        invariant
            is_snapshot(nodes@.take(i as int), expected_instance@),
            ordered@.len() == i,
            keys@.len() == i,
            is_ascending(keys@),
            forall|j: int| 0 <= j < i ==> (#[trigger] keys@[j])@ == ordered@[j].identity.node_id@,
            forall|j: int| 0 <= j < i ==> ordered@.contains(#[trigger] nodes@[j]),
            forall|j: int|
                0 <= j < i ==> nodes@.take(i as int).contains(#[trigger] ordered@[j]),
    {
        let node = &nodes[i];
        let ghost shorter = nodes@.take(i as int);
        let ghost longer = nodes@.take(i + 1);
        if !node.identity.provider_instance_id.same(expected_instance) {
            assert(nodes@[i as int].identity.provider_instance_id@ != expected_instance@);
            return Err(ReconciliationFailure::IdentityConflict);
        }
        let at: usize = position(&keys, node.identity.node_id.as_str());
        if at < keys.len() && same_text(keys[at].as_str(), node.identity.node_id.as_str()) {
            proof {
                let twin = ordered@[at as int];
                assert(shorter.contains(twin));
                let k = choose|k: int| 0 <= k < shorter.len() && shorter[k] == twin;
                assert(nodes@[k] == twin);
                assert(nodes@[k].identity.node_id@ == nodes@[i as int].identity.node_id@);
            }
            return Err(ReconciliationFailure::IdentityConflict);
        }
        let ghost old_keys = keys@;
        let ghost old_ordered = ordered@;
        proof {
            let key = node.identity.node_id@;
            assert forall|j: int| 0 <= j < old_keys.len() implies (#[trigger] old_keys[j])@
                != key by {
                if at < j && old_keys[j]@ == key {
                    assert(text_before(old_keys[at as int]@, old_keys[j]@));
                }
                if j < at && old_keys[j]@ == key {
                    lemma_text_before_irreflexive(key);
                }
            }
            lemma_insert_ascending(old_keys, at as int, node.identity.node_id);
        }
        keys.insert(at, node.identity.node_id.clone());
        ordered.insert(at, node.clone());
        proof {
            assert forall|a: int, b: int| 0 <= a < b < longer.len() implies (
            #[trigger] longer[a]).identity.node_id@ != (#[trigger] longer[b]).identity.node_id@ by {
                if b == i {
                    assert(old_ordered.contains(nodes@[a]));
                    let k = choose|k: int|
                        0 <= k < old_ordered.len() && old_ordered[k] == nodes@[a];
                    assert(old_keys[k]@ == nodes@[a].identity.node_id@);
                } else {
                    assert(shorter[a] == longer[a] && shorter[b] == longer[b]);
                }
            }
            assert forall|a: int| 0 <= a < longer.len() implies (
            #[trigger] longer[a]).identity.provider_instance_id@ == expected_instance@ by {
                if a < i {
                    assert(shorter[a] == longer[a]);
                }
            }
            assert forall|j: int| 0 <= j < i + 1 implies (#[trigger] keys@[j])@
                == ordered@[j].identity.node_id@ by {
                if j < at {
                    assert(keys@[j] == old_keys[j]);
                    assert(ordered@[j] == old_ordered[j]);
                } else if j > at {
                    assert(keys@[j] == old_keys[j - 1]);
                    assert(ordered@[j] == old_ordered[j - 1]);
                }
            }
            assert forall|j: int| 0 <= j < i + 1 implies ordered@.contains(
                #[trigger] nodes@[j],
            ) by {
                if j < i {
                    assert(old_ordered.contains(nodes@[j]));
                    let k = choose|k: int|
                        0 <= k < old_ordered.len() && old_ordered[k] == nodes@[j];
                    if k < at {
                        assert(ordered@[k] == nodes@[j]);
                    } else {
                        assert(ordered@[k + 1] == nodes@[j]);
                    }
                } else {
                    assert(ordered@[at as int] == nodes@[j]);
                }
            }
            assert forall|j: int| 0 <= j < i + 1 implies longer.contains(
                #[trigger] ordered@[j],
            ) by {
                if j == at {
                    assert(longer[i as int] == ordered@[j]);
                } else {
                    let old_j = if j < at {
                        j
                    } else {
                        j - 1
                    };
                    assert(ordered@[j] == old_ordered[old_j]);
                    assert(shorter.contains(old_ordered[old_j]));
                    let k = choose|k: int|
                        0 <= k < shorter.len() && shorter[k] == old_ordered[old_j];
                    assert(longer[k] == ordered@[j]);
                }
            }
        }
    }
    proof {
        assert(nodes@.take(nodes@.len() as int) =~= nodes@);
        assert forall|i: int, j: int| 0 <= i < j < ordered@.len() implies text_before(
            (#[trigger] ordered@[i]).identity.node_id@,
            (#[trigger] ordered@[j]).identity.node_id@,
        ) by {
            assert(text_before(keys@[i]@, keys@[j]@));
        }
    }
    Ok(ordered)
}

} // verus!
