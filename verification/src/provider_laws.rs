//! What holds of the snapshots and imports of a provider, of the stored
//! inventory and of the report, said on what is configured, answered and stored.

use crate::audit::{AuditActor, AuditFact, AuditLog, StateStore};
use crate::config::{
    import_config, is_compatibility_pin, is_https_origin, is_secret_reference, is_tailnet,
    HeadscaleImportConfig, HeadscaleImportRow, TailscaleImportConfig,
};
use crate::digest::fingerprint_text;
use crate::error::{
    DatabaseFailure, ReconciliationFailure, ReconciliationFailureView, StateError, StateErrorView,
};
use crate::ids::{DeviceId, NetworkId, ProviderInstanceId};
use crate::import::{
    are_new_records, failure_fact, headscale_import_row, import_events, import_problem,
    recorded_detail, recorded_kind, tailscale_import_row, FailureColumns, ImportFailure,
    ProviderImportRow,
};
use crate::inventory::{
    bounded_page, first_row_problem, is_consistent, is_inventory, lemma_lookup, lookup,
    ObservationRow,
};
use crate::names::{
    AuditKind, AuditOutcome, CompatibilityStatus, FailureKind, Failpoint,
    ObservationClassification, ProviderError, ProviderKind, ProviderReconciliationState,
    TlsVerificationPolicy,
};
use crate::observation::{
    failure_of, is_acceptable, is_ordered, is_snapshot, same_nodes, without_leading_v,
    ProviderNode, ProviderObservation, ServerInspection,
};
use crate::reconcile::{
    terminalize_pending_adoption_for_observation, AdoptionConflict, AdoptionDecision,
    ObservationRecord, PendingAction,
};
use crate::reconcile_laws::law_pending_adoption_is_the_first_of_its_node;
use crate::records::Network;
use crate::report::{occurrences, state_of, ImportStatusRow, ReconciliationReport};
use crate::rules::is_fingerprint;
use crate::snapshot::{
    begin_headscale_import, begin_tailscale_import, headscale_import_problem,
    headscale_snapshot_problem, reconciliation_import_config, round_problem,
    tailscale_import_problem, tailscale_snapshot_problem, InspectedProvider,
    ReconciliationImportConfig, ReconciliationImportRow, Snapshot,
};
use crate::text::text_before;
use crate::time::{instant_of_text, Timestamp};
use vstd::prelude::*;
use vstd::utf8::encode_utf8;

verus! {

/// What is left of a version without its leading `v`s is the rest of it, from
/// the first other character on.
pub proof fn law_leading_v_does_not_count(text: Seq<char>)
    ensures
        exists|k: int|
            #![trigger text.skip(k)]
            0 <= k <= text.len() && without_leading_v(text) == text.skip(k) && (forall|i: int|
                0 <= i < k ==> text[i] == 'v') && (k < text.len() ==> text[k] != 'v'),
        without_leading_v(seq!['v'] + text) == without_leading_v(text),
        text.len() > 0 && text[0] != 'v' ==> without_leading_v(text) == text,
    decreases text.len(),
{
    assert((seq!['v'] + text).drop_first() =~= text);
    if text.len() > 0 && text[0] == 'v' {
        let rest = text.drop_first();
        law_leading_v_does_not_count(rest);
        let k = choose|k: int|
            #![trigger rest.skip(k)]
            0 <= k <= rest.len() && without_leading_v(rest) == rest.skip(k) && (forall|i: int|
                0 <= i < k ==> rest[i] == 'v') && (k < rest.len() ==> rest[k] != 'v');
        assert(text.skip(k + 1) =~= rest.skip(k));
        assert forall|i: int| 0 <= i < k + 1 implies text[i] == 'v' by {
            if i > 0 {
                assert(text[i] == rest[i - 1]);
            }
        }
    } else {
        assert(text.skip(0) =~= text);
    }
}

/// A provider is accepted exactly if it is of the expected kind and instance,
/// allows no mutation, is compatible, and is of the pinned version.
pub proof fn law_accepted_provider_is_the_expected_one(
    inspection: ServerInspection,
    instance: Seq<char>,
    provider_name: Seq<char>,
    compatibility_pin: Seq<char>,
)
    ensures
        is_acceptable(inspection, instance, provider_name, compatibility_pin) <==> {
            &&& inspection.provider_name@ == provider_name
            &&& inspection.instance_id@ == instance
            &&& !inspection.mutation_allowed
            &&& inspection.compatibility != CompatibilityStatus::ReadOnlyDegraded
            &&& inspection.compatibility != CompatibilityStatus::Unsupported
            &&& inspection.compatibility != CompatibilityStatus::Unreachable
            &&& inspection.compatibility != CompatibilityStatus::AuthenticationFailed
            &&& without_leading_v(inspection.provider_version@) == without_leading_v(
                compatibility_pin,
            )
        },
{
}

/// What went wrong with a provider is told apart: a refused authentication, an
/// answer that cannot be read, a conflict, an incompatibility, and everything
/// that leaves the provider out of reach.
pub proof fn law_provider_failures_are_told_apart(error: ProviderError)
    ensures
        failure_of(error) == ReconciliationFailureView::AuthenticationFailed <==> error
            is AuthenticationFailed,
        failure_of(error) == ReconciliationFailureView::Malformed <==> error is MalformedResponse,
        failure_of(error) == ReconciliationFailureView::IdentityConflict <==> error is Conflict,
        failure_of(error) == ReconciliationFailureView::Incompatible <==> error is Unsupported
            || error is Rejected,
        failure_of(error) == ReconciliationFailureView::Unreachable <==> error is Unreachable
            || error is Timeout || error is TlsFailure || error is AmbiguousMutation,
{
}

/// A list of nodes is a snapshot of a provider exactly if every node names that
/// provider and no two nodes have the same identifier.
pub proof fn law_snapshot_names_each_node_once(nodes: Seq<ProviderNode>, instance: Seq<char>)
    ensures
        is_snapshot(nodes, instance) <==> {
            &&& forall|i: int|
                0 <= i < nodes.len() ==> (#[trigger] nodes[i]).identity.provider_instance_id@
                    == instance
            &&& forall|i: int, j: int|
                0 <= i < nodes.len() && 0 <= j < nodes.len() && i != j ==> (
                #[trigger] nodes[i]).identity.node_id@ != (#[trigger] nodes[j]).identity.node_id@
        },
{
    if is_snapshot(nodes, instance) {
        assert forall|i: int, j: int|
            0 <= i < nodes.len() && 0 <= j < nodes.len() && i != j implies (
        #[trigger] nodes[i]).identity.node_id@ != (#[trigger] nodes[j]).identity.node_id@ by {
            if j < i {
                assert(nodes[j].identity.node_id@ != nodes[i].identity.node_id@);
            }
        }
    }
}

/// The nodes of a snapshot are put in order, and none is lost or made up.
pub proof fn law_ordered_nodes_are_the_same(left: Seq<ProviderNode>, right: Seq<ProviderNode>)
    requires
        same_nodes(left, right),
        is_ordered(right),
    ensures
        left.len() == right.len(),
        forall|node: ProviderNode| left.contains(node) <==> right.contains(node),
        forall|i: int, j: int|
            0 <= i < j < right.len() ==> text_before(
                (#[trigger] right[i]).identity.node_id@,
                (#[trigger] right[j]).identity.node_id@,
            ),
{
}

/// A snapshot is applied to a network exactly if the network has a read-only
/// import, of a known kind, of the very provider that the snapshot was taken
/// from, and that provider is of the kind and version that the import names.
pub proof fn law_round_needs_the_imported_provider(
    network_id: Seq<char>,
    import: Option<ReconciliationImportRow>,
    snapshot: Snapshot,
)
    ensures
        round_problem(network_id, import, snapshot) is None <==> (import matches Some(stored)
            && stored.provider_instance_id.parsed matches Ok(instance) && {
            &&& stored.read_only
            &&& !stored.mutation_allowed
            &&& stored.provider_kind@ == "headscale"@ || stored.provider_kind@ == "tailscale"@
            &&& snapshot.instance()@ == instance@
            &&& snapshot.inspection().provider_name@ == stored.provider_kind@
            &&& snapshot.inspection().instance_id@ == instance@
            &&& !snapshot.inspection().mutation_allowed
            &&& snapshot.inspection().compatibility == CompatibilityStatus::Compatible
                || snapshot.inspection().compatibility
                == CompatibilityStatus::CompatibleWithConstraints
            &&& without_leading_v(snapshot.inspection().provider_version@) == without_leading_v(
                stored.compatibility_pin@,
            )
        }),
        import is None ==> round_problem(network_id, import, snapshot) == Some(
            ReconciliationFailureView::State(StateErrorView::NotFound(network_id)),
        ),
        (import matches Some(stored) && stored.provider_instance_id.parsed is Ok && (
        !stored.read_only || stored.mutation_allowed)) ==> round_problem(
            network_id,
            import,
            snapshot,
        ) == Some(
            ReconciliationFailureView::State(
                StateErrorView::Conflict("persisted provider import is not read-only"@),
            ),
        ),
        (import matches Some(stored) && stored.provider_instance_id.parsed matches Ok(instance) && {
            &&& stored.read_only
            &&& !stored.mutation_allowed
            &&& stored.provider_kind@ == "headscale"@ || stored.provider_kind@ == "tailscale"@
            &&& snapshot.instance()@ != instance@
        }) ==> round_problem(network_id, import, snapshot) == Some(
            ReconciliationFailureView::IdentityConflict,
        ),
{
}

/// A network is imported by a Headscale configuration exactly if it is a
/// Headscale network of the configured instance, the connection is for that
/// instance too, the import is read-only, and the configuration can be stored.
pub proof fn law_headscale_import_is_read_only(
    network: Network,
    config: HeadscaleImportConfig,
    actual: Seq<char>,
)
    ensures
        headscale_import_problem(network, config, actual) is None <==> {
            &&& config.problem() is None
            &&& network.provider_kind == ProviderKind::Headscale
            &&& network.provider_instance_id@ == config.provider_instance_id@
            &&& actual == config.provider_instance_id@
            &&& config.read_only
            &&& !config.mutation_allowed
        },
        config.problem() matches Some(error) ==> headscale_import_problem(network, config, actual)
            == Some(ReconciliationFailureView::State(error)),
        config.problem() is None && headscale_import_problem(network, config, actual) is Some
            ==> headscale_import_problem(network, config, actual) == Some(
            ReconciliationFailureView::Incompatible,
        ),
{
}

/// A network is imported by a Tailscale configuration exactly if it is a
/// Tailscale network of the configured instance, the connection is for that
/// instance too, and the import is read-only.
pub proof fn law_tailscale_import_is_read_only(
    network: Network,
    config: TailscaleImportConfig,
    actual: Seq<char>,
)
    ensures
        tailscale_import_problem(network, config, actual) is None <==> {
            &&& network.provider_kind == ProviderKind::Tailscale
            &&& network.provider_instance_id@ == config.provider_instance_id@
            &&& actual == config.provider_instance_id@
            &&& config.read_only
            &&& !config.mutation_allowed
        },
        tailscale_import_problem(network, config, actual) is Some ==> tailscale_import_problem(
            network,
            config,
            actual,
        ) == Some(ReconciliationFailureView::Incompatible),
{
}

/// A snapshot is imported exactly if the configuration admits the network and
/// the provider calls itself by the kind and the version that are configured.
pub proof fn law_imported_snapshot_is_of_the_configured_provider(
    network: Network,
    headscale: HeadscaleImportConfig,
    tailscale: TailscaleImportConfig,
    snapshot: Snapshot,
)
    ensures
        headscale_snapshot_problem(network, headscale, snapshot) is None <==> {
            &&& headscale_import_problem(network, headscale, snapshot.instance()@) is None
            &&& snapshot.inspection().provider_name@ == "headscale"@
            &&& snapshot.inspection().instance_id@ == headscale.provider_instance_id@
            &&& !snapshot.inspection().mutation_allowed
            &&& snapshot.inspection().compatibility == CompatibilityStatus::Compatible
                || snapshot.inspection().compatibility
                == CompatibilityStatus::CompatibleWithConstraints
            &&& without_leading_v(snapshot.inspection().provider_version@) == without_leading_v(
                headscale.compatibility_pin@,
            )
        },
        tailscale_snapshot_problem(network, tailscale, snapshot) is None <==> {
            &&& tailscale_import_problem(network, tailscale, snapshot.instance()@) is None
            &&& snapshot.inspection().provider_name@ == "tailscale"@
            &&& snapshot.inspection().instance_id@ == tailscale.provider_instance_id@
            &&& !snapshot.inspection().mutation_allowed
            &&& snapshot.inspection().compatibility == CompatibilityStatus::Compatible
                || snapshot.inspection().compatibility
                == CompatibilityStatus::CompatibleWithConstraints
            &&& without_leading_v(snapshot.inspection().provider_version@) == without_leading_v(
                tailscale.compatibility_pin@,
            )
        },
{
}

/// The row of an import names the network and the instance, allows no mutation,
/// verifies TLS, and says what the provider said of itself at that time.
pub proof fn law_import_row_permits_no_mutation(
    row: ProviderImportRow,
    network_id: NetworkId,
    instance: ProviderInstanceId,
    snapshot: Snapshot,
    at: Timestamp,
)
    requires
        row.imports(network_id, instance, snapshot, at),
    ensures
        row.network@ == network_id@,
        row.provider_instance@ == instance@,
        row.tls_verification@ == "verify"@,
        row.read_only == 1,
        row.mutation_allowed == 0,
        row.compatibility@ == snapshot.inspection().compatibility.text(),
        row.provider_version@ == snapshot.inspection().provider_version@,
        row.last_success_at@ == at.text(),
        row.last_attempt_at@ == at.text(),
{
}

/// An import stores each node of the snapshot once, in order, as it is reported:
/// without a device, observed at that time only, and expired or unmanaged.
pub proof fn law_import_stores_each_node_as_reported(
    records: Seq<ObservationRecord>,
    network_id: NetworkId,
    instance: ProviderInstanceId,
    nodes: Seq<ProviderNode>,
    at: Timestamp,
    i: int,
)
    requires
        are_new_records(records, network_id, instance, nodes, at),
        0 <= i < nodes.len(),
    ensures
        records.len() == nodes.len(),
        records[i].network_id == network_id,
        records[i].provider_instance_id == instance,
        records[i].device_id is None,
        records[i].provider_node_id@ == nodes[i].identity.node_id@,
        records[i].stable_key_fingerprint@ == nodes[i].identity.stable_key_fingerprint@,
        records[i].node == nodes[i],
        records[i].semantic_fingerprint@ == fingerprint_text(
            encode_utf8(nodes[i].timeless_json@),
        ),
        records[i].first_observed_at == at,
        records[i].last_observed_at == at,
        records[i].snapshot_at == at,
        records[i].semantic_generation is None,
        nodes[i].expired ==> records[i].classification
            == ObservationClassification::ProviderExpired,
        !nodes[i].expired ==> records[i].classification
            == ObservationClassification::DiscoveredUnmanaged,
{
    assert(records[i]@.network_id == network_id);
}

/// The trail of an import holds the import, with the membership generation of
/// the network, the start of the reconciliation, the expiry or the discovery of
/// each node in order, and the completion.
pub proof fn law_import_is_recorded_node_by_node(
    network: Network,
    actor: AuditActor,
    nodes: Seq<ProviderNode>,
)
    requires
        network.membership_generation.value <= 0x7fff_ffff_ffff_ffff,
    ensures
        ({
            let events = import_events(network, actor, nodes);
            &&& events.len() == nodes.len() + 3
            &&& events[0].kind == AuditKind::NetworkImported
            &&& events[0].generation matches Some(number) && number
                == network.membership_generation.value
            &&& events[1].kind == AuditKind::ReconciliationStarted
            &&& events[events.len() - 1].kind == AuditKind::ReconciliationCompleted
            &&& forall|i: int|
                0 <= i < nodes.len() ==> (#[trigger] events[i + 2]).kind == (if nodes[i].expired {
                    AuditKind::NodeExpired
                } else {
                    AuditKind::NodeDiscovered
                })
            &&& forall|i: int|
                0 <= i < events.len() ==> {
                    let event = #[trigger] events[i];
                    &&& event.network_id == Some(network.network_id)
                    &&& event.device_id is None
                    &&& event.actor == actor
                    &&& event.outcome == AuditOutcome::Success
                    &&& event.metadata_json == "{}"@
                    &&& event.correlation is None
                }
            &&& forall|i: int|
                1 <= i < events.len() ==> (#[trigger] events[i]).generation is None
        }),
{
}

/// An import is stored exactly if both generations of the network fit the
/// database, the database took the rows, and the events can be recorded.
pub proof fn law_import_is_owed(
    store: StateStore,
    network: Network,
    stored: Result<(), DatabaseFailure>,
)
    ensures
        import_problem(store, network, stored) is None <==> {
            &&& network.membership_generation.value <= 0x7fff_ffff_ffff_ffff
            &&& network.policy_generation.value <= 0x7fff_ffff_ffff_ffff
            &&& stored is Ok
            &&& !store.is_armed(Failpoint::BeforeAuditInsert)
        },
{
}

/// Each way to fail is recorded under a kind and an explanation of its own.
pub proof fn law_failures_are_recorded_apart(failure: ReconciliationFailureView)
    ensures
        failure is Unreachable <==> recorded_kind(failure) == FailureKind::Unreachable,
        failure is AuthenticationFailed <==> recorded_kind(failure) == FailureKind::Authentication,
        failure is Incompatible <==> recorded_kind(failure) == FailureKind::Incompatible,
        failure is Malformed <==> recorded_kind(failure) == FailureKind::Malformed,
        failure is IdentityConflict <==> recorded_kind(failure) == FailureKind::IdentityConflict,
        failure is State <==> recorded_kind(failure) == FailureKind::State,
        failure is Unreachable ==> recorded_detail(failure) == "provider unreachable"@,
        failure is AuthenticationFailed ==> recorded_detail(failure)
            == "provider authentication failed"@,
        failure is Incompatible ==> recorded_detail(failure) == "provider compatibility rejected"@,
        failure is Malformed ==> recorded_detail(failure) == "provider response malformed"@,
        failure is IdentityConflict ==> recorded_detail(failure) == "provider identity conflict"@,
        failure is State ==> recorded_detail(failure) == "local state failure"@,
{
}

/// The event of a failed attempt names the network, who acted and the kind of
/// the failure as its outcome, and holds nothing else; its columns hold the
/// time, the name of the kind and the explanation.
pub proof fn law_failed_attempt_is_recorded_by_its_kind(
    network_id: NetworkId,
    actor: AuditActor,
    kind: FailureKind,
    columns: FailureColumns,
    failure: ImportFailure,
)
    ensures
        failure_fact(network_id, actor, kind).kind == AuditKind::ReconciliationFailed,
        failure_fact(network_id, actor, kind).outcome == AuditOutcome::Provider(kind),
        failure_fact(network_id, actor, kind).network_id == Some(network_id),
        failure_fact(network_id, actor, kind).actor == actor,
        failure_fact(network_id, actor, kind).device_id is None,
        failure_fact(network_id, actor, kind).generation is None,
        failure_fact(network_id, actor, kind).metadata_json == "{}"@,
        failure_fact(network_id, actor, kind).correlation is None,
        columns.stores(failure) ==> {
            &&& columns.last_attempt_at@ == failure.at.text()
            &&& columns.last_failure_kind@ == failure.kind.text()
            &&& columns.last_failure_detail@ == failure.detail@
        },
{
}

/// The report shows how the provider is doing by the stored kind of the last
/// failure; without a failure it is healthy, or was never reconciled.
pub proof fn law_report_state_follows_the_last_failure(
    failure_kind: Option<String>,
    succeeded: bool,
)
    ensures
        failure_kind is None && succeeded ==> state_of(failure_kind, succeeded)
            == ProviderReconciliationState::Healthy,
        failure_kind is None && !succeeded ==> state_of(failure_kind, succeeded)
            == ProviderReconciliationState::NeverReconciled,
        failure_kind matches Some(kind) ==> {
            let state = state_of(failure_kind, succeeded);
            &&& kind@ == "unreachable"@ ==> state == ProviderReconciliationState::Unreachable
            &&& kind@ == "authentication"@ ==> state
                == ProviderReconciliationState::AuthenticationFailed
            &&& kind@ == "incompatible"@ ==> state == ProviderReconciliationState::Incompatible
            &&& kind@ == "malformed"@ ==> state == ProviderReconciliationState::Malformed
            &&& kind@ == "identity_conflict"@ ==> state
                == ProviderReconciliationState::IdentityConflict
            &&& kind@ == "state"@ ==> state == ProviderReconciliationState::StateFailure
            &&& state != ProviderReconciliationState::Healthy
            &&& state != ProviderReconciliationState::NeverReconciled
        },
{
    reveal_strlit("unreachable");
    reveal_strlit("authentication");
    reveal_strlit("incompatible");
    reveal_strlit("malformed");
    reveal_strlit("identity_conflict");
    reveal_strlit("state");
    assert("unreachable"@.len() == 11);
    assert("authentication"@.len() == 14);
    assert("incompatible"@.len() == 12);
    assert("malformed"@.len() == 9);
    assert("identity_conflict"@.len() == 17);
    assert("state"@.len() == 5);
}

/// The number of occurrences of a text grows by one with each further text that
/// is the same, and by none with any other.
pub proof fn law_occurrences_are_counted(texts: Seq<String>, last: String, wanted: Seq<char>)
    ensures
        occurrences(Seq::empty(), wanted) == 0,
        last@ == wanted ==> occurrences(texts.push(last), wanted) == occurrences(texts, wanted) + 1,
        last@ != wanted ==> occurrences(texts.push(last), wanted) == occurrences(texts, wanted),
{
    assert(texts.push(last).drop_last() =~= texts);
}

/// The report says what is stored: the network, the version, each count under
/// its own classification, the explanation of the last failure as its only
/// warning, and that no mutation is enabled.
pub proof fn law_report_says_what_is_stored(
    report: ReconciliationReport,
    network_id: NetworkId,
    classifications: Seq<String>,
    row: ImportStatusRow,
)
    requires
        report.reports(network_id, classifications, row),
    ensures
        report.network_id == network_id,
        report.provider_version@ == row.provider_version@,
        report.provider_compatibility.text() == row.compatibility@,
        report.provider_state == state_of(row.last_failure_kind, row.last_success_at is Some),
        row.last_attempt_at is None <==> report.last_attempted_reconciliation is None,
        row.last_success_at is None <==> report.last_successful_reconciliation is None,
        row.last_attempt_at matches Some(text) ==> (
        report.last_attempted_reconciliation matches Some(at) && instant_of_text(text@) == Some(
            (at.seconds(), at.nanoseconds()),
        )),
        row.last_success_at matches Some(text) ==> (
        report.last_successful_reconciliation matches Some(at) && instant_of_text(text@) == Some(
            (at.seconds(), at.nanoseconds()),
        )),
        report.observed_count == classifications.len(),
        report.discovered_unmanaged_count == occurrences(classifications, "discovered_unmanaged"@),
        report.provider_missing_count == occurrences(classifications, "provider_missing"@),
        report.provider_expired_count == occurrences(classifications, "provider_expired"@),
        report.identity_conflict_count == occurrences(classifications, "identity_conflict"@),
        report.quarantined_count == occurrences(classifications, "quarantined"@),
        report.active_trusted_count == occurrences(classifications, "active"@),
        row.last_failure_detail is None ==> report.warnings@.len() == 0,
        row.last_failure_detail matches Some(detail) ==> report.warnings@.len() == 1
            && report.warnings@[0]@ == detail@,
        !report.provider_mutation_enabled,
{
}

/// A report can be made exactly if the stored compatibility is a known one and
/// the stored times can be read.
pub proof fn law_report_is_owed(row: ImportStatusRow)
    ensures
        row.problem() is None <==> {
            &&& exists|known: CompatibilityStatus| #[trigger] known.text() == row.compatibility@
            &&& row.last_attempt_at matches Some(text) ==> instant_of_text(text@) is Some
            &&& row.last_success_at matches Some(text) ==> instant_of_text(text@) is Some
        },
{
}

/// A stored observation is read exactly if its identifiers, its node and its
/// times can be, and its classification and its adoption are known ones; it is
/// read as what its columns hold.
pub proof fn law_stored_observation_is_read_faithfully(
    row: ObservationRow,
    network_id: NetworkId,
    read: ProviderObservation,
)
    ensures
        row.problem() is None ==> {
            &&& row.device_id matches Some(device) ==> device.parsed is Ok
            &&& row.provider_instance_id.parsed is Ok
            &&& row.node is Ok
            &&& instant_of_text(row.first_observed_at@) is Some
            &&& instant_of_text(row.last_observed_at@) is Some
            &&& instant_of_text(row.snapshot_at@) is Some
            &&& row.adoption_state@ == "unmanaged"@ || row.adoption_state@
                == "pending_device_credential_proof"@ || row.adoption_state@ == "adopted"@
            &&& row.classification@ == "expected_joining"@ || row.classification@
                == "discovered_unmanaged"@ || row.classification@ == "active"@
                || row.classification@ == "provider_missing"@ || row.classification@
                == "provider_expired"@ || row.classification@ == "provider_removed"@
                || row.classification@ == "identity_conflict"@ || row.classification@
                == "quarantined"@ || row.classification@ == "revoked"@
        },
        row.reads_as(network_id, read) ==> {
            &&& row.problem() is None
            &&& read.network_id == network_id
            &&& row.device_id is None ==> read.device_id is None
            &&& row.device_id matches Some(device) ==> device.parsed == Ok::<DeviceId, String>(
                read.device_id->Some_0,
            ) && read.device_id is Some
            &&& row.provider_instance_id.parsed == Ok::<ProviderInstanceId, String>(
                read.provider_instance_id,
            )
            &&& read.canonical_provider_node_id@ == row.provider_node_id@
            &&& read.stable_machine_key_fingerprint@ == row.stable_key_fingerprint@
            &&& row.node == Ok::<ProviderNode, String>(read.node)
            &&& read.classification.text() == row.classification@
            &&& read.adoption_state.text() == row.adoption_state@
            &&& read.semantic_fingerprint@ == row.semantic_fingerprint@
            &&& read.semantic_generation == row.semantic_generation
            &&& instant_of_text(row.first_observed_at@) == Some(
                (read.first_observed_at.seconds(), read.first_observed_at.nanoseconds()),
            )
            &&& instant_of_text(row.last_observed_at@) == Some(
                (read.last_observed_at.seconds(), read.last_observed_at.nanoseconds()),
            )
            &&& instant_of_text(row.snapshot_at@) == Some(
                (read.snapshot_at.seconds(), read.snapshot_at.nanoseconds()),
            )
        },
{
}

/// Reading stops at the first stored observation that cannot be read, and at
/// none if all can be.
pub proof fn law_reading_stops_at_the_first_problem(rows: Seq<ObservationRow>)
    ensures
        first_row_problem(rows) is None <==> forall|i: int|
            0 <= i < rows.len() ==> (#[trigger] rows[i]).problem() is None,
        first_row_problem(rows) is Some ==> exists|i: int|
            0 <= i < rows.len() && (#[trigger] rows[i]).problem() == first_row_problem(rows)
                && forall|j: int| 0 <= j < i ==> (#[trigger] rows[j]).problem() is None,
    decreases rows.len(),
{
    if rows.len() > 0 {
        let fewer = rows.drop_last();
        law_reading_stops_at_the_first_problem(fewer);
        let last = rows.len() - 1;
        assert(rows[last] == rows.last());
        assert forall|i: int| 0 <= i < fewer.len() implies fewer[i] == rows[i] by {}
        if first_row_problem(fewer) is Some {
            let i = choose|i: int|
                0 <= i < fewer.len() && (#[trigger] fewer[i]).problem() == first_row_problem(fewer)
                    && forall|j: int| 0 <= j < i ==> (#[trigger] fewer[j]).problem() is None;
            assert(rows[i].problem() == first_row_problem(rows));
            assert forall|j: int| 0 <= j < i implies (#[trigger] rows[j]).problem() is None by {
                assert(fewer[j].problem() is None);
            }
        } else {
            assert forall|j: int| 0 <= j < last implies (#[trigger] rows[j]).problem() is None by {
                assert(fewer[j].problem() is None);
            }
        }
    }
}

/// In an inventory a node is found exactly under its identifier.
pub proof fn law_inventory_finds_each_node(
    inventory: Seq<ProviderObservation>,
    node_id: Seq<char>,
)
    requires
        is_inventory(inventory),
    ensures
        match lookup(inventory, node_id) {
            Some(seen) => seen.canonical_provider_node_id@ == node_id && inventory.contains(seen),
            None => forall|i: int|
                0 <= i < inventory.len() ==> (#[trigger] inventory[i]).canonical_provider_node_id@
                    != node_id,
        },
{
    lemma_lookup(inventory, node_id);
}

/// A page of observations is shown only if each names the provider of the
/// network and its own node in all of its parts, bears a fingerprint as its key
/// and the fingerprint of its node.
pub proof fn law_shown_observation_is_consistent(
    observation: ProviderObservation,
    instance: Seq<char>,
)
    ensures
        is_consistent(observation, instance) <==> {
            &&& observation.provider_instance_id@ == instance
            &&& observation.node.identity.provider_instance_id@ == instance
            &&& observation.node.identity.node_id@ == observation.canonical_provider_node_id@
            &&& observation.node.identity.stable_key_fingerprint@
                == observation.stable_machine_key_fingerprint@
            &&& is_fingerprint(observation.stable_machine_key_fingerprint@)
            &&& observation.semantic_fingerprint@ == fingerprint_text(
                encode_utf8(observation.node.timeless_json@),
            )
        },
{
}

/// A page holds what was asked for, and never more than one hundred.
pub proof fn law_page_of_observations_is_bounded(limit: usize)
    ensures
        bounded_page(limit) <= 100,
        bounded_page(limit) <= limit,
        limit <= 100 ==> bounded_page(limit) == limit,
        limit >= 100 ==> bounded_page(limit) == 100,
{
}

/// Importing a Headscale network succeeds only for a read-only configuration of the
/// very provider that was inspected; it hands back one record for each node of
/// the snapshot, and leaves the import, the start, one event for each node and
/// the completion in the trail. A refusal leaves nothing.
pub proof fn law_importing_a_headscale_network(
    store: &StateStore,
    network: &Network,
    config: &HeadscaleImportConfig,
    snapshot: Snapshot,
    stored: Result<(), DatabaseFailure>,
    snapshot_at: Timestamp,
    log: &mut AuditLog,
    actor: AuditActor,
    result: Result<Vec<ObservationRecord>, ReconciliationFailure>,
)
    requires
        call_ensures(
            StateStore::import_headscale_network,
            (store, network, config, snapshot, stored, snapshot_at, log, actor),
            result,
        ),
    ensures
        result is Err ==> *final(log) == *old(log),
        result matches Ok(records) ==> {
            &&& stored is Ok
            &&& network.provider_kind == ProviderKind::Headscale
            &&& network.provider_instance_id@ == config.provider_instance_id@
            &&& snapshot.instance()@ == config.provider_instance_id@
            &&& config.read_only
            &&& !config.mutation_allowed
            &&& snapshot.inspection().provider_name@ == "headscale"@
            &&& !snapshot.inspection().mutation_allowed
            &&& snapshot.inspection().compatibility == CompatibilityStatus::Compatible
                || snapshot.inspection().compatibility
                == CompatibilityStatus::CompatibleWithConstraints
            &&& without_leading_v(snapshot.inspection().provider_version@) == without_leading_v(
                config.compatibility_pin@,
            )
            &&& records@.len() == snapshot.nodes().len()
            &&& forall|i: int|
                0 <= i < records@.len() ==> {
                    let record = #[trigger] records@[i];
                    &&& record.device_id is None
                    &&& record.network_id == network.network_id
                    &&& record.provider_node_id@ == snapshot.nodes()[i].identity.node_id@
                    &&& record.node == snapshot.nodes()[i]
                    &&& record.snapshot_at == snapshot_at
                    &&& record.first_observed_at == snapshot_at
                    &&& record.classification == (if snapshot.nodes()[i].expired {
                        ObservationClassification::ProviderExpired
                    } else {
                        ObservationClassification::DiscoveredUnmanaged
                    })
                }
            &&& final(log)@.len() == old(log)@.len() + snapshot.nodes().len() + 3
            &&& final(log)@.take(old(log)@.len() as int) =~= old(log)@
            &&& final(log)@[old(log)@.len() as int].kind == AuditKind::NetworkImported
            &&& final(log)@[old(log)@.len() as int + 1].kind == AuditKind::ReconciliationStarted
            &&& final(log)@.last().kind == AuditKind::ReconciliationCompleted
        },
        headscale_snapshot_problem(*network, *config, snapshot) is None && (
        stored matches Err(failure) && failure.constraint_violated)
            && network.membership_generation.value <= 0x7fff_ffff_ffff_ffff
            && network.policy_generation.value <= 0x7fff_ffff_ffff_ffff ==> (
        result matches Err(failure) && failure@ == ReconciliationFailureView::State(
            StateErrorView::Conflict(stored->Err_0.text@),
        )),
{
    if let Ok(records) = result {
        assert forall|i: int| 0 <= i < records@.len() implies {
            let record = #[trigger] records@[i];
            &&& record.device_id is None
            &&& record.network_id == network.network_id
            &&& record.provider_node_id@ == snapshot.nodes()[i].identity.node_id@
            &&& record.node == snapshot.nodes()[i]
            &&& record.snapshot_at == snapshot_at
            &&& record.first_observed_at == snapshot_at
            &&& record.classification == (if snapshot.nodes()[i].expired {
                ObservationClassification::ProviderExpired
            } else {
                ObservationClassification::DiscoveredUnmanaged
            })
        } by {
            law_import_stores_each_node_as_reported(
                records@,
                network.network_id,
                snapshot.instance(),
                snapshot.nodes(),
                snapshot_at,
                i,
            );
        }
        law_import_is_recorded_node_by_node(*network, actor, snapshot.nodes());
    }
}

/// Importing a Tailscale network succeeds only for a read-only configuration of the
/// very provider that was inspected; it hands back one record for each node of
/// the snapshot, and leaves the import, the start, one event for each node and
/// the completion in the trail. A refusal leaves nothing.
pub proof fn law_importing_a_tailscale_network(
    store: &StateStore,
    network: &Network,
    config: &TailscaleImportConfig,
    snapshot: Snapshot,
    stored: Result<(), DatabaseFailure>,
    snapshot_at: Timestamp,
    log: &mut AuditLog,
    actor: AuditActor,
    result: Result<Vec<ObservationRecord>, ReconciliationFailure>,
)
    requires
        call_ensures(
            StateStore::import_tailscale_network,
            (store, network, config, snapshot, stored, snapshot_at, log, actor),
            result,
        ),
    ensures
        result is Err ==> *final(log) == *old(log),
        result matches Ok(records) ==> {
            &&& stored is Ok
            &&& network.provider_kind == ProviderKind::Tailscale
            &&& network.provider_instance_id@ == config.provider_instance_id@
            &&& snapshot.instance()@ == config.provider_instance_id@
            &&& config.read_only
            &&& !config.mutation_allowed
            &&& snapshot.inspection().provider_name@ == "tailscale"@
            &&& !snapshot.inspection().mutation_allowed
            &&& snapshot.inspection().compatibility == CompatibilityStatus::Compatible
                || snapshot.inspection().compatibility
                == CompatibilityStatus::CompatibleWithConstraints
            &&& without_leading_v(snapshot.inspection().provider_version@) == without_leading_v(
                config.compatibility_pin@,
            )
            &&& records@.len() == snapshot.nodes().len()
            &&& forall|i: int|
                0 <= i < records@.len() ==> {
                    let record = #[trigger] records@[i];
                    &&& record.device_id is None
                    &&& record.network_id == network.network_id
                    &&& record.provider_node_id@ == snapshot.nodes()[i].identity.node_id@
                    &&& record.node == snapshot.nodes()[i]
                    &&& record.snapshot_at == snapshot_at
                    &&& record.first_observed_at == snapshot_at
                    &&& record.classification == (if snapshot.nodes()[i].expired {
                        ObservationClassification::ProviderExpired
                    } else {
                        ObservationClassification::DiscoveredUnmanaged
                    })
                }
            &&& final(log)@.len() == old(log)@.len() + snapshot.nodes().len() + 3
            &&& final(log)@.take(old(log)@.len() as int) =~= old(log)@
            &&& final(log)@[old(log)@.len() as int].kind == AuditKind::NetworkImported
            &&& final(log)@[old(log)@.len() as int + 1].kind == AuditKind::ReconciliationStarted
            &&& final(log)@.last().kind == AuditKind::ReconciliationCompleted
        },
        tailscale_snapshot_problem(*network, *config, snapshot) is None && (
        stored matches Err(failure) && failure.constraint_violated)
            && network.membership_generation.value <= 0x7fff_ffff_ffff_ffff
            && network.policy_generation.value <= 0x7fff_ffff_ffff_ffff ==> (
        result matches Err(failure) && failure@ == ReconciliationFailureView::State(
            StateErrorView::Conflict(stored->Err_0.text@),
        )),
{
    if let Ok(records) = result {
        assert forall|i: int| 0 <= i < records@.len() implies {
            let record = #[trigger] records@[i];
            &&& record.device_id is None
            &&& record.network_id == network.network_id
            &&& record.provider_node_id@ == snapshot.nodes()[i].identity.node_id@
            &&& record.node == snapshot.nodes()[i]
            &&& record.snapshot_at == snapshot_at
            &&& record.first_observed_at == snapshot_at
            &&& record.classification == (if snapshot.nodes()[i].expired {
                ObservationClassification::ProviderExpired
            } else {
                ObservationClassification::DiscoveredUnmanaged
            })
        } by {
            law_import_stores_each_node_as_reported(
                records@,
                network.network_id,
                snapshot.instance(),
                snapshot.nodes(),
                snapshot_at,
                i,
            );
        }
        law_import_is_recorded_node_by_node(*network, actor, snapshot.nodes());
    }
}

/// A failed attempt is recorded with its time, kind and explanation; it is an
/// event only when the last failure was of another kind. Of a network that is
/// not imported nothing is recorded.
pub proof fn law_recording_a_failed_attempt(
    store: &StateStore,
    network_id: &NetworkId,
    previous: Option<Option<String>>,
    at: Timestamp,
    kind: FailureKind,
    detail: &'static str,
    log: &mut AuditLog,
    actor: AuditActor,
    result: Result<ImportFailure, StateError>,
)
    requires
        call_ensures(
            StateStore::record_provider_failure,
            (store, network_id, previous, at, kind, detail, log, actor),
            result,
        ),
    ensures
        previous is None ==> (result matches Err(error) && error@ == StateErrorView::NotFound(
            network_id@,
        )),
        result is Err ==> *final(log) == *old(log),
        result matches Ok(recorded) ==> {
            &&& recorded.at == at
            &&& recorded.kind == kind
            &&& recorded.detail@ == detail@
            &&& previous->Some_0 is Some && previous->Some_0->Some_0@ == kind.text()
                ==> *final(log) == *old(log)
            &&& previous->Some_0 is None || previous->Some_0->Some_0@ != kind.text()
                ==> final(log)@ =~= old(log)@.push(
                AuditFact {
                    network_id: Some(*network_id),
                    device_id: None,
                    actor,
                    kind: AuditKind::ReconciliationFailed,
                    outcome: AuditOutcome::Provider(kind),
                    generation: None,
                    metadata_json: "{}"@,
                    correlation: None,
                },
            )
        },
        previous is Some && !store.is_armed(Failpoint::BeforeAuditInsert) ==> result is Ok,
{
}

/// A failure is recorded under the kind and the explanation of its own.
pub proof fn law_recording_a_failure(
    store: &StateStore,
    network_id: &NetworkId,
    previous: Option<Option<String>>,
    at: Timestamp,
    failure: &ReconciliationFailure,
    log: &mut AuditLog,
    actor: AuditActor,
    result: Result<ImportFailure, StateError>,
)
    requires
        call_ensures(
            StateStore::record_failure_for,
            (store, network_id, previous, at, failure, log, actor),
            result,
        ),
    ensures
        result is Err ==> *final(log) == *old(log),
        result matches Ok(recorded) ==> {
            &&& recorded.at == at
            &&& failure@ is Unreachable <==> recorded.kind == FailureKind::Unreachable
            &&& failure@ is AuthenticationFailed <==> recorded.kind == FailureKind::Authentication
            &&& failure@ is Incompatible <==> recorded.kind == FailureKind::Incompatible
            &&& failure@ is Malformed <==> recorded.kind == FailureKind::Malformed
            &&& failure@ is IdentityConflict <==> recorded.kind == FailureKind::IdentityConflict
            &&& failure@ is State <==> recorded.kind == FailureKind::State
            &&& failure@ is Unreachable ==> recorded.detail@ == "provider unreachable"@
            &&& failure@ is State ==> recorded.detail@ == "local state failure"@
            &&& (previous->Some_0 is None || previous->Some_0->Some_0@ != recorded.kind.text()) ==> {
                &&& final(log)@.len() == old(log)@.len() + 1
                &&& final(log)@.last().kind == AuditKind::ReconciliationFailed
                &&& final(log)@.last().outcome == AuditOutcome::Provider(recorded.kind)
            }
            &&& (previous->Some_0 is Some && previous->Some_0->Some_0@ == recorded.kind.text())
                ==> *final(log) == *old(log)
        },
{
}

/// A connection to another instance is recorded as a conflict of identities, and
/// is one to the caller.
pub proof fn law_recording_another_instance(
    store: &StateStore,
    network_id: &NetworkId,
    previous: Option<Option<String>>,
    at: Timestamp,
    log: &mut AuditLog,
    actor: AuditActor,
    result: Result<(ImportFailure, ReconciliationFailure), StateError>,
)
    requires
        call_ensures(
            StateStore::record_instance_mismatch,
            (store, network_id, previous, at, log, actor),
            result,
        ),
    ensures
        result is Err ==> *final(log) == *old(log),
        result matches Ok(answer) ==> {
            &&& answer.0.at == at
            &&& answer.0.kind == FailureKind::IdentityConflict
            &&& answer.0.detail@ == "provider instance mismatch"@
            &&& answer.1@ == ReconciliationFailureView::IdentityConflict
            &&& (previous->Some_0 is None || previous->Some_0->Some_0@ != "identity_conflict"@)
                ==> final(log)@.len() == old(log)@.len() + 1
        },
{
}

/// What is expected of a provider is what its stored import names; an import
/// that is not read-only, or of another kind, is refused.
pub proof fn law_expecting_the_imported_provider(
    network_id: &NetworkId,
    row: Option<ReconciliationImportRow>,
    result: Result<ReconciliationImportConfig, StateError>,
)
    requires
        call_ensures(reconciliation_import_config, (network_id, row), result),
    ensures
        row is None ==> (result matches Err(error) && error@ == StateErrorView::NotFound(
            network_id@,
        )),
        result matches Ok(config) ==> (row matches Some(stored) && {
            &&& stored.read_only
            &&& !stored.mutation_allowed
            &&& stored.provider_kind@ == "headscale"@ || stored.provider_kind@ == "tailscale"@
            &&& config.provider_name@ == stored.provider_kind@
            &&& config.compatibility_pin@ == stored.compatibility_pin@
            &&& stored.provider_instance_id.parsed == Ok::<ProviderInstanceId, String>(
                config.provider_instance_id,
            )
        }),
        (row matches Some(stored) && {
            &&& stored.read_only
            &&& !stored.mutation_allowed
            &&& stored.provider_kind@ == "headscale"@ || stored.provider_kind@ == "tailscale"@
            &&& stored.provider_instance_id.parsed is Ok
        }) ==> result is Ok,
{
}

/// What is expected of the provider of a new import is what the configuration
/// names, under the kind of the configuration.
pub proof fn law_expecting_the_configured_provider(
    network: &Network,
    headscale: &HeadscaleImportConfig,
    tailscale: &TailscaleImportConfig,
    actual: &ProviderInstanceId,
    headscale_result: Result<ReconciliationImportConfig, ReconciliationFailure>,
    tailscale_result: Result<ReconciliationImportConfig, ReconciliationFailure>,
)
    requires
        call_ensures(begin_headscale_import, (network, headscale, actual), headscale_result),
        call_ensures(begin_tailscale_import, (network, tailscale, actual), tailscale_result),
    ensures
        headscale_result matches Ok(expected) ==> {
            &&& network.provider_kind == ProviderKind::Headscale
            &&& actual@ == headscale.provider_instance_id@
            &&& network.provider_instance_id@ == headscale.provider_instance_id@
            &&& headscale.read_only
            &&& !headscale.mutation_allowed
            &&& expected.provider_instance_id == headscale.provider_instance_id
            &&& expected.provider_name@ == "headscale"@
            &&& expected.compatibility_pin@ == headscale.compatibility_pin@
        },
        tailscale_result matches Ok(expected) ==> {
            &&& network.provider_kind == ProviderKind::Tailscale
            &&& actual@ == tailscale.provider_instance_id@
            &&& network.provider_instance_id@ == tailscale.provider_instance_id@
            &&& tailscale.read_only
            &&& !tailscale.mutation_allowed
            &&& expected.provider_instance_id == tailscale.provider_instance_id
            &&& expected.provider_name@ == "tailscale"@
            &&& expected.compatibility_pin@ == tailscale.compatibility_pin@
        },
        network.provider_kind == ProviderKind::Tailscale && network.provider_instance_id@
            == tailscale.provider_instance_id@ && actual@ == tailscale.provider_instance_id@
            && tailscale.read_only && !tailscale.mutation_allowed ==> tailscale_result is Ok,
{
}

/// The rows of imports hold what is configured; that of a tailnet the address
/// under which it is reached.
pub proof fn law_making_import_rows(
    network: &Network,
    headscale: &HeadscaleImportConfig,
    tailscale: &TailscaleImportConfig,
    snapshot: &Snapshot,
    at: Timestamp,
    headscale_row: ProviderImportRow,
    tailscale_row: ProviderImportRow,
)
    requires
        call_ensures(headscale_import_row, (network, headscale, snapshot, at), headscale_row),
        call_ensures(tailscale_import_row, (network, tailscale, snapshot, at), tailscale_row),
    ensures
        headscale_row.network@ == network.network_id@,
        headscale_row.read_only == 1,
        headscale_row.mutation_allowed == 0,
        headscale_row.tls_verification@ == "verify"@,
        headscale_row.provider_instance@ == headscale.provider_instance_id@,
        headscale_row.server_url@ == headscale.server_url@,
        headscale_row.opaque_secret_reference@ == headscale.opaque_secret_reference@,
        headscale_row.compatibility_pin@ == headscale.compatibility_pin@,
        headscale.custom_root_ca_sha256 is None ==> headscale_row.custom_root_ca_sha256 is None,
        headscale.custom_root_ca_sha256 matches Some(pinned) ==> (
        headscale_row.custom_root_ca_sha256 matches Some(text) && text@ == pinned@),
        headscale_row.last_success_at@ == at.text(),
        tailscale_row.network@ == network.network_id@,
        tailscale_row.read_only == 1,
        tailscale_row.mutation_allowed == 0,
        tailscale_row.provider_instance@ == tailscale.provider_instance_id@,
        tailscale_row.server_url@ == "https://api.tailscale.com/api/v2/tailnet/"@
            + tailscale.tailnet@,
        tailscale_row.opaque_secret_reference@ == tailscale.opaque_secret_reference@,
        tailscale_row.compatibility_pin@ == tailscale.compatibility_pin@,
        tailscale_row.custom_root_ca_sha256 is None,
        tailscale_row.last_success_at@ == at.text(),
{
}

/// A new import is read-only and allows no mutation; it holds what it is made
/// of, and is made only of texts that have their form.
pub proof fn law_making_import_configurations(
    server_url: String,
    tailnet: String,
    provider_instance_id: ProviderInstanceId,
    secret_reference: String,
    compatibility_pin: String,
    tls_verification: TlsVerificationPolicy,
    fingerprint: String,
    config: HeadscaleImportConfig,
    headscale: Result<HeadscaleImportConfig, StateError>,
    tailscale: Result<TailscaleImportConfig, StateError>,
    pinned: Result<HeadscaleImportConfig, StateError>,
)
    requires
        call_ensures(
            HeadscaleImportConfig::new,
            (
                server_url,
                provider_instance_id,
                secret_reference,
                compatibility_pin,
                tls_verification,
            ),
            headscale,
        ),
        call_ensures(
            TailscaleImportConfig::new,
            (tailnet, provider_instance_id, secret_reference),
            tailscale,
        ),
        call_ensures(
            HeadscaleImportConfig::with_custom_root_ca_sha256,
            (config, fingerprint),
            pinned,
        ),
    ensures
        headscale is Ok <==> is_https_origin(server_url@) && is_secret_reference(secret_reference@)
            && is_compatibility_pin(compatibility_pin@),
        headscale matches Ok(made) ==> {
            &&& made.read_only
            &&& !made.mutation_allowed
            &&& made.server_url == server_url
            &&& made.provider_instance_id == provider_instance_id
            &&& made.opaque_secret_reference == secret_reference
            &&& made.compatibility_pin == compatibility_pin
            &&& made.custom_root_ca_sha256 is None
            &&& made.tls_verification == tls_verification
        },
        tailscale is Ok <==> is_tailnet(tailnet@) && is_secret_reference(secret_reference@),
        tailscale matches Ok(made) ==> {
            &&& made.read_only
            &&& !made.mutation_allowed
            &&& made.tailnet == tailnet
            &&& made.provider_instance_id == provider_instance_id
            &&& made.opaque_secret_reference == secret_reference
            &&& made.compatibility_pin@ == "api-v2"@
        },
        pinned is Ok <==> is_fingerprint(fingerprint@),
        pinned matches Ok(made) ==> {
            &&& made.custom_root_ca_sha256 == Some(fingerprint)
            &&& made.server_url == config.server_url
            &&& made.read_only == config.read_only
            &&& made.mutation_allowed == config.mutation_allowed
            &&& made.provider_instance_id == config.provider_instance_id
            &&& made.opaque_secret_reference == config.opaque_secret_reference
            &&& made.compatibility_pin == config.compatibility_pin
        },
{
}

/// A stored import is read as a configuration that verifies TLS, is read-only
/// and allows no mutation, whatever else it holds.
pub proof fn law_reading_an_import_configuration(
    row: HeadscaleImportRow,
    result: Result<(ProviderInstanceId, HeadscaleImportConfig), StateError>,
)
    requires
        call_ensures(import_config, (row,), result),
    ensures
        result matches Ok(read) ==> {
            &&& row.provider_instance_id == Ok::<ProviderInstanceId, String>(read.0)
            &&& read.1.provider_instance_id == read.0
            &&& read.1.server_url == row.server_url
            &&& read.1.opaque_secret_reference == row.opaque_secret_reference
            &&& read.1.compatibility_pin == row.compatibility_pin
            &&& read.1.custom_root_ca_sha256 == row.custom_root_ca_sha256
            &&& read.1.tls_verification == TlsVerificationPolicy::Verify
            &&& read.1.read_only
            &&& !read.1.mutation_allowed
            &&& is_https_origin(row.server_url@)
            &&& is_secret_reference(row.opaque_secret_reference@)
            &&& is_compatibility_pin(row.compatibility_pin@)
        },
{
}

/// The report of a network that is not imported is not found; any other says
/// what is stored, and that no mutation is enabled.
pub proof fn law_reporting_on_a_provider(
    store: &StateStore,
    network_id: &NetworkId,
    classifications: &Vec<String>,
    row: Option<ImportStatusRow>,
    result: Result<ReconciliationReport, StateError>,
)
    requires
        call_ensures(
            StateStore::reconciliation_report,
            (store, network_id, classifications, row),
            result,
        ),
    ensures
        row is None ==> (result matches Err(error) && error@ == StateErrorView::NotFound(
            network_id@,
        )),
        result matches Ok(report) ==> (row matches Some(status) && {
            &&& report.network_id == *network_id
            &&& !report.provider_mutation_enabled
            &&& report.observed_count == classifications@.len()
            &&& report.provider_version@ == status.provider_version@
            &&& report.provider_compatibility.text() == status.compatibility@
            &&& report.provider_missing_count == occurrences(classifications@, "provider_missing"@)
            &&& report.active_trusted_count == occurrences(classifications@, "active"@)
            &&& status.last_failure_kind is None && status.last_success_at is Some
                ==> report.provider_state == ProviderReconciliationState::Healthy
            &&& status.last_failure_kind is None && status.last_success_at is None
                ==> report.provider_state == ProviderReconciliationState::NeverReconciled
            &&& status.last_failure_kind is Some ==> report.provider_state
                != ProviderReconciliationState::Healthy
        }),
{
}

/// A provider that answers is accepted exactly if it is the expected one, and
/// its nodes exactly if they are a snapshot of it; what it did not answer is the
/// failure that it means.
pub proof fn law_taking_a_snapshot(
    expected: ReconciliationImportConfig,
    inspection: Result<ServerInspection, ProviderError>,
    inspected: Result<InspectedProvider, ReconciliationFailure>,
    provider: InspectedProvider,
    listing: Result<Vec<ProviderNode>, ProviderError>,
    listed: Result<Snapshot, ReconciliationFailure>,
)
    requires
        call_ensures(
            ReconciliationImportConfig::inspected,
            (expected, inspection),
            inspected,
        ),
        call_ensures(InspectedProvider::listed, (provider, listing), listed),
    ensures
        inspected matches Ok(accepted) ==> (inspection matches Ok(said) && {
            &&& accepted.expected() == expected
            &&& accepted.inspection() == said
            &&& said.provider_name@ == expected.provider_name@
            &&& said.instance_id@ == expected.provider_instance_id@
            &&& !said.mutation_allowed
            &&& said.compatibility == CompatibilityStatus::Compatible || said.compatibility
                == CompatibilityStatus::CompatibleWithConstraints
            &&& without_leading_v(said.provider_version@) == without_leading_v(
                expected.compatibility_pin@,
            )
        }),
        (inspection is Ok && inspected is Err) ==> inspected->Err_0@
            == ReconciliationFailureView::Incompatible,
        (inspection matches Err(error) && error is AuthenticationFailed) ==> inspected is Err
            && inspected->Err_0@ == ReconciliationFailureView::AuthenticationFailed,
        (listing matches Err(error) && error is Timeout) ==> listed is Err && listed->Err_0@
            == ReconciliationFailureView::Unreachable,
        listed matches Ok(snapshot) ==> (listing matches Ok(nodes) && {
            &&& snapshot.expected() == provider.expected()
            &&& snapshot.inspection() == provider.inspection()
            &&& snapshot.nodes().len() == nodes@.len()
            &&& forall|node: ProviderNode| nodes@.contains(node) <==> snapshot.nodes().contains(
                node,
            )
            &&& forall|i: int|
                0 <= i < nodes@.len() ==> (#[trigger] nodes@[i]).identity.provider_instance_id@
                    == provider.expected().provider_instance_id@
        }),
        (listing is Ok && listed is Err) ==> listed->Err_0@
            == ReconciliationFailureView::IdentityConflict,
{
}

/// A pending adoption of the node ends for the reason that is given, at the
/// generation and the time that are given, and with nothing made up: the first
/// one that names the node, or none.
pub proof fn law_ending_an_adoption(
    network_id: &NetworkId,
    provider_node_id: &str,
    observation_generation: u64,
    reason: AdoptionConflict,
    now: Timestamp,
    actor: &AuditActor,
    pending: &Vec<PendingAction>,
    result: Result<Option<AdoptionDecision>, StateError>,
)
    requires
        call_ensures(
            terminalize_pending_adoption_for_observation,
            (network_id, provider_node_id, observation_generation, reason, now, actor, pending),
            result,
        ),
    ensures
        result == Ok::<Option<AdoptionDecision>, StateError>(None) <==> forall|i: int|
            0 <= i < pending@.len() ==> (#[trigger] pending@[i]).provider_node_id@
                != provider_node_id@,
        result matches Ok(Some(decision)) ==> {
            &&& observation_generation <= 0x7fff_ffff_ffff_ffff
            &&& decision.network_id == *network_id
            &&& decision.provider_node_id@ == provider_node_id@
            &&& decision.observation_generation == observation_generation
            &&& decision.reason == reason
            &&& decision.decided_at_ms == now.millis()
            &&& decision.event.recorded_at == now
            &&& decision.event.actor == *actor
            &&& decision.event.kind == AuditKind::AdoptionActionConflicted
            &&& decision.safe_correlation_digest@ == fingerprint_text(
                encode_utf8(decision.action_id@),
            )
            &&& exists|i: int|
                0 <= i < pending@.len() && (#[trigger] pending@[i]).action_id@
                    == decision.action_id@ && pending@[i].authority_id@ == decision.authority_id@
                    && pending@[i].authority_generation == decision.authority_generation
                    && pending@[i].proof_generation == decision.proof_generation
                    && pending@[i].provider_instance_id@ == decision.provider_instance_id@
        },
        result matches Err(error) ==> observation_generation > 0x7fff_ffff_ffff_ffff && error@
            == StateErrorView::Conflict("observation generation exceeds SQLite integer range"@),
{
    law_pending_adoption_is_the_first_of_its_node(pending@, provider_node_id@);
}

} // verus!
