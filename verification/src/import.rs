//! Importing a network with the nodes of its provider, and recording failed
//! attempts to reach the provider.

use crate::audit::{AuditActor, AuditFact, AuditLog, StateStore};
use crate::config::{HeadscaleImportConfig, HeadscaleImportRow, TailscaleImportConfig};
use crate::error::{
    found, storage_problem, storage_result, DatabaseFailure, ReconciliationFailure,
    ReconciliationFailureView, StateError, StateErrorView,
};
use crate::ids::{random_id, NetworkId, ProviderInstanceId};
use crate::inventory::is_time_of;
use crate::metadata::SanitizedMetadata;
use crate::names::{
    compatibility_name, failure_kind_name, AuditKind, AuditOutcome, FailureKind,
    ObservationClassification,
};
use crate::observation::{
    first_class, first_classification, is_acceptable, semantic_fingerprint, semantic_text,
    validate_read_only_inspection, ProviderNode,
};
use crate::reconcile::{change_events, ObservationRecord, RecordFact};
use crate::records::{network_problem, network_row, optional_text, Network};
use crate::rules::is_fingerprint;
use crate::snapshot::{
    begin_headscale_import, begin_tailscale_import, headscale_snapshot_problem,
    tailscale_snapshot_problem, validate_inspection, Snapshot,
};
use crate::store::{either, success_fact};
use crate::text::is_text;
use crate::time::Timestamp;
use vstd::prelude::*;

verus! {

/// The row of an import. It permits no mutation.
#[derive(Debug, PartialEq, Eq)]
pub struct ProviderImportRow {
    pub network: String,
    pub provider_instance: String,
    pub server_url: String,
    pub opaque_secret_reference: String,
    pub compatibility_pin: String,
    pub custom_root_ca_sha256: Option<String>,
    pub tls_verification: &'static str,
    pub read_only: i64,
    pub mutation_allowed: i64,
    pub compatibility: &'static str,
    pub provider_version: String,
    pub last_success_at: String,
    pub last_attempt_at: String,
}

impl ProviderImportRow {
    /// The row is that of a read-only import, at the given time, of the provider
    /// that was inspected.
    pub open spec fn imports(
        self,
        network_id: NetworkId,
        instance: ProviderInstanceId,
        snapshot: Snapshot,
        at: Timestamp,
    ) -> bool {
        &&& self.network@ == network_id@
        &&& self.provider_instance@ == instance@
        &&& self.tls_verification@ == "verify"@
        &&& self.read_only == 1
        &&& self.mutation_allowed == 0
        &&& self.compatibility@ == snapshot.inspection().compatibility.text()
        &&& self.provider_version@ == snapshot.inspection().provider_version@
        &&& self.last_success_at@ == at.text()
        &&& self.last_attempt_at@ == at.text()
    }
}

/// The row of a Headscale import.
pub fn headscale_import_row(
    network: &Network,
    config: &HeadscaleImportConfig,
    snapshot: &Snapshot,
    at: Timestamp,
) -> (row: ProviderImportRow)
    ensures
        row.imports(network.network_id, config.provider_instance_id, *snapshot, at),
        row.server_url@ == config.server_url@,
        row.opaque_secret_reference@ == config.opaque_secret_reference@,
        row.compatibility_pin@ == config.compatibility_pin@,
        optional_text(row.custom_root_ca_sha256) == optional_text(config.custom_root_ca_sha256),
{
    ProviderImportRow {
        network: network.network_id.text.clone(),
        provider_instance: config.provider_instance_id.text.clone(),
        server_url: config.server_url.clone(),
        opaque_secret_reference: config.opaque_secret_reference.clone(),
        compatibility_pin: config.compatibility_pin.clone(),
        custom_root_ca_sha256: match &config.custom_root_ca_sha256 {
            Some(fingerprint) => Some(fingerprint.clone()),
            None => None,
        },
        tls_verification: "verify",
        read_only: 1,
        mutation_allowed: 0,
        compatibility: compatibility_name(snapshot.inspected().compatibility),
        provider_version: snapshot.inspected().provider_version.clone(),
        last_success_at: at.to_rfc3339(),
        last_attempt_at: at.to_rfc3339(),
    }
}

/// The row of a Tailscale import.
pub fn tailscale_import_row(
    network: &Network,
    config: &TailscaleImportConfig,
    snapshot: &Snapshot,
    at: Timestamp,
) -> (row: ProviderImportRow)
    ensures
        row.imports(network.network_id, config.provider_instance_id, *snapshot, at),
        row.server_url@ == "https://api.tailscale.com/api/v2/tailnet/"@ + config.tailnet@,
        row.opaque_secret_reference@ == config.opaque_secret_reference@,
        row.compatibility_pin@ == config.compatibility_pin@,
        row.custom_root_ca_sha256 is None,
{
    ProviderImportRow {
        network: network.network_id.text.clone(),
        provider_instance: config.provider_instance_id.text.clone(),
        server_url: config.scoped_api_url(),
        opaque_secret_reference: config.opaque_secret_reference.clone(),
        compatibility_pin: config.compatibility_pin.clone(),
        custom_root_ca_sha256: None,
        tls_verification: "verify",
        read_only: 1,
        mutation_allowed: 0,
        compatibility: compatibility_name(snapshot.inspected().compatibility),
        provider_version: snapshot.inspected().provider_version.clone(),
        last_success_at: at.to_rfc3339(),
        last_attempt_at: at.to_rfc3339(),
    }
}

/// How a node is stored that was never observed before.
pub open spec fn new_record(
    network_id: NetworkId,
    instance: ProviderInstanceId,
    node: ProviderNode,
    classification: ObservationClassification,
    at: Timestamp,
) -> RecordFact {
    RecordFact {
        network_id,
        device_id: None,
        provider_instance_id: instance,
        provider_node_id: node.identity.node_id@,
        stable_key_fingerprint: node.identity.stable_key_fingerprint@,
        classification,
        semantic_fingerprint: semantic_text(node),
        node,
        first_observed_at: at,
        last_observed_at: at,
        snapshot_at: at,
        semantic_generation: None,
    }
}

/// The record of a node that was never observed before.
pub fn insert_new_observation(
    network_id: &NetworkId,
    provider_instance_id: &ProviderInstanceId,
    node: &ProviderNode,
    classification: ObservationClassification,
    snapshot_at: Timestamp,
) -> (record: ObservationRecord)
    ensures
        record@ == new_record(*network_id, *provider_instance_id, *node, classification, snapshot_at),
        record.observation_id@.len() == 36,
{
    ObservationRecord {
        observation_id: random_id(),
        network_id: network_id.clone(),
        device_id: None,
        provider_instance_id: provider_instance_id.clone(),
        provider_node_id: node.identity.node_id.clone(),
        stable_key_fingerprint: node.identity.stable_key_fingerprint.clone(),
        classification,
        semantic_fingerprint: semantic_fingerprint(node),
        node: node.clone(),
        first_observed_at: snapshot_at,
        last_observed_at: snapshot_at,
        snapshot_at,
        semantic_generation: None,
    }
}

/// The kind of the event by which a node is imported.
pub open spec fn imported_kind(node: ProviderNode) -> AuditKind {
    if node.expired {
        AuditKind::NodeExpired
    } else {
        AuditKind::NodeDiscovered
    }
}

/// The events of an import.
pub open spec fn import_events(
    network: Network,
    actor: AuditActor,
    nodes: Seq<ProviderNode>,
) -> Seq<AuditFact> {
    seq![
        success_fact(
            network.network_id,
            None,
            actor,
            AuditKind::NetworkImported,
            Some(network.membership_generation),
        ),
    ] + change_events(
        network.network_id,
        actor,
        seq![AuditKind::ReconciliationStarted] + nodes.map_values(
            |node: ProviderNode| imported_kind(node),
        ) + seq![AuditKind::ReconciliationCompleted],
    )
}

/// The records are those of nodes that were never observed before, each under a
/// fresh identifier.
pub open spec fn are_new_records(
    records: Seq<ObservationRecord>,
    network_id: NetworkId,
    instance: ProviderInstanceId,
    nodes: Seq<ProviderNode>,
    at: Timestamp,
) -> bool {
    &&& records.len() == nodes.len()
    &&& forall|i: int|
        0 <= i < records.len() ==> {
            &&& (#[trigger] records[i])@ == new_record(
                network_id,
                instance,
                nodes[i],
                first_class(nodes[i].expired),
                at,
            )
            &&& records[i].observation_id@.len() == 36
        }
}

/// Why an import is not stored and recorded, if it is not.
pub open spec fn import_problem(
    store: StateStore,
    network: Network,
    stored: Result<(), DatabaseFailure>,
) -> Option<StateErrorView> {
    either(
        network_problem(network),
        either(storage_problem(stored), store.audit_problem(Some(network.membership_generation))),
    )
}

impl StateStore {
    fn import_network(
        &self,
        network: &Network,
        snapshot: Snapshot,
        stored: Result<(), DatabaseFailure>,
        at: Timestamp,
        log: &mut AuditLog,
        actor: AuditActor,
    ) -> (result: Result<Vec<ObservationRecord>, StateError>)
        ensures
            final(log).known == old(log).known,
            match result {
                Ok(records) => {
                    &&& import_problem(*self, *network, stored) is None
                    &&& are_new_records(
                        records@,
                        network.network_id,
                        snapshot.instance(),
                        snapshot.nodes(),
                        at,
                    )
                    &&& final(log)@ == old(log)@ + import_events(*network, actor, snapshot.nodes())
                },
                Err(error) => {
                    &&& *final(log) == *old(log)
                    &&& import_problem(*self, *network, stored) == Some(error@)
                },
            },
    {
        network_row(network)?;
        storage_result(stored)?;
        let (instance, _inspection, nodes) = snapshot.parts();
        let mut records: Vec<ObservationRecord> = Vec::new();
        let mut kinds: Vec<AuditKind> = Vec::new();
        let ghost node_kinds = nodes@.map_values(|node: ProviderNode| imported_kind(node));
        kinds.push(AuditKind::ReconciliationStarted);
        for i in 0..nodes.len()
            invariant
                node_kinds == nodes@.map_values(|node: ProviderNode| imported_kind(node)),
                kinds@ == seq![AuditKind::ReconciliationStarted] + node_kinds.take(i as int),
                are_new_records(
                    records@,
                    network.network_id,
                    instance,
                    nodes@.take(i as int),
                    at,
                ),
        {
            let node = &nodes[i];
            records.push(
                insert_new_observation(
                    &network.network_id,
                    &instance,
                    node,
                    first_classification(node),
                    at,
                ),
            );
            kinds.push(
                if node.expired {
                    AuditKind::NodeExpired
                } else {
                    AuditKind::NodeDiscovered
                },
            );
            proof {
                assert(kinds@ =~= seq![AuditKind::ReconciliationStarted] + node_kinds.take(i + 1));
                let longer = nodes@.take(i + 1);
                assert forall|j: int| 0 <= j < records@.len() implies {
                    &&& (#[trigger] records@[j])@ == new_record(
                        network.network_id,
                        instance,
                        longer[j],
                        first_class(longer[j].expired),
                        at,
                    )
                    &&& records@[j].observation_id@.len() == 36
                } by {
                    if j < i {
                        assert(longer[j] == nodes@.take(i as int)[j]);
                    }
                }
            }
        }
        kinds.push(AuditKind::ReconciliationCompleted);
        proof {
            assert(nodes@.take(nodes@.len() as int) =~= nodes@);
            assert(kinds@ =~= seq![AuditKind::ReconciliationStarted] + node_kinds
                + seq![AuditKind::ReconciliationCompleted]);
        }
        let ghost before = log@;
        self.append_success(
            log,
            network.network_id.clone(),
            None,
            actor.clone(),
            AuditKind::NetworkImported,
            Some(network.membership_generation),
        )?;
        self.append_kinds(log, &network.network_id, &actor, &kinds)?;
        assert(log@ =~= before + import_events(*network, actor, nodes@));
        Ok(records)
    }

    /// Imports a network with the nodes of its Headscale server, read-only:
    /// `stored` is what the database answered to the rows of the network and of
    /// the import. The records of the observations are returned, to be stored.
    pub fn import_headscale_network(
        &self,
        network: &Network,
        config: &HeadscaleImportConfig,
        snapshot: Snapshot,
        stored: Result<(), DatabaseFailure>,
        snapshot_at: Timestamp,
        log: &mut AuditLog,
        actor: AuditActor,
    ) -> (result: Result<Vec<ObservationRecord>, ReconciliationFailure>)
        ensures
            final(log).known == old(log).known,
            match result {
                Ok(records) => {
                    &&& headscale_snapshot_problem(*network, *config, snapshot) is None
                    &&& is_acceptable(
                        snapshot.inspection(),
                        config.provider_instance_id@,
                        "headscale"@,
                        config.compatibility_pin@,
                    )
                    &&& import_problem(*self, *network, stored) is None
                    &&& are_new_records(
                        records@,
                        network.network_id,
                        snapshot.instance(),
                        snapshot.nodes(),
                        snapshot_at,
                    )
                    &&& final(log)@ == old(log)@ + import_events(*network, actor, snapshot.nodes())
                },
                Err(failure) => {
                    &&& *final(log) == *old(log)
                    &&& match headscale_snapshot_problem(*network, *config, snapshot) {
                        Some(problem) => failure@ == problem,
                        None => {
                            &&& failure@ matches ReconciliationFailureView::State(error)
                                && import_problem(*self, *network, stored) == Some(error)
                        },
                    }
                },
            },
    {
        begin_headscale_import(network, config, snapshot.provider())?;
        validate_inspection(snapshot.inspected(), config)?;
        match self.import_network(network, snapshot, stored, snapshot_at, log, actor) {
            Ok(records) => Ok(records),
            Err(error) => Err(ReconciliationFailure::State(error)),
        }
    }

    /// Imports a network with the nodes of its tailnet, read-only: `stored` is
    /// what the database answered to the rows of the network and of the import.
    /// The records of the observations are returned, to be stored.
    pub fn import_tailscale_network(
        &self,
        network: &Network,
        config: &TailscaleImportConfig,
        snapshot: Snapshot,
        stored: Result<(), DatabaseFailure>,
        snapshot_at: Timestamp,
        log: &mut AuditLog,
        actor: AuditActor,
    ) -> (result: Result<Vec<ObservationRecord>, ReconciliationFailure>)
        ensures
            final(log).known == old(log).known,
            match result {
                Ok(records) => {
                    &&& tailscale_snapshot_problem(*network, *config, snapshot) is None
                    &&& is_acceptable(
                        snapshot.inspection(),
                        config.provider_instance_id@,
                        "tailscale"@,
                        config.compatibility_pin@,
                    )
                    &&& import_problem(*self, *network, stored) is None
                    &&& are_new_records(
                        records@,
                        network.network_id,
                        snapshot.instance(),
                        snapshot.nodes(),
                        snapshot_at,
                    )
                    &&& final(log)@ == old(log)@ + import_events(*network, actor, snapshot.nodes())
                },
                Err(failure) => {
                    &&& *final(log) == *old(log)
                    &&& match tailscale_snapshot_problem(*network, *config, snapshot) {
                        Some(problem) => failure@ == problem,
                        None => {
                            &&& failure@ matches ReconciliationFailureView::State(error)
                                && import_problem(*self, *network, stored) == Some(error)
                        },
                    }
                },
            },
    {
        begin_tailscale_import(network, config, snapshot.provider())?;
        validate_read_only_inspection(
            snapshot.inspected(),
            &config.provider_instance_id,
            "tailscale",
            config.compatibility_pin.as_str(),
        )?;
        match self.import_network(network, snapshot, stored, snapshot_at, log, actor) {
            Ok(records) => Ok(records),
            Err(error) => Err(ReconciliationFailure::State(error)),
        }
    }
}

/// The kind under which a failure is recorded.
pub open spec fn recorded_kind(failure: ReconciliationFailureView) -> FailureKind {
    match failure {
        ReconciliationFailureView::Unreachable => FailureKind::Unreachable,
        ReconciliationFailureView::AuthenticationFailed => FailureKind::Authentication,
        ReconciliationFailureView::Incompatible => FailureKind::Incompatible,
        ReconciliationFailureView::Malformed => FailureKind::Malformed,
        ReconciliationFailureView::IdentityConflict => FailureKind::IdentityConflict,
        ReconciliationFailureView::State(_) => FailureKind::State,
    }
}

/// The explanation under which a failure is recorded. It holds nothing that the
/// provider sent.
pub open spec fn recorded_detail(failure: ReconciliationFailureView) -> Seq<char> {
    match failure {
        ReconciliationFailureView::Unreachable => "provider unreachable"@,
        ReconciliationFailureView::AuthenticationFailed => "provider authentication failed"@,
        ReconciliationFailureView::Incompatible => "provider compatibility rejected"@,
        ReconciliationFailureView::Malformed => "provider response malformed"@,
        ReconciliationFailureView::IdentityConflict => "provider identity conflict"@,
        ReconciliationFailureView::State(_) => "local state failure"@,
    }
}

/// What is recorded of a failed attempt in the import of the network.
#[derive(Debug, PartialEq, Eq)]
pub struct ImportFailure {
    pub at: Timestamp,
    pub kind: FailureKind,
    pub detail: &'static str,
}

/// The columns of the import of the network that a failed attempt sets. All others
/// stay as they are.
#[derive(Debug, PartialEq, Eq)]
pub struct FailureColumns {
    pub last_attempt_at: String,
    pub last_failure_kind: &'static str,
    pub last_failure_detail: &'static str,
}

impl FailureColumns {
    /// The columns store the failure, and its time can be read from them.
    pub open spec fn stores(self, failure: ImportFailure) -> bool {
        &&& self.last_attempt_at@ == failure.at.text()
        &&& is_time_of(failure.at, failure.at.text())
        &&& self.last_failure_kind@ == failure.kind.text()
        &&& self.last_failure_detail@ == failure.detail@
    }
}

impl ImportFailure {
    /// The columns of the import of the network that the attempt sets.
    pub fn columns(&self) -> (columns: FailureColumns)
        ensures
            columns.stores(*self),
    {
        FailureColumns {
            last_attempt_at: self.at.to_rfc3339(),
            last_failure_kind: failure_kind_name(self.kind),
            last_failure_detail: self.detail,
        }
    }
}

/// The event of a failed attempt.
pub open spec fn failure_fact(network_id: NetworkId, actor: AuditActor, kind: FailureKind) -> AuditFact {
    AuditFact {
        network_id: Some(network_id),
        device_id: None,
        actor,
        kind: AuditKind::ReconciliationFailed,
        outcome: AuditOutcome::Provider(kind),
        generation: None,
        metadata_json: "{}"@,
        correlation: None,
    }
}

impl StateStore {
    /// Records a failed attempt to reach a provider. `previous` is the stored
    /// kind of the last failure, if the network is imported. An event is
    /// recorded only when the kind is not the one of the last failure.
    pub fn record_provider_failure(
        &self,
        network_id: &NetworkId,
        previous: Option<Option<String>>,
        at: Timestamp,
        kind: FailureKind,
        detail: &'static str,
        log: &mut AuditLog,
        actor: AuditActor,
    ) -> (result: Result<ImportFailure, StateError>)
        ensures
            final(log).known == old(log).known,
            ({
                let repeated = previous matches Some(last) && optional_text(last) == Some(
                    kind.text(),
                );
                match result {
                    Ok(failure) => {
                        &&& previous is Some
                        &&& failure.at == at
                        &&& failure.kind == kind
                        &&& failure.detail@ == detail@
                        &&& repeated ==> *final(log) == *old(log)
                        &&& !repeated ==> self.audit_problem(None) is None && final(log)@ == old(
                            log,
                        )@.push(failure_fact(*network_id, actor, kind))
                    },
                    Err(error) => {
                        &&& *final(log) == *old(log)
                        &&& if previous is None {
                            error@ == StateErrorView::NotFound(network_id@)
                        } else {
                            !repeated && self.audit_problem(None) == Some(error@)
                        }
                    },
                }
            }),
    {
        let previous = found(previous, network_id.text.as_str())?;
        if !is_text(&previous, failure_kind_name(kind)) {
            self.append_audit(
                log,
                Some(network_id.clone()),
                None,
                actor,
                AuditKind::ReconciliationFailed,
                AuditOutcome::Provider(kind),
                None,
                &SanitizedMetadata::empty(),
            )?;
        }
        Ok(ImportFailure { at, kind, detail })
    }

    /// Records that an attempt failed in the given way.
    pub fn record_failure_for(
        &self,
        network_id: &NetworkId,
        previous: Option<Option<String>>,
        at: Timestamp,
        failure: &ReconciliationFailure,
        log: &mut AuditLog,
        actor: AuditActor,
    ) -> (result: Result<ImportFailure, StateError>)
        ensures
            final(log).known == old(log).known,
            ({
                let kind = recorded_kind(failure@);
                let repeated = previous matches Some(last) && optional_text(last) == Some(
                    kind.text(),
                );
                match result {
                    Ok(recorded) => {
                        &&& previous is Some
                        &&& recorded.at == at
                        &&& recorded.kind == kind
                        &&& recorded.detail@ == recorded_detail(failure@)
                        &&& repeated ==> *final(log) == *old(log)
                        &&& !repeated ==> self.audit_problem(None) is None && final(log)@ == old(
                            log,
                        )@.push(failure_fact(*network_id, actor, kind))
                    },
                    Err(error) => {
                        &&& *final(log) == *old(log)
                        &&& if previous is None {
                            error@ == StateErrorView::NotFound(network_id@)
                        } else {
                            !repeated && self.audit_problem(None) == Some(error@)
                        }
                    },
                }
            }),
    {
        let (kind, detail): (FailureKind, &'static str) = match failure {
            ReconciliationFailure::Unreachable => (
                FailureKind::Unreachable,
                "provider unreachable",
            ),
            ReconciliationFailure::AuthenticationFailed => (
                FailureKind::Authentication,
                "provider authentication failed",
            ),
            ReconciliationFailure::Incompatible => (
                FailureKind::Incompatible,
                "provider compatibility rejected",
            ),
            ReconciliationFailure::Malformed => (
                FailureKind::Malformed,
                "provider response malformed",
            ),
            ReconciliationFailure::IdentityConflict => (
                FailureKind::IdentityConflict,
                "provider identity conflict",
            ),
            ReconciliationFailure::State(_) => (FailureKind::State, "local state failure"),
        };
        self.record_provider_failure(network_id, previous, at, kind, detail, log, actor)
    }
}

impl StateStore {
    /// Records that the connection is for another instance than the one that the
    /// import of the network names. With what is recorded comes the failure that
    /// the caller is answered.
    pub fn record_instance_mismatch(
        &self,
        network_id: &NetworkId,
        previous: Option<Option<String>>,
        at: Timestamp,
        log: &mut AuditLog,
        actor: AuditActor,
    ) -> (result: Result<(ImportFailure, ReconciliationFailure), StateError>)
        ensures
            final(log).known == old(log).known,
            ({
                let repeated = previous matches Some(last) && optional_text(last) == Some(
                    FailureKind::IdentityConflict.text(),
                );
                match result {
                    Ok((recorded, failure)) => {
                        &&& previous is Some
                        &&& recorded.at == at
                        &&& recorded.kind == FailureKind::IdentityConflict
                        &&& recorded.detail@ == "provider instance mismatch"@
                        &&& failure@ == ReconciliationFailureView::IdentityConflict
                        &&& repeated ==> *final(log) == *old(log)
                        &&& !repeated ==> self.audit_problem(None) is None && final(log)@ == old(
                            log,
                        )@.push(failure_fact(*network_id, actor, FailureKind::IdentityConflict))
                    },
                    Err(error) => {
                        &&& *final(log) == *old(log)
                        &&& if previous is None {
                            error@ == StateErrorView::NotFound(network_id@)
                        } else {
                            !repeated && self.audit_problem(None) == Some(error@)
                        }
                    },
                }
            }),
    {
        let recorded = self.record_provider_failure(
            network_id,
            previous,
            at,
            FailureKind::IdentityConflict,
            "provider instance mismatch",
            log,
            actor,
        )?;
        Ok((recorded, ReconciliationFailure::IdentityConflict))
    }
}

/// What an import stores is untrusted evidence: no record belongs to a device,
/// and none is classified as active.
pub proof fn law_imports_trust_nothing(
    records: Seq<ObservationRecord>,
    network_id: NetworkId,
    instance: ProviderInstanceId,
    nodes: Seq<ProviderNode>,
    at: Timestamp,
    i: int,
)
    requires
        are_new_records(records, network_id, instance, nodes, at),
        0 <= i < records.len(),
    ensures
        records[i].device_id is None,
        records[i].classification != ObservationClassification::Active,
{
    assert(records[i]@ == new_record(
        network_id,
        instance,
        nodes[i],
        first_class(nodes[i].expired),
        at,
    ));
}

/// A stored Headscale import, once its identifier is read as what it names, is
/// the configuration that it was made from.
pub proof fn law_headscale_import_reads_back(
    config: HeadscaleImportConfig,
    row: ProviderImportRow,
    stored: HeadscaleImportRow,
    read: HeadscaleImportConfig,
)
    requires
        config.problem() is None,
        config.custom_root_ca_sha256 matches Some(fingerprint) ==> is_fingerprint(fingerprint@),
        row.server_url@ == config.server_url@,
        row.opaque_secret_reference@ == config.opaque_secret_reference@,
        row.compatibility_pin@ == config.compatibility_pin@,
        optional_text(row.custom_root_ca_sha256) == optional_text(config.custom_root_ca_sha256),
        stored.provider_instance_id == Ok::<ProviderInstanceId, String>(
            config.provider_instance_id,
        ),
        stored.server_url@ == row.server_url@,
        stored.opaque_secret_reference@ == row.opaque_secret_reference@,
        stored.compatibility_pin@ == row.compatibility_pin@,
        optional_text(stored.custom_root_ca_sha256) == optional_text(row.custom_root_ca_sha256),
        read.server_url == stored.server_url,
        read.opaque_secret_reference == stored.opaque_secret_reference,
        read.compatibility_pin == stored.compatibility_pin,
        read.custom_root_ca_sha256 == stored.custom_root_ca_sha256,
    ensures
        stored.problem() is None,
        read.server_url@ == config.server_url@,
        read.opaque_secret_reference@ == config.opaque_secret_reference@,
        read.compatibility_pin@ == config.compatibility_pin@,
        optional_text(read.custom_root_ca_sha256) == optional_text(config.custom_root_ca_sha256),
{
}

} // verus!
