//! Taking a snapshot of a provider: what is expected of it, and which answers
//! are accepted.

use crate::config::{HeadscaleImportConfig, TailscaleImportConfig};
use crate::error::{
    accepted, conflict, found, ReconciliationFailure, ReconciliationFailureView, StateError,
    StateErrorView,
};
use crate::ids::{parse_problem, NetworkId, ProviderInstanceId, Stored};
use crate::names::{ProviderError, ProviderKind};
use crate::observation::{
    failure_of, is_acceptable, is_ordered, is_snapshot, map_provider_failure, same_nodes,
    validate_read_only_inspection, validate_snapshot, ProviderNode, ServerInspection,
};
use crate::records::Network;
use crate::text::same_text;
use vstd::prelude::*;

verus! {

/// The stored import of a network, as far as reconciliation reads it.
#[derive(Debug, PartialEq, Eq)]
pub struct ReconciliationImportRow {
    pub provider_instance_id: Stored<ProviderInstanceId>,
    pub provider_kind: String,
    pub compatibility_pin: String,
    pub read_only: bool,
    pub mutation_allowed: bool,
}

impl Clone for ReconciliationImportRow {
    fn clone(&self) -> (copy: Self)
        ensures
            copy == *self,
    {
        ReconciliationImportRow {
            provider_instance_id: Stored {
                text: self.provider_instance_id.text.clone(),
                parsed: match &self.provider_instance_id.parsed {
                    Ok(instance) => Ok(instance.clone()),
                    Err(text) => Err(text.clone()),
                },
            },
            provider_kind: self.provider_kind.clone(),
            compatibility_pin: self.compatibility_pin.clone(),
            read_only: self.read_only,
            mutation_allowed: self.mutation_allowed,
        }
    }
}

impl ReconciliationImportRow {
    /// Why the import cannot be reconciled, if it cannot.
    pub open spec fn problem(self) -> Option<StateErrorView> {
        if parse_problem(self.provider_instance_id) is Some {
            parse_problem(self.provider_instance_id)
        } else if !self.read_only || self.mutation_allowed {
            Some(StateErrorView::Conflict("persisted provider import is not read-only"@))
        } else if self.provider_kind@ != "headscale"@ && self.provider_kind@ != "tailscale"@ {
            Some(StateErrorView::Conflict("unsupported persisted provider kind"@))
        } else {
            None
        }
    }
}

/// What is expected of the provider of a network.
#[derive(Debug, PartialEq, Eq)]
pub struct ReconciliationImportConfig {
    pub provider_instance_id: ProviderInstanceId,
    pub provider_name: &'static str,
    pub compatibility_pin: String,
}

/// What is expected of the provider of a network, by its stored import.
pub fn reconciliation_import_config(
    network_id: &NetworkId,
    row: Option<ReconciliationImportRow>,
) -> (result: Result<ReconciliationImportConfig, StateError>)
    ensures
        match (row, result) {
            (None, Ok(_)) => false,
            (None, Err(error)) => error@ == StateErrorView::NotFound(network_id@),
            (Some(stored), Ok(config)) => {
                &&& stored.problem() is None
                &&& stored.provider_instance_id.parsed == Ok::<ProviderInstanceId, String>(
                    config.provider_instance_id,
                )
                &&& config.provider_name@ == stored.provider_kind@
                &&& config.compatibility_pin == stored.compatibility_pin
            },
            (Some(stored), Err(error)) => stored.problem() == Some(error@),
        },
{
    let row = found(row, network_id.text.as_str())?;
    let provider_instance_id = accepted(row.provider_instance_id.parsed)?;
    if !row.read_only || row.mutation_allowed {
        return Err(conflict("persisted provider import is not read-only"));
    }
    let provider_name = if same_text(row.provider_kind.as_str(), "headscale") {
        "headscale"
    } else if same_text(row.provider_kind.as_str(), "tailscale") {
        "tailscale"
    } else {
        return Err(conflict("unsupported persisted provider kind"));
    };
    Ok(
        ReconciliationImportConfig {
            provider_instance_id,
            provider_name,
            compatibility_pin: row.compatibility_pin,
        },
    )
}

/// Why a snapshot is not applied to a network, if it is not: the network has no
/// import that can be reconciled, or the snapshot is not one of the provider that
/// the import names.
pub open spec fn round_problem(
    network_id: Seq<char>,
    import: Option<ReconciliationImportRow>,
    snapshot: Snapshot,
) -> Option<ReconciliationFailureView> {
    match import {
        None => Some(ReconciliationFailureView::State(StateErrorView::NotFound(network_id))),
        Some(stored) => if stored.problem() is Some {
            Some(ReconciliationFailureView::State(stored.problem()->Some_0))
        } else if snapshot.instance()@ != stored.provider_instance_id.parsed->Ok_0@ {
            Some(ReconciliationFailureView::IdentityConflict)
        } else if !is_acceptable(
            snapshot.inspection(),
            stored.provider_instance_id.parsed->Ok_0@,
            stored.provider_kind@,
            stored.compatibility_pin@,
        ) {
            Some(ReconciliationFailureView::Incompatible)
        } else {
            None
        },
    }
}

/// Requires that a snapshot is one of the provider that the import of the
/// network names.
pub fn check_round(
    network_id: &NetworkId,
    import: Option<ReconciliationImportRow>,
    snapshot: &Snapshot,
) -> (result: Result<(), ReconciliationFailure>)
    ensures
        match result {
            Ok(()) => round_problem(network_id@, import, *snapshot) is None,
            Err(failure) => round_problem(network_id@, import, *snapshot) == Some(failure@),
        },
{
    let config = match reconciliation_import_config(network_id, import) {
        Ok(config) => config,
        Err(error) => return Err(ReconciliationFailure::State(error)),
    };
    if !config.is_for(snapshot.provider()) {
        return Err(ReconciliationFailure::IdentityConflict);
    }
    validate_read_only_inspection(
        snapshot.inspected(),
        &config.provider_instance_id,
        config.provider_name,
        config.compatibility_pin.as_str(),
    )
}

/// Why a network cannot be imported by a Headscale configuration, if it cannot.
pub open spec fn headscale_import_problem(
    network: Network,
    config: HeadscaleImportConfig,
    actual: Seq<char>,
) -> Option<ReconciliationFailureView> {
    if config.problem() is Some {
        Some(ReconciliationFailureView::State(config.problem()->Some_0))
    } else if !(network.provider_kind is Headscale) || network.provider_instance_id@
        != config.provider_instance_id@ || actual != config.provider_instance_id@
        || !config.read_only || config.mutation_allowed {
        Some(ReconciliationFailureView::Incompatible)
    } else {
        None
    }
}

/// What is expected of the provider by which a Headscale network is imported.
/// `actual` is the instance that the connection is for.
pub fn begin_headscale_import(
    network: &Network,
    config: &HeadscaleImportConfig,
    actual: &ProviderInstanceId,
) -> (result: Result<ReconciliationImportConfig, ReconciliationFailure>)
    ensures
        match result {
            Ok(expected) => {
                &&& headscale_import_problem(*network, *config, actual@) is None
                &&& expected.provider_instance_id == config.provider_instance_id
                &&& expected.provider_name@ == "headscale"@
                &&& expected.compatibility_pin@ == config.compatibility_pin@
            },
            Err(failure) => headscale_import_problem(*network, *config, actual@) == Some(failure@),
        },
{
    if let Err(error) = config.validate_for_persistence() {
        return Err(ReconciliationFailure::State(error));
    }
    let headscale = match network.provider_kind {
        ProviderKind::Headscale => true,
        _ => false,
    };
    if !headscale || !network.provider_instance_id.same(&config.provider_instance_id)
        || !actual.same(&config.provider_instance_id) || !config.read_only
        || config.mutation_allowed {
        return Err(ReconciliationFailure::Incompatible);
    }
    Ok(
        ReconciliationImportConfig {
            provider_instance_id: config.provider_instance_id.clone(),
            provider_name: "headscale",
            compatibility_pin: config.compatibility_pin.clone(),
        },
    )
}

/// Why a network cannot be imported with a snapshot of its Headscale server, if
/// it cannot: the configuration is refused, or the server is not the configured
/// one, of the pinned version.
pub open spec fn headscale_snapshot_problem(
    network: Network,
    config: HeadscaleImportConfig,
    snapshot: Snapshot,
) -> Option<ReconciliationFailureView> {
    if headscale_import_problem(network, config, snapshot.instance()@) is Some {
        headscale_import_problem(network, config, snapshot.instance()@)
    } else if !is_acceptable(
        snapshot.inspection(),
        config.provider_instance_id@,
        "headscale"@,
        config.compatibility_pin@,
    ) {
        Some(ReconciliationFailureView::Incompatible)
    } else {
        None
    }
}

/// Why a network cannot be imported by a Tailscale configuration, if it cannot.
pub open spec fn tailscale_import_problem(
    network: Network,
    config: TailscaleImportConfig,
    actual: Seq<char>,
) -> Option<ReconciliationFailureView> {
    if !(network.provider_kind is Tailscale) || network.provider_instance_id@
        != config.provider_instance_id@ || actual != config.provider_instance_id@
        || !config.read_only || config.mutation_allowed {
        Some(ReconciliationFailureView::Incompatible)
    } else {
        None
    }
}

/// What is expected of the provider by which a Tailscale network is imported.
/// `actual` is the instance that the connection is for.
pub fn begin_tailscale_import(
    network: &Network,
    config: &TailscaleImportConfig,
    actual: &ProviderInstanceId,
) -> (result: Result<ReconciliationImportConfig, ReconciliationFailure>)
    ensures
        match result {
            Ok(expected) => {
                &&& tailscale_import_problem(*network, *config, actual@) is None
                &&& expected.provider_instance_id == config.provider_instance_id
                &&& expected.provider_name@ == "tailscale"@
                &&& expected.compatibility_pin@ == config.compatibility_pin@
            },
            Err(failure) => tailscale_import_problem(*network, *config, actual@) == Some(failure@),
        },
{
    let tailscale = match network.provider_kind {
        ProviderKind::Tailscale => true,
        _ => false,
    };
    if !tailscale || !network.provider_instance_id.same(&config.provider_instance_id)
        || !actual.same(&config.provider_instance_id) || !config.read_only
        || config.mutation_allowed {
        return Err(ReconciliationFailure::Incompatible);
    }
    Ok(
        ReconciliationImportConfig {
            provider_instance_id: config.provider_instance_id.clone(),
            provider_name: "tailscale",
            compatibility_pin: config.compatibility_pin.clone(),
        },
    )
}

/// Why a network cannot be imported with a snapshot of its tailnet, if it cannot:
/// the configuration is refused, or the tailnet is not the configured one, of the
/// pinned version.
pub open spec fn tailscale_snapshot_problem(
    network: Network,
    config: TailscaleImportConfig,
    snapshot: Snapshot,
) -> Option<ReconciliationFailureView> {
    if tailscale_import_problem(network, config, snapshot.instance()@) is Some {
        tailscale_import_problem(network, config, snapshot.instance()@)
    } else if !is_acceptable(
        snapshot.inspection(),
        config.provider_instance_id@,
        "tailscale"@,
        config.compatibility_pin@,
    ) {
        Some(ReconciliationFailureView::Incompatible)
    } else {
        None
    }
}

/// Requires that a Headscale server is the configured one.
pub fn validate_inspection(inspection: &ServerInspection, config: &HeadscaleImportConfig) -> (result:
    Result<(), ReconciliationFailure>)
    ensures
        match result {
            Ok(()) => is_acceptable(
                *inspection,
                config.provider_instance_id@,
                "headscale"@,
                config.compatibility_pin@,
            ),
            Err(failure) => {
                &&& !is_acceptable(
                    *inspection,
                    config.provider_instance_id@,
                    "headscale"@,
                    config.compatibility_pin@,
                )
                &&& failure@ == ReconciliationFailureView::Incompatible
            },
        },
{
    validate_read_only_inspection(
        inspection,
        &config.provider_instance_id,
        "headscale",
        config.compatibility_pin.as_str(),
    )
}

/// A provider that was inspected and found acceptable.
#[derive(Debug)]
pub struct InspectedProvider {
    expected: ReconciliationImportConfig,
    inspection: ServerInspection,
}

/// A complete list of the nodes of an acceptable provider, with what was
/// expected of it.
#[derive(Debug)]
pub struct Snapshot {
    expected: ReconciliationImportConfig,
    inspection: ServerInspection,
    nodes: Vec<ProviderNode>,
}

impl ReconciliationImportConfig {
    /// The answer to an inspection is accepted.
    pub open spec fn accepts(self, inspection: ServerInspection) -> bool {
        is_acceptable(
            inspection,
            self.provider_instance_id@,
            self.provider_name@,
            self.compatibility_pin@,
        )
    }

    /// Whether the connection is for the expected instance.
    pub fn is_for(&self, actual: &ProviderInstanceId) -> (same: bool)
        ensures
            same == (actual@ == self.provider_instance_id@),
    {
        actual.same(&self.provider_instance_id)
    }

    /// Takes the answer of the provider to an inspection.
    pub fn inspected(self, answer: Result<ServerInspection, ProviderError>) -> (result: Result<
        InspectedProvider,
        ReconciliationFailure,
    >)
        ensures
            match (answer, result) {
                (Ok(inspection), Ok(provider)) => {
                    &&& self.accepts(inspection)
                    &&& provider.expected() == self
                    &&& provider.inspection() == inspection
                },
                (Ok(inspection), Err(failure)) => {
                    &&& !self.accepts(inspection)
                    &&& failure@ == ReconciliationFailureView::Incompatible
                },
                (Err(error), Ok(_)) => false,
                (Err(error), Err(failure)) => failure@ == failure_of(error),
            },
    {
        let inspection = match answer {
            Ok(inspection) => inspection,
            Err(error) => return Err(map_provider_failure(error)),
        };
        validate_read_only_inspection(
            &inspection,
            &self.provider_instance_id,
            self.provider_name,
            self.compatibility_pin.as_str(),
        )?;
        Ok(InspectedProvider { expected: self, inspection })
    }
}

impl InspectedProvider {
    #[verifier::type_invariant]
    spec fn acceptable(self) -> bool {
        self.expected.accepts(self.inspection)
    }

    /// What was expected of the provider.
    pub closed spec fn expected(self) -> ReconciliationImportConfig {
        self.expected
    }

    /// What the provider said of itself.
    pub closed spec fn inspection(self) -> ServerInspection {
        self.inspection
    }

    /// Takes the answer of the provider to the listing of its nodes.
    pub fn listed(self, answer: Result<Vec<ProviderNode>, ProviderError>) -> (result: Result<
        Snapshot,
        ReconciliationFailure,
    >)
        ensures
            match (answer, result) {
                (Ok(nodes), Ok(snapshot)) => {
                    &&& is_snapshot(nodes@, self.expected().provider_instance_id@)
                    &&& snapshot.expected() == self.expected()
                    &&& snapshot.inspection() == self.inspection()
                    &&& is_ordered(snapshot.nodes())
                    &&& same_nodes(nodes@, snapshot.nodes())
                },
                (Ok(nodes), Err(failure)) => {
                    &&& !is_snapshot(nodes@, self.expected().provider_instance_id@)
                    &&& failure@ == ReconciliationFailureView::IdentityConflict
                },
                (Err(error), Ok(_)) => false,
                (Err(error), Err(failure)) => failure@ == failure_of(error),
            },
    {
        let nodes = match answer {
            Ok(nodes) => nodes,
            Err(error) => return Err(map_provider_failure(error)),
        };
        let ghost reported = nodes@;
        proof {
            use_type_invariant(&self);
        }
        let ordered = validate_snapshot(nodes, &self.expected.provider_instance_id)?;
        proof {
            let instance = self.expected.provider_instance_id@;
            assert forall|i: int| 0 <= i < ordered@.len() implies (
            #[trigger] ordered@[i]).identity.provider_instance_id@ == instance by {
                assert(reported.contains(ordered@[i]));
                let k = choose|k: int| 0 <= k < reported.len() && reported[k] == ordered@[i];
                assert(reported[k].identity.provider_instance_id@ == instance);
            }
        }
        Ok(
            Snapshot {
                expected: self.expected,
                inspection: self.inspection,
                nodes: ordered,
            },
        )
    }
}

impl Snapshot {
    #[verifier::type_invariant]
    spec fn valid(self) -> bool {
        &&& self.expected.accepts(self.inspection)
        &&& is_ordered(self.nodes@)
        &&& forall|i: int|
            0 <= i < self.nodes@.len() ==> (
            #[trigger] self.nodes@[i]).identity.provider_instance_id@
                == self.expected.provider_instance_id@
    }

    /// What was expected of the provider.
    pub closed spec fn expected(self) -> ReconciliationImportConfig {
        self.expected
    }

    /// The instance of the provider.
    pub open spec fn instance(self) -> ProviderInstanceId {
        self.expected().provider_instance_id
    }

    /// What the provider said of itself.
    pub closed spec fn inspection(self) -> ServerInspection {
        self.inspection
    }

    /// The nodes, in the order of their identifiers, each identifier once.
    pub closed spec fn nodes(self) -> Seq<ProviderNode> {
        self.nodes@
    }

    /// The parts of the snapshot.
    pub fn parts(self) -> (parts: (ProviderInstanceId, ServerInspection, Vec<ProviderNode>))
        ensures
            parts.0 == self.instance(),
            parts.1 == self.inspection(),
            parts.2@ == self.nodes(),
            self.expected().accepts(parts.1),
            is_ordered(parts.2@),
            forall|i: int|
                0 <= i < parts.2@.len() ==> (
                #[trigger] parts.2@[i]).identity.provider_instance_id@ == parts.0@,
    {
        proof {
            use_type_invariant(&self);
        }
        (self.expected.provider_instance_id, self.inspection, self.nodes)
    }

    /// The instance of the provider.
    pub fn provider(&self) -> (instance: &ProviderInstanceId)
        ensures
            *instance == self.instance(),
    {
        &self.expected.provider_instance_id
    }

    /// What the provider said of itself.
    pub fn inspected(&self) -> (inspection: &ServerInspection)
        ensures
            *inspection == self.inspection(),
    {
        &self.inspection
    }
}

} // verus!
