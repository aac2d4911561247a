//! The report on the provider of a network, from what is stored.

use crate::audit::StateStore;
use crate::error::{conflict, found, ReconciliationFailureView, StateError, StateErrorView};
use crate::ids::NetworkId;
use crate::import::{recorded_kind, FailureColumns, ImportFailure};
use crate::inventory::{
    classified, gathers, is_time_of, lemma_inventory_counts, loads_as, read_as, ObservationRow,
};
use crate::names::{
    law_compatibility_status_names_distinct, law_observation_classification_names_distinct,
    parse_compatibility, CompatibilityStatus, FailureKind, ObservationClassification,
    ProviderReconciliationState,
};
use crate::observation::ProviderObservation;
use crate::reconcile::{ImportSuccess, SuccessColumns};
use crate::records::optional_text;
use crate::text::same_text;
use crate::time::{instant_of_text, lemma_same_instant, Timestamp};
use vstd::prelude::*;

verus! {

/// How the provider of a network is doing, and what was observed of it.
#[derive(Debug, PartialEq, Eq)]
pub struct ReconciliationReport {
    pub network_id: NetworkId,
    pub provider_state: ProviderReconciliationState,
    pub provider_compatibility: CompatibilityStatus,
    pub provider_version: String,
    pub last_attempted_reconciliation: Option<Timestamp>,
    pub last_successful_reconciliation: Option<Timestamp>,
    pub observed_count: u64,
    pub discovered_unmanaged_count: u64,
    pub provider_missing_count: u64,
    pub provider_expired_count: u64,
    pub identity_conflict_count: u64,
    pub quarantined_count: u64,
    pub active_trusted_count: u64,
    pub warnings: Vec<String>,
    pub provider_mutation_enabled: bool,
}

/// The stored import of a network, as far as the report reads it.
#[derive(Debug, PartialEq, Eq)]
pub struct ImportStatusRow {
    pub compatibility: String,
    pub provider_version: String,
    pub last_success_at: Option<String>,
    pub last_attempt_at: Option<String>,
    pub last_failure_kind: Option<String>,
    pub last_failure_detail: Option<String>,
}

/// How many of the texts are the given one.
pub open spec fn occurrences(texts: Seq<String>, wanted: Seq<char>) -> nat
    decreases texts.len(),
{
    if texts.len() == 0 {
        0
    } else {
        occurrences(texts.drop_last(), wanted) + (if texts.last()@ == wanted {
            1nat
        } else {
            0
        })
    }
}

fn count_text(texts: &Vec<String>, wanted: &str) -> (count: u64)
    ensures
        count == occurrences(texts@, wanted@),
{
    let mut count: u64 = 0;
    let total: usize = texts.len();
    assert(texts@.take(0) =~= Seq::<String>::empty());
    for i in 0..total
        invariant
            total == texts@.len(),
            count <= i,
            count == occurrences(texts@.take(i as int), wanted@),
    {
        assert(texts@.take(i + 1).drop_last() =~= texts@.take(i as int));
        if same_text(texts[i].as_str(), wanted) {
            count = count + 1;
        }
    }
    assert(texts@.take(total as int) =~= texts@);
    count
}

/// How the provider is doing, by the last failure and whether there was ever a
/// success.
pub open spec fn state_of(
    failure_kind: Option<String>,
    succeeded: bool,
) -> ProviderReconciliationState {
    match failure_kind {
        None => if succeeded {
            ProviderReconciliationState::Healthy
        } else {
            ProviderReconciliationState::NeverReconciled
        },
        Some(kind) => if kind@ == "unreachable"@ {
            ProviderReconciliationState::Unreachable
        } else if kind@ == "authentication"@ {
            ProviderReconciliationState::AuthenticationFailed
        } else if kind@ == "incompatible"@ {
            ProviderReconciliationState::Incompatible
        } else if kind@ == "malformed"@ {
            ProviderReconciliationState::Malformed
        } else if kind@ == "identity_conflict"@ {
            ProviderReconciliationState::IdentityConflict
        } else {
            ProviderReconciliationState::StateFailure
        },
    }
}

fn provider_state(failure_kind: &Option<String>, succeeded: bool) -> (state:
    ProviderReconciliationState)
    ensures
        state == state_of(*failure_kind, succeeded),
{
    match failure_kind {
        None => if succeeded {
            ProviderReconciliationState::Healthy
        } else {
            ProviderReconciliationState::NeverReconciled
        },
        Some(kind) => if same_text(kind.as_str(), "unreachable") {
            ProviderReconciliationState::Unreachable
        } else if same_text(kind.as_str(), "authentication") {
            ProviderReconciliationState::AuthenticationFailed
        } else if same_text(kind.as_str(), "incompatible") {
            ProviderReconciliationState::Incompatible
        } else if same_text(kind.as_str(), "malformed") {
            ProviderReconciliationState::Malformed
        } else if same_text(kind.as_str(), "identity_conflict") {
            ProviderReconciliationState::IdentityConflict
        } else {
            ProviderReconciliationState::StateFailure
        },
    }
}

/// The optional text names no instant.
pub open spec fn is_bad_time(text: Option<String>) -> bool {
    text matches Some(value) && instant_of_text(value@) is None
}

/// The optional instant is the one that the optional text names.
pub open spec fn is_optional_time(instant: Option<Timestamp>, text: Option<String>) -> bool {
    match (instant, text) {
        (None, None) => true,
        (Some(time), Some(value)) => is_time_of(time, value@),
        _ => false,
    }
}

fn optional_time(text: &Option<String>) -> (result: Result<Option<Timestamp>, StateError>)
    ensures
        match result {
            Ok(time) => is_optional_time(time, *text),
            Err(error) => is_bad_time(*text) && error@ == StateErrorView::Conflict(
                "invalid persisted reconciliation time"@,
            ),
        },
{
    match text {
        None => Ok(None),
        Some(value) => match Timestamp::parse(value.as_str()) {
            Some(time) => Ok(Some(time)),
            None => Err(conflict("invalid persisted reconciliation time")),
        },
    }
}

impl ImportStatusRow {
    /// Why no report can be made, if none can.
    pub open spec fn problem(self) -> Option<StateErrorView> {
        if forall|known: CompatibilityStatus| #[trigger] known.text() != self.compatibility@ {
            Some(StateErrorView::Conflict("unknown persisted provider compatibility"@))
        } else if is_bad_time(self.last_attempt_at) || is_bad_time(self.last_success_at) {
            Some(StateErrorView::Conflict("invalid persisted reconciliation time"@))
        } else {
            None
        }
    }
}

impl SuccessColumns {
    /// The status of the import is what the columns are read as.
    pub open spec fn are_read_as(self, status: ImportStatusRow) -> bool {
        &&& status.compatibility@ == self.compatibility@
        &&& status.provider_version@ == self.provider_version@
        &&& optional_text(status.last_success_at) == Some(self.last_success_at@)
        &&& optional_text(status.last_attempt_at) == Some(self.last_attempt_at@)
        &&& optional_text(status.last_failure_kind) == optional_text(self.last_failure_kind)
        &&& optional_text(status.last_failure_detail) == optional_text(self.last_failure_detail)
    }
}

impl FailureColumns {
    /// Writing the columns takes the status of the import from the one to the
    /// other.
    pub open spec fn are_written(self, before: ImportStatusRow, after: ImportStatusRow) -> bool {
        &&& after.compatibility@ == before.compatibility@
        &&& after.provider_version@ == before.provider_version@
        &&& optional_text(after.last_success_at) == optional_text(before.last_success_at)
        &&& optional_text(after.last_attempt_at) == Some(self.last_attempt_at@)
        &&& optional_text(after.last_failure_kind) == Some(self.last_failure_kind@)
        &&& optional_text(after.last_failure_detail) == Some(self.last_failure_detail@)
    }
}

impl ReconciliationReport {
    /// The report says what is stored: the import, and the classifications of
    /// the observations of the network.
    pub open spec fn reports(
        self,
        network_id: NetworkId,
        classifications: Seq<String>,
        row: ImportStatusRow,
    ) -> bool {
        &&& self.network_id == network_id
        &&& self.provider_state == state_of(row.last_failure_kind, row.last_success_at is Some)
        &&& self.provider_compatibility.text() == row.compatibility@
        &&& self.provider_version == row.provider_version
        &&& is_optional_time(self.last_attempted_reconciliation, row.last_attempt_at)
        &&& is_optional_time(self.last_successful_reconciliation, row.last_success_at)
        &&& self.observed_count == classifications.len()
        &&& self.discovered_unmanaged_count == occurrences(
            classifications,
            "discovered_unmanaged"@,
        )
        &&& self.provider_missing_count == occurrences(classifications, "provider_missing"@)
        &&& self.provider_expired_count == occurrences(classifications, "provider_expired"@)
        &&& self.identity_conflict_count == occurrences(classifications, "identity_conflict"@)
        &&& self.quarantined_count == occurrences(classifications, "quarantined"@)
        &&& self.active_trusted_count == occurrences(classifications, "active"@)
        &&& match row.last_failure_detail {
            Some(detail) => self.warnings@ == seq![detail],
            None => self.warnings@ == Seq::<String>::empty(),
        }
        &&& !self.provider_mutation_enabled
    }
}

impl StateStore {
    /// The report on the provider of a network. `classifications` are those of
    /// all stored observations of the network. An outage does not discard what
    /// the last successful snapshot left.
    pub fn reconciliation_report(
        &self,
        network_id: &NetworkId,
        classifications: &Vec<String>,
        row: Option<ImportStatusRow>,
    ) -> (result: Result<ReconciliationReport, StateError>)
        ensures
            match (row, result) {
                (None, Ok(_)) => false,
                (None, Err(error)) => error@ == StateErrorView::NotFound(network_id@),
                (Some(status), Ok(report)) => {
                    &&& status.problem() is None
                    &&& report.reports(*network_id, classifications@, status)
                },
                (Some(status), Err(error)) => status.problem() == Some(error@),
            },
    {
        let row = found(row, network_id.text.as_str())?;
        let state = provider_state(&row.last_failure_kind, row.last_success_at.is_some());
        let provider_compatibility = parse_compatibility(row.compatibility.as_str())?;
        let last_attempted_reconciliation = optional_time(&row.last_attempt_at)?;
        let last_successful_reconciliation = optional_time(&row.last_success_at)?;
        let mut warnings: Vec<String> = Vec::new();
        if let Some(detail) = row.last_failure_detail {
            warnings.push(detail);
        }
        Ok(
            ReconciliationReport {
                network_id: network_id.clone(),
                provider_state: state,
                provider_compatibility,
                provider_version: row.provider_version,
                last_attempted_reconciliation,
                last_successful_reconciliation,
                observed_count: classifications.len() as u64,
                discovered_unmanaged_count: count_text(classifications, "discovered_unmanaged"),
                provider_missing_count: count_text(classifications, "provider_missing"),
                provider_expired_count: count_text(classifications, "provider_expired"),
                identity_conflict_count: count_text(classifications, "identity_conflict"),
                quarantined_count: count_text(classifications, "quarantined"),
                active_trusted_count: count_text(classifications, "active"),
                warnings,
                provider_mutation_enabled: false,
            },
        )
    }
}

/// What the report shows of a recorded kind of failure.
pub open spec fn shown_state(kind: FailureKind) -> ProviderReconciliationState {
    match kind {
        FailureKind::Unreachable => ProviderReconciliationState::Unreachable,
        FailureKind::Authentication => ProviderReconciliationState::AuthenticationFailed,
        FailureKind::Incompatible => ProviderReconciliationState::Incompatible,
        FailureKind::Malformed => ProviderReconciliationState::Malformed,
        FailureKind::IdentityConflict => ProviderReconciliationState::IdentityConflict,
        FailureKind::State => ProviderReconciliationState::StateFailure,
    }
}

/// The report shows the failure that was recorded last, by its own state,
/// whether there was a success before or not.
pub proof fn law_report_shows_the_last_failure(kind: FailureKind, stored: String, succeeded: bool)
    requires
        stored@ == kind.text(),
    ensures
        state_of(Some(stored), succeeded) == shown_state(kind),
{
    reveal_strlit("unreachable");
    reveal_strlit("authentication");
    reveal_strlit("incompatible");
    reveal_strlit("malformed");
    reveal_strlit("identity_conflict");
    reveal_strlit("state");
    assert("unreachable"@.len() == 11);
    assert("authentication"@.len() == 14);
    assert("incompatible"@.len() == 12);
    assert("malformed"@.len() == 9);
    assert("identity_conflict"@.len() == 17);
    assert("state"@.len() == 5);
}

/// The texts, as sequences of characters.
pub open spec fn text_contents(texts: Seq<String>) -> Seq<Seq<char>> {
    Seq::new(texts.len(), |i: int| texts[i]@)
}

/// The classifications of the stored observations, as they are stored.
pub open spec fn stored_classifications(rows: Seq<ObservationRow>) -> Seq<Seq<char>> {
    Seq::new(rows.len(), |i: int| rows[i].classification@)
}

/// No two stored observations are of the same node.
pub open spec fn are_rows_of_different_nodes(rows: Seq<ObservationRow>) -> bool {
    forall|i: int, j: int|
        0 <= i < j < rows.len() ==> (#[trigger] rows[i]).provider_node_id@ != (
        #[trigger] rows[j]).provider_node_id@
}

proof fn lemma_occurrences(texts: Seq<String>, wanted: Seq<char>)
    ensures
        occurrences(texts, wanted) == text_contents(texts).to_multiset().count(wanted),
    decreases texts.len(),
{
    broadcast use vstd::seq_lib::group_to_multiset_ensures;

    if texts.len() > 0 {
        lemma_occurrences(texts.drop_last(), wanted);
        assert(text_contents(texts) =~= text_contents(texts.drop_last()).push(texts.last()@));
    } else {
        assert(text_contents(texts) =~= Seq::<Seq<char>>::empty());
    }
}

proof fn lemma_stored_classifications(
    rows: Seq<ObservationRow>,
    network_id: NetworkId,
    observations: Seq<ProviderObservation>,
    classification: ObservationClassification,
)
    requires
        read_as(rows, network_id, observations),
    ensures
        stored_classifications(rows).to_multiset().count(classification.text()) == classified(
            observations,
            classification,
        ),
    decreases rows.len(),
{
    broadcast use vstd::seq_lib::group_to_multiset_ensures;

    if rows.len() > 0 {
        let fewer = rows.drop_last();
        assert(read_as(fewer, network_id, observations.drop_last())) by {
            assert forall|i: int| 0 <= i < fewer.len() implies (#[trigger] fewer[i]).reads_as(
                network_id,
                observations.drop_last()[i],
            ) by {
                assert(rows[i] == fewer[i]);
            }
        }
        lemma_stored_classifications(fewer, network_id, observations.drop_last(), classification);
        assert(stored_classifications(rows) =~= stored_classifications(fewer).push(
            rows.last().classification@,
        ));
        assert(rows[rows.len() - 1].reads_as(network_id, observations.last()));
        if observations.last().classification.text() == classification.text() {
            law_observation_classification_names_distinct(
                observations.last().classification,
                classification,
            );
        }
    } else {
        assert(stored_classifications(rows) =~= Seq::<Seq<char>>::empty());
    }
}

proof fn lemma_counted(
    classifications: Seq<String>,
    rows: Seq<ObservationRow>,
    network_id: NetworkId,
    observations: Seq<ProviderObservation>,
    classification: ObservationClassification,
)
    requires
        text_contents(classifications).to_multiset() == stored_classifications(
            rows,
        ).to_multiset(),
        are_rows_of_different_nodes(rows),
        loads_as(rows, network_id, observations),
    ensures
        classifications.len() == observations.len(),
        occurrences(classifications, classification.text()) == classified(
            observations,
            classification,
        ),
{
    broadcast use vstd::seq_lib::group_to_multiset_ensures;

    let read = choose|read: Seq<ProviderObservation>| #[trigger]
        read_as(rows, network_id, read) && gathers(observations, read);
    assert forall|i: int, j: int| 0 <= i < j < read.len() implies (
    #[trigger] read[i]).canonical_provider_node_id@ != (
    #[trigger] read[j]).canonical_provider_node_id@ by {
        assert(rows[i].reads_as(network_id, read[i]) && rows[j].reads_as(network_id, read[j]));
    }
    lemma_inventory_counts(observations, read, classification);
    lemma_stored_classifications(rows, network_id, read, classification);
    lemma_occurrences(classifications, classification.text());
    assert(text_contents(classifications).to_multiset().len() == classifications.len());
    assert(stored_classifications(rows).to_multiset().len() == rows.len());
}

/// The report counts the observations of the network: all of them, and those of
/// each classification that it names. `rows` are the stored observations, one of
/// each node, of which `classifications` are the classifications in whatever
/// order and `observations` is the inventory.
pub proof fn law_report_counts_the_observations(
    report: ReconciliationReport,
    network_id: NetworkId,
    classifications: Seq<String>,
    status: ImportStatusRow,
    rows: Seq<ObservationRow>,
    observations: Seq<ProviderObservation>,
)
    requires
        report.reports(network_id, classifications, status),
        text_contents(classifications).to_multiset() == stored_classifications(
            rows,
        ).to_multiset(),
        are_rows_of_different_nodes(rows),
        loads_as(rows, network_id, observations),
    ensures
        report.network_id == network_id,
        !report.provider_mutation_enabled,
        report.observed_count == observations.len(),
        report.discovered_unmanaged_count == classified(
            observations,
            ObservationClassification::DiscoveredUnmanaged,
        ),
        report.provider_missing_count == classified(
            observations,
            ObservationClassification::ProviderMissing,
        ),
        report.provider_expired_count == classified(
            observations,
            ObservationClassification::ProviderExpired,
        ),
        report.identity_conflict_count == classified(
            observations,
            ObservationClassification::IdentityConflict,
        ),
        report.quarantined_count == classified(
            observations,
            ObservationClassification::Quarantined,
        ),
        report.active_trusted_count == classified(observations, ObservationClassification::Active),
{
    lemma_counted(
        classifications,
        rows,
        network_id,
        observations,
        ObservationClassification::DiscoveredUnmanaged,
    );
    lemma_counted(
        classifications,
        rows,
        network_id,
        observations,
        ObservationClassification::ProviderMissing,
    );
    lemma_counted(
        classifications,
        rows,
        network_id,
        observations,
        ObservationClassification::ProviderExpired,
    );
    lemma_counted(
        classifications,
        rows,
        network_id,
        observations,
        ObservationClassification::IdentityConflict,
    );
    lemma_counted(
        classifications,
        rows,
        network_id,
        observations,
        ObservationClassification::Quarantined,
    );
    lemma_counted(
        classifications,
        rows,
        network_id,
        observations,
        ObservationClassification::Active,
    );
}

/// The report shows a recorded success: the provider is healthy, without
/// warnings, and the success and the attempt have the time of it.
pub proof fn law_report_shows_the_success(
    report: ReconciliationReport,
    network_id: NetworkId,
    classifications: Seq<String>,
    status: ImportStatusRow,
    success: ImportSuccess,
    columns: SuccessColumns,
)
    requires
        columns.stores(success),
        columns.are_read_as(status),
        report.reports(network_id, classifications, status),
    ensures
        status.problem() is None,
        report.provider_state == ProviderReconciliationState::Healthy,
        report.provider_compatibility == success.compatibility,
        report.provider_version@ == success.provider_version@,
        report.last_successful_reconciliation == Some(success.at),
        report.last_attempted_reconciliation == Some(success.at),
        report.warnings@ == Seq::<String>::empty(),
{
    assert(success.compatibility.text() == status.compatibility@);
    law_compatibility_status_names_distinct(report.provider_compatibility, success.compatibility);
    lemma_same_instant(report.last_successful_reconciliation->Some_0, success.at);
    lemma_same_instant(report.last_attempted_reconciliation->Some_0, success.at);
}

/// What the report shows after an attempt that failed in the given way.
pub open spec fn state_after(failure: ReconciliationFailureView) -> ProviderReconciliationState {
    match failure {
        ReconciliationFailureView::Unreachable => ProviderReconciliationState::Unreachable,
        ReconciliationFailureView::AuthenticationFailed =>
            ProviderReconciliationState::AuthenticationFailed,
        ReconciliationFailureView::Incompatible => ProviderReconciliationState::Incompatible,
        ReconciliationFailureView::Malformed => ProviderReconciliationState::Malformed,
        ReconciliationFailureView::IdentityConflict => ProviderReconciliationState::IdentityConflict,
        ReconciliationFailureView::State(_) => ProviderReconciliationState::StateFailure,
    }
}

/// Both reports count the same.
pub open spec fn have_same_counts(left: ReconciliationReport, right: ReconciliationReport) -> bool {
    &&& left.observed_count == right.observed_count
    &&& left.discovered_unmanaged_count == right.discovered_unmanaged_count
    &&& left.provider_missing_count == right.provider_missing_count
    &&& left.provider_expired_count == right.provider_expired_count
    &&& left.identity_conflict_count == right.identity_conflict_count
    &&& left.quarantined_count == right.quarantined_count
    &&& left.active_trusted_count == right.active_trusted_count
}

/// A failed attempt discards nothing of what the last successful snapshot left:
/// the report then shows the failure, the time of the attempt and one warning,
/// and is the same as before in all else, the last success, the version, the
/// compatibility and every count. A failed attempt stores nothing but its
/// columns, so the classifications of the observations are what they were.
pub proof fn law_failed_attempt_keeps_the_inventory(
    network_id: NetworkId,
    previous: ReconciliationReport,
    classifications: Seq<String>,
    before: ImportStatusRow,
    failure: ReconciliationFailureView,
    recorded: ImportFailure,
    columns: FailureColumns,
    after: ImportStatusRow,
    unchanged: Seq<String>,
    report: ReconciliationReport,
)
    requires
        before.problem() is None,
        previous.reports(network_id, classifications, before),
        recorded.kind == recorded_kind(failure),
        columns.stores(recorded),
        columns.are_written(before, after),
        text_contents(unchanged).to_multiset() == text_contents(classifications).to_multiset(),
        report.reports(network_id, unchanged, after),
    ensures
        after.problem() is None,
        report.network_id == previous.network_id,
        report.provider_state == state_after(failure),
        report.last_attempted_reconciliation == Some(recorded.at),
        report.warnings@.len() == 1,
        report.warnings@[0]@ == recorded.detail@,
        report.last_successful_reconciliation == previous.last_successful_reconciliation,
        report.provider_version@ == previous.provider_version@,
        report.provider_compatibility == previous.provider_compatibility,
        have_same_counts(report, previous),
        !report.provider_mutation_enabled,
{
    broadcast use vstd::seq_lib::group_to_multiset_ensures;

    assert(before.compatibility@ == previous.provider_compatibility.text());
    law_compatibility_status_names_distinct(
        report.provider_compatibility,
        previous.provider_compatibility,
    );
    law_report_shows_the_last_failure(
        recorded.kind,
        after.last_failure_kind->Some_0,
        after.last_success_at is Some,
    );
    lemma_same_instant(report.last_attempted_reconciliation->Some_0, recorded.at);
    if before.last_success_at is Some {
        lemma_same_instant(
            report.last_successful_reconciliation->Some_0,
            previous.last_successful_reconciliation->Some_0,
        );
    }
    lemma_occurrences(classifications, "discovered_unmanaged"@);
    lemma_occurrences(classifications, "provider_missing"@);
    lemma_occurrences(classifications, "provider_expired"@);
    lemma_occurrences(classifications, "identity_conflict"@);
    lemma_occurrences(classifications, "quarantined"@);
    lemma_occurrences(classifications, "active"@);
    lemma_occurrences(unchanged, "discovered_unmanaged"@);
    lemma_occurrences(unchanged, "provider_missing"@);
    lemma_occurrences(unchanged, "provider_expired"@);
    lemma_occurrences(unchanged, "identity_conflict"@);
    lemma_occurrences(unchanged, "quarantined"@);
    lemma_occurrences(unchanged, "active"@);
    assert(text_contents(unchanged).to_multiset().len() == unchanged.len());
    assert(text_contents(classifications).to_multiset().len() == classifications.len());
}

} // verus!
