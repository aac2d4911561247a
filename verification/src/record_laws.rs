//! What holds of the stored records, of their errors and of the audit trail,
//! said on the records, the columns and the answers of the database.

use crate::audit::{
    records, to_i64, validate_next, AuditActor, AuditFact, AuditLog, StateStore,
};
use crate::error::{
    storage_problem, DatabaseFailure, ReconciliationFailureView, StateError, StateErrorView,
};
use crate::ids::{
    parse_problem, DeviceId, Generation, InvitationId, JoinSessionId, NetworkId, Stored,
    StoredGeneration,
};
use crate::lifecycle::{
    candidate_problem, due_ids, first_due_problem, first_list_problem,
    law_due_invitations_are_in_order, view_problem, ExpiryRow, ListedInvitation,
    N4InvitationCandidate, N4InvitationContext, N4InvitationView, N4Lifecycle,
};
use crate::metadata::{metadata_json, SanitizedMetadata};
use crate::names::{
    AuditKind, AuditOutcome, Failpoint, JoinSessionState, MembershipState, N4CleanupState,
};
use crate::paging::{by_key, law_page_is_bounded, page_of, Keyed};
use crate::records::{
    device_problem, network_problem, Device, DeviceGenerations, DeviceRow, Invitation,
    InvitationRow, JoinSession, JoinSessionRow, Network, NetworkRow, Revocation, RevocationRow,
};
use crate::redemption::N4IssueRows;
use crate::rules::is_identifier;
use crate::store::{
    advance_problem, creation_problem, device_cursor, either, first_unreadable,
    is_network_creation, record_problem, stale_problem, success_fact, transition_problem,
    JoinSessionRecords, MovedSession, RevokedDevice, StoredDevice, StoredDeviceGenerations,
};
use crate::text::{ascii_lower, lemma_text_before_irreflexive, text_before};
use crate::time::{is_instant, is_millis, lemma_same_instant, Timestamp};
use vstd::prelude::*;

verus! {

/// Every column of the row of a network holds the fact of that name, the state
/// and the kind of the provider in lower case.
pub proof fn law_network_is_stored_faithfully(row: NetworkRow, network: Network)
    requires
        row.stores(network),
    ensures
        row.network@ == network.network_id@,
        row.name@ == network.name@,
        row.state@ == ascii_lower(network.state@),
        row.provider_kind@ == ascii_lower(network.provider_kind.text()),
        row.provider_instance@ == network.provider_instance_id@,
        row.membership_generation == network.membership_generation.value,
        row.policy_generation == network.policy_generation.value,
        row.created_at@ == network.created_at.text(),
        row.updated_at@ == network.updated_at.text(),
{
}

/// A network has a row exactly if both of its generations fit the database.
pub proof fn law_network_has_a_row(network: Network)
    ensures
        network_problem(network) is None <==> network.membership_generation.value
            <= 0x7fff_ffff_ffff_ffff && network.policy_generation.value <= 0x7fff_ffff_ffff_ffff,
        network_problem(network) is Some ==> network_problem(network) == Some(
            StateErrorView::Conflict("generation exceeds SQLite integer range"@),
        ),
{
}

/// Every column of the row of a device holds the fact of that name; the identity
/// at the provider is there in full or not at all.
pub proof fn law_device_is_stored_faithfully(row: DeviceRow, device: Device)
    requires
        row.stores(device),
    ensures
        row.device@ == device.device_id@,
        row.network@ == device.network_id@,
        row.display_name@ == device.display_name@,
        row.membership_state@ == ascii_lower(device.membership_state.text()),
        device.provider_identity is None ==> row.provider_instance is None && row.provider_node
            is None && row.provider_key_fingerprint is None,
        device.provider_identity matches Some(identity) ==> {
            &&& row.provider_instance matches Some(text) && text@ == identity.provider_instance_id@
            &&& row.provider_node matches Some(text) && text@ == identity.node_id@
            &&& row.provider_key_fingerprint matches Some(text) && text@
                == identity.stable_key_fingerprint@
        },
        row.credential_generation == device.generations.credential.value,
        row.keryx_binding_generation == device.generations.keryx_binding.value,
        row.fleet_projection_generation == device.generations.fleet_projection.value,
        row.fleet_projection_status@ == ascii_lower(device.fleet_projection_status@),
        row.created_at@ == device.created_at.text(),
        row.updated_at@ == device.updated_at.text(),
        device.revoked_at is None ==> row.revoked_at is None,
        device.revoked_at matches Some(at) ==> (row.revoked_at matches Some(text) && text@
            == at.text()),
{
}

/// A device comes into being exactly if it is neither active nor suspended and
/// its generations fit the database.
pub proof fn law_device_is_not_created_trusted(device: Device)
    ensures
        device_problem(device) is None <==> {
            &&& device.membership_state.text() != "Active"@
            &&& device.membership_state.text() != "Suspended"@
            &&& device.generations.credential.value <= 0x7fff_ffff_ffff_ffff
            &&& device.generations.keryx_binding.value <= 0x7fff_ffff_ffff_ffff
            &&& device.generations.fleet_projection.value <= 0x7fff_ffff_ffff_ffff
        },
        device_problem(device) == Some(StateErrorView::ActivationGated)
            <==> device.membership_state.text() == "Active"@ || device.membership_state.text()
            == "Suspended"@,
{
}

/// Every column of the row of an invitation holds the fact of that name.
pub proof fn law_invitation_is_stored_faithfully(row: InvitationRow, invitation: Invitation)
    requires
        row.stores(invitation),
    ensures
        row.invitation@ == invitation.invitation_id@,
        row.network@ == invitation.network_id@,
        row.state@ == ascii_lower(invitation.state.text()),
        row.secret_verifier@ == invitation.secret_verifier@,
        invitation.provider_credential_reference is None ==> row.provider_credential_reference
            is None,
        invitation.provider_credential_reference matches Some(id) ==> (
        row.provider_credential_reference matches Some(text) && text@ == id@),
        row.max_uses == invitation.max_uses,
        row.used_count == invitation.used_count,
        row.created_at@ == invitation.created_at.text(),
        row.expires_at@ == invitation.expires_at.text(),
{
}

/// An invitation of the fenced lifecycle is stored as new, whatever it says of
/// itself: for one use, unused, without a credential, at the first revision,
/// with the context that it is issued for and who issued it.
pub proof fn law_issued_rows_are_those_of_a_new_invitation(
    rows: N4IssueRows,
    invitation: Invitation,
    context: N4InvitationContext,
    actor: AuditActor,
)
    requires
        rows.issue(invitation, context, actor),
    ensures
        rows.invitation.invitation@ == invitation.invitation_id@,
        rows.invitation.network@ == invitation.network_id@,
        rows.invitation.state@ == ascii_lower(invitation.state.text()),
        rows.invitation.secret_verifier@ == invitation.secret_verifier@,
        rows.invitation.provider_credential_reference is None,
        rows.invitation.max_uses == 1,
        rows.invitation.used_count == 0,
        rows.invitation.created_at@ == invitation.created_at.text(),
        rows.invitation.expires_at@ == invitation.expires_at.text(),
        rows.provider_instance@ == context.provider_instance_id@,
        rows.provider_principal_id@ == context.provider_principal_id@,
        rows.roles_json@ == invitation.roles.json@,
        rows.constraints_json@ == invitation.join_constraints.json@,
        rows.created_by_source@ == actor.source@,
        rows.created_by_id == actor.actor_id,
        rows.revision == 1,
        rows.last_redemption_metadata_json@ == "{}"@,
{
}

/// Every column of the row of a join session holds the fact of that name.
pub proof fn law_join_session_is_stored_faithfully(row: JoinSessionRow, session: JoinSession)
    requires
        row.stores(session),
    ensures
        row.join_session@ == session.join_session_id@,
        row.invitation@ == session.invitation_id@,
        row.network@ == session.network_id@,
        session.device_id is None ==> row.device is None,
        session.device_id matches Some(id) ==> (row.device matches Some(text) && text@ == id@),
        row.state@ == ascii_lower(session.state.text()),
        row.created_at@ == session.created_at.text(),
        row.expires_at@ == session.expires_at.text(),
        row.updated_at@ == session.updated_at.text(),
{
}

/// Every column of the row of a revocation holds the fact of that name.
pub proof fn law_revocation_is_stored_faithfully(row: RevocationRow, revocation: Revocation)
    requires
        row.stores(revocation),
    ensures
        row.revocation@ == revocation.revocation_id@,
        row.network@ == revocation.network_id@,
        row.device@ == revocation.device_id@,
        row.state@ == revocation.state.text(),
        row.requested_at@ == revocation.requested_at.text(),
        row.updated_at@ == revocation.updated_at.text(),
        revocation.application_trust_removed_at is None ==> row.application_trust_removed_at
            is None,
        revocation.application_trust_removed_at matches Some(at) ==> (
        row.application_trust_removed_at matches Some(text) && text@ == at.text()),
        revocation.provider_cleanup_completed_at is None ==> row.provider_cleanup_completed_at
            is None,
        revocation.provider_cleanup_completed_at matches Some(at) ==> (
        row.provider_cleanup_completed_at matches Some(text) && text@ == at.text()),
{
}

/// What the database refuses for a constraint is a conflict, anything else is a
/// failure of the database, each with its explanation; what it takes is no
/// problem.
pub proof fn law_refused_rows_are_conflicts(stored: Result<(), DatabaseFailure>)
    ensures
        stored is Ok <==> storage_problem(stored) is None,
        stored matches Err(failure) && failure.constraint_violated ==> storage_problem(stored)
            == Some(StateErrorView::Conflict(stored->Err_0.text@)),
        (stored matches Err(failure) && !failure.constraint_violated) ==> storage_problem(stored)
            == Some(StateErrorView::Sqlite(stored->Err_0.text@)),
{
}

/// Of two problems the first counts, and there is none only if there are none.
pub proof fn law_first_problem_counts(
    first: Option<StateErrorView>,
    second: Option<StateErrorView>,
)
    ensures
        either(first, second) is None <==> first is None && second is None,
        first is Some ==> either(first, second) == first,
        first is None ==> either(first, second) == second,
{
}

/// A record that is absent is not found, under its own name; one that cannot be
/// read is a failure of its JSON; any other can be had.
pub proof fn law_missing_record_is_not_found<T>(
    record: Option<Result<T, String>>,
    name: Seq<char>,
)
    ensures
        record is None <==> record_problem(record, name) is Some && record_problem(
            record,
            name,
        )->Some_0 is NotFound,
        record is None ==> record_problem(record, name) == Some(StateErrorView::NotFound(name)),
        record is Some && record->Some_0 is Err ==> record_problem(record, name) == Some(
            StateErrorView::Serialization(record->Some_0->Err_0@),
        ),
        (record is Some && record->Some_0 is Ok) <==> record_problem(record, name) is None,
{
}

/// A stored text or number is refused exactly if reading it was, for the same
/// reason.
pub proof fn law_unreadable_identifier_is_a_conflict<T>(
    stored: Stored<T>,
    generation: StoredGeneration,
)
    ensures
        stored.parsed is Ok <==> parse_problem(stored) is None,
        stored.parsed is Err ==> parse_problem(stored) == Some(
            StateErrorView::Conflict(stored.parsed->Err_0@),
        ),
        generation.refusal is None <==> generation.problem() is None,
        generation.refusal matches Some(text) ==> generation.problem() == Some(
            StateErrorView::Conflict(text@),
        ),
{
}

/// An event is not recorded exactly if the failure of its record is injected or
/// its generation does not fit the database. The events of an invitation can
/// also be made to fail by the point that only its confirmation passes.
pub proof fn law_event_is_recorded_unless_it_fails(
    store: StateStore,
    generation: Option<Generation>,
    kind: AuditKind,
)
    ensures
        store.audit_problem(generation) is None <==> !store.is_armed(Failpoint::BeforeAuditInsert)
            && (generation matches Some(number) ==> number.value <= 0x7fff_ffff_ffff_ffff),
        store.is_armed(Failpoint::BeforeAuditInsert) ==> store.audit_problem(generation) == Some(
            StateErrorView::InjectedFailure,
        ),
        !store.is_armed(Failpoint::BeforeAuditInsert) && store.audit_problem(generation) is Some
            ==> store.audit_problem(generation) == Some(
            StateErrorView::Conflict("generation exceeds SQLite integer range"@),
        ),
        store.n4_audit_problem(kind) is None <==> !store.is_armed(Failpoint::BeforeAuditInsert)
            && !(kind == AuditKind::InvitationRedeemed && store.is_armed(
            Failpoint::BeforeN4ConfirmationAudit,
        )),
        store.n4_audit_problem(kind) is Some ==> store.n4_audit_problem(kind) == Some(
            StateErrorView::InjectedFailure,
        ),
        store.fails_n4_audit(kind) <==> store.n4_audit_problem(kind) is Some,
{
}

/// The event of a success names the network, the device, who acted, the kind and
/// the number of the generation, and holds nothing else.
pub proof fn law_success_is_plain(
    network_id: NetworkId,
    device_id: Option<DeviceId>,
    actor: AuditActor,
    kind: AuditKind,
    generation: Option<Generation>,
)
    ensures
        ({
            let fact = success_fact(network_id, device_id, actor, kind, generation);
            &&& fact.network_id == Some(network_id)
            &&& fact.device_id == device_id
            &&& fact.actor == actor
            &&& fact.kind == kind
            &&& fact.outcome == AuditOutcome::Success
            &&& fact.metadata_json == "{}"@
            &&& fact.correlation is None
            &&& generation is None ==> fact.generation is None
            &&& (generation matches Some(number) && number.value <= 0x7fff_ffff_ffff_ffff) ==> (
            fact.generation matches Some(stored) && stored == generation->Some_0.value)
        }),
{
}

/// An action of an invitation counts as recorded exactly if an earlier
/// transaction, or this one, recorded an event of that kind for it.
pub proof fn law_recorded_action_is_in_the_trail(
    log: AuditLog,
    action_id: Seq<char>,
    kind: AuditKind,
)
    ensures
        log.is_recorded(action_id, kind) <==> {
            ||| exists|i: int|
                0 <= i < log.known@.len() && (#[trigger] log.known@[i]).action_id@ == action_id
                    && log.known@[i].event_kind@ == kind.text()
            ||| exists|i: int|
                0 <= i < log.events@.len() && (#[trigger] log.events@[i]).kind == kind && (
                log.events@[i].correlation matches Some(c) && c.action_id@ == action_id)
        },
{
    if exists|i: int|
        0 <= i < log.events@.len() && (#[trigger] log.events@[i]).kind == kind && (
        log.events@[i].correlation matches Some(c) && c.action_id@ == action_id) {
        let i = choose|i: int|
            0 <= i < log.events@.len() && (#[trigger] log.events@[i]).kind == kind && (
            log.events@[i].correlation matches Some(c) && c.action_id@ == action_id);
        assert(log@[i] == log.events@[i]@);
    }
    if log.is_recorded(action_id, kind) && !log.was_known(action_id, kind) {
        let i = choose|i: int|
            0 <= i < log@.len() && records(#[trigger] log@[i], action_id, kind);
        assert(log@[i] == log.events@[i]@);
        assert(log.events@[i].kind == kind);
    }
}

/// The trail shows each event as it is, but for its time.
pub proof fn law_trail_shows_its_events(log: AuditLog, i: int)
    requires
        0 <= i < log.events@.len(),
    ensures
        log@.len() == log.events@.len(),
        log@[i].network_id == log.events@[i].network_id,
        log@[i].device_id == log.events@[i].device_id,
        log@[i].actor == log.events@[i].actor,
        log@[i].kind == log.events@[i].kind,
        log@[i].outcome == log.events@[i].outcome,
        log@[i].generation == log.events@[i].generation,
        log@[i].metadata_json == log.events@[i].metadata_json@,
        log.events@[i].correlation is None <==> log@[i].correlation is None,
        log.events@[i].correlation matches Some(c) ==> log@[i].correlation == Some(
            (c.invitation_id, c.join_session_id, c.action_id@),
        ),
{
}

/// A network is created exactly if its generations fit the database, the
/// database took its rows and its event can be recorded; then one event of its
/// creation, with its membership generation, is added to the trail. Otherwise
/// the trail stays.
pub proof fn law_network_creation_is_recorded(
    store: StateStore,
    network: Network,
    stored: Result<(), DatabaseFailure>,
    actor: AuditActor,
    before: AuditLog,
    result: Result<(), StateError>,
    after: AuditLog,
)
    requires
        is_network_creation(store, network, stored, actor, before, result, after),
    ensures
        result is Ok <==> {
            &&& network.membership_generation.value <= 0x7fff_ffff_ffff_ffff
            &&& network.policy_generation.value <= 0x7fff_ffff_ffff_ffff
            &&& stored is Ok
            &&& !store.is_armed(Failpoint::BeforeAuditInsert)
        },
        result is Ok ==> {
            &&& after@.len() == before@.len() + 1
            &&& after@.take(before@.len() as int) =~= before@
            &&& after@.last().kind == AuditKind::NetworkCreated
            &&& after@.last().outcome == AuditOutcome::Success
            &&& after@.last().network_id == Some(network.network_id)
            &&& after@.last().actor == actor
            &&& after@.last().generation matches Some(number) && number
                == network.membership_generation.value
        },
        result is Err ==> after == before,
        creation_problem(store, network, stored) is None <==> result is Ok,
{
}

/// A join session makes a transition exactly if the fenced lifecycle does not
/// own it, it is in the expected state, by its record and beside it, and the
/// rules of sessions admit it.
pub proof fn law_transition_starts_where_expected(
    records: JoinSessionRecords,
    join_session: Seq<char>,
    expected: JoinSessionState,
    moved: Result<JoinSession, String>,
)
    ensures
        transition_problem(records, join_session, expected, moved) is None <==> {
            &&& !records.fenced
            &&& records.record matches Some(Ok(session)) && session.state.text()
                == expected.text()
            &&& records.state@ == ascii_lower(expected.text())
            &&& moved is Ok
        },
        records.fenced ==> transition_problem(records, join_session, expected, moved) == Some(
            StateErrorView::Conflict("N4 join sessions require fenced lifecycle APIs"@),
        ),
        !records.fenced && records.record is None ==> transition_problem(
            records,
            join_session,
            expected,
            moved,
        ) == Some(StateErrorView::NotFound(join_session)),
        (!records.fenced && (records.record matches Some(Ok(session)) && session.state.text()
            != expected.text())) ==> transition_problem(records, join_session, expected, moved)
            == Some(StateErrorView::Conflict("join session state changed concurrently"@)),
        (!records.fenced && (records.record matches Some(Ok(session)) && session.state.text()
            == expected.text()) && moved is Err) ==> transition_problem(
            records,
            join_session,
            expected,
            moved,
        ) == Some(StateErrorView::Conflict(moved->Err_0@)),
{
}

/// A generation advances exactly from the one that is expected, recorded and
/// counted, to a greater one, where both fit the database; otherwise the caller
/// learns the number that stands against it.
pub proof fn law_generation_advances_from_the_expected_one(
    name: Seq<char>,
    expected: Generation,
    next: Generation,
    unavailable: Option<StateErrorView>,
    recorded: Generation,
    stored: Option<u64>,
)
    ensures
        advance_problem(name, expected, next, unavailable, recorded, stored) is None <==> {
            &&& unavailable is None
            &&& expected.value < next.value <= 0x7fff_ffff_ffff_ffff
            &&& recorded.value == expected.value
            &&& stored == Some(expected.value)
        },
        next.value <= expected.value ==> advance_problem(
            name,
            expected,
            next,
            unavailable,
            recorded,
            stored,
        ) == Some(StateErrorView::Conflict("generation must advance monotonically"@)),
        next.value > expected.value && unavailable is None && recorded.value != expected.value
            ==> advance_problem(name, expected, next, unavailable, recorded, stored) == Some(
            StateErrorView::StaleGeneration { expected: expected.value, actual: recorded.value },
        ),
        stored is None ==> stale_problem(name, expected, stored) == StateErrorView::NotFound(name),
        stored matches Some(number) ==> stale_problem(name, expected, stored)
            == (StateErrorView::StaleGeneration { expected: expected.value, actual: number }),
{
}

/// The generations of a device are read exactly if each of them can be.
pub proof fn law_device_generations_are_read_together(stored: StoredDeviceGenerations)
    ensures
        stored.problem() is None <==> stored.credential.refusal is None
            && stored.keryx_binding.refusal is None && stored.fleet_projection.refusal is None,
{
}

/// Devices are read up to the first that cannot be read.
pub proof fn law_devices_are_read_up_to_the_first_problem(devices: Seq<StoredDevice>)
    ensures
        first_unreadable(devices) is None <==> forall|i: int|
            0 <= i < devices.len() ==> (#[trigger] devices[i]).record is Ok,
        first_unreadable(devices) is Some ==> exists|i: int|
            0 <= i < devices.len() && (#[trigger] devices[i]).record is Err && first_unreadable(
                devices,
            ) == Some(StateErrorView::Serialization(devices[i].record->Err_0@)) && forall|j: int|
                0 <= j < i ==> (#[trigger] devices[j]).record is Ok,
    decreases devices.len(),
{
    if devices.len() > 0 {
        let fewer = devices.drop_last();
        law_devices_are_read_up_to_the_first_problem(fewer);
        let last = devices.len() - 1;
        assert(devices[last] == devices.last());
        assert forall|i: int| 0 <= i < fewer.len() implies fewer[i] == devices[i] by {}
        if first_unreadable(fewer) is Some {
            let i = choose|i: int|
                0 <= i < fewer.len() && (#[trigger] fewer[i]).record is Err && first_unreadable(
                    fewer,
                ) == Some(StateErrorView::Serialization(fewer[i].record->Err_0@)) && forall|j: int|
                    0 <= j < i ==> (#[trigger] fewer[j]).record is Ok;
            assert(devices[i].record is Err);
            assert forall|j: int| 0 <= j < i implies (#[trigger] devices[j]).record is Ok by {
                assert(fewer[j].record is Ok);
            }
        } else {
            assert forall|j: int| 0 <= j < last implies (#[trigger] devices[j]).record is Ok by {
                assert(fewer[j].record is Ok);
            }
        }
    }
}

/// There is a candidate for a token, or something to show, exactly if the
/// invitation is of the fenced lifecycle and what is stored of it can be read.
pub proof fn law_invitation_is_shown_if_it_can_be_read(
    lifecycle: Option<N4Lifecycle>,
    invitation: Seq<char>,
)
    ensures
        candidate_problem(lifecycle, invitation) is None <==> (lifecycle matches Some(stored) && {
            &&& stored.invitation.record is Ok
            &&& stored.details.provider_instance_id.parsed is Ok
            &&& is_identifier(stored.details.provider_principal_id@)
        }),
        lifecycle is None ==> candidate_problem(lifecycle, invitation) == Some(
            StateErrorView::NotFound(invitation),
        ) && view_problem(lifecycle, invitation) == Some(StateErrorView::NotFound(invitation)),
        view_problem(lifecycle, invitation) is None ==> (lifecycle matches Some(stored) && {
            &&& stored.invitation.record is Ok
            &&& stored.details.provider_instance_id.parsed is Ok
            &&& is_identifier(stored.details.provider_principal_id@)
            &&& stored.details.consumed_at_ms matches Some(at) ==> is_millis(at as int)
            &&& stored.details.revoked_at_ms matches Some(at) ==> is_millis(at as int)
            &&& stored.details.expired_at_ms matches Some(at) ==> is_millis(at as int)
            &&& stored.metadata matches Some(known) ==> known.invalidation_state@ == "active"@
                || known.invalidation_state@ == "pending"@ || known.invalidation_state@
                == "confirmed"@ || known.invalidation_state@ == "retryable"@
                || known.invalidation_state@ == "ambiguous"@ || known.invalidation_state@
                == "blocked"@ || known.invalidation_state@ == "none"@
        }),
        (lifecycle matches Some(stored) && {
            &&& stored.invitation.record is Ok
            &&& stored.details.provider_instance_id.parsed is Ok
            &&& is_identifier(stored.details.provider_principal_id@)
            &&& stored.details.consumed_at_ms matches Some(at) ==> is_millis(at as int)
            &&& stored.details.revoked_at_ms matches Some(at) ==> is_millis(at as int)
            &&& stored.details.expired_at_ms matches Some(at) ==> is_millis(at as int)
            &&& stored.metadata is None
        }) ==> view_problem(lifecycle, invitation) is None,
{
    assert(N4CleanupState::Absent.text() == "none"@);
}

/// What is shown of an invitation is what is stored: the record, the columns
/// beside it, each time under its own name, and the state of the cleanup.
pub proof fn law_view_shows_what_is_stored(
    view: N4InvitationView,
    invitation_id: InvitationId,
    stored: N4Lifecycle,
    record: Invitation,
)
    requires
        stored.invitation.record == Ok::<Invitation, String>(record),
        view.shows(invitation_id, stored),
    ensures
        view.invitation_id == invitation_id,
        view.network_id == record.network_id,
        view.state == record.state,
        view.roles == record.roles,
        view.join_constraints == record.join_constraints,
        view.created_at == record.created_at,
        view.expires_at == record.expires_at,
        view.max_uses == record.max_uses,
        view.revision == stored.details.revision,
        view.used_count == stored.invitation.used_count,
        stored.details.consumed_at_ms is None <==> view.consumed_at is None,
        stored.details.revoked_at_ms is None <==> view.revoked_at is None,
        stored.details.expired_at_ms is None <==> view.expired_at is None,
        stored.details.consumed_at_ms matches Some(at) ==> view.consumed_at->Some_0.millis() == at,
        stored.details.revoked_at_ms matches Some(at) ==> view.revoked_at->Some_0.millis() == at,
        stored.details.expired_at_ms matches Some(at) ==> view.expired_at->Some_0.millis() == at,
        stored.metadata is None ==> view.cleanup_state.text() == "none"@,
        stored.metadata matches Some(known) ==> view.cleanup_state.text()
            == known.invalidation_state@,
        stored.details.provider_instance_id.parsed matches Ok(id) && id
            == view.context.provider_instance_id,
        view.context.provider_principal_id@ == stored.details.provider_principal_id@,
{
}

/// An invitation is listed in the network that its details name, and before
/// another if it was created earlier, or at the same time and its identifier
/// comes first.
pub proof fn law_listing_is_by_network_and_creation(
    left: ListedInvitation,
    right: ListedInvitation,
    network_id: Seq<char>,
)
    ensures
        left.is_of(network_id) <==> left.lifecycle is Some
            && left.lifecycle->Some_0.details.network_id@ == network_id,
        text_before(left.created_at@, right.created_at@) ==> left.is_before(right),
        left.created_at@ == right.created_at@ ==> (left.is_before(right) <==> text_before(
            left.invitation_id.text@,
            right.invitation_id.text@,
        )),
        left.created_at@ != right.created_at@ && !text_before(left.created_at@, right.created_at@)
            ==> !left.is_before(right),
{
    lemma_text_before_irreflexive(left.created_at@);
}

/// An invitation is due exactly if its stored deadline is not after now and it
/// has neither expired nor been revoked.
pub proof fn law_due_invitation_is_past_its_deadline(row: ExpiryRow, now: Timestamp)
    ensures
        row.is_due(now) <==> !text_before(now.text(), row.expires_at@) && row.state@
            != "expired"@ && row.state@ != "revoked"@,
        row.expires_at@ == now.text() && row.state@ == "issued"@ ==> row.is_due(now),
{
    lemma_text_before_irreflexive(now.text());
    reveal_strlit("issued");
    reveal_strlit("expired");
    reveal_strlit("revoked");
    assert("issued"@.len() == 6);
    assert("expired"@.len() == 7);
    assert("revoked"@.len() == 7);
}

/// Instants are ordered by their nanoseconds since 1970, and their milliseconds
/// are what is left without the smaller parts. Leap seconds aside, that is the
/// whole order.
pub proof fn law_instants_are_ordered_by_time(left: Timestamp, right: Timestamp)
    requires
        0 <= left.nanoseconds() < 1_000_000_000,
        0 <= right.nanoseconds() < 1_000_000_000,
    ensures
        left.before(right) <==> left.seconds() * 1_000_000_000 + left.nanoseconds()
            < right.seconds() * 1_000_000_000 + right.nanoseconds(),
        left.millis() == (left.seconds() * 1_000_000_000 + left.nanoseconds()) / 1_000_000,
{
}

/// The order of instants is strict and total, leap seconds included.
pub proof fn law_instants_are_ordered(left: Timestamp, middle: Timestamp, right: Timestamp)
    ensures
        !left.before(left),
        left.before(middle) && middle.before(right) ==> left.before(right),
        left.before(right) || right.before(left) || left == right,
{
    if !left.before(right) && !right.before(left) {
        lemma_same_instant(left, right);
    }
}

/// The instant of a number of milliseconds has that number of milliseconds, and
/// an instant comes before a number of milliseconds exactly if it comes before
/// the instant of it.
pub proof fn law_instant_of_milliseconds(instant: Timestamp, at: Timestamp, millis: int)
    requires
        at.is_at(millis),
    ensures
        at.millis() == millis,
        at.seconds() * 1000 + at.nanoseconds() / 1_000_000 == millis,
        at.nanoseconds() % 1_000_000 == 0,
        instant.before_millis(millis) <==> instant.before(at),
{
}

/// The messages by which errors are shown.
pub proof fn law_error_messages(text: Seq<char>, error: StateErrorView)
    ensures
        StateErrorView::Sqlite(text).message() == "SQLite state error: "@ + text,
        StateErrorView::Serialization(text).message() == "serialization error: "@ + text,
        StateErrorView::Conflict(text).message() == "state conflict: "@ + text,
        StateErrorView::UnsafeAuditMetadata(text).message() == "audit metadata is unsafe: "@ + text,
        StateErrorView::NotFound(text).message() == "record not found: "@ + text,
        StateErrorView::MutationAuthorizationDenied(text).message()
            == "mutation authorization denied: "@ + text,
        StateErrorView::InjectedFailure.message() == "injected transaction failure"@,
        StateErrorView::ActivationGated.message() == "trusted activation remains gated in N0C"@,
        ReconciliationFailureView::State(error).message() == "state failure: "@ + error.message(),
        ReconciliationFailureView::Unreachable.message() == "provider unreachable"@,
        ReconciliationFailureView::AuthenticationFailed.message()
            == "provider authentication failed"@,
        ReconciliationFailureView::Incompatible.message() == "provider is incompatible"@,
        ReconciliationFailureView::Malformed.message() == "provider response is malformed"@,
        ReconciliationFailureView::IdentityConflict.message() == "provider identity conflict"@,
{
}

/// Creating a network, a device, an invitation outside the fenced lifecycle or a
/// join session outside it leaves exactly one event of that kind, with the
/// generation that counts for it; a refusal leaves none.
pub proof fn law_creating_records(
    store: &StateStore,
    network: &Network,
    device: &Device,
    invitation: &Invitation,
    session: &JoinSession,
    stored: Result<(), DatabaseFailure>,
    actor: AuditActor,
    network_log: &mut AuditLog,
    device_log: &mut AuditLog,
    invitation_log: &mut AuditLog,
    session_log: &mut AuditLog,
    network_result: Result<(), StateError>,
    device_result: Result<(), StateError>,
    invitation_result: Result<(), StateError>,
    session_result: Result<(), StateError>,
)
    requires
        call_ensures(
            StateStore::create_network,
            (store, network, stored, network_log, actor),
            network_result,
        ),
        call_ensures(
            StateStore::create_device,
            (store, device, stored, device_log, actor),
            device_result,
        ),
        call_ensures(
            StateStore::issue_invitation,
            (store, invitation, stored, invitation_log, actor),
            invitation_result,
        ),
        call_ensures(
            StateStore::create_join_session,
            (store, session, stored, session_log, actor),
            session_result,
        ),
    ensures
        network_result is Ok ==> stored is Ok && final(network_log)@ =~= old(network_log)@.push(
            AuditFact {
                network_id: Some(network.network_id),
                device_id: None,
                actor,
                kind: AuditKind::NetworkCreated,
                outcome: AuditOutcome::Success,
                generation: Some(network.membership_generation.value as i64),
                metadata_json: "{}"@,
                correlation: None,
            },
        ),
        network_result is Err ==> *final(network_log) == *old(network_log),
        device_result is Ok ==> {
            &&& stored is Ok
            &&& device.membership_state.text() != "Active"@
            &&& device.membership_state.text() != "Suspended"@
            &&& final(device_log)@ =~= old(device_log)@.push(
                AuditFact {
                    network_id: Some(device.network_id),
                    device_id: Some(device.device_id),
                    actor,
                    kind: AuditKind::DeviceCreated,
                    outcome: AuditOutcome::Success,
                    generation: Some(device.generations.credential.value as i64),
                    metadata_json: "{}"@,
                    correlation: None,
                },
            )
        },
        device_result is Err ==> *final(device_log) == *old(device_log),
        device.membership_state.text() == "Active"@ || device.membership_state.text()
            == "Suspended"@ ==> (device_result matches Err(error) && error@
            == StateErrorView::ActivationGated),
        invitation_result is Ok ==> stored is Ok && final(invitation_log)@ =~= old(
            invitation_log,
        )@.push(
            AuditFact {
                network_id: Some(invitation.network_id),
                device_id: None,
                actor,
                kind: AuditKind::InvitationIssued,
                outcome: AuditOutcome::Success,
                generation: None,
                metadata_json: "{}"@,
                correlation: None,
            },
        ),
        invitation_result is Err ==> *final(invitation_log) == *old(invitation_log),
        session_result is Ok ==> stored is Ok && final(session_log)@ =~= old(session_log)@.push(
            AuditFact {
                network_id: Some(session.network_id),
                device_id: session.device_id,
                actor,
                kind: AuditKind::JoinSessionCreated,
                outcome: AuditOutcome::Success,
                generation: None,
                metadata_json: "{}"@,
                correlation: None,
            },
        ),
        session_result is Err ==> *final(session_log) == *old(session_log),
        stored is Ok && !store.is_armed(Failpoint::BeforeAuditInsert) ==> invitation_result is Ok
            && session_result is Ok,
        (stored matches Err(failure) && failure.constraint_violated) ==> (
        invitation_result matches Err(error) && error@ == StateErrorView::Conflict(
            stored->Err_0.text@,
        )) && (session_result matches Err(error) && error@ == StateErrorView::Conflict(
            stored->Err_0.text@,
        )),
        (stored matches Err(failure) && !failure.constraint_violated) ==> (
        invitation_result matches Err(error) && error@ == StateErrorView::Sqlite(
            stored->Err_0.text@,
        )),
{
}

/// A transition hands back what the rules of sessions answered, under the stored
/// name of the next state, and leaves one event of it; a session of the fenced
/// lifecycle, or one that is not in the expected state, makes none.
pub proof fn law_moving_a_join_session(
    store: &StateStore,
    join_session_id: &JoinSessionId,
    records: JoinSessionRecords,
    expected: &JoinSessionState,
    next: &JoinSessionState,
    moved: Result<JoinSession, String>,
    log: &mut AuditLog,
    actor: AuditActor,
    result: Result<MovedSession, StateError>,
)
    requires
        call_ensures(
            StateStore::transition_join_session,
            (store, join_session_id, records, expected, next, moved, log, actor),
            result,
        ),
    ensures
        result matches Ok(after) ==> {
            &&& !records.fenced
            &&& records.record matches Some(Ok(session)) && session.state.text()
                == expected.text()
            &&& records.state@ == ascii_lower(expected.text())
            &&& moved == Ok::<JoinSession, String>(after.session)
            &&& after.state@ == ascii_lower(next.text())
            &&& final(log)@ =~= old(log)@.push(
                AuditFact {
                    network_id: Some(after.session.network_id),
                    device_id: after.session.device_id,
                    actor,
                    kind: AuditKind::JoinSessionStateChanged,
                    outcome: AuditOutcome::Success,
                    generation: None,
                    metadata_json: "{}"@,
                    correlation: None,
                },
            )
        },
        result is Err ==> *final(log) == *old(log),
        records.fenced ==> (result matches Err(error) && error@ == StateErrorView::Conflict(
            "N4 join sessions require fenced lifecycle APIs"@,
        )),
        !records.fenced && records.record is None ==> (result matches Err(error) && error@
            == StateErrorView::NotFound(join_session_id@)),
{
}

/// A revocation moves its device, and only its state and the time of its last
/// change, and leaves one event of the request.
pub proof fn law_revoking_a_device(
    store: &StateStore,
    revocation: &Revocation,
    device: Option<Result<Device, String>>,
    revoking: Result<MembershipState, String>,
    stored: Result<(), DatabaseFailure>,
    log: &mut AuditLog,
    actor: AuditActor,
    result: Result<RevokedDevice, StateError>,
)
    requires
        call_ensures(
            StateStore::record_revocation,
            (store, revocation, device, revoking, stored, log, actor),
            result,
        ),
    ensures
        result matches Ok(after) ==> (device matches Some(Ok(before)) && {
            &&& stored is Ok
            &&& revoking == Ok::<MembershipState, String>(after.device.membership_state)
            &&& after.membership_state@ == ascii_lower("Revoking"@)
            &&& after.device.updated_at == revocation.updated_at
            &&& after.device.device_id == before.device_id
            &&& after.device.network_id == before.network_id
            &&& after.device.display_name == before.display_name
            &&& after.device.provider_identity == before.provider_identity
            &&& after.device.generations == before.generations
            &&& after.device.fleet_projection_status == before.fleet_projection_status
            &&& after.device.created_at == before.created_at
            &&& after.device.revoked_at == before.revoked_at
            &&& final(log)@ =~= old(log)@.push(
                AuditFact {
                    network_id: Some(revocation.network_id),
                    device_id: Some(revocation.device_id),
                    actor,
                    kind: AuditKind::RevocationRequested,
                    outcome: AuditOutcome::Success,
                    generation: None,
                    metadata_json: "{}"@,
                    correlation: None,
                },
            )
        }),
        result is Err ==> *final(log) == *old(log),
        device is None ==> (result matches Err(error) && error@ == StateErrorView::NotFound(
            revocation.device_id@,
        )),
{
}

/// An advance changes the generation, and the time of the last change, and
/// nothing else, and leaves one event with the new generation; it succeeds only
/// from the generation that the caller expects, by the record and beside it.
pub proof fn law_advancing_a_membership_generation(
    store: &StateStore,
    network_id: &NetworkId,
    record: Option<Result<Network, String>>,
    stored: Option<u64>,
    expected: Generation,
    next: Generation,
    now: Timestamp,
    log: &mut AuditLog,
    actor: AuditActor,
    result: Result<Network, StateError>,
)
    requires
        call_ensures(
            StateStore::advance_membership_generation_at,
            (store, network_id, record, stored, expected, next, now, log, actor),
            result,
        ),
    ensures
        result matches Ok(after) ==> (record matches Some(Ok(before)) && {
            &&& before.membership_generation.value == expected.value
            &&& stored == Some(expected.value)
            &&& next.value > expected.value
            &&& after.membership_generation == next
            &&& after.policy_generation == before.policy_generation
            &&& after.updated_at == now
            &&& after.created_at == before.created_at
            &&& after.network_id == before.network_id
            &&& after.name == before.name
            &&& after.state == before.state
            &&& after.provider_kind == before.provider_kind
            &&& after.provider_instance_id == before.provider_instance_id
            &&& final(log)@ =~= old(log)@.push(
                AuditFact {
                    network_id: Some(*network_id),
                    device_id: None,
                    actor,
                    kind: AuditKind::MembershipGenerationAdvanced,
                    outcome: AuditOutcome::Success,
                    generation: Some(next.value as i64),
                    metadata_json: "{}"@,
                    correlation: None,
                },
            )
        }),
        result is Err ==> *final(log) == *old(log),
        next.value <= expected.value ==> (result matches Err(error) && error@
            == StateErrorView::Conflict("generation must advance monotonically"@)),
        (next.value > expected.value && (record matches Some(Ok(before))
            && before.membership_generation.value != expected.value)) ==> (result matches Err(error)
            && error@ == (StateErrorView::StaleGeneration {
            expected: expected.value,
            actual: record->Some_0->Ok_0.membership_generation.value,
        })),
{
}

/// The same holds of the credential generation of a device; its other
/// generations stay.
pub proof fn law_advancing_a_credential_generation(
    store: &StateStore,
    device_id: &DeviceId,
    record: Option<Result<Device, String>>,
    stored: Option<u64>,
    expected: Generation,
    next: Generation,
    now: Timestamp,
    log: &mut AuditLog,
    actor: AuditActor,
    result: Result<Device, StateError>,
)
    requires
        call_ensures(
            StateStore::advance_device_credential_generation_at,
            (store, device_id, record, stored, expected, next, now, log, actor),
            result,
        ),
    ensures
        result matches Ok(after) ==> (record matches Some(Ok(before)) && {
            &&& before.generations.credential.value == expected.value
            &&& stored == Some(expected.value)
            &&& next.value > expected.value
            &&& after.generations.credential == next
            &&& after.generations.keryx_binding == before.generations.keryx_binding
            &&& after.generations.fleet_projection == before.generations.fleet_projection
            &&& after.updated_at == now
            &&& after.created_at == before.created_at
            &&& after.device_id == before.device_id
            &&& after.network_id == before.network_id
            &&& after.display_name == before.display_name
            &&& after.membership_state == before.membership_state
            &&& after.provider_identity == before.provider_identity
            &&& after.fleet_projection_status == before.fleet_projection_status
            &&& after.revoked_at == before.revoked_at
            &&& final(log)@ =~= old(log)@.push(
                AuditFact {
                    network_id: Some(before.network_id),
                    device_id: Some(*device_id),
                    actor,
                    kind: AuditKind::CredentialGenerationAdvanced,
                    outcome: AuditOutcome::Success,
                    generation: Some(next.value as i64),
                    metadata_json: "{}"@,
                    correlation: None,
                },
            )
        }),
        result is Err ==> *final(log) == *old(log),
        next.value <= expected.value ==> (result matches Err(error) && error@
            == StateErrorView::Conflict("generation must advance monotonically"@)),
{
}

/// Advancing now is advancing at some time: the generation, the records and the
/// event are the same.
pub proof fn law_advancing_now(
    store: &StateStore,
    network_id: &NetworkId,
    network: Option<Result<Network, String>>,
    device_id: &DeviceId,
    device: Option<Result<Device, String>>,
    stored: Option<u64>,
    expected: Generation,
    next: Generation,
    network_log: &mut AuditLog,
    device_log: &mut AuditLog,
    actor: AuditActor,
    network_result: Result<Network, StateError>,
    device_result: Result<Device, StateError>,
)
    requires
        call_ensures(
            StateStore::advance_membership_generation,
            (store, network_id, network, stored, expected, next, network_log, actor),
            network_result,
        ),
        call_ensures(
            StateStore::advance_device_credential_generation,
            (store, device_id, device, stored, expected, next, device_log, actor),
            device_result,
        ),
    ensures
        network_result matches Ok(after) ==> (network matches Some(Ok(before)) && {
            &&& before.membership_generation.value == expected.value
            &&& stored == Some(expected.value)
            &&& next.value > expected.value
            &&& after.membership_generation == next
            &&& after.policy_generation == before.policy_generation
            &&& after.network_id == before.network_id
            &&& after.name == before.name
            &&& after.created_at == before.created_at
            &&& final(network_log)@.len() == old(network_log)@.len() + 1
            &&& final(network_log)@.last().kind == AuditKind::MembershipGenerationAdvanced
        }),
        network_result is Err ==> *final(network_log) == *old(network_log),
        device_result matches Ok(after) ==> (device matches Some(Ok(before)) && {
            &&& before.generations.credential.value == expected.value
            &&& stored == Some(expected.value)
            &&& next.value > expected.value
            &&& after.generations.credential == next
            &&& after.generations.keryx_binding == before.generations.keryx_binding
            &&& after.generations.fleet_projection == before.generations.fleet_projection
            &&& after.device_id == before.device_id
            &&& after.network_id == before.network_id
            &&& after.membership_state == before.membership_state
            &&& after.created_at == before.created_at
            &&& final(device_log)@.len() == old(device_log)@.len() + 1
            &&& final(device_log)@.last().kind == AuditKind::CredentialGenerationAdvanced
        }),
        device_result is Err ==> *final(device_log) == *old(device_log),
{
}

/// A record or a generation is read as what is stored under the identifier, and
/// one that is absent is not found under it.
pub proof fn law_reading_records(
    store: &StateStore,
    network_id: &NetworkId,
    network: Option<Result<Network, String>>,
    number: Option<StoredGeneration>,
    device_id: &DeviceId,
    device: Option<Result<Device, String>>,
    numbers: Option<StoredDeviceGenerations>,
    network_result: Result<Network, StateError>,
    number_result: Result<Generation, StateError>,
    device_result: Result<Device, StateError>,
    numbers_result: Result<DeviceGenerations, StateError>,
)
    requires
        call_ensures(StateStore::network, (store, network_id, network), network_result),
        call_ensures(StateStore::network_generation, (store, network_id, number), number_result),
        call_ensures(StateStore::device, (store, device_id, device), device_result),
        call_ensures(StateStore::device_generations, (store, device_id, numbers), numbers_result),
    ensures
        network is None ==> (network_result matches Err(error) && error@
            == StateErrorView::NotFound(network_id@)),
        network is Some && network->Some_0 is Ok ==> network_result == Ok::<Network, StateError>(
            network->Some_0->Ok_0,
        ),
        number is None ==> (number_result matches Err(error) && error@ == StateErrorView::NotFound(
            network_id@,
        )),
        (number matches Some(row) && row.refusal is None) ==> (number_result matches Ok(value)
            && value.value == number->Some_0.number),
        device is None ==> (device_result matches Err(error) && error@ == StateErrorView::NotFound(
            device_id@,
        )),
        device is Some && device->Some_0 is Ok ==> device_result == Ok::<Device, StateError>(
            device->Some_0->Ok_0,
        ),
        numbers is None ==> (numbers_result matches Err(error) && error@
            == StateErrorView::NotFound(device_id@)),
        numbers_result matches Ok(read) ==> {
            &&& read.credential.value == numbers->Some_0.credential.number
            &&& read.keryx_binding.value == numbers->Some_0.keryx_binding.number
            &&& read.fleet_projection.value == numbers->Some_0.fleet_projection.number
        },
        (numbers matches Some(row) && row.credential.refusal is None && row.keryx_binding.refusal
            is None && row.fleet_projection.refusal is None) ==> numbers_result is Ok,
{
}

/// A page of devices is refused unless it asks for one to thirty-two of them,
/// and holds no more than it asks for, each as it is stored.
pub proof fn law_paging_devices(
    store: &StateStore,
    after: Option<DeviceId>,
    limit: usize,
    records: Vec<StoredDevice>,
    result: Result<Vec<Device>, StateError>,
)
    requires
        call_ensures(StateStore::operator_device_page, (store, after, limit, records), result),
    ensures
        limit == 0 || limit > 32 ==> (result matches Err(error) && error@
            == StateErrorView::Conflict("operator device page limit is out of bounds"@)),
        result matches Ok(page) ==> {
            &&& page@.len() <= limit <= 32
            &&& forall|i: int|
                0 <= i < page@.len() ==> exists|k: int|
                    0 <= k < records@.len() && (#[trigger] records@[k]).record == Ok::<
                        Device,
                        String,
                    >(#[trigger] page@[i])
        },
{
    if let Ok(page) = result {
        let cursor = device_cursor(after);
        let chosen = page_of(records@, cursor, limit as nat);
        law_page_is_bounded(records@, cursor, limit as nat);
        assert forall|i: int| 0 <= i < page@.len() implies exists|k: int|
            0 <= k < records@.len() && (#[trigger] records@[k]).record == Ok::<Device, String>(
                #[trigger] page@[i],
            ) by {
            assert(chosen[i].record == Ok::<Device, String>(page@[i]));
            assert(records@.contains(chosen[i]));
            let k = choose|k: int| 0 <= k < records@.len() && records@[k] == chosen[i];
            assert(records@[k].record == Ok::<Device, String>(page@[i]));
        }
    }
}

/// A token is good only for its own invitation, and there exactly if its secret
/// was verified.
pub proof fn law_checking_a_token(
    candidate: &N4InvitationCandidate,
    token_invitation: &InvitationId,
    verified: Result<bool, String>,
    result: Result<bool, StateError>,
)
    requires
        call_ensures(N4InvitationCandidate::verify, (candidate, token_invitation, verified), result),
    ensures
        result == Ok::<bool, StateError>(true) ==> token_invitation@ == candidate.invitation_id@
            && verified == Ok::<bool, String>(true),
        token_invitation@ != candidate.invitation_id@ ==> result == Ok::<bool, StateError>(false),
        token_invitation@ == candidate.invitation_id@ && verified is Ok ==> result is Ok
            && result->Ok_0 == verified->Ok_0,
        token_invitation@ == candidate.invitation_id@ && verified is Err ==> (
        result matches Err(error) && error@ == StateErrorView::Conflict(
            "N4 invitation verifier could not be evaluated"@,
        )),
{
}

/// The candidate for a token is the stored invitation, with its verifier, state,
/// revision and deadline.
pub proof fn law_finding_a_candidate(
    store: &StateStore,
    invitation_id: InvitationId,
    lifecycle: Option<N4Lifecycle>,
    result: Result<N4InvitationCandidate, StateError>,
)
    requires
        call_ensures(
            StateStore::n4_invitation_candidate,
            (store, invitation_id, lifecycle),
            result,
        ),
    ensures
        lifecycle is None ==> (result matches Err(error) && error@ == StateErrorView::NotFound(
            invitation_id@,
        )),
        result matches Ok(candidate) ==> (lifecycle matches Some(stored)
            && stored.invitation.record matches Ok(record) && {
            &&& candidate.invitation_id == invitation_id
            &&& candidate.network_id == record.network_id
            &&& candidate.state == record.state
            &&& candidate.expires_at == record.expires_at
            &&& candidate.secret_verifier@ == record.secret_verifier@
            &&& candidate.revision == stored.details.revision
            &&& candidate.context.provider_principal_id@ == stored.details.provider_principal_id@
        }),
{
}

/// Records can be counted of the two kinds that are counted, each by its own
/// query, and no fleet projections exist.
pub proof fn law_counting_records(
    store: &StateStore,
    table: &str,
    network_id: &NetworkId,
    query: Result<&'static str, StateError>,
    projections: Result<u64, StateError>,
)
    requires
        call_ensures(StateStore::count, (store, table), query),
        call_ensures(StateStore::fleet_projection_count, (store, network_id), projections),
    ensures
        projections == Ok::<u64, StateError>(0),
        query is Ok <==> table@ == "devices"@ || table@ == "keryx_bindings"@,
        query matches Ok(text) ==> (table@ == "devices"@ ==> text@
            == "SELECT COUNT(*) FROM devices WHERE network_id=?1"@),
        query matches Ok(text) ==> (table@ == "keryx_bindings"@ ==> text@
            == "SELECT COUNT(*) FROM keryx_bindings WHERE network_id=?1"@),
        query matches Err(error) ==> error@ == StateErrorView::Conflict("unknown count table"@),
{
    reveal_strlit("devices");
    reveal_strlit("keryx_bindings");
    assert("devices"@.len() == 7);
    assert("keryx_bindings"@.len() == 14);
}

/// An event is added to the end of the trail, as it is given, or not at all.
pub proof fn law_recording_an_event(
    store: &StateStore,
    log: &mut AuditLog,
    network_id: Option<NetworkId>,
    device_id: Option<DeviceId>,
    actor: AuditActor,
    kind: AuditKind,
    outcome: AuditOutcome,
    generation: Option<Generation>,
    metadata: &SanitizedMetadata,
    result: Result<(), StateError>,
)
    requires
        call_ensures(
            StateStore::append_audit,
            (store, log, network_id, device_id, actor, kind, outcome, generation, metadata),
            result,
        ),
    ensures
        result is Ok <==> !store.is_armed(Failpoint::BeforeAuditInsert) && (
        generation matches Some(number) ==> number.value <= 0x7fff_ffff_ffff_ffff),
        result is Err ==> *final(log) == *old(log),
        final(log).known == old(log).known,
        result is Ok ==> {
            let event = final(log)@.last();
            &&& final(log)@.len() == old(log)@.len() + 1
            &&& final(log)@.take(old(log)@.len() as int) =~= old(log)@
            &&& event.network_id == network_id
            &&& event.device_id == device_id
            &&& event.actor == actor
            &&& event.kind == kind
            &&& event.outcome == outcome
            &&& generation is None ==> event.generation is None
            &&& generation matches Some(number) ==> (event.generation matches Some(stored) && stored
                == number.value)
            &&& event.metadata_json == metadata_json(metadata.value())
            &&& event.correlation is None
        },
{
}

/// An event of an invitation is added to the end of the trail exactly if no
/// event of its kind was recorded for the action; the answer says whether it
/// was.
pub proof fn law_recording_an_invitation_event(
    store: &StateStore,
    log: &mut AuditLog,
    network_id: NetworkId,
    invitation_id: InvitationId,
    join_session_id: Option<JoinSessionId>,
    action_id: &str,
    actor: AuditActor,
    kind: AuditKind,
    outcome: AuditOutcome,
    metadata: &SanitizedMetadata,
    result: Result<bool, StateError>,
)
    requires
        call_ensures(
            StateStore::append_n4_audit,
            (
                store,
                log,
                network_id,
                invitation_id,
                join_session_id,
                action_id,
                actor,
                kind,
                outcome,
                metadata,
            ),
            result,
        ),
    ensures
        result is Err <==> store.is_armed(Failpoint::BeforeAuditInsert) || (kind
            == AuditKind::InvitationRedeemed && store.is_armed(
            Failpoint::BeforeN4ConfirmationAudit,
        )),
        result matches Ok(added) ==> (added <==> !old(log).is_recorded(action_id@, kind)),
        result != Ok::<bool, StateError>(true) ==> *final(log) == *old(log),
        result == Ok::<bool, StateError>(true) ==> {
            let event = final(log)@.last();
            &&& final(log)@.len() == old(log)@.len() + 1
            &&& final(log)@.take(old(log)@.len() as int) =~= old(log)@
            &&& event.network_id == Some(network_id)
            &&& event.device_id is None
            &&& event.actor == actor
            &&& event.kind == kind
            &&& event.outcome == outcome
            &&& event.generation is None
            &&& event.metadata_json == metadata_json(metadata.value())
            &&& event.correlation == Some((invitation_id, join_session_id, action_id@))
        },
{
}

/// A generation is stored as its number, if it fits the database, and follows
/// another only if it is greater.
pub proof fn law_storing_generations(
    value: Generation,
    expected: Generation,
    number: Result<i64, StateError>,
    follows: Result<(), StateError>,
)
    requires
        call_ensures(to_i64, (value,), number),
        call_ensures(validate_next, (expected, value), follows),
    ensures
        number is Ok <==> value.value <= 0x7fff_ffff_ffff_ffff,
        number matches Ok(stored) ==> stored == value.value,
        number matches Err(error) ==> error@ == StateErrorView::Conflict(
            "generation exceeds SQLite integer range"@,
        ),
        follows is Ok <==> value.value > expected.value,
        follows matches Err(error) ==> error@ == StateErrorView::Conflict(
            "generation must advance monotonically"@,
        ),
{
}

/// A page that is not full holds every record after the cursor, and a full one
/// leaves out only records that come later.
pub proof fn law_page_leaves_nothing_out<T: Keyed>(
    records: Seq<T>,
    cursor: Option<Seq<char>>,
    limit: nat,
    i: int,
)
    requires
        0 <= i < records.len(),
        match cursor {
            Some(last) => text_before(last, records[i].key()),
            None => true,
        },
    ensures
        page_of(records, cursor, limit).len() < limit ==> page_of(records, cursor, limit).contains(
            records[i],
        ),
        page_of(records, cursor, limit).contains(records[i]) || page_of(
            records.take(i),
            cursor,
            limit,
        ).len() == limit,
    decreases records.len(),
{
    let before = records.drop_last();
    let page = page_of(records, cursor, limit);
    let earlier = page_of(before, cursor, limit);
    law_page_is_bounded(records, cursor, limit);
    law_page_is_bounded(before, cursor, limit);
    if i < records.len() - 1 {
        assert(before[i] == records[i]);
        assert(before.take(i) =~= records.take(i));
        law_page_leaves_nothing_out(before, cursor, limit, i);
        if earlier.contains(records[i]) {
            let k = choose|k: int| 0 <= k < earlier.len() && earlier[k] == records[i];
            assert(page[k] == records[i]);
        }
    } else {
        assert(records.take(i) =~= before);
        if earlier.len() < limit {
            assert(page[page.len() - 1] == records[i]);
        }
    }
}

/// The instants that can be represented lie between the two bounds; only the last
/// second of a minute runs on past its end.
pub proof fn law_representable_instants(seconds: int, nanoseconds: int, millis: int)
    ensures
        is_instant(seconds, nanoseconds) <==> {
            &&& -8334601228800 <= seconds <= 8210266876799
            &&& 0 <= nanoseconds
            &&& nanoseconds < 1_000_000_000 || (nanoseconds < 2_000_000_000 && seconds % 60 == 59)
        },
        is_millis(millis) <==> -8334601228800 * 1000 <= millis < (8210266876799 + 1) * 1000,
{
}

/// A listing is shown up to the first invitation that cannot be, in its order.
pub proof fn law_listing_stops_at_the_first_problem(list: Seq<ListedInvitation>)
    ensures
        first_list_problem(list) is None <==> forall|i: int|
            0 <= i < list.len() ==> (#[trigger] list[i]).problem() is None,
        first_list_problem(list) is Some ==> exists|i: int|
            0 <= i < list.len() && (#[trigger] list[i]).problem() == first_list_problem(list)
                && forall|j: int| 0 <= j < i ==> (#[trigger] list[j]).problem() is None,
    decreases list.len(),
{
    if list.len() > 0 {
        let fewer = list.drop_last();
        law_listing_stops_at_the_first_problem(fewer);
        let last = list.len() - 1;
        assert(list[last] == list.last());
        assert forall|i: int| 0 <= i < fewer.len() implies fewer[i] == list[i] by {}
        if first_list_problem(fewer) is Some {
            let i = choose|i: int|
                0 <= i < fewer.len() && (#[trigger] fewer[i]).problem() == first_list_problem(fewer)
                    && forall|j: int| 0 <= j < i ==> (#[trigger] fewer[j]).problem() is None;
            assert(list[i].problem() == first_list_problem(list));
            assert forall|j: int| 0 <= j < i implies (#[trigger] list[j]).problem() is None by {
                assert(fewer[j].problem() is None);
            }
        } else {
            assert forall|j: int| 0 <= j < last implies (#[trigger] list[j]).problem() is None by {
                assert(fewer[j].problem() is None);
            }
        }
    }
}

/// An invitation is listed if its identifier can be read and it can be shown.
pub proof fn law_listed_invitation_can_be_shown(item: ListedInvitation)
    ensures
        item.problem() is None <==> (item.invitation_id.parsed matches Ok(id) && view_problem(
            item.lifecycle,
            id@,
        ) is None),
        item.invitation_id.parsed is Err ==> item.problem() == Some(
            StateErrorView::Conflict(item.invitation_id.parsed->Err_0@),
        ),
{
}

/// The search for due invitations fails exactly if the identifier of a due one
/// cannot be read.
pub proof fn law_search_fails_for_unreadable_identifiers(rows: Seq<ExpiryRow>, now: Timestamp)
    ensures
        first_due_problem(rows, now) is None <==> forall|i: int|
            0 <= i < rows.len() && (#[trigger] rows[i]).is_due(now)
                ==> rows[i].invitation_id.parsed is Ok,
    decreases rows.len(),
{
    if rows.len() > 0 {
        let fewer = rows.drop_last();
        law_search_fails_for_unreadable_identifiers(fewer, now);
        let last = rows.len() - 1;
        assert(rows[last] == rows.last());
        assert forall|i: int| 0 <= i < fewer.len() implies fewer[i] == rows[i] by {}
        if first_due_problem(fewer, now) is None {
            assert forall|i: int|
                0 <= i < last && (#[trigger] rows[i]).is_due(
                    now,
                ) implies rows[i].invitation_id.parsed is Ok by {
                assert(fewer[i].is_due(now));
            }
        } else {
            let i = choose|i: int|
                0 <= i < fewer.len() && (#[trigger] fewer[i]).is_due(now)
                    && !(fewer[i].invitation_id.parsed is Ok);
            assert(rows[i].is_due(now));
        }
    }
}

/// The search for due invitations finds, of those whose identifiers are read as
/// what they name, exactly those past their deadlines that have neither expired
/// nor been revoked.
pub proof fn law_searching_due_invitations(
    store: &StateStore,
    now: Timestamp,
    rows: Vec<ExpiryRow>,
    result: Result<Vec<InvitationId>, StateError>,
    id: InvitationId,
)
    requires
        call_ensures(StateStore::expired_n4_invitation_ids, (store, now, rows), result),
        forall|i: int|
            0 <= i < rows@.len() ==> ((#[trigger] rows@[i]).invitation_id.parsed matches Ok(known)
                && known@ == rows@[i].invitation_id.text@),
    ensures
        result matches Ok(ids) ==> (ids@.contains(id) <==> exists|k: int|
            0 <= k < rows@.len() && (#[trigger] rows@[k]).invitation_id.parsed == Ok::<
                InvitationId,
                String,
            >(id) && !text_before(now.text(), rows@[k].expires_at@) && rows@[k].state@
                != "expired"@ && rows@[k].state@ != "revoked"@),
{
    law_due_invitations_are_in_order(rows@, now);
    if let Ok(ids) = result {
        assert(ids@.contains(id) <==> due_ids(by_key(rows@), now).contains(id));
        if ids@.contains(id) {
            let k = choose|k: int|
                0 <= k < rows@.len() && (#[trigger] rows@[k]).is_due(now)
                    && rows@[k].invitation_id.parsed == Ok::<InvitationId, String>(id);
            assert(rows@[k].invitation_id.parsed == Ok::<InvitationId, String>(id));
        }
        if exists|k: int|
            0 <= k < rows@.len() && (#[trigger] rows@[k]).invitation_id.parsed == Ok::<
                InvitationId,
                String,
            >(id) && !text_before(now.text(), rows@[k].expires_at@) && rows@[k].state@
                != "expired"@ && rows@[k].state@ != "revoked"@ {
            let k = choose|k: int|
                0 <= k < rows@.len() && (#[trigger] rows@[k]).invitation_id.parsed == Ok::<
                    InvitationId,
                    String,
                >(id) && !text_before(now.text(), rows@[k].expires_at@) && rows@[k].state@
                    != "expired"@ && rows@[k].state@ != "revoked"@;
            assert(rows@[k].is_due(now));
        }
    }
}

/// An invitation is shown as what is stored of it.
pub proof fn law_showing_an_invitation(
    store: &StateStore,
    invitation_id: InvitationId,
    lifecycle: Option<N4Lifecycle>,
    result: Result<N4InvitationView, StateError>,
)
    requires
        call_ensures(StateStore::n4_invitation_view, (store, invitation_id, lifecycle), result),
    ensures
        lifecycle is None ==> (result matches Err(error) && error@ == StateErrorView::NotFound(
            invitation_id@,
        )),
        result matches Ok(view) ==> (lifecycle matches Some(stored)
            && stored.invitation.record matches Ok(record) && {
            &&& view.invitation_id == invitation_id
            &&& view.network_id == record.network_id
            &&& view.state == record.state
            &&& view.expires_at == record.expires_at
            &&& view.created_at == record.created_at
            &&& view.max_uses == record.max_uses
            &&& view.revision == stored.details.revision
            &&& view.used_count == stored.invitation.used_count
            &&& view.consumed_at is Some <==> stored.details.consumed_at_ms is Some
            &&& view.revoked_at is Some <==> stored.details.revoked_at_ms is Some
            &&& view.expired_at is Some <==> stored.details.expired_at_ms is Some
        }),
{
}

} // verus!
