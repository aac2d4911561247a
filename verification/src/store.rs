//! Operations on networks, devices, join sessions and revocations.

use crate::audit::{fits_storage, to_i64, validate_next, AuditActor, AuditFact, AuditLog, StateStore};
use crate::error::{
    accepted, conflict, decoded, found, storage_problem, storage_result, DatabaseFailure,
    StateError, StateErrorView,
};
use crate::ids::{
    generation, DeviceId, Generation, JoinSessionId, NetworkId, StoredGeneration,
};
use crate::inventory::{
    bounded_page, check_observation_page, first_row_problem, is_consistent, is_inventory,
    load_observation_page, load_observations, loads_as, observation_page_limit, read_as,
    ObservationRow,
};
use crate::metadata::SanitizedMetadata;
use crate::names::{
    parse_revocation_state, AuditKind, AuditOutcome, Failpoint, JoinSessionState, MembershipState,
    RevocationState,
};
use crate::observation::ProviderObservation;
use crate::paging::{cursor_text, law_page_is_bounded, page_of, select_page, Keyed};
use crate::records::{
    device_problem, device_row, generation_problem, network_problem, network_row, Device,
    DeviceGenerations, Invitation, JoinSession, Network, Revocation,
};
use crate::text::{ascii_lower, lower, same_text};
use crate::time::Timestamp;
use vstd::prelude::*;

verus! {

/// The largest number of devices that one page holds.
pub const DEVICE_PAGE_MAX: usize = 32;

/// The first of two problems, if there is any.
pub open spec fn either(
    first: Option<StateErrorView>,
    second: Option<StateErrorView>,
) -> Option<StateErrorView> {
    if first is Some {
        first
    } else {
        second
    }
}

/// The event of a successful action without further metadata.
pub open spec fn success_fact(
    network_id: NetworkId,
    device_id: Option<DeviceId>,
    actor: AuditActor,
    kind: AuditKind,
    generation: Option<Generation>,
) -> AuditFact {
    AuditFact {
        network_id: Some(network_id),
        device_id,
        actor,
        kind,
        outcome: AuditOutcome::Success,
        generation: match generation {
            Some(value) => Some(value.value as i64),
            None => None,
        },
        metadata_json: "{}"@,
        correlation: None,
    }
}

/// Why a stored record cannot be had, if it cannot: it is absent, or its JSON
/// cannot be read.
pub open spec fn record_problem<T>(record: Option<Result<T, String>>, name: Seq<char>) -> Option<
    StateErrorView,
> {
    match record {
        None => Some(StateErrorView::NotFound(name)),
        Some(Err(text)) => Some(StateErrorView::Serialization(text@)),
        Some(Ok(_)) => None,
    }
}

/// The stored record of the given name.
pub fn stored_record<T>(record: Option<Result<T, String>>, name: &str) -> (result: Result<
    T,
    StateError,
>)
    ensures
        match result {
            Ok(value) => record == Some(Ok::<T, String>(value)),
            Err(error) => record_problem(record, name@) == Some(error@),
        },
{
    let record = found(record, name)?;
    decoded(record)
}

/// Why a network is not created, if it is not: it has no row, the database
/// refused it, or its event cannot be recorded.
pub open spec fn creation_problem(
    store: StateStore,
    network: Network,
    stored: Result<(), DatabaseFailure>,
) -> Option<StateErrorView> {
    either(
        network_problem(network),
        either(storage_problem(stored), store.audit_problem(Some(network.membership_generation))),
    )
}

/// What the creation of a network gives, and what it does to the trail.
pub open spec fn is_network_creation(
    store: StateStore,
    network: Network,
    stored: Result<(), DatabaseFailure>,
    actor: AuditActor,
    before: AuditLog,
    result: Result<(), StateError>,
    after: AuditLog,
) -> bool {
    &&& after.known == before.known
    &&& match result {
        Ok(()) => {
            &&& creation_problem(store, network, stored) is None
            &&& after@ == before@.push(
                success_fact(
                    network.network_id,
                    None,
                    actor,
                    AuditKind::NetworkCreated,
                    Some(network.membership_generation),
                ),
            )
        },
        Err(error) => {
            &&& after == before
            &&& creation_problem(store, network, stored) == Some(error@)
        },
    }
}

/// The stored networks: of each identifier the record, and the number of the
/// membership generation.
pub struct NetworkTable {
    pub records: Map<Seq<char>, Network>,
    pub generations: Map<Seq<char>, u64>,
}

impl NetworkTable {
    /// What is found under an identifier.
    pub open spec fn record(self, id: Seq<char>) -> Option<Result<Network, String>> {
        if self.records.dom().contains(id) {
            Some(Ok(self.records[id]))
        } else {
            None
        }
    }

    /// The database answers so to the rows of a network: an identifier that is
    /// taken violates a constraint.
    pub open spec fn answers(self, network: Network, stored: Result<(), DatabaseFailure>) -> bool {
        self.records.dom().contains(network.network_id@) ==> (stored matches Err(failure)
            && failure.constraint_violated)
    }

    /// The networks after a creation. Nothing is kept of one that failed.
    pub open spec fn after_creation(self, network: Network, result: Result<(), StateError>) -> Self {
        if result is Ok {
            NetworkTable {
                records: self.records.insert(network.network_id@, network),
                generations: self.generations.insert(
                    network.network_id@,
                    network.membership_generation.value,
                ),
            }
        } else {
            self
        }
    }
}

/// A network that was created is read back as it was given, with its membership
/// generation, and one event more is in the trail. A creation that failed leaves
/// all as it was. A creation whose event is made to fail fails.
pub proof fn law_created_network_reads_back(
    store: StateStore,
    table: NetworkTable,
    network: Network,
    stored: Result<(), DatabaseFailure>,
    actor: AuditActor,
    before: AuditLog,
    result: Result<(), StateError>,
    after: AuditLog,
)
    requires
        table.answers(network, stored),
        is_network_creation(store, network, stored, actor, before, result, after),
    ensures
        ({
            let id = network.network_id@;
            let next = table.after_creation(network, result);
            &&& result is Ok ==> {
                &&& !table.records.dom().contains(id)
                &&& next.record(id) == Some(Ok::<Network, String>(network))
                &&& record_problem(next.record(id), id) is None
                &&& next.generations[id] == network.membership_generation.value
                &&& after@.len() == before@.len() + 1
                &&& forall|other: Seq<char>| other != id ==> #[trigger] next.record(other)
                    == table.record(other)
            }
            &&& result is Err ==> {
                &&& next == table
                &&& after == before
                &&& !table.records.dom().contains(id) ==> record_problem(next.record(id), id)
                    == Some(StateErrorView::NotFound(id))
            }
            &&& store.is_armed(Failpoint::BeforeAuditInsert) ==> result is Err
        }),
{
}

/// A network is created once: a second creation of it is a conflict and changes
/// nothing.
pub proof fn law_network_is_created_once(
    store: StateStore,
    table: NetworkTable,
    network: Network,
    stored: Result<(), DatabaseFailure>,
    actor: AuditActor,
    before: AuditLog,
    result: Result<(), StateError>,
    after: AuditLog,
    stored_again: Result<(), DatabaseFailure>,
    actor_again: AuditActor,
    again: Result<(), StateError>,
    last: AuditLog,
)
    requires
        is_network_creation(store, network, stored, actor, before, result, after),
        result is Ok,
        table.after_creation(network, result).answers(network, stored_again),
        is_network_creation(store, network, stored_again, actor_again, after, again, last),
    ensures
        again matches Err(error) && error@ is Conflict,
        table.after_creation(network, result).after_creation(network, again)
            == table.after_creation(network, result),
        last == after,
{
}

impl StateStore {
    /// Records a successful action without further metadata.
    pub fn append_success(
        &self,
        log: &mut AuditLog,
        network_id: NetworkId,
        device_id: Option<DeviceId>,
        actor: AuditActor,
        kind: AuditKind,
        generation: Option<Generation>,
    ) -> (result: Result<(), StateError>)
        ensures
            final(log).known == old(log).known,
            match result {
                Ok(()) => {
                    &&& self.audit_problem(generation) is None
                    &&& final(log)@ == old(log)@.push(
                        success_fact(network_id, device_id, actor, kind, generation),
                    )
                },
                Err(error) => {
                    &&& self.audit_problem(generation) == Some(error@)
                    &&& *final(log) == *old(log)
                },
            },
    {
        self.append_audit(
            log,
            Some(network_id),
            device_id,
            actor,
            kind,
            AuditOutcome::Success,
            generation,
            &SanitizedMetadata::empty(),
        )
    }

    /// Creates a network: `stored` is what the database answered to its rows.
    pub fn create_network(
        &self,
        network: &Network,
        stored: Result<(), DatabaseFailure>,
        log: &mut AuditLog,
        actor: AuditActor,
    ) -> (result: Result<(), StateError>)
        ensures
            is_network_creation(*self, *network, stored, actor, *old(log), result, *final(log)),
    {
        network_row(network)?;
        storage_result(stored)?;
        self.append_success(
            log,
            network.network_id.clone(),
            None,
            actor,
            AuditKind::NetworkCreated,
            Some(network.membership_generation),
        )
    }

    /// Creates a device, which is not trusted: `stored` is what the database
    /// answered to its rows.
    pub fn create_device(
        &self,
        device: &Device,
        stored: Result<(), DatabaseFailure>,
        log: &mut AuditLog,
        actor: AuditActor,
    ) -> (result: Result<(), StateError>)
        ensures
            final(log).known == old(log).known,
            match result {
                Ok(()) => {
                    &&& device_problem(*device) is None
                    &&& stored is Ok
                    &&& self.audit_problem(Some(device.generations.credential)) is None
                    &&& final(log)@ == old(log)@.push(
                        success_fact(
                            device.network_id,
                            Some(device.device_id),
                            actor,
                            AuditKind::DeviceCreated,
                            Some(device.generations.credential),
                        ),
                    )
                },
                Err(error) => {
                    &&& *final(log) == *old(log)
                    &&& either(
                        device_problem(*device),
                        either(
                            storage_problem(stored),
                            self.audit_problem(Some(device.generations.credential)),
                        ),
                    ) == Some(error@)
                },
            },
    {
        device_row(device)?;
        storage_result(stored)?;
        self.append_success(
            log,
            device.network_id.clone(),
            Some(device.device_id.clone()),
            actor,
            AuditKind::DeviceCreated,
            Some(device.generations.credential),
        )
    }

    /// Issues an invitation outside the fenced lifecycle: `stored` is what the
    /// database answered to its row.
    pub fn issue_invitation(
        &self,
        invitation: &Invitation,
        stored: Result<(), DatabaseFailure>,
        log: &mut AuditLog,
        actor: AuditActor,
    ) -> (result: Result<(), StateError>)
        ensures
            final(log).known == old(log).known,
            match result {
                Ok(()) => {
                    &&& stored is Ok
                    &&& self.audit_problem(None) is None
                    &&& final(log)@ == old(log)@.push(
                        success_fact(
                            invitation.network_id,
                            None,
                            actor,
                            AuditKind::InvitationIssued,
                            None,
                        ),
                    )
                },
                Err(error) => {
                    &&& *final(log) == *old(log)
                    &&& either(storage_problem(stored), self.audit_problem(None)) == Some(error@)
                },
            },
    {
        storage_result(stored)?;
        self.append_success(
            log,
            invitation.network_id.clone(),
            None,
            actor,
            AuditKind::InvitationIssued,
            None,
        )
    }

    /// Creates a join session outside the fenced lifecycle: `stored` is what the
    /// database answered to its row.
    pub fn create_join_session(
        &self,
        session: &JoinSession,
        stored: Result<(), DatabaseFailure>,
        log: &mut AuditLog,
        actor: AuditActor,
    ) -> (result: Result<(), StateError>)
        ensures
            final(log).known == old(log).known,
            match result {
                Ok(()) => {
                    &&& stored is Ok
                    &&& self.audit_problem(None) is None
                    &&& final(log)@ == old(log)@.push(
                        success_fact(
                            session.network_id,
                            session.device_id,
                            actor,
                            AuditKind::JoinSessionCreated,
                            None,
                        ),
                    )
                },
                Err(error) => {
                    &&& *final(log) == *old(log)
                    &&& either(storage_problem(stored), self.audit_problem(None)) == Some(error@)
                },
            },
    {
        storage_result(stored)?;
        let device_id = match &session.device_id {
            Some(id) => Some(id.clone()),
            None => None,
        };
        self.append_success(
            log,
            session.network_id.clone(),
            device_id,
            actor,
            AuditKind::JoinSessionCreated,
            None,
        )
    }

    /// The join session of the given identifier.
    pub fn join_session(
        &self,
        join_session_id: &JoinSessionId,
        record: Option<Result<JoinSession, String>>,
    ) -> (result: Result<JoinSession, StateError>)
        ensures
            match result {
                Ok(session) => record == Some(Ok::<JoinSession, String>(session)),
                Err(error) => record_problem(record, join_session_id@) == Some(error@),
            },
    {
        stored_record(record, join_session_id.text.as_str())
    }
}

/// The stored state of a join session, as far as a transition reads it.
#[derive(Debug, PartialEq, Eq)]
pub struct JoinSessionRecords {
    /// The fenced lifecycle owns the session.
    pub fenced: bool,
    pub record: Option<Result<JoinSession, String>>,
    /// The stored name of the state, beside the record.
    pub state: String,
}

/// Whether two states of a join session are the same.
pub fn same_session_state(left: &JoinSessionState, right: &JoinSessionState) -> (same: bool)
    ensures
        same == (left.text() == right.text()),
{
    same_text(left.as_str(), right.as_str())
}

/// A join session after a transition, and the stored name of its state.
#[derive(Debug, PartialEq, Eq)]
pub struct MovedSession {
    pub session: JoinSession,
    pub state: String,
}

/// The rules of join sessions answer a transition, where they admit it, with the
/// session in the state that was asked for.
pub open spec fn is_moved_to(moved: Result<JoinSession, String>, next: JoinSessionState) -> bool {
    moved matches Ok(session) ==> session.state.text() == next.text()
}

/// Why a join session does not make a transition, if it does not. `moved` is
/// what the rules of join sessions answer to it.
pub open spec fn transition_problem(
    records: JoinSessionRecords,
    join_session: Seq<char>,
    expected: JoinSessionState,
    moved: Result<JoinSession, String>,
) -> Option<StateErrorView> {
    if records.fenced {
        Some(StateErrorView::Conflict("N4 join sessions require fenced lifecycle APIs"@))
    } else if record_problem(records.record, join_session) is Some {
        record_problem(records.record, join_session)
    } else if records.record->Some_0->Ok_0.state.text() != expected.text() {
        Some(StateErrorView::Conflict("join session state changed concurrently"@))
    } else if moved is Err {
        Some(StateErrorView::Conflict(moved->Err_0@))
    } else if records.state@ != ascii_lower(expected.text()) {
        Some(StateErrorView::Conflict("join session state changed concurrently"@))
    } else {
        None
    }
}

/// The state to which the membership of a device moves that is revoked.
pub fn revoking_state() -> (state: MembershipState)
    ensures
        state == MembershipState::Revoking,
{
    MembershipState::Revoking
}

/// A device whose revocation was requested, and the stored name of its state.
#[derive(Debug, PartialEq, Eq)]
pub struct RevokedDevice {
    pub device: Device,
    pub membership_state: String,
}

impl StateStore {
    /// Moves a join session from one state to another, unless the fenced
    /// lifecycle owns it. The session as it is then is returned, to be stored.
    /// `moved` is what the rules of join sessions answer to the transition to
    /// `next`.
    pub fn transition_join_session(
        &self,
        join_session_id: &JoinSessionId,
        records: JoinSessionRecords,
        expected: &JoinSessionState,
        next: &JoinSessionState,
        moved: Result<JoinSession, String>,
        log: &mut AuditLog,
        actor: AuditActor,
    ) -> (result: Result<MovedSession, StateError>)
        ensures
            final(log).known == old(log).known,
            match result {
                Ok(after) => {
                    &&& transition_problem(records, join_session_id@, *expected, moved) is None
                    &&& self.audit_problem(None) is None
                    &&& moved == Ok::<JoinSession, String>(after.session)
                    &&& after.state@ == ascii_lower(next.text())
                    &&& is_moved_to(moved, *next) ==> after.session.state.text() == next.text()
                    &&& final(log)@ == old(log)@.push(
                        success_fact(
                            after.session.network_id,
                            after.session.device_id,
                            actor,
                            AuditKind::JoinSessionStateChanged,
                            None,
                        ),
                    )
                },
                Err(error) => {
                    &&& *final(log) == *old(log)
                    &&& either(
                        transition_problem(records, join_session_id@, *expected, moved),
                        self.audit_problem(None),
                    ) == Some(error@)
                },
            },
    {
        if records.fenced {
            return Err(conflict("N4 join sessions require fenced lifecycle APIs"));
        }
        let session = stored_record(records.record, join_session_id.text.as_str())?;
        if !same_session_state(&session.state, expected) {
            return Err(conflict("join session state changed concurrently"));
        }
        let moved = accepted(moved)?;
        if !same_text(records.state.as_str(), lower(expected.as_str()).as_str()) {
            return Err(conflict("join session state changed concurrently"));
        }
        let device_id = match &moved.device_id {
            Some(id) => Some(id.clone()),
            None => None,
        };
        self.append_success(
            log,
            moved.network_id.clone(),
            device_id,
            actor,
            AuditKind::JoinSessionStateChanged,
            None,
        )?;
        Ok(MovedSession { session: moved, state: lower(next.as_str()) })
    }

    /// Records the revocation of a device and returns the device as it is then,
    /// to be stored. `revoking` is what the rules of memberships answer to the
    /// transition to `revoking_state`; `stored` is what the database answered to
    /// the row of the revocation.
    pub fn record_revocation(
        &self,
        revocation: &Revocation,
        device: Option<Result<Device, String>>,
        revoking: Result<MembershipState, String>,
        stored: Result<(), DatabaseFailure>,
        log: &mut AuditLog,
        actor: AuditActor,
    ) -> (result: Result<RevokedDevice, StateError>)
        ensures
            final(log).known == old(log).known,
            match result {
                Ok(after) => {
                    &&& device matches Some(Ok(before)) && revoking matches Ok(state)
                        && after.device == (Device {
                        membership_state: state,
                        updated_at: revocation.updated_at,
                        ..before
                    })
                    &&& after.membership_state@ == ascii_lower(MembershipState::Revoking.text())
                    &&& (revoking matches Ok(state) && state.text()
                        == MembershipState::Revoking.text()) ==> after.membership_state@
                        == ascii_lower(after.device.membership_state.text())
                    &&& stored is Ok
                    &&& self.audit_problem(None) is None
                    &&& final(log)@ == old(log)@.push(
                        success_fact(
                            revocation.network_id,
                            Some(revocation.device_id),
                            actor,
                            AuditKind::RevocationRequested,
                            None,
                        ),
                    )
                },
                Err(error) => {
                    &&& *final(log) == *old(log)
                    &&& either(
                        record_problem(device, revocation.device_id@),
                        either(
                            match revoking {
                                Ok(_) => None,
                                Err(text) => Some(StateErrorView::Conflict(text@)),
                            },
                            either(storage_problem(stored), self.audit_problem(None)),
                        ),
                    ) == Some(error@)
                },
            },
    {
        let mut device = stored_record(device, revocation.device_id.text.as_str())?;
        let state = accepted(revoking)?;
        storage_result(stored)?;
        self.append_success(
            log,
            revocation.network_id.clone(),
            Some(revocation.device_id.clone()),
            actor,
            AuditKind::RevocationRequested,
            None,
        )?;
        device.membership_state = state;
        device.updated_at = revocation.updated_at;
        Ok(RevokedDevice { device, membership_state: lower(revoking_state().as_str()) })
    }

    /// The network of the given identifier.
    pub fn network(&self, network_id: &NetworkId, record: Option<Result<Network, String>>) -> (result:
        Result<Network, StateError>)
        ensures
            match result {
                Ok(network) => record == Some(Ok::<Network, String>(network)),
                Err(error) => record_problem(record, network_id@) == Some(error@),
            },
    {
        stored_record(record, network_id.text.as_str())
    }

    /// The membership generation of a network.
    pub fn network_generation(
        &self,
        network_id: &NetworkId,
        stored: Option<StoredGeneration>,
    ) -> (result: Result<Generation, StateError>)
        ensures
            match (stored, result) {
                (None, Ok(_)) => false,
                (None, Err(error)) => error@ == StateErrorView::NotFound(network_id@),
                (Some(row), Ok(value)) => row.problem() is None && value.value == row.number,
                (Some(row), Err(error)) => row.problem() == Some(error@),
            },
    {
        let row = found(stored, network_id.text.as_str())?;
        generation(&row)
    }

    /// The device of the given identifier.
    pub fn device(&self, device_id: &DeviceId, record: Option<Result<Device, String>>) -> (result:
        Result<Device, StateError>)
        ensures
            match result {
                Ok(device) => record == Some(Ok::<Device, String>(device)),
                Err(error) => record_problem(record, device_id@) == Some(error@),
            },
    {
        stored_record(record, device_id.text.as_str())
    }
}

/// The stored generations of a device.
#[derive(Debug, PartialEq, Eq)]
pub struct StoredDeviceGenerations {
    pub credential: StoredGeneration,
    pub keryx_binding: StoredGeneration,
    pub fleet_projection: StoredGeneration,
}

impl StoredDeviceGenerations {
    /// Why the generations cannot be read, if they cannot.
    pub open spec fn problem(self) -> Option<StateErrorView> {
        either(
            self.credential.problem(),
            either(self.keryx_binding.problem(), self.fleet_projection.problem()),
        )
    }
}

impl StateStore {
    /// The generations of a device.
    pub fn device_generations(
        &self,
        device_id: &DeviceId,
        stored: Option<StoredDeviceGenerations>,
    ) -> (result: Result<DeviceGenerations, StateError>)
        ensures
            match (stored, result) {
                (None, Ok(_)) => false,
                (None, Err(error)) => error@ == StateErrorView::NotFound(device_id@),
                (Some(row), Ok(values)) => {
                    &&& row.problem() is None
                    &&& values.credential.value == row.credential.number
                    &&& values.keryx_binding.value == row.keryx_binding.number
                    &&& values.fleet_projection.value == row.fleet_projection.number
                },
                (Some(row), Err(error)) => row.problem() == Some(error@),
            },
    {
        let row = found(stored, device_id.text.as_str())?;
        let credential = generation(&row.credential)?;
        let keryx_binding = generation(&row.keryx_binding)?;
        let fleet_projection = generation(&row.fleet_projection)?;
        Ok(DeviceGenerations { credential, keryx_binding, fleet_projection })
    }

    /// How far the revocation of a device has come.
    pub fn revocation_state(&self, device_id: &DeviceId, stored: Option<String>) -> (result: Result<
        RevocationState,
        StateError,
    >)
        ensures
            match (stored, result) {
                (None, Ok(_)) => false,
                (None, Err(error)) => error@ == StateErrorView::NotFound(device_id@),
                (Some(name), Ok(state)) => state.text() == name@,
                (Some(name), Err(error)) => {
                    &&& forall|state: RevocationState| #[trigger] state.text() != name@
                    &&& error@ == StateErrorView::Conflict("unknown revocation state"@)
                },
            },
    {
        let name = found(stored, device_id.text.as_str())?;
        parse_revocation_state(name.as_str())
    }
}

/// A stored device, by its identifier.
#[derive(Debug, PartialEq, Eq)]
pub struct StoredDevice {
    pub device_id: String,
    pub record: Result<Device, String>,
}

impl Keyed for StoredDevice {
    open spec fn key(&self) -> Seq<char> {
        self.device_id@
    }

    fn key_text(&self) -> (text: &str) {
        self.device_id.as_str()
    }
}

/// The first of the devices that cannot be read, and why.
pub open spec fn first_unreadable(devices: Seq<StoredDevice>) -> Option<StateErrorView>
    decreases devices.len(),
{
    if devices.len() == 0 {
        None
    } else if first_unreadable(devices.drop_last()) is Some {
        first_unreadable(devices.drop_last())
    } else {
        match devices.last().record {
            Ok(_) => None,
            Err(text) => Some(StateErrorView::Serialization(text@)),
        }
    }
}

/// A problem found among the first devices is the first of all.
proof fn lemma_unreadable_stays(devices: Seq<StoredDevice>, count: int)
    requires
        0 <= count <= devices.len(),
        first_unreadable(devices.take(count)) is Some,
    ensures
        first_unreadable(devices) == first_unreadable(devices.take(count)),
    decreases devices.len() - count,
{
    if count < devices.len() {
        assert(devices.take(count + 1).drop_last() =~= devices.take(count));
        lemma_unreadable_stays(devices, count + 1);
    } else {
        assert(devices.take(count) =~= devices);
    }
}

/// The identifier of a device as a cursor.
pub open spec fn device_cursor(after: Option<DeviceId>) -> Option<Seq<char>> {
    match after {
        Some(id) => Some(id@),
        None => None,
    }
}

impl StateStore {
    /// A bounded page of the devices of a network: the first of those after the
    /// given one, from the records in the order of their identifiers.
    pub fn operator_device_page(
        &self,
        after: Option<DeviceId>,
        limit: usize,
        records: Vec<StoredDevice>,
    ) -> (result: Result<Vec<Device>, StateError>)
        ensures
            ({
                let chosen = page_of(records@, device_cursor(after), limit as nat);
                match result {
                    Ok(devices) => {
                        &&& 1 <= limit <= DEVICE_PAGE_MAX
                        &&& devices@.len() == chosen.len() <= limit
                        &&& forall|i: int|
                            0 <= i < chosen.len() ==> (#[trigger] chosen[i]).record == Ok::<
                                Device,
                                String,
                            >(devices@[i])
                    },
                    Err(error) => if !(1 <= limit <= DEVICE_PAGE_MAX) {
                        error@ == StateErrorView::Conflict(
                            "operator device page limit is out of bounds"@,
                        )
                    } else {
                        first_unreadable(chosen) == Some(error@)
                    },
                }
            }),
    {
        if limit < 1 || limit > DEVICE_PAGE_MAX {
            return Err(conflict("operator device page limit is out of bounds"));
        }
        let cursor = match &after {
            Some(id) => Some(id.text.as_str()),
            None => None,
        };
        proof {
            law_page_is_bounded(records@, device_cursor(after), limit as nat);
        }
        let chosen = select_page(records, cursor, limit);
        let ghost all = chosen@;
        let mut devices: Vec<Device> = Vec::new();
        assert(all.take(0) =~= Seq::<StoredDevice>::empty());
        for stored in it: chosen
            invariant
                it.seq() == all,
                all == chosen@,
                all == page_of(records@, device_cursor(after), limit as nat),
                1 <= limit <= DEVICE_PAGE_MAX,
                first_unreadable(all.take(it.index() as int)) is None,
                devices@.len() == it.index(),
                forall|i: int|
                    0 <= i < it.index() ==> (#[trigger] all[i]).record == Ok::<Device, String>(
                        devices@[i],
                    ),
        {
            let ghost i = it.index() as int;
            proof {
                assert(stored == all[i]);
                assert(all.take(i + 1).drop_last() =~= all.take(i));
                assert(all.take(i + 1).last() == stored);
            }
            match decoded(stored.record) {
                Ok(device) => devices.push(device),
                Err(error) => {
                    proof {
                        lemma_unreadable_stays(all, i + 1);
                    }
                    return Err(error);
                },
            }
        }
        Ok(devices)
    }
}

/// Why the current generation of a network is not the expected one, where it is
/// not.
pub fn stale_network_generation(
    network_id: &NetworkId,
    expected: Generation,
    actual: Option<u64>,
) -> (error: StateError)
    ensures
        error@ == stale_problem(network_id@, expected, actual),
{
    match actual {
        Some(actual) => StateError::StaleGeneration { expected: expected.get(), actual },
        None => StateError::NotFound(network_id.text.clone()),
    }
}

/// The error for a generation that is not the expected one.
pub open spec fn stale_problem(name: Seq<char>, expected: Generation, actual: Option<u64>) -> StateErrorView {
    match actual {
        Some(number) => StateErrorView::StaleGeneration { expected: expected.value, actual: number },
        None => StateErrorView::NotFound(name),
    }
}

/// Why a generation does not advance, if it does not: `recorded` is what the
/// record of the given name says, `stored` what the counter beside it says.
pub open spec fn advance_problem(
    name: Seq<char>,
    expected: Generation,
    next: Generation,
    unavailable: Option<StateErrorView>,
    recorded: Generation,
    stored: Option<u64>,
) -> Option<StateErrorView> {
    if next.value <= expected.value {
        Some(StateErrorView::Conflict("generation must advance monotonically"@))
    } else if unavailable is Some {
        unavailable
    } else if recorded != expected {
        Some(
            StateErrorView::StaleGeneration { expected: expected.value, actual: recorded.value },
        )
    } else if !fits_storage(expected) || !fits_storage(next) {
        Some(generation_problem())
    } else if stored != Some(expected.value) {
        Some(stale_problem(name, expected, stored))
    } else {
        None
    }
}

impl StateStore {
    /// Advances the membership generation of a network at the given time. The
    /// network as it is then is returned, to be stored with its generation.
    pub fn advance_membership_generation_at(
        &self,
        network_id: &NetworkId,
        record: Option<Result<Network, String>>,
        stored: Option<u64>,
        expected: Generation,
        next: Generation,
        now: Timestamp,
        log: &mut AuditLog,
        actor: AuditActor,
    ) -> (result: Result<Network, StateError>)
        ensures
            final(log).known == old(log).known,
            ({
                let problem = advance_problem(
                    network_id@,
                    expected,
                    next,
                    record_problem(record, network_id@),
                    record->Some_0->Ok_0.membership_generation,
                    stored,
                );
                match result {
                    Ok(after) => {
                        &&& problem is None
                        &&& self.audit_problem(Some(next)) is None
                        &&& record matches Some(Ok(before)) && after == (Network {
                            membership_generation: next,
                            updated_at: now,
                            ..before
                        })
                        &&& final(log)@ == old(log)@.push(
                            success_fact(
                                *network_id,
                                None,
                                actor,
                                AuditKind::MembershipGenerationAdvanced,
                                Some(next),
                            ),
                        )
                    },
                    Err(error) => {
                        &&& *final(log) == *old(log)
                        &&& either(problem, self.audit_problem(Some(next))) == Some(error@)
                    },
                }
            }),
    {
        validate_next(expected, next)?;
        let mut network = stored_record(record, network_id.text.as_str())?;
        if network.membership_generation != expected {
            return Err(
                StateError::StaleGeneration {
                    expected: expected.get(),
                    actual: network.membership_generation.get(),
                },
            );
        }
        let number: i64 = to_i64(expected)?;
        to_i64(next)?;
        let current = match stored {
            Some(value) => value == number as u64,
            None => false,
        };
        if !current {
            return Err(stale_network_generation(network_id, expected, stored));
        }
        self.append_success(
            log,
            network_id.clone(),
            None,
            actor,
            AuditKind::MembershipGenerationAdvanced,
            Some(next),
        )?;
        network.membership_generation = next;
        network.updated_at = now;
        Ok(network)
    }

    /// Advances the membership generation of a network now.
    pub fn advance_membership_generation(
        &self,
        network_id: &NetworkId,
        record: Option<Result<Network, String>>,
        stored: Option<u64>,
        expected: Generation,
        next: Generation,
        log: &mut AuditLog,
        actor: AuditActor,
    ) -> (result: Result<Network, StateError>)
        ensures
            final(log).known == old(log).known,
            ({
                let problem = advance_problem(
                    network_id@,
                    expected,
                    next,
                    record_problem(record, network_id@),
                    record->Some_0->Ok_0.membership_generation,
                    stored,
                );
                match result {
                    Ok(after) => {
                        &&& problem is None
                        &&& self.audit_problem(Some(next)) is None
                        &&& record matches Some(Ok(before)) && after == (Network {
                            membership_generation: next,
                            updated_at: after.updated_at,
                            ..before
                        })
                        &&& final(log)@ == old(log)@.push(
                            success_fact(
                                *network_id,
                                None,
                                actor,
                                AuditKind::MembershipGenerationAdvanced,
                                Some(next),
                            ),
                        )
                    },
                    Err(error) => {
                        &&& *final(log) == *old(log)
                        &&& either(problem, self.audit_problem(Some(next))) == Some(error@)
                    },
                }
            }),
    {
        self.advance_membership_generation_at(
            network_id,
            record,
            stored,
            expected,
            next,
            Timestamp::now(),
            log,
            actor,
        )
    }

    /// Advances the credential generation of a device at the given time. The
    /// device as it is then is returned, to be stored with its generation.
    pub fn advance_device_credential_generation_at(
        &self,
        device_id: &DeviceId,
        record: Option<Result<Device, String>>,
        stored: Option<u64>,
        expected: Generation,
        next: Generation,
        now: Timestamp,
        log: &mut AuditLog,
        actor: AuditActor,
    ) -> (result: Result<Device, StateError>)
        ensures
            final(log).known == old(log).known,
            ({
                let problem = advance_problem(
                    device_id@,
                    expected,
                    next,
                    record_problem(record, device_id@),
                    record->Some_0->Ok_0.generations.credential,
                    stored,
                );
                match result {
                    Ok(after) => {
                        &&& problem is None
                        &&& self.audit_problem(Some(next)) is None
                        &&& record matches Some(Ok(before)) && after == (Device {
                            generations: DeviceGenerations {
                                credential: next,
                                ..before.generations
                            },
                            updated_at: now,
                            ..before
                        })
                        &&& final(log)@ == old(log)@.push(
                            success_fact(
                                after.network_id,
                                Some(*device_id),
                                actor,
                                AuditKind::CredentialGenerationAdvanced,
                                Some(next),
                            ),
                        )
                    },
                    Err(error) => {
                        &&& *final(log) == *old(log)
                        &&& either(problem, self.audit_problem(Some(next))) == Some(error@)
                    },
                }
            }),
    {
        validate_next(expected, next)?;
        let mut device = stored_record(record, device_id.text.as_str())?;
        if device.generations.credential != expected {
            return Err(
                StateError::StaleGeneration {
                    expected: expected.get(),
                    actual: device.generations.credential.get(),
                },
            );
        }
        let number: i64 = to_i64(expected)?;
        to_i64(next)?;
        match stored {
            Some(actual) => {
                if actual != number as u64 {
                    return Err(StateError::StaleGeneration { expected: expected.get(), actual });
                }
            },
            None => return Err(StateError::NotFound(device_id.text.clone())),
        }
        self.append_success(
            log,
            device.network_id.clone(),
            Some(device_id.clone()),
            actor,
            AuditKind::CredentialGenerationAdvanced,
            Some(next),
        )?;
        device.generations = DeviceGenerations { credential: next, ..device.generations };
        device.updated_at = now;
        Ok(device)
    }

    /// Advances the credential generation of a device now.
    pub fn advance_device_credential_generation(
        &self,
        device_id: &DeviceId,
        record: Option<Result<Device, String>>,
        stored: Option<u64>,
        expected: Generation,
        next: Generation,
        log: &mut AuditLog,
        actor: AuditActor,
    ) -> (result: Result<Device, StateError>)
        ensures
            final(log).known == old(log).known,
            ({
                let problem = advance_problem(
                    device_id@,
                    expected,
                    next,
                    record_problem(record, device_id@),
                    record->Some_0->Ok_0.generations.credential,
                    stored,
                );
                match result {
                    Ok(after) => {
                        &&& problem is None
                        &&& self.audit_problem(Some(next)) is None
                        &&& record matches Some(Ok(before)) && after == (Device {
                            generations: DeviceGenerations {
                                credential: next,
                                ..before.generations
                            },
                            updated_at: after.updated_at,
                            ..before
                        })
                        &&& final(log)@ == old(log)@.push(
                            success_fact(
                                after.network_id,
                                Some(*device_id),
                                actor,
                                AuditKind::CredentialGenerationAdvanced,
                                Some(next),
                            ),
                        )
                    },
                    Err(error) => {
                        &&& *final(log) == *old(log)
                        &&& either(problem, self.audit_problem(Some(next))) == Some(error@)
                    },
                }
            }),
    {
        self.advance_device_credential_generation_at(
            device_id,
            record,
            stored,
            expected,
            next,
            Timestamp::now(),
            log,
            actor,
        )
    }

    /// The observations of a network, in the order of their node identifiers.
    pub fn provider_observations(&self, network_id: &NetworkId, rows: Vec<ObservationRow>) -> (result:
        Result<Vec<ProviderObservation>, StateError>)
        ensures
            match result {
                Ok(observations) => {
                    &&& first_row_problem(rows@) is None
                    &&& is_inventory(observations@)
                    &&& loads_as(rows@, *network_id, observations@)
                },
                Err(error) => first_row_problem(rows@) == Some(error@),
            },
    {
        let inventory = load_observations(network_id, rows)?;
        Ok(inventory.into_observations())
    }

    /// A bounded page of the observations of a network: the first of those after
    /// the given node, from the rows in the order of their node identifiers.
    pub fn provider_observation_page(
        &self,
        network_id: &NetworkId,
        after_provider_node_id: Option<&str>,
        limit: usize,
        network: Option<Result<Network, String>>,
        rows: Vec<ObservationRow>,
    ) -> (result: Result<Vec<ProviderObservation>, StateError>)
        ensures
            limit == 0 ==> (result matches Ok(page) && page@.len() == 0),
            limit > 0 ==> ({
                let chosen = page_of(
                    rows@,
                    cursor_text(after_provider_node_id),
                    bounded_page(limit) as nat,
                );
                match result {
                    Ok(page) => {
                        &&& record_problem(network, network_id@) is None
                        &&& page@.len() <= bounded_page(limit)
                        &&& read_as(chosen, *network_id, page@)
                        &&& forall|i: int|
                            0 <= i < page@.len() ==> is_consistent(
                                #[trigger] page@[i],
                                network->Some_0->Ok_0.provider_instance_id@,
                            )
                    },
                    Err(error) => if record_problem(network, network_id@) is Some {
                        record_problem(network, network_id@) == Some(error@)
                    } else if first_row_problem(chosen) is Some {
                        first_row_problem(chosen) == Some(error@)
                    } else {
                        &&& error@ == StateErrorView::Conflict(
                            "provider observation identity is inconsistent"@,
                        )
                        &&& exists|page: Seq<ProviderObservation>, i: int| #[trigger]
                            read_as(chosen, *network_id, page) && 0 <= i < page.len()
                                && !is_consistent(
                                #[trigger] page[i],
                                network->Some_0->Ok_0.provider_instance_id@,
                            )
                    },
                }
            }),
    {
        let bounded = observation_page_limit(limit);
        if bounded == 0 {
            return Ok(Vec::new());
        }
        let network = self.network(network_id, network)?;
        proof {
            law_page_is_bounded(rows@, cursor_text(after_provider_node_id), bounded as nat);
        }
        let page = load_observation_page(network_id, rows, after_provider_node_id, bounded)?;
        check_observation_page(&page, &network.provider_instance_id)?;
        Ok(page)
    }

    /// The number of projections to a fleet: there are none.
    pub fn fleet_projection_count(&self, _network_id: &NetworkId) -> (result: Result<
        u64,
        StateError,
    >)
        ensures
            result == Ok::<u64, StateError>(0),
    {
        Ok(0)
    }

    /// The query that counts the records of a network.
    pub fn count(&self, table: &str) -> (result: Result<&'static str, StateError>)
        ensures
            match result {
                Ok(query) => {
                    ||| table@ == "devices"@ && query@
                        == "SELECT COUNT(*) FROM devices WHERE network_id=?1"@
                    ||| table@ == "keryx_bindings"@ && query@
                        == "SELECT COUNT(*) FROM keryx_bindings WHERE network_id=?1"@
                },
                Err(error) => {
                    &&& table@ != "devices"@
                    &&& table@ != "keryx_bindings"@
                    &&& error@ == StateErrorView::Conflict("unknown count table"@)
                },
            },
    {
        if same_text(table, "devices") {
            Ok("SELECT COUNT(*) FROM devices WHERE network_id=?1")
        } else if same_text(table, "keryx_bindings") {
            Ok("SELECT COUNT(*) FROM keryx_bindings WHERE network_id=?1")
        } else {
            Err(conflict("unknown count table"))
        }
    }
}

/// The queries for all texts that the database holds.
pub fn dump_queries() -> (queries: Vec<&'static str>)
    ensures
        queries@ == seq![
            "SELECT record_json || secret_verifier FROM invitations",
            "SELECT record_json || display_name || COALESCE(provider_key_fingerprint,'') FROM devices",
            "SELECT metadata_json || event_kind || actor_source || COALESCE(actor_id,'') FROM audit_events",
            "SELECT server_url || opaque_secret_reference || compatibility_pin || COALESCE(last_failure_detail,'') FROM provider_imports",
            "SELECT stable_key_fingerprint || semantic_fingerprint || normalized_json FROM provider_observations",
            "SELECT provider_principal_id || roles_json || constraints_json || last_redemption_metadata_json FROM n4_invitation_details",
            "SELECT provider_principal_id || create_request_id || COALESCE(configuration_fingerprint,'') FROM n4_join_session_dispatches",
            "SELECT provider_principal_id || approved_tags_json || safe_correlation_json FROM n4_provider_credential_metadata",
        ],
{
    let mut queries: Vec<&'static str> = Vec::new();
    queries.push(
        "SELECT record_json || secret_verifier FROM invitations",
    );
    queries.push(
        "SELECT record_json || display_name || COALESCE(provider_key_fingerprint,'') FROM devices",
    );
    queries.push(
        "SELECT metadata_json || event_kind || actor_source || COALESCE(actor_id,'') FROM audit_events",
    );
    queries.push(
        "SELECT server_url || opaque_secret_reference || compatibility_pin || COALESCE(last_failure_detail,'') FROM provider_imports",
    );
    queries.push(
        "SELECT stable_key_fingerprint || semantic_fingerprint || normalized_json FROM provider_observations",
    );
    queries.push(
        "SELECT provider_principal_id || roles_json || constraints_json || last_redemption_metadata_json FROM n4_invitation_details",
    );
    queries.push(
        "SELECT provider_principal_id || create_request_id || COALESCE(configuration_fingerprint,'') FROM n4_join_session_dispatches",
    );
    queries.push(
        "SELECT provider_principal_id || approved_tags_json || safe_correlation_json FROM n4_provider_credential_metadata",
    );
    queries
}

/// Texts, one after the other.
pub open spec fn concatenated(texts: Seq<String>) -> Seq<char>
    decreases texts.len(),
{
    if texts.len() == 0 {
        Seq::empty()
    } else {
        concatenated(texts.drop_last()) + texts.last()@
    }
}

impl StateStore {
    /// All texts that the database holds, one after the other: what the queries
    /// for them gave, in their order.
    pub fn database_text_dump_for_test(&self, texts: &Vec<String>) -> (dump: String)
        ensures
            dump@ == concatenated(texts@),
    {
        let mut dump = String::new();
        assert(texts@.take(0) =~= Seq::<String>::empty());
        assert(dump@ =~= concatenated(texts@.take(0)));
        for i in 0..texts.len()
            invariant
                dump@ == concatenated(texts@.take(i as int)),
        {
            assert(texts@.take(i + 1).drop_last() =~= texts@.take(i as int));
            dump.append(texts[i].as_str());
        }
        assert(texts@.take(texts@.len() as int) =~= texts@);
        dump
    }
}

/// A successful advance moves a generation strictly forward, from exactly the
/// one that was expected.
pub proof fn law_generations_only_advance(
    name: Seq<char>,
    expected: Generation,
    next: Generation,
    unavailable: Option<StateErrorView>,
    recorded: Generation,
    stored: Option<u64>,
)
    ensures
        advance_problem(name, expected, next, unavailable, recorded, stored) is None ==> {
            &&& recorded == expected
            &&& stored == Some(expected.value)
            &&& next.value > expected.value
        },
        // Whoever still expects the old generation is refused afterwards.
        advance_problem(name, expected, next, unavailable, recorded, stored) is None ==> forall|
            later: Generation,
        | #[trigger]
            advance_problem(name, expected, later, unavailable, next, Some(next.value)) is Some,
{
}

} // verus!
