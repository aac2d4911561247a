//! The records that the state is made of, and the rows by which they are stored.

use crate::audit::{fits_storage, to_i64};
use crate::error::{StateError, StateErrorView};
use crate::ids::{
    DeviceId, Generation, InvitationId, JoinSessionId, NetworkId, ProviderCredentialId,
    ProviderInstanceId, RevocationId,
};
use crate::names::{
    revocation_name, InvitationState, JoinSessionState, MembershipState, ProviderKind,
    RevocationState,
};
use crate::observation::NodeIdentity;
use crate::text::{ascii_lower, lower, same_text};
use crate::time::Timestamp;
use vstd::prelude::*;

verus! {

/// A network of devices behind one provider.
#[derive(Debug, PartialEq, Eq)]
pub struct Network {
    pub network_id: NetworkId,
    pub name: String,
    /// The name of the state.
    pub state: String,
    pub provider_kind: ProviderKind,
    pub provider_instance_id: ProviderInstanceId,
    pub membership_generation: Generation,
    pub policy_generation: Generation,
    pub created_at: Timestamp,
    pub updated_at: Timestamp,
}

impl Clone for Network {
    fn clone(&self) -> (copy: Self)
        ensures
            copy == *self,
    {
        Network {
            network_id: self.network_id.clone(),
            name: self.name.clone(),
            state: self.state.clone(),
            provider_kind: self.provider_kind.clone(),
            provider_instance_id: self.provider_instance_id.clone(),
            membership_generation: self.membership_generation,
            policy_generation: self.policy_generation,
            created_at: self.created_at,
            updated_at: self.updated_at,
        }
    }
}

/// The generations of a device.
#[derive(Clone, Copy, Debug, PartialEq, Eq, Structural)]
pub struct DeviceGenerations {
    pub credential: Generation,
    pub keryx_binding: Generation,
    pub fleet_projection: Generation,
}

/// A device of a network.
#[derive(Debug, PartialEq, Eq)]
pub struct Device {
    pub device_id: DeviceId,
    pub network_id: NetworkId,
    pub display_name: String,
    pub membership_state: MembershipState,
    pub provider_identity: Option<NodeIdentity>,
    pub generations: DeviceGenerations,
    /// The name of the status.
    pub fleet_projection_status: String,
    pub created_at: Timestamp,
    pub updated_at: Timestamp,
    pub revoked_at: Option<Timestamp>,
}

impl Clone for Device {
    fn clone(&self) -> (copy: Self)
        ensures
            copy == *self,
    {
        Device {
            device_id: self.device_id.clone(),
            network_id: self.network_id.clone(),
            display_name: self.display_name.clone(),
            membership_state: self.membership_state.clone(),
            provider_identity: match &self.provider_identity {
                Some(value) => Some(value.clone()),
                None => None,
            },
            generations: self.generations,
            fleet_projection_status: self.fleet_projection_status.clone(),
            created_at: self.created_at,
            updated_at: self.updated_at,
            revoked_at: self.revoked_at,
        }
    }
}

/// The roles that an invitation gives, as JSON.
#[derive(Debug, PartialEq, Eq)]
pub struct Roles {
    pub json: String,
}

impl Clone for Roles {
    fn clone(&self) -> (copy: Self)
        ensures
            copy == *self,
    {
        Roles {
            json: self.json.clone(),
        }
    }
}

/// What an invitation requires of the device that joins.
#[derive(Debug, PartialEq, Eq)]
pub struct JoinConstraints {
    pub expected_platform: Option<String>,
    pub expected_hostname_hint: Option<String>,
    /// All of the constraints, as JSON.
    pub json: String,
}

impl Clone for JoinConstraints {
    fn clone(&self) -> (copy: Self)
        ensures
            copy == *self,
    {
        JoinConstraints {
            expected_platform: match &self.expected_platform {
                Some(value) => Some(value.clone()),
                None => None,
            },
            expected_hostname_hint: match &self.expected_hostname_hint {
                Some(value) => Some(value.clone()),
                None => None,
            },
            json: self.json.clone(),
        }
    }
}

/// An invitation to join a network.
#[derive(PartialEq, Eq)]
pub struct Invitation {
    pub invitation_id: InvitationId,
    pub network_id: NetworkId,
    pub state: InvitationState,
    pub secret_verifier: String,
    pub provider_credential_reference: Option<ProviderCredentialId>,
    pub max_uses: u32,
    pub used_count: u32,
    pub roles: Roles,
    pub join_constraints: JoinConstraints,
    pub created_at: Timestamp,
    pub expires_at: Timestamp,
}

impl Clone for Invitation {
    fn clone(&self) -> (copy: Self)
        ensures
            copy == *self,
    {
        Invitation {
            invitation_id: self.invitation_id.clone(),
            network_id: self.network_id.clone(),
            state: self.state.clone(),
            secret_verifier: self.secret_verifier.clone(),
            provider_credential_reference: match &self.provider_credential_reference {
                Some(value) => Some(value.clone()),
                None => None,
            },
            max_uses: self.max_uses,
            used_count: self.used_count,
            roles: self.roles.clone(),
            join_constraints: self.join_constraints.clone(),
            created_at: self.created_at,
            expires_at: self.expires_at,
        }
    }
}

/// The joining of one device.
#[derive(Debug, PartialEq, Eq)]
pub struct JoinSession {
    pub join_session_id: JoinSessionId,
    pub invitation_id: InvitationId,
    pub network_id: NetworkId,
    pub device_id: Option<DeviceId>,
    pub state: JoinSessionState,
    /// The session belongs to the fenced lifecycle.
    pub n4: bool,
    pub created_at: Timestamp,
    pub expires_at: Timestamp,
    pub updated_at: Timestamp,
}

impl Clone for JoinSession {
    fn clone(&self) -> (copy: Self)
        ensures
            copy == *self,
    {
        JoinSession {
            join_session_id: self.join_session_id.clone(),
            invitation_id: self.invitation_id.clone(),
            network_id: self.network_id.clone(),
            device_id: match &self.device_id {
                Some(value) => Some(value.clone()),
                None => None,
            },
            state: self.state.clone(),
            n4: self.n4,
            created_at: self.created_at,
            expires_at: self.expires_at,
            updated_at: self.updated_at,
        }
    }
}

/// The revocation of a device.
#[derive(Debug, PartialEq, Eq)]
pub struct Revocation {
    pub revocation_id: RevocationId,
    pub network_id: NetworkId,
    pub device_id: DeviceId,
    pub state: RevocationState,
    pub requested_at: Timestamp,
    pub updated_at: Timestamp,
    pub application_trust_removed_at: Option<Timestamp>,
    pub provider_cleanup_completed_at: Option<Timestamp>,
}

impl Clone for Revocation {
    fn clone(&self) -> (copy: Self)
        ensures
            copy == *self,
    {
        Revocation {
            revocation_id: self.revocation_id.clone(),
            network_id: self.network_id.clone(),
            device_id: self.device_id.clone(),
            state: self.state,
            requested_at: self.requested_at,
            updated_at: self.updated_at,
            application_trust_removed_at: self.application_trust_removed_at,
            provider_cleanup_completed_at: self.provider_cleanup_completed_at,
        }
    }
}

/// The text of an optional instant.
pub open spec fn optional_time_text(time: Option<Timestamp>) -> Option<Seq<char>> {
    match time {
        Some(instant) => Some(instant.text()),
        None => None,
    }
}

/// The content of an optional text.
pub open spec fn optional_text(text: Option<String>) -> Option<Seq<char>> {
    match text {
        Some(value) => Some(value@),
        None => None,
    }
}

fn optional_time(time: Option<Timestamp>) -> (text: Option<String>)
    ensures
        optional_text(text) == optional_time_text(time),
{
    match time {
        Some(instant) => Some(instant.to_rfc3339()),
        None => None,
    }
}

/// The row of a network, beside its JSON record.
#[derive(Debug, PartialEq, Eq)]
pub struct NetworkRow {
    pub network: String,
    pub name: String,
    pub state: String,
    pub provider_kind: String,
    pub provider_instance: String,
    pub membership_generation: i64,
    pub policy_generation: i64,
    pub created_at: String,
    pub updated_at: String,
}

impl NetworkRow {
    /// The row stores the network.
    pub open spec fn stores(self, network: Network) -> bool {
        &&& self.network@ == network.network_id@
        &&& self.name@ == network.name@
        &&& self.state@ == ascii_lower(network.state@)
        &&& self.provider_kind@ == ascii_lower(network.provider_kind.text())
        &&& self.provider_instance@ == network.provider_instance_id@
        &&& self.membership_generation == network.membership_generation.value
        &&& self.policy_generation == network.policy_generation.value
        &&& self.created_at@ == network.created_at.text()
        &&& self.updated_at@ == network.updated_at.text()
    }
}

/// The generation does not fit the database.
pub open spec fn generation_problem() -> StateErrorView {
    StateErrorView::Conflict("generation exceeds SQLite integer range"@)
}

/// Why a network has no row, if it has none.
pub open spec fn network_problem(network: Network) -> Option<StateErrorView> {
    if fits_storage(network.membership_generation) && fits_storage(network.policy_generation) {
        None
    } else {
        Some(generation_problem())
    }
}

/// The row of a network.
pub fn network_row(network: &Network) -> (result: Result<NetworkRow, StateError>)
    ensures
        match result {
            Ok(row) => network_problem(*network) is None && row.stores(*network),
            Err(error) => network_problem(*network) == Some(error@),
        },
{
    let membership_generation: i64 = to_i64(network.membership_generation)?;
    let policy_generation: i64 = to_i64(network.policy_generation)?;
    Ok(
        NetworkRow {
            network: network.network_id.text.clone(),
            name: network.name.clone(),
            state: lower(network.state.as_str()),
            provider_kind: lower(network.provider_kind.as_str()),
            provider_instance: network.provider_instance_id.text.clone(),
            membership_generation,
            policy_generation,
            created_at: network.created_at.to_rfc3339(),
            updated_at: network.updated_at.to_rfc3339(),
        },
    )
}

/// The row of a device, beside its JSON record.
#[derive(Debug, PartialEq, Eq)]
pub struct DeviceRow {
    pub device: String,
    pub network: String,
    pub display_name: String,
    pub membership_state: String,
    pub provider_instance: Option<String>,
    pub provider_node: Option<String>,
    pub provider_key_fingerprint: Option<String>,
    pub credential_generation: i64,
    pub keryx_binding_generation: i64,
    pub fleet_projection_generation: i64,
    pub fleet_projection_status: String,
    pub created_at: String,
    pub updated_at: String,
    pub revoked_at: Option<String>,
}

impl DeviceRow {
    /// The row stores the device.
    pub open spec fn stores(self, device: Device) -> bool {
        &&& self.device@ == device.device_id@
        &&& self.network@ == device.network_id@
        &&& self.display_name@ == device.display_name@
        &&& self.membership_state@ == ascii_lower(device.membership_state.text())
        &&& match device.provider_identity {
            Some(identity) => {
                &&& optional_text(self.provider_instance) == Some(identity.provider_instance_id@)
                &&& optional_text(self.provider_node) == Some(identity.node_id@)
                &&& optional_text(self.provider_key_fingerprint) == Some(
                    identity.stable_key_fingerprint@,
                )
            },
            None => self.provider_instance is None && self.provider_node is None
                && self.provider_key_fingerprint is None,
        }
        &&& self.credential_generation == device.generations.credential.value
        &&& self.keryx_binding_generation == device.generations.keryx_binding.value
        &&& self.fleet_projection_generation == device.generations.fleet_projection.value
        &&& self.fleet_projection_status@ == ascii_lower(device.fleet_projection_status@)
        &&& self.created_at@ == device.created_at.text()
        &&& self.updated_at@ == device.updated_at.text()
        &&& optional_text(self.revoked_at) == optional_time_text(device.revoked_at)
    }
}

/// Why a device cannot be created, if it cannot: it must not come into being as
/// a trusted one.
pub open spec fn device_problem(device: Device) -> Option<StateErrorView> {
    if device.membership_state.text() == "Active"@ || device.membership_state.text()
        == "Suspended"@ {
        Some(StateErrorView::ActivationGated)
    } else if fits_storage(device.generations.credential) && fits_storage(
        device.generations.keryx_binding,
    ) && fits_storage(device.generations.fleet_projection) {
        None
    } else {
        Some(generation_problem())
    }
}

/// The row of a device that is to be created.
pub fn device_row(device: &Device) -> (result: Result<DeviceRow, StateError>)
    ensures
        match result {
            Ok(row) => device_problem(*device) is None && row.stores(*device),
            Err(error) => device_problem(*device) == Some(error@),
        },
{
    let membership_state = device.membership_state.as_str();
    if same_text(membership_state, "Active") || same_text(membership_state, "Suspended") {
        return Err(StateError::ActivationGated);
    }
    let credential_generation: i64 = to_i64(device.generations.credential)?;
    let keryx_binding_generation: i64 = to_i64(device.generations.keryx_binding)?;
    let fleet_projection_generation: i64 = to_i64(device.generations.fleet_projection)?;
    let (provider_instance, provider_node, provider_key_fingerprint) =
        match &device.provider_identity {
        Some(identity) => (
            Some(identity.provider_instance_id.text.clone()),
            Some(identity.node_id.clone()),
            Some(identity.stable_key_fingerprint.clone()),
        ),
        None => (None, None, None),
    };
    Ok(
        DeviceRow {
            device: device.device_id.text.clone(),
            network: device.network_id.text.clone(),
            display_name: device.display_name.clone(),
            membership_state: lower(membership_state),
            provider_instance,
            provider_node,
            provider_key_fingerprint,
            credential_generation,
            keryx_binding_generation,
            fleet_projection_generation,
            fleet_projection_status: lower(device.fleet_projection_status.as_str()),
            created_at: device.created_at.to_rfc3339(),
            updated_at: device.updated_at.to_rfc3339(),
            revoked_at: optional_time(device.revoked_at),
        },
    )
}

/// The row of an invitation, beside its JSON record.
#[derive(PartialEq, Eq)]
pub struct InvitationRow {
    pub invitation: String,
    pub network: String,
    pub state: String,
    pub secret_verifier: String,
    pub provider_credential_reference: Option<String>,
    pub max_uses: i64,
    pub used_count: i64,
    pub created_at: String,
    pub expires_at: String,
}

impl InvitationRow {
    /// The row stores the invitation.
    pub open spec fn stores(self, invitation: Invitation) -> bool {
        &&& self.invitation@ == invitation.invitation_id@
        &&& self.network@ == invitation.network_id@
        &&& self.state@ == ascii_lower(invitation.state.text())
        &&& self.secret_verifier@ == invitation.secret_verifier@
        &&& optional_text(self.provider_credential_reference) == (
        match invitation.provider_credential_reference {
            Some(id) => Some(id@),
            None => None,
        })
        &&& self.max_uses == invitation.max_uses
        &&& self.used_count == invitation.used_count
        &&& self.created_at@ == invitation.created_at.text()
        &&& self.expires_at@ == invitation.expires_at.text()
    }
}

/// The row of an invitation.
pub fn invitation_row(invitation: &Invitation) -> (row: InvitationRow)
    ensures
        row.stores(*invitation),
{
    InvitationRow {
        invitation: invitation.invitation_id.text.clone(),
        network: invitation.network_id.text.clone(),
        state: lower(invitation.state.as_str()),
        secret_verifier: invitation.secret_verifier.clone(),
        provider_credential_reference: match &invitation.provider_credential_reference {
            Some(id) => Some(id.text.clone()),
            None => None,
        },
        max_uses: invitation.max_uses as i64,
        used_count: invitation.used_count as i64,
        created_at: invitation.created_at.to_rfc3339(),
        expires_at: invitation.expires_at.to_rfc3339(),
    }
}

/// The row of a join session, beside its JSON record.
#[derive(Debug, PartialEq, Eq)]
pub struct JoinSessionRow {
    pub join_session: String,
    pub invitation: String,
    pub network: String,
    pub device: Option<String>,
    pub state: String,
    pub created_at: String,
    pub expires_at: String,
    pub updated_at: String,
}

impl JoinSessionRow {
    /// The row stores the session.
    pub open spec fn stores(self, session: JoinSession) -> bool {
        &&& self.join_session@ == session.join_session_id@
        &&& self.invitation@ == session.invitation_id@
        &&& self.network@ == session.network_id@
        &&& optional_text(self.device) == (match session.device_id {
            Some(id) => Some(id@),
            None => None,
        })
        &&& self.state@ == ascii_lower(session.state.text())
        &&& self.created_at@ == session.created_at.text()
        &&& self.expires_at@ == session.expires_at.text()
        &&& self.updated_at@ == session.updated_at.text()
    }
}

/// The row of a join session.
pub fn join_session_row(session: &JoinSession) -> (row: JoinSessionRow)
    ensures
        row.stores(*session),
{
    JoinSessionRow {
        join_session: session.join_session_id.text.clone(),
        invitation: session.invitation_id.text.clone(),
        network: session.network_id.text.clone(),
        device: match &session.device_id {
            Some(id) => Some(id.text.clone()),
            None => None,
        },
        state: lower(session.state.as_str()),
        created_at: session.created_at.to_rfc3339(),
        expires_at: session.expires_at.to_rfc3339(),
        updated_at: session.updated_at.to_rfc3339(),
    }
}

/// The row of a revocation, beside its JSON record.
#[derive(Debug, PartialEq, Eq)]
pub struct RevocationRow {
    pub revocation: String,
    pub network: String,
    pub device: String,
    pub state: String,
    pub requested_at: String,
    pub updated_at: String,
    pub application_trust_removed_at: Option<String>,
    pub provider_cleanup_completed_at: Option<String>,
}

impl RevocationRow {
    /// The row stores the revocation.
    pub open spec fn stores(self, revocation: Revocation) -> bool {
        &&& self.revocation@ == revocation.revocation_id@
        &&& self.network@ == revocation.network_id@
        &&& self.device@ == revocation.device_id@
        &&& self.state@ == revocation.state.text()
        &&& self.requested_at@ == revocation.requested_at.text()
        &&& self.updated_at@ == revocation.updated_at.text()
        &&& optional_text(self.application_trust_removed_at) == optional_time_text(
            revocation.application_trust_removed_at,
        )
        &&& optional_text(self.provider_cleanup_completed_at) == optional_time_text(
            revocation.provider_cleanup_completed_at,
        )
    }
}

/// The row of a revocation.
pub fn revocation_row(revocation: &Revocation) -> (row: RevocationRow)
    ensures
        row.stores(*revocation),
{
    RevocationRow {
        revocation: revocation.revocation_id.text.clone(),
        network: revocation.network_id.text.clone(),
        device: revocation.device_id.text.clone(),
        state: revocation_name(revocation.state).to_owned(),
        requested_at: revocation.requested_at.to_rfc3339(),
        updated_at: revocation.updated_at.to_rfc3339(),
        application_trust_removed_at: optional_time(revocation.application_trust_removed_at),
        provider_cleanup_completed_at: optional_time(revocation.provider_cleanup_completed_at),
    }
}

} // verus!
