//! Identifiers, held by their canonical text, and generations.

use crate::error::{StateError, StateErrorView};
use vstd::prelude::*;

verus! {

/// A network.
#[derive(Debug, PartialEq, Eq)]
pub struct NetworkId {
    pub text: String,
}

impl View for NetworkId {
    type V = Seq<char>;

    open spec fn view(&self) -> Seq<char> {
        self.text@
    }
}

impl Clone for NetworkId {
    fn clone(&self) -> (copy: Self)
        ensures
            copy == *self,
    {
        NetworkId { text: self.text.clone() }
    }
}

impl NetworkId {
    /// Whether both are the same.
    pub fn same(&self, other: &NetworkId) -> (same: bool)
        ensures
            same == (self@ == other@),
    {
        self.text == other.text
    }
}

/// A device.
#[derive(Debug, PartialEq, Eq)]
pub struct DeviceId {
    pub text: String,
}

impl View for DeviceId {
    type V = Seq<char>;

    open spec fn view(&self) -> Seq<char> {
        self.text@
    }
}

impl Clone for DeviceId {
    fn clone(&self) -> (copy: Self)
        ensures
            copy == *self,
    {
        DeviceId { text: self.text.clone() }
    }
}

impl DeviceId {
    /// Whether both are the same.
    pub fn same(&self, other: &DeviceId) -> (same: bool)
        ensures
            same == (self@ == other@),
    {
        self.text == other.text
    }
}

/// An invitation.
#[derive(Debug, PartialEq, Eq)]
pub struct InvitationId {
    pub text: String,
}

impl View for InvitationId {
    type V = Seq<char>;

    open spec fn view(&self) -> Seq<char> {
        self.text@
    }
}

impl Clone for InvitationId {
    fn clone(&self) -> (copy: Self)
        ensures
            copy == *self,
    {
        InvitationId { text: self.text.clone() }
    }
}

impl InvitationId {
    /// Whether both are the same.
    pub fn same(&self, other: &InvitationId) -> (same: bool)
        ensures
            same == (self@ == other@),
    {
        self.text == other.text
    }
}

/// A join session.
#[derive(Debug, PartialEq, Eq)]
pub struct JoinSessionId {
    pub text: String,
}

impl View for JoinSessionId {
    type V = Seq<char>;

    open spec fn view(&self) -> Seq<char> {
        self.text@
    }
}

impl Clone for JoinSessionId {
    fn clone(&self) -> (copy: Self)
        ensures
            copy == *self,
    {
        JoinSessionId { text: self.text.clone() }
    }
}

impl JoinSessionId {
    /// Whether both are the same.
    pub fn same(&self, other: &JoinSessionId) -> (same: bool)
        ensures
            same == (self@ == other@),
    {
        self.text == other.text
    }
}

/// One configured provider installation.
#[derive(Debug, PartialEq, Eq)]
pub struct ProviderInstanceId {
    pub text: String,
}

impl View for ProviderInstanceId {
    type V = Seq<char>;

    open spec fn view(&self) -> Seq<char> {
        self.text@
    }
}

impl Clone for ProviderInstanceId {
    fn clone(&self) -> (copy: Self)
        ensures
            copy == *self,
    {
        ProviderInstanceId { text: self.text.clone() }
    }
}

impl ProviderInstanceId {
    /// Whether both are the same.
    pub fn same(&self, other: &ProviderInstanceId) -> (same: bool)
        ensures
            same == (self@ == other@),
    {
        self.text == other.text
    }
}

/// A join credential that a provider issued.
#[derive(Debug, PartialEq, Eq)]
pub struct ProviderCredentialId {
    pub text: String,
}

impl View for ProviderCredentialId {
    type V = Seq<char>;

    open spec fn view(&self) -> Seq<char> {
        self.text@
    }
}

impl Clone for ProviderCredentialId {
    fn clone(&self) -> (copy: Self)
        ensures
            copy == *self,
    {
        ProviderCredentialId { text: self.text.clone() }
    }
}

impl ProviderCredentialId {
    /// Whether both are the same.
    pub fn same(&self, other: &ProviderCredentialId) -> (same: bool)
        ensures
            same == (self@ == other@),
    {
        self.text == other.text
    }
}

/// The provider's own name for a credential that it issued.
#[derive(Debug, PartialEq, Eq)]
pub struct ProviderCredentialReference {
    pub text: String,
}

impl View for ProviderCredentialReference {
    type V = Seq<char>;

    open spec fn view(&self) -> Seq<char> {
        self.text@
    }
}

impl Clone for ProviderCredentialReference {
    fn clone(&self) -> (copy: Self)
        ensures
            copy == *self,
    {
        ProviderCredentialReference { text: self.text.clone() }
    }
}

impl ProviderCredentialReference {
    /// Whether both are the same.
    pub fn same(&self, other: &ProviderCredentialReference) -> (same: bool)
        ensures
            same == (self@ == other@),
    {
        self.text == other.text
    }
}

/// A revocation of a device.
#[derive(Debug, PartialEq, Eq)]
pub struct RevocationId {
    pub text: String,
}

impl View for RevocationId {
    type V = Seq<char>;

    open spec fn view(&self) -> Seq<char> {
        self.text@
    }
}

impl Clone for RevocationId {
    fn clone(&self) -> (copy: Self)
        ensures
            copy == *self,
    {
        RevocationId { text: self.text.clone() }
    }
}

impl RevocationId {
    /// Whether both are the same.
    pub fn same(&self, other: &RevocationId) -> (same: bool)
        ensures
            same == (self@ == other@),
    {
        self.text == other.text
    }
}

/// A counter that only ever advances.
#[derive(Clone, Copy, Debug, PartialEq, Eq, Structural)]
pub struct Generation {
    pub value: u64,
}

impl Generation {
    /// The number of the generation.
    pub fn get(self) -> (value: u64)
        ensures
            value == self.value,
    {
        self.value
    }
}

/// A stored text and the identifier that it was read as.
#[derive(Debug, PartialEq, Eq)]
pub struct Stored<T> {
    pub text: String,
    pub parsed: Result<T, String>,
}

/// A stored number of a generation, and why it is none, if it is none.
#[derive(Debug, PartialEq, Eq)]
pub struct StoredGeneration {
    pub number: u64,
    pub refusal: Option<String>,
}

impl StoredGeneration {
    /// Why the number is not that of a generation, if it is not.
    pub open spec fn problem(self) -> Option<StateErrorView> {
        match self.refusal {
            None => None,
            Some(text) => Some(StateErrorView::Conflict(text@)),
        }
    }
}

/// The generation of a stored number.
pub fn generation(stored: &StoredGeneration) -> (result: Result<Generation, StateError>)
    ensures
        match result {
            Ok(known) => stored.problem() is None && known.value == stored.number,
            Err(error) => stored.problem() == Some(error@),
        },
{
    match &stored.refusal {
        None => Ok(Generation { value: stored.number }),
        Some(text) => Err(StateError::Conflict(text.clone())),
    }
}

/// Why a stored text is not that of an identifier, if it is not.
pub open spec fn parse_problem<T>(stored: Stored<T>) -> Option<StateErrorView> {
    match stored.parsed {
        Ok(_) => None,
        Err(text) => Some(StateErrorView::Conflict(text@)),
    }
}

/// `uuid::Uuid::new_v4` in its hyphenated form: thirty-six characters, drawn at
/// random.
#[verifier::external_body]
pub(crate) fn random_id() -> (text: String)
    ensures
        text@.len() == 36,
{
    uuid::Uuid::new_v4().to_string()
}

} // verus!
