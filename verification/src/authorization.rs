//! Authorization of provider mutations: the owner's configuration, the single-use
//! authorizations minted from it, and the references of confirmed credentials.

use crate::audit::{fits_storage, to_i64, AuditActor, AuditFact, AuditLog, StateStore};
use crate::capabilities::{lemma_listed_are_members, CapabilitySet};
use crate::error::{
    accepted, conflict, found, storage_problem, storage_result, DatabaseFailure, StateError,
    StateErrorView,
};
use crate::ids::{
    generation, parse_problem, Generation, NetworkId, ProviderCredentialId,
    ProviderCredentialReference, ProviderInstanceId, Stored, StoredGeneration,
};
use crate::metadata::SanitizedMetadata;
use crate::names::{
    law_mutation_policy_mode_names_distinct, law_provider_mutation_capability_names_distinct,
    mutation_capability_name, parse_policy_mode, policy_mode_name, AuditKind, AuditOutcome,
    MutationPolicyMode, ProviderError, ProviderMutationCapability,
};
use crate::rules::{is_fingerprint, valid_sha256_fingerprint};
use crate::text::same_text;
use crate::time::{is_millis, lemma_same_instant, Timestamp};
use vstd::prelude::*;

verus! {

/// What an owner configures about the mutations of one provider.
#[derive(Debug, PartialEq, Eq)]
pub struct ConfigurationFacts {
    pub provider_instance_id: ProviderInstanceId,
    pub authorization_generation: Generation,
    pub configuration_generation: Generation,
    pub configuration_fingerprint: String,
    pub adapter: String,
    pub expected_version: String,
    pub enabled: bool,
    pub revoked: bool,
    pub not_before: Timestamp,
    pub expires_at: Timestamp,
    pub policy_mode: MutationPolicyMode,
    pub capabilities: CapabilitySet,
}

impl ConfigurationFacts {
    /// The facts make up a configuration: one supported adapter and version, a
    /// window of validity that is not empty, and capabilities that fit the
    /// policy mode.
    pub open spec fn is_valid(self) -> bool {
        &&& is_fingerprint(self.configuration_fingerprint@)
        &&& self.adapter@ == "headscale"@
        &&& self.expected_version@ == "v0.29.3"@
        &&& self.not_before.before(self.expires_at)
        &&& self.not_before.millis() >= 0
        &&& self.expires_at.millis() >= 0
        &&& !self.capabilities.is_empty_set()
        &&& self.capabilities.has(ProviderMutationCapability::ManagePolicy) ==> self.policy_mode
            == MutationPolicyMode::Database
    }
}

/// An owner-controlled configuration of provider mutations. An import never
/// implies one.
#[derive(Debug, PartialEq, Eq)]
pub struct ProviderMutationConfiguration {
    facts: ConfigurationFacts,
}

impl View for ProviderMutationConfiguration {
    type V = ConfigurationFacts;

    closed spec fn view(&self) -> ConfigurationFacts {
        self.facts
    }
}

impl ProviderMutationConfiguration {
    #[verifier::type_invariant]
    spec fn valid(self) -> bool {
        self.facts.is_valid()
    }

    /// The configuration of the given facts.
    pub fn new(
        provider_instance_id: ProviderInstanceId,
        authorization_generation: Generation,
        configuration_generation: Generation,
        configuration_fingerprint: String,
        adapter: String,
        expected_version: String,
        enabled: bool,
        revoked: bool,
        not_before: Timestamp,
        expires_at: Timestamp,
        policy_mode: MutationPolicyMode,
        capabilities: Vec<ProviderMutationCapability>,
    ) -> (result: Result<Self, StateError>)
        ensures
            match result {
                Ok(configuration) => {
                    &&& configuration@.is_valid()
                    &&& configuration@ == (ConfigurationFacts {
                        provider_instance_id,
                        authorization_generation,
                        configuration_generation,
                        configuration_fingerprint,
                        adapter,
                        expected_version,
                        enabled,
                        revoked,
                        not_before,
                        expires_at,
                        policy_mode,
                        capabilities: configuration@.capabilities,
                    })
                    &&& forall|capability: ProviderMutationCapability| #[trigger]
                        configuration@.capabilities.has(capability) == capabilities@.contains(
                            capability,
                        )
                },
                Err(error) => {
                    &&& error@ == StateErrorView::Conflict("invalid provider mutation configuration"@)
                    &&& forall|set: CapabilitySet|
                        (forall|capability: ProviderMutationCapability| #[trigger]
                            set.has(capability) == capabilities@.contains(capability))
                            ==> !(#[trigger] (ConfigurationFacts {
                            provider_instance_id,
                            authorization_generation,
                            configuration_generation,
                            configuration_fingerprint,
                            adapter,
                            expected_version,
                            enabled,
                            revoked,
                            not_before,
                            expires_at,
                            policy_mode,
                            capabilities: set,
                        }).is_valid())
                },
            },
    {
        let set = CapabilitySet::from_list(&capabilities);
        if !valid_sha256_fingerprint(configuration_fingerprint.as_str()) || !same_text(
            adapter.as_str(),
            "headscale",
        ) || !same_text(expected_version.as_str(), "v0.29.3") || !not_before.is_before(&expires_at)
            || not_before.timestamp_millis() < 0 || expires_at.timestamp_millis() < 0
            || set.is_empty() || (set.contains(ProviderMutationCapability::ManagePolicy)
            && policy_mode != MutationPolicyMode::Database) {
            proof {
                assert forall|other: CapabilitySet|
                    (forall|capability: ProviderMutationCapability| #[trigger]
                        other.has(capability) == capabilities@.contains(capability)) implies !(
                #[trigger] (ConfigurationFacts {
                    provider_instance_id,
                    authorization_generation,
                    configuration_generation,
                    configuration_fingerprint,
                    adapter,
                    expected_version,
                    enabled,
                    revoked,
                    not_before,
                    expires_at,
                    policy_mode,
                    capabilities: other,
                }).is_valid()) by {
                    assert forall|capability: ProviderMutationCapability|
                        other.has(capability) == set.has(capability) by {}
                }
            }
            return Err(conflict("invalid provider mutation configuration"));
        }
        let facts = ConfigurationFacts {
            provider_instance_id,
            authorization_generation,
            configuration_generation,
            configuration_fingerprint,
            adapter,
            expected_version,
            enabled,
            revoked,
            not_before,
            expires_at,
            policy_mode,
            capabilities: set,
        };
        Ok(ProviderMutationConfiguration { facts })
    }
}

/// The stored configuration of a network's provider mutations.
#[derive(Debug, PartialEq, Eq)]
pub struct ConfigurationRow {
    pub provider_instance: String,
    pub authorization_generation: StoredGeneration,
    pub configuration_generation: StoredGeneration,
    pub configuration_fingerprint: String,
    pub adapter: String,
    pub expected_version: String,
    pub enabled: i64,
    pub revoked: i64,
    pub not_before_ms: i64,
    pub expires_at_ms: i64,
    pub policy_mode: String,
    /// The names of the granted capabilities.
    pub capabilities: Vec<String>,
}

impl ConfigurationRow {
    /// The capability is granted.
    pub open spec fn grants(self, capability: ProviderMutationCapability) -> bool {
        exists|i: int|
            0 <= i < self.capabilities@.len() && (#[trigger] self.capabilities@[i])@
                == capability.text()
    }

    /// The configuration is switched on and not revoked.
    pub open spec fn is_on(self) -> bool {
        self.enabled == 1 && self.revoked == 0
    }

    /// The window of validity, in whole milliseconds, holds the given time.
    pub open spec fn covers_millis(self, millis: int) -> bool {
        self.not_before_ms <= millis && millis < self.expires_at_ms
    }

    /// The window of validity holds the given time.
    pub open spec fn covers(self, now: Timestamp) -> bool {
        !now.before_millis(self.not_before_ms as int) && now.before_millis(self.expires_at_ms as int)
    }

    /// The stored facts name the one supported adapter and version.
    pub open spec fn is_supported(self) -> bool {
        &&& is_fingerprint(self.configuration_fingerprint@)
        &&& self.adapter@ == "headscale"@
        &&& self.expected_version@ == "v0.29.3"@
    }

    /// Why the window of validity cannot be read, if it cannot.
    pub open spec fn window_problem(self) -> Option<StateErrorView> {
        if !is_millis(self.not_before_ms as int) {
            Some(StateErrorView::MutationAuthorizationDenied("invalid persisted not-before"@))
        } else if !is_millis(self.expires_at_ms as int) {
            Some(StateErrorView::MutationAuthorizationDenied("invalid persisted expiry"@))
        } else {
            None
        }
    }

    /// The row stores the facts of a configuration.
    pub open spec fn stores(self, facts: ConfigurationFacts) -> bool {
        &&& self.provider_instance@ == facts.provider_instance_id@
        &&& self.authorization_generation.number == facts.authorization_generation.value
        &&& self.authorization_generation.refusal is None
        &&& self.configuration_generation.number == facts.configuration_generation.value
        &&& self.configuration_generation.refusal is None
        &&& self.configuration_fingerprint@ == facts.configuration_fingerprint@
        &&& self.adapter@ == facts.adapter@
        &&& self.expected_version@ == facts.expected_version@
        &&& self.enabled == (if facts.enabled {
            1i64
        } else {
            0
        })
        &&& self.revoked == (if facts.revoked {
            1i64
        } else {
            0
        })
        &&& self.not_before_ms == facts.not_before.millis()
        &&& self.expires_at_ms == facts.expires_at.millis()
        &&& self.policy_mode@ == facts.policy_mode.text()
        &&& self.capabilities@.len() == facts.capabilities.listed().len()
        &&& forall|i: int|
            0 <= i < self.capabilities@.len() ==> (#[trigger] self.capabilities@[i])@
                == facts.capabilities.listed()[i].text()
    }

    /// Whether the capability is granted.
    pub fn has_capability(&self, capability: ProviderMutationCapability) -> (granted: bool)
        ensures
            granted == self.grants(capability),
    {
        let name = mutation_capability_name(capability);
        for i in 0..self.capabilities.len()
            invariant
                name@ == capability.text(),
                forall|j: int|
                    0 <= j < i ==> (#[trigger] self.capabilities@[j])@ != capability.text(),
        {
            if same_text(self.capabilities[i].as_str(), name) {
                return true;
            }
        }
        false
    }

    /// The window of validity.
    pub fn window(&self) -> (result: Result<(Timestamp, Timestamp), StateError>)
        ensures
            match result {
                Ok((not_before, expires_at)) => {
                    &&& self.window_problem() is None
                    &&& not_before.is_at(self.not_before_ms as int)
                    &&& expires_at.is_at(self.expires_at_ms as int)
                },
                Err(error) => self.window_problem() == Some(error@),
            },
    {
        let not_before = match Timestamp::from_timestamp_millis(self.not_before_ms) {
            Some(instant) => instant,
            None => return Err(
                StateError::MutationAuthorizationDenied("invalid persisted not-before"),
            ),
        };
        let expires_at = match Timestamp::from_timestamp_millis(self.expires_at_ms) {
            Some(instant) => instant,
            None => return Err(StateError::MutationAuthorizationDenied("invalid persisted expiry")),
        };
        Ok((not_before, expires_at))
    }

    /// Whether the stored facts name the one supported adapter and version.
    pub fn supported(&self) -> (supported: bool)
        ensures
            supported == self.is_supported(),
    {
        valid_sha256_fingerprint(self.configuration_fingerprint.as_str()) && same_text(
            self.adapter.as_str(),
            "headscale",
        ) && same_text(self.expected_version.as_str(), "v0.29.3")
    }
}

/// What the stored import of a network says about mutations.
#[derive(Debug, PartialEq, Eq)]
pub struct ImportRow {
    pub provider_instance: String,
    pub read_only: i64,
    pub mutation_allowed: i64,
}

/// The records from which the authority over one network's provider follows.
#[derive(Debug, PartialEq, Eq)]
pub struct AuthorityRecords {
    pub network_id: NetworkId,
    pub configuration: Option<ConfigurationRow>,
    pub import: Option<ImportRow>,
}

impl AuthorityRecords {
    /// The stored configuration for a provider of a network.
    pub open spec fn current(self, network: Seq<char>, instance: Seq<char>) -> Option<
        ConfigurationRow,
    > {
        match self.configuration {
            Some(row) => if self.network_id@ == network && row.provider_instance@ == instance {
                Some(row)
            } else {
                None
            },
            None => None,
        }
    }

    /// The provider of the network is imported.
    pub open spec fn is_imported(self, network: Seq<char>, instance: Seq<char>) -> bool {
        self.network_id@ == network && (self.import matches Some(row) && row.provider_instance@
            == instance)
    }

    /// The provider of the network is imported, read-only.
    pub open spec fn is_imported_read_only(self, network: Seq<char>, instance: Seq<char>) -> bool {
        self.is_imported(network, instance) && self.import->Some_0.read_only == 1
            && self.import->Some_0.mutation_allowed == 0
    }

    /// The stored configuration from which an authorization for the capability
    /// may be minted: one that grants it, for a provider imported read-only.
    pub open spec fn granting(
        self,
        network: Seq<char>,
        instance: Seq<char>,
        capability: ProviderMutationCapability,
    ) -> Option<ConfigurationRow> {
        match self.current(network, instance) {
            Some(row) => if self.is_imported_read_only(network, instance) && row.grants(capability) {
                Some(row)
            } else {
                None
            },
            None => None,
        }
    }

    /// A configuration is in force at the given time that grants both the
    /// creation and the invalidation of join credentials.
    pub open spec fn allows_lifecycle(
        self,
        network: Seq<char>,
        instance: Seq<char>,
        millis: int,
    ) -> bool {
        self.current(network, instance) matches Some(row) && row.is_on() && row.covers_millis(millis)
            && row.grants(ProviderMutationCapability::CreateJoinCredential) && row.grants(
            ProviderMutationCapability::InvalidateJoinCredential,
        )
    }

    /// The stored configuration for a provider of a network.
    pub fn find(&self, network: &str, instance: &str) -> (found: Option<&ConfigurationRow>)
        ensures
            match found {
                Some(row) => self.current(network@, instance@) == Some(*row),
                None => self.current(network@, instance@) is None,
            },
    {
        match &self.configuration {
            Some(row) => if same_text(self.network_id.text.as_str(), network) && same_text(
                row.provider_instance.as_str(),
                instance,
            ) {
                Some(row)
            } else {
                None
            },
            None => None,
        }
    }

    /// Whether the provider of the network is imported.
    pub fn imported(&self, network: &str, instance: &str) -> (imported: bool)
        ensures
            imported == self.is_imported(network@, instance@),
    {
        match &self.import {
            Some(row) => same_text(self.network_id.text.as_str(), network) && same_text(
                row.provider_instance.as_str(),
                instance,
            ),
            None => false,
        }
    }

    /// Whether the provider of the network is imported, read-only.
    pub fn imported_read_only(&self, network: &str, instance: &str) -> (imported: bool)
        ensures
            imported == self.is_imported_read_only(network@, instance@),
    {
        match &self.import {
            Some(row) => self.imported(network, instance) && row.read_only == 1
                && row.mutation_allowed == 0,
            None => false,
        }
    }

    /// The stored configuration from which an authorization for the capability
    /// may be minted.
    pub fn find_granting(
        &self,
        network: &str,
        instance: &str,
        capability: ProviderMutationCapability,
    ) -> (found: Option<&ConfigurationRow>)
        ensures
            match found {
                Some(row) => self.granting(network@, instance@, capability) == Some(*row),
                None => self.granting(network@, instance@, capability) is None,
            },
    {
        match self.find(network, instance) {
            Some(row) => if self.imported_read_only(network, instance) && row.has_capability(
                capability,
            ) {
                Some(row)
            } else {
                None
            },
            None => None,
        }
    }

    /// Whether a configuration is in force that grants both the creation and the
    /// invalidation of join credentials.
    pub fn permits_lifecycle(&self, network: &str, instance: &str, now: &Timestamp) -> (allowed:
        bool)
        ensures
            allowed == self.allows_lifecycle(network@, instance@, now.millis()),
    {
        match self.find(network, instance) {
            Some(row) => {
                let millis: i64 = now.timestamp_millis();
                row.enabled == 1 && row.revoked == 0 && row.not_before_ms <= millis && millis
                    < row.expires_at_ms && row.has_capability(
                    ProviderMutationCapability::CreateJoinCredential,
                ) && row.has_capability(ProviderMutationCapability::InvalidateJoinCredential)
            },
            None => false,
        }
    }
}

/// What an authorization is bound to.
#[derive(Debug, PartialEq, Eq)]
pub struct AuthorizationFacts {
    pub network_id: NetworkId,
    pub provider_instance_id: ProviderInstanceId,
    pub authorization_generation: Generation,
    pub configuration_generation: Generation,
    pub configuration_fingerprint: String,
    pub adapter: String,
    pub expected_version: String,
    pub not_before: Timestamp,
    pub expires_at: Timestamp,
    pub capability: ProviderMutationCapability,
    pub policy_mode: MutationPolicyMode,
}

/// A single-use authorization for one provider mutation. Only the store mints
/// it, and it cannot be copied.
#[derive(Debug)]
pub struct MutationAuthorization {
    facts: AuthorizationFacts,
}

impl View for MutationAuthorization {
    type V = AuthorizationFacts;

    closed spec fn view(&self) -> AuthorizationFacts {
        self.facts
    }
}

/// What an adapter knows when it is about to make a mutation.
#[derive(Debug, PartialEq, Eq)]
pub struct ContextFacts {
    pub network_id: NetworkId,
    pub provider_instance_id: ProviderInstanceId,
    pub authorization_generation: Generation,
    pub configuration_generation: Generation,
    pub configuration_fingerprint: String,
    pub adapter: &'static str,
    pub version: String,
    pub dirty: bool,
    pub capability: ProviderMutationCapability,
    pub policy_mode: MutationPolicyMode,
    pub now: Timestamp,
}

/// What an adapter proves before any network request.
pub struct MutationAuthorizationContext {
    facts: ContextFacts,
}

impl View for MutationAuthorizationContext {
    type V = ContextFacts;

    closed spec fn view(&self) -> ContextFacts {
        self.facts
    }
}

impl MutationAuthorizationContext {
    /// The context of the Headscale adapter.
    pub fn headscale(
        network_id: NetworkId,
        provider_instance_id: ProviderInstanceId,
        authorization_generation: Generation,
        configuration_generation: Generation,
        configuration_fingerprint: String,
        version: String,
        dirty: bool,
        capability: ProviderMutationCapability,
        policy_mode: MutationPolicyMode,
        now: Timestamp,
    ) -> (context: Self)
        ensures
            context@ == (ContextFacts {
                network_id,
                provider_instance_id,
                authorization_generation,
                configuration_generation,
                configuration_fingerprint,
                adapter: "headscale",
                version,
                dirty,
                capability,
                policy_mode,
                now,
            }),
    {
        let facts = ContextFacts {
            network_id,
            provider_instance_id,
            authorization_generation,
            configuration_generation,
            configuration_fingerprint,
            adapter: "headscale",
            version,
            dirty,
            capability,
            policy_mode,
            now,
        };
        MutationAuthorizationContext { facts }
    }
}

impl AuthorizationFacts {
    /// The authorization is good for the context: every bound fact agrees, the
    /// version is clean, the time is in the window, and a policy is managed in
    /// the database only.
    pub open spec fn allows(self, context: ContextFacts) -> bool {
        &&& self.network_id@ == context.network_id@
        &&& self.provider_instance_id@ == context.provider_instance_id@
        &&& self.authorization_generation == context.authorization_generation
        &&& self.configuration_generation == context.configuration_generation
        &&& self.configuration_fingerprint@ == context.configuration_fingerprint@
        &&& self.adapter@ == context.adapter@
        &&& self.expected_version@ == context.version@
        &&& !context.dirty
        &&& self.capability == context.capability
        &&& self.capability == ProviderMutationCapability::ManagePolicy ==> self.policy_mode
            == MutationPolicyMode::Database && context.policy_mode == MutationPolicyMode::Database
        &&& !context.now.before(self.not_before)
        &&& context.now.before(self.expires_at)
    }
}

/// The facts under which the Headscale adapter asks to make a mutation.
pub struct HeadscaleMutationAuthorizationContext {
    pub network_id: NetworkId,
    pub provider_instance_id: ProviderInstanceId,
    pub authorization_generation: Generation,
    pub configuration_generation: Generation,
    pub configuration_fingerprint: String,
    pub version: String,
    pub dirty: bool,
    pub capability: ProviderMutationCapability,
    pub policy_mode: MutationPolicyMode,
    pub now: Timestamp,
}

impl HeadscaleMutationAuthorizationContext {
    /// The same facts, with the adapter named.
    pub open spec fn facts(self) -> ContextFacts {
        ContextFacts {
            network_id: self.network_id,
            provider_instance_id: self.provider_instance_id,
            authorization_generation: self.authorization_generation,
            configuration_generation: self.configuration_generation,
            configuration_fingerprint: self.configuration_fingerprint,
            adapter: "headscale",
            version: self.version,
            dirty: self.dirty,
            capability: self.capability,
            policy_mode: self.policy_mode,
            now: self.now,
        }
    }
}

impl MutationAuthorization {
    /// Consumes the authorization and says whether it is good for the context.
    pub fn validate(self, context: MutationAuthorizationContext) -> (result: Result<(), StateError>)
        ensures
            match result {
                Ok(()) => self@.allows(context@),
                Err(error) => {
                    &&& !self@.allows(context@)
                    &&& error@ == StateErrorView::MutationAuthorizationDenied(
                        "authorization facts do not match"@,
                    )
                },
            },
    {
        let own = self.facts;
        let other = context.facts;
        if !own.network_id.same(&other.network_id) || !own.provider_instance_id.same(
            &other.provider_instance_id,
        ) || own.authorization_generation != other.authorization_generation
            || own.configuration_generation != other.configuration_generation || !same_text(
            own.configuration_fingerprint.as_str(),
            other.configuration_fingerprint.as_str(),
        ) || !same_text(own.adapter.as_str(), other.adapter) || !same_text(
            own.expected_version.as_str(),
            other.version.as_str(),
        ) || other.dirty || own.capability != other.capability || (own.capability
            == ProviderMutationCapability::ManagePolicy && (own.policy_mode
            != MutationPolicyMode::Database || other.policy_mode != MutationPolicyMode::Database))
            || other.now.is_before(&own.not_before) || !other.now.is_before(&own.expires_at) {
            return Err(
                StateError::MutationAuthorizationDenied("authorization facts do not match"),
            );
        }
        Ok(())
    }

    /// Consumes the authorization for the Headscale adapter, whose rejection
    /// holds the message of the error.
    pub fn validate_for_headscale(self, context: HeadscaleMutationAuthorizationContext) -> (result:
        Result<(), ProviderError>)
        ensures
            match result {
                Ok(()) => self@.allows(context.facts()),
                Err(error) => {
                    &&& !self@.allows(context.facts())
                    &&& error matches ProviderError::Rejected(text) && text@
                        == StateErrorView::MutationAuthorizationDenied(
                        "authorization facts do not match"@,
                    ).message()
                },
            },
    {
        let context = MutationAuthorizationContext::headscale(
            context.network_id,
            context.provider_instance_id,
            context.authorization_generation,
            context.configuration_generation,
            context.configuration_fingerprint,
            context.version,
            context.dirty,
            context.capability,
            context.policy_mode,
            context.now,
        );
        match self.validate(context) {
            Ok(()) => Ok(()),
            Err(error) => Err(ProviderError::Rejected(error.message())),
        }
    }

    /// The authorization of the given facts.
    pub(crate) fn mint(facts: AuthorizationFacts) -> (authorization: Self)
        ensures
            authorization@ == facts,
    {
        MutationAuthorization { facts }
    }
}

/// Why a configuration cannot be replaced, if it cannot. Absence is expected by
/// naming no generation; otherwise both current generations are named.
pub open spec fn replacement_problem(
    records: AuthorityRecords,
    expected_authorization: Option<Generation>,
    expected_configuration: Option<Generation>,
    replacement: ConfigurationFacts,
) -> Option<StateErrorView> {
    let swap = swap_problem(
        records.configuration,
        expected_authorization,
        expected_configuration,
        replacement,
    );
    if swap is Some {
        swap
    } else if !records.is_imported_read_only(
        records.network_id@,
        replacement.provider_instance_id@,
    ) {
        Some(StateErrorView::MutationAuthorizationDenied("exact read-only import is required"@))
    } else if !fits_storage(replacement.authorization_generation) || !fits_storage(
        replacement.configuration_generation,
    ) {
        Some(StateErrorView::Conflict("generation exceeds SQLite integer range"@))
    } else {
        None
    }
}

/// The number of an expected generation, zero where none is expected.
pub open spec fn expected_number(expected: Option<Generation>) -> u64 {
    match expected {
        Some(value) => value.value,
        None => 0,
    }
}

/// Why the current configuration does not admit the replacement, if it does not.
pub open spec fn swap_problem(
    current: Option<ConfigurationRow>,
    expected_authorization: Option<Generation>,
    expected_configuration: Option<Generation>,
    replacement: ConfigurationFacts,
) -> Option<StateErrorView> {
    match current {
        None => match (expected_authorization, expected_configuration) {
            (None, None) => None,
            (Some(expected), _) => Some(
                StateErrorView::StaleGeneration { expected: expected.value, actual: 0 },
            ),
            (None, Some(expected)) => Some(
                StateErrorView::StaleGeneration { expected: expected.value, actual: 0 },
            ),
        },
        Some(row) => if row.provider_instance@ != replacement.provider_instance_id@ {
            Some(StateErrorView::Conflict("mutation provider identity cannot be replaced"@))
        } else if !(expected_authorization matches Some(expected) && expected.value
            == row.authorization_generation.number) {
            Some(
                StateErrorView::StaleGeneration {
                    expected: expected_number(expected_authorization),
                    actual: row.authorization_generation.number,
                },
            )
        } else if !(expected_configuration matches Some(expected) && expected.value
            == row.configuration_generation.number) {
            Some(
                StateErrorView::StaleGeneration {
                    expected: expected_number(expected_configuration),
                    actual: row.configuration_generation.number,
                },
            )
        } else if replacement.authorization_generation.value <= row.authorization_generation.number
            || replacement.configuration_generation.value <= row.configuration_generation.number {
            Some(StateErrorView::Conflict("replacement mutation generations must advance"@))
        } else {
            None
        },
    }
}

fn check_swap(
    current: &Option<ConfigurationRow>,
    expected_authorization: Option<Generation>,
    expected_configuration: Option<Generation>,
    replacement: &ConfigurationFacts,
) -> (result: Result<(), StateError>)
    ensures
        match result {
            Ok(()) => swap_problem(
                *current,
                expected_authorization,
                expected_configuration,
                *replacement,
            ) is None,
            Err(error) => swap_problem(
                *current,
                expected_authorization,
                expected_configuration,
                *replacement,
            ) == Some(error@),
        },
{
    match current {
        None => {
            match expected_authorization {
                Some(expected) => {
                    return Err(
                        StateError::StaleGeneration { expected: expected.get(), actual: 0 },
                    );
                },
                None => {},
            }
            match expected_configuration {
                Some(expected) => {
                    return Err(
                        StateError::StaleGeneration { expected: expected.get(), actual: 0 },
                    );
                },
                None => {},
            }
            Ok(())
        },
        Some(row) => {
            if !same_text(
                row.provider_instance.as_str(),
                replacement.provider_instance_id.text.as_str(),
            ) {
                return Err(conflict("mutation provider identity cannot be replaced"));
            }
            let actual_authorization: u64 = row.authorization_generation.number;
            let actual_configuration: u64 = row.configuration_generation.number;
            match expected_authorization {
                Some(expected) => {
                    if expected.get() != actual_authorization {
                        return Err(
                            StateError::StaleGeneration {
                                expected: expected.get(),
                                actual: actual_authorization,
                            },
                        );
                    }
                },
                None => {
                    return Err(
                        StateError::StaleGeneration { expected: 0, actual: actual_authorization },
                    );
                },
            }
            match expected_configuration {
                Some(expected) => {
                    if expected.get() != actual_configuration {
                        return Err(
                            StateError::StaleGeneration {
                                expected: expected.get(),
                                actual: actual_configuration,
                            },
                        );
                    }
                },
                None => {
                    return Err(
                        StateError::StaleGeneration { expected: 0, actual: actual_configuration },
                    );
                },
            }
            if replacement.authorization_generation.get() <= actual_authorization
                || replacement.configuration_generation.get() <= actual_configuration {
                return Err(conflict("replacement mutation generations must advance"));
            }
            Ok(())
        },
    }
}

fn capability_names(set: &CapabilitySet) -> (names: Vec<String>)
    ensures
        names@.len() == set.listed().len(),
        forall|i: int|
            0 <= i < names@.len() ==> (#[trigger] names@[i])@ == set.listed()[i].text(),
{
    let list = set.list();
    let mut names: Vec<String> = Vec::new();
    for i in 0..list.len()
        invariant
            list@ == set.listed(),
            names@.len() == i,
            forall|j: int| 0 <= j < i ==> (#[trigger] names@[j])@ == set.listed()[j].text(),
    {
        names.push(mutation_capability_name(list[i]).to_owned());
    }
    names
}

fn stored_flag(flag: bool) -> (number: i64)
    ensures
        number == (if flag {
            1i64
        } else {
            0
        }),
{
    if flag {
        1
    } else {
        0
    }
}

fn configuration_row(facts: ConfigurationFacts) -> (row: ConfigurationRow)
    ensures
        row.stores(facts),
{
    ConfigurationRow {
        provider_instance: facts.provider_instance_id.text,
        authorization_generation: StoredGeneration {
            number: facts.authorization_generation.get(),
            refusal: None,
        },
        configuration_generation: StoredGeneration {
            number: facts.configuration_generation.get(),
            refusal: None,
        },
        configuration_fingerprint: facts.configuration_fingerprint,
        adapter: facts.adapter,
        expected_version: facts.expected_version,
        enabled: stored_flag(facts.enabled),
        revoked: stored_flag(facts.revoked),
        not_before_ms: facts.not_before.timestamp_millis(),
        expires_at_ms: facts.expires_at.timestamp_millis(),
        policy_mode: policy_mode_name(facts.policy_mode).to_owned(),
        capabilities: capability_names(&facts.capabilities),
    }
}

/// Why no authorization can be minted, if none can.
pub open spec fn issue_problem(
    records: AuthorityRecords,
    instance: Seq<char>,
    capability: ProviderMutationCapability,
    now: Timestamp,
) -> Option<StateErrorView> {
    match records.granting(records.network_id@, instance, capability) {
        None => Some(
            StateErrorView::MutationAuthorizationDenied("no current configured capability"@),
        ),
        Some(row) => if row.window_problem() is Some {
            row.window_problem()
        } else if !row.is_on() || !row.covers(now) || !row.is_supported() || (capability
            == ProviderMutationCapability::ManagePolicy && row.policy_mode@ != "database"@) {
            Some(
                StateErrorView::MutationAuthorizationDenied(
                    "configuration is not currently issuable"@,
                ),
            )
        } else if row.authorization_generation.problem() is Some {
            row.authorization_generation.problem()
        } else if row.configuration_generation.problem() is Some {
            row.configuration_generation.problem()
        } else if forall|mode: MutationPolicyMode| #[trigger] mode.text() != row.policy_mode@ {
            Some(StateErrorView::MutationAuthorizationDenied("invalid policy mode"@))
        } else {
            None
        },
    }
}

/// The authorization is bound to exactly the facts of the stored configuration.
pub open spec fn is_bound_to(facts: AuthorizationFacts, row: ConfigurationRow) -> bool {
    &&& facts.provider_instance_id@ == row.provider_instance@
    &&& facts.authorization_generation.value == row.authorization_generation.number
    &&& facts.configuration_generation.value == row.configuration_generation.number
    &&& facts.configuration_fingerprint@ == row.configuration_fingerprint@
    &&& facts.adapter@ == row.adapter@
    &&& facts.expected_version@ == row.expected_version@
    &&& facts.not_before.is_at(row.not_before_ms as int)
    &&& facts.expires_at.is_at(row.expires_at_ms as int)
    &&& facts.policy_mode.text() == row.policy_mode@
}

impl StateStore {
    /// Replaces the mutation configuration of a network, with all of its
    /// capabilities, if the expected generations are the current ones.
    pub fn replace_provider_mutation_configuration(
        &self,
        records: &mut AuthorityRecords,
        expected_authorization_generation: Option<Generation>,
        expected_configuration_generation: Option<Generation>,
        replacement: ProviderMutationConfiguration,
        log: &mut AuditLog,
        actor: AuditActor,
    ) -> (result: Result<(), StateError>)
        ensures
            final(records).network_id == old(records).network_id,
            final(records).import == old(records).import,
            final(log).known == old(log).known,
            ({
                let problem = replacement_problem(
                    *old(records),
                    expected_authorization_generation,
                    expected_configuration_generation,
                    replacement@,
                );
                let audit = self.audit_problem(Some(replacement@.authorization_generation));
                match result {
                    Ok(()) => {
                        &&& problem is None
                        &&& audit is None
                        &&& final(records).configuration matches Some(row) && row.stores(
                            replacement@,
                        )
                        &&& final(log)@ == old(log)@.push(
                            AuditFact {
                                network_id: Some(old(records).network_id),
                                device_id: None,
                                actor,
                                kind: AuditKind::MutationConfigured,
                                outcome: AuditOutcome::Success,
                                generation: Some(
                                    replacement@.authorization_generation.value as i64,
                                ),
                                metadata_json: "{}"@,
                                correlation: None,
                            },
                        )
                    },
                    Err(error) => {
                        &&& *final(records) == *old(records)
                        &&& *final(log) == *old(log)
                        &&& (if problem is Some {
                            problem
                        } else {
                            audit
                        }) == Some(error@)
                    },
                }
            }),
    {
        let facts = replacement.facts;
        check_swap(
            &records.configuration,
            expected_authorization_generation,
            expected_configuration_generation,
            &facts,
        )?;
        if !records.imported_read_only(
            records.network_id.text.as_str(),
            facts.provider_instance_id.text.as_str(),
        ) {
            return Err(
                StateError::MutationAuthorizationDenied("exact read-only import is required"),
            );
        }
        let authorization_generation = facts.authorization_generation;
        to_i64(authorization_generation)?;
        to_i64(facts.configuration_generation)?;
        self.append_audit(
            log,
            Some(records.network_id.clone()),
            None,
            actor,
            AuditKind::MutationConfigured,
            AuditOutcome::Success,
            Some(authorization_generation),
            &SanitizedMetadata::empty(),
        )?;
        records.configuration = Some(configuration_row(facts));
        Ok(())
    }

    /// Mints an authorization from the current configuration of a network. One
    /// time decides the whole half-open window of validity.
    pub fn issue_mutation_authorization(
        &self,
        records: &AuthorityRecords,
        provider_instance_id: ProviderInstanceId,
        capability: ProviderMutationCapability,
        now: Timestamp,
    ) -> (result: Result<MutationAuthorization, StateError>)
        ensures
            match result {
                Ok(authorization) => {
                    &&& issue_problem(*records, provider_instance_id@, capability, now) is None
                    &&& authorization@.network_id == records.network_id
                    &&& authorization@.provider_instance_id == provider_instance_id
                    &&& authorization@.capability == capability
                    &&& is_bound_to(
                        authorization@,
                        records.granting(
                            records.network_id@,
                            provider_instance_id@,
                            capability,
                        )->Some_0,
                    )
                },
                Err(error) => issue_problem(*records, provider_instance_id@, capability, now)
                    == Some(error@),
            },
    {
        let row = match records.find_granting(
            records.network_id.text.as_str(),
            provider_instance_id.text.as_str(),
            capability,
        ) {
            Some(row) => row,
            None => return Err(
                StateError::MutationAuthorizationDenied("no current configured capability"),
            ),
        };
        let (not_before, expires_at) = row.window()?;
        if row.enabled != 1 || row.revoked != 0 || now.is_before(&not_before) || !now.is_before(
            &expires_at,
        ) || !row.supported() || (capability == ProviderMutationCapability::ManagePolicy
            && !same_text(row.policy_mode.as_str(), "database")) {
            return Err(
                StateError::MutationAuthorizationDenied("configuration is not currently issuable"),
            );
        }
        let authorization_generation = generation(&row.authorization_generation)?;
        let configuration_generation = generation(&row.configuration_generation)?;
        let policy_mode = parse_policy_mode(row.policy_mode.as_str())?;
        let facts = AuthorizationFacts {
            network_id: records.network_id.clone(),
            provider_instance_id,
            authorization_generation,
            configuration_generation,
            configuration_fingerprint: row.configuration_fingerprint.clone(),
            adapter: row.adapter.clone(),
            expected_version: row.expected_version.clone(),
            not_before,
            expires_at,
            capability,
            policy_mode,
        };
        Ok(MutationAuthorization::mint(facts))
    }
}

/// Evidence, free of secrets, that a provider confirmed the creation of a
/// credential.
#[derive(Debug, PartialEq, Eq)]
pub struct ConfirmedProviderCredentialReference {
    pub credential_id: ProviderCredentialId,
    pub network_id: NetworkId,
    pub provider_instance_id: ProviderInstanceId,
    pub provider_reference: ProviderCredentialReference,
    pub authorization_generation: Generation,
    pub configuration_generation: Generation,
    pub configuration_fingerprint: String,
    pub confirmed_at: Timestamp,
    pub expires_at: Timestamp,
    pub max_uses: u32,
}

impl Clone for ConfirmedProviderCredentialReference {
    fn clone(&self) -> (copy: Self)
        ensures
            copy == *self,
    {
        ConfirmedProviderCredentialReference {
            credential_id: self.credential_id.clone(),
            network_id: self.network_id.clone(),
            provider_instance_id: self.provider_instance_id.clone(),
            provider_reference: self.provider_reference.clone(),
            authorization_generation: self.authorization_generation,
            configuration_generation: self.configuration_generation,
            configuration_fingerprint: self.configuration_fingerprint.clone(),
            confirmed_at: self.confirmed_at,
            expires_at: self.expires_at,
            max_uses: self.max_uses,
        }
    }
}

/// The facts of a confirmed reference that are constrained do fit together.
pub open spec fn is_reference_valid(
    configuration_fingerprint: Seq<char>,
    confirmed_at: Timestamp,
    expires_at: Timestamp,
    max_uses: u32,
) -> bool {
    &&& is_fingerprint(configuration_fingerprint)
    &&& confirmed_at.millis() >= 0
    &&& confirmed_at.before(expires_at)
    &&& max_uses == 1
}

impl ConfirmedProviderCredentialReference {
    /// The reference of the given facts.
    pub fn new(
        credential_id: ProviderCredentialId,
        network_id: NetworkId,
        provider_instance_id: ProviderInstanceId,
        provider_reference: ProviderCredentialReference,
        authorization_generation: Generation,
        configuration_generation: Generation,
        configuration_fingerprint: String,
        confirmed_at: Timestamp,
        expires_at: Timestamp,
        max_uses: u32,
    ) -> (result: Result<Self, StateError>)
        ensures
            match result {
                Ok(reference) => {
                    &&& is_reference_valid(
                        configuration_fingerprint@,
                        confirmed_at,
                        expires_at,
                        max_uses,
                    )
                    &&& reference == (ConfirmedProviderCredentialReference {
                        credential_id,
                        network_id,
                        provider_instance_id,
                        provider_reference,
                        authorization_generation,
                        configuration_generation,
                        configuration_fingerprint,
                        confirmed_at,
                        expires_at,
                        max_uses,
                    })
                },
                Err(error) => {
                    &&& !is_reference_valid(
                        configuration_fingerprint@,
                        confirmed_at,
                        expires_at,
                        max_uses,
                    )
                    &&& error@ == StateErrorView::Conflict(
                        "invalid confirmed provider credential reference"@,
                    )
                },
            },
    {
        if !valid_sha256_fingerprint(configuration_fingerprint.as_str())
            || confirmed_at.timestamp_millis() < 0 || !confirmed_at.is_before(&expires_at)
            || max_uses != 1 {
            return Err(conflict("invalid confirmed provider credential reference"));
        }
        Ok(
            ConfirmedProviderCredentialReference {
                credential_id,
                network_id,
                provider_instance_id,
                provider_reference,
                authorization_generation,
                configuration_generation,
                configuration_fingerprint,
                confirmed_at,
                expires_at,
                max_uses,
            },
        )
    }

    /// The reference was confirmed under the authority that is current now.
    pub open spec fn is_under(self, records: AuthorityRecords) -> bool {
        records.current(self.network_id@, self.provider_instance_id@) matches Some(row)
            && row.authorization_generation.number == self.authorization_generation.value
            && row.configuration_generation.number == self.configuration_generation.value
            && row.configuration_fingerprint@ == self.configuration_fingerprint@ && row.is_on()
            && row.grants(ProviderMutationCapability::CreateJoinCredential) && row.covers_millis(
            self.confirmed_at.millis(),
        )
    }

    /// Why the reference must not be stored, if it must not.
    pub open spec fn binding_problem(self, records: AuthorityRecords) -> Option<StateErrorView> {
        if !fits_storage(self.authorization_generation) || !fits_storage(
            self.configuration_generation,
        ) {
            Some(StateErrorView::Conflict("generation exceeds SQLite integer range"@))
        } else if !self.is_under(records) {
            Some(
                StateErrorView::MutationAuthorizationDenied(
                    "confirmed credential reference is not bound to current authority"@,
                ),
            )
        } else {
            None
        }
    }
}

/// The row by which a confirmed reference is stored.
#[derive(Debug, PartialEq, Eq)]
pub struct CredentialReferenceRow {
    pub credential: String,
    pub network: String,
    pub provider_instance: String,
    pub provider_reference: String,
    pub authorization_generation: i64,
    pub configuration_generation: i64,
    pub configuration_fingerprint: String,
    pub confirmed_at_ms: i64,
    pub expires_at_ms: i64,
    pub max_uses: u32,
}

impl CredentialReferenceRow {
    /// The row stores the reference, its times in whole milliseconds.
    pub open spec fn stores(self, reference: ConfirmedProviderCredentialReference) -> bool {
        &&& self.credential@ == reference.credential_id@
        &&& self.network@ == reference.network_id@
        &&& self.provider_instance@ == reference.provider_instance_id@
        &&& self.provider_reference@ == reference.provider_reference@
        &&& self.authorization_generation == reference.authorization_generation.value
        &&& self.configuration_generation == reference.configuration_generation.value
        &&& self.configuration_fingerprint@ == reference.configuration_fingerprint@
        &&& self.confirmed_at_ms == reference.confirmed_at.millis()
        &&& self.expires_at_ms == reference.expires_at.millis()
        &&& self.max_uses == reference.max_uses
    }
}

/// A stored reference as it is read back, with what reading its identifiers and
/// generations gave.
#[derive(Debug, PartialEq, Eq)]
pub struct StoredCredentialReference {
    pub network_id: Stored<NetworkId>,
    pub provider_instance_id: Stored<ProviderInstanceId>,
    pub provider_reference: Stored<ProviderCredentialReference>,
    pub authorization_generation: StoredGeneration,
    pub configuration_generation: StoredGeneration,
    pub configuration_fingerprint: String,
    pub confirmed_at_ms: i64,
    pub expires_at_ms: i64,
    pub max_uses: u32,
}

/// The window of a stored reference, in the order of its milliseconds.
pub open spec fn is_stored_reference_valid(row: StoredCredentialReference) -> bool {
    &&& is_fingerprint(row.configuration_fingerprint@)
    &&& 0 <= row.confirmed_at_ms < row.expires_at_ms
    &&& row.max_uses == 1
}

impl StoredCredentialReference {
    /// Why the stored reference cannot be read, if it cannot.
    pub open spec fn problem(self) -> Option<StateErrorView> {
        if parse_problem(self.network_id) is Some {
            parse_problem(self.network_id)
        } else if parse_problem(self.provider_instance_id) is Some {
            parse_problem(self.provider_instance_id)
        } else if parse_problem(self.provider_reference) is Some {
            parse_problem(self.provider_reference)
        } else if self.authorization_generation.problem() is Some {
            self.authorization_generation.problem()
        } else if self.configuration_generation.problem() is Some {
            self.configuration_generation.problem()
        } else if !is_millis(self.confirmed_at_ms as int) {
            Some(StateErrorView::MutationAuthorizationDenied("invalid persisted confirmation time"@))
        } else if !is_millis(self.expires_at_ms as int) {
            Some(StateErrorView::MutationAuthorizationDenied("invalid persisted credential expiry"@))
        } else if !is_stored_reference_valid(self) {
            Some(StateErrorView::Conflict("invalid confirmed provider credential reference"@))
        } else {
            None
        }
    }

    /// The stored reference holds what the row holds, and its identifiers and
    /// generations were read as what they name.
    pub open spec fn holds(self, row: CredentialReferenceRow) -> bool {
        &&& self.network_id.parsed matches Ok(id) && id@ == row.network@
        &&& self.provider_instance_id.parsed matches Ok(id) && id@ == row.provider_instance@
        &&& self.provider_reference.parsed matches Ok(reference) && reference@
            == row.provider_reference@
        &&& self.authorization_generation.number == row.authorization_generation
        &&& self.authorization_generation.refusal is None
        &&& self.configuration_generation.number == row.configuration_generation
        &&& self.configuration_generation.refusal is None
        &&& self.configuration_fingerprint@ == row.configuration_fingerprint@
        &&& self.confirmed_at_ms == row.confirmed_at_ms
        &&& self.expires_at_ms == row.expires_at_ms
        &&& self.max_uses == row.max_uses
    }

    /// The reference is what the stored one is read as.
    pub open spec fn reads_as(self, reference: ConfirmedProviderCredentialReference) -> bool {
        &&& self.network_id.parsed == Ok::<NetworkId, String>(reference.network_id)
        &&& self.provider_instance_id.parsed == Ok::<ProviderInstanceId, String>(
            reference.provider_instance_id,
        )
        &&& self.provider_reference.parsed == Ok::<ProviderCredentialReference, String>(
            reference.provider_reference,
        )
        &&& self.authorization_generation.number == reference.authorization_generation.value
        &&& self.configuration_generation.number == reference.configuration_generation.value
        &&& self.configuration_fingerprint == reference.configuration_fingerprint
        &&& reference.confirmed_at.is_at(self.confirmed_at_ms as int)
        &&& reference.expires_at.is_at(self.expires_at_ms as int)
        &&& self.max_uses == reference.max_uses
    }
}

impl StateStore {
    /// The row of a confirmed reference, if it is bound to current authority.
    pub fn confirmed_reference_row(
        &self,
        records: &AuthorityRecords,
        reference: &ConfirmedProviderCredentialReference,
    ) -> (result: Result<CredentialReferenceRow, StateError>)
        ensures
            match result {
                Ok(row) => reference.binding_problem(*records) is None && row.stores(*reference),
                Err(error) => reference.binding_problem(*records) == Some(error@),
            },
    {
        let authorization_generation: i64 = to_i64(reference.authorization_generation)?;
        let configuration_generation: i64 = to_i64(reference.configuration_generation)?;
        let confirmed_at_ms: i64 = reference.confirmed_at.timestamp_millis();
        let current = match records.find(
            reference.network_id.text.as_str(),
            reference.provider_instance_id.text.as_str(),
        ) {
            Some(row) => row.authorization_generation.number
                == reference.authorization_generation.get() && row.configuration_generation.number
                == reference.configuration_generation.get() && same_text(
                row.configuration_fingerprint.as_str(),
                reference.configuration_fingerprint.as_str(),
            ) && row.enabled == 1 && row.revoked == 0 && row.has_capability(
                ProviderMutationCapability::CreateJoinCredential,
            ) && row.not_before_ms <= confirmed_at_ms && confirmed_at_ms < row.expires_at_ms,
            None => false,
        };
        if !current {
            return Err(
                StateError::MutationAuthorizationDenied(
                    "confirmed credential reference is not bound to current authority",
                ),
            );
        }
        Ok(
            CredentialReferenceRow {
                credential: reference.credential_id.text.clone(),
                network: reference.network_id.text.clone(),
                provider_instance: reference.provider_instance_id.text.clone(),
                provider_reference: reference.provider_reference.text.clone(),
                authorization_generation,
                configuration_generation,
                configuration_fingerprint: reference.configuration_fingerprint.clone(),
                confirmed_at_ms,
                expires_at_ms: reference.expires_at.timestamp_millis(),
                max_uses: reference.max_uses,
            },
        )
    }

    /// Records that a confirmed reference was stored: `stored` is what the
    /// database answered to its row. Nothing of the credential itself is taken.
    pub fn record_confirmed_provider_credential_reference(
        &self,
        records: &AuthorityRecords,
        reference: &ConfirmedProviderCredentialReference,
        stored: Result<(), DatabaseFailure>,
        log: &mut AuditLog,
        actor: AuditActor,
    ) -> (result: Result<(), StateError>)
        ensures
            final(log).known == old(log).known,
            ({
                let binding = reference.binding_problem(*records);
                let audit = self.audit_problem(Some(reference.authorization_generation));
                match result {
                    Ok(()) => {
                        &&& binding is None
                        &&& stored is Ok
                        &&& audit is None
                        &&& final(log)@ == old(log)@.push(
                            AuditFact {
                                network_id: Some(reference.network_id),
                                device_id: None,
                                actor,
                                kind: AuditKind::CredentialReferenceConfirmed,
                                outcome: AuditOutcome::Success,
                                generation: Some(reference.authorization_generation.value as i64),
                                metadata_json: "{}"@,
                                correlation: None,
                            },
                        )
                    },
                    Err(error) => {
                        &&& *final(log) == *old(log)
                        &&& (if binding is Some {
                            binding
                        } else if storage_problem(stored) is Some {
                            storage_problem(stored)
                        } else {
                            audit
                        }) == Some(error@)
                    },
                }
            }),
    {
        self.confirmed_reference_row(records, reference)?;
        storage_result(stored)?;
        self.append_audit(
            log,
            Some(reference.network_id.clone()),
            None,
            actor,
            AuditKind::CredentialReferenceConfirmed,
            AuditOutcome::Success,
            Some(reference.authorization_generation),
            &SanitizedMetadata::empty(),
        )
    }

    /// The confirmed reference of a credential.
    pub fn confirmed_provider_credential_reference(
        &self,
        credential_id: ProviderCredentialId,
        row: Option<StoredCredentialReference>,
    ) -> (result: Result<ConfirmedProviderCredentialReference, StateError>)
        ensures
            match (row, result) {
                (None, Ok(_)) => false,
                (None, Err(error)) => error@ == StateErrorView::NotFound(credential_id@),
                (Some(stored), Ok(reference)) => {
                    &&& stored.problem() is None
                    &&& reference.credential_id == credential_id
                    &&& stored.reads_as(reference)
                },
                (Some(stored), Err(error)) => stored.problem() == Some(error@),
            },
    {
        let row = found(row, credential_id.text.as_str())?;
        let network_id = accepted(row.network_id.parsed)?;
        let provider_instance_id = accepted(row.provider_instance_id.parsed)?;
        let provider_reference = accepted(row.provider_reference.parsed)?;
        let authorization_generation = generation(&row.authorization_generation)?;
        let configuration_generation = generation(&row.configuration_generation)?;
        let confirmed_at = match Timestamp::from_timestamp_millis(row.confirmed_at_ms) {
            Some(instant) => instant,
            None => return Err(
                StateError::MutationAuthorizationDenied("invalid persisted confirmation time"),
            ),
        };
        let expires_at = match Timestamp::from_timestamp_millis(row.expires_at_ms) {
            Some(instant) => instant,
            None => return Err(
                StateError::MutationAuthorizationDenied("invalid persisted credential expiry"),
            ),
        };
        ConfirmedProviderCredentialReference::new(
            credential_id,
            network_id,
            provider_instance_id,
            provider_reference,
            authorization_generation,
            configuration_generation,
            row.configuration_fingerprint,
            confirmed_at,
            expires_at,
            row.max_uses,
        )
    }
}

/// An import never implies an authorization: without an owner's configuration
/// there is none, for whatever capability.
pub proof fn law_import_alone_authorizes_nothing(
    records: AuthorityRecords,
    instance: Seq<char>,
    capability: ProviderMutationCapability,
    now: Timestamp,
)
    requires
        records.configuration is None,
    ensures
        issue_problem(records, instance, capability, now) == Some(
            StateErrorView::MutationAuthorizationDenied("no current configured capability"@),
        ),
        !records.allows_lifecycle(records.network_id@, instance, now.millis()),
{
}

/// An authorization minted from a configuration is good, throughout the window
/// of validity and for every adapter that runs under that configuration, for
/// the capability that it was minted for; and it is good nowhere else.
pub proof fn law_minted_authorization_is_exact(
    records: AuthorityRecords,
    facts: AuthorizationFacts,
    context: ContextFacts,
    now: Timestamp,
)
    requires
        issue_problem(records, facts.provider_instance_id@, facts.capability, now) is None,
        facts.network_id == records.network_id,
        is_bound_to(
            facts,
            records.granting(
                records.network_id@,
                facts.provider_instance_id@,
                facts.capability,
            )->Some_0,
        ),
    ensures
        facts.allows(context) <==> ({
            let row = records.configuration->Some_0;
            &&& context.network_id@ == records.network_id@
            &&& context.provider_instance_id@ == row.provider_instance@
            &&& context.authorization_generation.value == row.authorization_generation.number
            &&& context.configuration_generation.value == row.configuration_generation.number
            &&& context.configuration_fingerprint@ == row.configuration_fingerprint@
            &&& context.adapter@ == "headscale"@
            &&& context.version@ == "v0.29.3"@
            &&& !context.dirty
            &&& context.capability == facts.capability
            &&& facts.capability == ProviderMutationCapability::ManagePolicy ==> context.policy_mode
                == MutationPolicyMode::Database
            &&& row.covers(context.now)
        }),
{
    let row = records.configuration->Some_0;
    assert(records.granting(
        records.network_id@,
        facts.provider_instance_id@,
        facts.capability,
    ) == Some(row));
    if facts.capability == ProviderMutationCapability::ManagePolicy {
        assert(MutationPolicyMode::Database.text() == "database"@);
        law_mutation_policy_mode_names_distinct(facts.policy_mode, MutationPolicyMode::Database);
    }
}

/// A configuration that was just stored, switched on and not revoked, yields an
/// authorization for each of its capabilities, and for no other, at every time
/// in its window of validity.
pub proof fn law_stored_configuration_authorizes(
    records: AuthorityRecords,
    facts: ConfigurationFacts,
    capability: ProviderMutationCapability,
    now: Timestamp,
)
    requires
        facts.is_valid(),
        records.configuration matches Some(row) && row.stores(facts),
        records.is_imported_read_only(records.network_id@, facts.provider_instance_id@),
        facts.enabled,
        !facts.revoked,
        is_millis(facts.not_before.millis()),
        is_millis(facts.expires_at.millis()),
        records.configuration->Some_0.covers(now),
    ensures
        issue_problem(records, facts.provider_instance_id@, capability, now) is None
            <==> facts.capabilities.has(capability),
{
    let row = records.configuration->Some_0;
    lemma_listed_are_members(facts.capabilities);
    let listed = facts.capabilities.listed();
    if facts.capabilities.has(capability) {
        assert(listed.contains(capability));
        let i = choose|i: int| 0 <= i < listed.len() && listed[i] == capability;
        assert(row.capabilities@[i]@ == capability.text());
        assert(row.grants(capability));
        assert(facts.policy_mode.text() == row.policy_mode@);
        assert(MutationPolicyMode::Database.text() == "database"@);
    } else if row.grants(capability) {
        let i = choose|i: int|
            0 <= i < row.capabilities@.len() && (#[trigger] row.capabilities@[i])@
                == capability.text();
        law_provider_mutation_capability_names_distinct(listed[i], capability);
        assert(listed.contains(listed[i]));
    }
}

/// Once a configuration is replaced, no authorization minted before is good for
/// an adapter that runs under the new one: both generations have moved on.
pub proof fn law_replacement_retires_authorizations(
    before: AuthorityRecords,
    expected_authorization: Option<Generation>,
    expected_configuration: Option<Generation>,
    replacement: ConfigurationFacts,
    facts: AuthorizationFacts,
    context: ContextFacts,
)
    requires
        before.configuration is Some,
        replacement_problem(
            before,
            expected_authorization,
            expected_configuration,
            replacement,
        ) is None,
        is_bound_to(facts, before.configuration->Some_0),
        context.authorization_generation == replacement.authorization_generation
            || context.configuration_generation == replacement.configuration_generation,
    ensures
        replacement.authorization_generation.value > facts.authorization_generation.value,
        replacement.configuration_generation.value > facts.configuration_generation.value,
        !facts.allows(context),
{
}

/// A confirmed reference whose times are whole milliseconds is read back as it
/// was stored.
pub proof fn law_confirmed_reference_reads_back(
    reference: ConfirmedProviderCredentialReference,
    row: CredentialReferenceRow,
    stored: StoredCredentialReference,
    read: ConfirmedProviderCredentialReference,
)
    requires
        is_reference_valid(
            reference.configuration_fingerprint@,
            reference.confirmed_at,
            reference.expires_at,
            reference.max_uses,
        ),
        reference.confirmed_at.is_at(reference.confirmed_at.millis()),
        reference.expires_at.is_at(reference.expires_at.millis()),
        is_millis(reference.confirmed_at.millis()),
        is_millis(reference.expires_at.millis()),
        row.stores(reference),
        stored.holds(row),
    ensures
        stored.problem() is None,
        stored.reads_as(read) ==> {
            &&& read.network_id@ == reference.network_id@
            &&& read.provider_instance_id@ == reference.provider_instance_id@
            &&& read.provider_reference@ == reference.provider_reference@
            &&& read.authorization_generation == reference.authorization_generation
            &&& read.configuration_generation == reference.configuration_generation
            &&& read.configuration_fingerprint@ == reference.configuration_fingerprint@
            &&& read.confirmed_at == reference.confirmed_at
            &&& read.expires_at == reference.expires_at
            &&& read.max_uses == reference.max_uses
        },
{
    if stored.reads_as(read) {
        lemma_same_instant(read.confirmed_at, reference.confirmed_at);
        lemma_same_instant(read.expires_at, reference.expires_at);
    }
}

} // verus!
