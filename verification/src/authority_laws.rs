//! What holds of the authority over a provider, said on the columns of the
//! stored rows and on what an adapter presents.

use crate::audit::{AuditActor, AuditFact, AuditLog, StateStore};
use crate::authorization::{
    is_bound_to, is_reference_valid, issue_problem, replacement_problem, AuthorityRecords,
    AuthorizationFacts, ConfigurationFacts, ConfigurationRow,
    ConfirmedProviderCredentialReference, ContextFacts, CredentialReferenceRow,
    HeadscaleMutationAuthorizationContext, MutationAuthorization, MutationAuthorizationContext,
    ProviderMutationConfiguration, StoredCredentialReference,
};
use crate::capabilities::{lemma_listed_are_members, listed_if, CapabilitySet};
use crate::error::{DatabaseFailure, StateError, StateErrorView};
use crate::ids::{Generation, ProviderCredentialId, ProviderInstanceId};
use crate::lifecycle::N4InvitationContext;
use crate::names::{
    law_mutation_policy_mode_names_distinct, law_provider_mutation_capability_names_distinct,
    AuditKind, AuditOutcome, Failpoint, MutationPolicyMode, ProviderError,
    ProviderMutationCapability,
};
use crate::records::{Invitation, Network};
use crate::redemption::issue_refusal;
use crate::rules::is_fingerprint;
use crate::time::{is_millis, Timestamp};
use vstd::prelude::*;

verus! {

/// Credentials are created and invalidated only under a stored configuration of
/// the very network and provider that is enabled, is not revoked, has begun, has
/// not ended, and names both capabilities; and under every such configuration
/// they are.
pub proof fn law_lifecycle_authority_is_in_force(
    records: AuthorityRecords,
    network: Seq<char>,
    instance: Seq<char>,
    millis: int,
)
    ensures
        records.allows_lifecycle(network, instance, millis) <==> {
            &&& records.network_id@ == network
            &&& records.configuration matches Some(row) && {
                &&& row.provider_instance@ == instance
                &&& row.enabled == 1
                &&& row.revoked == 0
                &&& row.not_before_ms <= millis < row.expires_at_ms
                &&& exists|i: int|
                    0 <= i < row.capabilities@.len() && (#[trigger] row.capabilities@[i])@
                        == "CreateJoinCredential"@
                &&& exists|i: int|
                    0 <= i < row.capabilities@.len() && (#[trigger] row.capabilities@[i])@
                        == "InvalidateJoinCredential"@
            }
        },
{
}

/// To switch a configuration off, or to revoke it, takes the authority over join
/// credentials away at every time.
pub proof fn law_revoked_configuration_allows_nothing(
    records: AuthorityRecords,
    network: Seq<char>,
    instance: Seq<char>,
    millis: int,
)
    requires
        records.configuration matches Some(row) && (row.enabled == 0 || row.revoked == 1),
    ensures
        !records.allows_lifecycle(network, instance, millis),
        forall|capability: ProviderMutationCapability, now: Timestamp| #[trigger]
            issue_problem(records, instance, capability, now) is Some,
{
}

/// An invitation is issued only for a network whose provider is imported and
/// under a configuration in force for both capabilities, and only between its
/// creation and its expiry.
pub proof fn law_issue_needs_import_and_authority(
    invitation: Invitation,
    sound: bool,
    network: Option<Result<Network, String>>,
    context: N4InvitationContext,
    authority: AuthorityRecords,
    now: Timestamp,
)
    ensures
        issue_refusal(invitation, sound, network, context, authority, now) is None <==> {
            &&& sound
            &&& network matches Some(Ok(known)) && known.network_id@ == invitation.network_id@
            &&& !now.before(invitation.created_at)
            &&& now.before(invitation.expires_at)
            &&& authority.network_id@ == invitation.network_id@
            &&& authority.import matches Some(import) && import.provider_instance@
                == context.provider_instance_id@
            &&& authority.configuration matches Some(row) && {
                &&& row.provider_instance@ == context.provider_instance_id@
                &&& row.enabled == 1
                &&& row.revoked == 0
                &&& row.not_before_ms <= now.millis() < row.expires_at_ms
                &&& exists|i: int|
                    0 <= i < row.capabilities@.len() && (#[trigger] row.capabilities@[i])@
                        == "CreateJoinCredential"@
                &&& exists|i: int|
                    0 <= i < row.capabilities@.len() && (#[trigger] row.capabilities@[i])@
                        == "InvalidateJoinCredential"@
            }
        },
        !sound ==> issue_refusal(invitation, sound, network, context, authority, now) == Some(
            StateErrorView::Conflict("invalid N4 invitation input"@),
        ),
        sound && network is None ==> issue_refusal(
            invitation,
            sound,
            network,
            context,
            authority,
            now,
        ) == Some(StateErrorView::NotFound(invitation.network_id@)),
        sound && (network matches Some(Ok(known)) && known.network_id@ == invitation.network_id@) && (
        now.before(invitation.created_at) || !now.before(invitation.expires_at)) ==> issue_refusal(
            invitation,
            sound,
            network,
            context,
            authority,
            now,
        ) == Some(StateErrorView::Conflict("invalid N4 invitation input"@)),
        sound && (network matches Some(Ok(known)) && known.network_id@ == invitation.network_id@)
            && !now.before(invitation.created_at) && now.before(invitation.expires_at)
            && authority.configuration is None ==> issue_refusal(
            invitation,
            sound,
            network,
            context,
            authority,
            now,
        ) == Some(
            StateErrorView::MutationAuthorizationDenied(
                "N4 requires exact enabled create/invalidate configuration"@,
            ),
        ),
{
}

/// A configuration is one of the supported adapter and version, valid for a
/// while that begins no earlier than 1970, for at least one capability, and
/// manages policies in the database only.
pub proof fn law_valid_configuration(facts: ConfigurationFacts)
    ensures
        facts.is_valid() ==> {
            &&& facts.configuration_fingerprint@.len() == 71
            &&& facts.adapter@ == "headscale"@
            &&& facts.expected_version@ == "v0.29.3"@
            &&& facts.not_before.before(facts.expires_at)
            &&& facts.not_before.millis() >= 0
            &&& facts.expires_at.millis() >= 0
            &&& exists|capability: ProviderMutationCapability| #[trigger]
                facts.capabilities.has(capability)
            &&& facts.policy_mode != MutationPolicyMode::Database ==> !facts.capabilities.has(
                ProviderMutationCapability::ManagePolicy,
            )
        },
        forall|other: ConfigurationFacts|
            facts.is_valid() && other.configuration_fingerprint@ == facts.configuration_fingerprint@
                && other.adapter@ == "headscale"@ && other.expected_version@ == "v0.29.3"@
                && other.not_before.before(other.expires_at) && other.not_before.millis() >= 0
                && other.expires_at.millis() >= 0 && (exists|capability: ProviderMutationCapability|
                #[trigger] other.capabilities.has(capability)) && (other.capabilities.has(
                ProviderMutationCapability::ManagePolicy,
            ) ==> other.policy_mode == MutationPolicyMode::Database) ==> #[trigger] other.is_valid(),
{
}

/// What a configuration is stored as says what the configuration says: whether
/// it is enabled, whether it is revoked, its window and generations, and, under
/// their names, its capabilities and no others.
pub proof fn law_configuration_is_stored_faithfully(
    row: ConfigurationRow,
    facts: ConfigurationFacts,
)
    requires
        row.stores(facts),
    ensures
        row.provider_instance@ == facts.provider_instance_id@,
        row.authorization_generation.number == facts.authorization_generation.value,
        row.configuration_generation.number == facts.configuration_generation.value,
        row.authorization_generation.refusal is None,
        row.configuration_generation.refusal is None,
        row.configuration_fingerprint@ == facts.configuration_fingerprint@,
        row.adapter@ == facts.adapter@,
        row.expected_version@ == facts.expected_version@,
        facts.enabled ==> row.enabled == 1,
        !facts.enabled ==> row.enabled == 0,
        facts.revoked ==> row.revoked == 1,
        !facts.revoked ==> row.revoked == 0,
        row.not_before_ms == facts.not_before.millis(),
        row.expires_at_ms == facts.expires_at.millis(),
        facts.policy_mode == MutationPolicyMode::Database <==> row.policy_mode@ == "database"@,
        facts.policy_mode == MutationPolicyMode::File <==> row.policy_mode@ == "file"@,
        facts.policy_mode == MutationPolicyMode::Unknown <==> row.policy_mode@ == "unknown"@,
        forall|capability: ProviderMutationCapability| #[trigger]
            facts.capabilities.has(capability) <==> exists|i: int|
                0 <= i < row.capabilities@.len() && (#[trigger] row.capabilities@[i])@
                    == capability.text(),
{
    if facts.policy_mode.text() == MutationPolicyMode::Database.text() {
        law_mutation_policy_mode_names_distinct(facts.policy_mode, MutationPolicyMode::Database);
    }
    if facts.policy_mode.text() == MutationPolicyMode::File.text() {
        law_mutation_policy_mode_names_distinct(facts.policy_mode, MutationPolicyMode::File);
    }
    if facts.policy_mode.text() == MutationPolicyMode::Unknown.text() {
        law_mutation_policy_mode_names_distinct(facts.policy_mode, MutationPolicyMode::Unknown);
    }
    assert(MutationPolicyMode::Database.text() == "database"@);
    assert(MutationPolicyMode::File.text() == "file"@);
    assert(MutationPolicyMode::Unknown.text() == "unknown"@);
    lemma_listed_are_members(facts.capabilities);
    let listed = facts.capabilities.listed();
    assert forall|capability: ProviderMutationCapability| #[trigger]
        facts.capabilities.has(capability) <==> exists|i: int|
            0 <= i < row.capabilities@.len() && (#[trigger] row.capabilities@[i])@
                == capability.text() by {
        if facts.capabilities.has(capability) {
            assert(listed.contains(capability));
            let i = choose|i: int| 0 <= i < listed.len() && listed[i] == capability;
            assert(row.capabilities@[i]@ == capability.text());
        } else if exists|i: int|
            0 <= i < row.capabilities@.len() && (#[trigger] row.capabilities@[i])@
                == capability.text() {
            let i = choose|i: int|
                0 <= i < row.capabilities@.len() && (#[trigger] row.capabilities@[i])@
                    == capability.text();
            law_provider_mutation_capability_names_distinct(listed[i], capability);
            assert(listed.contains(listed[i]));
        }
    }
}

/// A configuration is replaced by one for the same provider, whose import is
/// read-only, exactly if both generations are known and both move on; the first
/// configuration of a network is stored exactly if none is expected.
pub proof fn law_replacement_is_expected(
    records: AuthorityRecords,
    expected_authorization: Option<Generation>,
    expected_configuration: Option<Generation>,
    replacement: ConfigurationFacts,
)
    ensures
        replacement_problem(records, expected_authorization, expected_configuration, replacement)
            is None <==> {
            &&& records.import matches Some(import) && import.provider_instance@
                == replacement.provider_instance_id@ && import.read_only == 1
                && import.mutation_allowed == 0
            &&& replacement.authorization_generation.value <= 0x7fff_ffff_ffff_ffff
            &&& replacement.configuration_generation.value <= 0x7fff_ffff_ffff_ffff
            &&& match records.configuration {
                None => expected_authorization is None && expected_configuration is None,
                Some(row) => {
                    &&& row.provider_instance@ == replacement.provider_instance_id@
                    &&& expected_authorization matches Some(known) && known.value
                        == row.authorization_generation.number
                        && replacement.authorization_generation.value > known.value
                    &&& expected_configuration matches Some(known) && known.value
                        == row.configuration_generation.number
                        && replacement.configuration_generation.value > known.value
                },
            }
        },
        records.configuration is None && expected_authorization is Some ==> replacement_problem(
            records,
            expected_authorization,
            expected_configuration,
            replacement,
        ) == Some(
            StateErrorView::StaleGeneration {
                expected: expected_authorization->Some_0.value,
                actual: 0,
            },
        ),
        (records.configuration matches Some(row) && row.provider_instance@
            == replacement.provider_instance_id@ && (expected_authorization
            matches Some(expected) && expected.value != row.authorization_generation.number))
            ==> replacement_problem(
            records,
            expected_authorization,
            expected_configuration,
            replacement,
        ) == Some(
            StateErrorView::StaleGeneration {
                expected: expected_authorization->Some_0.value,
                actual: records.configuration->Some_0.authorization_generation.number,
            },
        ),
{
}

/// A stored window holds an instant exactly if the instant, counted in
/// nanoseconds, is not earlier than its begin and earlier than its end.
pub proof fn law_window_is_half_open(row: ConfigurationRow, now: Timestamp)
    requires
        0 <= now.nanoseconds() < 1_000_000_000,
    ensures
        row.covers(now) <==> row.not_before_ms * 1_000_000 <= now.seconds() * 1_000_000_000
            + now.nanoseconds() < row.expires_at_ms * 1_000_000,
        row.covers_millis(now.millis()) <==> row.covers(now),
{
}

/// An authorization is minted exactly if the provider is imported read-only, and
/// its configuration names the capability, is enabled and not revoked, holds the
/// time, is of the supported adapter and version, can be read, and, for
/// policies, keeps them in the database.
pub proof fn law_minting_needs_everything(
    records: AuthorityRecords,
    instance: Seq<char>,
    capability: ProviderMutationCapability,
    now: Timestamp,
)
    ensures
        issue_problem(records, instance, capability, now) is None ==> {
            &&& records.import matches Some(import) && import.provider_instance@ == instance
                && import.read_only == 1 && import.mutation_allowed == 0
            &&& records.configuration matches Some(row) && {
                &&& row.provider_instance@ == instance
                &&& row.enabled == 1
                &&& row.revoked == 0
                &&& !now.before_millis(row.not_before_ms as int)
                &&& now.before_millis(row.expires_at_ms as int)
                &&& row.adapter@ == "headscale"@
                &&& row.expected_version@ == "v0.29.3"@
                &&& is_fingerprint(row.configuration_fingerprint@)
                &&& exists|i: int|
                    0 <= i < row.capabilities@.len() && (#[trigger] row.capabilities@[i])@
                        == capability.text()
                &&& capability == ProviderMutationCapability::ManagePolicy ==> row.policy_mode@
                    == "database"@
                &&& row.policy_mode@ == "database"@ || row.policy_mode@ == "file"@
                    || row.policy_mode@ == "unknown"@
                &&& row.authorization_generation.refusal is None
                &&& row.configuration_generation.refusal is None
            }
        },
        (records.import matches Some(import) && import.provider_instance@ == instance
            && import.read_only == 1 && import.mutation_allowed == 0) && (
        records.configuration matches Some(row) && {
            &&& row.provider_instance@ == instance
            &&& row.enabled == 1
            &&& row.revoked == 0
            &&& is_millis(row.not_before_ms as int)
            &&& is_millis(row.expires_at_ms as int)
            &&& !now.before_millis(row.not_before_ms as int)
            &&& now.before_millis(row.expires_at_ms as int)
            &&& row.adapter@ == "headscale"@
            &&& row.expected_version@ == "v0.29.3"@
            &&& is_fingerprint(row.configuration_fingerprint@)
            &&& exists|i: int|
                0 <= i < row.capabilities@.len() && (#[trigger] row.capabilities@[i])@
                    == capability.text()
            &&& row.policy_mode@ == "database"@ || (capability
                != ProviderMutationCapability::ManagePolicy && (row.policy_mode@ == "file"@
                || row.policy_mode@ == "unknown"@))
            &&& row.authorization_generation.refusal is None
            &&& row.configuration_generation.refusal is None
        }) ==> issue_problem(records, instance, capability, now) is None,
{
    assert(MutationPolicyMode::Database.text() == "database"@);
    assert(MutationPolicyMode::File.text() == "file"@);
    assert(MutationPolicyMode::Unknown.text() == "unknown"@);
}

/// An authorization carries the window, the generations and the rest of the very
/// configuration that it is minted from.
pub proof fn law_authorization_carries_its_configuration(
    facts: AuthorizationFacts,
    row: ConfigurationRow,
)
    requires
        is_bound_to(facts, row),
    ensures
        facts.provider_instance_id@ == row.provider_instance@,
        facts.authorization_generation.value == row.authorization_generation.number,
        facts.configuration_generation.value == row.configuration_generation.number,
        facts.configuration_fingerprint@ == row.configuration_fingerprint@,
        facts.adapter@ == row.adapter@,
        facts.expected_version@ == row.expected_version@,
        facts.not_before.millis() == row.not_before_ms,
        facts.expires_at.millis() == row.expires_at_ms,
        facts.policy_mode.text() == row.policy_mode@,
{
}

/// An authorization is good exactly for the adapter that it names, of a clean
/// version, for the network, provider, generations, fingerprint and capability
/// that it names, from its begin until before its end; a policy has to be in the
/// database on both sides.
pub proof fn law_authorization_is_good_for_its_own_facts_only(
    facts: AuthorizationFacts,
    context: ContextFacts,
)
    ensures
        facts.allows(context) <==> {
            &&& facts.network_id@ == context.network_id@
            &&& facts.provider_instance_id@ == context.provider_instance_id@
            &&& facts.authorization_generation.value == context.authorization_generation.value
            &&& facts.configuration_generation.value == context.configuration_generation.value
            &&& facts.configuration_fingerprint@ == context.configuration_fingerprint@
            &&& facts.adapter@ == context.adapter@
            &&& facts.expected_version@ == context.version@
            &&& facts.capability == context.capability
            &&& !context.dirty
            &&& !context.now.before(facts.not_before)
            &&& context.now.before(facts.expires_at)
            &&& facts.capability != ProviderMutationCapability::ManagePolicy || (facts.policy_mode
                == MutationPolicyMode::Database && context.policy_mode
                == MutationPolicyMode::Database)
        },
{
}

/// The Headscale adapter presents itself, and everything else as it is.
pub proof fn law_headscale_context_names_headscale(context: HeadscaleMutationAuthorizationContext)
    ensures
        context.facts().adapter@ == "headscale"@,
        context.facts().network_id == context.network_id,
        context.facts().provider_instance_id == context.provider_instance_id,
        context.facts().authorization_generation == context.authorization_generation,
        context.facts().configuration_generation == context.configuration_generation,
        context.facts().configuration_fingerprint == context.configuration_fingerprint,
        context.facts().version == context.version,
        context.facts().dirty == context.dirty,
        context.facts().capability == context.capability,
        context.facts().policy_mode == context.policy_mode,
        context.facts().now == context.now,
{
}

/// A confirmed credential is for one use, was confirmed before it expires and
/// not before 1970.
pub proof fn law_confirmed_reference_is_for_one_use(
    fingerprint: Seq<char>,
    confirmed_at: Timestamp,
    expires_at: Timestamp,
    max_uses: u32,
)
    ensures
        is_reference_valid(fingerprint, confirmed_at, expires_at, max_uses) <==> {
            &&& max_uses == 1
            &&& is_fingerprint(fingerprint)
            &&& confirmed_at.before(expires_at)
            &&& 0 <= confirmed_at.millis()
        },
{
}

/// A confirmed credential is stored exactly if the configuration in force when
/// it was confirmed is the one that it names, by both generations and the
/// fingerprint, and grants the creation of credentials.
pub proof fn law_confirmed_reference_is_under_current_authority(
    reference: ConfirmedProviderCredentialReference,
    records: AuthorityRecords,
)
    ensures
        reference.binding_problem(records) is None <==> {
            &&& reference.authorization_generation.value <= 0x7fff_ffff_ffff_ffff
            &&& reference.configuration_generation.value <= 0x7fff_ffff_ffff_ffff
            &&& records.network_id@ == reference.network_id@
            &&& records.configuration matches Some(row) && {
                &&& row.provider_instance@ == reference.provider_instance_id@
                &&& row.authorization_generation.number == reference.authorization_generation.value
                &&& row.configuration_generation.number == reference.configuration_generation.value
                &&& row.configuration_fingerprint@ == reference.configuration_fingerprint@
                &&& row.enabled == 1
                &&& row.revoked == 0
                &&& row.not_before_ms <= reference.confirmed_at.millis() < row.expires_at_ms
                &&& exists|i: int|
                    0 <= i < row.capabilities@.len() && (#[trigger] row.capabilities@[i])@
                        == "CreateJoinCredential"@
            }
        },
        records.configuration is None && reference.authorization_generation.value
            <= 0x7fff_ffff_ffff_ffff && reference.configuration_generation.value
            <= 0x7fff_ffff_ffff_ffff ==> reference.binding_problem(records) == Some(
            StateErrorView::MutationAuthorizationDenied(
                "confirmed credential reference is not bound to current authority"@,
            ),
        ),
{
}

/// Every column of a stored reference holds the fact of that name, its times in
/// milliseconds.
pub proof fn law_confirmed_reference_is_stored_faithfully(
    row: CredentialReferenceRow,
    reference: ConfirmedProviderCredentialReference,
)
    requires
        row.stores(reference),
    ensures
        row.credential@ == reference.credential_id@,
        row.network@ == reference.network_id@,
        row.provider_instance@ == reference.provider_instance_id@,
        row.provider_reference@ == reference.provider_reference@,
        row.authorization_generation == reference.authorization_generation.value,
        row.configuration_generation == reference.configuration_generation.value,
        row.configuration_fingerprint@ == reference.configuration_fingerprint@,
        row.confirmed_at_ms == reference.confirmed_at.millis(),
        row.expires_at_ms == reference.expires_at.millis(),
        row.max_uses == reference.max_uses,
{
}

/// A stored reference is read exactly if its identifiers, generations and times
/// can be, and it is for one use and expires after its confirmation; it is read
/// as what its columns hold.
pub proof fn law_stored_reference_is_read_faithfully(
    stored: StoredCredentialReference,
    read: ConfirmedProviderCredentialReference,
)
    ensures
        stored.problem() is None <==> {
            &&& stored.network_id.parsed is Ok
            &&& stored.provider_instance_id.parsed is Ok
            &&& stored.provider_reference.parsed is Ok
            &&& stored.authorization_generation.refusal is None
            &&& stored.configuration_generation.refusal is None
            &&& is_millis(stored.confirmed_at_ms as int)
            &&& is_millis(stored.expires_at_ms as int)
            &&& is_fingerprint(stored.configuration_fingerprint@)
            &&& 0 <= stored.confirmed_at_ms < stored.expires_at_ms
            &&& stored.max_uses == 1
        },
        stored.reads_as(read) ==> {
            &&& stored.network_id.parsed matches Ok(id) && id@ == read.network_id@
            &&& stored.provider_instance_id.parsed matches Ok(id) && id@
                == read.provider_instance_id@
            &&& stored.provider_reference.parsed matches Ok(name) && name@
                == read.provider_reference@
            &&& read.authorization_generation.value == stored.authorization_generation.number
            &&& read.configuration_generation.value == stored.configuration_generation.number
            &&& read.configuration_fingerprint@ == stored.configuration_fingerprint@
            &&& read.confirmed_at.millis() == stored.confirmed_at_ms
            &&& read.expires_at.millis() == stored.expires_at_ms
            &&& read.max_uses == stored.max_uses
        },
{
}

/// The lifecycle is permitted exactly under a stored configuration of the very
/// network and provider that is enabled, not revoked, in its window, and names
/// both capabilities.
pub proof fn law_permitting_the_lifecycle(
    records: &AuthorityRecords,
    network: &str,
    instance: &str,
    now: &Timestamp,
    allowed: bool,
)
    requires
        call_ensures(AuthorityRecords::permits_lifecycle, (records, network, instance, now), allowed),
    ensures
        allowed <==> {
            &&& records.network_id@ == network@
            &&& records.configuration matches Some(row) && {
                &&& row.provider_instance@ == instance@
                &&& row.enabled == 1
                &&& row.revoked == 0
                &&& row.not_before_ms <= now.millis() < row.expires_at_ms
                &&& exists|i: int|
                    0 <= i < row.capabilities@.len() && (#[trigger] row.capabilities@[i])@
                        == "CreateJoinCredential"@
                &&& exists|i: int|
                    0 <= i < row.capabilities@.len() && (#[trigger] row.capabilities@[i])@
                        == "InvalidateJoinCredential"@
            }
        },
{
}

/// A configuration is what it is made of, and is made only for the supported
/// adapter and version, for a while that is not empty, and for at least one
/// capability; policies are managed in the database only.
pub proof fn law_making_a_configuration(
    provider_instance_id: ProviderInstanceId,
    authorization_generation: Generation,
    configuration_generation: Generation,
    configuration_fingerprint: String,
    adapter: String,
    expected_version: String,
    enabled: bool,
    revoked: bool,
    not_before: Timestamp,
    expires_at: Timestamp,
    policy_mode: MutationPolicyMode,
    capabilities: Vec<ProviderMutationCapability>,
    result: Result<ProviderMutationConfiguration, StateError>,
)
    requires
        call_ensures(
            ProviderMutationConfiguration::new,
            (
                provider_instance_id,
                authorization_generation,
                configuration_generation,
                configuration_fingerprint,
                adapter,
                expected_version,
                enabled,
                revoked,
                not_before,
                expires_at,
                policy_mode,
                capabilities,
            ),
            result,
        ),
    ensures
        result matches Ok(made) ==> {
            &&& made@.provider_instance_id == provider_instance_id
            &&& made@.authorization_generation == authorization_generation
            &&& made@.configuration_generation == configuration_generation
            &&& made@.configuration_fingerprint == configuration_fingerprint
            &&& made@.enabled == enabled
            &&& made@.revoked == revoked
            &&& made@.not_before == not_before
            &&& made@.expires_at == expires_at
            &&& made@.policy_mode == policy_mode
            &&& adapter@ == "headscale"@
            &&& expected_version@ == "v0.29.3"@
            &&& is_fingerprint(configuration_fingerprint@)
            &&& not_before.before(expires_at)
            &&& not_before.millis() >= 0
            &&& expires_at.millis() >= 0
            &&& capabilities@.len() > 0
            &&& capabilities@.contains(ProviderMutationCapability::ManagePolicy) ==> policy_mode
                == MutationPolicyMode::Database
            &&& forall|capability: ProviderMutationCapability| #[trigger]
                made@.capabilities.has(capability) <==> capabilities@.contains(capability)
        },
        result matches Err(error) ==> error@ == StateErrorView::Conflict(
            "invalid provider mutation configuration"@,
        ),
{
    if let Ok(made) = result {
        let held = choose|capability: ProviderMutationCapability| #[trigger]
            made@.capabilities.has(capability);
        assert(capabilities@.contains(held));
    }
}

/// Replacing a configuration stores the new one and leaves one event with its
/// authorization generation; the network and its import stay. It succeeds only
/// from the generations that are expected and to greater ones. A refusal changes
/// nothing.
pub proof fn law_replacing_a_configuration(
    store: &StateStore,
    records: &mut AuthorityRecords,
    expected_authorization: Option<Generation>,
    expected_configuration: Option<Generation>,
    replacement: ProviderMutationConfiguration,
    log: &mut AuditLog,
    actor: AuditActor,
    result: Result<(), StateError>,
)
    requires
        call_ensures(
            StateStore::replace_provider_mutation_configuration,
            (
                store,
                records,
                expected_authorization,
                expected_configuration,
                replacement,
                log,
                actor,
            ),
            result,
        ),
    ensures
        final(records).network_id == old(records).network_id,
        final(records).import == old(records).import,
        result is Err ==> *final(records) == *old(records) && *final(log) == *old(log),
        result is Ok ==> {
            &&& old(records).import matches Some(import) && import.provider_instance@
                == replacement@.provider_instance_id@ && import.read_only == 1
                && import.mutation_allowed == 0
            &&& old(records).configuration is None ==> expected_authorization is None
                && expected_configuration is None
            &&& old(records).configuration matches Some(row) ==> {
                &&& row.provider_instance@ == replacement@.provider_instance_id@
                &&& expected_authorization matches Some(known) && known.value
                    == row.authorization_generation.number
                &&& expected_configuration matches Some(known) && known.value
                    == row.configuration_generation.number
                &&& replacement@.authorization_generation.value
                    > row.authorization_generation.number
                &&& replacement@.configuration_generation.value
                    > row.configuration_generation.number
            }
            &&& final(records).configuration matches Some(row) && {
                &&& row.provider_instance@ == replacement@.provider_instance_id@
                &&& row.authorization_generation.number
                    == replacement@.authorization_generation.value
                &&& row.configuration_generation.number
                    == replacement@.configuration_generation.value
                &&& row.configuration_fingerprint@ == replacement@.configuration_fingerprint@
                &&& row.enabled == 1 <==> replacement@.enabled
                &&& row.revoked == 0 <==> !replacement@.revoked
                &&& row.not_before_ms == replacement@.not_before.millis()
                &&& row.expires_at_ms == replacement@.expires_at.millis()
            }
            &&& final(log)@ =~= old(log)@.push(
                AuditFact {
                    network_id: Some(old(records).network_id),
                    device_id: None,
                    actor,
                    kind: AuditKind::MutationConfigured,
                    outcome: AuditOutcome::Success,
                    generation: Some(replacement@.authorization_generation.value as i64),
                    metadata_json: "{}"@,
                    correlation: None,
                },
            )
        },
{
}

/// A minted authorization is for the network, the provider and the capability
/// that are asked for, and bears the window and the generations of a
/// configuration that is enabled, not revoked and in force.
pub proof fn law_minting_an_authorization(
    store: &StateStore,
    records: &AuthorityRecords,
    provider_instance_id: ProviderInstanceId,
    capability: ProviderMutationCapability,
    now: Timestamp,
    result: Result<MutationAuthorization, StateError>,
)
    requires
        call_ensures(
            StateStore::issue_mutation_authorization,
            (store, records, provider_instance_id, capability, now),
            result,
        ),
    ensures
        result matches Ok(authorization) ==> (records.configuration matches Some(row) && {
            &&& authorization@.network_id == records.network_id
            &&& authorization@.provider_instance_id == provider_instance_id
            &&& authorization@.capability == capability
            &&& row.provider_instance@ == provider_instance_id@
            &&& row.enabled == 1
            &&& row.revoked == 0
            &&& !now.before_millis(row.not_before_ms as int)
            &&& now.before_millis(row.expires_at_ms as int)
            &&& exists|i: int|
                0 <= i < row.capabilities@.len() && (#[trigger] row.capabilities@[i])@
                    == capability.text()
            &&& records.import matches Some(import) && import.read_only == 1
                && import.mutation_allowed == 0
            &&& authorization@.authorization_generation.value
                == row.authorization_generation.number
            &&& authorization@.configuration_generation.value
                == row.configuration_generation.number
            &&& authorization@.configuration_fingerprint@ == row.configuration_fingerprint@
            &&& authorization@.adapter@ == "headscale"@
            &&& authorization@.expected_version@ == "v0.29.3"@
            &&& authorization@.not_before.millis() == row.not_before_ms
            &&& authorization@.expires_at.millis() == row.expires_at_ms
            &&& authorization@.policy_mode.text() == row.policy_mode@
        }),
        records.configuration is None ==> (result matches Err(error) && error@
            == StateErrorView::MutationAuthorizationDenied("no current configured capability"@)),
{
}

/// An authorization is valid exactly where every fact that it is bound to
/// agrees, the version is clean and the time is in its window; anything else is
/// denied, also to the Headscale adapter.
pub proof fn law_validating_an_authorization(
    authorization: MutationAuthorization,
    context: MutationAuthorizationContext,
    result: Result<(), StateError>,
)
    requires
        call_ensures(MutationAuthorization::validate, (authorization, context), result),
    ensures
        result is Ok <==> {
            &&& authorization@.network_id@ == context@.network_id@
            &&& authorization@.provider_instance_id@ == context@.provider_instance_id@
            &&& authorization@.authorization_generation.value
                == context@.authorization_generation.value
            &&& authorization@.configuration_generation.value
                == context@.configuration_generation.value
            &&& authorization@.configuration_fingerprint@ == context@.configuration_fingerprint@
            &&& authorization@.adapter@ == context@.adapter@
            &&& authorization@.expected_version@ == context@.version@
            &&& authorization@.capability == context@.capability
            &&& !context@.dirty
            &&& !context@.now.before(authorization@.not_before)
            &&& context@.now.before(authorization@.expires_at)
            &&& authorization@.capability != ProviderMutationCapability::ManagePolicy || (
            authorization@.policy_mode == MutationPolicyMode::Database && context@.policy_mode
                == MutationPolicyMode::Database)
        },
        result matches Err(error) ==> error@ == StateErrorView::MutationAuthorizationDenied(
            "authorization facts do not match"@,
        ),
{
}

/// The same holds of the Headscale adapter, which is answered by the message of
/// the error.
pub proof fn law_validating_for_headscale(
    authorization: MutationAuthorization,
    context: HeadscaleMutationAuthorizationContext,
    result: Result<(), ProviderError>,
)
    requires
        call_ensures(MutationAuthorization::validate_for_headscale, (authorization, context), result),
    ensures
        result is Ok <==> {
            &&& authorization@.network_id@ == context.network_id@
            &&& authorization@.provider_instance_id@ == context.provider_instance_id@
            &&& authorization@.authorization_generation.value
                == context.authorization_generation.value
            &&& authorization@.configuration_generation.value
                == context.configuration_generation.value
            &&& authorization@.configuration_fingerprint@ == context.configuration_fingerprint@
            &&& authorization@.adapter@ == "headscale"@
            &&& authorization@.expected_version@ == context.version@
            &&& authorization@.capability == context.capability
            &&& !context.dirty
            &&& !context.now.before(authorization@.not_before)
            &&& context.now.before(authorization@.expires_at)
            &&& authorization@.capability != ProviderMutationCapability::ManagePolicy || (
            authorization@.policy_mode == MutationPolicyMode::Database && context.policy_mode
                == MutationPolicyMode::Database)
        },
        result is Err ==> (result->Err_0 matches ProviderError::Rejected(text) && text@
            == "mutation authorization denied: "@ + "authorization facts do not match"@),
{
}

/// Recording a confirmed credential leaves one event with its authorization
/// generation, exactly if it is bound to the configuration in force, the
/// database took its row and the event can be recorded; a refusal leaves none.
pub proof fn law_recording_a_confirmed_reference(
    store: &StateStore,
    records: &AuthorityRecords,
    reference: &ConfirmedProviderCredentialReference,
    stored: Result<(), DatabaseFailure>,
    log: &mut AuditLog,
    actor: AuditActor,
    result: Result<(), StateError>,
)
    requires
        call_ensures(
            StateStore::record_confirmed_provider_credential_reference,
            (store, records, reference, stored, log, actor),
            result,
        ),
    ensures
        result is Err ==> *final(log) == *old(log),
        result is Ok ==> {
            &&& stored is Ok
            &&& records.network_id@ == reference.network_id@
            &&& records.configuration matches Some(row) && {
                &&& row.provider_instance@ == reference.provider_instance_id@
                &&& row.authorization_generation.number == reference.authorization_generation.value
                &&& row.configuration_generation.number == reference.configuration_generation.value
                &&& row.configuration_fingerprint@ == reference.configuration_fingerprint@
                &&& row.enabled == 1
                &&& row.revoked == 0
                &&& row.not_before_ms <= reference.confirmed_at.millis() < row.expires_at_ms
            }
            &&& final(log)@ =~= old(log)@.push(
                AuditFact {
                    network_id: Some(reference.network_id),
                    device_id: None,
                    actor,
                    kind: AuditKind::CredentialReferenceConfirmed,
                    outcome: AuditOutcome::Success,
                    generation: Some(reference.authorization_generation.value as i64),
                    metadata_json: "{}"@,
                    correlation: None,
                },
            )
        },
        reference.binding_problem(*records) is None && stored is Ok && !store.is_armed(
            Failpoint::BeforeAuditInsert,
        ) ==> result is Ok,
{
}

/// A reference is what it is made of, for one use only; a stored one is read
/// under the identifier that was asked for, and an absent one is not found.
pub proof fn law_reading_a_confirmed_reference(
    store: &StateStore,
    credential_id: ProviderCredentialId,
    row: Option<StoredCredentialReference>,
    result: Result<ConfirmedProviderCredentialReference, StateError>,
)
    requires
        call_ensures(
            StateStore::confirmed_provider_credential_reference,
            (store, credential_id, row),
            result,
        ),
    ensures
        row is None ==> (result matches Err(error) && error@ == StateErrorView::NotFound(
            credential_id@,
        )),
        result matches Ok(read) ==> {
            &&& row is Some
            &&& read.credential_id == credential_id
            &&& read.max_uses == 1
            &&& read.confirmed_at.millis() == row->Some_0.confirmed_at_ms
            &&& read.expires_at.millis() == row->Some_0.expires_at_ms
            &&& read.configuration_fingerprint@ == row->Some_0.configuration_fingerprint@
            &&& read.authorization_generation.value == row->Some_0.authorization_generation.number
            &&& read.configuration_generation.value == row->Some_0.configuration_generation.number
        },
{
}

/// The place of a capability among all of them.
pub open spec fn place_of(capability: ProviderMutationCapability) -> int {
    match capability {
        ProviderMutationCapability::EnsureNetworkPrincipal => 0,
        ProviderMutationCapability::CreateJoinCredential => 1,
        ProviderMutationCapability::InvalidateJoinCredential => 2,
        ProviderMutationCapability::ReplaceNodeTags => 3,
        ProviderMutationCapability::ExpireNode => 4,
        ProviderMutationCapability::DeleteNode => 5,
        ProviderMutationCapability::ManagePolicy => 6,
    }
}

/// The capabilities are in the order of their places, all of them before the
/// given one.
#[verifier::opaque]
pub open spec fn are_in_place(list: Seq<ProviderMutationCapability>, end: int) -> bool {
    &&& forall|i: int| 0 <= i < list.len() ==> place_of(#[trigger] list[i]) < end
    &&& forall|i: int, j: int|
        0 <= i < j < list.len() ==> place_of(#[trigger] list[i]) < place_of(#[trigger] list[j])
}

proof fn lemma_one_more_in_place(
    list: Seq<ProviderMutationCapability>,
    present: bool,
    capability: ProviderMutationCapability,
)
    requires
        are_in_place(list, place_of(capability)),
    ensures
        are_in_place(list + listed_if(present, capability), place_of(capability) + 1),
{
    reveal(are_in_place);
    let longer = list + listed_if(present, capability);
    assert forall|i: int| 0 <= i < longer.len() implies place_of(#[trigger] longer[i]) < place_of(
        capability,
    ) + 1 by {
        if i < list.len() {
            assert(longer[i] == list[i]);
        }
    }
    assert forall|i: int, j: int| 0 <= i < j < longer.len() implies place_of(#[trigger] longer[i])
        < place_of(#[trigger] longer[j]) by {
        assert(longer[i] == list[i]);
        if j < list.len() {
            assert(longer[j] == list[j]);
        }
    }
}

/// A set lists its capabilities in one order, each once.
pub proof fn law_capabilities_are_listed_in_order(set: CapabilitySet)
    ensures
        forall|i: int, j: int|
            0 <= i < j < set.listed().len() ==> place_of(#[trigger] set.listed()[i]) < place_of(
                #[trigger] set.listed()[j],
            ),
{
    let a = listed_if(
        set.has(ProviderMutationCapability::EnsureNetworkPrincipal),
        ProviderMutationCapability::EnsureNetworkPrincipal,
    );
    assert(are_in_place(a, 1)) by {
        reveal(are_in_place);
    }
    lemma_one_more_in_place(
        a,
        set.has(ProviderMutationCapability::CreateJoinCredential),
        ProviderMutationCapability::CreateJoinCredential,
    );
    let b = a + listed_if(
        set.has(ProviderMutationCapability::CreateJoinCredential),
        ProviderMutationCapability::CreateJoinCredential,
    );
    lemma_one_more_in_place(
        b,
        set.has(ProviderMutationCapability::InvalidateJoinCredential),
        ProviderMutationCapability::InvalidateJoinCredential,
    );
    let c = b + listed_if(
        set.has(ProviderMutationCapability::InvalidateJoinCredential),
        ProviderMutationCapability::InvalidateJoinCredential,
    );
    lemma_one_more_in_place(
        c,
        set.has(ProviderMutationCapability::ReplaceNodeTags),
        ProviderMutationCapability::ReplaceNodeTags,
    );
    let d = c + listed_if(
        set.has(ProviderMutationCapability::ReplaceNodeTags),
        ProviderMutationCapability::ReplaceNodeTags,
    );
    lemma_one_more_in_place(
        d,
        set.has(ProviderMutationCapability::ExpireNode),
        ProviderMutationCapability::ExpireNode,
    );
    let e = d + listed_if(
        set.has(ProviderMutationCapability::ExpireNode),
        ProviderMutationCapability::ExpireNode,
    );
    lemma_one_more_in_place(
        e,
        set.has(ProviderMutationCapability::DeleteNode),
        ProviderMutationCapability::DeleteNode,
    );
    let f = e + listed_if(
        set.has(ProviderMutationCapability::DeleteNode),
        ProviderMutationCapability::DeleteNode,
    );
    lemma_one_more_in_place(
        f,
        set.has(ProviderMutationCapability::ManagePolicy),
        ProviderMutationCapability::ManagePolicy,
    );
    let g = f + listed_if(
        set.has(ProviderMutationCapability::ManagePolicy),
        ProviderMutationCapability::ManagePolicy,
    );
    assert(set.listed() == g);
    reveal(are_in_place);
}

} // verus!
