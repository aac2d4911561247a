//! Invitations of the fenced lifecycle: their records, and what callers see of
//! them.

use crate::audit::StateStore;
use crate::error::{accepted, conflict, decoded, found, StateError, StateErrorView};
use crate::ids::{
    parse_problem, InvitationId, JoinSessionId, NetworkId, ProviderCredentialId,
    ProviderCredentialReference, ProviderInstanceId, Stored,
};
use crate::names::{
    law_cleanup_state_names_distinct, parse_cleanup_state, DispatchState, InvitationState,
    N4CleanupState,
};
use crate::paging::{by_key, is_by_key, law_order_by_key, order_by_key, Keyed};
use crate::records::{Invitation, JoinConstraints, JoinSession, Roles};
use crate::rules::{is_identifier, safe_identifier};
use crate::store::either;
use crate::text::{
    is_before, lemma_text_before_irreflexive, lemma_text_before_total,
    lemma_text_before_transitive, same_text, text_before,
};
use crate::time::{is_millis, lemma_same_instant, Timestamp};
use vstd::prelude::*;

verus! {

/// Where at a provider the credentials of an invitation are made. It holds no
/// secret.
#[derive(Debug, PartialEq, Eq)]
pub struct N4InvitationContext {
    pub provider_instance_id: ProviderInstanceId,
    pub provider_principal_id: String,
}

impl Clone for N4InvitationContext {
    fn clone(&self) -> (copy: Self)
        ensures
            copy == *self,
    {
        N4InvitationContext {
            provider_instance_id: self.provider_instance_id.clone(),
            provider_principal_id: self.provider_principal_id.clone(),
        }
    }
}

/// The name of a provider principal is not a safe identifier.
pub open spec fn principal_problem(principal: Seq<char>) -> Option<StateErrorView> {
    if is_identifier(principal) {
        None
    } else {
        Some(StateErrorView::Conflict("invalid N4 provider principal"@))
    }
}

impl N4InvitationContext {
    /// The context of a principal at a provider.
    pub fn new(provider_instance_id: ProviderInstanceId, provider_principal_id: String) -> (result:
        Result<Self, StateError>)
        ensures
            match result {
                Ok(context) => {
                    &&& principal_problem(provider_principal_id@) is None
                    &&& context.provider_instance_id == provider_instance_id
                    &&& context.provider_principal_id == provider_principal_id
                },
                Err(error) => principal_problem(provider_principal_id@) == Some(error@),
            },
    {
        if !safe_identifier(provider_principal_id.as_str()) {
            return Err(conflict("invalid N4 provider principal"));
        }
        Ok(N4InvitationContext { provider_instance_id, provider_principal_id })
    }
}

/// The stored invitation: its record, and the columns beside it.
#[derive(PartialEq, Eq)]
pub struct StoredInvitation {
    pub record: Result<Invitation, String>,
    pub state: String,
    pub used_count: u32,
}

/// What is stored of an invitation for the lifecycle.
#[derive(Debug, PartialEq, Eq)]
pub struct N4Details {
    pub network_id: NetworkId,
    pub provider_instance_id: Stored<ProviderInstanceId>,
    pub provider_principal_id: String,
    pub revision: u64,
    pub consumed_at_ms: Option<i64>,
    pub revoked_at_ms: Option<i64>,
    pub expired_at_ms: Option<i64>,
    pub last_redemption_at_ms: Option<i64>,
    pub last_redemption_metadata_json: String,
}

/// The authority under which a credential request was handed to the provider.
#[derive(Debug, PartialEq, Eq)]
pub struct DispatchFence {
    pub authorization_generation: u64,
    pub configuration_generation: u64,
    pub configuration_fingerprint: String,
}

/// The request for a join credential, from its reservation on.
#[derive(Debug, PartialEq, Eq)]
pub struct N4Dispatch {
    pub join_session_id: Stored<JoinSessionId>,
    pub invitation_id: Stored<InvitationId>,
    pub network_id: Stored<NetworkId>,
    pub provider_instance_id: Stored<ProviderInstanceId>,
    pub provider_principal_id: String,
    pub create_request_id: String,
    pub state: DispatchState,
    pub fence: Option<DispatchFence>,
    pub credential_id: Option<Stored<ProviderCredentialId>>,
    pub dispatched_at_ms: Option<i64>,
    pub resolved_at_ms: Option<i64>,
}

/// The stored join session: its record, and the columns beside it.
#[derive(Debug, PartialEq, Eq)]
pub struct StoredSession {
    pub record: Result<JoinSession, String>,
    pub state: String,
    pub updated_at: String,
}

/// What is stored of a confirmed join credential. The credential itself is not.
#[derive(Debug, PartialEq, Eq)]
pub struct N4CredentialMetadata {
    pub provider_principal_id: String,
    pub ephemeral: bool,
    pub approved_tags: Vec<String>,
    pub expires_at_ms: i64,
    pub confirmed_at_ms: i64,
    pub invalidation_state: String,
    pub invalidated_at_ms: Option<i64>,
    pub safe_correlation_json: String,
}

/// All that is stored about one invitation of the lifecycle.
#[derive(PartialEq, Eq)]
pub struct N4Lifecycle {
    pub invitation: StoredInvitation,
    pub details: N4Details,
    pub dispatch: Option<N4Dispatch>,
    pub session: Option<StoredSession>,
    /// The provider's name for the confirmed credential.
    pub reference: Option<Stored<ProviderCredentialReference>>,
    pub metadata: Option<N4CredentialMetadata>,
}

/// Why a record cannot be read, if it cannot.
pub open spec fn unreadable<T>(record: Result<T, String>) -> Option<StateErrorView> {
    match record {
        Ok(_) => None,
        Err(text) => Some(StateErrorView::Serialization(text@)),
    }
}

/// Why the context of stored details is refused, if it is.
pub open spec fn context_problem(details: N4Details) -> Option<StateErrorView> {
    either(
        parse_problem(details.provider_instance_id),
        principal_problem(details.provider_principal_id@),
    )
}

/// The context that stored details name.
pub open spec fn is_context(context: N4InvitationContext, details: N4Details) -> bool {
    &&& details.provider_instance_id.parsed == Ok::<ProviderInstanceId, String>(
        context.provider_instance_id,
    )
    &&& context.provider_principal_id@ == details.provider_principal_id@
}

/// The verifier of a secret. It is shown to no one but the check of a token.
#[derive(PartialEq, Eq)]
pub struct SecretVerifier {
    text: String,
}

impl View for SecretVerifier {
    type V = Seq<char>;

    closed spec fn view(&self) -> Seq<char> {
        self.text@
    }
}

impl SecretVerifier {
    /// The verifier of the given text.
    pub fn new(text: String) -> (made: Self)
        ensures
            made@ == text@,
    {
        SecretVerifier { text }
    }

    /// The text of the verifier, for the check of a token.
    pub fn as_str(&self) -> (text: &str)
        ensures
            text@ == self@,
    {
        self.text.as_str()
    }
}

/// What the service needs to check a token against an invitation.
#[derive(PartialEq, Eq)]
pub struct N4InvitationCandidate {
    pub invitation_id: InvitationId,
    pub network_id: NetworkId,
    pub revision: u64,
    pub state: InvitationState,
    pub expires_at: Timestamp,
    pub context: N4InvitationContext,
    pub secret_verifier: SecretVerifier,
}

impl N4InvitationCandidate {
    /// Whether a token is good for the invitation. `verified` is what the check
    /// of its secret against the verifier gave; a token of another invitation is
    /// never good.
    pub fn verify(&self, token_invitation: &InvitationId, verified: Result<bool, String>) -> (result:
        Result<bool, StateError>)
        ensures
            token_invitation@ != self.invitation_id@ ==> result == Ok::<bool, StateError>(false),
            token_invitation@ == self.invitation_id@ ==> match verified {
                Ok(good) => result == Ok::<bool, StateError>(good),
                Err(_) => result matches Err(error) && error@ == StateErrorView::Conflict(
                    "N4 invitation verifier could not be evaluated"@,
                ),
            },
    {
        if !token_invitation.same(&self.invitation_id) {
            return Ok(false);
        }
        match verified {
            Ok(good) => Ok(good),
            Err(_) => Err(conflict("N4 invitation verifier could not be evaluated")),
        }
    }
}

/// Why there is no candidate, if there is none. An invitation without details
/// is not of the lifecycle and cannot be redeemed.
pub open spec fn candidate_problem(
    lifecycle: Option<N4Lifecycle>,
    invitation: Seq<char>,
) -> Option<StateErrorView> {
    match lifecycle {
        None => Some(StateErrorView::NotFound(invitation)),
        Some(stored) => either(
            unreadable(stored.invitation.record),
            context_problem(stored.details),
        ),
    }
}

/// What callers may see of an invitation: neither the verifier nor anything of
/// the credential.
#[derive(Debug, PartialEq, Eq)]
pub struct N4InvitationView {
    pub invitation_id: InvitationId,
    pub network_id: NetworkId,
    pub state: InvitationState,
    pub revision: u64,
    pub roles: Roles,
    pub join_constraints: JoinConstraints,
    pub created_at: Timestamp,
    pub expires_at: Timestamp,
    pub max_uses: u32,
    pub used_count: u32,
    pub consumed_at: Option<Timestamp>,
    pub revoked_at: Option<Timestamp>,
    pub expired_at: Option<Timestamp>,
    pub cleanup_state: N4CleanupState,
    pub context: N4InvitationContext,
}

/// The stored name of how far the cleanup of the credential is.
pub open spec fn cleanup_text(lifecycle: N4Lifecycle) -> Seq<char> {
    match lifecycle.metadata {
        Some(metadata) => metadata.invalidation_state@,
        None => "none"@,
    }
}

/// The optional number of milliseconds names no instant.
pub open spec fn is_bad_millis(millis: Option<i64>) -> bool {
    millis matches Some(value) && !is_millis(value as int)
}

/// The optional instant is the one that the optional number of milliseconds names.
pub open spec fn is_optional_millis(instant: Option<Timestamp>, millis: Option<i64>) -> bool {
    match (instant, millis) {
        (None, None) => true,
        (Some(time), Some(value)) => time.is_at(value as int),
        _ => false,
    }
}

/// Why an invitation cannot be shown, if it cannot.
pub open spec fn view_problem(
    lifecycle: Option<N4Lifecycle>,
    invitation: Seq<char>,
) -> Option<StateErrorView> {
    match lifecycle {
        None => Some(StateErrorView::NotFound(invitation)),
        Some(stored) => if unreadable(stored.invitation.record) is Some {
            unreadable(stored.invitation.record)
        } else if forall|known: N4CleanupState| #[trigger] known.text() != cleanup_text(stored) {
            Some(StateErrorView::Conflict("invalid N4 cleanup state"@))
        } else if is_bad_millis(stored.details.consumed_at_ms) || is_bad_millis(
            stored.details.revoked_at_ms,
        ) || is_bad_millis(stored.details.expired_at_ms) {
            Some(StateErrorView::Conflict("invalid persisted N4 timestamp"@))
        } else {
            context_problem(stored.details)
        },
    }
}

impl N4InvitationView {
    /// The view shows the stored invitation.
    pub open spec fn shows(self, invitation_id: InvitationId, stored: N4Lifecycle) -> bool {
        &&& self.invitation_id == invitation_id
        &&& stored.invitation.record matches Ok(record) && {
            &&& self.network_id == record.network_id
            &&& self.state == record.state
            &&& self.roles == record.roles
            &&& self.join_constraints == record.join_constraints
            &&& self.created_at == record.created_at
            &&& self.expires_at == record.expires_at
            &&& self.max_uses == record.max_uses
        }
        &&& self.revision == stored.details.revision
        &&& self.used_count == stored.invitation.used_count
        &&& is_optional_millis(self.consumed_at, stored.details.consumed_at_ms)
        &&& is_optional_millis(self.revoked_at, stored.details.revoked_at_ms)
        &&& is_optional_millis(self.expired_at, stored.details.expired_at_ms)
        &&& self.cleanup_state.text() == cleanup_text(stored)
        &&& is_context(self.context, stored.details)
    }
}

/// A stored invitation is shown in one way only: alone or in a listing.
pub proof fn law_invitation_is_shown_one_way(
    invitation_id: InvitationId,
    stored: N4Lifecycle,
    left: N4InvitationView,
    right: N4InvitationView,
)
    requires
        left.shows(invitation_id, stored),
        right.shows(invitation_id, stored),
    ensures
        left.invitation_id == right.invitation_id,
        left.network_id == right.network_id,
        left.state == right.state,
        left.revision == right.revision,
        left.roles == right.roles,
        left.join_constraints == right.join_constraints,
        left.created_at == right.created_at,
        left.expires_at == right.expires_at,
        left.max_uses == right.max_uses,
        left.used_count == right.used_count,
        left.consumed_at == right.consumed_at,
        left.revoked_at == right.revoked_at,
        left.expired_at == right.expired_at,
        left.cleanup_state == right.cleanup_state,
        left.context.provider_instance_id == right.context.provider_instance_id,
        left.context.provider_principal_id@ == right.context.provider_principal_id@,
{
    law_cleanup_state_names_distinct(left.cleanup_state, right.cleanup_state);
    lemma_same_optional_instant(
        left.consumed_at,
        right.consumed_at,
        stored.details.consumed_at_ms,
    );
    lemma_same_optional_instant(left.revoked_at, right.revoked_at, stored.details.revoked_at_ms);
    lemma_same_optional_instant(left.expired_at, right.expired_at, stored.details.expired_at_ms);
}

proof fn lemma_same_optional_instant(
    left: Option<Timestamp>,
    right: Option<Timestamp>,
    millis: Option<i64>,
)
    requires
        is_optional_millis(left, millis),
        is_optional_millis(right, millis),
    ensures
        left == right,
{
    if millis is Some {
        lemma_same_instant(left->Some_0, right->Some_0);
    }
}

fn n4_time(millis: Option<i64>) -> (result: Result<Option<Timestamp>, StateError>)
    ensures
        match result {
            Ok(time) => !is_bad_millis(millis) && is_optional_millis(time, millis),
            Err(error) => is_bad_millis(millis) && error@ == StateErrorView::Conflict(
                "invalid persisted N4 timestamp"@,
            ),
        },
{
    match millis {
        None => Ok(None),
        Some(value) => match Timestamp::from_timestamp_millis(value) {
            Some(time) => Ok(Some(time)),
            None => Err(conflict("invalid persisted N4 timestamp")),
        },
    }
}

/// The context that stored details name.
pub fn stored_context(details: &N4Details) -> (result: Result<N4InvitationContext, StateError>)
    ensures
        match result {
            Ok(context) => context_problem(*details) is None && is_context(context, *details),
            Err(error) => context_problem(*details) == Some(error@),
        },
{
    let instance = match &details.provider_instance_id.parsed {
        Ok(instance) => instance.clone(),
        Err(text) => return Err(StateError::Conflict(text.clone())),
    };
    N4InvitationContext::new(instance, details.provider_principal_id.clone())
}

/// A stored invitation, as far as the listing of invitations reads it. One
/// outside the fenced lifecycle has no lifecycle.
#[derive(PartialEq, Eq)]
pub struct ListedInvitation {
    pub invitation_id: Stored<InvitationId>,
    pub created_at: String,
    pub lifecycle: Option<N4Lifecycle>,
}

impl ListedInvitation {
    /// The invitation is one of the fenced lifecycle in the given network.
    pub open spec fn is_of(self, network_id: Seq<char>) -> bool {
        self.lifecycle matches Some(stored) && stored.details.network_id@ == network_id
    }

    /// The invitation is listed before the other: it was created earlier, or at
    /// the same time and its identifier comes first. Times are compared as they
    /// are stored.
    pub open spec fn is_before(self, other: ListedInvitation) -> bool {
        text_before(self.created_at@, other.created_at@) || (self.created_at@ == other.created_at@
            && text_before(self.invitation_id.text@, other.invitation_id.text@))
    }

    /// Whether the invitation is one of the fenced lifecycle in the given
    /// network.
    pub fn belongs_to(&self, network_id: &NetworkId) -> (result: bool)
        ensures
            result == self.is_of(network_id@),
    {
        match &self.lifecycle {
            Some(stored) => stored.details.network_id.same(network_id),
            None => false,
        }
    }

    /// Whether the invitation is listed before the other.
    pub fn precedes(&self, other: &ListedInvitation) -> (result: bool)
        ensures
            result == self.is_before(*other),
    {
        is_before(self.created_at.as_str(), other.created_at.as_str()) || (same_text(
            self.created_at.as_str(),
            other.created_at.as_str(),
        ) && is_before(self.invitation_id.text.as_str(), other.invitation_id.text.as_str()))
    }

    /// Why the invitation cannot be shown, if it cannot.
    pub open spec fn problem(self) -> Option<StateErrorView> {
        either(
            parse_problem(self.invitation_id),
            view_problem(self.lifecycle, self.invitation_id.parsed->Ok_0@),
        )
    }
}

/// The list with one more invitation: behind those that it does not come before.
pub open spec fn placed(list: Seq<ListedInvitation>, item: ListedInvitation) -> Seq<
    ListedInvitation,
>
    decreases list.len(),
{
    if list.len() > 0 && item.is_before(list.last()) {
        placed(list.drop_last(), item).push(list.last())
    } else {
        list.push(item)
    }
}

/// The invitations of the fenced lifecycle in a network, by the times of their
/// creation and their identifiers.
pub open spec fn listing(rows: Seq<ListedInvitation>, network_id: Seq<char>) -> Seq<
    ListedInvitation,
>
    decreases rows.len(),
{
    if rows.len() == 0 {
        Seq::empty()
    } else if rows.last().is_of(network_id) {
        placed(listing(rows.drop_last(), network_id), rows.last())
    } else {
        listing(rows.drop_last(), network_id)
    }
}

/// Where an invitation is placed in a list.
proof fn lemma_placed(list: Seq<ListedInvitation>, item: ListedInvitation, at: int)
    requires
        0 <= at <= list.len(),
        forall|i: int| at <= i < list.len() ==> item.is_before(#[trigger] list[i]),
        at > 0 ==> !item.is_before(list[at - 1]),
    ensures
        placed(list, item) == list.insert(at, item),
    decreases list.len(),
{
    if at == list.len() {
        assert(list.insert(at, item) =~= list.push(item));
    } else {
        let shorter = list.drop_last();
        assert(list[list.len() - 1] == list.last());
        assert forall|i: int| at <= i < shorter.len() implies item.is_before(
            #[trigger] shorter[i],
        ) by {
            assert(shorter[i] == list[i]);
        }
        lemma_placed(shorter, item, at);
        assert(shorter.insert(at, item).push(list.last()) =~= list.insert(at, item));
    }
}

/// Selects the invitations of the fenced lifecycle in a network, and orders them
/// by the times of their creation and their identifiers.
pub fn select_listing(rows: Vec<ListedInvitation>, network_id: &NetworkId) -> (list: Vec<
    ListedInvitation,
>)
    ensures
        list@ == listing(rows@, network_id@),
{
    let ghost all = rows@;
    let mut list: Vec<ListedInvitation> = Vec::new();
    assert(all.take(0) =~= Seq::<ListedInvitation>::empty());
    for row in it: rows
        invariant
            it.seq() == all,
            all == rows@,
            list@ == listing(all.take(it.index() as int), network_id@),
    {
        let ghost i = it.index() as int;
        proof {
            assert(row == all[i]);
            assert(all.take(i + 1).drop_last() =~= all.take(i));
            assert(all.take(i + 1).last() == row);
        }
        if row.belongs_to(network_id) {
            let mut at: usize = list.len();
            while at > 0 && row.precedes(&list[at - 1])
                invariant
                    at <= list@.len(),
                    forall|j: int| at <= j < list@.len() ==> row.is_before(#[trigger] list@[j]),
                decreases at,
            {
                at = at - 1;
            }
            proof {
                lemma_placed(list@, row, at as int);
            }
            list.insert(at, row);
        }
    }
    assert(all.take(all.len() as int) =~= all);
    list
}

/// The listing of a network is in order: none is listed before one that comes
/// before it.
pub proof fn law_listing_is_in_order(
    rows: Seq<ListedInvitation>,
    network_id: Seq<char>,
    i: int,
    j: int,
)
    requires
        0 <= i < j < listing(rows, network_id).len(),
    ensures
        !listing(rows, network_id)[j].is_before(listing(rows, network_id)[i]),
{
    lemma_listing_in_order(rows, network_id);
}

/// No invitation comes before one that is listed earlier.
spec fn is_in_order(list: Seq<ListedInvitation>) -> bool {
    forall|i: int, j: int|
        0 <= i < j < list.len() ==> !(#[trigger] list[j]).is_before(#[trigger] list[i])
}

proof fn lemma_listing_in_order(rows: Seq<ListedInvitation>, network_id: Seq<char>)
    ensures
        is_in_order(listing(rows, network_id)),
    decreases rows.len(),
{
    if rows.len() > 0 {
        lemma_listing_in_order(rows.drop_last(), network_id);
        if rows.last().is_of(network_id) {
            lemma_placed_in_order(listing(rows.drop_last(), network_id), rows.last());
        }
    }
}

proof fn lemma_before_transitive(
    first: ListedInvitation,
    second: ListedInvitation,
    third: ListedInvitation,
)
    requires
        first.is_before(second),
        second.is_before(third),
    ensures
        first.is_before(third),
{
    if text_before(first.created_at@, second.created_at@) && text_before(
        second.created_at@,
        third.created_at@,
    ) {
        lemma_text_before_transitive(first.created_at@, second.created_at@, third.created_at@);
    }
    if text_before(first.invitation_id.text@, second.invitation_id.text@) && text_before(
        second.invitation_id.text@,
        third.invitation_id.text@,
    ) {
        lemma_text_before_transitive(
            first.invitation_id.text@,
            second.invitation_id.text@,
            third.invitation_id.text@,
        );
    }
}

proof fn lemma_before_irreflexive(item: ListedInvitation)
    ensures
        !item.is_before(item),
{
    lemma_text_before_irreflexive(item.created_at@);
    lemma_text_before_irreflexive(item.invitation_id.text@);
}

proof fn lemma_placed_in_order(list: Seq<ListedInvitation>, item: ListedInvitation)
    requires
        is_in_order(list),
    ensures
        is_in_order(placed(list, item)),
        placed(list, item).to_multiset() == list.to_multiset().insert(item),
    decreases list.len(),
{
    broadcast use vstd::seq_lib::group_to_multiset_ensures;

    let after = placed(list, item);
    if list.len() > 0 && item.is_before(list.last()) {
        let shorter = list.drop_last();
        let last = list.last();
        let earlier = placed(shorter, item);
        assert(is_in_order(shorter)) by {
            assert forall|i: int, j: int| 0 <= i < j < shorter.len() implies !(
            #[trigger] shorter[j]).is_before(#[trigger] shorter[i]) by {
                assert(shorter[i] == list[i] && shorter[j] == list[j]);
            }
        }
        lemma_placed_in_order(shorter, item);
        assert(list =~= shorter.push(last));
        assert(after.to_multiset() =~= list.to_multiset().insert(item));
        assert forall|i: int, j: int| 0 <= i < j < after.len() implies !(
        #[trigger] after[j]).is_before(#[trigger] after[i]) by {
            assert(after[i] == earlier[i]);
            if j < earlier.len() {
                assert(after[j] == earlier[j]);
            } else {
                assert(earlier.contains(earlier[i]));
                assert(earlier.to_multiset().count(earlier[i]) > 0);
                if earlier[i] == item {
                    if last.is_before(item) {
                        lemma_before_transitive(item, last, item);
                        lemma_before_irreflexive(item);
                    }
                } else {
                    assert(shorter.to_multiset().count(earlier[i]) > 0);
                    assert(shorter.contains(earlier[i]));
                    let k = choose|k: int| 0 <= k < shorter.len() && shorter[k] == earlier[i];
                    assert(list[k] == earlier[i] && list[list.len() - 1] == last);
                }
            }
        }
    } else {
        assert forall|i: int, j: int| 0 <= i < j < after.len() implies !(
        #[trigger] after[j]).is_before(#[trigger] after[i]) by {
            assert(after[i] == list[i]);
            if j < list.len() {
                assert(after[j] == list[j]);
            } else if item.is_before(list[i]) {
                if i < list.len() - 1 {
                    lemma_unordered_transitive(list[i], list[list.len() - 1], item);
                }
            }
        }
    }
}

/// What comes before an earlier one comes before a later one.
proof fn lemma_unordered_transitive(
    earlier: ListedInvitation,
    later: ListedInvitation,
    item: ListedInvitation,
)
    requires
        !later.is_before(earlier),
        item.is_before(earlier),
    ensures
        item.is_before(later),
{
    lemma_text_before_total(earlier.created_at@, later.created_at@);
    lemma_text_before_total(earlier.invitation_id.text@, later.invitation_id.text@);
    if earlier.is_before(later) {
        lemma_before_transitive(item, earlier, later);
    }
}

/// The listing of a network holds exactly the stored invitations of the fenced
/// lifecycle in the network, whatever their state, each as often as it is
/// stored.
pub proof fn law_listing_is_complete(rows: Seq<ListedInvitation>, network_id: Seq<char>)
    ensures
        listing(rows, network_id).to_multiset() == rows.filter(
            |row: ListedInvitation| row.is_of(network_id),
        ).to_multiset(),
        forall|item: ListedInvitation| #[trigger]
            listing(rows, network_id).contains(item) <==> rows.contains(item) && item.is_of(
                network_id,
            ),
    decreases rows.len(),
{
    broadcast use vstd::seq_lib::group_to_multiset_ensures;

    reveal(Seq::filter);
    let wanted = |row: ListedInvitation| row.is_of(network_id);
    let list = listing(rows, network_id);
    if rows.len() > 0 {
        let fewer = rows.drop_last();
        let last = rows.last();
        law_listing_is_complete(fewer, network_id);
        lemma_listing_in_order(fewer, network_id);
        lemma_placed_in_order(listing(fewer, network_id), last);
        assert(list.to_multiset() =~= rows.filter(wanted).to_multiset());
        assert(rows =~= fewer.push(last));
        assert forall|item: ListedInvitation| #[trigger] list.contains(item) <==> rows.contains(
            item,
        ) && item.is_of(network_id) by {
            assert(list.contains(item) <==> list.to_multiset().count(item) > 0);
            assert(rows.contains(item) <==> rows.to_multiset().count(item) > 0);
            assert(fewer.contains(item) <==> fewer.to_multiset().count(item) > 0);
            assert(listing(fewer, network_id).contains(item) <==> listing(
                fewer,
                network_id,
            ).to_multiset().count(item) > 0);
        }
    }
}

/// The first of the listed invitations that cannot be shown, and why.
pub open spec fn first_list_problem(list: Seq<ListedInvitation>) -> Option<StateErrorView>
    decreases list.len(),
{
    if list.len() == 0 {
        None
    } else {
        either(first_list_problem(list.drop_last()), list.last().problem())
    }
}

proof fn lemma_list_problem_stays(list: Seq<ListedInvitation>, count: int)
    requires
        0 <= count <= list.len(),
        first_list_problem(list.take(count)) is Some,
    ensures
        first_list_problem(list) == first_list_problem(list.take(count)),
    decreases list.len() - count,
{
    if count < list.len() {
        assert(list.take(count + 1).drop_last() =~= list.take(count));
        lemma_list_problem_stays(list, count + 1);
    } else {
        assert(list.take(count) =~= list);
    }
}

/// A stored invitation, as far as the search for expired ones reads it.
#[derive(Debug, PartialEq, Eq)]
pub struct ExpiryRow {
    pub invitation_id: Stored<InvitationId>,
    pub state: String,
    pub expires_at: String,
}

impl ExpiryRow {
    /// The invitation is past its deadline and was not ended yet. Deadlines are
    /// compared as they are stored.
    pub open spec fn is_due(self, now: Timestamp) -> bool {
        &&& !text_before(now.text(), self.expires_at@)
        &&& self.state@ != "expired"@
        &&& self.state@ != "revoked"@
    }
}

impl Keyed for ExpiryRow {
    open spec fn key(&self) -> Seq<char> {
        self.invitation_id.text@
    }

    fn key_text(&self) -> (text: &str) {
        self.invitation_id.text.as_str()
    }
}

/// The identifiers of the invitations that are due.
pub open spec fn due_ids(rows: Seq<ExpiryRow>, now: Timestamp) -> Seq<InvitationId>
    decreases rows.len(),
{
    if rows.len() == 0 {
        Seq::empty()
    } else if rows.last().is_due(now) {
        due_ids(rows.drop_last(), now).push(rows.last().invitation_id.parsed->Ok_0)
    } else {
        due_ids(rows.drop_last(), now)
    }
}

/// The first of the due invitations whose identifier cannot be read, and why.
pub open spec fn first_due_problem(rows: Seq<ExpiryRow>, now: Timestamp) -> Option<StateErrorView>
    decreases rows.len(),
{
    if rows.len() == 0 {
        None
    } else {
        either(
            first_due_problem(rows.drop_last(), now),
            if rows.last().is_due(now) {
                parse_problem(rows.last().invitation_id)
            } else {
                None
            },
        )
    }
}

/// The identifiers of the due invitations come in order, and each is one of a
/// stored invitation that is due. Every stored identifier is read as what it
/// names.
pub proof fn law_due_invitations_are_in_order(rows: Seq<ExpiryRow>, now: Timestamp)
    requires
        forall|i: int|
            0 <= i < rows.len() ==> ((#[trigger] rows[i]).invitation_id.parsed matches Ok(id)
                && id@ == rows[i].invitation_id.text@),
    ensures
        forall|i: int, j: int|
            0 <= i < j < due_ids(by_key(rows), now).len() ==> !text_before(
                (#[trigger] due_ids(by_key(rows), now)[j])@,
                (#[trigger] due_ids(by_key(rows), now)[i])@,
            ),
        forall|id: InvitationId| #[trigger]
            due_ids(by_key(rows), now).contains(id) <==> exists|k: int|
                0 <= k < rows.len() && (#[trigger] rows[k]).is_due(now)
                    && rows[k].invitation_id.parsed == Ok::<InvitationId, String>(id),
{
    broadcast use vstd::seq_lib::group_to_multiset_ensures;

    let list = by_key(rows);
    law_order_by_key(rows);
    assert forall|i: int| 0 <= i < list.len() implies rows.contains(#[trigger] list[i]) by {
        assert(list.contains(list[i]));
        assert(list.to_multiset().count(list[i]) > 0);
    }
    assert forall|i: int| 0 <= i < list.len() implies ((
    #[trigger] list[i]).invitation_id.parsed matches Ok(id) && id@ == list[i].key()) by {
        assert(rows.contains(list[i]));
    }
    lemma_due_in_order(list, now);
    assert forall|id: InvitationId| #[trigger] due_ids(list, now).contains(id) <==> exists|k: int|
        0 <= k < rows.len() && (#[trigger] rows[k]).is_due(now) && rows[k].invitation_id.parsed
            == Ok::<InvitationId, String>(id) by {
        if due_ids(list, now).contains(id) {
            let i = choose|i: int|
                0 <= i < list.len() && (#[trigger] list[i]).is_due(now)
                    && list[i].invitation_id.parsed == Ok::<InvitationId, String>(id);
            assert(rows.contains(list[i]));
            let k = choose|k: int| 0 <= k < rows.len() && rows[k] == list[i];
            assert(rows[k].is_due(now));
        }
        if exists|k: int|
            0 <= k < rows.len() && (#[trigger] rows[k]).is_due(now) && rows[k].invitation_id.parsed
                == Ok::<InvitationId, String>(id) {
            let k = choose|k: int|
                0 <= k < rows.len() && (#[trigger] rows[k]).is_due(now)
                    && rows[k].invitation_id.parsed == Ok::<InvitationId, String>(id);
            assert(rows.contains(rows[k]));
            assert(rows.to_multiset().count(rows[k]) > 0);
            assert(list.contains(rows[k]));
            let i = choose|i: int| 0 <= i < list.len() && list[i] == rows[k];
            assert(list[i].is_due(now));
        }
    }
}

proof fn lemma_due_in_order(list: Seq<ExpiryRow>, now: Timestamp)
    requires
        is_by_key(list),
        forall|i: int|
            0 <= i < list.len() ==> ((#[trigger] list[i]).invitation_id.parsed matches Ok(id)
                && id@ == list[i].key()),
    ensures
        forall|i: int, j: int|
            0 <= i < j < due_ids(list, now).len() ==> !text_before(
                (#[trigger] due_ids(list, now)[j])@,
                (#[trigger] due_ids(list, now)[i])@,
            ),
        forall|id: InvitationId| #[trigger]
            due_ids(list, now).contains(id) <==> exists|k: int|
                0 <= k < list.len() && (#[trigger] list[k]).is_due(now)
                    && list[k].invitation_id.parsed == Ok::<InvitationId, String>(id),
    decreases list.len(),
{
    if list.len() > 0 {
        let shorter = list.drop_last();
        let last = list.last();
        let earlier = due_ids(shorter, now);
        let due = due_ids(list, now);
        assert(list[list.len() - 1] == last);
        assert(is_by_key(shorter)) by {
            assert forall|i: int, j: int| 0 <= i < j < shorter.len() implies !text_before(
                (#[trigger] shorter[j]).key(),
                (#[trigger] shorter[i]).key(),
            ) by {
                assert(shorter[i] == list[i] && shorter[j] == list[j]);
            }
        }
        assert forall|i: int| 0 <= i < shorter.len() implies ((
        #[trigger] shorter[i]).invitation_id.parsed matches Ok(id) && id@ == shorter[i].key()) by {
            assert(shorter[i] == list[i]);
        }
        lemma_due_in_order(shorter, now);
        assert forall|i: int, j: int| 0 <= i < j < due.len() implies !text_before(
            (#[trigger] due[j])@,
            (#[trigger] due[i])@,
        ) by {
            assert(due[i] == earlier[i]);
            if j < earlier.len() {
                assert(due[j] == earlier[j]);
            } else {
                assert(earlier.contains(earlier[i]));
                let k = choose|k: int|
                    0 <= k < shorter.len() && (#[trigger] shorter[k]).is_due(now)
                        && shorter[k].invitation_id.parsed == Ok::<InvitationId, String>(
                        earlier[i],
                    );
                assert(list[k] == shorter[k]);
            }
        }
        assert forall|id: InvitationId| #[trigger] due.contains(id) <==> exists|k: int|
            0 <= k < list.len() && (#[trigger] list[k]).is_due(now) && list[k].invitation_id.parsed
                == Ok::<InvitationId, String>(id) by {
            if due.contains(id) {
                let i = choose|i: int| 0 <= i < due.len() && due[i] == id;
                if i < earlier.len() {
                    assert(earlier[i] == id);
                    assert(earlier.contains(id));
                    let k = choose|k: int|
                        0 <= k < shorter.len() && (#[trigger] shorter[k]).is_due(now)
                            && shorter[k].invitation_id.parsed == Ok::<InvitationId, String>(id);
                    assert(list[k] == shorter[k]);
                } else {
                    assert(list[list.len() - 1].is_due(now));
                }
            }
            if exists|k: int|
                0 <= k < list.len() && (#[trigger] list[k]).is_due(now)
                    && list[k].invitation_id.parsed == Ok::<InvitationId, String>(id) {
                let k = choose|k: int|
                    0 <= k < list.len() && (#[trigger] list[k]).is_due(now)
                        && list[k].invitation_id.parsed == Ok::<InvitationId, String>(id);
                if k < shorter.len() {
                    assert(shorter[k] == list[k]);
                    assert(earlier.contains(id));
                    let i = choose|i: int| 0 <= i < earlier.len() && earlier[i] == id;
                    assert(due[i] == id);
                } else {
                    assert(due[due.len() - 1] == id);
                }
            }
        }
    }
}

proof fn lemma_due_problem_stays(rows: Seq<ExpiryRow>, now: Timestamp, count: int)
    requires
        0 <= count <= rows.len(),
        first_due_problem(rows.take(count), now) is Some,
    ensures
        first_due_problem(rows, now) == first_due_problem(rows.take(count), now),
    decreases rows.len() - count,
{
    if count < rows.len() {
        assert(rows.take(count + 1).drop_last() =~= rows.take(count));
        lemma_due_problem_stays(rows, now, count + 1);
    } else {
        assert(rows.take(count) =~= rows);
    }
}

impl StateStore {
    /// The candidate for the check of a token.
    pub fn n4_invitation_candidate(
        &self,
        invitation_id: InvitationId,
        lifecycle: Option<N4Lifecycle>,
    ) -> (result: Result<N4InvitationCandidate, StateError>)
        ensures
            match result {
                Ok(candidate) => {
                    &&& candidate_problem(lifecycle, invitation_id@) is None
                    &&& candidate.invitation_id == invitation_id
                    &&& lifecycle->Some_0.invitation.record matches Ok(record) && {
                        &&& candidate.network_id == record.network_id
                        &&& candidate.state == record.state
                        &&& candidate.expires_at == record.expires_at
                        &&& candidate.secret_verifier@ == record.secret_verifier@
                    }
                    &&& candidate.revision == lifecycle->Some_0.details.revision
                    &&& is_context(candidate.context, lifecycle->Some_0.details)
                },
                Err(error) => candidate_problem(lifecycle, invitation_id@) == Some(error@),
            },
    {
        let stored = found(lifecycle, invitation_id.text.as_str())?;
        let invitation = decoded(stored.invitation.record)?;
        let context = stored_context(&stored.details)?;
        Ok(
            N4InvitationCandidate {
                invitation_id,
                network_id: invitation.network_id,
                revision: stored.details.revision,
                state: invitation.state,
                expires_at: invitation.expires_at,
                context,
                secret_verifier: SecretVerifier::new(invitation.secret_verifier),
            },
        )
    }

    /// What callers may see of an invitation.
    pub fn n4_invitation_view(
        &self,
        invitation_id: InvitationId,
        lifecycle: Option<N4Lifecycle>,
    ) -> (result: Result<N4InvitationView, StateError>)
        ensures
            match result {
                Ok(view) => {
                    &&& view_problem(lifecycle, invitation_id@) is None
                    &&& view.shows(invitation_id, lifecycle->Some_0)
                },
                Err(error) => view_problem(lifecycle, invitation_id@) == Some(error@),
            },
    {
        let stored = found(lifecycle, invitation_id.text.as_str())?;
        let ghost whole = stored;
        let invitation = decoded(stored.invitation.record)?;
        let cleanup_state = match &stored.metadata {
            Some(metadata) => parse_cleanup_state(metadata.invalidation_state.as_str())?,
            None => N4CleanupState::Absent,
        };
        assert(cleanup_state.text() == cleanup_text(whole));
        let consumed_at = n4_time(stored.details.consumed_at_ms)?;
        let revoked_at = n4_time(stored.details.revoked_at_ms)?;
        let expired_at = n4_time(stored.details.expired_at_ms)?;
        let context = stored_context(&stored.details)?;
        Ok(
            N4InvitationView {
                invitation_id,
                network_id: invitation.network_id,
                state: invitation.state,
                revision: stored.details.revision,
                roles: invitation.roles,
                join_constraints: invitation.join_constraints,
                created_at: invitation.created_at,
                expires_at: invitation.expires_at,
                max_uses: invitation.max_uses,
                used_count: stored.invitation.used_count,
                consumed_at,
                revoked_at,
                expired_at,
                cleanup_state,
                context,
            },
        )
    }

    /// What callers may see of the invitations of the fenced lifecycle in a
    /// network, by the times of their creation and their identifiers. `rows` are
    /// the stored invitations, in whatever order.
    pub fn list_n4_invitations(&self, network_id: &NetworkId, rows: Vec<ListedInvitation>) -> (result:
        Result<Vec<N4InvitationView>, StateError>)
        ensures
            ({
                let list = listing(rows@, network_id@);
                match result {
                    Ok(views) => {
                        &&& first_list_problem(list) is None
                        &&& views@.len() == list.len()
                        &&& forall|i: int|
                            0 <= i < views@.len() ==> (#[trigger] views@[i]).shows(
                                list[i].invitation_id.parsed->Ok_0,
                                list[i].lifecycle->Some_0,
                            )
                    },
                    Err(error) => first_list_problem(list) == Some(error@),
                }
            }),
    {
        let list = select_listing(rows, network_id);
        let ghost all = list@;
        let mut views: Vec<N4InvitationView> = Vec::new();
        assert(all.take(0) =~= Seq::<ListedInvitation>::empty());
        for item in it: list
            invariant
                it.seq() == all,
                all == list@,
                all == listing(rows@, network_id@),
                first_list_problem(all.take(it.index() as int)) is None,
                views@.len() == it.index(),
                forall|i: int|
                    0 <= i < views@.len() ==> (#[trigger] views@[i]).shows(
                        all[i].invitation_id.parsed->Ok_0,
                        all[i].lifecycle->Some_0,
                    ),
        {
            let ghost i = it.index() as int;
            proof {
                assert(item == all[i]);
                assert(all.take(i + 1).drop_last() =~= all.take(i));
                assert(all.take(i + 1).last() == item);
                if first_list_problem(all.take(i + 1)) is Some {
                    lemma_list_problem_stays(all, i + 1);
                }
            }
            let invitation_id = match accepted(item.invitation_id.parsed) {
                Ok(id) => id,
                Err(error) => return Err(error),
            };
            match self.n4_invitation_view(invitation_id, item.lifecycle) {
                Ok(view) => views.push(view),
                Err(error) => return Err(error),
            }
        }
        assert(all.take(all.len() as int) =~= all);
        Ok(views)
    }

    /// The invitations that are past their deadlines and were not ended yet, in
    /// the order of their identifiers. `rows` are the stored invitations of the
    /// lifecycle, in whatever order.
    pub fn expired_n4_invitation_ids(&self, now: Timestamp, rows: Vec<ExpiryRow>) -> (result: Result<
        Vec<InvitationId>,
        StateError,
    >)
        ensures
            match result {
                Ok(ids) => {
                    &&& first_due_problem(by_key(rows@), now) is None
                    &&& ids@ == due_ids(by_key(rows@), now)
                },
                Err(error) => first_due_problem(by_key(rows@), now) == Some(error@),
            },
    {
        let ordered = order_by_key(rows);
        let ghost all = ordered@;
        let text = now.to_rfc3339();
        let mut ids: Vec<InvitationId> = Vec::new();
        assert(all.take(0) =~= Seq::<ExpiryRow>::empty());
        assert(ids@ =~= due_ids(all.take(0), now));
        for row in it: ordered
            invariant
                it.seq() == all,
                all == ordered@,
                all == by_key(rows@),
                text@ == now.text(),
                first_due_problem(all.take(it.index() as int), now) is None,
                ids@ == due_ids(all.take(it.index() as int), now),
        {
            let ghost i = it.index() as int;
            proof {
                assert(row == all[i]);
                assert(all.take(i + 1).drop_last() =~= all.take(i));
                assert(all.take(i + 1).last() == row);
                if first_due_problem(all.take(i + 1), now) is Some {
                    lemma_due_problem_stays(all, now, i + 1);
                }
            }
            if !is_before(text.as_str(), row.expires_at.as_str()) && !same_text(
                row.state.as_str(),
                "expired",
            ) && !same_text(row.state.as_str(), "revoked") {
                match accepted(row.invitation_id.parsed) {
                    Ok(id) => ids.push(id),
                    Err(error) => return Err(error),
                }
            }
        }
        assert(all.take(all.len() as int) =~= all);
        Ok(ids)
    }
}

} // verus!
