//! Sets of provider mutation capabilities.

use crate::names::ProviderMutationCapability;
use vstd::prelude::*;

verus! {

/// A set of capabilities.
#[derive(Clone, Copy, Debug, PartialEq, Eq, Structural)]
pub struct CapabilitySet {
    ensure_network_principal: bool,
    create_join_credential: bool,
    invalidate_join_credential: bool,
    replace_node_tags: bool,
    expire_node: bool,
    delete_node: bool,
    manage_policy: bool,
}

/// The sequence of one item, or the empty one.
pub open spec fn listed_if(
    present: bool,
    capability: ProviderMutationCapability,
) -> Seq<ProviderMutationCapability> {
    if present {
        seq![capability]
    } else {
        Seq::empty()
    }
}

impl CapabilitySet {
    /// The capability is in the set.
    pub closed spec fn has(self, capability: ProviderMutationCapability) -> bool {
        match capability {
            ProviderMutationCapability::EnsureNetworkPrincipal => self.ensure_network_principal,
            ProviderMutationCapability::CreateJoinCredential => self.create_join_credential,
            ProviderMutationCapability::InvalidateJoinCredential => self.invalidate_join_credential,
            ProviderMutationCapability::ReplaceNodeTags => self.replace_node_tags,
            ProviderMutationCapability::ExpireNode => self.expire_node,
            ProviderMutationCapability::DeleteNode => self.delete_node,
            ProviderMutationCapability::ManagePolicy => self.manage_policy,
        }
    }

    /// The set holds nothing.
    pub open spec fn is_empty_set(self) -> bool {
        forall|capability: ProviderMutationCapability| !self.has(capability)
    }

    /// The capabilities of the set, each once.
    pub open spec fn listed(self) -> Seq<ProviderMutationCapability> {
        listed_if(
            self.has(ProviderMutationCapability::EnsureNetworkPrincipal),
            ProviderMutationCapability::EnsureNetworkPrincipal,
        ) + listed_if(
            self.has(ProviderMutationCapability::CreateJoinCredential),
            ProviderMutationCapability::CreateJoinCredential,
        ) + listed_if(
            self.has(ProviderMutationCapability::InvalidateJoinCredential),
            ProviderMutationCapability::InvalidateJoinCredential,
        ) + listed_if(
            self.has(ProviderMutationCapability::ReplaceNodeTags),
            ProviderMutationCapability::ReplaceNodeTags,
        ) + listed_if(
            self.has(ProviderMutationCapability::ExpireNode),
            ProviderMutationCapability::ExpireNode,
        ) + listed_if(
            self.has(ProviderMutationCapability::DeleteNode),
            ProviderMutationCapability::DeleteNode,
        ) + listed_if(
            self.has(ProviderMutationCapability::ManagePolicy),
            ProviderMutationCapability::ManagePolicy,
        )
    }

    /// The set without capabilities.
    pub fn empty() -> (set: Self)
        ensures
            set.is_empty_set(),
    {
        CapabilitySet {
            ensure_network_principal: false,
            create_join_credential: false,
            invalidate_join_credential: false,
            replace_node_tags: false,
            expire_node: false,
            delete_node: false,
            manage_policy: false,
        }
    }

    /// Adds a capability.
    pub fn insert(&mut self, capability: ProviderMutationCapability)
        ensures
            forall|other: ProviderMutationCapability| #[trigger]
                final(self).has(other) == (old(self).has(other) || other == capability),
    {
        match capability {
            ProviderMutationCapability::EnsureNetworkPrincipal => self.ensure_network_principal =
            true,
            ProviderMutationCapability::CreateJoinCredential => self.create_join_credential = true,
            ProviderMutationCapability::InvalidateJoinCredential => self.invalidate_join_credential =
            true,
            ProviderMutationCapability::ReplaceNodeTags => self.replace_node_tags = true,
            ProviderMutationCapability::ExpireNode => self.expire_node = true,
            ProviderMutationCapability::DeleteNode => self.delete_node = true,
            ProviderMutationCapability::ManagePolicy => self.manage_policy = true,
        }
    }

    /// The set of the capabilities in a list.
    pub fn from_list(list: &Vec<ProviderMutationCapability>) -> (set: Self)
        ensures
            forall|capability: ProviderMutationCapability| #[trigger]
                set.has(capability) == list@.contains(capability),
    {
        let mut set = CapabilitySet::empty();
        for i in 0..list.len()
            invariant
                forall|capability: ProviderMutationCapability| #[trigger]
                    set.has(capability) == list@.take(i as int).contains(capability),
        {
            let ghost before = set;
            set.insert(list[i]);
            assert forall|capability: ProviderMutationCapability| #[trigger]
                set.has(capability) == list@.take(i + 1).contains(capability) by {
                let shorter = list@.take(i as int);
                let longer = list@.take(i + 1);
                assert(longer =~= shorter.push(list@[i as int]));
                if shorter.contains(capability) {
                    let k = choose|k: int| 0 <= k < shorter.len() && shorter[k] == capability;
                    assert(longer[k] == capability);
                }
                assert(longer[i as int] == list@[i as int]);
            }
        }
        assert(list@.take(list@.len() as int) =~= list@);
        set
    }

    /// Whether the capability is in the set.
    pub fn contains(&self, capability: ProviderMutationCapability) -> (found: bool)
        ensures
            found == self.has(capability),
    {
        match capability {
            ProviderMutationCapability::EnsureNetworkPrincipal => self.ensure_network_principal,
            ProviderMutationCapability::CreateJoinCredential => self.create_join_credential,
            ProviderMutationCapability::InvalidateJoinCredential => self.invalidate_join_credential,
            ProviderMutationCapability::ReplaceNodeTags => self.replace_node_tags,
            ProviderMutationCapability::ExpireNode => self.expire_node,
            ProviderMutationCapability::DeleteNode => self.delete_node,
            ProviderMutationCapability::ManagePolicy => self.manage_policy,
        }
    }

    /// Whether the set holds nothing.
    pub fn is_empty(&self) -> (empty: bool)
        ensures
            empty == self.is_empty_set(),
    {
        let empty = !(self.ensure_network_principal || self.create_join_credential
            || self.invalidate_join_credential || self.replace_node_tags || self.expire_node
            || self.delete_node || self.manage_policy);
        if !empty {
            assert(self.has(ProviderMutationCapability::EnsureNetworkPrincipal) || self.has(
                ProviderMutationCapability::CreateJoinCredential,
            ) || self.has(ProviderMutationCapability::InvalidateJoinCredential) || self.has(
                ProviderMutationCapability::ReplaceNodeTags,
            ) || self.has(ProviderMutationCapability::ExpireNode) || self.has(
                ProviderMutationCapability::DeleteNode,
            ) || self.has(ProviderMutationCapability::ManagePolicy));
        }
        empty
    }

    /// The capabilities of the set, each once.
    pub fn list(&self) -> (list: Vec<ProviderMutationCapability>)
        ensures
            list@ == self.listed(),
    {
        let mut list: Vec<ProviderMutationCapability> = Vec::new();
        if self.ensure_network_principal {
            list.push(ProviderMutationCapability::EnsureNetworkPrincipal);
        }
        if self.create_join_credential {
            list.push(ProviderMutationCapability::CreateJoinCredential);
        }
        if self.invalidate_join_credential {
            list.push(ProviderMutationCapability::InvalidateJoinCredential);
        }
        if self.replace_node_tags {
            list.push(ProviderMutationCapability::ReplaceNodeTags);
        }
        if self.expire_node {
            list.push(ProviderMutationCapability::ExpireNode);
        }
        if self.delete_node {
            list.push(ProviderMutationCapability::DeleteNode);
        }
        if self.manage_policy {
            list.push(ProviderMutationCapability::ManagePolicy);
        }
        assert(list@ =~= self.listed());
        list
    }
}

/// The listed capabilities are those of the set.
pub proof fn lemma_listed_are_members(set: CapabilitySet)
    ensures
        forall|capability: ProviderMutationCapability| #[trigger]
            set.listed().contains(capability) == set.has(capability),
{
    let a = listed_if(
        set.has(ProviderMutationCapability::EnsureNetworkPrincipal),
        ProviderMutationCapability::EnsureNetworkPrincipal,
    );
    let b = listed_if(
        set.has(ProviderMutationCapability::CreateJoinCredential),
        ProviderMutationCapability::CreateJoinCredential,
    );
    let c = listed_if(
        set.has(ProviderMutationCapability::InvalidateJoinCredential),
        ProviderMutationCapability::InvalidateJoinCredential,
    );
    let d = listed_if(
        set.has(ProviderMutationCapability::ReplaceNodeTags),
        ProviderMutationCapability::ReplaceNodeTags,
    );
    let e = listed_if(
        set.has(ProviderMutationCapability::ExpireNode),
        ProviderMutationCapability::ExpireNode,
    );
    let f = listed_if(
        set.has(ProviderMutationCapability::DeleteNode),
        ProviderMutationCapability::DeleteNode,
    );
    let g = listed_if(
        set.has(ProviderMutationCapability::ManagePolicy),
        ProviderMutationCapability::ManagePolicy,
    );
    assert forall|capability: ProviderMutationCapability| #[trigger]
        set.listed().contains(capability) == set.has(capability) by {
        lemma_listed_if(
            set.has(ProviderMutationCapability::EnsureNetworkPrincipal),
            ProviderMutationCapability::EnsureNetworkPrincipal,
            capability,
        );
        lemma_listed_if(
            set.has(ProviderMutationCapability::CreateJoinCredential),
            ProviderMutationCapability::CreateJoinCredential,
            capability,
        );
        lemma_listed_if(
            set.has(ProviderMutationCapability::InvalidateJoinCredential),
            ProviderMutationCapability::InvalidateJoinCredential,
            capability,
        );
        lemma_listed_if(
            set.has(ProviderMutationCapability::ReplaceNodeTags),
            ProviderMutationCapability::ReplaceNodeTags,
            capability,
        );
        lemma_listed_if(
            set.has(ProviderMutationCapability::ExpireNode),
            ProviderMutationCapability::ExpireNode,
            capability,
        );
        lemma_listed_if(
            set.has(ProviderMutationCapability::DeleteNode),
            ProviderMutationCapability::DeleteNode,
            capability,
        );
        lemma_listed_if(
            set.has(ProviderMutationCapability::ManagePolicy),
            ProviderMutationCapability::ManagePolicy,
            capability,
        );
        lemma_contains_either(a, b, capability);
        lemma_contains_either(a + b, c, capability);
        lemma_contains_either(a + b + c, d, capability);
        lemma_contains_either(a + b + c + d, e, capability);
        lemma_contains_either(a + b + c + d + e, f, capability);
        lemma_contains_either(a + b + c + d + e + f, g, capability);
    }
}

proof fn lemma_listed_if(
    present: bool,
    capability: ProviderMutationCapability,
    wanted: ProviderMutationCapability,
)
    ensures
        listed_if(present, capability).contains(wanted) == (present && wanted == capability),
{
    if present {
        assert(listed_if(present, capability)[0] == capability);
    }
}

proof fn lemma_contains_either(
    left: Seq<ProviderMutationCapability>,
    right: Seq<ProviderMutationCapability>,
    wanted: ProviderMutationCapability,
)
    ensures
        (left + right).contains(wanted) == (left.contains(wanted) || right.contains(wanted)),
{
    if left.contains(wanted) {
        let i = choose|i: int| 0 <= i < left.len() && left[i] == wanted;
        assert((left + right)[i] == wanted);
    }
    if right.contains(wanted) {
        let i = choose|i: int| 0 <= i < right.len() && right[i] == wanted;
        assert((left + right)[left.len() + i] == wanted);
    }
    if (left + right).contains(wanted) {
        let i = choose|i: int| 0 <= i < (left + right).len() && (left + right)[i] == wanted;
        if i < left.len() {
            assert(left[i] == wanted);
        } else {
            assert(right[i - left.len()] == wanted);
        }
    }
}

} // verus!
