//! The neighbor table of a node, and the records a node is provisioned with.
use vstd::prelude::*;
use crate::seqs::{first_index, lemma_first_index, lemma_first_index_at};
use super::frame::{NodeId, SwarmCredential, SwarmError};

verus! {

/// A neighbor: its node, role, session generation, and whether it was revoked.
#[derive(Clone, Copy, Debug, PartialEq, Eq, Structural)]
pub struct NeighborEntry {
    pub node_id: NodeId,
    pub role: u8,
    pub session_generation: u16,
    pub revoked: bool,
}

impl NeighborEntry {
    pub fn new(node_id: NodeId, role: u8, session_generation: u16) -> (out: Self)
        ensures
            out == (NeighborEntry { node_id, role, session_generation, revoked: false }),
    {
        NeighborEntry { node_id, role, session_generation, revoked: false }
    }

    pub fn node_id(&self) -> (out: NodeId)
        ensures
            out == self.node_id,
    {
        self.node_id
    }

    pub fn role(&self) -> (out: u8)
        ensures
            out == self.role,
    {
        self.role
    }
}

pub open spec fn add_slot(node: NodeId) -> spec_fn(Option<NeighborEntry>) -> bool {
    |o: Option<NeighborEntry>| o is None || o->Some_0.node_id == node
}

pub open spec fn entry_of(node: NodeId) -> spec_fn(Option<NeighborEntry>) -> bool {
    |o: Option<NeighborEntry>| o is Some && o->Some_0.node_id == node
}

pub open spec fn live_role(role: u8) -> spec_fn(Option<NeighborEntry>) -> bool {
    |o: Option<NeighborEntry>| o is Some && o->Some_0.role == role && !o->Some_0.revoked
}

/// Adding a neighbor: it takes the first slot that is free or already holds its node.
pub open spec fn spec_neighbor_add(s: Seq<Option<NeighborEntry>>, entry: NeighborEntry) -> Result<Seq<Option<NeighborEntry>>, SwarmError> {
    let i = first_index(s, add_slot(entry.node_id));
    if i < s.len() {
        Ok(s.update(i, Some(entry)))
    } else {
        Err(SwarmError::TableFull)
    }
}

/// The node of the first neighbor that holds `role` and is not revoked.
pub open spec fn spec_node_for_role(s: Seq<Option<NeighborEntry>>, role: u8) -> Result<NodeId, SwarmError> {
    let i = first_index(s, live_role(role));
    if i < s.len() {
        Ok(s[i]->Some_0.node_id)
    } else {
        Err(SwarmError::BadRole)
    }
}

/// Checking a node at a session generation against its first entry.
pub open spec fn spec_neighbor_validate(s: Seq<Option<NeighborEntry>>, node: NodeId, generation: u16) -> Result<(), SwarmError> {
    let i = first_index(s, entry_of(node));
    if i >= s.len() {
        Err(SwarmError::BadNode)
    } else if s[i]->Some_0.revoked {
        Err(SwarmError::Revoked)
    } else if s[i]->Some_0.session_generation != generation {
        Err(SwarmError::BadGeneration)
    } else {
        Ok(())
    }
}

pub open spec fn revoked_at(s: Seq<Option<NeighborEntry>>, i: int) -> Seq<Option<NeighborEntry>> {
    s.update(i, Some(NeighborEntry { revoked: true, ..s[i]->Some_0 }))
}

/// Revoking a node's first entry.
pub open spec fn spec_neighbor_revoke(s: Seq<Option<NeighborEntry>>, node: NodeId) -> Result<Seq<Option<NeighborEntry>>, SwarmError> {
    let i = first_index(s, entry_of(node));
    if i >= s.len() {
        Err(SwarmError::BadNode)
    } else {
        Ok(revoked_at(s, i))
    }
}

/// Revoking a node's first entry only at the session generation it holds, and only once.
pub open spec fn spec_neighbor_revoke_generation(s: Seq<Option<NeighborEntry>>, node: NodeId, generation: u16) -> Result<Seq<Option<NeighborEntry>>, SwarmError> {
    match spec_neighbor_validate(s, node, generation) {
        Err(e) => Err(e),
        Ok(_) => Ok(revoked_at(s, first_index(s, entry_of(node)))),
    }
}

/// A table of up to `N` neighbors.
pub struct NeighborTable<const N: usize> {
    entries: Vec<Option<NeighborEntry>>,
}

impl<const N: usize> NeighborTable<N> {
    pub closed spec fn view(&self) -> Seq<Option<NeighborEntry>> {
        self.entries@
    }

    pub open spec fn wf(&self) -> bool {
        self.view().len() == N
    }

    pub fn new() -> (out: Self)
        ensures
            out.wf(),
            out.view() == Seq::new(N as nat, |i: int| None::<NeighborEntry>),
    {
        let mut entries: Vec<Option<NeighborEntry>> = Vec::new();
        let mut i: usize = 0;
        while i < N
            invariant
                i <= N,
                entries@ == Seq::new(i as nat, |k: int| None::<NeighborEntry>),
            decreases N - i,
        {
            entries.push(None);
            i = i + 1;
            assert(entries@ =~= Seq::new(i as nat, |k: int| None::<NeighborEntry>));
        }
        NeighborTable { entries }
    }

    fn find(&self, p: Ghost<spec_fn(Option<NeighborEntry>) -> bool>, node: NodeId, by_add: bool) -> (out: usize)
        requires
            p@ == (if by_add { add_slot(node) } else { entry_of(node) }),
        ensures
            out == first_index(self.view(), p@),
            out < self.view().len() ==> p@(self.view()[out as int]),
            out <= self.view().len(),
    {
        let n = self.entries.len();
        let mut i: usize = 0;
        while i < n
            invariant
                n == self.view().len(),
                p@ == (if by_add { add_slot(node) } else { entry_of(node) }),
                i <= n,
                forall|j: int| 0 <= j < i ==> !(#[trigger] p@(self.view()[j])),
            decreases n - i,
        {
            let hit = match self.entries[i] {
                Some(e) => e.node_id == node,
                None => by_add,
            };
            if hit {
                proof {
                    lemma_first_index_at(self.view(), p@, i as int);
                }
                return i;
            }
            i = i + 1;
        }
        proof {
            lemma_first_index(self.view(), p@);
        }
        n
    }

    pub fn add(&mut self, entry: NeighborEntry) -> (out: Result<(), SwarmError>)
        requires
            old(self).wf(),
        ensures
            final(self).wf(),
            match spec_neighbor_add(old(self).view(), entry) {
                Ok(s) => out is Ok && final(self).view() == s,
                Err(e) => out == Err::<(), SwarmError>(e) && final(self).view() == old(self).view(),
            },
    {
        let i = self.find(Ghost(add_slot(entry.node_id)), entry.node_id, true);
        if i == self.entries.len() {
            return Err(SwarmError::TableFull);
        }
        self.entries.set(i, Some(entry));
        Ok(())
    }

    pub fn node_for_role(&self, role: u8) -> (out: Result<NodeId, SwarmError>)
        ensures
            out == spec_node_for_role(self.view(), role),
    {
        let n = self.entries.len();
        let mut i: usize = 0;
        while i < n
            invariant
                n == self.view().len(),
                i <= n,
                forall|j: int| 0 <= j < i ==> !(#[trigger] live_role(role)(self.view()[j])),
            decreases n - i,
        {
            match self.entries[i] {
                Some(e) => {
                    if e.role == role && !e.revoked {
                        proof {
                            lemma_first_index_at(self.view(), live_role(role), i as int);
                        }
                        return Ok(e.node_id);
                    }
                },
                None => {},
            }
            i = i + 1;
        }
        proof {
            lemma_first_index(self.view(), live_role(role));
        }
        Err(SwarmError::BadRole)
    }

    pub fn validate(&self, node_id: NodeId, generation: u16) -> (out: Result<(), SwarmError>)
        ensures
            out == spec_neighbor_validate(self.view(), node_id, generation),
    {
        let i = self.find(Ghost(entry_of(node_id)), node_id, false);
        if i == self.entries.len() {
            return Err(SwarmError::BadNode);
        }
        let entry = match self.entries[i] {
            Some(e) => e,
            None => return Err(SwarmError::BadNode),
        };
        if entry.revoked {
            return Err(SwarmError::Revoked);
        }
        if entry.session_generation != generation {
            return Err(SwarmError::BadGeneration);
        }
        Ok(())
    }

    pub fn revoke(&mut self, node_id: NodeId) -> (out: Result<(), SwarmError>)
        requires
            old(self).wf(),
        ensures
            final(self).wf(),
            match spec_neighbor_revoke(old(self).view(), node_id) {
                Ok(s) => out is Ok && final(self).view() == s,
                Err(e) => out == Err::<(), SwarmError>(e) && final(self).view() == old(self).view(),
            },
    {
        let i = self.find(Ghost(entry_of(node_id)), node_id, false);
        if i == self.entries.len() {
            return Err(SwarmError::BadNode);
        }
        let entry = match self.entries[i] {
            Some(e) => e,
            None => return Err(SwarmError::BadNode),
        };
        self.entries.set(i, Some(NeighborEntry { revoked: true, ..entry }));
        Ok(())
    }

    pub fn revoke_generation(&mut self, node_id: NodeId, generation: u16) -> (out: Result<(), SwarmError>)
        requires
            old(self).wf(),
        ensures
            final(self).wf(),
            match spec_neighbor_revoke_generation(old(self).view(), node_id, generation) {
                Ok(s) => out is Ok && final(self).view() == s,
                Err(e) => out == Err::<(), SwarmError>(e) && final(self).view() == old(self).view(),
            },
    {
        let i = self.find(Ghost(entry_of(node_id)), node_id, false);
        if i == self.entries.len() {
            return Err(SwarmError::BadNode);
        }
        let entry = match self.entries[i] {
            Some(e) => e,
            None => return Err(SwarmError::BadNode),
        };
        if entry.revoked {
            return Err(SwarmError::Revoked);
        }
        if entry.session_generation != generation {
            return Err(SwarmError::BadGeneration);
        }
        self.entries.set(i, Some(NeighborEntry { revoked: true, ..entry }));
        Ok(())
    }
}

impl<const N: usize> Default for NeighborTable<N> {
    fn default() -> (out: Self)
        ensures
            out.wf(),
            out.view() == Seq::new(N as nat, |i: int| None::<NeighborEntry>),
    {
        Self::new()
    }
}

/// A revoked neighbor no longer validates at any generation, and revoking it again at a generation is refused.
pub proof fn lemma_revoked_neighbor_is_refused(s: Seq<Option<NeighborEntry>>, node: NodeId, generation: u16)
    requires
        spec_neighbor_revoke(s, node) is Ok,
    ensures
        spec_neighbor_validate(spec_neighbor_revoke(s, node)->Ok_0, node, generation)
            == Err::<(), SwarmError>(SwarmError::Revoked),
        spec_neighbor_revoke_generation(spec_neighbor_revoke(s, node)->Ok_0, node, generation)
            == Err::<Seq<Option<NeighborEntry>>, SwarmError>(SwarmError::Revoked),
{
    let i = first_index(s, entry_of(node));
    lemma_first_index(s, entry_of(node));
    let t = revoked_at(s, i);
    assert forall|j: int| 0 <= j < i implies !(#[trigger] entry_of(node)(t[j])) by {
        assert(t[j] == s[j]);
    }
    lemma_first_index_at(t, entry_of(node), i);
}

/// What a node receives over BLE when it is provisioned.
#[derive(Clone, Copy, Debug, PartialEq, Eq, Structural)]
pub struct BleProvisioningBundle {
    pub node_id: NodeId,
    pub credential: SwarmCredential,
    pub role_mask: u16,
    pub wifi_credentials_installed: bool,
}

impl BleProvisioningBundle {
    pub fn new(node_id: NodeId, credential: SwarmCredential, role_mask: u16) -> (out: Self)
        ensures
            out == (BleProvisioningBundle { node_id, credential, role_mask, wifi_credentials_installed: false }),
    {
        BleProvisioningBundle { node_id, credential, role_mask, wifi_credentials_installed: false }
    }

    pub fn with_wifi_credentials(self) -> (out: Self)
        ensures
            out == (BleProvisioningBundle { wifi_credentials_installed: true, ..self }),
    {
        BleProvisioningBundle { wifi_credentials_installed: true, ..self }
    }

    pub fn node_id(&self) -> (out: NodeId)
        ensures
            out == self.node_id,
    {
        self.node_id
    }

    pub fn credential(&self) -> (out: SwarmCredential)
        ensures
            out == self.credential,
    {
        self.credential
    }

    pub fn role_mask(&self) -> (out: u16)
        ensures
            out == self.role_mask,
    {
        self.role_mask
    }

    pub fn wifi_credentials_installed(&self) -> (out: bool)
        ensures
            out == self.wifi_credentials_installed,
    {
        self.wifi_credentials_installed
    }
}

/// A node's provisioning state: who it is, its key and roles, and how far joining went.
#[derive(Clone, Copy, Debug, PartialEq, Eq, Structural)]
pub struct ProvisioningRecord {
    pub node_id: NodeId,
    pub credential: SwarmCredential,
    pub role_mask: u16,
    pub wifi_configured: bool,
    pub join_triggered: bool,
}

impl ProvisioningRecord {
    pub fn new(node_id: NodeId, credential: SwarmCredential, role_mask: u16) -> (out: Self)
        ensures
            out == (ProvisioningRecord { node_id, credential, role_mask, wifi_configured: false, join_triggered: false }),
    {
        ProvisioningRecord { node_id, credential, role_mask, wifi_configured: false, join_triggered: false }
    }

    pub fn from_ble(bundle: BleProvisioningBundle) -> (out: Self)
        ensures
            out == (ProvisioningRecord {
                node_id: bundle.node_id,
                credential: bundle.credential,
                role_mask: bundle.role_mask,
                wifi_configured: bundle.wifi_credentials_installed,
                join_triggered: false,
            }),
    {
        ProvisioningRecord {
            node_id: bundle.node_id(),
            credential: bundle.credential(),
            role_mask: bundle.role_mask(),
            wifi_configured: bundle.wifi_credentials_installed(),
            join_triggered: false,
        }
    }

    pub fn install_wifi_credentials(&mut self)
        ensures
            *final(self) == (ProvisioningRecord { wifi_configured: true, ..*old(self) }),
    {
        self.wifi_configured = true;
    }

    /// Joining needs WiFi credentials first.
    pub fn trigger_join(&mut self) -> (out: Result<(), SwarmError>)
        ensures
            old(self).wifi_configured ==> out is Ok && *final(self) == (ProvisioningRecord { join_triggered: true, ..*old(self) }),
            !old(self).wifi_configured ==> out == Err::<(), SwarmError>(SwarmError::BadNode) && *final(self) == *old(self),
    {
        if !self.wifi_configured {
            return Err(SwarmError::BadNode);
        }
        self.join_triggered = true;
        Ok(())
    }

    pub fn node_id(&self) -> (out: NodeId)
        ensures
            out == self.node_id,
    {
        self.node_id
    }

    pub fn role_mask(&self) -> (out: u16)
        ensures
            out == self.role_mask,
    {
        self.role_mask
    }

    pub fn credential(&self) -> (out: SwarmCredential)
        ensures
            out == self.credential,
    {
        self.credential
    }

    pub fn wifi_configured(&self) -> (out: bool)
        ensures
            out == self.wifi_configured,
    {
        self.wifi_configured
    }

    pub fn join_triggered(&self) -> (out: bool)
        ensures
            out == self.join_triggered,
    {
        self.join_triggered
    }
}


/// The node answered for a role is one that holds the role and has not been revoked, and a
/// role is answered whenever some such node is in the table: a node that left (and was
/// revoked) is never answered for its role.
pub proof fn lemma_node_for_role_is_a_live_holder(s: Seq<Option<NeighborEntry>>, role: u8)
    ensures
        spec_node_for_role(s, role) matches Ok(n) ==> exists|i: int|
            0 <= i < s.len() && #[trigger] s[i] is Some && s[i]->Some_0.node_id == n
                && s[i]->Some_0.role == role && !s[i]->Some_0.revoked,
        spec_node_for_role(s, role) is Err <==> forall|i: int| 0 <= i < s.len() && #[trigger] s[i] is Some
            && s[i]->Some_0.role == role ==> s[i]->Some_0.revoked,
{
    lemma_first_index(s, live_role(role));
    let i = first_index(s, live_role(role));
    if i < s.len() {
        assert(s[i] is Some);
    } else {
        assert forall|j: int| 0 <= j < s.len() && #[trigger] s[j] is Some && s[j]->Some_0.role == role
            implies s[j]->Some_0.revoked by {
            assert(!live_role(role)(s[j]));
        }
    }
}

} // verus!
