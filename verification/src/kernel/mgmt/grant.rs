//! Install grants: a tag over the node, session, slot and image generation under the swarm key.
use vstd::prelude::*;
use crate::kernel::swarm::{NodeId, SwarmCredential, rotl5};
use super::ImageSlotError;

verus! {

/// The tag a grant carries for these fields under `key`.
pub open spec fn spec_install_tag(node_id: NodeId, key: u32, session_generation: u16, slot: u8, image_generation: u32) -> u32 {
    let a0 = key ^ 0x4d47_4d54u32;
    let a1 = rotl5(a0) ^ (node_id.0 as u32);
    let a2 = rotl5(a1) ^ (session_generation as u32);
    let a3 = rotl5(a2) ^ (slot as u32);
    rotl5(a3) ^ image_generation
}

/// A grant to install an image generation into a slot of a node during a session.
#[derive(Clone, Copy, Debug, PartialEq, Eq, Structural)]
pub struct MgmtInstallGrant {
    pub node_id: NodeId,
    pub session_generation: u16,
    pub slot: u8,
    pub image_generation: u32,
    pub tag: u32,
}

/// Checking a grant against the node, key, session, slot and image generation a request names.
pub open spec fn spec_grant_verify(g: MgmtInstallGrant, node_id: NodeId, credential: SwarmCredential, session_generation: u16, slot: u8, image_generation: u32) -> Result<(), ImageSlotError> {
    if g.session_generation != session_generation {
        Err(ImageSlotError::BadSessionGeneration)
    } else if g.node_id != node_id || g.slot != slot || g.image_generation != image_generation {
        Err(ImageSlotError::AuthFailed)
    } else if g.tag != spec_install_tag(node_id, credential.key, session_generation, slot, image_generation) {
        Err(ImageSlotError::AuthFailed)
    } else {
        Ok(())
    }
}

fn rotate5(x: u32) -> (out: u32)
    ensures
        out == rotl5(x),
{
    (x << 5u32) | (x >> 27u32)
}

impl MgmtInstallGrant {
    pub fn new(node_id: NodeId, credential: SwarmCredential, session_generation: u16, slot: u8, image_generation: u32) -> (out: Self)
        ensures
            out == (MgmtInstallGrant {
                node_id,
                session_generation,
                slot,
                image_generation,
                tag: spec_install_tag(node_id, credential.key, session_generation, slot, image_generation),
            }),
    {
        MgmtInstallGrant {
            node_id,
            session_generation,
            slot,
            image_generation,
            tag: Self::compute_tag(node_id, credential, session_generation, slot, image_generation),
        }
    }

    pub fn node_id(&self) -> (out: NodeId)
        ensures
            out == self.node_id,
    {
        self.node_id
    }

    pub fn session_generation(&self) -> (out: u16)
        ensures
            out == self.session_generation,
    {
        self.session_generation
    }

    pub fn slot(&self) -> (out: u8)
        ensures
            out == self.slot,
    {
        self.slot
    }

    pub fn image_generation(&self) -> (out: u32)
        ensures
            out == self.image_generation,
    {
        self.image_generation
    }

    pub fn tag(&self) -> (out: u32)
        ensures
            out == self.tag,
    {
        self.tag
    }

    pub(crate) fn verify(self, node_id: NodeId, credential: SwarmCredential, session_generation: u16, slot: u8, image_generation: u32) -> (out: Result<(), ImageSlotError>)
        ensures
            out == spec_grant_verify(self, node_id, credential, session_generation, slot, image_generation),
    {
        if self.session_generation != session_generation {
            return Err(ImageSlotError::BadSessionGeneration);
        }
        if self.node_id != node_id || self.slot != slot || self.image_generation != image_generation {
            return Err(ImageSlotError::AuthFailed);
        }
        if self.tag != Self::compute_tag(node_id, credential, session_generation, slot, image_generation) {
            return Err(ImageSlotError::AuthFailed);
        }
        Ok(())
    }

    fn compute_tag(node_id: NodeId, credential: SwarmCredential, session_generation: u16, slot: u8, image_generation: u32) -> (out: u32)
        ensures
            out == spec_install_tag(node_id, credential.key, session_generation, slot, image_generation),
    {
        let mut acc = credential.key ^ 0x4d47_4d54u32;
        acc = rotate5(acc) ^ (node_id.0 as u32);
        acc = rotate5(acc) ^ (session_generation as u32);
        acc = rotate5(acc) ^ (slot as u32);
        acc = rotate5(acc) ^ image_generation;
        acc
    }
}

/// A management control fact.
#[derive(Clone, Copy, Debug, PartialEq, Eq, Structural)]
pub enum MgmtControl {
    InstallGrant(MgmtInstallGrant),
}

impl MgmtControl {
    pub fn install_grant(node_id: NodeId, credential: SwarmCredential, session_generation: u16, slot: u8, image_generation: u32) -> (out: Self)
        ensures
            out == MgmtControl::InstallGrant(MgmtInstallGrant {
                node_id,
                session_generation,
                slot,
                image_generation,
                tag: spec_install_tag(node_id, credential.key, session_generation, slot, image_generation),
            }),
    {
        MgmtControl::InstallGrant(MgmtInstallGrant::new(node_id, credential, session_generation, slot, image_generation))
    }
}

/// A grant made for a node, key, session, slot and image generation verifies for exactly those,
/// and is refused for another session generation or another slot.
pub proof fn lemma_grant_verifies_for_what_it_names(node_id: NodeId, credential: SwarmCredential, session_generation: u16, slot: u8, image_generation: u32, other_generation: u16, other_slot: u8)
    requires
        other_generation != session_generation,
        other_slot != slot,
    ensures
        ({
            let g = MgmtInstallGrant {
                node_id,
                session_generation,
                slot,
                image_generation,
                tag: spec_install_tag(node_id, credential.key, session_generation, slot, image_generation),
            };
            &&& spec_grant_verify(g, node_id, credential, session_generation, slot, image_generation) == Ok::<(), ImageSlotError>(())
            &&& spec_grant_verify(g, node_id, credential, other_generation, slot, image_generation)
                == Err::<(), ImageSlotError>(ImageSlotError::BadSessionGeneration)
            &&& spec_grant_verify(g, node_id, credential, session_generation, other_slot, image_generation)
                == Err::<(), ImageSlotError>(ImageSlotError::AuthFailed)
        }),
{
}

} // verus!
