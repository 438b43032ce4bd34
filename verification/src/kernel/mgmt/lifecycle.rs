//! When an image may be activated: the boundary facts, and a topology change that must be
//! begun, acknowledged and committed at one generation.
use vstd::prelude::*;

verus! {

/// What is fenced or quiesced at the point an image would be activated.
#[derive(Clone, Copy, Debug, PartialEq, Eq, Structural)]
pub struct ActivationBoundary {
    pub memory_leases_fenced: bool,
    pub interrupt_subscriptions_fenced: bool,
    pub remote_objects_quiesced: bool,
    pub memory_epoch: u32,
}

impl ActivationBoundary {
    pub fn new(memory_leases_fenced: bool, interrupt_subscriptions_fenced: bool, remote_objects_quiesced: bool, memory_epoch: u32) -> (out: Self)
        ensures
            out == (ActivationBoundary { memory_leases_fenced, interrupt_subscriptions_fenced, remote_objects_quiesced, memory_epoch }),
    {
        ActivationBoundary { memory_leases_fenced, interrupt_subscriptions_fenced, remote_objects_quiesced, memory_epoch }
    }

    /// A single node has no remote objects to quiesce.
    pub fn single_node(memory_leases_fenced: bool, interrupt_subscriptions_fenced: bool, memory_epoch: u32) -> (out: Self)
        ensures
            out == (ActivationBoundary { memory_leases_fenced, interrupt_subscriptions_fenced, remote_objects_quiesced: true, memory_epoch }),
    {
        Self::new(memory_leases_fenced, interrupt_subscriptions_fenced, true, memory_epoch)
    }

    pub fn memory_leases_fenced(&self) -> (out: bool)
        ensures
            out == self.memory_leases_fenced,
    {
        self.memory_leases_fenced
    }

    pub fn interrupt_subscriptions_fenced(&self) -> (out: bool)
        ensures
            out == self.interrupt_subscriptions_fenced,
    {
        self.interrupt_subscriptions_fenced
    }

    pub fn remote_objects_quiesced(&self) -> (out: bool)
        ensures
            out == self.remote_objects_quiesced,
    {
        self.remote_objects_quiesced
    }

    pub fn memory_epoch(&self) -> (out: u32)
        ensures
            out == self.memory_epoch,
    {
        self.memory_epoch
    }

    pub open spec fn spec_is_safe(&self) -> bool {
        self.memory_leases_fenced && self.interrupt_subscriptions_fenced && self.remote_objects_quiesced
    }

    pub fn is_safe(&self) -> (out: bool)
        ensures
            out == self.spec_is_safe(),
    {
        self.memory_leases_fenced && self.interrupt_subscriptions_fenced && self.remote_objects_quiesced
    }
}

/// Why a topology step is refused.
#[derive(Clone, Copy, Debug, PartialEq, Eq, Structural)]
pub enum TopologyLifecycleError {
    MissingBegin,
    MissingAck,
    MissingCommit,
    GenerationMismatch,
}

/// A topology change at one generation: begun, acknowledged, committed.
#[derive(Clone, Copy, Debug, PartialEq, Eq, Structural)]
pub struct TopologyLifecycle {
    pub generation: u32,
    pub began: bool,
    pub acked: bool,
    pub committed: bool,
}

impl TopologyLifecycle {
    pub open spec fn spec_begin(self, generation: u32) -> Result<Self, TopologyLifecycleError> {
        if self.generation != generation {
            Err(TopologyLifecycleError::GenerationMismatch)
        } else {
            Ok(TopologyLifecycle { began: true, ..self })
        }
    }

    pub open spec fn spec_ack(self, generation: u32) -> Result<Self, TopologyLifecycleError> {
        if self.generation != generation {
            Err(TopologyLifecycleError::GenerationMismatch)
        } else if !self.began {
            Err(TopologyLifecycleError::MissingBegin)
        } else {
            Ok(TopologyLifecycle { acked: true, ..self })
        }
    }

    pub open spec fn spec_commit(self, generation: u32) -> Result<Self, TopologyLifecycleError> {
        if self.generation != generation {
            Err(TopologyLifecycleError::GenerationMismatch)
        } else if !self.began {
            Err(TopologyLifecycleError::MissingBegin)
        } else if !self.acked {
            Err(TopologyLifecycleError::MissingAck)
        } else {
            Ok(TopologyLifecycle { committed: true, ..self })
        }
    }

    pub open spec fn spec_require_committed(self, generation: u32) -> Result<(), TopologyLifecycleError> {
        if self.generation != generation {
            Err(TopologyLifecycleError::GenerationMismatch)
        } else if !self.began {
            Err(TopologyLifecycleError::MissingBegin)
        } else if !self.acked {
            Err(TopologyLifecycleError::MissingAck)
        } else if !self.committed {
            Err(TopologyLifecycleError::MissingCommit)
        } else {
            Ok(())
        }
    }

    pub fn new(generation: u32) -> (out: Self)
        ensures
            out == (TopologyLifecycle { generation, began: false, acked: false, committed: false }),
    {
        TopologyLifecycle { generation, began: false, acked: false, committed: false }
    }

    pub fn begin(self, generation: u32) -> (out: Result<Self, TopologyLifecycleError>)
        ensures
            out == self.spec_begin(generation),
    {
        if self.generation != generation {
            return Err(TopologyLifecycleError::GenerationMismatch);
        }
        Ok(TopologyLifecycle { began: true, ..self })
    }

    pub fn ack(self, generation: u32) -> (out: Result<Self, TopologyLifecycleError>)
        ensures
            out == self.spec_ack(generation),
    {
        if self.generation != generation {
            return Err(TopologyLifecycleError::GenerationMismatch);
        }
        if !self.began {
            return Err(TopologyLifecycleError::MissingBegin);
        }
        Ok(TopologyLifecycle { acked: true, ..self })
    }

    pub fn commit(self, generation: u32) -> (out: Result<Self, TopologyLifecycleError>)
        ensures
            out == self.spec_commit(generation),
    {
        if self.generation != generation {
            return Err(TopologyLifecycleError::GenerationMismatch);
        }
        if !self.began {
            return Err(TopologyLifecycleError::MissingBegin);
        }
        if !self.acked {
            return Err(TopologyLifecycleError::MissingAck);
        }
        Ok(TopologyLifecycle { committed: true, ..self })
    }

    pub fn generation(&self) -> (out: u32)
        ensures
            out == self.generation,
    {
        self.generation
    }

    pub fn is_committed(&self) -> (out: bool)
        ensures
            out == (self.began && self.acked && self.committed),
    {
        self.began && self.acked && self.committed
    }

    pub fn require_committed(&self, generation: u32) -> (out: Result<(), TopologyLifecycleError>)
        ensures
            out == self.spec_require_committed(generation),
    {
        if self.generation != generation {
            return Err(TopologyLifecycleError::GenerationMismatch);
        }
        if !self.began {
            return Err(TopologyLifecycleError::MissingBegin);
        }
        if !self.acked {
            return Err(TopologyLifecycleError::MissingAck);
        }
        if !self.committed {
            return Err(TopologyLifecycleError::MissingCommit);
        }
        Ok(())
    }
}

/// A topology change is committed at a generation exactly after begin, ack and commit at that
/// generation; skipping begin or ack is refused.
pub proof fn lemma_topology_commit_needs_begin_and_ack(g: u32)
    ensures
        ({
            let t = TopologyLifecycle { generation: g, began: false, acked: false, committed: false };
            let done = t.spec_begin(g)->Ok_0.spec_ack(g)->Ok_0.spec_commit(g);
            &&& done is Ok
            &&& done->Ok_0.spec_require_committed(g) == Ok::<(), TopologyLifecycleError>(())
            &&& t.spec_commit(g) == Err::<TopologyLifecycle, TopologyLifecycleError>(TopologyLifecycleError::MissingBegin)
            &&& t.spec_begin(g)->Ok_0.spec_commit(g) == Err::<TopologyLifecycle, TopologyLifecycleError>(TopologyLifecycleError::MissingAck)
            &&& t.spec_require_committed(g) == Err::<(), TopologyLifecycleError>(TopologyLifecycleError::MissingBegin)
        }),
{
}

/// Whatever steps a topology change went through, it counts as committed only at its own generation
/// and only once begin, ack and commit all happened.
pub proof fn lemma_require_committed_exact(t: TopologyLifecycle, g: u32)
    ensures
        t.spec_require_committed(g) is Ok <==> (t.generation == g && t.began && t.acked && t.committed),
{
}

} // verus!
