//! Facts about state snapshots and the restores made from them.
use vstd::prelude::*;

verus! {

/// A snapshot taken at an object generation and a memory epoch.
#[derive(Clone, Copy, Debug, PartialEq, Eq, Structural)]
pub struct StateSnapshotFact {
    pub generation: u16,
    pub memory_epoch: u32,
}

impl StateSnapshotFact {
    pub fn new(generation: u16, memory_epoch: u32) -> (out: Self)
        ensures
            out == (StateSnapshotFact { generation, memory_epoch }),
    {
        StateSnapshotFact { generation, memory_epoch }
    }

    pub fn generation(&self) -> (out: u16)
        ensures
            out == self.generation,
    {
        self.generation
    }

    pub fn memory_epoch(&self) -> (out: u32)
        ensures
            out == self.memory_epoch,
    {
        self.memory_epoch
    }
}

/// A restore of a snapshot's generation into a target memory epoch.
#[derive(Clone, Copy, Debug, PartialEq, Eq, Structural)]
pub struct StateRestoreFact {
    pub snapshot_generation: u16,
    pub target_memory_epoch: u32,
}

impl StateRestoreFact {
    pub fn from_snapshot(snapshot: StateSnapshotFact, target_memory_epoch: u32) -> (out: Self)
        ensures
            out == (StateRestoreFact { snapshot_generation: snapshot.generation, target_memory_epoch }),
    {
        StateRestoreFact { snapshot_generation: snapshot.generation, target_memory_epoch }
    }

    pub fn snapshot_generation(&self) -> (out: u16)
        ensures
            out == self.snapshot_generation,
    {
        self.snapshot_generation
    }

    pub fn target_memory_epoch(&self) -> (out: u32)
        ensures
            out == self.target_memory_epoch,
    {
        self.target_memory_epoch
    }
}

} // verus!
