use vstd::prelude::*;

verus! {

/// Whether an object transaction commits or aborts.
#[derive(Clone, Copy, Debug, PartialEq, Eq, Structural)]
pub enum ObjectTransactionDecision {
    Commit,
    Abort,
}

/// A transaction fact naming an object generation and its decision.
#[derive(Clone, Copy, Debug, PartialEq, Eq, Structural)]
pub struct ObjectTransaction {
    pub generation: u16,
    pub decision: ObjectTransactionDecision,
}

impl ObjectTransaction {
    pub fn commit(generation: u16) -> (tx: Self)
        ensures
            tx.generation == generation,
            tx.decision == ObjectTransactionDecision::Commit,
    {
        Self { generation, decision: ObjectTransactionDecision::Commit }
    }

    pub fn abort(generation: u16) -> (tx: Self)
        ensures
            tx.generation == generation,
            tx.decision == ObjectTransactionDecision::Abort,
    {
        Self { generation, decision: ObjectTransactionDecision::Abort }
    }

    pub fn generation(&self) -> (g: u16)
        ensures
            g == self.generation,
    {
        self.generation
    }

    pub fn decision(&self) -> (d: ObjectTransactionDecision)
        ensures
            d == self.decision,
    {
        self.decision
    }

    pub fn is_commit(&self) -> (b: bool)
        ensures
            b == (self.decision == ObjectTransactionDecision::Commit),
    {
        matches!(self.decision, ObjectTransactionDecision::Commit)
    }
}

} // verus!
