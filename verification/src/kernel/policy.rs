//! Policy slots that authorize routed objects, and the node roles a route may target.
use vstd::prelude::*;

verus! {

/// A policy slot index outside the table.
#[derive(Clone, Copy, Debug, PartialEq, Eq, Structural)]
pub enum PolicyError {
    BadSlot,
}

/// The role a node plays in a swarm; each role owns one bit of a role mask.
#[derive(Clone, Copy, Debug, PartialEq, Eq, Structural)]
pub enum NodeRole {
    Coordinator,
    Sensor,
    Actuator,
    Gateway,
}

impl NodeRole {
    pub open spec fn spec_bit(self) -> u16 {
        match self {
            NodeRole::Coordinator => 1,
            NodeRole::Sensor => 2,
            NodeRole::Actuator => 4,
            NodeRole::Gateway => 8,
        }
    }

    #[verifier::when_used_as_spec(spec_bit)]
    pub fn bit(self) -> (out: u16)
        ensures
            out == self.spec_bit(),
    {
        match self {
            NodeRole::Coordinator => 1,
            NodeRole::Sensor => 2,
            NodeRole::Actuator => 4,
            NodeRole::Gateway => 8,
        }
    }
}

/// A table of `P` policy slots, numbered from 1, each allowed or denied; every slot starts
/// denied, and slot 0 names no policy and is never allowed.
pub struct PolicySlotTable<const P: usize> {
    allowed: Vec<bool>,
}

impl<const P: usize> PolicySlotTable<P> {
    pub closed spec fn view(&self) -> Seq<bool> {
        self.allowed@
    }

    pub closed spec fn wf(&self) -> bool {
        self.allowed@.len() == P
    }

    /// Whether slot `slot` is allowed: slots outside the table never are.
    pub open spec fn spec_is_allowed(&self, slot: u8) -> bool {
        1 <= slot <= self@.len() && self@[slot - 1]
    }

    pub fn new() -> (out: Self)
        ensures
            out.wf(),
            out@ == Seq::new(P as nat, |i: int| false),
    {
        let mut allowed: Vec<bool> = Vec::new();
        let mut i: usize = 0;
        while i < P
            invariant
                i <= P,
                allowed@ == Seq::new(i as nat, |j: int| false),
            decreases P - i,
        {
            allowed.push(false);
            i = i + 1;
        }
        Self { allowed }
    }

    pub fn allow(&mut self, slot: u8) -> (out: Result<(), PolicyError>)
        requires
            old(self).wf(),
        ensures
            final(self).wf(),
            1 <= slot <= P <==> out is Ok,
            out is Ok ==> final(self)@ == old(self)@.update(slot - 1, true),
            out is Err ==> final(self)@ == old(self)@ && out->Err_0 == PolicyError::BadSlot,
    {
        self.set(slot, true)
    }

    pub fn deny(&mut self, slot: u8) -> (out: Result<(), PolicyError>)
        requires
            old(self).wf(),
        ensures
            final(self).wf(),
            1 <= slot <= P <==> out is Ok,
            out is Ok ==> final(self)@ == old(self)@.update(slot - 1, false),
            out is Err ==> final(self)@ == old(self)@ && out->Err_0 == PolicyError::BadSlot,
    {
        self.set(slot, false)
    }

    fn set(&mut self, slot: u8, value: bool) -> (out: Result<(), PolicyError>)
        requires
            old(self).wf(),
        ensures
            final(self).wf(),
            1 <= slot <= P <==> out is Ok,
            out is Ok ==> final(self)@ == old(self)@.update(slot - 1, value),
            out is Err ==> final(self)@ == old(self)@ && out->Err_0 == PolicyError::BadSlot,
    {
        if slot == 0 || slot as usize > self.allowed.len() {
            return Err(PolicyError::BadSlot);
        }
        self.allowed.set(slot as usize - 1, value);
        Ok(())
    }

    pub fn is_allowed(&self, slot: u8) -> (out: bool)
        requires
            self.wf(),
        ensures
            out == self.spec_is_allowed(slot),
    {
        slot != 0 && slot as usize <= self.allowed.len() && self.allowed[slot as usize - 1]
    }
}

} // verus!
