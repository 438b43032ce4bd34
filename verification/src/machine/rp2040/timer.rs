//! The readiness record of the RP2040 alarm: how many alarm interrupts fired and the tick
//! at which readiness was taken.
use vstd::prelude::*;

verus! {

#[derive(Clone, Copy, Debug, PartialEq, Eq, Structural)]
pub struct Alarm0Ready {
    irq_count: u32,
    captured_tick: u64,
}

impl Alarm0Ready {
    pub closed spec fn spec_irq_count(self) -> u32 {
        self.irq_count
    }

    pub closed spec fn spec_captured_tick(self) -> u64 {
        self.captured_tick
    }

    pub fn new(irq_count: u32, captured_tick: u64) -> (out: Self)
        ensures
            out.spec_irq_count() == irq_count,
            out.spec_captured_tick() == captured_tick,
    {
        Alarm0Ready { irq_count, captured_tick }
    }

    pub fn irq_count(self) -> (out: u32)
        ensures
            out == self.spec_irq_count(),
    {
        self.irq_count
    }

    pub fn captured_tick(self) -> (out: u64)
        ensures
            out == self.spec_captured_tick(),
    {
        self.captured_tick
    }
}

} // verus!
