//! Board support: safe GPIO levels of a board, and the pure parts of the RP2040 and RP2350
//! drivers (frame packing over the inter-core FIFO, the radio's command framing and status
//! bits, receive metadata, and the frame checks of the radio transport).
use vstd::prelude::*;

pub mod rp2040;
pub mod rp2350;

verus! {

/// A GPIO pin and the level it must hold in the board's safe state.
#[derive(Clone, Copy, Debug, PartialEq, Eq, Structural)]
pub struct SafeGpioLevel {
    pin: u8,
    high: bool,
}

impl SafeGpioLevel {
    pub closed spec fn spec_pin(self) -> u8 {
        self.pin
    }

    pub closed spec fn spec_high(self) -> bool {
        self.high
    }

    pub fn new(pin: u8, high: bool) -> (out: Self)
        ensures
            out.spec_pin() == pin,
            out.spec_high() == high,
    {
        SafeGpioLevel { pin, high }
    }

    pub fn pin(self) -> (out: u8)
        ensures
            out == self.spec_pin(),
    {
        self.pin
    }

    pub fn high(self) -> (out: bool)
        ensures
            out == self.spec_high(),
    {
        self.high
    }
}

/// A board that names the levels its GPIOs must be driven to before anything else runs.
pub trait BoardSafeState {
    fn gpio_levels() -> Vec<SafeGpioLevel>;
}

} // verus!
