//! The Baker link board: three active-high user LEDs that the safe state turns off.
use vstd::prelude::*;
use crate::machine::{BoardSafeState, SafeGpioLevel};

verus! {

pub const BAKER_LINK_USER_LED_ACTIVE_HIGH: bool = true;

/// The user LED pins, in board order.
pub fn baker_link_user_led_pins() -> (out: [u8; 3])
    ensures
        out@ == seq![22u8, 21u8, 20u8],
{
    [22, 21, 20]
}

/// The safe levels of the user LEDs: each pin at its inactive level.
pub fn baker_link_safe_gpio_levels() -> (out: [SafeGpioLevel; 3])
    ensures
        out@.len() == 3,
        forall|i: int|
            0 <= i < 3 ==> (#[trigger] out@[i]).spec_pin() == seq![22u8, 21u8, 20u8][i]
                && out@[i].spec_high() == !BAKER_LINK_USER_LED_ACTIVE_HIGH,
{
    let pins = baker_link_user_led_pins();
    [
        SafeGpioLevel::new(pins[0], !BAKER_LINK_USER_LED_ACTIVE_HIGH),
        SafeGpioLevel::new(pins[1], !BAKER_LINK_USER_LED_ACTIVE_HIGH),
        SafeGpioLevel::new(pins[2], !BAKER_LINK_USER_LED_ACTIVE_HIGH),
    ]
}

#[derive(Clone, Copy, Debug, PartialEq, Eq, Structural)]
pub struct BakerLinkBoard;

impl BoardSafeState for BakerLinkBoard {
    fn gpio_levels() -> (out: Vec<SafeGpioLevel>)
        ensures
            out@.len() == 3,
            forall|i: int|
                0 <= i < 3 ==> (#[trigger] out@[i]).spec_pin() == seq![22u8, 21u8, 20u8][i]
                    && out@[i].spec_high() == !BAKER_LINK_USER_LED_ACTIVE_HIGH,
    {
        let levels = baker_link_safe_gpio_levels();
        let mut out: Vec<SafeGpioLevel> = Vec::new();
        out.push(levels[0]);
        out.push(levels[1]);
        out.push(levels[2]);
        out
    }
}

} // verus!
