//! An fd that drives a GPIO pin: writes of "0" or "1" through a routed fd become pin levels.
use vstd::prelude::*;
use crate::choreography::protocol::{FdWrite, GpioSet};
use crate::kernel::wasi::{
    ChoreoResourceKind, PicoFdError, PicoFdRights, PicoFdRoute, PicoFdView, fd_telemetry_after,
    routed, spec_resolve_current,
};

verus! {

/// Why a GPIO fd write is refused.
#[derive(Clone, Copy, Debug, PartialEq, Eq, Structural)]
pub enum GpioFdWriteError {
    Fd(PicoFdError),
    BadFd,
    BadPayload,
}

/// Which fds drive which pins, with the pins' polarity and the route the fds must carry.
#[derive(Clone, Copy, Debug, PartialEq, Eq)]
pub struct GpioFdWriteRoute {
    pub fds: &'static [u8],
    pub pins: &'static [u8],
    pub active_high: bool,
    pub route: PicoFdRoute,
}

/// The pin of the first entry for `fd` among the first `min(fds, pins)` entries.
pub open spec fn spec_pin_for_fd(fds: Seq<u8>, pins: Seq<u8>, fd: u8, from: int) -> Option<u8>
    decreases fds.len() - from,
{
    if from < 0 || from >= fds.len() || from >= pins.len() {
        None
    } else if fds[from] == fd {
        Some(pins[from])
    } else {
        spec_pin_for_fd(fds, pins, fd, from + 1)
    }
}

/// The level a payload asks for: "1" is the active level, "0" the other.
pub open spec fn spec_gpio_level(payload: Seq<u8>, active_high: bool) -> Option<bool> {
    if payload == seq![0x30u8] {
        Some(!active_high)
    } else if payload == seq![0x31u8] {
        Some(active_high)
    } else {
        None
    }
}

impl GpioFdWriteRoute {
    pub fn new(fds: &'static [u8], pins: &'static [u8], active_high: bool, route: PicoFdRoute) -> (out: Self)
        ensures
            out.fds@ == fds@,
            out.pins@ == pins@,
            out.active_high == active_high,
            out.route == route,
    {
        GpioFdWriteRoute { fds, pins, active_high, route }
    }

    pub fn route(self) -> (out: PicoFdRoute)
        ensures
            out == self.route,
    {
        self.route
    }

    pub fn active_high(self) -> (out: bool)
        ensures
            out == self.active_high,
    {
        self.active_high
    }

    pub fn pin_for_fd(self, fd: u8) -> (out: Option<u8>)
        ensures
            out == spec_pin_for_fd(self.fds@, self.pins@, fd, 0),
    {
        let mut idx: usize = 0;
        while idx < self.fds.len() && idx < self.pins.len()
            invariant
                spec_pin_for_fd(self.fds@, self.pins@, fd, 0) == spec_pin_for_fd(self.fds@, self.pins@, fd, idx as int),
            decreases self.fds@.len() - idx,
        {
            if self.fds[idx] == fd {
                return Some(self.pins[idx]);
            }
            idx = idx + 1;
        }
        None
    }
}

/// Checking a GPIO fd write against the fd view and the route map.
pub open spec fn spec_check_gpio_object_fd_write(
    fds: Seq<Option<crate::kernel::wasi::PicoFdViewEntry>>,
    write: FdWrite,
    route: GpioFdWriteRoute,
) -> Result<GpioSet, GpioFdWriteError> {
    match spec_pin_for_fd(route.fds@, route.pins@, write.fd, 0) {
        None => Err(GpioFdWriteError::BadFd),
        Some(pin) => match routed(spec_resolve_current(fds, write.fd, PicoFdRights::Write, ChoreoResourceKind::Gpio), route.route) {
            Err(e) => Err(GpioFdWriteError::Fd(e)),
            Ok(_) => match spec_gpio_level(write.bytes@, route.active_high) {
                None => Err(GpioFdWriteError::BadPayload),
                Some(high) => Ok(GpioSet { pin, high }),
            },
        },
    }
}

/// Checks that a write goes through a routed GPIO fd with write rights and turns its payload into a pin level.
/// The fd view records a rejection when the fd does not resolve.
pub fn check_gpio_object_fd_write<const N: usize>(
    table: &mut PicoFdView<N>,
    write: &FdWrite,
    route: GpioFdWriteRoute,
) -> (out: Result<GpioSet, GpioFdWriteError>)
    requires
        old(table).wf(),
    ensures
        final(table).wf(),
        final(table)@ == old(table)@,
        final(table).next_gen() == old(table).next_gen(),
        out == spec_check_gpio_object_fd_write(old(table)@, *write, route),
        final(table).telemetry() == (match spec_pin_for_fd(route.fds@, route.pins@, write.fd, 0) {
            None => old(table).telemetry(),
            Some(_) => fd_telemetry_after(old(table).telemetry(),
                routed(spec_resolve_current(old(table)@, write.fd, PicoFdRights::Write, ChoreoResourceKind::Gpio), route.route)),
        }),
{
    let pin = match route.pin_for_fd(write.fd()) {
        Some(pin) => pin,
        None => return Err(GpioFdWriteError::BadFd),
    };
    match table.resolve_routed_current(write.fd(), PicoFdRights::Write, ChoreoResourceKind::Gpio, route.route()) {
        Ok(_) => {},
        Err(e) => return Err(GpioFdWriteError::Fd(e)),
    }
    let bytes = write.as_bytes();
    let high = if bytes.len() == 1 && bytes[0] == 0x30 {
        assert(bytes@ =~= seq![0x30u8]);
        !route.active_high()
    } else if bytes.len() == 1 && bytes[0] == 0x31 {
        assert(bytes@ =~= seq![0x31u8]);
        route.active_high()
    } else {
        assert(bytes@ != seq![0x30u8] && bytes@ != seq![0x31u8]) by {
            if bytes@.len() == 1 {
                assert(bytes@[0] == seq![0x30u8][0] ==> bytes@ =~= seq![0x30u8]);
            }
        }
        return Err(GpioFdWriteError::BadPayload);
    };
    Ok(GpioSet::new(pin, high))
}

} // verus!
