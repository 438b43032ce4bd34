use hibana_pico::choreography::protocol::{FdWrite, LABEL_GPIO_SET};
use hibana_pico::kernel::fd_object::{GpioFdWriteError, GpioFdWriteRoute, check_gpio_object_fd_write};
use hibana_pico::kernel::wasi::{ChoreoResourceKind, PicoFdError, PicoFdRights, PicoFdRoute, PicoFdView};

const TEST_FDS: [u8; 2] = [3, 4];
const TEST_PINS: [u8; 2] = [22, 21];

fn test_route() -> PicoFdRoute {
    PicoFdRoute::new(0, 0, 3, LABEL_GPIO_SET, 0, 0)
}

fn route() -> GpioFdWriteRoute {
    GpioFdWriteRoute::new(&TEST_FDS, &TEST_PINS, true, test_route())
}

fn table() -> PicoFdView<2> {
    let mut table = PicoFdView::new();
    for fd in TEST_FDS {
        table
            .apply_cap_grant(fd, PicoFdRights::Write, ChoreoResourceKind::Gpio, 0, test_route())
            .expect("grant gpio fd");
    }
    table
}

#[test]
fn resolves_digit_payload_to_gpio_set() {
    let mut table = table();
    let set = check_gpio_object_fd_write(&mut table, &FdWrite::new(4, b"1").expect("fd_write"), route())
        .expect("check gpio object fd");

    assert_eq!(set.pin(), 21);
    assert!(set.high());
}

#[test]
fn rejects_fd_outside_route_map() {
    let mut table = table();

    assert_eq!(
        check_gpio_object_fd_write(&mut table, &FdWrite::new(5, b"1").expect("fd_write"), route()),
        Err(GpioFdWriteError::BadFd)
    );
}

#[test]
fn rejects_wrong_control_route() {
    let mut table: PicoFdView<1> = PicoFdView::new();
    table
        .apply_local_cap_grant(3, PicoFdRights::Write, ChoreoResourceKind::Gpio, 1, 0, 0)
        .expect("grant unrouted gpio fd");

    assert_eq!(
        check_gpio_object_fd_write(&mut table, &FdWrite::new(3, b"1").expect("fd_write"), route()),
        Err(GpioFdWriteError::Fd(PicoFdError::BadRoute))
    );
}

#[test]
fn rejects_non_digit_payload() {
    let mut table = table();

    assert_eq!(
        check_gpio_object_fd_write(&mut table, &FdWrite::new(3, b"on").expect("fd_write"), route()),
        Err(GpioFdWriteError::BadPayload)
    );
}

#[test]
fn zero_payload_drives_the_inactive_level() {
    let mut table = table();
    let set = check_gpio_object_fd_write(&mut table, &FdWrite::new(3, b"0").expect("fd_write"), route())
        .expect("check gpio object fd");
    assert_eq!(set.pin(), 22);
    assert!(!set.high());
}
