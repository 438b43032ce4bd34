//! The RP2350: the CYW43439 radio and the bytes the UART console writes.
pub mod cyw43439;
pub mod uart;
