//! USB peripheral binding for the STM32L0x2/x3 family.
//!
//! The USB device protocol itself is handled by a chip-agnostic engine;
//! this crate provides what that engine needs from the chip: type-level
//! ownership of the USB data pins and of a valid 48 MHz clock source, the
//! peripheral's register and endpoint-memory addresses, and the verified
//! clock-enable / reset sequence that must run before the first register
//! access.

pub mod gpio;
pub mod pac;
pub mod rcc;
pub mod usb;
