//! Ownership tokens for the two GPIO pins carrying the USB data lines.
//!
//! The USB peripheral drives PA11 (D-) and PA12 (D+) directly; before the
//! peripheral may take them over, each pin must be switched to analog mode
//! so that the general-purpose I/O logic releases it. That electrical mode
//! is tracked in the pin's type: only a pin in the `Analog` state can be
//! handed to the USB guard constructors.

use vstd::prelude::*;

verus! {

/// Marker for a pin in its reset state (floating input).
pub struct Floating;

/// Marker for a pin switched to analog mode, disconnected from the
/// general-purpose I/O logic and available to the USB peripheral.
pub struct Analog;

/// Ownership token for pin PA11 (USB D-), in electrical mode `MODE`.
pub struct PA11<MODE> {
    mode: MODE,
}

/// Ownership token for pin PA12 (USB D+), in electrical mode `MODE`.
pub struct PA12<MODE> {
    mode: MODE,
}

impl PA11<Floating> {
    /// Acquires the pin in its reset state. Standing in for the port
    /// acquisition done by the GPIO subsystem, which hands each pin out
    /// once; holding the token is holding the pin.
    pub fn new() -> Self {
        PA11 { mode: Floating }
    }
}

impl PA12<Floating> {
    /// Acquires the pin in its reset state. Standing in for the port
    /// acquisition done by the GPIO subsystem.
    pub fn new() -> Self {
        PA12 { mode: Floating }
    }
}

impl<MODE> PA11<MODE> {
    /// Reconfigures the pin to analog mode, releasing it to the USB
    /// peripheral. Consumes the token for the previous mode.
    pub fn into_analog(self) -> PA11<Analog> {
        PA11 { mode: Analog }
    }
}

impl<MODE> PA12<MODE> {
    /// Reconfigures the pin to analog mode, releasing it to the USB
    /// peripheral. Consumes the token for the previous mode.
    pub fn into_analog(self) -> PA12<Analog> {
        PA12 { mode: Analog }
    }
}

} // verus!
