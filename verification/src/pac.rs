//! Peripheral-access layer: the USB peripheral instance and the
//! clock-control (RCC) register block it is enabled through.
//!
//! The register block is modelled as a value holding the two registers this
//! crate touches, `APB1ENR` (bus clock enables) and `APB1RSTR` (bus resets),
//! together with a log of every write performed on it. The log is what makes
//! the hardware sequencing checkable: each entry records the value written
//! and whether the write ran inside a critical section, so contracts can
//! state not only the final register state but the exact, uninterrupted
//! order of writes that produced it.

use vstd::prelude::*;

verus! {

/// Base address of the USB control/status register block on this chip.
pub const USB_REGISTER_BASE: usize = 0x4000_5C00;

/// Position of the USB peripheral's bit in `APB1ENR` (clock enable) and in
/// `APB1RSTR` (reset), as a mask: bit 23 on this chip family.
pub const USB_APB1_BIT: u32 = 0x0080_0000;

/// Whether an `APB1ENR` value has the USB clock-enable bit set.
pub open spec fn usb_clock_enabled(apb1enr: u32) -> bool {
    apb1enr & USB_APB1_BIT == USB_APB1_BIT
}

/// Whether an `APB1RSTR` value holds the USB peripheral in reset.
pub open spec fn usb_in_reset(apb1rstr: u32) -> bool {
    apb1rstr & USB_APB1_BIT == USB_APB1_BIT
}

/// Ownership token for the physical USB peripheral instance.
///
/// Consumed by the guard constructors; whoever holds it holds the
/// peripheral, so a guard can be built at most once per acquisition.
pub struct USB;

impl USB {
    /// Acquires the peripheral token. Standing in for the device-level
    /// peripheral acquisition, which hands each instance out once.
    pub fn new() -> Self {
        USB
    }
}

/// Which clock-control register a write went to.
#[derive(Clone, Copy, PartialEq, Eq, Structural, Debug)]
pub enum ClockRegister {
    Apb1Enr,
    Apb1Rstr,
}

/// One write observed on the clock-control block: the target register, the
/// value written, and whether interrupts were masked while it happened.
#[derive(Clone, Copy, PartialEq, Eq, Structural, Debug)]
pub struct RegisterWrite {
    pub register: ClockRegister,
    pub value: u32,
    pub masked: bool,
}

/// The clock-control register block, with a write log.
///
/// The two registers are process-wide hardware state shared with interrupt
/// handlers; every mutation goes through a method here and is recorded in
/// `writes`, so the atomicity of a register sequence is visible as a
/// contiguous run of `masked` entries in the log.
pub struct RCC {
    pub apb1enr: u32,
    pub apb1rstr: u32,
    pub writes: Vec<RegisterWrite>,
}

impl RCC {
    /// A register block in the given state, with nothing written yet.
    pub fn new(apb1enr: u32, apb1rstr: u32) -> (r: RCC)
        ensures
            r.apb1enr == apb1enr,
            r.apb1rstr == apb1rstr,
            r.writes@ == Seq::<RegisterWrite>::empty(),
    {
        RCC { apb1enr, apb1rstr, writes: Vec::new() }
    }

    /// A register write arriving from an interrupt handler, outside any
    /// critical section. Handlers share these registers with main-line
    /// code; this is the access against which the enable sequence must be
    /// atomic.
    pub fn handler_write(&mut self, register: ClockRegister, value: u32)
        ensures
            final(self).writes@ == old(self).writes@.push(
                (RegisterWrite { register, value, masked: false }),
            ),
            register == ClockRegister::Apb1Enr ==> final(self).apb1enr == value
                && final(self).apb1rstr == old(self).apb1rstr,
            register == ClockRegister::Apb1Rstr ==> final(self).apb1rstr == value
                && final(self).apb1enr == old(self).apb1enr,
    {
        match register {
            ClockRegister::Apb1Enr => {
                self.apb1enr = value;
            }
            ClockRegister::Apb1Rstr => {
                self.apb1rstr = value;
            }
        }
        self.writes.push(RegisterWrite { register, value, masked: false });
    }
}

} // verus!
