//! The USB clock/pin guard and the capability description the
//! chip-agnostic USB engine consumes.
//!
//! A [`USB`] value is a construction-time proof: it can only be built by
//! surrendering the peripheral token, both data-pin tokens in analog mode,
//! and evidence of a valid 48 MHz clock source — either the dedicated
//! oscillator token or a clock configuration whose PLL output is exactly
//! [`USB_PLL_FREQ`], which the hardware divides by two. The guard itself
//! holds no runtime state.

use vstd::prelude::*;

use crate::gpio::{Analog, PA11, PA12};
use crate::pac;
use crate::pac::{usb_clock_enabled, usb_in_reset, ClockRegister, RegisterWrite, USB_APB1_BIT};
use crate::rcc::{Hertz, Rcc, HSI48};

verus! {

/// The only PLL output frequency from which this chip derives the 48 MHz
/// USB clock (by a fixed division by two).
pub const USB_PLL_FREQ: u32 = 96_000_000;

/// The USB clock frequency the peripheral requires, in hertz.
pub const USB_CLOCK_FREQ: u32 = 48_000_000;

/// This chip drives the D+ pull-up resistor itself; no external circuitry
/// is involved in full-speed device detection.
pub const DP_PULL_UP_FEATURE: bool = true;

/// Base address of the packet-buffer (endpoint) memory.
pub const EP_MEMORY_BASE: usize = 0x4000_6000;

/// Size of the packet-buffer memory in bytes, shared across all endpoint
/// buffer allocations.
pub const EP_MEMORY_SIZE: usize = 1024;

/// Highest core clock frequency this chip family can run at, in hertz.
pub const MAX_SYSCLK_FREQ: u32 = 32_000_000;

/// Core cycles to busy-wait after `enable` before the first register
/// access: at least the datasheet's 1 microsecond at any core clock.
pub const STARTUP_DELAY_CYCLES: u32 = 32;

/// Where a guard's 48 MHz USB clock comes from. Recorded at construction;
/// purely a proof artifact, never present at runtime.
pub enum ClockSource {
    /// The dedicated internal 48 MHz oscillator.
    Hsi48,
    /// The PLL output at `freq` hertz, divided by two in hardware.
    Pll { freq: u32 },
}

/// Why PLL-based construction was refused. Both conditions are
/// configuration errors: running USB off a wrong clock silently corrupts
/// communication, so a caller is expected to treat either as fatal.
#[derive(Clone, Copy, PartialEq, Eq, Structural, Debug)]
pub enum UsbClockError {
    /// The clock configuration has no PLL output at all.
    PllNotConfigured,
    /// A PLL output is configured but is not exactly [`USB_PLL_FREQ`].
    WrongPllFrequency,
}

/// Capability token for the USB peripheral: it exists only if the pin and
/// clock preconditions were checked and held at construction.
pub struct USB {
    source: Ghost<ClockSource>,
}

impl USB {
    /// The clock source recorded when this guard was constructed.
    pub closed spec fn clock_source(self) -> ClockSource {
        self.source@
    }

    /// Guard invariant: the recorded clock source is one from which the
    /// required 48 MHz USB clock is actually derived.
    pub open spec fn wf(self) -> bool {
        match self.clock_source() {
            ClockSource::Hsi48 => true,
            ClockSource::Pll { freq } => freq == USB_PLL_FREQ,
        }
    }

    /// The USB clock frequency the recorded source delivers, in hertz.
    pub open spec fn usb_clock_hz(self) -> int {
        match self.clock_source() {
            ClockSource::Hsi48 => USB_CLOCK_FREQ as int,
            ClockSource::Pll { freq } => freq as int / 2,
        }
    }

    /// Builds the guard from the dedicated 48 MHz oscillator.
    ///
    /// Consumes the peripheral and both data pins in analog mode. No
    /// runtime clock state is inspected: the oscillator token is itself
    /// the proof, so construction cannot fail.
    pub fn new(_usb: pac::USB, _dm: PA11<Analog>, _dp: PA12<Analog>, _hsi48: HSI48) -> (r: USB)
        ensures
            r.clock_source() == ClockSource::Hsi48,
            r.wf(),
    {
        USB { source: Ghost(ClockSource::Hsi48) }
    }

    /// Builds the guard from the PLL, checking at construction time that
    /// the configured PLL output is exactly [`USB_PLL_FREQ`] — the one
    /// frequency that divides to the required 48 MHz USB clock.
    ///
    /// Consumes the peripheral and both data pins; succeeds if and only
    /// if the PLL output is present and correct, and otherwise reports
    /// which precondition was violated.
    pub fn new_with_pll(_usb: pac::USB, _dm: PA11<Analog>, _dp: PA12<Analog>, rcc: &Rcc) -> (r:
        Result<USB, UsbClockError>)
        ensures
            r is Ok <==> rcc.clocks.pll_freq == Some(Hertz(USB_PLL_FREQ)),
            r matches Ok(g) ==> g.wf() && g.clock_source() == (ClockSource::Pll {
                freq: USB_PLL_FREQ,
            }),
            r matches Err(e) ==> (e == UsbClockError::PllNotConfigured <==> rcc.clocks.pll_freq
                is None),
            r matches Err(e) ==> (e == UsbClockError::WrongPllFrequency
                <==> (rcc.clocks.pll_freq matches Some(f) && f.0 != USB_PLL_FREQ)),
    {
        match rcc.clocks.pll_clk() {
            None => Err(UsbClockError::PllNotConfigured),
            Some(f) => {
                if f.0 == USB_PLL_FREQ {
                    Ok(USB { source: Ghost(ClockSource::Pll { freq: USB_PLL_FREQ }) })
                } else {
                    Err(UsbClockError::WrongPllFrequency)
                }
            }
        }
    }
}

/// Law: a well-formed guard delivers exactly the required 48 MHz USB
/// clock, whichever of the two sources it was constructed from.
pub proof fn lemma_guard_clock_rate(g: USB)
    requires
        g.wf(),
    ensures
        g.usb_clock_hz() == USB_CLOCK_FREQ as int,
{
}

/// What the chip-agnostic USB engine reads from an adapter before it
/// touches silicon.
#[derive(Clone, Copy, PartialEq, Eq, Structural, Debug)]
pub struct PeripheralCapabilities {
    /// Base address of the control/status register block.
    pub register_base: usize,
    /// Whether the chip drives the D+ pull-up resistor itself.
    pub dp_pull_up: bool,
    /// Base address of the packet-buffer (endpoint) memory.
    pub ep_memory_base: usize,
    /// Size of the packet-buffer memory in bytes.
    pub ep_memory_size: usize,
}

/// The three writes `enable` performs on a clock-control block whose
/// registers held `apb1enr` and `apb1rstr`: switch the USB bus clock on,
/// then drive the USB reset line high and low again. All three run with
/// interrupts masked.
pub open spec fn enable_write_block(apb1enr: u32, apb1rstr: u32) -> Seq<RegisterWrite> {
    seq![
        RegisterWrite {
            register: ClockRegister::Apb1Enr,
            value: apb1enr | USB_APB1_BIT,
            masked: true,
        },
        RegisterWrite {
            register: ClockRegister::Apb1Rstr,
            value: apb1rstr | USB_APB1_BIT,
            masked: true,
        },
        RegisterWrite {
            register: ClockRegister::Apb1Rstr,
            value: (apb1rstr | USB_APB1_BIT) & !USB_APB1_BIT,
            masked: true,
        },
    ]
}

impl USB {
    /// The fixed capability description of this chip's USB peripheral.
    pub fn capabilities() -> (c: PeripheralCapabilities)
        ensures
            c.register_base == pac::USB_REGISTER_BASE,
            c.dp_pull_up == DP_PULL_UP_FEATURE,
            c.ep_memory_base == EP_MEMORY_BASE,
            c.ep_memory_size == EP_MEMORY_SIZE,
    {
        PeripheralCapabilities {
            register_base: pac::USB_REGISTER_BASE,
            dp_pull_up: DP_PULL_UP_FEATURE,
            ep_memory_base: EP_MEMORY_BASE,
            ep_memory_size: EP_MEMORY_SIZE,
        }
    }

    /// Switches the USB peripheral's bus clock on and pulses its reset
    /// line, leaving the peripheral running with clean internal state.
    /// Must run before the engine's first register access.
    ///
    /// The whole sequence is one critical section: the log gains exactly
    /// the three writes of [`enable_write_block`], contiguously and all
    /// masked, so no concurrent handler access to the same registers can
    /// interleave with it. Every other bit of both registers is
    /// preserved, so re-running the sequence is harmless.
    pub fn enable(rcc: &mut pac::RCC)
        ensures
            final(rcc).apb1enr == old(rcc).apb1enr | USB_APB1_BIT,
            final(rcc).apb1rstr == old(rcc).apb1rstr & !USB_APB1_BIT,
            usb_clock_enabled(final(rcc).apb1enr),
            !usb_in_reset(final(rcc).apb1rstr),
            final(rcc).writes@ == old(rcc).writes@ + enable_write_block(
                old(rcc).apb1enr,
                old(rcc).apb1rstr,
            ),
    {
        let enr0 = rcc.apb1enr;
        let rstr0 = rcc.apb1rstr;

        // Enable the USB peripheral's bus clock.
        let w1 = RegisterWrite { register: ClockRegister::Apb1Enr, value: enr0 | USB_APB1_BIT, masked: true };
        rcc.apb1enr = w1.value;
        rcc.writes.push(w1);

        // Force the USB peripheral into reset.
        let w2 = RegisterWrite { register: ClockRegister::Apb1Rstr, value: rstr0 | USB_APB1_BIT, masked: true };
        rcc.apb1rstr = w2.value;
        rcc.writes.push(w2);

        // Release it from reset.
        let w3 = RegisterWrite {
            register: ClockRegister::Apb1Rstr,
            value: (rstr0 | USB_APB1_BIT) & !USB_APB1_BIT,
            masked: true,
        };
        rcc.apb1rstr = w3.value;
        rcc.writes.push(w3);

        proof {
            assert((enr0 | USB_APB1_BIT) & USB_APB1_BIT == USB_APB1_BIT) by (bit_vector);
            assert(((rstr0 | USB_APB1_BIT) & !USB_APB1_BIT) == rstr0 & !USB_APB1_BIT)
                by (bit_vector);
            assert((rstr0 & !USB_APB1_BIT) & USB_APB1_BIT != USB_APB1_BIT) by (bit_vector);
            assert(rcc.writes@ =~= old(rcc).writes@ + enable_write_block(enr0, rstr0));
        }
    }

    /// Number of core cycles the caller must busy-wait after [`enable`]
    /// before the first register access: the datasheet's post-reset
    /// stabilization time is 1 microsecond, and this many cycles last at
    /// least that long at any core clock the chip can run.
    ///
    /// [`enable`]: USB::enable
    pub fn startup_delay_cycles() -> (r: u32)
        ensures
            r == STARTUP_DELAY_CYCLES,
            r as int * 1_000_000 >= MAX_SYSCLK_FREQ as int,
    {
        STARTUP_DELAY_CYCLES
    }
}

/// Law: the enable sequence is exactly three writes, each inside the
/// critical section: the clock-enable write first, then the reset pulse —
/// the reset bit driven high and then low again, never left set.
pub proof fn lemma_enable_sequence_shape(apb1enr: u32, apb1rstr: u32)
    ensures
        ({
            let b = enable_write_block(apb1enr, apb1rstr);
            &&& b.len() == 3
            &&& b[0].masked && b[1].masked && b[2].masked
            &&& b[0].register == ClockRegister::Apb1Enr
            &&& usb_clock_enabled(b[0].value)
            &&& b[1].register == ClockRegister::Apb1Rstr
            &&& usb_in_reset(b[1].value)
            &&& b[2].register == ClockRegister::Apb1Rstr
            &&& !usb_in_reset(b[2].value)
        }),
{
    assert((apb1enr | USB_APB1_BIT) & USB_APB1_BIT == USB_APB1_BIT) by (bit_vector);
    assert((apb1rstr | USB_APB1_BIT) & USB_APB1_BIT == USB_APB1_BIT) by (bit_vector);
    assert(((apb1rstr | USB_APB1_BIT) & !USB_APB1_BIT) & USB_APB1_BIT != USB_APB1_BIT)
        by (bit_vector);
}

} // verus!
