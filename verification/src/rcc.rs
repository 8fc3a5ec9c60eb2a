//! Clock-configuration subsystem: the frozen clock tree and the proof
//! tokens the USB guard constructors consume.

use vstd::prelude::*;

verus! {

/// A frequency in hertz.
#[derive(Clone, Copy, PartialEq, Eq, Structural, Debug)]
pub struct Hertz(pub u32);

/// Ownership token proving that the dedicated internal 48 MHz oscillator
/// is configured and running. Holding it is the whole guarantee: the
/// oscillator's frequency is fixed in silicon, so no runtime value needs
/// checking.
pub struct HSI48;

impl HSI48 {
    /// Acquires the oscillator token. Standing in for the clock-tree
    /// configuration step, out of scope here, that switches the
    /// oscillator on before handing this proof out.
    pub fn new() -> Self {
        HSI48
    }
}

/// The frozen clock configuration, holding what this crate reads of it:
/// the PLL output frequency, absent when the PLL is not enabled.
#[derive(Clone, Copy)]
pub struct Clocks {
    pub pll_freq: Option<Hertz>,
}

impl Clocks {
    /// The configured PLL output frequency, `None` when the PLL is off.
    pub fn pll_clk(&self) -> (r: Option<Hertz>)
        ensures
            r == self.pll_freq,
    {
        self.pll_freq
    }
}

/// Handle to the clock-control subsystem with its frozen configuration.
pub struct Rcc {
    pub clocks: Clocks,
}

} // verus!
