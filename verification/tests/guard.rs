use stm32l0_usb::gpio::{PA11, PA12};
use stm32l0_usb::pac;
use stm32l0_usb::rcc::{Clocks, Hertz, Rcc, HSI48};
use stm32l0_usb::usb::{UsbClockError, USB, USB_PLL_FREQ};

fn assert_sync<T: Sync>() {}

fn rcc_with_pll(pll_freq: Option<Hertz>) -> Rcc {
    Rcc { clocks: Clocks { pll_freq } }
}

#[test]
fn pll_exact_frequency_succeeds() {
    let rcc = rcc_with_pll(Some(Hertz(96_000_000)));
    let r = USB::new_with_pll(
        pac::USB::new(),
        PA11::new().into_analog(),
        PA12::new().into_analog(),
        &rcc,
    );
    assert!(r.is_ok());
}

#[test]
fn pll_wrong_frequency_refused() {
    for freq in [1u32, 48_000_000, 95_999_999, 96_000_001, u32::MAX] {
        let rcc = rcc_with_pll(Some(Hertz(freq)));
        let r = USB::new_with_pll(
            pac::USB::new(),
            PA11::new().into_analog(),
            PA12::new().into_analog(),
            &rcc,
        );
        assert_eq!(r.err(), Some(UsbClockError::WrongPllFrequency));
    }
}

#[test]
fn pll_missing_refused() {
    let rcc = rcc_with_pll(None);
    let r = USB::new_with_pll(
        pac::USB::new(),
        PA11::new().into_analog(),
        PA12::new().into_analog(),
        &rcc,
    );
    assert_eq!(r.err(), Some(UsbClockError::PllNotConfigured));
}

#[test]
fn hsi48_variant_always_succeeds() {
    // No clock configuration is passed at all: the oscillator token is the
    // entire proof, and construction is total.
    let _guard: USB = USB::new(
        pac::USB::new(),
        PA11::new().into_analog(),
        PA12::new().into_analog(),
        HSI48::new(),
    );
}

#[test]
fn pll_frequency_constant_exact() {
    assert_eq!(USB_PLL_FREQ, 96_000_000);
}

#[test]
fn guard_shareable_across_contexts() {
    // The guard may be referenced from main-line and interrupt context at
    // once; it holds no mutable state, so it is Sync by composition.
    assert_sync::<USB>();
}
