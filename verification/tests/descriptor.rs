use stm32l0_usb::pac::USB_REGISTER_BASE;
use stm32l0_usb::usb::{
    DP_PULL_UP_FEATURE, EP_MEMORY_BASE, EP_MEMORY_SIZE, MAX_SYSCLK_FREQ, STARTUP_DELAY_CYCLES,
    USB,
};

#[test]
fn endpoint_memory_constants_exact() {
    // Bit-exact values any adapter for this chip family must declare.
    assert_eq!(EP_MEMORY_SIZE, 1024);
    assert_eq!(EP_MEMORY_BASE, 0x4000_6000);
}

#[test]
fn register_base_exact() {
    assert_eq!(USB_REGISTER_BASE, 0x4000_5C00);
}

#[test]
fn pull_up_flag_is_true() {
    // The engine queries the flag, sees the chip drives D+ itself, and
    // leaves external pull-up circuitry alone.
    assert!(DP_PULL_UP_FEATURE);
    let caps = USB::capabilities();
    assert!(caps.dp_pull_up);
}

#[test]
fn capabilities_match_constants() {
    let caps = USB::capabilities();
    assert_eq!(caps.register_base, USB_REGISTER_BASE);
    assert_eq!(caps.ep_memory_base, EP_MEMORY_BASE);
    assert_eq!(caps.ep_memory_size, EP_MEMORY_SIZE);
    assert_eq!(caps.dp_pull_up, DP_PULL_UP_FEATURE);
}

#[test]
fn startup_delay_covers_one_microsecond() {
    let cycles = USB::startup_delay_cycles();
    assert_eq!(cycles, STARTUP_DELAY_CYCLES);
    assert_eq!(cycles, 32);
    // At the highest core clock the chip can run, the wait still spans the
    // datasheet's 1 microsecond stabilization time.
    assert!(u64::from(cycles) * 1_000_000 >= u64::from(MAX_SYSCLK_FREQ));
}
