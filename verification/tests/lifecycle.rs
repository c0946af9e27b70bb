use phytium_hal::clock::{
    ClockCtrl, ClockRegs, FClockConfig, FClockCtrl, FClockGetFreq, FClockInit, FClockDeInit,
    FClockLookupConfig, FClockSetFreq,
};
use phytium_hal::cru::{
    CruRegs, FResetConfig, FResetCtrl, FResetInit, FResetDeInit, FResetLookupConfig,
    FResetPeripheral, FResetSystem,
};
use phytium_hal::iic_io::{fiopad_cfg_initialize, fiopad_de_initialize, fiopad_lookup_config};
use phytium_hal::pinctrl::{FIOPadCfgInitialize, FIOPadDeInitialize, FIOPadLookupConfig};
use phytium_hal::platform::platform_init;
use phytium_hal::READY_SENTINEL;

fn zero_clock() -> FClockCtrl {
    FClockCtrl { config: FClockConfig { instance_id: 0, base_address: 0 }, is_ready: 0 }
}

fn zero_reset() -> FResetCtrl {
    FResetCtrl { config: FResetConfig { instance_id: 0, base_address: 0 }, is_ready: 0 }
}

#[test]
fn clock_init_twice_keeps_first_config() {
    let mut h = zero_clock();
    let c1 = FClockConfig { instance_id: 0, base_address: 0x2800_0000 };
    let c2 = FClockConfig { instance_id: 0, base_address: 0xdead_0000 };
    assert!(FClockInit(&mut h, &c1));
    assert!(!FClockInit(&mut h, &c2));
    assert_eq!(h.config, c1);
    assert_eq!(h.is_ready, READY_SENTINEL);
}

#[test]
fn clock_deinit_lookup_init_cycle() {
    let mut h = zero_clock();
    let c = FClockLookupConfig(0).unwrap();
    assert!(FClockInit(&mut h, &c));
    assert!(FClockDeInit(&mut h));
    assert_eq!(h.is_ready, 0);
    assert_eq!(h.config.base_address, 0);
    let again = FClockLookupConfig(0).unwrap();
    assert!(FClockInit(&mut h, &again));
    assert_eq!(h.is_ready, READY_SENTINEL);
    assert_ne!(h.is_ready, zero_clock().is_ready);
}

#[test]
fn clock_lookup_bounds() {
    let c = FClockLookupConfig(0).unwrap();
    assert_eq!(c.instance_id, 0);
    assert_eq!(c.base_address, 0x2800_0000);
    assert!(FClockLookupConfig(1).is_none());
    assert!(FClockLookupConfig(u32::MAX).is_none());
}

#[test]
fn clock_set_freq_programs_divider() {
    let h = FClockCtrl {
        config: FClockConfig { instance_id: 0, base_address: 0x2800_0000 },
        is_ready: READY_SENTINEL,
    };
    let mut regs = ClockRegs::new();
    let ready = vec![1u32];
    assert!(FClockSetFreq(&h, &mut regs, &ready, 1_000_000));
    assert_eq!(regs.clk_div & 0xff, 50);
    assert_eq!(regs.clk_con & 1, 1);
    assert_eq!(FClockGetFreq(&h, &regs), 1_000_000);
}

#[test]
fn clock_set_freq_rejects_divider_overflow() {
    let h = zero_clock();
    let mut regs = ClockRegs { clk_con: 7, clk_div: 9, clk_status: 1 };
    let ready = vec![1u32];
    // 100 kHz asks for divider 500, past the eight-bit divider field.
    assert!(!FClockSetFreq(&h, &mut regs, &ready, 100_000));
    assert_eq!(regs, ClockRegs { clk_con: 7, clk_div: 9, clk_status: 1 });
}

#[test]
fn clock_set_freq_rejects_frequency_above_clock() {
    let h = zero_clock();
    let mut regs = ClockRegs::new();
    let ready = vec![1u32];
    // 60 MHz exceeds the 50 MHz input clock; the divider would be zero.
    assert!(!FClockSetFreq(&h, &mut regs, &ready, 60_000_000));
    assert_eq!(regs, ClockRegs::new());
}

#[test]
fn clock_set_freq_times_out_without_ready() {
    let h = zero_clock();
    let mut regs = ClockRegs::new();
    let never = vec![0u32; 600];
    assert!(!FClockSetFreq(&h, &mut regs, &never, 1_000_000));
}

#[test]
fn clock_ctrl_construction() {
    let c = ClockCtrl::new(0x2800_0000);
    assert_eq!(c.base, 0x2800_0000);
}

#[test]
fn reset_init_twice_keeps_first_config() {
    let mut h = zero_reset();
    let c1 = FResetLookupConfig(0).unwrap();
    let c2 = FResetConfig { instance_id: 0, base_address: 0x1234 };
    assert!(FResetInit(&mut h, &c1));
    assert!(!FResetInit(&mut h, &c2));
    assert_eq!(h.config, c1);
}

#[test]
fn reset_deinit_then_init_succeeds() {
    let mut h = zero_reset();
    assert!(FResetInit(&mut h, &FResetLookupConfig(0).unwrap()));
    assert!(FResetDeInit(&mut h));
    assert_eq!(h.is_ready, 0);
    assert!(FResetInit(&mut h, &FResetLookupConfig(0).unwrap()));
    assert_eq!(h.is_ready, READY_SENTINEL);
}

#[test]
fn reset_lookup_bounds() {
    let c = FResetLookupConfig(0).unwrap();
    assert_eq!(c.instance_id, 0);
    assert!(FResetLookupConfig(1).is_none());
    assert!(FResetLookupConfig(7).is_none());
}

#[test]
fn reset_peripheral_rejects_out_of_range_id() {
    let mut h = zero_reset();
    FResetInit(&mut h, &FResetLookupConfig(0).unwrap());
    let mut regs = CruRegs { cru_rst_ok: 0xabcd, cru_rst_status: 1 << 9 };
    let ready = vec![1u32 << 9];
    assert!(!FResetPeripheral(&h, &mut regs, &ready, 6));
    assert_eq!(regs.cru_rst_ok, 0xabcd);
    assert_eq!(regs.cru_rst_status, 1 << 9);
}

#[test]
fn reset_peripheral_in_range_programs_select() {
    let h = zero_reset();
    let mut regs = CruRegs::new();
    let ready = vec![1u32 << 9];
    assert!(FResetPeripheral(&h, &mut regs, &ready, 3));
    assert_eq!((regs.cru_rst_ok >> 1) & 0x1f, 3);
}

#[test]
fn reset_system_times_out_when_done_never_rises() {
    let h = zero_reset();
    let mut regs = CruRegs::new();
    let never = vec![0u32; 500];
    assert!(!FResetSystem(&h, &mut regs, &never));
    assert_eq!(regs.cru_rst_ok & 1, 1);
}

#[test]
fn pad_lifecycle_camel_case_variant() {
    let mut h = phytium_hal::pinctrl::FIOPadCtrl {
        config: phytium_hal::pinctrl::FIOPadConfig { instance_id: 0, base_address: 0 },
        is_ready: 0,
    };
    let c = FIOPadLookupConfig(0).unwrap();
    assert_eq!(c.base_address, 0x32B3_0000);
    assert!(FIOPadCfgInitialize(&mut h, &c));
    assert!(!FIOPadCfgInitialize(&mut h, &c));
    assert_eq!(h.config, c);
    assert!(FIOPadDeInitialize(&mut h));
    assert_eq!(h.is_ready, 0);
    assert!(FIOPadLookupConfig(2).is_none());
}

#[test]
fn pad_lifecycle_snake_case_variant() {
    let mut h = phytium_hal::iic_io::FIOPadCtrl {
        config: phytium_hal::iic_io::FIOPadConfig { instance_id: 0, base_address: 0 },
        is_ready: 0,
    };
    let c = fiopad_lookup_config(0).unwrap();
    assert_eq!(c.instance_id, 0);
    assert!(fiopad_cfg_initialize(&mut h, &c));
    assert!(!fiopad_cfg_initialize(&mut h, &c));
    assert!(fiopad_de_initialize(&mut h));
    assert_eq!(h.is_ready, 0);
    assert!(fiopad_lookup_config(1).is_none());
}

#[test]
fn platform_init_readies_all_and_rejects_rerun() {
    let mut cru = zero_reset();
    let mut pad = phytium_hal::pinctrl::FIOPadCtrl {
        config: phytium_hal::pinctrl::FIOPadConfig { instance_id: 0, base_address: 0 },
        is_ready: 0,
    };
    let mut clock = zero_clock();
    assert!(platform_init(&mut cru, &mut pad, &mut clock));
    assert_eq!(cru.is_ready, READY_SENTINEL);
    assert_eq!(pad.is_ready, READY_SENTINEL);
    assert_eq!(clock.is_ready, READY_SENTINEL);
    assert_eq!(cru.config.base_address, 0x2800_0000);
    assert_eq!(pad.config.base_address, 0x32B3_0000);
    assert!(!platform_init(&mut cru, &mut pad, &mut clock));
}
