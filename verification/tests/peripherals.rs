use phytium_hal::gpio::{GpioPins, PhitiumGpio, PhitiumGpioDrv};
use phytium_hal::iic_master::{fi2c_master_write_in_bounds, fi2c_mio_master_config};
use phytium_hal::iic_slave::{
    fi2c_slave_abort, fi2c_slave_read_processed, fi2c_slave_read_request, fi2c_slave_stop,
    fi2c_slave_write_received, fi2c_slave_write_request, FI2cSlaveData,
};
use phytium_hal::iopad::{IoPadCtrl, PollMode};
use phytium_hal::mio::PhitiumMio;
use phytium_hal::pinctrl::{FMioFuncGetAddress, FMioFuncGetIrqNum, FMioFuncInit, FIOPadSetFunc, PadCtrl, PadRegs};
use phytium_hal::pwm::{PwmCtrl, PwmCtrlRegs};
use phytium_hal::spi::{PhytiumSpi, PhytiumSpiDrv};
use phytium_hal::tacho::{Tacho, TachoRegs, TACHO_CYCLE_DEFAULT};
use phytium_hal::watchdog::{SbsaGpio, SbsaGwdt};
use phytium_hal::POLL_BOUND;

#[test]
fn gpio_pin_dir_and_data_are_independent() {
    let mut drv = PhitiumGpioDrv::new(0x2803_5000);
    drv.set_pin_dir(GpioPins::pin(3), true);
    assert_eq!(drv.gpio.dir.bits(), 1 << 3);
    assert_eq!(drv.gpio.data.bits(), 0);
    drv.set_pin_data(GpioPins::pin(3), true);
    drv.set_pin_data(GpioPins::pin(7), true);
    assert_eq!(drv.gpio.data.bits(), (1 << 3) | (1 << 7));
    drv.set_pin_data(GpioPins::pin(3), false);
    assert_eq!(drv.gpio.data.bits(), 1 << 7);
    assert_eq!(drv.gpio.dir.bits(), 1 << 3);
}

#[test]
fn gpio_mask_operations_touch_every_named_pin() {
    let mut gpio = PhitiumGpio::new();
    let mask = GpioPins::from_bits_truncate(0xff00);
    gpio.set_pin_dir(mask, true);
    assert_eq!(gpio.dir.bits(), 0xff00);
    gpio.set_pin_dir(GpioPins::from_bits_truncate(0x0f00), false);
    assert_eq!(gpio.dir.bits(), 0xf000);
}

#[test]
fn spi_init_programs_baud_and_mode() {
    let mut drv = PhytiumSpiDrv::new(0x2803_a000);
    let mut regs = PhytiumSpi::new();
    drv.init(&mut regs, 16_000_000, true);
    assert_eq!(regs.baudr, 3);
    assert_eq!(regs.ctrl_r0, 1 << 11);
    assert_eq!(regs.ssienr, 1);
    assert_eq!(regs.ser, 1);
    assert_eq!(drv.baudrate, 16_000_000);
    assert!(drv.test_mode);
    drv.init(&mut regs, 1_000_000, false);
    assert_eq!(regs.baudr, 50);
    assert_eq!(regs.ctrl_r0, 0);
}

#[test]
fn spi_send_waits_for_fifo_room() {
    let mut drv = PhytiumSpiDrv::new(0x2803_a000);
    let mut regs = PhytiumSpi::new();
    let room = vec![0u32, 0, 1 << 2];
    assert!(drv.send(&mut regs, &room, 0x5a));
    assert_eq!(regs.dr, 0x5a);
    let never = vec![0u32; POLL_BOUND as usize];
    assert!(!drv.send(&mut regs, &never, 0x77));
    assert_eq!(regs.dr, 0x5a);
}

#[test]
fn spi_recv_reads_low_byte_when_data_arrives() {
    let mut drv = PhytiumSpiDrv::new(0x2803_a000);
    let mut regs = PhytiumSpi::new();
    regs.dr = 0x1_23ab;
    let data_ready = vec![1u32 << 3];
    assert_eq!(drv.recv(&mut regs, &data_ready), Some(0xab));
    let never = vec![0u32; 4];
    assert_eq!(drv.recv(&mut regs, &never), None);
}

#[test]
fn watchdog_lifecycle_and_timeout_formula() {
    let mut wdt = SbsaGwdt::new(0x2804_0000);
    let mut regs = SbsaGpio { wrr: 7, wcs: 5000, wor: 9 };
    wdt.init(&mut regs);
    assert_eq!(regs.wcs, 0);
    assert_eq!(regs.wor, 0);
    regs.wcs = 5000;
    assert!(wdt.set_timeout(&mut regs, 3));
    assert_eq!(regs.wor, (100_000_000u64 * 3 / 2) as u32);
    // A request past the admitted maximum is clamped to wcs / 1000.
    assert!(wdt.set_timeout(&mut regs, 10));
    assert_eq!(regs.wor, (100_000_000u64 * 5 / 2) as u32);
    wdt.start(&mut regs);
    assert_eq!(regs.wcs, 1);
    wdt.keepalive(&mut regs);
    assert_eq!(regs.wrr, 0);
    wdt.stop(&mut regs);
    assert_eq!(regs.wcs, 0);
}

#[test]
fn watchdog_rejects_overflowing_cycle_count() {
    let mut wdt = SbsaGwdt::new(0x2804_0000);
    // The control value admits 200 ms-steps; 100 of them overflow the
    // 32-bit compare register at the 100 MHz clock.
    let mut regs = SbsaGpio { wrr: 0, wcs: 200_000, wor: 11 };
    assert!(!wdt.set_timeout(&mut regs, 100));
    assert_eq!(regs.wor, 11);
    assert_eq!(regs.wcs, 200_000);
    // 85 steps still fit.
    assert!(wdt.set_timeout(&mut regs, 85));
    assert_eq!(regs.wor, (100_000_000u64 * 85 / 2) as u32);
}

#[test]
fn mio_role_selection() {
    let mut mio = PhitiumMio::new(0x2801_4000);
    mio.set_uart();
    assert_eq!(mio.func_sel, 1);
    mio.set_i2c();
    assert_eq!(mio.func_sel, 0);
    mio.func_sel_state = 0b01;
    assert_eq!(mio.get_func_raw(), 1);
    mio.version = 0x0102_0304;
    assert_eq!(mio.get_version(), 0x0102_0304);
}

#[test]
fn mio_func_helpers() {
    let mut mio = PhitiumMio::new(0x2801_4000);
    assert!(FMioFuncInit(&mut mio, 0));
    assert_eq!(mio.func_sel, 0);
    assert!(FMioFuncInit(&mut mio, 1));
    assert_eq!(mio.func_sel, 1);
    assert!(!FMioFuncInit(&mut mio, 2));
    mio.func_sel_state = 1;
    assert_eq!(FMioFuncGetAddress(&mio, 0), 1);
    assert_eq!(FMioFuncGetAddress(&mio, 5), 0);
    assert_eq!(FMioFuncGetIrqNum(&mio, 0), 24);
}

#[test]
fn pad_set_func_only_on_documented_offsets() {
    let ctrl = PadCtrl::new(0x32b3_0000);
    assert_ne!(ctrl.base, 0);
    let mut regs = PadRegs::new();
    let h = phytium_hal::pinctrl::FIOPadCtrl {
        config: phytium_hal::pinctrl::FIOPadConfig { instance_id: 0, base_address: 0x32b3_0000 },
        is_ready: 0x1111_1111,
    };
    assert!(FIOPadSetFunc(&h, &mut regs, 0x00d0, 5));
    assert_eq!(regs.x_reg0_scl & 0xf, 5);
    assert_eq!(regs.x_reg0_sda, 0);
    assert!(FIOPadSetFunc(&h, &mut regs, 0x00d4, 5));
    assert!(FIOPadSetFunc(&h, &mut regs, 0x00d8, 0));
    assert!(!FIOPadSetFunc(&h, &mut regs, 0x00dc, 5));
    assert!(!FIOPadSetFunc(&h, &mut regs, 0x0000, 5));
}

#[test]
fn iopad_register_lookup_checks_offsets() {
    let ctrl = IoPadCtrl::new(0x32b3_0000);
    assert!(ctrl.reg0_by_offset(0x24c).is_ok());
    assert_eq!(ctrl.reg0_by_offset(0x24c).unwrap().addr, 0x32b3_024c);
    assert!(ctrl.reg0_by_offset(0x250).is_err());
    assert!(ctrl.reg0_by_offset(0x0d2).is_err());
    assert!(ctrl.reg1_by_offset(0x1024).is_ok());
    assert!(ctrl.reg1_by_offset(0x1020).is_err());
    assert!(ctrl.reg1_by_offset(0x1250).is_err());
    assert!(ctrl.reg1_by_offset(0x1026).is_err());
}

#[test]
fn iopad_reg0_field_programming() {
    let ctrl = IoPadCtrl::new(0x32b3_0000);
    let mut reg = ctrl.reg0_by_offset(0x00d0).unwrap();
    reg.value = 0xffff_ff00;
    assert_eq!(reg.set_func(3), Ok(()));
    assert_eq!(reg.value & 0x7, 3);
    assert_eq!(reg.value & !0x7, 0xffff_ff00);
    assert_eq!(reg.set_func(7), Err("invalid func, must range 0-6"));
    assert_eq!(reg.set_drive(15), Ok(()));
    assert_eq!((reg.value >> 4) & 0xf, 15);
    assert_eq!(reg.set_drive(16), Err("invalid drive mode, must range 0-15"));
    assert_eq!(reg.set_poll_mode(PollMode::PollUp), Ok(()));
    assert_eq!((reg.value >> 8) & 0x3, 2);
    assert_eq!(reg.set_poll_mode(PollMode::PollNone), Ok(()));
    assert_eq!((reg.value >> 8) & 0x3, 0);
}

#[test]
fn iopad_reg1_delay_programming() {
    let ctrl = IoPadCtrl::new(0x32b3_0000);
    let mut reg = ctrl.reg1_by_offset(0x1024).unwrap();
    // Two 336 ps stages and three 100 ps stages: enable bit, then the two
    // counts less one at bits 1 and 4.
    assert_eq!(reg.set_input_delay(2, 3), Ok(()));
    assert_eq!(reg.value & 0xff, 1 | (2 << 1) | (1 << 4));
    assert_eq!(reg.set_output_delay(8, 8), Ok(()));
    assert_eq!((reg.value >> 8) & 0xff, 1 | (7 << 1) | (7 << 4));
    assert_eq!(reg.set_input_delay(9, 1), Err("param invalid"));
    assert_eq!(reg.set_output_delay(1, 9), Err("param invalid"));
}

#[test]
fn tacho_init_sequence() {
    let mut tacho = Tacho::new(0x2805_4000);
    let mut regs = TachoRegs::new();
    // The reset bit self-clears on the second read.
    let samples = vec![1u32 << 2, 0];
    assert!(tacho.init(&mut regs, &samples));
    assert_eq!(regs.ctrl & 0x3, 1);
    assert_eq!((regs.ctrl >> 20) & 0x3, 2);
    assert_eq!((regs.ctrl >> 25) & 1, 1);
    assert_eq!((regs.ctrl >> 31) & 1, 1);
    assert_eq!((regs.ctrl >> 2) & 1, 0);
    assert_eq!(regs.tacho_cycle, TACHO_CYCLE_DEFAULT);
}

#[test]
fn tacho_init_times_out_when_reset_sticks() {
    let mut tacho = Tacho::new(0x2805_4000);
    let mut regs = TachoRegs::new();
    let stuck = vec![1u32 << 2; POLL_BOUND as usize];
    assert!(!tacho.init(&mut regs, &stuck));
    assert_eq!(regs.ctrl, 1 << 2);
    assert_eq!(regs.tacho_cycle, 0);
}

#[test]
fn tacho_result_valid_bit() {
    let tacho = Tacho::new(0x2805_4000);
    let mut regs = TachoRegs::new();
    regs.tach_result = 0x8000_1234;
    assert_eq!(tacho.get_result(&regs), Some(0x1234));
    regs.tach_result = 0x7fff_ffff;
    assert_eq!(tacho.get_result(&regs), None);
}

#[test]
fn pwm_ctrl_init_sequence() {
    let mut pwm = PwmCtrl::new(0x2804_a000);
    let mut regs = PwmCtrlRegs::new();
    let samples = vec![1u32, 0];
    assert!(pwm.init(&mut regs, &samples));
    assert_eq!(regs.period & 0xffff, 10000);
    assert_eq!(regs.ccr & 0xffff, 5000);
    assert_eq!((regs.tim_ctrl >> 27) & 0x1f, 1);
    assert_eq!((regs.tim_ctrl >> 1) & 1, 1);
    assert_eq!(regs.tim_ctrl & 1, 0);
    assert_eq!((regs.pwm_ctrl >> 2) & 1, 1);
    assert_eq!((regs.pwm_ctrl >> 4) & 0x7, 3);
}

#[test]
fn pwm_ctrl_init_times_out_when_reset_sticks() {
    let mut pwm = PwmCtrl::new(0x2804_a000);
    let mut regs = PwmCtrlRegs::new();
    let stuck = vec![1u32; POLL_BOUND as usize];
    assert!(!pwm.init(&mut regs, &stuck));
    assert_eq!(regs.tim_ctrl, 1);
}

#[test]
fn pwm_ctrl_change_duty() {
    let mut pwm = PwmCtrl::new(0x2804_a000);
    let mut regs = PwmCtrlRegs::new();
    let samples = vec![0u32];
    assert!(pwm.init(&mut regs, &samples));
    assert_eq!(pwm.change_duty(&mut regs, 25), Ok(()));
    // The compare register takes the low phase: (100 - 25) * 10000 / 100.
    assert_eq!(regs.ccr & 0xffff, 7500);
    assert_eq!(pwm.change_duty(&mut regs, 100), Ok(()));
    assert_eq!(regs.ccr & 0xffff, 0);
    assert_eq!(pwm.change_duty(&mut regs, 0), Err("duty must range between 1-100"));
    assert_eq!(pwm.change_duty(&mut regs, 101), Err("duty must range between 1-100"));
    assert_eq!(regs.ccr & 0xffff, 0);
}

#[test]
fn pwm_ctrl_change_duty_ignores_bits_outside_the_period_field() {
    let mut pwm = PwmCtrl::new(0x2804_a000);
    let mut regs = PwmCtrlRegs::new();
    let samples = vec![0u32];
    assert!(pwm.init(&mut regs, &samples));
    // Bit 16 of the raw period register lies outside the sixteen-bit period
    // field and must not enter the conversion.
    regs.period = 0x1_2710;
    assert_eq!(pwm.change_duty(&mut regs, 50), Ok(()));
    assert_eq!(regs.ccr, 5000);
}

#[test]
fn i2c_master_write_bounds_gate() {
    assert!(fi2c_master_write_in_bounds(16, 240));
    assert!(fi2c_master_write_in_bounds(255, 0));
    assert!(!fi2c_master_write_in_bounds(17, 240));
    assert!(!fi2c_master_write_in_bounds(256, 0));
    assert!(!fi2c_master_write_in_bounds(1, 256));
    assert!(fi2c_master_write_in_bounds(0, 255));
}

#[test]
fn i2c_master_config_assembly() {
    let mut mio = PhitiumMio::new(0x2801_4000);
    mio.func_sel_state = 1;
    let c = fi2c_mio_master_config(&mio, 0x50, 100_000);
    assert_eq!(c.instance_id, 1);
    assert_eq!(c.base_addr, 1);
    assert_eq!(c.irq_num, 24);
    assert_eq!(c.ref_clk_hz, 50_000_000);
    assert_eq!(c.slave_addr, 0x50);
    assert_eq!(c.speed_rate, 100_000);
    assert!(!c.use_7bit_addr);
}

#[test]
fn i2c_slave_offset_write_read_round_trip() {
    let mut slave = FI2cSlaveData::new();
    let mut byte: u8 = 0;
    fi2c_slave_write_request(&mut slave, &mut byte);
    assert!(slave.first_write);
    byte = 5;
    fi2c_slave_write_received(&mut slave, &mut byte);
    assert_eq!(slave.buff_idx, 5);
    assert!(!slave.first_write);
    byte = 0xaa;
    fi2c_slave_write_received(&mut slave, &mut byte);
    byte = 0xbb;
    fi2c_slave_write_received(&mut slave, &mut byte);
    assert_eq!(slave.buff[5], 0xaa);
    assert_eq!(slave.buff[6], 0xbb);
    assert_eq!(slave.buff_idx, 7);
    fi2c_slave_stop(&mut slave, &mut byte);
    assert!(slave.first_write);
    byte = 5;
    fi2c_slave_write_received(&mut slave, &mut byte);
    let mut out: u8 = 0;
    fi2c_slave_read_request(&mut slave, &mut out);
    assert_eq!(out, 0xaa);
    fi2c_slave_read_request(&mut slave, &mut out);
    assert_eq!(out, 0xbb);
    assert_eq!(slave.buff_idx, 7);
}

#[test]
fn i2c_slave_index_wraps_at_buffer_size() {
    let mut slave = FI2cSlaveData::new();
    let mut byte: u8 = 0x42;
    slave.first_write = false;
    slave.buff_idx = 257;
    fi2c_slave_write_received(&mut slave, &mut byte);
    assert_eq!(slave.buff[1], 0x42);
    assert_eq!(slave.buff_idx, 2);
    slave.buff_idx = 255;
    fi2c_slave_read_processed(&mut slave, &mut byte);
    assert_eq!(slave.buff_idx, 256);
    fi2c_slave_abort(&mut slave, &mut byte);
    assert_eq!(slave.buff_idx, 0);
}
