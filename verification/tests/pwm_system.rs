use phytium_hal::driver_pwm::{
    compute_duty_register, ChannelRegs, PwmConfig, PwmController, PwmRegs, PwmSystem,
    CHANNELS_PER_CONTROLLER, PWM_CONTROLLERS,
};
use phytium_hal::POLL_BOUND;

fn config(frequency: u32, duty_num: u32, duty_den: u32) -> PwmConfig {
    PwmConfig {
        frequency,
        duty_num,
        duty_den,
        counting_mode: 0,
        deadtime_ns: None,
        use_fifo: false,
        output_behavior: 1,
        initial_value: 0,
    }
}

#[test]
fn duty_register_boundaries() {
    assert_eq!(compute_duty_register(10000, 0, 2), 0);
    assert_eq!(compute_duty_register(10000, 2, 2), 10000);
    assert_eq!(compute_duty_register(0xffff, 0, 1), 0);
    assert_eq!(compute_duty_register(0xffff, 1, 1), 0xffff);
}

#[test]
fn duty_register_truncates_toward_zero() {
    assert_eq!(compute_duty_register(10, 1, 3), 3);
    assert_eq!(compute_duty_register(9999, 1, 2), 4999);
}

#[test]
fn duty_register_monotonic_in_duty() {
    let mut last = 0;
    for num in 0..=16 {
        let v = compute_duty_register(10000, num, 16);
        assert!(v >= last);
        last = v;
    }
}

#[test]
fn configure_channel_scenario_one_kilohertz_half_duty() {
    let mut ctrl = PwmController::new(0x2804_a000);
    let res = ctrl.configure_channel(0, config(1000, 1, 2));
    assert_eq!(res, Ok(()));
    // The divider and period land so that divider * period stays within one
    // tick of the 50_000-cycle target of a 1 kHz output at 50 MHz.
    let div: u32 = 50_000_000 / 1000;
    let period_cycles: u32 = 50_000_000 / (div * 1000);
    let period_reg = period_cycles - 1;
    assert!((49_999..=50_000).contains(&(div as u64 * period_cycles as u64)));
    // The divider field holds the low twelve bits of the computed divider.
    assert_eq!((ctrl.regs.ch0.tim_ctrl >> 16) & 0xfff, div & 0xfff);
    assert_eq!(ctrl.regs.ch0.pwm_period & 0xffff, period_reg);
    // The duty register holds half the period, rounded down.
    assert_eq!(ctrl.regs.ch0.pwm_ccr & 0xffff, period_reg / 2);
    assert!(ctrl.channel0.config.is_some());
    assert!(!ctrl.channel0.enabled);
    // The channel is programmed disabled until `enable_channel`.
    assert_eq!((ctrl.regs.ch0.tim_ctrl >> 1) & 1, 0);
}

#[test]
fn configure_channel_rejects_bad_channel() {
    let mut ctrl = PwmController::new(0x2804_a000);
    let before = ctrl;
    assert_eq!(
        ctrl.configure_channel(CHANNELS_PER_CONTROLLER, config(1000, 1, 2)),
        Err("Invalid channel number")
    );
    assert_eq!(ctrl, before);
}

#[test]
fn configure_channel_rejects_bad_duty() {
    let mut ctrl = PwmController::new(0x2804_a000);
    let before = ctrl;
    assert_eq!(
        ctrl.configure_channel(0, config(1000, 3, 2)),
        Err("Duty cycle must be between 0 and 1")
    );
    assert_eq!(
        ctrl.configure_channel(0, config(1000, 0, 0)),
        Err("Duty cycle must be between 0 and 1")
    );
    assert_eq!(ctrl, before);
}

#[test]
fn configure_channel_rejects_divider_overflow() {
    let mut ctrl = PwmController::new(0x2804_a000);
    let before = ctrl;
    // 1 Hz asks for a divider of 50_000_000, far past the conversion range.
    assert_eq!(ctrl.configure_channel(0, config(1, 1, 2)), Err("Divider value too large"));
    assert_eq!(ctrl, before);
}

#[test]
fn configure_channel_rejects_frequency_above_clock() {
    let mut ctrl = PwmController::new(0x2804_a000);
    let before = ctrl;
    assert_eq!(ctrl.configure_channel(0, config(60_000_000, 1, 2)), Err("Period too small"));
    assert_eq!(ctrl, before);
}

#[test]
fn configure_channel_programs_deadband() {
    let mut ctrl = PwmController::new(0x2804_a000);
    let mut c = config(1000, 1, 2);
    c.deadtime_ns = Some(1000);
    assert_eq!(ctrl.configure_channel(1, c), Ok(()));
    // 1000 ns at 50 MHz is 50 ticks, programmed into both delay fields.
    assert_eq!(ctrl.regs.dbdly & 0x3ff, 50);
    assert_eq!((ctrl.regs.dbdly >> 10) & 0x3ff, 50);
    // Full dead band, channel-0 source, active-high.
    assert_eq!((ctrl.regs.dbctrl >> 4) & 0x3, 3);
    assert_eq!((ctrl.regs.dbctrl >> 1) & 1, 0);
    assert_eq!((ctrl.regs.dbctrl >> 2) & 0x3, 0);
    // Channel 0 is untouched.
    assert_eq!(ctrl.regs.ch0, ChannelRegs::new());
}

#[test]
fn configure_channel_deadband_saturates() {
    let mut ctrl = PwmController::new(0x2804_a000);
    let mut c = config(1000, 1, 2);
    c.deadtime_ns = Some(1_000_000);
    assert_eq!(ctrl.configure_channel(0, c), Ok(()));
    assert_eq!(ctrl.regs.dbdly & 0x3ff, 1023);
}

#[test]
fn configure_channel_fifo_mode_sets_feed_bits() {
    let mut ctrl = PwmController::new(0x2804_a000);
    let mut c = config(1000, 1, 2);
    c.use_fifo = true;
    assert_eq!(ctrl.configure_channel(0, c), Ok(()));
    assert_eq!((ctrl.regs.ch0.pwm_ctrl >> 8) & 1, 1);
    assert_eq!((ctrl.regs.ch0.pwm_ctrl >> 9) & 1, 1);
}

#[test]
fn enable_and_disable_channel() {
    let mut ctrl = PwmController::new(0x2804_a000);
    assert_eq!(ctrl.configure_channel(0, config(1000, 1, 2)), Ok(()));
    assert_eq!(ctrl.enable_channel(0), Ok(()));
    assert!(ctrl.channel0.enabled);
    assert_eq!((ctrl.regs.ch0.tim_ctrl >> 1) & 1, 1);
    ctrl.disable_channel(0);
    assert!(!ctrl.channel0.enabled);
    assert_eq!((ctrl.regs.ch0.tim_ctrl >> 1) & 1, 0);
    assert_eq!(ctrl.enable_channel(9), Err("Invalid channel number"));
}

#[test]
fn safe_stop_drains_then_disables() {
    let mut ctrl = PwmController::new(0x2804_a000);
    ctrl.configure_channel(0, config(1000, 1, 2)).unwrap();
    ctrl.enable_channel(0).unwrap();
    let draining = vec![3u32, 2, 1, 0];
    assert_eq!(ctrl.safe_stop_channel(0, &draining), Ok(()));
    assert!(!ctrl.channel0.enabled);
    assert_eq!(ctrl.regs.ch0.pwm_ccr & 0xffff, 0);
}

#[test]
fn safe_stop_times_out_on_stuck_counter() {
    let mut ctrl = PwmController::new(0x2804_a000);
    ctrl.enable_channel(1).unwrap();
    let stuck = vec![7u32; POLL_BOUND as usize];
    assert_eq!(ctrl.safe_stop_channel(1, &stuck), Err("Channel counter did not drain"));
    assert!(ctrl.channel1.enabled);
}

#[test]
fn push_fifo_respects_full_flag() {
    let mut ctrl = PwmController::new(0x2804_a000);
    assert_eq!(ctrl.push_fifo_data(0, 0x1234), Ok(()));
    assert_eq!(ctrl.regs.ch0.pwm_ccr & 0xffff, 0x1234);
    ctrl.regs.ch0.state = 1 << 3;
    assert_eq!(ctrl.push_fifo_data(0, 0x5678), Err("FIFO full"));
    assert_eq!(ctrl.regs.ch0.pwm_ccr & 0xffff, 0x1234);
    assert_eq!(ctrl.push_fifo_data(5, 0), Err("Invalid channel number"));
}

#[test]
fn interrupt_refills_fifo_from_configuration() {
    let mut ctrl = PwmController::new(0x2804_a000);
    let mut c = config(1000, 1, 2);
    c.use_fifo = true;
    ctrl.configure_channel(0, c).unwrap();
    // A drained FIFO with the counter at zero and a period of 9999 ticks.
    ctrl.regs.ch0.state = 1 << 2;
    ctrl.regs.ch0.tim_cnt = 0;
    ctrl.regs.ch0.pwm_period = 9999;
    ctrl.handle_interrupt();
    // The refill pushes (9999 + 1) * 1 / 2 = 5000 ticks.
    assert_eq!(ctrl.regs.ch0.pwm_ccr & 0xffff, 5000);
    // The FIFO-empty flag was acknowledged by a whole-register write.
    assert_eq!(ctrl.regs.ch0.state, 1 << 2);
}

#[test]
fn interrupt_refill_saturates_to_the_compare_field() {
    let mut ctrl = PwmController::new(0x2804_a000);
    let mut c = config(1000, 1, 1);
    c.use_fifo = true;
    ctrl.configure_channel(0, c).unwrap();
    // A full-scale period with a whole duty asks for 0x10000 ticks, one past
    // the sixteen-bit compare field; the refill saturates.
    ctrl.regs.ch0.state = 1 << 2;
    ctrl.regs.ch0.tim_cnt = 0;
    ctrl.regs.ch0.pwm_period = 0xffff;
    ctrl.handle_interrupt();
    assert_eq!(ctrl.regs.ch0.pwm_ccr & 0xffff, 0xffff);
}

#[test]
fn interrupt_acknowledges_flags_without_config() {
    let mut ctrl = PwmController::new(0x2804_a000);
    ctrl.regs.ch1.state = (1 << 1) | 1;
    ctrl.handle_interrupt();
    // The overflow acknowledge writes the whole register, then the channel
    // flag is set back on top of it by a read-modify-write.
    assert_eq!(ctrl.regs.ch1.state, (1 << 1) | 1);
}

#[test]
fn pwm_system_builds_eight_controllers() {
    let sys = PwmSystem::new();
    assert_eq!(sys.controllers.len(), PWM_CONTROLLERS);
    assert_eq!(sys.controllers[0].base, 0x2804_a000);
    assert_eq!(sys.controllers[5].base, 0x2804_f000);
    assert_eq!(sys.controllers[6].base, 0x2805_0000);
    assert_eq!(sys.controllers[7].base, 0x2805_1000);
    assert!(sys.controllers.iter().all(|c| c.channel0.config.is_none()));
    assert_eq!(sys.global_enable_reg, 0);
}

#[test]
fn global_enable_masks_configured_controllers() {
    let mut sys = PwmSystem::new();
    let mut c2 = sys.controller(2).unwrap();
    c2.configure_channel(0, config(1000, 1, 2)).unwrap();
    sys.set_controller(2, c2);
    let mut c7 = sys.controller(7).unwrap();
    c7.configure_channel(1, config(2000, 1, 4)).unwrap();
    sys.set_controller(7, c7);
    sys.global_enable();
    assert_eq!(sys.global_enable_reg, (1 << 2) | (1 << 7));
    assert!(sys.controller(8).is_none());
}
