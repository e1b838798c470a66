use console_core::apu::FrameCounter;
use console_core::apu::FrameCounterMode;
use console_core::apu::FrameCounterResetState;

#[test]
fn four_step_quarter_pulses_per_period() {
    let mut fc = FrameCounter::new();
    let mut quarter = 0;
    let mut half = 0;
    let mut pulse_ticks = Vec::new();
    for tick in 1..=29830u32 {
        fc.tick();
        if fc.generate_quarter_frame_clock() {
            quarter += 1;
            pulse_ticks.push(tick);
        }
        if fc.generate_half_frame_clock() {
            half += 1;
        }
    }
    // Exactly 4 quarter-frame and 2 half-frame pulses per period, at the
    // documented cycle counts.
    assert_eq!(quarter, 4);
    assert_eq!(half, 2);
    assert_eq!(pulse_ticks, vec![7456, 14912, 22370, 29828]);
    // The counter has wrapped: the next period repeats.
    assert_eq!(fc.cpu_ticks, 29830);
    fc.tick();
    assert_eq!(fc.cpu_ticks, 1);
}

#[test]
fn five_step_pulses_per_period() {
    let mut fc = FrameCounter::new();
    // Switch to 5-step mode and let the delayed reset settle.
    fc.process_joy2_update(0x80);
    let mut settle = 0;
    while fc.reset_state != FrameCounterResetState::JustReset {
        fc.tick();
        settle += 1;
        assert!(settle <= 4);
    }
    // The settling reset itself raises an immediate pulse in 5-step mode.
    assert!(fc.generate_quarter_frame_clock());
    assert!(fc.generate_half_frame_clock());
    // Over the following full period there are 4 more fixed pulses:
    // 5 per period in total.
    let mut quarter = 0;
    let mut pulse_ticks = Vec::new();
    for _ in 0..37282u32 {
        fc.tick();
        if fc.generate_quarter_frame_clock() {
            quarter += 1;
            pulse_ticks.push(fc.cpu_ticks);
        }
    }
    assert_eq!(quarter, 4);
    assert_eq!(pulse_ticks, vec![7456, 14912, 22370, 37280]);
}

#[test]
fn mode_switch_never_resets_on_write_cycle() {
    let mut fc = FrameCounter::new();
    for _ in 0..101 {
        fc.tick();
    }
    assert_eq!(fc.cpu_ticks, 101);
    fc.process_joy2_update(0x80);
    // The write itself does not move the counter or apply the reset.
    assert_eq!(fc.cpu_ticks, 101);
    assert_eq!(fc.reset_state, FrameCounterResetState::Joy2Updated);
    // The first tick after the write can only stage the reset.
    fc.tick();
    assert_eq!(fc.cpu_ticks, 102);
    assert_eq!(fc.reset_state, FrameCounterResetState::PendingReset);
    // It lands on the next even cycle, two ticks after the write.
    fc.tick();
    assert_eq!(fc.reset_state, FrameCounterResetState::PendingReset);
    fc.tick();
    assert_eq!(fc.cpu_ticks, 0);
    assert_eq!(fc.reset_state, FrameCounterResetState::JustReset);
}

#[test]
fn interrupt_window_in_four_step_mode() {
    let mut fc = FrameCounter::new();
    let mut flagged = Vec::new();
    for tick in 1..=29830u32 {
        fc.tick();
        if fc.should_set_interrupt_flag() {
            flagged.push(tick);
        }
    }
    assert_eq!(flagged, vec![29827, 29828, 29829]);
    // The inhibit bit suppresses the flag entirely.
    fc.process_joy2_update(0x40);
    assert!(fc.interrupt_inhibit_flag);
    assert_eq!(fc.mode, FrameCounterMode::FourStep);
    for _ in 0..29830u32 {
        fc.tick();
        assert!(!fc.should_set_interrupt_flag());
    }
}
