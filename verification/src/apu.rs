//! The audio unit's frame sequencer: a divider over CPU cycles that raises
//! quarter-frame and half-frame pulses at fixed counts, with a 4-step and a
//! 5-step mode and a delayed reset state machine for mode switches.

use vstd::prelude::*;

verus! {

/// Sequencer mode: 4 steps per roughly 29830-cycle period, or 5 steps per
/// roughly 37282-cycle period.
#[derive(Debug, Clone, Copy, PartialEq, Eq, Structural)]
pub enum FrameCounterMode {
    FourStep,
    FiveStep,
}

/// Progress of a mode-switch write towards its delayed counter reset:
/// observed, pending, applied on an even cycle, settled.
#[derive(Debug, Clone, Copy, PartialEq, Eq, Structural)]
pub enum FrameCounterResetState {
    Joy2Updated,
    PendingReset,
    JustReset,
    Idle,
}

/// The frame sequencer itself: a CPU-cycle counter, the step mode, the
/// interrupt inhibit bit, and the delayed-reset state machine.
#[derive(Debug, Clone)]
pub struct FrameCounter {
    pub cpu_ticks: u16,
    pub mode: FrameCounterMode,
    pub interrupt_inhibit_flag: bool,
    pub reset_state: FrameCounterResetState,
}

/// Length in cycles of the 4-step sequence.
pub const FOUR_STEP_PERIOD: u16 = 29830;

/// Length in cycles of the 5-step sequence.
pub const FIVE_STEP_PERIOD: u16 = 37282;

/// The sequencer state after one CPU cycle: a settled reset clears, the
/// cycle counter advances and wraps at the end of the active sequence, and
/// on even cycles the delayed reset advances one stage.
pub open spec fn spec_frame_counter_tick(fc: FrameCounter) -> FrameCounter {
    let cleared = if fc.reset_state == FrameCounterResetState::JustReset {
        FrameCounter { reset_state: FrameCounterResetState::Idle, ..fc }
    } else {
        fc
    };
    let ticks: u16 = if (cleared.cpu_ticks == FOUR_STEP_PERIOD && cleared.mode
        == FrameCounterMode::FourStep) || cleared.cpu_ticks == FIVE_STEP_PERIOD {
        1u16
    } else {
        (cleared.cpu_ticks + 1) as u16
    };
    let counted = FrameCounter { cpu_ticks: ticks, ..cleared };
    if ticks % 2 == 0 {
        if counted.reset_state == FrameCounterResetState::Joy2Updated {
            FrameCounter { reset_state: FrameCounterResetState::PendingReset, ..counted }
        } else if counted.reset_state == FrameCounterResetState::PendingReset {
            FrameCounter {
                cpu_ticks: 0,
                reset_state: FrameCounterResetState::JustReset,
                ..counted
            }
        } else {
            counted
        }
    } else {
        counted
    }
}

/// Whether the sequencer raises a quarter-frame pulse (envelope and
/// linear-counter updates) in its current state.
pub open spec fn spec_quarter_frame_clock(fc: FrameCounter) -> bool {
    (fc.cpu_ticks == 7456 || fc.cpu_ticks == 14912 || fc.cpu_ticks == 22370 || (fc.cpu_ticks
        == 29828 && fc.mode == FrameCounterMode::FourStep) || fc.cpu_ticks == 37280) || (
    fc.reset_state == FrameCounterResetState::JustReset && fc.mode == FrameCounterMode::FiveStep)
}

/// Whether the sequencer raises a half-frame pulse (length-counter and
/// sweep updates) in its current state.
pub open spec fn spec_half_frame_clock(fc: FrameCounter) -> bool {
    (fc.cpu_ticks == 14912 || (fc.cpu_ticks == 29828 && fc.mode == FrameCounterMode::FourStep)
        || fc.cpu_ticks == 37280) || (fc.reset_state == FrameCounterResetState::JustReset
        && fc.mode == FrameCounterMode::FiveStep)
}

impl FrameCounter {
    pub open spec fn wf(self) -> bool {
        self.cpu_ticks <= FIVE_STEP_PERIOD
    }

    pub fn new() -> (r: Self)
        ensures
            r == (FrameCounter {
                cpu_ticks: 0u16,
                mode: FrameCounterMode::FourStep,
                interrupt_inhibit_flag: false,
                reset_state: FrameCounterResetState::Idle,
            }),
            r.wf(),
    {
        FrameCounter {
            cpu_ticks: 0,
            mode: FrameCounterMode::FourStep,
            interrupt_inhibit_flag: false,
            reset_state: FrameCounterResetState::Idle,
        }
    }

    /// A write to the sequencer control register: the step mode and
    /// interrupt inhibit bit update at once, while the counter reset only
    /// enters the delayed state machine.
    pub fn process_joy2_update(&mut self, joy2_value: u8)
        ensures
            *final(self) == (FrameCounter {
                mode: if joy2_value & 0x80 != 0 {
                    FrameCounterMode::FiveStep
                } else {
                    FrameCounterMode::FourStep
                },
                interrupt_inhibit_flag: joy2_value & 0x40 != 0,
                reset_state: FrameCounterResetState::Joy2Updated,
                ..*old(self)
            }),
    {
        self.mode = if joy2_value & 0x80 != 0 {
            FrameCounterMode::FiveStep
        } else {
            FrameCounterMode::FourStep
        };
        self.interrupt_inhibit_flag = joy2_value & 0x40 != 0;

        self.reset_state = FrameCounterResetState::Joy2Updated;
    }

    /// Advances the sequencer one CPU cycle.
    pub fn tick(&mut self)
        requires
            old(self).wf(),
        ensures
            final(self).wf(),
            *final(self) == spec_frame_counter_tick(*old(self)),
    {
        if matches!(self.reset_state, FrameCounterResetState::JustReset) {
            self.reset_state = FrameCounterResetState::Idle;
        }

        if (self.cpu_ticks == FOUR_STEP_PERIOD && matches!(self.mode, FrameCounterMode::FourStep))
            || self.cpu_ticks == FIVE_STEP_PERIOD {
            self.cpu_ticks = 1;
        } else {
            self.cpu_ticks = self.cpu_ticks + 1;
        }

        if self.cpu_ticks % 2 == 0 {
            if matches!(self.reset_state, FrameCounterResetState::Joy2Updated) {
                self.reset_state = FrameCounterResetState::PendingReset;
            } else if matches!(self.reset_state, FrameCounterResetState::PendingReset) {
                self.cpu_ticks = 0;
                self.reset_state = FrameCounterResetState::JustReset;
            }
        }
    }

    pub fn generate_quarter_frame_clock(&self) -> (r: bool)
        ensures
            r == spec_quarter_frame_clock(*self),
    {
        (self.cpu_ticks == 7456 || self.cpu_ticks == 14912 || self.cpu_ticks == 22370 || (
        self.cpu_ticks == 29828 && matches!(self.mode, FrameCounterMode::FourStep))
            || self.cpu_ticks == 37280) || (matches!(
            self.reset_state,
            FrameCounterResetState::JustReset,
        ) && matches!(self.mode, FrameCounterMode::FiveStep))
    }

    pub fn generate_half_frame_clock(&self) -> (r: bool)
        ensures
            r == spec_half_frame_clock(*self),
    {
        (self.cpu_ticks == 14912 || (self.cpu_ticks == 29828 && matches!(
            self.mode,
            FrameCounterMode::FourStep,
        )) || self.cpu_ticks == 37280) || (matches!(
            self.reset_state,
            FrameCounterResetState::JustReset,
        ) && matches!(self.mode, FrameCounterMode::FiveStep))
    }

    pub fn should_set_interrupt_flag(&self) -> (r: bool)
        ensures
            r == (!self.interrupt_inhibit_flag && self.mode == FrameCounterMode::FourStep && 29827
                <= self.cpu_ticks < 29830),
    {
        !self.interrupt_inhibit_flag && matches!(self.mode, FrameCounterMode::FourStep) && 29827
            <= self.cpu_ticks && self.cpu_ticks < 29830
    }
}

/// In 4-step mode, away from a mode-switch reset, the quarter-frame pulse
/// fires at exactly four cycle counts of the 29830-cycle period, and the
/// half-frame pulse at exactly two of them.
pub proof fn lemma_four_step_pulse_counts(fc: FrameCounter)
    requires
        fc.mode == FrameCounterMode::FourStep,
        fc.cpu_ticks <= FOUR_STEP_PERIOD,
    ensures
        spec_quarter_frame_clock(fc) <==> (fc.cpu_ticks == 7456 || fc.cpu_ticks == 14912
            || fc.cpu_ticks == 22370 || fc.cpu_ticks == 29828),
        spec_half_frame_clock(fc) <==> (fc.cpu_ticks == 14912 || fc.cpu_ticks == 29828),
{
}

/// In 5-step mode, away from a mode-switch reset, the quarter-frame pulse
/// fires at exactly four fixed cycle counts of the 37282-cycle period; the
/// fifth pulse of the sequence is the one raised while a reset settles.
pub proof fn lemma_five_step_pulse_counts(fc: FrameCounter)
    requires
        fc.mode == FrameCounterMode::FiveStep,
        fc.reset_state != FrameCounterResetState::JustReset,
    ensures
        spec_quarter_frame_clock(fc) <==> (fc.cpu_ticks == 7456 || fc.cpu_ticks == 14912
            || fc.cpu_ticks == 22370 || fc.cpu_ticks == 37280),
        spec_half_frame_clock(fc) <==> (fc.cpu_ticks == 14912 || fc.cpu_ticks == 37280),
{
}

/// The cycle counter wraps exactly at the end of its sequence: after the
/// 29830th cycle in 4-step mode, and after the 37282nd in 5-step mode.
pub proof fn lemma_sequence_period(fc: FrameCounter)
    requires
        fc.wf(),
        fc.reset_state == FrameCounterResetState::Idle,
    ensures
        fc.mode == FrameCounterMode::FourStep && fc.cpu_ticks == FOUR_STEP_PERIOD
            ==> spec_frame_counter_tick(fc).cpu_ticks == 1,
        fc.cpu_ticks == FIVE_STEP_PERIOD ==> spec_frame_counter_tick(fc).cpu_ticks == 1,
        fc.mode == FrameCounterMode::FourStep && fc.cpu_ticks < FOUR_STEP_PERIOD
            ==> spec_frame_counter_tick(fc).cpu_ticks == fc.cpu_ticks + 1,
        fc.mode == FrameCounterMode::FiveStep && fc.cpu_ticks < FIVE_STEP_PERIOD
            ==> spec_frame_counter_tick(fc).cpu_ticks == fc.cpu_ticks + 1,
{
}

/// A mode-switch write never takes effect on its own cycle, nor on the
/// next one: the write itself leaves the cycle counter alone, and the
/// first tick after it can at most stage the reset, never apply it.
pub proof fn lemma_mode_switch_reset_delayed(fc: FrameCounter, joy2_value: u8)
    requires
        fc.wf(),
    ensures
        ({
            let written = FrameCounter {
                mode: if joy2_value & 0x80 != 0 {
                    FrameCounterMode::FiveStep
                } else {
                    FrameCounterMode::FourStep
                },
                interrupt_inhibit_flag: joy2_value & 0x40 != 0,
                reset_state: FrameCounterResetState::Joy2Updated,
                ..fc
            };
            &&& written.cpu_ticks == fc.cpu_ticks
            &&& written.reset_state != FrameCounterResetState::JustReset
            &&& spec_frame_counter_tick(written).reset_state != FrameCounterResetState::JustReset
            &&& spec_frame_counter_tick(written).cpu_ticks != 0
        }),
{
}

} // verus!
