//! The programmable sound generator: three square-wave channels and a
//! noise channel, written through a latched register interface and clocked
//! through a fixed divider.

use vstd::prelude::*;

use crate::num::bit_u8;
use crate::num::bit_u16;
use crate::num::spec_bit_u8;
use crate::num::spec_bit_u16;

verus! {

/// Current level of a channel's output line.
#[derive(Debug, Clone, Copy, PartialEq, Eq, Structural)]
pub enum WaveOutput {
    Positive,
    Negative,
    Zero,
}

impl WaveOutput {
    pub open spec fn spec_invert(self) -> Self {
        match self {
            WaveOutput::Positive => WaveOutput::Negative,
            WaveOutput::Negative => WaveOutput::Positive,
            WaveOutput::Zero => WaveOutput::Zero,
        }
    }

    pub fn invert(self) -> (r: Self)
        ensures
            r == self.spec_invert(),
    {
        match self {
            Self::Positive => Self::Negative,
            Self::Negative => Self::Positive,
            Self::Zero => Self::Zero,
        }
    }

    /// The output as a signed unit level, for the mixer.
    pub fn level(self) -> (r: i8)
        ensures
            self == WaveOutput::Positive ==> r == 1,
            self == WaveOutput::Negative ==> r == -1,
            self == WaveOutput::Zero ==> r == 0,
    {
        match self {
            Self::Positive => 1,
            Self::Negative => -1,
            Self::Zero => 0,
        }
    }
}

/// One square-wave channel: a tone register, a countdown divider, and the
/// current output polarity.
#[derive(Debug, Clone, Copy, PartialEq, Eq, Structural)]
pub struct SquareWaveGenerator {
    pub counter: u16,
    pub current_output: WaveOutput,
    pub tone: u16,
    pub attenuation: u8,
}

/// One divider step of a square channel: an empty counter reloads from the
/// tone register; otherwise it counts down, and reaching zero reloads and
/// inverts the output.
pub open spec fn spec_square_clock(g: SquareWaveGenerator) -> SquareWaveGenerator {
    if g.counter == 0 {
        SquareWaveGenerator { counter: g.tone, ..g }
    } else {
        let counter = (g.counter - 1) as u16;
        if counter == 0 {
            SquareWaveGenerator {
                counter: g.tone,
                current_output: g.current_output.spec_invert(),
                ..g
            }
        } else {
            SquareWaveGenerator { counter, ..g }
        }
    }
}

/// The square channel after `n` divider steps.
pub open spec fn spec_square_clock_n(g: SquareWaveGenerator, n: nat) -> SquareWaveGenerator
    decreases n,
{
    if n == 0 {
        g
    } else {
        spec_square_clock(spec_square_clock_n(g, (n - 1) as nat))
    }
}

impl SquareWaveGenerator {
    pub fn new() -> (r: Self)
        ensures
            r == (SquareWaveGenerator {
                counter: 0u16,
                current_output: WaveOutput::Negative,
                tone: 0u16,
                attenuation: 0x0Fu8,
            }),
    {
        SquareWaveGenerator {
            counter: 0,
            current_output: WaveOutput::Negative,
            tone: 0,
            attenuation: 0x0F,
        }
    }

    pub fn update_tone_low_bits(&mut self, data: u8)
        ensures
            *final(self) == (SquareWaveGenerator {
                tone: (old(self).tone & 0xFFF0) | ((data & 0x0F) as u16),
                ..*old(self)
            }),
    {
        self.tone = (self.tone & 0xFFF0) | ((data & 0x0F) as u16);
    }

    pub fn update_tone_high_bits(&mut self, data: u8)
        ensures
            *final(self) == (SquareWaveGenerator {
                tone: (old(self).tone & 0x000F) | (((data & 0x3F) as u16) << 4),
                ..*old(self)
            }),
    {
        self.tone = (self.tone & 0x000F) | (((data & 0x3F) as u16) << 4u16);
    }

    pub fn clock(&mut self)
        ensures
            *final(self) == spec_square_clock(*old(self)),
    {
        if self.counter == 0 {
            self.counter = self.tone;
        } else {
            self.counter = self.counter - 1;
            if self.counter == 0 {
                self.counter = self.tone;
                self.current_output = self.current_output.invert();
            }
        }
    }
}

/// Whether the noise channel runs at one of three fixed rates or at the
/// third square channel's rate.
#[derive(Debug, Clone, Copy, PartialEq, Eq, Structural)]
pub enum NoiseReload {
    Value(u16),
    Tone2,
}

impl NoiseReload {
    pub open spec fn spec_from_noise_register(value: u8) -> NoiseReload {
        if value & 0x03 == 0x00 {
            NoiseReload::Value(0x10)
        } else if value & 0x03 == 0x01 {
            NoiseReload::Value(0x20)
        } else if value & 0x03 == 0x02 {
            NoiseReload::Value(0x40)
        } else {
            NoiseReload::Tone2
        }
    }

    pub fn from_noise_register(value: u8) -> (r: Self)
        ensures
            r == NoiseReload::spec_from_noise_register(value),
    {
        if value & 0x03 == 0x00 {
            Self::Value(0x10)
        } else if value & 0x03 == 0x01 {
            Self::Value(0x20)
        } else if value & 0x03 == 0x02 {
            Self::Value(0x40)
        } else {
            Self::Tone2
        }
    }

    pub open spec fn spec_value(self, tone2: u16) -> u16 {
        match self {
            NoiseReload::Value(value) => value,
            NoiseReload::Tone2 => tone2,
        }
    }

    pub fn value(self, tone2: u16) -> (r: u16)
        ensures
            r == self.spec_value(tone2),
    {
        match self {
            Self::Value(value) => value,
            Self::Tone2 => tone2,
        }
    }
}

/// Periodic noise repeats the shift register's single set bit; white noise
/// feeds back a two-tap exclusive OR.
#[derive(Debug, Clone, Copy, PartialEq, Eq, Structural)]
pub enum NoiseType {
    Periodic,
    White,
}

/// Power-on value of the noise shift register.
pub const INITIAL_LFSR: u16 = 0x8000;

/// The noise channel: a countdown divider gating a linear-feedback shift
/// register.
#[derive(Debug, Clone, Copy, PartialEq, Eq, Structural)]
pub struct NoiseGenerator {
    pub counter: u16,
    pub current_counter_output: WaveOutput,
    pub counter_reload: NoiseReload,
    pub lfsr: u16,
    pub current_lfsr_output: WaveOutput,
    pub noise_type: NoiseType,
    pub attenuation: u8,
}

/// One shift of the noise register: the output follows the bit shifted
/// out, and the feedback bit enters at the top.
pub open spec fn spec_shift_lfsr(g: NoiseGenerator) -> NoiseGenerator {
    let out = if spec_bit_u16(g.lfsr, 0) {
        WaveOutput::Positive
    } else {
        WaveOutput::Zero
    };
    let input_bit = match g.noise_type {
        NoiseType::Periodic => spec_bit_u16(g.lfsr, 0),
        NoiseType::White => spec_bit_u16(g.lfsr, 0) != spec_bit_u16(g.lfsr, 3),
    };
    NoiseGenerator {
        current_lfsr_output: out,
        lfsr: (g.lfsr >> 1) | (if input_bit {
            0x8000u16
        } else {
            0u16
        }),
        ..g
    }
}

/// One divider step of the noise channel: as the square channels, but the
/// shift register advances only on the rising edge of the divider output.
pub open spec fn spec_noise_clock(g: NoiseGenerator, tone2: u16) -> NoiseGenerator {
    if g.counter == 0 {
        NoiseGenerator { counter: g.counter_reload.spec_value(tone2), ..g }
    } else {
        let counter = (g.counter - 1) as u16;
        if counter == 0 {
            let flipped = NoiseGenerator {
                counter: g.counter_reload.spec_value(tone2),
                current_counter_output: g.current_counter_output.spec_invert(),
                ..g
            };
            if flipped.current_counter_output == WaveOutput::Positive {
                spec_shift_lfsr(flipped)
            } else {
                flipped
            }
        } else {
            NoiseGenerator { counter, ..g }
        }
    }
}

impl NoiseGenerator {
    pub fn new() -> (r: Self)
        ensures
            r == (NoiseGenerator {
                counter: 0u16,
                current_counter_output: WaveOutput::Negative,
                counter_reload: NoiseReload::spec_from_noise_register(0x00),
                lfsr: INITIAL_LFSR,
                current_lfsr_output: WaveOutput::Zero,
                noise_type: NoiseType::Periodic,
                attenuation: 0x0Fu8,
            }),
    {
        NoiseGenerator {
            counter: 0,
            current_counter_output: WaveOutput::Negative,
            counter_reload: NoiseReload::from_noise_register(0x00),
            lfsr: INITIAL_LFSR,
            current_lfsr_output: WaveOutput::Zero,
            noise_type: NoiseType::Periodic,
            attenuation: 0x0F,
        }
    }

    pub fn shift_lfsr(&mut self)
        ensures
            *final(self) == spec_shift_lfsr(*old(self)),
    {
        self.current_lfsr_output = if bit_u16(self.lfsr, 0) {
            WaveOutput::Positive
        } else {
            WaveOutput::Zero
        };

        let input_bit = match self.noise_type {
            NoiseType::Periodic => bit_u16(self.lfsr, 0),
            NoiseType::White => bit_u16(self.lfsr, 0) != bit_u16(self.lfsr, 3),
        };

        self.lfsr = (self.lfsr >> 1u16) | (if input_bit {
            0x8000u16
        } else {
            0u16
        });
    }

    /// A write to the noise control register: rate and feedback mode are
    /// set, and the shift register restarts from its power-on value.
    pub fn write_data(&mut self, data: u8)
        ensures
            *final(self) == (NoiseGenerator {
                counter_reload: NoiseReload::spec_from_noise_register(data),
                noise_type: if spec_bit_u8(data, 2) {
                    NoiseType::White
                } else {
                    NoiseType::Periodic
                },
                lfsr: INITIAL_LFSR,
                ..*old(self)
            }),
    {
        self.counter_reload = NoiseReload::from_noise_register(data);
        self.noise_type = if bit_u8(data, 2) {
            NoiseType::White
        } else {
            NoiseType::Periodic
        };

        self.lfsr = INITIAL_LFSR;
    }

    pub fn clock(&mut self, tone2: u16)
        ensures
            *final(self) == spec_noise_clock(*old(self), tone2),
    {
        if self.counter == 0 {
            self.counter = self.counter_reload.value(tone2);
        } else {
            self.counter = self.counter - 1;
            if self.counter == 0 {
                self.counter = self.counter_reload.value(tone2);
                self.current_counter_output = self.current_counter_output.invert();
                if matches!(self.current_counter_output, WaveOutput::Positive) {
                    self.shift_lfsr();
                }
            }
        }
    }
}

/// The register a latch byte selects.
#[derive(Debug, Clone, Copy, PartialEq, Eq, Structural)]
pub enum Register {
    Tone0,
    Tone1,
    Tone2,
    Noise,
    Volume0,
    Volume1,
    Volume2,
    Volume3,
}

impl Register {
    pub open spec fn spec_from_latch_byte(value: u8) -> Register {
        if value & 0x70 == 0x00 {
            Register::Tone0
        } else if value & 0x70 == 0x10 {
            Register::Volume0
        } else if value & 0x70 == 0x20 {
            Register::Tone1
        } else if value & 0x70 == 0x30 {
            Register::Volume1
        } else if value & 0x70 == 0x40 {
            Register::Tone2
        } else if value & 0x70 == 0x50 {
            Register::Volume2
        } else if value & 0x70 == 0x60 {
            Register::Noise
        } else {
            Register::Volume3
        }
    }

    pub fn from_latch_byte(value: u8) -> (r: Self)
        ensures
            r == Register::spec_from_latch_byte(value),
    {
        if value & 0x70 == 0x00 {
            Self::Tone0
        } else if value & 0x70 == 0x10 {
            Self::Volume0
        } else if value & 0x70 == 0x20 {
            Self::Tone1
        } else if value & 0x70 == 0x30 {
            Self::Volume1
        } else if value & 0x70 == 0x40 {
            Self::Tone2
        } else if value & 0x70 == 0x50 {
            Self::Volume2
        } else if value & 0x70 == 0x60 {
            Self::Noise
        } else {
            Self::Volume3
        }
    }
}

/// Whether a tick crossed the divider and clocked the channels.
#[derive(Debug, Clone, Copy, PartialEq, Eq, Structural)]
pub enum PsgTickEffect {
    Idle,
    Clocked,
}

/// Input-clock divider between bus cycles and channel clocks.
pub const PSG_DIVIDER: u8 = 16;

/// The sound generator: three square channels, the noise channel, the
/// latched register selector, and the input-clock divider.
#[derive(Debug, Clone, Copy, PartialEq, Eq, Structural)]
pub struct Psg {
    pub square0: SquareWaveGenerator,
    pub square1: SquareWaveGenerator,
    pub square2: SquareWaveGenerator,
    pub noise_channel: NoiseGenerator,
    pub latched_register: Register,
    pub divider: u8,
}

/// A data byte applied to the latched register's low bits: tone channels
/// take the low nibble of their period, the noise channel reloads, volume
/// registers take an attenuation nibble.
pub open spec fn spec_psg_write_low(p: Psg, data: u8) -> Psg {
    match p.latched_register {
        Register::Tone0 => Psg {
            square0: SquareWaveGenerator {
                tone: (p.square0.tone & 0xFFF0) | ((data & 0x0F) as u16),
                ..p.square0
            },
            ..p
        },
        Register::Tone1 => Psg {
            square1: SquareWaveGenerator {
                tone: (p.square1.tone & 0xFFF0) | ((data & 0x0F) as u16),
                ..p.square1
            },
            ..p
        },
        Register::Tone2 => Psg {
            square2: SquareWaveGenerator {
                tone: (p.square2.tone & 0xFFF0) | ((data & 0x0F) as u16),
                ..p.square2
            },
            ..p
        },
        Register::Noise => Psg {
            noise_channel: NoiseGenerator {
                counter_reload: NoiseReload::spec_from_noise_register(data),
                noise_type: if spec_bit_u8(data, 2) {
                    NoiseType::White
                } else {
                    NoiseType::Periodic
                },
                lfsr: INITIAL_LFSR,
                ..p.noise_channel
            },
            ..p
        },
        Register::Volume0 => Psg {
            square0: SquareWaveGenerator { attenuation: data & 0x0F, ..p.square0 },
            ..p
        },
        Register::Volume1 => Psg {
            square1: SquareWaveGenerator { attenuation: data & 0x0F, ..p.square1 },
            ..p
        },
        Register::Volume2 => Psg {
            square2: SquareWaveGenerator { attenuation: data & 0x0F, ..p.square2 },
            ..p
        },
        Register::Volume3 => Psg {
            noise_channel: NoiseGenerator { attenuation: data & 0x0F, ..p.noise_channel },
            ..p
        },
    }
}

/// A data byte applied to the latched register's high bits: tone channels
/// take the upper six bits of their period, every other register behaves
/// as a low-bits write.
pub open spec fn spec_psg_write_high(p: Psg, data: u8) -> Psg {
    match p.latched_register {
        Register::Tone0 => Psg {
            square0: SquareWaveGenerator {
                tone: (p.square0.tone & 0x000F) | (((data & 0x3F) as u16) << 4),
                ..p.square0
            },
            ..p
        },
        Register::Tone1 => Psg {
            square1: SquareWaveGenerator {
                tone: (p.square1.tone & 0x000F) | (((data & 0x3F) as u16) << 4),
                ..p.square1
            },
            ..p
        },
        Register::Tone2 => Psg {
            square2: SquareWaveGenerator {
                tone: (p.square2.tone & 0x000F) | (((data & 0x3F) as u16) << 4),
                ..p.square2
            },
            ..p
        },
        _ => spec_psg_write_low(p, data),
    }
}

/// A byte written to the generator: a latch byte (bit 7 set) selects a
/// register and writes its low bits; a plain data byte writes the latched
/// register's high bits.
pub open spec fn spec_psg_write(p: Psg, value: u8) -> Psg {
    if spec_bit_u8(value, 7) {
        spec_psg_write_low(
            Psg { latched_register: Register::spec_from_latch_byte(value), ..p },
            value,
        )
    } else {
        spec_psg_write_high(p, value)
    }
}

impl Psg {
    pub open spec fn wf(self) -> bool {
        1 <= self.divider <= PSG_DIVIDER
    }

    pub fn new() -> (r: Self)
        ensures
            r.wf(),
            r.square0 == (SquareWaveGenerator {
                counter: 0u16,
                current_output: WaveOutput::Negative,
                tone: 0u16,
                attenuation: 0x0Fu8,
            }),
            r.square1 == r.square0,
            r.square2 == r.square0,
            r.noise_channel == (NoiseGenerator {
                counter: 0u16,
                current_counter_output: WaveOutput::Negative,
                counter_reload: NoiseReload::spec_from_noise_register(0x00),
                lfsr: INITIAL_LFSR,
                current_lfsr_output: WaveOutput::Zero,
                noise_type: NoiseType::Periodic,
                attenuation: 0x0Fu8,
            }),
            r.latched_register == Register::Tone0,
            r.divider == PSG_DIVIDER,
    {
        Psg {
            square0: SquareWaveGenerator::new(),
            square1: SquareWaveGenerator::new(),
            square2: SquareWaveGenerator::new(),
            noise_channel: NoiseGenerator::new(),
            latched_register: Register::Tone0,
            divider: PSG_DIVIDER,
        }
    }

    fn write_register_low_bits(&mut self, data: u8)
        ensures
            *final(self) == spec_psg_write_low(*old(self), data),
    {
        match self.latched_register {
            Register::Tone0 => {
                self.square0.update_tone_low_bits(data);
            },
            Register::Tone1 => {
                self.square1.update_tone_low_bits(data);
            },
            Register::Tone2 => {
                self.square2.update_tone_low_bits(data);
            },
            Register::Noise => {
                self.noise_channel.write_data(data);
            },
            Register::Volume0 => {
                self.square0.attenuation = data & 0x0F;
            },
            Register::Volume1 => {
                self.square1.attenuation = data & 0x0F;
            },
            Register::Volume2 => {
                self.square2.attenuation = data & 0x0F;
            },
            Register::Volume3 => {
                self.noise_channel.attenuation = data & 0x0F;
            },
        }
    }

    fn write_register_high_bits(&mut self, data: u8)
        ensures
            *final(self) == spec_psg_write_high(*old(self), data),
    {
        match self.latched_register {
            Register::Tone0 => {
                self.square0.update_tone_high_bits(data);
            },
            Register::Tone1 => {
                self.square1.update_tone_high_bits(data);
            },
            Register::Tone2 => {
                self.square2.update_tone_high_bits(data);
            },
            _ => {
                self.write_register_low_bits(data);
            },
        }
    }

    /// One byte of the generator's write-only port.
    pub fn write(&mut self, value: u8)
        ensures
            *final(self) == spec_psg_write(*old(self), value),
    {
        if bit_u8(value, 7) {
            // LATCH/DATA byte
            self.latched_register = Register::from_latch_byte(value);
            self.write_register_low_bits(value);
        } else {
            // DATA byte
            self.write_register_high_bits(value);
        }
    }

    /// One input clock: every sixteenth tick clocks all four channels and
    /// reports the edge so the consumer can sample.
    pub fn tick(&mut self) -> (r: PsgTickEffect)
        requires
            old(self).wf(),
        ensures
            final(self).wf(),
            old(self).divider > 1 ==> {
                &&& *final(self) == (Psg { divider: (old(self).divider - 1) as u8, ..*old(self) })
                &&& r == PsgTickEffect::Idle
            },
            old(self).divider == 1 ==> {
                &&& final(self).divider == PSG_DIVIDER
                &&& final(self).square0 == spec_square_clock(old(self).square0)
                &&& final(self).square1 == spec_square_clock(old(self).square1)
                &&& final(self).square2 == spec_square_clock(old(self).square2)
                &&& final(self).noise_channel == spec_noise_clock(
                    old(self).noise_channel,
                    spec_square_clock(old(self).square2).tone,
                )
                &&& final(self).latched_register == old(self).latched_register
                &&& r == PsgTickEffect::Clocked
            },
    {
        self.divider = self.divider - 1;
        if self.divider == 0 {
            self.divider = PSG_DIVIDER;

            self.square0.clock();
            self.square1.clock();
            self.square2.clock();
            self.noise_channel.clock(self.square2.tone);

            PsgTickEffect::Clocked
        } else {
            PsgTickEffect::Idle
        }
    }
}

/// Chaining divider steps: `a + b` steps are `b` steps after `a` steps.
pub proof fn lemma_square_clock_n_add(g: SquareWaveGenerator, a: nat, b: nat)
    ensures
        spec_square_clock_n(g, a + b) == spec_square_clock_n(spec_square_clock_n(g, a), b),
    decreases b,
{
    if b > 0 {
        lemma_square_clock_n_add(g, a, (b - 1) as nat);
        assert(a + b - 1 == a + (b - 1) as nat);
    }
}

/// While the counter is above the step count, clocking only counts down:
/// `n` steps from a counter above `n` leave output and tone untouched.
pub proof fn lemma_square_countdown(g: SquareWaveGenerator, n: nat)
    requires
        n < g.counter,
    ensures
        spec_square_clock_n(g, n) == (SquareWaveGenerator {
            counter: (g.counter - n) as u16,
            ..g
        }),
    decreases n,
{
    if n > 0 {
        lemma_square_countdown(g, (n - 1) as nat);
    }
}

/// Square-wave period round trip: load a period `t` into a drained
/// channel, and the divider reproduces it exactly.  The first clock only
/// reloads the counter (the one-cycle slack after a write); from then on
/// the output inverts after every `t` clocks, so the full waveform period
/// is `2 * t` channel clocks.
pub proof fn lemma_square_wave_period(g: SquareWaveGenerator)
    requires
        g.counter == 0,
        g.tone >= 1,
    ensures
        spec_square_clock_n(g, 1) == (SquareWaveGenerator { counter: g.tone, ..g }),
        spec_square_clock_n(g, (1 + g.tone) as nat) == (SquareWaveGenerator {
            counter: g.tone,
            current_output: g.current_output.spec_invert(),
            ..g
        }),
        spec_square_clock_n(g, (1 + 2 * g.tone) as nat) == (SquareWaveGenerator {
            counter: g.tone,
            ..g
        }),
{
    let t = g.tone as nat;
    let loaded = SquareWaveGenerator { counter: g.tone, ..g };
    assert(spec_square_clock_n(g, 0) == g);
    assert(spec_square_clock_n(g, 1) == spec_square_clock(g));
    assert(spec_square_clock_n(g, 1) == loaded);

    lemma_square_half_period(loaded);
    lemma_square_clock_n_add(g, 1, t);
    assert(spec_square_clock_n(g, (1 + g.tone) as nat) == spec_square_clock_n(loaded, t));

    let inverted = SquareWaveGenerator {
        counter: g.tone,
        current_output: g.current_output.spec_invert(),
        ..g
    };
    lemma_square_half_period(inverted);
    lemma_square_clock_n_add(g, 1 + t, t);
    assert((1 + 2 * g.tone) as nat == (1 + t) + t);
    assert(inverted.current_output.spec_invert() == g.current_output);
}

/// From a freshly reloaded counter, exactly `tone` clocks invert the
/// output and reload the counter again.
pub proof fn lemma_square_half_period(g: SquareWaveGenerator)
    requires
        g.counter == g.tone,
        g.tone >= 1,
    ensures
        spec_square_clock_n(g, g.tone as nat) == (SquareWaveGenerator {
            current_output: g.current_output.spec_invert(),
            ..g
        }),
{
    let t = g.tone as nat;
    lemma_square_countdown(g, (t - 1) as nat);
    let near = spec_square_clock_n(g, (t - 1) as nat);
    assert(near.counter == 1);
    lemma_square_clock_n_add(g, (t - 1) as nat, 1);
    assert(spec_square_clock_n(near, 1) == spec_square_clock(near));
    assert((t - 1) as nat + 1 == t);
}

} // verus!
