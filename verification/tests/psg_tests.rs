use console_core::psg::NoiseType;
use console_core::psg::Psg;
use console_core::psg::PsgTickEffect;
use console_core::psg::Register;
use console_core::psg::WaveOutput;

#[test]
fn latch_byte_selects_register_and_writes_low_bits() {
    let mut psg = Psg::new();
    // Latch tone channel 0 with low nibble 0x9.
    psg.write(0x80 | 0x09);
    assert_eq!(psg.latched_register, Register::Tone0);
    assert_eq!(psg.square0.tone, 0x009);
    // Data byte fills the high six bits.
    psg.write(0x15);
    assert_eq!(psg.square0.tone, (0x15 << 4) | 0x009);
}

#[test]
fn volume_latch_sets_attenuation() {
    let mut psg = Psg::new();
    psg.write(0x90 | 0x05);
    assert_eq!(psg.latched_register, Register::Volume0);
    assert_eq!(psg.square0.attenuation, 0x05);
    psg.write(0xF0 | 0x0A);
    assert_eq!(psg.noise_channel.attenuation, 0x0A);
}

#[test]
fn divider_clocks_every_sixteenth_tick() {
    let mut psg = Psg::new();
    for _ in 0..15 {
        assert_eq!(psg.tick(), PsgTickEffect::Idle);
    }
    assert_eq!(psg.tick(), PsgTickEffect::Clocked);
    for _ in 0..15 {
        assert_eq!(psg.tick(), PsgTickEffect::Idle);
    }
    assert_eq!(psg.tick(), PsgTickEffect::Clocked);
}

#[test]
fn square_wave_reproduces_written_period() {
    let mut psg = Psg::new();
    // Tone 3 on channel 0: latch low bits 3, high bits 0.
    psg.write(0x80 | 0x03);
    psg.write(0x00);
    assert_eq!(psg.square0.tone, 3);
    let start = psg.square0.current_output;

    let mut clock = |psg: &mut Psg| {
        for _ in 0..16 {
            psg.tick();
        }
    };

    // First clock only reloads the drained counter: the one-cycle slack.
    clock(&mut psg);
    assert_eq!(psg.square0.counter, 3);
    assert_eq!(psg.square0.current_output, start);
    // After exactly `tone` more clocks the output inverts...
    for _ in 0..3 {
        clock(&mut psg);
    }
    assert_eq!(psg.square0.current_output, start.invert());
    // ...and after `tone` more it is back: full period `2 * tone` clocks.
    for _ in 0..3 {
        clock(&mut psg);
    }
    assert_eq!(psg.square0.current_output, start);
}

#[test]
fn noise_register_write_resets_shift_register() {
    let mut psg = Psg::new();
    psg.write(0xE0 | 0x04);
    assert_eq!(psg.noise_channel.lfsr, 0x8000);
    assert_eq!(psg.noise_channel.noise_type, NoiseType::White);
    psg.write(0xE0 | 0x00);
    assert_eq!(psg.noise_channel.noise_type, NoiseType::Periodic);
}

#[test]
fn periodic_noise_rotates_single_bit() {
    let mut psg = Psg::new();
    // Periodic noise at the fastest fixed rate.
    psg.write(0xE0 | 0x00);
    let mut lfsr_values = Vec::new();
    // The shift register advances on every second divider underflow.
    for _ in 0..16 * 0x10 * 64 {
        psg.tick();
    }
    lfsr_values.push(psg.noise_channel.lfsr);
    // The single power-on bit keeps rotating: exactly one bit stays set.
    assert_eq!(psg.noise_channel.lfsr.count_ones(), 1);
}

#[test]
fn wave_output_levels() {
    assert_eq!(WaveOutput::Positive.level(), 1);
    assert_eq!(WaveOutput::Negative.level(), -1);
    assert_eq!(WaveOutput::Zero.level(), 0);
    assert_eq!(WaveOutput::Positive.invert(), WaveOutput::Negative);
    assert_eq!(WaveOutput::Zero.invert(), WaveOutput::Zero);
}
