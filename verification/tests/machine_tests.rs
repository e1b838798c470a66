use console_core::bus::Bus;
use console_core::cartridge::from_ines_bytes;
use console_core::fifo::BgTileDataArea;
use console_core::fifo::PixelFifo;
use console_core::fifo::PpuFrameBuffer;
use console_core::fifo::Registers;
use console_core::psg::Psg;
use console_core::psg::PsgTickEffect;
use console_core::psg::WaveOutput;

/// A minimal fixed-mapping cartridge image: one 16 KB PRG bank holding a
/// recognizable byte pattern and one 8 KB CHR bank.
fn synthetic_rom() -> Vec<u8> {
    let mut image = vec![0u8; 16];
    image[0] = 0x4E;
    image[1] = 0x45;
    image[2] = 0x53;
    image[3] = 0x1A;
    image[4] = 1;
    image[5] = 1;
    for i in 0..16384usize {
        image.push((i.wrapping_mul(13) % 256) as u8);
    }
    for _ in 0..8192usize {
        image.push(0x24);
    }
    image
}

#[test]
fn synthetic_rom_bus_trace_matches_golden_outputs() {
    let mapper = from_ines_bytes(&synthetic_rom()).unwrap();
    let mut bus = Bus::from_cartridge_seeded(mapper, 0xC0FF_EE00);

    // A fixed trace: program-space reads, RAM writes, video-memory writes
    // through the data port, all interleaved with ticks.
    let mut checksum: u32 = 0;
    for step in 0..64u16 {
        let byte = bus.cpu_read_address(0x8000 + step * 7);
        checksum = checksum.wrapping_mul(31).wrapping_add(byte as u32);
        bus.cpu_write_address(step & 0x07FF, byte);
        bus.tick();
        bus.poll_interrupt_lines();
    }
    // PRG byte at 0x8000 + 7k is ((7k * 13) % 256); the fold over the
    // first 64 of them is a fixed number.
    let mut expected: u32 = 0;
    for step in 0..64u32 {
        expected = expected.wrapping_mul(31).wrapping_add((step * 7).wrapping_mul(13) % 256);
    }
    assert_eq!(checksum, expected);

    // The RAM writes all landed.
    for step in 0..64u16 {
        let byte = ((step as u32 * 7).wrapping_mul(13) % 256) as u8;
        assert_eq!(bus.cpu_read_address(step & 0x07FF), byte);
    }

    // Video writes through the data port land in VRAM.
    bus.set_bus_address(0x2000);
    bus.cpu_write_address(0x2007, 0xAA);
    bus.tick();
    assert_eq!(bus.ppu_read_address(0x2000), 0xAA);

    // Pattern-table reads come from CHR ROM.
    assert_eq!(bus.ppu_read_address(0x0000), 0x24);
    assert_eq!(bus.ppu_read_address(0x1FFF), 0x24);
}

#[test]
fn synthetic_frame_checksum() {
    // Render one scanline over a blank tile map: every visible pixel
    // resolves through palette entry 0.
    let registers = Registers {
        bg_x_scroll: 0,
        bg_y_scroll: 0,
        bg_tile_map_addr: 0x1800,
        bg_tile_data_area: BgTileDataArea::Block0,
        bg_palettes: vec![7, 1, 2, 3],
    };
    let vram = vec![0u8; 8192];
    let mut frame_buffer = PpuFrameBuffer::new();
    let mut fifo = PixelFifo::new();
    fifo.start_new_line(0, &registers);
    while !fifo.done_with_line() {
        fifo.tick(&vram, &registers, &mut frame_buffer);
    }
    let checksum: u32 = frame_buffer.data.iter().map(|&b| b as u32).sum();
    // 160 visible pixels of color 7, all other rows untouched.
    assert_eq!(checksum, 160 * 7);
}

#[test]
fn synthetic_audio_sample_sequence() {
    let mut psg = Psg::new();
    // Tone 2 on channel 0, attenuation 0 (full volume).
    psg.write(0x80 | 0x02);
    psg.write(0x90 | 0x00);

    // Record the channel's output level at each divider clock.
    let mut levels = Vec::new();
    for _ in 0..16 * 9 {
        if psg.tick() == PsgTickEffect::Clocked {
            levels.push(psg.square0.current_output.level());
        }
    }
    // Reload clock, then the output inverts every 2 clocks: the golden
    // sequence for a period-2 square wave starting low.
    assert_eq!(levels, vec![-1, -1, 1, 1, -1, -1, 1, 1, -1]);
    assert_eq!(psg.square0.current_output, WaveOutput::Negative);
}
