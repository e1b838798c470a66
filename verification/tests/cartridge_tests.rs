use console_core::cartridge::CartridgeFileError;
use console_core::cartridge::Mapper;
use console_core::cartridge::from_ines_bytes;

fn ines_image(mapper_number: u8, prg_banks: u8, chr_banks: u8, flags6_low: u8) -> Vec<u8> {
    let mut image = vec![0u8; 16];
    image[0] = 0x4E;
    image[1] = 0x45;
    image[2] = 0x53;
    image[3] = 0x1A;
    image[4] = prg_banks;
    image[5] = chr_banks;
    image[6] = ((mapper_number & 0x0F) << 4) | flags6_low;
    image[7] = mapper_number & 0xF0;
    let prg_len = 16384 * prg_banks as usize;
    let chr_len = 8192 * chr_banks as usize;
    for i in 0..prg_len {
        image.push((i % 251) as u8);
    }
    for i in 0..chr_len {
        image.push((i % 241) as u8);
    }
    image
}

#[test]
fn short_image_is_io_error() {
    assert_eq!(from_ines_bytes(&vec![0x4E, 0x45]).unwrap_err(), CartridgeFileError::Io);
    let mut truncated = ines_image(0, 1, 1, 0);
    truncated.truncate(100);
    assert_eq!(from_ines_bytes(&truncated).unwrap_err(), CartridgeFileError::Io);
}

#[test]
fn bad_magic_is_format_error() {
    let mut image = ines_image(0, 1, 1, 0);
    image[3] = 0x00;
    assert_eq!(from_ines_bytes(&image).unwrap_err(), CartridgeFileError::Format);
}

#[test]
fn zero_prg_is_format_error() {
    let image = ines_image(0, 0, 1, 0);
    assert_eq!(from_ines_bytes(&image).unwrap_err(), CartridgeFileError::Format);
}

#[test]
fn unsupported_mapper_error_carries_number() {
    let image = ines_image(7, 1, 1, 0);
    assert_eq!(
        from_ines_bytes(&image).unwrap_err(),
        CartridgeFileError::UnsupportedMapper { mapper_number: 7 }
    );
}

#[test]
fn mapper_zero_reads_prg_fixed() {
    let image = ines_image(0, 1, 1, 0);
    let mapper = from_ines_bytes(&image).unwrap();
    assert!(matches!(mapper, Mapper::Nrom(_)));
    // 16 KB PRG is mirrored over the whole 32 KB window.
    assert_eq!(mapper.read_cpu_address(0x8000), 0 % 251);
    assert_eq!(mapper.read_cpu_address(0x8005), 5 % 251);
    assert_eq!(mapper.read_cpu_address(0xC005), 5 % 251);
    assert_eq!(mapper.read_cpu_address(0xFFFF), ((0x3FFF) % 251) as u8);
}

#[test]
fn uxrom_bank_select_round_trip() {
    // 4 banks of 16 KB.
    let image = ines_image(2, 4, 0, 0);
    let mut mapper = from_ines_bytes(&image).unwrap();
    assert!(matches!(mapper, Mapper::Uxrom(_)));
    // The fixed window always shows the last bank.
    assert_eq!(mapper.read_cpu_address(0xC000), ((3 * 16384) % 251) as u8);
    // Known address-to-offset fixtures per selected bank.
    for bank in 0..4u8 {
        mapper.write_cpu_address(0x8000, bank);
        let offset = (bank as usize) * 16384 + 0x123;
        assert_eq!(mapper.read_cpu_address(0x8123), (offset % 251) as u8);
    }
    // Bank numbers wrap to the ROM size.
    mapper.write_cpu_address(0x8000, 5);
    assert_eq!(mapper.read_cpu_address(0x8000), ((1 * 16384) % 251) as u8);
}

#[test]
fn cnrom_chr_bank_select_round_trip() {
    let image = ines_image(3, 1, 4, 0);
    let mut mapper = from_ines_bytes(&image).unwrap();
    assert!(matches!(mapper, Mapper::Cnrom(_)));
    let mut vram = vec![0u8; 2048];
    for bank in 0..4u8 {
        mapper.write_cpu_address(0x8000, bank);
        let offset = (bank as usize) * 8192 + 0x45;
        assert_eq!(mapper.read_ppu_address(0x0045, &vram), (offset % 241) as u8);
    }
    // Nametable space still goes to console VRAM.
    mapper.write_ppu_address(0x2000, 0x99, &mut vram);
    assert_eq!(mapper.read_ppu_address(0x2000, &vram), 0x99);
}

#[test]
fn mmc1_serial_bank_select_round_trip() {
    let image = ines_image(1, 4, 1, 0);
    let mut mapper = from_ines_bytes(&image).unwrap();
    assert!(matches!(mapper, Mapper::Mmc1(_)));
    // Select PRG bank 2 by shifting five bits serially, lowest first:
    // 2 = 0b00010.
    for bit in [0u8, 1, 0, 0, 0] {
        mapper.write_cpu_address(0xE000, bit);
        mapper.tick();
        mapper.tick();
    }
    // Power-on mode fixes the last bank at 0xC000 and switches 0x8000.
    let offset = 2 * 16384 + 0x210;
    assert_eq!(mapper.read_cpu_address(0x8210), (offset % 251) as u8);
    let last = 3 * 16384 + 0x210;
    assert_eq!(mapper.read_cpu_address(0xC210), (last % 251) as u8);
}

#[test]
fn mmc1_reset_bit_clears_shift_register() {
    let image = ines_image(1, 4, 1, 0);
    let mut mapper = from_ines_bytes(&image).unwrap();
    // Two serial bits, then a reset write: the next five bits start over.
    mapper.write_cpu_address(0xE000, 1);
    mapper.tick();
    mapper.tick();
    mapper.write_cpu_address(0xE000, 0x80);
    mapper.tick();
    mapper.tick();
    for bit in [1u8, 0, 0, 0, 0] {
        mapper.write_cpu_address(0xE000, bit);
        mapper.tick();
        mapper.tick();
    }
    let offset = 1 * 16384 + 0x40;
    assert_eq!(mapper.read_cpu_address(0x8040), (offset % 251) as u8);
}

#[test]
fn mmc1_debounce_drops_write_after_previous_cycle_write() {
    let image = ines_image(1, 4, 1, 0);
    let mut mapper = from_ines_bytes(&image).unwrap();
    mapper.write_cpu_address(0xE000, 1);
    // One bus cycle passes: the next write is in the following cycle and
    // is dropped by the debounce.
    mapper.tick();
    mapper.write_cpu_address(0xE000, 1);
    mapper.tick();
    mapper.tick();
    for bit in [0u8, 0, 0, 0] {
        mapper.write_cpu_address(0xE000, bit);
        mapper.tick();
        mapper.tick();
    }
    // Only five writes were accepted: 1,0,0,0,0 -> bank 1.
    let offset = 1 * 16384 + 0x40;
    assert_eq!(mapper.read_cpu_address(0x8040), (offset % 251) as u8);
}

#[test]
fn mmc1_prg_ram_read_write() {
    let image = ines_image(1, 2, 1, 0);
    let mut mapper = from_ines_bytes(&image).unwrap();
    mapper.write_cpu_address(0x6123, 0x77);
    assert_eq!(mapper.read_cpu_address(0x6123), 0x77);
}

#[test]
fn mmc3_bank_select_round_trip() {
    let image = ines_image(4, 8, 2, 0);
    let mut mapper = from_ines_bytes(&image).unwrap();
    assert!(matches!(mapper, Mapper::Mmc3(_)));
    // Select the first switchable PRG window (register 6), bank 5.
    mapper.write_cpu_address(0x8000, 0x06);
    mapper.write_cpu_address(0x8001, 5);
    let offset = 5 * 8192 + 0x7F;
    assert_eq!(mapper.read_cpu_address(0x807F), (offset % 251) as u8);
    // The last 8 KB bank stays fixed: 8 banks of 16 KB = 16 banks of 8 KB.
    let last = 15 * 8192 + 0x7F;
    assert_eq!(mapper.read_cpu_address(0xE07F), (last % 251) as u8);
}

#[test]
fn mmc3_scanline_counter_raises_interrupt() {
    let image = ines_image(4, 8, 2, 0);
    let mut mapper = from_ines_bytes(&image).unwrap();
    let vram = vec![0u8; 2048];
    // Program a short counter and enable the interrupt.
    mapper.write_cpu_address(0xC000, 2);
    mapper.write_cpu_address(0xC001, 0);
    mapper.write_cpu_address(0xE001, 0);
    assert!(!mapper.interrupt_flag());
    // Each debounced rising edge of address bit 12 clocks the counter:
    // reload on the first edge, then 2 -> 1 -> 0 raises the flag.
    for _ in 0..3 {
        // Hold the bit low long enough to satisfy the debounce.
        for _ in 0..12 {
            let _ = mapper.read_ppu_address(0x0000, &vram);
        }
        let _ = mapper.read_ppu_address(0x1000, &vram);
    }
    assert!(mapper.interrupt_flag());
    // Disabling the interrupt clears the line.
    mapper.write_cpu_address(0xE000, 0);
    assert!(!mapper.interrupt_flag());
}

#[test]
fn ines_vertical_mirroring_flag() {
    let image = ines_image(0, 1, 1, 0x01);
    let mut mapper = from_ines_bytes(&image).unwrap();
    let mut vram = vec![0u8; 2048];
    // Vertical mirroring: 0x2000 and 0x2800 share a nametable cell.
    mapper.write_ppu_address(0x2005, 0x31, &mut vram);
    assert_eq!(mapper.read_ppu_address(0x2805, &vram), 0x31);
    assert_eq!(vram[0x005], 0x31);
}

#[test]
fn ines_horizontal_mirroring_flag() {
    let image = ines_image(0, 1, 1, 0x00);
    let mut mapper = from_ines_bytes(&image).unwrap();
    let mut vram = vec![0u8; 2048];
    // Horizontal mirroring: 0x2000 and 0x2400 share a nametable cell.
    mapper.write_ppu_address(0x2009, 0x42, &mut vram);
    assert_eq!(mapper.read_ppu_address(0x2409, &vram), 0x42);
}

#[test]
fn chr_ram_cartridge_accepts_writes() {
    // No CHR ROM: the cartridge gets 8 KB of CHR RAM instead.
    let image = ines_image(0, 1, 0, 0);
    let mut mapper = from_ines_bytes(&image).unwrap();
    let mut vram = vec![0u8; 2048];
    mapper.write_ppu_address(0x0123, 0x66, &mut vram);
    assert_eq!(mapper.read_ppu_address(0x0123, &vram), 0x66);
}

#[test]
fn chr_rom_ignores_writes() {
    let image = ines_image(0, 1, 1, 0);
    let mut mapper = from_ines_bytes(&image).unwrap();
    let mut vram = vec![0u8; 2048];
    let before = mapper.read_ppu_address(0x0123, &vram);
    mapper.write_ppu_address(0x0123, before.wrapping_add(1), &mut vram);
    assert_eq!(mapper.read_ppu_address(0x0123, &vram), before);
}
