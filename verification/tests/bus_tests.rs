use console_core::bus::Bus;
use console_core::bus::InterruptLine;
use console_core::bus::InterruptLines;
use console_core::bus::IoRegister;
use console_core::bus::IrqSource;
use console_core::bus::PpuRegister;
use console_core::bus::PpuWriteToggle;
use console_core::bus::map_palette_address;
use console_core::cartridge::Mapper;
use console_core::input::JoypadState;

fn test_bus() -> Bus {
    let mapper = Mapper::new_mmc1(vec![0; 32768]);
    Bus::from_cartridge_seeded(mapper, 0x5EED_0001)
}

#[test]
fn randomized_ram_on_startup() {
    let mapper = Mapper::new_mmc1(vec![0; 32768]);
    let bus1 = Bus::from_cartridge(mapper.clone());
    let bus2 = Bus::from_cartridge(mapper);

    assert_ne!(bus1.cpu_internal_ram(), bus2.cpu_internal_ram());
}

#[test]
fn seeded_ram_is_reproducible() {
    let mapper = Mapper::new_mmc1(vec![0; 32768]);
    let bus1 = Bus::from_cartridge_seeded(mapper.clone(), 42);
    let bus2 = Bus::from_cartridge_seeded(mapper, 42);
    assert_eq!(bus1.cpu_internal_ram(), bus2.cpu_internal_ram());
}

#[test]
fn queued_writes_apply_in_fifo_order_on_tick() {
    let mut bus = test_bus();
    // Two writes to the same mirrored RAM cell: the later one must win.
    bus.cpu_write_address(0x0005, 0x11);
    bus.cpu_write_address(0x0805, 0x22);
    assert_eq!(bus.pending_write_count(), 2);
    // Queued writes are not visible before the tick.
    let before = bus.cpu_read_address(0x0005);
    assert_eq!(before, bus.cpu_internal_ram()[0x0005]);
    bus.tick();
    assert_eq!(bus.pending_write_count(), 0);
    assert_eq!(bus.cpu_read_address(0x0005), 0x22);
    assert_eq!(bus.cpu_read_address(0x0805), 0x22);
}

#[test]
fn irq_triggered_exactly_two_ticks_after_pull() {
    let mut lines = InterruptLines::new();
    assert!(!lines.irq_triggered());
    lines.pull_irq_low(IrqSource::ApuFrameCounter);
    // Assert tick: not yet triggered.
    assert!(!lines.irq_triggered());
    lines.tick();
    // One tick: pending, still not triggered.
    assert!(!lines.irq_triggered());
    lines.tick();
    // Two ticks: triggered.
    assert!(lines.irq_triggered());
}

#[test]
fn releasing_last_pull_clears_triggered_immediately() {
    let mut lines = InterruptLines::new();
    lines.pull_irq_low(IrqSource::Mapper);
    lines.tick();
    lines.tick();
    assert!(lines.irq_triggered());
    lines.release_irq_low_pull(IrqSource::Mapper);
    // Cleared on the same tick as the release, with no delay.
    assert!(!lines.irq_triggered());
}

#[test]
fn releasing_one_of_two_pulls_keeps_triggered() {
    let mut lines = InterruptLines::new();
    lines.pull_irq_low(IrqSource::Mapper);
    lines.pull_irq_low(IrqSource::ApuDmc);
    lines.tick();
    lines.tick();
    assert!(lines.irq_triggered());
    lines.release_irq_low_pull(IrqSource::Mapper);
    assert!(lines.irq_triggered());
}

#[test]
fn nmi_edge_latches_until_cleared() {
    let mut lines = InterruptLines::new();
    lines.ppu_set_nmi_line(InterruptLine::Low);
    lines.tick();
    assert!(lines.nmi_triggered());
    // Line back high: the latch stays set until acknowledged.
    lines.ppu_set_nmi_line(InterruptLine::High);
    lines.tick();
    assert!(lines.nmi_triggered());
    lines.clear_nmi_triggered();
    assert!(!lines.nmi_triggered());
}

#[test]
fn ppu_register_mirroring_and_open_bus() {
    let mut bus = test_bus();
    // A write to a write-only video register lands on open bus; queued
    // write applies at the tick.
    bus.cpu_write_address(0x2000, 0xAB);
    bus.tick();
    // PPUCTRL reads back open bus.
    assert_eq!(bus.cpu_read_address(0x2000), 0xAB);
    // The register block is mirrored every 8 bytes through 0x3FFF.
    assert_eq!(bus.cpu_read_address(0x3FF8), 0xAB);
    assert_eq!(bus.get_ppu_registers().ppu_ctrl(), 0xAB);
}

#[test]
fn ppu_status_read_returns_high_bits_and_clears_vblank_on_tick() {
    let mut bus = test_bus();
    bus.get_ppu_registers_mut().set_vblank_flag(true);
    let status = bus.cpu_read_address(0x2002);
    // Power-on status is 0xA0: vblank and sprite-overflow bits set.
    assert_eq!(status & 0xE0, 0xA0);
    assert!(bus.get_ppu_registers().vblank_flag());
    bus.tick();
    // The pending status-read side effect clears vblank and the toggle.
    assert!(!bus.get_ppu_registers().vblank_flag());
    assert_eq!(bus.get_ppu_registers().get_write_toggle(), PpuWriteToggle::First);
}

#[test]
fn write_toggle_flips_on_scroll_and_addr_writes() {
    let mut bus = test_bus();
    assert_eq!(bus.get_ppu_registers().get_write_toggle(), PpuWriteToggle::First);
    bus.cpu_write_address(0x2005, 0x10);
    bus.tick();
    assert_eq!(bus.get_ppu_registers().get_write_toggle(), PpuWriteToggle::Second);
    bus.cpu_write_address(0x2006, 0x20);
    bus.tick();
    assert_eq!(bus.get_ppu_registers().get_write_toggle(), PpuWriteToggle::First);
}

#[test]
fn oam_data_write_advances_address() {
    let mut bus = test_bus();
    bus.cpu_write_address(0x2003, 0x10);
    bus.tick();
    bus.cpu_write_address(0x2004, 0x77);
    bus.tick();
    assert_eq!(bus.get_oam()[0x10], 0x77);
    // OAMDATA reads return the byte at the (advanced) address via open bus.
    bus.cpu_write_address(0x2003, 0x10);
    bus.tick();
    assert_eq!(bus.cpu_read_address(0x2004), 0x77);
}

#[test]
fn ppu_data_buffered_read() {
    let mut bus = test_bus();
    // Write a byte into VRAM at 0x2100 through the data port.
    bus.set_bus_address(0x2100);
    bus.cpu_write_address(0x2007, 0x5A);
    bus.tick();
    // Direct video-space read sees it.
    assert_eq!(bus.ppu_read_address(0x2100), 0x5A);
    // A data-port read is buffered: the first read returns the stale
    // buffer, the second the actual byte.
    bus.set_bus_address(0x2100);
    let first = bus.cpu_read_address(0x2007);
    assert_eq!(first, 0x00);
    bus.set_bus_address(0x2100);
    let second = bus.cpu_read_address(0x2007);
    assert_eq!(second, 0x5A);
}

#[test]
fn palette_addresses_fold_down() {
    assert_eq!(map_palette_address(0x3F00), 0x00);
    assert_eq!(map_palette_address(0x3F10), 0x00);
    assert_eq!(map_palette_address(0x3F14), 0x04);
    assert_eq!(map_palette_address(0x3F18), 0x08);
    assert_eq!(map_palette_address(0x3F1C), 0x0C);
    assert_eq!(map_palette_address(0x3F11), 0x11);
    assert_eq!(map_palette_address(0x3F3F), 0x1F);
}

#[test]
fn palette_ram_write_and_read() {
    let mut bus = test_bus();
    bus.ppu_write_address(0x3F10, 0x2C);
    // 0x3F10 mirrors 0x3F00.
    assert_eq!(bus.ppu_read_address(0x3F00), 0x2C);
    assert_eq!(bus.get_palette_ram()[0], 0x2C);
}

#[test]
fn joypad_latch_and_shift() {
    let mut bus = test_bus();
    let mut pad = JoypadState::new();
    pad.a = true;
    pad.start = true;
    bus.update_p1_joypad_state(pad);
    // Strobe on, then off, latches the state.
    bus.cpu_write_address(0x4016, 0x01);
    bus.tick();
    bus.cpu_write_address(0x4016, 0x00);
    bus.tick();
    // Report order: A, B, Select, Start, Up, Down, Left, Right.
    let expected = [1, 0, 0, 1, 0, 0, 0, 0];
    for &bit in &expected {
        let read = bus.cpu_read_address(0x4016);
        assert_eq!(read & 0x01, bit);
        assert_eq!(read & 0x40, 0x40);
    }
    // Past the eighth report the port reads back pressed.
    assert_eq!(bus.cpu_read_address(0x4016) & 0x01, 1);
}

#[test]
fn io_register_addresses_round_trip() {
    assert_eq!(IoRegister::SQ1_VOL.to_relative_address(), 0x00);
    assert_eq!(IoRegister::JOY2.to_relative_address(), 0x17);
    assert_eq!(IoRegister::from_relative_address(0x00), Some(IoRegister::SQ1_VOL));
    assert_eq!(IoRegister::from_relative_address(0x09), None);
    assert_eq!(IoRegister::from_relative_address(0x0D), None);
    assert_eq!(IoRegister::from_relative_address(0x15), Some(IoRegister::SND_CHN));
}

#[test]
fn ppu_register_addresses_round_trip() {
    assert_eq!(PpuRegister::PPUCTRL.to_address(), 0x2000);
    assert_eq!(PpuRegister::PPUDATA.to_address(), 0x2007);
    assert_eq!(PpuRegister::from_relative_address(2), Some(PpuRegister::PPUSTATUS));
    assert_eq!(PpuRegister::from_relative_address(8), None);
}

#[test]
fn oamdma_write_marks_dirty() {
    let mut bus = test_bus();
    assert!(!bus.is_oamdma_dirty());
    bus.cpu_write_address(0x4014, 0x02);
    bus.tick();
    assert!(bus.is_oamdma_dirty());
    assert_eq!(bus.read_oamdma_for_transfer(), 0x02);
    bus.clear_oamdma_dirty();
    assert!(!bus.is_oamdma_dirty());
}

#[test]
fn dirty_registers_drain_in_write_order() {
    let mut bus = test_bus();
    bus.cpu_write_address(0x4000, 0x30);
    bus.cpu_write_address(0x4002, 0x8F);
    bus.tick();
    let drained = bus.get_io_registers_mut().drain_dirty_registers();
    assert_eq!(drained.len(), 2);
    assert_eq!(drained[0], (IoRegister::SQ1_VOL, 0x30));
    assert_eq!(drained[1], (IoRegister::SQ1_LO, 0x8F));
    assert_eq!(bus.dirty_register_count(), 0);
}

#[test]
fn snd_chn_read_flag() {
    let mut bus = test_bus();
    assert!(!bus.get_io_registers_mut().get_and_clear_snd_chn_read());
    let _ = bus.cpu_read_address(0x4015);
    assert!(bus.get_io_registers_mut().get_and_clear_snd_chn_read());
    assert!(!bus.get_io_registers_mut().get_and_clear_snd_chn_read());
}

#[test]
fn test_mode_block_reads_open() {
    let mut bus = test_bus();
    assert_eq!(bus.cpu_read_address(0x4018), 0xFF);
    assert_eq!(bus.cpu_read_address(0x401F), 0xFF);
}
