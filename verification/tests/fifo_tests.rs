use console_core::fifo::BgTileDataArea;
use console_core::fifo::PixelFifo;
use console_core::fifo::PpuFrameBuffer;
use console_core::fifo::Registers;

fn test_registers(bg_x_scroll: u8) -> Registers {
    Registers {
        bg_x_scroll,
        bg_y_scroll: 0,
        bg_tile_map_addr: 0x1800,
        bg_tile_data_area: BgTileDataArea::Block0,
        bg_palettes: vec![0x10, 0x21, 0x32, 0x43],
    }
}

/// VRAM where tile-map entry `t` names tile `t & 0xFF`, and tile 0 is the
/// row pattern low=0b0101_0101 high=0b0011_0011: pixel colors
/// 0,1,2,3,0,1,2,3 left to right.
fn test_vram() -> Vec<u8> {
    let mut vram = vec![0u8; 8192];
    for row in 0..8 {
        vram[row * 2] = 0b0101_0101;
        vram[row * 2 + 1] = 0b0011_0011;
    }
    vram
}

#[test]
fn warmup_fetches_one_row_for_small_fine_scroll() {
    let vram = test_vram();
    let registers = test_registers(1);
    let mut frame_buffer = PpuFrameBuffer::new();
    let mut fifo = PixelFifo::new();
    fifo.start_new_line(0, &registers);
    assert_eq!(fifo.fine_x_scroll, 1);

    fifo.tick(&vram, &registers, &mut frame_buffer);
    // One fetch of 8 pixels, minus the 1 discarded sub-pixel.
    assert_eq!(fifo.bg.len(), 7);
    assert_eq!(fifo.delay, 6 + 1);
    // The first queued pixel is sub-pixel 1 of tile-column 0.
    assert_eq!(fifo.bg.front().unwrap().color, 1);
}

#[test]
fn warmup_fetches_two_rows_for_large_fine_scroll() {
    let vram = test_vram();
    let registers = test_registers(5);
    let mut frame_buffer = PpuFrameBuffer::new();
    let mut fifo = PixelFifo::new();
    fifo.start_new_line(0, &registers);
    assert_eq!(fifo.fine_x_scroll, 5);

    fifo.tick(&vram, &registers, &mut frame_buffer);
    // Two fetches of 8 pixels, minus the 5 discarded sub-pixels.
    assert_eq!(fifo.bg.len(), 11);
    assert_eq!(fifo.delay, 6 + 5);
    // The first queued pixel is sub-pixel 5 of tile-column 0: color 1.
    assert_eq!(fifo.bg.front().unwrap().color, 1);
}

#[test]
fn delay_counts_down_without_emitting() {
    let vram = test_vram();
    let registers = test_registers(0);
    let mut frame_buffer = PpuFrameBuffer::new();
    let mut fifo = PixelFifo::new();
    fifo.start_new_line(3, &registers);
    fifo.tick(&vram, &registers, &mut frame_buffer);
    let queued = fifo.bg.len();
    for expected in (0..6).rev() {
        fifo.tick(&vram, &registers, &mut frame_buffer);
        assert_eq!(fifo.delay, expected);
        assert_eq!(fifo.bg.len(), queued);
        assert_eq!(fifo.x, 0);
    }
}

#[test]
fn scanline_emits_pixels_and_completes() {
    let vram = test_vram();
    let registers = test_registers(0);
    let mut frame_buffer = PpuFrameBuffer::new();
    let mut fifo = PixelFifo::new();
    fifo.start_new_line(0, &registers);

    let mut ticks = 0;
    while !fifo.done_with_line() {
        fifo.tick(&vram, &registers, &mut frame_buffer);
        ticks += 1;
        assert!(ticks < 1000);
    }
    // Warm-up tick, six delay ticks, then one pixel per tick for the
    // pre-roll plus the visible width.
    assert_eq!(ticks, 1 + 6 + 168);
    // With zero scroll, visible pixel 0 is sub-pixel 0 of tile-column 1:
    // the pre-roll consumed tile-column 0.  Every tile row repeats colors
    // 0,1,2,3,0,1,2,3 through the palette table.
    assert_eq!(frame_buffer.get(0, 0), 0x10);
    assert_eq!(frame_buffer.get(0, 1), 0x21);
    assert_eq!(frame_buffer.get(0, 2), 0x32);
    assert_eq!(frame_buffer.get(0, 3), 0x43);
    assert_eq!(frame_buffer.get(0, 159), 0x43);
    // Other rows stay untouched.
    assert_eq!(frame_buffer.get(1, 0), 0);
}

#[test]
fn fine_scroll_shifts_visible_output() {
    let vram = test_vram();
    let registers = test_registers(2);
    let mut frame_buffer = PpuFrameBuffer::new();
    let mut fifo = PixelFifo::new();
    fifo.start_new_line(0, &registers);
    while !fifo.done_with_line() {
        fifo.tick(&vram, &registers, &mut frame_buffer);
    }
    // Sub-pixel 2 of each repeating 0,1,2,3 pattern lands first: visible
    // pixel 0 shows color index 2 of the pattern.
    assert_eq!(frame_buffer.get(0, 0), 0x32);
    assert_eq!(frame_buffer.get(0, 1), 0x43);
}

#[test]
fn tile_addressing_modes() {
    assert_eq!(BgTileDataArea::Block0.tile_address(0), 0x0000);
    assert_eq!(BgTileDataArea::Block0.tile_address(255), 255 * 16);
    assert_eq!(BgTileDataArea::Block1.tile_address(0), 0x1000);
    assert_eq!(BgTileDataArea::Block1.tile_address(127), 0x1000 + 127 * 16);
    // Signed addressing: tiles 128..=255 sit below the block boundary.
    assert_eq!(BgTileDataArea::Block1.tile_address(128), 128 * 16);
    assert_eq!(BgTileDataArea::Block1.tile_address(255), 255 * 16);
}
