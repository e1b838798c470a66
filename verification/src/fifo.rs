//! The background pixel pipeline: a small FIFO of pre-fetched tile-row
//! pixels that emits one pixel per tick once warmed up, refilling itself
//! early enough never to drain mid-scanline.

use vstd::prelude::*;

use crate::num::bit_u8;
use crate::num::spec_bit_u8;

verus! {

/// Which of the two tile-data blocks background tiles are fetched from:
/// `Block0` addresses tiles directly, `Block1` addresses them with a
/// signed index around the block boundary.
#[derive(Debug, Clone, Copy, PartialEq, Eq, Structural)]
pub enum BgTileDataArea {
    Block0,
    Block1,
}

/// VRAM offset of the first byte of a tile's data.
pub open spec fn spec_tile_address(area: BgTileDataArea, tile_number: u8) -> u16 {
    match area {
        BgTileDataArea::Block0 => ((tile_number as u16) * 16) as u16,
        BgTileDataArea::Block1 => if tile_number < 128 {
            (0x1000 + (tile_number as u16) * 16) as u16
        } else {
            ((tile_number as u16) * 16) as u16
        },
    }
}

impl BgTileDataArea {
    pub fn tile_address(self, tile_number: u8) -> (r: u16)
        ensures
            r == spec_tile_address(self, tile_number),
            r <= 0x1FF0 - 16,
    {
        match self {
            BgTileDataArea::Block0 => (tile_number as u16) * 16,
            BgTileDataArea::Block1 => if tile_number < 128 {
                0x1000 + (tile_number as u16) * 16
            } else {
                (tile_number as u16) * 16
            },
        }
    }
}

/// The scroll and tile-addressing state the pipeline reads each fetch.
#[derive(Debug, Clone)]
pub struct Registers {
    pub bg_x_scroll: u8,
    pub bg_y_scroll: u8,
    pub bg_tile_map_addr: u16,
    pub bg_tile_data_area: BgTileDataArea,
    pub bg_palettes: Vec<u8>,
}

impl Registers {
    /// The tile map sits at one of its two fixed bases, and the palette
    /// table maps every two-bit color.
    pub open spec fn wf(self) -> bool {
        &&& (self.bg_tile_map_addr == 0x1800 || self.bg_tile_map_addr == 0x1C00)
        &&& self.bg_palettes@.len() == 4
    }
}

/// Visible scanline width in pixels.
pub const SCREEN_WIDTH: u8 = 160;

/// Visible scanline count.
pub const SCREEN_HEIGHT: u8 = 144;

/// Pipeline column at which a scanline is complete: the visible width
/// plus the eight-pixel pre-roll the pipeline runs ahead.
pub const MAX_FIFO_X: u8 = 168;

/// The visible frame, one palette-resolved color per pixel, row-major.
#[derive(Debug, Clone)]
pub struct PpuFrameBuffer {
    pub data: Vec<u8>,
}

impl PpuFrameBuffer {
    pub open spec fn wf(self) -> bool {
        self.data@.len() == 23040
    }

    pub fn new() -> (r: Self)
        ensures
            r.wf(),
            forall|i: int| 0 <= i < 23040 ==> r.data@[i] == 0u8,
    {
        PpuFrameBuffer { data: crate::cartridge::make_zero_vec(23040) }
    }

    pub fn set(&mut self, row: u8, col: u8, color: u8)
        requires
            old(self).wf(),
            row < SCREEN_HEIGHT,
            col < SCREEN_WIDTH,
        ensures
            final(self).wf(),
            final(self).data@ == old(self).data@.update(row * 160 + col, color),
    {
        proof {
            assert(row * 160 + col < 23040) by (nonlinear_arith)
                requires
                    row < 144,
                    col < 160,
            ;
        }
        let index: usize = (row as usize) * 160 + (col as usize);
        self.data[index] = color;
    }

    pub fn get(&self, row: u8, col: u8) -> (r: u8)
        requires
            self.wf(),
            row < SCREEN_HEIGHT,
            col < SCREEN_WIDTH,
        ensures
            r == self.data@[row * 160 + col],
    {
        proof {
            assert(row * 160 + col < 23040) by (nonlinear_arith)
                requires
                    row < 144,
                    col < 160,
            ;
        }
        let index: usize = (row as usize) * 160 + (col as usize);
        self.data[index]
    }
}

/// One pending background pixel: a two-bit color index.
#[derive(Debug, Clone, Copy, PartialEq, Eq, Structural)]
pub struct BgPixel {
    pub color: u8,
}

/// One pending sprite pixel: color, palette, and the priority bit that
/// lets the background win over it.
#[derive(Debug, Clone, Copy, PartialEq, Eq, Structural)]
pub struct SpritePixel {
    pub color: u8,
    pub palette: u8,
    pub low_priority: bool,
}

/// Effective background column of the pipeline's next fetch: the output
/// column plus sub-tile and coarse scroll, wrapping around the tile map.
pub open spec fn spec_bg_x(x: u8, fine_x_scroll: u8, regs: Registers) -> u16 {
    (((x + fine_x_scroll + (regs.bg_x_scroll & 0xF8)) % 256) as u16)
}

/// Effective background row of the line being drawn.
pub open spec fn spec_bg_y(y: u8, regs: Registers) -> u16 {
    (((y + regs.bg_y_scroll) % 256) as u16)
}

/// VRAM offset of the tile-map byte the next fetch reads.
pub open spec fn spec_tile_map_addr(bg_x: u16, bg_y: u16, regs: Registers) -> u16 {
    regs.bg_tile_map_addr | ((((bg_y as int) / 8) as u16) << 5) | (((bg_x as int) / 8) as u16)
}

/// The eight pixels of the tile row the pipeline fetches at output column
/// `x`, most significant bit first.
pub open spec fn spec_tile_row_colors(
    x: u8,
    y: u8,
    fine_x_scroll: u8,
    vram: Seq<u8>,
    regs: Registers,
) -> Seq<BgPixel> {
    let bg_x = spec_bg_x(x, fine_x_scroll, regs);
    let bg_y = spec_bg_y(y, regs);
    let tile_number = vram[spec_tile_map_addr(bg_x, bg_y, regs) as int];
    let tile_data_addr = spec_tile_address(regs.bg_tile_data_area, tile_number) + 2 * ((
    bg_y as int) % 8);
    let tile_data_low = vram[tile_data_addr];
    let tile_data_high = vram[tile_data_addr + 1];
    Seq::new(
        8,
        |k: int|
            BgPixel {
                color: ((if spec_bit_u8(tile_data_low, (7 - k) as u8) {
                    1u8
                } else {
                    0u8
                }) + (if spec_bit_u8(tile_data_high, (7 - k) as u8) {
                    2u8
                } else {
                    0u8
                })) as u8,
            },
    )
}

/// The background pixel pipeline for one scanline.
#[derive(Debug, Clone)]
pub struct PixelFifo {
    pub bg: std::collections::VecDeque<BgPixel>,
    pub sprites: std::collections::VecDeque<SpritePixel>,
    pub x: u8,
    pub y: u8,
    pub fine_x_scroll: u8,
    pub delay: u8,
}

impl PixelFifo {
    /// Pipeline state the tick contract preserves: the line stays in
    /// range, sub-tile scroll is below a tile width, and every queued
    /// pixel carries a two-bit color.
    pub open spec fn wf(self) -> bool {
        &&& self.y < SCREEN_HEIGHT
        &&& self.fine_x_scroll < 8
        &&& forall|i: int| 0 <= i < self.bg@.len() ==> #[trigger] self.bg@[i].color < 4
    }

    pub fn new() -> (r: Self)
        ensures
            r.bg@.len() == 0,
            r.sprites@.len() == 0,
            r.x == 0,
            r.y == 0,
            r.fine_x_scroll == 0,
            r.delay == 0,
            r.wf(),
    {
        PixelFifo {
            bg: std::collections::VecDeque::with_capacity(16),
            sprites: std::collections::VecDeque::with_capacity(16),
            x: 0,
            y: 0,
            fine_x_scroll: 0,
            delay: 0,
        }
    }

    /// Resets the pipeline for a new scanline: queues cleared, column
    /// zero, sub-tile scroll taken from the scroll register.
    pub fn start_new_line(&mut self, scanline: u8, registers: &Registers)
        requires
            scanline < SCREEN_HEIGHT,
        ensures
            final(self).bg@.len() == 0,
            final(self).sprites@.len() == 0,
            final(self).x == 0,
            final(self).y == scanline,
            final(self).fine_x_scroll == registers.bg_x_scroll & 0x7,
            final(self).delay == old(self).delay,
            final(self).wf(),
    {
        self.bg.clear();
        self.sprites.clear();
        self.x = 0;
        self.y = scanline;
        proof {
            let s = registers.bg_x_scroll;
            assert(s & 0x7 < 8) by (bit_vector);
        }
        self.fine_x_scroll = registers.bg_x_scroll & 0x7;
    }

    /// Fetches the next background tile row and queues its eight pixels.
    fn fetch_bg_tile_row(&mut self, vram: &Vec<u8>, registers: &Registers)
        requires
            old(self).wf(),
            vram@.len() == 8192,
            registers.wf(),
        ensures
            final(self).wf(),
            final(self).bg@ == old(self).bg@ + spec_tile_row_colors(
                old(self).x,
                old(self).y,
                old(self).fine_x_scroll,
                vram@,
                *registers,
            ),
            final(self).sprites@ == old(self).sprites@,
            final(self).x == old(self).x,
            final(self).y == old(self).y,
            final(self).fine_x_scroll == old(self).fine_x_scroll,
            final(self).delay == old(self).delay,
    {
        let bg_x: u16 = ((self.x as u16) + (self.fine_x_scroll as u16) + ((registers.bg_x_scroll
            & 0xF8) as u16)) % 256;
        let bg_y: u16 = ((self.y as u16) + (registers.bg_y_scroll as u16)) % 256;

        let tile_map_x = bg_x / 8;
        let tile_map_y = bg_y / 8;

        let tile_map_addr = registers.bg_tile_map_addr | (tile_map_y << 5u16) | tile_map_x;
        proof {
            let base = registers.bg_tile_map_addr;
            let ty = tile_map_y;
            let tx = tile_map_x;
            assert((base == 0x1800 || base == 0x1C00) && ty < 32 && tx < 32 ==> (base | (ty << 5)
                | tx) < 8192) by (bit_vector);
        }
        let tile_number = vram[tile_map_addr as usize];

        let tile_data_addr = registers.bg_tile_data_area.tile_address(tile_number) + 2 * (bg_y % 8);
        let tile_data_low = vram[tile_data_addr as usize];
        let tile_data_high = vram[(tile_data_addr + 1) as usize];

        let ghost row = spec_tile_row_colors(
            self.x,
            self.y,
            self.fine_x_scroll,
            vram@,
            *registers,
        );

        let mut i: u8 = 0;
        while i < 8
            invariant
                i <= 8,
                row == spec_tile_row_colors(
                    old(self).x,
                    old(self).y,
                    old(self).fine_x_scroll,
                    vram@,
                    *registers,
                ),
                row.len() == 8,
                tile_data_low == vram@[spec_tile_address(
                    registers.bg_tile_data_area,
                    tile_number,
                ) + 2 * ((spec_bg_y(old(self).y, *registers) as int) % 8)],
                tile_data_high == vram@[spec_tile_address(
                    registers.bg_tile_data_area,
                    tile_number,
                ) + 2 * ((spec_bg_y(old(self).y, *registers) as int) % 8) + 1],
                tile_number == vram@[spec_tile_map_addr(
                    spec_bg_x(old(self).x, old(self).fine_x_scroll, *registers),
                    spec_bg_y(old(self).y, *registers),
                    *registers,
                ) as int],
                self.bg@ == old(self).bg@ + row.subrange(0, i as int),
                self.sprites@ == old(self).sprites@,
                self.x == old(self).x,
                self.y == old(self).y,
                self.fine_x_scroll == old(self).fine_x_scroll,
                self.delay == old(self).delay,
            decreases 8 - i,
        {
            let bit: u8 = 7 - i;
            let color = (if bit_u8(tile_data_low, bit) {
                1u8
            } else {
                0u8
            }) + (if bit_u8(tile_data_high, bit) {
                2u8
            } else {
                0u8
            });
            self.bg.push_back(BgPixel { color });
            proof {
                assert(row[i as int] == (BgPixel { color }));
                assert(self.bg@ =~= old(self).bg@ + row.subrange(0, i + 1));
            }
            i = i + 1;
        }
        proof {
            assert(row.subrange(0, 8) =~= row);
            assert forall|j: int| 0 <= j < self.bg@.len() implies #[trigger] self.bg@[j].color
                < 4 by {
            }
        }
    }

    /// One pipeline tick: count down a pending fetch delay, or warm a
    /// fresh line up with its first tile fetches, or emit one pixel and
    /// refill when the queue runs low.
    pub fn tick(&mut self, vram: &Vec<u8>, registers: &Registers, frame_buffer: &mut PpuFrameBuffer)
        requires
            old(self).wf(),
            vram@.len() == 8192,
            registers.wf(),
            old(frame_buffer).wf(),
            old(self).delay == 0 && old(self).x > 0 ==> old(self).bg@.len() > 0,
            old(self).x < MAX_FIFO_X,
        ensures
            final(self).wf(),
            final(frame_buffer).wf(),
            final(self).y == old(self).y,
            final(self).fine_x_scroll == old(self).fine_x_scroll,
            final(self).sprites@ == old(self).sprites@,
            old(self).delay > 0 ==> {
                &&& final(self).bg@ == old(self).bg@
                &&& final(self).x == old(self).x
                &&& final(self).delay == old(self).delay - 1
                &&& final(frame_buffer).data@ == old(frame_buffer).data@
            },
            old(self).delay == 0 && old(self).x == 0 && old(self).bg@.len() == 0 ==> {
                let first_row = spec_tile_row_colors(
                    0,
                    old(self).y,
                    old(self).fine_x_scroll,
                    vram@,
                    *registers,
                );
                let rows = if old(self).fine_x_scroll >= 2 {
                    first_row + spec_tile_row_colors(
                        0,
                        old(self).y,
                        old(self).fine_x_scroll,
                        vram@,
                        *registers,
                    )
                } else {
                    first_row
                };
                &&& final(self).bg@ == rows.skip(old(self).fine_x_scroll as int)
                &&& final(self).x == 0
                &&& final(self).delay == 6 + old(self).fine_x_scroll
                &&& final(frame_buffer).data@ == old(frame_buffer).data@
            },
            old(self).delay == 0 && !(old(self).x == 0 && old(self).bg@.len() == 0) ==> {
                let popped = old(self).bg@[0];
                let rest = old(self).bg@.skip(1);
                &&& final(self).x == old(self).x + 1
                &&& final(self).delay == 0
                &&& final(self).bg@ == (if rest.len() == 6 {
                    rest + spec_tile_row_colors(
                        (old(self).x + 1) as u8,
                        old(self).y,
                        old(self).fine_x_scroll,
                        vram@,
                        *registers,
                    )
                } else {
                    rest
                })
                &&& final(frame_buffer).data@ == (if old(self).x >= 8 {
                    old(frame_buffer).data@.update(
                        old(self).y * 160 + (old(self).x - 8),
                        registers.bg_palettes@[popped.color as int],
                    )
                } else {
                    old(frame_buffer).data@
                })
            },
    {
        if self.delay != 0 {
            self.delay = self.delay - 1;
            return ;
        }

        if self.x == 0 {
            if self.bg.len() == 0 {
                self.fetch_bg_tile_row(vram, registers);
                let mut popped: u8 = 0;
                while popped < self.fine_x_scroll
                    invariant
                        popped <= self.fine_x_scroll,
                        self.fine_x_scroll < 8,
                        self.bg@.len() + popped >= 8,
                        self.bg@ == spec_tile_row_colors(
                            0,
                            old(self).y,
                            old(self).fine_x_scroll,
                            vram@,
                            *registers,
                        ).skip(popped as int),
                        self.sprites@ == old(self).sprites@,
                        self.x == 0,
                        self.y == old(self).y,
                        self.fine_x_scroll == old(self).fine_x_scroll,
                        self.delay == 0,
                        forall|i: int|
                            0 <= i < self.bg@.len() ==> #[trigger] self.bg@[i].color < 4,
                    decreases self.fine_x_scroll - popped,
                {
                    self.bg.pop_front();
                    proof {
                        let row = spec_tile_row_colors(
                            0,
                            old(self).y,
                            old(self).fine_x_scroll,
                            vram@,
                            *registers,
                        );
                        assert(row.skip(popped as int).skip(1) =~= row.skip(popped + 1));
                    }
                    popped = popped + 1;
                }

                if self.fine_x_scroll >= 2 {
                    self.fetch_bg_tile_row(vram, registers);
                    proof {
                        let row = spec_tile_row_colors(
                            0,
                            old(self).y,
                            old(self).fine_x_scroll,
                            vram@,
                            *registers,
                        );
                        assert(row.skip(old(self).fine_x_scroll as int) + row =~= (row
                            + row).skip(old(self).fine_x_scroll as int));
                    }
                }

                self.delay = 6 + self.fine_x_scroll;

                return ;
            }
        }

        let bg_pixel = match self.bg.pop_front() {
            Some(pixel) => pixel,
            None => {
                proof {
                    assert(false);
                }
                BgPixel { color: 0 }
            },
        };
        if self.x >= 8 {
            let color = registers.bg_palettes[bg_pixel.color as usize];
            frame_buffer.set(self.y, self.x - 8, color);
        }
        self.x = self.x + 1;

        if self.bg.len() == 6 {
            self.fetch_bg_tile_row(vram, registers);
        }
    }

    /// Whether the scanline is complete: the output column has covered the
    /// visible width plus the pre-roll.
    pub fn done_with_line(&self) -> (r: bool)
        ensures
            r == (self.x >= MAX_FIFO_X),
    {
        self.x >= MAX_FIFO_X
    }
}

/// Warm-up of a fresh scanline, as the tick contract states it: with fine
/// scroll `f` the pipeline issues one tile-row fetch when `f < 2` and two
/// when `f >= 2` before any pixel is emitted, and the first queued (hence
/// first emitted) pixel is sub-pixel `f` of the row fetched for
/// tile-column zero.
pub proof fn lemma_line_warmup(fine_x_scroll: u8, row: Seq<BgPixel>, queued: Seq<BgPixel>)
    requires
        fine_x_scroll < 8,
        row.len() == 8,
        queued == (if fine_x_scroll >= 2 {
            row + row
        } else {
            row
        }).skip(fine_x_scroll as int),
    ensures
        queued.len() == (if fine_x_scroll >= 2 {
            16 - fine_x_scroll
        } else {
            8 - fine_x_scroll
        }),
        queued[0] == row[fine_x_scroll as int],
{
    if fine_x_scroll >= 2 {
        assert((row + row)[fine_x_scroll as int] == row[fine_x_scroll as int]);
    }
}

} // verus!
