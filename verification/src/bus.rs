//! The console bus: address decoding over a fixed partition of the CPU
//! address space, memory-mapped video and audio registers with open-bus
//! behaviour, a bounded FIFO of pending CPU writes drained once per tick,
//! and the NMI/IRQ interrupt lines.

use vstd::prelude::*;

use crate::cartridge::Mapper;
use crate::cartridge::PpuMapResult;
use crate::cartridge::ppu_write_applied;
use crate::input::JoypadState;
use crate::input::LatchedJoypadState;
use crate::input::spec_latch;

verus! {

pub const CPU_RAM_START: u16 = 0x0000;

pub const CPU_RAM_END: u16 = 0x1FFF;

pub const CPU_RAM_MASK: u16 = 0x07FF;

pub const CPU_PPU_REGISTERS_START: u16 = 0x2000;

pub const CPU_PPU_REGISTERS_END: u16 = 0x3FFF;

pub const CPU_PPU_REGISTERS_MASK: u16 = 0x0007;

pub const CPU_IO_REGISTERS_START: u16 = 0x4000;

pub const CPU_IO_REGISTERS_END: u16 = 0x4017;

pub const CPU_IO_TEST_MODE_START: u16 = 0x4018;

pub const CPU_IO_TEST_MODE_END: u16 = 0x401F;

pub const CPU_CARTRIDGE_START: u16 = 0x4020;

pub const CPU_CARTRIDGE_END: u16 = 0xFFFF;

pub const CPU_NMI_VECTOR: u16 = 0xFFFA;

pub const CPU_RESET_VECTOR: u16 = 0xFFFC;

pub const CPU_IRQ_VECTOR: u16 = 0xFFFE;

/// The memory-mapped video registers.
#[allow(non_camel_case_types)]
#[derive(Debug, Clone, Copy, PartialEq, Eq, Structural)]
pub enum PpuRegister {
    PPUCTRL,
    PPUMASK,
    PPUSTATUS,
    OAMADDR,
    OAMDATA,
    PPUSCROLL,
    PPUADDR,
    PPUDATA,
}

/// The register at relative address `0..8`, if any.
pub open spec fn spec_ppu_register_from_relative(relative_addr: int) -> Option<PpuRegister> {
    if relative_addr == 0 {
        Some(PpuRegister::PPUCTRL)
    } else if relative_addr == 1 {
        Some(PpuRegister::PPUMASK)
    } else if relative_addr == 2 {
        Some(PpuRegister::PPUSTATUS)
    } else if relative_addr == 3 {
        Some(PpuRegister::OAMADDR)
    } else if relative_addr == 4 {
        Some(PpuRegister::OAMDATA)
    } else if relative_addr == 5 {
        Some(PpuRegister::PPUSCROLL)
    } else if relative_addr == 6 {
        Some(PpuRegister::PPUADDR)
    } else if relative_addr == 7 {
        Some(PpuRegister::PPUDATA)
    } else {
        None
    }
}

impl PpuRegister {
    pub fn from_relative_address(relative_addr: usize) -> (r: Option<Self>)
        ensures
            r == spec_ppu_register_from_relative(relative_addr as int),
    {
        if relative_addr == 0 {
            Some(Self::PPUCTRL)
        } else if relative_addr == 1 {
            Some(Self::PPUMASK)
        } else if relative_addr == 2 {
            Some(Self::PPUSTATUS)
        } else if relative_addr == 3 {
            Some(Self::OAMADDR)
        } else if relative_addr == 4 {
            Some(Self::OAMDATA)
        } else if relative_addr == 5 {
            Some(Self::PPUSCROLL)
        } else if relative_addr == 6 {
            Some(Self::PPUADDR)
        } else if relative_addr == 7 {
            Some(Self::PPUDATA)
        } else {
            None
        }
    }

    pub open spec fn spec_to_address(self) -> u16 {
        match self {
            PpuRegister::PPUCTRL => 0x2000,
            PpuRegister::PPUMASK => 0x2001,
            PpuRegister::PPUSTATUS => 0x2002,
            PpuRegister::OAMADDR => 0x2003,
            PpuRegister::OAMDATA => 0x2004,
            PpuRegister::PPUSCROLL => 0x2005,
            PpuRegister::PPUADDR => 0x2006,
            PpuRegister::PPUDATA => 0x2007,
        }
    }

    pub fn to_address(self) -> (r: u16)
        ensures
            r == self.spec_to_address(),
    {
        match self {
            Self::PPUCTRL => 0x2000,
            Self::PPUMASK => 0x2001,
            Self::PPUSTATUS => 0x2002,
            Self::OAMADDR => 0x2003,
            Self::OAMDATA => 0x2004,
            Self::PPUSCROLL => 0x2005,
            Self::PPUADDR => 0x2006,
            Self::PPUDATA => 0x2007,
        }
    }
}

/// Which half of a two-write register pair the next write lands in.
#[derive(Debug, Clone, Copy, PartialEq, Eq, Structural)]
pub enum PpuWriteToggle {
    First,
    Second,
}

impl PpuWriteToggle {
    pub open spec fn spec_toggle(self) -> Self {
        match self {
            PpuWriteToggle::First => PpuWriteToggle::Second,
            PpuWriteToggle::Second => PpuWriteToggle::First,
        }
    }

    pub fn toggle(self) -> (r: Self)
        ensures
            r == self.spec_toggle(),
    {
        match self {
            Self::First => Self::Second,
            Self::Second => Self::First,
        }
    }
}

/// Video registers whose accesses the renderer needs to observe.
#[allow(non_camel_case_types)]
#[derive(Debug, Clone, Copy, PartialEq, Eq, Structural)]
pub enum PpuTrackedRegister {
    PPUCTRL,
    PPUSCROLL,
    PPUADDR,
    PPUDATA,
}

/// The memory-mapped audio and input registers.
#[allow(non_camel_case_types)]
#[derive(Debug, Clone, Copy, PartialEq, Eq, Structural)]
pub enum IoRegister {
    SQ1_VOL,
    SQ1_SWEEP,
    SQ1_LO,
    SQ1_HI,
    SQ2_VOL,
    SQ2_SWEEP,
    SQ2_LO,
    SQ2_HI,
    TRI_LINEAR,
    TRI_LO,
    TRI_HI,
    NOISE_VOL,
    NOISE_LO,
    NOISE_HI,
    DMC_FREQ,
    DMC_RAW,
    DMC_START,
    DMC_LEN,
    OAMDMA,
    SND_CHN,
    JOY1,
    JOY2,
}

/// Offset of each register from the base of the register block.
pub open spec fn spec_io_to_relative(r: IoRegister) -> int {
    match r {
        IoRegister::SQ1_VOL => 0x00,
        IoRegister::SQ1_SWEEP => 0x01,
        IoRegister::SQ1_LO => 0x02,
        IoRegister::SQ1_HI => 0x03,
        IoRegister::SQ2_VOL => 0x04,
        IoRegister::SQ2_SWEEP => 0x05,
        IoRegister::SQ2_LO => 0x06,
        IoRegister::SQ2_HI => 0x07,
        IoRegister::TRI_LINEAR => 0x08,
        IoRegister::TRI_LO => 0x0A,
        IoRegister::TRI_HI => 0x0B,
        IoRegister::NOISE_VOL => 0x0C,
        IoRegister::NOISE_LO => 0x0E,
        IoRegister::NOISE_HI => 0x0F,
        IoRegister::DMC_FREQ => 0x10,
        IoRegister::DMC_RAW => 0x11,
        IoRegister::DMC_START => 0x12,
        IoRegister::DMC_LEN => 0x13,
        IoRegister::OAMDMA => 0x14,
        IoRegister::SND_CHN => 0x15,
        IoRegister::JOY1 => 0x16,
        IoRegister::JOY2 => 0x17,
    }
}

/// The register at each relative offset: two offsets in the block are
/// unassigned.
pub open spec fn spec_io_from_relative(relative_addr: int) -> Option<IoRegister> {
    if relative_addr == 0x00 {
        Some(IoRegister::SQ1_VOL)
    } else if relative_addr == 0x01 {
        Some(IoRegister::SQ1_SWEEP)
    } else if relative_addr == 0x02 {
        Some(IoRegister::SQ1_LO)
    } else if relative_addr == 0x03 {
        Some(IoRegister::SQ1_HI)
    } else if relative_addr == 0x04 {
        Some(IoRegister::SQ2_VOL)
    } else if relative_addr == 0x05 {
        Some(IoRegister::SQ2_SWEEP)
    } else if relative_addr == 0x06 {
        Some(IoRegister::SQ2_LO)
    } else if relative_addr == 0x07 {
        Some(IoRegister::SQ2_HI)
    } else if relative_addr == 0x08 {
        Some(IoRegister::TRI_LINEAR)
    } else if relative_addr == 0x0A {
        Some(IoRegister::TRI_LO)
    } else if relative_addr == 0x0B {
        Some(IoRegister::TRI_HI)
    } else if relative_addr == 0x0C {
        Some(IoRegister::NOISE_VOL)
    } else if relative_addr == 0x0E {
        Some(IoRegister::NOISE_LO)
    } else if relative_addr == 0x0F {
        Some(IoRegister::NOISE_HI)
    } else if relative_addr == 0x10 {
        Some(IoRegister::DMC_FREQ)
    } else if relative_addr == 0x11 {
        Some(IoRegister::DMC_RAW)
    } else if relative_addr == 0x12 {
        Some(IoRegister::DMC_START)
    } else if relative_addr == 0x13 {
        Some(IoRegister::DMC_LEN)
    } else if relative_addr == 0x14 {
        Some(IoRegister::OAMDMA)
    } else if relative_addr == 0x15 {
        Some(IoRegister::SND_CHN)
    } else if relative_addr == 0x16 {
        Some(IoRegister::JOY1)
    } else if relative_addr == 0x17 {
        Some(IoRegister::JOY2)
    } else {
        None
    }
}

impl IoRegister {
    pub fn to_relative_address(self) -> (r: usize)
        ensures
            r == spec_io_to_relative(self),
            r < 0x18,
    {
        match self {
            Self::SQ1_VOL => 0x00,
            Self::SQ1_SWEEP => 0x01,
            Self::SQ1_LO => 0x02,
            Self::SQ1_HI => 0x03,
            Self::SQ2_VOL => 0x04,
            Self::SQ2_SWEEP => 0x05,
            Self::SQ2_LO => 0x06,
            Self::SQ2_HI => 0x07,
            Self::TRI_LINEAR => 0x08,
            Self::TRI_LO => 0x0A,
            Self::TRI_HI => 0x0B,
            Self::NOISE_VOL => 0x0C,
            Self::NOISE_LO => 0x0E,
            Self::NOISE_HI => 0x0F,
            Self::DMC_FREQ => 0x10,
            Self::DMC_RAW => 0x11,
            Self::DMC_START => 0x12,
            Self::DMC_LEN => 0x13,
            Self::OAMDMA => 0x14,
            Self::SND_CHN => 0x15,
            Self::JOY1 => 0x16,
            Self::JOY2 => 0x17,
        }
    }

    pub fn from_relative_address(relative_addr: u16) -> (r: Option<Self>)
        ensures
            r == spec_io_from_relative(relative_addr as int),
    {
        if relative_addr == 0x00 {
            Some(Self::SQ1_VOL)
        } else if relative_addr == 0x01 {
            Some(Self::SQ1_SWEEP)
        } else if relative_addr == 0x02 {
            Some(Self::SQ1_LO)
        } else if relative_addr == 0x03 {
            Some(Self::SQ1_HI)
        } else if relative_addr == 0x04 {
            Some(Self::SQ2_VOL)
        } else if relative_addr == 0x05 {
            Some(Self::SQ2_SWEEP)
        } else if relative_addr == 0x06 {
            Some(Self::SQ2_LO)
        } else if relative_addr == 0x07 {
            Some(Self::SQ2_HI)
        } else if relative_addr == 0x08 {
            Some(Self::TRI_LINEAR)
        } else if relative_addr == 0x0A {
            Some(Self::TRI_LO)
        } else if relative_addr == 0x0B {
            Some(Self::TRI_HI)
        } else if relative_addr == 0x0C {
            Some(Self::NOISE_VOL)
        } else if relative_addr == 0x0E {
            Some(Self::NOISE_LO)
        } else if relative_addr == 0x0F {
            Some(Self::NOISE_HI)
        } else if relative_addr == 0x10 {
            Some(Self::DMC_FREQ)
        } else if relative_addr == 0x11 {
            Some(Self::DMC_RAW)
        } else if relative_addr == 0x12 {
            Some(Self::DMC_START)
        } else if relative_addr == 0x13 {
            Some(Self::DMC_LEN)
        } else if relative_addr == 0x14 {
            Some(Self::OAMDMA)
        } else if relative_addr == 0x15 {
            Some(Self::SND_CHN)
        } else if relative_addr == 0x16 {
            Some(Self::JOY1)
        } else if relative_addr == 0x17 {
            Some(Self::JOY2)
        } else {
            None
        }
    }
}

/// Logic level of an interrupt line.
#[derive(Debug, Clone, Copy, PartialEq, Eq, Structural)]
pub enum InterruptLine {
    High,
    Low,
}

/// The units that can pull the IRQ line low.
#[derive(Debug, Clone, Copy, PartialEq, Eq, Structural)]
pub enum IrqSource {
    ApuDmc,
    ApuFrameCounter,
    Mapper,
}

impl IrqSource {
    pub open spec fn spec_to_low_pull_bit(self) -> u8 {
        match self {
            IrqSource::ApuDmc => 0x01,
            IrqSource::ApuFrameCounter => 0x02,
            IrqSource::Mapper => 0x04,
        }
    }

    pub fn to_low_pull_bit(self) -> (r: u8)
        ensures
            r == self.spec_to_low_pull_bit(),
    {
        match self {
            Self::ApuDmc => 0x01,
            Self::ApuFrameCounter => 0x02,
            Self::Mapper => 0x04,
        }
    }
}

/// Progress of a low IRQ line towards the CPU noticing it.
#[derive(Debug, Clone, Copy, PartialEq, Eq, Structural)]
pub enum IrqStatus {
    Inactive,
    Pending,
    Triggered,
}

/// NMI and IRQ line state.  NMI is edge-triggered: a high-to-low
/// transition latches a flag that only the consumer clears.  IRQ is the
/// level OR of the named low pulls, reaching `Triggered` one tick after
/// `Pending`; releasing the last pull clears it at once.
#[derive(Debug, Clone)]
pub struct InterruptLines {
    pub nmi_line: InterruptLine,
    pub next_nmi_line: InterruptLine,
    pub nmi_triggered: bool,
    pub irq_status: IrqStatus,
    pub irq_line: InterruptLine,
    pub irq_low_pulls: u8,
}

/// One tick of the interrupt lines: latch an NMI edge, sample the IRQ
/// pulls into the line level, and advance the IRQ status one step.
pub open spec fn spec_interrupt_tick(l: InterruptLines) -> InterruptLines {
    let nmi_triggered = l.nmi_triggered || (l.nmi_line == InterruptLine::High && l.next_nmi_line
        == InterruptLine::Low);
    let irq_line = if l.irq_low_pulls != 0 {
        InterruptLine::Low
    } else {
        InterruptLine::High
    };
    let irq_status = if irq_line == InterruptLine::High {
        IrqStatus::Inactive
    } else if l.irq_status == IrqStatus::Inactive {
        IrqStatus::Pending
    } else {
        IrqStatus::Triggered
    };
    InterruptLines {
        nmi_line: l.next_nmi_line,
        nmi_triggered,
        irq_line,
        irq_status,
        ..l
    }
}

impl InterruptLines {
    pub fn new() -> (r: Self)
        ensures
            r == (InterruptLines {
                nmi_line: InterruptLine::High,
                next_nmi_line: InterruptLine::High,
                nmi_triggered: false,
                irq_status: IrqStatus::Inactive,
                irq_line: InterruptLine::High,
                irq_low_pulls: 0x00,
            }),
    {
        InterruptLines {
            nmi_line: InterruptLine::High,
            next_nmi_line: InterruptLine::High,
            nmi_triggered: false,
            irq_status: IrqStatus::Inactive,
            irq_line: InterruptLine::High,
            irq_low_pulls: 0x00,
        }
    }

    /// Samples both lines once per CPU cycle.
    pub fn tick(&mut self)
        ensures
            *final(self) == spec_interrupt_tick(*old(self)),
    {
        if matches!(self.nmi_line, InterruptLine::High) && matches!(
            self.next_nmi_line,
            InterruptLine::Low,
        ) {
            self.nmi_triggered = true;
        }
        self.nmi_line = self.next_nmi_line;

        self.irq_line = if self.irq_low_pulls != 0 {
            InterruptLine::Low
        } else {
            InterruptLine::High
        };

        if matches!(self.irq_line, InterruptLine::High) {
            self.irq_status = IrqStatus::Inactive;
        } else if matches!(self.irq_status, IrqStatus::Inactive) {
            // IRQ interrupts are delayed by one CPU cycle
            self.irq_status = IrqStatus::Pending;
        } else {
            self.irq_status = IrqStatus::Triggered;
        }
    }

    pub fn nmi_triggered(&self) -> (r: bool)
        ensures
            r == self.nmi_triggered,
    {
        self.nmi_triggered
    }

    pub fn clear_nmi_triggered(&mut self)
        ensures
            *final(self) == (InterruptLines { nmi_triggered: false, ..*old(self) }),
    {
        self.nmi_triggered = false;
    }

    pub fn ppu_set_nmi_line(&mut self, interrupt_line: InterruptLine)
        ensures
            *final(self) == (InterruptLines { next_nmi_line: interrupt_line, ..*old(self) }),
    {
        self.next_nmi_line = interrupt_line;
    }

    pub fn irq_triggered(&self) -> (r: bool)
        ensures
            r == (self.irq_status == IrqStatus::Triggered),
    {
        matches!(self.irq_status, IrqStatus::Triggered)
    }

    pub fn pull_irq_low(&mut self, source: IrqSource)
        ensures
            *final(self) == (InterruptLines {
                irq_low_pulls: old(self).irq_low_pulls | source.spec_to_low_pull_bit(),
                ..*old(self)
            }),
    {
        self.irq_low_pulls = self.irq_low_pulls | source.to_low_pull_bit();
    }

    /// Releasing the last low pull clears the IRQ status immediately, with
    /// no one-cycle delay.
    pub fn release_irq_low_pull(&mut self, source: IrqSource)
        ensures
            final(self).irq_low_pulls == old(self).irq_low_pulls & !source.spec_to_low_pull_bit(),
            final(self).irq_status == if final(self).irq_low_pulls == 0 {
                IrqStatus::Inactive
            } else {
                old(self).irq_status
            },
            final(self).nmi_line == old(self).nmi_line,
            final(self).next_nmi_line == old(self).next_nmi_line,
            final(self).nmi_triggered == old(self).nmi_triggered,
            final(self).irq_line == old(self).irq_line,
    {
        self.irq_low_pulls = self.irq_low_pulls & !source.to_low_pull_bit();
        if self.irq_low_pulls == 0 {
            self.irq_status = IrqStatus::Inactive;
        }
    }

    pub fn set_irq_low_pull(&mut self, source: IrqSource, value: bool)
        ensures
            value ==> *final(self) == (InterruptLines {
                irq_low_pulls: old(self).irq_low_pulls | source.spec_to_low_pull_bit(),
                ..*old(self)
            }),
            !value ==> {
                &&& final(self).irq_low_pulls == old(self).irq_low_pulls
                    & !source.spec_to_low_pull_bit()
                &&& final(self).irq_status == if final(self).irq_low_pulls == 0 {
                    IrqStatus::Inactive
                } else {
                    old(self).irq_status
                }
                &&& final(self).nmi_line == old(self).nmi_line
                &&& final(self).next_nmi_line == old(self).next_nmi_line
                &&& final(self).nmi_triggered == old(self).nmi_triggered
                &&& final(self).irq_line == old(self).irq_line
            },
    {
        if value {
            self.pull_irq_low(source);
        } else {
            self.release_irq_low_pull(source);
        }
    }
}

/// Relative palette-RAM index of a palette-space address, with the four
/// mirrored sprite-palette entries folded down.
pub open spec fn spec_map_palette_address(address: u16) -> int {
    let palette_relative_addr = (address & 0x001F) as int;
    if palette_relative_addr == 0x10 || palette_relative_addr == 0x14 || palette_relative_addr
        == 0x18 || palette_relative_addr == 0x1C {
        palette_relative_addr - 0x10
    } else {
        palette_relative_addr
    }
}

/// Folds a palette-space address onto the 32 bytes of palette RAM.
pub fn map_palette_address(address: u16) -> (r: usize)
    ensures
        r == spec_map_palette_address(address),
        r < 32,
{
    let rel: u16 = address & 0x001F;
    proof {
        let a = address;
        assert(a & 0x001F < 32) by (bit_vector);
        assert(((a & 0x001F) >= 0x10 && (a & 0x001F) % 4 == 0) <==> ((a & 0x001F) == 0x10 || (a
            & 0x001F) == 0x14 || (a & 0x001F) == 0x18 || (a & 0x001F) == 0x1C)) by (bit_vector);
    }
    if rel >= 0x10 && rel % 4 == 0 {
        // the mirrored sprite-palette backdrop entries
        (rel - 0x10) as usize
    } else {
        rel as usize
    }
}


#[verifier::external_type_specification]
#[verifier::external_body]
#[verifier::reject_recursive_types(A)]
pub struct ExArrayVec<A>(tinyvec::ArrayVec<A>);

/// The queued CPU writes, oldest first: each entry is an address and the
/// byte written to it.
pub uninterp spec fn pending_write_entries(q: tinyvec::ArrayVec<[(u16, u8); 5]>) -> Seq<(u16, u8)>;

/// The relative offsets of the registers written since the last drain,
/// oldest first.
pub uninterp spec fn dirty_register_entries(q: tinyvec::ArrayVec<[u8; 5]>) -> Seq<u8>;

/// Relies on tinyvec's ArrayVec Clone impl; nothing is assumed of the
/// copy's contents.
pub assume_specification<A>[ <tinyvec::ArrayVec<A> as core::clone::Clone>::clone ](
    v: &tinyvec::ArrayVec<A>,
) -> tinyvec::ArrayVec<A>
    where
        <A as tinyvec::Array>::Item: core::clone::Clone,
        A: tinyvec::Array + core::clone::Clone,
;

/// Relies on tinyvec's ArrayVec::new: a fresh vector holds no entries.
#[verifier::external_body]
fn pending_writes_new() -> (r: tinyvec::ArrayVec<[(u16, u8); 5]>)
    ensures
        pending_write_entries(r) == Seq::<(u16, u8)>::empty(),
{
    tinyvec::ArrayVec::new()
}

/// Relies on tinyvec's ArrayVec::len: the number of entries held.
#[verifier::external_body]
fn pending_writes_len(q: &tinyvec::ArrayVec<[(u16, u8); 5]>) -> (r: usize)
    ensures
        r == pending_write_entries(*q).len(),
{
    q.len()
}

/// Relies on tinyvec's ArrayVec::push: appends the entry; it panics only
/// when the fixed capacity is already full, which the caller rules out.
#[verifier::external_body]
fn pending_writes_push(q: &mut tinyvec::ArrayVec<[(u16, u8); 5]>, entry: (u16, u8))
    requires
        pending_write_entries(*old(q)).len() < 5,
    ensures
        pending_write_entries(*final(q)) == pending_write_entries(*old(q)).push(entry),
{
    q.push(entry)
}

/// Relies on tinyvec's ArrayVec::drain over the full range: removes every
/// entry and yields them oldest first.
#[verifier::external_body]
fn pending_writes_take_all(q: &mut tinyvec::ArrayVec<[(u16, u8); 5]>) -> (r: Vec<(u16, u8)>)
    ensures
        r@ == pending_write_entries(*old(q)),
        pending_write_entries(*final(q)) == Seq::<(u16, u8)>::empty(),
{
    q.drain(..).collect()
}

/// Relies on tinyvec's ArrayVec::new: a fresh vector holds no entries.
#[verifier::external_body]
fn dirty_registers_new() -> (r: tinyvec::ArrayVec<[u8; 5]>)
    ensures
        dirty_register_entries(r) == Seq::<u8>::empty(),
{
    tinyvec::ArrayVec::new()
}

/// Relies on tinyvec's ArrayVec::len: the number of entries held.
#[verifier::external_body]
fn dirty_registers_len(q: &tinyvec::ArrayVec<[u8; 5]>) -> (r: usize)
    ensures
        r == dirty_register_entries(*q).len(),
{
    q.len()
}

/// Relies on tinyvec's ArrayVec::push: appends the entry; it panics only
/// when the fixed capacity is already full, which the caller rules out.
#[verifier::external_body]
fn dirty_registers_push(q: &mut tinyvec::ArrayVec<[u8; 5]>, entry: u8)
    requires
        dirty_register_entries(*old(q)).len() < 5,
    ensures
        dirty_register_entries(*final(q)) == dirty_register_entries(*old(q)).push(entry),
{
    q.push(entry)
}

/// Relies on tinyvec's ArrayVec::drain over the full range: removes every
/// entry and yields them oldest first.
#[verifier::external_body]
fn dirty_registers_take_all(q: &mut tinyvec::ArrayVec<[u8; 5]>) -> (r: Vec<u8>)
    ensures
        r@ == dirty_register_entries(*old(q)),
        dirty_register_entries(*final(q)) == Seq::<u8>::empty(),
{
    q.drain(..).collect()
}

/// What a read of an audio or input register returns and does: reading
/// the status register records the read, and reading a controller port
/// shifts its latched report by one bit.
pub open spec fn io_read_ok(a: IoRegisters, b: IoRegisters, register: IoRegister, r: u8) -> bool {
    &&& b.data@ == a.data@
    &&& b.dma_dirty == a.dma_dirty
    &&& dirty_register_entries(b.dirty_registers) == dirty_register_entries(a.dirty_registers)
    &&& b.p1_joypad_state == a.p1_joypad_state
    &&& b.p2_joypad_state == a.p2_joypad_state
    &&& if register == IoRegister::SND_CHN {
        &&& b.snd_chn_read
        &&& b.latched_joypad_state == a.latched_joypad_state
        &&& r == a.data@[0x15]
    } else if register == IoRegister::JOY1 {
        &&& b.snd_chn_read == a.snd_chn_read
        &&& match a.latched_joypad_state {
            Some((p1, p2)) => {
                &&& b.latched_joypad_state == Some((LatchedJoypadState((p1.0 >> 1) | 0x80), p2))
                &&& r == (p1.0 & 0x01) | 0x40
            },
            None => {
                &&& b.latched_joypad_state == a.latched_joypad_state
                &&& r == if a.p1_joypad_state.a {
                    0x41u8
                } else {
                    0x40u8
                }
            },
        }
    } else if register == IoRegister::JOY2 {
        &&& b.snd_chn_read == a.snd_chn_read
        &&& match a.latched_joypad_state {
            Some((p1, p2)) => {
                &&& b.latched_joypad_state == Some((p1, LatchedJoypadState((p2.0 >> 1) | 0x80)))
                &&& r == (p2.0 & 0x01) | 0x40
            },
            None => {
                &&& b.latched_joypad_state == a.latched_joypad_state
                &&& r == if a.p2_joypad_state.a {
                    0x41u8
                } else {
                    0x40u8
                }
            },
        }
    } else {
        &&& b.snd_chn_read == a.snd_chn_read
        &&& b.latched_joypad_state == a.latched_joypad_state
        &&& r == 0xFF
    }
}

/// The audio and input register block: backing bytes, the set of registers
/// written since the audio unit last drained them, and controller strobe
/// state.
#[derive(Debug, Clone)]
pub struct IoRegisters {
    pub data: Vec<u8>,
    pub dma_dirty: bool,
    pub dirty_registers: tinyvec::ArrayVec<[u8; 5]>,
    pub snd_chn_read: bool,
    pub p1_joypad_state: JoypadState,
    pub p2_joypad_state: JoypadState,
    pub latched_joypad_state: Option<(LatchedJoypadState, LatchedJoypadState)>,
}

impl IoRegisters {
    pub open spec fn wf(self) -> bool {
        &&& self.data@.len() == 0x18
        &&& dirty_register_entries(self.dirty_registers).len() <= 5
        &&& forall|i: int|
            0 <= i < dirty_register_entries(self.dirty_registers).len()
                ==> spec_io_from_relative(
                dirty_register_entries(self.dirty_registers)[i] as int,
            ) is Some
    }

    pub open spec fn spec_dirty_len(self) -> nat {
        dirty_register_entries(self.dirty_registers).len()
    }

    /// All fields equal except the two the strobe path owns.
    pub open spec fn same_but_joypad(a: IoRegisters, b: IoRegisters) -> bool {
        &&& b.data@ == a.data@
        &&& b.dma_dirty == a.dma_dirty
        &&& dirty_register_entries(b.dirty_registers) == dirty_register_entries(a.dirty_registers)
        &&& b.p1_joypad_state == a.p1_joypad_state
        &&& b.p2_joypad_state == a.p2_joypad_state
    }

    pub fn new() -> (r: Self)
        ensures
            r.wf(),
            r.data@ == Seq::<u8>::new(0x18, |i: int| 0u8),
            !r.dma_dirty,
            r.spec_dirty_len() == 0,
            !r.snd_chn_read,
            spec_latch(r.p1_joypad_state) == 0,
            spec_latch(r.p2_joypad_state) == 0,
            r.latched_joypad_state is None,
    {
        let data = crate::cartridge::make_zero_vec(0x18);
        proof {
            assert(data@ =~= Seq::<u8>::new(0x18, |i: int| 0u8));
        }
        IoRegisters {
            data,
            dma_dirty: false,
            dirty_registers: dirty_registers_new(),
            snd_chn_read: false,
            p1_joypad_state: JoypadState::new(),
            p2_joypad_state: JoypadState::new(),
            latched_joypad_state: None,
        }
    }

    /// What a read of `register` returns and does: reading the status
    /// register records the read, and reading a controller port shifts its
    /// latched report by one bit.
    pub fn read_register(&mut self, register: IoRegister) -> (r: u8)
        requires
            old(self).wf(),
        ensures
            final(self).wf(),
            io_read_ok(*old(self), *final(self), register, r),
    {
        match register {
            IoRegister::SND_CHN => {
                self.snd_chn_read = true;
                self.data[register.to_relative_address()]
            },
            IoRegister::JOY1 => {
                if let Some((p1_joypad_state, p2_joypad_state)) = self.latched_joypad_state {
                    self.latched_joypad_state = Some((p1_joypad_state.shift(), p2_joypad_state));
                    p1_joypad_state.next_bit() | 0x40
                } else {
                    if self.p1_joypad_state.a {
                        0x41
                    } else {
                        0x40
                    }
                }
            },
            IoRegister::JOY2 => {
                if let Some((p1_joypad_state, p2_joypad_state)) = self.latched_joypad_state {
                    self.latched_joypad_state = Some((p1_joypad_state, p2_joypad_state.shift()));
                    p2_joypad_state.next_bit() | 0x40
                } else {
                    if self.p2_joypad_state.a {
                        0x41
                    } else {
                        0x40
                    }
                }
            },
            _ => 0xFF,
        }
    }

    /// Reads the register mapped at `address`, if any; unassigned offsets
    /// read as open bus.
    pub fn read_address(&mut self, address: u16) -> (r: u8)
        requires
            old(self).wf(),
            CPU_IO_REGISTERS_START <= address <= CPU_IO_REGISTERS_END,
        ensures
            final(self).wf(),
            match spec_io_from_relative((address - CPU_IO_REGISTERS_START) as int) {
                Some(register) => io_read_ok(*old(self), *final(self), register, r),
                None => *final(self) == *old(self) && r == 0xFF,
            },
    {
        let relative_addr = address - CPU_IO_REGISTERS_START;
        match IoRegister::from_relative_address(relative_addr) {
            Some(register) => self.read_register(register),
            None => 0xFF,
        }
    }

    /// What a write of `value` to `register` does: the backing byte is
    /// stored, the register joins the dirty set, a DMA trigger raises the
    /// DMA flag, and the strobe register latches or releases the
    /// controllers.
    pub fn write_register(&mut self, register: IoRegister, value: u8)
        requires
            old(self).wf(),
            old(self).spec_dirty_len() < 5,
        ensures
            final(self).wf(),
            final(self).data@ == old(self).data@.update(spec_io_to_relative(register), value),
            dirty_register_entries(final(self).dirty_registers) == dirty_register_entries(
                old(self).dirty_registers,
            ).push(spec_io_to_relative(register) as u8),
            final(self).snd_chn_read == old(self).snd_chn_read,
            final(self).p1_joypad_state == old(self).p1_joypad_state,
            final(self).p2_joypad_state == old(self).p2_joypad_state,
            final(self).dma_dirty == (register == IoRegister::OAMDMA || old(self).dma_dirty),
            final(self).latched_joypad_state == (if register == IoRegister::JOY1 {
                if value & 0x01 != 0 {
                    None
                } else if old(self).latched_joypad_state is None {
                    Some(
                        (
                            LatchedJoypadState(spec_latch(old(self).p1_joypad_state)),
                            LatchedJoypadState(spec_latch(old(self).p2_joypad_state)),
                        ),
                    )
                } else {
                    old(self).latched_joypad_state
                }
            } else {
                old(self).latched_joypad_state
            }),
    {
        let rel = register.to_relative_address();
        self.data[rel] = value;
        dirty_registers_push(&mut self.dirty_registers, rel as u8);

        match register {
            IoRegister::JOY1 => {
                if value & 0x01 != 0 {
                    self.latched_joypad_state = None;
                } else if self.latched_joypad_state.is_none() {
                    self.latched_joypad_state = Some(
                        (self.p1_joypad_state.latch(), self.p2_joypad_state.latch()),
                    );
                }
            },
            IoRegister::OAMDMA => {
                self.dma_dirty = true;
            },
            _ => {},
        }
    }

    /// Writes the register mapped at `address`, if any; writes to
    /// unassigned offsets are dropped.
    pub fn write_address(&mut self, address: u16, value: u8)
        requires
            old(self).wf(),
            old(self).spec_dirty_len() < 5,
            CPU_IO_REGISTERS_START <= address <= CPU_IO_REGISTERS_END,
        ensures
            final(self).wf(),
            match spec_io_from_relative((address - CPU_IO_REGISTERS_START) as int) {
                Some(register) => io_write_ok(*old(self), *final(self), register, value),
                None => *final(self) == *old(self),
            },
    {
        let relative_addr = address - CPU_IO_REGISTERS_START;
        match IoRegister::from_relative_address(relative_addr) {
            Some(register) => self.write_register(register, value),
            None => {},
        }
    }

    /// Hands the audio unit every register written since the last drain,
    /// oldest first, each paired with its current backing byte, and clears
    /// the dirty set.
    pub fn drain_dirty_registers(&mut self) -> (r: Vec<(IoRegister, u8)>)
        requires
            old(self).wf(),
        ensures
            final(self).wf(),
            final(self).data@ == old(self).data@,
            final(self).dma_dirty == old(self).dma_dirty,
            final(self).snd_chn_read == old(self).snd_chn_read,
            final(self).p1_joypad_state == old(self).p1_joypad_state,
            final(self).p2_joypad_state == old(self).p2_joypad_state,
            final(self).latched_joypad_state == old(self).latched_joypad_state,
            final(self).spec_dirty_len() == 0,
            r@.len() == old(self).spec_dirty_len(),
            forall|i: int|
                0 <= i < r@.len() ==> {
                    let rel = dirty_register_entries(old(self).dirty_registers)[i] as int;
                    &&& Some(#[trigger] r@[i].0) == spec_io_from_relative(rel)
                    &&& r@[i].1 == old(self).data@[rel]
                },
    {
        let entries = dirty_registers_take_all(&mut self.dirty_registers);
        let ghost old_entries = dirty_register_entries(old(self).dirty_registers);
        let mut out: Vec<(IoRegister, u8)> = Vec::new();
        let mut i: usize = 0;
        while i < entries.len()
            invariant
                i <= entries@.len(),
                entries@ == old_entries,
                self.data@.len() == 0x18,
                forall|j: int|
                    0 <= j < old_entries.len() ==> spec_io_from_relative(
                        old_entries[j] as int,
                    ) is Some,
                out@.len() == i,
                forall|j: int|
                    0 <= j < i ==> {
                        let rel = old_entries[j] as int;
                        &&& Some(#[trigger] out@[j].0) == spec_io_from_relative(rel)
                        &&& out@[j].1 == self.data@[rel]
                    },
            decreases entries@.len() - i,
        {
            let rel = entries[i];
            match IoRegister::from_relative_address(rel as u16) {
                Some(register) => {
                    out.push((register, self.data[rel as usize]));
                },
                None => {
                    proof {
                        assert(false);
                    }
                },
            }
            i = i + 1;
        }
        out
    }

    /// Stores the audio unit's status byte where a status read will find
    /// it.
    pub fn set_apu_status(&mut self, apu_status: u8)
        requires
            old(self).wf(),
        ensures
            final(self).wf(),
            final(self).data@ == old(self).data@.update(0x15, apu_status),
            final(self).dma_dirty == old(self).dma_dirty,
            dirty_register_entries(final(self).dirty_registers) == dirty_register_entries(
                old(self).dirty_registers,
            ),
            final(self).snd_chn_read == old(self).snd_chn_read,
            final(self).p1_joypad_state == old(self).p1_joypad_state,
            final(self).p2_joypad_state == old(self).p2_joypad_state,
            final(self).latched_joypad_state == old(self).latched_joypad_state,
    {
        let rel = IoRegister::SND_CHN.to_relative_address();
        self.data[rel] = apu_status;
    }

    /// Whether the audio status register was read since this was last
    /// called; reading it acknowledges the audio unit's frame interrupt.
    pub fn get_and_clear_snd_chn_read(&mut self) -> (r: bool)
        ensures
            r == old(self).snd_chn_read,
            *final(self) == (IoRegisters { snd_chn_read: false, ..*old(self) }),
    {
        let snd_chn_read = self.snd_chn_read;
        self.snd_chn_read = false;
        snd_chn_read
    }
}


/// The memory-mapped video register file, with its open-bus latch: a write
/// to any video register leaves the value on the bus, and reads of
/// write-only registers return it.
#[derive(Debug, Clone)]
pub struct PpuRegisters {
    pub ppu_ctrl: u8,
    pub ppu_mask: u8,
    pub ppu_status: u8,
    pub oam_addr: u8,
    pub ppu_data_buffer: u8,
    pub ppu_status_read: bool,
    pub open_bus_value: u8,
    pub last_accessed_register: Option<PpuTrackedRegister>,
    pub write_toggle: PpuWriteToggle,
}

/// Register state after the per-cycle tick: a status read observed since
/// the last tick clears the vertical-blank flag and resets the write
/// toggle.
pub open spec fn spec_ppu_registers_tick(r: PpuRegisters) -> PpuRegisters {
    if r.ppu_status_read {
        PpuRegisters {
            ppu_status_read: false,
            ppu_status: r.ppu_status & 0x7F,
            write_toggle: PpuWriteToggle::First,
            ..r
        }
    } else {
        r
    }
}

/// The NMI line level the video registers drive: low while the
/// vertical-blank flag and the NMI enable bit are both set.
pub open spec fn spec_nmi_line_of(r: PpuRegisters) -> InterruptLine {
    if (r.ppu_status & 0x80 != 0) && (r.ppu_ctrl & 0x80 != 0) {
        InterruptLine::Low
    } else {
        InterruptLine::High
    }
}

impl PpuRegisters {
    pub fn new() -> (r: Self)
        ensures
            r == (PpuRegisters {
                ppu_ctrl: 0,
                ppu_mask: 0,
                ppu_status: 0xA0,
                oam_addr: 0,
                ppu_data_buffer: 0,
                ppu_status_read: false,
                open_bus_value: 0,
                last_accessed_register: None::<PpuTrackedRegister>,
                write_toggle: PpuWriteToggle::First,
            }),
    {
        PpuRegisters {
            ppu_ctrl: 0,
            ppu_mask: 0,
            ppu_status: 0xA0,
            oam_addr: 0,
            ppu_data_buffer: 0,
            ppu_status_read: false,
            open_bus_value: 0,
            last_accessed_register: None,
            write_toggle: PpuWriteToggle::First,
        }
    }

    pub fn ppu_ctrl(&self) -> (r: u8)
        ensures
            r == self.ppu_ctrl,
    {
        self.ppu_ctrl
    }

    pub fn nmi_enabled(&self) -> (r: bool)
        ensures
            r == (self.ppu_ctrl & 0x80 != 0),
    {
        self.ppu_ctrl & 0x80 != 0
    }

    pub fn double_height_sprites(&self) -> (r: bool)
        ensures
            r == (self.ppu_ctrl & 0x20 != 0),
    {
        self.ppu_ctrl & 0x20 != 0
    }

    pub fn bg_pattern_table_address(&self) -> (r: u16)
        ensures
            r == if self.ppu_ctrl & 0x10 != 0 {
                0x1000u16
            } else {
                0x0000u16
            },
    {
        if self.ppu_ctrl & 0x10 != 0 {
            0x1000
        } else {
            0x0000
        }
    }

    pub fn sprite_pattern_table_address(&self) -> (r: u16)
        ensures
            r == if self.ppu_ctrl & 0x08 != 0 {
                0x1000u16
            } else {
                0x0000u16
            },
    {
        if self.ppu_ctrl & 0x08 != 0 {
            0x1000
        } else {
            0x0000
        }
    }

    pub fn ppu_data_addr_increment(&self) -> (r: u16)
        ensures
            r == if self.ppu_ctrl & 0x04 != 0 {
                32u16
            } else {
                1u16
            },
    {
        if self.ppu_ctrl & 0x04 != 0 {
            32
        } else {
            1
        }
    }

    pub fn emphasize_blue(&self) -> (r: bool)
        ensures
            r == (self.ppu_mask & 0x80 != 0),
    {
        self.ppu_mask & 0x80 != 0
    }

    pub fn emphasize_green(&self) -> (r: bool)
        ensures
            r == (self.ppu_mask & 0x40 != 0),
    {
        self.ppu_mask & 0x40 != 0
    }

    pub fn emphasize_red(&self) -> (r: bool)
        ensures
            r == (self.ppu_mask & 0x20 != 0),
    {
        self.ppu_mask & 0x20 != 0
    }

    pub fn sprites_enabled(&self) -> (r: bool)
        ensures
            r == (self.ppu_mask & 0x10 != 0),
    {
        self.ppu_mask & 0x10 != 0
    }

    pub fn bg_enabled(&self) -> (r: bool)
        ensures
            r == (self.ppu_mask & 0x08 != 0),
    {
        self.ppu_mask & 0x08 != 0
    }

    pub fn left_edge_sprites_enabled(&self) -> (r: bool)
        ensures
            r == (self.ppu_mask & 0x04 != 0),
    {
        self.ppu_mask & 0x04 != 0
    }

    pub fn left_edge_bg_enabled(&self) -> (r: bool)
        ensures
            r == (self.ppu_mask & 0x02 != 0),
    {
        self.ppu_mask & 0x02 != 0
    }

    pub fn greyscale_enabled(&self) -> (r: bool)
        ensures
            r == (self.ppu_mask & 0x01 != 0),
    {
        self.ppu_mask & 0x01 != 0
    }

    pub fn vblank_flag(&self) -> (r: bool)
        ensures
            r == (self.ppu_status & 0x80 != 0),
    {
        self.ppu_status & 0x80 != 0
    }

    pub fn set_vblank_flag(&mut self, vblank: bool)
        ensures
            *final(self) == (PpuRegisters {
                ppu_status: if vblank {
                    old(self).ppu_status | 0x80
                } else {
                    old(self).ppu_status & 0x7F
                },
                ..*old(self)
            }),
    {
        if vblank {
            self.ppu_status = self.ppu_status | 0x80;
        } else {
            self.ppu_status = self.ppu_status & 0x7F;
        }
    }

    pub fn set_sprite_0_hit(&mut self, sprite_0_hit: bool)
        ensures
            *final(self) == (PpuRegisters {
                ppu_status: if sprite_0_hit {
                    old(self).ppu_status | 0x40
                } else {
                    old(self).ppu_status & 0xBF
                },
                ..*old(self)
            }),
    {
        if sprite_0_hit {
            self.ppu_status = self.ppu_status | 0x40;
        } else {
            self.ppu_status = self.ppu_status & 0xBF;
        }
    }

    pub fn set_sprite_overflow(&mut self, sprite_overflow: bool)
        ensures
            *final(self) == (PpuRegisters {
                ppu_status: if sprite_overflow {
                    old(self).ppu_status | 0x20
                } else {
                    old(self).ppu_status & 0xDF
                },
                ..*old(self)
            }),
    {
        if sprite_overflow {
            self.ppu_status = self.ppu_status | 0x20;
        } else {
            self.ppu_status = self.ppu_status & 0xDF;
        }
    }

    pub fn take_last_accessed_register(&mut self) -> (r: Option<PpuTrackedRegister>)
        ensures
            r == old(self).last_accessed_register,
            *final(self) == (PpuRegisters {
                last_accessed_register: None::<PpuTrackedRegister>,
                ..*old(self)
            }),
    {
        self.last_accessed_register.take()
    }

    pub fn get_open_bus_value(&self) -> (r: u8)
        ensures
            r == self.open_bus_value,
    {
        self.open_bus_value
    }

    pub fn get_write_toggle(&self) -> (r: PpuWriteToggle)
        ensures
            r == self.write_toggle,
    {
        self.write_toggle
    }

    /// Applies a pending status-read side effect and drives the NMI line
    /// from the resulting flag state.
    pub fn tick(&mut self, interrupt_lines: &mut InterruptLines)
        ensures
            *final(self) == spec_ppu_registers_tick(*old(self)),
            *final(interrupt_lines) == (InterruptLines {
                next_nmi_line: spec_nmi_line_of(spec_ppu_registers_tick(*old(self))),
                ..*old(interrupt_lines)
            }),
    {
        if self.ppu_status_read {
            self.ppu_status_read = false;

            self.set_vblank_flag(false);
            self.write_toggle = PpuWriteToggle::First;
        }

        let nmi_line = if self.vblank_flag() && self.nmi_enabled() {
            InterruptLine::Low
        } else {
            InterruptLine::High
        };
        interrupt_lines.ppu_set_nmi_line(nmi_line);
    }
}


/// Relies on rand::random: a seed drawn from the thread-local generator.
/// Nothing is assumed of the value.
#[verifier::external_body]
fn random_seed() -> u64 {
    rand::random()
}

/// One step of a 64-bit xorshift generator.
pub open spec fn spec_xorshift(s: u64) -> u64 {
    let a = s ^ (s << 13);
    let b = a ^ (a >> 7);
    b ^ (b << 17)
}

/// The generator state after `n` steps from `s`.
pub open spec fn spec_xorshift_n(s: u64, n: nat) -> u64
    decreases n,
{
    if n == 0 {
        s
    } else {
        spec_xorshift(spec_xorshift_n(s, (n - 1) as nat))
    }
}

fn xorshift_step(s: u64) -> (r: u64)
    ensures
        r == spec_xorshift(s),
{
    let a = s ^ (s << 13u64);
    let b = a ^ (a >> 7u64);
    b ^ (b << 17u64)
}

/// A RAM image of the given length drawn from the xorshift stream seeded
/// with `seed`: byte `i` is the low byte of the stream's `i + 1`-th state.
pub fn fill_random_ram(seed: u64, len: usize) -> (r: Vec<u8>)
    ensures
        r@.len() == len,
        forall|i: int|
            0 <= i < len ==> r@[i] == (spec_xorshift_n(seed, (i + 1) as nat) & 0xFF) as u8,
{
    let mut v: Vec<u8> = Vec::new();
    let mut state: u64 = seed;
    let mut i: usize = 0;
    while i < len
        invariant
            i <= len,
            v@.len() == i,
            state == spec_xorshift_n(seed, i as nat),
            forall|j: int|
                0 <= j < i ==> v@[j] == (spec_xorshift_n(seed, (j + 1) as nat) & 0xFF) as u8,
        decreases len - i,
    {
        state = xorshift_step(state);
        v.push((state & 0xFF) as u8);
        i = i + 1;
    }
    v
}

/// The power-on video register state.
pub open spec fn spec_ppu_registers_initial() -> PpuRegisters {
    PpuRegisters {
        ppu_ctrl: 0,
        ppu_mask: 0,
        ppu_status: 0xA0,
        oam_addr: 0,
        ppu_data_buffer: 0,
        ppu_status_read: false,
        open_bus_value: 0,
        last_accessed_register: None,
        write_toggle: PpuWriteToggle::First,
    }
}

/// The power-on interrupt-line state.
pub open spec fn spec_interrupt_lines_initial() -> InterruptLines {
    InterruptLines {
        nmi_line: InterruptLine::High,
        next_nmi_line: InterruptLine::High,
        nmi_triggered: false,
        irq_status: IrqStatus::Inactive,
        irq_line: InterruptLine::High,
        irq_low_pulls: 0x00,
    }
}

/// The whole console bus: cartridge mapper, internal RAM, the video and
/// audio register files, video memories, the interrupt lines, and the
/// bounded FIFO of CPU writes waiting for the next tick.
#[derive(Debug)]
pub struct Bus {
    pub mapper: Mapper,
    pub cpu_internal_ram: Vec<u8>,
    pub ppu_registers: PpuRegisters,
    pub io_registers: IoRegisters,
    pub ppu_vram: Vec<u8>,
    pub ppu_palette_ram: Vec<u8>,
    pub ppu_oam: Vec<u8>,
    pub ppu_bus_address: u16,
    pub interrupt_lines: InterruptLines,
    pub pending_writes: tinyvec::ArrayVec<[(u16, u8); 5]>,
}

/// All bus state equal except possibly the pending-write queue.
pub open spec fn bus_eq_mod_pending(a: Bus, b: Bus) -> bool {
    &&& b.mapper == a.mapper
    &&& b.cpu_internal_ram@ == a.cpu_internal_ram@
    &&& b.ppu_registers == a.ppu_registers
    &&& io_eq(a.io_registers, b.io_registers)
    &&& b.ppu_vram@ == a.ppu_vram@
    &&& b.ppu_palette_ram@ == a.ppu_palette_ram@
    &&& b.ppu_oam@ == a.ppu_oam@
    &&& b.ppu_bus_address == a.ppu_bus_address
    &&& b.interrupt_lines == a.interrupt_lines
}

/// The audio and input register blocks hold the same state.
pub open spec fn io_eq(a: IoRegisters, b: IoRegisters) -> bool {
    &&& b.data@ == a.data@
    &&& b.dma_dirty == a.dma_dirty
    &&& dirty_register_entries(b.dirty_registers) == dirty_register_entries(a.dirty_registers)
    &&& b.snd_chn_read == a.snd_chn_read
    &&& b.p1_joypad_state == a.p1_joypad_state
    &&& b.p2_joypad_state == a.p2_joypad_state
    &&& b.latched_joypad_state == a.latched_joypad_state
}

/// How an audio or input register write changed the register block.
pub open spec fn io_write_ok(a: IoRegisters, b: IoRegisters, reg: IoRegister, value: u8) -> bool {
    &&& b.data@ == a.data@.update(spec_io_to_relative(reg), value)
    &&& dirty_register_entries(b.dirty_registers) == dirty_register_entries(
        a.dirty_registers,
    ).push(spec_io_to_relative(reg) as u8)
    &&& b.snd_chn_read == a.snd_chn_read
    &&& b.p1_joypad_state == a.p1_joypad_state
    &&& b.p2_joypad_state == a.p2_joypad_state
    &&& b.dma_dirty == (reg == IoRegister::OAMDMA || a.dma_dirty)
    &&& b.latched_joypad_state == (if reg == IoRegister::JOY1 {
        if value & 0x01 != 0 {
            None
        } else if a.latched_joypad_state is None {
            Some(
                (
                    LatchedJoypadState(spec_latch(a.p1_joypad_state)),
                    LatchedJoypadState(spec_latch(a.p2_joypad_state)),
                ),
            )
        } else {
            a.latched_joypad_state
        }
    } else {
        a.latched_joypad_state
    })
}

/// How a write to a video register changed the bus: the value lands on
/// open bus, and the register's own side effect follows.  A data-port
/// write goes through the mapper at the current video bus address.
pub open spec fn ppu_reg_write_ok(b0: Bus, b1: Bus, reg: PpuRegister, value: u8) -> bool {
    &&& b1.cpu_internal_ram@ == b0.cpu_internal_ram@
    &&& io_eq(b0.io_registers, b1.io_registers)
    &&& b1.ppu_bus_address == b0.ppu_bus_address
    &&& b1.interrupt_lines == b0.interrupt_lines
    &&& match reg {
        PpuRegister::PPUCTRL => {
            &&& b1.ppu_registers == (PpuRegisters {
                open_bus_value: value,
                ppu_ctrl: value,
                last_accessed_register: Some(PpuTrackedRegister::PPUCTRL),
                ..b0.ppu_registers
            })
            &&& bus_memories_eq(b0, b1)
        },
        PpuRegister::PPUMASK => {
            &&& b1.ppu_registers == (PpuRegisters {
                open_bus_value: value,
                ppu_mask: value,
                ..b0.ppu_registers
            })
            &&& bus_memories_eq(b0, b1)
        },
        PpuRegister::PPUSTATUS => {
            &&& b1.ppu_registers == (PpuRegisters { open_bus_value: value, ..b0.ppu_registers })
            &&& bus_memories_eq(b0, b1)
        },
        PpuRegister::OAMADDR => {
            &&& b1.ppu_registers == (PpuRegisters {
                open_bus_value: value,
                oam_addr: value,
                ..b0.ppu_registers
            })
            &&& bus_memories_eq(b0, b1)
        },
        PpuRegister::OAMDATA => {
            &&& b1.ppu_registers == (PpuRegisters {
                open_bus_value: value,
                oam_addr: ((b0.ppu_registers.oam_addr + 1) % 256) as u8,
                ..b0.ppu_registers
            })
            &&& b1.ppu_oam@ == b0.ppu_oam@.update(b0.ppu_registers.oam_addr as int, value)
            &&& b1.mapper == b0.mapper
            &&& b1.ppu_vram@ == b0.ppu_vram@
            &&& b1.ppu_palette_ram@ == b0.ppu_palette_ram@
        },
        PpuRegister::PPUSCROLL => {
            &&& b1.ppu_registers == (PpuRegisters {
                open_bus_value: value,
                last_accessed_register: Some(PpuTrackedRegister::PPUSCROLL),
                write_toggle: b0.ppu_registers.write_toggle.spec_toggle(),
                ..b0.ppu_registers
            })
            &&& bus_memories_eq(b0, b1)
        },
        PpuRegister::PPUADDR => {
            &&& b1.ppu_registers == (PpuRegisters {
                open_bus_value: value,
                last_accessed_register: Some(PpuTrackedRegister::PPUADDR),
                write_toggle: b0.ppu_registers.write_toggle.spec_toggle(),
                ..b0.ppu_registers
            })
            &&& bus_memories_eq(b0, b1)
        },
        PpuRegister::PPUDATA => {
            &&& b1.ppu_registers == (PpuRegisters {
                open_bus_value: value,
                last_accessed_register: Some(PpuTrackedRegister::PPUDATA),
                ..b0.ppu_registers
            })
            &&& b1.ppu_oam@ == b0.ppu_oam@
            &&& ppu_space_write_ok(b0, b1, b0.ppu_bus_address & 0x3FFF, value)
        },
    }
}

/// The mapper, video memories and OAM are unchanged.
pub open spec fn bus_memories_eq(b0: Bus, b1: Bus) -> bool {
    &&& b1.mapper == b0.mapper
    &&& b1.ppu_vram@ == b0.ppu_vram@
    &&& b1.ppu_palette_ram@ == b0.ppu_palette_ram@
    &&& b1.ppu_oam@ == b0.ppu_oam@
}

/// How a video-space write at a masked address landed: through the mapper
/// into CHR memory or VRAM, or into palette RAM.
pub open spec fn ppu_space_write_ok(b0: Bus, b1: Bus, masked: u16, value: u8) -> bool {
    if masked <= 0x3EFF {
        &&& Mapper::spec_ppu_access_data_ok(b0.mapper, b1.mapper, masked)
        &&& ppu_write_applied(
            b0.mapper.spec_map_ppu(masked),
            value,
            b0.mapper.spec_cartridge(),
            b1.mapper.spec_cartridge(),
            b0.ppu_vram@,
            b1.ppu_vram@,
        )
        &&& b1.ppu_palette_ram@ == b0.ppu_palette_ram@
    } else {
        &&& b1.mapper == b0.mapper
        &&& b1.ppu_vram@ == b0.ppu_vram@
        &&& b1.ppu_palette_ram@ == b0.ppu_palette_ram@.update(
            spec_map_palette_address(masked),
            value,
        )
    }
}

/// The byte a video-space read of a masked address returns.
pub open spec fn spec_ppu_space_read_value(b: Bus, masked: u16) -> u8 {
    if masked <= 0x3EFF {
        b.mapper.spec_map_ppu(masked).spec_read(b.mapper.spec_cartridge(), b.ppu_vram@)
    } else {
        b.ppu_palette_ram@[spec_map_palette_address(masked)]
    }
}

/// The mapper state after a video-space access of a masked address.
pub open spec fn spec_mapper_after_ppu(m: Mapper, masked: u16) -> Mapper {
    if masked <= 0x3EFF {
        m.spec_after_ppu_access(masked)
    } else {
        m
    }
}

/// One queued CPU write applied to the bus, decoded over the fixed address
/// partition: internal RAM, the video registers, the audio and input
/// registers, the open test-mode block, or cartridge space.  The
/// pending-write queue itself is not constrained.
pub open spec fn bus_write_step(b0: Bus, b1: Bus, address: u16, value: u8) -> bool {
    if address <= 0x1FFF {
        &&& b1.cpu_internal_ram@ == b0.cpu_internal_ram@.update((address & 0x07FF) as int, value)
        &&& b1.ppu_registers == b0.ppu_registers
        &&& io_eq(b0.io_registers, b1.io_registers)
        &&& b1.ppu_bus_address == b0.ppu_bus_address
        &&& b1.interrupt_lines == b0.interrupt_lines
        &&& bus_memories_eq(b0, b1)
    } else if address <= 0x3FFF {
        match spec_ppu_register_from_relative((((address - 0x2000) as u16) & 0x0007) as int) {
            Some(reg) => ppu_reg_write_ok(b0, b1, reg, value),
            None => false,
        }
    } else if address <= 0x4017 {
        &&& b1.cpu_internal_ram@ == b0.cpu_internal_ram@
        &&& b1.ppu_registers == b0.ppu_registers
        &&& b1.ppu_bus_address == b0.ppu_bus_address
        &&& b1.interrupt_lines == b0.interrupt_lines
        &&& bus_memories_eq(b0, b1)
        &&& match spec_io_from_relative((address - 0x4000) as int) {
            Some(reg) => io_write_ok(b0.io_registers, b1.io_registers, reg, value),
            None => io_eq(b0.io_registers, b1.io_registers),
        }
    } else if address <= 0x401F {
        bus_eq_mod_pending(b0, b1)
    } else {
        &&& b1.cpu_internal_ram@ == b0.cpu_internal_ram@
        &&& b1.ppu_registers == b0.ppu_registers
        &&& io_eq(b0.io_registers, b1.io_registers)
        &&& b1.ppu_vram@ == b0.ppu_vram@
        &&& b1.ppu_palette_ram@ == b0.ppu_palette_ram@
        &&& b1.ppu_oam@ == b0.ppu_oam@
        &&& b1.ppu_bus_address == b0.ppu_bus_address
        &&& b1.interrupt_lines == b0.interrupt_lines
        &&& Mapper::spec_cpu_write_ok(b0.mapper, b1.mapper, address, value)
    }
}

/// The queued writes applied to the bus one after another, oldest first.
pub open spec fn writes_applied(b0: Bus, b1: Bus, writes: Seq<(u16, u8)>) -> bool
    decreases writes.len(),
{
    if writes.len() == 0 {
        bus_eq_mod_pending(b0, b1)
    } else {
        exists|mid: Bus|
            #[trigger] bus_write_step(b0, mid, writes[0].0, writes[0].1) && writes_applied(
                mid,
                b1,
                writes.skip(1),
            )
    }
}

/// Appending one more applied write to a chain of applied writes.
proof fn lemma_writes_applied_snoc(b0: Bus, b1: Bus, b2: Bus, writes: Seq<(u16, u8)>, e: (u16, u8))
    requires
        writes_applied(b0, b1, writes),
        bus_write_step(b1, b2, e.0, e.1),
    ensures
        writes_applied(b0, b2, writes.push(e)),
    decreases writes.len(),
{
    if writes.len() == 0 {
        assert(bus_write_step(b0, b2, e.0, e.1)) by {
            assert(bus_eq_mod_pending(b0, b1));
        }
        let tail = writes.push(e).skip(1);
        assert(tail.len() == 0);
        assert(bus_eq_mod_pending(b2, b2));
        assert(writes_applied(b2, b2, tail));
        assert(writes.push(e)[0] == e);
    } else {
        let mid = choose|mid: Bus|
            #[trigger] bus_write_step(b0, mid, writes[0].0, writes[0].1) && writes_applied(
                mid,
                b1,
                writes.skip(1),
            );
        lemma_writes_applied_snoc(mid, b1, b2, writes.skip(1), e);
        assert(writes.push(e).skip(1) =~= writes.skip(1).push(e));
        assert(writes.push(e)[0] == writes[0]);
    }
}

/// The bus state after the per-cycle housekeeping that follows the write
/// drain: the video registers apply a pending status-read effect and drive
/// the NMI line, the mapper's per-cycle hook runs, and the mapper's
/// interrupt flag is routed onto the IRQ line.
pub open spec fn bus_tick_tail_ok(b0: Bus, b1: Bus) -> bool {
    &&& b1.cpu_internal_ram@ == b0.cpu_internal_ram@
    &&& io_eq(b0.io_registers, b1.io_registers)
    &&& b1.ppu_vram@ == b0.ppu_vram@
    &&& b1.ppu_palette_ram@ == b0.ppu_palette_ram@
    &&& b1.ppu_oam@ == b0.ppu_oam@
    &&& b1.ppu_bus_address == b0.ppu_bus_address
    &&& b1.ppu_registers == spec_ppu_registers_tick(b0.ppu_registers)
    &&& Mapper::spec_tick_ok(b0.mapper, b1.mapper)
    &&& {
        let with_nmi = InterruptLines {
            next_nmi_line: spec_nmi_line_of(spec_ppu_registers_tick(b0.ppu_registers)),
            ..b0.interrupt_lines
        };
        if b1.mapper.spec_interrupt_flag() {
            b1.interrupt_lines == (InterruptLines {
                irq_low_pulls: with_nmi.irq_low_pulls | 0x04,
                ..with_nmi
            })
        } else {
            &&& b1.interrupt_lines.irq_low_pulls == with_nmi.irq_low_pulls & !0x04
            &&& b1.interrupt_lines.irq_status == if b1.interrupt_lines.irq_low_pulls == 0 {
                IrqStatus::Inactive
            } else {
                with_nmi.irq_status
            }
            &&& b1.interrupt_lines.nmi_line == with_nmi.nmi_line
            &&& b1.interrupt_lines.next_nmi_line == with_nmi.next_nmi_line
            &&& b1.interrupt_lines.nmi_triggered == with_nmi.nmi_triggered
            &&& b1.interrupt_lines.irq_line == with_nmi.irq_line
        }
    }
}

impl Bus {
    pub open spec fn wf(self) -> bool {
        &&& self.mapper.wf()
        &&& self.cpu_internal_ram@.len() == 2048
        &&& self.io_registers.wf()
        &&& self.ppu_vram@.len() == 2048
        &&& self.ppu_palette_ram@.len() == 32
        &&& self.ppu_oam@.len() == 256
        &&& pending_write_entries(self.pending_writes).len() <= 5
    }

    pub open spec fn spec_pending_len(self) -> nat {
        pending_write_entries(self.pending_writes).len()
    }

    /// A bus over the given mapper, with internal RAM drawn from the
    /// xorshift stream seeded with `seed` and everything else at its
    /// power-on state.
    pub fn from_cartridge_seeded(mapper: Mapper, seed: u64) -> (r: Bus)
        requires
            mapper.wf(),
        ensures
            r.wf(),
            r.mapper == mapper,
            r.cpu_internal_ram@.len() == 2048,
            forall|i: int|
                0 <= i < 2048 ==> r.cpu_internal_ram@[i] == (spec_xorshift_n(seed, (i + 1) as nat)
                    & 0xFF) as u8,
            r.ppu_registers == spec_ppu_registers_initial(),
            r.io_registers.data@ == Seq::<u8>::new(0x18, |i: int| 0u8),
            !r.io_registers.dma_dirty,
            r.io_registers.spec_dirty_len() == 0,
            !r.io_registers.snd_chn_read,
            r.io_registers.latched_joypad_state is None,
            r.ppu_vram@ == Seq::<u8>::new(2048, |i: int| 0u8),
            r.ppu_palette_ram@ == Seq::<u8>::new(32, |i: int| 0u8),
            r.ppu_oam@ == Seq::<u8>::new(256, |i: int| 0u8),
            r.ppu_bus_address == 0,
            r.interrupt_lines == spec_interrupt_lines_initial(),
            r.spec_pending_len() == 0,
    {
        let ppu_vram = crate::cartridge::make_zero_vec(2048);
        let ppu_palette_ram = crate::cartridge::make_zero_vec(32);
        let ppu_oam = crate::cartridge::make_zero_vec(256);
        proof {
            assert(ppu_vram@ =~= Seq::<u8>::new(2048, |i: int| 0u8));
            assert(ppu_palette_ram@ =~= Seq::<u8>::new(32, |i: int| 0u8));
            assert(ppu_oam@ =~= Seq::<u8>::new(256, |i: int| 0u8));
        }
        Bus {
            mapper,
            cpu_internal_ram: fill_random_ram(seed, 2048),
            ppu_registers: PpuRegisters::new(),
            io_registers: IoRegisters::new(),
            ppu_vram,
            ppu_palette_ram,
            ppu_oam,
            ppu_bus_address: 0,
            interrupt_lines: InterruptLines::new(),
            pending_writes: pending_writes_new(),
        }
    }

    /// A bus over the given mapper with randomized power-on RAM: the fill
    /// seed comes from the process's random generator.
    pub fn from_cartridge(mapper: Mapper) -> (r: Bus)
        requires
            mapper.wf(),
        ensures
            r.wf(),
            r.mapper == mapper,
            r.ppu_registers == spec_ppu_registers_initial(),
            r.interrupt_lines == spec_interrupt_lines_initial(),
            r.spec_pending_len() == 0,
            r.io_registers.spec_dirty_len() == 0,
    {
        let seed = random_seed();
        Bus::from_cartridge_seeded(mapper, seed)
    }

    pub fn cpu_internal_ram(&self) -> (r: &Vec<u8>)
        ensures
            r == &self.cpu_internal_ram,
    {
        &self.cpu_internal_ram
    }

    /// Number of CPU writes waiting for the next tick.
    pub fn pending_write_count(&self) -> (r: usize)
        ensures
            r == self.spec_pending_len(),
    {
        pending_writes_len(&self.pending_writes)
    }

    /// Number of audio registers written since the audio unit last drained
    /// them.
    pub fn dirty_register_count(&self) -> (r: usize)
        ensures
            r == self.io_registers.spec_dirty_len(),
    {
        dirty_registers_len(&self.io_registers.dirty_registers)
    }

    pub fn update_p1_joypad_state(&mut self, p1_joypad_state: JoypadState)
        ensures
            *final(self) == (Bus {
                io_registers: IoRegisters {
                    p1_joypad_state,
                    ..old(self).io_registers
                },
                ..*old(self)
            }),
    {
        self.io_registers.p1_joypad_state = p1_joypad_state;
    }

    pub fn update_p2_joypad_state(&mut self, p2_joypad_state: JoypadState)
        ensures
            *final(self) == (Bus {
                io_registers: IoRegisters {
                    p2_joypad_state,
                    ..old(self).io_registers
                },
                ..*old(self)
            }),
    {
        self.io_registers.p2_joypad_state = p2_joypad_state;
    }

    /// Samples the NMI and IRQ lines; called once per CPU cycle between
    /// the first and second video ticks.
    pub fn poll_interrupt_lines(&mut self)
        ensures
            *final(self) == (Bus {
                interrupt_lines: spec_interrupt_tick(old(self).interrupt_lines),
                ..*old(self)
            }),
    {
        self.interrupt_lines.tick();
    }
}


/// What a read of a video register returns and does: most registers read
/// back the open-bus latch, the status register clears its read-race
/// flags, and the data port reads through the one-byte buffer while
/// advancing the mapper's bus snoop.
pub open spec fn ppu_reg_read_ok(b0: Bus, b1: Bus, reg: PpuRegister, r: u8) -> bool {
    &&& b1.cpu_internal_ram@ == b0.cpu_internal_ram@
    &&& io_eq(b0.io_registers, b1.io_registers)
    &&& b1.ppu_vram@ == b0.ppu_vram@
    &&& b1.ppu_palette_ram@ == b0.ppu_palette_ram@
    &&& b1.ppu_oam@ == b0.ppu_oam@
    &&& b1.interrupt_lines == b0.interrupt_lines
    &&& pending_write_entries(b1.pending_writes) == pending_write_entries(b0.pending_writes)
    &&& b1.ppu_bus_address == b0.ppu_bus_address
    &&& match reg {
        PpuRegister::PPUCTRL | PpuRegister::PPUMASK | PpuRegister::OAMADDR
            | PpuRegister::PPUSCROLL | PpuRegister::PPUADDR => {
            &&& b1.ppu_registers == b0.ppu_registers
            &&& b1.mapper == b0.mapper
            &&& r == b0.ppu_registers.open_bus_value
        },
        PpuRegister::PPUSTATUS => {
            &&& b1.ppu_registers == (PpuRegisters {
                ppu_status_read: true,
                open_bus_value: (b0.ppu_registers.ppu_status & 0xE0) | (
                b0.ppu_registers.open_bus_value & 0x1F),
                ..b0.ppu_registers
            })
            &&& b1.mapper == b0.mapper
            &&& r == b1.ppu_registers.open_bus_value
        },
        PpuRegister::OAMDATA => {
            &&& b1.ppu_registers == (PpuRegisters {
                open_bus_value: b0.ppu_oam@[b0.ppu_registers.oam_addr as int],
                ..b0.ppu_registers
            })
            &&& b1.mapper == b0.mapper
            &&& r == b1.ppu_registers.open_bus_value
        },
        PpuRegister::PPUDATA => {
            let address = b0.ppu_bus_address;
            let data: u8 = if address < 0x3F00 {
                b0.ppu_registers.ppu_data_buffer
            } else {
                b0.ppu_palette_ram@[spec_map_palette_address(address)]
            };
            let buffer_read_address: u16 = if address < 0x3F00 {
                address
            } else {
                (address - 0x1000) as u16
            };
            let masked = buffer_read_address & 0x3FFF;
            &&& b1.mapper == spec_mapper_after_ppu(b0.mapper, masked)
            &&& b1.ppu_registers == (PpuRegisters {
                ppu_data_buffer: spec_ppu_space_read_value(b0, masked),
                open_bus_value: data,
                last_accessed_register: Some(PpuTrackedRegister::PPUDATA),
                ..b0.ppu_registers
            })
            &&& r == data
        },
    }
}

impl Bus {
    /// Reads the 14-bit video address space: pattern tables and nametables
    /// through the mapper, palette RAM directly.  The access is latched as
    /// the current video bus address.
    pub fn ppu_read_address(&mut self, address: u16) -> (r: u8)
        requires
            old(self).wf(),
        ensures
            final(self).wf(),
            r == spec_ppu_space_read_value(*old(self), address & 0x3FFF),
            final(self).mapper == spec_mapper_after_ppu(old(self).mapper, address & 0x3FFF),
            final(self).ppu_bus_address == address & 0x3FFF,
            final(self).cpu_internal_ram@ == old(self).cpu_internal_ram@,
            final(self).ppu_registers == old(self).ppu_registers,
            io_eq(old(self).io_registers, final(self).io_registers),
            final(self).ppu_vram@ == old(self).ppu_vram@,
            final(self).ppu_palette_ram@ == old(self).ppu_palette_ram@,
            final(self).ppu_oam@ == old(self).ppu_oam@,
            final(self).interrupt_lines == old(self).interrupt_lines,
            pending_write_entries(final(self).pending_writes) == pending_write_entries(
                old(self).pending_writes,
            ),
    {
        let masked = address & 0x3FFF;
        self.ppu_bus_address = masked;

        if masked <= 0x3EFF {
            self.mapper.read_ppu_address(masked, &self.ppu_vram)
        } else {
            let palette_relative_addr = map_palette_address(masked);
            self.ppu_palette_ram[palette_relative_addr]
        }
    }

    /// Writes the 14-bit video address space: pattern tables and
    /// nametables through the mapper, palette RAM directly.
    pub fn ppu_write_address(&mut self, address: u16, value: u8)
        requires
            old(self).wf(),
        ensures
            final(self).wf(),
            ppu_space_write_ok(*old(self), *final(self), address & 0x3FFF, value),
            final(self).cpu_internal_ram@ == old(self).cpu_internal_ram@,
            final(self).ppu_registers == old(self).ppu_registers,
            io_eq(old(self).io_registers, final(self).io_registers),
            final(self).ppu_oam@ == old(self).ppu_oam@,
            final(self).ppu_bus_address == old(self).ppu_bus_address,
            final(self).interrupt_lines == old(self).interrupt_lines,
            pending_write_entries(final(self).pending_writes) == pending_write_entries(
                old(self).pending_writes,
            ),
    {
        let masked = address & 0x3FFF;
        if masked <= 0x3EFF {
            self.mapper.write_ppu_address(masked, value, &mut self.ppu_vram);
            proof {
                if let PpuMapResult::Vram(a) = old(self).mapper.spec_map_ppu(masked) {
                    assert(old(self).ppu_vram@.update(a as int, value).len() == old(
                        self,
                    ).ppu_vram@.len());
                }
            }
        } else {
            let palette_relative_addr = map_palette_address(masked);
            self.ppu_palette_ram[palette_relative_addr] = value;
        }
    }

    /// Reads one of the eight memory-mapped video registers, with its
    /// documented side effects.
    pub fn read_ppu_register(&mut self, register: PpuRegister) -> (r: u8)
        requires
            old(self).wf(),
        ensures
            final(self).wf(),
            ppu_reg_read_ok(*old(self), *final(self), register, r),
    {
        match register {
            PpuRegister::PPUCTRL | PpuRegister::PPUMASK | PpuRegister::OAMADDR
                | PpuRegister::PPUSCROLL | PpuRegister::PPUADDR => self.ppu_registers.open_bus_value,
            PpuRegister::PPUSTATUS => {
                self.ppu_registers.ppu_status_read = true;

                // A status read only replaces bits 7-5 of open bus; bits
                // 4-0 stay and come back as part of the read
                let ppu_status_high_bits = self.ppu_registers.ppu_status & 0xE0;
                let open_bus_lower_bits = self.ppu_registers.open_bus_value & 0x1F;
                self.ppu_registers.open_bus_value = ppu_status_high_bits | open_bus_lower_bits;

                self.ppu_registers.open_bus_value
            },
            PpuRegister::OAMDATA => {
                self.ppu_registers.open_bus_value =
                    self.ppu_oam[self.ppu_registers.oam_addr as usize];
                self.ppu_registers.open_bus_value
            },
            PpuRegister::PPUDATA => {
                let address = self.ppu_bus_address;
                let (data, buffer_read_address) = if address < 0x3F00 {
                    (self.ppu_registers.ppu_data_buffer, address)
                } else {
                    let palette_address = map_palette_address(address);
                    let palette_byte = self.ppu_palette_ram[palette_address];
                    // Data-port reads of palette RAM fill the buffer from
                    // the nametable bytes underneath the palette window
                    (palette_byte, address - 0x1000)
                };

                let buffered = self.ppu_read_address(buffer_read_address);
                self.ppu_registers.ppu_data_buffer = buffered;
                // Restore the bus address: the buffer fill may have read
                // somewhere else
                self.ppu_bus_address = address;

                self.ppu_registers.open_bus_value = data;

                self.ppu_registers.last_accessed_register = Some(PpuTrackedRegister::PPUDATA);

                data
            },
        }
    }

    /// Reads the video register mirrored at the given relative offset.
    fn read_ppu_register_address(&mut self, relative_addr: usize) -> (r: u8)
        requires
            old(self).wf(),
            relative_addr < 8,
        ensures
            final(self).wf(),
            ppu_reg_read_ok(
                *old(self),
                *final(self),
                spec_ppu_register_from_relative(relative_addr as int).unwrap(),
                r,
            ),
    {
        match PpuRegister::from_relative_address(relative_addr) {
            Some(register) => self.read_ppu_register(register),
            None => {
                proof {
                    assert(false);
                }
                0
            },
        }
    }

    /// Writes the video register mirrored at the given relative offset,
    /// with its documented side effects; the value lands on open bus.
    fn write_ppu_register_address(&mut self, relative_addr: usize, value: u8)
        requires
            old(self).wf(),
            relative_addr < 8,
            old(self).io_registers.spec_dirty_len() < 5,
        ensures
            final(self).wf(),
            ppu_reg_write_ok(
                *old(self),
                *final(self),
                spec_ppu_register_from_relative(relative_addr as int).unwrap(),
                value,
            ),
            pending_write_entries(final(self).pending_writes) == pending_write_entries(
                old(self).pending_writes,
            ),
    {
        let register = match PpuRegister::from_relative_address(relative_addr) {
            Some(register) => register,
            None => {
                proof {
                    assert(false);
                }
                PpuRegister::PPUCTRL
            },
        };

        // Writes to any memory-mapped video register land on open bus
        self.ppu_registers.open_bus_value = value;

        match register {
            PpuRegister::PPUCTRL => {
                self.ppu_registers.ppu_ctrl = value;
                self.ppu_registers.last_accessed_register = Some(PpuTrackedRegister::PPUCTRL);
            },
            PpuRegister::PPUMASK => {
                self.ppu_registers.ppu_mask = value;
            },
            PpuRegister::PPUSTATUS => {},
            PpuRegister::OAMADDR => {
                self.ppu_registers.oam_addr = value;
            },
            PpuRegister::OAMDATA => {
                let oam_addr = self.ppu_registers.oam_addr;
                self.ppu_oam[oam_addr as usize] = value;
                self.ppu_registers.oam_addr = ((self.ppu_registers.oam_addr as u16 + 1)
                    % 256) as u8;
            },
            PpuRegister::PPUSCROLL => {
                self.ppu_registers.last_accessed_register = Some(PpuTrackedRegister::PPUSCROLL);
                self.ppu_registers.write_toggle = self.ppu_registers.write_toggle.toggle();
            },
            PpuRegister::PPUADDR => {
                self.ppu_registers.last_accessed_register = Some(PpuTrackedRegister::PPUADDR);
                self.ppu_registers.write_toggle = self.ppu_registers.write_toggle.toggle();
            },
            PpuRegister::PPUDATA => {
                let address = self.ppu_bus_address;
                self.ppu_write_address(address & 0x3FFF, value);
                proof {
                    let a = address;
                    assert((a & 0x3FFF) & 0x3FFF == a & 0x3FFF) by (bit_vector);
                }

                self.ppu_registers.last_accessed_register = Some(PpuTrackedRegister::PPUDATA);
            },
        }
    }
}


impl Bus {
    /// Reads the CPU address space over its fixed partition: internal RAM
    /// mirrored down, the video registers mirrored down, the audio and
    /// input registers, the open test-mode block, and cartridge space.
    pub fn cpu_read_address(&mut self, address: u16) -> (r: u8)
        requires
            old(self).wf(),
        ensures
            final(self).wf(),
            address <= 0x1FFF ==> *final(self) == *old(self) && r == old(
                self,
            ).cpu_internal_ram@[(address & 0x07FF) as int],
            0x2000 <= address <= 0x3FFF ==> ppu_reg_read_ok(
                *old(self),
                *final(self),
                spec_ppu_register_from_relative(
                    (((address - 0x2000) as u16) & 0x0007) as int,
                ).unwrap(),
                r,
            ),
            0x4000 <= address <= 0x4017 ==> {
                &&& final(self).cpu_internal_ram@ == old(self).cpu_internal_ram@
                &&& final(self).ppu_registers == old(self).ppu_registers
                &&& bus_memories_eq(*old(self), *final(self))
                &&& final(self).ppu_bus_address == old(self).ppu_bus_address
                &&& final(self).interrupt_lines == old(self).interrupt_lines
                &&& pending_write_entries(final(self).pending_writes) == pending_write_entries(
                    old(self).pending_writes,
                )
                &&& match spec_io_from_relative((address - 0x4000) as int) {
                    Some(register) => io_read_ok(
                        old(self).io_registers,
                        final(self).io_registers,
                        register,
                        r,
                    ),
                    None => io_eq(old(self).io_registers, final(self).io_registers) && r == 0xFF,
                }
            },
            0x4018 <= address <= 0x401F ==> *final(self) == *old(self) && r == 0xFF,
            address >= 0x4020 ==> *final(self) == *old(self) && r == old(
                self,
            ).mapper.spec_cpu_read(address),
    {
        if address <= CPU_RAM_END {
            let ram_address = address & CPU_RAM_MASK;
            proof {
                let a = address;
                assert(a & 0x07FF < 2048) by (bit_vector);
            }
            self.cpu_internal_ram[ram_address as usize]
        } else if address <= CPU_PPU_REGISTERS_END {
            let ppu_register_relative_addr = (address - CPU_PPU_REGISTERS_START)
                & CPU_PPU_REGISTERS_MASK;
            proof {
                let a = (address - 0x2000) as u16;
                assert(a & 0x0007 < 8) by (bit_vector);
            }
            self.read_ppu_register_address(ppu_register_relative_addr as usize)
        } else if address <= CPU_IO_REGISTERS_END {
            self.io_registers.read_address(address)
        } else if address <= CPU_IO_TEST_MODE_END {
            0xFF
        } else {
            self.mapper.read_cpu_address(address)
        }
    }

    /// Applies one CPU write immediately, over the same partition the
    /// reads use.
    fn cpu_apply_write(&mut self, address: u16, value: u8)
        requires
            old(self).wf(),
            old(self).io_registers.spec_dirty_len() < 5,
        ensures
            final(self).wf(),
            bus_write_step(*old(self), *final(self), address, value),
            pending_write_entries(final(self).pending_writes) == pending_write_entries(
                old(self).pending_writes,
            ),
            final(self).io_registers.spec_dirty_len() <= old(self).io_registers.spec_dirty_len()
                + 1,
    {
        if address <= CPU_RAM_END {
            let ram_address = address & CPU_RAM_MASK;
            proof {
                let a = address;
                assert(a & 0x07FF < 2048) by (bit_vector);
            }
            self.cpu_internal_ram[ram_address as usize] = value;
            proof {
                assert(old(self).cpu_internal_ram@.update(
                    (address & 0x07FF) as int,
                    value,
                ).len() == old(self).cpu_internal_ram@.len());
            }
        } else if address <= CPU_PPU_REGISTERS_END {
            let ppu_register_relative_addr = (address - CPU_PPU_REGISTERS_START)
                & CPU_PPU_REGISTERS_MASK;
            proof {
                let a = (address - 0x2000) as u16;
                assert(a & 0x0007 < 8) by (bit_vector);
            }
            self.write_ppu_register_address(ppu_register_relative_addr as usize, value);
        } else if address <= CPU_IO_REGISTERS_END {
            self.io_registers.write_address(address, value);
        } else if address <= CPU_IO_TEST_MODE_END {
            // open test-mode block: writes are dropped
        } else {
            self.mapper.write_cpu_address(address, value);
        }
    }

    /// Queues a CPU write; it takes effect at the next tick, after which
    /// reads observe it.
    pub fn cpu_write_address(&mut self, address: u16, value: u8)
        requires
            old(self).wf(),
            old(self).spec_pending_len() < 5,
        ensures
            final(self).wf(),
            pending_write_entries(final(self).pending_writes) == pending_write_entries(
                old(self).pending_writes,
            ).push((address, value)),
            final(self).cpu_internal_ram@ == old(self).cpu_internal_ram@,
            final(self).ppu_registers == old(self).ppu_registers,
            io_eq(old(self).io_registers, final(self).io_registers),
            bus_memories_eq(*old(self), *final(self)),
            final(self).ppu_bus_address == old(self).ppu_bus_address,
            final(self).interrupt_lines == old(self).interrupt_lines,
    {
        pending_writes_push(&mut self.pending_writes, (address, value));
    }

    /// One bus cycle: every queued CPU write is applied in arrival order,
    /// then the video registers, the mapper's per-cycle hook, and the
    /// mapper IRQ routing run.
    pub fn tick(&mut self)
        requires
            old(self).wf(),
            old(self).spec_pending_len() + old(self).io_registers.spec_dirty_len() <= 5,
        ensures
            final(self).wf(),
            final(self).spec_pending_len() == 0,
            exists|mid: Bus|
                #[trigger] writes_applied(
                    *old(self),
                    mid,
                    pending_write_entries(old(self).pending_writes),
                ) && bus_tick_tail_ok(mid, *final(self)),
    {
        let ghost b_start = *old(self);
        let ghost entries = pending_write_entries(old(self).pending_writes);
        let ghost old_dirty = old(self).io_registers.spec_dirty_len();

        let writes = pending_writes_take_all(&mut self.pending_writes);

        let mut i: usize = 0;
        while i < writes.len()
            invariant
                i <= writes@.len(),
                writes@ == entries,
                old_dirty + entries.len() <= 5,
                self.wf(),
                pending_write_entries(self.pending_writes).len() == 0,
                self.io_registers.spec_dirty_len() <= old_dirty + i,
                writes_applied(b_start, *self, entries.subrange(0, i as int)),
            decreases writes@.len() - i,
        {
            let entry = writes[i];
            let ghost prev = *self;
            self.cpu_apply_write(entry.0, entry.1);
            proof {
                lemma_writes_applied_snoc(
                    b_start,
                    prev,
                    *self,
                    entries.subrange(0, i as int),
                    entries[i as int],
                );
                assert(entries.subrange(0, i + 1) =~= entries.subrange(0, i as int).push(
                    entries[i as int],
                ));
            }
            i = i + 1;
        }
        proof {
            assert(entries.subrange(0, entries.len() as int) =~= entries);
        }
        let ghost mid_state = *self;

        self.ppu_registers.tick(&mut self.interrupt_lines);
        self.mapper.tick();

        let mapper_flag = self.mapper.interrupt_flag();
        self.interrupt_lines.set_irq_low_pull(IrqSource::Mapper, mapper_flag);

        proof {
            assert(bus_tick_tail_ok(mid_state, *self));
            assert(writes_applied(b_start, mid_state, entries) && bus_tick_tail_ok(
                mid_state,
                *final(self),
            ));
        }
    }

    pub fn is_oamdma_dirty(&self) -> (r: bool)
        ensures
            r == self.io_registers.dma_dirty,
    {
        self.io_registers.dma_dirty
    }

    pub fn clear_oamdma_dirty(&mut self)
        ensures
            *final(self) == (Bus {
                io_registers: IoRegisters { dma_dirty: false, ..old(self).io_registers },
                ..*old(self)
            }),
    {
        self.io_registers.dma_dirty = false;
    }

    pub fn read_oamdma_for_transfer(&self) -> (r: u8)
        requires
            self.wf(),
        ensures
            r == self.io_registers.data@[0x14],
    {
        self.io_registers.data[0x14]
    }

    pub fn get_ppu_registers(&self) -> (r: &PpuRegisters)
        ensures
            r == &self.ppu_registers,
    {
        &self.ppu_registers
    }

    pub fn get_ppu_registers_mut(&mut self) -> (r: &mut PpuRegisters)
        ensures
            *r == old(self).ppu_registers,
            *final(self) == (Bus { ppu_registers: *final(r), ..*old(self) }),
    {
        &mut self.ppu_registers
    }

    pub fn get_io_registers_mut(&mut self) -> (r: &mut IoRegisters)
        ensures
            *r == old(self).io_registers,
            *final(self) == (Bus { io_registers: *final(r), ..*old(self) }),
    {
        &mut self.io_registers
    }

    pub fn interrupt_lines(&mut self) -> (r: &mut InterruptLines)
        ensures
            *r == old(self).interrupt_lines,
            *final(self) == (Bus { interrupt_lines: *final(r), ..*old(self) }),
    {
        &mut self.interrupt_lines
    }

    pub fn get_oam(&self) -> (r: &Vec<u8>)
        ensures
            r == &self.ppu_oam,
    {
        &self.ppu_oam
    }

    pub fn get_palette_ram(&self) -> (r: &Vec<u8>)
        ensures
            r == &self.ppu_palette_ram,
    {
        &self.ppu_palette_ram
    }

    pub fn set_bus_address(&mut self, address: u16)
        ensures
            *final(self) == (Bus { ppu_bus_address: address, ..*old(self) }),
    {
        self.ppu_bus_address = address;
    }
}


/// IRQ latency and release: from a settled line with no pulls, asserting
/// one low-pull source leaves the line untriggered on the assert tick,
/// pending after one tick, and triggered after exactly two; and releasing
/// that single pull empties the pull set, which by the release contract
/// clears the triggered state at once, with no delay.
pub proof fn lemma_irq_two_tick_latency(l: InterruptLines, source: IrqSource)
    requires
        l.irq_low_pulls == 0,
        l.irq_status == IrqStatus::Inactive,
    ensures
        ({
            let pulled = InterruptLines {
                irq_low_pulls: l.irq_low_pulls | source.spec_to_low_pull_bit(),
                ..l
            };
            let t1 = spec_interrupt_tick(pulled);
            let t2 = spec_interrupt_tick(t1);
            &&& pulled.irq_status != IrqStatus::Triggered
            &&& t1.irq_status == IrqStatus::Pending
            &&& t2.irq_status == IrqStatus::Triggered
            &&& t2.irq_low_pulls & !source.spec_to_low_pull_bit() == 0
        }),
{
    let b = source.spec_to_low_pull_bit();
    assert((b == 1 || b == 2 || b == 4) ==> ((0u8 | b) != 0 && (0u8 | b) & !b == 0))
        by (bit_vector);
}

} // verus!
