//! Cartridge data and the bank-switching mappers that translate CPU and PPU
//! bus addresses into PRG/CHR ROM and RAM offsets.
//!
//! Each mapper variant owns its banking state; address-to-offset translation
//! is a pure function of that state, and only explicit register writes mutate
//! it.  Out-of-range bank offsets wrap modulo the size of the backing array,
//! mirroring the cartridge address lines.

use vstd::prelude::*;

verus! {

/// Raw cartridge memory: immutable PRG/CHR ROM plus mutable PRG/CHR RAM.
#[derive(Debug, Clone)]
pub struct Cartridge {
    pub prg_rom: Vec<u8>,
    pub prg_ram: Vec<u8>,
    pub chr_rom: Vec<u8>,
    pub chr_ram: Vec<u8>,
}

/// Bitwise AND can never exceed either operand.
proof fn lemma_u32_and_le(x: u32, m: u32)
    ensures
        x & m <= m,
{
    assert(x & m <= m) by (bit_vector);
}

/// Index into a power-of-two-sized (or any non-empty) region: the offset is
/// reduced modulo the region size by masking with `len - 1`.
pub open spec fn masked_index(len: nat, address: u32) -> int {
    (address & ((len - 1) as u32)) as int
}

/// A masked index always lands inside a non-empty region.
pub proof fn lemma_mask_bounds(address: u32, len: nat)
    requires
        0 < len <= 0x1_0000_0000,
    ensures
        0 <= masked_index(len, address) < len,
{
    lemma_u32_and_le(address, (len - 1) as u32);
}

impl Cartridge {
    /// Size bounds under which every masked access is in range and every
    /// length fits in a `u32` offset computation.
    pub open spec fn wf(self) -> bool {
        &&& 0x4000 <= self.prg_rom@.len() <= 0x0800_0000
        &&& (self.prg_ram@.len() == 0 || self.prg_ram@.len() == 0x2000)
        &&& (self.chr_rom@.len() == 0 || 0x2000 <= self.chr_rom@.len() <= 0x0400_0000)
        &&& (self.chr_ram@.len() == 0 || 0x2000 <= self.chr_ram@.len() <= 0x0400_0000)
    }

    pub open spec fn spec_prg_rom_read(self, address: u32) -> u8 {
        self.prg_rom@[masked_index(self.prg_rom@.len(), address)]
    }

    pub open spec fn spec_prg_ram_read(self, address: u32) -> u8 {
        self.prg_ram@[masked_index(self.prg_ram@.len(), address)]
    }

    pub open spec fn spec_chr_rom_read(self, address: u32) -> u8 {
        self.chr_rom@[masked_index(self.chr_rom@.len(), address)]
    }

    pub open spec fn spec_chr_ram_read(self, address: u32) -> u8 {
        self.chr_ram@[masked_index(self.chr_ram@.len(), address)]
    }

    pub fn get_prg_rom(&self, address: u32) -> (r: u8)
        requires
            self.wf(),
        ensures
            r == self.spec_prg_rom_read(address),
    {
        let mask = (self.prg_rom.len() - 1) as u32;
        proof { lemma_u32_and_le(address, mask); }
        self.prg_rom[(address & mask) as usize]
    }

    pub fn get_prg_ram(&self, address: u32) -> (r: u8)
        requires
            self.wf(),
            self.prg_ram@.len() > 0,
        ensures
            r == self.spec_prg_ram_read(address),
    {
        let mask = (self.prg_ram.len() - 1) as u32;
        proof { lemma_u32_and_le(address, mask); }
        self.prg_ram[(address & mask) as usize]
    }

    pub fn set_prg_ram(&mut self, address: u32, value: u8)
        requires
            old(self).wf(),
            old(self).prg_ram@.len() > 0,
        ensures
            final(self).prg_ram@ == old(self).prg_ram@.update(
                masked_index(old(self).prg_ram@.len(), address),
                value,
            ),
            final(self).prg_rom == old(self).prg_rom,
            final(self).chr_rom == old(self).chr_rom,
            final(self).chr_ram == old(self).chr_ram,
    {
        let mask = (self.prg_ram.len() - 1) as u32;
        proof { lemma_u32_and_le(address, mask); }
        self.prg_ram[(address & mask) as usize] = value;
    }

    pub fn get_chr_rom(&self, address: u32) -> (r: u8)
        requires
            self.wf(),
            self.chr_rom@.len() > 0,
        ensures
            r == self.spec_chr_rom_read(address),
    {
        let mask = (self.chr_rom.len() - 1) as u32;
        proof { lemma_u32_and_le(address, mask); }
        self.chr_rom[(address & mask) as usize]
    }

    pub fn get_chr_ram(&self, address: u32) -> (r: u8)
        requires
            self.wf(),
            self.chr_ram@.len() > 0,
        ensures
            r == self.spec_chr_ram_read(address),
    {
        let mask = (self.chr_ram.len() - 1) as u32;
        proof { lemma_u32_and_le(address, mask); }
        self.chr_ram[(address & mask) as usize]
    }

    pub fn set_chr_ram(&mut self, address: u32, value: u8)
        requires
            old(self).wf(),
            old(self).chr_ram@.len() > 0,
        ensures
            final(self).chr_ram@ == old(self).chr_ram@.update(
                masked_index(old(self).chr_ram@.len(), address),
                value,
            ),
            final(self).prg_rom == old(self).prg_rom,
            final(self).prg_ram == old(self).prg_ram,
            final(self).chr_rom == old(self).chr_rom,
    {
        let mask = (self.chr_ram.len() - 1) as u32;
        proof { lemma_u32_and_le(address, mask); }
        self.chr_ram[(address & mask) as usize] = value;
    }
}

/// A mapper variant's banking state paired with the cartridge memory it maps.
#[derive(Debug, Clone)]
pub struct MapperImpl<MapperData> {
    pub cartridge: Cartridge,
    pub data: MapperData,
}

/// Where a CPU bus address landed: PRG ROM, PRG RAM, or unmapped.
#[derive(Debug, Clone, Copy, PartialEq, Eq, Structural)]
pub enum CpuMapResult {
    PrgROM(u32),
    PrgRAM(u32),
    Unmapped,
}

impl CpuMapResult {
    pub open spec fn spec_read(self, cartridge: Cartridge) -> u8 {
        match self {
            CpuMapResult::PrgROM(address) => cartridge.spec_prg_rom_read(address),
            CpuMapResult::PrgRAM(address) => cartridge.spec_prg_ram_read(address),
            CpuMapResult::Unmapped => 0xFF,
        }
    }

    pub fn read(self, cartridge: &Cartridge) -> (r: u8)
        requires
            cartridge.wf(),
            self is PrgRAM ==> cartridge.prg_ram@.len() > 0,
        ensures
            r == self.spec_read(*cartridge),
    {
        match self {
            CpuMapResult::PrgROM(address) => cartridge.get_prg_rom(address),
            CpuMapResult::PrgRAM(address) => cartridge.get_prg_ram(address),
            CpuMapResult::Unmapped => 0xFF,
        }
    }
}

/// Where a PPU bus address landed: CHR ROM, CHR RAM, or console VRAM.
#[derive(Debug, Clone, Copy, PartialEq, Eq, Structural)]
pub enum PpuMapResult {
    ChrROM(u32),
    ChrRAM(u32),
    Vram(u16),
}

impl PpuMapResult {
    pub open spec fn spec_read(self, cartridge: Cartridge, vram: Seq<u8>) -> u8 {
        match self {
            PpuMapResult::ChrROM(address) => cartridge.spec_chr_rom_read(address),
            PpuMapResult::ChrRAM(address) => cartridge.spec_chr_ram_read(address),
            PpuMapResult::Vram(address) => vram[address as int],
        }
    }

    pub fn read(self, cartridge: &Cartridge, vram: &Vec<u8>) -> (r: u8)
        requires
            cartridge.wf(),
            vram@.len() == 2048,
            self is ChrROM ==> cartridge.chr_rom@.len() > 0,
            self is ChrRAM ==> cartridge.chr_ram@.len() > 0,
            self matches PpuMapResult::Vram(a) ==> a < 2048,
        ensures
            r == self.spec_read(*cartridge, vram@),
    {
        match self {
            PpuMapResult::ChrROM(address) => cartridge.get_chr_rom(address),
            PpuMapResult::ChrRAM(address) => cartridge.get_chr_ram(address),
            PpuMapResult::Vram(address) => vram[address as usize],
        }
    }

    pub fn write(self, value: u8, cartridge: &mut Cartridge, vram: &mut Vec<u8>)
        requires
            old(cartridge).wf(),
            old(vram)@.len() == 2048,
            self is ChrRAM ==> old(cartridge).chr_ram@.len() > 0,
            self matches PpuMapResult::Vram(a) ==> a < 2048,
        ensures
            final(cartridge).prg_rom == old(cartridge).prg_rom,
            final(cartridge).prg_ram == old(cartridge).prg_ram,
            final(cartridge).chr_rom == old(cartridge).chr_rom,
            match self {
                PpuMapResult::ChrROM(_) => {
                    &&& final(cartridge).chr_ram == old(cartridge).chr_ram
                    &&& final(vram)@ == old(vram)@
                },
                PpuMapResult::ChrRAM(address) => {
                    &&& final(cartridge).chr_ram@ == old(cartridge).chr_ram@.update(
                        masked_index(old(cartridge).chr_ram@.len(), address),
                        value,
                    )
                    &&& final(vram)@ == old(vram)@
                },
                PpuMapResult::Vram(address) => {
                    &&& final(cartridge).chr_ram == old(cartridge).chr_ram
                    &&& final(vram)@ == old(vram)@.update(address as int, value)
                },
            },
    {
        match self {
            PpuMapResult::ChrROM(_) => {}
            PpuMapResult::ChrRAM(address) => {
                cartridge.set_chr_ram(address, value);
            }
            PpuMapResult::Vram(address) => {
                vram[address as usize] = value;
            }
        }
    }
}

/// How the two console nametables appear in the cartridge's address window.
#[derive(Debug, Clone, Copy, PartialEq, Eq, Structural)]
pub enum NametableMirroring {
    Horizontal,
    Vertical,
}

impl NametableMirroring {
    pub open spec fn spec_map_to_vram(self, address: u16) -> u16 {
        let relative_addr = address & 0x0FFF;
        match self {
            NametableMirroring::Horizontal => ((relative_addr & 0x0800) >> 1) | (
            relative_addr & 0x03FF),
            NametableMirroring::Vertical => relative_addr & 0x07FF,
        }
    }

    /// Folds a nametable address into the 2 KB of console VRAM.
    pub fn map_to_vram(self, address: u16) -> (r: u16)
        requires
            0x2000 <= address <= 0x3EFF,
        ensures
            r == self.spec_map_to_vram(address),
            r < 2048,
    {
        let relative_addr = address & 0x0FFF;
        proof {
            let a = address;
            assert(((a & 0x0FFF) & 0x0800) >> 1 | ((a & 0x0FFF) & 0x03FF) < 2048)
                by (bit_vector);
            assert((a & 0x0FFF) & 0x07FF < 2048) by (bit_vector);
        }
        match self {
            NametableMirroring::Horizontal => ((relative_addr & 0x0800) >> 1) | (relative_addr
                & 0x03FF),
            NametableMirroring::Vertical => relative_addr & 0x07FF,
        }
    }
}

/// Whether the cartridge's character data is ROM or RAM.
#[derive(Debug, Clone, Copy, PartialEq, Eq, Structural)]
pub enum ChrType {
    ROM,
    RAM,
}

impl ChrType {
    pub open spec fn spec_to_map_result(self, address: u32) -> PpuMapResult {
        match self {
            ChrType::ROM => PpuMapResult::ChrROM(address),
            ChrType::RAM => PpuMapResult::ChrRAM(address),
        }
    }

    pub fn to_map_result(self, address: u32) -> (r: PpuMapResult)
        ensures
            r == self.spec_to_map_result(address),
    {
        match self {
            ChrType::ROM => PpuMapResult::ChrROM(address),
            ChrType::RAM => PpuMapResult::ChrRAM(address),
        }
    }
}

/// The CHR array selected by `chr_type` is present and sized for a full
/// pattern-table window.
pub open spec fn chr_backing_wf(cartridge: Cartridge, chr_type: ChrType) -> bool {
    match chr_type {
        ChrType::ROM => cartridge.chr_rom@.len() > 0,
        ChrType::RAM => cartridge.chr_ram@.len() > 0,
    }
}


/// Fixed-mapping cartridge: no bank switching at all.
#[derive(Debug, Clone)]
pub struct Nrom {
    pub nametable_mirroring: NametableMirroring,
    pub chr_type: ChrType,
}

impl MapperImpl<Nrom> {
    pub open spec fn wf(self) -> bool {
        &&& self.cartridge.wf()
        &&& chr_backing_wf(self.cartridge, self.data.chr_type)
    }

    pub open spec fn spec_map_ppu_address(self, address: u16) -> PpuMapResult {
        if address < 0x2000 {
            self.data.chr_type.spec_to_map_result(address as u32)
        } else {
            PpuMapResult::Vram(self.data.nametable_mirroring.spec_map_to_vram(address))
        }
    }

    pub fn read_cpu_address(&self, address: u16) -> (r: u8)
        requires
            self.wf(),
            address >= 0x4020,
        ensures
            address <= 0x7FFF ==> r == 0xFF,
            address >= 0x8000 ==> r == self.cartridge.spec_prg_rom_read((address & 0x7FFF) as u32),
    {
        if address <= 0x7FFF {
            0xFF
        } else {
            self.cartridge.get_prg_rom((address & 0x7FFF) as u32)
        }
    }

    pub fn map_ppu_address(&self, address: u16) -> (r: PpuMapResult)
        requires
            self.wf(),
            address <= 0x3EFF,
        ensures
            r == self.spec_map_ppu_address(address),
            r matches PpuMapResult::Vram(a) ==> a < 2048,
            r is ChrROM ==> self.cartridge.chr_rom@.len() > 0,
            r is ChrRAM ==> self.cartridge.chr_ram@.len() > 0,
    {
        if address < 0x2000 {
            self.data.chr_type.to_map_result(address as u32)
        } else {
            PpuMapResult::Vram(self.data.nametable_mirroring.map_to_vram(address))
        }
    }

    pub fn read_ppu_address(&self, address: u16, vram: &Vec<u8>) -> (r: u8)
        requires
            self.wf(),
            address <= 0x3EFF,
            vram@.len() == 2048,
        ensures
            r == self.spec_map_ppu_address(address).spec_read(self.cartridge, vram@),
    {
        self.map_ppu_address(address).read(&self.cartridge, vram)
    }

    pub fn write_ppu_address(&mut self, address: u16, value: u8, vram: &mut Vec<u8>)
        requires
            old(self).wf(),
            address <= 0x3EFF,
            old(vram)@.len() == 2048,
        ensures
            final(self).wf(),
            final(self).data == old(self).data,
            old(self).spec_map_ppu_address(address) matches PpuMapResult::Vram(a) ==> a < 2048,
            old(self).spec_map_ppu_address(address) is ChrRAM ==> old(
                self,
            ).cartridge.chr_ram@.len() > 0,
            ppu_write_applied(
                old(self).spec_map_ppu_address(address),
                value,
                old(self).cartridge,
                final(self).cartridge,
                old(vram)@,
                final(vram)@,
            ),
    {
        let result = self.map_ppu_address(address);
        result.write(value, &mut self.cartridge, vram);
        proof {
            if let PpuMapResult::ChrRAM(a) = result {
                let s0 = old(self).cartridge.chr_ram@;
                lemma_u32_and_le(a, (s0.len() - 1) as u32);
                let i = masked_index(s0.len(), a);
                assert(s0.update(i, value).len() == s0.len());
            }
        }
    }
}

/// The cartridge and VRAM state after a PPU-space write resolved to `m`.
pub open spec fn ppu_write_applied(
    m: PpuMapResult,
    value: u8,
    c0: Cartridge,
    c1: Cartridge,
    v0: Seq<u8>,
    v1: Seq<u8>,
) -> bool {
    &&& c1.prg_rom@ == c0.prg_rom@
    &&& c1.prg_ram@ == c0.prg_ram@
    &&& c1.chr_rom@ == c0.chr_rom@
    &&& match m {
        PpuMapResult::ChrROM(_) => c1.chr_ram@ == c0.chr_ram@ && v1 == v0,
        PpuMapResult::ChrRAM(address) => {
            &&& c1.chr_ram@ == c0.chr_ram@.update(
                masked_index(c0.chr_ram@.len(), address),
                value,
            )
            &&& v1 == v0
        },
        PpuMapResult::Vram(address) => {
            &&& c1.chr_ram@ == c0.chr_ram@
            &&& v1 == v0.update(address as int, value)
        },
    }
}

/// Bank-switching cartridge with a single switchable 16 KB PRG window and the
/// last 16 KB bank fixed.
#[derive(Debug, Clone)]
pub struct Uxrom {
    pub prg_bank: u8,
    pub chr_type: ChrType,
    pub nametable_mirroring: NametableMirroring,
}

impl MapperImpl<Uxrom> {
    pub open spec fn wf(self) -> bool {
        &&& self.cartridge.wf()
        &&& chr_backing_wf(self.cartridge, self.data.chr_type)
    }

    /// Base offset of the switchable bank: the bank register shifted into
    /// place and wrapped to the PRG ROM size.
    pub open spec fn spec_switchable_bank_base(self) -> u32 {
        ((self.data.prg_bank as u32) << 14) & ((self.cartridge.prg_rom@.len() - 1) as u32)
    }

    pub open spec fn spec_map_ppu_address(self, address: u16) -> PpuMapResult {
        if address < 0x2000 {
            self.data.chr_type.spec_to_map_result(address as u32)
        } else {
            PpuMapResult::Vram(self.data.nametable_mirroring.spec_map_to_vram(address))
        }
    }

    pub fn read_cpu_address(&self, address: u16) -> (r: u8)
        requires
            self.wf(),
            address >= 0x4020,
        ensures
            address <= 0x7FFF ==> r == 0xFF,
            0x8000 <= address <= 0xBFFF ==> r == self.cartridge.spec_prg_rom_read(
                (self.spec_switchable_bank_base() + (address & 0x3FFF)) as u32,
            ),
            address >= 0xC000 ==> r == self.cartridge.spec_prg_rom_read(
                ((self.cartridge.prg_rom@.len() - 0x4000) + (address & 0x3FFF)) as u32,
            ),
    {
        if address <= 0x7FFF {
            0xFF
        } else if address <= 0xBFFF {
            let len_mask = (self.cartridge.prg_rom.len() - 1) as u32;
            let shifted = (self.data.prg_bank as u32) << 14u32;
            let bank_address = shifted & len_mask;
            proof { lemma_u32_and_le(shifted, len_mask); }
            self.cartridge.get_prg_rom(bank_address + (address & 0x3FFF) as u32)
        } else {
            let last_bank_address = (self.cartridge.prg_rom.len() - 0x4000) as u32;
            self.cartridge.get_prg_rom(last_bank_address + (address & 0x3FFF) as u32)
        }
    }

    pub fn write_cpu_address(&mut self, address: u16, value: u8)
        requires
            old(self).wf(),
            address >= 0x4020,
        ensures
            final(self).cartridge == old(self).cartridge,
            address >= 0x8000 ==> final(self).data == (Uxrom {
                prg_bank: value,
                ..old(self).data
            }),
            address < 0x8000 ==> final(self).data == old(self).data,
    {
        if address >= 0x8000 {
            self.data.prg_bank = value;
        }
    }

    pub fn map_ppu_address(&self, address: u16) -> (r: PpuMapResult)
        requires
            self.wf(),
            address <= 0x3EFF,
        ensures
            r == self.spec_map_ppu_address(address),
            r matches PpuMapResult::Vram(a) ==> a < 2048,
            r is ChrROM ==> self.cartridge.chr_rom@.len() > 0,
            r is ChrRAM ==> self.cartridge.chr_ram@.len() > 0,
    {
        if address < 0x2000 {
            self.data.chr_type.to_map_result(address as u32)
        } else {
            PpuMapResult::Vram(self.data.nametable_mirroring.map_to_vram(address))
        }
    }

    pub fn read_ppu_address(&self, address: u16, vram: &Vec<u8>) -> (r: u8)
        requires
            self.wf(),
            address <= 0x3EFF,
            vram@.len() == 2048,
        ensures
            r == self.spec_map_ppu_address(address).spec_read(self.cartridge, vram@),
    {
        self.map_ppu_address(address).read(&self.cartridge, vram)
    }

    pub fn write_ppu_address(&mut self, address: u16, value: u8, vram: &mut Vec<u8>)
        requires
            old(self).wf(),
            address <= 0x3EFF,
            old(vram)@.len() == 2048,
        ensures
            final(self).wf(),
            final(self).data == old(self).data,
            old(self).spec_map_ppu_address(address) matches PpuMapResult::Vram(a) ==> a < 2048,
            old(self).spec_map_ppu_address(address) is ChrRAM ==> old(
                self,
            ).cartridge.chr_ram@.len() > 0,
            ppu_write_applied(
                old(self).spec_map_ppu_address(address),
                value,
                old(self).cartridge,
                final(self).cartridge,
                old(vram)@,
                final(vram)@,
            ),
    {
        let result = self.map_ppu_address(address);
        result.write(value, &mut self.cartridge, vram);
        proof {
            if let PpuMapResult::ChrRAM(a) = result {
                let s0 = old(self).cartridge.chr_ram@;
                lemma_u32_and_le(a, (s0.len() - 1) as u32);
                let i = masked_index(s0.len(), a);
                assert(s0.update(i, value).len() == s0.len());
            }
        }
    }
}

/// Bank-switching cartridge with fixed PRG mapping and a switchable 8 KB CHR
/// bank.
#[derive(Debug, Clone)]
pub struct Cnrom {
    pub chr_type: ChrType,
    pub chr_bank: u8,
    pub nametable_mirroring: NametableMirroring,
}

impl MapperImpl<Cnrom> {
    pub open spec fn wf(self) -> bool {
        &&& self.cartridge.wf()
        &&& chr_backing_wf(self.cartridge, self.data.chr_type)
    }

    pub open spec fn spec_chr_len(self) -> nat {
        match self.data.chr_type {
            ChrType::ROM => self.cartridge.chr_rom@.len(),
            ChrType::RAM => self.cartridge.chr_ram@.len(),
        }
    }

    pub open spec fn spec_map_ppu_address(self, address: u16) -> PpuMapResult {
        if address < 0x2000 {
            let chr_address = ((self.data.chr_bank as u32) * 8192 + address) as u32;
            self.data.chr_type.spec_to_map_result(
                chr_address & ((self.spec_chr_len() - 1) as u32),
            )
        } else {
            PpuMapResult::Vram(self.data.nametable_mirroring.spec_map_to_vram(address))
        }
    }

    pub fn read_cpu_address(&self, address: u16) -> (r: u8)
        requires
            self.wf(),
            address >= 0x4020,
        ensures
            address <= 0x7FFF ==> r == 0xFF,
            address >= 0x8000 ==> r == self.cartridge.spec_prg_rom_read(
                (address - 0x8000) as u32,
            ),
    {
        if address <= 0x7FFF {
            0xFF
        } else {
            self.cartridge.get_prg_rom((address - 0x8000) as u32)
        }
    }

    pub fn write_cpu_address(&mut self, address: u16, value: u8)
        requires
            old(self).wf(),
            address >= 0x4020,
        ensures
            final(self).cartridge == old(self).cartridge,
            address >= 0x8000 ==> final(self).data == (Cnrom {
                chr_bank: value,
                ..old(self).data
            }),
            address < 0x8000 ==> final(self).data == old(self).data,
    {
        if address >= 0x8000 {
            self.data.chr_bank = value;
        }
    }

    pub fn map_ppu_address(&self, address: u16) -> (r: PpuMapResult)
        requires
            self.wf(),
            address <= 0x3EFF,
        ensures
            r == self.spec_map_ppu_address(address),
            r matches PpuMapResult::Vram(a) ==> a < 2048,
            r is ChrROM ==> self.cartridge.chr_rom@.len() > 0,
            r is ChrRAM ==> self.cartridge.chr_ram@.len() > 0,
    {
        if address < 0x2000 {
            let chr_mask = match self.data.chr_type {
                ChrType::ROM => (self.cartridge.chr_rom.len() - 1) as u32,
                ChrType::RAM => (self.cartridge.chr_ram.len() - 1) as u32,
            };
            let chr_address = (self.data.chr_bank as u32) * 8192 + address as u32;
            proof { lemma_u32_and_le(chr_address, chr_mask); }
            self.data.chr_type.to_map_result(chr_address & chr_mask)
        } else {
            PpuMapResult::Vram(self.data.nametable_mirroring.map_to_vram(address))
        }
    }

    pub fn read_ppu_address(&self, address: u16, vram: &Vec<u8>) -> (r: u8)
        requires
            self.wf(),
            address <= 0x3EFF,
            vram@.len() == 2048,
        ensures
            r == self.spec_map_ppu_address(address).spec_read(self.cartridge, vram@),
    {
        self.map_ppu_address(address).read(&self.cartridge, vram)
    }

    pub fn write_ppu_address(&mut self, address: u16, value: u8, vram: &mut Vec<u8>)
        requires
            old(self).wf(),
            address <= 0x3EFF,
            old(vram)@.len() == 2048,
        ensures
            final(self).wf(),
            final(self).data == old(self).data,
            old(self).spec_map_ppu_address(address) matches PpuMapResult::Vram(a) ==> a < 2048,
            old(self).spec_map_ppu_address(address) is ChrRAM ==> old(
                self,
            ).cartridge.chr_ram@.len() > 0,
            ppu_write_applied(
                old(self).spec_map_ppu_address(address),
                value,
                old(self).cartridge,
                final(self).cartridge,
                old(vram)@,
                final(vram)@,
            ),
    {
        let result = self.map_ppu_address(address);
        result.write(value, &mut self.cartridge, vram);
        proof {
            if let PpuMapResult::ChrRAM(a) = result {
                let s0 = old(self).cartridge.chr_ram@;
                lemma_u32_and_le(a, (s0.len() - 1) as u32);
                let i = masked_index(s0.len(), a);
                assert(s0.update(i, value).len() == s0.len());
            }
        }
    }
}


/// Nametable arrangement selected through the serial control register.
#[derive(Debug, Clone, Copy, PartialEq, Eq, Structural)]
pub enum Mmc1Mirroring {
    OneScreenLowerBank,
    OneScreenUpperBank,
    Vertical,
    Horizontal,
}

/// PRG bank arrangement selected through the serial control register.
#[derive(Debug, Clone, Copy, PartialEq, Eq, Structural)]
pub enum Mmc1PrgBankingMode {
    Switch32Kb,
    Switch16KbFirstBankFixed,
    Switch16KbLastBankFixed,
}

/// CHR bank arrangement selected through the serial control register.
#[derive(Debug, Clone, Copy, PartialEq, Eq, Structural)]
pub enum Mmc1ChrBankingMode {
    Single8KbBank,
    Two4KbBanks,
}

/// Serial shift-register mapper: configuration bytes arrive one bit at a
/// time, and consecutive same-cycle writes are dropped via a debounce flag.
#[derive(Debug, Clone)]
pub struct Mmc1 {
    pub chr_type: ChrType,
    pub shift_register: u8,
    pub shift_register_len: u8,
    pub written_this_cycle: bool,
    pub written_last_cycle: bool,
    pub nametable_mirroring: Mmc1Mirroring,
    pub prg_banking_mode: Mmc1PrgBankingMode,
    pub chr_banking_mode: Mmc1ChrBankingMode,
    pub chr_bank_0: u8,
    pub chr_bank_1: u8,
    pub prg_bank: u8,
}

/// Mirroring decoded from the low two bits of a full shift-register value.
pub open spec fn spec_mmc1_mirroring(sr: u8) -> Mmc1Mirroring {
    if sr & 0x03 == 0x00 {
        Mmc1Mirroring::OneScreenLowerBank
    } else if sr & 0x03 == 0x01 {
        Mmc1Mirroring::OneScreenUpperBank
    } else if sr & 0x03 == 0x02 {
        Mmc1Mirroring::Vertical
    } else {
        Mmc1Mirroring::Horizontal
    }
}

/// PRG banking mode decoded from bits 2-3 of a full shift-register value.
pub open spec fn spec_mmc1_prg_mode(sr: u8) -> Mmc1PrgBankingMode {
    if sr & 0x0C == 0x08 {
        Mmc1PrgBankingMode::Switch16KbFirstBankFixed
    } else if sr & 0x0C == 0x0C {
        Mmc1PrgBankingMode::Switch16KbLastBankFixed
    } else {
        Mmc1PrgBankingMode::Switch32Kb
    }
}

/// CHR banking mode decoded from bit 4 of a full shift-register value.
pub open spec fn spec_mmc1_chr_mode(sr: u8) -> Mmc1ChrBankingMode {
    if sr & 0x10 != 0 {
        Mmc1ChrBankingMode::Two4KbBanks
    } else {
        Mmc1ChrBankingMode::Single8KbBank
    }
}

/// The banking state after a control-region write of `value` at `address`
/// in `0x8000..=0xFFFF`.
pub open spec fn spec_mmc1_control_write(d: Mmc1, address: u16, value: u8) -> Mmc1 {
    if value & 0x80 != 0 {
        Mmc1 {
            shift_register: 0,
            shift_register_len: 0,
            prg_banking_mode: Mmc1PrgBankingMode::Switch16KbLastBankFixed,
            ..d
        }
    } else if d.written_last_cycle {
        d
    } else {
        let sr = ((d.shift_register >> 1) | ((value & 0x01) << 4)) as u8;
        let shifted = Mmc1 {
            written_this_cycle: true,
            shift_register: sr,
            shift_register_len: (d.shift_register_len + 1) as u8,
            ..d
        };
        if shifted.shift_register_len == 5 {
            let cleared = Mmc1 { shift_register: 0, shift_register_len: 0, ..shifted };
            if address <= 0x9FFF {
                Mmc1 {
                    nametable_mirroring: spec_mmc1_mirroring(sr),
                    prg_banking_mode: spec_mmc1_prg_mode(sr),
                    chr_banking_mode: spec_mmc1_chr_mode(sr),
                    ..cleared
                }
            } else if address <= 0xBFFF {
                Mmc1 { chr_bank_0: sr, ..cleared }
            } else if address <= 0xDFFF {
                Mmc1 { chr_bank_1: sr, ..cleared }
            } else {
                Mmc1 { prg_bank: sr, ..cleared }
            }
        } else {
            shifted
        }
    }
}

impl MapperImpl<Mmc1> {
    pub open spec fn wf(self) -> bool {
        &&& self.cartridge.wf()
        &&& chr_backing_wf(self.cartridge, self.data.chr_type)
        &&& self.data.shift_register < 32
        &&& self.data.shift_register_len < 5
    }

    pub open spec fn spec_map_cpu_address(self, address: u16) -> CpuMapResult {
        if address < 0x6000 {
            CpuMapResult::Unmapped
        } else if address < 0x8000 {
            if self.cartridge.prg_ram@.len() > 0 {
                CpuMapResult::PrgRAM((address & 0x1FFF) as u32)
            } else {
                CpuMapResult::Unmapped
            }
        } else {
            let len_mask = (self.cartridge.prg_rom@.len() - 1) as u32;
            match self.data.prg_banking_mode {
                Mmc1PrgBankingMode::Switch32Kb => {
                    let bank_address = (((self.data.prg_bank & 0x0E) as u32) << 15) & len_mask;
                    CpuMapResult::PrgROM((bank_address + (address & 0x7FFF)) as u32)
                },
                Mmc1PrgBankingMode::Switch16KbFirstBankFixed => {
                    if address <= 0xBFFF {
                        CpuMapResult::PrgROM((address & 0x3FFF) as u32)
                    } else {
                        let bank_address = ((self.data.prg_bank as u32) << 14) & len_mask;
                        CpuMapResult::PrgROM((bank_address + (address & 0x3FFF)) as u32)
                    }
                },
                Mmc1PrgBankingMode::Switch16KbLastBankFixed => {
                    if address <= 0xBFFF {
                        let bank_address = ((self.data.prg_bank as u32) << 14) & len_mask;
                        CpuMapResult::PrgROM((bank_address + (address & 0x3FFF)) as u32)
                    } else {
                        let last_bank_address = self.cartridge.prg_rom@.len() - 0x4000;
                        CpuMapResult::PrgROM((last_bank_address + (address & 0x3FFF)) as u32)
                    }
                },
            }
        }
    }

    pub fn map_cpu_address(&self, address: u16) -> (r: CpuMapResult)
        requires
            self.wf(),
            address >= 0x4020,
        ensures
            r == self.spec_map_cpu_address(address),
            r is PrgRAM ==> self.cartridge.prg_ram@.len() > 0,
    {
        if address < 0x6000 {
            CpuMapResult::Unmapped
        } else if address < 0x8000 {
            if self.cartridge.prg_ram.len() > 0 {
                CpuMapResult::PrgRAM((address & 0x1FFF) as u32)
            } else {
                CpuMapResult::Unmapped
            }
        } else {
            let len_mask = (self.cartridge.prg_rom.len() - 1) as u32;
            match self.data.prg_banking_mode {
                Mmc1PrgBankingMode::Switch32Kb => {
                    let shifted = ((self.data.prg_bank & 0x0E) as u32) << 15u32;
                    let bank_address = shifted & len_mask;
                    proof { lemma_u32_and_le(shifted, len_mask); }
                    CpuMapResult::PrgROM(bank_address + (address & 0x7FFF) as u32)
                },
                Mmc1PrgBankingMode::Switch16KbFirstBankFixed => {
                    if address <= 0xBFFF {
                        CpuMapResult::PrgROM((address & 0x3FFF) as u32)
                    } else {
                        let shifted = (self.data.prg_bank as u32) << 14u32;
                        let bank_address = shifted & len_mask;
                        proof { lemma_u32_and_le(shifted, len_mask); }
                        CpuMapResult::PrgROM(bank_address + (address & 0x3FFF) as u32)
                    }
                },
                Mmc1PrgBankingMode::Switch16KbLastBankFixed => {
                    if address <= 0xBFFF {
                        let shifted = (self.data.prg_bank as u32) << 14u32;
                        let bank_address = shifted & len_mask;
                        proof { lemma_u32_and_le(shifted, len_mask); }
                        CpuMapResult::PrgROM(bank_address + (address & 0x3FFF) as u32)
                    } else {
                        let last_bank_address = (self.cartridge.prg_rom.len() - 0x4000) as u32;
                        CpuMapResult::PrgROM(last_bank_address + (address & 0x3FFF) as u32)
                    }
                },
            }
        }
    }

    pub fn read_cpu_address(&self, address: u16) -> (r: u8)
        requires
            self.wf(),
            address >= 0x4020,
        ensures
            r == self.spec_map_cpu_address(address).spec_read(self.cartridge),
    {
        self.map_cpu_address(address).read(&self.cartridge)
    }

    pub fn write_cpu_address(&mut self, address: u16, value: u8)
        requires
            old(self).wf(),
            address >= 0x4020,
        ensures
            final(self).wf(),
            final(self).cartridge.prg_rom@ == old(self).cartridge.prg_rom@,
            final(self).cartridge.chr_rom@ == old(self).cartridge.chr_rom@,
            final(self).cartridge.chr_ram@ == old(self).cartridge.chr_ram@,
            if 0x6000 <= address < 0x8000 {
                &&& final(self).data == old(self).data
                &&& if old(self).cartridge.prg_ram@.len() > 0 {
                    final(self).cartridge.prg_ram@ == old(self).cartridge.prg_ram@.update(
                        masked_index(old(self).cartridge.prg_ram@.len(), address as u32),
                        value,
                    )
                } else {
                    final(self).cartridge.prg_ram@ == old(self).cartridge.prg_ram@
                }
            } else {
                &&& final(self).cartridge.prg_ram@ == old(self).cartridge.prg_ram@
                &&& if address >= 0x8000 {
                    final(self).data == spec_mmc1_control_write(old(self).data, address, value)
                } else {
                    final(self).data == old(self).data
                }
            },
    {
        if address < 0x6000 {
            // unmapped expansion area: writes are ignored
        } else if address < 0x8000 {
            if self.cartridge.prg_ram.len() > 0 {
                self.cartridge.set_prg_ram(address as u32, value);
                proof {
                    let s0 = old(self).cartridge.prg_ram@;
                    lemma_u32_and_le(address as u32, (s0.len() - 1) as u32);
                    let i = masked_index(s0.len(), address as u32);
                    assert(s0.update(i, value).len() == s0.len());
                }
            }
        } else {
            if value & 0x80 != 0 {
                self.data.shift_register = 0;
                self.data.shift_register_len = 0;
                self.data.prg_banking_mode = Mmc1PrgBankingMode::Switch16KbLastBankFixed;
                return;
            }

            if self.data.written_last_cycle {
                return;
            }

            self.data.written_this_cycle = true;

            proof {
                let sr = self.data.shift_register;
                let v = value;
                assert(sr < 32 ==> ((sr >> 1) | ((v & 0x01) << 4)) < 32) by (bit_vector);
            }
            self.data.shift_register = (self.data.shift_register >> 1) | ((value & 0x01) << 4);
            self.data.shift_register_len = self.data.shift_register_len + 1;

            if self.data.shift_register_len == 5 {
                let shift_register = self.data.shift_register;

                self.data.shift_register = 0;
                self.data.shift_register_len = 0;

                if address <= 0x9FFF {
                    self.data.nametable_mirroring = if shift_register & 0x03 == 0x00 {
                        Mmc1Mirroring::OneScreenLowerBank
                    } else if shift_register & 0x03 == 0x01 {
                        Mmc1Mirroring::OneScreenUpperBank
                    } else if shift_register & 0x03 == 0x02 {
                        Mmc1Mirroring::Vertical
                    } else {
                        Mmc1Mirroring::Horizontal
                    };

                    self.data.prg_banking_mode = if shift_register & 0x0C == 0x08 {
                        Mmc1PrgBankingMode::Switch16KbFirstBankFixed
                    } else if shift_register & 0x0C == 0x0C {
                        Mmc1PrgBankingMode::Switch16KbLastBankFixed
                    } else {
                        Mmc1PrgBankingMode::Switch32Kb
                    };

                    self.data.chr_banking_mode = if shift_register & 0x10 != 0 {
                        Mmc1ChrBankingMode::Two4KbBanks
                    } else {
                        Mmc1ChrBankingMode::Single8KbBank
                    };
                } else if address <= 0xBFFF {
                    self.data.chr_bank_0 = shift_register;
                } else if address <= 0xDFFF {
                    self.data.chr_bank_1 = shift_register;
                } else {
                    self.data.prg_bank = shift_register;
                }
            }
        }
    }

    pub open spec fn spec_map_ppu_address(self, address: u16) -> PpuMapResult {
        if address < 0x2000 {
            match self.data.chr_banking_mode {
                Mmc1ChrBankingMode::Two4KbBanks => {
                    let bank_number = if address < 0x1000 {
                        self.data.chr_bank_0
                    } else {
                        self.data.chr_bank_1
                    };
                    let relative_addr = if address < 0x1000 {
                        address
                    } else {
                        (address - 0x1000) as u16
                    };
                    self.data.chr_type.spec_to_map_result(
                        ((bank_number as u32) * 4096 + relative_addr) as u32,
                    )
                },
                Mmc1ChrBankingMode::Single8KbBank => {
                    let chr_bank = (self.data.chr_bank_0 & 0x1E) as u8;
                    self.data.chr_type.spec_to_map_result(
                        ((chr_bank as u32) * 4096 + address) as u32,
                    )
                },
            }
        } else {
            match self.data.nametable_mirroring {
                Mmc1Mirroring::OneScreenLowerBank => PpuMapResult::Vram((address & 0x03FF) as u16),
                Mmc1Mirroring::OneScreenUpperBank => PpuMapResult::Vram(
                    (0x0400 + (address & 0x03FF)) as u16,
                ),
                Mmc1Mirroring::Vertical => PpuMapResult::Vram(
                    NametableMirroring::Vertical.spec_map_to_vram(address),
                ),
                Mmc1Mirroring::Horizontal => PpuMapResult::Vram(
                    NametableMirroring::Horizontal.spec_map_to_vram(address),
                ),
            }
        }
    }

    pub fn map_ppu_address(&self, address: u16) -> (r: PpuMapResult)
        requires
            self.wf(),
            address <= 0x3EFF,
        ensures
            r == self.spec_map_ppu_address(address),
            r matches PpuMapResult::Vram(a) ==> a < 2048,
            r is ChrROM ==> self.cartridge.chr_rom@.len() > 0,
            r is ChrRAM ==> self.cartridge.chr_ram@.len() > 0,
    {
        if address < 0x2000 {
            match self.data.chr_banking_mode {
                Mmc1ChrBankingMode::Two4KbBanks => {
                    let (bank_number, relative_addr) = if address < 0x1000 {
                        (self.data.chr_bank_0, address)
                    } else {
                        (self.data.chr_bank_1, address - 0x1000)
                    };
                    let bank_address = (bank_number as u32) * 4096;
                    let chr_address = bank_address + relative_addr as u32;
                    self.data.chr_type.to_map_result(chr_address)
                },
                Mmc1ChrBankingMode::Single8KbBank => {
                    let chr_bank = self.data.chr_bank_0 & 0x1E;
                    let bank_address = (chr_bank as u32) * 4096;
                    let chr_address = bank_address + address as u32;
                    self.data.chr_type.to_map_result(chr_address)
                },
            }
        } else {
            proof {
                let a = address;
                assert(a & 0x03FF < 0x0400) by (bit_vector);
            }
            match self.data.nametable_mirroring {
                Mmc1Mirroring::OneScreenLowerBank => PpuMapResult::Vram(address & 0x03FF),
                Mmc1Mirroring::OneScreenUpperBank => PpuMapResult::Vram(
                    0x0400 + (address & 0x03FF),
                ),
                Mmc1Mirroring::Vertical => PpuMapResult::Vram(
                    NametableMirroring::Vertical.map_to_vram(address),
                ),
                Mmc1Mirroring::Horizontal => PpuMapResult::Vram(
                    NametableMirroring::Horizontal.map_to_vram(address),
                ),
            }
        }
    }

    pub fn read_ppu_address(&self, address: u16, vram: &Vec<u8>) -> (r: u8)
        requires
            self.wf(),
            address <= 0x3EFF,
            vram@.len() == 2048,
        ensures
            r == self.spec_map_ppu_address(address).spec_read(self.cartridge, vram@),
    {
        self.map_ppu_address(address).read(&self.cartridge, vram)
    }

    pub fn write_ppu_address(&mut self, address: u16, value: u8, vram: &mut Vec<u8>)
        requires
            old(self).wf(),
            address <= 0x3EFF,
            old(vram)@.len() == 2048,
        ensures
            final(self).wf(),
            final(self).data == old(self).data,
            old(self).spec_map_ppu_address(address) matches PpuMapResult::Vram(a) ==> a < 2048,
            old(self).spec_map_ppu_address(address) is ChrRAM ==> old(
                self,
            ).cartridge.chr_ram@.len() > 0,
            ppu_write_applied(
                old(self).spec_map_ppu_address(address),
                value,
                old(self).cartridge,
                final(self).cartridge,
                old(vram)@,
                final(vram)@,
            ),
    {
        let result = self.map_ppu_address(address);
        result.write(value, &mut self.cartridge, vram);
        proof {
            if let PpuMapResult::ChrRAM(a) = result {
                let s0 = old(self).cartridge.chr_ram@;
                lemma_u32_and_le(a, (s0.len() - 1) as u32);
                let i = masked_index(s0.len(), a);
                assert(s0.update(i, value).len() == s0.len());
            }
        }
    }

    /// Advances the write-debounce window by one bus cycle.
    pub fn tick(&mut self)
        ensures
            final(self).cartridge == old(self).cartridge,
            final(self).data == (Mmc1 {
                written_last_cycle: old(self).data.written_this_cycle,
                written_this_cycle: false,
                ..old(self).data
            }),
    {
        self.data.written_last_cycle = self.data.written_this_cycle;
        self.data.written_this_cycle = false;
    }
}


/// PRG bank arrangement for the scanline-counter mapper.
#[derive(Debug, Clone, Copy, PartialEq, Eq, Structural)]
pub enum Mmc3PrgMode {
    Mode0,
    Mode1,
}

/// CHR bank arrangement for the scanline-counter mapper.
#[derive(Debug, Clone, Copy, PartialEq, Eq, Structural)]
pub enum Mmc3ChrMode {
    Mode0,
    Mode1,
}

/// Current PRG and CHR bank registers plus the bank modes they are read
/// under.
#[derive(Debug, Clone)]
pub struct Mmc3BankMapping {
    pub prg_mode: Mmc3PrgMode,
    pub chr_mode: Mmc3ChrMode,
    pub prg_rom_len: u32,
    pub chr_len: u32,
    pub prg_bank_0: u8,
    pub prg_bank_1: u8,
    pub chr_bank_r0: u8,
    pub chr_bank_r1: u8,
    pub chr_bank_r2: u8,
    pub chr_bank_r3: u8,
    pub chr_bank_r4: u8,
    pub chr_bank_r5: u8,
}

/// Absolute PRG ROM offset of `address` within 8 KB bank `bank_number`.
pub open spec fn spec_prg_bank_address(bank_number: u8, address: u16) -> u32 {
    (((bank_number & 0x3F) as u32) * 8192 + (address & 0x1FFF)) as u32
}

/// Absolute CHR offset of `address` within 1 KB bank `bank_number`.
pub open spec fn spec_chr_1kb_bank_address(bank_number: u8, address: u16) -> u32 {
    ((bank_number as u32) * 1024 + (address & 0x03FF)) as u32
}

/// Absolute CHR offset of `address` within 2 KB bank `bank_number` (the low
/// bank bit is ignored).
pub open spec fn spec_chr_2kb_bank_address(bank_number: u8, address: u16) -> u32 {
    (((bank_number & 0xFE) as u32) * 1024 + (address & 0x07FF)) as u32
}

impl Mmc3BankMapping {
    pub open spec fn wf(self) -> bool {
        &&& 0x4000 <= self.prg_rom_len
        &&& 0 < self.chr_len
    }

    pub fn new(prg_rom_len: u32, chr_len: u32) -> (r: Self)
        ensures
            r.prg_mode == Mmc3PrgMode::Mode0,
            r.chr_mode == Mmc3ChrMode::Mode0,
            r.prg_rom_len == prg_rom_len,
            r.chr_len == chr_len,
            r.prg_bank_0 == 0,
            r.prg_bank_1 == 0,
            r.spec_chr_bank(0) == 0 && r.spec_chr_bank(1) == 0 && r.spec_chr_bank(2) == 0,
            r.spec_chr_bank(3) == 0 && r.spec_chr_bank(4) == 0 && r.spec_chr_bank(5) == 0,
    {
        Self {
            prg_mode: Mmc3PrgMode::Mode0,
            chr_mode: Mmc3ChrMode::Mode0,
            prg_rom_len,
            chr_len,
            prg_bank_0: 0,
            prg_bank_1: 0,
            chr_bank_r0: 0,
            chr_bank_r1: 0,
            chr_bank_r2: 0,
            chr_bank_r3: 0,
            chr_bank_r4: 0,
            chr_bank_r5: 0,
        }
    }

    /// CHR bank register R0-R5 by index.
    pub open spec fn spec_chr_bank(self, i: int) -> u8 {
        if i == 0 {
            self.chr_bank_r0
        } else if i == 1 {
            self.chr_bank_r1
        } else if i == 2 {
            self.chr_bank_r2
        } else if i == 3 {
            self.chr_bank_r3
        } else if i == 4 {
            self.chr_bank_r4
        } else {
            self.chr_bank_r5
        }
    }

    /// The same mapping with CHR bank register `i` replaced by `value`.
    pub open spec fn spec_with_chr_bank(self, i: int, value: u8) -> Self {
        if i == 0 {
            Mmc3BankMapping { chr_bank_r0: value, ..self }
        } else if i == 1 {
            Mmc3BankMapping { chr_bank_r1: value, ..self }
        } else if i == 2 {
            Mmc3BankMapping { chr_bank_r2: value, ..self }
        } else if i == 3 {
            Mmc3BankMapping { chr_bank_r3: value, ..self }
        } else if i == 4 {
            Mmc3BankMapping { chr_bank_r4: value, ..self }
        } else {
            Mmc3BankMapping { chr_bank_r5: value, ..self }
        }
    }

    pub fn prg_bank_address(bank_number: u8, address: u16) -> (r: u32)
        ensures
            r == spec_prg_bank_address(bank_number, address),
    {
        ((bank_number & 0x3F) as u32) * 8192 + (address & 0x1FFF) as u32
    }

    pub fn chr_1kb_bank_address(bank_number: u8, address: u16) -> (r: u32)
        ensures
            r == spec_chr_1kb_bank_address(bank_number, address),
    {
        (bank_number as u32) * 1024 + (address & 0x03FF) as u32
    }

    pub fn chr_2kb_bank_address(bank_number: u8, address: u16) -> (r: u32)
        ensures
            r == spec_chr_2kb_bank_address(bank_number, address),
    {
        ((bank_number & 0xFE) as u32) * 1024 + (address & 0x07FF) as u32
    }

    pub open spec fn spec_map_prg_rom_address(self, address: u16) -> u32 {
        if (self.prg_mode == Mmc3PrgMode::Mode0 && address < 0xA000) || (self.prg_mode
            == Mmc3PrgMode::Mode1 && 0xC000 <= address < 0xE000) {
            spec_prg_bank_address(self.prg_bank_0, address)
        } else if 0xA000 <= address < 0xC000 {
            spec_prg_bank_address(self.prg_bank_1, address)
        } else if address < 0xE000 {
            spec_prg_bank_address(((self.prg_rom_len >> 13) - 2) as u8, address)
        } else {
            spec_prg_bank_address(((self.prg_rom_len >> 13) - 1) as u8, address)
        }
    }

    pub fn map_prg_rom_address(&self, address: u16) -> (r: u32)
        requires
            self.wf(),
            address >= 0x8000,
        ensures
            r == self.spec_map_prg_rom_address(address),
    {
        proof {
            let len = self.prg_rom_len;
            assert(len >= 0x4000 ==> (len >> 13) >= 2) by (bit_vector);
        }
        match (self.prg_mode, address) {
            (Mmc3PrgMode::Mode0, 0x8000..=0x9FFF) | (Mmc3PrgMode::Mode1, 0xC000..=0xDFFF) => {
                Self::prg_bank_address(self.prg_bank_0, address)
            },
            (_, 0xA000..=0xBFFF) => Self::prg_bank_address(self.prg_bank_1, address),
            (Mmc3PrgMode::Mode0, 0xC000..=0xDFFF) | (Mmc3PrgMode::Mode1, 0x8000..=0x9FFF) => {
                Self::prg_bank_address(((self.prg_rom_len >> 13u32) - 2) as u8, address)
            },
            (_, _) => Self::prg_bank_address(((self.prg_rom_len >> 13u32) - 1) as u8, address),
        }
    }

    pub open spec fn spec_map_pattern_table_address(self, address: u16) -> u32 {
        let mapped_address: u32 = if (self.chr_mode == Mmc3ChrMode::Mode0 && address < 0x0800)
            || (self.chr_mode == Mmc3ChrMode::Mode1 && 0x1000 <= address < 0x1800) {
            spec_chr_2kb_bank_address(self.chr_bank_r0, address)
        } else if (self.chr_mode == Mmc3ChrMode::Mode0 && 0x0800 <= address < 0x1000) || (
        self.chr_mode == Mmc3ChrMode::Mode1 && 0x1800 <= address < 0x2000) {
            spec_chr_2kb_bank_address(self.chr_bank_r1, address)
        } else if (self.chr_mode == Mmc3ChrMode::Mode0 && 0x1000 <= address < 0x1400) || (
        self.chr_mode == Mmc3ChrMode::Mode1 && address < 0x0400) {
            spec_chr_1kb_bank_address(self.chr_bank_r2, address)
        } else if (self.chr_mode == Mmc3ChrMode::Mode0 && 0x1400 <= address < 0x1800) || (
        self.chr_mode == Mmc3ChrMode::Mode1 && 0x0400 <= address < 0x0800) {
            spec_chr_1kb_bank_address(self.chr_bank_r3, address)
        } else if (self.chr_mode == Mmc3ChrMode::Mode0 && 0x1800 <= address < 0x1C00) || (
        self.chr_mode == Mmc3ChrMode::Mode1 && 0x0800 <= address < 0x0C00) {
            spec_chr_1kb_bank_address(self.chr_bank_r4, address)
        } else {
            spec_chr_1kb_bank_address(self.chr_bank_r5, address)
        };
        mapped_address & ((self.chr_len - 1) as u32)
    }

    pub fn map_pattern_table_address(&self, address: u16) -> (r: u32)
        requires
            self.wf(),
            address < 0x2000,
        ensures
            r == self.spec_map_pattern_table_address(address),
    {
        let mapped_address = match (self.chr_mode, address) {
            (Mmc3ChrMode::Mode0, 0x0000..=0x07FF) | (Mmc3ChrMode::Mode1, 0x1000..=0x17FF) => {
                Self::chr_2kb_bank_address(self.chr_bank_r0, address)
            },
            (Mmc3ChrMode::Mode0, 0x0800..=0x0FFF) | (Mmc3ChrMode::Mode1, 0x1800..=0x1FFF) => {
                Self::chr_2kb_bank_address(self.chr_bank_r1, address)
            },
            (Mmc3ChrMode::Mode0, 0x1000..=0x13FF) | (Mmc3ChrMode::Mode1, 0x0000..=0x03FF) => {
                Self::chr_1kb_bank_address(self.chr_bank_r2, address)
            },
            (Mmc3ChrMode::Mode0, 0x1400..=0x17FF) | (Mmc3ChrMode::Mode1, 0x0400..=0x07FF) => {
                Self::chr_1kb_bank_address(self.chr_bank_r3, address)
            },
            (Mmc3ChrMode::Mode0, 0x1800..=0x1BFF) | (Mmc3ChrMode::Mode1, 0x0800..=0x0BFF) => {
                Self::chr_1kb_bank_address(self.chr_bank_r4, address)
            },
            (_, _) => Self::chr_1kb_bank_address(self.chr_bank_r5, address),
        };
        mapped_address & ((self.chr_len - 1) as u32)
    }
}

/// Which bank register the next bank-data write updates.
#[derive(Debug, Clone, Copy, PartialEq, Eq, Structural)]
pub enum Mmc3BankUpdate {
    PrgBank0,
    PrgBank1,
    ChrBank(u8),
}

/// Scanline-counter mapper: bank registers are written through a
/// select/data register pair, and a counter clocked by rising edges of PPU
/// address bit 12 raises an interrupt at terminal count.
#[derive(Debug, Clone)]
pub struct Mmc3 {
    pub chr_type: ChrType,
    pub bank_mapping: Mmc3BankMapping,
    pub nametable_mirroring: NametableMirroring,
    pub bank_update_select: Mmc3BankUpdate,
    pub interrupt_flag: bool,
    pub irq_counter: u8,
    pub irq_reload_value: u8,
    pub irq_reload_flag: bool,
    pub irq_enabled: bool,
    pub last_a12_read: u16,
    pub a12_low_cycles: u32,
}

/// One step of the scanline counter: reload when empty or flagged, else
/// count down and raise the interrupt at zero if enabled.
pub open spec fn spec_mmc3_clock_irq(d: Mmc3) -> Mmc3 {
    if d.irq_counter == 0 || d.irq_reload_flag {
        Mmc3 { irq_counter: d.irq_reload_value, irq_reload_flag: false, ..d }
    } else {
        let counter = (d.irq_counter - 1) as u8;
        if counter == 0 && d.irq_enabled {
            Mmc3 { irq_counter: counter, interrupt_flag: true, ..d }
        } else {
            Mmc3 { irq_counter: counter, ..d }
        }
    }
}

/// The banking state after observing PPU bus address `address`: a rising
/// edge of address bit 12, debounced by at least 10 low cycles, clocks the
/// scanline counter.
pub open spec fn spec_mmc3_observe_a12(d: Mmc3, address: u16) -> Mmc3 {
    let a12 = address & 0x1000;
    let clocked = if a12 != 0 && d.last_a12_read == 0 && d.a12_low_cycles >= 10 {
        spec_mmc3_clock_irq(d)
    } else {
        d
    };
    let low_cycles: u32 = if a12 == 0 {
        if clocked.a12_low_cycles < 0xFFFF_FFFF {
            (clocked.a12_low_cycles + 1) as u32
        } else {
            clocked.a12_low_cycles
        }
    } else {
        0
    };
    Mmc3 { last_a12_read: a12, a12_low_cycles: low_cycles, ..clocked }
}

/// The banking state after a CPU write of `value` to `address` in
/// `0x8000..=0xFFFF`.
pub open spec fn spec_mmc3_control_write(d: Mmc3, address: u16, value: u8) -> Mmc3 {
    if address < 0xA000 {
        if address & 0x01 == 0 {
            Mmc3 {
                bank_mapping: Mmc3BankMapping {
                    chr_mode: if value & 0x80 != 0 {
                        Mmc3ChrMode::Mode1
                    } else {
                        Mmc3ChrMode::Mode0
                    },
                    prg_mode: if value & 0x40 != 0 {
                        Mmc3PrgMode::Mode1
                    } else {
                        Mmc3PrgMode::Mode0
                    },
                    ..d.bank_mapping
                },
                bank_update_select: if value & 0x07 == 0x06 {
                    Mmc3BankUpdate::PrgBank0
                } else if value & 0x07 == 0x07 {
                    Mmc3BankUpdate::PrgBank1
                } else {
                    Mmc3BankUpdate::ChrBank((value & 0x07) as u8)
                },
                ..d
            }
        } else {
            match d.bank_update_select {
                Mmc3BankUpdate::ChrBank(chr_bank) => Mmc3 {
                    bank_mapping: d.bank_mapping.spec_with_chr_bank(chr_bank as int, value),
                    ..d
                },
                Mmc3BankUpdate::PrgBank0 => Mmc3 {
                    bank_mapping: Mmc3BankMapping { prg_bank_0: value, ..d.bank_mapping },
                    ..d
                },
                Mmc3BankUpdate::PrgBank1 => Mmc3 {
                    bank_mapping: Mmc3BankMapping { prg_bank_1: value, ..d.bank_mapping },
                    ..d
                },
            }
        }
    } else if address < 0xC000 {
        if address & 0x01 == 0 {
            Mmc3 {
                nametable_mirroring: if value & 0x01 != 0 {
                    NametableMirroring::Horizontal
                } else {
                    NametableMirroring::Vertical
                },
                ..d
            }
        } else {
            d
        }
    } else if address < 0xE000 {
        if address & 0x01 == 0 {
            Mmc3 { irq_reload_value: value, ..d }
        } else {
            Mmc3 { irq_reload_flag: true, ..d }
        }
    } else {
        if address & 0x01 == 0 {
            Mmc3 { irq_enabled: false, interrupt_flag: false, ..d }
        } else {
            Mmc3 { irq_enabled: true, ..d }
        }
    }
}

impl MapperImpl<Mmc3> {
    pub open spec fn wf(self) -> bool {
        &&& self.cartridge.wf()
        &&& chr_backing_wf(self.cartridge, self.data.chr_type)
        &&& self.data.bank_mapping.wf()
        &&& (self.data.bank_update_select matches Mmc3BankUpdate::ChrBank(n) ==> n < 6)
    }

    pub fn read_cpu_address(&self, address: u16) -> (r: u8)
        requires
            self.wf(),
            address >= 0x4020,
        ensures
            address < 0x6000 ==> r == 0xFF,
            0x6000 <= address < 0x8000 ==> r == if self.cartridge.prg_ram@.len() > 0 {
                self.cartridge.spec_prg_ram_read((address & 0x1FFF) as u32)
            } else {
                0xFF
            },
            address >= 0x8000 ==> r == self.cartridge.spec_prg_rom_read(
                self.data.bank_mapping.spec_map_prg_rom_address(address),
            ),
    {
        if address < 0x6000 {
            0xFF
        } else if address < 0x8000 {
            if self.cartridge.prg_ram.len() > 0 {
                self.cartridge.get_prg_ram((address & 0x1FFF) as u32)
            } else {
                0xFF
            }
        } else {
            self.cartridge.get_prg_rom(self.data.bank_mapping.map_prg_rom_address(address))
        }
    }

    pub fn write_cpu_address(&mut self, address: u16, value: u8)
        requires
            old(self).wf(),
            address >= 0x4020,
        ensures
            final(self).wf(),
            final(self).cartridge.prg_rom@ == old(self).cartridge.prg_rom@,
            final(self).cartridge.chr_rom@ == old(self).cartridge.chr_rom@,
            final(self).cartridge.chr_ram@ == old(self).cartridge.chr_ram@,
            if 0x6000 <= address < 0x8000 {
                &&& final(self).data == old(self).data
                &&& if old(self).cartridge.prg_ram@.len() > 0 {
                    final(self).cartridge.prg_ram@ == old(self).cartridge.prg_ram@.update(
                        masked_index(old(self).cartridge.prg_ram@.len(), (address & 0x1FFF) as u32),
                        value,
                    )
                } else {
                    final(self).cartridge.prg_ram@ == old(self).cartridge.prg_ram@
                }
            } else {
                &&& final(self).cartridge.prg_ram@ == old(self).cartridge.prg_ram@
                &&& if address >= 0x8000 {
                    final(self).data == spec_mmc3_control_write(old(self).data, address, value)
                } else {
                    final(self).data == old(self).data
                }
            },
    {
        if address < 0x6000 {
            // unmapped expansion area: writes are ignored
        } else if address < 0x8000 {
            if self.cartridge.prg_ram.len() > 0 {
                self.cartridge.set_prg_ram((address & 0x1FFF) as u32, value);
                proof {
                    let s0 = old(self).cartridge.prg_ram@;
                    lemma_u32_and_le((address & 0x1FFF) as u32, (s0.len() - 1) as u32);
                    let i = masked_index(s0.len(), (address & 0x1FFF) as u32);
                    assert(s0.update(i, value).len() == s0.len());
                }
            }
        } else if address < 0xA000 {
            if address & 0x01 == 0 {
                self.data.bank_mapping.chr_mode = if value & 0x80 != 0 {
                    Mmc3ChrMode::Mode1
                } else {
                    Mmc3ChrMode::Mode0
                };
                self.data.bank_mapping.prg_mode = if value & 0x40 != 0 {
                    Mmc3PrgMode::Mode1
                } else {
                    Mmc3PrgMode::Mode0
                };
                proof {
                    let v = value;
                    assert((v & 0x07) < 6 || (v & 0x07) == 0x06 || (v & 0x07) == 0x07)
                        by (bit_vector);
                }
                self.data.bank_update_select = if value & 0x07 == 0x06 {
                    Mmc3BankUpdate::PrgBank0
                } else if value & 0x07 == 0x07 {
                    Mmc3BankUpdate::PrgBank1
                } else {
                    Mmc3BankUpdate::ChrBank(value & 0x07)
                };
            } else {
                match self.data.bank_update_select {
                    Mmc3BankUpdate::ChrBank(chr_bank) => {
                        if chr_bank == 0 {
                            self.data.bank_mapping.chr_bank_r0 = value;
                        } else if chr_bank == 1 {
                            self.data.bank_mapping.chr_bank_r1 = value;
                        } else if chr_bank == 2 {
                            self.data.bank_mapping.chr_bank_r2 = value;
                        } else if chr_bank == 3 {
                            self.data.bank_mapping.chr_bank_r3 = value;
                        } else if chr_bank == 4 {
                            self.data.bank_mapping.chr_bank_r4 = value;
                        } else {
                            self.data.bank_mapping.chr_bank_r5 = value;
                        }
                    },
                    Mmc3BankUpdate::PrgBank0 => {
                        self.data.bank_mapping.prg_bank_0 = value;
                    },
                    Mmc3BankUpdate::PrgBank1 => {
                        self.data.bank_mapping.prg_bank_1 = value;
                    },
                }
            }
        } else if address < 0xC000 {
            if address & 0x01 == 0 {
                self.data.nametable_mirroring = if value & 0x01 != 0 {
                    NametableMirroring::Horizontal
                } else {
                    NametableMirroring::Vertical
                };
            }
        } else if address < 0xE000 {
            if address & 0x01 == 0 {
                self.data.irq_reload_value = value;
            } else {
                self.data.irq_reload_flag = true;
            }
        } else {
            if address & 0x01 == 0 {
                self.data.irq_enabled = false;
                self.data.interrupt_flag = false;
            } else {
                self.data.irq_enabled = true;
            }
        }
    }

    fn clock_irq(&mut self)
        ensures
            final(self).cartridge == old(self).cartridge,
            final(self).data == spec_mmc3_clock_irq(old(self).data),
    {
        if self.data.irq_counter == 0 || self.data.irq_reload_flag {
            self.data.irq_counter = self.data.irq_reload_value;
            self.data.irq_reload_flag = false;
        } else {
            self.data.irq_counter = self.data.irq_counter - 1;
            if self.data.irq_counter == 0 && self.data.irq_enabled {
                self.data.interrupt_flag = true;
            }
        }
    }

    pub open spec fn spec_map_ppu_address(self, address: u16) -> PpuMapResult {
        if address < 0x2000 {
            self.data.chr_type.spec_to_map_result(
                self.data.bank_mapping.spec_map_pattern_table_address(address),
            )
        } else {
            PpuMapResult::Vram(self.data.nametable_mirroring.spec_map_to_vram(address))
        }
    }

    /// Resolves a PPU address and feeds it to the address-bit-12 snoop that
    /// drives the scanline counter.
    pub fn map_ppu_address(&mut self, address: u16) -> (r: PpuMapResult)
        requires
            old(self).wf(),
            address <= 0x3EFF,
        ensures
            final(self).wf(),
            final(self).cartridge == old(self).cartridge,
            final(self).data == spec_mmc3_observe_a12(old(self).data, address),
            r == old(self).spec_map_ppu_address(address),
            r matches PpuMapResult::Vram(a) ==> a < 2048,
            r is ChrROM ==> old(self).cartridge.chr_rom@.len() > 0,
            r is ChrRAM ==> old(self).cartridge.chr_ram@.len() > 0,
    {
        let a12 = address & 0x1000;
        if a12 != 0 && self.data.last_a12_read == 0 && self.data.a12_low_cycles >= 10 {
            self.clock_irq();
        }

        self.data.last_a12_read = a12;
        if a12 == 0 {
            if self.data.a12_low_cycles < 0xFFFF_FFFF {
                self.data.a12_low_cycles = self.data.a12_low_cycles + 1;
            }
        } else {
            self.data.a12_low_cycles = 0;
        }

        if address < 0x2000 {
            self.data.chr_type.to_map_result(
                self.data.bank_mapping.map_pattern_table_address(address),
            )
        } else {
            PpuMapResult::Vram(self.data.nametable_mirroring.map_to_vram(address))
        }
    }

    pub fn read_ppu_address(&mut self, address: u16, vram: &Vec<u8>) -> (r: u8)
        requires
            old(self).wf(),
            address <= 0x3EFF,
            vram@.len() == 2048,
        ensures
            final(self).wf(),
            final(self).cartridge == old(self).cartridge,
            final(self).data == spec_mmc3_observe_a12(old(self).data, address),
            r == old(self).spec_map_ppu_address(address).spec_read(old(self).cartridge, vram@),
    {
        let result = self.map_ppu_address(address);
        result.read(&self.cartridge, vram)
    }

    pub fn write_ppu_address(&mut self, address: u16, value: u8, vram: &mut Vec<u8>)
        requires
            old(self).wf(),
            address <= 0x3EFF,
            old(vram)@.len() == 2048,
        ensures
            final(self).wf(),
            final(self).data == spec_mmc3_observe_a12(old(self).data, address),
            old(self).spec_map_ppu_address(address) matches PpuMapResult::Vram(a) ==> a < 2048,
            old(self).spec_map_ppu_address(address) is ChrRAM ==> old(
                self,
            ).cartridge.chr_ram@.len() > 0,
            ppu_write_applied(
                old(self).spec_map_ppu_address(address),
                value,
                old(self).cartridge,
                final(self).cartridge,
                old(vram)@,
                final(vram)@,
            ),
    {
        let result = self.map_ppu_address(address);
        result.write(value, &mut self.cartridge, vram);
        proof {
            if let PpuMapResult::ChrRAM(a) = result {
                let s0 = old(self).cartridge.chr_ram@;
                lemma_u32_and_le(a, (s0.len() - 1) as u32);
                let i = masked_index(s0.len(), a);
                assert(s0.update(i, value).len() == s0.len());
            }
        }
    }

    pub fn interrupt_flag(&self) -> (r: bool)
        ensures
            r == self.data.interrupt_flag,
    {
        self.data.interrupt_flag
    }
}


/// The closed set of supported mapper variants, dispatched by a single
/// match on the hot per-cycle path.
#[derive(Debug, Clone)]
pub enum Mapper {
    Nrom(MapperImpl<Nrom>),
    Uxrom(MapperImpl<Uxrom>),
    Mmc1(MapperImpl<Mmc1>),
    Cnrom(MapperImpl<Cnrom>),
    Mmc3(MapperImpl<Mmc3>),
}

impl Mapper {
    pub open spec fn wf(self) -> bool {
        match self {
            Mapper::Nrom(m) => m.wf(),
            Mapper::Uxrom(m) => m.wf(),
            Mapper::Mmc1(m) => m.wf(),
            Mapper::Cnrom(m) => m.wf(),
            Mapper::Mmc3(m) => m.wf(),
        }
    }

    /// The byte a CPU-space read of `address` returns under the current
    /// banking state.
    pub open spec fn spec_cpu_read(self, address: u16) -> u8 {
        match self {
            Mapper::Nrom(m) => if address >= 0x8000 {
                m.cartridge.spec_prg_rom_read((address & 0x7FFF) as u32)
            } else {
                0xFF
            },
            Mapper::Uxrom(m) => if address >= 0xC000 {
                m.cartridge.spec_prg_rom_read(
                    ((m.cartridge.prg_rom@.len() - 0x4000) + (address & 0x3FFF)) as u32,
                )
            } else if address >= 0x8000 {
                m.cartridge.spec_prg_rom_read(
                    (m.spec_switchable_bank_base() + (address & 0x3FFF)) as u32,
                )
            } else {
                0xFF
            },
            Mapper::Mmc1(m) => m.spec_map_cpu_address(address).spec_read(m.cartridge),
            Mapper::Cnrom(m) => if address >= 0x8000 {
                m.cartridge.spec_prg_rom_read((address - 0x8000) as u32)
            } else {
                0xFF
            },
            Mapper::Mmc3(m) => if address >= 0x8000 {
                m.cartridge.spec_prg_rom_read(m.data.bank_mapping.spec_map_prg_rom_address(address))
            } else if address >= 0x6000 && m.cartridge.prg_ram@.len() > 0 {
                m.cartridge.spec_prg_ram_read((address & 0x1FFF) as u32)
            } else {
                0xFF
            },
        }
    }

    pub fn read_cpu_address(&self, address: u16) -> (r: u8)
        requires
            self.wf(),
            address >= 0x4020,
        ensures
            r == self.spec_cpu_read(address),
    {
        match self {
            Mapper::Nrom(m) => m.read_cpu_address(address),
            Mapper::Uxrom(m) => m.read_cpu_address(address),
            Mapper::Mmc1(m) => m.read_cpu_address(address),
            Mapper::Cnrom(m) => m.read_cpu_address(address),
            Mapper::Mmc3(m) => m.read_cpu_address(address),
        }
    }

    /// How a CPU-space write of `value` at `address` changed the mapper:
    /// banking-state transition and, for RAM-backed variants, the PRG RAM
    /// update.
    pub open spec fn spec_cpu_write_ok(m0: Mapper, m1: Mapper, address: u16, value: u8) -> bool {
        match (m0, m1) {
            (Mapper::Nrom(a), Mapper::Nrom(b)) => b.cartridge == a.cartridge && b.data == a.data,
            (Mapper::Uxrom(a), Mapper::Uxrom(b)) => {
                &&& b.cartridge == a.cartridge
                &&& if address >= 0x8000 {
                    b.data == (Uxrom { prg_bank: value, ..a.data })
                } else {
                    b.data == a.data
                }
            },
            (Mapper::Mmc1(a), Mapper::Mmc1(b)) => {
                &&& b.cartridge.prg_rom@ == a.cartridge.prg_rom@
                &&& b.cartridge.chr_rom@ == a.cartridge.chr_rom@
                &&& b.cartridge.chr_ram@ == a.cartridge.chr_ram@
                &&& if 0x6000 <= address < 0x8000 {
                    &&& b.data == a.data
                    &&& if a.cartridge.prg_ram@.len() > 0 {
                        b.cartridge.prg_ram@ == a.cartridge.prg_ram@.update(
                            masked_index(a.cartridge.prg_ram@.len(), address as u32),
                            value,
                        )
                    } else {
                        b.cartridge.prg_ram@ == a.cartridge.prg_ram@
                    }
                } else {
                    &&& b.cartridge.prg_ram@ == a.cartridge.prg_ram@
                    &&& if address >= 0x8000 {
                        b.data == spec_mmc1_control_write(a.data, address, value)
                    } else {
                        b.data == a.data
                    }
                }
            },
            (Mapper::Cnrom(a), Mapper::Cnrom(b)) => {
                &&& b.cartridge == a.cartridge
                &&& if address >= 0x8000 {
                    b.data == (Cnrom { chr_bank: value, ..a.data })
                } else {
                    b.data == a.data
                }
            },
            (Mapper::Mmc3(a), Mapper::Mmc3(b)) => {
                &&& b.cartridge.prg_rom@ == a.cartridge.prg_rom@
                &&& b.cartridge.chr_rom@ == a.cartridge.chr_rom@
                &&& b.cartridge.chr_ram@ == a.cartridge.chr_ram@
                &&& if 0x6000 <= address < 0x8000 {
                    &&& b.data == a.data
                    &&& if a.cartridge.prg_ram@.len() > 0 {
                        b.cartridge.prg_ram@ == a.cartridge.prg_ram@.update(
                            masked_index(a.cartridge.prg_ram@.len(), (address & 0x1FFF) as u32),
                            value,
                        )
                    } else {
                        b.cartridge.prg_ram@ == a.cartridge.prg_ram@
                    }
                } else {
                    &&& b.cartridge.prg_ram@ == a.cartridge.prg_ram@
                    &&& if address >= 0x8000 {
                        b.data == spec_mmc3_control_write(a.data, address, value)
                    } else {
                        b.data == a.data
                    }
                }
            },
            _ => false,
        }
    }

    pub fn write_cpu_address(&mut self, address: u16, value: u8)
        requires
            old(self).wf(),
            address >= 0x4020,
        ensures
            final(self).wf(),
            Mapper::spec_cpu_write_ok(*old(self), *final(self), address, value),
    {
        match self {
            Mapper::Nrom(_) => {},
            Mapper::Uxrom(m) => m.write_cpu_address(address, value),
            Mapper::Mmc1(m) => m.write_cpu_address(address, value),
            Mapper::Cnrom(m) => m.write_cpu_address(address, value),
            Mapper::Mmc3(m) => m.write_cpu_address(address, value),
        }
    }

    /// Where a PPU-space access of `address` resolves under the current
    /// banking state.
    pub open spec fn spec_map_ppu(self, address: u16) -> PpuMapResult {
        match self {
            Mapper::Nrom(m) => m.spec_map_ppu_address(address),
            Mapper::Uxrom(m) => m.spec_map_ppu_address(address),
            Mapper::Mmc1(m) => m.spec_map_ppu_address(address),
            Mapper::Cnrom(m) => m.spec_map_ppu_address(address),
            Mapper::Mmc3(m) => m.spec_map_ppu_address(address),
        }
    }

    pub open spec fn spec_cartridge(self) -> Cartridge {
        match self {
            Mapper::Nrom(m) => m.cartridge,
            Mapper::Uxrom(m) => m.cartridge,
            Mapper::Mmc1(m) => m.cartridge,
            Mapper::Cnrom(m) => m.cartridge,
            Mapper::Mmc3(m) => m.cartridge,
        }
    }

    /// The banking state after a PPU-space access of `address`: only the
    /// scanline-counter mapper snoops the PPU bus, all other variants are
    /// unchanged.
    pub open spec fn spec_after_ppu_access(self, address: u16) -> Mapper {
        match self {
            Mapper::Mmc3(m) => Mapper::Mmc3(
                MapperImpl { cartridge: m.cartridge, data: spec_mmc3_observe_a12(m.data, address) },
            ),
            _ => self,
        }
    }

    /// How a PPU-space access changed the banking state alone: only the
    /// scanline-counter mapper's bus snoop advances; cartridge memory is
    /// accounted for separately.
    pub open spec fn spec_ppu_access_data_ok(m0: Mapper, m1: Mapper, address: u16) -> bool {
        match (m0, m1) {
            (Mapper::Nrom(a), Mapper::Nrom(b)) => b.data == a.data,
            (Mapper::Uxrom(a), Mapper::Uxrom(b)) => b.data == a.data,
            (Mapper::Mmc1(a), Mapper::Mmc1(b)) => b.data == a.data,
            (Mapper::Cnrom(a), Mapper::Cnrom(b)) => b.data == a.data,
            (Mapper::Mmc3(a), Mapper::Mmc3(b)) => b.data == spec_mmc3_observe_a12(
                a.data,
                address,
            ),
            _ => false,
        }
    }

    pub fn read_ppu_address(&mut self, address: u16, vram: &Vec<u8>) -> (r: u8)
        requires
            old(self).wf(),
            address <= 0x3EFF,
            vram@.len() == 2048,
        ensures
            final(self).wf(),
            *final(self) == old(self).spec_after_ppu_access(address),
            r == old(self).spec_map_ppu(address).spec_read(old(self).spec_cartridge(), vram@),
    {
        match self {
            Mapper::Nrom(m) => m.read_ppu_address(address, vram),
            Mapper::Uxrom(m) => m.read_ppu_address(address, vram),
            Mapper::Mmc1(m) => m.read_ppu_address(address, vram),
            Mapper::Cnrom(m) => m.read_ppu_address(address, vram),
            Mapper::Mmc3(m) => m.read_ppu_address(address, vram),
        }
    }

    pub fn write_ppu_address(&mut self, address: u16, value: u8, vram: &mut Vec<u8>)
        requires
            old(self).wf(),
            address <= 0x3EFF,
            old(vram)@.len() == 2048,
        ensures
            final(self).wf(),
            old(self).spec_map_ppu(address) matches PpuMapResult::Vram(a) ==> a < 2048,
            old(self).spec_map_ppu(address) is ChrRAM ==> old(
                self,
            ).spec_cartridge().chr_ram@.len() > 0,
            ppu_write_applied(
                old(self).spec_map_ppu(address),
                value,
                old(self).spec_cartridge(),
                final(self).spec_cartridge(),
                old(vram)@,
                final(vram)@,
            ),
            Mapper::spec_ppu_access_data_ok(*old(self), *final(self), address),
    {
        match self {
            Mapper::Nrom(m) => m.write_ppu_address(address, value, vram),
            Mapper::Uxrom(m) => m.write_ppu_address(address, value, vram),
            Mapper::Mmc1(m) => m.write_ppu_address(address, value, vram),
            Mapper::Cnrom(m) => m.write_ppu_address(address, value, vram),
            Mapper::Mmc3(m) => m.write_ppu_address(address, value, vram),
        }
    }

    /// How the per-cycle hook changed the mapper: only the serial
    /// mapper's write debounce advances.
    pub open spec fn spec_tick_ok(m0: Mapper, m1: Mapper) -> bool {
        match (m0, m1) {
            (Mapper::Mmc1(a), Mapper::Mmc1(b)) => {
                &&& b.cartridge == a.cartridge
                &&& b.data == (Mmc1 {
                    written_last_cycle: a.data.written_this_cycle,
                    written_this_cycle: false,
                    ..a.data
                })
            },
            _ => m1 == m0,
        }
    }

    /// Per-bus-cycle hook: only the serial mapper's write debounce needs it.
    pub fn tick(&mut self)
        requires
            old(self).wf(),
        ensures
            final(self).wf(),
            Mapper::spec_tick_ok(*old(self), *final(self)),
    {
        match self {
            Mapper::Mmc1(m) => m.tick(),
            _ => {},
        }
    }

    /// Whether the mapper is currently pulling the IRQ line low.
    pub open spec fn spec_interrupt_flag(self) -> bool {
        match self {
            Mapper::Mmc3(m) => m.data.interrupt_flag,
            _ => false,
        }
    }

    pub fn interrupt_flag(&self) -> (r: bool)
        ensures
            r == self.spec_interrupt_flag(),
    {
        match self {
            Mapper::Mmc3(m) => m.interrupt_flag(),
            _ => false,
        }
    }

    /// A serial-mapper cartridge over the given PRG ROM, with 8 KB each of
    /// PRG RAM and CHR ROM: the fixture configuration used by bank-mapping
    /// tests.
    pub fn new_mmc1(prg_rom: Vec<u8>) -> (r: Mapper)
        requires
            0x4000 <= prg_rom@.len() <= 0x0800_0000,
        ensures
            r.wf(),
            r matches Mapper::Mmc1(m) && m.cartridge.prg_rom@ == prg_rom@
                && m.cartridge.prg_ram@.len() == 8192 && m.cartridge.chr_rom@.len() == 8192
                && m.cartridge.chr_ram@.len() == 0 && (forall|i: int|
                0 <= i < 8192 ==> m.cartridge.prg_ram@[i] == 0u8 && m.cartridge.chr_rom@[i] == 0u8)
                && m.data == (Mmc1 {
                chr_type: ChrType::ROM,
                shift_register: 0,
                shift_register_len: 0,
                written_this_cycle: false,
                written_last_cycle: false,
                nametable_mirroring: Mmc1Mirroring::Vertical,
                prg_banking_mode: Mmc1PrgBankingMode::Switch16KbLastBankFixed,
                chr_banking_mode: Mmc1ChrBankingMode::Single8KbBank,
                chr_bank_0: 0,
                chr_bank_1: 0,
                prg_bank: 0,
            }),
    {
        Mapper::Mmc1(
            MapperImpl {
                cartridge: Cartridge {
                    prg_rom,
                    prg_ram: make_zero_vec(8192),
                    chr_rom: make_zero_vec(8192),
                    chr_ram: Vec::new(),
                },
                data: Mmc1 {
                    chr_type: ChrType::ROM,
                    shift_register: 0,
                    shift_register_len: 0,
                    written_this_cycle: false,
                    written_last_cycle: false,
                    nametable_mirroring: Mmc1Mirroring::Vertical,
                    prg_banking_mode: Mmc1PrgBankingMode::Switch16KbLastBankFixed,
                    chr_banking_mode: Mmc1ChrBankingMode::Single8KbBank,
                    chr_bank_0: 0,
                    chr_bank_1: 0,
                    prg_bank: 0,
                },
            },
        )
    }
}

/// A zero-filled byte vector of the given length.
pub fn make_zero_vec(len: usize) -> (r: Vec<u8>)
    ensures
        r@.len() == len,
        forall|i: int| 0 <= i < len ==> r@[i] == 0u8,
{
    let mut v: Vec<u8> = Vec::new();
    let mut i: usize = 0;
    while i < len
        invariant
            i <= len,
            v@.len() == i,
            forall|j: int| 0 <= j < i ==> v@[j] == 0u8,
        decreases len - i,
    {
        v.push(0);
        i = i + 1;
    }
    v
}

/// The bytes `src[start .. start + len]` as a fresh vector.
pub fn copy_range(src: &Vec<u8>, start: usize, len: usize) -> (r: Vec<u8>)
    requires
        start + len <= src@.len(),
    ensures
        r@ == src@.subrange(start as int, start + len),
{
    let mut v: Vec<u8> = Vec::new();
    let mut i: usize = 0;
    let src_len: usize = src.len();
    while i < len
        invariant
            i <= len,
            start + len <= src_len,
            src_len == src@.len(),
            v@.len() == i,
            forall|j: int| 0 <= j < i ==> v@[j] == src@[start + j],
        decreases len - i,
    {
        v.push(src[start + i]);
        i = i + 1;
    }
    proof {
        assert(v@ =~= src@.subrange(start as int, start + len));
    }
    v
}

/// Why a cartridge image was rejected.
#[derive(Debug, Clone, Copy, PartialEq, Eq, Structural)]
pub enum CartridgeFileError {
    /// The image ended before the header or data blocks it promises.
    Io,
    /// The image does not carry the expected header magic, or describes a
    /// cartridge with no PRG ROM.
    Format,
    /// The header names a mapper this core does not implement.
    UnsupportedMapper { mapper_number: u8 },
}

/// Header magic: the four bytes that open every cartridge image.
pub open spec fn ines_magic_ok(f: Seq<u8>) -> bool {
    f[0] == 0x4E && f[1] == 0x45 && f[2] == 0x53 && f[3] == 0x1A
}

/// PRG ROM size in bytes promised by the header.
pub open spec fn ines_prg_rom_size(f: Seq<u8>) -> u32 {
    (16384 * ((((f[9] & 0x0F) as u32) << 8) | (f[4] as u32))) as u32
}

/// CHR ROM size in bytes promised by the header.
pub open spec fn ines_chr_rom_size(f: Seq<u8>) -> u32 {
    (8192 * ((((f[9] & 0xF0) as u32) << 4) | (f[5] as u32))) as u32
}

pub open spec fn ines_has_trainer(f: Seq<u8>) -> bool {
    f[6] & 0x04 != 0
}

pub open spec fn ines_mapper_number(f: Seq<u8>) -> u8 {
    (f[7] & 0xF0) | ((f[6] & 0xF0) >> 4)
}

/// Offset of the PRG ROM block: the header, plus a trainer block when one
/// is present.
pub open spec fn ines_prg_start(f: Seq<u8>) -> int {
    if ines_has_trainer(f) {
        528int
    } else {
        16int
    }
}

pub open spec fn ines_mirroring(f: Seq<u8>) -> NametableMirroring {
    if f[6] & 0x01 != 0 {
        NametableMirroring::Vertical
    } else {
        NametableMirroring::Horizontal
    }
}

pub open spec fn ines_chr_type(f: Seq<u8>) -> ChrType {
    if ines_chr_rom_size(f) == 0 {
        ChrType::RAM
    } else {
        ChrType::ROM
    }
}

/// The cartridge memory that loading image `f` produces.
pub open spec fn ines_cartridge_ok(f: Seq<u8>, c: Cartridge) -> bool {
    &&& c.prg_rom@ == f.subrange(ines_prg_start(f), ines_prg_start(f) + ines_prg_rom_size(f))
    &&& c.prg_ram@.len() == 8192
    &&& (forall|i: int| 0 <= i < 8192 ==> c.prg_ram@[i] == 0u8)
    &&& c.chr_rom@ == f.subrange(
        ines_prg_start(f) + ines_prg_rom_size(f),
        ines_prg_start(f) + ines_prg_rom_size(f) + ines_chr_rom_size(f),
    )
    &&& c.chr_ram@.len() == (if ines_chr_type(f) == ChrType::RAM {
        8192int
    } else {
        0int
    })
    &&& (forall|i: int| 0 <= i < c.chr_ram@.len() ==> c.chr_ram@[i] == 0u8)
}

/// The mapper that loading image `f` produces: the variant selected by the
/// header's mapper number, holding the image's data blocks and power-on
/// banking state.
pub open spec fn ines_mapper_ok(f: Seq<u8>, m: Mapper) -> bool {
    match m {
        Mapper::Nrom(imp) => {
            &&& ines_mapper_number(f) == 0
            &&& ines_cartridge_ok(f, imp.cartridge)
            &&& imp.data.nametable_mirroring == ines_mirroring(f)
            &&& imp.data.chr_type == ines_chr_type(f)
        },
        Mapper::Mmc1(imp) => {
            &&& ines_mapper_number(f) == 1
            &&& ines_cartridge_ok(f, imp.cartridge)
            &&& imp.data == (Mmc1 {
                chr_type: ines_chr_type(f),
                shift_register: 0,
                shift_register_len: 0,
                written_this_cycle: false,
                written_last_cycle: false,
                nametable_mirroring: Mmc1Mirroring::Horizontal,
                prg_banking_mode: Mmc1PrgBankingMode::Switch16KbLastBankFixed,
                chr_banking_mode: Mmc1ChrBankingMode::Single8KbBank,
                chr_bank_0: 0,
                chr_bank_1: 0,
                prg_bank: 0,
            })
        },
        Mapper::Uxrom(imp) => {
            &&& ines_mapper_number(f) == 2
            &&& ines_cartridge_ok(f, imp.cartridge)
            &&& imp.data.prg_bank == 0
            &&& imp.data.chr_type == ines_chr_type(f)
            &&& imp.data.nametable_mirroring == ines_mirroring(f)
        },
        Mapper::Cnrom(imp) => {
            &&& ines_mapper_number(f) == 3
            &&& ines_cartridge_ok(f, imp.cartridge)
            &&& imp.data.chr_type == ines_chr_type(f)
            &&& imp.data.chr_bank == 0
            &&& imp.data.nametable_mirroring == ines_mirroring(f)
        },
        Mapper::Mmc3(imp) => {
            &&& ines_mapper_number(f) == 4
            &&& ines_cartridge_ok(f, imp.cartridge)
            &&& imp.data.chr_type == ines_chr_type(f)
            &&& imp.data.bank_mapping == (Mmc3BankMapping {
                prg_mode: Mmc3PrgMode::Mode0,
                chr_mode: Mmc3ChrMode::Mode0,
                prg_rom_len: ines_prg_rom_size(f),
                chr_len: if ines_chr_type(f) == ChrType::ROM {
                    ines_chr_rom_size(f)
                } else {
                    8192u32
                },
                prg_bank_0: 0,
                prg_bank_1: 0,
                chr_bank_r0: 0,
                chr_bank_r1: 0,
                chr_bank_r2: 0,
                chr_bank_r3: 0,
                chr_bank_r4: 0,
                chr_bank_r5: 0,
            })
            &&& imp.data.nametable_mirroring == NametableMirroring::Vertical
            &&& imp.data.bank_update_select == Mmc3BankUpdate::ChrBank(0)
            &&& !imp.data.interrupt_flag
            &&& imp.data.irq_counter == 0
            &&& imp.data.irq_reload_value == 0
            &&& !imp.data.irq_reload_flag
            &&& !imp.data.irq_enabled
            &&& imp.data.last_a12_read == 0
            &&& imp.data.a12_low_cycles == 0
        },
    }
}

/// Parses a cartridge image: header check, mapper-number dispatch, and the
/// PRG/CHR data blocks copied out of the image.
pub fn from_ines_bytes(file: &Vec<u8>) -> (r: Result<Mapper, CartridgeFileError>)
    ensures
        file@.len() < 8 ==> r == Result::<Mapper, CartridgeFileError>::Err(CartridgeFileError::Io),
        file@.len() >= 8 && !ines_magic_ok(file@) ==> r == Result::<
            Mapper,
            CartridgeFileError,
        >::Err(CartridgeFileError::Format),
        file@.len() >= 8 && ines_magic_ok(file@) && file@.len() < ines_prg_start(file@)
            + ines_prg_rom_size(file@) + ines_chr_rom_size(file@) ==> r == Result::<
            Mapper,
            CartridgeFileError,
        >::Err(CartridgeFileError::Io),
        file@.len() >= 8 && ines_magic_ok(file@) && file@.len() >= ines_prg_start(file@)
            + ines_prg_rom_size(file@) + ines_chr_rom_size(file@) ==> {
            if ines_prg_rom_size(file@) == 0 {
                r == Result::<Mapper, CartridgeFileError>::Err(CartridgeFileError::Format)
            } else if ines_mapper_number(file@) > 4 {
                r == Result::<Mapper, CartridgeFileError>::Err(
                    CartridgeFileError::UnsupportedMapper {
                        mapper_number: ines_mapper_number(file@),
                    },
                )
            } else {
                r matches Result::Ok(m) && m.wf() && ines_mapper_ok(file@, m)
            }
        },
{
    if file.len() < 8 {
        return Err(CartridgeFileError::Io);
    }
    if !(file[0] == 0x4E && file[1] == 0x45 && file[2] == 0x53 && file[3] == 0x1A) {
        return Err(CartridgeFileError::Format);
    }
    if file.len() < 16 {
        return Err(CartridgeFileError::Io);
    }

    let prg_banks: u32 = (((file[9] & 0x0F) as u32) << 8u32) | (file[4] as u32);
    let chr_banks: u32 = (((file[9] & 0xF0) as u32) << 4u32) | (file[5] as u32);
    proof {
        let h9 = file@[9];
        let h4 = file@[4];
        let h5 = file@[5];
        assert((((h9 & 0x0F) as u32) << 8) | (h4 as u32) < 0x1000) by (bit_vector);
        assert((((h9 & 0xF0) as u32) << 4) | (h5 as u32) < 0x1000) by (bit_vector);
    }
    let prg_rom_size: u32 = 16384 * prg_banks;
    let chr_rom_size: u32 = 8192 * chr_banks;

    let has_trainer = file[6] & 0x04 != 0;
    let mapper_number = (file[7] & 0xF0) | ((file[6] & 0xF0) >> 4u8);

    let prg_rom_start: usize = if has_trainer {
        528
    } else {
        16
    };

    if file.len() < prg_rom_start {
        return Err(CartridgeFileError::Io);
    }
    let rest: usize = file.len() - prg_rom_start;
    if rest < prg_rom_size as usize {
        return Err(CartridgeFileError::Io);
    }
    if rest - (prg_rom_size as usize) < chr_rom_size as usize {
        return Err(CartridgeFileError::Io);
    }
    if prg_rom_size == 0 {
        return Err(CartridgeFileError::Format);
    }

    let prg_rom = copy_range(file, prg_rom_start, prg_rom_size as usize);
    let chr_rom = copy_range(file, prg_rom_start + prg_rom_size as usize, chr_rom_size as usize);

    let chr_type = if chr_rom_size == 0 {
        ChrType::RAM
    } else {
        ChrType::ROM
    };
    let chr_ram_size: usize = match chr_type {
        ChrType::RAM => 8192,
        ChrType::ROM => 0,
    };
    let chr_size: u32 = match chr_type {
        ChrType::ROM => chr_rom_size,
        ChrType::RAM => 8192,
    };

    let cartridge = Cartridge {
        prg_rom,
        prg_ram: make_zero_vec(8192),
        chr_rom,
        chr_ram: make_zero_vec(chr_ram_size),
    };

    let nametable_mirroring = if file[6] & 0x01 != 0 {
        NametableMirroring::Vertical
    } else {
        NametableMirroring::Horizontal
    };

    let mapper = if mapper_number == 0 {
        Mapper::Nrom(MapperImpl { cartridge, data: Nrom { nametable_mirroring, chr_type } })
    } else if mapper_number == 1 {
        Mapper::Mmc1(
            MapperImpl {
                cartridge,
                data: Mmc1 {
                    chr_type,
                    shift_register: 0,
                    shift_register_len: 0,
                    written_this_cycle: false,
                    written_last_cycle: false,
                    nametable_mirroring: Mmc1Mirroring::Horizontal,
                    prg_banking_mode: Mmc1PrgBankingMode::Switch16KbLastBankFixed,
                    chr_banking_mode: Mmc1ChrBankingMode::Single8KbBank,
                    chr_bank_0: 0,
                    chr_bank_1: 0,
                    prg_bank: 0,
                },
            },
        )
    } else if mapper_number == 2 {
        Mapper::Uxrom(
            MapperImpl { cartridge, data: Uxrom { prg_bank: 0, chr_type, nametable_mirroring } },
        )
    } else if mapper_number == 3 {
        Mapper::Cnrom(
            MapperImpl { cartridge, data: Cnrom { chr_type, chr_bank: 0, nametable_mirroring } },
        )
    } else if mapper_number == 4 {
        Mapper::Mmc3(
            MapperImpl {
                cartridge,
                data: Mmc3 {
                    chr_type,
                    bank_mapping: Mmc3BankMapping::new(prg_rom_size, chr_size),
                    nametable_mirroring: NametableMirroring::Vertical,
                    bank_update_select: Mmc3BankUpdate::ChrBank(0),
                    interrupt_flag: false,
                    irq_counter: 0,
                    irq_reload_value: 0,
                    irq_reload_flag: false,
                    irq_enabled: false,
                    last_a12_read: 0,
                    a12_low_cycles: 0,
                },
            },
        )
    } else {
        return Err(CartridgeFileError::UnsupportedMapper { mapper_number });
    };

    Ok(mapper)
}


/// Bank-select round trip, fixed-mapping variant: CPU writes never change
/// what any cartridge-space read returns.
pub proof fn lemma_nrom_write_read_round_trip(m0: Mapper, m1: Mapper, w_addr: u16, w_val: u8, a: u16)
    requires
        m0 is Nrom,
        Mapper::spec_cpu_write_ok(m0, m1, w_addr, w_val),
    ensures
        m1.spec_cpu_read(a) == m0.spec_cpu_read(a),
{
}

/// Bank-select round trip, switchable-window variant: immediately after a
/// bank-select write of `bank`, a read in the switchable window maps to
/// that bank of PRG ROM, wrapped to the ROM size.
pub proof fn lemma_uxrom_bank_round_trip(m0: Mapper, m1: Mapper, w_addr: u16, bank: u8, a: u16)
    requires
        m0 is Uxrom,
        m0.wf(),
        w_addr >= 0x8000,
        Mapper::spec_cpu_write_ok(m0, m1, w_addr, bank),
        0x8000 <= a <= 0xBFFF,
    ensures
        m1.spec_cpu_read(a) == m0.spec_cartridge().spec_prg_rom_read(
            (((((bank as u32) << 14) & ((m0.spec_cartridge().prg_rom@.len() - 1) as u32))
                + (a & 0x3FFF))) as u32,
        ),
{
}

/// Bank-select round trip, switchable-CHR variant: immediately after a
/// bank-select write of `bank`, a pattern-table access maps to that 8 KB
/// CHR bank, wrapped to the CHR size.
pub proof fn lemma_cnrom_bank_round_trip(m0: Mapper, m1: Mapper, w_addr: u16, bank: u8, a: u16)
    requires
        m0 matches Mapper::Cnrom(imp) && imp.wf(),
        w_addr >= 0x8000,
        Mapper::spec_cpu_write_ok(m0, m1, w_addr, bank),
        a < 0x2000,
    ensures
        m1 matches Mapper::Cnrom(imp1) && m1.spec_map_ppu(a) == imp1.data.chr_type.spec_to_map_result(
            (((bank as u32) * 8192 + a) as u32) & ((imp1.spec_chr_len() - 1) as u32),
        ),
{
}

/// Bank-select round trip, select/data register pair: selecting the first
/// switchable PRG window and writing `bank` to the data register makes a
/// read in that window map to 8 KB bank `bank` under the current bank
/// mode.
pub proof fn lemma_mmc3_bank_round_trip(m0: Mapper, m1: Mapper, m2: Mapper, bank: u8, a: u16)
    requires
        m0 matches Mapper::Mmc3(imp) && imp.wf() && imp.data.bank_mapping.prg_mode
            == Mmc3PrgMode::Mode0,
        Mapper::spec_cpu_write_ok(m0, m1, 0x8000, 0x06),
        Mapper::spec_cpu_write_ok(m1, m2, 0x8001, bank),
        0x8000 <= a <= 0x9FFF,
    ensures
        m2.spec_cpu_read(a) == m2.spec_cartridge().spec_prg_rom_read(
            spec_prg_bank_address(bank, a),
        ),
{
    assert(0x06u8 & 0x80 == 0 && 0x06u8 & 0x40 == 0 && 0x06u8 & 0x07 == 0x06) by (bit_vector);
    assert(0x8000u16 & 0x01 == 0 && 0x8001u16 & 0x01 == 1) by (bit_vector);
}

/// Bank-select round trip, serial-register variant: five data writes with
/// a clear reset bit, starting from an empty shift register, assemble
/// their low bits (first write lowest) and latch them into the selected
/// bank register; here the PRG bank register.
pub proof fn lemma_mmc1_serial_bank_select(
    d: Mmc1,
    v0: u8,
    v1: u8,
    v2: u8,
    v3: u8,
    v4: u8,
)
    requires
        d.shift_register == 0,
        d.shift_register_len == 0,
        !d.written_last_cycle,
        v0 & 0x80 == 0,
        v1 & 0x80 == 0,
        v2 & 0x80 == 0,
        v3 & 0x80 == 0,
        v4 & 0x80 == 0,
    ensures
        ({
            let d1 = spec_mmc1_control_write(d, 0xE000, v0);
            let d2 = spec_mmc1_control_write(d1, 0xE000, v1);
            let d3 = spec_mmc1_control_write(d2, 0xE000, v2);
            let d4 = spec_mmc1_control_write(d3, 0xE000, v3);
            let d5 = spec_mmc1_control_write(d4, 0xE000, v4);
            &&& d5.prg_bank == ((v0 & 1) | ((v1 & 1) << 1) | ((v2 & 1) << 2) | ((v3 & 1) << 3) | (
            (v4 & 1) << 4))
            &&& d5.shift_register == 0
            &&& d5.shift_register_len == 0
        }),
{
    let b0 = v0;
    let b1 = v1;
    let b2 = v2;
    let b3 = v3;
    let b4 = v4;
    assert({
        let s1 = (0u8 >> 1) | ((b0 & 0x01) << 4);
        let s2 = (s1 >> 1) | ((b1 & 0x01) << 4);
        let s3 = (s2 >> 1) | ((b2 & 0x01) << 4);
        let s4 = (s3 >> 1) | ((b3 & 0x01) << 4);
        let s5 = (s4 >> 1) | ((b4 & 0x01) << 4);
        s5 == ((b0 & 1) | ((b1 & 1) << 1) | ((b2 & 1) << 2) | ((b3 & 1) << 3) | ((b4 & 1) << 4))
    }) by (bit_vector);
}

} // verus!
