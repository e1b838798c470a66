//! The extended scanline-counter mapper family: the base part, the
//! follow-on part with banked work RAM, and the variant that clocks its
//! counter from a pulse divider on the falling edge of the snooped
//! address bit.

use vstd::prelude::*;

use crate::cartridge::ChrType;
use crate::cartridge::MapperImpl;
use crate::cartridge::NametableMirroring;
use crate::cartridge::PpuMapResult;
use crate::cartridge::chr_backing_wf;
use crate::cartridge::masked_index;
use crate::mappers::BankSizeKb;

verus! {

/// PRG bank arrangement.
#[derive(Debug, Clone, Copy, PartialEq, Eq, Structural)]
pub enum PrgMode {
    Mode0,
    Mode1,
}

/// CHR bank arrangement.
#[derive(Debug, Clone, Copy, PartialEq, Eq, Structural)]
pub enum ChrMode {
    Mode0,
    Mode1,
}

/// Current bank registers R0-R5 plus the modes they are read under.
#[derive(Debug, Clone, Copy, PartialEq, Eq, Structural)]
pub struct BankMapping {
    pub prg_mode: PrgMode,
    pub chr_mode: ChrMode,
    pub prg_rom_len: u32,
    pub chr_len: u32,
    pub prg_bank_0: u8,
    pub prg_bank_1: u8,
    pub chr_bank_r0: u8,
    pub chr_bank_r1: u8,
    pub chr_bank_r2: u8,
    pub chr_bank_r3: u8,
    pub chr_bank_r4: u8,
    pub chr_bank_r5: u8,
}

impl BankMapping {
    pub open spec fn wf(self) -> bool {
        &&& 0x4000 <= self.prg_rom_len
        &&& 0 < self.chr_len
    }

    pub fn new(prg_rom_len: u32, chr_len: u32) -> (r: Self)
        ensures
            r == (BankMapping {
                prg_mode: PrgMode::Mode0,
                chr_mode: ChrMode::Mode0,
                prg_rom_len,
                chr_len,
                prg_bank_0: 0u8,
                prg_bank_1: 0u8,
                chr_bank_r0: 0u8,
                chr_bank_r1: 0u8,
                chr_bank_r2: 0u8,
                chr_bank_r3: 0u8,
                chr_bank_r4: 0u8,
                chr_bank_r5: 0u8,
            }),
    {
        BankMapping {
            prg_mode: PrgMode::Mode0,
            chr_mode: ChrMode::Mode0,
            prg_rom_len,
            chr_len,
            prg_bank_0: 0,
            prg_bank_1: 0,
            chr_bank_r0: 0,
            chr_bank_r1: 0,
            chr_bank_r2: 0,
            chr_bank_r3: 0,
            chr_bank_r4: 0,
            chr_bank_r5: 0,
        }
    }

    pub open spec fn spec_map_prg_rom_address(self, address: u16) -> u32 {
        if (self.prg_mode == PrgMode::Mode0 && address < 0xA000) || (self.prg_mode == PrgMode::Mode1
            && 0xC000 <= address < 0xE000) {
            BankSizeKb::Eight.spec_to_absolute_address(self.prg_bank_0 as u32, address)
        } else if 0xA000 <= address < 0xC000 {
            BankSizeKb::Eight.spec_to_absolute_address(self.prg_bank_1 as u32, address)
        } else if address < 0xE000 {
            // fixed at the second-to-last bank
            BankSizeKb::Eight.spec_to_absolute_address_from_end(2, self.prg_rom_len, address)
        } else {
            // fixed at the last bank
            BankSizeKb::Eight.spec_to_absolute_address_from_end(1, self.prg_rom_len, address)
        }
    }

    pub fn map_prg_rom_address(&self, address: u16) -> (r: u32)
        requires
            self.wf(),
            address >= 0x8000,
        ensures
            r == self.spec_map_prg_rom_address(address),
    {
        proof {
            assert((2u32 << 13) == 0x4000 && (1u32 << 13) == 0x2000) by (bit_vector);
        }
        match (self.prg_mode, address) {
            (PrgMode::Mode0, 0x8000..=0x9FFF) | (PrgMode::Mode1, 0xC000..=0xDFFF) => {
                BankSizeKb::Eight.to_absolute_address(self.prg_bank_0 as u32, address)
            },
            (_, 0xA000..=0xBFFF) => BankSizeKb::Eight.to_absolute_address(
                self.prg_bank_1 as u32,
                address,
            ),
            (PrgMode::Mode0, 0xC000..=0xDFFF) | (PrgMode::Mode1, 0x8000..=0x9FFF) => {
                BankSizeKb::Eight.to_absolute_address_from_end(2, self.prg_rom_len, address)
            },
            (_, _) => BankSizeKb::Eight.to_absolute_address_last_bank(self.prg_rom_len, address),
        }
    }

    /// CHR bank register R0-R5 by index.
    pub open spec fn spec_chr_bank(self, i: int) -> u8 {
        if i == 0 {
            self.chr_bank_r0
        } else if i == 1 {
            self.chr_bank_r1
        } else if i == 2 {
            self.chr_bank_r2
        } else if i == 3 {
            self.chr_bank_r3
        } else if i == 4 {
            self.chr_bank_r4
        } else {
            self.chr_bank_r5
        }
    }

    /// The same mapping with CHR bank register `i` replaced by `value`.
    pub open spec fn spec_with_chr_bank(self, i: int, value: u8) -> Self {
        if i == 0 {
            BankMapping { chr_bank_r0: value, ..self }
        } else if i == 1 {
            BankMapping { chr_bank_r1: value, ..self }
        } else if i == 2 {
            BankMapping { chr_bank_r2: value, ..self }
        } else if i == 3 {
            BankMapping { chr_bank_r3: value, ..self }
        } else if i == 4 {
            BankMapping { chr_bank_r4: value, ..self }
        } else {
            BankMapping { chr_bank_r5: value, ..self }
        }
    }

    pub open spec fn spec_map_pattern_table_address(self, address: u16) -> u32 {
        let mapped_address: u32 = if (self.chr_mode == ChrMode::Mode0 && address < 0x0800) || (
        self.chr_mode == ChrMode::Mode1 && 0x1000 <= address < 0x1800) {
            // 2 KB banks are addressed as 1 KB bank numbers with the low
            // bit ignored
            BankSizeKb::Two.spec_to_absolute_address((self.chr_bank_r0 >> 1) as u32, address)
        } else if (self.chr_mode == ChrMode::Mode0 && 0x0800 <= address < 0x1000) || (self.chr_mode
            == ChrMode::Mode1 && 0x1800 <= address < 0x2000) {
            BankSizeKb::Two.spec_to_absolute_address((self.chr_bank_r1 >> 1) as u32, address)
        } else if (self.chr_mode == ChrMode::Mode0 && 0x1000 <= address < 0x1400) || (self.chr_mode
            == ChrMode::Mode1 && address < 0x0400) {
            BankSizeKb::One.spec_to_absolute_address(self.chr_bank_r2 as u32, address)
        } else if (self.chr_mode == ChrMode::Mode0 && 0x1400 <= address < 0x1800) || (self.chr_mode
            == ChrMode::Mode1 && 0x0400 <= address < 0x0800) {
            BankSizeKb::One.spec_to_absolute_address(self.chr_bank_r3 as u32, address)
        } else if (self.chr_mode == ChrMode::Mode0 && 0x1800 <= address < 0x1C00) || (self.chr_mode
            == ChrMode::Mode1 && 0x0800 <= address < 0x0C00) {
            BankSizeKb::One.spec_to_absolute_address(self.chr_bank_r4 as u32, address)
        } else {
            BankSizeKb::One.spec_to_absolute_address(self.chr_bank_r5 as u32, address)
        };
        mapped_address & ((self.chr_len - 1) as u32)
    }

    pub fn map_pattern_table_address(&self, address: u16) -> (r: u32)
        requires
            self.wf(),
            address < 0x2000,
        ensures
            r == self.spec_map_pattern_table_address(address),
    {
        let mapped_address = match (self.chr_mode, address) {
            (ChrMode::Mode0, 0x0000..=0x07FF) | (ChrMode::Mode1, 0x1000..=0x17FF) => {
                BankSizeKb::Two.to_absolute_address((self.chr_bank_r0 >> 1u8) as u32, address)
            },
            (ChrMode::Mode0, 0x0800..=0x0FFF) | (ChrMode::Mode1, 0x1800..=0x1FFF) => {
                BankSizeKb::Two.to_absolute_address((self.chr_bank_r1 >> 1u8) as u32, address)
            },
            (ChrMode::Mode0, 0x1000..=0x13FF) | (ChrMode::Mode1, 0x0000..=0x03FF) => {
                BankSizeKb::One.to_absolute_address(self.chr_bank_r2 as u32, address)
            },
            (ChrMode::Mode0, 0x1400..=0x17FF) | (ChrMode::Mode1, 0x0400..=0x07FF) => {
                BankSizeKb::One.to_absolute_address(self.chr_bank_r3 as u32, address)
            },
            (ChrMode::Mode0, 0x1800..=0x1BFF) | (ChrMode::Mode1, 0x0800..=0x0BFF) => {
                BankSizeKb::One.to_absolute_address(self.chr_bank_r4 as u32, address)
            },
            (_, _) => BankSizeKb::One.to_absolute_address(self.chr_bank_r5 as u32, address),
        };
        mapped_address & ((self.chr_len - 1) as u32)
    }
}

/// Which bank register the next bank-data write updates.
#[derive(Debug, Clone, Copy, PartialEq, Eq, Structural)]
pub enum BankUpdate {
    PrgBank0,
    PrgBank1,
    ChrBank(u8),
}

/// Which member of the mapper family the cartridge carries.
#[derive(Debug, Clone, Copy, PartialEq, Eq, Structural)]
pub enum Variant {
    Mmc3,
    Mmc6,
    McAcc,
}

impl Variant {
    pub fn name(self) -> (r: &'static str)
        ensures
            self == Variant::Mmc3 ==> r@ == "MMC3"@,
            self == Variant::Mmc6 ==> r@ == "MMC6"@,
            self == Variant::McAcc ==> r@ == "MMC3 (MC-ACC variant)"@,
    {
        match self {
            Self::Mmc3 => "MMC3",
            Self::Mmc6 => "MMC6",
            Self::McAcc => "MMC3 (MC-ACC variant)",
        }
    }
}

/// Work-RAM protection state: the base part enables or write-protects the
/// whole window, the follow-on part guards each half separately.
#[derive(Debug, Clone, Copy, PartialEq, Eq, Structural)]
pub enum RamMode {
    Mmc3Enabled,
    Mmc3WritesDisabled,
    Mmc6Enabled {
        first_half_reads: bool,
        first_half_writes: bool,
        second_half_reads: bool,
        second_half_writes: bool,
    },
    Disabled,
}

impl RamMode {
    pub open spec fn spec_reads_enabled(self, address: u16) -> bool {
        match self {
            RamMode::Mmc3Enabled | RamMode::Mmc3WritesDisabled => true,
            RamMode::Mmc6Enabled { first_half_reads, second_half_reads, .. } => {
                if address & 0x0200 != 0 {
                    second_half_reads
                } else {
                    first_half_reads
                }
            },
            RamMode::Disabled => false,
        }
    }

    pub fn reads_enabled(self, address: u16) -> (r: bool)
        ensures
            r == self.spec_reads_enabled(address),
    {
        match self {
            Self::Mmc3Enabled | Self::Mmc3WritesDisabled => true,
            Self::Mmc6Enabled { first_half_reads, second_half_reads, .. } => {
                if address & 0x0200 != 0 {
                    second_half_reads
                } else {
                    first_half_reads
                }
            },
            Self::Disabled => false,
        }
    }

    pub open spec fn spec_writes_enabled(self, address: u16) -> bool {
        match self {
            RamMode::Mmc3Enabled => true,
            RamMode::Mmc6Enabled { first_half_writes, second_half_writes, .. } => {
                if address & 0x0200 != 0 {
                    second_half_writes
                } else {
                    first_half_writes
                }
            },
            RamMode::Disabled | RamMode::Mmc3WritesDisabled => false,
        }
    }

    pub fn writes_enabled(self, address: u16) -> (r: bool)
        ensures
            r == self.spec_writes_enabled(address),
    {
        match self {
            Self::Mmc3Enabled => true,
            Self::Mmc6Enabled { first_half_writes, second_half_writes, .. } => {
                if address & 0x0200 != 0 {
                    second_half_writes
                } else {
                    first_half_writes
                }
            },
            Self::Disabled | Self::Mmc3WritesDisabled => false,
        }
    }
}

/// Standard two-nametable mirroring, or the add-on carrying four screens
/// of its own VRAM.
#[derive(Debug, Clone)]
pub enum Mmc3NametableMirroring {
    Standard(NametableMirroring),
    FourScreenVram { external_vram: Vec<u8> },
}

/// Pulse count at which the falling-edge variant clocks its counter.
pub const ACC_COUNTER_INIT_VALUE: u8 = 6;

/// The extended scanline-counter mapper.
#[derive(Debug, Clone)]
pub struct Mmc3 {
    pub variant: Variant,
    pub chr_type: ChrType,
    pub bank_mapping: BankMapping,
    pub nametable_mirroring: Mmc3NametableMirroring,
    pub bank_update_select: BankUpdate,
    pub ram_mode: RamMode,
    pub interrupt_flag: bool,
    pub irq_counter: u8,
    pub irq_reload_value: u8,
    pub irq_reload_flag: bool,
    pub irq_enabled: bool,
    pub last_a12_read: u16,
    pub a12_low_cycles: u32,
    pub mc_acc_pulse_counter: u8,
}

impl Mmc3 {
    pub fn new(
        chr_type: ChrType,
        prg_rom_len: u32,
        chr_size: u32,
        sub_mapper_number: u8,
        has_four_screen_vram: bool,
    ) -> (r: Self)
        ensures
            r.variant == (if sub_mapper_number == 1 {
                Variant::Mmc6
            } else if sub_mapper_number == 3 {
                Variant::McAcc
            } else {
                Variant::Mmc3
            }),
            r.chr_type == chr_type,
            r.bank_mapping == (BankMapping {
                prg_mode: PrgMode::Mode0,
                chr_mode: ChrMode::Mode0,
                prg_rom_len,
                chr_len: chr_size,
                prg_bank_0: 0u8,
                prg_bank_1: 0u8,
                chr_bank_r0: 0u8,
                chr_bank_r1: 0u8,
                chr_bank_r2: 0u8,
                chr_bank_r3: 0u8,
                chr_bank_r4: 0u8,
                chr_bank_r5: 0u8,
            }),
            has_four_screen_vram ==> (r.nametable_mirroring matches
                Mmc3NametableMirroring::FourScreenVram { external_vram } && external_vram@
                == Seq::<u8>::new(4096, |i: int| 0u8)),
            !has_four_screen_vram ==> r.nametable_mirroring == Mmc3NametableMirroring::Standard(
                NametableMirroring::Vertical,
            ),
            r.bank_update_select == BankUpdate::ChrBank(0),
            r.ram_mode == RamMode::Disabled,
            !r.interrupt_flag,
            r.irq_counter == 0,
            r.irq_reload_value == 0,
            !r.irq_reload_flag,
            !r.irq_enabled,
            r.last_a12_read == 0,
            r.a12_low_cycles == 0,
            r.mc_acc_pulse_counter == ACC_COUNTER_INIT_VALUE,
    {
        let variant = if sub_mapper_number == 1 {
            Variant::Mmc6
        } else if sub_mapper_number == 3 {
            Variant::McAcc
        } else {
            Variant::Mmc3
        };
        let nametable_mirroring = if has_four_screen_vram {
            let external_vram = crate::cartridge::make_zero_vec(4096);
            proof {
                assert(external_vram@ =~= Seq::<u8>::new(4096, |i: int| 0u8));
            }
            Mmc3NametableMirroring::FourScreenVram { external_vram }
        } else {
            Mmc3NametableMirroring::Standard(NametableMirroring::Vertical)
        };
        Self {
            variant,
            chr_type,
            bank_mapping: BankMapping::new(prg_rom_len, chr_size),
            nametable_mirroring,
            bank_update_select: BankUpdate::ChrBank(0),
            ram_mode: RamMode::Disabled,
            interrupt_flag: false,
            irq_counter: 0,
            irq_reload_value: 0,
            irq_reload_flag: false,
            irq_enabled: false,
            last_a12_read: 0,
            a12_low_cycles: 0,
            mc_acc_pulse_counter: ACC_COUNTER_INIT_VALUE,
        }
    }
}

/// One step of the scanline counter: reload when empty or flagged, else
/// count down; the interrupt is raised whenever the counter sits at zero
/// with interrupts enabled.
pub open spec fn spec_clock_irq(d: Mmc3) -> Mmc3 {
    let reloaded = if d.irq_counter == 0 || d.irq_reload_flag {
        Mmc3 { irq_counter: d.irq_reload_value, irq_reload_flag: false, ..d }
    } else {
        Mmc3 { irq_counter: (d.irq_counter - 1) as u8, ..d }
    };
    if reloaded.irq_counter == 0 && reloaded.irq_enabled {
        Mmc3 { interrupt_flag: true, ..reloaded }
    } else {
        reloaded
    }
}

/// The state after observing PPU bus address `address`: the base parts
/// clock on a debounced rising edge of address bit 12; the falling-edge
/// variant counts falling edges and clocks every eighth one.
pub open spec fn spec_observe_a12(d: Mmc3, address: u16) -> Mmc3 {
    let a12 = address & 0x1000;
    let stepped = if d.variant == Variant::McAcc {
        if a12 == 0 && d.last_a12_read != 0 {
            let pulses = (d.mc_acc_pulse_counter + 1) as u8;
            if pulses == 8 {
                Mmc3 { mc_acc_pulse_counter: 0, ..spec_clock_irq(d) }
            } else {
                Mmc3 { mc_acc_pulse_counter: pulses, ..d }
            }
        } else {
            d
        }
    } else {
        if a12 != 0 && d.last_a12_read == 0 && d.a12_low_cycles >= 10 {
            spec_clock_irq(d)
        } else {
            d
        }
    };
    Mmc3 { last_a12_read: a12, ..stepped }
}

/// The state after the per-cycle tick: the bus address is observed, and
/// the count of consecutive low cycles of address bit 12 advances.
pub open spec fn spec_mmc3_tick(d: Mmc3, ppu_bus_address: u16) -> Mmc3 {
    let observed = spec_observe_a12(d, ppu_bus_address);
    let low_cycles: u32 = if observed.last_a12_read == 0 {
        if observed.a12_low_cycles < 0xFFFF_FFFF {
            (observed.a12_low_cycles + 1) as u32
        } else {
            observed.a12_low_cycles
        }
    } else {
        0
    };
    Mmc3 { a12_low_cycles: low_cycles, ..observed }
}

/// The banking state after a CPU write of `value` to `address` in
/// `0x8000..=0xFFFF`.
pub open spec fn spec_control_write(d: Mmc3, address: u16, value: u8) -> Mmc3 {
    if address < 0xA000 {
        if address & 0x01 == 0 {
            let with_banks = Mmc3 {
                bank_mapping: BankMapping {
                    chr_mode: if value & 0x80 != 0 {
                        ChrMode::Mode1
                    } else {
                        ChrMode::Mode0
                    },
                    prg_mode: if value & 0x40 != 0 {
                        PrgMode::Mode1
                    } else {
                        PrgMode::Mode0
                    },
                    ..d.bank_mapping
                },
                bank_update_select: if value & 0x07 == 0x06 {
                    BankUpdate::PrgBank0
                } else if value & 0x07 == 0x07 {
                    BankUpdate::PrgBank1
                } else {
                    BankUpdate::ChrBank((value & 0x07) as u8)
                },
                ..d
            };
            if d.variant == Variant::Mmc6 {
                if value & 0x20 == 0 {
                    Mmc3 { ram_mode: RamMode::Disabled, ..with_banks }
                } else if d.ram_mode == RamMode::Disabled {
                    Mmc3 {
                        ram_mode: RamMode::Mmc6Enabled {
                            first_half_reads: false,
                            first_half_writes: false,
                            second_half_reads: false,
                            second_half_writes: false,
                        },
                        ..with_banks
                    }
                } else {
                    with_banks
                }
            } else {
                with_banks
            }
        } else {
            match d.bank_update_select {
                BankUpdate::ChrBank(chr_bank) => Mmc3 {
                    bank_mapping: d.bank_mapping.spec_with_chr_bank(chr_bank as int, value),
                    ..d
                },
                BankUpdate::PrgBank0 => Mmc3 {
                    bank_mapping: BankMapping { prg_bank_0: value, ..d.bank_mapping },
                    ..d
                },
                BankUpdate::PrgBank1 => Mmc3 {
                    bank_mapping: BankMapping { prg_bank_1: value, ..d.bank_mapping },
                    ..d
                },
            }
        }
    } else if address < 0xC000 {
        if address & 0x01 == 0 && d.nametable_mirroring is Standard {
            Mmc3 {
                nametable_mirroring: Mmc3NametableMirroring::Standard(
                    if value & 0x01 != 0 {
                        NametableMirroring::Horizontal
                    } else {
                        NametableMirroring::Vertical
                    },
                ),
                ..d
            }
        } else {
            match d.variant {
                Variant::Mmc6 => {
                    if d.ram_mode == RamMode::Disabled {
                        // ignored while RAM is disabled through the bank
                        // select register
                        d
                    } else {
                        Mmc3 {
                            ram_mode: RamMode::Mmc6Enabled {
                                first_half_writes: value & 0x10 != 0,
                                first_half_reads: value & 0x20 != 0,
                                second_half_writes: value & 0x40 != 0,
                                second_half_reads: value & 0x80 != 0,
                            },
                            ..d
                        }
                    }
                },
                Variant::Mmc3 | Variant::McAcc => {
                    Mmc3 {
                        ram_mode: if value & 0x80 == 0 {
                            RamMode::Disabled
                        } else if value & 0x40 != 0 {
                            RamMode::Mmc3WritesDisabled
                        } else {
                            RamMode::Mmc3Enabled
                        },
                        ..d
                    }
                },
            }
        }
    } else if address < 0xE000 {
        if address & 0x01 == 0 {
            Mmc3 { irq_reload_value: value, ..d }
        } else {
            Mmc3 { irq_reload_flag: true, mc_acc_pulse_counter: ACC_COUNTER_INIT_VALUE, ..d }
        }
    } else {
        if address & 0x01 == 0 {
            Mmc3 { irq_enabled: false, interrupt_flag: false, ..d }
        } else {
            Mmc3 { irq_enabled: true, ..d }
        }
    }
}

impl MapperImpl<Mmc3> {
    pub open spec fn wf(self) -> bool {
        &&& self.cartridge.wf()
        &&& chr_backing_wf(self.cartridge, self.data.chr_type)
        &&& self.data.bank_mapping.wf()
        &&& (self.data.bank_update_select matches BankUpdate::ChrBank(n) ==> n < 6)
        &&& (self.data.nametable_mirroring matches Mmc3NametableMirroring::FourScreenVram {
            external_vram,
        } ==> external_vram@.len() == 4096)
        &&& self.data.mc_acc_pulse_counter < 8
    }

    pub fn read_cpu_address(&self, address: u16) -> (r: u8)
        requires
            self.wf(),
            address >= 0x4020,
        ensures
            address < 0x6000 ==> r == 0xFF,
            0x6000 <= address < 0x8000 ==> r == if self.data.ram_mode.spec_reads_enabled(address)
                && self.cartridge.prg_ram@.len() > 0 {
                self.cartridge.spec_prg_ram_read((address & 0x1FFF) as u32)
            } else {
                0xFF
            },
            address >= 0x8000 ==> r == self.cartridge.spec_prg_rom_read(
                self.data.bank_mapping.spec_map_prg_rom_address(address),
            ),
    {
        if address < 0x6000 {
            0xFF
        } else if address < 0x8000 {
            if self.data.ram_mode.reads_enabled(address) && self.cartridge.prg_ram.len() > 0 {
                self.cartridge.get_prg_ram((address & 0x1FFF) as u32)
            } else {
                0xFF
            }
        } else {
            self.cartridge.get_prg_rom(self.data.bank_mapping.map_prg_rom_address(address))
        }
    }

    pub fn write_cpu_address(&mut self, address: u16, value: u8)
        requires
            old(self).wf(),
            address >= 0x4020,
        ensures
            final(self).wf(),
            final(self).cartridge.prg_rom@ == old(self).cartridge.prg_rom@,
            final(self).cartridge.chr_rom@ == old(self).cartridge.chr_rom@,
            final(self).cartridge.chr_ram@ == old(self).cartridge.chr_ram@,
            if 0x6000 <= address < 0x8000 {
                &&& final(self).data == old(self).data
                &&& if old(self).data.ram_mode.spec_writes_enabled(address) && old(
                    self,
                ).cartridge.prg_ram@.len() > 0 {
                    final(self).cartridge.prg_ram@ == old(self).cartridge.prg_ram@.update(
                        masked_index(old(self).cartridge.prg_ram@.len(), (address & 0x1FFF) as u32),
                        value,
                    )
                } else {
                    final(self).cartridge.prg_ram@ == old(self).cartridge.prg_ram@
                }
            } else {
                &&& final(self).cartridge.prg_ram@ == old(self).cartridge.prg_ram@
                &&& if address >= 0x8000 {
                    final(self).data == spec_control_write(old(self).data, address, value)
                } else {
                    final(self).data == old(self).data
                }
            },
    {
        if address < 0x6000 {
            // unmapped expansion area: writes are ignored
        } else if address < 0x8000 {
            if self.data.ram_mode.writes_enabled(address) && self.cartridge.prg_ram.len() > 0 {
                self.cartridge.set_prg_ram((address & 0x1FFF) as u32, value);
                proof {
                    let s0 = old(self).cartridge.prg_ram@;
                    crate::cartridge::lemma_mask_bounds((address & 0x1FFF) as u32, s0.len());
                    let i = masked_index(s0.len(), (address & 0x1FFF) as u32);
                    assert(s0.update(i, value).len() == s0.len());
                }
            }
        } else if address < 0xA000 {
            if address & 0x01 == 0 {
                self.data.bank_mapping.chr_mode = if value & 0x80 != 0 {
                    ChrMode::Mode1
                } else {
                    ChrMode::Mode0
                };
                self.data.bank_mapping.prg_mode = if value & 0x40 != 0 {
                    PrgMode::Mode1
                } else {
                    PrgMode::Mode0
                };
                proof {
                    let v = value;
                    assert((v & 0x07) < 6 || (v & 0x07) == 0x06 || (v & 0x07) == 0x07)
                        by (bit_vector);
                }
                self.data.bank_update_select = if value & 0x07 == 0x06 {
                    BankUpdate::PrgBank0
                } else if value & 0x07 == 0x07 {
                    BankUpdate::PrgBank1
                } else {
                    BankUpdate::ChrBank(value & 0x07)
                };

                if matches!(self.data.variant, Variant::Mmc6) {
                    let ram_enabled = value & 0x20 != 0;
                    if !ram_enabled {
                        self.data.ram_mode = RamMode::Disabled;
                    } else if matches!(self.data.ram_mode, RamMode::Disabled) {
                        self.data.ram_mode = RamMode::Mmc6Enabled {
                            first_half_reads: false,
                            first_half_writes: false,
                            second_half_reads: false,
                            second_half_writes: false,
                        };
                    }
                }
            } else {
                match self.data.bank_update_select {
                    BankUpdate::ChrBank(chr_bank) => {
                        if chr_bank == 0 {
                            self.data.bank_mapping.chr_bank_r0 = value;
                        } else if chr_bank == 1 {
                            self.data.bank_mapping.chr_bank_r1 = value;
                        } else if chr_bank == 2 {
                            self.data.bank_mapping.chr_bank_r2 = value;
                        } else if chr_bank == 3 {
                            self.data.bank_mapping.chr_bank_r3 = value;
                        } else if chr_bank == 4 {
                            self.data.bank_mapping.chr_bank_r4 = value;
                        } else {
                            self.data.bank_mapping.chr_bank_r5 = value;
                        }
                    },
                    BankUpdate::PrgBank0 => {
                        self.data.bank_mapping.prg_bank_0 = value;
                    },
                    BankUpdate::PrgBank1 => {
                        self.data.bank_mapping.prg_bank_1 = value;
                    },
                }
            }
        } else if address < 0xC000 {
            if address & 0x01 == 0 && matches!(
                self.data.nametable_mirroring,
                Mmc3NametableMirroring::Standard(..),
            ) {
                self.data.nametable_mirroring = Mmc3NametableMirroring::Standard(
                    if value & 0x01 != 0 {
                        NametableMirroring::Horizontal
                    } else {
                        NametableMirroring::Vertical
                    },
                );
            } else {
                match self.data.variant {
                    Variant::Mmc6 => {
                        if matches!(self.data.ram_mode, RamMode::Disabled) {
                            // ignored while RAM is disabled through the
                            // bank select register
                        } else {
                            self.data.ram_mode = RamMode::Mmc6Enabled {
                                first_half_writes: value & 0x10 != 0,
                                first_half_reads: value & 0x20 != 0,
                                second_half_writes: value & 0x40 != 0,
                                second_half_reads: value & 0x80 != 0,
                            };
                        }
                    },
                    Variant::Mmc3 | Variant::McAcc => {
                        self.data.ram_mode = if value & 0x80 == 0 {
                            RamMode::Disabled
                        } else if value & 0x40 != 0 {
                            RamMode::Mmc3WritesDisabled
                        } else {
                            RamMode::Mmc3Enabled
                        };
                    },
                }
            }
        } else if address < 0xE000 {
            if address & 0x01 == 0 {
                self.data.irq_reload_value = value;
            } else {
                self.data.irq_reload_flag = true;
                self.data.mc_acc_pulse_counter = ACC_COUNTER_INIT_VALUE;
            }
        } else {
            if address & 0x01 == 0 {
                self.data.irq_enabled = false;
                self.data.interrupt_flag = false;
            } else {
                self.data.irq_enabled = true;
            }
        }
    }

    fn clock_irq(&mut self)
        ensures
            final(self).cartridge == old(self).cartridge,
            final(self).data == spec_clock_irq(old(self).data),
    {
        if self.data.irq_counter == 0 || self.data.irq_reload_flag {
            self.data.irq_counter = self.data.irq_reload_value;
            self.data.irq_reload_flag = false;
        } else {
            self.data.irq_counter = self.data.irq_counter - 1;
        }

        if self.data.irq_counter == 0 && self.data.irq_enabled {
            self.data.interrupt_flag = true;
        }
    }

    /// Feeds one PPU bus address to the variant's edge detector.
    fn process_ppu_address(&mut self, address: u16)
        requires
            old(self).wf(),
        ensures
            final(self).wf(),
            final(self).cartridge == old(self).cartridge,
            final(self).data == spec_observe_a12(old(self).data, address),
    {
        let a12 = address & 0x1000;

        match self.data.variant {
            Variant::Mmc3 | Variant::Mmc6 => {
                if a12 != 0 && self.data.last_a12_read == 0 && self.data.a12_low_cycles >= 10 {
                    self.clock_irq();
                }
            },
            Variant::McAcc => {
                if a12 == 0 && self.data.last_a12_read != 0 {
                    self.data.mc_acc_pulse_counter = self.data.mc_acc_pulse_counter + 1;
                    if self.data.mc_acc_pulse_counter == 8 {
                        self.clock_irq();
                        self.data.mc_acc_pulse_counter = 0;
                    }
                }
            },
        }

        self.data.last_a12_read = a12;
    }

    /// The byte a PPU-space read of `address` returns, given the console's
    /// VRAM contents.
    pub open spec fn spec_ppu_read_value(self, address: u16, vram: Seq<u8>) -> u8 {
        if address < 0x2000 {
            self.data.chr_type.spec_to_map_result(
                self.data.bank_mapping.spec_map_pattern_table_address(address),
            ).spec_read(self.cartridge, vram)
        } else {
            match self.data.nametable_mirroring {
                Mmc3NametableMirroring::Standard(m) => vram[m.spec_map_to_vram(address) as int],
                Mmc3NametableMirroring::FourScreenVram { external_vram } => external_vram@[(address
                    & 0x0FFF) as int],
            }
        }
    }

    pub fn read_ppu_address(&mut self, address: u16, vram: &Vec<u8>) -> (r: u8)
        requires
            old(self).wf(),
            address <= 0x3EFF,
            vram@.len() == 2048,
        ensures
            final(self).wf(),
            *final(self) == *old(self),
            r == old(self).spec_ppu_read_value(address, vram@),
    {
        if address < 0x2000 {
            let result = self.data.chr_type.to_map_result(
                self.data.bank_mapping.map_pattern_table_address(address),
            );
            result.read(&self.cartridge, vram)
        } else {
            match &self.data.nametable_mirroring {
                Mmc3NametableMirroring::Standard(nametable_mirroring) => {
                    vram[nametable_mirroring.map_to_vram(address) as usize]
                },
                Mmc3NametableMirroring::FourScreenVram { external_vram } => {
                    proof {
                        let a = address;
                        assert(a & 0x0FFF < 4096) by (bit_vector);
                    }
                    external_vram[(address & 0x0FFF) as usize]
                },
            }
        }
    }

    pub fn write_ppu_address(&mut self, address: u16, value: u8, vram: &mut Vec<u8>)
        requires
            old(self).wf(),
            address <= 0x3EFF,
            old(vram)@.len() == 2048,
        ensures
            final(self).wf(),
            final(vram)@.len() == 2048,
            final(self).cartridge.prg_rom@ == old(self).cartridge.prg_rom@,
            final(self).cartridge.prg_ram@ == old(self).cartridge.prg_ram@,
            final(self).cartridge.chr_rom@ == old(self).cartridge.chr_rom@,
            ({
                let observed = spec_observe_a12(old(self).data, address);
                if address < 0x2000 {
                    let target = old(self).data.chr_type.spec_to_map_result(
                        old(self).data.bank_mapping.spec_map_pattern_table_address(address),
                    );
                    &&& final(self).data == observed
                    &&& final(vram)@ == old(vram)@
                    &&& match target {
                        PpuMapResult::ChrRAM(a) => final(self).cartridge.chr_ram@ == old(
                            self,
                        ).cartridge.chr_ram@.update(
                            masked_index(old(self).cartridge.chr_ram@.len(), a),
                            value,
                        ),
                        _ => final(self).cartridge.chr_ram@ == old(self).cartridge.chr_ram@,
                    }
                } else {
                    &&& final(self).cartridge.chr_ram@ == old(self).cartridge.chr_ram@
                    &&& match (old(self).data.nametable_mirroring, final(self).data.nametable_mirroring) {
                        (
                            Mmc3NametableMirroring::Standard(m),
                            Mmc3NametableMirroring::Standard(m2),
                        ) => {
                            &&& m2 == m
                            &&& final(self).data == (Mmc3 {
                                nametable_mirroring: final(self).data.nametable_mirroring,
                                ..observed
                            })
                            &&& final(vram)@ == old(vram)@.update(
                                m.spec_map_to_vram(address) as int,
                                value,
                            )
                        },
                        (
                            Mmc3NametableMirroring::FourScreenVram { external_vram: v0 },
                            Mmc3NametableMirroring::FourScreenVram { external_vram: v1 },
                        ) => {
                            &&& v1@ == v0@.update((address & 0x0FFF) as int, value)
                            &&& final(self).data == (Mmc3 {
                                nametable_mirroring: final(self).data.nametable_mirroring,
                                ..observed
                            })
                            &&& final(vram)@ == old(vram)@
                        },
                        _ => false,
                    }
                }
            }),
    {
        self.process_ppu_address(address);

        if address < 0x2000 {
            let result = self.data.chr_type.to_map_result(
                self.data.bank_mapping.map_pattern_table_address(address),
            );
            result.write(value, &mut self.cartridge, vram);
            proof {
                if let PpuMapResult::ChrRAM(a) = result {
                    let s0 = old(self).cartridge.chr_ram@;
                    crate::cartridge::lemma_mask_bounds(a, s0.len());
                    let i = masked_index(s0.len(), a);
                    assert(s0.update(i, value).len() == s0.len());
                }
            }
        } else {
            match &mut self.data.nametable_mirroring {
                Mmc3NametableMirroring::Standard(nametable_mirroring) => {
                    let idx = nametable_mirroring.map_to_vram(address);
                    vram[idx as usize] = value;
                },
                Mmc3NametableMirroring::FourScreenVram { external_vram } => {
                    proof {
                        let a = address;
                        assert(a & 0x0FFF < 4096) by (bit_vector);
                    }
                    external_vram[(address & 0x0FFF) as usize] = value;
                },
            }
        }
    }

    pub fn interrupt_flag(&self) -> (r: bool)
        ensures
            r == self.data.interrupt_flag,
    {
        self.data.interrupt_flag
    }

    /// Per-bus-cycle hook: observes the current PPU bus address and counts
    /// consecutive cycles with address bit 12 low.
    pub fn tick(&mut self, ppu_bus_address: u16)
        requires
            old(self).wf(),
        ensures
            final(self).wf(),
            final(self).cartridge == old(self).cartridge,
            final(self).data == spec_mmc3_tick(old(self).data, ppu_bus_address),
    {
        self.process_ppu_address(ppu_bus_address);

        if self.data.last_a12_read == 0 {
            if self.data.a12_low_cycles < 0xFFFF_FFFF {
                self.data.a12_low_cycles = self.data.a12_low_cycles + 1;
            }
        } else {
            self.data.a12_low_cycles = 0;
        }
    }

    pub fn name(&self) -> (r: &'static str)
        ensures
            self.data.variant == Variant::Mmc3 ==> r@ == "MMC3"@,
            self.data.variant == Variant::Mmc6 ==> r@ == "MMC6"@,
            self.data.variant == Variant::McAcc ==> r@ == "MMC3 (MC-ACC variant)"@,
    {
        self.data.variant.name()
    }
}

} // verus!
