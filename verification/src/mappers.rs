//! Bank-size arithmetic shared by the switchable-bank mappers, and the
//! extended scanline-counter mapper family.

pub mod mmc3;

use vstd::prelude::*;

verus! {

/// Size of one switchable bank window.
#[derive(Debug, Clone, Copy, PartialEq, Eq, Structural)]
pub enum BankSizeKb {
    One,
    Two,
    Eight,
}

impl BankSizeKb {
    /// Bits of address covered by one bank.
    pub open spec fn spec_shift(self) -> u32 {
        match self {
            BankSizeKb::One => 10,
            BankSizeKb::Two => 11,
            BankSizeKb::Eight => 13,
        }
    }

    /// Mask selecting the in-bank part of an address.
    pub open spec fn spec_address_mask(self) -> u16 {
        match self {
            BankSizeKb::One => 0x03FF,
            BankSizeKb::Two => 0x07FF,
            BankSizeKb::Eight => 0x1FFF,
        }
    }

    pub open spec fn spec_to_absolute_address(self, bank_number: u32, address: u16) -> u32 {
        ((bank_number << self.spec_shift()) | ((address & self.spec_address_mask()) as u32)) as u32
    }

    /// Absolute offset of `address` within bank `bank_number`.
    pub fn to_absolute_address(self, bank_number: u32, address: u16) -> (r: u32)
        requires
            bank_number < 0x40000,
        ensures
            r == self.spec_to_absolute_address(bank_number, address),
    {
        let shift: u32 = match self {
            BankSizeKb::One => 10,
            BankSizeKb::Two => 11,
            BankSizeKb::Eight => 13,
        };
        let mask: u16 = match self {
            BankSizeKb::One => 0x03FF,
            BankSizeKb::Two => 0x07FF,
            BankSizeKb::Eight => 0x1FFF,
        };
        (bank_number << shift) | ((address & mask) as u32)
    }

    pub open spec fn spec_to_absolute_address_from_end(
        self,
        inverse_bank_number: u32,
        total_size: u32,
        address: u16,
    ) -> u32 {
        (((total_size - (inverse_bank_number << self.spec_shift())) as u32) | ((address
            & self.spec_address_mask()) as u32)) as u32
    }

    /// Absolute offset of `address` within the bank `inverse_bank_number`
    /// windows from the end of the region.
    pub fn to_absolute_address_from_end(
        self,
        inverse_bank_number: u32,
        total_size: u32,
        address: u16,
    ) -> (r: u32)
        requires
            inverse_bank_number < 0x40000,
            (inverse_bank_number << self.spec_shift()) <= total_size,
        ensures
            r == self.spec_to_absolute_address_from_end(inverse_bank_number, total_size, address),
    {
        let shift: u32 = match self {
            BankSizeKb::One => 10,
            BankSizeKb::Two => 11,
            BankSizeKb::Eight => 13,
        };
        let mask: u16 = match self {
            BankSizeKb::One => 0x03FF,
            BankSizeKb::Two => 0x07FF,
            BankSizeKb::Eight => 0x1FFF,
        };
        let relative_address = total_size - (inverse_bank_number << shift);
        relative_address | ((address & mask) as u32)
    }

    /// Absolute offset of `address` within the last bank of the region.
    pub fn to_absolute_address_last_bank(self, total_size: u32, address: u16) -> (r: u32)
        requires
            (1u32 << self.spec_shift()) <= total_size,
        ensures
            r == self.spec_to_absolute_address_from_end(1, total_size, address),
    {
        self.to_absolute_address_from_end(1, total_size, address)
    }
}

} // verus!
