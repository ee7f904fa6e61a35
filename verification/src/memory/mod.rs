//! The 64 KiB address space: RAM at the bottom, program ROM in the upper half.
//!
//! The model of a memory is the map from each mapped address to the byte it
//! holds. An address outside both regions is never read nor written: every
//! accessor asks its caller for a mapped address.

use vstd::prelude::*;

pub mod constant;

verus! {

/// The key into the address space.
pub type Address = u16;

/// A region of the address space together with an offset into it.
#[derive(Debug, Clone, Copy, PartialEq, Eq, Structural)]
pub enum Location {
    ProgramRom(Address),
    Ram(Address),
}

/// Whether `address` falls into RAM or program ROM.
pub open spec fn is_mapped(address: Address) -> bool {
    address < constant::RAM_END || address >= constant::PROGRAM_ROM_START
}

/// The region and offset that a mapped address stands for.
pub open spec fn region_of(address: Address) -> Location {
    if address < constant::RAM_END {
        Location::Ram((address - constant::RAM_START) as Address)
    } else {
        Location::ProgramRom((address - constant::PROGRAM_ROM_START) as Address)
    }
}

/// The address that follows `address`, wrapping from 0xFFFF to 0x0000.
pub open spec fn following(address: Address) -> Address {
    if address == 0xFFFF {
        0
    } else {
        (address + 1) as Address
    }
}

/// The 16-bit value whose low byte is `low` and whose high byte is `high`.
pub open spec fn word_of(low: u8, high: u8) -> u16 {
    (high * 256 + low) as u16
}

/// The low byte of a 16-bit value.
pub open spec fn low_byte(word: u16) -> u8 {
    (word % 256) as u8
}

/// The high byte of a 16-bit value.
pub open spec fn high_byte(word: u16) -> u8 {
    (word / 256) as u8
}

/// The little-endian 16-bit value that `bytes` holds at `address` and at the
/// address after it.
pub open spec fn word_in(bytes: Map<Address, u8>, address: Address) -> u16 {
    word_of(bytes[address], bytes[following(address)])
}

/// `bytes` with `word` stored little-endian at `address`.
pub open spec fn with_word(bytes: Map<Address, u8>, address: Address, word: u16) -> Map<
    Address,
    u8,
> {
    bytes.insert(address, low_byte(word)).insert(following(address), high_byte(word))
}

/// Writing a 16-bit value and reading it back at the same address yields
/// the value written.
pub proof fn lemma_write_u16_read_u16(bytes: Map<Address, u8>, address: Address, word: u16)
    ensures
        word_in(with_word(bytes, address, word), address) == word,
{
}

/// The memory of the NES: plain storage, with no effect on reading.
#[derive(Debug)]
pub struct Nes {
    pub program_rom: [u8; 0x8000],
    pub ram: [u8; 0x0800],
}

impl View for Nes {
    type V = Map<Address, u8>;

    /// The byte held at each mapped address.
    open spec fn view(&self) -> Map<Address, u8> {
        Map::new(|address: Address| is_mapped(address), |address: Address| self.byte_at(address))
    }
}

impl Nes {
    /// The byte stored for `address`; meaningful for mapped addresses only.
    pub open spec fn byte_at(&self, address: Address) -> u8 {
        match region_of(address) {
            Location::Ram(offset) => self.ram@[offset as int],
            Location::ProgramRom(offset) => self.program_rom@[offset as int],
        }
    }

    /// Whether `address` falls into RAM or program ROM.
    pub fn maps(address: Address) -> (mapped: bool)
        ensures
            mapped == is_mapped(address),
    {
        address < constant::RAM_END || address >= constant::PROGRAM_ROM_START
    }

    /// Classifies an address into its region.
    pub fn resolve_address(address: Address) -> (location: Location)
        requires
            is_mapped(address),
        ensures
            location == region_of(address),
    {
        if address < constant::RAM_END {
            Location::Ram(address - constant::RAM_START)
        } else {
            Location::ProgramRom(address - constant::PROGRAM_ROM_START)
        }
    }

    /// Reads the byte at `addr`.
    pub fn read(&self, addr: u16) -> (data: u8)
        requires
            is_mapped(addr),
        ensures
            data == self@[addr],
    {
        self[addr]
    }

    /// Writes `data` at `addr`; every other byte stays.
    pub fn write(&mut self, addr: u16, data: u8)
        requires
            is_mapped(addr),
        ensures
            final(self)@ == old(self)@.insert(addr, data),
    {
        match Self::resolve_address(addr) {
            Location::Ram(offset) => {
                self.ram[offset as usize] = data;
            },
            Location::ProgramRom(offset) => {
                self.program_rom[offset as usize] = data;
            },
        }
        assert(self@ =~= old(self)@.insert(addr, data));
    }

    /// Reads the little-endian 16-bit value whose low byte is at `addr`.
    pub fn read_u16(&self, addr: u16) -> (data: u16)
        requires
            is_mapped(addr),
            is_mapped(following(addr)),
        ensures
            data == word_in(self@, addr),
    {
        let low = self.read(addr);
        let high = self.read(addr.wrapping_add(1));
        (high as u16) * 256 + (low as u16)
    }

    /// Writes `data` little-endian: the low byte at `addr`, the high byte
    /// at the address after it.
    pub fn write_u16(&mut self, addr: u16, data: u16)
        requires
            is_mapped(addr),
            is_mapped(following(addr)),
        ensures
            final(self)@ == with_word(old(self)@, addr, data),
    {
        let low = (data % 256) as u8;
        let high = (data / 256) as u8;
        self.write(addr, low);
        self.write(addr.wrapping_add(1), high);
    }
}

impl core::ops::Index<Address> for Nes {
    type Output = u8;

    /// The byte at a mapped address.
    fn index(&self, address: Address) -> (output: &u8)
        ensures
            *output == self@[address],
    {
        match Self::resolve_address(address) {
            Location::Ram(offset) => &self.ram[offset as usize],
            Location::ProgramRom(offset) => &self.program_rom[offset as usize],
        }
    }
}

impl vstd::std_specs::core::IndexSpecImpl<Address> for Nes {
    open spec fn index_req(&self, index: &Address) -> bool {
        is_mapped(*index)
    }
}

impl Default for Nes {
    /// A memory that holds zero everywhere.
    fn default() -> (memory: Self)
        ensures
            memory@ == Map::new(|address: Address| is_mapped(address), |address: Address| 0u8),
    {
        let memory = Nes { program_rom: [0u8; 0x8000], ram: [0u8; 0x0800] };
        assert forall|address: Address| is_mapped(address) implies memory.byte_at(address)
            == 0 by {
            match region_of(address) {
                Location::Ram(offset) => {
                    assert(memory.ram@[offset as int] == 0);
                },
                Location::ProgramRom(offset) => {
                    assert(memory.program_rom@[offset as int] == 0);
                },
            }
        }
        assert(memory@ =~= Map::new(
            |address: Address| is_mapped(address),
            |address: Address| 0u8,
        ));
        memory
    }
}

} // verus!
