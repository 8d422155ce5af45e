use vstd::prelude::*;

use crate::binary_helpers::{copy_range, u8_slice_to_u16, u8_slice_to_u32, u8_vector_to_u32_vector, word_at};

verus! {

/// Size of the header and boot code at the start of a cartridge image.
pub const ROM_HEADER_SIZE: usize = 0x1000;

/// The big-endian half-word stored in `s` at `loc .. loc + 2`.
pub open spec fn half_at(s: Seq<u8>, loc: int) -> u16 {
    ((s[loc] as u16) << 8u16) | (s[loc + 1] as u16)
}

/// The fields of a cartridge header.
pub struct RomHeader {
    pub pi_reg_initializers: Vec<u8>,
    pub clock_rate: u32,
    pub program_counter: u32,
    pub release: u32,
    pub crc1: u32,
    pub crc2: u32,
    pub image_name: Vec<u8>,
    pub manufacturer_id: u32,
    pub cartridge_id: u16,
    pub country_code: u16,
    pub boot_code: Vec<u32>,
}

impl RomHeader {
    /// `self` holds the header read from the bytes `d`.
    pub open spec fn parsed_from(self, d: Seq<u8>) -> bool {
        &&& self.pi_reg_initializers@ == d.subrange(0x0, 0x4)
        &&& self.clock_rate == word_at(d, 0x4)
        &&& self.program_counter == word_at(d, 0x8)
        &&& self.release == word_at(d, 0xC)
        &&& self.crc1 == word_at(d, 0x10)
        &&& self.crc2 == word_at(d, 0x14)
        &&& self.image_name@ == d.subrange(0x20, 0x34)
        &&& self.manufacturer_id == word_at(d, 0x38)
        &&& self.cartridge_id == half_at(d, 0x3C)
        &&& self.country_code == half_at(d, 0x3E)
        &&& self.boot_code.len() == (ROM_HEADER_SIZE - 0x40) / 4
        &&& forall|i: int| 0 <= i < self.boot_code.len() ==> #[trigger] self.boot_code@[i] == word_at(d, 0x40 + 4 * i)
    }

    pub fn new(header_data: Vec<u8>) -> (r: RomHeader)
        requires
            header_data.len() >= ROM_HEADER_SIZE,
        ensures
            r.parsed_from(header_data@),
    {
        let boot = copy_range(&header_data, 0x40, ROM_HEADER_SIZE);
        let boot_code = u8_vector_to_u32_vector(boot);
        let r = RomHeader {
            pi_reg_initializers: copy_range(&header_data, 0x0, 0x4),
            clock_rate: u8_slice_to_u32(copy_range(&header_data, 0x4, 0x8)),
            program_counter: u8_slice_to_u32(copy_range(&header_data, 0x8, 0xC)),
            release: u8_slice_to_u32(copy_range(&header_data, 0xC, 0x10)),
            crc1: u8_slice_to_u32(copy_range(&header_data, 0x10, 0x14)),
            crc2: u8_slice_to_u32(copy_range(&header_data, 0x14, 0x18)),
            image_name: copy_range(&header_data, 0x20, 0x34),
            manufacturer_id: u8_slice_to_u32(copy_range(&header_data, 0x38, 0x3C)),
            cartridge_id: u8_slice_to_u16(copy_range(&header_data, 0x3C, 0x3E)),
            country_code: u8_slice_to_u16(copy_range(&header_data, 0x3E, 0x40)),
            boot_code: boot_code,
        };
        assert forall|i: int| 0 <= i < r.boot_code.len() implies #[trigger] r.boot_code@[i] == word_at(
            header_data@,
            0x40 + 4 * i,
        ) by {
            assert(word_at(boot@, 4 * i) == word_at(header_data@, 0x40 + 4 * i));
        }
        r
    }
}

/// A cartridge image and its parsed header.
pub struct Rom {
    pub rom_data: Vec<u8>,
    pub rom_header: RomHeader,
}

impl Rom {
    /// Takes the bytes of a cartridge image; its first `ROM_HEADER_SIZE`
    /// bytes are the header.
    pub fn new(rom_data: Vec<u8>) -> (r: Rom)
        requires
            rom_data.len() >= ROM_HEADER_SIZE,
        ensures
            r.rom_data@ == rom_data@,
            r.rom_header.parsed_from(rom_data@),
    {
        let header = RomHeader::new(copy_range(&rom_data, 0, ROM_HEADER_SIZE));
        let r = Rom { rom_data: rom_data, rom_header: header };
        assert forall|i: int| 0 <= i < r.rom_header.boot_code.len() implies #[trigger] r.rom_header.boot_code@[i]
            == word_at(r.rom_data@, 0x40 + 4 * i) by {
            assert(0x40 + 4 * i + 3 < ROM_HEADER_SIZE);
        }
        assert(r.rom_header.pi_reg_initializers@ =~= r.rom_data@.subrange(0x0, 0x4));
        assert(r.rom_header.image_name@ =~= r.rom_data@.subrange(0x20, 0x34));
        r
    }

    /// An empty image with an all-zero header, for running code that never
    /// touches the cartridge.
    pub fn test() -> (r: Rom)
        ensures
            r.rom_data.len() == 0,
            r.rom_header.parsed_from(Seq::new(ROM_HEADER_SIZE as nat, |i: int| 0u8)),
    {
        let zeros: Vec<u8> = vec![0u8; ROM_HEADER_SIZE];
        assert(zeros@ =~= Seq::new(ROM_HEADER_SIZE as nat, |i: int| 0u8));
        let header = RomHeader::new(zeros);
        Rom { rom_data: Vec::new(), rom_header: header }
    }
}

} // verus!
