use vstd::prelude::*;

use crate::binary_helpers::lemma_word_round_trip;
use crate::exceptions::Exception;
use crate::icache::ICache;
use crate::memory::{map_address, MemoryMapping, Sector, RDRAM_REG_END, RDRAM_REG_START};
use crate::mips_iface::MipsInterface;
use crate::rdram::RDRAM;
use crate::rdram_iface::RDRAMInterface;
use crate::rdram_registers::RDRAMRegisters;
use crate::rom::{Rom, ROM_HEADER_SIZE};
use crate::rsp::RealitySignalProcessor;

verus! {

/// Shift that brings byte `offset` (0 = most significant) of a word to the
/// low eight bits.
pub open spec fn byte_shift(offset: u32) -> u32 {
    ((3 - offset) * 8) as u32
}

/// Byte `offset` of the word `w`, most significant first.
pub open spec fn byte_of_word(w: u32, offset: u32) -> u8 {
    ((w >> byte_shift(offset)) & 0xFF) as u8
}

/// `w` with byte `offset` replaced by `b`.
pub open spec fn merge_byte(w: u32, offset: u32, b: u8) -> u32 {
    (w & !(0xFFu32 << byte_shift(offset))) | ((b as u32) << byte_shift(offset))
}

/// The physical bus: routes word accesses to the device that owns the
/// address.
pub struct Connector {
    pub rom: Rom,
    pub mips_interface: MipsInterface,
    pub rsp: RealitySignalProcessor,
    pub rdram_iface: RDRAMInterface,
    pub rdram_registers: RDRAMRegisters,
    pub rdram: RDRAM,
    pub icache: ICache,
}

impl Connector {
    pub open spec fn wf(self) -> bool {
        &&& self.rsp.wf()
        &&& self.rdram.wf()
        &&& self.icache.wf()
    }

    /// Every device is as it is at power-on.
    pub open spec fn devices_reset(self) -> bool {
        &&& self.mips_interface.is_reset()
        &&& self.rsp.is_reset()
        &&& self.rdram_iface.is_reset()
        &&& self.rdram_registers.is_reset()
        &&& self.rdram.is_reset()
        &&& self.icache.is_reset()
    }

    /// What a word read of `address` returns.
    pub open spec fn read_spec(self, address: u32) -> Result<u32, Exception> {
        match map_address(address) {
            Err(e) => Err(e),
            Ok((sector, offset)) => match sector {
                Sector::SP_REG => self.rsp.read_spec(offset as usize),
                Sector::RI_REG => self.rdram_iface.read_spec(offset as usize),
                Sector::MI_REG => self.mips_interface.read_spec(offset as usize),
                Sector::RDRAM_REG => self.rdram_registers.read_spec(offset as usize),
                Sector::RDRAM_MEM => self.rdram.read_spec(offset as usize),
                _ => Err(Exception::UNIMPLEMENTED_ADDRESS),
            },
        }
    }

    /// Whether a word write of `address` is accepted.
    pub open spec fn store_result(address: u32) -> Result<(), Exception> {
        match map_address(address) {
            Err(e) => Err(e),
            Ok((sector, offset)) => match sector {
                Sector::SP_REG => RealitySignalProcessor::write_result(offset as usize),
                Sector::RI_REG => RDRAMInterface::write_result(offset as usize),
                Sector::MI_REG => MipsInterface::write_result(offset as usize),
                Sector::RDRAM_REG => RDRAMRegisters::write_result(offset as usize),
                Sector::RDRAM_MEM => RDRAM::write_result(offset as usize),
                _ => Err(Exception::UNIMPLEMENTED_ADDRESS),
            },
        }
    }

    /// `new` is this bus after an accepted word write of `value` at `address`:
    /// the owning device took the write and nothing else changed.
    pub open spec fn stored_by(self, new: Connector, address: u32, value: u32) -> bool {
        let (sector, offset) = map_address(address)->Ok_0;
        &&& new.rom == self.rom
        &&& new.icache == self.icache
        &&& (sector == Sector::SP_REG ==> self.rsp.written_by(new.rsp, offset as usize, value))
        &&& (sector != Sector::SP_REG ==> new.rsp == self.rsp)
        &&& (sector == Sector::RI_REG ==> new.rdram_iface == self.rdram_iface.written(offset as usize, value))
        &&& (sector != Sector::RI_REG ==> new.rdram_iface == self.rdram_iface)
        &&& (sector == Sector::MI_REG ==> new.mips_interface == self.mips_interface.written(offset as usize, value))
        &&& (sector != Sector::MI_REG ==> new.mips_interface == self.mips_interface)
        &&& (sector == Sector::RDRAM_REG ==> new.rdram_registers == self.rdram_registers.written(offset as usize, value))
        &&& (sector != Sector::RDRAM_REG ==> new.rdram_registers == self.rdram_registers)
        &&& (sector == Sector::RDRAM_MEM ==> self.rdram.written_by(new.rdram, offset as usize, value))
        &&& (sector != Sector::RDRAM_MEM ==> new.rdram == self.rdram)
    }

    /// `new` is this bus after the instruction-cache line that
    /// `virtual_address` selects got the tag `value`.
    pub open spec fn tag_set_by(self, new: Connector, virtual_address: u32, value: u32) -> bool {
        &&& new.rom == self.rom
        &&& new.mips_interface == self.mips_interface
        &&& new.rsp == self.rsp
        &&& new.rdram_iface == self.rdram_iface
        &&& new.rdram_registers == self.rdram_registers
        &&& new.rdram == self.rdram
        &&& self.icache.tag_set_by(new.icache, virtual_address, value)
    }

    /// What a byte read of `address` returns: the byte of the containing
    /// word.
    pub open spec fn read_u8_spec(self, address: u32) -> Result<u8, Exception> {
        match self.read_spec((address - address % 4) as u32) {
            Ok(w) => Ok(byte_of_word(w, address % 4)),
            Err(e) => Err(e),
        }
    }

    /// Builds the bus around a cartridge image of at least
    /// `ROM_HEADER_SIZE` bytes.
    pub fn new(rom_data: Vec<u8>) -> (r: Connector)
        requires
            rom_data.len() >= ROM_HEADER_SIZE,
        ensures
            r.wf(),
            r.rom.rom_data@ == rom_data@,
            r.rom.rom_header.parsed_from(rom_data@),
            r.devices_reset(),
    {
        Connector {
            rom: Rom::new(rom_data),
            mips_interface: MipsInterface::new(),
            rsp: RealitySignalProcessor::new(),
            rdram_iface: RDRAMInterface::new(),
            rdram_registers: RDRAMRegisters::new(),
            rdram: RDRAM::new(),
            icache: ICache::new(),
        }
    }

    /// A bus with an empty cartridge.
    pub fn test() -> (r: Connector)
        ensures
            r.wf(),
            r.rom.rom_data.len() == 0,
            r.devices_reset(),
    {
        Connector {
            rom: Rom::test(),
            mips_interface: MipsInterface::new(),
            rsp: RealitySignalProcessor::new(),
            rdram_iface: RDRAMInterface::new(),
            rdram_registers: RDRAMRegisters::new(),
            rdram: RDRAM::new(),
            icache: ICache::new(),
        }
    }

    pub fn read_u32(&self, address: u32) -> (r: Result<u32, Exception>)
        requires
            self.wf(),
        ensures
            r == self.read_spec(address),
    {
        let mapping = MemoryMapping::new(address)?;
        let offset = mapping.mapped_address as usize;
        match mapping.sector {
            Sector::SP_REG => self.rsp.read_u32_from_address(offset),
            Sector::RI_REG => self.rdram_iface.read_u32_from_address(offset),
            Sector::MI_REG => self.mips_interface.read_u32_from_address(offset),
            Sector::RDRAM_REG => self.rdram_registers.read_u32_from_address(offset),
            Sector::RDRAM_MEM => self.rdram.read_u32_from_address(offset),
            _ => Err(Exception::UNIMPLEMENTED_ADDRESS),
        }
    }

    /// Reads one byte through a read of the word that holds it.
    pub fn read_u8(&self, address: u32) -> (r: Result<u8, Exception>)
        requires
            self.wf(),
        ensures
            r == self.read_u8_spec(address),
    {
        let offset = address % 4;
        let word = self.read_u32(address - offset)?;
        Ok(((word >> ((3 - offset) * 8)) & 0xFF) as u8)
    }

    pub fn store_u32(&mut self, address: u32, value: u32) -> (r: Result<(), Exception>)
        requires
            old(self).wf(),
        ensures
            final(self).wf(),
            r == Self::store_result(address),
            r is Ok ==> old(self).stored_by(*final(self), address, value),
            r is Err ==> *final(self) == *old(self),
            r is Ok && old(self).read_spec(address) is Ok ==> final(self).read_spec(address) == Ok::<
                u32,
                Exception,
            >(value),
    {
        let mapping = MemoryMapping::new(address)?;
        let offset = mapping.mapped_address as usize;
        match mapping.sector {
            Sector::SP_REG => self.rsp.load_u32_to_address(offset, value),
            Sector::RI_REG => self.rdram_iface.load_u32_to_address(offset, value),
            Sector::MI_REG => self.mips_interface.load_u32_to_address(offset, value),
            Sector::RDRAM_REG => self.rdram_registers.load_u32_to_address(offset, value),
            Sector::RDRAM_MEM => self.rdram.load_u32_to_address(offset, value),
            _ => Err(Exception::UNIMPLEMENTED_ADDRESS),
        }
    }

    /// Writes one byte by reading the word that holds it, merging the byte
    /// in, and writing the word back.
    pub fn store_u8(&mut self, address: u32, value: u8) -> (r: Result<(), Exception>)
        requires
            old(self).wf(),
        ensures
            final(self).wf(),
            ({
                let aligned = (address - address % 4) as u32;
                match old(self).read_spec(aligned) {
                    Err(e) => r == Err::<(), Exception>(e) && *final(self) == *old(self),
                    Ok(w) => {
                        &&& r == Self::store_result(aligned)
                        &&& r is Ok ==> old(self).stored_by(*final(self), aligned, merge_byte(w, address % 4, value))
                        &&& r is Err ==> *final(self) == *old(self)
                    },
                }
            }),
    {
        let offset = address % 4;
        let aligned = address - offset;
        let word = self.read_u32(aligned)?;
        let shift = (3 - offset) * 8;
        self.store_u32(aligned, (word & !(0xFFu32 << shift)) | ((value as u32) << shift))
    }
}

} // verus!

verus! {

/// The devices that the bus forwards accesses to.
pub open spec fn is_routed(s: Sector) -> bool {
    match s {
        Sector::SP_REG | Sector::RI_REG | Sector::MI_REG | Sector::RDRAM_REG | Sector::RDRAM_MEM => true,
        _ => false,
    }
}

/// Round trip: once a word write through the bus has been accepted, a read
/// of the same address returns the word written, wherever that address could
/// be read before.
pub proof fn lemma_bus_round_trip(old: Connector, new: Connector, address: u32, value: u32)
    requires
        old.wf(),
        Connector::store_result(address) is Ok,
        old.stored_by(new, address, value),
        old.read_spec(address) is Ok,
    ensures
        new.read_spec(address) == Ok::<u32, Exception>(value),
{
    lemma_word_round_trip(value);
}

/// An address in the RDRAM register window goes to that window, at its
/// distance from the window's start.
pub proof fn lemma_rdram_register_routing(address: u32)
    requires
        RDRAM_REG_START <= address <= RDRAM_REG_END,
    ensures
        map_address(address) == Ok::<(Sector, u32), Exception>((Sector::RDRAM_REG, (address - RDRAM_REG_START) as u32)),
{
}

/// An access to a sector that no device serves fails with an
/// unimplemented-address fault, reads and writes alike.
pub proof fn lemma_unrouted_address_fails(c: Connector, address: u32)
    requires
        map_address(address) is Ok,
        !is_routed(map_address(address)->Ok_0.0),
    ensures
        c.read_spec(address) == Err::<u32, Exception>(Exception::UNIMPLEMENTED_ADDRESS),
        Connector::store_result(address) == Err::<(), Exception>(Exception::UNIMPLEMENTED_ADDRESS),
{
}

} // verus!
