use vstd::prelude::*;

use crate::exceptions::Exception;

verus! {

pub const RDRAM_MEM_START: u32 = 0x00000000;
pub const RDRAM_MEM_END: u32 = 0x03EFFFFF;
pub const RDRAM_REG_START: u32 = 0x03F00000;
pub const RDRAM_REG_END: u32 = 0x03FFFFFF;
pub const SP_REG_START: u32 = 0x04000000;
pub const SP_REG_END: u32 = 0x040FFFFF;
pub const DP_COMMAND_REG_START: u32 = 0x04100000;
pub const DP_COMMAND_REG_END: u32 = 0x041FFFFF;
pub const DP_SPAN_REG_START: u32 = 0x04200000;
pub const DP_SPAN_REG_END: u32 = 0x042FFFFF;
pub const MI_REG_START: u32 = 0x04300000;
pub const MI_REG_END: u32 = 0x043FFFFF;
pub const VI_REG_START: u32 = 0x04400000;
pub const VI_REG_END: u32 = 0x044FFFFF;
pub const AI_REG_START: u32 = 0x04500000;
pub const AI_REG_END: u32 = 0x045FFFFF;
pub const PI_REG_START: u32 = 0x04600000;
pub const PI_REG_END: u32 = 0x046FFFFF;
pub const RI_REG_START: u32 = 0x04700000;
pub const RI_REG_END: u32 = 0x047FFFFF;
pub const SI_REG_START: u32 = 0x04800000;
pub const SI_REG_END: u32 = 0x048FFFFF;
pub const UNUSED_START: u32 = 0x04900000;
pub const UNUSED_END: u32 = 0x04FFFFFF;
pub const CD_2_ADDR_1_START: u32 = 0x05000000;
pub const CD_2_ADDR_1_END: u32 = 0x05FFFFFF;
pub const CD_1_ADDR_1_START: u32 = 0x06000000;
pub const CD_1_ADDR_1_END: u32 = 0x07FFFFFF;
pub const CD_2_ADDR_2_START: u32 = 0x08000000;
pub const CD_2_ADDR_2_END: u32 = 0x0FFFFFFF;
pub const CD_1_ADDR_2_START: u32 = 0x10000000;
pub const CD_1_ADDR_2_END: u32 = 0x1FBFFFFF;
pub const PIF_BOOT_ROM_START: u32 = 0x1FC00000;
pub const PIF_BOOT_ROM_END: u32 = 0x1FC007BF;
pub const PIF_RAM_START: u32 = 0x1FC007C0;
pub const PIF_RAM_END: u32 = 0x1FC007FF;
pub const RESERVED_START: u32 = 0x1FC00800;
pub const RESERVED_END: u32 = 0x1FCFFFFF;
pub const CD_1_ADDR_3_START: u32 = 0x1FD00000;
pub const CD_1_ADDR_3_END: u32 = 0x7FFFFFFF;
pub const EXT_SYSAD_DEV_START: u32 = 0x80000000;
pub const EXT_SYSAD_DEV_END: u32 = 0xFFFFFFFF;

pub const KSEG0_START: u32 = 0x80000000;
pub const KSEG0_END: u32 = 0x9FFFFFFF;
pub const KSEG1_START: u32 = 0xA0000000;
pub const KSEG1_END: u32 = 0xBFFFFFFF;

/// The named windows of the 32-bit physical address space.
#[derive(Debug, PartialEq, Eq, Structural, Copy, Clone)]
#[allow(non_camel_case_types)]
pub enum Sector {
    RDRAM_MEM,
    RDRAM_REG,
    SP_REG,
    DP_COMMAND_REG,
    DP_SPAN_REG,
    MI_REG,
    VI_REG,
    AI_REG,
    PI_REG,
    RI_REG,
    SI_REG,
    UNUSED,
    CD_2_ADDR_1,
    CD_1_ADDR_1,
    CD_2_ADDR_2,
    CD_1_ADDR_2,
    PIF_BOOT_ROM,
    PIF_RAM,
    RESERVED,
    CD_1_ADDR_3,
    EXT_SYSAD_DEV,
}

/// First address of a sector.
pub open spec fn sector_start(s: Sector) -> u32 {
    match s {
        Sector::RDRAM_MEM => RDRAM_MEM_START,
        Sector::RDRAM_REG => RDRAM_REG_START,
        Sector::SP_REG => SP_REG_START,
        Sector::DP_COMMAND_REG => DP_COMMAND_REG_START,
        Sector::DP_SPAN_REG => DP_SPAN_REG_START,
        Sector::MI_REG => MI_REG_START,
        Sector::VI_REG => VI_REG_START,
        Sector::AI_REG => AI_REG_START,
        Sector::PI_REG => PI_REG_START,
        Sector::RI_REG => RI_REG_START,
        Sector::SI_REG => SI_REG_START,
        Sector::UNUSED => UNUSED_START,
        Sector::CD_2_ADDR_1 => CD_2_ADDR_1_START,
        Sector::CD_1_ADDR_1 => CD_1_ADDR_1_START,
        Sector::CD_2_ADDR_2 => CD_2_ADDR_2_START,
        Sector::CD_1_ADDR_2 => CD_1_ADDR_2_START,
        Sector::PIF_BOOT_ROM => PIF_BOOT_ROM_START,
        Sector::PIF_RAM => PIF_RAM_START,
        Sector::RESERVED => RESERVED_START,
        Sector::CD_1_ADDR_3 => CD_1_ADDR_3_START,
        Sector::EXT_SYSAD_DEV => EXT_SYSAD_DEV_START,
    }
}

/// Last address of a sector.
pub open spec fn sector_end(s: Sector) -> u32 {
    match s {
        Sector::RDRAM_MEM => RDRAM_MEM_END,
        Sector::RDRAM_REG => RDRAM_REG_END,
        Sector::SP_REG => SP_REG_END,
        Sector::DP_COMMAND_REG => DP_COMMAND_REG_END,
        Sector::DP_SPAN_REG => DP_SPAN_REG_END,
        Sector::MI_REG => MI_REG_END,
        Sector::VI_REG => VI_REG_END,
        Sector::AI_REG => AI_REG_END,
        Sector::PI_REG => PI_REG_END,
        Sector::RI_REG => RI_REG_END,
        Sector::SI_REG => SI_REG_END,
        Sector::UNUSED => UNUSED_END,
        Sector::CD_2_ADDR_1 => CD_2_ADDR_1_END,
        Sector::CD_1_ADDR_1 => CD_1_ADDR_1_END,
        Sector::CD_2_ADDR_2 => CD_2_ADDR_2_END,
        Sector::CD_1_ADDR_2 => CD_1_ADDR_2_END,
        Sector::PIF_BOOT_ROM => PIF_BOOT_ROM_END,
        Sector::PIF_RAM => PIF_RAM_END,
        Sector::RESERVED => RESERVED_END,
        Sector::CD_1_ADDR_3 => CD_1_ADDR_3_END,
        Sector::EXT_SYSAD_DEV => EXT_SYSAD_DEV_END,
    }
}

/// The sector that holds address `a`.
pub open spec fn sector_of(a: u32) -> Sector {
    if a <= RDRAM_MEM_END {
        Sector::RDRAM_MEM
    } else if a <= RDRAM_REG_END {
        Sector::RDRAM_REG
    } else if a <= SP_REG_END {
        Sector::SP_REG
    } else if a <= DP_COMMAND_REG_END {
        Sector::DP_COMMAND_REG
    } else if a <= DP_SPAN_REG_END {
        Sector::DP_SPAN_REG
    } else if a <= MI_REG_END {
        Sector::MI_REG
    } else if a <= VI_REG_END {
        Sector::VI_REG
    } else if a <= AI_REG_END {
        Sector::AI_REG
    } else if a <= PI_REG_END {
        Sector::PI_REG
    } else if a <= RI_REG_END {
        Sector::RI_REG
    } else if a <= SI_REG_END {
        Sector::SI_REG
    } else if a <= UNUSED_END {
        Sector::UNUSED
    } else if a <= CD_2_ADDR_1_END {
        Sector::CD_2_ADDR_1
    } else if a <= CD_1_ADDR_1_END {
        Sector::CD_1_ADDR_1
    } else if a <= CD_2_ADDR_2_END {
        Sector::CD_2_ADDR_2
    } else if a <= CD_1_ADDR_2_END {
        Sector::CD_1_ADDR_2
    } else if a <= PIF_BOOT_ROM_END {
        Sector::PIF_BOOT_ROM
    } else if a <= PIF_RAM_END {
        Sector::PIF_RAM
    } else if a <= RESERVED_END {
        Sector::RESERVED
    } else if a <= CD_1_ADDR_3_END {
        Sector::CD_1_ADDR_3
    } else {
        Sector::EXT_SYSAD_DEV
    }
}

/// The sectors partition the address space: every address lies in the
/// sector `sector_of` names, and in no other.
pub proof fn lemma_sectors_partition(a: u32)
    ensures
        sector_start(sector_of(a)) <= a <= sector_end(sector_of(a)),
        forall|s: Sector| #[trigger] sector_start(s) <= a <= sector_end(s) ==> s == sector_of(a),
{
}

/// Where an access to `address` goes: the owning sector and the offset within
/// it. Addresses of the extended window are first reduced by the base of the
/// two supported kernel segments; the other two segments are not supported.
pub open spec fn map_address(address: u32) -> Result<(Sector, u32), Exception> {
    if sector_of(address) != Sector::EXT_SYSAD_DEV {
        Ok((sector_of(address), (address - sector_start(sector_of(address))) as u32))
    } else if address <= KSEG0_END {
        let reduced = (address - KSEG0_START) as u32;
        Ok((sector_of(reduced), (reduced - sector_start(sector_of(reduced))) as u32))
    } else if address <= KSEG1_END {
        let reduced = (address - KSEG1_START) as u32;
        Ok((sector_of(reduced), (reduced - sector_start(sector_of(reduced))) as u32))
    } else {
        Err(Exception::UNIMPLEMENTED_ADDRESS)
    }
}

/// A resolved bus address.
pub struct MemoryMapping {
    pub address: u32,
    pub mapped_address: u32,
    pub sector: Sector,
}

impl MemoryMapping {
    pub fn new(address: u32) -> (r: Result<MemoryMapping, Exception>)
        ensures
            match map_address(address) {
                Ok((s, off)) => r matches Ok(m) && m.address == address && m.sector == s
                    && m.mapped_address == off,
                Err(e) => r == Err::<MemoryMapping, Exception>(e),
            },
    {
        let mut sector = identify_sector(address).unwrap();
        let mut base: u32 = address;
        if sector == Sector::EXT_SYSAD_DEV {
            if address <= KSEG0_END {
                base = address - KSEG0_START;
            } else if address <= KSEG1_END {
                base = address - KSEG1_START;
            } else {
                return Err(Exception::UNIMPLEMENTED_ADDRESS);
            }
            sector = identify_sector(base).unwrap();
        }
        proof {
            lemma_sectors_partition(base);
        }
        let info = sector.SectorInformation();
        Ok(MemoryMapping { address: address, mapped_address: base - info.sector_start, sector: sector })
    }
}

impl Sector {
    #[allow(non_snake_case)]
    pub fn SectorInformation(self) -> (r: SectorInformation)
        ensures
            r.sector_start == sector_start(self),
            r.sector_end == sector_end(self),
    {
        match self {
            Sector::RDRAM_MEM => SectorInformation::new(RDRAM_MEM_START, RDRAM_MEM_END),
            Sector::RDRAM_REG => SectorInformation::new(RDRAM_REG_START, RDRAM_REG_END),
            Sector::SP_REG => SectorInformation::new(SP_REG_START, SP_REG_END),
            Sector::DP_COMMAND_REG => SectorInformation::new(DP_COMMAND_REG_START, DP_COMMAND_REG_END),
            Sector::DP_SPAN_REG => SectorInformation::new(DP_SPAN_REG_START, DP_SPAN_REG_END),
            Sector::MI_REG => SectorInformation::new(MI_REG_START, MI_REG_END),
            Sector::VI_REG => SectorInformation::new(VI_REG_START, VI_REG_END),
            Sector::AI_REG => SectorInformation::new(AI_REG_START, AI_REG_END),
            Sector::PI_REG => SectorInformation::new(PI_REG_START, PI_REG_END),
            Sector::RI_REG => SectorInformation::new(RI_REG_START, RI_REG_END),
            Sector::SI_REG => SectorInformation::new(SI_REG_START, SI_REG_END),
            Sector::UNUSED => SectorInformation::new(UNUSED_START, UNUSED_END),
            Sector::CD_2_ADDR_1 => SectorInformation::new(CD_2_ADDR_1_START, CD_2_ADDR_1_END),
            Sector::CD_1_ADDR_1 => SectorInformation::new(CD_1_ADDR_1_START, CD_1_ADDR_1_END),
            Sector::CD_2_ADDR_2 => SectorInformation::new(CD_2_ADDR_2_START, CD_2_ADDR_2_END),
            Sector::CD_1_ADDR_2 => SectorInformation::new(CD_1_ADDR_2_START, CD_1_ADDR_2_END),
            Sector::PIF_BOOT_ROM => SectorInformation::new(PIF_BOOT_ROM_START, PIF_BOOT_ROM_END),
            Sector::PIF_RAM => SectorInformation::new(PIF_RAM_START, PIF_RAM_END),
            Sector::RESERVED => SectorInformation::new(RESERVED_START, RESERVED_END),
            Sector::CD_1_ADDR_3 => SectorInformation::new(CD_1_ADDR_3_START, CD_1_ADDR_3_END),
            Sector::EXT_SYSAD_DEV => SectorInformation::new(EXT_SYSAD_DEV_START, EXT_SYSAD_DEV_END),
        }
    }
}

/// The first and last address of a sector.
#[derive(Debug)]
pub struct SectorInformation {
    pub sector_start: u32,
    pub sector_end: u32,
}

impl SectorInformation {
    pub fn new(sector_start: u32, sector_end: u32) -> (r: SectorInformation)
        ensures
            r.sector_start == sector_start,
            r.sector_end == sector_end,
    {
        SectorInformation { sector_start: sector_start, sector_end: sector_end }
    }
}

/// The sector that holds `address`; every address has one.
pub fn identify_sector(address: u32) -> (r: Option<Sector>)
    ensures
        r == Some(sector_of(address)),
{
    if address <= RDRAM_MEM_END {
        Some(Sector::RDRAM_MEM)
    } else if address <= RDRAM_REG_END {
        Some(Sector::RDRAM_REG)
    } else if address <= SP_REG_END {
        Some(Sector::SP_REG)
    } else if address <= DP_COMMAND_REG_END {
        Some(Sector::DP_COMMAND_REG)
    } else if address <= DP_SPAN_REG_END {
        Some(Sector::DP_SPAN_REG)
    } else if address <= MI_REG_END {
        Some(Sector::MI_REG)
    } else if address <= VI_REG_END {
        Some(Sector::VI_REG)
    } else if address <= AI_REG_END {
        Some(Sector::AI_REG)
    } else if address <= PI_REG_END {
        Some(Sector::PI_REG)
    } else if address <= RI_REG_END {
        Some(Sector::RI_REG)
    } else if address <= SI_REG_END {
        Some(Sector::SI_REG)
    } else if address <= UNUSED_END {
        Some(Sector::UNUSED)
    } else if address <= CD_2_ADDR_1_END {
        Some(Sector::CD_2_ADDR_1)
    } else if address <= CD_1_ADDR_1_END {
        Some(Sector::CD_1_ADDR_1)
    } else if address <= CD_2_ADDR_2_END {
        Some(Sector::CD_2_ADDR_2)
    } else if address <= CD_1_ADDR_2_END {
        Some(Sector::CD_1_ADDR_2)
    } else if address <= PIF_BOOT_ROM_END {
        Some(Sector::PIF_BOOT_ROM)
    } else if address <= PIF_RAM_END {
        Some(Sector::PIF_RAM)
    } else if address <= RESERVED_END {
        Some(Sector::RESERVED)
    } else if address <= CD_1_ADDR_3_END {
        Some(Sector::CD_1_ADDR_3)
    } else {
        Some(Sector::EXT_SYSAD_DEV)
    }
}

} // verus!
