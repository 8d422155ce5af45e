use n64_core::memory::{MemoryMapping, Sector};

const RDRAM_MEM_START: u32 = 0x00000000;
const RDRAM_MEM_END: u32 = 0x03EFFFFF;
const RDRAM_REG_START: u32 = 0x03F00000;
const RDRAM_REG_END: u32 = 0x03FFFFFF;
const SP_REG_START: u32 = 0x04000000;
const SP_REG_END: u32 = 0x040FFFFF;
const DP_COMMAND_REG_START: u32 = 0x04100000;
const DP_COMMAND_REG_END: u32 = 0x041FFFFF;
const DP_SPAN_REG_START: u32 = 0x04200000;
const DP_SPAN_REG_END: u32 = 0x042FFFFF;
const MI_REG_START: u32 = 0x04300000;
const MI_REG_END: u32 = 0x043FFFFF;
const VI_REG_START: u32 = 0x04400000;
const VI_REG_END: u32 = 0x044FFFFF;
const AI_REG_START: u32 = 0x04500000;
const AI_REG_END: u32 = 0x045FFFFF;
const PI_REG_START: u32 = 0x04600000;
const PI_REG_END: u32 = 0x046FFFFF;
const RI_REG_START: u32 = 0x04700000;
const RI_REG_END: u32 = 0x047FFFFF;
const SI_REG_START: u32 = 0x04800000;
const SI_REG_END: u32 = 0x048FFFFF;
const UNUSED_START: u32 = 0x04900000;
const UNUSED_END: u32 = 0x04FFFFFF;
const CD_2_ADDR_1_START: u32 = 0x05000000;
const CD_2_ADDR_1_END: u32 = 0x05FFFFFF;
const CD_1_ADDR_1_START: u32 = 0x06000000;
const CD_1_ADDR_1_END: u32 = 0x07FFFFFF;
const CD_2_ADDR_2_START: u32 = 0x08000000;
const CD_2_ADDR_2_END: u32 = 0x0FFFFFFF;
const CD_1_ADDR_2_START: u32 = 0x10000000;
const CD_1_ADDR_2_END: u32 = 0x1FBFFFFF;
const PIF_BOOT_ROM_START: u32 = 0x1FC00000;
const PIF_BOOT_ROM_END: u32 = 0x1FC007BF;
const PIF_RAM_START: u32 = 0x1FC007C0;
const PIF_RAM_END: u32 = 0x1FC007FF;
const RESERVED_START: u32 = 0x1FC00800;
const RESERVED_END: u32 = 0x1FCFFFFF;
const CD_1_ADDR_3_START: u32 = 0x1FD00000;
const CD_1_ADDR_3_END: u32 = 0x7FFFFFFF;
const KSEG0_START: u32 = 0x80000000;
const KSEG0_END: u32 = 0x9FFFFFFF;
const KSEG1_START: u32 = 0xA0000000;
const KSEG1_END: u32 = 0xBFFFFFFF;

const BOUNDARIES: [u32; 42] = [
    RDRAM_MEM_START, RDRAM_MEM_END, RDRAM_REG_START, RDRAM_REG_END, SP_REG_START, SP_REG_END,
    DP_COMMAND_REG_START, DP_COMMAND_REG_END, DP_SPAN_REG_START, DP_SPAN_REG_END, MI_REG_START,
    MI_REG_END, VI_REG_START, VI_REG_END, AI_REG_START, AI_REG_END, PI_REG_START, PI_REG_END,
    RI_REG_START, RI_REG_END, SI_REG_START, SI_REG_END, UNUSED_START, UNUSED_END, CD_2_ADDR_1_START,
    CD_2_ADDR_1_END, CD_1_ADDR_1_START, CD_1_ADDR_1_END, CD_2_ADDR_2_START, CD_2_ADDR_2_END,
    CD_1_ADDR_2_START, CD_1_ADDR_2_END, PIF_BOOT_ROM_START, PIF_BOOT_ROM_END, PIF_RAM_START, PIF_RAM_END,
    RESERVED_START, RESERVED_END, CD_1_ADDR_3_START, CD_1_ADDR_3_END, KSEG0_START, KSEG1_START,
];

fn expected_sector(address: u32) -> Sector {
    match address {
        RDRAM_MEM_START..=RDRAM_MEM_END => Sector::RDRAM_MEM,
        RDRAM_REG_START..=RDRAM_REG_END => Sector::RDRAM_REG,
        SP_REG_START..=SP_REG_END => Sector::SP_REG,
        DP_COMMAND_REG_START..=DP_COMMAND_REG_END => Sector::DP_COMMAND_REG,
        DP_SPAN_REG_START..=DP_SPAN_REG_END => Sector::DP_SPAN_REG,
        MI_REG_START..=MI_REG_END => Sector::MI_REG,
        VI_REG_START..=VI_REG_END => Sector::VI_REG,
        AI_REG_START..=AI_REG_END => Sector::AI_REG,
        PI_REG_START..=PI_REG_END => Sector::PI_REG,
        RI_REG_START..=RI_REG_END => Sector::RI_REG,
        SI_REG_START..=SI_REG_END => Sector::SI_REG,
        UNUSED_START..=UNUSED_END => Sector::UNUSED,
        CD_2_ADDR_1_START..=CD_2_ADDR_1_END => Sector::CD_2_ADDR_1,
        CD_1_ADDR_1_START..=CD_1_ADDR_1_END => Sector::CD_1_ADDR_1,
        CD_2_ADDR_2_START..=CD_2_ADDR_2_END => Sector::CD_2_ADDR_2,
        CD_1_ADDR_2_START..=CD_1_ADDR_2_END => Sector::CD_1_ADDR_2,
        PIF_BOOT_ROM_START..=PIF_BOOT_ROM_END => Sector::PIF_BOOT_ROM,
        PIF_RAM_START..=PIF_RAM_END => Sector::PIF_RAM,
        RESERVED_START..=RESERVED_END => Sector::RESERVED,
        CD_1_ADDR_3_START..=CD_1_ADDR_3_END => Sector::CD_1_ADDR_3,
        _ => Sector::EXT_SYSAD_DEV,
    }
}

fn check_address(address: u32) {
    let mapping = MemoryMapping::new(address);
    match address {
        KSEG0_START..=KSEG0_END => {
            let m = mapping.unwrap();
            assert_eq!(m.sector, expected_sector(address - KSEG0_START));
        }
        KSEG1_START..=KSEG1_END => {
            let m = mapping.unwrap();
            assert_eq!(m.sector, expected_sector(address - KSEG1_START));
        }
        0xC0000000..=0xFFFFFFFF => assert!(mapping.is_err()),
        _ => assert_eq!(mapping.unwrap().sector, expected_sector(address)),
    }
}

#[test]
fn memory_mapping_gives_propper_sector() {
    for address in (0x00000000_u64..0x100000000_u64).step_by(0x100) {
        check_address(address as u32);
        check_address((address + 0xFF) as u32);
    }
    for b in BOUNDARIES.iter() {
        check_address(*b);
        check_address(b.wrapping_sub(1));
        check_address(b.wrapping_add(1));
    }
}
