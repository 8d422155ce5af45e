use vstd::prelude::*;

use crate::arch::Reg;
use crate::exceptions::Exception;

verus! {

pub const RDRAM_CONFIG_REG_START: usize = 0x00000000;
pub const RDRAM_CONFIG_REG_END: usize = 0x00000003;
pub const RDRAM_DEVICE_ID_REG_START: usize = 0x00000004;
pub const RDRAM_DEVICE_ID_REG_END: usize = 0x00000007;
pub const RDRAM_DELAY_REG_START: usize = 0x00000008;
pub const RDRAM_DELAY_REG_END: usize = 0x0000000B;
pub const RDRAM_MODE_REG_START: usize = 0x0000000C;
pub const RDRAM_MODE_REG_END: usize = 0x0000000F;
pub const RDRAM_REF_INTERVAL_REG_START: usize = 0x00000010;
pub const RDRAM_REF_INTERVAL_REG_END: usize = 0x00000013;
pub const RDRAM_REF_ROW_REG_START: usize = 0x00000014;
pub const RDRAM_REF_ROW_REG_END: usize = 0x00000017;
pub const RDRAM_RAS_INTERVAL_REG_START: usize = 0x00000018;
pub const RDRAM_RAS_INTERVAL_REG_END: usize = 0x0000001B;
pub const RDRAM_MIN_INTERVAL_REG_START: usize = 0x0000001C;
pub const RDRAM_MIN_INTERVAL_REG_END: usize = 0x0000001F;
pub const RDRAM_ADDR_SELECT_REG_START: usize = 0x00000020;
pub const RDRAM_ADDR_SELECT_REG_END: usize = 0x00000023;
pub const RDRAM_DEVICE_MANUF_REG_START: usize = 0x00000024;
pub const RDRAM_DEVICE_MANUF_REG_END: usize = 0x00000027;

/// Configuration registers of the RDRAM modules. Writes to a few
/// broadcast addresses are accepted and have no effect.
pub struct RDRAMRegisters {
    pub config: Reg,
    pub device_id: Reg,
    pub delay: Reg,
    pub mode: Reg,
    pub ref_interval: Reg,
    pub ref_row: Reg,
    pub ras_interval: Reg,
    pub min_interval: Reg,
    pub address_select: Reg,
    pub device_manufacturer: Reg,
}

impl RDRAMRegisters {
    /// What a word read at `address` (relative to the block) returns.
    pub open spec fn read_spec(self, address: usize) -> Result<u32, Exception> {
        if address % 4 != 0 {
            Err(Exception::ADDRESS_ERROR)
        } else if RDRAM_CONFIG_REG_START <= address <= RDRAM_CONFIG_REG_END {
            Ok(self.config.value as u32)
        } else if RDRAM_DEVICE_ID_REG_START <= address <= RDRAM_DEVICE_ID_REG_END {
            Ok(self.device_id.value as u32)
        } else if RDRAM_DELAY_REG_START <= address <= RDRAM_DELAY_REG_END {
            Ok(self.delay.value as u32)
        } else if RDRAM_MODE_REG_START <= address <= RDRAM_MODE_REG_END {
            Ok(self.mode.value as u32)
        } else if RDRAM_REF_INTERVAL_REG_START <= address <= RDRAM_REF_INTERVAL_REG_END {
            Ok(self.ref_interval.value as u32)
        } else if RDRAM_REF_ROW_REG_START <= address <= RDRAM_REF_ROW_REG_END {
            Ok(self.ref_row.value as u32)
        } else if RDRAM_RAS_INTERVAL_REG_START <= address <= RDRAM_RAS_INTERVAL_REG_END {
            Ok(self.ras_interval.value as u32)
        } else if RDRAM_MIN_INTERVAL_REG_START <= address <= RDRAM_MIN_INTERVAL_REG_END {
            Ok(self.min_interval.value as u32)
        } else if RDRAM_ADDR_SELECT_REG_START <= address <= RDRAM_ADDR_SELECT_REG_END {
            Ok(self.address_select.value as u32)
        } else if RDRAM_DEVICE_MANUF_REG_START <= address <= RDRAM_DEVICE_MANUF_REG_END {
            Ok(self.device_manufacturer.value as u32)
        } else {
            Err(Exception::UNIMPLEMENTED_ADDRESS)
        }
    }

    /// Whether a word write at `address` is accepted.
    pub open spec fn write_result(address: usize) -> Result<(), Exception> {
        if address % 4 != 0 {
            Err(Exception::ADDRESS_ERROR)
        } else if address <= RDRAM_DEVICE_MANUF_REG_END || address == 0x00004004 || address == 0x00008004 || address == 0x00080004 || address == 0x00080008 || address == 0x0008000C || address == 0x00080014 {
            Ok(())
        } else {
            Err(Exception::UNIMPLEMENTED_ADDRESS)
        }
    }

    /// The block after an accepted word write of `value` at `address`.
    pub open spec fn written(self, address: usize, value: u32) -> RDRAMRegisters {
        if RDRAM_CONFIG_REG_START <= address <= RDRAM_CONFIG_REG_END {
            RDRAMRegisters { config: self.config.with_value(value as u64), ..self }
        } else if RDRAM_DEVICE_ID_REG_START <= address <= RDRAM_DEVICE_ID_REG_END {
            RDRAMRegisters { device_id: self.device_id.with_value(value as u64), ..self }
        } else if RDRAM_DELAY_REG_START <= address <= RDRAM_DELAY_REG_END {
            RDRAMRegisters { delay: self.delay.with_value(value as u64), ..self }
        } else if RDRAM_MODE_REG_START <= address <= RDRAM_MODE_REG_END {
            RDRAMRegisters { mode: self.mode.with_value(value as u64), ..self }
        } else if RDRAM_REF_INTERVAL_REG_START <= address <= RDRAM_REF_INTERVAL_REG_END {
            RDRAMRegisters { ref_interval: self.ref_interval.with_value(value as u64), ..self }
        } else if RDRAM_REF_ROW_REG_START <= address <= RDRAM_REF_ROW_REG_END {
            RDRAMRegisters { ref_row: self.ref_row.with_value(value as u64), ..self }
        } else if RDRAM_RAS_INTERVAL_REG_START <= address <= RDRAM_RAS_INTERVAL_REG_END {
            RDRAMRegisters { ras_interval: self.ras_interval.with_value(value as u64), ..self }
        } else if RDRAM_MIN_INTERVAL_REG_START <= address <= RDRAM_MIN_INTERVAL_REG_END {
            RDRAMRegisters { min_interval: self.min_interval.with_value(value as u64), ..self }
        } else if RDRAM_ADDR_SELECT_REG_START <= address <= RDRAM_ADDR_SELECT_REG_END {
            RDRAMRegisters { address_select: self.address_select.with_value(value as u64), ..self }
        } else if RDRAM_DEVICE_MANUF_REG_START <= address <= RDRAM_DEVICE_MANUF_REG_END {
            RDRAMRegisters { device_manufacturer: self.device_manufacturer.with_value(value as u64), ..self }
        } else {
            self
        }
    }

    /// Every register is as it is at power-on.
    pub open spec fn is_reset(self) -> bool {
        &&& self.config == Reg::default_spec()
        &&& self.device_id == Reg::default_spec()
        &&& self.delay == Reg::default_spec()
        &&& self.mode == Reg::default_spec()
        &&& self.ref_interval == Reg::default_spec()
        &&& self.ref_row == Reg::default_spec()
        &&& self.ras_interval == Reg::default_spec()
        &&& self.min_interval == Reg::default_spec()
        &&& self.address_select == Reg::default_spec()
        &&& self.device_manufacturer == Reg::default_spec()
    }

    pub fn new() -> (r: RDRAMRegisters)
        ensures
            r.is_reset(),
    {
        RDRAMRegisters {
            config: Reg::default(),
            device_id: Reg::default(),
            delay: Reg::default(),
            mode: Reg::default(),
            ref_interval: Reg::default(),
            ref_row: Reg::default(),
            ras_interval: Reg::default(),
            min_interval: Reg::default(),
            address_select: Reg::default(),
            device_manufacturer: Reg::default(),
        }
    }

    pub fn read_u32_from_address(&self, address: usize) -> (r: Result<u32, Exception>)
        ensures
            r == self.read_spec(address),
    {
        if address % 4 != 0 {
            return Err(Exception::ADDRESS_ERROR);
        }
        if address <= RDRAM_CONFIG_REG_END {
            Ok(self.config.get_value() as u32)
        } else if address <= RDRAM_DEVICE_ID_REG_END {
            Ok(self.device_id.get_value() as u32)
        } else if address <= RDRAM_DELAY_REG_END {
            Ok(self.delay.get_value() as u32)
        } else if address <= RDRAM_MODE_REG_END {
            Ok(self.mode.get_value() as u32)
        } else if address <= RDRAM_REF_INTERVAL_REG_END {
            Ok(self.ref_interval.get_value() as u32)
        } else if address <= RDRAM_REF_ROW_REG_END {
            Ok(self.ref_row.get_value() as u32)
        } else if address <= RDRAM_RAS_INTERVAL_REG_END {
            Ok(self.ras_interval.get_value() as u32)
        } else if address <= RDRAM_MIN_INTERVAL_REG_END {
            Ok(self.min_interval.get_value() as u32)
        } else if address <= RDRAM_ADDR_SELECT_REG_END {
            Ok(self.address_select.get_value() as u32)
        } else if address <= RDRAM_DEVICE_MANUF_REG_END {
            Ok(self.device_manufacturer.get_value() as u32)
        } else {
            Err(Exception::UNIMPLEMENTED_ADDRESS)
        }
    }

    pub fn load_u32_to_address(&mut self, address: usize, value: u32) -> (r: Result<(), Exception>)
        ensures
            r == Self::write_result(address),
            r is Ok ==> *final(self) == old(self).written(address, value),
            r is Err ==> *final(self) == *old(self),
            r is Ok && old(self).read_spec(address) is Ok ==> final(self).read_spec(address) == Ok::<u32, Exception>(value),
    {
        if address % 4 != 0 {
            return Err(Exception::ADDRESS_ERROR);
        }
        if address <= RDRAM_CONFIG_REG_END {
            self.config.set_u32(value);
            Ok(())
        } else if address <= RDRAM_DEVICE_ID_REG_END {
            self.device_id.set_u32(value);
            Ok(())
        } else if address <= RDRAM_DELAY_REG_END {
            self.delay.set_u32(value);
            Ok(())
        } else if address <= RDRAM_MODE_REG_END {
            self.mode.set_u32(value);
            Ok(())
        } else if address <= RDRAM_REF_INTERVAL_REG_END {
            self.ref_interval.set_u32(value);
            Ok(())
        } else if address <= RDRAM_REF_ROW_REG_END {
            self.ref_row.set_u32(value);
            Ok(())
        } else if address <= RDRAM_RAS_INTERVAL_REG_END {
            self.ras_interval.set_u32(value);
            Ok(())
        } else if address <= RDRAM_MIN_INTERVAL_REG_END {
            self.min_interval.set_u32(value);
            Ok(())
        } else if address <= RDRAM_ADDR_SELECT_REG_END {
            self.address_select.set_u32(value);
            Ok(())
        } else if address <= RDRAM_DEVICE_MANUF_REG_END {
            self.device_manufacturer.set_u32(value);
            Ok(())
        } else if address == 0x00004004 || address == 0x00008004 || address == 0x00080004 || address == 0x00080008 || address == 0x0008000C || address == 0x00080014 {
            Ok(())
        } else {
            Err(Exception::UNIMPLEMENTED_ADDRESS)
        }
    }
}

} // verus!
