use vstd::prelude::*;

use crate::arch::Reg;
use crate::exceptions::Exception;

verus! {

pub const RI_MODE_REG_START: usize = 0x00000000;
pub const RI_MODE_REG_END: usize = 0x00000003;
pub const RI_CONFIG_REG_START: usize = 0x00000004;
pub const RI_CONFIG_REG_END: usize = 0x00000007;
pub const RI_CURRENT_LOAD_REG_START: usize = 0x00000008;
pub const RI_CURRENT_LOAD_REG_END: usize = 0x0000000B;
pub const RI_SELECT_REG_START: usize = 0x0000000C;
pub const RI_SELECT_REG_END: usize = 0x0000000F;
pub const RI_REFRESH_REG_START: usize = 0x00000010;
pub const RI_REFRESH_REG_END: usize = 0x00000013;
pub const RI_LATENCY_REG_START: usize = 0x00000014;
pub const RI_LATENCY_REG_END: usize = 0x00000017;
pub const RI_RERROR_REG_START: usize = 0x00000018;
pub const RI_RERROR_REG_END: usize = 0x0000001B;
pub const RI_WERROR_REG_START: usize = 0x0000001C;
pub const RI_WERROR_REG_END: usize = 0x0000001F;

/// Registers of the RDRAM interface.
pub struct RDRAMInterface {
    pub mode: Reg,
    pub config: Reg,
    pub current_load: Reg,
    pub select: Reg,
    pub refresh: Reg,
    pub latency: Reg,
    pub read_error: Reg,
    pub write_error: Reg,
}

impl RDRAMInterface {
    /// What a word read at `address` (relative to the block) returns.
    pub open spec fn read_spec(self, address: usize) -> Result<u32, Exception> {
        if address % 4 != 0 {
            Err(Exception::ADDRESS_ERROR)
        } else if RI_MODE_REG_START <= address <= RI_MODE_REG_END {
            Ok(self.mode.value as u32)
        } else if RI_CONFIG_REG_START <= address <= RI_CONFIG_REG_END {
            Ok(self.config.value as u32)
        } else if RI_CURRENT_LOAD_REG_START <= address <= RI_CURRENT_LOAD_REG_END {
            Ok(self.current_load.value as u32)
        } else if RI_SELECT_REG_START <= address <= RI_SELECT_REG_END {
            Ok(self.select.value as u32)
        } else if RI_REFRESH_REG_START <= address <= RI_REFRESH_REG_END {
            Ok(self.refresh.value as u32)
        } else if RI_LATENCY_REG_START <= address <= RI_LATENCY_REG_END {
            Ok(self.latency.value as u32)
        } else if RI_RERROR_REG_START <= address <= RI_RERROR_REG_END {
            Ok(self.read_error.value as u32)
        } else if RI_WERROR_REG_START <= address <= RI_WERROR_REG_END {
            Ok(self.write_error.value as u32)
        } else {
            Err(Exception::UNIMPLEMENTED_ADDRESS)
        }
    }

    /// Whether a word write at `address` is accepted.
    pub open spec fn write_result(address: usize) -> Result<(), Exception> {
        if address % 4 != 0 {
            Err(Exception::ADDRESS_ERROR)
        } else if address <= RI_WERROR_REG_END {
            Ok(())
        } else {
            Err(Exception::UNIMPLEMENTED_ADDRESS)
        }
    }

    /// The block after an accepted word write of `value` at `address`.
    pub open spec fn written(self, address: usize, value: u32) -> RDRAMInterface {
        if RI_MODE_REG_START <= address <= RI_MODE_REG_END {
            RDRAMInterface { mode: self.mode.with_value(value as u64), ..self }
        } else if RI_CONFIG_REG_START <= address <= RI_CONFIG_REG_END {
            RDRAMInterface { config: self.config.with_value(value as u64), ..self }
        } else if RI_CURRENT_LOAD_REG_START <= address <= RI_CURRENT_LOAD_REG_END {
            RDRAMInterface { current_load: self.current_load.with_value(value as u64), ..self }
        } else if RI_SELECT_REG_START <= address <= RI_SELECT_REG_END {
            RDRAMInterface { select: self.select.with_value(value as u64), ..self }
        } else if RI_REFRESH_REG_START <= address <= RI_REFRESH_REG_END {
            RDRAMInterface { refresh: self.refresh.with_value(value as u64), ..self }
        } else if RI_LATENCY_REG_START <= address <= RI_LATENCY_REG_END {
            RDRAMInterface { latency: self.latency.with_value(value as u64), ..self }
        } else if RI_RERROR_REG_START <= address <= RI_RERROR_REG_END {
            RDRAMInterface { read_error: self.read_error.with_value(value as u64), ..self }
        } else if RI_WERROR_REG_START <= address <= RI_WERROR_REG_END {
            RDRAMInterface { write_error: self.write_error.with_value(value as u64), ..self }
        } else {
            self
        }
    }

    /// Every register is as it is at power-on.
    pub open spec fn is_reset(self) -> bool {
        &&& self.mode == Reg::default_spec()
        &&& self.config == Reg::default_spec()
        &&& self.current_load == Reg::default_spec()
        &&& self.select == Reg::default_spec()
        &&& self.refresh == Reg::default_spec()
        &&& self.latency == Reg::default_spec()
        &&& self.read_error == Reg::default_spec()
        &&& self.write_error == Reg::default_spec()
    }

    pub fn new() -> (r: RDRAMInterface)
        ensures
            r.is_reset(),
    {
        RDRAMInterface {
            mode: Reg::default(),
            config: Reg::default(),
            current_load: Reg::default(),
            select: Reg::default(),
            refresh: Reg::default(),
            latency: Reg::default(),
            read_error: Reg::default(),
            write_error: Reg::default(),
        }
    }

    pub fn read_u32_from_address(&self, address: usize) -> (r: Result<u32, Exception>)
        ensures
            r == self.read_spec(address),
    {
        if address % 4 != 0 {
            return Err(Exception::ADDRESS_ERROR);
        }
        if address <= RI_MODE_REG_END {
            Ok(self.mode.get_value() as u32)
        } else if address <= RI_CONFIG_REG_END {
            Ok(self.config.get_value() as u32)
        } else if address <= RI_CURRENT_LOAD_REG_END {
            Ok(self.current_load.get_value() as u32)
        } else if address <= RI_SELECT_REG_END {
            Ok(self.select.get_value() as u32)
        } else if address <= RI_REFRESH_REG_END {
            Ok(self.refresh.get_value() as u32)
        } else if address <= RI_LATENCY_REG_END {
            Ok(self.latency.get_value() as u32)
        } else if address <= RI_RERROR_REG_END {
            Ok(self.read_error.get_value() as u32)
        } else if address <= RI_WERROR_REG_END {
            Ok(self.write_error.get_value() as u32)
        } else {
            Err(Exception::UNIMPLEMENTED_ADDRESS)
        }
    }

    pub fn load_u32_to_address(&mut self, address: usize, value: u32) -> (r: Result<(), Exception>)
        ensures
            r == Self::write_result(address),
            r is Ok ==> *final(self) == old(self).written(address, value),
            r is Err ==> *final(self) == *old(self),
            r is Ok && old(self).read_spec(address) is Ok ==> final(self).read_spec(address) == Ok::<u32, Exception>(value),
    {
        if address % 4 != 0 {
            return Err(Exception::ADDRESS_ERROR);
        }
        if address <= RI_MODE_REG_END {
            self.mode.set_u32(value);
            Ok(())
        } else if address <= RI_CONFIG_REG_END {
            self.config.set_u32(value);
            Ok(())
        } else if address <= RI_CURRENT_LOAD_REG_END {
            self.current_load.set_u32(value);
            Ok(())
        } else if address <= RI_SELECT_REG_END {
            self.select.set_u32(value);
            Ok(())
        } else if address <= RI_REFRESH_REG_END {
            self.refresh.set_u32(value);
            Ok(())
        } else if address <= RI_LATENCY_REG_END {
            self.latency.set_u32(value);
            Ok(())
        } else if address <= RI_RERROR_REG_END {
            self.read_error.set_u32(value);
            Ok(())
        } else if address <= RI_WERROR_REG_END {
            self.write_error.set_u32(value);
            Ok(())
        } else {
            Err(Exception::UNIMPLEMENTED_ADDRESS)
        }
    }
}

} // verus!
