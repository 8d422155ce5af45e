use vstd::prelude::*;

use crate::arch::Reg;
use crate::exceptions::Exception;

verus! {

pub const MI_INIT_MODE_REG_START: usize = 0x00000000;
pub const MI_INIT_MODE_REG_END: usize = 0x00000003;
pub const MI_VERSION_REG_START: usize = 0x00000004;
pub const MI_VERSION_REG_END: usize = 0x00000007;
pub const MI_INTR_REG_START: usize = 0x00000008;
pub const MI_INTR_REG_END: usize = 0x0000000B;
pub const MI_INTR_MASK_REG_START: usize = 0x0000000C;
pub const MI_INTR_MASK_REG_END: usize = 0x0000000F;

/// Interrupt and mode registers of the MIPS interface.
pub struct MipsInterface {
    pub init_mod: Reg,
    pub version: Reg,
    pub interrupt: Reg,
    pub interrupt_mask: Reg,
}

impl MipsInterface {
    /// What a word read at `address` (relative to the block) returns.
    pub open spec fn read_spec(self, address: usize) -> Result<u32, Exception> {
        if address % 4 != 0 {
            Err(Exception::ADDRESS_ERROR)
        } else if MI_INIT_MODE_REG_START <= address <= MI_INIT_MODE_REG_END {
            Ok(self.init_mod.value as u32)
        } else if MI_VERSION_REG_START <= address <= MI_VERSION_REG_END {
            Ok(self.version.value as u32)
        } else if MI_INTR_REG_START <= address <= MI_INTR_REG_END {
            Ok(self.interrupt.value as u32)
        } else if MI_INTR_MASK_REG_START <= address <= MI_INTR_MASK_REG_END {
            Ok(self.interrupt_mask.value as u32)
        } else {
            Err(Exception::UNIMPLEMENTED_ADDRESS)
        }
    }

    /// Whether a word write at `address` is accepted.
    pub open spec fn write_result(address: usize) -> Result<(), Exception> {
        if address % 4 != 0 {
            Err(Exception::ADDRESS_ERROR)
        } else if address <= MI_INTR_MASK_REG_END {
            Ok(())
        } else {
            Err(Exception::UNIMPLEMENTED_ADDRESS)
        }
    }

    /// The block after an accepted word write of `value` at `address`.
    pub open spec fn written(self, address: usize, value: u32) -> MipsInterface {
        if MI_INIT_MODE_REG_START <= address <= MI_INIT_MODE_REG_END {
            MipsInterface { init_mod: self.init_mod.with_value(value as u64), ..self }
        } else if MI_VERSION_REG_START <= address <= MI_VERSION_REG_END {
            MipsInterface { version: self.version.with_value(value as u64), ..self }
        } else if MI_INTR_REG_START <= address <= MI_INTR_REG_END {
            MipsInterface { interrupt: self.interrupt.with_value(value as u64), ..self }
        } else if MI_INTR_MASK_REG_START <= address <= MI_INTR_MASK_REG_END {
            MipsInterface { interrupt_mask: self.interrupt_mask.with_value(value as u64), ..self }
        } else {
            self
        }
    }

    /// Every register is as it is at power-on.
    pub open spec fn is_reset(self) -> bool {
        &&& self.init_mod == Reg::default_spec()
        &&& self.version == Reg::default_spec()
        &&& self.interrupt == Reg::default_spec()
        &&& self.interrupt_mask == Reg::default_spec()
    }

    pub fn new() -> (r: MipsInterface)
        ensures
            r.is_reset(),
    {
        MipsInterface {
            init_mod: Reg::default(),
            version: Reg::default(),
            interrupt: Reg::default(),
            interrupt_mask: Reg::default(),
        }
    }

    /// Writes the version register as the boot ROM leaves it.
    pub fn set_pif_rom_values(&mut self)
        ensures
            *final(self) == (MipsInterface { version: old(self).version.with_value(0x01010101), ..*old(self) }),
    {
        self.version.set_u32(0x01010101);
    }

    pub fn read_u32_from_address(&self, address: usize) -> (r: Result<u32, Exception>)
        ensures
            r == self.read_spec(address),
    {
        if address % 4 != 0 {
            return Err(Exception::ADDRESS_ERROR);
        }
        if address <= MI_INIT_MODE_REG_END {
            Ok(self.init_mod.get_value() as u32)
        } else if address <= MI_VERSION_REG_END {
            Ok(self.version.get_value() as u32)
        } else if address <= MI_INTR_REG_END {
            Ok(self.interrupt.get_value() as u32)
        } else if address <= MI_INTR_MASK_REG_END {
            Ok(self.interrupt_mask.get_value() as u32)
        } else {
            Err(Exception::UNIMPLEMENTED_ADDRESS)
        }
    }

    pub fn load_u32_to_address(&mut self, address: usize, value: u32) -> (r: Result<(), Exception>)
        ensures
            r == Self::write_result(address),
            r is Ok ==> *final(self) == old(self).written(address, value),
            r is Err ==> *final(self) == *old(self),
            r is Ok && old(self).read_spec(address) is Ok ==> final(self).read_spec(address) == Ok::<u32, Exception>(value),
    {
        if address % 4 != 0 {
            return Err(Exception::ADDRESS_ERROR);
        }
        if address <= MI_INIT_MODE_REG_END {
            self.init_mod.set_u32(value);
            Ok(())
        } else if address <= MI_VERSION_REG_END {
            self.version.set_u32(value);
            Ok(())
        } else if address <= MI_INTR_REG_END {
            self.interrupt.set_u32(value);
            Ok(())
        } else if address <= MI_INTR_MASK_REG_END {
            self.interrupt_mask.set_u32(value);
            Ok(())
        } else {
            Err(Exception::UNIMPLEMENTED_ADDRESS)
        }
    }
}

} // verus!
