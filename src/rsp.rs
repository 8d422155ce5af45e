use vstd::prelude::*;

use crate::arch::Reg;
use crate::binary_helpers::{copy_range, lemma_word_round_trip, store_word_at, u32_to_u8_vector_by_loc, u8_slice_to_u16, u8_slice_to_u32, word_at};
use crate::exceptions::Exception;

verus! {

pub const SP_DMEM_START: usize = 0x00000000;
pub const SP_DMEM_END: usize = 0x00000FFF;
pub const SP_IMEM_START: usize = 0x00001000;
pub const SP_IMEM_END: usize = 0x00001FFF;
pub const SP_MEM_ADDR_REG_START: usize = 0x00040000;
pub const SP_MEM_ADDR_REG_END: usize = 0x00040003;
pub const SP_DRAM_ADDR_REG_START: usize = 0x00040004;
pub const SP_DRAM_ADDR_REG_END: usize = 0x00040007;
pub const SP_RD_LEN_REG_START: usize = 0x00040008;
pub const SP_RD_LEN_REG_END: usize = 0x0004000B;
pub const SP_WR_LEN_REG_START: usize = 0x0004000C;
pub const SP_WR_LEN_REG_END: usize = 0x0004000F;
pub const SP_STATUS_REG_START: usize = 0x00040010;
pub const SP_STATUS_REG_END: usize = 0x00040013;
pub const SP_DMA_FULL_REG_START: usize = 0x00040014;
pub const SP_DMA_FULL_REG_END: usize = 0x00040017;
pub const SP_DMA_BUSY_REG_START: usize = 0x00040018;
pub const SP_DMA_BUSY_REG_END: usize = 0x0004001B;
pub const SP_SEMAPHORE_REG_START: usize = 0x0004001C;
pub const SP_SEMAPHORE_REG_END: usize = 0x0004001F;
pub const SP_PC_REG_START: usize = 0x00080000;
pub const SP_PC_REG_END: usize = 0x00080003;
pub const SP_IBIST_REG_START: usize = 0x00080004;
pub const SP_IBIST_REG_END: usize = 0x00080007;

/// The signal processor: its data and instruction memories and its
/// control registers.
pub struct RealitySignalProcessor {
    pub dynamic_memory: Vec<u8>,
    pub instruction_memory: Vec<u8>,
    pub memory_address: Reg,
    pub dram_dam_address: Reg,
    pub read_dma_length: Reg,
    pub write_dma_length: Reg,
    pub status: Reg,
    pub dma_full: Reg,
    pub dma_busy: Reg,
    pub sempahore: Reg,
    pub program_counter: Reg,
    pub instruction_memory_self_test: Reg,
}

impl RealitySignalProcessor {
    pub open spec fn wf(self) -> bool {
        &&& self.dynamic_memory.len() == SP_DMEM_END - SP_DMEM_START + 1
        &&& self.instruction_memory.len() == SP_IMEM_END - SP_IMEM_START + 1
    }

    /// The control registers, in address order.
    pub open spec fn regs(self) -> Seq<Reg> {
        seq![self.memory_address, self.dram_dam_address, self.read_dma_length, self.write_dma_length, self.status, self.dma_full, self.dma_busy, self.sempahore, self.program_counter, self.instruction_memory_self_test]
    }

    /// The index in `regs` of the register at `address`, if any.
    pub open spec fn reg_index(address: usize) -> Option<int> {
        if SP_MEM_ADDR_REG_START <= address <= SP_MEM_ADDR_REG_END {
            Some(0)
        } else if SP_DRAM_ADDR_REG_START <= address <= SP_DRAM_ADDR_REG_END {
            Some(1)
        } else if SP_RD_LEN_REG_START <= address <= SP_RD_LEN_REG_END {
            Some(2)
        } else if SP_WR_LEN_REG_START <= address <= SP_WR_LEN_REG_END {
            Some(3)
        } else if SP_STATUS_REG_START <= address <= SP_STATUS_REG_END {
            Some(4)
        } else if SP_DMA_FULL_REG_START <= address <= SP_DMA_FULL_REG_END {
            Some(5)
        } else if SP_DMA_BUSY_REG_START <= address <= SP_DMA_BUSY_REG_END {
            Some(6)
        } else if SP_SEMAPHORE_REG_START <= address <= SP_SEMAPHORE_REG_END {
            Some(7)
        } else if SP_PC_REG_START <= address <= SP_PC_REG_END {
            Some(8)
        } else if SP_IBIST_REG_START <= address <= SP_IBIST_REG_END {
            Some(9)
        } else {
            None
        }
    }

    /// The byte at `address` of the two memories, data memory first.
    pub open spec fn mem_byte(self, address: int) -> u8 {
        if address <= SP_DMEM_END {
            self.dynamic_memory@[address - SP_DMEM_START]
        } else {
            self.instruction_memory@[address - SP_IMEM_START]
        }
    }

    /// What a word read at `address` returns.
    pub open spec fn read_spec(self, address: usize) -> Result<u32, Exception> {
        if address % 4 != 0 {
            Err(Exception::ADDRESS_ERROR)
        } else if address <= SP_DMEM_END {
            Ok(word_at(self.dynamic_memory@, address - SP_DMEM_START))
        } else if address <= SP_IMEM_END {
            Ok(word_at(self.instruction_memory@, address - SP_IMEM_START))
        } else if Self::reg_index(address) is Some {
            Ok(self.regs()[Self::reg_index(address)->0].value as u32)
        } else {
            Err(Exception::UNIMPLEMENTED_ADDRESS)
        }
    }

    /// Whether a word write at `address` is accepted.
    pub open spec fn write_result(address: usize) -> Result<(), Exception> {
        if address % 4 != 0 {
            Err(Exception::ADDRESS_ERROR)
        } else if address <= SP_IMEM_END || Self::reg_index(address) is Some {
            Ok(())
        } else {
            Err(Exception::UNIMPLEMENTED_ADDRESS)
        }
    }

    /// `new` is this processor after an accepted word write of `value` at `address`.
    pub open spec fn written_by(self, new: RealitySignalProcessor, address: usize, value: u32) -> bool {
        if address <= SP_DMEM_END {
            &&& new.dynamic_memory@ == store_word_at(self.dynamic_memory@, address - SP_DMEM_START, value)
            &&& new.instruction_memory == self.instruction_memory
            &&& new.regs() =~= self.regs()
        } else if address <= SP_IMEM_END {
            &&& new.dynamic_memory == self.dynamic_memory
            &&& new.instruction_memory@ == store_word_at(self.instruction_memory@, address - SP_IMEM_START, value)
            &&& new.regs() =~= self.regs()
        } else {
            let k = Self::reg_index(address)->0;
            &&& new.dynamic_memory == self.dynamic_memory
            &&& new.instruction_memory == self.instruction_memory
            &&& new.regs() =~= self.regs().update(k, self.regs()[k].with_value(value as u64))
        }
    }

    /// Both memories are zero and every register is as at power-on.
    pub open spec fn is_reset(self) -> bool {
        &&& forall|a: int| SP_DMEM_START <= a <= SP_IMEM_END ==> #[trigger] self.mem_byte(a) == 0
        &&& forall|k: int| 0 <= k < self.regs().len() ==> #[trigger] self.regs()[k] == Reg::default_spec()
    }

    pub fn new() -> (r: RealitySignalProcessor)
        ensures
            r.wf(),
            r.is_reset(),
    {
        RealitySignalProcessor {
            dynamic_memory: vec![0; 0x1000],
            instruction_memory: vec![0; 0x1000],
            memory_address: Reg::default(),
            dram_dam_address: Reg::default(),
            read_dma_length: Reg::default(),
            write_dma_length: Reg::default(),
            status: Reg::default(),
            dma_full: Reg::default(),
            dma_busy: Reg::default(),
            sempahore: Reg::default(),
            program_counter: Reg::default(),
            instruction_memory_self_test: Reg::default(),
        }
    }

    pub fn read_u32_from_address(&self, address: usize) -> (r: Result<u32, Exception>)
        requires
            self.wf(),
        ensures
            r == self.read_spec(address),
    {
        if address % 4 != 0 {
            return Err(Exception::ADDRESS_ERROR);
        }
        if address <= SP_DMEM_END {
            let loc = address - SP_DMEM_START;
            Ok(u8_slice_to_u32(copy_range(&self.dynamic_memory, loc, loc + 4)))
        } else if address <= SP_IMEM_END {
            let loc = address - SP_IMEM_START;
            Ok(u8_slice_to_u32(copy_range(&self.instruction_memory, loc, loc + 4)))
        } else if SP_MEM_ADDR_REG_START <= address && address <= SP_MEM_ADDR_REG_END {
            Ok(self.memory_address.get_value() as u32)
        } else if SP_DRAM_ADDR_REG_START <= address && address <= SP_DRAM_ADDR_REG_END {
            Ok(self.dram_dam_address.get_value() as u32)
        } else if SP_RD_LEN_REG_START <= address && address <= SP_RD_LEN_REG_END {
            Ok(self.read_dma_length.get_value() as u32)
        } else if SP_WR_LEN_REG_START <= address && address <= SP_WR_LEN_REG_END {
            Ok(self.write_dma_length.get_value() as u32)
        } else if SP_STATUS_REG_START <= address && address <= SP_STATUS_REG_END {
            Ok(self.status.get_value() as u32)
        } else if SP_DMA_FULL_REG_START <= address && address <= SP_DMA_FULL_REG_END {
            Ok(self.dma_full.get_value() as u32)
        } else if SP_DMA_BUSY_REG_START <= address && address <= SP_DMA_BUSY_REG_END {
            Ok(self.dma_busy.get_value() as u32)
        } else if SP_SEMAPHORE_REG_START <= address && address <= SP_SEMAPHORE_REG_END {
            Ok(self.sempahore.get_value() as u32)
        } else if SP_PC_REG_START <= address && address <= SP_PC_REG_END {
            Ok(self.program_counter.get_value() as u32)
        } else if SP_IBIST_REG_START <= address && address <= SP_IBIST_REG_END {
            Ok(self.instruction_memory_self_test.get_value() as u32)
        } else {
            Err(Exception::UNIMPLEMENTED_ADDRESS)
        }
    }

    pub fn load_u32_to_address(&mut self, address: usize, value: u32) -> (r: Result<(), Exception>)
        requires
            old(self).wf(),
        ensures
            final(self).wf(),
            r == Self::write_result(address),
            r is Ok ==> old(self).written_by(*final(self), address, value),
            r is Err ==> *final(self) == *old(self),
            r is Ok && old(self).read_spec(address) is Ok ==> final(self).read_spec(address) == Ok::<u32, Exception>(value),
    {
        proof {
            lemma_word_round_trip(value);
        }
        if address % 4 != 0 {
            return Err(Exception::ADDRESS_ERROR);
        }
        if address <= SP_DMEM_END {
            u32_to_u8_vector_by_loc(value, address - SP_DMEM_START, &mut self.dynamic_memory);
        } else if address <= SP_IMEM_END {
            u32_to_u8_vector_by_loc(value, address - SP_IMEM_START, &mut self.instruction_memory);
        } else if SP_MEM_ADDR_REG_START <= address && address <= SP_MEM_ADDR_REG_END {
            self.memory_address.set_u32(value);
        } else if SP_DRAM_ADDR_REG_START <= address && address <= SP_DRAM_ADDR_REG_END {
            self.dram_dam_address.set_u32(value);
        } else if SP_RD_LEN_REG_START <= address && address <= SP_RD_LEN_REG_END {
            self.read_dma_length.set_u32(value);
        } else if SP_WR_LEN_REG_START <= address && address <= SP_WR_LEN_REG_END {
            self.write_dma_length.set_u32(value);
        } else if SP_STATUS_REG_START <= address && address <= SP_STATUS_REG_END {
            self.status.set_u32(value);
        } else if SP_DMA_FULL_REG_START <= address && address <= SP_DMA_FULL_REG_END {
            self.dma_full.set_u32(value);
        } else if SP_DMA_BUSY_REG_START <= address && address <= SP_DMA_BUSY_REG_END {
            self.dma_busy.set_u32(value);
        } else if SP_SEMAPHORE_REG_START <= address && address <= SP_SEMAPHORE_REG_END {
            self.sempahore.set_u32(value);
        } else if SP_PC_REG_START <= address && address <= SP_PC_REG_END {
            self.program_counter.set_u32(value);
        } else if SP_IBIST_REG_START <= address && address <= SP_IBIST_REG_END {
            self.instruction_memory_self_test.set_u32(value);
        } else {
            return Err(Exception::UNIMPLEMENTED_ADDRESS);
        }
        Ok(())
    }

    /// Reads a big-endian half-word of either memory.
    pub fn read_u16_from_address(&self, address: usize) -> (r: Option<u16>)
        requires
            self.wf(),
        ensures
            address % 2 == 0 && address <= SP_IMEM_END ==> r == Some(
                ((self.mem_byte(address as int) as u16) << 8u16) | (self.mem_byte(address + 1) as u16),
            ),
            !(address % 2 == 0 && address <= SP_IMEM_END) ==> r is None,
    {
        if address % 2 != 0 {
            return None;
        }
        if address <= SP_DMEM_END {
            let loc = address - SP_DMEM_START;
            Some(u8_slice_to_u16(copy_range(&self.dynamic_memory, loc, loc + 2)))
        } else if address <= SP_IMEM_END {
            let loc = address - SP_IMEM_START;
            Some(u8_slice_to_u16(copy_range(&self.instruction_memory, loc, loc + 2)))
        } else {
            None
        }
    }

    pub fn read_u8_from_address(&self, address: usize) -> (r: Option<u8>)
        requires
            self.wf(),
        ensures
            address <= SP_IMEM_END ==> r == Some(self.mem_byte(address as int)),
            address > SP_IMEM_END ==> r is None,
    {
        if address <= SP_DMEM_END {
            Some(self.dynamic_memory[address - SP_DMEM_START])
        } else if address <= SP_IMEM_END {
            Some(self.instruction_memory[address - SP_IMEM_START])
        } else {
            None
        }
    }

    /// Stores one byte in either memory; any other address is handed back.
    pub fn load_u8_to_address(&mut self, address: usize, value: u8) -> (r: Result<(), usize>)
        requires
            old(self).wf(),
        ensures
            final(self).wf(),
            final(self).regs() == old(self).regs(),
            address <= SP_IMEM_END ==> r is Ok,
            address > SP_IMEM_END ==> r == Err::<(), usize>(address),
            forall|a: int| SP_DMEM_START <= a <= SP_IMEM_END ==> #[trigger] final(self).mem_byte(a) == if a == address {
                value
            } else {
                old(self).mem_byte(a)
            },
    {
        if address <= SP_DMEM_END {
            self.dynamic_memory.set(address - SP_DMEM_START, value);
            Ok(())
        } else if address <= SP_IMEM_END {
            self.instruction_memory.set(address - SP_IMEM_START, value);
            Ok(())
        } else {
            Err(address)
        }
    }

    /// Copies `source[0 .. bytes]` to the memories from `start_address` on,
    /// stopping at the first address outside them, which it hands back.
    pub fn copy_bytes_from_u8_vector(
        &mut self,
        start_address: usize,
        source_vector: Vec<u8>,
        bytes: usize,
    ) -> (r: Result<(), usize>)
        requires
            old(self).wf(),
            bytes <= source_vector.len(),
            start_address + bytes <= usize::MAX,
        ensures
            final(self).wf(),
            final(self).regs() == old(self).regs(),
            bytes == 0 || start_address + bytes <= SP_IMEM_END + 1 ==> r is Ok,
            bytes > 0 && start_address + bytes > SP_IMEM_END + 1 ==> r == Err::<(), usize>(
                if start_address > SP_IMEM_END { start_address } else { (SP_IMEM_END + 1) as usize },
            ),
            forall|a: int| SP_DMEM_START <= a <= SP_IMEM_END ==> #[trigger] final(self).mem_byte(a) == if start_address <= a < start_address + bytes {
                source_vector@[a - start_address]
            } else {
                old(self).mem_byte(a)
            },
    {
        let mut offset: usize = 0;
        while offset < bytes
            invariant
                self.wf(),
                self.regs() == old(self).regs(),
                offset <= bytes <= source_vector.len(),
                start_address + bytes <= usize::MAX,
                offset > 0 ==> start_address + offset <= SP_IMEM_END + 1,
                forall|a: int| SP_DMEM_START <= a <= SP_IMEM_END ==> #[trigger] self.mem_byte(a) == if start_address <= a < start_address + offset {
                    source_vector@[a - start_address]
                } else {
                    old(self).mem_byte(a)
                },
            decreases bytes - offset,
        {
            match self.load_u8_to_address(start_address + offset, source_vector[offset]) {
                Err(error_address) => {
                    return Err(error_address);
                },
                Ok(()) => {},
            }
            offset = offset + 1;
        }
        Ok(())
    }
}

} // verus!
