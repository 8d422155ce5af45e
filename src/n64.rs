use vstd::prelude::*;

use std::collections::VecDeque;

use crate::binary_helpers::{copy_range, wrap32};
use crate::connector::Connector;
use crate::cpu::{COP0RegisterName, CPURegisterName, CPU};
use crate::cpu_opcodes::{bus_effect, exec_spec, Opcode};
use crate::exceptions::Exception;
use crate::rom::ROM_HEADER_SIZE;

verus! {

/// How many executed instructions the history keeps.
pub const OPCODE_LOG_SIZE: usize = 5;

/// How many program-counter values the history keeps.
pub const PC_LOG_SIZE: usize = 1000;

/// `log` after `x` was appended, the oldest entry dropped once there are more
/// than `cap`.
pub open spec fn retire<T>(log: Seq<T>, x: T, cap: nat) -> Seq<T> {
    if log.len() + 1 > cap {
        log.push(x).drop_first()
    } else {
        log.push(x)
    }
}

/// The whole machine: CPU, bus, and the recent history kept for diagnosing
/// a fault.
pub struct N64 {
    pub connector: Connector,
    pub cpu: CPU,
    pub opcode_log: VecDeque<Opcode>,
    pub pc_log: VecDeque<u32>,
}

impl N64 {
    pub open spec fn wf(self) -> bool {
        &&& self.connector.wf()
        &&& self.cpu.wf()
        &&& self.opcode_log@.len() <= OPCODE_LOG_SIZE
        &&& self.pc_log@.len() <= PC_LOG_SIZE
    }

    /// A machine with the cartridge image `rom_data` inserted.
    pub fn new(rom_data: Vec<u8>) -> (r: N64)
        requires
            rom_data.len() >= ROM_HEADER_SIZE,
        ensures
            r.wf(),
            r.connector.rom.rom_data@ == rom_data@,
            r.connector.rom.rom_header.parsed_from(rom_data@),
            r.connector.devices_reset(),
            r.cpu.is_reset(),
            r.opcode_log@.len() == 0,
            r.pc_log@.len() == 0,
    {
        N64 {
            connector: Connector::new(rom_data),
            cpu: CPU::new(),
            opcode_log: VecDeque::new(),
            pc_log: VecDeque::new(),
        }
    }

    /// Puts the machine in the state the boot ROM hands over in: boot
    /// register values, and the first `ROM_HEADER_SIZE` bytes of the
    /// cartridge in the signal processor's data memory.
    pub fn run_pif_rom(&mut self)
        requires
            old(self).wf(),
            old(self).connector.rom.rom_data.len() >= ROM_HEADER_SIZE,
        ensures
            final(self).wf(),
            final(self).cpu@.pc_u32() == 0xA4000040,
            final(self).cpu@.gpr_u32(CPURegisterName::sp.index_spec()) == 0xA4001FF0,
            final(self).cpu@.gpr_u32(CPURegisterName::s4.index_spec()) == 0x00000001,
            final(self).cpu@.gpr_u32(CPURegisterName::s6.index_spec()) == 0x0000003F,
            final(self).cpu@.cop0_u32(COP0RegisterName::Random.index_spec()) == 0x0000001F,
            final(self).cpu@.cop0_u32(COP0RegisterName::Status.index_spec()) == 0x70400004,
            final(self).cpu@.cop0_u32(COP0RegisterName::PRevID.index_spec()) == 0x00000B00,
            final(self).cpu@.cop0_u32(COP0RegisterName::Config.index_spec()) == 0x0006E463,
            final(self).connector.mips_interface.version.value == 0x01010101,
            forall|a: int| 0 <= a < ROM_HEADER_SIZE ==> #[trigger] final(self).connector.rsp.mem_byte(a)
                == old(self).connector.rom.rom_data@[a],
    {
        self.cpu.cpu_registers.set_pif_rom_values();
        self.cpu.cop0_registers.set_pif_rom_values();
        self.cpu.set_pif_rom_values();
        self.connector.mips_interface.set_pif_rom_values();
        let rom_data: Vec<u8> = copy_range(&self.connector.rom.rom_data, 0, ROM_HEADER_SIZE);
        let _ = self.connector.rsp.copy_bytes_from_u8_vector(0, rom_data, ROM_HEADER_SIZE);
    }

    /// One turn of the execution loop: fetch the word at the program
    /// counter, decode and execute it, and record it in the history. A fault
    /// is handed back for the caller to stop on; the history is left as it
    /// was.
    pub fn step(&mut self) -> (r: Result<(), Exception>)
        requires
            old(self).wf(),
        ensures
            final(self).wf(),
            ({
                let pc = old(self).cpu@.pc_u32();
                match old(self).connector.read_spec(pc) {
                    Err(e) => r == Err::<(), Exception>(e) && *final(self) == *old(self),
                    Ok(w) => {
                        let op = Opcode::decoded(w);
                        let fetched = old(self).cpu@.set_pc(wrap32(pc + 4));
                        &&& bus_effect(op.command, op, fetched, old(self).connector, final(self).connector)
                        &&& match exec_spec(op.command, op, fetched, old(self).connector) {
                            Ok(m) => {
                                &&& r is Ok
                                &&& final(self).cpu@ == m.tick()
                                &&& final(self).opcode_log@ == retire(old(self).opcode_log@, op, OPCODE_LOG_SIZE as nat)
                                &&& final(self).pc_log@ == retire(
                                    old(self).pc_log@,
                                    m.tick().pc_u32(),
                                    PC_LOG_SIZE as nat,
                                )
                            },
                            Err(e) => {
                                &&& r == Err::<(), Exception>(e)
                                &&& final(self).cpu@ == fetched
                                &&& final(self).opcode_log@ == old(self).opcode_log@
                                &&& final(self).pc_log@ == old(self).pc_log@
                            },
                        }
                    },
                }
            }),
    {
        let opcode = self.cpu.retrieve_opcode(&self.connector)?;
        proof {
            Opcode::lemma_decoded_wf(opcode.opcode);
        }
        self.cpu.execute_opcode(&opcode, &mut self.connector)?;
        self.opcode_log.push_back(opcode);
        let pc = self.cpu.program_counter.get_value() as u32;
        self.pc_log.push_back(pc);
        if self.opcode_log.len() > OPCODE_LOG_SIZE {
            let _ = self.opcode_log.pop_front();
        }
        if self.pc_log.len() > PC_LOG_SIZE {
            let _ = self.pc_log.pop_front();
        }
        Ok(())
    }
}

} // verus!
