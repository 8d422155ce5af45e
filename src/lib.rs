//! Interpreter core for a MIPS R4300i-class CPU: register file, TLB
//! translation, instruction decoding and execution, and the physical bus that
//! routes word accesses to memory-mapped devices.

pub mod arch;
pub mod binary_helpers;
pub mod exceptions;
pub mod memory;
pub mod mips_iface;
pub mod rdram_iface;
pub mod rdram_registers;
pub mod rdram;
pub mod rsp;
pub mod icache;
pub mod rom;
pub mod connector;
pub mod cpu;
pub mod cpu_opcodes;
pub mod n64;
