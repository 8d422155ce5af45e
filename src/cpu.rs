use vstd::prelude::*;

use crate::arch::Reg;
use crate::binary_helpers::{add_u32_overflow, wrap32};
use crate::connector::Connector;
use crate::cpu_opcodes::{bus_effect, exec_spec, Opcode};
use crate::exceptions::Exception;

verus! {

pub const REGISTER_COUNT: usize = 32;

pub const TLB_ENTRY_COUNT: usize = 32;

/// The CPU state as a value: register files, TLB, program counter, the
/// multiply result registers and the pending delayed jump.
pub struct CpuModel {
    pub gpr: Seq<Reg>,
    pub cop0: Seq<Reg>,
    pub tlb: Seq<TLBEntry>,
    pub pc: Reg,
    pub lo: Reg,
    pub hi: Reg,
    pub pc_save: u32,
    pub pc_save_count: u8,
}

impl CpuModel {
    /// The 32-bit view of general register `i`.
    pub open spec fn gpr_u32(self, i: int) -> u32 {
        self.gpr[i].value as u32
    }

    /// The 32-bit view of control register `i`.
    pub open spec fn cop0_u32(self, i: int) -> u32 {
        self.cop0[i].value as u32
    }

    /// The 32-bit view of the program counter.
    pub open spec fn pc_u32(self) -> u32 {
        self.pc.value as u32
    }

    pub open spec fn set_gpr(self, i: int, v: u32) -> CpuModel {
        CpuModel { gpr: self.gpr.update(i, self.gpr[i].with_value(v as u64)), ..self }
    }

    pub open spec fn set_cop0(self, i: int, v: u32) -> CpuModel {
        CpuModel { cop0: self.cop0.update(i, self.cop0[i].with_value(v as u64)), ..self }
    }

    pub open spec fn set_pc(self, v: u32) -> CpuModel {
        CpuModel { pc: self.pc.with_value(v as u64), ..self }
    }

    /// Schedules a jump to `target` after the next instruction.
    pub open spec fn schedule(self, target: u32) -> CpuModel {
        CpuModel { pc_save: target, pc_save_count: 2, ..self }
    }

    /// The delay-slot countdown after an instruction has completed: the
    /// count drops by one, and when it reaches one the pending target
    /// becomes the program counter.
    pub open spec fn tick(self) -> CpuModel {
        if self.pc_save_count == 0 {
            self
        } else if self.pc_save_count == 1 {
            CpuModel { pc: self.pc.with_value(self.pc_save as u64), pc_save_count: 0, ..self }
        } else {
            CpuModel { pc_save_count: (self.pc_save_count - 1) as u8, ..self }
        }
    }
}

/// Floor of the base-2 logarithm; zero for 0 and 1.
pub open spec fn log2_floor(n: nat) -> nat
    decreases n,
{
    if n <= 1 {
        0
    } else {
        1 + log2_floor(n / 2)
    }
}

pub open spec fn pow2_nat(j: nat) -> nat
    decreases j,
{
    if j == 0 {
        1
    } else {
        2 * pow2_nat((j - 1) as nat)
    }
}

pub proof fn lemma_log2_floor_bound(n: nat, j: nat)
    requires
        n <= pow2_nat(j),
    ensures
        log2_floor(n) <= j,
    decreases j,
{
    if n > 1 {
        if j == 0 {
            assert(pow2_nat(0) == 1);
        } else {
            lemma_log2_floor_bound(n / 2, (j - 1) as nat);
        }
    }
}

/// The page-size exponent of an entry: log2(mask + 1) over 4 KiB pages.
pub open spec fn mask_offset(mask: u16) -> u32 {
    log2_floor(mask as nat + 1) as u32
}

/// Physical address of `va` in a page whose frame number is `pfn`.
pub open spec fn frame_address(pfn: u32, offset: u32, va: u32) -> u32 {
    ((pfn & !(((1u32 << offset) - 1) as u32)) << 12u32) | (va & (((1u32 << (12 + offset) as u32) - 1) as u32))
}

/// What one TLB entry makes of `va` under address-space id `asid`: the
/// physical address if the page matches, the entry is global or of that
/// address space, and the selected half-page is valid and dirty.
pub open spec fn entry_translation(e: TLBEntry, asid: u8, va: u32) -> Option<u32> {
    let offset = mask_offset(e.mask);
    let vpn = va >> (12 + offset) as u32;
    if (vpn >> 1u32) == (e.virtual_page_number >> offset) && (asid == e.address_space_id || e.global) {
        if vpn % 2 == 0 {
            if e.valid_even && e.dirty_even {
                Some(frame_address(e.physical_frame_num_even, offset, va))
            } else {
                None
            }
        } else {
            if e.valid_odd && e.dirty_odd {
                Some(frame_address(e.physical_frame_num_odd, offset, va))
            } else {
                None
            }
        }
    } else {
        None
    }
}

/// The translation that the first qualifying entry from `i` on gives.
pub open spec fn translation_from(entries: Seq<TLBEntry>, asid: u8, va: u32, i: int) -> Option<u32>
    decreases entries.len() - i,
{
    if i < 0 || i >= entries.len() {
        None
    } else {
        match entry_translation(entries[i], asid, va) {
            Some(p) => Some(p),
            None => translation_from(entries, asid, va, i + 1),
        }
    }
}

/// The address-space id held by an EntryHi value.
pub open spec fn asid_of(entry_hi: u32) -> u8 {
    (entry_hi & 0xFF) as u8
}

/// Translation of `va` through the whole TLB, with the current address-space
/// id; a miss reports the address and the id.
pub open spec fn translate(m: CpuModel, va: u32) -> Result<u32, Exception> {
    let asid = asid_of(m.cop0_u32(COP0RegisterName::EntryHi.index_spec()));
    match translation_from(m.tlb, asid, va, 0) {
        Some(p) => Ok(p),
        None => Err(Exception::TLB_MISS(va, asid)),
    }
}

/// The CPU: general and control register files, TLB, program counter,
/// multiply result registers and the pending delayed jump (`pc_save`, taken
/// when `pc_save_count` counts down to one).
pub struct CPU {
    pub cpu_registers: CPURegisters,
    pub cop0_registers: COP0Registers,
    pub tlb: TLB,
    pub program_counter: Reg,
    pub lo: Reg,
    pub hi: Reg,
    pub pc_save: u32,
    pub pc_save_count: u8,
}

impl View for CPU {
    type V = CpuModel;

    open spec fn view(&self) -> CpuModel {
        CpuModel {
            gpr: self.cpu_registers.register@,
            cop0: self.cop0_registers.register@,
            tlb: self.tlb.entries@,
            pc: self.program_counter,
            lo: self.lo,
            hi: self.hi,
            pc_save: self.pc_save,
            pc_save_count: self.pc_save_count,
        }
    }
}

impl CPU {
    /// All registers zero in 32-bit mode, all TLB entries empty, no jump
    /// pending.
    pub open spec fn is_reset(self) -> bool {
        &&& self.program_counter == Reg::default_spec()
        &&& self.lo == Reg::default_spec()
        &&& self.hi == Reg::default_spec()
        &&& self.pc_save == 0
        &&& self.pc_save_count == 0
        &&& forall|i: int| 0 <= i < REGISTER_COUNT ==> #[trigger] self.cpu_registers.register@[i] == Reg::default_spec()
        &&& forall|i: int| 0 <= i < REGISTER_COUNT ==> #[trigger] self.cop0_registers.register@[i] == Reg::default_spec()
        &&& forall|i: int| 0 <= i < TLB_ENTRY_COUNT ==> (#[trigger] self.tlb.entries@[i]).is_empty()
    }

    pub open spec fn wf(self) -> bool {
        &&& self.cpu_registers.wf()
        &&& self.cop0_registers.wf()
        &&& self.tlb.wf()
    }

    pub fn new() -> (r: CPU)
        ensures
            r.wf(),
            r.is_reset(),
    {
        CPU {
            cpu_registers: CPURegisters::new(),
            cop0_registers: COP0Registers::new(),
            program_counter: Reg::default(),
            tlb: TLB::new(),
            lo: Reg::default(),
            hi: Reg::default(),
            pc_save: 0,
            pc_save_count: 0,
        }
    }

    /// Sets the program counter to where the boot ROM hands over.
    pub fn set_pif_rom_values(&mut self)
        ensures
            final(self)@ == old(self)@.set_pc(0xA4000040),
            final(self).wf() == old(self).wf(),
    {
        self.program_counter.set_u32(0xA4000040);
    }

    /// Fetches the word at the program counter, advances the program counter
    /// by one word and decodes the word. The fetch goes straight to the bus,
    /// without translation.
    pub fn retrieve_opcode(&mut self, connector: &Connector) -> (r: Result<Opcode, Exception>)
        requires
            connector.wf(),
        ensures
            final(self).wf() == old(self).wf(),
            match connector.read_spec(old(self)@.pc_u32()) {
                Ok(w) => r == Ok::<Opcode, Exception>(Opcode::decoded(w)) && final(self)@ == old(
                    self,
                )@.set_pc(wrap32(old(self)@.pc_u32() + 4)),
                Err(e) => r == Err::<Opcode, Exception>(e) && *final(self) == *old(self),
            },
    {
        let pc: u32 = self.program_counter.get_value() as u32;
        let value: u32 = connector.read_u32(pc)?;
        self.program_counter.set_u32(add_u32_overflow(pc, 4));
        Ok(Opcode::new(value))
    }

    /// Executes one instruction, then advances the delay-slot countdown: a
    /// pending jump takes effect once the instruction after the branch has
    /// run. A fault leaves the CPU as it was.
    pub fn execute_opcode(&mut self, opcode: &Opcode, connector: &mut Connector) -> (r: Result<(), Exception>)
        requires
            opcode.wf(),
            old(self).wf(),
            old(connector).wf(),
        ensures
            final(self).wf(),
            final(connector).wf(),
            match exec_spec(opcode.command, *opcode, old(self)@, *old(connector)) {
                Ok(m) => r is Ok && final(self)@ == m.tick(),
                Err(e) => r == Err::<(), Exception>(e) && final(self)@ == old(self)@,
            },
            bus_effect(opcode.command, *opcode, old(self)@, *old(connector), *final(connector)),
    {
        opcode.execute(self, connector)?;
        if self.pc_save_count > 0 {
            if self.pc_save_count == 1 {
                self.program_counter.set_u32(self.pc_save);
            }
            self.pc_save_count = self.pc_save_count - 1;
        }
        Ok(())
    }

    /// Translates a virtual address through the TLB.
    pub fn compute_physical_address(&mut self, virtual_address: u32) -> (r: Result<u32, Exception>)
        requires
            old(self).wf(),
        ensures
            *final(self) == *old(self),
            r == translate(old(self)@, virtual_address),
    {
        let entry_hi = self.cop0_registers.register[COP0RegisterName::EntryHi.index()].get_value() as u32;
        let asid: u8 = (entry_hi & 0xFF) as u8;
        let mut i: usize = 0;
        while i < TLB_ENTRY_COUNT
            invariant
                self.wf(),
                i <= TLB_ENTRY_COUNT,
                asid == asid_of(self@.cop0_u32(COP0RegisterName::EntryHi.index_spec())),
                translation_from(self.tlb.entries@, asid, virtual_address, 0) == translation_from(
                    self.tlb.entries@,
                    asid,
                    virtual_address,
                    i as int,
                ),
            decreases TLB_ENTRY_COUNT - i,
        {
            let e = &self.tlb.entries[i];
            let offset = compute_mask_offset(e.mask);
            let vpn = virtual_address >> (12 + offset);
            if (vpn >> 1) == (e.virtual_page_number >> offset) && (asid == e.address_space_id || e.global) {
                if vpn % 2 == 0 {
                    if e.valid_even && e.dirty_even {
                        return Ok(compute_frame_address(e.physical_frame_num_even, offset, virtual_address));
                    }
                } else {
                    if e.valid_odd && e.dirty_odd {
                        return Ok(compute_frame_address(e.physical_frame_num_odd, offset, virtual_address));
                    }
                }
            }
            i = i + 1;
        }
        Err(Exception::TLB_MISS(virtual_address, asid))
    }
}

fn compute_mask_offset(mask: u16) -> (r: u32)
    ensures
        r == mask_offset(mask),
        r <= 16,
{
    let mut n: u32 = mask as u32 + 1;
    let mut k: u32 = 0;
    proof {
        reveal_with_fuel(pow2_nat, 17);
        lemma_log2_floor_bound(n as nat, 16);
    }
    while n > 1
        invariant
            n >= 1,
            k + log2_floor(n as nat) == log2_floor(mask as nat + 1),
            log2_floor(mask as nat + 1) <= 16,
        decreases n,
    {
        n = n / 2;
        k = k + 1;
    }
    k
}

fn compute_frame_address(pfn: u32, offset: u32, va: u32) -> (r: u32)
    requires
        offset <= 16,
    ensures
        r == frame_address(pfn, offset, va),
{
    assert(1u32 << offset >= 1) by (bit_vector)
        requires
            offset <= 16,
    ;
    assert(1u32 << (12 + offset) >= 1) by (bit_vector)
        requires
            offset <= 16,
    ;
    ((pfn & !((1u32 << offset) - 1)) << 12u32) | (va & ((1u32 << (12 + offset)) - 1))
}

/// The general-purpose register file.
pub struct CPURegisters {
    pub register: Vec<Reg>,
}

impl CPURegisters {
    pub open spec fn wf(self) -> bool {
        self.register.len() == REGISTER_COUNT
    }

    pub fn new() -> (r: CPURegisters)
        ensures
            r.wf(),
            forall|i: int| 0 <= i < REGISTER_COUNT ==> #[trigger] r.register@[i] == Reg::default_spec(),
    {
        CPURegisters { register: vec![Reg::default(); REGISTER_COUNT] }
    }

    /// Loads the stack pointer and the two saved registers that the boot ROM
    /// leaves set.
    pub fn set_pif_rom_values(&mut self)
        requires
            old(self).wf(),
        ensures
            final(self).wf(),
            final(self).register@ == old(self).register@.update(
                CPURegisterName::s4.index_spec(),
                old(self).register@[CPURegisterName::s4.index_spec()].with_value(0x00000001),
            ).update(
                CPURegisterName::s6.index_spec(),
                old(self).register@[CPURegisterName::s6.index_spec()].with_value(0x0000003F),
            ).update(
                CPURegisterName::sp.index_spec(),
                old(self).register@[CPURegisterName::sp.index_spec()].with_value(0xA4001FF0),
            ),
    {
        set_register(&mut self.register, CPURegisterName::s4.index(), 0x00000001);
        set_register(&mut self.register, CPURegisterName::s6.index(), 0x0000003F);
        set_register(&mut self.register, CPURegisterName::sp.index(), 0xA4001FF0);
    }
}

/// Stores a 32-bit value in register `i` of a register file.
pub fn set_register(registers: &mut Vec<Reg>, i: usize, value: u32)
    requires
        i < old(registers).len(),
    ensures
        final(registers)@ == old(registers)@.update(i as int, old(registers)@[i as int].with_value(value as u64)),
{
    let mut r = registers[i];
    r.set_u32(value);
    registers.set(i, r);
}

/// The translation lookaside buffer: a fixed array of entries, searched in
/// order.
pub struct TLB {
    pub entries: Vec<TLBEntry>,
}

impl TLB {
    pub open spec fn wf(self) -> bool {
        &&& self.entries.len() == TLB_ENTRY_COUNT
        &&& forall|i: int| 0 <= i < TLB_ENTRY_COUNT ==> (#[trigger] self.entries@[i]).data.len() == 4
    }

    pub fn new() -> (r: TLB)
        ensures
            r.wf(),
            forall|i: int| 0 <= i < TLB_ENTRY_COUNT ==> (#[trigger] r.entries@[i]).is_empty(),
    {
        let mut entries: Vec<TLBEntry> = Vec::new();
        let mut i: usize = 0;
        while i < TLB_ENTRY_COUNT
            invariant
                i <= TLB_ENTRY_COUNT,
                entries.len() == i,
                forall|k: int| 0 <= k < i ==> (#[trigger] entries@[k]).is_empty() && entries@[k].data.len() == 4,
            decreases TLB_ENTRY_COUNT - i,
        {
            entries.push(TLBEntry::new());
            i = i + 1;
        }
        TLB { entries: entries }
    }
}

/// One TLB entry: the raw words it was written from, and the fields decoded
/// from them.
pub struct TLBEntry {
    pub data: Vec<u32>,
    pub mask: u16,
    pub virtual_page_number: u32,
    pub global: bool,
    pub address_space_id: u8,
    pub physical_frame_num_even: u32,
    pub physical_frame_num_odd: u32,
    pub cache_algorithm_even: u8,
    pub cache_algorithm_odd: u8,
    pub dirty_even: bool,
    pub dirty_odd: bool,
    pub valid_even: bool,
    pub valid_odd: bool,
}

impl TLBEntry {
    /// An entry as it is at power-on: all zero, nothing valid.
    pub open spec fn is_empty(self) -> bool {
        &&& self.data@ == seq![0u32, 0u32, 0u32, 0u32]
        &&& self.mask == 0
        &&& self.virtual_page_number == 0
        &&& !self.global
        &&& self.address_space_id == 0
        &&& self.physical_frame_num_even == 0
        &&& self.physical_frame_num_odd == 0
        &&& self.cache_algorithm_even == 0
        &&& self.cache_algorithm_odd == 0
        &&& !self.dirty_even
        &&& !self.dirty_odd
        &&& !self.valid_even
        &&& !self.valid_odd
    }

    /// The entry holds what a TLB write makes of PageMask `pm`, EntryHi `eh`
    /// and EntryLo0/1 `lo0`/`lo1`.
    pub open spec fn filled_from(self, pm: u32, eh: u32, lo0: u32, lo1: u32) -> bool {
        let g = (lo0 & 1) & (lo1 & 1);
        &&& self.data.len() == 4
        &&& self.data@[0] == pm & 0x01FFE000
        &&& self.data@[1] == (eh & 0xFFFFE0FF) | (g << 12u32)
        &&& self.data@[2] == lo0 & 0x03FFFFFE
        &&& self.data@[3] == lo1 & 0x03FFFFFE
        &&& self.mask == ((pm >> 13u32) & 0xFFF) as u16
        &&& self.virtual_page_number == (eh >> 13u32) & 0x7FFFF
        &&& self.global == (g != 0)
        &&& self.address_space_id == (eh & 0xFF) as u8
        &&& self.physical_frame_num_even == (lo0 >> 6u32) & 0xFFFFF
        &&& self.physical_frame_num_odd == (lo1 >> 6u32) & 0xFFFFF
        &&& self.cache_algorithm_even == ((lo0 >> 3u32) & 7) as u8
        &&& self.cache_algorithm_odd == ((lo1 >> 3u32) & 7) as u8
        &&& self.dirty_even == ((lo0 >> 2u32) & 1 == 1)
        &&& self.dirty_odd == ((lo1 >> 2u32) & 1 == 1)
        &&& self.valid_even == ((lo0 >> 1u32) & 1 == 1)
        &&& self.valid_odd == ((lo1 >> 1u32) & 1 == 1)
    }

    pub fn new() -> (r: TLBEntry)
        ensures
            r.is_empty(),
            r.data.len() == 4,
    {
        let data: Vec<u32> = vec![0u32, 0u32, 0u32, 0u32];
        TLBEntry {
            data: data,
            mask: 0,
            virtual_page_number: 0,
            global: false,
            address_space_id: 0,
            physical_frame_num_even: 0,
            physical_frame_num_odd: 0,
            cache_algorithm_even: 0,
            cache_algorithm_odd: 0,
            dirty_even: false,
            dirty_odd: false,
            valid_even: false,
            valid_odd: false,
        }
    }

    /// Writes the entry from the PageMask, EntryHi and EntryLo0/1 control
    /// registers.
    pub fn fill_entry_from_cop0_regs(&mut self, cop0_registers: &COP0Registers)
        requires
            old(self).data.len() == 4,
            cop0_registers.wf(),
        ensures
            final(self).filled_from(
                cop0_registers.register@[COP0RegisterName::PageMask.index_spec()].value as u32,
                cop0_registers.register@[COP0RegisterName::EntryHi.index_spec()].value as u32,
                cop0_registers.register@[COP0RegisterName::EntryLo0.index_spec()].value as u32,
                cop0_registers.register@[COP0RegisterName::EntryLo1.index_spec()].value as u32,
            ),
    {
        let page_mask = cop0_registers.register[COP0RegisterName::PageMask.index()].get_value() as u32;
        let entry_hi = cop0_registers.register[COP0RegisterName::EntryHi.index()].get_value() as u32;
        let entry_lo0 = cop0_registers.register[COP0RegisterName::EntryLo0.index()].get_value() as u32;
        let entry_lo1 = cop0_registers.register[COP0RegisterName::EntryLo1.index()].get_value() as u32;

        self.data.set(0, page_mask & 0x01FFE000);
        self.mask = ((page_mask >> 13u32) & 0xFFF) as u16;

        let global = (entry_lo0 & 1) & (entry_lo1 & 1);
        self.data.set(1, (entry_hi & 0xFFFFE0FF) | (global << 12u32));
        self.virtual_page_number = (entry_hi >> 13u32) & 0x7FFFF;
        self.address_space_id = (entry_hi & 0xFF) as u8;
        self.global = global != 0;

        self.data.set(2, entry_lo0 & 0x03FFFFFE);
        self.data.set(3, entry_lo1 & 0x03FFFFFE);
        self.physical_frame_num_even = (entry_lo0 >> 6u32) & 0xFFFFF;
        self.physical_frame_num_odd = (entry_lo1 >> 6u32) & 0xFFFFF;
        self.cache_algorithm_even = ((entry_lo0 >> 3u32) & 7) as u8;
        self.cache_algorithm_odd = ((entry_lo1 >> 3u32) & 7) as u8;
        self.dirty_even = (entry_lo0 >> 2u32) & 1 == 1;
        self.dirty_odd = (entry_lo1 >> 2u32) & 1 == 1;
        self.valid_even = (entry_lo0 >> 1u32) & 1 == 1;
        self.valid_odd = (entry_lo1 >> 1u32) & 1 == 1;
    }
}

/// The control coprocessor's register file.
pub struct COP0Registers {
    pub register: Vec<Reg>,
}

impl COP0Registers {
    pub open spec fn wf(self) -> bool {
        self.register.len() == REGISTER_COUNT
    }

    pub fn new() -> (r: COP0Registers)
        ensures
            r.wf(),
            forall|i: int| 0 <= i < REGISTER_COUNT ==> #[trigger] r.register@[i] == Reg::default_spec(),
    {
        COP0Registers { register: vec![Reg::default(); REGISTER_COUNT] }
    }

    /// Loads the control registers that the boot ROM leaves set.
    pub fn set_pif_rom_values(&mut self)
        requires
            old(self).wf(),
        ensures
            final(self).wf(),
            final(self).register@ == old(self).register@.update(
                COP0RegisterName::Random.index_spec(),
                old(self).register@[COP0RegisterName::Random.index_spec()].with_value(0x0000001F),
            ).update(
                COP0RegisterName::Status.index_spec(),
                old(self).register@[COP0RegisterName::Status.index_spec()].with_value(0x70400004),
            ).update(
                COP0RegisterName::PRevID.index_spec(),
                old(self).register@[COP0RegisterName::PRevID.index_spec()].with_value(0x00000B00),
            ).update(
                COP0RegisterName::Config.index_spec(),
                old(self).register@[COP0RegisterName::Config.index_spec()].with_value(0x0006E463),
            ),
    {
        set_register(&mut self.register, COP0RegisterName::Random.index(), 0x0000001F);
        set_register(&mut self.register, COP0RegisterName::Status.index(), 0x70400004);
        set_register(&mut self.register, COP0RegisterName::PRevID.index(), 0x00000B00);
        set_register(&mut self.register, COP0RegisterName::Config.index(), 0x0006E463);
    }
}

/// Names of the general-purpose registers, in register-number order.
#[derive(Debug, Copy, Clone, PartialEq, Eq, Structural)]
#[allow(non_camel_case_types)]
pub enum CPURegisterName {
    r0,
    at,
    v0,
    v1,
    a0,
    a1,
    a2,
    a3,
    t0,
    t1,
    t2,
    t3,
    t4,
    t5,
    t6,
    t7,
    s0,
    s1,
    s2,
    s3,
    s4,
    s5,
    s6,
    s7,
    t8,
    t9,
    k0,
    k1,
    gp,
    sp,
    s8,
    ra,
}

impl CPURegisterName {
    /// The register number that the name stands for.
    pub open spec fn index_spec(self) -> int {
        match self {
            CPURegisterName::r0 => 0,
            CPURegisterName::at => 1,
            CPURegisterName::v0 => 2,
            CPURegisterName::v1 => 3,
            CPURegisterName::a0 => 4,
            CPURegisterName::a1 => 5,
            CPURegisterName::a2 => 6,
            CPURegisterName::a3 => 7,
            CPURegisterName::t0 => 8,
            CPURegisterName::t1 => 9,
            CPURegisterName::t2 => 10,
            CPURegisterName::t3 => 11,
            CPURegisterName::t4 => 12,
            CPURegisterName::t5 => 13,
            CPURegisterName::t6 => 14,
            CPURegisterName::t7 => 15,
            CPURegisterName::s0 => 16,
            CPURegisterName::s1 => 17,
            CPURegisterName::s2 => 18,
            CPURegisterName::s3 => 19,
            CPURegisterName::s4 => 20,
            CPURegisterName::s5 => 21,
            CPURegisterName::s6 => 22,
            CPURegisterName::s7 => 23,
            CPURegisterName::t8 => 24,
            CPURegisterName::t9 => 25,
            CPURegisterName::k0 => 26,
            CPURegisterName::k1 => 27,
            CPURegisterName::gp => 28,
            CPURegisterName::sp => 29,
            CPURegisterName::s8 => 30,
            CPURegisterName::ra => 31,
        }
    }

    pub fn index(self) -> (r: usize)
        ensures
            r == self.index_spec(),
            r < 32,
    {
        match self {
            CPURegisterName::r0 => 0,
            CPURegisterName::at => 1,
            CPURegisterName::v0 => 2,
            CPURegisterName::v1 => 3,
            CPURegisterName::a0 => 4,
            CPURegisterName::a1 => 5,
            CPURegisterName::a2 => 6,
            CPURegisterName::a3 => 7,
            CPURegisterName::t0 => 8,
            CPURegisterName::t1 => 9,
            CPURegisterName::t2 => 10,
            CPURegisterName::t3 => 11,
            CPURegisterName::t4 => 12,
            CPURegisterName::t5 => 13,
            CPURegisterName::t6 => 14,
            CPURegisterName::t7 => 15,
            CPURegisterName::s0 => 16,
            CPURegisterName::s1 => 17,
            CPURegisterName::s2 => 18,
            CPURegisterName::s3 => 19,
            CPURegisterName::s4 => 20,
            CPURegisterName::s5 => 21,
            CPURegisterName::s6 => 22,
            CPURegisterName::s7 => 23,
            CPURegisterName::t8 => 24,
            CPURegisterName::t9 => 25,
            CPURegisterName::k0 => 26,
            CPURegisterName::k1 => 27,
            CPURegisterName::gp => 28,
            CPURegisterName::sp => 29,
            CPURegisterName::s8 => 30,
            CPURegisterName::ra => 31,
        }
    }

    /// The name of register `value`, for `value` below 32.
    pub fn from_u8(value: u8) -> (r: Option<CPURegisterName>)
        ensures
            value < 32 ==> (r matches Some(n) && n.index_spec() == value),
            value >= 32 ==> r is None,
    {
        match value {
            0 => Some(CPURegisterName::r0),
            1 => Some(CPURegisterName::at),
            2 => Some(CPURegisterName::v0),
            3 => Some(CPURegisterName::v1),
            4 => Some(CPURegisterName::a0),
            5 => Some(CPURegisterName::a1),
            6 => Some(CPURegisterName::a2),
            7 => Some(CPURegisterName::a3),
            8 => Some(CPURegisterName::t0),
            9 => Some(CPURegisterName::t1),
            10 => Some(CPURegisterName::t2),
            11 => Some(CPURegisterName::t3),
            12 => Some(CPURegisterName::t4),
            13 => Some(CPURegisterName::t5),
            14 => Some(CPURegisterName::t6),
            15 => Some(CPURegisterName::t7),
            16 => Some(CPURegisterName::s0),
            17 => Some(CPURegisterName::s1),
            18 => Some(CPURegisterName::s2),
            19 => Some(CPURegisterName::s3),
            20 => Some(CPURegisterName::s4),
            21 => Some(CPURegisterName::s5),
            22 => Some(CPURegisterName::s6),
            23 => Some(CPURegisterName::s7),
            24 => Some(CPURegisterName::t8),
            25 => Some(CPURegisterName::t9),
            26 => Some(CPURegisterName::k0),
            27 => Some(CPURegisterName::k1),
            28 => Some(CPURegisterName::gp),
            29 => Some(CPURegisterName::sp),
            30 => Some(CPURegisterName::s8),
            31 => Some(CPURegisterName::ra),
            _ => None,
        }
    }
}

/// Names of the control coprocessor's registers; the unnamed numbers are
/// reserved.
#[derive(Debug, Copy, Clone, PartialEq, Eq, Structural)]
pub enum COP0RegisterName {
    Index,
    Random,
    EntryLo0,
    EntryLo1,
    Context,
    PageMask,
    Wired,
    BadVAddr,
    Count,
    EntryHi,
    Compare,
    Status,
    Cause,
    EPC,
    PRevID,
    Config,
    LLAddr,
    WatchLo,
    WatchHi,
    XContext,
    PErr,
    CacheErr,
    TagLo,
    TagHi,
    ErrorEPC,
    RESERVED,
}

impl COP0RegisterName {
    /// The register number that the name stands for; `RESERVED` stands for
    /// the last one.
    pub open spec fn index_spec(self) -> int {
        match self {
            COP0RegisterName::Index => 0x00,
            COP0RegisterName::Random => 0x01,
            COP0RegisterName::EntryLo0 => 0x02,
            COP0RegisterName::EntryLo1 => 0x03,
            COP0RegisterName::Context => 0x04,
            COP0RegisterName::PageMask => 0x05,
            COP0RegisterName::Wired => 0x06,
            COP0RegisterName::BadVAddr => 0x08,
            COP0RegisterName::Count => 0x09,
            COP0RegisterName::EntryHi => 0x0A,
            COP0RegisterName::Compare => 0x0B,
            COP0RegisterName::Status => 0x0C,
            COP0RegisterName::Cause => 0x0D,
            COP0RegisterName::EPC => 0x0E,
            COP0RegisterName::PRevID => 0x0F,
            COP0RegisterName::Config => 0x10,
            COP0RegisterName::LLAddr => 0x11,
            COP0RegisterName::WatchLo => 0x12,
            COP0RegisterName::WatchHi => 0x13,
            COP0RegisterName::XContext => 0x14,
            COP0RegisterName::PErr => 0x1A,
            COP0RegisterName::CacheErr => 0x1B,
            COP0RegisterName::TagLo => 0x1C,
            COP0RegisterName::TagHi => 0x1D,
            COP0RegisterName::ErrorEPC => 0x1E,
            COP0RegisterName::RESERVED => 0x1F,
        }
    }

    pub fn index(self) -> (r: usize)
        ensures
            r == self.index_spec(),
            r < 32,
    {
        match self {
            COP0RegisterName::Index => 0x00,
            COP0RegisterName::Random => 0x01,
            COP0RegisterName::EntryLo0 => 0x02,
            COP0RegisterName::EntryLo1 => 0x03,
            COP0RegisterName::Context => 0x04,
            COP0RegisterName::PageMask => 0x05,
            COP0RegisterName::Wired => 0x06,
            COP0RegisterName::BadVAddr => 0x08,
            COP0RegisterName::Count => 0x09,
            COP0RegisterName::EntryHi => 0x0A,
            COP0RegisterName::Compare => 0x0B,
            COP0RegisterName::Status => 0x0C,
            COP0RegisterName::Cause => 0x0D,
            COP0RegisterName::EPC => 0x0E,
            COP0RegisterName::PRevID => 0x0F,
            COP0RegisterName::Config => 0x10,
            COP0RegisterName::LLAddr => 0x11,
            COP0RegisterName::WatchLo => 0x12,
            COP0RegisterName::WatchHi => 0x13,
            COP0RegisterName::XContext => 0x14,
            COP0RegisterName::PErr => 0x1A,
            COP0RegisterName::CacheErr => 0x1B,
            COP0RegisterName::TagLo => 0x1C,
            COP0RegisterName::TagHi => 0x1D,
            COP0RegisterName::ErrorEPC => 0x1E,
            COP0RegisterName::RESERVED => 0x1F,
        }
    }

    /// Whether register number `value` has a name of its own.
    pub open spec fn is_named(value: u8) -> bool {
        value <= 0x06 || (0x08 <= value <= 0x14) || (0x1A <= value <= 0x1E)
    }

    /// The name of register `value`: its own, or `RESERVED` for a reserved
    /// number; `None` above 31.
    pub fn from_u8(value: u8) -> (r: Option<COP0RegisterName>)
        ensures
            Self::is_named(value) ==> (r matches Some(n) && n.index_spec() == value && n != COP0RegisterName::RESERVED),
            value < 32 && !Self::is_named(value) ==> r == Some(COP0RegisterName::RESERVED),
            value >= 32 ==> r is None,
    {
        match value {
            0x00 => Some(COP0RegisterName::Index),
            0x01 => Some(COP0RegisterName::Random),
            0x02 => Some(COP0RegisterName::EntryLo0),
            0x03 => Some(COP0RegisterName::EntryLo1),
            0x04 => Some(COP0RegisterName::Context),
            0x05 => Some(COP0RegisterName::PageMask),
            0x06 => Some(COP0RegisterName::Wired),
            0x08 => Some(COP0RegisterName::BadVAddr),
            0x09 => Some(COP0RegisterName::Count),
            0x0A => Some(COP0RegisterName::EntryHi),
            0x0B => Some(COP0RegisterName::Compare),
            0x0C => Some(COP0RegisterName::Status),
            0x0D => Some(COP0RegisterName::Cause),
            0x0E => Some(COP0RegisterName::EPC),
            0x0F => Some(COP0RegisterName::PRevID),
            0x10 => Some(COP0RegisterName::Config),
            0x11 => Some(COP0RegisterName::LLAddr),
            0x12 => Some(COP0RegisterName::WatchLo),
            0x13 => Some(COP0RegisterName::WatchHi),
            0x14 => Some(COP0RegisterName::XContext),
            0x1A => Some(COP0RegisterName::PErr),
            0x1B => Some(COP0RegisterName::CacheErr),
            0x1C => Some(COP0RegisterName::TagLo),
            0x1D => Some(COP0RegisterName::TagHi),
            0x1E => Some(COP0RegisterName::ErrorEPC),
            0x07 | 0x15..=0x19 | 0x1F => Some(COP0RegisterName::RESERVED),
            _ => None,
        }
    }
}

} // verus!
