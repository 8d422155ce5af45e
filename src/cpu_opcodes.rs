use vstd::prelude::*;

use crate::binary_helpers::{
    add_u16_to_u32_as_i16_overflow, add_u16_to_u32_as_i16_trap, add_u32_overflow, add_u32_trap,
    multiply_u32_as_unsigned, sign_extend_16, sub_u32_overflow, wrap32,
};
use crate::connector::{merge_byte, Connector};
use crate::cpu::{set_register, COP0RegisterName, CPURegisterName, CpuModel, CPU};
use crate::exceptions::Exception;

verus! {

/// Field `[lo, lo + 5)` of an instruction word, one of its register numbers.
pub open spec fn reg_field(word: u32, lo: u32) -> u8 {
    ((word >> lo) & 0x1F) as u8
}

/// A decoded instruction word.
#[derive(Debug, Copy, Clone, PartialEq, Eq, Structural)]
pub struct Opcode {
    pub opcode: u32,
    pub command: Command,
    pub rs: u8,
    pub rt: u8,
    pub rd: u8,
    pub sa: u8,
    pub fs: u8,
    pub ft: u8,
    pub fd: u8,
    pub base: u8,
    pub imm: u16,
    pub offset: u16,
    pub target: u32,
}

impl Opcode {
    /// Every register field names one of the 32 registers.
    pub open spec fn wf(self) -> bool {
        &&& self.rs < 32
        &&& self.rt < 32
        &&& self.rd < 32
        &&& self.sa < 32
        &&& self.fs < 32
        &&& self.ft < 32
        &&& self.fd < 32
        &&& self.base < 32
    }

    /// The instruction word `w` split into its fields.
    pub open spec fn decoded(w: u32) -> Opcode {
        Opcode {
            opcode: w,
            command: decode(w),
            rs: reg_field(w, 21),
            rt: reg_field(w, 16),
            rd: reg_field(w, 11),
            sa: reg_field(w, 6),
            fs: reg_field(w, 11),
            ft: reg_field(w, 16),
            fd: reg_field(w, 6),
            base: reg_field(w, 21),
            imm: (w & 0xFFFF) as u16,
            offset: (w & 0xFFFF) as u16,
            target: w & 0x03FFFFFF,
        }
    }

    /// Every decoded word names registers in range.
    pub proof fn lemma_decoded_wf(w: u32)
        ensures
            Opcode::decoded(w).wf(),
    {
        assert(forall|lo: u32| #![trigger (w >> lo) & 0x1F] (w >> lo) & 0x1F < 32) by (bit_vector);
    }

    pub fn new(opcode: u32) -> (r: Opcode)
        ensures
            r == Opcode::decoded(opcode),
            r.wf(),
    {
        proof {
            Opcode::lemma_decoded_wf(opcode);
        }
        Opcode {
            opcode: opcode,
            command: Command::from_opcode(opcode),
            rs: ((opcode >> 21u32) & 0x1F) as u8,
            rt: ((opcode >> 16u32) & 0x1F) as u8,
            rd: ((opcode >> 11u32) & 0x1F) as u8,
            sa: ((opcode >> 6u32) & 0x1F) as u8,
            fs: ((opcode >> 11u32) & 0x1F) as u8,
            ft: ((opcode >> 16u32) & 0x1F) as u8,
            fd: ((opcode >> 6u32) & 0x1F) as u8,
            base: ((opcode >> 21u32) & 0x1F) as u8,
            imm: (opcode & 0xFFFF) as u16,
            offset: (opcode & 0xFFFF) as u16,
            target: opcode & 0x03FFFFFF,
        }
    }

    pub fn execute(&self, cpu: &mut CPU, connector: &mut Connector) -> (r: Result<(), Exception>)
        requires
            self.wf(),
            old(cpu).wf(),
            old(connector).wf(),
        ensures
            final(cpu).wf(),
            final(connector).wf(),
            executed(self.command, *self, old(cpu)@, final(cpu)@, *old(connector), *final(connector), r),
    {
        self.command.parse(self, cpu, connector)
    }
}

/// The instruction mnemonics.
#[derive(Debug, Copy, Clone, PartialEq, Eq, Structural)]
#[allow(non_camel_case_types)]
pub enum Command {
    LB,
    LBU,
    LD,
    LDL,
    LDR,
    LH,
    LHU,
    LL,
    LLD,
    LW,
    LWL,
    LWR,
    LWU,
    SB,
    SC,
    SCD,
    SD,
    SDL,
    SDR,
    SH,
    SW,
    SWL,
    SWR,
    SYNC,
    ADD,
    ADDI,
    ADDIU,
    ADDU,
    AND,
    ANDI,
    DADD,
    DADDI,
    DADDIU,
    DADDU,
    DDIV,
    DDIVU,
    DIV,
    DIVU,
    DMULT,
    DMULTU,
    DSLL,
    DSLL32,
    DSLLV,
    DSRA,
    DSRA32,
    DSRAV,
    DSRL,
    DSRL32,
    DSRLV,
    DSUB,
    DSUBU,
    LUI,
    MFHI,
    MFLO,
    MTHI,
    MTLO,
    MULT,
    MULTU,
    NOR,
    OR,
    ORI,
    SLL,
    SLLV,
    SLT,
    SLTI,
    SLTIU,
    SLTU,
    SRA,
    SRAV,
    SRL,
    SRLV,
    SUB,
    SUBU,
    XOR,
    XORI,
    BEQ,
    BEQL,
    BGEZ,
    BGEZAL,
    BGEZALL,
    BGEZL,
    BGTZ,
    BGTZL,
    BLEZ,
    BLEZL,
    BLTZ,
    BLTZAL,
    BLTZALL,
    BLTZL,
    BNE,
    BNEL,
    J,
    JAL,
    JALR,
    JR,
    BREAK,
    SYSCALL,
    TEQ,
    TEQI,
    TGE,
    TGEI,
    TGEIU,
    TGEU,
    TLT,
    TLTI,
    TLTIU,
    TLTU,
    TNE,
    TNEI,
    CACHE,
    ERET,
    MFC0,
    MTC0,
    TLBP,
    TLBR,
    TLBWI,
    TLBWR,
    ABS_fmt,
    ADD_fmt,
    BC1F,
    BC1FL,
    BC1T,
    BC1TL,
    C_cond_fmt,
    CEIL_L_fmt,
    CEIL_W_fmt,
    CFC1,
    CTC1,
    CVT_D_fmt,
    CVT_L_fmt,
    CVT_S_fmt,
    CVT_W_fmt,
    DIV_fmt,
    DMFC1,
    DMTC1,
    FLOOR_L_fmt,
    FLOOR_W_fmt,
    LDC1,
    LWC1,
    MFC1,
    MOV_fmt,
    MTC1,
    MUL_fmt,
    NEG_fmt,
    ROUND_L_fmt,
    ROUND_W_fmt,
    SDC1,
    SQRT_fmt,
    SUB_fmt,
    SWC1,
    TRUNC_L_fmt,
    TRUNC_W_fmt,
    NOP,
    MOVE,
    NEG,
    NEGU,
    BNEZ,
    BNEZL,
    BEQZ,
    BEQZL,
    B,
    BAL,
    LI,
    S_S,
    L_S,
    UNIMPLEMENTED,
    CACHE_I_ST,
}

/// The mnemonic of an instruction word: by the primary opcode (bits 26 to
/// 31), then for the special, register-immediate, coprocessor and cache
/// groups by a secondary field.
pub open spec fn decode(w: u32) -> Command {
    let primary = w >> 26u32;
    let funct = w & 0x3F;
    let rt = (w >> 16u32) & 0x1F;
    let rs = (w >> 21u32) & 0x1F;
    match primary {
        0x00 => match funct {
            0x00 => Command::SLL,
            0x02 => Command::SRL,
            0x08 => Command::JR,
            0x12 => Command::MFLO,
            0x19 => Command::MULTU,
            0x20 => Command::ADD,
            0x21 => Command::ADDU,
            0x23 => Command::SUBU,
            0x24 => Command::AND,
            0x25 => Command::OR,
            0x2A => Command::SLT,
            0x2B => Command::SLTU,
            _ => Command::UNIMPLEMENTED,
        },
        0x01 => match rt {
            0x03 => Command::BGEZL,
            _ => Command::UNIMPLEMENTED,
        },
        0x03 => Command::JAL,
        0x04 => Command::BEQ,
        0x05 => Command::BNE,
        0x08 => Command::ADDI,
        0x09 => Command::ADDIU,
        0x0A => Command::SLTI,
        0x0C => Command::ANDI,
        0x0D => Command::ORI,
        0x0E => Command::XORI,
        0x0F => Command::LUI,
        0x14 => Command::BEQL,
        0x15 => Command::BNEL,
        0x16 => Command::BLEZL,
        0x23 => Command::LW,
        0x24 => Command::LBU,
        0x28 => Command::SB,
        0x2B => Command::SW,
        0x10 => match rs {
            0x04 => Command::MTC0,
            _ => Command::UNIMPLEMENTED,
        },
        0x2F => match rt {
            0x08 => Command::CACHE_I_ST,
            _ => Command::UNIMPLEMENTED,
        },
        _ => Command::UNIMPLEMENTED,
    }
}

/// A word read as a two's-complement number.
pub open spec fn as_signed(v: u32) -> int {
    if v < 0x8000_0000 {
        v as int
    } else {
        v as int - 0x1_0000_0000
    }
}

/// Target of a relative branch: the word displacement `imm` added to the
/// address after the branch.
pub open spec fn branch_target(pc: u32, imm: u16) -> u32 {
    wrap32(pc + sign_extend_16(imm) * 4)
}

/// Effective address of a load: base register plus signed displacement.
pub open spec fn load_address(op: Opcode, m: CpuModel) -> u32 {
    wrap32(m.gpr_u32(op.base as int) + sign_extend_16(op.imm))
}

/// Effective address of a store: base register plus signed displacement.
pub open spec fn store_address(op: Opcode, m: CpuModel) -> u32 {
    wrap32(m.gpr_u32(op.base as int) + sign_extend_16(op.offset))
}

/// Virtual address that a cache operation names.
pub open spec fn cache_address(op: Opcode, m: CpuModel) -> u32 {
    wrap32(op.offset + m.gpr_u32(op.base as int))
}

/// `taken`: schedule the branch; otherwise leave the state alone.
pub open spec fn branch(m: CpuModel, taken: bool, imm: u16) -> CpuModel {
    if taken {
        m.schedule(branch_target(m.pc_u32(), imm))
    } else {
        m
    }
}

/// `taken`: schedule the branch; otherwise skip the delay-slot instruction.
pub open spec fn branch_likely(m: CpuModel, taken: bool, imm: u16) -> CpuModel {
    if taken {
        m.schedule(branch_target(m.pc_u32(), imm))
    } else {
        m.set_pc(wrap32(m.pc_u32() + 4))
    }
}

/// What an instruction that does not touch the bus does to the CPU state.
pub open spec fn alu_spec(cmd: Command, op: Opcode, m: CpuModel) -> Result<CpuModel, Exception> {
    let rs = m.gpr_u32(op.rs as int);
    let rt = m.gpr_u32(op.rt as int);
    let rd_i = op.rd as int;
    let rt_i = op.rt as int;
    match cmd {
        Command::ADD => if rs + rt < 0x1_0000_0000 {
            Ok(m.set_gpr(rd_i, (rs + rt) as u32))
        } else {
            Err(Exception::INTEGER_OVERFLOW)
        },
        Command::ADDI => if 0 <= rs + sign_extend_16(op.imm) < 0x1_0000_0000 {
            Ok(m.set_gpr(rt_i, (rs + sign_extend_16(op.imm)) as u32))
        } else {
            Err(Exception::INTEGER_OVERFLOW)
        },
        Command::ADDIU => Ok(m.set_gpr(rt_i, wrap32(rs + sign_extend_16(op.imm)))),
        Command::ADDU => Ok(m.set_gpr(rd_i, wrap32(rs + rt))),
        Command::AND => Ok(m.set_gpr(rd_i, rs & rt)),
        Command::ANDI => Ok(m.set_gpr(rt_i, rs & (op.imm as u32))),
        Command::BEQ => Ok(branch(m, rs == rt, op.imm)),
        Command::BEQL => Ok(branch_likely(m, rs == rt, op.imm)),
        Command::BNE => Ok(branch(m, rs != rt, op.imm)),
        Command::BNEL => Ok(branch_likely(m, rs != rt, op.imm)),
        Command::BLEZL => Ok(branch_likely(m, as_signed(rs) <= 0, op.imm)),
        Command::BGEZL => Ok(branch_likely(m, as_signed(rs) >= 0, op.imm)),
        Command::CACHE_I_ST => Ok(m),
        Command::JAL => Ok(
            m.set_gpr(CPURegisterName::ra.index_spec(), wrap32(m.pc_u32() + 4)).schedule(
                (m.pc_u32() & 0xF000_0000) | (op.target << 2u32),
            ),
        ),
        Command::JR => Ok(m.schedule(rs)),
        Command::LUI => Ok(m.set_gpr(rt_i, (op.imm as u32) << 16u32)),
        Command::MFLO => Ok(m.set_gpr(rd_i, m.lo.value as u32)),
        Command::MTC0 => Ok(m.set_cop0(op.fs as int, rt)),
        Command::MULTU => Ok(
            CpuModel {
                lo: m.lo.with_value(((rs * rt) % 0x1_0000_0000) as u64),
                hi: m.hi.with_value(((rs * rt) / 0x1_0000_0000) as u64),
                ..m
            },
        ),
        Command::OR => Ok(m.set_gpr(rd_i, rs | rt)),
        Command::ORI => Ok(m.set_gpr(rt_i, rs | (op.imm as u32))),
        Command::SLL => Ok(m.set_gpr(rd_i, rt << (op.sa as u32))),
        Command::SLT => Ok(m.set_gpr(rd_i, if as_signed(rs) < as_signed(rt) { 1 } else { 0 })),
        Command::SLTI => Ok(m.set_gpr(rt_i, if rs < op.imm as u32 { 1 } else { 0 })),
        Command::SLTU => Ok(m.set_gpr(rd_i, if rs < rt { 1 } else { 0 })),
        Command::SRL => Ok(m.set_gpr(rd_i, rt >> (op.sa as u32))),
        Command::SUBU => Ok(m.set_gpr(rd_i, wrap32(rs - rt))),
        Command::XORI => Ok(m.set_gpr(rt_i, rs ^ (op.imm as u32))),
        _ => Err(Exception::UNIMPLEMENTED_OPCODE),
    }
}

/// What an instruction does to the CPU state, with `bus` the bus before it.
pub open spec fn exec_spec(cmd: Command, op: Opcode, m: CpuModel, bus: Connector) -> Result<CpuModel, Exception> {
    match cmd {
        Command::LBU => match bus.read_u8_spec(load_address(op, m)) {
            Ok(b) => Ok(m.set_gpr(op.rt as int, b as u32)),
            Err(e) => Err(e),
        },
        Command::LW => match bus.read_spec(load_address(op, m)) {
            Ok(w) => Ok(m.set_gpr(op.rt as int, w)),
            Err(e) => Err(e),
        },
        Command::SB => {
            let a = store_address(op, m);
            let aligned = (a - a % 4) as u32;
            match bus.read_spec(aligned) {
                Ok(_) => match Connector::store_result(aligned) {
                    Ok(_) => Ok(m),
                    Err(e) => Err(e),
                },
                Err(e) => Err(e),
            }
        },
        Command::SW => match Connector::store_result(store_address(op, m)) {
            Ok(_) => Ok(m),
            Err(e) => Err(e),
        },
        _ => alu_spec(cmd, op, m),
    }
}

/// What an instruction does to the bus: stores write through it, the cache
/// operation sets a tag, everything else leaves it alone.
pub open spec fn bus_effect(cmd: Command, op: Opcode, m: CpuModel, old: Connector, new: Connector) -> bool {
    match cmd {
        Command::SW => {
            let a = store_address(op, m);
            if Connector::store_result(a) is Ok {
                old.stored_by(new, a, m.gpr_u32(op.rt as int))
            } else {
                new == old
            }
        },
        Command::SB => {
            let a = store_address(op, m);
            let aligned = (a - a % 4) as u32;
            match old.read_spec(aligned) {
                Ok(w) => if Connector::store_result(aligned) is Ok {
                    old.stored_by(new, aligned, merge_byte(w, a % 4, m.gpr_u32(op.rt as int) as u8))
                } else {
                    new == old
                },
                Err(_) => new == old,
            }
        },
        Command::CACHE_I_ST => old.tag_set_by(
            new,
            cache_address(op, m),
            m.cop0_u32(COP0RegisterName::TagLo.index_spec()),
        ),
        _ => new == old,
    }
}

/// `new` and `r` are the state and result that `res` describes: on success
/// the state it gives, on a fault the state unchanged.
pub open spec fn outcome(res: Result<CpuModel, Exception>, old: CpuModel, new: CpuModel, r: Result<(), Exception>) -> bool {
    match res {
        Ok(m) => r is Ok && new == m,
        Err(e) => r == Err::<(), Exception>(e) && new == old,
    }
}

/// Running `cmd` on state `m_old` and bus `b_old` gave `m_new`, `b_new` and `r`.
pub open spec fn executed(
    cmd: Command,
    op: Opcode,
    m_old: CpuModel,
    m_new: CpuModel,
    b_old: Connector,
    b_new: Connector,
    r: Result<(), Exception>,
) -> bool {
    &&& outcome(exec_spec(cmd, op, m_old, b_old), m_old, m_new, r)
    &&& bus_effect(cmd, op, m_old, b_old, b_new)
}

impl Command {
    pub fn from_opcode(opcode: u32) -> (r: Command)
        ensures
            r == decode(opcode),
    {
        let command_value: u32 = opcode >> 26u32;
        let command2_value: u32 = (opcode >> 21u32) & 0x1F;
        let branch_value: u32 = (opcode >> 16u32) & 0x1F;
        let secondary_value: u32 = opcode & 0x3F;
        match command_value {
            0x00 => match secondary_value {
                0x00 => Command::SLL,
                0x02 => Command::SRL,
                0x08 => Command::JR,
                0x12 => Command::MFLO,
                0x19 => Command::MULTU,
                0x20 => Command::ADD,
                0x21 => Command::ADDU,
                0x23 => Command::SUBU,
                0x24 => Command::AND,
                0x25 => Command::OR,
                0x2A => Command::SLT,
                0x2B => Command::SLTU,
                _ => Command::UNIMPLEMENTED,
            },
            0x01 => match branch_value {
                0x03 => Command::BGEZL,
                _ => Command::UNIMPLEMENTED,
            },
            0x03 => Command::JAL,
            0x04 => Command::BEQ,
            0x05 => Command::BNE,
            0x08 => Command::ADDI,
            0x09 => Command::ADDIU,
            0x0A => Command::SLTI,
            0x0C => Command::ANDI,
            0x0D => Command::ORI,
            0x0E => Command::XORI,
            0x0F => Command::LUI,
            0x14 => Command::BEQL,
            0x15 => Command::BNEL,
            0x16 => Command::BLEZL,
            0x23 => Command::LW,
            0x24 => Command::LBU,
            0x28 => Command::SB,
            0x2B => Command::SW,
            0x10 => match command2_value {
                0x04 => Command::MTC0,
                _ => Command::UNIMPLEMENTED,
            },
            0x2F => match branch_value {
                0x08 => Command::CACHE_I_ST,
                _ => Command::UNIMPLEMENTED,
            },
            _ => Command::UNIMPLEMENTED,
        }
    }

    /// Runs the instruction this mnemonic names, with the operands of
    /// `opcode`.
    #[verifier::rlimit(40)]
    pub fn parse(self, opcode: &Opcode, cpu: &mut CPU, connector: &mut Connector) -> (r: Result<(), Exception>)
        requires
            opcode.wf(),
            old(cpu).wf(),
            old(connector).wf(),
        ensures
            final(cpu).wf(),
            final(connector).wf(),
            executed(self, *opcode, old(cpu)@, final(cpu)@, *old(connector), *final(connector), r),
    {
        match self {
            Command::ADD => execute_ADD(opcode, cpu),
            Command::ADDI => execute_ADDI(opcode, cpu),
            Command::ADDIU => {
                execute_ADDIU(opcode, cpu);
                Ok(())
            },
            Command::ADDU => {
                execute_ADDU(opcode, cpu);
                Ok(())
            },
            Command::AND => {
                execute_AND(opcode, cpu);
                Ok(())
            },
            Command::ANDI => {
                execute_ANDI(opcode, cpu);
                Ok(())
            },
            Command::BEQ => {
                execute_BEQ(opcode, cpu);
                Ok(())
            },
            Command::BEQL => {
                execute_BEQL(opcode, cpu);
                Ok(())
            },
            Command::BLEZL => {
                execute_BLEZL(opcode, cpu);
                Ok(())
            },
            Command::BGEZL => {
                execute_BGEZL(opcode, cpu);
                Ok(())
            },
            Command::BNE => {
                execute_BNE(opcode, cpu);
                Ok(())
            },
            Command::BNEL => {
                execute_BNEL(opcode, cpu);
                Ok(())
            },
            Command::CACHE_I_ST => {
                execute_CACHE_I_ST(opcode, cpu, connector);
                Ok(())
            },
            Command::JAL => {
                execute_JAL(opcode, cpu);
                Ok(())
            },
            Command::JR => {
                execute_JR(opcode, cpu);
                Ok(())
            },
            Command::LBU => execute_LBU(opcode, cpu, connector),
            Command::LUI => {
                execute_LUI(opcode, cpu);
                Ok(())
            },
            Command::LW => execute_LW(opcode, cpu, connector),
            Command::MFLO => {
                execute_MFLO(opcode, cpu);
                Ok(())
            },
            Command::MTC0 => {
                execute_MTC0(opcode, cpu);
                Ok(())
            },
            Command::MULTU => {
                execute_MULTU(opcode, cpu);
                Ok(())
            },
            Command::OR => {
                execute_OR(opcode, cpu);
                Ok(())
            },
            Command::ORI => {
                execute_ORI(opcode, cpu);
                Ok(())
            },
            Command::SB => execute_SB(opcode, cpu, connector),
            Command::SLL => {
                execute_SLL(opcode, cpu);
                Ok(())
            },
            Command::SLT => {
                execute_SLT(opcode, cpu);
                Ok(())
            },
            Command::SLTI => {
                execute_SLTI(opcode, cpu);
                Ok(())
            },
            Command::SLTU => {
                execute_SLTU(opcode, cpu);
                Ok(())
            },
            Command::SRL => {
                execute_SRL(opcode, cpu);
                Ok(())
            },
            Command::SUBU => {
                execute_SUBU(opcode, cpu);
                Ok(())
            },
            Command::SW => execute_SW(opcode, cpu, connector),
            Command::XORI => {
                execute_XORI(opcode, cpu);
                Ok(())
            },
            _ => Err(Exception::UNIMPLEMENTED_OPCODE),
        }
    }
}

fn gpr(cpu: &CPU, i: u8) -> (r: u32)
    requires
        cpu.wf(),
        i < 32,
    ensures
        r == cpu@.gpr_u32(i as int),
{
    cpu.cpu_registers.register[i as usize].get_value() as u32
}

fn write_gpr(cpu: &mut CPU, i: u8, v: u32)
    requires
        old(cpu).wf(),
        i < 32,
    ensures
        final(cpu).wf(),
        final(cpu)@ == old(cpu)@.set_gpr(i as int, v),
{
    set_register(&mut cpu.cpu_registers.register, i as usize, v);
}

fn pc(cpu: &CPU) -> (r: u32)
    ensures
        r == cpu@.pc_u32(),
{
    cpu.program_counter.get_value() as u32
}

fn schedule(cpu: &mut CPU, target: u32)
    ensures
        final(cpu)@ == old(cpu)@.schedule(target),
        final(cpu).wf() == old(cpu).wf(),
{
    cpu.pc_save = target;
    cpu.pc_save_count = 2;
}

fn skip_delay_slot(cpu: &mut CPU)
    ensures
        final(cpu)@ == old(cpu)@.set_pc(wrap32(old(cpu)@.pc_u32() + 4)),
        final(cpu).wf() == old(cpu).wf(),
{
    let new_pc = add_u32_overflow(pc(cpu), 4);
    cpu.program_counter.set_u32(new_pc);
}

fn compute_branch_target(pc: u32, imm: u16) -> (r: u32)
    ensures
        r == branch_target(pc, imm),
{
    let ext: i64 = if imm < 0x8000 {
        imm as i64
    } else {
        imm as i64 - 0x10000
    };
    let t: i64 = pc as i64 + ext * 4;
    if t < 0 {
        (t + 0x1_0000_0000) as u32
    } else if t >= 0x1_0000_0000 {
        (t - 0x1_0000_0000) as u32
    } else {
        t as u32
    }
}

fn signed_less(a: u32, b: u32) -> (r: bool)
    ensures
        r == (as_signed(a) < as_signed(b)),
{
    if (a < 0x8000_0000) == (b < 0x8000_0000) {
        a < b
    } else {
        a >= 0x8000_0000
    }
}
#[allow(non_snake_case)]
fn execute_ADD(opcode: &Opcode, cpu: &mut CPU) -> (r: Result<(), Exception>)
    requires
        opcode.wf(),
        old(cpu).wf(),
    ensures
        final(cpu).wf(),
        outcome(alu_spec(Command::ADD, *opcode, old(cpu)@), old(cpu)@, final(cpu)@, r),
{
    let new_value = add_u32_trap(gpr(cpu, opcode.rs), gpr(cpu, opcode.rt))?;
    write_gpr(cpu, opcode.rd, new_value);
    Ok(())
}

#[allow(non_snake_case)]
fn execute_ADDI(opcode: &Opcode, cpu: &mut CPU) -> (r: Result<(), Exception>)
    requires
        opcode.wf(),
        old(cpu).wf(),
    ensures
        final(cpu).wf(),
        outcome(alu_spec(Command::ADDI, *opcode, old(cpu)@), old(cpu)@, final(cpu)@, r),
{
    let new_value = add_u16_to_u32_as_i16_trap(gpr(cpu, opcode.rs), opcode.imm)?;
    write_gpr(cpu, opcode.rt, new_value);
    Ok(())
}

#[allow(non_snake_case)]
fn execute_ADDIU(opcode: &Opcode, cpu: &mut CPU)
    requires
        opcode.wf(),
        old(cpu).wf(),
    ensures
        final(cpu).wf(),
        alu_spec(Command::ADDIU, *opcode, old(cpu)@) == Ok::<CpuModel, Exception>(final(cpu)@),
{
    write_gpr(cpu, opcode.rt, add_u16_to_u32_as_i16_overflow(gpr(cpu, opcode.rs), opcode.imm));
}

#[allow(non_snake_case)]
fn execute_ADDU(opcode: &Opcode, cpu: &mut CPU)
    requires
        opcode.wf(),
        old(cpu).wf(),
    ensures
        final(cpu).wf(),
        alu_spec(Command::ADDU, *opcode, old(cpu)@) == Ok::<CpuModel, Exception>(final(cpu)@),
{
    write_gpr(cpu, opcode.rd, add_u32_overflow(gpr(cpu, opcode.rs), gpr(cpu, opcode.rt)));
}

#[allow(non_snake_case)]
fn execute_AND(opcode: &Opcode, cpu: &mut CPU)
    requires
        opcode.wf(),
        old(cpu).wf(),
    ensures
        final(cpu).wf(),
        alu_spec(Command::AND, *opcode, old(cpu)@) == Ok::<CpuModel, Exception>(final(cpu)@),
{
    let l_value = gpr(cpu, opcode.rs);
    let r_value = gpr(cpu, opcode.rt);
    write_gpr(cpu, opcode.rd, l_value & r_value);
}

#[allow(non_snake_case)]
fn execute_ANDI(opcode: &Opcode, cpu: &mut CPU)
    requires
        opcode.wf(),
        old(cpu).wf(),
    ensures
        final(cpu).wf(),
        alu_spec(Command::ANDI, *opcode, old(cpu)@) == Ok::<CpuModel, Exception>(final(cpu)@),
{
    let new_value = gpr(cpu, opcode.rs) & (opcode.imm as u32);
    write_gpr(cpu, opcode.rt, new_value);
}

#[allow(non_snake_case)]
fn execute_BEQ(opcode: &Opcode, cpu: &mut CPU)
    requires
        opcode.wf(),
        old(cpu).wf(),
    ensures
        final(cpu).wf(),
        alu_spec(Command::BEQ, *opcode, old(cpu)@) == Ok::<CpuModel, Exception>(final(cpu)@),
{
    if gpr(cpu, opcode.rs) == gpr(cpu, opcode.rt) {
        let target = compute_branch_target(pc(cpu), opcode.imm);
        schedule(cpu, target);
    }
}

#[allow(non_snake_case)]
fn execute_BEQL(opcode: &Opcode, cpu: &mut CPU)
    requires
        opcode.wf(),
        old(cpu).wf(),
    ensures
        final(cpu).wf(),
        alu_spec(Command::BEQL, *opcode, old(cpu)@) == Ok::<CpuModel, Exception>(final(cpu)@),
{
    if gpr(cpu, opcode.rs) == gpr(cpu, opcode.rt) {
        let target = compute_branch_target(pc(cpu), opcode.imm);
        schedule(cpu, target);
    } else {
        skip_delay_slot(cpu);
    }
}

#[allow(non_snake_case)]
fn execute_BNE(opcode: &Opcode, cpu: &mut CPU)
    requires
        opcode.wf(),
        old(cpu).wf(),
    ensures
        final(cpu).wf(),
        alu_spec(Command::BNE, *opcode, old(cpu)@) == Ok::<CpuModel, Exception>(final(cpu)@),
{
    if gpr(cpu, opcode.rs) != gpr(cpu, opcode.rt) {
        let target = compute_branch_target(pc(cpu), opcode.imm);
        schedule(cpu, target);
    }
}

#[allow(non_snake_case)]
fn execute_BNEL(opcode: &Opcode, cpu: &mut CPU)
    requires
        opcode.wf(),
        old(cpu).wf(),
    ensures
        final(cpu).wf(),
        alu_spec(Command::BNEL, *opcode, old(cpu)@) == Ok::<CpuModel, Exception>(final(cpu)@),
{
    if gpr(cpu, opcode.rs) != gpr(cpu, opcode.rt) {
        let target = compute_branch_target(pc(cpu), opcode.imm);
        schedule(cpu, target);
    } else {
        skip_delay_slot(cpu);
    }
}

#[allow(non_snake_case)]
fn execute_BLEZL(opcode: &Opcode, cpu: &mut CPU)
    requires
        opcode.wf(),
        old(cpu).wf(),
    ensures
        final(cpu).wf(),
        alu_spec(Command::BLEZL, *opcode, old(cpu)@) == Ok::<CpuModel, Exception>(final(cpu)@),
{
    let test_value = gpr(cpu, opcode.rs);
    if test_value == 0 || test_value >= 0x8000_0000 {
        let target = compute_branch_target(pc(cpu), opcode.imm);
        schedule(cpu, target);
    } else {
        skip_delay_slot(cpu);
    }
}

#[allow(non_snake_case)]
fn execute_BGEZL(opcode: &Opcode, cpu: &mut CPU)
    requires
        opcode.wf(),
        old(cpu).wf(),
    ensures
        final(cpu).wf(),
        alu_spec(Command::BGEZL, *opcode, old(cpu)@) == Ok::<CpuModel, Exception>(final(cpu)@),
{
    let test_value = gpr(cpu, opcode.rs);
    if test_value < 0x8000_0000 {
        let target = compute_branch_target(pc(cpu), opcode.imm);
        schedule(cpu, target);
    } else {
        skip_delay_slot(cpu);
    }
}

#[allow(non_snake_case)]
fn execute_JAL(opcode: &Opcode, cpu: &mut CPU)
    requires
        opcode.wf(),
        old(cpu).wf(),
    ensures
        final(cpu).wf(),
        alu_spec(Command::JAL, *opcode, old(cpu)@) == Ok::<CpuModel, Exception>(final(cpu)@),
{
    let current_pc = pc(cpu);
    write_gpr(cpu, CPURegisterName::ra.index() as u8, add_u32_overflow(current_pc, 4));
    schedule(cpu, (current_pc & 0xF000_0000) | (opcode.target << 2u32));
}

#[allow(non_snake_case)]
fn execute_JR(opcode: &Opcode, cpu: &mut CPU)
    requires
        opcode.wf(),
        old(cpu).wf(),
    ensures
        final(cpu).wf(),
        alu_spec(Command::JR, *opcode, old(cpu)@) == Ok::<CpuModel, Exception>(final(cpu)@),
{
    let target = gpr(cpu, opcode.rs);
    schedule(cpu, target);
}

#[allow(non_snake_case)]
fn execute_LUI(opcode: &Opcode, cpu: &mut CPU)
    requires
        opcode.wf(),
        old(cpu).wf(),
    ensures
        final(cpu).wf(),
        alu_spec(Command::LUI, *opcode, old(cpu)@) == Ok::<CpuModel, Exception>(final(cpu)@),
{
    write_gpr(cpu, opcode.rt, (opcode.imm as u32) << 16u32);
}

#[allow(non_snake_case)]
fn execute_MFLO(opcode: &Opcode, cpu: &mut CPU)
    requires
        opcode.wf(),
        old(cpu).wf(),
    ensures
        final(cpu).wf(),
        alu_spec(Command::MFLO, *opcode, old(cpu)@) == Ok::<CpuModel, Exception>(final(cpu)@),
{
    let lo_value = cpu.lo.get_value() as u32;
    write_gpr(cpu, opcode.rd, lo_value);
}

#[allow(non_snake_case)]
fn execute_MTC0(opcode: &Opcode, cpu: &mut CPU)
    requires
        opcode.wf(),
        old(cpu).wf(),
    ensures
        final(cpu).wf(),
        alu_spec(Command::MTC0, *opcode, old(cpu)@) == Ok::<CpuModel, Exception>(final(cpu)@),
{
    let reg_value = gpr(cpu, opcode.rt);
    set_register(&mut cpu.cop0_registers.register, opcode.fs as usize, reg_value);
}

#[allow(non_snake_case)]
fn execute_MULTU(opcode: &Opcode, cpu: &mut CPU)
    requires
        opcode.wf(),
        old(cpu).wf(),
    ensures
        final(cpu).wf(),
        alu_spec(Command::MULTU, *opcode, old(cpu)@) == Ok::<CpuModel, Exception>(final(cpu)@),
{
    let result: u64 = multiply_u32_as_unsigned(gpr(cpu, opcode.rs), gpr(cpu, opcode.rt));
    assert(result & 0xFFFF_FFFF == result % 0x1_0000_0000) by (bit_vector);
    assert(result >> 32u64 == result / 0x1_0000_0000) by (bit_vector);
    cpu.lo.set_u32((result & 0xFFFF_FFFF) as u32);
    cpu.hi.set_u32((result >> 32u64) as u32);
}

#[allow(non_snake_case)]
fn execute_OR(opcode: &Opcode, cpu: &mut CPU)
    requires
        opcode.wf(),
        old(cpu).wf(),
    ensures
        final(cpu).wf(),
        alu_spec(Command::OR, *opcode, old(cpu)@) == Ok::<CpuModel, Exception>(final(cpu)@),
{
    let l_value = gpr(cpu, opcode.rs);
    let r_value = gpr(cpu, opcode.rt);
    write_gpr(cpu, opcode.rd, l_value | r_value);
}

#[allow(non_snake_case)]
fn execute_ORI(opcode: &Opcode, cpu: &mut CPU)
    requires
        opcode.wf(),
        old(cpu).wf(),
    ensures
        final(cpu).wf(),
        alu_spec(Command::ORI, *opcode, old(cpu)@) == Ok::<CpuModel, Exception>(final(cpu)@),
{
    let new_value = gpr(cpu, opcode.rs);
    write_gpr(cpu, opcode.rt, new_value | (opcode.imm as u32));
}

#[allow(non_snake_case)]
fn execute_SLL(opcode: &Opcode, cpu: &mut CPU)
    requires
        opcode.wf(),
        old(cpu).wf(),
    ensures
        final(cpu).wf(),
        alu_spec(Command::SLL, *opcode, old(cpu)@) == Ok::<CpuModel, Exception>(final(cpu)@),
{
    let new_value = gpr(cpu, opcode.rt);
    write_gpr(cpu, opcode.rd, new_value << (opcode.sa as u32));
}

#[allow(non_snake_case)]
fn execute_SLT(opcode: &Opcode, cpu: &mut CPU)
    requires
        opcode.wf(),
        old(cpu).wf(),
    ensures
        final(cpu).wf(),
        alu_spec(Command::SLT, *opcode, old(cpu)@) == Ok::<CpuModel, Exception>(final(cpu)@),
{
    if signed_less(gpr(cpu, opcode.rs), gpr(cpu, opcode.rt)) {
        write_gpr(cpu, opcode.rd, 1);
    } else {
        write_gpr(cpu, opcode.rd, 0);
    }
}

#[allow(non_snake_case)]
fn execute_SLTI(opcode: &Opcode, cpu: &mut CPU)
    requires
        opcode.wf(),
        old(cpu).wf(),
    ensures
        final(cpu).wf(),
        alu_spec(Command::SLTI, *opcode, old(cpu)@) == Ok::<CpuModel, Exception>(final(cpu)@),
{
    if gpr(cpu, opcode.rs) < (opcode.imm as u32) {
        write_gpr(cpu, opcode.rt, 1);
    } else {
        write_gpr(cpu, opcode.rt, 0);
    }
}

#[allow(non_snake_case)]
fn execute_SLTU(opcode: &Opcode, cpu: &mut CPU)
    requires
        opcode.wf(),
        old(cpu).wf(),
    ensures
        final(cpu).wf(),
        alu_spec(Command::SLTU, *opcode, old(cpu)@) == Ok::<CpuModel, Exception>(final(cpu)@),
{
    if gpr(cpu, opcode.rs) < gpr(cpu, opcode.rt) {
        write_gpr(cpu, opcode.rd, 1);
    } else {
        write_gpr(cpu, opcode.rd, 0);
    }
}

#[allow(non_snake_case)]
fn execute_SRL(opcode: &Opcode, cpu: &mut CPU)
    requires
        opcode.wf(),
        old(cpu).wf(),
    ensures
        final(cpu).wf(),
        alu_spec(Command::SRL, *opcode, old(cpu)@) == Ok::<CpuModel, Exception>(final(cpu)@),
{
    let new_value = gpr(cpu, opcode.rt);
    write_gpr(cpu, opcode.rd, new_value >> (opcode.sa as u32));
}

#[allow(non_snake_case)]
fn execute_SUBU(opcode: &Opcode, cpu: &mut CPU)
    requires
        opcode.wf(),
        old(cpu).wf(),
    ensures
        final(cpu).wf(),
        alu_spec(Command::SUBU, *opcode, old(cpu)@) == Ok::<CpuModel, Exception>(final(cpu)@),
{
    write_gpr(cpu, opcode.rd, sub_u32_overflow(gpr(cpu, opcode.rs), gpr(cpu, opcode.rt)));
}

#[allow(non_snake_case)]
fn execute_XORI(opcode: &Opcode, cpu: &mut CPU)
    requires
        opcode.wf(),
        old(cpu).wf(),
    ensures
        final(cpu).wf(),
        alu_spec(Command::XORI, *opcode, old(cpu)@) == Ok::<CpuModel, Exception>(final(cpu)@),
{
    let new_value = gpr(cpu, opcode.rs) ^ (opcode.imm as u32);
    write_gpr(cpu, opcode.rt, new_value);
}

#[allow(non_snake_case)]
fn execute_CACHE_I_ST(opcode: &Opcode, cpu: &mut CPU, connector: &mut Connector)
    requires
        opcode.wf(),
        old(cpu).wf(),
        old(connector).wf(),
    ensures
        *final(cpu) == *old(cpu),
        final(connector).wf(),
        executed(Command::CACHE_I_ST, *opcode, old(cpu)@, final(cpu)@, *old(connector), *final(connector), Ok(())),
{
    let virtual_address: u32 = add_u32_overflow(opcode.offset as u32, gpr(cpu, opcode.base));
    let tag_set_value: u32 = cpu.cop0_registers.register[COP0RegisterName::TagLo.index()].get_value() as u32;
    connector.icache.set_physical_tag_by_virtual_address(virtual_address, tag_set_value);
}

#[allow(non_snake_case)]
fn execute_LBU(opcode: &Opcode, cpu: &mut CPU, connector: &Connector) -> (r: Result<(), Exception>)
    requires
        opcode.wf(),
        old(cpu).wf(),
        connector.wf(),
    ensures
        final(cpu).wf(),
        outcome(exec_spec(Command::LBU, *opcode, old(cpu)@, *connector), old(cpu)@, final(cpu)@, r),
{
    let address = add_u16_to_u32_as_i16_overflow(gpr(cpu, opcode.base), opcode.imm);
    let new_value = connector.read_u8(address)?;
    write_gpr(cpu, opcode.rt, new_value as u32);
    Ok(())
}

#[allow(non_snake_case)]
fn execute_LW(opcode: &Opcode, cpu: &mut CPU, connector: &Connector) -> (r: Result<(), Exception>)
    requires
        opcode.wf(),
        old(cpu).wf(),
        connector.wf(),
    ensures
        final(cpu).wf(),
        outcome(exec_spec(Command::LW, *opcode, old(cpu)@, *connector), old(cpu)@, final(cpu)@, r),
{
    let address = add_u16_to_u32_as_i16_overflow(gpr(cpu, opcode.base), opcode.imm);
    let new_value = connector.read_u32(address)?;
    write_gpr(cpu, opcode.rt, new_value);
    Ok(())
}

#[allow(non_snake_case)]
fn execute_SB(opcode: &Opcode, cpu: &CPU, connector: &mut Connector) -> (r: Result<(), Exception>)
    requires
        opcode.wf(),
        cpu.wf(),
        old(connector).wf(),
    ensures
        final(connector).wf(),
        executed(Command::SB, *opcode, cpu@, cpu@, *old(connector), *final(connector), r),
{
    let new_value = gpr(cpu, opcode.rt) as u8;
    let address = add_u16_to_u32_as_i16_overflow(gpr(cpu, opcode.base), opcode.offset);
    connector.store_u8(address, new_value)
}

#[allow(non_snake_case)]
fn execute_SW(opcode: &Opcode, cpu: &CPU, connector: &mut Connector) -> (r: Result<(), Exception>)
    requires
        opcode.wf(),
        cpu.wf(),
        old(connector).wf(),
    ensures
        final(connector).wf(),
        executed(Command::SW, *opcode, cpu@, cpu@, *old(connector), *final(connector), r),
{
    let new_value = gpr(cpu, opcode.rt);
    let address = add_u16_to_u32_as_i16_overflow(gpr(cpu, opcode.base), opcode.offset);
    connector.store_u32(address, new_value)
}

} // verus!

verus! {

/// Branches and jumps: the instructions that schedule a delayed jump or skip
/// their delay slot.
pub open spec fn is_control_transfer(cmd: Command) -> bool {
    match cmd {
        Command::BEQ | Command::BEQL | Command::BNE | Command::BNEL | Command::BLEZL | Command::BGEZL
        | Command::JAL | Command::JR => true,
        _ => false,
    }
}

/// The conditional branches.
pub open spec fn is_branch(cmd: Command) -> bool {
    match cmd {
        Command::BEQ | Command::BEQL | Command::BNE | Command::BNEL | Command::BLEZL | Command::BGEZL => true,
        _ => false,
    }
}

/// The "likely" branches, which skip their delay slot when not taken.
pub open spec fn is_likely_branch(cmd: Command) -> bool {
    match cmd {
        Command::BEQL | Command::BNEL | Command::BLEZL | Command::BGEZL => true,
        _ => false,
    }
}

/// Whether the condition of branch `cmd` holds in state `m`.
pub open spec fn branch_taken(cmd: Command, op: Opcode, m: CpuModel) -> bool {
    let rs = m.gpr_u32(op.rs as int);
    let rt = m.gpr_u32(op.rt as int);
    match cmd {
        Command::BEQ | Command::BEQL => rs == rt,
        Command::BNE | Command::BNEL => rs != rt,
        Command::BLEZL => as_signed(rs) <= 0,
        Command::BGEZL => as_signed(rs) >= 0,
        _ => false,
    }
}

/// An instruction that is not a branch or jump leaves the program counter
/// and the pending jump alone.
pub proof fn lemma_plain_instruction_keeps_pc(cmd: Command, op: Opcode, m: CpuModel, bus: Connector)
    requires
        !is_control_transfer(cmd),
        exec_spec(cmd, op, m, bus) is Ok,
    ensures
        exec_spec(cmd, op, m, bus)->Ok_0.pc == m.pc,
        exec_spec(cmd, op, m, bus)->Ok_0.pc_save == m.pc_save,
        exec_spec(cmd, op, m, bus)->Ok_0.pc_save_count == m.pc_save_count,
{
}

/// Delay slot: with no jump pending, a taken branch leaves the program
/// counter where it is; once the next instruction (not itself a branch or
/// jump) has run, the program counter is the branch target.
pub proof fn lemma_branch_delay_slot(op: Opcode, m: CpuModel, bus: Connector, next: Opcode, bus2: Connector)
    requires
        is_branch(op.command),
        branch_taken(op.command, op, m),
        m.pc_save_count == 0,
        !is_control_transfer(next.command),
        exec_spec(next.command, next, exec_spec(op.command, op, m, bus)->Ok_0.tick(), bus2) is Ok,
    ensures
        exec_spec(op.command, op, m, bus) is Ok,
        exec_spec(op.command, op, m, bus)->Ok_0.tick().pc == m.pc,
        exec_spec(next.command, next, exec_spec(op.command, op, m, bus)->Ok_0.tick(), bus2)->Ok_0.tick().pc_u32()
            == branch_target(m.pc_u32(), op.imm),
{
    let s1 = exec_spec(op.command, op, m, bus)->Ok_0.tick();
    lemma_plain_instruction_keeps_pc(next.command, next, s1, bus2);
    let t = branch_target(m.pc_u32(), op.imm);
    assert((t as u64) as u32 == t);
}

/// A "likely" branch that is not taken skips its delay slot: with no jump
/// pending, the program counter moves one instruction on.
pub proof fn lemma_likely_not_taken_skips(op: Opcode, m: CpuModel, bus: Connector)
    requires
        is_likely_branch(op.command),
        !branch_taken(op.command, op, m),
        m.pc_save_count == 0,
    ensures
        exec_spec(op.command, op, m, bus) is Ok,
        exec_spec(op.command, op, m, bus)->Ok_0.tick().pc_u32() == wrap32(m.pc_u32() + 4),
{
    let t = wrap32(m.pc_u32() + 4);
    assert((t as u64) as u32 == t);
}

} // verus!
