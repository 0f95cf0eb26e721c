//! The execution core: the machine state (registers, flags, memory, program
//! counter, status) and the single-step interpreter that advances it through
//! the fixed fetch, decode, execute, memory, writeback and PC-update stages.

use crate::isa::{decode, decode_spec, store_word, word_at, write_word, read_word};
use crate::isa::{Cond, FaultKind, Op, Register, Y86};
use vstd::prelude::*;

verus! {

/// The number of bytes in the machine's linear memory.
pub const MEM_SIZE: usize = 1024;

/// The three condition flags, updated only by the arithmetic/logic family.
#[derive(Clone, Copy, PartialEq, Eq, Structural, Debug)]
pub struct Flags {
    pub sf: bool,
    pub zf: bool,
    pub of: bool,
}

impl Default for Flags {
    /// All three flags start clear.
    fn default() -> (r: Flags)
        ensures
            r == (Flags { sf: false, zf: false, of: false }),
    {
        Flags { sf: false, zf: false, of: false }
    }
}

/// The register file: one 64-bit slot for each of the fifteen registers.
#[derive(Clone, Copy, PartialEq, Eq, Structural, Debug)]
pub struct RegFile {
    pub rax: u64,
    pub rcx: u64,
    pub rdx: u64,
    pub rbx: u64,
    pub rsp: u64,
    pub rbp: u64,
    pub rsi: u64,
    pub rdi: u64,
    pub r8: u64,
    pub r9: u64,
    pub r10: u64,
    pub r11: u64,
    pub r12: u64,
    pub r13: u64,
    pub r14: u64,
}

/// The register file with every slot zero.
pub open spec fn zero_regs() -> RegFile {
    RegFile {
        rax: 0,
        rcx: 0,
        rdx: 0,
        rbx: 0,
        rsp: 0,
        rbp: 0,
        rsi: 0,
        rdi: 0,
        r8: 0,
        r9: 0,
        r10: 0,
        r11: 0,
        r12: 0,
        r13: 0,
        r14: 0,
    }
}

impl RegFile {
    /// The value of register `r`.
    pub open spec fn read_spec(self, r: Register) -> u64 {
        match r {
            Register::RAX => self.rax,
            Register::RCX => self.rcx,
            Register::RDX => self.rdx,
            Register::RBX => self.rbx,
            Register::RSP => self.rsp,
            Register::RBP => self.rbp,
            Register::RSI => self.rsi,
            Register::RDI => self.rdi,
            Register::R8 => self.r8,
            Register::R9 => self.r9,
            Register::R10 => self.r10,
            Register::R11 => self.r11,
            Register::R12 => self.r12,
            Register::R13 => self.r13,
            Register::R14 => self.r14,
        }
    }

    /// The register file with `r` set to `v` and every other slot as before.
    pub open spec fn write_spec(self, r: Register, v: u64) -> RegFile {
        match r {
            Register::RAX => RegFile { rax: v, ..self },
            Register::RCX => RegFile { rcx: v, ..self },
            Register::RDX => RegFile { rdx: v, ..self },
            Register::RBX => RegFile { rbx: v, ..self },
            Register::RSP => RegFile { rsp: v, ..self },
            Register::RBP => RegFile { rbp: v, ..self },
            Register::RSI => RegFile { rsi: v, ..self },
            Register::RDI => RegFile { rdi: v, ..self },
            Register::R8 => RegFile { r8: v, ..self },
            Register::R9 => RegFile { r9: v, ..self },
            Register::R10 => RegFile { r10: v, ..self },
            Register::R11 => RegFile { r11: v, ..self },
            Register::R12 => RegFile { r12: v, ..self },
            Register::R13 => RegFile { r13: v, ..self },
            Register::R14 => RegFile { r14: v, ..self },
        }
    }

    /// Reads the slot of register `r`.
    pub fn index(&self, r: Register) -> (v: u64)
        ensures
            v == self.read_spec(r),
    {
        match r {
            Register::RAX => self.rax,
            Register::RCX => self.rcx,
            Register::RDX => self.rdx,
            Register::RBX => self.rbx,
            Register::RSP => self.rsp,
            Register::RBP => self.rbp,
            Register::RSI => self.rsi,
            Register::RDI => self.rdi,
            Register::R8 => self.r8,
            Register::R9 => self.r9,
            Register::R10 => self.r10,
            Register::R11 => self.r11,
            Register::R12 => self.r12,
            Register::R13 => self.r13,
            Register::R14 => self.r14,
        }
    }

    /// Overwrites the slot of register `r`; no other slot changes.
    pub fn set(&mut self, r: Register, v: u64)
        ensures
            *final(self) == old(self).write_spec(r, v),
    {
        match r {
            Register::RAX => self.rax = v,
            Register::RCX => self.rcx = v,
            Register::RDX => self.rdx = v,
            Register::RBX => self.rbx = v,
            Register::RSP => self.rsp = v,
            Register::RBP => self.rbp = v,
            Register::RSI => self.rsi = v,
            Register::RDI => self.rdi = v,
            Register::R8 => self.r8 = v,
            Register::R9 => self.r9 = v,
            Register::R10 => self.r10 = v,
            Register::R11 => self.r11 = v,
            Register::R12 => self.r12 = v,
            Register::R13 => self.r13 = v,
            Register::R14 => self.r14 = v,
        }
    }

    /// A write changes exactly the one slot it names.
    pub proof fn lemma_read_write(self, r: Register, v: u64)
        ensures
            self.write_spec(r, v).read_spec(r) == v,
            forall|q: Register| q != r ==> self.write_spec(r, v).read_spec(q) == self.read_spec(q),
    {
    }
}

impl Default for RegFile {
    /// Every register starts at zero.
    fn default() -> (r: RegFile)
        ensures
            r == zero_regs(),
    {
        RegFile {
            rax: 0,
            rcx: 0,
            rdx: 0,
            rbx: 0,
            rsp: 0,
            rbp: 0,
            rsi: 0,
            rdi: 0,
            r8: 0,
            r9: 0,
            r10: 0,
            r11: 0,
            r12: 0,
            r13: 0,
            r14: 0,
        }
    }
}

/// The machine's lifecycle state; `Halted` and `Faulted` are terminal.
#[derive(Clone, Copy, PartialEq, Eq, Structural, Debug)]
pub enum Status {
    Running,
    Halted,
    Faulted,
}

/// What one call of `step` reports.
#[derive(Clone, Copy, PartialEq, Eq, Structural, Debug)]
pub enum StepResult {
    Running,
    Halted,
    Fault(FaultKind),
}

/// The transient per-step scratch values. A fresh one is built by the fetch
/// stage every step; nothing carries over between instructions.
#[derive(Clone, Copy, PartialEq, Eq, Structural, Debug)]
pub struct Scratch {
    /// The decoded instruction.
    pub instr: Y86,
    /// First register read.
    pub val_a: u64,
    /// Second register read.
    pub val_b: u64,
    /// The decoded immediate, displacement or target.
    pub val_c: u64,
    /// The computed effective value (ALU result or address).
    pub val_e: u64,
    /// The memory-load result.
    pub val_m: u64,
    /// The fall-through address.
    pub val_p: u64,
    /// Whether the instruction's condition holds.
    pub cnd: bool,
}

/// The mathematical model of a machine: the persistent state with the
/// memory as a byte sequence.
pub ghost struct CpuView {
    pub flags: Flags,
    pub regs: RegFile,
    pub mem: Seq<u8>,
    pub pc: u64,
    pub status: Status,
}

/// The machine state: registers, flags, a fixed-size byte memory, the
/// program counter and the lifecycle status.
pub struct CPU {
    pub flags: Flags,
    pub registers: RegFile,
    pub memory: Vec<u8>,
    pub program_counter: u64,
    pub status: Status,
}

impl View for CPU {
    type V = CpuView;

    open spec fn view(&self) -> CpuView {
        CpuView {
            flags: self.flags,
            regs: self.registers,
            mem: self.memory@,
            pc: self.program_counter,
            status: self.status,
        }
    }
}

impl CPU {
    /// The machine's one structural invariant: the memory has exactly
    /// `MEM_SIZE` bytes.
    pub open spec fn wf(self) -> bool {
        self@.mem.len() == MEM_SIZE
    }
}

impl Default for CPU {
    /// A zeroed machine: clear flags, zero registers, all-zero memory,
    /// program counter zero, running.
    fn default() -> (r: CPU)
        ensures
            r.wf(),
            r@.flags == (Flags { sf: false, zf: false, of: false }),
            r@.regs == zero_regs(),
            r@.mem == Seq::new(MEM_SIZE as nat, |i: int| 0u8),
            r@.pc == 0,
            r@.status == Status::Running,
    {
        let mut memory: Vec<u8> = Vec::new();
        while memory.len() < MEM_SIZE
            invariant
                memory@.len() <= MEM_SIZE,
                forall|i: int| 0 <= i < memory@.len() ==> memory@[i] == 0u8,
            decreases MEM_SIZE - memory.len(),
        {
            memory.push(0);
        }
        proof {
            assert(memory@ =~= Seq::new(MEM_SIZE as nat, |i: int| 0u8));
        }
        CPU {
            flags: Flags { sf: false, zf: false, of: false },
            registers: RegFile::default(),
            memory,
            program_counter: 0,
            status: Status::Running,
        }
    }
}

/// Whether bit 63 of `v` is set.
pub open spec fn sign_bit(v: u64) -> bool {
    v & 0x8000_0000_0000_0000 != 0
}

/// 64-bit wrapping addition.
pub open spec fn wrap_add(a: u64, b: u64) -> u64 {
    if a + b > u64::MAX {
        (a + b - 0x1_0000_0000_0000_0000) as u64
    } else {
        (a + b) as u64
    }
}

/// 64-bit wrapping subtraction.
pub open spec fn wrap_sub(a: u64, b: u64) -> u64 {
    if a - b < 0 {
        (a - b + 0x1_0000_0000_0000_0000) as u64
    } else {
        (a - b) as u64
    }
}

/// The value an ALU operator computes from (valA, valB): wrapping addition
/// and subtraction, bitwise and, bitwise xor.
pub open spec fn op_apply(op: Op, a: u64, b: u64) -> u64 {
    match op {
        Op::Add => wrap_add(a, b),
        Op::Sub => wrap_sub(a, b),
        Op::And => a & b,
        Op::Xor => a ^ b,
    }
}

/// Signed overflow of two's-complement addition, from the sign bits of both
/// operands and the result: the operands agree in sign and the result
/// disagrees.
pub open spec fn add_overflow(a: u64, b: u64, r: u64) -> bool {
    sign_bit(a) == sign_bit(b) && sign_bit(r) != sign_bit(a)
}

/// Signed overflow of two's-complement subtraction `a - b`: the operands
/// disagree in sign and the result's sign disagrees with `a`.
pub open spec fn sub_overflow(a: u64, b: u64, r: u64) -> bool {
    sign_bit(a) != sign_bit(b) && sign_bit(r) != sign_bit(a)
}

/// The condition flags after an ALU operation on (valA, valB): ZF iff the
/// result is zero, SF iff its bit 63 is set, OF from the signed-overflow
/// rule of the operator (never for the bitwise operators).
pub open spec fn opq_flags(op: Op, a: u64, b: u64) -> Flags {
    let r = op_apply(op, a, b);
    Flags {
        sf: sign_bit(r),
        zf: r == 0,
        of: match op {
            Op::Add => add_overflow(a, b, r),
            Op::Sub => sub_overflow(a, b, r),
            Op::And => false,
            Op::Xor => false,
        },
    }
}

/// Whether a condition holds of the flags.
pub open spec fn cond_holds_spec(c: Cond, f: Flags) -> bool {
    match c {
        Cond::Always => true,
        Cond::Le => f.sf || f.zf,
        Cond::L => f.sf != f.of,
        Cond::E => f.zf,
        Cond::Ne => !f.zf,
        Cond::Ge => !f.sf || f.zf,
        Cond::G => !f.sf && !f.zf,
    }
}

/// The 64-bit literal an instruction carries: immediate, displacement or
/// target; zero for the families that carry none.
pub open spec fn imm_of(i: Y86) -> u64 {
    match i {
        Y86::IRMOVQ(_, v) => v,
        Y86::RMMOVQ(_, _, d) => d,
        Y86::MRMOVQ(_, _, d) => d,
        Y86::J(_, t) => t,
        Y86::CALL(t) => t,
        _ => 0,
    }
}

/// The fetch stage: decodes the instruction at the program counter and
/// builds a fresh scratch with the literal and the fall-through address
/// filled in; every other scratch value starts at zero.
pub open spec fn fetch_spec(v: CpuView) -> Result<Scratch, FaultKind> {
    match decode_spec(v.mem, v.pc as int) {
        Err(k) => Err(k),
        Ok((i, l)) => Ok(
            Scratch {
                instr: i,
                val_a: 0,
                val_b: 0,
                val_c: imm_of(i),
                val_e: 0,
                val_m: 0,
                val_p: (v.pc + l) as u64,
                cnd: false,
            },
        ),
    }
}

/// The operand-read stage: copies the register values the instruction
/// consumes into valA and valB.
pub open spec fn decode_stage_spec(v: CpuView, s: Scratch) -> Scratch {
    match s.instr {
        Y86::CMOV(_, ra, _) => Scratch { val_a: v.regs.read_spec(ra), ..s },
        Y86::RMMOVQ(ra, rb, _) => Scratch {
            val_a: v.regs.read_spec(ra),
            val_b: v.regs.read_spec(rb),
            ..s
        },
        Y86::MRMOVQ(_, rb, _) => Scratch { val_b: v.regs.read_spec(rb), ..s },
        Y86::OPQ(_, ra, rb) => Scratch {
            val_a: v.regs.read_spec(ra),
            val_b: v.regs.read_spec(rb),
            ..s
        },
        Y86::CALL(_) => Scratch { val_b: v.regs.read_spec(Register::RSP), ..s },
        Y86::RET => Scratch {
            val_a: v.regs.read_spec(Register::RSP),
            val_b: v.regs.read_spec(Register::RSP),
            ..s
        },
        Y86::PUSHQ(ra) => Scratch {
            val_a: v.regs.read_spec(ra),
            val_b: v.regs.read_spec(Register::RSP),
            ..s
        },
        Y86::POPQ(_) => Scratch {
            val_a: v.regs.read_spec(Register::RSP),
            val_b: v.regs.read_spec(Register::RSP),
            ..s
        },
        _ => s,
    }
}

/// The execute stage: computes valE (or the condition-hold flag), updates
/// the condition flags for the arithmetic/logic family, and marks the
/// machine halted on HALT. Nothing else of the machine changes.
pub open spec fn execute_spec(v: CpuView, s: Scratch) -> (CpuView, Scratch) {
    match s.instr {
        Y86::HALT => (CpuView { status: Status::Halted, ..v }, s),
        Y86::NOOP => (v, s),
        Y86::CMOV(c, _, _) => (
            v,
            Scratch { val_e: s.val_a, cnd: cond_holds_spec(c, v.flags), ..s },
        ),
        Y86::IRMOVQ(_, _) => (v, Scratch { val_e: s.val_c, ..s }),
        Y86::RMMOVQ(_, _, _) => (v, Scratch { val_e: wrap_add(s.val_b, s.val_c), ..s }),
        Y86::MRMOVQ(_, _, _) => (v, Scratch { val_e: wrap_add(s.val_b, s.val_c), ..s }),
        Y86::OPQ(op, _, _) => (
            CpuView { flags: opq_flags(op, s.val_a, s.val_b), ..v },
            Scratch { val_e: op_apply(op, s.val_a, s.val_b), ..s },
        ),
        Y86::J(c, _) => (v, Scratch { cnd: cond_holds_spec(c, v.flags), ..s }),
        Y86::CALL(_) => (v, Scratch { val_e: wrap_sub(s.val_b, 8), ..s }),
        Y86::RET => (v, Scratch { val_e: wrap_add(s.val_b, 8), ..s }),
        Y86::PUSHQ(_) => (v, Scratch { val_e: wrap_sub(s.val_b, 8), ..s }),
        Y86::POPQ(_) => (v, Scratch { val_e: wrap_add(s.val_b, 8), ..s }),
    }
}

/// Whether an 8-byte access at `addr` lies inside the memory.
pub open spec fn word_in_bounds(mem: Seq<u8>, addr: u64) -> bool {
    addr + 8 <= mem.len()
}

/// The memory-access stage: the store and load families move one 8-byte
/// little-endian word; an address outside `[0, memsize - 8]` is a fault and
/// changes nothing.
pub open spec fn memory_spec(v: CpuView, s: Scratch) -> Result<(CpuView, Scratch), FaultKind> {
    match s.instr {
        Y86::RMMOVQ(_, _, _) => if word_in_bounds(v.mem, s.val_e) {
            Ok((CpuView { mem: store_word(v.mem, s.val_e as int, s.val_a), ..v }, s))
        } else {
            Err(FaultKind::MemoryOutOfBounds)
        },
        Y86::MRMOVQ(_, _, _) => if word_in_bounds(v.mem, s.val_e) {
            Ok((v, Scratch { val_m: word_at(v.mem, s.val_e as int), ..s }))
        } else {
            Err(FaultKind::MemoryOutOfBounds)
        },
        Y86::CALL(_) => if word_in_bounds(v.mem, s.val_e) {
            Ok((CpuView { mem: store_word(v.mem, s.val_e as int, s.val_p), ..v }, s))
        } else {
            Err(FaultKind::MemoryOutOfBounds)
        },
        Y86::RET => if word_in_bounds(v.mem, s.val_a) {
            Ok((v, Scratch { val_m: word_at(v.mem, s.val_a as int), ..s }))
        } else {
            Err(FaultKind::MemoryOutOfBounds)
        },
        Y86::PUSHQ(_) => if word_in_bounds(v.mem, s.val_e) {
            Ok((CpuView { mem: store_word(v.mem, s.val_e as int, s.val_a), ..v }, s))
        } else {
            Err(FaultKind::MemoryOutOfBounds)
        },
        Y86::POPQ(_) => if word_in_bounds(v.mem, s.val_a) {
            Ok((v, Scratch { val_m: word_at(v.mem, s.val_a as int), ..s }))
        } else {
            Err(FaultKind::MemoryOutOfBounds)
        },
        _ => Ok((v, s)),
    }
}

/// The writeback stage: commits valE and valM into the register file.
pub open spec fn writeback_spec(v: CpuView, s: Scratch) -> CpuView {
    match s.instr {
        Y86::CMOV(_, _, rb) => if s.cnd {
            CpuView { regs: v.regs.write_spec(rb, s.val_e), ..v }
        } else {
            v
        },
        Y86::IRMOVQ(rb, _) => CpuView { regs: v.regs.write_spec(rb, s.val_e), ..v },
        Y86::MRMOVQ(ra, _, _) => CpuView { regs: v.regs.write_spec(ra, s.val_m), ..v },
        Y86::OPQ(_, _, rb) => CpuView { regs: v.regs.write_spec(rb, s.val_e), ..v },
        Y86::CALL(_) => CpuView { regs: v.regs.write_spec(Register::RSP, s.val_e), ..v },
        Y86::RET => CpuView { regs: v.regs.write_spec(Register::RSP, s.val_e), ..v },
        Y86::PUSHQ(_) => CpuView { regs: v.regs.write_spec(Register::RSP, s.val_e), ..v },
        Y86::POPQ(ra) => CpuView {
            regs: v.regs.write_spec(Register::RSP, s.val_e).write_spec(ra, s.val_m),
            ..v
        },
        _ => v,
    }
}

/// The PC-update stage: straight-line instructions advance to the
/// fall-through address; jumps, calls and returns redirect; a halted
/// machine's program counter stays where it was and is never used again.
pub open spec fn pc_update_spec(v: CpuView, s: Scratch) -> CpuView {
    match s.instr {
        Y86::HALT => v,
        Y86::J(_, t) => CpuView { pc: if s.cnd { t } else { s.val_p }, ..v },
        Y86::CALL(t) => CpuView { pc: t, ..v },
        Y86::RET => CpuView { pc: s.val_m, ..v },
        _ => CpuView { pc: s.val_p, ..v },
    }
}

/// One whole step of the machine, as a function of the machine model: the
/// new model and what the step reports. A terminal machine is left exactly
/// as it is and the call is a `StepAfterTerminal` fault; a fault during the
/// step leaves every part of the state as it was, with only the status
/// moved to `Faulted`.
pub open spec fn step_spec(v: CpuView) -> (CpuView, StepResult) {
    if v.status != Status::Running {
        (v, StepResult::Fault(FaultKind::StepAfterTerminal))
    } else {
        match fetch_spec(v) {
            Err(k) => (CpuView { status: Status::Faulted, ..v }, StepResult::Fault(k)),
            Ok(s0) => {
                let s1 = decode_stage_spec(v, s0);
                let (v2, s2) = execute_spec(v, s1);
                match memory_spec(v2, s2) {
                    Err(k) => (CpuView { status: Status::Faulted, ..v }, StepResult::Fault(k)),
                    Ok((v3, s3)) => {
                        let v4 = writeback_spec(v3, s3);
                        let v5 = pc_update_spec(v4, s3);
                        (
                            v5,
                            match s3.instr {
                                Y86::HALT => StepResult::Halted,
                                _ => StepResult::Running,
                            },
                        )
                    },
                }
            },
        }
    }
}

/// A decoded instruction fits between its own address and the end of
/// memory, and its length is the family's fixed length.
pub proof fn lemma_decode_len(mem: Seq<u8>, pc: int)
    ensures
        decode_spec(mem, pc) matches Ok(d) ==> 0 <= pc && pc + d.1 <= mem.len() && d.1
            == d.0.length() && 1 <= d.1 <= 10,
{
}

/// Whether a condition holds of the flags.
pub fn cond_holds(c: Cond, f: Flags) -> (r: bool)
    ensures
        r == cond_holds_spec(c, f),
{
    match c {
        Cond::Always => true,
        Cond::Le => f.sf || f.zf,
        Cond::L => f.sf != f.of,
        Cond::E => f.zf,
        Cond::Ne => !f.zf,
        Cond::Ge => !f.sf || f.zf,
        Cond::G => !f.sf && !f.zf,
    }
}

/// The five ordered sub-stages of one step, with the PC update that closes
/// it. Each stage is bound by its contract to the matching stage function
/// of the machine model, so a whole step is pinned down stage by stage.
pub trait FeDeExMemWBPC: Sized {
    /// The machine model this implementor presents to the stage contracts.
    spec fn machine(&self) -> CpuView;

    /// Fetch: decode the instruction at the program counter into a fresh
    /// scratch, or report the decode fault. The machine is not changed.
    fn fetch(&self) -> (r: Result<Scratch, FaultKind>)
        ensures
            r == fetch_spec(self.machine()),
    ;

    /// Operand read: copy the consumed register values into the scratch.
    fn decode(&self, s: &mut Scratch)
        ensures
            *final(s) == decode_stage_spec(self.machine(), *old(s)),
    ;

    /// Execute: compute the effective value and the condition-hold flag,
    /// update the flags for the arithmetic family, halt on HALT.
    fn execute(&mut self, s: &mut Scratch)
        ensures
            ({
                let (v2, s2) = execute_spec(old(self).machine(), *old(s));
                final(self).machine() == v2 && *final(s) == s2
            }),
    ;

    /// Memory access: move one 8-byte word, or report the out-of-bounds
    /// fault and change nothing.
    fn memory(&mut self, s: &mut Scratch) -> (r: Result<(), FaultKind>)
        ensures
            ({
                match memory_spec(old(self).machine(), *old(s)) {
                    Ok(vs) => r == Ok::<(), FaultKind>(()) && final(self).machine() == vs.0
                        && *final(s) == vs.1,
                    Err(k) => r == Err::<(), FaultKind>(k)
                        && final(self).machine() == old(self).machine() && *final(s) == *old(s),
                }
            }),
    ;

    /// Writeback: commit the computed values into the register file.
    fn writeback(&mut self, s: &Scratch)
        ensures
            final(self).machine() == writeback_spec(old(self).machine(), *s),
    ;

    /// PC update: advance or redirect the program counter.
    fn program_counter(&mut self, s: &Scratch)
        ensures
            final(self).machine() == pc_update_spec(old(self).machine(), *s),
    ;
}

impl FeDeExMemWBPC for CPU {
    open spec fn machine(&self) -> CpuView {
        self@
    }

    fn fetch(&self) -> (r: Result<Scratch, FaultKind>) {
        proof {
            lemma_decode_len(self@.mem, self@.pc as int);
        }
        if self.program_counter >= self.memory.len() as u64 {
            return Err(FaultKind::MemoryOutOfBounds);
        }
        match decode(&self.memory, self.program_counter as usize) {
            Err(k) => Err(k),
            Ok((instr, len)) => {
                let val_c: u64 = match instr {
                    Y86::IRMOVQ(_, v) => v,
                    Y86::RMMOVQ(_, _, d) => d,
                    Y86::MRMOVQ(_, _, d) => d,
                    Y86::J(_, t) => t,
                    Y86::CALL(t) => t,
                    _ => 0,
                };
                Ok(
                    Scratch {
                        instr,
                        val_a: 0,
                        val_b: 0,
                        val_c,
                        val_e: 0,
                        val_m: 0,
                        val_p: self.program_counter + len as u64,
                        cnd: false,
                    },
                )
            },
        }
    }

    fn decode(&self, s: &mut Scratch) {
        match s.instr {
            Y86::CMOV(_, ra, _) => {
                s.val_a = self.registers.index(ra);
            },
            Y86::RMMOVQ(ra, rb, _) => {
                s.val_a = self.registers.index(ra);
                s.val_b = self.registers.index(rb);
            },
            Y86::MRMOVQ(_, rb, _) => {
                s.val_b = self.registers.index(rb);
            },
            Y86::OPQ(_, ra, rb) => {
                s.val_a = self.registers.index(ra);
                s.val_b = self.registers.index(rb);
            },
            Y86::CALL(_) => {
                s.val_b = self.registers.index(Register::RSP);
            },
            Y86::RET => {
                s.val_a = self.registers.index(Register::RSP);
                s.val_b = self.registers.index(Register::RSP);
            },
            Y86::PUSHQ(ra) => {
                s.val_a = self.registers.index(ra);
                s.val_b = self.registers.index(Register::RSP);
            },
            Y86::POPQ(_) => {
                s.val_a = self.registers.index(Register::RSP);
                s.val_b = self.registers.index(Register::RSP);
            },
            _ => {},
        }
    }

    fn execute(&mut self, s: &mut Scratch) {
        match s.instr {
            Y86::HALT => {
                self.status = Status::Halted;
            },
            Y86::NOOP => {},
            Y86::CMOV(c, _, _) => {
                s.val_e = s.val_a;
                s.cnd = cond_holds(c, self.flags);
            },
            Y86::IRMOVQ(_, _) => {
                s.val_e = s.val_c;
            },
            Y86::RMMOVQ(_, _, _) | Y86::MRMOVQ(_, _, _) => {
                s.val_e = s.val_b.wrapping_add(s.val_c);
            },
            Y86::OPQ(op, _, _) => {
                let a = s.val_a;
                let b = s.val_b;
                let e: u64 = match op {
                    Op::Add => a.wrapping_add(b),
                    Op::Sub => a.wrapping_sub(b),
                    Op::And => a & b,
                    Op::Xor => a ^ b,
                };
                s.val_e = e;
                let sa = a & 0x8000_0000_0000_0000u64 != 0;
                let sb = b & 0x8000_0000_0000_0000u64 != 0;
                let se = e & 0x8000_0000_0000_0000u64 != 0;
                self.flags = Flags {
                    sf: se,
                    zf: e == 0,
                    of: match op {
                        Op::Add => sa == sb && se != sa,
                        Op::Sub => sa != sb && se != sa,
                        Op::And => false,
                        Op::Xor => false,
                    },
                };
            },
            Y86::J(c, _) => {
                s.cnd = cond_holds(c, self.flags);
            },
            Y86::CALL(_) | Y86::PUSHQ(_) => {
                s.val_e = s.val_b.wrapping_sub(8);
            },
            Y86::RET | Y86::POPQ(_) => {
                s.val_e = s.val_b.wrapping_add(8);
            },
        }
    }

    fn memory(&mut self, s: &mut Scratch) -> (r: Result<(), FaultKind>) {
        let n: usize = self.memory.len();
        match s.instr {
            Y86::RMMOVQ(_, _, _) | Y86::PUSHQ(_) => {
                if n >= 8 && s.val_e <= (n - 8) as u64 {
                    write_word(&mut self.memory, s.val_e as usize, s.val_a);
                    Ok(())
                } else {
                    Err(FaultKind::MemoryOutOfBounds)
                }
            },
            Y86::MRMOVQ(_, _, _) => {
                if n >= 8 && s.val_e <= (n - 8) as u64 {
                    s.val_m = read_word(&self.memory, s.val_e as usize);
                    Ok(())
                } else {
                    Err(FaultKind::MemoryOutOfBounds)
                }
            },
            Y86::CALL(_) => {
                if n >= 8 && s.val_e <= (n - 8) as u64 {
                    write_word(&mut self.memory, s.val_e as usize, s.val_p);
                    Ok(())
                } else {
                    Err(FaultKind::MemoryOutOfBounds)
                }
            },
            Y86::RET | Y86::POPQ(_) => {
                if n >= 8 && s.val_a <= (n - 8) as u64 {
                    s.val_m = read_word(&self.memory, s.val_a as usize);
                    Ok(())
                } else {
                    Err(FaultKind::MemoryOutOfBounds)
                }
            },
            _ => Ok(()),
        }
    }

    fn writeback(&mut self, s: &Scratch) {
        match s.instr {
            Y86::CMOV(_, _, rb) => {
                if s.cnd {
                    self.registers.set(rb, s.val_e);
                }
            },
            Y86::IRMOVQ(rb, _) => {
                self.registers.set(rb, s.val_e);
            },
            Y86::MRMOVQ(ra, _, _) => {
                self.registers.set(ra, s.val_m);
            },
            Y86::OPQ(_, _, rb) => {
                self.registers.set(rb, s.val_e);
            },
            Y86::CALL(_) | Y86::RET | Y86::PUSHQ(_) => {
                self.registers.set(Register::RSP, s.val_e);
            },
            Y86::POPQ(ra) => {
                self.registers.set(Register::RSP, s.val_e);
                self.registers.set(ra, s.val_m);
            },
            _ => {},
        }
    }

    fn program_counter(&mut self, s: &Scratch) {
        match s.instr {
            Y86::HALT => {},
            Y86::J(_, t) => {
                self.program_counter = if s.cnd {
                    t
                } else {
                    s.val_p
                };
            },
            Y86::CALL(t) => {
                self.program_counter = t;
            },
            Y86::RET => {
                self.program_counter = s.val_m;
            },
            _ => {
                self.program_counter = s.val_p;
            },
        }
    }
}

/// The machine a program image loads into: the image at the bottom of an
/// otherwise zero memory, zero registers, clear flags, the program counter
/// at the entry address, running.
pub open spec fn load_spec(img: Seq<u8>, entry: u64) -> CpuView {
    CpuView {
        flags: Flags { sf: false, zf: false, of: false },
        regs: zero_regs(),
        mem: Seq::new(
            MEM_SIZE as nat,
            |i: int|
                if i < img.len() {
                    img[i]
                } else {
                    0u8
                },
        ),
        pc: entry,
        status: Status::Running,
    }
}

/// The machine after at most `fuel` steps: stepping stops early on a
/// terminal state, which `step_spec` never leaves.
pub open spec fn run_spec(v: CpuView, fuel: nat) -> CpuView
    decreases fuel,
{
    if fuel == 0 || v.status != Status::Running {
        v
    } else {
        run_spec(step_spec(v).0, (fuel - 1) as nat)
    }
}

impl CPU {
    /// Advances the machine by exactly one instruction, in the fixed stage
    /// order, and reports whether it is still running, halted, or faulted.
    /// The whole transition is the machine model's `step_spec`: a faulting
    /// step leaves every part of the state unchanged but the status, and a
    /// step on a terminal machine changes nothing at all.
    pub fn step(&mut self) -> (r: StepResult)
        requires
            old(self).wf(),
        ensures
            final(self).wf(),
            final(self)@ == step_spec(old(self)@).0,
            r == step_spec(old(self)@).1,
    {
        if !(self.status == Status::Running) {
            return StepResult::Fault(FaultKind::StepAfterTerminal);
        }
        let mut s = match self.fetch() {
            Ok(s0) => s0,
            Err(k) => {
                self.status = Status::Faulted;
                return StepResult::Fault(k);
            },
        };
        self.decode(&mut s);
        self.execute(&mut s);
        match self.memory(&mut s) {
            Ok(()) => {},
            Err(k) => {
                self.status = Status::Faulted;
                return StepResult::Fault(k);
            },
        }
        self.writeback(&s);
        self.program_counter(&s);
        match s.instr {
            Y86::HALT => StepResult::Halted,
            _ => StepResult::Running,
        }
    }

    /// Drives the machine until it leaves the running state, but for at
    /// most `max_steps` instructions: a machine program is free to loop
    /// forever, so the driver must name a budget. The result is the
    /// `max_steps`-fold iteration of `step_spec`.
    pub fn run(&mut self, max_steps: u64)
        requires
            old(self).wf(),
        ensures
            final(self).wf(),
            final(self)@ == run_spec(old(self)@, max_steps as nat),
    {
        let mut left: u64 = max_steps;
        while self.status == Status::Running && left > 0
            invariant
                self.wf(),
                run_spec(old(self)@, max_steps as nat) == run_spec(self@, left as nat),
            decreases left,
        {
            let _ = self.step();
            left = left - 1;
        }
    }

    /// Builds a machine from a program image: the image is copied to
    /// address zero, the rest of memory is zero, and execution starts at
    /// `entry`. An image larger than the memory is refused, and nothing
    /// else ever is.
    pub fn load(image: &Vec<u8>, entry: u64) -> (r: Result<CPU, FaultKind>)
        ensures
            image@.len() > MEM_SIZE ==> r == Err::<CPU, FaultKind>(FaultKind::ImageTooLarge),
            image@.len() <= MEM_SIZE ==> (r matches Ok(c) && c.wf() && c@ == load_spec(
                image@,
                entry,
            )),
    {
        if image.len() > MEM_SIZE {
            return Err(FaultKind::ImageTooLarge);
        }
        let mut memory: Vec<u8> = Vec::new();
        let mut i: usize = 0;
        while i < MEM_SIZE
            invariant
                i == memory@.len(),
                i <= MEM_SIZE,
                image@.len() <= MEM_SIZE,
                forall|j: int|
                    0 <= j < i ==> memory@[j] == (if j < image@.len() {
                        image@[j]
                    } else {
                        0u8
                    }),
            decreases MEM_SIZE - i,
        {
            if i < image.len() {
                memory.push(image[i]);
            } else {
                memory.push(0);
            }
            i = i + 1;
        }
        let cpu = CPU {
            flags: Flags { sf: false, zf: false, of: false },
            registers: RegFile::default(),
            memory,
            program_counter: entry,
            status: Status::Running,
        };
        proof {
            assert(cpu@.mem =~= load_spec(image@, entry).mem);
        }
        Ok(cpu)
    }

    /// Reads one register.
    pub fn reg(&self, r: Register) -> (v: u64)
        ensures
            v == self@.regs.read_spec(r),
    {
        self.registers.index(r)
    }

    /// Reads the three condition flags.
    pub fn condition_flags(&self) -> (f: Flags)
        ensures
            f == self@.flags,
    {
        self.flags
    }

    /// Reads the program counter.
    pub fn pc(&self) -> (p: u64)
        ensures
            p == self@.pc,
    {
        self.program_counter
    }

    /// Reads the lifecycle status.
    pub fn current_status(&self) -> (st: Status)
        ensures
            st == self@.status,
    {
        self.status
    }

    /// Copies the memory range `[addr, addr + len)` out, or refuses a range
    /// that leaves the address space.
    pub fn read_memory(&self, addr: usize, len: usize) -> (r: Option<Vec<u8>>)
        ensures
            addr + len <= self@.mem.len() ==> (r matches Some(b) && b@ == self@.mem.subrange(
                addr as int,
                addr + len,
            )),
            addr + len > self@.mem.len() ==> r is None,
    {
        let n: usize = self.memory.len();
        if len > n || addr > n - len {
            return None;
        }
        let mut out: Vec<u8> = Vec::new();
        let mut i: usize = 0;
        while i < len
            invariant
                i == out@.len(),
                i <= len,
                addr + len <= self@.mem.len(),
                self@.mem.len() <= usize::MAX,
                forall|j: int| 0 <= j < i ==> out@[j] == self@.mem[addr + j],
            decreases len - i,
        {
            out.push(self.memory[addr + i]);
            i = i + 1;
        }
        proof {
            assert(out@ =~= self@.mem.subrange(addr as int, addr + len));
        }
        Some(out)
    }
}

/// The signed (two's-complement) reading of a 64-bit value.
pub open spec fn as_signed(v: u64) -> int {
    if v >= 0x8000_0000_0000_0000 {
        v - 0x1_0000_0000_0000_0000
    } else {
        v as int
    }
}

/// Bit 63 of a value is set exactly when the value is at least `2^63`.
proof fn lemma_sign_bit(v: u64)
    by (bit_vector)
    ensures
        (v & 0x8000_0000_0000_0000 != 0) <==> v >= 0x8000_0000_0000_0000,
{
}

/// The flags an addition leaves: ZF exactly when the 64-bit sum wraps to
/// zero, SF exactly when bit 63 of the wrapped sum is set, and OF exactly
/// when the signed sum leaves the two's-complement range.
pub proof fn lemma_add_flags(a: u64, b: u64)
    ensures
        opq_flags(Op::Add, a, b).zf <==> (a + b) % 0x1_0000_0000_0000_0000 == 0,
        opq_flags(Op::Add, a, b).sf <==> sign_bit(wrap_add(a, b)),
        opq_flags(Op::Add, a, b).of <==> !(-0x8000_0000_0000_0000 <= as_signed(a) + as_signed(b)
            <= 0x7fff_ffff_ffff_ffff),
{
    lemma_sign_bit(a);
    lemma_sign_bit(b);
    lemma_sign_bit(wrap_add(a, b));
}

/// The condition flags are a side effect of the arithmetic/logic family
/// alone: a step that executes any other instruction, or faults, leaves
/// them exactly as they were.
pub proof fn lemma_flags_only_opq(v: CpuView)
    requires
        v.status == Status::Running,
        decode_spec(v.mem, v.pc as int) matches Ok(d) ==> !(d.0 matches Y86::OPQ(_, _, _)),
    ensures
        step_spec(v).0.flags == v.flags,
{
}

/// A fault during a running step moves the status to `Faulted` and leaves
/// every other part of the machine exactly as it was: registers, flags,
/// memory and program counter all keep their prior values.
pub proof fn lemma_fault_frame(v: CpuView)
    requires
        v.status == Status::Running,
        step_spec(v).1 matches StepResult::Fault(_),
    ensures
        step_spec(v).0 == (CpuView { status: Status::Faulted, ..v }),
{
}

/// HALT halts at once: the step reports `Halted`, only the status changes,
/// and a further step on the halted machine fails with `StepAfterTerminal`
/// while changing nothing.
pub proof fn lemma_halt(v: CpuView)
    requires
        v.status == Status::Running,
        decode_spec(v.mem, v.pc as int) matches Ok(d) && d.0 == Y86::HALT,
    ensures
        step_spec(v).1 == StepResult::Halted,
        step_spec(v).0 == (CpuView { status: Status::Halted, ..v }),
        step_spec(step_spec(v).0).1 == StepResult::Fault(FaultKind::StepAfterTerminal),
        step_spec(step_spec(v).0).0 == step_spec(v).0,
{
}

/// Pushing a register and popping into another (not RSP) leaves RSP where
/// it was and hands the pushed value over, whatever else the two steps
/// touch in memory.
pub proof fn lemma_push_pop(v: CpuView, ra: Register, rb: Register)
    requires
        v.status == Status::Running,
        decode_spec(v.mem, v.pc as int) matches Ok(d) && d.0 == Y86::PUSHQ(ra),
        8 <= v.regs.read_spec(Register::RSP) <= v.mem.len(),
        rb != Register::RSP,
        decode_spec(step_spec(v).0.mem, step_spec(v).0.pc as int) matches Ok(d2) && d2.0
            == Y86::POPQ(rb),
    ensures
        step_spec(step_spec(v).0).0.regs.read_spec(Register::RSP) == v.regs.read_spec(
            Register::RSP,
        ),
        step_spec(step_spec(v).0).0.regs.read_spec(rb) == v.regs.read_spec(ra),
{
    let rsp = v.regs.read_spec(Register::RSP);
    crate::isa::lemma_store_word(v.mem, rsp - 8, v.regs.read_spec(ra));
}

/// A call followed at once by a return brings the program counter to the
/// fall-through address of the call, and RSP back to its prior value.
pub proof fn lemma_call_ret(v: CpuView, t: u64)
    requires
        v.status == Status::Running,
        v.mem.len() <= u64::MAX,
        decode_spec(v.mem, v.pc as int) matches Ok(d) && d.0 == Y86::CALL(t),
        8 <= v.regs.read_spec(Register::RSP) <= v.mem.len(),
        decode_spec(step_spec(v).0.mem, step_spec(v).0.pc as int) matches Ok(d2) && d2.0
            == Y86::RET,
    ensures
        step_spec(step_spec(v).0).0.pc == v.pc + 9,
        step_spec(step_spec(v).0).0.regs.read_spec(Register::RSP) == v.regs.read_spec(
            Register::RSP,
        ),
{
    let rsp = v.regs.read_spec(Register::RSP);
    lemma_decode_len(v.mem, v.pc as int);
    crate::isa::lemma_store_word(v.mem, rsp - 8, (v.pc + 9) as u64);
    let v1 = step_spec(v).0;
    assert(word_at(v1.mem, rsp - 8) == (v.pc + 9) as u64);
}

/// Moving an immediate into a register, storing that register at a valid
/// address, and loading the address back into a third register hands the
/// immediate through unchanged.
#[verifier::rlimit(50)]
pub proof fn lemma_memory_roundtrip(v: CpuView, ra: Register, rb: Register, rc: Register, w: u64)
    requires
        v.status == Status::Running,
        ra != rb,
        decode_spec(v.mem, v.pc as int) matches Ok(d) && d.0 == Y86::IRMOVQ(ra, w),
        v.regs.read_spec(rb) + 8 <= v.mem.len(),
        decode_spec(step_spec(v).0.mem, step_spec(v).0.pc as int) matches Ok(d2) && d2.0
            == Y86::RMMOVQ(ra, rb, 0),
        decode_spec(step_spec(step_spec(v).0).0.mem, step_spec(step_spec(v).0).0.pc as int)
            matches Ok(d3) && d3.0 == Y86::MRMOVQ(rc, rb, 0),
    ensures
        step_spec(step_spec(step_spec(v).0).0).0.regs.read_spec(rc) == w,
{
    let base = v.regs.read_spec(rb);
    let v1 = step_spec(v).0;
    assert(v1.regs == v.regs.write_spec(ra, w));
    assert(v1.mem == v.mem);
    assert(v1.status == Status::Running);
    v.regs.lemma_read_write(ra, w);
    assert(v1.regs.read_spec(rb) == base);
    assert(wrap_add(base, 0) == base);
    let v2 = step_spec(v1).0;
    crate::isa::lemma_store_word(v1.mem, base as int, w);
    assert(v2.mem == store_word(v1.mem, base as int, w));
    assert(v2.regs == v1.regs);
    assert(v2.status == Status::Running);
    assert(word_at(v2.mem, base as int) == w);
    let v3 = step_spec(v2).0;
    assert(v3.regs.read_spec(rc) == w);
}

} // verus!
