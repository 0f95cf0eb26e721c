//! The instruction-set codec: the register, condition and operator
//! enumerations, the decoded instruction type, and the two pure mappings
//! between instructions and their canonical byte encoding.

use vstd::prelude::*;

verus! {

/// The fifteen general-purpose registers. The nibble `0xf` is not a
/// register: it marks an absent register slot in the encoding.
#[derive(Clone, Copy, PartialEq, Eq, Structural, Debug)]
pub enum Register {
    RAX,
    RCX,
    RDX,
    RBX,
    RSP,
    RBP,
    RSI,
    RDI,
    R8,
    R9,
    R10,
    R11,
    R12,
    R13,
    R14,
}

impl Register {
    /// The encoding nibble of this register.
    pub open spec fn nibble(self) -> u8 {
        match self {
            Register::RAX => 0x0,
            Register::RCX => 0x1,
            Register::RDX => 0x2,
            Register::RBX => 0x3,
            Register::RSP => 0x4,
            Register::RBP => 0x5,
            Register::RSI => 0x6,
            Register::RDI => 0x7,
            Register::R8 => 0x8,
            Register::R9 => 0x9,
            Register::R10 => 0xa,
            Register::R11 => 0xb,
            Register::R12 => 0xc,
            Register::R13 => 0xd,
            Register::R14 => 0xe,
        }
    }

    pub fn code(self) -> (r: u8)
        ensures
            r == self.nibble(),
    {
        match self {
            Register::RAX => 0x0,
            Register::RCX => 0x1,
            Register::RDX => 0x2,
            Register::RBX => 0x3,
            Register::RSP => 0x4,
            Register::RBP => 0x5,
            Register::RSI => 0x6,
            Register::RDI => 0x7,
            Register::R8 => 0x8,
            Register::R9 => 0x9,
            Register::R10 => 0xa,
            Register::R11 => 0xb,
            Register::R12 => 0xc,
            Register::R13 => 0xd,
            Register::R14 => 0xe,
        }
    }

    /// The register a nibble decodes to; `None` for `0xf` (absent) and for
    /// values that are no nibble at all.
    pub open spec fn from_nibble_spec(b: u8) -> Option<Register> {
        match b {
            0x0 => Some(Register::RAX),
            0x1 => Some(Register::RCX),
            0x2 => Some(Register::RDX),
            0x3 => Some(Register::RBX),
            0x4 => Some(Register::RSP),
            0x5 => Some(Register::RBP),
            0x6 => Some(Register::RSI),
            0x7 => Some(Register::RDI),
            0x8 => Some(Register::R8),
            0x9 => Some(Register::R9),
            0xa => Some(Register::R10),
            0xb => Some(Register::R11),
            0xc => Some(Register::R12),
            0xd => Some(Register::R13),
            0xe => Some(Register::R14),
            _ => None,
        }
    }

    pub fn from_nibble(b: u8) -> (r: Option<Register>)
        ensures
            r == Self::from_nibble_spec(b),
    {
        match b {
            0x0 => Some(Register::RAX),
            0x1 => Some(Register::RCX),
            0x2 => Some(Register::RDX),
            0x3 => Some(Register::RBX),
            0x4 => Some(Register::RSP),
            0x5 => Some(Register::RBP),
            0x6 => Some(Register::RSI),
            0x7 => Some(Register::RDI),
            0x8 => Some(Register::R8),
            0x9 => Some(Register::R9),
            0xa => Some(Register::R10),
            0xb => Some(Register::R11),
            0xc => Some(Register::R12),
            0xd => Some(Register::R13),
            0xe => Some(Register::R14),
            _ => None,
        }
    }

    /// Decoding is the inverse of encoding for every register.
    pub proof fn lemma_nibble_roundtrip(self)
        ensures
            Self::from_nibble_spec(self.nibble()) == Some(self),
            self.nibble() <= 0xe,
    {
    }
}

/// The condition selectors for conditional moves and jumps.
#[derive(Clone, Copy, PartialEq, Eq, Structural, Debug)]
pub enum Cond {
    /// Condition code 0: always holds.
    Always,
    Le,
    L,
    E,
    Ne,
    Ge,
    G,
}

impl Cond {
    pub open spec fn nibble(self) -> u8 {
        match self {
            Cond::Always => 0x0,
            Cond::Le => 0x1,
            Cond::L => 0x2,
            Cond::E => 0x3,
            Cond::Ne => 0x4,
            Cond::Ge => 0x5,
            Cond::G => 0x6,
        }
    }

    pub fn code(self) -> (r: u8)
        ensures
            r == self.nibble(),
    {
        match self {
            Cond::Always => 0x0,
            Cond::Le => 0x1,
            Cond::L => 0x2,
            Cond::E => 0x3,
            Cond::Ne => 0x4,
            Cond::Ge => 0x5,
            Cond::G => 0x6,
        }
    }

    pub open spec fn from_nibble_spec(b: u8) -> Option<Cond> {
        match b {
            0x0 => Some(Cond::Always),
            0x1 => Some(Cond::Le),
            0x2 => Some(Cond::L),
            0x3 => Some(Cond::E),
            0x4 => Some(Cond::Ne),
            0x5 => Some(Cond::Ge),
            0x6 => Some(Cond::G),
            _ => None,
        }
    }

    pub fn from_nibble(b: u8) -> (r: Option<Cond>)
        ensures
            r == Self::from_nibble_spec(b),
    {
        match b {
            0x0 => Some(Cond::Always),
            0x1 => Some(Cond::Le),
            0x2 => Some(Cond::L),
            0x3 => Some(Cond::E),
            0x4 => Some(Cond::Ne),
            0x5 => Some(Cond::Ge),
            0x6 => Some(Cond::G),
            _ => None,
        }
    }

    pub proof fn lemma_nibble_roundtrip(self)
        ensures
            Self::from_nibble_spec(self.nibble()) == Some(self),
            self.nibble() <= 0x6,
    {
    }
}

/// The four ALU operators of the arithmetic/logic family.
#[derive(Clone, Copy, PartialEq, Eq, Structural, Debug)]
pub enum Op {
    Add,
    Sub,
    And,
    Xor,
}

impl Op {
    pub open spec fn nibble(self) -> u8 {
        match self {
            Op::Add => 0x0,
            Op::Sub => 0x1,
            Op::And => 0x2,
            Op::Xor => 0x3,
        }
    }

    pub fn code(self) -> (r: u8)
        ensures
            r == self.nibble(),
    {
        match self {
            Op::Add => 0x0,
            Op::Sub => 0x1,
            Op::And => 0x2,
            Op::Xor => 0x3,
        }
    }

    pub open spec fn from_nibble_spec(b: u8) -> Option<Op> {
        match b {
            0x0 => Some(Op::Add),
            0x1 => Some(Op::Sub),
            0x2 => Some(Op::And),
            0x3 => Some(Op::Xor),
            _ => None,
        }
    }

    pub fn from_nibble(b: u8) -> (r: Option<Op>)
        ensures
            r == Self::from_nibble_spec(b),
    {
        match b {
            0x0 => Some(Op::Add),
            0x1 => Some(Op::Sub),
            0x2 => Some(Op::And),
            0x3 => Some(Op::Xor),
            _ => None,
        }
    }

    pub proof fn lemma_nibble_roundtrip(self)
        ensures
            Self::from_nibble_spec(self.nibble()) == Some(self),
            self.nibble() <= 0x3,
    {
    }
}

/// The twelve instruction families, named by the opcode's high nibble alone
/// (the "blank" shape of an instruction, before its operands are filled in).
#[derive(Clone, Copy, PartialEq, Eq, Structural, Debug)]
pub enum Y86BLANK {
    HALT,
    NOOP,
    CMOV,
    IRMOVQ,
    RMMOVQ,
    MRMOVQ,
    OPQ,
    J,
    CALL,
    RET,
    PUSHQ,
    POPQ,
}

impl Y86BLANK {
    /// The family's opcode byte with a zero low nibble.
    pub open spec fn base_opcode(self) -> u8 {
        match self {
            Y86BLANK::HALT => 0x00,
            Y86BLANK::NOOP => 0x10,
            Y86BLANK::CMOV => 0x20,
            Y86BLANK::IRMOVQ => 0x30,
            Y86BLANK::RMMOVQ => 0x40,
            Y86BLANK::MRMOVQ => 0x50,
            Y86BLANK::OPQ => 0x60,
            Y86BLANK::J => 0x70,
            Y86BLANK::CALL => 0x80,
            Y86BLANK::RET => 0x90,
            Y86BLANK::PUSHQ => 0xa0,
            Y86BLANK::POPQ => 0xb0,
        }
    }

    pub fn code(self) -> (r: u8)
        ensures
            r == self.base_opcode(),
    {
        match self {
            Y86BLANK::HALT => 0x00,
            Y86BLANK::NOOP => 0x10,
            Y86BLANK::CMOV => 0x20,
            Y86BLANK::IRMOVQ => 0x30,
            Y86BLANK::RMMOVQ => 0x40,
            Y86BLANK::MRMOVQ => 0x50,
            Y86BLANK::OPQ => 0x60,
            Y86BLANK::J => 0x70,
            Y86BLANK::CALL => 0x80,
            Y86BLANK::RET => 0x90,
            Y86BLANK::PUSHQ => 0xa0,
            Y86BLANK::POPQ => 0xb0,
        }
    }

    /// The family an opcode's high nibble selects; `None` for the four
    /// unassigned high nibbles.
    pub open spec fn from_high_nibble_spec(b: u8) -> Option<Y86BLANK> {
        match b {
            0x00 => Some(Y86BLANK::HALT),
            0x10 => Some(Y86BLANK::NOOP),
            0x20 => Some(Y86BLANK::CMOV),
            0x30 => Some(Y86BLANK::IRMOVQ),
            0x40 => Some(Y86BLANK::RMMOVQ),
            0x50 => Some(Y86BLANK::MRMOVQ),
            0x60 => Some(Y86BLANK::OPQ),
            0x70 => Some(Y86BLANK::J),
            0x80 => Some(Y86BLANK::CALL),
            0x90 => Some(Y86BLANK::RET),
            0xa0 => Some(Y86BLANK::PUSHQ),
            0xb0 => Some(Y86BLANK::POPQ),
            _ => None,
        }
    }

    /// Looks a masked high nibble (a byte of the form `0x?0`) up.
    pub fn from_high_nibble(b: u8) -> (r: Option<Y86BLANK>)
        ensures
            r == Self::from_high_nibble_spec(b),
    {
        match b {
            0x00 => Some(Y86BLANK::HALT),
            0x10 => Some(Y86BLANK::NOOP),
            0x20 => Some(Y86BLANK::CMOV),
            0x30 => Some(Y86BLANK::IRMOVQ),
            0x40 => Some(Y86BLANK::RMMOVQ),
            0x50 => Some(Y86BLANK::MRMOVQ),
            0x60 => Some(Y86BLANK::OPQ),
            0x70 => Some(Y86BLANK::J),
            0x80 => Some(Y86BLANK::CALL),
            0x90 => Some(Y86BLANK::RET),
            0xa0 => Some(Y86BLANK::PUSHQ),
            0xb0 => Some(Y86BLANK::POPQ),
            _ => None,
        }
    }
}

/// A decoded instruction. This type is the single source of truth for
/// instruction shape; only the codec constructs it from bytes or turns it
/// back into bytes.
#[derive(Clone, Copy, PartialEq, Eq, Structural, Debug)]
pub enum Y86 {
    HALT,
    NOOP,
    /// Conditional move: copies the first register into the second when the
    /// condition holds.
    CMOV(Cond, Register, Register),
    /// Moves the 64-bit immediate into the register.
    IRMOVQ(Register, u64),
    /// Stores the first register at address `base + displacement`, with the
    /// second register as base.
    RMMOVQ(Register, Register, u64),
    /// Loads the first register from address `base + displacement`, with the
    /// second register as base.
    MRMOVQ(Register, Register, u64),
    /// Applies the operator to (first, second) and writes the result into
    /// the second register, updating the condition flags.
    OPQ(Op, Register, Register),
    /// Jump to the target address when the condition holds.
    J(Cond, u64),
    CALL(u64),
    RET,
    PUSHQ(Register),
    POPQ(Register),
}

impl Y86 {
    /// The fixed length in bytes of this instruction's encoding.
    pub open spec fn length(self) -> usize {
        match self {
            Y86::HALT => 1,
            Y86::NOOP => 1,
            Y86::CMOV(_, _, _) => 2,
            Y86::IRMOVQ(_, _) => 10,
            Y86::RMMOVQ(_, _, _) => 10,
            Y86::MRMOVQ(_, _, _) => 10,
            Y86::OPQ(_, _, _) => 2,
            Y86::J(_, _) => 9,
            Y86::CALL(_) => 9,
            Y86::RET => 1,
            Y86::PUSHQ(_) => 2,
            Y86::POPQ(_) => 2,
        }
    }
}

/// The canonical little-endian byte sequence of a 64-bit value, least
/// significant byte first.
pub open spec fn le_bytes(v: u64) -> Seq<u8> {
    seq![
        (v & 0xff) as u8,
        ((v >> 8) & 0xff) as u8,
        ((v >> 16) & 0xff) as u8,
        ((v >> 24) & 0xff) as u8,
        ((v >> 32) & 0xff) as u8,
        ((v >> 40) & 0xff) as u8,
        ((v >> 48) & 0xff) as u8,
        ((v >> 56) & 0xff) as u8,
    ]
}

/// The 64-bit value stored little-endian in the eight bytes at `i`.
pub open spec fn word_at(s: Seq<u8>, i: int) -> u64
    recommends
        0 <= i,
        i + 8 <= s.len(),
{
    (s[i] as u64) | ((s[i + 1] as u64) << 8) | ((s[i + 2] as u64) << 16) | ((s[i + 3] as u64)
        << 24) | ((s[i + 4] as u64) << 32) | ((s[i + 5] as u64) << 40) | ((s[i + 6] as u64) << 48)
        | ((s[i + 7] as u64) << 56)
}

/// The sequence with the eight bytes at `i` replaced by the little-endian
/// encoding of `v`; all other bytes and the length are unchanged.
pub open spec fn store_word(s: Seq<u8>, i: int, v: u64) -> Seq<u8>
    recommends
        0 <= i,
        i + 8 <= s.len(),
{
    s.update(i, le_bytes(v)[0]).update(i + 1, le_bytes(v)[1]).update(i + 2, le_bytes(v)[2]).update(
        i + 3,
        le_bytes(v)[3],
    ).update(i + 4, le_bytes(v)[4]).update(i + 5, le_bytes(v)[5]).update(i + 6, le_bytes(v)[6])
        .update(i + 7, le_bytes(v)[7])
}

/// Reassembling the eight little-endian bytes of `v` gives `v` back.
pub proof fn lemma_le_bytes_roundtrip(v: u64)
    ensures
        forall|s: Seq<u8>, i: int|
            0 <= i && i + 8 <= s.len() && s.subrange(i, i + 8) == le_bytes(v) ==> #[trigger]
            word_at(s, i) == v,
{
    assert forall|s: Seq<u8>, i: int|
        0 <= i && i + 8 <= s.len() && s.subrange(i, i + 8) == le_bytes(v) implies #[trigger]
        word_at(s, i) == v by {
        assert(s[i] == s.subrange(i, i + 8)[0]);
        assert(s[i + 1] == s.subrange(i, i + 8)[1]);
        assert(s[i + 2] == s.subrange(i, i + 8)[2]);
        assert(s[i + 3] == s.subrange(i, i + 8)[3]);
        assert(s[i + 4] == s.subrange(i, i + 8)[4]);
        assert(s[i + 5] == s.subrange(i, i + 8)[5]);
        assert(s[i + 6] == s.subrange(i, i + 8)[6]);
        assert(s[i + 7] == s.subrange(i, i + 8)[7]);
        lemma_le_word(v);
    }
}

/// The bit-level fact behind the round trip: combining the masked shifted
/// bytes of `v` yields `v`.
proof fn lemma_le_word(v: u64)
    ensures
        ((v & 0xff) as u8 as u64) | ((((v >> 8) & 0xff) as u8 as u64) << 8) | ((((v >> 16)
            & 0xff) as u8 as u64) << 16) | ((((v >> 24) & 0xff) as u8 as u64) << 24) | ((((v >> 32)
            & 0xff) as u8 as u64) << 32) | ((((v >> 40) & 0xff) as u8 as u64) << 40) | ((((v >> 48)
            & 0xff) as u8 as u64) << 48) | ((((v >> 56) & 0xff) as u8 as u64) << 56) == v,
{
    assert(((v & 0xff) as u8 as u64) | ((((v >> 8) & 0xff) as u8 as u64) << 8) | ((((v >> 16)
        & 0xff) as u8 as u64) << 16) | ((((v >> 24) & 0xff) as u8 as u64) << 24) | ((((v >> 32)
        & 0xff) as u8 as u64) << 32) | ((((v >> 40) & 0xff) as u8 as u64) << 40) | ((((v >> 48)
        & 0xff) as u8 as u64) << 48) | ((((v >> 56) & 0xff) as u8 as u64) << 56) == v)
        by (bit_vector);
}

/// Reads the little-endian 64-bit word at `i`.
pub fn read_word(mem: &Vec<u8>, i: usize) -> (r: u64)
    requires
        i + 8 <= mem@.len(),
    ensures
        r == word_at(mem@, i as int),
{
    let _bound: usize = mem.len();
    (mem[i] as u64) | ((mem[i + 1] as u64) << 8u64) | ((mem[i + 2] as u64) << 16u64) | ((mem[i
        + 3] as u64) << 24u64) | ((mem[i + 4] as u64) << 32u64) | ((mem[i + 5] as u64) << 40u64) | (
    (mem[i + 6] as u64) << 48u64) | ((mem[i + 7] as u64) << 56u64)
}

/// The eight bytes that `le_bytes` and `store_word` speak of all fit in a
/// byte.
proof fn lemma_byte_masks(v: u64)
    ensures
        v & 0xff < 256,
        (v >> 8) & 0xff < 256,
        (v >> 16) & 0xff < 256,
        (v >> 24) & 0xff < 256,
        (v >> 32) & 0xff < 256,
        (v >> 40) & 0xff < 256,
        (v >> 48) & 0xff < 256,
        (v >> 56) & 0xff < 256,
{
    assert(v & 0xff < 256 && (v >> 8) & 0xff < 256 && (v >> 16) & 0xff < 256 && (v >> 24) & 0xff
        < 256 && (v >> 32) & 0xff < 256 && (v >> 40) & 0xff < 256 && (v >> 48) & 0xff < 256 && (v
        >> 56) & 0xff < 256) by (bit_vector);
}

/// Overwrites the eight bytes at `i` with the little-endian encoding of `v`.
pub fn write_word(mem: &mut Vec<u8>, i: usize, v: u64)
    requires
        i + 8 <= old(mem)@.len(),
    ensures
        final(mem)@ == store_word(old(mem)@, i as int, v),
{
    let _bound: usize = mem.len();
    proof {
        lemma_byte_masks(v);
    }
    mem.set(i, (v & 0xff) as u8);
    mem.set(i + 1, ((v >> 8u64) & 0xff) as u8);
    mem.set(i + 2, ((v >> 16u64) & 0xff) as u8);
    mem.set(i + 3, ((v >> 24u64) & 0xff) as u8);
    mem.set(i + 4, ((v >> 32u64) & 0xff) as u8);
    mem.set(i + 5, ((v >> 40u64) & 0xff) as u8);
    mem.set(i + 6, ((v >> 48u64) & 0xff) as u8);
    mem.set(i + 7, ((v >> 56u64) & 0xff) as u8);
}

/// Appends the eight little-endian bytes of `v`.
pub fn push_word(out: &mut Vec<u8>, v: u64)
    ensures
        final(out)@ == old(out)@ + le_bytes(v),
{
    proof {
        lemma_byte_masks(v);
    }
    out.push((v & 0xff) as u8);
    out.push(((v >> 8u64) & 0xff) as u8);
    out.push(((v >> 16u64) & 0xff) as u8);
    out.push(((v >> 24u64) & 0xff) as u8);
    out.push(((v >> 32u64) & 0xff) as u8);
    out.push(((v >> 40u64) & 0xff) as u8);
    out.push(((v >> 48u64) & 0xff) as u8);
    out.push(((v >> 56u64) & 0xff) as u8);
    proof {
        assert(out@ =~= old(out)@ + le_bytes(v));
    }
}

/// The fault reported by the codec or the execution core.
#[derive(Clone, Copy, PartialEq, Eq, Structural, Debug)]
pub enum FaultKind {
    /// The opcode's high nibble selects no family, or a nibble that must
    /// name a condition, an operator or a register does not.
    InvalidOpcode,
    /// A fetch, load or store address lies outside the address space.
    MemoryOutOfBounds,
    /// The program image is larger than the memory.
    ImageTooLarge,
    /// `step` was called on a machine that already halted or faulted.
    StepAfterTerminal,
}

/// The packed register-pair byte `(rA << 4) | rB`, with `0xf` standing for
/// an absent slot.
pub open spec fn pack_regs(hi: u8, lo: u8) -> u8
    recommends
        hi <= 0xf,
        lo <= 0xf,
{
    (hi << 4) | lo
}

/// The canonical byte encoding of an instruction.
pub open spec fn encode_spec(x: Y86) -> Seq<u8> {
    match x {
        Y86::HALT => seq![0x00u8],
        Y86::NOOP => seq![0x10u8],
        Y86::CMOV(c, ra, rb) => seq![0x20u8 | c.nibble(), pack_regs(ra.nibble(), rb.nibble())],
        Y86::IRMOVQ(rb, v) => seq![0x30u8, pack_regs(0xf, rb.nibble())] + le_bytes(v),
        Y86::RMMOVQ(ra, rb, d) => seq![0x40u8, pack_regs(ra.nibble(), rb.nibble())] + le_bytes(d),
        Y86::MRMOVQ(ra, rb, d) => seq![0x50u8, pack_regs(ra.nibble(), rb.nibble())] + le_bytes(d),
        Y86::OPQ(op, ra, rb) => seq![
            0x60u8 | op.nibble(),
            pack_regs(ra.nibble(), rb.nibble()),
        ],
        Y86::J(c, t) => seq![0x70u8 | c.nibble()] + le_bytes(t),
        Y86::CALL(t) => seq![0x80u8] + le_bytes(t),
        Y86::RET => seq![0x90u8],
        Y86::PUSHQ(ra) => seq![0xa0u8, pack_regs(ra.nibble(), 0xf)],
        Y86::POPQ(ra) => seq![0xb0u8, pack_regs(ra.nibble(), 0xf)],
    }
}

/// What decoding the bytes of `mem` at `pc` yields: the instruction and its
/// length in bytes, or the fault.
///
/// The checks come in a fixed order: the opcode byte must lie inside `mem`,
/// its high nibble must select a family, the family's full length must lie
/// inside `mem`, and every nibble with a role (condition, operator, or a
/// register slot the family reads) must be valid. An ignored low nibble or
/// an ignored register slot may hold anything.
pub open spec fn decode_spec(mem: Seq<u8>, pc: int) -> Result<(Y86, usize), FaultKind> {
    if pc < 0 || pc >= mem.len() {
        Err(FaultKind::MemoryOutOfBounds)
    } else {
        let opcode = mem[pc];
        let lo = opcode & 0x0f;
        match Y86BLANK::from_high_nibble_spec(opcode & 0xf0) {
            None => Err(FaultKind::InvalidOpcode),
            Some(family) => {
                if family == Y86BLANK::HALT {
                    Ok((Y86::HALT, 1))
                } else if family == Y86BLANK::NOOP {
                    Ok((Y86::NOOP, 1))
                } else if family == Y86BLANK::CMOV {
                    if pc + 2 > mem.len() {
                        Err(FaultKind::MemoryOutOfBounds)
                    } else {
                        match (
                            Cond::from_nibble_spec(lo),
                            Register::from_nibble_spec(mem[pc + 1] >> 4),
                            Register::from_nibble_spec(mem[pc + 1] & 0x0f),
                        ) {
                            (Some(c), Some(ra), Some(rb)) => Ok((Y86::CMOV(c, ra, rb), 2)),
                            _ => Err(FaultKind::InvalidOpcode),
                        }
                    }
                } else if family == Y86BLANK::IRMOVQ {
                    if pc + 10 > mem.len() {
                        Err(FaultKind::MemoryOutOfBounds)
                    } else {
                        match Register::from_nibble_spec(mem[pc + 1] & 0x0f) {
                            Some(rb) => Ok((Y86::IRMOVQ(rb, word_at(mem, pc + 2)), 10)),
                            None => Err(FaultKind::InvalidOpcode),
                        }
                    }
                } else if family == Y86BLANK::RMMOVQ || family == Y86BLANK::MRMOVQ {
                    if pc + 10 > mem.len() {
                        Err(FaultKind::MemoryOutOfBounds)
                    } else {
                        match (
                            Register::from_nibble_spec(mem[pc + 1] >> 4),
                            Register::from_nibble_spec(mem[pc + 1] & 0x0f),
                        ) {
                            (Some(ra), Some(rb)) => Ok(
                                (
                                    if family == Y86BLANK::RMMOVQ {
                                        Y86::RMMOVQ(ra, rb, word_at(mem, pc + 2))
                                    } else {
                                        Y86::MRMOVQ(ra, rb, word_at(mem, pc + 2))
                                    },
                                    10,
                                ),
                            ),
                            _ => Err(FaultKind::InvalidOpcode),
                        }
                    }
                } else if family == Y86BLANK::OPQ {
                    if pc + 2 > mem.len() {
                        Err(FaultKind::MemoryOutOfBounds)
                    } else {
                        match (
                            Op::from_nibble_spec(lo),
                            Register::from_nibble_spec(mem[pc + 1] >> 4),
                            Register::from_nibble_spec(mem[pc + 1] & 0x0f),
                        ) {
                            (Some(op), Some(ra), Some(rb)) => Ok((Y86::OPQ(op, ra, rb), 2)),
                            _ => Err(FaultKind::InvalidOpcode),
                        }
                    }
                } else if family == Y86BLANK::J {
                    if pc + 9 > mem.len() {
                        Err(FaultKind::MemoryOutOfBounds)
                    } else {
                        match Cond::from_nibble_spec(lo) {
                            Some(c) => Ok((Y86::J(c, word_at(mem, pc + 1)), 9)),
                            None => Err(FaultKind::InvalidOpcode),
                        }
                    }
                } else if family == Y86BLANK::CALL {
                    if pc + 9 > mem.len() {
                        Err(FaultKind::MemoryOutOfBounds)
                    } else {
                        Ok((Y86::CALL(word_at(mem, pc + 1)), 9))
                    }
                } else if family == Y86BLANK::RET {
                    Ok((Y86::RET, 1))
                } else {
                    // PUSHQ or POPQ
                    if pc + 2 > mem.len() {
                        Err(FaultKind::MemoryOutOfBounds)
                    } else {
                        match Register::from_nibble_spec(mem[pc + 1] >> 4) {
                            Some(ra) => Ok(
                                (
                                    if family == Y86BLANK::PUSHQ {
                                        Y86::PUSHQ(ra)
                                    } else {
                                        Y86::POPQ(ra)
                                    },
                                    2,
                                ),
                            ),
                            None => Err(FaultKind::InvalidOpcode),
                        }
                    }
                }
            },
        }
    }
}

/// Storing a word and reading it back at the same address gives the word;
/// nothing outside the eight bytes changes, and the length is kept.
pub proof fn lemma_store_word(s: Seq<u8>, i: int, v: u64)
    requires
        0 <= i,
        i + 8 <= s.len(),
    ensures
        store_word(s, i, v).len() == s.len(),
        word_at(store_word(s, i, v), i) == v,
        forall|j: int| 0 <= j < s.len() && !(i <= j < i + 8) ==> store_word(s, i, v)[j] == s[j],
{
    assert(store_word(s, i, v).subrange(i, i + 8) =~= le_bytes(v));
    lemma_le_bytes_roundtrip(v);
}

/// Splitting a byte built as `base | n` (base with a clear low nibble, `n`
/// a nibble) gives the two parts back.
proof fn lemma_or_split(b: u8, n: u8)
    by (bit_vector)
    requires
        b & 0xf0 == b,
        n <= 0xf,
    ensures
        (b | n) & 0xf0 == b,
        (b | n) & 0x0f == n,
{
}

/// Unpacking a packed register-pair byte gives the two nibbles back.
proof fn lemma_pack_unpack(hi: u8, lo: u8)
    by (bit_vector)
    requires
        hi <= 0xf,
        lo <= 0xf,
    ensures
        ((hi << 4) | lo) >> 4 == hi,
        ((hi << 4) | lo) & 0x0f == lo,
{
}

/// Every family's base opcode has a clear low nibble.
proof fn lemma_base_opcodes()
    ensures
        0x00u8 & 0xf0 == 0x00,
        0x10u8 & 0xf0 == 0x10,
        0x20u8 & 0xf0 == 0x20,
        0x30u8 & 0xf0 == 0x30,
        0x40u8 & 0xf0 == 0x40,
        0x50u8 & 0xf0 == 0x50,
        0x60u8 & 0xf0 == 0x60,
        0x70u8 & 0xf0 == 0x70,
        0x80u8 & 0xf0 == 0x80,
        0x90u8 & 0xf0 == 0x90,
        0xa0u8 & 0xf0 == 0xa0,
        0xb0u8 & 0xf0 == 0xb0,
{
    assert(0x00u8 & 0xf0 == 0x00 && 0x10u8 & 0xf0 == 0x10 && 0x20u8 & 0xf0 == 0x20 && 0x30u8 & 0xf0
        == 0x30 && 0x40u8 & 0xf0 == 0x40 && 0x50u8 & 0xf0 == 0x50 && 0x60u8 & 0xf0 == 0x60 && 0x70u8
        & 0xf0 == 0x70 && 0x80u8 & 0xf0 == 0x80 && 0x90u8 & 0xf0 == 0x90 && 0xa0u8 & 0xf0 == 0xa0
        && 0xb0u8 & 0xf0 == 0xb0) by (bit_vector);
}

/// Decode is the inverse of encode: every representable instruction comes
/// back from its own encoding, together with its exact length.
#[verifier::rlimit(100)]
pub proof fn lemma_decode_encode(x: Y86)
    ensures
        decode_spec(encode_spec(x), 0) == Ok::<(Y86, usize), FaultKind>((x, x.length())),
{
    lemma_base_opcodes();
    let mem = encode_spec(x);
    match x {
        Y86::HALT => {
            lemma_or_split(0x00, 0x00);
        },
        Y86::NOOP => {
            lemma_or_split(0x10, 0x00);
        },
        Y86::CMOV(c, ra, rb) => {
            c.lemma_nibble_roundtrip();
            ra.lemma_nibble_roundtrip();
            rb.lemma_nibble_roundtrip();
            lemma_or_split(0x20, c.nibble());
            lemma_pack_unpack(ra.nibble(), rb.nibble());
        },
        Y86::IRMOVQ(rb, v) => {
            rb.lemma_nibble_roundtrip();
            lemma_or_split(0x30, 0x00);
            lemma_pack_unpack(0xf, rb.nibble());
            assert(mem.subrange(2, 10) =~= le_bytes(v));
            lemma_le_bytes_roundtrip(v);
        },
        Y86::RMMOVQ(ra, rb, d) => {
            ra.lemma_nibble_roundtrip();
            rb.lemma_nibble_roundtrip();
            lemma_or_split(0x40, 0x00);
            lemma_pack_unpack(ra.nibble(), rb.nibble());
            assert(mem.subrange(2, 10) =~= le_bytes(d));
            lemma_le_bytes_roundtrip(d);
        },
        Y86::MRMOVQ(ra, rb, d) => {
            ra.lemma_nibble_roundtrip();
            rb.lemma_nibble_roundtrip();
            lemma_or_split(0x50, 0x00);
            lemma_pack_unpack(ra.nibble(), rb.nibble());
            assert(mem.subrange(2, 10) =~= le_bytes(d));
            lemma_le_bytes_roundtrip(d);
        },
        Y86::OPQ(op, ra, rb) => {
            op.lemma_nibble_roundtrip();
            ra.lemma_nibble_roundtrip();
            rb.lemma_nibble_roundtrip();
            lemma_or_split(0x60, op.nibble());
            lemma_pack_unpack(ra.nibble(), rb.nibble());
        },
        Y86::J(c, t) => {
            c.lemma_nibble_roundtrip();
            lemma_or_split(0x70, c.nibble());
            assert(mem.subrange(1, 9) =~= le_bytes(t));
            lemma_le_bytes_roundtrip(t);
        },
        Y86::CALL(t) => {
            lemma_or_split(0x80, 0x00);
            assert(mem.subrange(1, 9) =~= le_bytes(t));
            lemma_le_bytes_roundtrip(t);
        },
        Y86::RET => {
            lemma_or_split(0x90, 0x00);
        },
        Y86::PUSHQ(ra) => {
            ra.lemma_nibble_roundtrip();
            lemma_or_split(0xa0, 0x00);
            lemma_pack_unpack(ra.nibble(), 0xf);
        },
        Y86::POPQ(ra) => {
            ra.lemma_nibble_roundtrip();
            lemma_or_split(0xb0, 0x00);
            lemma_pack_unpack(ra.nibble(), 0xf);
        },
    }
}

/// Packs two nibbles into a register-pair byte.
fn pack(hi: u8, lo: u8) -> (r: u8)
    requires
        hi <= 0xf,
        lo <= 0xf,
    ensures
        r == pack_regs(hi, lo),
{
    proof {
        assert(hi <= 0xf && lo <= 0xf ==> ((hi << 4) | lo) < 256) by (bit_vector);
    }
    (hi << 4u8) | lo
}

/// Encodes an instruction into its canonical byte sequence, the exact
/// inverse of `decode`.
pub fn encode(x: &Y86) -> (r: Vec<u8>)
    ensures
        r@ == encode_spec(*x),
        r@.len() == x.length(),
{
    let mut out: Vec<u8> = Vec::new();
    match *x {
        Y86::HALT => {
            out.push(0x00);
        },
        Y86::NOOP => {
            out.push(0x10);
        },
        Y86::CMOV(c, ra, rb) => {
            out.push(0x20 | c.code());
            out.push(pack(ra.code(), rb.code()));
        },
        Y86::IRMOVQ(rb, v) => {
            out.push(0x30);
            out.push(pack(0xf, rb.code()));
            push_word(&mut out, v);
        },
        Y86::RMMOVQ(ra, rb, d) => {
            out.push(0x40);
            out.push(pack(ra.code(), rb.code()));
            push_word(&mut out, d);
        },
        Y86::MRMOVQ(ra, rb, d) => {
            out.push(0x50);
            out.push(pack(ra.code(), rb.code()));
            push_word(&mut out, d);
        },
        Y86::OPQ(op, ra, rb) => {
            out.push(0x60 | op.code());
            out.push(pack(ra.code(), rb.code()));
        },
        Y86::J(c, t) => {
            out.push(0x70 | c.code());
            push_word(&mut out, t);
        },
        Y86::CALL(t) => {
            out.push(0x80);
            push_word(&mut out, t);
        },
        Y86::RET => {
            out.push(0x90);
        },
        Y86::PUSHQ(ra) => {
            out.push(0xa0);
            out.push(pack(ra.code(), 0xf));
        },
        Y86::POPQ(ra) => {
            out.push(0xb0);
            out.push(pack(ra.code(), 0xf));
        },
    }
    proof {
        assert(out@ =~= encode_spec(*x));
    }
    out
}

/// Decodes the instruction whose opcode byte stands at `pc` in `mem`, and
/// returns it with its length in bytes; the fall-through address is `pc`
/// plus that length. Exactly the malformed inputs named by `decode_spec`
/// are rejected.
pub fn decode(mem: &Vec<u8>, pc: usize) -> (r: Result<(Y86, usize), FaultKind>)
    ensures
        r == decode_spec(mem@, pc as int),
{
    let n: usize = mem.len();
    if pc >= n {
        return Err(FaultKind::MemoryOutOfBounds);
    }
    let opcode = mem[pc];
    let lo = opcode & 0x0f;
    let family = match Y86BLANK::from_high_nibble(opcode & 0xf0) {
        Some(f) => f,
        None => {
            return Err(FaultKind::InvalidOpcode);
        },
    };
    match family {
        Y86BLANK::HALT => Ok((Y86::HALT, 1)),
        Y86BLANK::NOOP => Ok((Y86::NOOP, 1)),
        Y86BLANK::CMOV => {
            if n - pc < 2 {
                return Err(FaultKind::MemoryOutOfBounds);
            }
            let regs = mem[pc + 1];
            match (
                Cond::from_nibble(lo),
                Register::from_nibble(regs >> 4u8),
                Register::from_nibble(regs & 0x0f),
            ) {
                (Some(c), Some(ra), Some(rb)) => Ok((Y86::CMOV(c, ra, rb), 2)),
                _ => Err(FaultKind::InvalidOpcode),
            }
        },
        Y86BLANK::IRMOVQ => {
            if n - pc < 10 {
                return Err(FaultKind::MemoryOutOfBounds);
            }
            let regs = mem[pc + 1];
            match Register::from_nibble(regs & 0x0f) {
                Some(rb) => Ok((Y86::IRMOVQ(rb, read_word(mem, pc + 2)), 10)),
                None => Err(FaultKind::InvalidOpcode),
            }
        },
        Y86BLANK::RMMOVQ | Y86BLANK::MRMOVQ => {
            if n - pc < 10 {
                return Err(FaultKind::MemoryOutOfBounds);
            }
            let regs = mem[pc + 1];
            match (Register::from_nibble(regs >> 4u8), Register::from_nibble(regs & 0x0f)) {
                (Some(ra), Some(rb)) => {
                    let w = read_word(mem, pc + 2);
                    if matches!(family, Y86BLANK::RMMOVQ) {
                        Ok((Y86::RMMOVQ(ra, rb, w), 10))
                    } else {
                        Ok((Y86::MRMOVQ(ra, rb, w), 10))
                    }
                },
                _ => Err(FaultKind::InvalidOpcode),
            }
        },
        Y86BLANK::OPQ => {
            if n - pc < 2 {
                return Err(FaultKind::MemoryOutOfBounds);
            }
            let regs = mem[pc + 1];
            match (
                Op::from_nibble(lo),
                Register::from_nibble(regs >> 4u8),
                Register::from_nibble(regs & 0x0f),
            ) {
                (Some(op), Some(ra), Some(rb)) => Ok((Y86::OPQ(op, ra, rb), 2)),
                _ => Err(FaultKind::InvalidOpcode),
            }
        },
        Y86BLANK::J => {
            if n - pc < 9 {
                return Err(FaultKind::MemoryOutOfBounds);
            }
            match Cond::from_nibble(lo) {
                Some(c) => Ok((Y86::J(c, read_word(mem, pc + 1)), 9)),
                None => Err(FaultKind::InvalidOpcode),
            }
        },
        Y86BLANK::CALL => {
            if n - pc < 9 {
                return Err(FaultKind::MemoryOutOfBounds);
            }
            Ok((Y86::CALL(read_word(mem, pc + 1)), 9))
        },
        Y86BLANK::RET => Ok((Y86::RET, 1)),
        Y86BLANK::PUSHQ | Y86BLANK::POPQ => {
            if n - pc < 2 {
                return Err(FaultKind::MemoryOutOfBounds);
            }
            let regs = mem[pc + 1];
            match Register::from_nibble(regs >> 4u8) {
                Some(ra) => {
                    if matches!(family, Y86BLANK::PUSHQ) {
                        Ok((Y86::PUSHQ(ra), 2))
                    } else {
                        Ok((Y86::POPQ(ra), 2))
                    }
                },
                None => Err(FaultKind::InvalidOpcode),
            }
        },
    }
}

} // verus!
