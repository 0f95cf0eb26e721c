use y86_sim::isa::{decode, encode, Cond, FaultKind, Op, Register, Y86, Y86BLANK};

fn roundtrip(x: Y86) {
    let bytes = encode(&x);
    let got = decode(&bytes, 0);
    assert_eq!(got, Ok((x, bytes.len())));
}

#[test]
fn roundtrip_every_family() {
    roundtrip(Y86::HALT);
    roundtrip(Y86::NOOP);
    roundtrip(Y86::CMOV(Cond::Always, Register::RAX, Register::RBX));
    roundtrip(Y86::CMOV(Cond::G, Register::R14, Register::RSP));
    roundtrip(Y86::IRMOVQ(Register::RCX, 0xdead_beef_0123_4567));
    roundtrip(Y86::RMMOVQ(Register::RSI, Register::RDI, 0x20));
    roundtrip(Y86::MRMOVQ(Register::R8, Register::R9, u64::MAX));
    roundtrip(Y86::OPQ(Op::Add, Register::RDX, Register::RBP));
    roundtrip(Y86::OPQ(Op::Sub, Register::R10, Register::R11));
    roundtrip(Y86::OPQ(Op::And, Register::R12, Register::R13));
    roundtrip(Y86::OPQ(Op::Xor, Register::RAX, Register::RAX));
    roundtrip(Y86::J(Cond::E, 0x40));
    roundtrip(Y86::J(Cond::Ne, 0));
    roundtrip(Y86::CALL(0x123));
    roundtrip(Y86::RET);
    roundtrip(Y86::PUSHQ(Register::RBX));
    roundtrip(Y86::POPQ(Register::R14));
}

#[test]
fn encode_exact_bytes() {
    assert_eq!(encode(&Y86::HALT), vec![0x00]);
    assert_eq!(encode(&Y86::NOOP), vec![0x10]);
    assert_eq!(encode(&Y86::CMOV(Cond::G, Register::RSI, Register::RDI)), vec![0x26, 0x67]);
    assert_eq!(
        encode(&Y86::IRMOVQ(Register::RAX, 0x0102_0304_0506_0708)),
        vec![0x30, 0xf0, 8, 7, 6, 5, 4, 3, 2, 1]
    );
    assert_eq!(
        encode(&Y86::RMMOVQ(Register::RAX, Register::RBX, 3)),
        vec![0x40, 0x03, 3, 0, 0, 0, 0, 0, 0, 0]
    );
    assert_eq!(
        encode(&Y86::MRMOVQ(Register::RCX, Register::RDX, 0x100)),
        vec![0x50, 0x12, 0, 1, 0, 0, 0, 0, 0, 0]
    );
    assert_eq!(encode(&Y86::OPQ(Op::Xor, Register::R8, Register::R14)), vec![0x63, 0x8e]);
    assert_eq!(encode(&Y86::J(Cond::Le, 0x10)), vec![0x71, 0x10, 0, 0, 0, 0, 0, 0, 0]);
    assert_eq!(encode(&Y86::CALL(0x100)), vec![0x80, 0, 1, 0, 0, 0, 0, 0, 0]);
    assert_eq!(encode(&Y86::RET), vec![0x90]);
    assert_eq!(encode(&Y86::PUSHQ(Register::RDX)), vec![0xa0, 0x2f]);
    assert_eq!(encode(&Y86::POPQ(Register::RBP)), vec![0xb0, 0x5f]);
}

#[test]
fn family_codes_roundtrip() {
    let families = [
        Y86BLANK::HALT,
        Y86BLANK::NOOP,
        Y86BLANK::CMOV,
        Y86BLANK::IRMOVQ,
        Y86BLANK::RMMOVQ,
        Y86BLANK::MRMOVQ,
        Y86BLANK::OPQ,
        Y86BLANK::J,
        Y86BLANK::CALL,
        Y86BLANK::RET,
        Y86BLANK::PUSHQ,
        Y86BLANK::POPQ,
    ];
    for (k, f) in families.iter().enumerate() {
        assert_eq!(f.code(), (k as u8) << 4);
        assert_eq!(Y86BLANK::from_high_nibble(f.code()), Some(*f));
    }
    assert_eq!(Y86BLANK::from_high_nibble(0xc0), None);
    assert_eq!(Y86BLANK::from_high_nibble(0x21), None);
}

#[test]
fn decode_rejects_unknown_family() {
    assert_eq!(decode(&vec![0xc0], 0), Err(FaultKind::InvalidOpcode));
    assert_eq!(decode(&vec![0xff], 0), Err(FaultKind::InvalidOpcode));
}

#[test]
fn decode_rejects_bad_nibbles() {
    // condition nibble 7 does not exist
    assert_eq!(decode(&vec![0x27, 0x01], 0), Err(FaultKind::InvalidOpcode));
    assert_eq!(decode(&vec![0x77, 0, 0, 0, 0, 0, 0, 0, 0], 0), Err(FaultKind::InvalidOpcode));
    // operator nibble 4 does not exist
    assert_eq!(decode(&vec![0x64, 0x01], 0), Err(FaultKind::InvalidOpcode));
    // a required register slot holding the absent mark 0xf
    assert_eq!(decode(&vec![0x20, 0x0f], 0), Err(FaultKind::InvalidOpcode));
    assert_eq!(decode(&vec![0x20, 0xf0], 0), Err(FaultKind::InvalidOpcode));
    assert_eq!(decode(&vec![0xa0, 0xff], 0), Err(FaultKind::InvalidOpcode));
}

#[test]
fn decode_rejects_truncated_instruction() {
    assert_eq!(decode(&vec![], 0), Err(FaultKind::MemoryOutOfBounds));
    assert_eq!(decode(&vec![0x30, 0xf0], 0), Err(FaultKind::MemoryOutOfBounds));
    assert_eq!(decode(&vec![0x80, 1, 2], 0), Err(FaultKind::MemoryOutOfBounds));
    assert_eq!(decode(&vec![0x20], 0), Err(FaultKind::MemoryOutOfBounds));
    let one = vec![0x10];
    assert_eq!(decode(&one, 1), Err(FaultKind::MemoryOutOfBounds));
}

#[test]
fn decode_ignores_unused_low_nibble() {
    // the low nibble plays no role in the HALT family
    assert_eq!(decode(&vec![0x05], 0), Ok((Y86::HALT, 1)));
}

#[test]
fn decode_at_offset() {
    let mut bytes = vec![0x10, 0x10];
    let mut call = encode(&Y86::CALL(7));
    bytes.append(&mut call);
    assert_eq!(decode(&bytes, 2), Ok((Y86::CALL(7), 9)));
}
