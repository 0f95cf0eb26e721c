use y86_sim::cpu::{cond_holds, Flags, RegFile, Status, StepResult, CPU, MEM_SIZE};
use y86_sim::isa::{encode, Cond, FaultKind, Op, Register, Y86};

/// Lays the encodings out one after another from address zero.
fn image(instrs: &[Y86]) -> Vec<u8> {
    let mut img: Vec<u8> = Vec::new();
    for i in instrs {
        let mut bytes = encode(i);
        img.append(&mut bytes);
    }
    img
}

/// Overwrites the bytes at `at` with the encoding of `x`, growing the
/// image with zeros as far as needed.
fn place(img: &mut Vec<u8>, at: usize, x: Y86) {
    let bytes = encode(&x);
    while img.len() < at + bytes.len() {
        img.push(0);
    }
    for (k, b) in bytes.iter().enumerate() {
        img[at + k] = *b;
    }
}

#[test]
fn fresh_machine_is_zeroed() {
    let cpu = CPU::default();
    assert_eq!(cpu.pc(), 0);
    assert_eq!(cpu.current_status(), Status::Running);
    assert_eq!(cpu.condition_flags(), Flags { sf: false, zf: false, of: false });
    assert_eq!(cpu.reg(Register::RAX), 0);
    assert_eq!(cpu.reg(Register::R14), 0);
    let bytes = cpu.read_memory(0, MEM_SIZE).unwrap();
    assert_eq!(bytes.len(), MEM_SIZE);
    assert!(bytes.iter().all(|b| *b == 0));
}

#[test]
fn register_file_slots_are_independent() {
    let mut rf = RegFile::default();
    rf.set(Register::R8, 7);
    rf.set(Register::RSP, 9);
    assert_eq!(rf.index(Register::R8), 7);
    assert_eq!(rf.index(Register::RSP), 9);
    assert_eq!(rf.index(Register::RAX), 0);
    rf.set(Register::R8, 1);
    assert_eq!(rf.index(Register::R8), 1);
    assert_eq!(rf.index(Register::RSP), 9);
}

#[test]
fn load_rejects_oversized_image() {
    let img = vec![0u8; MEM_SIZE + 1];
    assert!(matches!(CPU::load(&img, 0), Err(FaultKind::ImageTooLarge)));
    let exact = vec![0u8; MEM_SIZE];
    assert!(CPU::load(&exact, 0).is_ok());
}

#[test]
fn load_places_image_and_entry() {
    let img = vec![0x10, 0x90, 0x05];
    let cpu = CPU::load(&img, 1).unwrap();
    assert_eq!(cpu.pc(), 1);
    assert_eq!(cpu.current_status(), Status::Running);
    assert_eq!(cpu.read_memory(0, 4).unwrap(), vec![0x10, 0x90, 0x05, 0x00]);
}

#[test]
fn read_memory_refuses_out_of_range() {
    let cpu = CPU::default();
    assert!(cpu.read_memory(MEM_SIZE - 7, 8).is_none());
    assert!(cpu.read_memory(MEM_SIZE, 1).is_none());
    assert!(cpu.read_memory(MEM_SIZE - 8, 8).is_some());
    assert_eq!(cpu.read_memory(5, 0).unwrap(), Vec::<u8>::new());
}

#[test]
fn halt_is_terminal_and_step_after_fails() {
    // an empty image leaves memory all zero, and opcode 0x00 is HALT
    let mut cpu = CPU::load(&Vec::new(), 0).unwrap();
    assert_eq!(cpu.step(), StepResult::Halted);
    assert_eq!(cpu.current_status(), Status::Halted);
    let pc_after = cpu.pc();
    assert_eq!(cpu.step(), StepResult::Fault(FaultKind::StepAfterTerminal));
    assert_eq!(cpu.current_status(), Status::Halted);
    assert_eq!(cpu.pc(), pc_after);
}

#[test]
fn add_sets_flags_on_signed_overflow() {
    let img = image(&[
        Y86::IRMOVQ(Register::RAX, 0x7fff_ffff_ffff_ffff),
        Y86::IRMOVQ(Register::RBX, 1),
        Y86::OPQ(Op::Add, Register::RAX, Register::RBX),
        Y86::HALT,
    ]);
    let mut cpu = CPU::load(&img, 0).unwrap();
    cpu.run(10);
    assert_eq!(cpu.current_status(), Status::Halted);
    assert_eq!(cpu.reg(Register::RBX), 0x8000_0000_0000_0000);
    let f = cpu.condition_flags();
    assert!(f.of);
    assert!(f.sf);
    assert!(!f.zf);
}

#[test]
fn add_wraps_to_zero_and_sets_zf() {
    let img = image(&[
        Y86::IRMOVQ(Register::RAX, u64::MAX),
        Y86::IRMOVQ(Register::RBX, 1),
        Y86::OPQ(Op::Add, Register::RAX, Register::RBX),
        Y86::HALT,
    ]);
    let mut cpu = CPU::load(&img, 0).unwrap();
    cpu.run(10);
    assert_eq!(cpu.reg(Register::RBX), 0);
    let f = cpu.condition_flags();
    assert!(f.zf);
    assert!(!f.sf);
    assert!(!f.of);
}

#[test]
fn bitwise_ops_clear_of() {
    let img = image(&[
        Y86::IRMOVQ(Register::RAX, 0xff00),
        Y86::IRMOVQ(Register::RBX, 0x0ff0),
        Y86::OPQ(Op::And, Register::RAX, Register::RBX),
        Y86::HALT,
    ]);
    let mut cpu = CPU::load(&img, 0).unwrap();
    cpu.run(10);
    assert_eq!(cpu.reg(Register::RBX), 0x0f00);
    let f = cpu.condition_flags();
    assert!(!f.of);
    assert!(!f.sf);
    assert!(!f.zf);
}

#[test]
fn condition_table_l_is_sf_xor_of() {
    let sf = Flags { sf: true, zf: false, of: false };
    let of = Flags { sf: false, zf: false, of: true };
    let both = Flags { sf: true, zf: false, of: true };
    let none = Flags { sf: false, zf: false, of: false };
    assert!(cond_holds(Cond::L, sf));
    assert!(cond_holds(Cond::L, of));
    assert!(!cond_holds(Cond::L, both));
    assert!(!cond_holds(Cond::L, none));
    assert!(cond_holds(Cond::Always, none));
    assert!(cond_holds(Cond::Ge, none));
    assert!(!cond_holds(Cond::G, Flags { sf: false, zf: true, of: false }));
}

#[test]
fn taken_jump_transfers_control() {
    // a zero subtraction sets ZF, so the E condition holds
    let mut img = image(&[
        Y86::IRMOVQ(Register::RAX, 5),
        Y86::IRMOVQ(Register::RBX, 5),
        Y86::OPQ(Op::Sub, Register::RAX, Register::RBX),
        Y86::J(Cond::E, 40),
    ]);
    place(&mut img, 40, Y86::HALT);
    let mut cpu = CPU::load(&img, 0).unwrap();
    assert_eq!(cpu.step(), StepResult::Running);
    assert_eq!(cpu.step(), StepResult::Running);
    assert_eq!(cpu.step(), StepResult::Running);
    assert!(cpu.condition_flags().zf);
    assert_eq!(cpu.step(), StepResult::Running);
    assert_eq!(cpu.pc(), 40);
    assert_eq!(cpu.step(), StepResult::Halted);
}

#[test]
fn untaken_jump_falls_through() {
    let mut img = image(&[
        Y86::IRMOVQ(Register::RAX, 5),
        Y86::IRMOVQ(Register::RBX, 5),
        Y86::OPQ(Op::Sub, Register::RAX, Register::RBX),
        Y86::J(Cond::Ne, 40),
    ]);
    let fall_through = img.len() as u64;
    place(&mut img, 40, Y86::HALT);
    let mut cpu = CPU::load(&img, 0).unwrap();
    cpu.run(4);
    assert_eq!(cpu.pc(), fall_through);
}

#[test]
fn cmov_moves_only_when_condition_holds() {
    let img = image(&[
        Y86::IRMOVQ(Register::RAX, 1),
        Y86::IRMOVQ(Register::RBX, 2),
        Y86::OPQ(Op::Sub, Register::RAX, Register::RAX),
        Y86::CMOV(Cond::E, Register::RBX, Register::RCX),
        Y86::CMOV(Cond::Ne, Register::RAX, Register::RDX),
        Y86::HALT,
    ]);
    let mut cpu = CPU::load(&img, 0).unwrap();
    cpu.run(10);
    assert_eq!(cpu.current_status(), Status::Halted);
    // the zero result left ZF set: E moved, Ne did not
    assert_eq!(cpu.reg(Register::RCX), 2);
    assert_eq!(cpu.reg(Register::RDX), 0);
}

#[test]
fn push_then_pop_restores_rsp_and_moves_value() {
    let img = image(&[
        Y86::IRMOVQ(Register::RSP, 512),
        Y86::IRMOVQ(Register::RAX, 0xdead_beef),
        Y86::PUSHQ(Register::RAX),
        Y86::POPQ(Register::RBX),
        Y86::HALT,
    ]);
    let mut cpu = CPU::load(&img, 0).unwrap();
    cpu.run(10);
    assert_eq!(cpu.current_status(), Status::Halted);
    assert_eq!(cpu.reg(Register::RSP), 512);
    assert_eq!(cpu.reg(Register::RBX), 0xdead_beef);
    assert_eq!(cpu.reg(Register::RAX), 0xdead_beef);
}

#[test]
fn call_and_ret_restore_pc_and_rsp() {
    let mut img = image(&[
        Y86::IRMOVQ(Register::RSP, 512),
        Y86::CALL(30),
        Y86::HALT,
    ]);
    let fall_through = 19u64;
    place(&mut img, 30, Y86::RET);
    let mut cpu = CPU::load(&img, 0).unwrap();
    assert_eq!(cpu.step(), StepResult::Running);
    assert_eq!(cpu.step(), StepResult::Running);
    assert_eq!(cpu.pc(), 30);
    assert_eq!(cpu.reg(Register::RSP), 504);
    // the pushed return address is the call's fall-through, little-endian
    assert_eq!(cpu.read_memory(504, 8).unwrap(), vec![19, 0, 0, 0, 0, 0, 0, 0]);
    assert_eq!(cpu.step(), StepResult::Running);
    assert_eq!(cpu.pc(), fall_through);
    assert_eq!(cpu.reg(Register::RSP), 512);
    assert_eq!(cpu.step(), StepResult::Halted);
}

#[test]
fn store_then_load_hands_value_through() {
    let img = image(&[
        Y86::IRMOVQ(Register::RAX, 0x1122_3344_5566_7788),
        Y86::IRMOVQ(Register::RBX, 600),
        Y86::RMMOVQ(Register::RAX, Register::RBX, 0),
        Y86::MRMOVQ(Register::RCX, Register::RBX, 0),
        Y86::HALT,
    ]);
    let mut cpu = CPU::load(&img, 0).unwrap();
    cpu.run(10);
    assert_eq!(cpu.current_status(), Status::Halted);
    assert_eq!(cpu.reg(Register::RCX), 0x1122_3344_5566_7788);
    assert_eq!(
        cpu.read_memory(600, 8).unwrap(),
        vec![0x88, 0x77, 0x66, 0x55, 0x44, 0x33, 0x22, 0x11]
    );
}

#[test]
fn displacement_adds_to_base() {
    let img = image(&[
        Y86::IRMOVQ(Register::RAX, 0xab),
        Y86::IRMOVQ(Register::RBX, 600),
        Y86::RMMOVQ(Register::RAX, Register::RBX, 16),
        Y86::MRMOVQ(Register::RCX, Register::RBX, 16),
        Y86::HALT,
    ]);
    let mut cpu = CPU::load(&img, 0).unwrap();
    cpu.run(10);
    assert_eq!(cpu.reg(Register::RCX), 0xab);
    assert_eq!(cpu.read_memory(616, 1).unwrap(), vec![0xab]);
}

#[test]
fn out_of_bounds_store_faults_without_mutation() {
    let img = image(&[
        Y86::IRMOVQ(Register::RBX, 2000),
        Y86::RMMOVQ(Register::RAX, Register::RBX, 0),
    ]);
    let mut cpu = CPU::load(&img, 0).unwrap();
    assert_eq!(cpu.step(), StepResult::Running);
    let pc_before = cpu.pc();
    let mem_before = cpu.read_memory(0, MEM_SIZE).unwrap();
    assert_eq!(cpu.step(), StepResult::Fault(FaultKind::MemoryOutOfBounds));
    assert_eq!(cpu.current_status(), Status::Faulted);
    assert_eq!(cpu.pc(), pc_before);
    assert_eq!(cpu.reg(Register::RBX), 2000);
    assert_eq!(cpu.read_memory(0, MEM_SIZE).unwrap(), mem_before);
}

#[test]
fn out_of_bounds_store_near_edge_faults() {
    // the address must leave room for all eight bytes
    let img = image(&[
        Y86::IRMOVQ(Register::RBX, (MEM_SIZE - 7) as u64),
        Y86::RMMOVQ(Register::RAX, Register::RBX, 0),
    ]);
    let mut cpu = CPU::load(&img, 0).unwrap();
    assert_eq!(cpu.step(), StepResult::Running);
    assert_eq!(cpu.step(), StepResult::Fault(FaultKind::MemoryOutOfBounds));
}

#[test]
fn fetch_past_end_faults() {
    let mut img = vec![0u8; MEM_SIZE];
    // an IRMOVQ opcode at the last addresses cannot fetch its ten bytes
    img[MEM_SIZE - 4] = 0x30;
    let mut cpu = CPU::load(&img, (MEM_SIZE - 4) as u64).unwrap();
    assert_eq!(cpu.step(), StepResult::Fault(FaultKind::MemoryOutOfBounds));
    assert_eq!(cpu.current_status(), Status::Faulted);
}

#[test]
fn invalid_opcode_faults() {
    let img = vec![0xc1];
    let mut cpu = CPU::load(&img, 0).unwrap();
    assert_eq!(cpu.step(), StepResult::Fault(FaultKind::InvalidOpcode));
    assert_eq!(cpu.current_status(), Status::Faulted);
    assert_eq!(cpu.pc(), 0);
    assert_eq!(cpu.step(), StepResult::Fault(FaultKind::StepAfterTerminal));
}

#[test]
fn run_stops_at_budget() {
    // NOOPs forever: the budget, not the program, ends the run
    let img = image(&[Y86::NOOP, Y86::NOOP, Y86::NOOP, Y86::NOOP]);
    let mut cpu = CPU::load(&img, 0).unwrap();
    cpu.run(3);
    assert_eq!(cpu.current_status(), Status::Running);
    assert_eq!(cpu.pc(), 3);
}

#[test]
fn unconditional_jump_is_always_taken() {
    let mut img = image(&[Y86::J(Cond::Always, 40)]);
    place(&mut img, 40, Y86::HALT);
    let mut cpu = CPU::load(&img, 0).unwrap();
    assert_eq!(cpu.step(), StepResult::Running);
    assert_eq!(cpu.pc(), 40);
}

#[test]
fn pushq_rsp_pushes_the_old_value() {
    let img = image(&[
        Y86::IRMOVQ(Register::RSP, 512),
        Y86::PUSHQ(Register::RSP),
        Y86::HALT,
    ]);
    let mut cpu = CPU::load(&img, 0).unwrap();
    cpu.run(10);
    assert_eq!(cpu.reg(Register::RSP), 504);
    assert_eq!(cpu.read_memory(504, 8).unwrap(), vec![0, 2, 0, 0, 0, 0, 0, 0]);
}

#[test]
fn popq_rsp_takes_the_memory_value() {
    let img = image(&[
        Y86::IRMOVQ(Register::RSP, 512),
        Y86::IRMOVQ(Register::RAX, 777),
        Y86::RMMOVQ(Register::RAX, Register::RSP, 0),
        Y86::POPQ(Register::RSP),
        Y86::HALT,
    ]);
    let mut cpu = CPU::load(&img, 0).unwrap();
    cpu.run(10);
    assert_eq!(cpu.current_status(), Status::Halted);
    assert_eq!(cpu.reg(Register::RSP), 777);
}

#[test]
fn subtraction_computes_vala_minus_valb() {
    let img = image(&[
        Y86::IRMOVQ(Register::RAX, 7),
        Y86::IRMOVQ(Register::RBX, 5),
        Y86::OPQ(Op::Sub, Register::RAX, Register::RBX),
        Y86::HALT,
    ]);
    let mut cpu = CPU::load(&img, 0).unwrap();
    cpu.run(10);
    assert_eq!(cpu.reg(Register::RBX), 2);
    assert_eq!(cpu.reg(Register::RAX), 7);
}
