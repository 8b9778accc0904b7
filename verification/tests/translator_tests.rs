use iced_x86::{Code, Register};
use xob64::arith::{self, movk_parts, nzcv_to_rflags};
use xob64::arm::{inverse_condition, label_target, Cond, Imm, Instruction, Op, Operand, Q8, W0, X0, X1, X24, X8, XZR};

const X9: u32 = X8 + 1;
use xob64::branch::{jcc_code, rewrite_branch, Callbacks};
use xob64::compiler::{compile_chunk, finalize_instr_map};
use xob64::register::{translate_reg, NativeRegClass, RegClass, RegTranslation};
use xob64::x86::{
    self, full_register, full_register32, Assembler, OpKind, X86Instr, CALL_RM64, EAX, JE_REL32_64, JNE_REL32_64,
    MOV_R64_IMM64, MOV_R64_RM64, MOV_RM64_R64, NOPD, R15, RAX, RDI, RSI,
};

#[test]
fn register_numbers_agree_with_iced() {
    assert_eq!(Register::RAX as u32, x86::RAX);
    assert_eq!(Register::R15 as u32, x86::R15);
    assert_eq!(Register::EAX as u32, x86::EAX);
    assert_eq!(Register::AL as u32, x86::AL);
    assert_eq!(Register::SPL as u32, x86::SPL);
    assert_eq!(Register::XMM0 as u32, x86::XMM0);
    assert_eq!(Register::XMM15 as u32, x86::XMM15);
    assert_eq!(Register::RIP as u32, x86::RIP);
}

#[test]
fn code_numbers_agree_with_iced() {
    assert_eq!(Code::Mov_r64_imm64 as u32, x86::MOV_R64_IMM64);
    assert_eq!(Code::Mov_rm64_r64 as u32, x86::MOV_RM64_R64);
    assert_eq!(Code::Mov_r64_rm64 as u32, x86::MOV_R64_RM64);
    assert_eq!(Code::Call_rm64 as u32, x86::CALL_RM64);
    assert_eq!(Code::Jmp_rm64 as u32, x86::JMP_RM64);
    assert_eq!(Code::Jne_rel32_64 as u32, x86::JNE_REL32_64);
    assert_eq!(Code::Add_rm64_imm8 as u32, x86::ADD_RM64_IMM8);
    assert_eq!(Code::Sub_rm64_imm8 as u32, x86::SUB_RM64_IMM8);
    assert_eq!(Code::Cmp_rm64_r64 as u32, x86::CMP_RM64_R64);
    assert_eq!(Code::Lea_r64_m as u32, x86::LEA_R64_M);
    assert_eq!(Code::Nopd as u32, x86::NOPD);
    assert_eq!(Code::Setne_rm8 as u32, x86::SETNE_RM8);
    assert_eq!(Code::Cmovge_r64_rm64 as u32, x86::CMOVGE_R64_RM64);
    assert_eq!(Code::Zero_bytes as u32, x86::ZERO_BYTES);
}

#[test]
fn full_register_widens_general_purpose_registers() {
    assert_eq!(full_register(x86::AL), RAX);
    assert_eq!(full_register(x86::EAX), RAX);
    assert_eq!(full_register(x86::AX), RAX);
    assert_eq!(full_register(RDI), RDI);
    assert_eq!(full_register32(RAX), EAX);
    assert_eq!(full_register32(RDI), Register::EDI as u32);
}

#[test]
fn translate_reg_places_each_register() {
    assert_eq!(translate_reg(X0), (RegTranslation::Direct(RDI), RegClass::GPR64));
    assert_eq!(translate_reg(X1), (RegTranslation::Direct(RSI), RegClass::GPR64));
    assert_eq!(translate_reg(W0), (RegTranslation::Direct(Register::EDI as u32), RegClass::GPR32));
    assert_eq!(translate_reg(X8 - 2), (RegTranslation::Indirect(0), RegClass::GPR64));
    assert_eq!(translate_reg(X9), (RegTranslation::Indirect(24), RegClass::GPR64));
    assert_eq!(translate_reg(X8 + 10), (RegTranslation::Indirect(96), RegClass::GPR64));
    assert_eq!(translate_reg(X24), (RegTranslation::Indirect(104), RegClass::GPR64));
    assert_eq!(translate_reg(X24 + 4), (RegTranslation::Indirect(136), RegClass::GPR64));
    assert_eq!(translate_reg(XZR), (RegTranslation::Zero(NativeRegClass::GPR64), RegClass::GPR64));
    assert_eq!(translate_reg(Q8), (RegTranslation::Indirect(144), RegClass::FP128));
    assert_eq!(translate_reg(Q8 + 7), (RegTranslation::Indirect(144 + 7 * 16), RegClass::FP128));
    assert_eq!(translate_reg(Q8 + 15), (RegTranslation::Indirect(144 + 8 * 16), RegClass::FP128));
    assert_eq!(translate_reg(Q8 + 23), (RegTranslation::Indirect(144 + 16 * 16), RegClass::FP128));
}

#[test]
fn inverse_condition_pairs() {
    let all = [
        Cond::EQ, Cond::NE, Cond::CS, Cond::CC, Cond::MI, Cond::PL, Cond::VS, Cond::VC,
        Cond::HI, Cond::LS, Cond::GE, Cond::LT, Cond::GT, Cond::LE, Cond::AL, Cond::NV,
    ];
    for c in all {
        assert_ne!(inverse_condition(c), c);
        assert_eq!(inverse_condition(inverse_condition(c)), c);
    }
    assert_eq!(inverse_condition(Cond::EQ), Cond::NE);
    assert_eq!(inverse_condition(Cond::GE), Cond::LT);
    assert_eq!(inverse_condition(Cond::HI), Cond::LS);
}

#[test]
fn jcc_codes() {
    assert_eq!(jcc_code(Cond::EQ), JE_REL32_64);
    assert_eq!(jcc_code(Cond::NE), JNE_REL32_64);
    assert_eq!(jcc_code(Cond::LT), Code::Jl_rel32_64 as u32);
    assert_eq!(jcc_code(Cond::HI), Code::Ja_rel32_64 as u32);
}

#[test]
fn nzcv_maps_to_rflags_bits() {
    assert_eq!(nzcv_to_rflags(0), 0);
    assert_eq!(nzcv_to_rflags(0b0001), 0x800);
    assert_eq!(nzcv_to_rflags(0b0010), 0x1);
    assert_eq!(nzcv_to_rflags(0b0100), 0x40);
    assert_eq!(nzcv_to_rflags(0b1000), 0x80);
    assert_eq!(nzcv_to_rflags(0b1111), 0x8c1);
}

#[test]
fn movk_parts_replace_one_halfword() {
    assert_eq!(movk_parts(0x1234, 16), (0x1234_0000, !0xffff_0000u64));
    assert_eq!(movk_parts(0xbeef, 0), (0xbeef, !0xffffu64));
    let (value, mask) = movk_parts(0xabcd, 48);
    assert_eq!((0x1111_2222_3333_4444u64 & mask) | value, 0xabcd_2222_3333_4444);
}

fn instr(op: Op, operands: Vec<Operand>) -> Instruction {
    Instruction { op, operands, address: 0x40_0000 }
}

fn reg(r: u32) -> Operand {
    Operand::Reg { reg: r }
}

#[test]
fn mov_between_registers() {
    let mut ass = Assembler::new();
    assert!(arith::compile_instr(&instr(Op::MOV, vec![reg(X0), reg(X1)]), &mut ass));
    assert_eq!(ass.instrs, vec![x86::with_rr(MOV_RM64_R64, RDI, RSI)]);

    let mut ass = Assembler::new();
    assert!(arith::compile_instr(&instr(Op::MOV, vec![reg(X0), reg(X9)]), &mut ass));
    assert_eq!(ass.instrs.len(), 1);
    let i: X86Instr = ass.instrs[0];
    assert_eq!(i.code, MOV_R64_RM64);
    assert_eq!(i.op0, OpKind::Register(RDI));
    assert_eq!(i.op1, OpKind::Memory);
    assert_eq!(i.mem.base, R15);
    assert_eq!(i.mem.displacement, 24);
}

#[test]
fn nop_is_a_native_nop() {
    let mut ass = Assembler::new();
    assert!(arith::compile_instr(&instr(Op::NOP, vec![]), &mut ass));
    assert_eq!(ass.instrs, vec![x86::with0(NOPD)]);
}

#[test]
fn rewrite_branch_reads_the_label_operand() {
    let t = 0x40_1000u64;
    assert_eq!(rewrite_branch(&instr(Op::B, vec![Operand::Label(Imm::Unsigned(t))])), t);
    assert_eq!(rewrite_branch(&instr(Op::CBZ, vec![reg(X0), Operand::Label(Imm::Unsigned(t))])), t);
    assert_eq!(
        rewrite_branch(&instr(Op::TBNZ, vec![reg(X0), Operand::Imm32 { imm: Imm::Unsigned(3), shift: None }, Operand::Label(Imm::Unsigned(t))])),
        t
    );
    assert_eq!(label_target(Operand::Label(Imm::Unsigned(7))), 7);
}

fn callbacks() -> Callbacks {
    Callbacks { invalid_arm_instr: 0x100, unimplemented_arm_instr: 0x200, rewrite_branch: 0x300, indirect_jump: 0x400, end_of_chunk: 0x500 }
}

#[test]
fn a_chunk_ends_with_the_end_of_chunk_call() {
    let chunk = compile_chunk(&vec![None, Some(instr(Op::NOP, vec![]))], &callbacks()).unwrap();
    assert_eq!(
        chunk.ass.instrs,
        vec![
            x86::with_ri(MOV_R64_IMM64, RAX, 0x100),
            x86::with_r(CALL_RM64, RAX),
            x86::with0(NOPD),
            x86::with_ri(MOV_R64_IMM64, RAX, 0x500),
            x86::with_r(CALL_RM64, RAX),
        ]
    );
    assert_eq!(chunk.x86_idxs, vec![0, 2]);
    assert_eq!(chunk.epilogue_offset, 3);
}

#[test]
fn an_unimplemented_instruction_calls_its_handler() {
    let chunk = compile_chunk(&vec![Some(instr(Op::Other, vec![]))], &callbacks()).unwrap();
    assert_eq!(chunk.ass.instrs[0], x86::with_ri(MOV_R64_IMM64, RAX, 0x200));
    assert_eq!(chunk.ass.instrs[1], x86::with_r(CALL_RM64, RAX));
    assert_eq!(chunk.ass.instrs.len(), 4);
}

#[test]
fn finalize_instr_map_takes_encoded_offsets() {
    let mut x86_idxs: Vec<usize> = (0..128).collect();
    x86_idxs[127] = 128;
    let offsets: Vec<u32> = (0..128).map(|i| i * 5).collect();
    let map = finalize_instr_map(&x86_idxs, &offsets, 700).unwrap();
    assert_eq!(map.len(), 128);
    assert_eq!(map[0], 0);
    assert_eq!(map[10], 50);
    assert_eq!(map[127], 700);
    assert_eq!(finalize_instr_map(&x86_idxs, &offsets, 70_000), None);
}

use xob64::accept::{arith_accepts, is_classified, is_rewritable, load_store_accepts, operand_reg, translatable};

#[test]
fn translatable_accepts_well_formed_operands() {
    assert!(translatable(&None));
    assert!(translatable(&Some(instr(Op::MOV, vec![reg(X0), reg(X1)]))));
    assert!(translatable(&Some(instr(Op::NOP, vec![]))));
    assert!(translatable(&Some(instr(Op::Other, vec![Operand::Other]))));
    assert!(translatable(&Some(instr(
        Op::LDR,
        vec![reg(X0), Operand::MemOffset { reg: X1, offset: Imm::Unsigned(8) }]
    ))));
}

#[test]
fn translatable_refuses_inconsistent_operands() {
    // A MOV into the zero register, a MOV without a source, an ADD of an immediate
    // into a non-register, and a load from a non-address.
    assert!(!translatable(&Some(instr(Op::MOV, vec![reg(XZR), reg(X1)]))));
    assert!(!translatable(&Some(instr(Op::MOV, vec![reg(X0)]))));
    assert!(!arith_accepts(&instr(Op::ADD, vec![Operand::Other, reg(X1), reg(X1)])));
    assert!(!load_store_accepts(&instr(Op::LDR, vec![reg(X0), reg(X1)])));
    assert!(!translatable(&Some(instr(Op::CSET, vec![reg(X0), reg(X1)]))));
}

#[test]
fn operand_reg_translates_register_operands() {
    let i = instr(Op::MOV, vec![reg(X0), Operand::Imm64 { imm: Imm::Unsigned(1), shift: None }]);
    assert_eq!(operand_reg(&i, 0), Some((RegTranslation::Direct(RDI), RegClass::GPR64)));
    assert_eq!(operand_reg(&i, 1), None);
    assert_eq!(operand_reg(&i, 2), None);
    assert!(is_classified(X0) && is_classified(Q8) && !is_classified(0) && !is_classified(300));
}

#[test]
fn only_direct_branches_are_rewritable() {
    let label = Operand::Label(Imm::Unsigned(0x40_1000));
    assert!(is_rewritable(&instr(Op::B, vec![label])));
    assert!(is_rewritable(&instr(Op::B_NE, vec![label])));
    assert!(is_rewritable(&instr(Op::CBNZ, vec![reg(X0), label])));
    assert!(!is_rewritable(&instr(Op::CBNZ, vec![label])));
    assert!(!is_rewritable(&instr(Op::BR, vec![reg(X0)])));
    assert!(!is_rewritable(&instr(Op::RET, vec![])));
}

#[test]
fn compile_chunk_places_the_ccmp_labels() {
    let ccmp = instr(
        Op::CCMP,
        vec![
            reg(X0),
            Operand::Imm32 { imm: Imm::Unsigned(0), shift: None },
            Operand::Imm32 { imm: Imm::Unsigned(5), shift: None },
            Operand::Cond(Cond::EQ),
        ],
    );
    let chunk = compile_chunk(&vec![Some(ccmp), None], &callbacks()).unwrap();
    assert_eq!(chunk.ass.labels, vec![(2, 7), (1, 8)]);
    assert_eq!(chunk.ass.next_label, 3);
    assert_eq!(chunk.x86_idxs, vec![0, 9]);
    assert_eq!(chunk.ass.instrs[8], x86::with0(x86::ZERO_BYTES));
    let laid = chunk.ass.label_layout();
    assert_eq!(laid.instrs, chunk.ass.instrs);
    let mut ips = vec![0u64; laid.instrs.len()];
    ips[7] = 2;
    ips[8] = 1;
    assert_eq!(laid.ips, ips);
}

#[test]
fn label_layout_appends_a_marker_for_a_label_at_the_end() {
    let mut ass = Assembler::new();
    let first = ass.create_label();
    ass.set_label(first);
    ass.add(x86::with0(NOPD));
    let end = ass.create_label();
    ass.set_label(end);
    let laid = ass.label_layout();
    assert_eq!(laid.instrs, vec![x86::with0(NOPD), x86::with0(x86::ZERO_BYTES)]);
    assert_eq!(laid.ips, vec![first, end]);
    assert_eq!((first, end), (1, 2));
}

#[test]
fn finalize_instr_map_keeps_the_order_of_the_offsets() {
    let mut x86_idxs: Vec<usize> = (0..128).collect();
    x86_idxs[3] = 2;
    let offsets: Vec<u32> = (0..128).map(|i| i * 3).collect();
    let map = finalize_instr_map(&x86_idxs, &offsets, 400).unwrap();
    assert_eq!(map[0], 0);
    assert_eq!((map[2], map[3], map[4]), (6, 6, 12));
    assert!(map.windows(2).all(|w| w[0] <= w[1]));
    assert!(map.iter().all(|&m| m <= 400));
}

use xob64::encoding::encode_block;

#[test]
fn encode_block_lays_out_the_instructions() {
    let mut ass = Assembler::new();
    ass.add(x86::with_ri(MOV_R64_IMM64, RAX, 0x1122_3344_5566_7788));
    ass.add(x86::with_r(CALL_RM64, RAX));
    let e = encode_block(&ass, 0x7000_0000).unwrap();
    assert_eq!(e.code, vec![0x48, 0xB8, 0x88, 0x77, 0x66, 0x55, 0x44, 0x33, 0x22, 0x11, 0xFF, 0xD0]);
    assert_eq!(e.offsets, vec![0, 10]);
}

#[test]
fn encode_block_resolves_a_branch_to_a_label() {
    let mut ass = Assembler::new();
    let end = ass.create_label();
    ass.add(x86::with_branch(JE_REL32_64, end));
    ass.add(x86::with0(NOPD));
    ass.set_label(end);
    let e = encode_block(&ass, 0x7000_0000).unwrap();
    // The branch is shortened and jumps over the nop to the end marker.
    assert_eq!(e.code, vec![0x74, 0x01, 0x90]);
    assert_eq!(e.offsets, vec![0, 2, 3]);
}

#[test]
fn encode_block_refuses_operands_the_opcode_does_not_take() {
    let mut ass = Assembler::new();
    ass.add(x86::with_rr(NOPD, RAX, RAX));
    assert!(encode_block(&ass, 0x7000_0000).is_none());
}
