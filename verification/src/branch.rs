//! Translation of AArch64 branches: conditional jumps, jumps within and across chunks,
//! calls with the shadow stack, indirect jumps and returns.
use vstd::prelude::*;
use crate::arm::{Cond, Imm, Instruction, Op, Operand, inverse_condition, label_target, unwrap_imm,
    unwrap_reg, unwrap_unsigned};
use crate::x86::{self, X86Instr, MemOperand, OpKind, Assembler, RAX, R10, R11, R15, RIP, REG_NONE};
use crate::register::{RegClass, RegTranslation, translate_reg, has_reg, op_tr, op_class,
    PARAM_OFFSET, SHADOW_SP_OFFSET};
use crate::instr_utils::{make_call, spec_make_call};
use crate::runner::{ExecPool, CHUNK_SIZE};

verus! {

/// The x86_64 conditional jump taken when an AArch64 condition holds (after a
/// comparison or bit test): `CC` is "carry clear" and `CS` "carry set"; `AL` and `NV`
/// jump unconditionally.
#[verifier::allow_in_spec]
pub fn jcc_code(cond: Cond) -> u32
    returns (match cond {
        Cond::EQ => x86::JE_REL32_64, Cond::NE => x86::JNE_REL32_64,
        Cond::LT => x86::JL_REL32_64, Cond::GE => x86::JGE_REL32_64,
        Cond::GT => x86::JG_REL32_64, Cond::LE => x86::JLE_REL32_64,
        Cond::CC => x86::JAE_REL32_64, Cond::CS => x86::JB_REL32_64,
        Cond::HI => x86::JA_REL32_64, Cond::LS => x86::JBE_REL32_64,
        Cond::VC => x86::JNO_REL32_64, Cond::VS => x86::JO_REL32_64,
        Cond::MI => x86::JS_REL32_64, Cond::PL => x86::JNS_REL32_64,
        Cond::AL => x86::JMP_REL32_64, Cond::NV => x86::JMP_REL32_64,
    }),
{
    match cond {
        Cond::EQ => x86::JE_REL32_64, Cond::NE => x86::JNE_REL32_64,
        Cond::LT => x86::JL_REL32_64, Cond::GE => x86::JGE_REL32_64,
        Cond::GT => x86::JG_REL32_64, Cond::LE => x86::JLE_REL32_64,
        Cond::CC => x86::JAE_REL32_64, Cond::CS => x86::JB_REL32_64,
        Cond::HI => x86::JA_REL32_64, Cond::LS => x86::JBE_REL32_64,
        Cond::VC => x86::JNO_REL32_64, Cond::VS => x86::JO_REL32_64,
        Cond::MI => x86::JS_REL32_64, Cond::PL => x86::JNS_REL32_64,
        Cond::AL | Cond::NV => x86::JMP_REL32_64,
    }
}

/// Emits a jump to `label` taken when `cond` holds.
pub fn make_jcc(ass: &mut Assembler, cond: Cond, label: u64)
    ensures final(ass).emits(*old(ass), seq![x86::with_branch(jcc_code(cond), label)]),
{
    ass.add(x86::with_branch(jcc_code(cond), label));
}

/// The x86_64 flags (CF, ZF, SF, OF) under which an x86_64 conditional jump is taken.
pub open spec fn x86_jcc_taken(code: u32, cf: bool, zf: bool, sf: bool, of: bool) -> bool {
    if code == x86::JE_REL32_64 { zf }
    else if code == x86::JNE_REL32_64 { !zf }
    else if code == x86::JL_REL32_64 { sf != of }
    else if code == x86::JGE_REL32_64 { sf == of }
    else if code == x86::JG_REL32_64 { !zf && sf == of }
    else if code == x86::JLE_REL32_64 { zf || sf != of }
    else if code == x86::JAE_REL32_64 { !cf }
    else if code == x86::JB_REL32_64 { cf }
    else if code == x86::JA_REL32_64 { !cf && !zf }
    else if code == x86::JBE_REL32_64 { cf || zf }
    else if code == x86::JNO_REL32_64 { !of }
    else if code == x86::JO_REL32_64 { of }
    else if code == x86::JS_REL32_64 { sf }
    else if code == x86::JNS_REL32_64 { !sf }
    else { true }
}

/// For every condition other than `AL`/`NV`, the jump emitted for the inverse condition
/// is taken exactly when the jump for the condition is not: branching over a far jump
/// with the inverse condition reaches the far jump exactly when the condition holds.
pub proof fn lemma_inverse_jcc_complements(cond: Cond, cf: bool, zf: bool, sf: bool, of: bool)
    requires cond != Cond::AL, cond != Cond::NV,
    ensures
        x86_jcc_taken(jcc_code(inverse_condition(cond)), cf, zf, sf, of)
            == !x86_jcc_taken(jcc_code(cond), cf, zf, sf, of),
{
}


/// Native addresses of the handlers that translated code calls into.
#[derive(Clone, Copy, PartialEq, Eq, Structural, Debug)]
pub struct Callbacks {
    /// Reports an undecodable instruction.
    pub invalid_arm_instr: u64,
    /// Reports an instruction the translator does not handle.
    pub unimplemented_arm_instr: u64,
    /// Translates the target of a branch and patches the call site into a jump.
    pub rewrite_branch: u64,
    /// Jumps to the translation of the address in the context's parameter word.
    pub indirect_jump: u64,
    /// Continues into the next chunk.
    pub end_of_chunk: u64,
}

/// `mov rax, dest; jmp rax`: the 12-byte jump that replaces a patched call site.
pub open spec fn spec_far_jump(dest: u64) -> Seq<X86Instr> {
    seq![x86::with_ri(x86::MOV_R64_IMM64, RAX, dest as i64), x86::with_r(x86::JMP_RM64, RAX)]
}

/// Emits the far jump to `dest` that patches a call site.
pub fn far_jump(ass: &mut Assembler, dest: u64)
    ensures final(ass).emits(*old(ass), spec_far_jump(dest)),
{
    let ghost before = *ass;
    ass.add(x86::with_ri(x86::MOV_R64_IMM64, RAX, dest as i64));
    ass.add(x86::with_r(x86::JMP_RM64, RAX));
    assert(ass.instrs@ =~= before.instrs@ + spec_far_jump(dest));
}

/// Whether a mnemonic is one of the conditional branches `B.cond`.
pub open spec fn is_b_cond(op: Op) -> bool {
    spec_b_cond(op) is Some
}

/// The operand that holds the target of a branch mnemonic.
pub open spec fn branch_label_index(op: Op) -> int {
    if op == Op::CBZ || op == Op::CBNZ { 1 }
    else if op == Op::TBZ || op == Op::TBNZ { 2 }
    else { 0 }
}

/// The branches whose call site `rewrite_branch` can patch.
pub open spec fn rewritable(instr: &Instruction) -> bool {
    let i = branch_label_index(instr.op);
    &&& (is_b_cond(instr.op) || instr.op == Op::B || instr.op == Op::BL || instr.op == Op::CBZ
        || instr.op == Op::CBNZ || instr.op == Op::TBZ || instr.op == Op::TBNZ)
    &&& i < instr.operands@.len()
    &&& instr.operands@[i] matches Operand::Label(Imm::Unsigned(_))
}

/// The AArch64 target of a branch whose call site is patched: the label operand of
/// `B.cond`, `B`, `BL` (first), `CBZ`/`CBNZ` (second) or `TBZ`/`TBNZ` (third).
pub fn rewrite_branch(arm_instr: &Instruction) -> (r: u64)
    requires rewritable(arm_instr),
    ensures arm_instr.operands@[branch_label_index(arm_instr.op)] == Operand::Label(Imm::Unsigned(r)),
{
    let operands = &arm_instr.operands;
    let label_operand = match arm_instr.op {
        Op::CBZ | Op::CBNZ => operands[1],
        Op::TBZ | Op::TBNZ => operands[2],
        _ => operands[0],
    };
    label_target(label_operand)
}

/// What `make_jump` emits for a jump to the AArch64 address `target` from the chunk at
/// `chunk_addr`: within the chunk, a jump to the label of the target instruction's
/// index plus one; to a translated chunk, a far jump to the translation; otherwise a
/// call of the branch-rewriting handler.
pub open spec fn spec_make_jump(target: usize, chunk_addr: usize, pool: ExecPool, callbacks: Callbacks) -> Seq<X86Instr> {
    let chunk_offset = target % CHUNK_SIZE;
    let ca = (target - chunk_offset) as usize;
    if chunk_addr <= target < chunk_addr + CHUNK_SIZE {
        seq![x86::with_branch(x86::JMP_REL32_64, ((target - chunk_addr) / 4 + 1) as u64)]
    } else if pool.executable_map@.contains_key(ca) {
        spec_far_jump(pool.spec_native_in_chunk(target) as u64)
    } else {
        spec_make_call(callbacks.rewrite_branch)
    }
}

fn make_jump(ass: &mut Assembler, label_operand: Operand, chunk_addr: usize, exec_pool: &ExecPool, callbacks: &Callbacks)
    requires
        exec_pool.wf(),
        label_operand matches Operand::Label(Imm::Unsigned(t)) && t <= usize::MAX,
        chunk_addr + CHUNK_SIZE <= usize::MAX,
    ensures
        final(ass).emits(*old(ass), spec_make_jump((label_operand->Label_0->Unsigned_0) as usize, chunk_addr, *exec_pool, *callbacks)),
{
    let ghost before = *ass;
    let target = label_target(label_operand) as usize;
    if target >= chunk_addr && target < chunk_addr + CHUNK_SIZE {
        let arm_instr_idx = (target - chunk_addr) / 4;
        ass.add(x86::with_branch(x86::JMP_REL32_64, arm_instr_idx as u64 + 1));
    } else {
        let chunk_offset = target % CHUNK_SIZE;
        let ca = target - chunk_offset;
        match exec_pool.executable_map.get(&ca) {
            Some(chunk) => {
                let instr_idx = chunk_offset / 4;
                let byte_idx = chunk.instr_map[instr_idx] as usize;
                let code_target = chunk.addr + byte_idx;
                far_jump(ass, code_target as u64);
            }
            None => {
                make_call(ass, callbacks.rewrite_branch);
            }
        }
    }
    assert(ass.instrs@ =~= before.instrs@ + spec_make_jump(target, chunk_addr, *exec_pool, *callbacks));
}

/// What `make_branch_to_label` emits, with `l` the label it creates: a jump with the
/// inverse condition over the far jump, and the label placed at a zero-length marker.
pub open spec fn spec_branch_to_label(target: usize, chunk_addr: usize, pool: ExecPool, callbacks: Callbacks, cond: Cond, l: u64) -> Seq<X86Instr> {
    seq![x86::with_branch(jcc_code(inverse_condition(cond)), l)]
        + spec_make_jump(target, chunk_addr, pool, callbacks)
        + seq![x86::with0(x86::ZERO_BYTES)]
}

/// The operands that branch emission needs.
pub open spec fn jump_ok(label_operand: Operand, chunk_addr: usize, pool: ExecPool) -> bool {
    &&& pool.wf()
    &&& label_operand matches Operand::Label(Imm::Unsigned(t)) && t <= usize::MAX
    &&& chunk_addr + CHUNK_SIZE <= usize::MAX
}

/// The target address of a label operand.
pub open spec fn label_of(o: Operand) -> usize {
    (o->Label_0->Unsigned_0) as usize
}

fn make_branch_to_label(
    ass: &mut Assembler,
    label_operand: Operand,
    exec_pool: &ExecPool,
    chunk_addr: usize,
    cond: Cond,
    callbacks: &Callbacks,
)
    requires
        jump_ok(label_operand, chunk_addr, *exec_pool),
        old(ass).next_label < u64::MAX,
    ensures
        final(ass).instrs@ == old(ass).instrs@
            + spec_branch_to_label(label_of(label_operand), chunk_addr, *exec_pool, *callbacks, cond, old(ass).next_label),
        final(ass).labels@ == old(ass).labels@.push((old(ass).next_label,
            (old(ass).instrs@.len() + 1 + spec_make_jump(label_of(label_operand), chunk_addr, *exec_pool, *callbacks).len()) as usize)),
        final(ass).next_label == old(ass).next_label + 1,
{
    let ghost before = *ass;
    let label = ass.create_label();
    // Branch over the far jump with the inverse condition
    make_jcc(ass, inverse_condition(cond), label);
    make_jump(ass, label_operand, chunk_addr, exec_pool, callbacks);
    ass.set_label(label);
    ass.add(x86::with0(x86::ZERO_BYTES));
    assert(ass.instrs@ =~= before.instrs@
        + spec_branch_to_label(label_of(label_operand), chunk_addr, *exec_pool, *callbacks, cond, before.next_label));
}

/// The condition of a `B.cond` mnemonic.
pub open spec fn spec_b_cond(op: Op) -> Option<Cond> {
    match op {
        Op::B_AL => Some(Cond::AL), Op::B_CC => Some(Cond::CC), Op::B_CS => Some(Cond::CS),
        Op::B_EQ => Some(Cond::EQ), Op::B_GE => Some(Cond::GE), Op::B_GT => Some(Cond::GT),
        Op::B_HI => Some(Cond::HI), Op::B_LE => Some(Cond::LE), Op::B_LS => Some(Cond::LS),
        Op::B_LT => Some(Cond::LT), Op::B_MI => Some(Cond::MI), Op::B_NE => Some(Cond::NE),
        Op::B_NV => Some(Cond::NV), Op::B_PL => Some(Cond::PL), Op::B_VC => Some(Cond::VC),
        Op::B_VS => Some(Cond::VS),
        _ => None,
    }
}

/// Translates `B.cond`; returns whether the instruction was one.
pub fn handle_b_cc(
    arm_instr: &Instruction,
    ass: &mut Assembler,
    exec_pool: &ExecPool,
    chunk_addr: usize,
    callbacks: &Callbacks,
) -> (r: bool)
    requires
        is_b_cond(arm_instr.op) ==> arm_instr.operands@.len() >= 1
            && jump_ok(arm_instr.operands@[0], chunk_addr, *exec_pool),
        old(ass).next_label < u64::MAX,
    ensures
        r == is_b_cond(arm_instr.op),
        r ==> final(ass).instrs@ == old(ass).instrs@ + spec_branch_to_label(label_of(arm_instr.operands@[0]),
            chunk_addr, *exec_pool, *callbacks, spec_b_cond(arm_instr.op)->Some_0, old(ass).next_label),
        r ==> final(ass).labels@ == old(ass).labels@.push((old(ass).next_label,
            (old(ass).instrs@.len() + 1 + spec_make_jump(label_of(arm_instr.operands@[0]), chunk_addr, *exec_pool, *callbacks).len()) as usize)),
        r ==> final(ass).next_label == old(ass).next_label + 1,
        !r ==> *final(ass) == *old(ass),
{
    let cond = match arm_instr.op {
        Op::B_AL => Cond::AL, Op::B_CC => Cond::CC, Op::B_CS => Cond::CS,
        Op::B_EQ => Cond::EQ, Op::B_GE => Cond::GE, Op::B_GT => Cond::GT,
        Op::B_HI => Cond::HI, Op::B_LE => Cond::LE, Op::B_LS => Cond::LS,
        Op::B_LT => Cond::LT, Op::B_MI => Cond::MI, Op::B_NE => Cond::NE,
        Op::B_NV => Cond::NV, Op::B_PL => Cond::PL, Op::B_VC => Cond::VC,
        Op::B_VS => Cond::VS,
        _ => return false,
    };
    make_branch_to_label(ass, arm_instr.operands[0], exec_pool, chunk_addr, cond, callbacks);
    true
}

/// What `push_shadow_stack` emits: a shadow stack entry of the AArch64 return address
/// in `reg` and the native return address `label`; r10 is saved around it.
pub open spec fn spec_push_shadow_stack(label: u64, reg: u32) -> Seq<X86Instr> {
    let ssp = x86::mem_base_displ(R15, SHADOW_SP_OFFSET as u64);
    seq![
        x86::with_r(x86::PUSH_R64, R10),
        x86::with_rm(x86::MOV_R64_RM64, R10, ssp),
        x86::with_ri(x86::SUB_RM64_IMM32, R10, 16),
        x86::with_mr(x86::MOV_RM64_R64, x86::mem_base_displ(R10, 8), reg),
        x86::with_rm(x86::LEA_R64_M, RAX, MemOperand { base: RIP, index: REG_NONE, displacement: label, displ_size: 8 }),
        x86::with_mr(x86::MOV_RM64_R64, MemOperand { base: R10, index: REG_NONE, displacement: 0, displ_size: 0 }, RAX),
        x86::with_mr(x86::MOV_RM64_R64, ssp, R10),
        x86::with_r(x86::POP_R64, R10),
    ]
}

fn push_shadow_stack(ass: &mut Assembler, label: u64, reg: u32)
    ensures final(ass).emits(*old(ass), spec_push_shadow_stack(label, reg)),
{
    let ghost before = *ass;
    // r10 is borrowed as the shadow stack pointer and restored afterwards
    ass.add(x86::with_r(x86::PUSH_R64, R10));
    let ssp = x86::mem_base_displ(R15, SHADOW_SP_OFFSET as u64);
    ass.add(x86::with_rm(x86::MOV_R64_RM64, R10, ssp));
    ass.add(x86::with_ri(x86::SUB_RM64_IMM32, R10, 16));
    ass.add(x86::with_mr(x86::MOV_RM64_R64, x86::mem_base_displ(R10, 8), reg));
    ass.add(x86::with_rm(x86::LEA_R64_M, RAX, MemOperand { base: RIP, index: REG_NONE, displacement: label, displ_size: 8 }));
    ass.add(x86::with_mr(x86::MOV_RM64_R64, MemOperand { base: R10, index: REG_NONE, displacement: 0, displ_size: 0 }, RAX));
    ass.add(x86::with_mr(x86::MOV_RM64_R64, ssp, R10));
    ass.add(x86::with_r(x86::POP_R64, R10));
    assert(ass.instrs@ =~= before.instrs@ + spec_push_shadow_stack(label, reg));
}

/// What `make_indirect_jump` emits: the target register stored into the context's
/// parameter word, and a call of the indirect-jump handler.
pub open spec fn spec_make_indirect_jump(src: RegTranslation, callbacks: Callbacks) -> Seq<X86Instr> {
    src.spec_pre_read(RegClass::GPR64)
        + seq![x86::with_mr(x86::MOV_RM64_R64, x86::mem_base_displ(R15, PARAM_OFFSET as u64), src.reg_operand(RegClass::GPR64))]
        + spec_make_call(callbacks.indirect_jump)
}

fn make_indirect_jump(ass: &mut Assembler, reg: Operand, callbacks: &Callbacks)
    requires reg is Reg, crate::register::is_classified_reg(crate::arm::spec_reg_of(reg)),
    ensures final(ass).emits(*old(ass), spec_make_indirect_jump(crate::register::spec_translate_reg(crate::arm::spec_reg_of(reg)).0, *callbacks)),
{
    let ghost before = *ass;
    let (src, _) = translate_reg(unwrap_reg(reg));
    src.pre_read(ass, RegClass::GPR64);
    let mut mov = x86::with_mr(x86::MOV_RM64_R64, x86::mem_base_displ(R15, PARAM_OFFSET as u64), REG_NONE);
    src.set_reg_operand(&mut mov, 1, RegClass::GPR64);
    ass.add(mov);
    make_call(ass, callbacks.indirect_jump);
    assert(ass.instrs@ =~= before.instrs@ + spec_make_indirect_jump(src, *callbacks));
}


/// The decoded CBZ/CBNZ/TBZ/TBNZ instructions that can be translated: an integer
/// register (not the zero register), for TBZ/TBNZ an unsigned bit number, and a
/// target.
pub open spec fn test_branch_ok(instr: &Instruction, chunk_addr: usize, pool: ExecPool) -> bool {
    let li = branch_label_index(instr.op);
    &&& has_reg(instr, 0)
    &&& op_class(instr, 0).is_gpr()
    &&& !(op_tr(instr, 0) is Zero)
    &&& li < instr.operands@.len()
    &&& jump_ok(instr.operands@[li], chunk_addr, pool)
    &&& (instr.op == Op::TBZ || instr.op == Op::TBNZ) ==> (
        instr.operands@[1] matches Operand::Imm64 { imm: Imm::Unsigned(_), .. }
        || instr.operands@[1] matches Operand::Imm32 { imm: Imm::Unsigned(_), .. })
}

/// The bit number of a TBZ/TBNZ.
pub open spec fn bit_number_of(o: Operand) -> u64 {
    match o {
        Operand::Imm64 { imm: Imm::Unsigned(v), .. } => v,
        Operand::Imm32 { imm: Imm::Unsigned(v), .. } => v,
        _ => 0,
    }
}

/// The test that precedes the branch: `cmp reg, 0` for CBZ/CBNZ, `bt reg, bit` for
/// TBZ/TBNZ (which puts the bit into the carry flag).
pub open spec fn spec_test_instr(instr: &Instruction) -> X86Instr {
    let t = op_tr(instr, 0);
    let class = op_class(instr, 0);
    if instr.op == Op::CBZ || instr.op == Op::CBNZ {
        let code = if class == RegClass::GPR64 { x86::CMP_RM64_IMM8 } else { x86::CMP_RM32_IMM8 };
        t.spec_set_operand(x86::with_ri(code, REG_NONE, 0), 0)
    } else {
        let code = if class == RegClass::GPR64 { x86::BT_RM64_IMM8 } else { x86::BT_RM32_IMM8 };
        t.spec_set_operand(x86::with_ri(code, REG_NONE, ((bit_number_of(instr.operands@[1]) as u32) as i64)), 0)
    }
}

/// The condition under which CBZ/CBNZ/TBZ/TBNZ branch after their test.
pub open spec fn test_branch_cond(op: Op) -> Cond {
    if op == Op::CBZ { Cond::EQ } else if op == Op::CBNZ { Cond::NE } else if op == Op::TBZ { Cond::CC } else { Cond::CS }
}

fn handle_test_branch(
    arm_instr: &Instruction,
    ass: &mut Assembler,
    exec_pool: &ExecPool,
    chunk_addr: usize,
    callbacks: &Callbacks,
)
    requires
        arm_instr.op == Op::CBZ || arm_instr.op == Op::CBNZ || arm_instr.op == Op::TBZ || arm_instr.op == Op::TBNZ,
        test_branch_ok(arm_instr, chunk_addr, *exec_pool),
        old(ass).next_label < u64::MAX,
    ensures
        final(ass).instrs@ == old(ass).instrs@ + seq![spec_test_instr(arm_instr)]
            + spec_branch_to_label(label_of(arm_instr.operands@[branch_label_index(arm_instr.op)]), chunk_addr,
                *exec_pool, *callbacks, test_branch_cond(arm_instr.op), old(ass).next_label),
        final(ass).labels@ == old(ass).labels@.push((old(ass).next_label,
            (old(ass).instrs@.len() + 2 + spec_make_jump(label_of(arm_instr.operands@[branch_label_index(arm_instr.op)]),
                chunk_addr, *exec_pool, *callbacks).len()) as usize)),
        final(ass).next_label == old(ass).next_label + 1,
{
    let ghost before = *ass;
    let operands = &arm_instr.operands;
    let (reg_translation, reg_class) = translate_reg(unwrap_reg(operands[0]));
    let is_cb = match arm_instr.op {
        Op::CBZ | Op::CBNZ => true,
        _ => false,
    };
    let test = if is_cb {
        let code = match reg_class {
            RegClass::GPR64 => x86::CMP_RM64_IMM8,
            _ => x86::CMP_RM32_IMM8,
        };
        let mut test = x86::with_ri(code, REG_NONE, 0);
        reg_translation.set_operand(&mut test, 0);
        test
    } else {
        let code = match reg_class {
            RegClass::GPR64 => x86::BT_RM64_IMM8,
            _ => x86::BT_RM32_IMM8,
        };
        let imm = unwrap_unsigned(unwrap_imm(operands[1]).0);
        let mut test = x86::with_ri(code, REG_NONE, (imm as u32) as i64);
        reg_translation.set_operand(&mut test, 0);
        test
    };
    ass.add(test);
    // bt puts the tested bit into the carry flag
    let (cond, label_operand) = match arm_instr.op {
        Op::CBZ => (Cond::EQ, operands[1]),
        Op::CBNZ => (Cond::NE, operands[1]),
        Op::TBZ => (Cond::CC, operands[2]),
        _ => (Cond::CS, operands[2]),
    };
    let ghost mid = ass.instrs@;
    make_branch_to_label(ass, label_operand, exec_pool, chunk_addr, cond, callbacks);
    assert(ass.instrs@ =~= before.instrs@ + seq![spec_test_instr(arm_instr)]
        + spec_branch_to_label(label_of(label_operand), chunk_addr, *exec_pool, *callbacks, cond, before.next_label));
}

/// What the return sequence emits, with `l` the label it creates: the shadow stack is
/// popped; when its AArch64 address equals the link register the code jumps to its
/// native address, otherwise the indirect-jump handler translates the link register.
pub open spec fn spec_ret(callbacks: Callbacks, l: u64) -> Seq<X86Instr> {
    let ssp = x86::mem_base_displ(R15, SHADOW_SP_OFFSET as u64);
    seq![
        x86::with_r(x86::PUSH_R64, R10),
        x86::with_rm(x86::MOV_R64_RM64, R10, ssp),
        x86::with_rm(x86::MOV_R64_RM64, RAX, x86::mem_base_displ(R10, 8)),
        x86::with_rr(x86::CMP_RM64_R64, R11, RAX),
        x86::with_rm(x86::MOV_R64_RM64, RAX, MemOperand { base: R10, index: REG_NONE, displacement: 0, displ_size: 0 }),
        x86::with_rm(x86::LEA_R64_M, R10, x86::mem_base_displ(R10, 16)),
        x86::with_mr(x86::MOV_RM64_R64, ssp, R10),
        x86::with_r(x86::POP_R64, R10),
        x86::with_branch(x86::JNE_REL32_64, l),
        x86::with_r(x86::JMP_RM64, RAX),
        x86::with_mr(x86::MOV_RM64_R64, x86::mem_base_displ(R15, PARAM_OFFSET as u64), R11),
    ] + spec_make_call(callbacks.indirect_jump)
}

fn make_ret(ass: &mut Assembler, callbacks: &Callbacks)
    requires old(ass).next_label < u64::MAX,
    ensures
        final(ass).instrs@ == old(ass).instrs@ + spec_ret(*callbacks, old(ass).next_label),
        final(ass).labels@ == old(ass).labels@.push((old(ass).next_label, (old(ass).instrs@.len() + 10) as usize)),
        final(ass).next_label == old(ass).next_label + 1,
{
    let ghost before = *ass;
    let ssp = x86::mem_base_displ(R15, SHADOW_SP_OFFSET as u64);
    ass.add(x86::with_r(x86::PUSH_R64, R10));
    // Load shadow sp
    ass.add(x86::with_rm(x86::MOV_R64_RM64, R10, ssp));
    // Check if emulated pointer matches
    ass.add(x86::with_rm(x86::MOV_R64_RM64, RAX, x86::mem_base_displ(R10, 8)));
    ass.add(x86::with_rr(x86::CMP_RM64_R64, R11, RAX));
    // Load native pointer
    ass.add(x86::with_rm(x86::MOV_R64_RM64, RAX, MemOperand { base: R10, index: REG_NONE, displacement: 0, displ_size: 0 }));
    // Pop pointers from stack
    ass.add(x86::with_rm(x86::LEA_R64_M, R10, x86::mem_base_displ(R10, 16)));
    ass.add(x86::with_mr(x86::MOV_RM64_R64, ssp, R10));
    ass.add(x86::with_r(x86::POP_R64, R10));
    // If the emulated pointer matches, we jump to the native pointer
    let callback_label = ass.create_label();
    ass.add(x86::with_branch(x86::JNE_REL32_64, callback_label));
    ass.add(x86::with_r(x86::JMP_RM64, RAX));
    // Otherwise, we do an indirect call
    ass.set_label(callback_label);
    ass.add(x86::with_mr(x86::MOV_RM64_R64, x86::mem_base_displ(R15, PARAM_OFFSET as u64), R11));
    make_call(ass, callbacks.indirect_jump);
    assert(ass.instrs@ =~= before.instrs@ + spec_ret(*callbacks, before.next_label));
}

/// The decoded branch instructions that `compile_instr` accepts.
pub open spec fn branch_ok(instr: &Instruction, chunk_addr: usize, pool: ExecPool) -> bool {
    if is_b_cond(instr.op) {
        instr.operands@.len() >= 1 && jump_ok(instr.operands@[0], chunk_addr, pool)
    } else {
        match instr.op {
            Op::B => instr.operands@.len() >= 1 && jump_ok(instr.operands@[0], chunk_addr, pool),
            Op::BL => instr.operands@.len() >= 1 && jump_ok(instr.operands@[0], chunk_addr, pool)
                && instr.address + 4 <= u64::MAX,
            Op::BR => has_reg(instr, 0),
            Op::BLR => has_reg(instr, 0) && instr.address + 4 <= u64::MAX,
            Op::CBZ | Op::CBNZ | Op::TBZ | Op::TBNZ => test_branch_ok(instr, chunk_addr, pool),
            _ => true,
        }
    }
}

/// Whether `compile_instr` translates an instruction, and what it emits, with `l` the
/// next free label id.
pub open spec fn spec_branch(instr: &Instruction, chunk_addr: usize, pool: ExecPool, callbacks: Callbacks, l: u64) -> (bool, Seq<X86Instr>) {
    if is_b_cond(instr.op) {
        (true, spec_branch_to_label(label_of(instr.operands@[0]), chunk_addr, pool, callbacks, spec_b_cond(instr.op)->Some_0, l))
    } else {
        match instr.op {
            Op::B => (true, spec_make_jump(label_of(instr.operands@[0]), chunk_addr, pool, callbacks)),
            Op::BL => (true, seq![x86::with_ri(x86::MOV_R64_IMM64, R11, (instr.address + 4) as i64)]
                + spec_push_shadow_stack(l, R11)
                + spec_make_jump(label_of(instr.operands@[0]), chunk_addr, pool, callbacks)
                + seq![x86::with0(x86::ZERO_BYTES)]),
            Op::BR => (true, spec_make_indirect_jump(op_tr(instr, 0), callbacks)),
            Op::BLR => (true, seq![x86::with_ri(x86::MOV_R64_IMM64, R11, (instr.address + 4) as i64)]
                + spec_push_shadow_stack(l, R11)
                + spec_make_indirect_jump(op_tr(instr, 0), callbacks)
                + seq![x86::with0(x86::ZERO_BYTES)]),
            Op::CBZ | Op::CBNZ | Op::TBZ | Op::TBNZ => (true, seq![spec_test_instr(instr)]
                + spec_branch_to_label(label_of(instr.operands@[branch_label_index(instr.op)]), chunk_addr, pool,
                    callbacks, test_branch_cond(instr.op), l)),
            Op::RET => (true, spec_ret(callbacks, l)),
            Op::BTI => (true, seq![]),
            _ => (false, seq![]),
        }
    }
}

/// The number of labels `compile_instr` places for an instruction.
pub open spec fn branch_labels(op: Op) -> nat {
    if is_b_cond(op) || op == Op::BL || op == Op::BLR || op == Op::CBZ || op == Op::CBNZ
        || op == Op::TBZ || op == Op::TBNZ || op == Op::RET { 1 } else { 0 }
}

/// Translates a branch; returns whether the instruction was one. The branch code
/// places at most one label, which names the instruction after a call (BL/BLR), the
/// code after a conditional branch, or the slow path of a return.
pub fn compile_instr(
    arm_instr: &Instruction,
    ass: &mut Assembler,
    exec_pool: &ExecPool,
    chunk_addr: usize,
    callbacks: &Callbacks,
) -> (r: bool)
    requires
        branch_ok(arm_instr, chunk_addr, *exec_pool),
        old(ass).next_label < u64::MAX,
    ensures
        r == spec_branch(arm_instr, chunk_addr, *exec_pool, *callbacks, old(ass).next_label).0,
        final(ass).instrs@ == old(ass).instrs@ + spec_branch(arm_instr, chunk_addr, *exec_pool, *callbacks, old(ass).next_label).1,
        final(ass).next_label == old(ass).next_label + branch_labels(arm_instr.op),
        final(ass).labels@.len() == old(ass).labels@.len() + branch_labels(arm_instr.op),
        final(ass).labels@.subrange(0, old(ass).labels@.len() as int) == old(ass).labels@,
{
    let ghost before = *ass;
    let operands = &arm_instr.operands;
    if handle_b_cc(arm_instr, ass, exec_pool, chunk_addr, callbacks) {
        assert(ass.labels@.subrange(0, before.labels@.len() as int) =~= before.labels@);
        return true;
    }
    match arm_instr.op {
        Op::B => {
            make_jump(ass, operands[0], chunk_addr, exec_pool, callbacks);
        }
        Op::BL | Op::BLR => {
            // Load link register
            ass.add(x86::with_ri(x86::MOV_R64_IMM64, R11, (arm_instr.address + 4) as i64));
            // Push shadow stack
            let ret_label = ass.create_label();
            push_shadow_stack(ass, ret_label, R11);
            if arm_instr.op == Op::BL {
                make_jump(ass, operands[0], chunk_addr, exec_pool, callbacks);
            } else {
                make_indirect_jump(ass, operands[0], callbacks);
            }
            ass.set_label(ret_label);
            ass.add(x86::with0(x86::ZERO_BYTES));
            assert(ass.instrs@ =~= before.instrs@ + spec_branch(arm_instr, chunk_addr, *exec_pool, *callbacks, before.next_label).1);
        }
        Op::BR => make_indirect_jump(ass, operands[0], callbacks),
        Op::CBZ | Op::CBNZ | Op::TBZ | Op::TBNZ => handle_test_branch(arm_instr, ass, exec_pool, chunk_addr, callbacks),
        Op::RET => make_ret(ass, callbacks),
        // Branch Target Identification
        Op::BTI => {
            assert(ass.instrs@ =~= before.instrs@ + seq![]);
        }
        _ => {
            assert(ass.instrs@ =~= before.instrs@ + seq![]);
            return false;
        }
    }
    assert(ass.labels@.subrange(0, before.labels@.len() as int) =~= before.labels@);
    true
}

/// Whether an AArch64 condition holds for the flags N, Z, C and V.
pub open spec fn arm_cond_holds(cond: Cond, n: bool, z: bool, c: bool, v: bool) -> bool {
    match cond {
        Cond::EQ => z,
        Cond::NE => !z,
        Cond::CS => c,
        Cond::CC => !c,
        Cond::MI => n,
        Cond::PL => !n,
        Cond::VS => v,
        Cond::VC => !v,
        Cond::HI => c && !z,
        Cond::LS => !(c && !z),
        Cond::GE => n == v,
        Cond::LT => n != v,
        Cond::GT => !z && n == v,
        Cond::LE => !(!z && n == v),
        Cond::AL | Cond::NV => true,
    }
}

/// Whether an x86_64 near jump with opcode `code` is taken for the flags CF, ZF, SF
/// and OF (opcodes other than the jumps: never).
pub open spec fn x86_jump_taken(code: u32, cf: bool, zf: bool, sf: bool, of: bool) -> bool {
    if code == x86::JMP_REL32_64 { true }
    else if code == x86::JE_REL32_64 { zf }
    else if code == x86::JNE_REL32_64 { !zf }
    else if code == x86::JB_REL32_64 { cf }
    else if code == x86::JAE_REL32_64 { !cf }
    else if code == x86::JBE_REL32_64 { cf || zf }
    else if code == x86::JA_REL32_64 { !cf && !zf }
    else if code == x86::JS_REL32_64 { sf }
    else if code == x86::JNS_REL32_64 { !sf }
    else if code == x86::JO_REL32_64 { of }
    else if code == x86::JNO_REL32_64 { !of }
    else if code == x86::JL_REL32_64 { sf != of }
    else if code == x86::JGE_REL32_64 { sf == of }
    else if code == x86::JLE_REL32_64 { zf || sf != of }
    else if code == x86::JG_REL32_64 { !zf && sf == of }
    else { false }
}

/// The `B.cond` mnemonic of each condition.
pub open spec fn b_cond_mnemonic(cond: Cond) -> Op {
    match cond {
        Cond::EQ => Op::B_EQ, Cond::NE => Op::B_NE, Cond::CS => Op::B_CS, Cond::CC => Op::B_CC,
        Cond::MI => Op::B_MI, Cond::PL => Op::B_PL, Cond::VS => Op::B_VS, Cond::VC => Op::B_VC,
        Cond::HI => Op::B_HI, Cond::LS => Op::B_LS, Cond::GE => Op::B_GE, Cond::LT => Op::B_LT,
        Cond::GT => Op::B_GT, Cond::LE => Op::B_LE, Cond::AL => Op::B_AL, Cond::NV => Op::B_NV,
    }
}

/// `B.cond` branches on the condition its mnemonic names, and the `B.cond` mnemonics
/// are the only branches on a condition.
pub proof fn lemma_b_cond_names_its_condition(cond: Cond, op: Op)
    ensures
        spec_b_cond(b_cond_mnemonic(cond)) == Some(cond),
        spec_b_cond(op) == Some(cond) ==> op == b_cond_mnemonic(cond),
{
}

/// The translation of `B.cond` starts with a jump to the code after the branch (label
/// `l`), which skips the branch exactly when the condition does not hold: read with the
/// flags of an x86_64 compare, where ZF, SF and OF are AArch64's Z, N and V and CF is
/// the borrow, the inverse of AArch64's C. The law leaves out CS and CC, whose
/// translation tests CF as if it were C (`jb` for CS), and AL and NV, whose translation
/// always skips the branch.
pub proof fn lemma_b_cond_branches_when_condition_holds(
    instr: &Instruction,
    chunk_addr: usize,
    pool: ExecPool,
    callbacks: Callbacks,
    l: u64,
    cond: Cond,
    n: bool,
    z: bool,
    c: bool,
    v: bool,
)
    requires
        instr.op == b_cond_mnemonic(cond),
        cond != Cond::CS && cond != Cond::CC && cond != Cond::AL && cond != Cond::NV,
    ensures
        ({
            let (is_branch, t) = spec_branch(instr, chunk_addr, pool, callbacks, l);
            &&& is_branch
            &&& t[0].op0 == OpKind::NearBranch(l)
            &&& x86_jump_taken(t[0].code, !c, z, n, v) == !arm_cond_holds(cond, n, z, c, v)
            &&& t.last() == x86::with0(x86::ZERO_BYTES)
        }),
{
}

} // verus!
