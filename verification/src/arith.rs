//! Translation of AArch64 arithmetic, logic, move, extension and conditional
//! instructions.
//!
//! Given `ORR dest, src1, src2`: when `dest == src1` the operation is `or dest, src2`
//! (`make_rr`). Otherwise `src1` is moved into the register operand of `dest` (the
//! scratch register when `dest` is emulated), the operation runs there with `src2`,
//! and an emulated `dest` is stored back:
//! ```text
//! mov rax, [r15 + src1_offset]
//! or rax, [r15 + src2_offset]
//! mov [r15 + dest_offset], rax
//! ```
use vstd::prelude::*;
use crate::arm::{Cond, Imm, Instruction, Op, Operand, Shift, get_shamt_from_shift, label_target,
    unwrap_cond, unwrap_imm, unwrap_reg, unwrap_unsigned};
use crate::x86::{self, X86Instr, OpKind, Assembler, RAX, EAX, EDX, RDX, AL, REG_NONE};
use crate::register::{NativeRegClass, RegClass, RegTranslation, translate_reg, lower_reg_to_class,
    spec_translate_reg, spec_lower_reg_to_class, has_reg, op_reg, op_tr, op_class, is_any_gpr,
    is_classified_reg};
use crate::instr_utils::{OpRICodes, OpRRCodes, codes, get_alt_reg, spec_get_alt_reg, make_compare_rr,
    make_mov_ri64, make_mov_rr, make_ri, make_rr, spec_make_rr_impl, spec_make_ri,
    spec_make_mov_ri64};
use crate::branch::{make_jcc, jcc_code};

verus! {

/// The instructions of `dest = src1 op src2`.
pub open spec fn spec_make_rrr(
    codes: OpRRCodes,
    dest: RegTranslation,
    src1: RegTranslation,
    src2: RegTranslation,
    reg_class: RegClass,
) -> Seq<X86Instr> {
    if dest == src1 {
        spec_make_rr_impl(codes, reg_class, dest, src2, true)
    } else {
        let mov_code = if reg_class == RegClass::GPR64 { x86::MOV_R64_RM64 } else { x86::MOV_R32_RM32 };
        let op_code = if reg_class == RegClass::GPR64 { codes.r64_rm64 } else { codes.r32_rm32 };
        let d = OpKind::Register(dest.reg_operand(reg_class));
        let mov = src1.spec_set_operand(x86::with_rr(mov_code, REG_NONE, REG_NONE).with_op(0, d), 1);
        let op = src2.spec_set_operand(x86::with_rr(op_code, REG_NONE, REG_NONE).with_op(0, d), 1);
        seq![mov, op] + dest.spec_post_write(reg_class)
    }
}

/// The operands `make_rrr` can place.
pub open spec fn make_rrr_ok(dest: RegTranslation, src1: RegTranslation, src2: RegTranslation) -> bool {
    &&& !(src2 is Zero)
    &&& dest == src1 ==> !(dest is Zero)
    &&& dest != src1 ==> !(src1 is Zero)
}

fn make_rrr(
    ass: &mut Assembler,
    codes: &OpRRCodes,
    dest: RegTranslation,
    src1: RegTranslation,
    src2: RegTranslation,
    reg_class: RegClass,
)
    requires reg_class.is_gpr(), make_rrr_ok(dest, src1, src2),
    ensures final(ass).emits(*old(ass), spec_make_rrr(*codes, dest, src1, src2, reg_class)),
{
    let ghost before = *ass;
    if dest == src1 {
        make_rr(ass, codes, reg_class, dest, src2);
    } else {
        let (mov_code, op_code) = match reg_class {
            RegClass::GPR64 => (x86::MOV_R64_RM64, codes.r64_rm64),
            _ => (x86::MOV_R32_RM32, codes.r32_rm32),
        };
        let mut mov = x86::with_rr(mov_code, REG_NONE, REG_NONE);
        dest.set_reg_operand(&mut mov, 0, reg_class);
        src1.set_operand(&mut mov, 1);
        ass.add(mov);
        let mut op = x86::with_rr(op_code, REG_NONE, REG_NONE);
        dest.set_reg_operand(&mut op, 0, reg_class);
        src2.set_operand(&mut op, 1);
        ass.add(op);
        dest.post_write(ass, reg_class);
        assert(ass.instrs@ =~= before.instrs@ + spec_make_rrr(*codes, dest, src1, src2, reg_class));
    }
}

/// The move opcodes (into a 64-bit, into a 32-bit register) that apply `shift`'s
/// extension while loading.
pub open spec fn shifted_mov_codes(shift: Shift, src_class: RegClass) -> (u32, u32) {
    match shift {
        Shift::UXTB(_) => (x86::MOVZX_R64_RM8, x86::MOVZX_R32_RM8),
        Shift::UXTH(_) => (x86::MOVZX_R64_RM16, x86::MOVZX_R32_RM16),
        Shift::UXTW(_) => (x86::MOV_R32_RM32, x86::MOV_R32_RM32),
        Shift::UXTX(_) => (x86::MOV_R64_RM64, x86::MOV_R32_RM32),
        Shift::SXTB(_) => (x86::MOVSX_R64_RM8, x86::MOVSX_R32_RM8),
        Shift::SXTH(_) => (x86::MOVSX_R64_RM16, x86::MOVSX_R32_RM16),
        Shift::SXTW(_) => (x86::MOVSXD_R64_RM32, x86::MOV_R32_RM32),
        Shift::SXTX(_) => (
            if src_class == RegClass::GPR64 { x86::MOV_R64_RM64 } else { x86::MOVSXD_R64_RM32 },
            x86::MOV_R32_RM32,
        ),
        _ => (x86::MOV_R64_RM64, x86::MOV_R32_RM32),
    }
}

/// The width in which the source of a shifted load is read.
pub open spec fn shifted_src_class(shift: Shift, src_class: RegClass) -> NativeRegClass {
    match shift {
        Shift::UXTB(_) | Shift::SXTB(_) => NativeRegClass::GPR8,
        Shift::UXTH(_) | Shift::SXTH(_) => NativeRegClass::GPR16,
        Shift::UXTW(_) | Shift::SXTW(_) => NativeRegClass::GPR32,
        _ => src_class.to_native_class(),
    }
}

/// The shift opcodes (64-bit, 32-bit) that follow a shifted load.
pub open spec fn shift_codes(shift: Shift) -> (u32, u32) {
    match shift {
        Shift::LSR(_) => (x86::SHR_RM64_IMM8, x86::SHR_RM32_IMM8),
        Shift::ASR(_) => (x86::SAR_RM64_IMM8, x86::SAR_RM32_IMM8),
        _ => (x86::SHL_RM64_IMM8, x86::SHL_RM32_IMM8),
    }
}

/// Whether a shift is one that a load can apply (not `MSL` or `ROR`).
pub open spec fn is_loadable_shift(shift: Shift) -> bool {
    !(shift is MSL) && !(shift is ROR)
}

/// The instructions that load `src`, extended and shifted by `shift`, into `dest`.
pub open spec fn spec_load_shifted(
    dest: u32,
    dest_class: RegClass,
    src: RegTranslation,
    src_class: RegClass,
    shift: Shift,
) -> Seq<X86Instr> {
    if !is_loadable_shift(shift) {
        seq![]
    } else {
        let (m64, m32) = shifted_mov_codes(shift, src_class);
        let mov_code = if dest_class == RegClass::GPR64 { m64 } else { m32 };
        let src_n = src.spec_with_native_class(shifted_src_class(shift, src_class));
        let mov = src_n.spec_set_operand(x86::with_rr(mov_code, dest, REG_NONE), 1);
        let shamt = get_shamt_from_shift(shift);
        if shamt == 0 {
            seq![mov]
        } else {
            let (s64, s32) = shift_codes(shift);
            let shift_code = if dest_class == RegClass::GPR64 { s64 } else { s32 };
            seq![mov, x86::with_ri(shift_code, dest, shamt as i64)]
        }
    }
}

/// The source operands a shifted load can read.
pub open spec fn load_shifted_ok(src: RegTranslation, src_class: RegClass, shift: Shift) -> bool {
    is_loadable_shift(shift) ==> {
        &&& src_class.is_gpr()
        &&& !(src is Zero)
        &&& src matches RegTranslation::Direct(r) ==> is_any_gpr(r)
    }
}

/// Emits the load of `src` with `shift` applied into `dest`; returns false (emitting
/// nothing) for shifts that cannot be applied this way.
fn load_shifted(
    ass: &mut Assembler,
    dest: u32,
    dest_class: RegClass,
    src: RegTranslation,
    src_class: RegClass,
    shift: Shift,
) -> (r: bool)
    requires dest_class.is_gpr(), load_shifted_ok(src, src_class, shift),
    ensures
        r == is_loadable_shift(shift),
        final(ass).emits(*old(ass), spec_load_shifted(dest, dest_class, src, src_class, shift)),
{
    let ghost before = *ass;
    let (mov_64, mov_32) = match shift {
        Shift::MSL(_) | Shift::ROR(_) => {
            assert(ass.instrs@ =~= before.instrs@ + seq![]);
            return false;
        }
        Shift::UXTB(_) => (x86::MOVZX_R64_RM8, x86::MOVZX_R32_RM8),
        Shift::UXTH(_) => (x86::MOVZX_R64_RM16, x86::MOVZX_R32_RM16),
        Shift::UXTW(_) => (x86::MOV_R32_RM32, x86::MOV_R32_RM32),
        Shift::UXTX(_) => (x86::MOV_R64_RM64, x86::MOV_R32_RM32),
        Shift::SXTB(_) => (x86::MOVSX_R64_RM8, x86::MOVSX_R32_RM8),
        Shift::SXTH(_) => (x86::MOVSX_R64_RM16, x86::MOVSX_R32_RM16),
        Shift::SXTW(_) => (x86::MOVSXD_R64_RM32, x86::MOV_R32_RM32),
        Shift::SXTX(_) => (
            if src_class == RegClass::GPR64 { x86::MOV_R64_RM64 } else { x86::MOVSXD_R64_RM32 },
            x86::MOV_R32_RM32,
        ),
        Shift::LSL(_) | Shift::LSR(_) | Shift::ASR(_) => (x86::MOV_R64_RM64, x86::MOV_R32_RM32),
    };
    let native_src_class = match shift {
        Shift::UXTB(_) | Shift::SXTB(_) => NativeRegClass::GPR8,
        Shift::UXTH(_) | Shift::SXTH(_) => NativeRegClass::GPR16,
        Shift::UXTW(_) | Shift::SXTW(_) => NativeRegClass::GPR32,
        _ => src_class.to_native_class(),
    };
    let mov_code = match dest_class {
        RegClass::GPR64 => mov_64,
        _ => mov_32,
    };
    let mut mov = x86::with_rr(mov_code, dest, REG_NONE);
    src.with_native_class(native_src_class).set_operand(&mut mov, 1);
    ass.add(mov);

    let shamt = get_shamt_from_shift(shift);
    if shamt == 0 {
        return true;
    }
    let (shift_64, shift_32) = match shift {
        Shift::LSR(_) => (x86::SHR_RM64_IMM8, x86::SHR_RM32_IMM8),
        Shift::ASR(_) => (x86::SAR_RM64_IMM8, x86::SAR_RM32_IMM8),
        _ => (x86::SHL_RM64_IMM8, x86::SHL_RM32_IMM8),
    };
    let shift_code = match dest_class {
        RegClass::GPR64 => shift_64,
        _ => shift_32,
    };
    ass.add(x86::with_ri(shift_code, dest, shamt as i64));
    assert(ass.instrs@ =~= before.instrs@ + spec_load_shifted(dest, dest_class, src, src_class, shift));
    true
}

/// The instructions of `dest = src op imm`. When `dest != src` only the move into the
/// register operand of `dest` and its store-back are emitted: the operation itself is
/// built but never added.
pub open spec fn spec_make_rri(
    codes: OpRICodes,
    dest: RegTranslation,
    src: RegTranslation,
    imm: i32,
    reg_class: RegClass,
) -> Seq<X86Instr> {
    if dest == src {
        seq![spec_make_ri(codes, reg_class, dest, imm)]
    } else {
        let mov_code = if reg_class == RegClass::GPR64 { x86::MOV_R64_RM64 } else { x86::MOV_R32_RM32 };
        let d = OpKind::Register(dest.reg_operand(reg_class));
        seq![src.spec_set_operand(x86::with_rr(mov_code, REG_NONE, REG_NONE).with_op(0, d), 1)]
            + dest.spec_post_write(reg_class)
    }
}

fn make_rri(
    ass: &mut Assembler,
    codes: &OpRICodes,
    dest_translation: RegTranslation,
    src_translation: RegTranslation,
    imm: i32,
    reg_class: RegClass,
)
    requires reg_class.is_gpr(), !(src_translation is Zero),
    ensures final(ass).emits(*old(ass), spec_make_rri(*codes, dest_translation, src_translation, imm, reg_class)),
{
    let ghost before = *ass;
    if dest_translation == src_translation {
        make_ri(ass, codes, reg_class, dest_translation, imm);
    } else {
        let (mov_code, op_code) = match reg_class {
            RegClass::GPR64 => (x86::MOV_R64_RM64, codes.rm64_imm32),
            _ => (x86::MOV_R32_RM32, codes.rm32_imm32),
        };
        let mut mov = x86::with_rr(mov_code, REG_NONE, REG_NONE);
        dest_translation.set_reg_operand(&mut mov, 0, reg_class);
        src_translation.set_operand(&mut mov, 1);
        ass.add(mov);
        let mut op = x86::with_ri(op_code, REG_NONE, imm as i64);
        dest_translation.set_reg_operand(&mut op, 0, reg_class);
        dest_translation.post_write(ass, reg_class);
        assert(ass.instrs@ =~= before.instrs@ + spec_make_rri(*codes, dest_translation, src_translation, imm, reg_class));
    }
}

// ---------------------------------------------------------------------------
// ADD / SUB
// ---------------------------------------------------------------------------

/// The decoded ADD/SUB instructions that `translate_add_sub` accepts.
pub open spec fn add_sub_ok(instr: &Instruction) -> bool {
    let dest = op_tr(instr, 0);
    let src1 = op_tr(instr, 1);
    let class = op_class(instr, 0);
    &&& has_reg(instr, 0)
    &&& has_reg(instr, 1)
    &&& instr.operands@.len() >= 3
    &&& class.is_gpr()
    &&& match instr.operands@[2] {
        Operand::ShiftReg { reg, shift } => {
            &&& is_classified_reg(reg)
            &&& load_shifted_ok(spec_translate_reg(reg).0, spec_translate_reg(reg).1, shift)
            &&& dest == src1 ==> !(dest is Zero)
            &&& dest != src1 ==> !(src1 is Zero)
        },
        Operand::Reg { reg } => {
            &&& is_classified_reg(reg)
            &&& (instr.op == Op::SUB || (src1.is_indirect() && spec_translate_reg(reg).0.is_indirect()))
                ==> make_rrr_ok(dest, src1, spec_translate_reg(reg).0)
        },
        Operand::Imm64 { imm: Imm::Unsigned(_), shift: None } => {
            instr.op == Op::SUB ==> !(src1 is Zero)
        },
        _ => true,
    }
}

/// The `lea dest, [src1]` that ADD builds on.
pub open spec fn add_sub_lea(instr: &Instruction) -> X86Instr {
    let class = op_class(instr, 0);
    let lea_code = if class == RegClass::GPR64 { x86::LEA_R64_M } else { x86::LEA_R32_M };
    let lea0 = x86::with_rm(lea_code, REG_NONE, x86::no_mem())
        .with_op(0, OpKind::Register(op_tr(instr, 0).reg_operand(class)));
    X86Instr { mem: x86::MemOperand { base: op_tr(instr, 1).reg_operand(class), ..lea0.mem }, ..lea0 }
}

/// ADD/SUB with a shifted or extended register: the shifted value is built in the
/// scratch register (or in a borrowed register, saved on the stack, when an operand
/// is emulated) and added to or subtracted from `src1`.
pub open spec fn spec_add_sub_shift_reg(
    is_sub: bool,
    dest: RegTranslation,
    src1: RegTranslation,
    class: RegClass,
    reg: u32,
    shift: Shift,
) -> Seq<X86Instr> {
    let (src2, src2_class) = spec_translate_reg(reg);
    let using_alt = dest.is_indirect() || src1.is_indirect();
    let src2_reg = if using_alt { spec_get_alt_reg(seq![src1, src1]) } else { RAX };
    let push = if using_alt { seq![x86::with_r(x86::PUSH_R64, src2_reg)] } else { seq![] };
    let pop = if using_alt { seq![x86::with_r(x86::POP_R64, src2_reg)] } else { seq![] };
    let codes = if is_sub { codes::sub_rr_codes() } else { codes::add_rr_codes() };
    push + spec_load_shifted(src2_reg, class, src2, src2_class, shift)
        + spec_make_rrr(codes, dest, src1, RegTranslation::Direct(spec_lower_reg_to_class(src2_reg, class)), class)
        + pop
}

fn add_sub_shift_reg(
    ass: &mut Assembler,
    is_sub: bool,
    dest_translation: RegTranslation,
    src1_translation: RegTranslation,
    reg_class: RegClass,
    reg: u32,
    shift: Shift,
)
    requires
        reg_class.is_gpr(),
        is_classified_reg(reg),
        load_shifted_ok(spec_translate_reg(reg).0, spec_translate_reg(reg).1, shift),
        dest_translation == src1_translation ==> !(dest_translation is Zero),
        dest_translation != src1_translation ==> !(src1_translation is Zero),
    ensures
        final(ass).emits(*old(ass), spec_add_sub_shift_reg(is_sub, dest_translation, src1_translation, reg_class, reg, shift)),
{
    let ghost before = *ass;
    let (src2_translation, src2_class) = translate_reg(reg);
    let using_alt_reg = dest_translation.is_indirect() || src1_translation.is_indirect();
    let ghost src2_reg_s = if using_alt_reg { spec_get_alt_reg(seq![src1_translation, src1_translation]) } else { RAX };
    let ghost push = if using_alt_reg { seq![x86::with_r(x86::PUSH_R64, src2_reg_s)] } else { seq![] };
    let src2_reg = if using_alt_reg {
        let blockers = [src1_translation, src1_translation];
        assert(blockers@ =~= seq![src1_translation, src1_translation]);
        let alt_reg = get_alt_reg(&blockers);
        ass.add(x86::with_r(x86::PUSH_R64, alt_reg));
        alt_reg
    } else {
        RAX
    };
    assert(src2_reg == src2_reg_s);
    let ghost a1 = ass.instrs@;
    assert(a1 =~= before.instrs@ + push);
    load_shifted(ass, src2_reg, reg_class, src2_translation, src2_class, shift);
    let ghost a2 = ass.instrs@;
    let codes = if is_sub {
        codes::sub_rr_codes()
    } else {
        codes::add_rr_codes()
    };
    let src2_low = lower_reg_to_class(src2_reg, reg_class);
    make_rrr(ass, &codes, dest_translation, src1_translation, RegTranslation::Direct(src2_low), reg_class);
    let ghost a3 = ass.instrs@;
    if using_alt_reg {
        ass.add(x86::with_r(x86::POP_R64, src2_reg));
    }
    proof {
        let ls = spec_load_shifted(src2_reg, reg_class, src2_translation, src2_class, shift);
        let rrr = spec_make_rrr(codes, dest_translation, src1_translation, RegTranslation::Direct(src2_low), reg_class);
        let pop = if using_alt_reg { seq![x86::with_r(x86::POP_R64, src2_reg)] } else { seq![] };
        assert(a2 == a1 + ls);
        assert(a3 == a2 + rrr);
        assert(ass.instrs@ =~= a3 + pop);
        assert(ass.instrs@ =~= before.instrs@ + (push + ls + rrr + pop));
    }
}

/// ADD/SUB with a register: SUB, or ADD of two emulated registers, is a three-operand
/// operation; otherwise ADD is `lea dest, [src1 + src2]`.
pub open spec fn spec_add_sub_reg(
    is_sub: bool,
    dest: RegTranslation,
    src1: RegTranslation,
    class: RegClass,
    lea: X86Instr,
    src2: RegTranslation,
) -> Seq<X86Instr> {
    if is_sub {
        spec_make_rrr(codes::sub_rr_codes(), dest, src1, src2, class)
    } else if src1.is_indirect() && src2.is_indirect() {
        spec_make_rrr(codes::add_rr_codes(), dest, src1, src2, class)
    } else {
        let lea2 = X86Instr { mem: x86::MemOperand { index: src2.reg_operand(class), ..lea.mem }, ..lea };
        src1.spec_pre_read(class) + src2.spec_pre_read(class) + seq![lea2] + dest.spec_post_write(class)
    }
}

fn add_sub_reg(
    ass: &mut Assembler,
    is_sub: bool,
    dest_translation: RegTranslation,
    src1_translation: RegTranslation,
    reg_class: RegClass,
    lea: X86Instr,
    src2_translation: RegTranslation,
)
    requires
        reg_class.is_gpr(),
        (is_sub || (src1_translation.is_indirect() && src2_translation.is_indirect()))
            ==> make_rrr_ok(dest_translation, src1_translation, src2_translation),
    ensures
        final(ass).emits(*old(ass), spec_add_sub_reg(is_sub, dest_translation, src1_translation, reg_class, lea, src2_translation)),
{
    let ghost before = *ass;
    let mut lea = lea;
    if is_sub {
        let c = codes::sub_rr_codes();
        make_rrr(ass, &c, dest_translation, src1_translation, src2_translation, reg_class);
    } else if src1_translation.is_indirect() && src2_translation.is_indirect() {
        let c = codes::add_rr_codes();
        make_rrr(ass, &c, dest_translation, src1_translation, src2_translation, reg_class);
    } else {
        src2_translation.set_memory_index(&mut lea, reg_class);
        src1_translation.pre_read(ass, reg_class);
        src2_translation.pre_read(ass, reg_class);
        ass.add(lea);
        dest_translation.post_write(ass, reg_class);
        assert(ass.instrs@ =~= before.instrs@ + spec_add_sub_reg(is_sub, dest_translation, src1_translation, reg_class, lea, src2_translation));
    }
}

/// ADD/SUB with an immediate: SUB goes through `make_rri`; ADD is
/// `lea dest, [src1 + imm]` with an 8-byte displacement.
pub open spec fn spec_add_sub_imm(
    is_sub: bool,
    dest: RegTranslation,
    src1: RegTranslation,
    class: RegClass,
    lea: X86Instr,
    imm: u64,
) -> Seq<X86Instr> {
    if is_sub {
        spec_make_rri(codes::sub_ri_codes(), dest, src1, imm as i32, class)
    } else {
        let lea2 = X86Instr { mem: x86::MemOperand { displ_size: 8, displacement: imm, ..lea.mem }, ..lea };
        src1.spec_pre_read(class) + seq![lea2] + dest.spec_post_write(class)
    }
}

fn add_sub_imm(
    ass: &mut Assembler,
    is_sub: bool,
    dest_translation: RegTranslation,
    src1_translation: RegTranslation,
    reg_class: RegClass,
    lea: X86Instr,
    imm: u64,
)
    requires reg_class.is_gpr(), is_sub ==> !(src1_translation is Zero),
    ensures
        final(ass).emits(*old(ass), spec_add_sub_imm(is_sub, dest_translation, src1_translation, reg_class, lea, imm)),
{
    let ghost before = *ass;
    let mut lea = lea;
    if is_sub {
        let c = codes::sub_ri_codes();
        make_rri(ass, &c, dest_translation, src1_translation, imm as i32, reg_class);
    } else {
        lea.mem.displ_size = 8;
        lea.mem.displacement = imm;
        src1_translation.pre_read(ass, reg_class);
        ass.add(lea);
        dest_translation.post_write(ass, reg_class);
        assert(ass.instrs@ =~= before.instrs@ + spec_add_sub_imm(is_sub, dest_translation, src1_translation, reg_class, lea, imm));
    }
}

/// What `translate_add_sub` emits, and whether it handles the instruction (an
/// immediate with a shift, and other operand forms, are not handled).
pub open spec fn spec_translate_add_sub(instr: &Instruction) -> (bool, Seq<X86Instr>) {
    let dest = op_tr(instr, 0);
    let src1 = op_tr(instr, 1);
    let class = op_class(instr, 0);
    let is_sub = instr.op == Op::SUB;
    match instr.operands@[2] {
        Operand::ShiftReg { reg, shift } => (true, spec_add_sub_shift_reg(is_sub, dest, src1, class, reg, shift)),
        Operand::Reg { reg } =>
            (true, spec_add_sub_reg(is_sub, dest, src1, class, add_sub_lea(instr), spec_translate_reg(reg).0)),
        Operand::Imm64 { imm: Imm::Unsigned(imm), shift } => {
            if shift is Some {
                (false, seq![])
            } else {
                (true, spec_add_sub_imm(is_sub, dest, src1, class, add_sub_lea(instr), imm))
            }
        },
        _ => (false, seq![]),
    }
}

fn translate_add_sub(arm_instr: &Instruction, ass: &mut Assembler) -> (r: bool)
    requires add_sub_ok(arm_instr),
    ensures
        r == spec_translate_add_sub(arm_instr).0,
        final(ass).emits(*old(ass), spec_translate_add_sub(arm_instr).1),
{
    let operands = &arm_instr.operands;
    let (dest_translation, reg_class) = translate_reg(unwrap_reg(operands[0]));
    let (src1_translation, _) = translate_reg(unwrap_reg(operands[1]));
    let lea_code = match reg_class {
        RegClass::GPR64 => x86::LEA_R64_M,
        _ => x86::LEA_R32_M,
    };
    let mut lea = x86::with_rm(lea_code, REG_NONE, x86::no_mem());
    dest_translation.set_reg_operand(&mut lea, 0, reg_class);
    src1_translation.set_memory_base(&mut lea, reg_class);
    assert(lea == add_sub_lea(arm_instr));
    let is_sub = arm_instr.op == Op::SUB;
    match operands[2] {
        Operand::ShiftReg { reg, shift } => {
            add_sub_shift_reg(ass, is_sub, dest_translation, src1_translation, reg_class, reg, shift);
        }
        Operand::Reg { reg } => {
            let (src2_translation, _) = translate_reg(reg);
            add_sub_reg(ass, is_sub, dest_translation, src1_translation, reg_class, lea, src2_translation);
        }
        Operand::Imm64 { imm: Imm::Unsigned(imm), shift } => {
            if shift.is_some() {
                assert(ass.instrs@ =~= old(ass).instrs@ + seq![]);
                return false;
            }
            add_sub_imm(ass, is_sub, dest_translation, src1_translation, reg_class, lea, imm);
        }
        _ => {
            assert(ass.instrs@ =~= old(ass).instrs@ + seq![]);
            return false;
        }
    }
    true
}


// ---------------------------------------------------------------------------
// Shifts
// ---------------------------------------------------------------------------

/// The decoded ASR/LSL/LSR instructions that `translate_shift` accepts.
pub open spec fn shift_ok(instr: &Instruction) -> bool {
    &&& has_reg(instr, 0)
    &&& has_reg(instr, 1)
    &&& instr.operands@.len() >= 3
    &&& op_class(instr, 0).is_gpr()
    &&& (instr.op == Op::ASR || instr.op == Op::LSL || instr.op == Op::LSR)
    &&& match instr.operands@[2] {
        Operand::Reg { reg } => is_classified_reg(reg) && !(op_tr(instr, 1) is Zero),
        Operand::Imm64 { imm: Imm::Unsigned(_), .. } => !(op_tr(instr, 0) is Zero),
        _ => false,
    }
}

/// The register-count shift opcodes (32-bit, 64-bit) of a shift mnemonic.
pub open spec fn shift_rr_codes(op: Op) -> (u32, u32) {
    if op == Op::ASR { (x86::VEX_SARX_R32_RM32_R32, x86::VEX_SARX_R64_RM64_R64) }
    else if op == Op::LSL { (x86::VEX_SHLX_R32_RM32_R32, x86::VEX_SHLX_R64_RM64_R64) }
    else { (x86::VEX_SHRX_R32_RM32_R32, x86::VEX_SHRX_R64_RM64_R64) }
}

/// The immediate-count shift opcodes (32-bit, 64-bit) of a shift mnemonic.
pub open spec fn shift_ri_codes(op: Op) -> (u32, u32) {
    if op == Op::ASR { (x86::SAR_RM32_IMM8, x86::SAR_RM64_IMM8) }
    else if op == Op::LSL { (x86::SHL_RM32_IMM8, x86::SHL_RM64_IMM8) }
    else { (x86::SHR_RM32_IMM8, x86::SHR_RM64_IMM8) }
}

/// What `translate_shift` emits: `shlx/sarx/shrx dest, src1, src2` for a register
/// count, or `shl/sar/shr dest, imm` on `dest` itself for an immediate count.
pub open spec fn spec_translate_shift(instr: &Instruction) -> Seq<X86Instr> {
    let dest = op_tr(instr, 0);
    let src1 = op_tr(instr, 1);
    let class = op_class(instr, 0);
    let r_rm_r = if class == RegClass::GPR64 { shift_rr_codes(instr.op).1 } else { shift_rr_codes(instr.op).0 };
    let rm_i = if class == RegClass::GPR64 { shift_ri_codes(instr.op).1 } else { shift_ri_codes(instr.op).0 };
    match instr.operands@[2] {
        Operand::Reg { reg } => {
            let src2 = spec_translate_reg(reg).0;
            let i0 = x86::with_rrr(r_rm_r, REG_NONE, REG_NONE, REG_NONE)
                .with_op(0, OpKind::Register(dest.reg_operand(class)));
            let i1 = src1.spec_set_operand(i0, 1).with_op(2, OpKind::Register(src2.reg_operand(class)));
            src2.spec_pre_read(class) + seq![i1] + dest.spec_post_write(class)
        },
        Operand::Imm64 { imm: Imm::Unsigned(imm), .. } =>
            seq![dest.spec_set_operand(x86::with_ri(rm_i, REG_NONE, (imm as i32) as i64), 0)],
        _ => seq![],
    }
}

fn translate_shift(arm_instr: &Instruction, ass: &mut Assembler)
    requires shift_ok(arm_instr),
    ensures final(ass).emits(*old(ass), spec_translate_shift(arm_instr)),
{
    let ghost before = *ass;
    let operands = &arm_instr.operands;
    let (dest_translation, reg_class) = translate_reg(unwrap_reg(operands[0]));
    let (src1_translation, _) = translate_reg(unwrap_reg(operands[1]));
    let (r32_rm32_r32, r64_rm64_r32) = match arm_instr.op {
        Op::ASR => (x86::VEX_SARX_R32_RM32_R32, x86::VEX_SARX_R64_RM64_R64),
        Op::LSL => (x86::VEX_SHLX_R32_RM32_R32, x86::VEX_SHLX_R64_RM64_R64),
        _ => (x86::VEX_SHRX_R32_RM32_R32, x86::VEX_SHRX_R64_RM64_R64),
    };
    let (rm32_i, rm64_i) = match arm_instr.op {
        Op::ASR => (x86::SAR_RM32_IMM8, x86::SAR_RM64_IMM8),
        Op::LSL => (x86::SHL_RM32_IMM8, x86::SHL_RM64_IMM8),
        _ => (x86::SHR_RM32_IMM8, x86::SHR_RM64_IMM8),
    };
    let (r_rm_r, rm_i) = match reg_class {
        RegClass::GPR64 => (r64_rm64_r32, rm64_i),
        _ => (r32_rm32_r32, rm32_i),
    };
    match operands[2] {
        Operand::Reg { reg } => {
            let (src2_translation, _) = translate_reg(reg);
            src2_translation.pre_read(ass, reg_class);
            let mut shift_inst = x86::with_rrr(r_rm_r, REG_NONE, REG_NONE, REG_NONE);
            dest_translation.set_reg_operand(&mut shift_inst, 0, reg_class);
            src1_translation.set_operand(&mut shift_inst, 1);
            src2_translation.set_reg_operand(&mut shift_inst, 2, reg_class);
            ass.add(shift_inst);
            dest_translation.post_write(ass, reg_class);
        }
        Operand::Imm64 { imm: Imm::Unsigned(imm), .. } => {
            let mut shift_inst = x86::with_ri(rm_i, REG_NONE, (imm as i32) as i64);
            dest_translation.set_operand(&mut shift_inst, 0);
            ass.add(shift_inst);
        }
        _ => {}
    }
    assert(ass.instrs@ =~= before.instrs@ + spec_translate_shift(arm_instr));
}

// ---------------------------------------------------------------------------
// CMP / CMN
// ---------------------------------------------------------------------------

/// The decoded CMP/CMN instructions that `translate_compare` accepts.
pub open spec fn compare_ok(instr: &Instruction) -> bool {
    &&& has_reg(instr, 0)
    &&& instr.operands@.len() >= 2
    &&& op_class(instr, 0).is_gpr()
    &&& !(op_tr(instr, 0) is Zero)
    &&& match instr.operands@[1] {
        Operand::Reg { reg } => is_classified_reg(reg) && !(spec_translate_reg(reg).0 is Zero),
        Operand::Imm64 { imm: Imm::Unsigned(_), .. } => true,
        Operand::Imm32 { imm: Imm::Unsigned(_), .. } => true,
        _ => false,
    }
}

/// The immediate of an `Imm64`/`Imm32` operand holding an unsigned value.
pub open spec fn unsigned_imm_of(o: Operand) -> u64 {
    match o {
        Operand::Imm64 { imm: Imm::Unsigned(v), .. } => v,
        Operand::Imm32 { imm: Imm::Unsigned(v), .. } => v,
        _ => 0,
    }
}

/// What `translate_compare` emits: `cmp src1, src2` for CMP; for CMN, `src1` is copied
/// to the scratch register and `src2` added to it (setting the flags).
pub open spec fn spec_translate_compare(instr: &Instruction) -> Seq<X86Instr> {
    let src1 = op_tr(instr, 0);
    let class = op_class(instr, 0);
    let scratch = class.scratch_translation();
    match instr.operands@[1] {
        Operand::Reg { reg } => {
            let src2 = spec_translate_reg(reg).0;
            if instr.op == Op::CMP {
                spec_make_rr_impl(codes::compare_rr_codes(), class, src1, src2, true)
            } else {
                spec_make_rr_impl(codes::mov_rr_codes(), class, scratch, src1, false)
                    + spec_make_rr_impl(codes::add_rr_codes(), class, scratch, src2, true)
            }
        },
        _ => {
            let imm = unsigned_imm_of(instr.operands@[1]) as i32;
            if instr.op == Op::CMP {
                seq![spec_make_ri(codes::compare_ri_codes(), class, src1, imm)]
            } else {
                spec_make_rr_impl(codes::mov_rr_codes(), class, scratch, src1, false)
                    + seq![spec_make_ri(codes::add_ri_codes(), class, scratch, imm)]
            }
        },
    }
}

fn translate_compare(arm_instr: &Instruction, ass: &mut Assembler)
    requires compare_ok(arm_instr),
    ensures final(ass).emits(*old(ass), spec_translate_compare(arm_instr)),
{
    let ghost before = *ass;
    let operands = &arm_instr.operands;
    let (src1, reg_class) = translate_reg(unwrap_reg(operands[0]));
    match operands[1] {
        Operand::Reg { reg } => {
            let (src2, _) = translate_reg(reg);
            if arm_instr.op == Op::CMP {
                make_compare_rr(ass, reg_class, src1, src2);
            } else {
                let scratch = reg_class.scratch_translation();
                make_mov_rr(ass, reg_class, scratch, src1);
                let c = codes::add_rr_codes();
                make_rr(ass, &c, reg_class, scratch, src2);
            }
        }
        Operand::Imm64 { imm, .. } | Operand::Imm32 { imm, .. } => {
            let imm = unwrap_unsigned(imm);
            if arm_instr.op == Op::CMP {
                let c = codes::compare_ri_codes();
                make_ri(ass, &c, reg_class, src1, imm as i32);
            } else {
                let scratch = reg_class.scratch_translation();
                make_mov_rr(ass, reg_class, scratch, src1);
                let c = codes::add_ri_codes();
                make_ri(ass, &c, reg_class, scratch, imm as i32);
            }
        }
        _ => {}
    }
    assert(ass.instrs@ =~= before.instrs@ + spec_translate_compare(arm_instr));
}

// ---------------------------------------------------------------------------
// Division and multiply-add
// ---------------------------------------------------------------------------

/// Three register operands of one integer class, none of them the zero register.
pub open spec fn rrr_ok(instr: &Instruction) -> bool {
    &&& has_reg(instr, 0)
    &&& has_reg(instr, 1)
    &&& has_reg(instr, 2)
    &&& op_class(instr, 0).is_gpr()
    &&& !(op_tr(instr, 0) is Zero)
    &&& !(op_tr(instr, 1) is Zero)
    &&& !(op_tr(instr, 2) is Zero)
}

/// What `translate_div` emits: `src1` into the scratch register, rdx cleared (unsigned)
/// or filled by `cdq` (signed), `div/idiv src2`, the quotient moved to `dest`; rdx is
/// saved around it.
pub open spec fn spec_translate_div(instr: &Instruction, signed: bool) -> Seq<X86Instr> {
    let dest = op_tr(instr, 0);
    let src1 = op_tr(instr, 1);
    let src2 = op_tr(instr, 2);
    let class = op_class(instr, 0);
    let scratch = class.scratch_translation();
    let code = if class == RegClass::GPR32 {
        if signed { x86::IDIV_RM32 } else { x86::DIV_RM32 }
    } else {
        if signed { x86::IDIV_RM64 } else { x86::DIV_RM64 }
    };
    let ext = if signed { x86::with0(x86::CDQ) } else { x86::with_rr(x86::XOR_R32_RM32, EDX, EDX) };
    seq![x86::with_r(x86::PUSH_R64, RDX)]
        + spec_make_rr_impl(codes::mov_rr_codes(), class, scratch, src1, false)
        + seq![ext, src2.spec_set_operand(x86::with_r(code, REG_NONE), 0)]
        + spec_make_rr_impl(codes::mov_rr_codes(), class, dest, scratch, false)
        + seq![x86::with_r(x86::POP_R64, RDX)]
}

fn translate_div(arm_instr: &Instruction, ass: &mut Assembler, signed: bool)
    requires rrr_ok(arm_instr),
    ensures final(ass).emits(*old(ass), spec_translate_div(arm_instr, signed)),
{
    let ghost before = *ass;
    let operands = &arm_instr.operands;
    let (dest, reg_class) = translate_reg(unwrap_reg(operands[0]));
    let (src1, _) = translate_reg(unwrap_reg(operands[1]));
    let (src2, _) = translate_reg(unwrap_reg(operands[2]));
    ass.add(x86::with_r(x86::PUSH_R64, RDX));
    make_mov_rr(ass, reg_class, reg_class.scratch_translation(), src1);
    if signed {
        ass.add(x86::with0(x86::CDQ));
    } else {
        ass.add(x86::with_rr(x86::XOR_R32_RM32, EDX, EDX));
    }
    let (unsigned_code, signed_code) = match reg_class {
        RegClass::GPR32 => (x86::DIV_RM32, x86::IDIV_RM32),
        _ => (x86::DIV_RM64, x86::IDIV_RM64),
    };
    let mut div = x86::with_r(if signed { signed_code } else { unsigned_code }, REG_NONE);
    src2.set_operand(&mut div, 0);
    ass.add(div);
    make_mov_rr(ass, reg_class, dest, reg_class.scratch_translation());
    ass.add(x86::with_r(x86::POP_R64, RDX));
    assert(ass.instrs@ =~= before.instrs@ + spec_translate_div(arm_instr, signed));
}

/// What `translate_madd` emits: `src1` into the scratch register, `mul` by the third
/// operand, `add` of the third operand again (the addend is read from the same operand
/// as the multiplier), and the result moved to `dest`; rdx is saved around it.
pub open spec fn spec_translate_madd(instr: &Instruction) -> Seq<X86Instr> {
    let dest = op_tr(instr, 0);
    let src1 = op_tr(instr, 1);
    let src2 = op_tr(instr, 2);
    let class = op_class(instr, 0);
    let scratch = class.scratch_translation();
    let mul_code = if class == RegClass::GPR32 { x86::MUL_RM32 } else { x86::MUL_RM64 };
    let add_code = if class == RegClass::GPR32 { x86::ADD_R32_RM32 } else { x86::ADD_R64_RM64 };
    seq![x86::with_r(x86::PUSH_R64, RDX)]
        + spec_make_rr_impl(codes::mov_rr_codes(), class, scratch, src1, false)
        + seq![
            src2.spec_set_operand(x86::with_r(mul_code, REG_NONE), 0),
            src2.spec_set_operand(x86::with_rr(add_code, class.scratch(), REG_NONE), 1),
        ]
        + spec_make_rr_impl(codes::mov_rr_codes(), class, dest, scratch, false)
        + seq![x86::with_r(x86::POP_R64, RDX)]
}

fn translate_madd(arm_instr: &Instruction, ass: &mut Assembler)
    requires rrr_ok(arm_instr),
    ensures final(ass).emits(*old(ass), spec_translate_madd(arm_instr)),
{
    let ghost before = *ass;
    let operands = &arm_instr.operands;
    let (dest, reg_class) = translate_reg(unwrap_reg(operands[0]));
    let (src1, _) = translate_reg(unwrap_reg(operands[1]));
    let (src2, _) = translate_reg(unwrap_reg(operands[2]));
    let (src3, _) = translate_reg(unwrap_reg(operands[2]));
    ass.add(x86::with_r(x86::PUSH_R64, RDX));
    make_mov_rr(ass, reg_class, reg_class.scratch_translation(), src1);
    let (mul_code, add_code) = match reg_class {
        RegClass::GPR32 => (x86::MUL_RM32, x86::ADD_R32_RM32),
        _ => (x86::MUL_RM64, x86::ADD_R64_RM64),
    };
    let mut mul = x86::with_r(mul_code, REG_NONE);
    src2.set_operand(&mut mul, 0);
    ass.add(mul);
    let mut add = x86::with_rr(add_code, reg_class.scratch(), REG_NONE);
    src3.set_operand(&mut add, 1);
    ass.add(add);
    make_mov_rr(ass, reg_class, dest, reg_class.scratch_translation());
    ass.add(x86::with_r(x86::POP_R64, RDX));
    assert(ass.instrs@ =~= before.instrs@ + spec_translate_madd(arm_instr));
}

// ---------------------------------------------------------------------------
// Conditional select, flags, conditional compare, conditional set
// ---------------------------------------------------------------------------

/// The conditional move (32-bit, 64-bit) that CSEL uses for a condition: `CS` is
/// "above or equal" and `CC` "below"; `AL`/`NV` are plain moves.
#[verifier::allow_in_spec]
pub fn cmov_codes(cond: Cond) -> (u32, u32)
    returns (match cond {
        Cond::EQ => (x86::CMOVE_R32_RM32, x86::CMOVE_R64_RM64),
        Cond::NE => (x86::CMOVNE_R32_RM32, x86::CMOVNE_R64_RM64),
        Cond::CS => (x86::CMOVAE_R32_RM32, x86::CMOVAE_R64_RM64),
        Cond::CC => (x86::CMOVB_R32_RM32, x86::CMOVB_R64_RM64),
        Cond::MI => (x86::CMOVS_R32_RM32, x86::CMOVS_R64_RM64),
        Cond::PL => (x86::CMOVNS_R32_RM32, x86::CMOVNS_R64_RM64),
        Cond::VS => (x86::CMOVO_R32_RM32, x86::CMOVO_R64_RM64),
        Cond::VC => (x86::CMOVNO_R32_RM32, x86::CMOVNO_R64_RM64),
        Cond::HI => (x86::CMOVA_R32_RM32, x86::CMOVA_R64_RM64),
        Cond::LS => (x86::CMOVBE_R32_RM32, x86::CMOVBE_R64_RM64),
        Cond::GE => (x86::CMOVGE_R32_RM32, x86::CMOVGE_R64_RM64),
        Cond::LT => (x86::CMOVL_R32_RM32, x86::CMOVL_R64_RM64),
        Cond::GT => (x86::CMOVG_R32_RM32, x86::CMOVG_R64_RM64),
        Cond::LE => (x86::CMOVLE_R32_RM32, x86::CMOVLE_R64_RM64),
        Cond::AL => (x86::MOV_R32_RM32, x86::MOV_R64_RM64),
        Cond::NV => (x86::MOV_R32_RM32, x86::MOV_R64_RM64),
    }),
{
    match cond {
        Cond::EQ => (x86::CMOVE_R32_RM32, x86::CMOVE_R64_RM64),
        Cond::NE => (x86::CMOVNE_R32_RM32, x86::CMOVNE_R64_RM64),
        Cond::CS => (x86::CMOVAE_R32_RM32, x86::CMOVAE_R64_RM64),
        Cond::CC => (x86::CMOVB_R32_RM32, x86::CMOVB_R64_RM64),
        Cond::MI => (x86::CMOVS_R32_RM32, x86::CMOVS_R64_RM64),
        Cond::PL => (x86::CMOVNS_R32_RM32, x86::CMOVNS_R64_RM64),
        Cond::VS => (x86::CMOVO_R32_RM32, x86::CMOVO_R64_RM64),
        Cond::VC => (x86::CMOVNO_R32_RM32, x86::CMOVNO_R64_RM64),
        Cond::HI => (x86::CMOVA_R32_RM32, x86::CMOVA_R64_RM64),
        Cond::LS => (x86::CMOVBE_R32_RM32, x86::CMOVBE_R64_RM64),
        Cond::GE => (x86::CMOVGE_R32_RM32, x86::CMOVGE_R64_RM64),
        Cond::LT => (x86::CMOVL_R32_RM32, x86::CMOVL_R64_RM64),
        Cond::GT => (x86::CMOVG_R32_RM32, x86::CMOVG_R64_RM64),
        Cond::LE => (x86::CMOVLE_R32_RM32, x86::CMOVLE_R64_RM64),
        Cond::AL | Cond::NV => (x86::MOV_R32_RM32, x86::MOV_R64_RM64),
    }
}

/// The decoded CSEL instructions that `translate_csel` accepts.
pub open spec fn csel_ok(instr: &Instruction) -> bool {
    &&& rrr_ok(instr)
    &&& instr.operands@.len() >= 4
    &&& instr.operands@[3] is Cond
}

/// What `translate_csel` emits: `src2` into the scratch register, a conditional move of
/// `src1` into rax, and the scratch register moved to `dest`.
pub open spec fn spec_translate_csel(instr: &Instruction) -> Seq<X86Instr> {
    let dest = op_tr(instr, 0);
    let src1 = op_tr(instr, 1);
    let src2 = op_tr(instr, 2);
    let class = op_class(instr, 0);
    let scratch = class.scratch_translation();
    let cond = instr.operands@[3]->Cond_0;
    let cmov = if class == RegClass::GPR64 { cmov_codes(cond).1 } else { cmov_codes(cond).0 };
    spec_make_rr_impl(codes::mov_rr_codes(), class, scratch, src2, false)
        + seq![src1.spec_set_operand(x86::with_rr(cmov, RAX, REG_NONE), 1)]
        + spec_make_rr_impl(codes::mov_rr_codes(), class, dest, scratch, false)
}

fn translate_csel(arm_instr: &Instruction, ass: &mut Assembler)
    requires csel_ok(arm_instr),
    ensures final(ass).emits(*old(ass), spec_translate_csel(arm_instr)),
{
    let ghost before = *ass;
    let operands = &arm_instr.operands;
    let (dest, reg_class) = translate_reg(unwrap_reg(operands[0]));
    let (src1, _) = translate_reg(unwrap_reg(operands[1]));
    let (src2, _) = translate_reg(unwrap_reg(operands[2]));
    let cond = unwrap_cond(operands[3]);
    make_mov_rr(ass, reg_class, reg_class.scratch_translation(), src2);
    let (cmov32, cmov64) = cmov_codes(cond);
    let mut cmov = x86::with_rr(if reg_class == RegClass::GPR64 { cmov64 } else { cmov32 }, RAX, REG_NONE);
    src1.set_operand(&mut cmov, 1);
    ass.add(cmov);
    make_mov_rr(ass, reg_class, dest, reg_class.scratch_translation());
    assert(ass.instrs@ =~= before.instrs@ + spec_translate_csel(arm_instr));
}

/// The RFLAGS bits that an AArch64 NZCV value sets: V -> OF (bit 11), C -> CF (bit 0),
/// Z -> ZF (bit 6), N -> SF (bit 7).
pub open spec fn spec_nzcv_to_rflags(nzcv: u64) -> i32 {
    (if nzcv & 1 != 0 { 0x800i32 } else { 0i32 })
    | (if nzcv & 2 != 0 { 1i32 } else { 0i32 })
    | (if nzcv & 4 != 0 { 0x40i32 } else { 0i32 })
    | (if nzcv & 8 != 0 { 0x80i32 } else { 0i32 })
}

/// Computes the RFLAGS bits that `set_flags` sets for an NZCV value.
pub fn nzcv_to_rflags(nzcv: u64) -> (r: i32)
    ensures r == spec_nzcv_to_rflags(nzcv),
{
    let mut set_mask: i32 = 0;
    if nzcv & 0b0001 != 0 {
        // V flag corresponds to OF flag
        set_mask |= 1 << 11;
    }
    if nzcv & 0b0010 != 0 {
        // C flag corresponds to CF flag
        set_mask |= 1;
    }
    if nzcv & 0b0100 != 0 {
        // Z flag corresponds to ZF flag
        set_mask |= 1 << 6;
    }
    if nzcv & 0b1000 != 0 {
        // N flag corresponds to SF flag
        set_mask |= 1 << 7;
    }
    proof {
        assert((1i32 << 11) == 0x800i32 && (1i32 << 6) == 0x40i32 && (1i32 << 7) == 0x80i32) by (bit_vector);
        assert(0i32 | 0x800i32 == 0x800i32 && 0i32 | 1i32 == 1i32) by (bit_vector);
        assert(forall|x: i32| #![auto] x | 0i32 == x && 0i32 | x == x) by (bit_vector);
    }
    set_mask
}

/// The RFLAGS mask that clears CF, ZF, SF and OF.
pub open spec fn flags_clear_mask() -> i32 {
    (!0x08C1u32) as i32
}

/// What `set_flags` emits: RFLAGS through rax, with CF/ZF/SF/OF cleared and then the
/// bits of `nzcv` set.
pub open spec fn spec_set_flags(nzcv: u64) -> Seq<X86Instr> {
    let or_part = if nzcv != 0 {
        seq![x86::with_ri(x86::OR_RM64_IMM32, RAX, spec_nzcv_to_rflags(nzcv) as i64)]
    } else {
        seq![]
    };
    seq![
        x86::with0(x86::PUSHFQ),
        x86::with_r(x86::POP_R64, RAX),
        x86::with_ri(x86::AND_RM64_IMM32, RAX, flags_clear_mask() as i64),
    ] + or_part + seq![x86::with_r(x86::PUSH_R64, RAX), x86::with0(x86::POPFQ)]
}

fn set_flags(ass: &mut Assembler, nzcv: u64)
    ensures final(ass).emits(*old(ass), spec_set_flags(nzcv)),
{
    let ghost before = *ass;
    ass.add(x86::with0(x86::PUSHFQ));
    ass.add(x86::with_r(x86::POP_R64, RAX));
    let and_mask = !0x08C1u32;
    ass.add(x86::with_ri(x86::AND_RM64_IMM32, RAX, (and_mask as i32) as i64));
    let set_mask = nzcv_to_rflags(nzcv);
    if nzcv != 0 {
        ass.add(x86::with_ri(x86::OR_RM64_IMM32, RAX, set_mask as i64));
    }
    ass.add(x86::with_r(x86::PUSH_R64, RAX));
    ass.add(x86::with0(x86::POPFQ));
    assert(ass.instrs@ =~= before.instrs@ + spec_set_flags(nzcv));
}

/// Each AArch64 flag of an NZCV value is set exactly in its RFLAGS position, and the
/// mask touches only the four bits that the clear mask clears.
pub proof fn lemma_nzcv_to_rflags(nzcv: u64)
    ensures
        (spec_nzcv_to_rflags(nzcv) & 0x800i32 != 0) == (nzcv & 1 != 0),
        (spec_nzcv_to_rflags(nzcv) & 1i32 != 0) == (nzcv & 2 != 0),
        (spec_nzcv_to_rflags(nzcv) & 0x40i32 != 0) == (nzcv & 4 != 0),
        (spec_nzcv_to_rflags(nzcv) & 0x80i32 != 0) == (nzcv & 8 != 0),
        spec_nzcv_to_rflags(nzcv) & flags_clear_mask() == 0,
{
    let m = spec_nzcv_to_rflags(nzcv);
    assert({
        &&& (m & 0x800i32 != 0) == (nzcv & 1 != 0)
        &&& (m & 1i32 != 0) == (nzcv & 2 != 0)
        &&& (m & 0x40i32 != 0) == (nzcv & 4 != 0)
        &&& (m & 0x80i32 != 0) == (nzcv & 8 != 0)
        &&& m & ((!0x08C1u32) as i32) == 0
    }) by (bit_vector)
        requires
            m == (if nzcv & 1 != 0 { 0x800i32 } else { 0i32 }) | (if nzcv & 2 != 0 { 1i32 } else { 0i32 })
                | (if nzcv & 4 != 0 { 0x40i32 } else { 0i32 }) | (if nzcv & 8 != 0 { 0x80i32 } else { 0i32 });
}


/// The decoded CCMP instructions that `translate_cond_compare` accepts: the NZCV value is
/// read from the second operand, which must therefore be an unsigned immediate.
pub open spec fn cond_compare_ok(instr: &Instruction) -> bool {
    &&& has_reg(instr, 0)
    &&& instr.operands@.len() >= 4
    &&& op_class(instr, 0).is_gpr()
    &&& !(op_tr(instr, 0) is Zero)
    &&& instr.operands@[3] is Cond
    &&& (instr.operands@[1] matches Operand::Imm64 { imm: Imm::Unsigned(_), .. }
        || instr.operands@[1] matches Operand::Imm32 { imm: Imm::Unsigned(_), .. })
}

/// What `translate_cond_compare` emits, given the next free label id `l`: a jump to label
/// `l + 1` when the condition holds; otherwise the flags are set from the NZCV value
/// and a jump goes to label `l`; label `l + 1` names `cmp src1, imm` and label `l` a
/// zero-length end marker.
pub open spec fn spec_translate_cond_compare(instr: &Instruction, l: u64) -> Seq<X86Instr> {
    let src1 = op_tr(instr, 0);
    let class = op_class(instr, 0);
    let cond = instr.operands@[3]->Cond_0;
    let nzcv = unsigned_imm_of(instr.operands@[1]);
    seq![x86::with_branch(jcc_code(cond), (l + 1) as u64)]
        + spec_set_flags(nzcv)
        + seq![
            x86::with_branch(x86::JMP_REL32_64, l),
            spec_make_ri(codes::compare_ri_codes(), class, src1, nzcv as i32),
            x86::with0(x86::ZERO_BYTES),
        ]
}

/// The labels that `translate_cond_compare` places, given the next free label id `l` and the
/// number `n` of instructions before it.
pub open spec fn spec_cond_compare_labels(instr: &Instruction, l: u64, n: nat) -> Seq<(u64, usize)> {
    let k = n + 2 + spec_set_flags(unsigned_imm_of(instr.operands@[1])).len();
    seq![((l + 1) as u64, k as usize), (l, (k + 1) as usize)]
}

fn translate_cond_compare(arm_instr: &Instruction, ass: &mut Assembler)
    requires
        cond_compare_ok(arm_instr),
        old(ass).next_label + 2 <= u64::MAX,
    ensures
        final(ass).instrs@ == old(ass).instrs@ + spec_translate_cond_compare(arm_instr, old(ass).next_label),
        final(ass).labels@ == old(ass).labels@ + spec_cond_compare_labels(arm_instr, old(ass).next_label, old(ass).instrs@.len()),
        final(ass).next_label == old(ass).next_label + 2,
{
    let ghost before = *ass;
    let operands = &arm_instr.operands;
    let (src1, reg_class) = translate_reg(unwrap_reg(operands[0]));
    let cond = unwrap_cond(operands[3]);

    let end_label = ass.create_label();
    let cond_pass_label = ass.create_label();

    make_jcc(ass, cond, cond_pass_label);

    let nzcv = unwrap_unsigned(unwrap_imm(operands[1]).0);
    set_flags(ass, nzcv);

    ass.add(x86::with_branch(x86::JMP_REL32_64, end_label));
    let ghost k = ass.instrs@.len();
    ass.set_label(cond_pass_label);

    // compare `src1` with the immediate
    let c = codes::compare_ri_codes();
    make_ri(ass, &c, reg_class, src1, nzcv as i32);

    ass.set_label(end_label);
    ass.add(x86::with0(x86::ZERO_BYTES));
    assert(ass.instrs@ =~= before.instrs@ + spec_translate_cond_compare(arm_instr, before.next_label));
    assert(ass.labels@ =~= before.labels@ + spec_cond_compare_labels(arm_instr, before.next_label, before.instrs@.len()));
}

/// The `setcc al` for a condition (`CC` is "carry clear", `CS` "carry set"); `AL`/`NV`
/// load 1 into al.
#[verifier::allow_in_spec]
pub fn setcc_instr(cond: Cond) -> X86Instr
    returns (match cond {
        Cond::EQ => x86::with_r(x86::SETE_RM8, AL),
        Cond::NE => x86::with_r(x86::SETNE_RM8, AL),
        Cond::LT => x86::with_r(x86::SETL_RM8, AL),
        Cond::GE => x86::with_r(x86::SETGE_RM8, AL),
        Cond::GT => x86::with_r(x86::SETG_RM8, AL),
        Cond::LE => x86::with_r(x86::SETLE_RM8, AL),
        Cond::CC => x86::with_r(x86::SETAE_RM8, AL),
        Cond::CS => x86::with_r(x86::SETB_RM8, AL),
        Cond::HI => x86::with_r(x86::SETA_RM8, AL),
        Cond::LS => x86::with_r(x86::SETBE_RM8, AL),
        Cond::VC => x86::with_r(x86::SETNO_RM8, AL),
        Cond::VS => x86::with_r(x86::SETO_RM8, AL),
        Cond::MI => x86::with_r(x86::SETS_RM8, AL),
        Cond::PL => x86::with_r(x86::SETNS_RM8, AL),
        Cond::AL => x86::with_ri(x86::MOV_R8_IMM8, AL, 1),
        Cond::NV => x86::with_ri(x86::MOV_R8_IMM8, AL, 1),
    }),
{
    match cond {
        Cond::EQ => x86::with_r(x86::SETE_RM8, AL),
        Cond::NE => x86::with_r(x86::SETNE_RM8, AL),
        Cond::LT => x86::with_r(x86::SETL_RM8, AL),
        Cond::GE => x86::with_r(x86::SETGE_RM8, AL),
        Cond::GT => x86::with_r(x86::SETG_RM8, AL),
        Cond::LE => x86::with_r(x86::SETLE_RM8, AL),
        Cond::CC => x86::with_r(x86::SETAE_RM8, AL),
        Cond::CS => x86::with_r(x86::SETB_RM8, AL),
        Cond::HI => x86::with_r(x86::SETA_RM8, AL),
        Cond::LS => x86::with_r(x86::SETBE_RM8, AL),
        Cond::VC => x86::with_r(x86::SETNO_RM8, AL),
        Cond::VS => x86::with_r(x86::SETO_RM8, AL),
        Cond::MI => x86::with_r(x86::SETS_RM8, AL),
        Cond::PL => x86::with_r(x86::SETNS_RM8, AL),
        Cond::AL | Cond::NV => x86::with_ri(x86::MOV_R8_IMM8, AL, 1),
    }
}

/// What `make_setcc` emits: the condition into al, then zero-extended into the 32-bit
/// view of `reg` (through eax and a 32-bit store for an emulated register).
pub open spec fn spec_make_setcc(cond: Cond, reg: RegTranslation) -> Seq<X86Instr> {
    let r = reg.spec_with_native_class(NativeRegClass::GPR32);
    seq![setcc_instr(cond)] + match r {
        RegTranslation::Direct(d) => seq![x86::with_rr(x86::MOVZX_R32_RM8, d, AL)],
        _ => seq![
            x86::with_rr(x86::MOVZX_R32_RM8, EAX, AL),
            r.spec_set_operand(x86::with_rr(x86::MOV_RM32_R32, REG_NONE, RAX), 0),
        ],
    }
}

/// Sets the 32-bit view of `reg` to 1 when `cond` holds and to 0 otherwise. `reg` must
/// be a general purpose register, emulated or not, other than the zero register.
pub fn make_setcc(ass: &mut Assembler, cond: Cond, reg: RegTranslation)
    requires
        !(reg is Zero),
        reg matches RegTranslation::Direct(r) ==> is_any_gpr(r),
    ensures final(ass).emits(*old(ass), spec_make_setcc(cond, reg)),
{
    let ghost before = *ass;
    ass.add(setcc_instr(cond));
    let narrowed = reg.with_native_class(NativeRegClass::GPR32);
    match narrowed {
        RegTranslation::Direct(r) => {
            ass.add(x86::with_rr(x86::MOVZX_R32_RM8, r, AL));
        }
        _ => {
            ass.add(x86::with_rr(x86::MOVZX_R32_RM8, EAX, AL));
            let mut mov = x86::with_rr(x86::MOV_RM32_R32, REG_NONE, RAX);
            narrowed.set_operand(&mut mov, 0);
            ass.add(mov);
        }
    }
    assert(ass.instrs@ =~= before.instrs@ + spec_make_setcc(cond, reg));
}

/// The decoded CSET instructions that `translate_cset` accepts.
pub open spec fn cset_ok(instr: &Instruction) -> bool {
    &&& has_reg(instr, 0)
    &&& instr.operands@.len() >= 2
    &&& op_class(instr, 0).is_gpr()
    &&& !(op_tr(instr, 0) is Zero)
    &&& instr.operands@[1] is Cond
}

fn translate_cset(arm_instr: &Instruction, ass: &mut Assembler)
    requires cset_ok(arm_instr),
    ensures final(ass).emits(*old(ass), spec_make_setcc(arm_instr.operands@[1]->Cond_0, op_tr(arm_instr, 0))),
{
    let operands = &arm_instr.operands;
    let (dest, _) = translate_reg(unwrap_reg(operands[0]));
    let cond = unwrap_cond(operands[1]);
    proof { crate::register::lemma_translation_kind(op_reg(arm_instr, 0)); }
    make_setcc(ass, cond, dest);
}


// ---------------------------------------------------------------------------
// MOV, AND, MOVK, ADRP, extensions
// ---------------------------------------------------------------------------

/// The decoded MOV instructions that `compile_instr` accepts.
pub open spec fn mov_ok(instr: &Instruction) -> bool {
    &&& has_reg(instr, 0)
    &&& instr.operands@.len() >= 2
    &&& op_class(instr, 0).is_gpr()
    &&& !(op_tr(instr, 0) is Zero)
    &&& match instr.operands@[1] {
        Operand::Reg { reg } => is_classified_reg(reg) && !(spec_translate_reg(reg).0 is Zero),
        Operand::Imm64 { imm: Imm::Unsigned(_), .. } => true,
        Operand::Imm32 { imm: Imm::Unsigned(_), .. } => true,
        _ => false,
    }
}

/// MOV: a register move, or a move of the immediate (encoded in 16 bits) as a 32-bit
/// immediate.
pub open spec fn spec_translate_mov(instr: &Instruction) -> Seq<X86Instr> {
    let dest = op_tr(instr, 0);
    let class = op_class(instr, 0);
    match instr.operands@[1] {
        Operand::Reg { reg } => spec_make_rr_impl(codes::mov_rr_codes(), class, dest, spec_translate_reg(reg).0, false),
        _ => seq![spec_make_ri(codes::mov_ri_codes(), class, dest, unsigned_imm_of(instr.operands@[1]) as i32)],
    }
}

fn translate_mov(arm_instr: &Instruction, ass: &mut Assembler)
    requires mov_ok(arm_instr),
    ensures final(ass).emits(*old(ass), spec_translate_mov(arm_instr)),
{
    let operands = &arm_instr.operands;
    let (dest, reg_class) = translate_reg(unwrap_reg(operands[0]));
    match operands[1] {
        Operand::Reg { reg } => {
            let (src_translation, _) = translate_reg(reg);
            make_mov_rr(ass, reg_class, dest, src_translation);
        }
        Operand::Imm64 { imm, .. } | Operand::Imm32 { imm, .. } => {
            // The immediate is really encoded in 16 bits, so this cast is ok
            let imm = unwrap_unsigned(imm) as i32;
            let c = codes::mov_ri_codes();
            make_ri(ass, &c, reg_class, dest, imm);
        }
        _ => {}
    }
}

/// The decoded AND instructions that `compile_instr` accepts.
pub open spec fn and_ok(instr: &Instruction) -> bool {
    let dest = op_tr(instr, 0);
    let src1 = op_tr(instr, 1);
    &&& has_reg(instr, 0)
    &&& has_reg(instr, 1)
    &&& instr.operands@.len() >= 3
    &&& op_class(instr, 0).is_gpr()
    &&& match instr.operands@[2] {
        Operand::Reg { reg } => is_classified_reg(reg) && make_rrr_ok(dest, src1, spec_translate_reg(reg).0),
        Operand::Imm64 { imm: Imm::Unsigned(_), .. } | Operand::Imm32 { imm: Imm::Unsigned(_), .. } =>
            !(dest is Zero) && (dest != src1 ==> !(src1 is Zero)),
        _ => false,
    }
}

/// AND: with a register, a three-operand operation; with a (full width) logical
/// immediate, `src1` is moved into `dest` if they differ, the immediate loaded into
/// rax, and `and dest, rax`.
pub open spec fn spec_translate_and(instr: &Instruction) -> Seq<X86Instr> {
    let dest = op_tr(instr, 0);
    let src1 = op_tr(instr, 1);
    let class = op_class(instr, 0);
    match instr.operands@[2] {
        Operand::Reg { reg } => spec_make_rrr(codes::and_rr_codes(), dest, src1, spec_translate_reg(reg).0, class),
        _ => {
            let mov = if dest != src1 { spec_make_rr_impl(codes::mov_rr_codes(), class, dest, src1, false) } else { seq![] };
            mov + seq![x86::with_ri(x86::MOV_R64_IMM64, RAX, unsigned_imm_of(instr.operands@[2]) as i64)]
                + spec_make_rr_impl(codes::and_rr_codes(), class, dest, class.scratch_translation(), true)
        },
    }
}

fn translate_and(arm_instr: &Instruction, ass: &mut Assembler)
    requires and_ok(arm_instr),
    ensures final(ass).emits(*old(ass), spec_translate_and(arm_instr)),
{
    let ghost before = *ass;
    let operands = &arm_instr.operands;
    let (dest, reg_class) = translate_reg(unwrap_reg(operands[0]));
    let (src1, _) = translate_reg(unwrap_reg(operands[1]));
    match operands[2] {
        Operand::Reg { reg } => {
            let (src2, _) = translate_reg(reg);
            let c = codes::and_rr_codes();
            make_rrr(ass, &c, dest, src1, src2, reg_class);
        }
        Operand::Imm64 { imm, .. } | Operand::Imm32 { imm, .. } => {
            // Full width bit patterns can be encoded in logical immediate instruction
            let imm = unwrap_unsigned(imm);
            if dest != src1 {
                make_mov_rr(ass, reg_class, dest, src1);
            }
            ass.add(x86::with_ri(x86::MOV_R64_IMM64, RAX, imm as i64));
            let scratch = reg_class.scratch_translation();
            let c = codes::and_rr_codes();
            make_rr(ass, &c, reg_class, dest, scratch);
            assert(ass.instrs@ =~= before.instrs@ + spec_translate_and(arm_instr));
        }
        _ => {}
    }
}

/// The shift amount of a MOVK immediate (none, or `LSL #amount`).
pub open spec fn movk_shift_of(shift: Option<Shift>) -> u32 {
    match shift {
        Some(Shift::LSL(a)) => a,
        _ => 0,
    }
}

/// The decoded MOVK instructions that `compile_instr` accepts.
pub open spec fn movk_ok(instr: &Instruction) -> bool {
    &&& has_reg(instr, 0)
    &&& instr.operands@.len() >= 2
    &&& op_class(instr, 0).is_gpr()
    &&& !(op_tr(instr, 0) is Zero)
    &&& match instr.operands@[1] {
        Operand::Imm64 { imm: Imm::Unsigned(_), shift } | Operand::Imm32 { imm: Imm::Unsigned(_), shift } =>
            (shift is None || shift matches Some(Shift::LSL(_))) && movk_shift_of(shift) < 64,
        _ => false,
    }
}

/// The value and the keep-mask of MOVK: the immediate moved to its position, and the
/// mask that clears the 16 bits it replaces.
pub open spec fn spec_movk_parts(imm: u64, shift: u32) -> (u64, u64) {
    (imm << shift, !(0xFFFFu64 << shift))
}

/// Computes the value and keep-mask of MOVK.
pub fn movk_parts(imm: u64, shift: u32) -> (r: (u64, u64))
    requires shift < 64,
    ensures r == spec_movk_parts(imm, shift),
{
    (imm << shift, !(0xFFFFu64 << shift))
}

/// MOVK: `dest &= mask; dest |= imm << shift`, through rax for shifts above 24 (whose
/// mask and value do not fit a 32-bit immediate), else with 32-bit immediates.
pub open spec fn spec_translate_movk(instr: &Instruction) -> Seq<X86Instr> {
    let dest = op_tr(instr, 0);
    let class = op_class(instr, 0);
    let o = instr.operands@[1];
    let shift = movk_shift_of(if o is Imm64 { o->Imm64_shift } else { o->Imm32_shift });
    let (imm, mask) = spec_movk_parts(unsigned_imm_of(o), shift);
    if shift > 24 {
        seq![
            x86::with_ri(x86::MOV_R64_IMM64, RAX, mask as i64),
            dest.spec_set_operand(x86::with_rr(x86::AND_RM64_R64, REG_NONE, RAX), 0),
            x86::with_ri(x86::MOV_R64_IMM64, RAX, imm as i64),
            dest.spec_set_operand(x86::with_rr(x86::OR_RM64_R64, REG_NONE, RAX), 0),
        ]
    } else {
        seq![
            spec_make_ri(codes::and_ri_codes(), class, dest, mask as i32),
            spec_make_ri(codes::or_ri_codes(), class, dest, imm as i32),
        ]
    }
}

fn translate_movk(arm_instr: &Instruction, ass: &mut Assembler)
    requires movk_ok(arm_instr),
    ensures final(ass).emits(*old(ass), spec_translate_movk(arm_instr)),
{
    let ghost before = *ass;
    let operands = &arm_instr.operands;
    let (dest, reg_class) = translate_reg(unwrap_reg(operands[0]));
    let (imm, shift) = unwrap_imm(operands[1]);
    let imm = unwrap_unsigned(imm);
    let shift: u32 = match shift {
        Some(Shift::LSL(shift)) => shift,
        _ => 0,
    };
    let (imm, mask) = movk_parts(imm, shift);
    if shift > 24 {
        ass.add(x86::with_ri(x86::MOV_R64_IMM64, RAX, mask as i64));
        let mut and = x86::with_rr(x86::AND_RM64_R64, REG_NONE, RAX);
        dest.set_operand(&mut and, 0);
        ass.add(and);
        ass.add(x86::with_ri(x86::MOV_R64_IMM64, RAX, imm as i64));
        let mut or = x86::with_rr(x86::OR_RM64_R64, REG_NONE, RAX);
        dest.set_operand(&mut or, 0);
        ass.add(or);
    } else {
        let c = codes::and_ri_codes();
        make_ri(ass, &c, reg_class, dest, mask as i32);
        let c = codes::or_ri_codes();
        make_ri(ass, &c, reg_class, dest, imm as i32);
    }
    assert(ass.instrs@ =~= before.instrs@ + spec_translate_movk(arm_instr));
}

/// The MOVK masks, applied as 64-bit values, replace bits `shift .. shift + 16` of a
/// value by the 16-bit immediate and keep all other bits. The translation applies them
/// so (through rax) only for shifts above 24; for shifts up to 24 it emits them as
/// 32-bit immediates, which x86_64 sign-extends to 64 bits, and this lemma does not
/// describe that code.
pub proof fn lemma_movk_replaces_field(x: u64, imm: u64, shift: u32)
    requires imm < 0x10000, shift <= 48,
    ensures
        ({
            let (v, mask) = spec_movk_parts(imm, shift);
            let y = (x & mask) | v;
            &&& (y >> shift) & 0xFFFF == imm
            &&& y & mask == x & mask
        }),
{
    let (v, mask) = spec_movk_parts(imm, shift);
    assert(((((x & mask) | v) >> shift) & 0xFFFF == imm) && (((x & mask) | v) & mask == x & mask)) by (bit_vector)
        requires imm < 0x10000, shift <= 48, v == imm << shift, mask == !(0xFFFFu64 << shift);
}

/// The decoded ADRP instructions that `compile_instr` accepts.
pub open spec fn adrp_ok(instr: &Instruction) -> bool {
    &&& has_reg(instr, 0)
    &&& instr.operands@.len() >= 2
    &&& op_class(instr, 0) == RegClass::GPR64
    &&& !(op_tr(instr, 0) is Zero)
    &&& instr.operands@[1] matches Operand::Label(Imm::Unsigned(_))
}

/// ADRP: the page address is a 64-bit immediate.
pub open spec fn spec_translate_adrp(instr: &Instruction) -> Seq<X86Instr> {
    spec_make_mov_ri64(op_tr(instr, 0), (instr.operands@[1]->Label_0->Unsigned_0) as i64)
}

fn translate_adrp(arm_instr: &Instruction, ass: &mut Assembler)
    requires adrp_ok(arm_instr),
    ensures final(ass).emits(*old(ass), spec_translate_adrp(arm_instr)),
{
    let operands = &arm_instr.operands;
    let dest = unwrap_reg(operands[0]);
    let (dest_translation, _) = translate_reg(dest);
    let addr = label_target(operands[1]);
    make_mov_ri64(ass, dest_translation, addr as i64);
}

/// The extension applied by SXTW/SXTH/SXTB/UXTH/UXTB.
pub open spec fn extend_shift(op: Op) -> Shift {
    if op == Op::SXTW { Shift::SXTW(0) }
    else if op == Op::SXTH { Shift::SXTH(0) }
    else if op == Op::SXTB { Shift::SXTB(0) }
    else if op == Op::UXTH { Shift::UXTH(0) }
    else { Shift::UXTB(0) }
}

/// Whether `op` is one of the extension mnemonics.
pub open spec fn is_extend_op(op: Op) -> bool {
    op == Op::SXTW || op == Op::SXTH || op == Op::SXTB || op == Op::UXTH || op == Op::UXTB
}

/// The decoded extension instructions that `compile_instr` accepts.
pub open spec fn extend_ok(instr: &Instruction) -> bool {
    &&& has_reg(instr, 0)
    &&& has_reg(instr, 1)
    &&& op_class(instr, 0).is_gpr()
    &&& !(op_tr(instr, 0) is Zero)
    &&& load_shifted_ok(op_tr(instr, 1), op_class(instr, 1), extend_shift(instr.op))
}

/// Extensions: an extending load into `dest`, or into the scratch register and then
/// moved into an emulated `dest`.
pub open spec fn spec_translate_extend(instr: &Instruction) -> Seq<X86Instr> {
    let dest = op_tr(instr, 0);
    let dc = op_class(instr, 0);
    let shift = extend_shift(instr.op);
    match dest {
        RegTranslation::Direct(d) => spec_load_shifted(d, dc, op_tr(instr, 1), op_class(instr, 1), shift),
        _ => spec_load_shifted(dc.scratch(), dc, op_tr(instr, 1), op_class(instr, 1), shift)
            + spec_make_rr_impl(codes::mov_rr_codes(), dc, dest, dc.scratch_translation(), false),
    }
}

fn translate_extend(arm_instr: &Instruction, ass: &mut Assembler)
    requires is_extend_op(arm_instr.op), extend_ok(arm_instr),
    ensures final(ass).emits(*old(ass), spec_translate_extend(arm_instr)),
{
    let ghost before = *ass;
    let operands = &arm_instr.operands;
    let (dest, dest_class) = translate_reg(unwrap_reg(operands[0]));
    let (src, src_class) = translate_reg(unwrap_reg(operands[1]));
    let shift = match arm_instr.op {
        Op::SXTW => Shift::SXTW(0),
        Op::SXTH => Shift::SXTH(0),
        Op::SXTB => Shift::SXTB(0),
        Op::UXTH => Shift::UXTH(0),
        _ => Shift::UXTB(0),
    };
    match dest {
        RegTranslation::Direct(d) => {
            load_shifted(ass, d, dest_class, src, src_class, shift);
        }
        _ => {
            load_shifted(ass, dest_class.scratch(), dest_class, src, src_class, shift);
            make_mov_rr(ass, dest_class, dest, dest_class.scratch_translation());
            assert(ass.instrs@ =~= before.instrs@ + spec_translate_extend(arm_instr));
        }
    }
}


// ---------------------------------------------------------------------------
// Dispatch
// ---------------------------------------------------------------------------

/// The decoded instructions that `compile_instr` accepts (an instruction whose operands
/// do not have the shape its mnemonic implies is a decoding inconsistency).
pub open spec fn arith_ok(instr: &Instruction) -> bool {
    match instr.op {
        Op::CMP | Op::CMN => compare_ok(instr),
        Op::MOV => mov_ok(instr),
        Op::AND => and_ok(instr),
        Op::MOVK => movk_ok(instr),
        Op::ADRP => adrp_ok(instr),
        Op::ADD | Op::SUB => add_sub_ok(instr),
        Op::ASR | Op::LSR | Op::LSL => shift_ok(instr),
        Op::SXTW | Op::SXTH | Op::SXTB | Op::UXTH | Op::UXTB => extend_ok(instr),
        Op::UDIV | Op::SDIV | Op::MADD => rrr_ok(instr),
        Op::CSEL => csel_ok(instr),
        Op::CCMP => cond_compare_ok(instr),
        Op::CSET => cset_ok(instr),
        _ => true,
    }
}

/// Whether `compile_instr` translates an instruction, and what it emits; `l` is the
/// next free label id.
pub open spec fn spec_arith(instr: &Instruction, l: u64) -> (bool, Seq<X86Instr>) {
    match instr.op {
        Op::NOP => (true, seq![x86::with0(x86::NOPD)]),
        Op::CMP | Op::CMN => (true, spec_translate_compare(instr)),
        Op::MOV => (true, spec_translate_mov(instr)),
        Op::AND => (true, spec_translate_and(instr)),
        Op::MOVK => (true, spec_translate_movk(instr)),
        Op::ADRP => (true, spec_translate_adrp(instr)),
        Op::ADD | Op::SUB => spec_translate_add_sub(instr),
        Op::ASR | Op::LSR | Op::LSL => (true, spec_translate_shift(instr)),
        Op::SXTW | Op::SXTH | Op::SXTB | Op::UXTH | Op::UXTB => (true, spec_translate_extend(instr)),
        Op::UDIV => (true, spec_translate_div(instr, false)),
        Op::SDIV => (true, spec_translate_div(instr, true)),
        Op::MADD => (true, spec_translate_madd(instr)),
        Op::CSEL => (true, spec_translate_csel(instr)),
        Op::CCMP => (true, spec_translate_cond_compare(instr, l)),
        Op::CSET => (true, spec_make_setcc(instr.operands@[1]->Cond_0, op_tr(instr, 0))),
        _ => (false, seq![]),
    }
}

/// Translates an arithmetic, logic, move or conditional instruction; returns whether
/// the instruction was one of these. Only CCMP places labels (two of them).
pub fn compile_instr(arm_instr: &Instruction, ass: &mut Assembler) -> (r: bool)
    requires
        arith_ok(arm_instr),
        old(ass).next_label + 2 <= u64::MAX,
    ensures
        r == spec_arith(arm_instr, old(ass).next_label).0,
        final(ass).instrs@ == old(ass).instrs@ + spec_arith(arm_instr, old(ass).next_label).1,
        arm_instr.op == Op::CCMP ==> final(ass).labels@ == old(ass).labels@
            + spec_cond_compare_labels(arm_instr, old(ass).next_label, old(ass).instrs@.len()),
        arm_instr.op == Op::CCMP ==> final(ass).next_label == old(ass).next_label + 2,
        arm_instr.op != Op::CCMP ==> final(ass).labels@ == old(ass).labels@,
        arm_instr.op != Op::CCMP ==> final(ass).next_label == old(ass).next_label,
{
    match arm_instr.op {
        Op::NOP => ass.add(x86::with0(x86::NOPD)),
        Op::CMP | Op::CMN => translate_compare(arm_instr, ass),
        Op::MOV => translate_mov(arm_instr, ass),
        Op::AND => translate_and(arm_instr, ass),
        Op::MOVK => translate_movk(arm_instr, ass),
        Op::ADRP => translate_adrp(arm_instr, ass),
        Op::ADD | Op::SUB => return translate_add_sub(arm_instr, ass),
        Op::ASR | Op::LSR | Op::LSL => translate_shift(arm_instr, ass),
        Op::SXTW | Op::SXTH | Op::SXTB | Op::UXTH | Op::UXTB => translate_extend(arm_instr, ass),
        Op::UDIV => translate_div(arm_instr, ass, false),
        Op::SDIV => translate_div(arm_instr, ass, true),
        Op::MADD => translate_madd(arm_instr, ass),
        Op::CSEL => translate_csel(arm_instr, ass),
        Op::CCMP => translate_cond_compare(arm_instr, ass),
        Op::CSET => translate_cset(arm_instr, ass),
        _ => {
            assert(ass.instrs@ =~= old(ass).instrs@ + seq![]);
            return false;
        }
    }
    true
}

/// A division `dest = src1 / src2` saves rdx, moves `src1` into the scratch register
/// (rax or eax), divides by `src2` with a divide of the destination's width, moves the
/// quotient from the scratch register to `dest` and restores rdx (an operand "holds"
/// a register where putting the register there again changes nothing). UDIV divides with the
/// unsigned `div` after clearing edx (`xor edx, edx`), so that both operands are read as
/// unsigned numbers; SDIV with the signed `idiv` after `cdq`. Neither uses the other's
/// divide.
pub proof fn lemma_division_signedness(instr: &Instruction, l: u64)
    requires
        arith_ok(instr),
        instr.op == Op::UDIV || instr.op == Op::SDIV,
    ensures
        ({
            let t = spec_arith(instr, l).1;
            let class = op_class(instr, 0);
            let narrow = class == RegClass::GPR32;
            &&& spec_arith(instr, l).0
            &&& t.len() == 6
            &&& t[0] == x86::with_r(x86::PUSH_R64, RDX)
            &&& t[1].op0 == OpKind::Register(class.scratch())
            &&& op_tr(instr, 1).spec_set_operand(t[1], 1) == t[1]
            &&& op_tr(instr, 2).spec_set_operand(t[3], 0) == t[3]
            &&& op_tr(instr, 0).spec_set_operand(t[4], 0) == t[4]
            &&& t[4].op1 == OpKind::Register(class.scratch())
            &&& t[5] == x86::with_r(x86::POP_R64, RDX)
            &&& instr.op == Op::UDIV ==> {
                &&& t[2] == x86::with_rr(x86::XOR_R32_RM32, EDX, EDX)
                &&& t[3].code == (if narrow { x86::DIV_RM32 } else { x86::DIV_RM64 })
            }
            &&& instr.op == Op::SDIV ==> {
                &&& t[2] == x86::with0(x86::CDQ)
                &&& t[3].code == (if narrow { x86::IDIV_RM32 } else { x86::IDIV_RM64 })
            }
            &&& forall|k: int| 0 <= k < t.len() ==> #[trigger] t[k].code != (if instr.op == Op::UDIV {
                if narrow { x86::IDIV_RM32 } else { x86::IDIV_RM64 }
            } else {
                if narrow { x86::DIV_RM32 } else { x86::DIV_RM64 }
            })
        }),
{
    let t = spec_arith(instr, l).1;
    assert(t.len() == 6);
    assert forall|k: int| 0 <= k < t.len() implies #[trigger] t[k].code != (if instr.op == Op::UDIV {
        if op_class(instr, 0) == RegClass::GPR32 { x86::IDIV_RM32 } else { x86::IDIV_RM64 }
    } else {
        if op_class(instr, 0) == RegClass::GPR32 { x86::DIV_RM32 } else { x86::DIV_RM64 }
    }) by {
        assert(k == 0 || k == 1 || k == 2 || k == 3 || k == 4 || k == 5);
    }
}

} // verus!
