//! Which decoded instructions the translator accepts: the operand shapes its
//! translations are written for. A decoded instruction outside them is a decoding
//! inconsistency, on which translation stops.
use vstd::prelude::*;
use crate::arm::{Imm, Instruction, Op, Operand, Shift};
use crate::register::{
    RegClass, RegTranslation, translate_reg, spec_translate_reg, has_reg, op_tr, op_class, is_classified_reg,
};
use crate::arith::{
    self, make_rrr_ok, load_shifted_ok, add_sub_ok, shift_ok, compare_ok, rrr_ok, csel_ok, cond_compare_ok,
    cset_ok, mov_ok, and_ok, movk_ok, adrp_ok, extend_ok,
};
use crate::load_store::{self, GenKind, LSWidth, addr_mode_ok, gen_ok, pair_ok, single_ok};
use crate::compiler::instr_ok;
use crate::branch::{rewritable, spec_b_cond};

verus! {

/// Whether the translator classifies `reg`.
pub fn is_classified(reg: u32) -> (r: bool)
    ensures
        r == is_classified_reg(reg),
{
    (crate::arm::W0 <= reg && reg <= crate::arm::SP) || (crate::arm::B0 <= reg && reg <= crate::arm::Q31)
}

/// Where the register of operand `i` lives and its class, when operand `i` is a
/// classified register.
pub fn operand_reg(instr: &Instruction, i: usize) -> (r: Option<(RegTranslation, RegClass)>)
    ensures
        r is Some <==> has_reg(instr, i as int),
        r matches Some(p) ==> p.0 == op_tr(instr, i as int) && p.1 == op_class(instr, i as int),
{
    if i >= instr.operands.len() {
        return None;
    }
    match instr.operands[i] {
        Operand::Reg { reg } => {
            if is_classified(reg) {
                Some(translate_reg(reg))
            } else {
                None
            }
        },
        _ => None,
    }
}

fn is_zero(t: RegTranslation) -> (r: bool)
    ensures
        r == (t is Zero),
{
    match t {
        RegTranslation::Zero(_) => true,
        _ => false,
    }
}

fn is_gpr_class(c: RegClass) -> (r: bool)
    ensures
        r == c.is_gpr(),
{
    c == RegClass::GPR64 || c == RegClass::GPR32
}

fn rrr_allowed(dest: RegTranslation, src1: RegTranslation, src2: RegTranslation) -> (r: bool)
    ensures
        r == make_rrr_ok(dest, src1, src2),
{
    !is_zero(src2) && (dest != src1 || !is_zero(dest)) && (dest == src1 || !is_zero(src1))
}

fn shifted_allowed(src: RegTranslation, src_class: RegClass, shift: Shift) -> (r: bool)
    ensures
        r == load_shifted_ok(src, src_class, shift),
{
    let loadable = match shift {
        Shift::MSL(_) | Shift::ROR(_) => false,
        _ => true,
    };
    if !loadable {
        return true;
    }
    is_gpr_class(src_class) && !is_zero(src) && match src {
        RegTranslation::Direct(r) => crate::x86::AL <= r && r <= crate::x86::R15,
        _ => true,
    }
}

/// A register operand that is classified and not the zero register.
fn reg_nonzero(reg: u32) -> (r: bool)
    ensures
        r == (is_classified_reg(reg) && !(spec_translate_reg(reg).0 is Zero)),
{
    is_classified(reg) && !is_zero(translate_reg(reg).0)
}

fn is_unsigned_imm(o: Operand) -> (r: bool)
    ensures
        r == (o matches Operand::Imm64 { imm: Imm::Unsigned(_), .. } || o matches Operand::Imm32 { imm: Imm::Unsigned(_), .. }),
{
    match o {
        Operand::Imm64 { imm: Imm::Unsigned(_), .. } | Operand::Imm32 { imm: Imm::Unsigned(_), .. } => true,
        _ => false,
    }
}

fn check_add_sub(instr: &Instruction) -> (r: bool)
    ensures
        r == add_sub_ok(instr),
{
    let (dest, class) = match operand_reg(instr, 0) {
        None => return false,
        Some(p) => p,
    };
    let src1 = match operand_reg(instr, 1) {
        None => return false,
        Some(p) => p.0,
    };
    if instr.operands.len() < 3 || !is_gpr_class(class) {
        return false;
    }
    match instr.operands[2] {
        Operand::ShiftReg { reg, shift } => {
            is_classified(reg) && {
                let (t, c) = translate_reg(reg);
                shifted_allowed(t, c, shift) && (dest != src1 || !is_zero(dest)) && (dest == src1 || !is_zero(src1))
            }
        },
        Operand::Reg { reg } => {
            is_classified(reg) && {
                let t = translate_reg(reg).0;
                let needs = instr.op == Op::SUB || (src1.is_indirect() && t.is_indirect());
                !needs || rrr_allowed(dest, src1, t)
            }
        },
        Operand::Imm64 { imm: Imm::Unsigned(_), shift: None } => instr.op != Op::SUB || !is_zero(src1),
        _ => true,
    }
}

fn check_shift(instr: &Instruction) -> (r: bool)
    ensures
        r == shift_ok(instr),
{
    let (dest, class) = match operand_reg(instr, 0) {
        None => return false,
        Some(p) => p,
    };
    let src1 = match operand_reg(instr, 1) {
        None => return false,
        Some(p) => p.0,
    };
    if instr.operands.len() < 3 || !is_gpr_class(class) {
        return false;
    }
    if !(instr.op == Op::ASR || instr.op == Op::LSL || instr.op == Op::LSR) {
        return false;
    }
    match instr.operands[2] {
        Operand::Reg { reg } => is_classified(reg) && !is_zero(src1),
        Operand::Imm64 { imm: Imm::Unsigned(_), .. } => !is_zero(dest),
        _ => false,
    }
}

/// The destination (operand 0) is a classified integer register other than the
/// zero register, and there are at least `n` operands.
fn int_dest(instr: &Instruction, n: usize) -> (r: bool)
    ensures
        r == (has_reg(instr, 0) && instr.operands@.len() >= n && op_class(instr, 0).is_gpr()
            && !(op_tr(instr, 0) is Zero)),
{
    match operand_reg(instr, 0) {
        None => false,
        Some((t, c)) => instr.operands.len() >= n && is_gpr_class(c) && !is_zero(t),
    }
}

fn check_compare(instr: &Instruction) -> (r: bool)
    ensures
        r == compare_ok(instr),
{
    int_dest(instr, 2) && match instr.operands[1] {
        Operand::Reg { reg } => reg_nonzero(reg),
        o => is_unsigned_imm(o),
    }
}

fn check_mov(instr: &Instruction) -> (r: bool)
    ensures
        r == mov_ok(instr),
{
    int_dest(instr, 2) && match instr.operands[1] {
        Operand::Reg { reg } => reg_nonzero(reg),
        o => is_unsigned_imm(o),
    }
}

fn check_rrr(instr: &Instruction) -> (r: bool)
    ensures
        r == rrr_ok(instr),
{
    let a = operand_reg(instr, 0);
    let b = operand_reg(instr, 1);
    let c = operand_reg(instr, 2);
    match (a, b, c) {
        (Some((ta, ca)), Some((tb, _)), Some((tc, _))) =>
            is_gpr_class(ca) && !is_zero(ta) && !is_zero(tb) && !is_zero(tc),
        _ => false,
    }
}

fn check_csel(instr: &Instruction) -> (r: bool)
    ensures
        r == csel_ok(instr),
{
    check_rrr(instr) && instr.operands.len() >= 4 && match instr.operands[3] {
        Operand::Cond(_) => true,
        _ => false,
    }
}

fn check_cond_compare(instr: &Instruction) -> (r: bool)
    ensures
        r == cond_compare_ok(instr),
{
    int_dest(instr, 4) && match instr.operands[3] {
        Operand::Cond(_) => true,
        _ => false,
    } && is_unsigned_imm(instr.operands[1])
}

fn check_cset(instr: &Instruction) -> (r: bool)
    ensures
        r == cset_ok(instr),
{
    int_dest(instr, 2) && match instr.operands[1] {
        Operand::Cond(_) => true,
        _ => false,
    }
}

fn check_and(instr: &Instruction) -> (r: bool)
    ensures
        r == and_ok(instr),
{
    let (dest, class) = match operand_reg(instr, 0) {
        None => return false,
        Some(p) => p,
    };
    let src1 = match operand_reg(instr, 1) {
        None => return false,
        Some(p) => p.0,
    };
    if instr.operands.len() < 3 || !is_gpr_class(class) {
        return false;
    }
    match instr.operands[2] {
        Operand::Reg { reg } => is_classified(reg) && rrr_allowed(dest, src1, translate_reg(reg).0),
        o => is_unsigned_imm(o) && !is_zero(dest) && (dest == src1 || !is_zero(src1)),
    }
}

fn check_movk(instr: &Instruction) -> (r: bool)
    ensures
        r == movk_ok(instr),
{
    int_dest(instr, 2) && match instr.operands[1] {
        Operand::Imm64 { imm: Imm::Unsigned(_), shift } | Operand::Imm32 { imm: Imm::Unsigned(_), shift } => {
            match shift {
                None => true,
                Some(Shift::LSL(a)) => a < 64,
                _ => false,
            }
        },
        _ => false,
    }
}

fn check_adrp(instr: &Instruction) -> (r: bool)
    ensures
        r == adrp_ok(instr),
{
    match operand_reg(instr, 0) {
        None => false,
        Some((t, c)) => instr.operands.len() >= 2 && c == RegClass::GPR64 && !is_zero(t) && match instr.operands[1] {
            Operand::Label(Imm::Unsigned(_)) => true,
            _ => false,
        },
    }
}

fn check_extend(instr: &Instruction) -> (r: bool)
    ensures
        r == extend_ok(instr),
{
    let (dest, class) = match operand_reg(instr, 0) {
        None => return false,
        Some(p) => p,
    };
    let (src, src_class) = match operand_reg(instr, 1) {
        None => return false,
        Some(p) => p,
    };
    let shift = if instr.op == Op::SXTW {
        Shift::SXTW(0)
    } else if instr.op == Op::SXTH {
        Shift::SXTH(0)
    } else if instr.op == Op::SXTB {
        Shift::SXTB(0)
    } else if instr.op == Op::UXTH {
        Shift::UXTH(0)
    } else {
        Shift::UXTB(0)
    };
    is_gpr_class(class) && !is_zero(dest) && shifted_allowed(src, src_class, shift)
}

/// Whether the arithmetic translation accepts `instr`.
pub fn arith_accepts(instr: &Instruction) -> (r: bool)
    ensures
        r == arith::arith_ok(instr),
{
    match instr.op {
        Op::CMP | Op::CMN => check_compare(instr),
        Op::MOV => check_mov(instr),
        Op::AND => check_and(instr),
        Op::MOVK => check_movk(instr),
        Op::ADRP => check_adrp(instr),
        Op::ADD | Op::SUB => check_add_sub(instr),
        Op::ASR | Op::LSR | Op::LSL => check_shift(instr),
        Op::SXTW | Op::SXTH | Op::SXTB | Op::UXTH | Op::UXTB => check_extend(instr),
        Op::UDIV | Op::SDIV | Op::MADD => check_rrr(instr),
        Op::CSEL => check_csel(instr),
        Op::CCMP => check_cond_compare(instr),
        Op::CSET => check_cset(instr),
        _ => true,
    }
}

// ---------------------------------------------------------------------------
// Loads and stores
// ---------------------------------------------------------------------------

fn check_addr_mode(o: Operand) -> (r: bool)
    ensures
        r == addr_mode_ok(o),
{
    match o {
        Operand::MemOffset { reg, .. } | Operand::MemPreIdx { reg, .. } | Operand::MemPostIdxImm { reg, .. } => reg_nonzero(reg),
        Operand::MemExt { reg0, reg1, shift: None } => reg_nonzero(reg0) && reg_nonzero(reg1),
        _ => false,
    }
}

fn check_gen(kind: GenKind, reg: RegTranslation, reg_class: RegClass, ls_width: LSWidth) -> (r: bool)
    ensures
        r == gen_ok(kind, reg, reg_class, ls_width),
{
    let movable = reg_class != RegClass::FP16 && reg_class != RegClass::FP8;
    let width_ok = match ls_width {
        LSWidth::RegClass => movable,
        _ => true,
    };
    let indirect_ok = match reg {
        RegTranslation::Indirect(_) => is_gpr_class(reg_class),
        _ => true,
    };
    let store_word_ok = match (kind, ls_width) {
        (GenKind::Store, LSWidth::SignedWord) => false,
        _ => true,
    };
    let narrow_store = match (kind, ls_width) {
        (GenKind::Store, LSWidth::Half(_)) | (GenKind::Store, LSWidth::Byte(_)) => true,
        _ => false,
    };
    let narrow_ok = !narrow_store || match reg {
        RegTranslation::Direct(r) => crate::x86::AL <= r && r <= crate::x86::R15,
        _ => true,
    };
    width_ok && indirect_ok && store_word_ok && narrow_ok
}

fn check_pair(instr: &Instruction, kind: GenKind) -> (r: bool)
    ensures
        r == pair_ok(instr, kind),
{
    match (operand_reg(instr, 0), operand_reg(instr, 1)) {
        (Some((t0, c0)), Some((t1, _))) => instr.operands.len() >= 3 && check_addr_mode(instr.operands[2])
            && check_gen(kind, t0, c0, LSWidth::RegClass) && check_gen(kind, t1, c0, LSWidth::RegClass),
        _ => false,
    }
}

fn check_single(instr: &Instruction, kind: GenKind, ls_width: LSWidth) -> (r: bool)
    ensures
        r == single_ok(instr, kind, ls_width),
{
    match operand_reg(instr, 0) {
        Some((t, c)) => instr.operands.len() >= 2 && check_addr_mode(instr.operands[1]) && check_gen(kind, t, c, ls_width),
        None => false,
    }
}

/// Whether the load/store translation accepts `instr`.
pub fn load_store_accepts(instr: &Instruction) -> (r: bool)
    ensures
        r == load_store::load_store_ok(instr),
{
    match instr.op {
        Op::STP => check_pair(instr, GenKind::Store),
        Op::LDP => check_pair(instr, GenKind::Load),
        Op::STR | Op::STUR => check_single(instr, GenKind::Store, LSWidth::RegClass),
        Op::LDR | Op::LDUR => check_single(instr, GenKind::Load, LSWidth::RegClass),
        Op::LDRB | Op::LDURB => check_single(instr, GenKind::Load, LSWidth::Byte(false)),
        Op::LDRSB | Op::LDURSB => check_single(instr, GenKind::Load, LSWidth::Byte(true)),
        Op::LDRH | Op::LDURH => check_single(instr, GenKind::Load, LSWidth::Half(false)),
        Op::LDRSH | Op::LDURSH => check_single(instr, GenKind::Load, LSWidth::Half(true)),
        Op::LDRSW | Op::LDURSW => check_single(instr, GenKind::Load, LSWidth::SignedWord),
        Op::STRB | Op::STURB => check_single(instr, GenKind::Store, LSWidth::Byte(false)),
        Op::STRH | Op::STURH => check_single(instr, GenKind::Store, LSWidth::Half(false)),
        _ => true,
    }
}

/// Whether the translator accepts the decoded instruction `instr` (`None`:
/// undecodable, which it always accepts).
pub fn translatable(instr: &Option<Instruction>) -> (r: bool)
    ensures
        r == instr_ok(*instr),
{
    match instr {
        None => true,
        Some(i) => load_store_accepts(i) && arith_accepts(i),
    }
}

/// Whether `rewrite_branch` can read the target of `instr`: a direct branch
/// (`B.cond`, `B`, `BL`, `CBZ`, `CBNZ`, `TBZ`, `TBNZ`) with its label operand.
pub fn is_rewritable(instr: &Instruction) -> (r: bool)
    ensures
        r == rewritable(instr),
{
    let i: usize = match instr.op {
        Op::B_AL | Op::B_CC | Op::B_CS | Op::B_EQ | Op::B_GE | Op::B_GT | Op::B_HI | Op::B_LE | Op::B_LS
        | Op::B_LT | Op::B_MI | Op::B_NE | Op::B_NV | Op::B_PL | Op::B_VC | Op::B_VS | Op::B | Op::BL => 0,
        Op::CBZ | Op::CBNZ => 1,
        Op::TBZ | Op::TBNZ => 2,
        _ => {
            assert(spec_b_cond(instr.op) is None);
            return false;
        },
    };
    i < instr.operands.len() && match instr.operands[i] {
        Operand::Label(Imm::Unsigned(_)) => true,
        _ => false,
    }
}

} // verus!
