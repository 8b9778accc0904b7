//! Building blocks shared by the instruction translators: opcode tables for
//! two-operand integer operations, loads and stores of emulated registers, and the
//! register/register, register/immediate and call sequences.
use vstd::prelude::*;
use crate::register::{RegClass, RegTranslation, is_any_gpr, spec_full_gpr};
use crate::x86::{
    self, EAX, RAX, RCX, RDX, RSI, RDI, R15, X86Instr, OpKind, Assembler, full_register,
};

pub mod codes;

verus! {

/// The opcodes of a two-operand integer operation in its register/memory forms.
#[derive(Clone, Copy, PartialEq, Eq, Structural, Debug)]
pub struct OpRRCodes {
    pub r32_rm32: u32,
    pub rm32_r32: u32,
    pub r64_rm64: u32,
    pub rm64_r64: u32,
}

impl OpRRCodes {
    #[verifier::allow_in_spec]
    pub fn new(r32_rm32: u32, rm32_r32: u32, r64_rm64: u32, rm64_r64: u32) -> Self
        returns (OpRRCodes { r32_rm32, rm32_r32, r64_rm64, rm64_r64 }),
    {
        OpRRCodes { r32_rm32, rm32_r32, r64_rm64, rm64_r64 }
    }
}

/// The opcodes of a two-operand integer operation with a 32-bit immediate.
#[derive(Clone, Copy, PartialEq, Eq, Structural, Debug)]
pub struct OpRICodes {
    pub rm32_imm32: u32,
    pub rm64_imm32: u32,
}

impl OpRICodes {
    #[verifier::allow_in_spec]
    pub fn new(rm32_imm32: u32, rm64_imm32: u32) -> Self
        returns (OpRICodes { rm32_imm32, rm64_imm32 }),
    {
        OpRICodes { rm32_imm32, rm64_imm32 }
    }
}

/// `mov eax/rax, [r15 + offset]`
pub open spec fn spec_load_indirect(reg_class: RegClass, offset: u32) -> X86Instr {
    if reg_class == RegClass::GPR32 {
        x86::with_rm(x86::MOV_R32_RM32, EAX, x86::mem_base_displ(R15, offset as u64))
    } else {
        x86::with_rm(x86::MOV_R64_RM64, RAX, x86::mem_base_displ(R15, offset as u64))
    }
}

/// `mov [r15 + offset], eax/rax`
pub open spec fn spec_store_indirect(reg_class: RegClass, offset: u32) -> X86Instr {
    if reg_class == RegClass::GPR32 {
        x86::with_mr(x86::MOV_RM32_R32, x86::mem_base_displ(R15, offset as u64), EAX)
    } else {
        x86::with_mr(x86::MOV_RM64_R64, x86::mem_base_displ(R15, offset as u64), RAX)
    }
}

/// Emits the load of an emulated integer register into the scratch register.
pub fn load_indirect(ass: &mut Assembler, reg_class: RegClass, indirect_offset: u32)
    requires reg_class.is_gpr(),
    ensures final(ass).emits(*old(ass), seq![spec_load_indirect(reg_class, indirect_offset)]),
{
    let mem = x86::mem_base_displ(R15, indirect_offset as u64);
    match reg_class {
        RegClass::GPR32 => ass.add(x86::with_rm(x86::MOV_R32_RM32, EAX, mem)),
        _ => ass.add(x86::with_rm(x86::MOV_R64_RM64, RAX, mem)),
    }
}

/// Emits the store of the scratch register into an emulated integer register.
pub fn store_indirect(ass: &mut Assembler, reg_class: RegClass, indirect_offset: u32)
    requires reg_class.is_gpr(),
    ensures final(ass).emits(*old(ass), seq![spec_store_indirect(reg_class, indirect_offset)]),
{
    let mem = x86::mem_base_displ(R15, indirect_offset as u64);
    match reg_class {
        RegClass::GPR32 => ass.add(x86::with_mr(x86::MOV_RM32_R32, mem, EAX)),
        _ => ass.add(x86::with_mr(x86::MOV_RM64_R64, mem, RAX)),
    }
}

/// The instructions of `op dest, src` for integer registers. When both are emulated,
/// the operation runs on the scratch register (loaded from `dest` first if
/// `reads_dest`) and the result is stored back.
pub open spec fn spec_make_rr_impl(
    codes: OpRRCodes,
    reg_class: RegClass,
    dest: RegTranslation,
    src: RegTranslation,
    reads_dest: bool,
) -> Seq<X86Instr> {
    let r_rm = if reg_class == RegClass::GPR32 { codes.r32_rm32 } else { codes.r64_rm64 };
    let rm_r = if reg_class == RegClass::GPR32 { codes.rm32_r32 } else { codes.rm64_r64 };
    match (dest, src) {
        (RegTranslation::Indirect(d), RegTranslation::Indirect(_)) => {
            let load = if reads_dest { seq![spec_load_indirect(reg_class, d)] } else { seq![] };
            load + seq![
                src.spec_set_operand(x86::with_r(r_rm, reg_class.scratch()), 1),
                spec_store_indirect(reg_class, d),
            ]
        },
        _ => {
            let code = if src.is_indirect() { r_rm } else { rm_r };
            seq![src.spec_set_operand(dest.spec_set_operand(x86::with_rr(code, x86::REG_NONE, x86::REG_NONE), 0), 1)]
        },
    }
}

/// Emits `op dest, src`. The zero register cannot be an operand here.
fn make_rr_impl(
    ass: &mut Assembler,
    codes: &OpRRCodes,
    reg_class: RegClass,
    dest: RegTranslation,
    src: RegTranslation,
    reads_dest: bool,
)
    requires reg_class.is_gpr(), !(dest is Zero), !(src is Zero),
    ensures final(ass).emits(*old(ass), spec_make_rr_impl(*codes, reg_class, dest, src, reads_dest)),
{
    let (r_rm, rm_r) = match reg_class {
        RegClass::GPR32 => (codes.r32_rm32, codes.rm32_r32),
        _ => (codes.r64_rm64, codes.rm64_r64),
    };
    let ghost before = *ass;
    match (dest, src) {
        (RegTranslation::Indirect(dest_indirect_idx), RegTranslation::Indirect(_)) => {
            if reads_dest {
                load_indirect(ass, reg_class, dest_indirect_idx);
            }
            let ghost mid = ass.instrs@;
            let mut instr = x86::with_r(r_rm, reg_class.scratch());
            src.set_operand(&mut instr, 1);
            ass.add(instr);
            store_indirect(ass, reg_class, dest_indirect_idx);
            assert(ass.instrs@ =~= before.instrs@ + spec_make_rr_impl(*codes, reg_class, dest, src, reads_dest));
        }
        _ => {
            let code = if src.is_indirect() { r_rm } else { rm_r };
            let mut instr = x86::with_rr(code, x86::REG_NONE, x86::REG_NONE);
            dest.set_operand(&mut instr, 0);
            src.set_operand(&mut instr, 1);
            ass.add(instr);
        }
    }
}

/// Emits `op dest, src` for an operation that reads and writes `dest`. Use
/// `make_mov_rr` for moves.
pub fn make_rr(
    ass: &mut Assembler,
    codes: &OpRRCodes,
    reg_class: RegClass,
    dest: RegTranslation,
    src: RegTranslation,
)
    requires reg_class.is_gpr(), !(dest is Zero), !(src is Zero),
    ensures final(ass).emits(*old(ass), spec_make_rr_impl(*codes, reg_class, dest, src, true)),
{
    make_rr_impl(ass, codes, reg_class, dest, src, true)
}

/// Emits `mov dest, src`.
pub fn make_mov_rr(ass: &mut Assembler, reg_class: RegClass, dest: RegTranslation, src: RegTranslation)
    requires reg_class.is_gpr(), !(dest is Zero), !(src is Zero),
    ensures final(ass).emits(*old(ass), spec_make_rr_impl(codes::mov_rr_codes(), reg_class, dest, src, false)),
{
    let c = codes::mov_rr_codes();
    make_rr_impl(ass, &c, reg_class, dest, src, false)
}

/// Emits `cmp src1, src2`. When both are emulated the comparison runs on the scratch
/// register loaded from `src1`; storing it back leaves `src1` unchanged.
pub fn make_compare_rr(ass: &mut Assembler, reg_class: RegClass, src1: RegTranslation, src2: RegTranslation)
    requires reg_class.is_gpr(), !(src1 is Zero), !(src2 is Zero),
    ensures final(ass).emits(*old(ass), spec_make_rr_impl(codes::compare_rr_codes(), reg_class, src1, src2, true)),
{
    let c = codes::compare_rr_codes();
    make_rr_impl(ass, &c, reg_class, src1, src2, true)
}

/// `op reg, imm`
pub open spec fn spec_make_ri(codes: OpRICodes, reg_class: RegClass, reg: RegTranslation, imm: i32) -> X86Instr {
    let code = if reg_class == RegClass::GPR32 { codes.rm32_imm32 } else { codes.rm64_imm32 };
    reg.spec_set_operand(x86::with_ri(code, x86::REG_NONE, imm as i64), 0)
}

/// Emits `op reg, imm` with the register in place (memory for an emulated register).
pub fn make_ri(ass: &mut Assembler, codes: &OpRICodes, reg_class: RegClass, reg: RegTranslation, imm: i32)
    requires reg_class.is_gpr(), !(reg is Zero),
    ensures final(ass).emits(*old(ass), seq![spec_make_ri(*codes, reg_class, reg, imm)]),
{
    let code = match reg_class {
        RegClass::GPR32 => codes.rm32_imm32,
        _ => codes.rm64_imm32,
    };
    let mut instr = x86::with_ri(code, x86::REG_NONE, imm as i64);
    reg.set_operand(&mut instr, 0);
    ass.add(instr);
}

/// The instructions of `mov dest, imm64`: directly into a register, or through the
/// scratch register into an emulated one.
pub open spec fn spec_make_mov_ri64(dest: RegTranslation, imm: i64) -> Seq<X86Instr> {
    match dest {
        RegTranslation::Direct(r) => seq![x86::with_ri(x86::MOV_R64_IMM64, r, imm)],
        _ => seq![x86::with_ri(x86::MOV_R64_IMM64, RAX, imm)]
            + spec_make_rr_impl(codes::mov_rr_codes(), RegClass::GPR64, dest, RegTranslation::Direct(RAX), false),
    }
}

/// Emits `mov dest, imm64` for a 64-bit register.
pub fn make_mov_ri64(ass: &mut Assembler, dest: RegTranslation, imm: i64)
    requires !(dest is Zero),
    ensures final(ass).emits(*old(ass), spec_make_mov_ri64(dest, imm)),
{
    let ghost before = *ass;
    match dest {
        RegTranslation::Direct(r) => ass.add(x86::with_ri(x86::MOV_R64_IMM64, r, imm)),
        _ => {
            ass.add(x86::with_ri(x86::MOV_R64_IMM64, RAX, imm));
            make_mov_rr(ass, RegClass::GPR64, dest, RegTranslation::Direct(RAX));
            assert(ass.instrs@ =~= before.instrs@ + spec_make_mov_ri64(dest, imm));
        }
    }
}

/// `mov rax, target; call rax`
pub open spec fn spec_make_call(target: u64) -> Seq<X86Instr> {
    seq![x86::with_ri(x86::MOV_R64_IMM64, RAX, target as i64), x86::with_r(x86::CALL_RM64, RAX)]
}

/// Emits a call of the native function at `target`.
pub fn make_call(ass: &mut Assembler, target: u64)
    ensures final(ass).emits(*old(ass), spec_make_call(target)),
{
    let ghost before = *ass;
    ass.add(x86::with_ri(x86::MOV_R64_IMM64, RAX, target as i64));
    ass.add(x86::with_r(x86::CALL_RM64, RAX));
    assert(ass.instrs@ =~= before.instrs@ + spec_make_call(target));
}

/// The general purpose registers that can be borrowed as a second scratch register.
pub open spec fn alt_candidates() -> Seq<u32> {
    seq![RCX, RDX, RSI, RDI]
}

/// Whether translation `t` occupies the 64-bit register `c`.
pub open spec fn occupies(t: RegTranslation, c: u32) -> bool {
    t matches RegTranslation::Direct(r) && is_any_gpr(r) && spec_full_gpr(r) == c
}

/// The first of `alt_candidates()` that none of `blockers` occupies.
pub open spec fn spec_get_alt_reg(blockers: Seq<RegTranslation>) -> u32 {
    let free = |c: u32| forall|j: int| 0 <= j < blockers.len() ==> !occupies(blockers[j], c);
    if free(RCX) { RCX } else if free(RDX) { RDX } else if free(RSI) { RSI } else { RDI }
}

fn occupied(blockers: &[RegTranslation], c: u32) -> (r: bool)
    ensures r == exists|j: int| 0 <= j < blockers@.len() && occupies(blockers@[j], c),
{
    let mut j: usize = 0;
    while j < blockers.len()
        invariant
            0 <= j <= blockers@.len(),
            forall|k: int| 0 <= k < j ==> !occupies(#[trigger] blockers@[k], c),
        decreases blockers@.len() - j,
    {
        if let RegTranslation::Direct(r) = blockers[j] {
            if r >= x86::AL && r <= x86::R15 && full_register(r) == c {
                return true;
            }
        }
        j += 1;
    }
    false
}

/// A general purpose register, other than the scratch and context registers, that no
/// translation in `blockers` occupies (with at most three blockers one of the four
/// candidates is always free).
pub fn get_alt_reg(blockers: &[RegTranslation]) -> (r: u32)
    requires blockers@.len() <= 3,
    ensures
        r == spec_get_alt_reg(blockers@),
        alt_candidates().contains(r),
        forall|j: int| 0 <= j < blockers@.len() ==> !occupies(#[trigger] blockers@[j], r),
{
    proof {
        assert(alt_candidates()[0] == RCX && alt_candidates()[1] == RDX);
        assert(alt_candidates()[2] == RSI && alt_candidates()[3] == RDI);
    }
    if !occupied(blockers, RCX) {
        RCX
    } else if !occupied(blockers, RDX) {
        RDX
    } else if !occupied(blockers, RSI) {
        RSI
    } else {
        proof {
            let j0 = choose|j: int| 0 <= j < blockers@.len() && occupies(blockers@[j], RCX);
            let j1 = choose|j: int| 0 <= j < blockers@.len() && occupies(blockers@[j], RDX);
            let j2 = choose|j: int| 0 <= j < blockers@.len() && occupies(blockers@[j], RSI);
            assert forall|j: int| 0 <= j < blockers@.len() implies !occupies(#[trigger] blockers@[j], RDI) by {
                if occupies(blockers@[j], RDI) {
                    assert(j != j0 && j != j1 && j != j2);
                    assert(j0 != j1 && j0 != j2 && j1 != j2);
                }
            }
        }
        RDI
    }
}

} // verus!
