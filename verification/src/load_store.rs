//! Translation of AArch64 loads and stores (single registers and pairs) with offset,
//! pre-index, post-index and register-offset addressing.
use vstd::prelude::*;
use crate::arm::{Imm, Instruction, Op, Operand, unwrap_reg};
use crate::x86::{self, X86Instr, MemOperand, Assembler, RAX, R15, REG_NONE};
use crate::register::{NativeRegClass, RegClass, RegTranslation, translate_reg, spec_translate_reg,
    has_reg, op_tr, op_class, is_any_gpr, is_classified_reg};
use crate::instr_utils::{get_alt_reg, spec_get_alt_reg, load_indirect, spec_load_indirect};

verus! {

/// The value of an immediate offset as a 32-bit signed number (offsets are at most 12
/// bits wide, so nothing is lost).
#[verifier::allow_in_spec]
pub fn any_offset_sign(imm: Imm) -> i32
    returns (match imm {
        Imm::Signed(v) => v as i32,
        Imm::Unsigned(v) => v as i32,
    }),
{
    match imm {
        Imm::Signed(v) => v as i32,
        Imm::Unsigned(v) => v as i32,
    }
}

/// The width of the memory access.
#[derive(Clone, Copy, PartialEq, Eq, Structural, Debug)]
pub enum LSWidth {
    /// The width of the register.
    RegClass,
    /// A 32-bit word, sign-extended to 64 bits.
    SignedWord,
    /// 16 bits, sign-extended when `true`.
    Half(bool),
    /// 8 bits, sign-extended when `true`.
    Byte(bool),
}

/// How the address of a load or store is formed and maintained.
#[derive(Clone, Copy, PartialEq, Eq, Structural, Debug)]
pub struct AddrModeInfo {
    /// The x86_64 register that holds the base address.
    pub base_reg: u32,
    /// Where the AArch64 base register lives.
    pub base_reg_translation: RegTranslation,
    pub offset: i32,
    /// Added to the base after the access.
    pub post_index_offset: Option<i32>,
    /// Whether the updated base goes back to an emulated base register.
    pub write_back_base_reg: bool,
    /// Whether `base_reg` was borrowed and must be restored from the stack.
    pub pop_base_reg: bool,
}

impl AddrModeInfo {
    /// `[base + offset + extra_offset]`
    #[verifier::allow_in_spec]
    pub fn memory_operand(&self, extra_offset: i64) -> MemOperand
        requires -16 <= extra_offset <= 16,
        returns x86::mem_base_displ(self.base_reg, (self.offset as i64 + extra_offset) as u64),
    {
        x86::mem_base_displ(self.base_reg, (self.offset as i64 + extra_offset) as u64)
    }
}

/// The register and immediate of an address operand, and its register offset.
pub open spec fn addr_parts(mem_operand: Operand) -> (u32, Imm, Option<u32>) {
    match mem_operand {
        Operand::MemOffset { reg, offset } => (reg, offset, None),
        Operand::MemPreIdx { reg, imm } => (reg, imm, None),
        Operand::MemPostIdxImm { reg, imm } => (reg, imm, None),
        Operand::MemExt { reg0, reg1, .. } => (reg0, Imm::Unsigned(0), Some(reg1)),
        _ => (0, Imm::Unsigned(0), None),
    }
}

/// The address operands that `process_addr_mode` accepts.
pub open spec fn addr_mode_ok(mem_operand: Operand) -> bool {
    let (base, _, reg_offset) = addr_parts(mem_operand);
    &&& (mem_operand is MemOffset || mem_operand is MemPreIdx || mem_operand is MemPostIdxImm
        || mem_operand matches Operand::MemExt { shift: None, .. })
    &&& is_classified_reg(base)
    &&& !(spec_translate_reg(base).0 is Zero)
    &&& reg_offset matches Some(r) ==> is_classified_reg(r) && !(spec_translate_reg(r).0 is Zero)
}

/// The base register and the instructions that prepare it.
pub open spec fn spec_addr_base(
    mem_operand: Operand,
    alternate_indirect: bool,
    alt_blockers: Seq<RegTranslation>,
) -> (u32, bool, Seq<X86Instr>) {
    let (base, _, reg_offset) = addr_parts(mem_operand);
    let alt = spec_get_alt_reg(alt_blockers);
    match spec_translate_reg(base).0 {
        RegTranslation::Direct(reg) => {
            if reg_offset is Some {
                if alternate_indirect {
                    (alt, true, seq![x86::with_r(x86::PUSH_R64, alt), x86::with_rr(x86::MOV_R64_RM64, alt, reg)])
                } else {
                    (RAX, false, seq![x86::with_rr(x86::MOV_R64_RM64, RAX, reg)])
                }
            } else {
                (reg, false, seq![])
            }
        },
        RegTranslation::Indirect(off) => {
            if alternate_indirect {
                (alt, true, seq![
                    x86::with_r(x86::PUSH_R64, alt),
                    x86::with_rm(x86::MOV_R64_RM64, alt, x86::mem_base_displ(R15, off as u64)),
                ])
            } else {
                (RAX, false, seq![spec_load_indirect(RegClass::GPR64, off)])
            }
        },
        _ => (0, false, seq![]),
    }
}

/// What `process_addr_mode` emits and returns.
#[verifier::opaque]
pub open spec fn spec_process_addr_mode(
    mem_operand: Operand,
    alternate_indirect: bool,
    alt_blockers: Seq<RegTranslation>,
) -> (AddrModeInfo, Seq<X86Instr>) {
    let (base, imm, reg_offset) = addr_parts(mem_operand);
    let imm = any_offset_sign(imm);
    let (new_base, pop, prep) = spec_addr_base(mem_operand, alternate_indirect, alt_blockers);
    let add_offset = match reg_offset {
        Some(r) => seq![spec_translate_reg(r).0.spec_set_operand(x86::with_rr(x86::ADD_R64_RM64, new_base, REG_NONE), 1)],
        None => seq![],
    };
    let info = AddrModeInfo {
        base_reg: new_base,
        base_reg_translation: spec_translate_reg(base).0,
        offset: if mem_operand is MemOffset { imm } else { 0 },
        post_index_offset: if mem_operand is MemPostIdxImm { Some(imm) } else { None },
        write_back_base_reg: mem_operand is MemPreIdx || mem_operand is MemPostIdxImm,
        pop_base_reg: pop,
    };
    let pre = if mem_operand is MemPreIdx { seq![x86::with_ri(x86::ADD_RM64_IMM32, new_base, imm as i64)] } else { seq![] };
    (info, prep + add_offset + pre)
}

/// Forms the address of a load or store: the base register (copied into rax, or into a
/// borrowed register when `alternate_indirect`, if it is emulated or a register offset
/// is added), the register offset, and a pre-index update.
fn process_addr_mode(
    ass: &mut Assembler,
    mem_operand: Operand,
    alternate_indirect: bool,
    alt_blockers: &[RegTranslation],
) -> (r: AddrModeInfo)
    requires addr_mode_ok(mem_operand), alt_blockers@.len() <= 3,
    ensures
        r == spec_process_addr_mode(mem_operand, alternate_indirect, alt_blockers@).0,
        final(ass).emits(*old(ass), spec_process_addr_mode(mem_operand, alternate_indirect, alt_blockers@).1),
{
    let ghost before = *ass;
    proof { reveal(spec_process_addr_mode); }
    let mut reg_offset: Option<u32> = None;
    let (base_reg, imm) = match mem_operand {
        Operand::MemOffset { reg, offset } => (reg, offset),
        Operand::MemPreIdx { reg, imm } => (reg, imm),
        Operand::MemPostIdxImm { reg, imm } => (reg, imm),
        Operand::MemExt { reg0, reg1, .. } => {
            reg_offset = Some(reg1);
            (reg0, Imm::Unsigned(0))
        }
        _ => (0, Imm::Unsigned(0)),
    };
    let imm = any_offset_sign(imm);
    let (reg_translation, _) = translate_reg(base_reg);

    let mut pop_base_reg = false;
    let new_base_reg = match reg_translation {
        RegTranslation::Direct(reg) => {
            if reg_offset.is_some() {
                if alternate_indirect {
                    let alt_reg = get_alt_reg(alt_blockers);
                    ass.add(x86::with_r(x86::PUSH_R64, alt_reg));
                    pop_base_reg = true;
                    ass.add(x86::with_rr(x86::MOV_R64_RM64, alt_reg, reg));
                    alt_reg
                } else {
                    ass.add(x86::with_rr(x86::MOV_R64_RM64, RAX, reg));
                    RAX
                }
            } else {
                reg
            }
        }
        RegTranslation::Indirect(indirect_offset) => {
            if alternate_indirect {
                // Both the base and the transferred value are emulated: the base goes into
                // a register that is neither the scratch nor one of the transferred ones.
                let alt_reg = get_alt_reg(alt_blockers);
                ass.add(x86::with_r(x86::PUSH_R64, alt_reg));
                pop_base_reg = true;
                ass.add(x86::with_rm(x86::MOV_R64_RM64, alt_reg, x86::mem_base_displ(R15, indirect_offset as u64)));
                alt_reg
            } else {
                load_indirect(ass, RegClass::GPR64, indirect_offset);
                RAX
            }
        }
        RegTranslation::Zero(_) => 0,
    };
    let ghost a1 = ass.instrs@;
    assert(a1 =~= before.instrs@ + spec_addr_base(mem_operand, alternate_indirect, alt_blockers@).2);

    if let Some(reg_offset) = reg_offset {
        let (reg_offset, _) = translate_reg(reg_offset);
        let mut add = x86::with_rr(x86::ADD_R64_RM64, new_base_reg, REG_NONE);
        reg_offset.set_operand(&mut add, 1);
        ass.add(add);
    }

    let mut addr_mode_info = AddrModeInfo {
        base_reg: new_base_reg,
        base_reg_translation: reg_translation,
        write_back_base_reg: false,
        offset: 0,
        post_index_offset: None,
        pop_base_reg,
    };

    match mem_operand {
        Operand::MemOffset { .. } => {
            addr_mode_info.offset = imm;
        }
        Operand::MemPreIdx { .. } => {
            ass.add(x86::with_ri(x86::ADD_RM64_IMM32, new_base_reg, imm as i64));
            addr_mode_info.write_back_base_reg = true;
        }
        Operand::MemPostIdxImm { .. } => {
            addr_mode_info.post_index_offset = Some(imm);
            addr_mode_info.write_back_base_reg = true;
        }
        _ => {}
    }
    assert(ass.instrs@ =~= before.instrs@ + spec_process_addr_mode(mem_operand, alternate_indirect, alt_blockers@).1);
    addr_mode_info
}

/// What `finalize_addr_mode` emits: the post-index update, the write-back of an
/// emulated base register, and the restore of a borrowed register.
#[verifier::opaque]
pub open spec fn spec_finalize_addr_mode(info: AddrModeInfo) -> Seq<X86Instr> {
    let post = match info.post_index_offset {
        Some(off) => seq![x86::with_ri(x86::ADD_RM64_IMM32, info.base_reg, off as i64)],
        None => seq![],
    };
    let wb = match info.base_reg_translation {
        RegTranslation::Indirect(off) => if info.write_back_base_reg {
            seq![x86::with_rm(x86::MOV_RM64_R64, info.base_reg, x86::mem_base_displ(R15, off as u64))]
        } else {
            seq![]
        },
        _ => seq![],
    };
    let pop = if info.pop_base_reg { seq![x86::with_r(x86::POP_R64, info.base_reg)] } else { seq![] };
    post + wb + pop
}

fn finalize_addr_mode(ass: &mut Assembler, addr_mode_info: AddrModeInfo)
    ensures final(ass).emits(*old(ass), spec_finalize_addr_mode(addr_mode_info)),
{
    let ghost before = *ass;
    proof { reveal(spec_finalize_addr_mode); }
    if let Some(offset) = addr_mode_info.post_index_offset {
        ass.add(x86::with_ri(x86::ADD_RM64_IMM32, addr_mode_info.base_reg, offset as i64));
    }
    if let RegTranslation::Indirect(indirect_offset) = addr_mode_info.base_reg_translation {
        if addr_mode_info.write_back_base_reg {
            ass.add(x86::with_rm(x86::MOV_RM64_R64, addr_mode_info.base_reg,
                x86::mem_base_displ(R15, indirect_offset as u64)));
        }
    }
    if addr_mode_info.pop_base_reg {
        ass.add(x86::with_r(x86::POP_R64, addr_mode_info.base_reg));
    }
    assert(ass.instrs@ =~= before.instrs@ + spec_finalize_addr_mode(addr_mode_info));
}

/// Whether the access moves data into memory or out of it.
#[derive(Clone, Copy, PartialEq, Eq, Structural, Debug)]
pub enum GenKind {
    Store,
    Load,
}

/// The register classes that a full-width access can move.
pub open spec fn movable_class(c: RegClass) -> bool {
    c != RegClass::FP16 && c != RegClass::FP8
}

/// The accesses that `make_store`/`make_load` can emit.
pub open spec fn gen_ok(kind: GenKind, reg: RegTranslation, reg_class: RegClass, ls_width: LSWidth) -> bool {
    &&& ls_width is RegClass ==> movable_class(reg_class)
    &&& reg is Indirect ==> reg_class.is_gpr()
    &&& kind == GenKind::Store ==> !(ls_width is SignedWord)
    &&& (kind == GenKind::Store && (ls_width is Half || ls_width is Byte)) ==>
        (reg matches RegTranslation::Direct(r) ==> is_any_gpr(r))
}

/// The store opcode for a width and class.
pub open spec fn store_code(ls_width: LSWidth, reg_class: RegClass) -> u32 {
    match ls_width {
        LSWidth::Half(_) => x86::MOV_RM16_R16,
        LSWidth::Byte(_) => x86::MOV_RM8_R8,
        _ => match reg_class {
            RegClass::GPR64 => x86::MOV_RM64_R64,
            RegClass::GPR32 => x86::MOV_RM32_R32,
            RegClass::FP128 => x86::MOVAPS_XMMM128_XMM,
            RegClass::FP64 => x86::MOVSD_XMMM64_XMM,
            _ => x86::MOVSS_XMMM32_XMM,
        },
    }
}

/// The load opcode for a width and class.
pub open spec fn load_code(ls_width: LSWidth, reg_class: RegClass) -> u32 {
    match ls_width {
        LSWidth::SignedWord => x86::MOVSXD_R64_RM32,
        LSWidth::Half(false) => x86::MOVZX_R32_RM16,
        LSWidth::Half(true) => x86::MOVSX_R32_RM16,
        LSWidth::Byte(false) => x86::MOVZX_R32_RM8,
        LSWidth::Byte(true) => x86::MOVSX_R32_RM8,
        LSWidth::RegClass => match reg_class {
            RegClass::GPR64 => x86::MOV_R64_RM64,
            RegClass::GPR32 => x86::MOV_R32_RM32,
            RegClass::FP128 => x86::MOVAPS_XMM_XMMM128,
            RegClass::FP64 => x86::MOVSD_XMM_XMMM64,
            _ => x86::MOVSS_XMM_XMMM32,
        },
    }
}

/// What a store emits: the value made readable, then `mov [addr], value` in the width.
pub open spec fn spec_make_store(
    src: RegTranslation,
    reg_class: RegClass,
    info: AddrModeInfo,
    extra_offset: i64,
    ls_width: LSWidth,
) -> Seq<X86Instr> {
    let s = match ls_width {
        LSWidth::Half(_) => src.spec_with_native_class(NativeRegClass::GPR16),
        LSWidth::Byte(_) => src.spec_with_native_class(NativeRegClass::GPR8),
        _ => src,
    };
    let mem = x86::mem_base_displ(info.base_reg, (info.offset as i64 + extra_offset) as u64);
    src.spec_pre_read(reg_class) + seq![x86::with_mr(store_code(ls_width, reg_class), mem, s.reg_operand(reg_class))]
}

fn make_store(
    ass: &mut Assembler,
    src: RegTranslation,
    reg_class: RegClass,
    addr_mode_info: &AddrModeInfo,
    extra_offset: i64,
    ls_width: LSWidth,
)
    requires gen_ok(GenKind::Store, src, reg_class, ls_width), -16 <= extra_offset <= 16,
    ensures final(ass).emits(*old(ass), spec_make_store(src, reg_class, *addr_mode_info, extra_offset, ls_width)),
{
    let ghost before = *ass;
    src.pre_read(ass, reg_class);
    let code = match ls_width {
        LSWidth::Half(_) => x86::MOV_RM16_R16,
        LSWidth::Byte(_) => x86::MOV_RM8_R8,
        _ => match reg_class {
            RegClass::GPR64 => x86::MOV_RM64_R64,
            RegClass::GPR32 => x86::MOV_RM32_R32,
            RegClass::FP128 => x86::MOVAPS_XMMM128_XMM,
            RegClass::FP64 => x86::MOVSD_XMMM64_XMM,
            _ => x86::MOVSS_XMMM32_XMM,
        },
    };
    let narrowed = match ls_width {
        LSWidth::Half(_) => src.with_native_class(NativeRegClass::GPR16),
        LSWidth::Byte(_) => src.with_native_class(NativeRegClass::GPR8),
        _ => src,
    };
    let mem = addr_mode_info.memory_operand(extra_offset);
    let mut instr = x86::with_mr(code, mem, REG_NONE);
    narrowed.set_reg_operand(&mut instr, 1, reg_class);
    ass.add(instr);
    assert(ass.instrs@ =~= before.instrs@ + spec_make_store(src, reg_class, *addr_mode_info, extra_offset, ls_width));
}

/// What a load emits: `mov value, [addr]` in the width, then the value stored back to
/// an emulated register.
pub open spec fn spec_make_load(
    dest: RegTranslation,
    reg_class: RegClass,
    info: AddrModeInfo,
    extra_offset: i64,
    ls_width: LSWidth,
) -> Seq<X86Instr> {
    let mem = x86::mem_base_displ(info.base_reg, (info.offset as i64 + extra_offset) as u64);
    seq![x86::with_rm(load_code(ls_width, reg_class), dest.reg_operand(reg_class), mem)]
        + dest.spec_post_write(reg_class)
}

fn make_load(
    ass: &mut Assembler,
    dest_translation: RegTranslation,
    reg_class: RegClass,
    addr_mode_info: &AddrModeInfo,
    extra_offset: i64,
    ls_width: LSWidth,
)
    requires gen_ok(GenKind::Load, dest_translation, reg_class, ls_width), -16 <= extra_offset <= 16,
    ensures final(ass).emits(*old(ass), spec_make_load(dest_translation, reg_class, *addr_mode_info, extra_offset, ls_width)),
{
    let ghost before = *ass;
    let code = match ls_width {
        LSWidth::RegClass => match reg_class {
            RegClass::GPR64 => x86::MOV_R64_RM64,
            RegClass::GPR32 => x86::MOV_R32_RM32,
            RegClass::FP128 => x86::MOVAPS_XMM_XMMM128,
            RegClass::FP64 => x86::MOVSD_XMM_XMMM64,
            _ => x86::MOVSS_XMM_XMMM32,
        },
        LSWidth::SignedWord => x86::MOVSXD_R64_RM32,
        LSWidth::Half(false) => x86::MOVZX_R32_RM16,
        LSWidth::Half(true) => x86::MOVSX_R32_RM16,
        LSWidth::Byte(false) => x86::MOVZX_R32_RM8,
        LSWidth::Byte(true) => x86::MOVSX_R32_RM8,
    };
    let mem = addr_mode_info.memory_operand(extra_offset);
    let mut instr = x86::with_rm(code, REG_NONE, mem);
    dest_translation.set_reg_operand(&mut instr, 0, reg_class);
    ass.add(instr);
    dest_translation.post_write(ass, reg_class);
    assert(ass.instrs@ =~= before.instrs@ + spec_make_load(dest_translation, reg_class, *addr_mode_info, extra_offset, ls_width));
}

/// The access of one register.
#[verifier::opaque]
pub open spec fn spec_gen(
    kind: GenKind,
    reg: RegTranslation,
    reg_class: RegClass,
    info: AddrModeInfo,
    extra_offset: i64,
    ls_width: LSWidth,
) -> Seq<X86Instr> {
    match kind {
        GenKind::Store => spec_make_store(reg, reg_class, info, extra_offset, ls_width),
        GenKind::Load => spec_make_load(reg, reg_class, info, extra_offset, ls_width),
    }
}

fn gen(
    kind: GenKind,
    ass: &mut Assembler,
    reg: RegTranslation,
    reg_class: RegClass,
    addr_mode_info: &AddrModeInfo,
    extra_offset: i64,
    ls_width: LSWidth,
)
    requires gen_ok(kind, reg, reg_class, ls_width), -16 <= extra_offset <= 16,
    ensures final(ass).emits(*old(ass), spec_gen(kind, reg, reg_class, *addr_mode_info, extra_offset, ls_width)),
{
    proof { reveal(spec_gen); }
    match kind {
        GenKind::Store => make_store(ass, reg, reg_class, addr_mode_info, extra_offset, ls_width),
        GenKind::Load => make_load(ass, reg, reg_class, addr_mode_info, extra_offset, ls_width),
    }
}

/// The pair instructions (STP/LDP) that `load_store_pair` accepts.
pub open spec fn pair_ok(instr: &Instruction, kind: GenKind) -> bool {
    &&& has_reg(instr, 0)
    &&& has_reg(instr, 1)
    &&& instr.operands@.len() >= 3
    &&& addr_mode_ok(instr.operands@[2])
    &&& gen_ok(kind, op_tr(instr, 0), op_class(instr, 0), LSWidth::RegClass)
    &&& gen_ok(kind, op_tr(instr, 1), op_class(instr, 0), LSWidth::RegClass)
}

/// What `load_store_pair` emits: the address, the first register at offset 0, the
/// second 4 (32-bit pairs) or 8 bytes further, and the address epilogue.
pub open spec fn spec_load_store_pair(instr: &Instruction, kind: GenKind) -> Seq<X86Instr> {
    let r1 = op_tr(instr, 0);
    let r2 = op_tr(instr, 1);
    let class = op_class(instr, 0);
    let (info, addr) = spec_process_addr_mode(instr.operands@[2], r1.is_indirect() || r2.is_indirect(), seq![r1, r2]);
    let incr: i64 = if class == RegClass::GPR32 { 4 } else { 8 };
    addr + spec_gen(kind, r1, class, info, 0, LSWidth::RegClass)
        + spec_gen(kind, r2, class, info, incr, LSWidth::RegClass)
        + spec_finalize_addr_mode(info)
}

fn load_store_pair(ass: &mut Assembler, arm_instr: &Instruction, kind: GenKind)
    requires pair_ok(arm_instr, kind),
    ensures final(ass).emits(*old(ass), spec_load_store_pair(arm_instr, kind)),
{
    let ghost before = *ass;
    let operands = &arm_instr.operands;
    let reg1 = unwrap_reg(operands[0]);
    let (reg1_translation, reg_class) = translate_reg(reg1);
    let reg2 = unwrap_reg(operands[1]);
    let (reg2_translation, _) = translate_reg(reg2);
    let blockers = [reg1_translation, reg2_translation];
    assert(blockers@ =~= seq![reg1_translation, reg2_translation]);
    let addr_mode_info = process_addr_mode(
        ass,
        operands[2],
        reg1_translation.is_indirect() || reg2_translation.is_indirect(),
        &blockers,
    );
    let ghost a1 = ass.instrs@;
    gen(kind, ass, reg1_translation, reg_class, &addr_mode_info, 0, LSWidth::RegClass);
    let ghost a2 = ass.instrs@;
    let incr: i64 = if reg_class == RegClass::GPR32 { 4 } else { 8 };
    gen(kind, ass, reg2_translation, reg_class, &addr_mode_info, incr, LSWidth::RegClass);
    let ghost a3 = ass.instrs@;
    finalize_addr_mode(ass, addr_mode_info);
    assert(ass.instrs@ =~= before.instrs@ + spec_load_store_pair(arm_instr, kind));
}

/// The single-register loads and stores that `load_store` accepts.
pub open spec fn single_ok(instr: &Instruction, kind: GenKind, ls_width: LSWidth) -> bool {
    &&& has_reg(instr, 0)
    &&& instr.operands@.len() >= 2
    &&& addr_mode_ok(instr.operands@[1])
    &&& gen_ok(kind, op_tr(instr, 0), op_class(instr, 0), ls_width)
}

/// What `load_store` emits: the address, the access, and the address epilogue.
pub open spec fn spec_load_store(instr: &Instruction, kind: GenKind, ls_width: LSWidth) -> Seq<X86Instr> {
    let r = op_tr(instr, 0);
    let class = op_class(instr, 0);
    let (info, addr) = spec_process_addr_mode(instr.operands@[1], r.is_indirect(), seq![r]);
    addr + spec_gen(kind, r, class, info, 0, ls_width) + spec_finalize_addr_mode(info)
}

fn load_store(ass: &mut Assembler, arm_instr: &Instruction, kind: GenKind, ls_width: LSWidth)
    requires single_ok(arm_instr, kind, ls_width),
    ensures final(ass).emits(*old(ass), spec_load_store(arm_instr, kind, ls_width)),
{
    let ghost before = *ass;
    let operands = &arm_instr.operands;
    let reg = unwrap_reg(operands[0]);
    let (reg_translation, reg_class) = translate_reg(reg);
    let blockers = [reg_translation];
    assert(blockers@ =~= seq![reg_translation]);
    let addr_mode_info = process_addr_mode(ass, operands[1], reg_translation.is_indirect(), &blockers);
    let ghost a1 = ass.instrs@;
    gen(kind, ass, reg_translation, reg_class, &addr_mode_info, 0, ls_width);
    let ghost a2 = ass.instrs@;
    finalize_addr_mode(ass, addr_mode_info);
    assert(ass.instrs@ =~= before.instrs@ + spec_load_store(arm_instr, kind, ls_width));
}

/// The access kind and width of a load/store mnemonic.
pub open spec fn ls_kind(op: Op) -> Option<(GenKind, LSWidth)> {
    match op {
        Op::STR | Op::STUR => Some((GenKind::Store, LSWidth::RegClass)),
        Op::LDR | Op::LDUR => Some((GenKind::Load, LSWidth::RegClass)),
        Op::LDRB | Op::LDURB => Some((GenKind::Load, LSWidth::Byte(false))),
        Op::LDRSB | Op::LDURSB => Some((GenKind::Load, LSWidth::Byte(true))),
        Op::LDRH | Op::LDURH => Some((GenKind::Load, LSWidth::Half(false))),
        Op::LDRSH | Op::LDURSH => Some((GenKind::Load, LSWidth::Half(true))),
        Op::LDRSW | Op::LDURSW => Some((GenKind::Load, LSWidth::SignedWord)),
        Op::STRB | Op::STURB => Some((GenKind::Store, LSWidth::Byte(false))),
        Op::STRH | Op::STURH => Some((GenKind::Store, LSWidth::Half(false))),
        _ => None,
    }
}

/// The decoded instructions that `compile_instr` accepts.
pub open spec fn load_store_ok(instr: &Instruction) -> bool {
    match instr.op {
        Op::STP => pair_ok(instr, GenKind::Store),
        Op::LDP => pair_ok(instr, GenKind::Load),
        _ => match ls_kind(instr.op) {
            Some((k, w)) => single_ok(instr, k, w),
            None => true,
        },
    }
}

/// Whether `compile_instr` translates an instruction, and what it emits.
pub open spec fn spec_load_store_instr(instr: &Instruction) -> (bool, Seq<X86Instr>) {
    match instr.op {
        Op::STP => (true, spec_load_store_pair(instr, GenKind::Store)),
        Op::LDP => (true, spec_load_store_pair(instr, GenKind::Load)),
        _ => match ls_kind(instr.op) {
            Some((k, w)) => (true, spec_load_store(instr, k, w)),
            None => (false, seq![]),
        },
    }
}

/// Translates a load or store; returns whether the instruction was one.
pub fn compile_instr(arm_instr: &Instruction, ass: &mut Assembler) -> (r: bool)
    requires load_store_ok(arm_instr),
    ensures
        r == spec_load_store_instr(arm_instr).0,
        final(ass).emits(*old(ass), spec_load_store_instr(arm_instr).1),
{
    match arm_instr.op {
        Op::STP => load_store_pair(ass, arm_instr, GenKind::Store),
        Op::LDP => load_store_pair(ass, arm_instr, GenKind::Load),
        Op::STR | Op::STUR => load_store(ass, arm_instr, GenKind::Store, LSWidth::RegClass),
        Op::LDR | Op::LDUR => load_store(ass, arm_instr, GenKind::Load, LSWidth::RegClass),
        Op::LDRB | Op::LDURB => load_store(ass, arm_instr, GenKind::Load, LSWidth::Byte(false)),
        Op::LDRSB | Op::LDURSB => load_store(ass, arm_instr, GenKind::Load, LSWidth::Byte(true)),
        Op::LDRH | Op::LDURH => load_store(ass, arm_instr, GenKind::Load, LSWidth::Half(false)),
        Op::LDRSH | Op::LDURSH => load_store(ass, arm_instr, GenKind::Load, LSWidth::Half(true)),
        Op::LDRSW | Op::LDURSW => load_store(ass, arm_instr, GenKind::Load, LSWidth::SignedWord),
        Op::STRB | Op::STURB => load_store(ass, arm_instr, GenKind::Store, LSWidth::Byte(false)),
        Op::STRH | Op::STURH => load_store(ass, arm_instr, GenKind::Store, LSWidth::Half(false)),
        _ => {
            assert(ass.instrs@ =~= old(ass).instrs@ + seq![]);
            return false;
        }
    }
    true
}

/// Whether `code` loads a narrow value and widens it: zero-extending (`movzx`) or
/// sign-extending (`movsx`, `movsxd`).
pub open spec fn is_widening_load(code: u32) -> bool {
    code == x86::MOVZX_R32_RM8 || code == x86::MOVZX_R64_RM8 || code == x86::MOVZX_R32_RM16
        || code == x86::MOVZX_R64_RM16 || code == x86::MOVSX_R32_RM8 || code == x86::MOVSX_R64_RM8
        || code == x86::MOVSX_R32_RM16 || code == x86::MOVSX_R64_RM16 || code == x86::MOVSXD_R64_RM32
}

/// `t` reads memory with the widening load `code`, and with no other widening load.
pub open spec fn widens_with(t: Seq<X86Instr>, code: u32) -> bool {
    &&& exists|k: int| 0 <= k < t.len() && (#[trigger] t[k]).code == code && t[k].op1 is Memory
    &&& forall|k: int| 0 <= k < t.len() && is_widening_load((#[trigger] t[k]).code) ==> t[k].code == code
}

/// No instruction of `t` is a widening load.
spec fn no_widening(t: Seq<X86Instr>) -> bool {
    forall|k: int| 0 <= k < t.len() ==> !is_widening_load((#[trigger] t[k]).code)
}

proof fn lemma_address_code_does_not_widen(mem_operand: Operand, alternate_indirect: bool, alt_blockers: Seq<RegTranslation>)
    ensures
        no_widening(spec_process_addr_mode(mem_operand, alternate_indirect, alt_blockers).1),
        no_widening(spec_finalize_addr_mode(spec_process_addr_mode(mem_operand, alternate_indirect, alt_blockers).0)),
{
    reveal(spec_process_addr_mode);
    reveal(spec_finalize_addr_mode);
    let (base, imm, reg_offset) = addr_parts(mem_operand);
    let (new_base, pop, prep) = spec_addr_base(mem_operand, alternate_indirect, alt_blockers);
    assert(no_widening(prep));
    let t = spec_process_addr_mode(mem_operand, alternate_indirect, alt_blockers).1;
    assert forall|k: int| 0 <= k < t.len() implies !is_widening_load((#[trigger] t[k]).code) by {
        if k >= prep.len() {
            match reg_offset {
                Some(r) => {
                    let a = x86::with_rr(x86::ADD_R64_RM64, new_base, REG_NONE);
                    assert(spec_translate_reg(r).0.spec_set_operand(a, 1).code == x86::ADD_R64_RM64);
                },
                None => {},
            }
        }
    }
}

/// The narrow loads widen their value as their mnemonic says: LDRB and LDRH (and their
/// unscaled forms) zero-extend the byte or halfword (`movzx`), LDRSB and LDRSH
/// sign-extend it (`movsx`) and LDRSW sign-extends the word (`movsxd`); no other
/// widening load is emitted.
pub proof fn lemma_narrow_loads_extend_as_named(instr: &Instruction)
    requires
        load_store_ok(instr),
    ensures
        ({
            let t = spec_load_store_instr(instr).1;
            &&& (instr.op == Op::LDRB || instr.op == Op::LDURB) ==> widens_with(t, x86::MOVZX_R32_RM8)
            &&& (instr.op == Op::LDRH || instr.op == Op::LDURH) ==> widens_with(t, x86::MOVZX_R32_RM16)
            &&& (instr.op == Op::LDRSB || instr.op == Op::LDURSB) ==> widens_with(t, x86::MOVSX_R32_RM8)
            &&& (instr.op == Op::LDRSH || instr.op == Op::LDURSH) ==> widens_with(t, x86::MOVSX_R32_RM16)
            &&& (instr.op == Op::LDRSW || instr.op == Op::LDURSW) ==> widens_with(t, x86::MOVSXD_R64_RM32)
        }),
{
    if let Some((kind, w)) = ls_kind(instr.op) {
        if kind == GenKind::Load && w != LSWidth::RegClass {
            reveal(spec_gen);
            let r = op_tr(instr, 0);
            let class = op_class(instr, 0);
            let (info, addr) = spec_process_addr_mode(instr.operands@[1], r.is_indirect(), seq![r]);
            lemma_address_code_does_not_widen(instr.operands@[1], r.is_indirect(), seq![r]);
            let g = spec_gen(kind, r, class, info, 0, w);
            let fin = spec_finalize_addr_mode(info);
            let t = spec_load_store_instr(instr).1;
            assert(t == addr + g + fin);
            let code = load_code(w, class);
            assert(g[0].code == code && g[0].op1 is Memory);
            assert(t[addr.len() as int] == g[0]);
            assert forall|k: int| 0 <= k < t.len() && is_widening_load((#[trigger] t[k]).code) implies t[k].code == code by {
                if k < addr.len() {
                    assert(t[k] == addr[k]);
                } else if k < addr.len() + g.len() {
                    assert(t[k] == g[k - addr.len()]);
                } else {
                    assert(t[k] == fin[k - addr.len() - g.len()]);
                }
            }
        }
    }
}

} // verus!
