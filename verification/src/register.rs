//! Where each AArch64 register lives during translated execution.
//!
//! Register allocation for the 16 integer x86_64 registers:
//! x0 -> rdi, sp -> rsp, x1 -> rsi, x2 -> rdx, x19 -> rbx, x3 -> rcx, x20 -> r12,
//! x21 -> r13, x4 -> r8, x29 (fp) -> rbp, x22 -> r14, x5 -> r9, x23 -> r10,
//! x30 (lr) -> r11; rax is the emulation scratch and r15 holds the execution context.
//!
//! For the 16 SIMD registers: v0-v7 -> xmm0-xmm7, v16-v22 -> xmm8-xmm14; xmm15 is the
//! emulation scratch.
//!
//! The other AArch64 registers (x6-x18, x24-x28, v8-v15, v23-v31) are emulated: they
//! are stored in the execution context at a fixed offset from r15.
use vstd::prelude::*;
use crate::arm::{
    W0, WZR, WSP, X0, X1, X2, X3, X4, X5, X6, X18, X19, X20, X21, X22, X23, X24, X28, X29, X30,
    XZR, SP, B0, H0, H31, S0, S31, D0, D31, Q0, Q7, Q8, Q15, Q16, Q22, Q23, Q31,
};
use crate::x86::{
    self, REGISTER_COUNT, RAX, EAX, AX, AL, SPL, BL, R15, XMM15, RDI, RSP, RSI, RDX, RBX, RCX,
    R12, R13, R8, RBP, R14, R9, R10, R11, XMM0, X86Instr, OpKind, Assembler,
    is_gpr64, full_register, full_register32,
};
use crate::instr_utils::{load_indirect, store_indirect, spec_load_indirect, spec_store_indirect};

verus! {

/// Byte offset, in the execution context, of the emulated SIMD registers
/// (after 18 eight-byte integer registers).
pub const FP_REGS_OFFSET: u32 = 144;
/// Byte offset, in the execution context, of the word that passes a value to a callback.
pub const PARAM_OFFSET: u32 = 416;
/// Byte offset, in the execution context, of the shadow stack pointer.
pub const SHADOW_SP_OFFSET: u32 = 424;

/// The size class of an AArch64 register.
#[derive(Clone, Copy, PartialEq, Eq, Structural, Debug)]
pub enum RegClass {
    GPR64,
    GPR32,
    FP128,
    FP64,
    FP32,
    FP16,
    FP8,
}

/// The size class of an x86_64 general purpose register.
#[derive(Clone, Copy, PartialEq, Eq, Structural, Debug)]
pub enum NativeRegClass {
    GPR64,
    GPR32,
    GPR16,
    GPR8,
}

/// Where an AArch64 register is found.
#[derive(Clone, Copy, PartialEq, Eq, Structural, Debug)]
pub enum RegTranslation {
    /// In an x86_64 register.
    Direct(u32),
    /// In the execution context, at this byte offset from r15.
    Indirect(u32),
    /// The zero register, read in this width.
    Zero(NativeRegClass),
}

impl RegClass {
    /// Whether the class is one of the two integer classes.
    pub open spec fn is_gpr(self) -> bool {
        self == RegClass::GPR64 || self == RegClass::GPR32
    }

    /// The emulation scratch register of this class.
    #[verifier::allow_in_spec]
    pub fn scratch(self) -> u32
        returns (match self {
            RegClass::GPR64 => RAX,
            RegClass::GPR32 => EAX,
            _ => XMM15,
        }),
    {
        match self {
            RegClass::GPR64 => RAX,
            RegClass::GPR32 => EAX,
            RegClass::FP128 | RegClass::FP64 | RegClass::FP32 | RegClass::FP16 | RegClass::FP8 => XMM15,
        }
    }

    /// The scratch register of this class as a translation.
    #[verifier::allow_in_spec]
    pub fn scratch_translation(self) -> RegTranslation
        returns RegTranslation::Direct(self.scratch()),
    {
        RegTranslation::Direct(self.scratch())
    }

    /// The native class of an integer class; floating point classes are refused.
    #[verifier::allow_in_spec]
    pub fn to_native_class(self) -> NativeRegClass
        requires self.is_gpr(),
        returns (if self == RegClass::GPR64 { NativeRegClass::GPR64 } else { NativeRegClass::GPR32 }),
    {
        match self {
            RegClass::GPR64 => NativeRegClass::GPR64,
            _ => NativeRegClass::GPR32,
        }
    }
}

/// Registers that `get_reg_class` classifies: all integer registers and the
/// B/H/S/D/Q views of the SIMD registers.
pub open spec fn is_classified_reg(reg: u32) -> bool {
    (W0 <= reg <= SP) || (B0 <= reg <= Q31)
}

/// The class of `reg` and the top-level register it is a view of.
pub open spec fn spec_get_reg_class(reg: u32) -> (RegClass, u32) {
    if reg == SP || (X0 <= reg <= XZR) {
        (RegClass::GPR64, reg)
    } else if reg == WSP {
        (RegClass::GPR32, SP)
    } else if W0 <= reg <= WZR {
        (RegClass::GPR32, (reg - W0 + X0) as u32)
    } else if Q0 <= reg <= Q31 {
        (RegClass::FP128, reg)
    } else if D0 <= reg <= D31 {
        (RegClass::FP64, (reg - D0 + Q0) as u32)
    } else if S0 <= reg <= S31 {
        (RegClass::FP32, (reg - S0 + Q0) as u32)
    } else if H0 <= reg <= H31 {
        (RegClass::FP16, (reg - H0 + Q0) as u32)
    } else {
        (RegClass::FP8, (reg - B0 + Q0) as u32)
    }
}

/// Returns the class of `reg` and its top-level register (an `X` register, `SP`,
/// `XZR` or a `Q` register).
pub fn get_reg_class(reg: u32) -> (r: (RegClass, u32))
    requires is_classified_reg(reg),
    ensures
        r == spec_get_reg_class(reg),
        r.0.is_gpr() ==> (X0 <= r.1 <= SP),
        !r.0.is_gpr() ==> (Q0 <= r.1 <= Q31),
{
    if reg == SP || (reg >= X0 && reg <= XZR) {
        (RegClass::GPR64, reg)
    } else if reg == WSP {
        (RegClass::GPR32, SP)
    } else if reg >= W0 && reg <= WZR {
        (RegClass::GPR32, reg - W0 + X0)
    } else if reg >= Q0 && reg <= Q31 {
        (RegClass::FP128, reg)
    } else if reg >= D0 && reg <= D31 {
        (RegClass::FP64, reg - D0 + Q0)
    } else if reg >= S0 && reg <= S31 {
        (RegClass::FP32, reg - S0 + Q0)
    } else if reg >= H0 && reg <= H31 {
        (RegClass::FP16, reg - H0 + Q0)
    } else {
        (RegClass::FP8, reg - B0 + Q0)
    }
}

/// `reg` narrowed to `class`, for a 64-bit general purpose register.
pub open spec fn spec_lower_reg_to_native_class(reg: u32, class: NativeRegClass) -> u32 {
    match class {
        NativeRegClass::GPR64 => reg,
        NativeRegClass::GPR32 => (reg - RAX + EAX) as u32,
        NativeRegClass::GPR16 => (reg - RAX + AX) as u32,
        NativeRegClass::GPR8 => if reg <= BL { (reg - RAX + AL) as u32 } else { (reg - RAX + SPL) as u32 },
    }
}

/// Narrows a 64-bit general purpose register to a native class. Any other register is
/// refused by `requires` (the narrowing is undefined for it).
pub fn lower_reg_to_native_class(reg: u32, class: NativeRegClass) -> (r: u32)
    requires is_gpr64(reg),
    ensures r == spec_lower_reg_to_native_class(reg, class), r < REGISTER_COUNT,
{
    match class {
        NativeRegClass::GPR64 => reg,
        NativeRegClass::GPR32 => full_register32(reg),
        NativeRegClass::GPR16 => reg - RAX + AX,
        NativeRegClass::GPR8 => {
            if reg <= BL {
                reg - RAX + AL
            } else {
                reg - RAX + SPL
            }
        }
    }
}

/// `reg` in the width of `class`: integer classes narrow a 64-bit register; SIMD
/// registers have the same name in every width.
pub open spec fn spec_lower_reg_to_class(reg: u32, class: RegClass) -> u32 {
    match class {
        RegClass::GPR64 => reg,
        RegClass::GPR32 => (reg - RAX + EAX) as u32,
        _ => reg,
    }
}

/// Narrows `reg` to the width of `class`.
pub fn lower_reg_to_class(reg: u32, class: RegClass) -> (r: u32)
    requires class.is_gpr() ==> is_gpr64(reg), reg < REGISTER_COUNT,
    ensures r == spec_lower_reg_to_class(reg, class),
{
    match class {
        RegClass::GPR64 => lower_reg_to_native_class(reg, NativeRegClass::GPR64),
        RegClass::GPR32 => lower_reg_to_native_class(reg, NativeRegClass::GPR32),
        RegClass::FP128 | RegClass::FP64 | RegClass::FP32 | RegClass::FP16 | RegClass::FP8 => reg,
    }
}

/// The x86_64 register that holds a top-level AArch64 register, if it has one.
pub open spec fn direct_register(top: u32) -> Option<u32> {
    if top == X0 { Some(RDI) }
    else if top == SP { Some(RSP) }
    else if top == X1 { Some(RSI) }
    else if top == X2 { Some(RDX) }
    else if top == X19 { Some(RBX) }
    else if top == X3 { Some(RCX) }
    else if top == X20 { Some(R12) }
    else if top == X21 { Some(R13) }
    else if top == X4 { Some(R8) }
    else if top == X29 { Some(RBP) }
    else if top == X22 { Some(R14) }
    else if top == X5 { Some(R9) }
    else if top == X23 { Some(R10) }
    else if top == X30 { Some(R11) }
    else if Q0 <= top <= Q7 { Some((top - Q0 + XMM0) as u32) }
    else if Q16 <= top <= Q22 { Some((top - Q16 + XMM0 + 8) as u32) }
    else { None }
}

/// Top-level registers that are emulated in the execution context.
pub open spec fn is_indirect_top(top: u32) -> bool {
    (X6 <= top <= X18) || (X24 <= top <= X28) || (Q8 <= top <= Q15) || (Q23 <= top <= Q31)
        || top == XZR
}

/// Where an emulated top-level register is stored.
pub open spec fn spec_translate_indirect_reg(top: u32, class: RegClass) -> RegTranslation {
    if X6 <= top <= X18 {
        RegTranslation::Indirect(((top - X6) * 8) as u32)
    } else if X24 <= top <= X28 {
        RegTranslation::Indirect(((top - X24 + 13) * 8) as u32)
    } else if Q8 <= top <= Q15 {
        RegTranslation::Indirect((FP_REGS_OFFSET + (top - Q8) * 16) as u32)
    } else if Q23 <= top <= Q31 {
        RegTranslation::Indirect((FP_REGS_OFFSET + (top - Q23 + 8) * 16) as u32)
    } else {
        RegTranslation::Zero(class.to_native_class())
    }
}

fn translate_indirect_reg(reg: u32, reg_class: RegClass) -> (r: RegTranslation)
    requires
        is_indirect_top(reg),
        reg == XZR ==> reg_class.is_gpr(),
    ensures r == spec_translate_indirect_reg(reg, reg_class),
{
    if reg >= X6 && reg <= X18 {
        RegTranslation::Indirect((reg - X6) * 8)
    } else if reg >= X24 && reg <= X28 {
        RegTranslation::Indirect((reg - X24 + 13) * 8)
    } else if reg >= Q8 && reg <= Q15 {
        RegTranslation::Indirect(FP_REGS_OFFSET + (reg - Q8) * 16)
    } else if reg >= Q23 && reg <= Q31 {
        RegTranslation::Indirect(FP_REGS_OFFSET + (reg - Q23 + 8) * 16)
    } else {
        RegTranslation::Zero(reg_class.to_native_class())
    }
}

/// The translation of an AArch64 register of any width.
pub open spec fn spec_translate_reg(reg: u32) -> (RegTranslation, RegClass) {
    let (class, top) = spec_get_reg_class(reg);
    match direct_register(top) {
        Some(x) => (RegTranslation::Direct(spec_lower_reg_to_class(x, class)), class),
        None => (spec_translate_indirect_reg(top, class), class),
    }
}

/// Where `reg` lives, and its class.
pub fn translate_reg(reg: u32) -> (r: (RegTranslation, RegClass))
    requires is_classified_reg(reg),
    ensures r == spec_translate_reg(reg),
{
    let (reg_class, top) = get_reg_class(reg);
    let direct = if top == X0 {
        RDI
    } else if top == SP {
        RSP
    } else if top == X1 {
        RSI
    } else if top == X2 {
        RDX
    } else if top == X19 {
        RBX
    } else if top == X3 {
        RCX
    } else if top == X20 {
        R12
    } else if top == X21 {
        R13
    } else if top == X4 {
        R8
    } else if top == X29 {
        RBP
    } else if top == X22 {
        R14
    } else if top == X5 {
        R9
    } else if top == X23 {
        R10
    } else if top == X30 {
        R11
    } else if top >= Q0 && top <= Q7 {
        top - Q0 + XMM0
    } else if top >= Q16 && top <= Q22 {
        top - Q16 + XMM0 + 8
    } else {
        return (translate_indirect_reg(top, reg_class), reg_class);
    };
    (RegTranslation::Direct(lower_reg_to_class(direct, reg_class)), reg_class)
}

impl RegTranslation {
    /// Whether reading the register needs more than naming an x86_64 register.
    #[verifier::allow_in_spec]
    pub fn is_indirect(&self) -> bool
        returns (*self is Indirect || *self is Zero),
    {
        match self {
            RegTranslation::Indirect(_) | RegTranslation::Zero(_) => true,
            RegTranslation::Direct(_) => false,
        }
    }

    /// Well-formed for use: a direct register is a valid x86_64 register.
    pub open spec fn wf(self) -> bool {
        match self {
            RegTranslation::Direct(r) => r < REGISTER_COUNT,
            _ => true,
        }
    }

    /// The translation with its register narrowed to `native_class`.
    pub open spec fn spec_with_native_class(self, native_class: NativeRegClass) -> RegTranslation {
        match self {
            RegTranslation::Direct(r) => RegTranslation::Direct(
                spec_lower_reg_to_native_class(spec_full_gpr(r), native_class),
            ),
            RegTranslation::Zero(_) => RegTranslation::Zero(native_class),
            _ => self,
        }
    }

    /// Narrows the translation to `native_class`. A direct register must be a general
    /// purpose register (narrowing anything else is undefined).
    pub fn with_native_class(self, native_class: NativeRegClass) -> (r: RegTranslation)
        requires self matches RegTranslation::Direct(reg) ==> is_any_gpr(reg),
        ensures
            r == self.spec_with_native_class(native_class),
            r.wf(),
    {
        match self {
            RegTranslation::Direct(reg) => {
                let full = full_register(reg);
                RegTranslation::Direct(lower_reg_to_native_class(full, native_class))
            }
            RegTranslation::Zero(_) => RegTranslation::Zero(native_class),
            RegTranslation::Indirect(_) => self,
        }
    }

    /// The x86_64 register that stands for this translation in a register operand:
    /// its own register, the scratch in the given width for an emulated register, or
    /// the narrowed scratch for the zero register.
    #[verifier::allow_in_spec]
    pub fn reg_operand(&self, reg_class: RegClass) -> u32
        returns (match *self {
            RegTranslation::Direct(r) => r,
            RegTranslation::Zero(nc) => spec_lower_reg_to_native_class(RAX, nc),
            RegTranslation::Indirect(_) => reg_class.scratch(),
        }),
    {
        match self {
            RegTranslation::Direct(reg) => *reg,
            RegTranslation::Zero(native_class) => lower_reg_to_native_class(RAX, *native_class),
            RegTranslation::Indirect(_) => reg_class.scratch(),
        }
    }

    /// The operand that reads or writes the register in place: a register operand, or
    /// the memory operand `[r15 + offset]` for an emulated register.
    pub open spec fn spec_set_operand(self, instr: X86Instr, idx: u32) -> X86Instr {
        match self {
            RegTranslation::Direct(r) => instr.with_op(idx, OpKind::Register(r)),
            RegTranslation::Indirect(offset) => X86Instr {
                mem: x86::MemOperand { base: R15, displacement: offset as u64, displ_size: 1, ..instr.mem },
                ..instr.with_op(idx, OpKind::Memory)
            },
            RegTranslation::Zero(_) => instr,
        }
    }

    /// Puts the register into operand slot `idx` of `instr`. The zero register has no
    /// in-place operand and is refused.
    pub fn set_operand(self, instr: &mut X86Instr, idx: u32)
        requires idx < 3, !(self is Zero),
        ensures *final(instr) == self.spec_set_operand(*old(instr), idx),
    {
        match self {
            RegTranslation::Direct(reg) => {
                instr.set_op(idx, OpKind::Register(reg));
            }
            RegTranslation::Indirect(offset) => {
                instr.set_op(idx, OpKind::Memory);
                instr.mem.base = R15;
                instr.mem.displacement = offset as u64;
                instr.mem.displ_size = 1;
            }
            RegTranslation::Zero(_) => {}
        }
    }

    /// Puts `reg_operand(reg_class)` into slot `idx`. When the register is written,
    /// `post_write` must follow; when it is read, `pre_read` must come first.
    pub fn set_reg_operand(self, instr: &mut X86Instr, idx: u32, reg_class: RegClass)
        requires idx < 3,
        ensures *final(instr) == old(instr).with_op(idx, OpKind::Register(self.reg_operand(reg_class))),
    {
        let reg = self.reg_operand(reg_class);
        instr.set_op(idx, OpKind::Register(reg));
    }

    /// Uses `reg_operand(reg_class)` as the base of the memory operand (after `pre_read`).
    pub fn set_memory_base(self, instr: &mut X86Instr, reg_class: RegClass)
        ensures *final(instr) == (X86Instr { mem: x86::MemOperand { base: self.reg_operand(reg_class), ..old(instr).mem }, ..*old(instr) }),
    {
        instr.mem.base = self.reg_operand(reg_class);
    }

    /// Uses `reg_operand(reg_class)` as the index of the memory operand (after `pre_read`).
    pub fn set_memory_index(self, instr: &mut X86Instr, reg_class: RegClass)
        ensures *final(instr) == (X86Instr { mem: x86::MemOperand { index: self.reg_operand(reg_class), ..old(instr).mem }, ..*old(instr) }),
    {
        instr.mem.index = self.reg_operand(reg_class);
    }

    /// The instructions that bring the register into `reg_operand(reg_class)`.
    pub open spec fn spec_pre_read(self, reg_class: RegClass) -> Seq<X86Instr> {
        match self {
            RegTranslation::Direct(_) => seq![],
            RegTranslation::Indirect(offset) => seq![spec_load_indirect(reg_class, offset)],
            RegTranslation::Zero(_) => seq![x86::with_rr(x86::XOR_R32_RM32, EAX, EAX)],
        }
    }

    /// Emits the instructions that make `reg_operand(reg_class)` hold the register.
    /// Loading an emulated register needs an integer class.
    pub fn pre_read(self, ass: &mut Assembler, reg_class: RegClass)
        requires self is Indirect ==> reg_class.is_gpr(),
        ensures final(ass).emits(*old(ass), self.spec_pre_read(reg_class)),
    {
        match self {
            RegTranslation::Direct(_) => {
                assert(ass.instrs@ + seq![] =~= ass.instrs@);
            }
            RegTranslation::Indirect(offset) => load_indirect(ass, reg_class, offset),
            RegTranslation::Zero(_) => ass.add(x86::with_rr(x86::XOR_R32_RM32, EAX, EAX)),
        }
    }

    /// The instructions that store `reg_operand(reg_class)` back into the register.
    pub open spec fn spec_post_write(self, reg_class: RegClass) -> Seq<X86Instr> {
        match self {
            RegTranslation::Indirect(offset) => seq![spec_store_indirect(reg_class, offset)],
            _ => seq![],
        }
    }

    /// Emits the store of the scratch register into an emulated register.
    pub fn post_write(self, ass: &mut Assembler, reg_class: RegClass)
        requires self is Indirect ==> reg_class.is_gpr(),
        ensures final(ass).emits(*old(ass), self.spec_post_write(reg_class)),
    {
        match self {
            RegTranslation::Indirect(offset) => store_indirect(ass, reg_class, offset),
            _ => {
                assert(ass.instrs@ + seq![] =~= ass.instrs@);
            }
        }
    }
}

/// An x86_64 general purpose register of any width.
pub open spec fn is_any_gpr(r: u32) -> bool {
    AL <= r <= x86::R15
}

/// The 64-bit register that a general purpose register of any width is part of.
pub open spec fn spec_full_gpr(r: u32) -> u32 {
    if 1 <= r <= 4 { (r - 1 + RAX) as u32 }
    else if 5 <= r <= 8 { (r - 5 + RAX) as u32 }
    else if 9 <= r <= 20 { (r - 9 + RSP) as u32 }
    else if 21 <= r <= 36 { (r - 21 + RAX) as u32 }
    else if 37 <= r <= 52 { (r - 37 + RAX) as u32 }
    else { r }
}

/// Two registers that are views of different top-level registers are never held in
/// the same x86_64 register.
pub proof fn lemma_direct_translations_distinct(r1: u32, r2: u32)
    requires
        is_classified_reg(r1),
        is_classified_reg(r2),
        spec_get_reg_class(r1).1 != spec_get_reg_class(r2).1,
        spec_translate_reg(r1).0 is Direct,
        spec_translate_reg(r2).0 is Direct,
    ensures
        spec_translate_reg(r1).0 != spec_translate_reg(r2).0,
{
}

/// No AArch64 register is held in the emulation scratch registers (rax/eax, xmm15) or
/// in r15, which holds the execution context.
pub proof fn lemma_direct_translation_avoids_reserved(r: u32)
    requires
        is_classified_reg(r),
        spec_translate_reg(r).0 is Direct,
    ensures
        spec_translate_reg(r).0 != RegTranslation::Direct(RAX),
        spec_translate_reg(r).0 != RegTranslation::Direct(EAX),
        spec_translate_reg(r).0 != RegTranslation::Direct(XMM15),
        spec_translate_reg(r).0 != RegTranslation::Direct(R15),
        spec_translate_reg(r).0 != RegTranslation::Direct(x86::R15D),
{
}

/// Every register is either held in an x86_64 register of its width, emulated in the
/// context, or (for `XZR`/`WZR`) read as zero in its width.
pub proof fn lemma_translation_kind(r: u32)
    requires is_classified_reg(r),
    ensures
        ({
            let (t, class) = spec_translate_reg(r);
            &&& class == spec_get_reg_class(r).0
            &&& (t matches RegTranslation::Direct(x) ==> (
                    (class == RegClass::GPR64 ==> is_gpr64(x))
                    && (class == RegClass::GPR32 ==> EAX <= x <= x86::R15D)
                    && (!class.is_gpr() ==> XMM0 <= x < XMM15)))
            &&& (t is Zero <==> (r == XZR || r == WZR))
            &&& (t matches RegTranslation::Zero(nc) ==> nc == class.to_native_class())
        }),
{
}

/// The context slot of an emulated register, counted in the integer part (x6-x18 in
/// slots 0-12, x24-x28 in slots 13-17) or in the SIMD part (v8-v15 in slots 0-7,
/// v23-v31 in slots 8-16).
pub open spec fn emulated_slot(top: u32) -> int {
    if X6 <= top <= X18 {
        top - X6
    } else if X24 <= top <= X28 {
        top - X24 + 13
    } else if Q8 <= top <= Q15 {
        top - Q8
    } else {
        top - Q23 + 8
    }
}

/// An emulated integer register occupies one of the 18 eight-byte slots of the integer
/// part of the context, below `FP_REGS_OFFSET`.
pub proof fn lemma_emulated_gpr_slot(r: u32)
    requires
        is_classified_reg(r),
        spec_get_reg_class(r).0.is_gpr(),
        spec_translate_reg(r).0 is Indirect,
    ensures
        ({
            let off = spec_translate_reg(r).0->Indirect_0;
            let k = emulated_slot(spec_get_reg_class(r).1);
            &&& 0 <= k < 18
            &&& off == k * 8
            &&& off % 8 == 0
            &&& off + 8 <= FP_REGS_OFFSET
        }),
{
}

/// An emulated SIMD register occupies one of the 17 sixteen-byte slots of the SIMD
/// part of the context, which starts at `FP_REGS_OFFSET`.
pub proof fn lemma_emulated_fp_slot(r: u32)
    requires
        is_classified_reg(r),
        !spec_get_reg_class(r).0.is_gpr(),
        spec_translate_reg(r).0 is Indirect,
    ensures
        ({
            let off = spec_translate_reg(r).0->Indirect_0;
            let k = emulated_slot(spec_get_reg_class(r).1);
            &&& 0 <= k < 17
            &&& off == FP_REGS_OFFSET + k * 16
        }),
{
}

/// Registers with different top-level registers never share a place: two emulated
/// registers get distinct context offsets.
pub proof fn lemma_emulated_slots_distinct(r1: u32, r2: u32)
    requires
        is_classified_reg(r1),
        is_classified_reg(r2),
        spec_translate_reg(r1).0 is Indirect,
        spec_translate_reg(r2).0 is Indirect,
        spec_get_reg_class(r1).1 != spec_get_reg_class(r2).1,
    ensures
        spec_translate_reg(r1).0 != spec_translate_reg(r2).0,
{
    if spec_get_reg_class(r1).0.is_gpr() {
        lemma_emulated_gpr_slot(r1);
    } else {
        lemma_emulated_fp_slot(r1);
    }
    if spec_get_reg_class(r2).0.is_gpr() {
        lemma_emulated_gpr_slot(r2);
    } else {
        lemma_emulated_fp_slot(r2);
    }
}


/// Distinct top-level registers (x0-x30, sp, q0-q31) live in distinct places: in
/// different x86_64 registers, or in different slots of the context.
pub proof fn lemma_top_level_places_distinct(r1: u32, r2: u32)
    requires
        is_classified_reg(r1),
        is_classified_reg(r2),
        spec_get_reg_class(r1).1 == r1,
        spec_get_reg_class(r2).1 == r2,
        r1 != r2,
        r1 != XZR,
        r2 != XZR,
    ensures
        spec_translate_reg(r1).0 != spec_translate_reg(r2).0,
{
    if spec_translate_reg(r1).0 is Indirect && spec_translate_reg(r2).0 is Indirect {
        lemma_emulated_slots_distinct(r1, r2);
    }
}

/// The register named by operand `i` of `instr`.
pub open spec fn op_reg(instr: &crate::arm::Instruction, i: int) -> u32 {
    crate::arm::spec_reg_of(instr.operands@[i])
}

/// Operand `i` of `instr` exists and names a register that the translator classifies.
pub open spec fn has_reg(instr: &crate::arm::Instruction, i: int) -> bool {
    &&& 0 <= i < instr.operands@.len()
    &&& instr.operands@[i] is Reg
    &&& is_classified_reg(op_reg(instr, i))
}

/// Where the register of operand `i` lives.
pub open spec fn op_tr(instr: &crate::arm::Instruction, i: int) -> RegTranslation {
    spec_translate_reg(op_reg(instr, i)).0
}

/// The class of the register of operand `i`.
pub open spec fn op_class(instr: &crate::arm::Instruction, i: int) -> RegClass {
    spec_translate_reg(op_reg(instr, i)).1
}

} // verus!
