//! The AArch64 side of the translator: a plain-value model of a decoded instruction,
//! its operands and registers (registers numbered as `bad64::Reg`), and condition codes.
use vstd::prelude::*;

verus! {

// Register numbers (values of `bad64::Reg`).
pub const W0: u32 = 1;
pub const WZR: u32 = 32;
pub const WSP: u32 = 33;
pub const X0: u32 = 34;
pub const X1: u32 = 35;
pub const X2: u32 = 36;
pub const X3: u32 = 37;
pub const X4: u32 = 38;
pub const X5: u32 = 39;
pub const X6: u32 = 40;
pub const X8: u32 = 42;
pub const X18: u32 = 52;
pub const X19: u32 = 53;
pub const X20: u32 = 54;
pub const X21: u32 = 55;
pub const X22: u32 = 56;
pub const X23: u32 = 57;
pub const X24: u32 = 58;
pub const X28: u32 = 62;
pub const X29: u32 = 63;
pub const X30: u32 = 64;
pub const XZR: u32 = 65;
pub const SP: u32 = 66;
pub const V0: u32 = 67;
pub const B0: u32 = 99;
pub const B31: u32 = 130;
pub const H0: u32 = 131;
pub const H31: u32 = 162;
pub const S0: u32 = 163;
pub const S31: u32 = 194;
pub const D0: u32 = 195;
pub const D31: u32 = 226;
pub const Q0: u32 = 227;
pub const Q7: u32 = 234;
pub const Q8: u32 = 235;
pub const Q15: u32 = 242;
pub const Q16: u32 = 243;
pub const Q22: u32 = 249;
pub const Q23: u32 = 250;
pub const Q31: u32 = 258;

/// An AArch64 condition code.
#[derive(Clone, Copy, PartialEq, Eq, Structural, Debug)]
pub enum Cond {
    EQ,
    NE,
    CS,
    CC,
    MI,
    PL,
    VS,
    VC,
    HI,
    LS,
    GE,
    LT,
    GT,
    LE,
    AL,
    NV,
}

/// An immediate as decoded.
#[derive(Clone, Copy, PartialEq, Eq, Structural, Debug)]
pub enum Imm {
    Signed(i64),
    Unsigned(u64),
}

/// A shift or extension applied to a register operand, with its amount.
#[derive(Clone, Copy, PartialEq, Eq, Structural, Debug)]
pub enum Shift {
    LSL(u32),
    LSR(u32),
    ASR(u32),
    ROR(u32),
    UXTW(u32),
    SXTW(u32),
    SXTX(u32),
    UXTX(u32),
    SXTB(u32),
    SXTH(u32),
    UXTH(u32),
    UXTB(u32),
    MSL(u32),
}

/// A decoded operand. Operand forms that the translator never reads are `Other`.
#[allow(inconsistent_fields)]
#[derive(Clone, Copy, PartialEq, Eq, Structural, Debug)]
pub enum Operand {
    Imm32 { imm: Imm, shift: Option<Shift> },
    Imm64 { imm: Imm, shift: Option<Shift> },
    ShiftReg { reg: u32, shift: Shift },
    Reg { reg: u32 },
    MemOffset { reg: u32, offset: Imm },
    MemPreIdx { reg: u32, imm: Imm },
    MemPostIdxImm { reg: u32, imm: Imm },
    MemExt { reg0: u32, reg1: u32, shift: Option<Shift> },
    Label(Imm),
    Cond(Cond),
    Other,
}

/// The mnemonic of a decoded instruction. Mnemonics that the translator never names
/// are `Other`.
#[allow(non_camel_case_types)]
#[derive(Clone, Copy, PartialEq, Eq, Structural, Debug)]
pub enum Op {
    NOP, CMP, CMN, MOV, AND, MOVK, ADRP, ADD, SUB, ASR, LSR, LSL,
    SXTW, SXTH, SXTB, UXTH, UXTB, UDIV, SDIV, MADD, CSEL, CCMP, CSET,
    STP, LDP, STR, STUR, LDR, LDUR, LDRB, LDURB, LDRSB, LDURSB, LDRH, LDURH,
    LDRSH, LDURSH, LDRSW, LDURSW, STRB, STURB, STRH, STURH,
    B_AL, B_CC, B_CS, B_EQ, B_GE, B_GT, B_HI, B_LE, B_LS, B_LT, B_MI, B_NE, B_NV,
    B_PL, B_VC, B_VS, B, BL, BR, BLR, CBZ, CBNZ, TBZ, TBNZ, RET, BTI,
    PACIASP, PACIAZ, PACIA1716, PACIBSP, PACIBZ, PACIB1716, PACIA, PACDA, PACIB, PACDB,
    PACIZA, PACDZA, PACIZB, PACDZB,
    AUTIASP, AUTIAZ, AUTIA1716, AUTIBSP, AUTIBZ, AUTIB1716, AUTIA, AUTDA, AUTIB, AUTDB,
    AUTIZA, AUTDZA, AUTIZB, AUTDZB,
    XPACD, XPACI, XPACLRI,
    Other,
}

/// A decoded AArch64 instruction at `address`.
#[derive(PartialEq, Eq, Debug)]
pub struct Instruction {
    pub op: Op,
    pub operands: Vec<Operand>,
    pub address: u64,
}

/// The register of a `Reg` operand.
pub open spec fn spec_reg_of(o: Operand) -> u32 {
    match o {
        Operand::Reg { reg } => reg,
        _ => 0,
    }
}

/// The register of a `Reg` operand; any other operand is refused by `requires`
/// (it is a decoding inconsistency).
pub fn unwrap_reg(operand: Operand) -> (r: u32)
    requires operand is Reg,
    ensures r == spec_reg_of(operand),
{
    match operand {
        Operand::Reg { reg } => reg,
        _ => 0,
    }
}

/// The immediate and shift of an `Imm64` or `Imm32` operand.
pub fn unwrap_imm(operand: Operand) -> (r: (Imm, Option<Shift>))
    requires operand is Imm64 || operand is Imm32,
    ensures
        operand matches Operand::Imm64 { imm, shift } ==> r == (imm, shift),
        operand matches Operand::Imm32 { imm, shift } ==> r == (imm, shift),
{
    match operand {
        Operand::Imm64 { imm, shift } => (imm, shift),
        Operand::Imm32 { imm, shift } => (imm, shift),
        _ => (Imm::Unsigned(0), None),
    }
}

/// The value of an unsigned immediate.
pub fn unwrap_unsigned(imm: Imm) -> (r: u64)
    requires imm is Unsigned,
    ensures imm == Imm::Unsigned(r),
{
    match imm {
        Imm::Unsigned(v) => v,
        _ => 0,
    }
}

/// The condition of a `Cond` operand.
pub fn unwrap_cond(operand: Operand) -> (r: Cond)
    requires operand is Cond,
    ensures operand == Operand::Cond(r),
{
    match operand {
        Operand::Cond(c) => c,
        _ => Cond::AL,
    }
}

/// The amount of a shift or extension.
#[verifier::allow_in_spec]
pub fn get_shamt_from_shift(shift: Shift) -> u32
    returns (match shift {
        Shift::LSL(a) => a, Shift::LSR(a) => a, Shift::ASR(a) => a, Shift::ROR(a) => a,
        Shift::UXTW(a) => a, Shift::SXTW(a) => a, Shift::SXTX(a) => a, Shift::UXTX(a) => a,
        Shift::SXTB(a) => a, Shift::SXTH(a) => a, Shift::UXTH(a) => a, Shift::UXTB(a) => a,
        Shift::MSL(a) => a,
    }),
{
    match shift {
        Shift::LSL(a) => a, Shift::LSR(a) => a, Shift::ASR(a) => a, Shift::ROR(a) => a,
        Shift::UXTW(a) => a, Shift::SXTW(a) => a, Shift::SXTX(a) => a, Shift::UXTX(a) => a,
        Shift::SXTB(a) => a, Shift::SXTH(a) => a, Shift::UXTH(a) => a, Shift::UXTB(a) => a,
        Shift::MSL(a) => a,
    }
}

/// The target address of a `Label` operand.
pub fn label_target(operand: Operand) -> (r: u64)
    requires operand matches Operand::Label(Imm::Unsigned(_)),
    ensures operand == Operand::Label(Imm::Unsigned(r)),
{
    match operand {
        Operand::Label(Imm::Unsigned(v)) => v,
        _ => 0,
    }
}

/// The condition that holds exactly when `cond` does not (`AL` and `NV` swap).
#[verifier::allow_in_spec]
pub fn inverse_condition(cond: Cond) -> Cond
    returns (match cond {
        Cond::MI => Cond::PL, Cond::PL => Cond::MI, Cond::EQ => Cond::NE, Cond::NE => Cond::EQ,
        Cond::VS => Cond::VC, Cond::VC => Cond::VS, Cond::CS => Cond::CC, Cond::CC => Cond::CS,
        Cond::HI => Cond::LS, Cond::LS => Cond::HI, Cond::GE => Cond::LT, Cond::LT => Cond::GE,
        Cond::GT => Cond::LE, Cond::LE => Cond::GT, Cond::AL => Cond::NV, Cond::NV => Cond::AL,
    }),
{
    match cond {
        Cond::MI => Cond::PL, Cond::PL => Cond::MI, Cond::EQ => Cond::NE, Cond::NE => Cond::EQ,
        Cond::VS => Cond::VC, Cond::VC => Cond::VS, Cond::CS => Cond::CC, Cond::CC => Cond::CS,
        Cond::HI => Cond::LS, Cond::LS => Cond::HI, Cond::GE => Cond::LT, Cond::LT => Cond::GE,
        Cond::GT => Cond::LE, Cond::LE => Cond::GT, Cond::AL => Cond::NV, Cond::NV => Cond::AL,
    }
}

/// The flags (N, Z, C, V) under which an AArch64 condition holds.
pub open spec fn cond_holds(cond: Cond, n: bool, z: bool, c: bool, v: bool) -> bool {
    match cond {
        Cond::EQ => z,
        Cond::NE => !z,
        Cond::CS => c,
        Cond::CC => !c,
        Cond::MI => n,
        Cond::PL => !n,
        Cond::VS => v,
        Cond::VC => !v,
        Cond::HI => c && !z,
        Cond::LS => !(c && !z),
        Cond::GE => n == v,
        Cond::LT => n != v,
        Cond::GT => !z && n == v,
        Cond::LE => !(!z && n == v),
        Cond::AL => true,
        Cond::NV => true,
    }
}

/// Inverting a condition twice gives it back.
pub proof fn lemma_inverse_condition_involution(cond: Cond)
    ensures inverse_condition(inverse_condition(cond)) == cond,
{
}

/// Outside `AL`/`NV`, the inverse condition holds exactly when the condition does not.
pub proof fn lemma_inverse_condition_negates(cond: Cond, n: bool, z: bool, c: bool, v: bool)
    requires cond != Cond::AL, cond != Cond::NV,
    ensures cond_holds(inverse_condition(cond), n, z, c, v) == !cond_holds(cond, n, z, c, v),
{
}

} // verus!
