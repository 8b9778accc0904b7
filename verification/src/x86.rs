//! The x86_64 side of the translator: register and opcode numbers (as numbered by
//! `iced_x86::Register` and `iced_x86::Code`), a plain-value model of an encodable
//! instruction, and an assembler that collects instructions and labels.
use vstd::prelude::*;

verus! {

// ---------------------------------------------------------------------------
// Registers (values of `iced_x86::Register`)
// ---------------------------------------------------------------------------
pub const REG_NONE: u32 = 0;
pub const AL: u32 = 1;
pub const BL: u32 = 4;
pub const SPL: u32 = 9;
pub const AX: u32 = 21;
pub const EAX: u32 = 37;
pub const EDX: u32 = 39;
pub const R15D: u32 = 52;
pub const RAX: u32 = 53;
pub const RCX: u32 = 54;
pub const RDX: u32 = 55;
pub const RBX: u32 = 56;
pub const RSP: u32 = 57;
pub const RBP: u32 = 58;
pub const RSI: u32 = 59;
pub const RDI: u32 = 60;
pub const R8: u32 = 61;
pub const R9: u32 = 62;
pub const R10: u32 = 63;
pub const R11: u32 = 64;
pub const R12: u32 = 65;
pub const R13: u32 = 66;
pub const R14: u32 = 67;
pub const R15: u32 = 68;
pub const RIP: u32 = 70;
pub const XMM0: u32 = 77;
pub const XMM15: u32 = 92;
pub const XMM31: u32 = 108;
pub const ZMM0: u32 = 141;
/// Number of values of `iced_x86::Register`.
pub const REGISTER_COUNT: u32 = 256;

/// A 64-bit general purpose register (`RAX` ..= `R15`).
pub open spec fn is_gpr64(r: u32) -> bool {
    RAX <= r <= R15
}

/// An `XMM` register.
pub open spec fn is_xmm(r: u32) -> bool {
    XMM0 <= r <= XMM31
}

// ---------------------------------------------------------------------------
// Opcodes (values of `iced_x86::Code`)
// ---------------------------------------------------------------------------
pub const ADD_RM32_R32: u32 = 7;
pub const ADD_RM64_R64: u32 = 8;
pub const ADD_R32_RM32: u32 = 11;
pub const ADD_R64_RM64: u32 = 12;
pub const OR_RM32_R32: u32 = 23;
pub const OR_RM64_R64: u32 = 24;
pub const OR_R32_RM32: u32 = 27;
pub const OR_R64_RM64: u32 = 28;
pub const AND_RM32_R32: u32 = 70;
pub const AND_RM64_R64: u32 = 71;
pub const AND_R32_RM32: u32 = 74;
pub const AND_R64_RM64: u32 = 75;
pub const SUB_RM32_R32: u32 = 83;
pub const SUB_RM64_R64: u32 = 84;
pub const SUB_R32_RM32: u32 = 87;
pub const SUB_R64_RM64: u32 = 88;
pub const XOR_R32_RM32: u32 = 100;
pub const CMP_RM32_R32: u32 = 109;
pub const CMP_RM64_R64: u32 = 110;
pub const CMP_R32_RM32: u32 = 113;
pub const CMP_R64_RM64: u32 = 114;
pub const PUSH_R64: u32 = 126;
pub const POP_R64: u32 = 129;
pub const MOVSXD_R64_RM32: u32 = 140;
pub const ADD_RM32_IMM32: u32 = 216;
pub const ADD_RM64_IMM32: u32 = 217;
pub const OR_RM32_IMM32: u32 = 219;
pub const OR_RM64_IMM32: u32 = 220;
pub const AND_RM32_IMM32: u32 = 228;
pub const AND_RM64_IMM32: u32 = 229;
pub const SUB_RM32_IMM32: u32 = 231;
pub const SUB_RM64_IMM32: u32 = 232;
pub const CMP_RM32_IMM32: u32 = 237;
pub const CMP_RM64_IMM32: u32 = 238;
pub const ADD_RM64_IMM8: u32 = 249;
pub const SUB_RM64_IMM8: u32 = 264;
pub const CMP_RM32_IMM8: u32 = 269;
pub const CMP_RM64_IMM8: u32 = 270;
pub const MOV_RM8_R8: u32 = 279;
pub const MOV_RM16_R16: u32 = 280;
pub const MOV_RM32_R32: u32 = 281;
pub const MOV_RM64_R64: u32 = 282;
pub const MOV_R32_RM32: u32 = 285;
pub const MOV_R64_RM64: u32 = 286;
pub const LEA_R32_M: u32 = 291;
pub const LEA_R64_M: u32 = 292;
pub const NOPD: u32 = 300;
pub const CDQ: u32 = 310;
pub const PUSHFQ: u32 = 317;
pub const POPFQ: u32 = 320;
pub const MOV_R8_IMM8: u32 = 355;
pub const MOV_R64_IMM64: u32 = 358;
pub const SHL_RM32_IMM8: u32 = 380;
pub const SHL_RM64_IMM8: u32 = 381;
pub const SHR_RM32_IMM8: u32 = 383;
pub const SHR_RM64_IMM8: u32 = 384;
pub const SAR_RM32_IMM8: u32 = 389;
pub const SAR_RM64_IMM8: u32 = 390;
pub const MOV_RM32_IMM32: u32 = 404;
pub const MOV_RM64_IMM32: u32 = 405;
pub const JMP_REL32_64: u32 = 696;
pub const MUL_RM32: u32 = 732;
pub const MUL_RM64: u32 = 733;
pub const DIV_RM32: u32 = 738;
pub const DIV_RM64: u32 = 739;
pub const IDIV_RM32: u32 = 741;
pub const IDIV_RM64: u32 = 742;
pub const CALL_RM64: u32 = 759;
pub const JMP_RM64: u32 = 765;
pub const MOVSS_XMM_XMMM32: u32 = 905;
pub const MOVSD_XMM_XMMM64: u32 = 910;
pub const MOVSS_XMMM32_XMM: u32 = 927;
pub const MOVSD_XMMM64_XMM: u32 = 932;
pub const MOVAPS_XMM_XMMM128: u32 = 1069;
pub const MOVAPS_XMMM128_XMM: u32 = 1081;
pub const CMOVO_R32_RM32: u32 = 1170;
pub const CMOVO_R64_RM64: u32 = 1171;
pub const CMOVNO_R32_RM32: u32 = 1173;
pub const CMOVNO_R64_RM64: u32 = 1174;
pub const CMOVB_R32_RM32: u32 = 1176;
pub const CMOVB_R64_RM64: u32 = 1177;
pub const CMOVAE_R32_RM32: u32 = 1179;
pub const CMOVAE_R64_RM64: u32 = 1180;
pub const CMOVE_R32_RM32: u32 = 1182;
pub const CMOVE_R64_RM64: u32 = 1183;
pub const CMOVNE_R32_RM32: u32 = 1185;
pub const CMOVNE_R64_RM64: u32 = 1186;
pub const CMOVBE_R32_RM32: u32 = 1188;
pub const CMOVBE_R64_RM64: u32 = 1189;
pub const CMOVA_R32_RM32: u32 = 1191;
pub const CMOVA_R64_RM64: u32 = 1192;
pub const CMOVS_R32_RM32: u32 = 1194;
pub const CMOVS_R64_RM64: u32 = 1195;
pub const CMOVNS_R32_RM32: u32 = 1197;
pub const CMOVNS_R64_RM64: u32 = 1198;
pub const CMOVL_R32_RM32: u32 = 1206;
pub const CMOVL_R64_RM64: u32 = 1207;
pub const CMOVGE_R32_RM32: u32 = 1209;
pub const CMOVGE_R64_RM64: u32 = 1210;
pub const CMOVLE_R32_RM32: u32 = 1212;
pub const CMOVLE_R64_RM64: u32 = 1213;
pub const CMOVG_R32_RM32: u32 = 1215;
pub const CMOVG_R64_RM64: u32 = 1216;
pub const JO_REL32_64: u32 = 1856;
pub const JNO_REL32_64: u32 = 1859;
pub const JB_REL32_64: u32 = 1862;
pub const JAE_REL32_64: u32 = 1865;
pub const JE_REL32_64: u32 = 1868;
pub const JNE_REL32_64: u32 = 1871;
pub const JBE_REL32_64: u32 = 1874;
pub const JA_REL32_64: u32 = 1877;
pub const JS_REL32_64: u32 = 1880;
pub const JNS_REL32_64: u32 = 1883;
pub const JL_REL32_64: u32 = 1892;
pub const JGE_REL32_64: u32 = 1895;
pub const JLE_REL32_64: u32 = 1898;
pub const JG_REL32_64: u32 = 1901;
pub const SETO_RM8: u32 = 1902;
pub const SETNO_RM8: u32 = 1903;
pub const SETB_RM8: u32 = 1904;
pub const SETAE_RM8: u32 = 1905;
pub const SETE_RM8: u32 = 1906;
pub const SETNE_RM8: u32 = 1907;
pub const SETBE_RM8: u32 = 1908;
pub const SETA_RM8: u32 = 1909;
pub const SETS_RM8: u32 = 1910;
pub const SETNS_RM8: u32 = 1911;
pub const SETL_RM8: u32 = 1914;
pub const SETGE_RM8: u32 = 1915;
pub const SETLE_RM8: u32 = 1916;
pub const SETG_RM8: u32 = 1917;
pub const MOVZX_R32_RM8: u32 = 2090;
pub const MOVZX_R64_RM8: u32 = 2091;
pub const MOVZX_R32_RM16: u32 = 2093;
pub const MOVZX_R64_RM16: u32 = 2094;
pub const BT_RM32_IMM8: u32 = 2104;
pub const BT_RM64_IMM8: u32 = 2105;
pub const MOVSX_R32_RM8: u32 = 2131;
pub const MOVSX_R64_RM8: u32 = 2132;
pub const MOVSX_R32_RM16: u32 = 2134;
pub const MOVSX_R64_RM16: u32 = 2135;
pub const VEX_SHLX_R32_RM32_R32: u32 = 3697;
pub const VEX_SHLX_R64_RM64_R64: u32 = 3698;
pub const VEX_SARX_R32_RM32_R32: u32 = 3699;
pub const VEX_SARX_R64_RM64_R64: u32 = 3700;
pub const VEX_SHRX_R32_RM32_R32: u32 = 3701;
pub const VEX_SHRX_R64_RM64_R64: u32 = 3702;
pub const ZERO_BYTES: u32 = 4833;

// ---------------------------------------------------------------------------
// Instruction model
// ---------------------------------------------------------------------------

/// The kind and value of one operand slot of an instruction.
#[derive(Clone, Copy, PartialEq, Eq, Structural, Debug)]
pub enum OpKind {
    /// The slot is unused.
    Unused,
    /// A register (`REG_NONE` when not yet filled in).
    Register(u32),
    /// The instruction's memory operand (see `X86Instr::mem`).
    Memory,
    /// An immediate.
    Immediate(i64),
    /// A near branch target: an address, or a label id before encoding.
    NearBranch(u64),
}

/// The memory operand of an instruction: `[base + index + displacement]`.
#[derive(Clone, Copy, PartialEq, Eq, Structural, Debug)]
pub struct MemOperand {
    pub base: u32,
    pub index: u32,
    pub displacement: u64,
    /// Size in bytes of the encoded displacement (0 when there is none).
    pub displ_size: u32,
}

/// One x86_64 instruction as handed to the encoder: an opcode, up to three operands
/// and a memory operand shared by the `Memory` slots.
#[derive(Clone, Copy, PartialEq, Eq, Structural, Debug)]
pub struct X86Instr {
    pub code: u32,
    pub op0: OpKind,
    pub op1: OpKind,
    pub op2: OpKind,
    pub mem: MemOperand,
}

/// The memory operand with no parts.
#[verifier::allow_in_spec]
pub fn no_mem() -> MemOperand
    returns (MemOperand { base: REG_NONE, index: REG_NONE, displacement: 0, displ_size: 0 }),
{
    MemOperand { base: REG_NONE, index: REG_NONE, displacement: 0, displ_size: 0 }
}

/// `[base + displacement]`
#[verifier::allow_in_spec]
pub fn mem_base_displ(base: u32, displacement: u64) -> MemOperand
    returns (MemOperand { base, index: REG_NONE, displacement, displ_size: 1 }),
{
    MemOperand { base, index: REG_NONE, displacement, displ_size: 1 }
}

/// An instruction with no operands.
#[verifier::allow_in_spec]
pub fn with0(code: u32) -> X86Instr
    returns (X86Instr { code, op0: OpKind::Unused, op1: OpKind::Unused, op2: OpKind::Unused, mem: no_mem() }),
{
    X86Instr { code, op0: OpKind::Unused, op1: OpKind::Unused, op2: OpKind::Unused, mem: no_mem() }
}

/// An instruction with one register operand.
#[verifier::allow_in_spec]
pub fn with_r(code: u32, r: u32) -> X86Instr
    returns (X86Instr { code, op0: OpKind::Register(r), op1: OpKind::Unused, op2: OpKind::Unused, mem: no_mem() }),
{
    X86Instr { code, op0: OpKind::Register(r), op1: OpKind::Unused, op2: OpKind::Unused, mem: no_mem() }
}

/// An instruction with two register operands.
#[verifier::allow_in_spec]
pub fn with_rr(code: u32, r0: u32, r1: u32) -> X86Instr
    returns (X86Instr { code, op0: OpKind::Register(r0), op1: OpKind::Register(r1), op2: OpKind::Unused, mem: no_mem() }),
{
    X86Instr { code, op0: OpKind::Register(r0), op1: OpKind::Register(r1), op2: OpKind::Unused, mem: no_mem() }
}

/// An instruction with three register operands.
#[verifier::allow_in_spec]
pub fn with_rrr(code: u32, r0: u32, r1: u32, r2: u32) -> X86Instr
    returns (X86Instr { code, op0: OpKind::Register(r0), op1: OpKind::Register(r1), op2: OpKind::Register(r2), mem: no_mem() }),
{
    X86Instr { code, op0: OpKind::Register(r0), op1: OpKind::Register(r1), op2: OpKind::Register(r2), mem: no_mem() }
}

/// An instruction with a register and an immediate operand.
#[verifier::allow_in_spec]
pub fn with_ri(code: u32, r: u32, imm: i64) -> X86Instr
    returns (X86Instr { code, op0: OpKind::Register(r), op1: OpKind::Immediate(imm), op2: OpKind::Unused, mem: no_mem() }),
{
    X86Instr { code, op0: OpKind::Register(r), op1: OpKind::Immediate(imm), op2: OpKind::Unused, mem: no_mem() }
}

/// An instruction with a register and a memory operand.
#[verifier::allow_in_spec]
pub fn with_rm(code: u32, r: u32, m: MemOperand) -> X86Instr
    returns (X86Instr { code, op0: OpKind::Register(r), op1: OpKind::Memory, op2: OpKind::Unused, mem: m }),
{
    X86Instr { code, op0: OpKind::Register(r), op1: OpKind::Memory, op2: OpKind::Unused, mem: m }
}

/// An instruction with a memory and a register operand.
#[verifier::allow_in_spec]
pub fn with_mr(code: u32, m: MemOperand, r: u32) -> X86Instr
    returns (X86Instr { code, op0: OpKind::Memory, op1: OpKind::Register(r), op2: OpKind::Unused, mem: m }),
{
    X86Instr { code, op0: OpKind::Memory, op1: OpKind::Register(r), op2: OpKind::Unused, mem: m }
}

/// A near branch to `target` (an address, or a label id).
#[verifier::allow_in_spec]
pub fn with_branch(code: u32, target: u64) -> X86Instr
    returns (X86Instr { code, op0: OpKind::NearBranch(target), op1: OpKind::Unused, op2: OpKind::Unused, mem: no_mem() }),
{
    X86Instr { code, op0: OpKind::NearBranch(target), op1: OpKind::Unused, op2: OpKind::Unused, mem: no_mem() }
}

impl X86Instr {
    /// The operand in slot `idx` (0, 1 or 2).
    pub open spec fn op(self, idx: u32) -> OpKind {
        if idx == 0 { self.op0 } else if idx == 1 { self.op1 } else { self.op2 }
    }

    /// This instruction with slot `idx` replaced.
    pub open spec fn with_op(self, idx: u32, k: OpKind) -> X86Instr {
        if idx == 0 {
            X86Instr { op0: k, ..self }
        } else if idx == 1 {
            X86Instr { op1: k, ..self }
        } else {
            X86Instr { op2: k, ..self }
        }
    }

    /// Sets the kind and value of operand slot `idx`.
    pub fn set_op(&mut self, idx: u32, k: OpKind)
        requires idx < 3,
        ensures *final(self) == old(self).with_op(idx, k),
    {
        if idx == 0 {
            self.op0 = k;
        } else if idx == 1 {
            self.op1 = k;
        } else {
            self.op2 = k;
        }
    }
}

// ---------------------------------------------------------------------------
// Assembler
// ---------------------------------------------------------------------------

/// Collects instructions and labels for one block of code.
///
/// A label is identified by a positive id; `labels` binds each placed label to the
/// index of the instruction it names. Branches to a label carry its id as target.
pub struct Assembler {
    pub instrs: Vec<X86Instr>,
    pub labels: Vec<(u64, usize)>,
    pub next_label: u64,
}

impl Assembler {
    /// `self` is `old` followed by the instructions `s`, with the same labels.
    pub open spec fn emits(self, old: Assembler, s: Seq<X86Instr>) -> bool {
        &&& self.instrs@ == old.instrs@ + s
        &&& self.labels@ == old.labels@
        &&& self.next_label == old.next_label
    }

    /// An empty assembler.
    pub fn new() -> (r: Assembler)
        ensures
            r.instrs@ == Seq::<X86Instr>::empty(),
            r.labels@ == Seq::<(u64, usize)>::empty(),
            r.next_label == 1,
    {
        Assembler { instrs: Vec::new(), labels: Vec::new(), next_label: 1 }
    }

    /// Number of instructions added so far.
    pub fn len(&self) -> (r: usize)
        ensures r == self.instrs@.len(),
    {
        self.instrs.len()
    }

    /// Appends one instruction.
    pub fn add(&mut self, i: X86Instr)
        ensures final(self).emits(*old(self), seq![i]),
    {
        let ghost before = self.instrs@;
        self.instrs.push(i);
        assert(self.instrs@ =~= before + seq![i]);
    }

    /// A fresh label id, not yet placed.
    pub fn create_label(&mut self) -> (l: u64)
        requires old(self).next_label < u64::MAX,
        ensures
            l == old(self).next_label,
            final(self).next_label == old(self).next_label + 1,
            final(self).instrs@ == old(self).instrs@,
            final(self).labels@ == old(self).labels@,
    {
        let l = self.next_label;
        self.next_label = self.next_label + 1;
        l
    }

    /// Places `label` at the next instruction to be added.
    pub fn set_label(&mut self, label: u64)
        ensures
            final(self).labels@ == old(self).labels@.push((label, old(self).instrs@.len() as usize)),
            final(self).instrs@ == old(self).instrs@,
            final(self).next_label == old(self).next_label,
    {
        let idx = self.instrs.len();
        self.labels.push((label, idx));
    }
}

/// The instruction address that marks a label's position for the encoder: the id of the
/// last label placed at index `idx`, or 0 (no label: ids start at 1).
pub open spec fn spec_ip_at(labels: Seq<(u64, usize)>, idx: int) -> u64
    decreases labels.len(),
{
    if labels.len() == 0 {
        0
    } else if labels.last().1 == idx {
        labels.last().0
    } else {
        spec_ip_at(labels.drop_last(), idx)
    }
}

/// Whether some label names the position just past the last instruction.
pub open spec fn names_end(labels: Seq<(u64, usize)>, n: int) -> bool {
    exists|i: int| 0 <= i < labels.len() && #[trigger] labels[i].1 == n
}

/// The instructions of a block ready for encoding: those of `ass`, with an empty
/// instruction (`ZERO_BYTES`) appended where a label names the end.
pub open spec fn spec_laid_instrs(ass: Assembler) -> Seq<X86Instr> {
    if names_end(ass.labels@, ass.instrs@.len() as int) {
        ass.instrs@.push(with0(ZERO_BYTES))
    } else {
        ass.instrs@
    }
}

/// The marker address of each instruction of a block ready for encoding: the id of
/// the label placed at it, or 0.
pub open spec fn spec_laid_ips(ass: Assembler) -> Seq<u64> {
    Seq::new(spec_laid_instrs(ass).len(), |i: int| spec_ip_at(ass.labels@, i))
}

/// A block ready for encoding: its instructions, and for each one the address that marks
/// the label placed at it.
pub struct LabelledCode {
    pub instrs: Vec<X86Instr>,
    pub ips: Vec<u64>,
}

impl Assembler {
    /// Every label names an instruction or the end of the block.
    pub open spec fn labels_in_range(self) -> bool {
        forall|i: int| 0 <= i < self.labels@.len() ==> #[trigger] self.labels@[i].1 <= self.instrs@.len()
    }

    /// The block with its labels marked: a label is marked on the instruction that it
    /// names by that instruction's address being the label's id; where a label names the
    /// end of the block, an empty instruction (`ZERO_BYTES`) is appended to carry it.
    pub fn label_layout(&self) -> (r: LabelledCode)
        requires
            self.labels_in_range(),
            self.instrs@.len() < usize::MAX,
        ensures
            r.instrs@ == spec_laid_instrs(*self),
            r.ips@.len() == r.instrs@.len(),
            forall|i: int| 0 <= i < r.ips@.len() ==> #[trigger] r.ips@[i] == spec_ip_at(self.labels@, i),
    {
        let n = self.instrs.len();
        let mut instrs: Vec<X86Instr> = self.instrs.clone();
        let mut ips: Vec<u64> = Vec::new();
        let mut j: usize = 0;
        while j < n
            invariant
                n == self.instrs@.len(),
                0 <= j <= n,
                ips@.len() == j,
                forall|i: int| 0 <= i < j ==> #[trigger] ips@[i] == 0,
            decreases n - j,
        {
            ips.push(0);
            j += 1;
        }
        assert(instrs@ =~= self.instrs@);
        let mut k: usize = 0;
        while k < self.labels.len()
            invariant
                n == self.instrs@.len(),
                n < usize::MAX,
                self.labels_in_range(),
                0 <= k <= self.labels@.len(),
                instrs@ == if names_end(self.labels@.take(k as int), n as int) {
                    self.instrs@.push(with0(ZERO_BYTES))
                } else {
                    self.instrs@
                },
                ips@.len() == instrs@.len(),
                forall|i: int| 0 <= i < ips@.len() ==> #[trigger] ips@[i] == spec_ip_at(self.labels@.take(k as int), i),
            decreases self.labels@.len() - k,
        {
            let (label, idx) = self.labels[k];
            let ghost t = self.labels@.take(k + 1);
            assert(t.drop_last() =~= self.labels@.take(k as int));
            assert(t.last() == self.labels@[k as int]);
            assert(self.labels@[k as int].1 <= n);
            if idx == instrs.len() {
                instrs.push(with0(ZERO_BYTES));
                ips.push(0);
                assert(spec_ip_at(self.labels@.take(k as int), n as int) == 0) by {
                    assert(!names_end(self.labels@.take(k as int), n as int));
                    lemma_ip_unplaced(self.labels@.take(k as int), n as int);
                }
            }
            ips.set(idx, label);
            proof {
                assert(t[k as int].1 == n ==> names_end(t, n as int));
                if names_end(self.labels@.take(k as int), n as int) {
                    let w = choose|w: int| 0 <= w < k && #[trigger] self.labels@.take(k as int)[w].1 == n;
                    assert(t[w].1 == n);
                }
                if names_end(t, n as int) && idx != n {
                    let w = choose|w: int| 0 <= w < k + 1 && #[trigger] t[w].1 == n;
                    assert(self.labels@.take(k as int)[w].1 == n);
                }
                assert forall|i: int| 0 <= i < ips@.len() implies #[trigger] ips@[i] == spec_ip_at(t, i) by {
                    if i != idx as int {
                        assert(ips@[i] == spec_ip_at(self.labels@.take(k as int), i));
                    }
                }
            }
            k += 1;
        }
        assert(self.labels@.take(self.labels@.len() as int) =~= self.labels@);
        LabelledCode { instrs, ips }
    }
}

/// Where labels name increasing positions, each label's id marks the position it names.
pub proof fn lemma_ip_marks_label(labels: Seq<(u64, usize)>, k: int)
    requires
        0 <= k < labels.len(),
        forall|i: int, j: int| 0 <= i < j < labels.len() ==> (#[trigger] labels[i]).1 < (#[trigger] labels[j]).1,
    ensures
        spec_ip_at(labels, labels[k].1 as int) == labels[k].0,
    decreases labels.len(),
{
    if k < labels.len() - 1 {
        let d = labels.drop_last();
        assert(labels[k].1 < labels[labels.len() - 1].1);
        assert(d[k] == labels[k]);
        lemma_ip_marks_label(d, k);
    }
}

/// Where no label names `idx`, nothing marks it.
proof fn lemma_ip_unplaced(labels: Seq<(u64, usize)>, idx: int)
    requires !names_end(labels, idx),
    ensures spec_ip_at(labels, idx) == 0,
    decreases labels.len(),
{
    if labels.len() > 0 {
        assert(labels.last() == labels[labels.len() - 1]);
        if names_end(labels.drop_last(), idx) {
            let w = choose|w: int| 0 <= w < labels.len() - 1 && #[trigger] labels.drop_last()[w].1 == idx;
            assert(labels[w].1 == idx);
        }
        lemma_ip_unplaced(labels.drop_last(), idx);
    }
}

// ---------------------------------------------------------------------------
// Register queries answered by iced_x86
// ---------------------------------------------------------------------------

/// Calls `iced_x86::Register::full_register`: for a general purpose register of any
/// width, the 64-bit register it is part of. The claim covers the 8-, 16-, 32- and
/// 64-bit general purpose registers, as the crate's register table lays them out; of
/// other registers only that the result is a register.
#[verifier::external_body]
pub fn full_register(r: u32) -> (f: u32)
    requires r < REGISTER_COUNT,
    ensures
        f < REGISTER_COUNT,
        1 <= r <= 4 ==> f == r - 1 + RAX,
        5 <= r <= 8 ==> f == r - 5 + RAX,
        9 <= r <= 20 ==> f == r - 9 + RSP,
        21 <= r <= 36 ==> f == r - 21 + RAX,
        37 <= r <= 52 ==> f == r - 37 + RAX,
        is_gpr64(r) ==> f == r,
{
    iced_x86::Register::try_from(r as usize).unwrap().full_register() as u32
}

/// Calls `iced_x86::Register::full_register32`: as `full_register`, except that a
/// general purpose register gives its 32-bit register. The claim covers the 64-bit
/// general purpose registers; of others only that the result is a register.
#[verifier::external_body]
pub fn full_register32(r: u32) -> (f: u32)
    requires r < REGISTER_COUNT,
    ensures
        f < REGISTER_COUNT,
        is_gpr64(r) ==> f == r - RAX + EAX,
{
    iced_x86::Register::try_from(r as usize).unwrap().full_register32() as u32
}

} // verus!
