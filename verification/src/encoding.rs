//! Encoding a block of modelled x86_64 instructions into machine code with
//! `iced_x86`: each instruction is built with the `Instruction` constructor for its
//! operand form, marked with the address of its label, and the block is handed to the
//! block encoder, which resolves branches to labels and rewrites branches whose
//! targets are out of reach. What each `iced_x86` call gives is named below.
use vstd::prelude::*;
use iced_x86::{BlockEncoder, BlockEncoderOptions, Code, InstructionBlock, MemoryOperand, Register};
use iced_x86::Instruction as IcedInstr;
use crate::x86::{Assembler, LabelledCode, MemOperand, OpKind, X86Instr, spec_laid_instrs, spec_laid_ips};

verus! {

#[verifier::external_type_specification]
#[verifier::external_body]
pub struct ExIcedInstr(IcedInstr);

/// The most instructions a block handed to the encoder may hold: each is encoded in
/// a few dozen bytes at most, so offsets into the code of such a block fit in 32 bits.
pub const MAX_BLOCK_INSTRS: usize = 0x10_0000;

/// Whether `code` numbers an instruction: `iced_x86` numbers `INVALID` 0 and the data
/// declarations (`db`, `dw`, `dd`, `dq`) 1 to 4; these encode to no instruction.
pub open spec fn is_instruction_code(code: u32) -> bool {
    code > 4
}

/// The number of operands of the `iced_x86` opcode numbered `code`, if there is one.
pub uninterp spec fn iced_op_count(code: u32) -> Option<u32>;

/// The opcode number of an `iced_x86` instruction (`Instruction::code`).
pub uninterp spec fn iced_code(instr: IcedInstr) -> u32;

/// Calls `iced_x86::Code::op_code` and `OpCodeInfo::op_count`: the number of operands
/// that an instruction of opcode `code` has (`None` where no opcode has the number).
#[verifier::external_body]
fn op_count(code: u32) -> (r: Option<u32>)
    ensures r == iced_op_count(code),
{
    match Code::try_from(code as usize) {
        Ok(c) => Some(c.op_code().op_count()),
        Err(_) => None,
    }
}

/// What `iced_x86::Instruction::with` gives for these arguments.
pub uninterp spec fn iced_with_result(code: u32) -> Option<IcedInstr>;

/// Calls `iced_x86::Instruction::with`: `None` where the crate refuses the operands
/// or a number names no opcode or register. The instruction has opcode `code`.
#[verifier::external_body]
fn iced_with(code: u32) -> (res: Option<IcedInstr>)
    requires
        iced_op_count(code) == Some(0u32),
        is_instruction_code(code),
    ensures
        res == iced_with_result(code),
        res matches Some(x) ==> iced_code(x) == code,
{
    Some(IcedInstr::with(Code::try_from(code as usize).ok()?))
}

/// What `iced_x86::Instruction::with_branch` gives for these arguments.
pub uninterp spec fn iced_branch_result(code: u32, target: u64) -> Option<IcedInstr>;

/// Calls `iced_x86::Instruction::with_branch`: `None` where the crate refuses the operands
/// or a number names no opcode or register. The instruction has opcode `code`.
#[verifier::external_body]
fn iced_with_branch(code: u32, target: u64) -> (res: Option<IcedInstr>)
    requires iced_op_count(code) == Some(1u32),
    ensures
        res == iced_branch_result(code, target),
        res matches Some(x) ==> iced_code(x) == code,
{
    IcedInstr::with_branch(Code::try_from(code as usize).ok()?, target).ok()
}

/// What `iced_x86::Instruction::with1` with a register gives for these arguments.
pub uninterp spec fn iced_r_result(code: u32, r: u32) -> Option<IcedInstr>;

/// Calls `iced_x86::Instruction::with1` with a register: `None` where the crate refuses the operands
/// or a number names no opcode or register. The instruction has opcode `code`.
#[verifier::external_body]
fn iced_with1_r(code: u32, r: u32) -> (res: Option<IcedInstr>)
    requires iced_op_count(code) == Some(1u32),
    ensures
        res == iced_r_result(code, r),
        res matches Some(x) ==> iced_code(x) == code,
{
    IcedInstr::with1(Code::try_from(code as usize).ok()?, Register::try_from(r as usize).ok()?).ok()
}

/// What `iced_x86::Instruction::with1` with a memory operand `[base + index + displacement]` gives for these arguments.
pub uninterp spec fn iced_m_result(code: u32, m: MemOperand) -> Option<IcedInstr>;

/// Calls `iced_x86::Instruction::with1` with a memory operand `[base + index + displacement]`: `None` where the crate refuses the operands
/// or a number names no opcode or register. The instruction has opcode `code`.
#[verifier::external_body]
fn iced_with1_m(code: u32, m: MemOperand) -> (res: Option<IcedInstr>)
    requires iced_op_count(code) == Some(1u32),
    ensures
        res == iced_m_result(code, m),
        res matches Some(x) ==> iced_code(x) == code,
{
    let base = Register::try_from(m.base as usize).ok()?;
    let index = Register::try_from(m.index as usize).ok()?;
    let mem = MemoryOperand::new(base, index, 1, m.displacement as i64, m.displ_size, false, Register::None);
    IcedInstr::with1(Code::try_from(code as usize).ok()?, mem).ok()
}

/// What `iced_x86::Instruction::with2` with two registers gives for these arguments.
pub uninterp spec fn iced_rr_result(code: u32, r0: u32, r1: u32) -> Option<IcedInstr>;

/// Calls `iced_x86::Instruction::with2` with two registers: `None` where the crate refuses the operands
/// or a number names no opcode or register. The instruction has opcode `code`.
#[verifier::external_body]
fn iced_with2_rr(code: u32, r0: u32, r1: u32) -> (res: Option<IcedInstr>)
    requires iced_op_count(code) == Some(2u32),
    ensures
        res == iced_rr_result(code, r0, r1),
        res matches Some(x) ==> iced_code(x) == code,
{
    let r0 = Register::try_from(r0 as usize).ok()?;
    IcedInstr::with2(Code::try_from(code as usize).ok()?, r0, Register::try_from(r1 as usize).ok()?).ok()
}

/// What `iced_x86::Instruction::with2` with a register and a memory operand gives for these arguments.
pub uninterp spec fn iced_rm_result(code: u32, r0: u32, m: MemOperand) -> Option<IcedInstr>;

/// Calls `iced_x86::Instruction::with2` with a register and a memory operand: `None` where the crate refuses the operands
/// or a number names no opcode or register. The instruction has opcode `code`.
#[verifier::external_body]
fn iced_with2_rm(code: u32, r0: u32, m: MemOperand) -> (res: Option<IcedInstr>)
    requires iced_op_count(code) == Some(2u32),
    ensures
        res == iced_rm_result(code, r0, m),
        res matches Some(x) ==> iced_code(x) == code,
{
    let base = Register::try_from(m.base as usize).ok()?;
    let index = Register::try_from(m.index as usize).ok()?;
    let mem = MemoryOperand::new(base, index, 1, m.displacement as i64, m.displ_size, false, Register::None);
    IcedInstr::with2(Code::try_from(code as usize).ok()?, Register::try_from(r0 as usize).ok()?, mem).ok()
}

/// What `iced_x86::Instruction::with2` with a memory operand and a register gives for these arguments.
pub uninterp spec fn iced_mr_result(code: u32, m: MemOperand, r1: u32) -> Option<IcedInstr>;

/// Calls `iced_x86::Instruction::with2` with a memory operand and a register: `None` where the crate refuses the operands
/// or a number names no opcode or register. The instruction has opcode `code`.
#[verifier::external_body]
fn iced_with2_mr(code: u32, m: MemOperand, r1: u32) -> (res: Option<IcedInstr>)
    requires iced_op_count(code) == Some(2u32),
    ensures
        res == iced_mr_result(code, m, r1),
        res matches Some(x) ==> iced_code(x) == code,
{
    let base = Register::try_from(m.base as usize).ok()?;
    let index = Register::try_from(m.index as usize).ok()?;
    let mem = MemoryOperand::new(base, index, 1, m.displacement as i64, m.displ_size, false, Register::None);
    IcedInstr::with2(Code::try_from(code as usize).ok()?, mem, Register::try_from(r1 as usize).ok()?).ok()
}

/// What `iced_x86::Instruction::with2` with a register and a 64-bit immediate gives for these arguments.
pub uninterp spec fn iced_ri_result(code: u32, r0: u32, imm: i64) -> Option<IcedInstr>;

/// Calls `iced_x86::Instruction::with2` with a register and a 64-bit immediate: `None` where the crate refuses the operands
/// or a number names no opcode or register. The instruction has opcode `code`.
#[verifier::external_body]
fn iced_with2_ri(code: u32, r0: u32, imm: i64) -> (res: Option<IcedInstr>)
    requires iced_op_count(code) == Some(2u32),
    ensures
        res == iced_ri_result(code, r0, imm),
        res matches Some(x) ==> iced_code(x) == code,
{
    IcedInstr::with2(Code::try_from(code as usize).ok()?, Register::try_from(r0 as usize).ok()?, imm).ok()
}

/// What `iced_x86::Instruction::with2` with a memory operand and a 32-bit immediate gives for these arguments.
pub uninterp spec fn iced_mi_result(code: u32, m: MemOperand, imm: i32) -> Option<IcedInstr>;

/// Calls `iced_x86::Instruction::with2` with a memory operand and a 32-bit immediate: `None` where the crate refuses the operands
/// or a number names no opcode or register. The instruction has opcode `code`.
#[verifier::external_body]
fn iced_with2_mi(code: u32, m: MemOperand, imm: i32) -> (res: Option<IcedInstr>)
    requires iced_op_count(code) == Some(2u32),
    ensures
        res == iced_mi_result(code, m, imm),
        res matches Some(x) ==> iced_code(x) == code,
{
    let base = Register::try_from(m.base as usize).ok()?;
    let index = Register::try_from(m.index as usize).ok()?;
    let mem = MemoryOperand::new(base, index, 1, m.displacement as i64, m.displ_size, false, Register::None);
    IcedInstr::with2(Code::try_from(code as usize).ok()?, mem, imm).ok()
}

/// What `iced_x86::Instruction::with3` with three registers gives for these arguments.
pub uninterp spec fn iced_rrr_result(code: u32, r0: u32, r1: u32, r2: u32) -> Option<IcedInstr>;

/// Calls `iced_x86::Instruction::with3` with three registers: `None` where the crate refuses the operands
/// or a number names no opcode or register. The instruction has opcode `code`.
#[verifier::external_body]
fn iced_with3_rrr(code: u32, r0: u32, r1: u32, r2: u32) -> (res: Option<IcedInstr>)
    requires iced_op_count(code) == Some(3u32),
    ensures
        res == iced_rrr_result(code, r0, r1, r2),
        res matches Some(x) ==> iced_code(x) == code,
{
    let r0 = Register::try_from(r0 as usize).ok()?;
    let r1 = Register::try_from(r1 as usize).ok()?;
    IcedInstr::with3(Code::try_from(code as usize).ok()?, r0, r1, Register::try_from(r2 as usize).ok()?).ok()
}

/// What `iced_x86::Instruction::with3` with a register, a memory operand and a register gives for these arguments.
pub uninterp spec fn iced_rmr_result(code: u32, r0: u32, m: MemOperand, r2: u32) -> Option<IcedInstr>;

/// Calls `iced_x86::Instruction::with3` with a register, a memory operand and a register: `None` where the crate refuses the operands
/// or a number names no opcode or register. The instruction has opcode `code`.
#[verifier::external_body]
fn iced_with3_rmr(code: u32, r0: u32, m: MemOperand, r2: u32) -> (res: Option<IcedInstr>)
    requires iced_op_count(code) == Some(3u32),
    ensures
        res == iced_rmr_result(code, r0, m, r2),
        res matches Some(x) ==> iced_code(x) == code,
{
    let base = Register::try_from(m.base as usize).ok()?;
    let index = Register::try_from(m.index as usize).ok()?;
    let mem = MemoryOperand::new(base, index, 1, m.displacement as i64, m.displ_size, false, Register::None);
    let r0 = Register::try_from(r0 as usize).ok()?;
    IcedInstr::with3(Code::try_from(code as usize).ok()?, r0, mem, Register::try_from(r2 as usize).ok()?).ok()
}

/// What `iced_x86::Instruction::with3` with two registers and a memory operand gives for these arguments.
pub uninterp spec fn iced_rrm_result(code: u32, r0: u32, r1: u32, m: MemOperand) -> Option<IcedInstr>;

/// Calls `iced_x86::Instruction::with3` with two registers and a memory operand: `None` where the crate refuses the operands
/// or a number names no opcode or register. The instruction has opcode `code`.
#[verifier::external_body]
fn iced_with3_rrm(code: u32, r0: u32, r1: u32, m: MemOperand) -> (res: Option<IcedInstr>)
    requires iced_op_count(code) == Some(3u32),
    ensures
        res == iced_rrm_result(code, r0, r1, m),
        res matches Some(x) ==> iced_code(x) == code,
{
    let base = Register::try_from(m.base as usize).ok()?;
    let index = Register::try_from(m.index as usize).ok()?;
    let mem = MemoryOperand::new(base, index, 1, m.displacement as i64, m.displ_size, false, Register::None);
    let r0 = Register::try_from(r0 as usize).ok()?;
    IcedInstr::with3(Code::try_from(code as usize).ok()?, r0, Register::try_from(r1 as usize).ok()?, mem).ok()
}

/// What `iced_x86::Instruction::set_ip` makes of `instr`: the same instruction at
/// address `ip`.
pub uninterp spec fn iced_with_ip(instr: IcedInstr, ip: u64) -> IcedInstr;

/// Calls `iced_x86::Instruction::set_ip`: the instruction's address, by which branches
/// to a label find it. The opcode stays.
#[verifier::external_body]
fn set_ip(instr: &mut IcedInstr, ip: u64)
    ensures
        *final(instr) == iced_with_ip(*old(instr), ip),
        iced_code(*final(instr)) == iced_code(*old(instr)),
{
    instr.set_ip(ip)
}

/// Encoded code and the offset in it of each instruction that was handed over.
pub struct Encoded {
    pub code: Vec<u8>,
    pub offsets: Vec<u32>,
}

/// What a block encoder gives for a block of code `code_len` bytes long: for each
/// instruction its offset in the code, or `u32::MAX` where it was rewritten into other
/// instructions; the offsets start at 0, never decrease, and stay within the code.
pub open spec fn encoder_offsets_ok(offsets: Seq<u32>, code_len: usize) -> bool {
    &&& offsets.len() > 0 ==> (offsets[0] == 0 || offsets[0] == u32::MAX)
    &&& forall|i: int, j: int| 0 <= i <= j < offsets.len() && offsets[i] != u32::MAX && offsets[j] != u32::MAX
        ==> #[trigger] offsets[i] <= #[trigger] offsets[j]
    &&& forall|i: int| 0 <= i < offsets.len() && offsets[i] != u32::MAX ==> #[trigger] offsets[i] <= code_len
}

/// What `iced_x86::BlockEncoder::encode` gives for `instrs` placed at `rip`, in 64-bit
/// mode with the new instruction offsets: the code and the offsets.
pub uninterp spec fn iced_block_encoding(instrs: Seq<IcedInstr>, rip: u64) -> Option<(Seq<u8>, Seq<u32>)>;

/// Calls `iced_x86::BlockEncoder::encode` for 64-bit code placed at `rip`, asking for
/// the new instruction offsets; `None` where the encoder refuses the block. Of a result
/// the contract claims what the encoder's source shows besides: one offset per
/// instruction, each the instruction's offset from `rip` (instructions are laid out
/// one after the other, with the data of rewritten branches after them) or `u32::MAX`
/// for an instruction that was rewritten. Data declarations, which encode to nothing,
/// are left out: in a debug build the crate asserts that only `Zero_bytes` does.
#[verifier::external_body]
fn block_encode(instrs: &Vec<IcedInstr>, rip: u64) -> (r: Option<Encoded>)
    requires
        instrs@.len() <= MAX_BLOCK_INSTRS,
        forall|k: int| 0 <= k < instrs@.len() ==> is_instruction_code(iced_code(#[trigger] instrs@[k])),
    ensures
        match r {
            Some(e) => {
                &&& iced_block_encoding(instrs@, rip) == Some((e.code@, e.offsets@))
                &&& e.offsets@.len() == instrs@.len()
                &&& encoder_offsets_ok(e.offsets@, e.code@.len() as usize)
            },
            None => iced_block_encoding(instrs@, rip) is None,
        },
{
    let block = InstructionBlock::new(instrs, rip);
    match BlockEncoder::encode(64, block, BlockEncoderOptions::RETURN_NEW_INSTRUCTION_OFFSETS) {
        Ok(res) => Some(Encoded { code: res.code_buffer, offsets: res.new_instruction_offsets }),
        Err(_) => None,
    }
}

/// Whether an operand is handed to the encoder as such: registers, memory operands and
/// immediates are; unused slots and branch targets are not.
pub open spec fn is_encoder_operand(k: OpKind) -> bool {
    !(k is Unused) && !(k is NearBranch)
}

/// The operands of `i` that the encoder is handed, in order.
pub open spec fn spec_encoder_operands(i: X86Instr) -> Seq<OpKind> {
    (if is_encoder_operand(i.op0) { seq![i.op0] } else { seq![] })
        + (if is_encoder_operand(i.op1) { seq![i.op1] } else { seq![] })
        + (if is_encoder_operand(i.op2) { seq![i.op2] } else { seq![] })
}

/// The `iced_x86` instruction built for `i`: a near branch when its first operand is a
/// branch target; else the constructor for the form of its other operands, in order.
/// `None` where the opcode takes another number of operands, the operands have a form
/// that the translator never emits, or the crate refuses them.
pub open spec fn spec_iced_instr(i: X86Instr) -> Option<IcedInstr> {
    let count = iced_op_count(i.code);
    if let OpKind::NearBranch(target) = i.op0 {
        if count == Some(1u32) { iced_branch_result(i.code, target) } else { None }
    } else {
        let a = spec_encoder_operands(i);
        if count != Some(a.len() as u32) {
            None
        } else if a.len() == 0 {
            iced_with_result(i.code)
        } else if a.len() == 1 {
            match a[0] {
                OpKind::Register(r) => iced_r_result(i.code, r),
                OpKind::Memory => iced_m_result(i.code, i.mem),
                _ => None,
            }
        } else if a.len() == 2 {
            match (a[0], a[1]) {
                (OpKind::Register(x), OpKind::Register(y)) => iced_rr_result(i.code, x, y),
                (OpKind::Register(x), OpKind::Memory) => iced_rm_result(i.code, x, i.mem),
                (OpKind::Memory, OpKind::Register(y)) => iced_mr_result(i.code, i.mem, y),
                (OpKind::Register(x), OpKind::Immediate(v)) => iced_ri_result(i.code, x, v),
                (OpKind::Memory, OpKind::Immediate(v)) => iced_mi_result(i.code, i.mem, v as i32),
                _ => None,
            }
        } else {
            match (a[0], a[1], a[2]) {
                (OpKind::Register(x), OpKind::Register(y), OpKind::Register(z)) => iced_rrr_result(i.code, x, y, z),
                (OpKind::Register(x), OpKind::Memory, OpKind::Register(z)) => iced_rmr_result(i.code, x, i.mem, z),
                (OpKind::Register(x), OpKind::Register(y), OpKind::Memory) => iced_rrm_result(i.code, x, y, i.mem),
                _ => None,
            }
        }
    }
}

/// The `iced_x86` instructions for the first `n` instructions of a block, each at
/// its marker address; `None` where one of them cannot be built.
pub open spec fn spec_iced_block(instrs: Seq<X86Instr>, ips: Seq<u64>, n: nat) -> Option<Seq<IcedInstr>>
    decreases n,
{
    if n == 0 {
        Some(seq![])
    } else {
        match (spec_iced_block(instrs, ips, (n - 1) as nat), spec_iced_instr(instrs[n - 1])) {
            (Some(v), Some(x)) => Some(v.push(iced_with_ip(x, ips[n - 1]))),
            _ => None,
        }
    }
}

proof fn lemma_iced_block_fails_on(instrs: Seq<X86Instr>, ips: Seq<u64>, k: nat, n: nat)
    requires k <= n, spec_iced_block(instrs, ips, k) is None,
    ensures spec_iced_block(instrs, ips, n) is None,
    decreases n,
{
    if k < n {
        lemma_iced_block_fails_on(instrs, ips, k, (n - 1) as nat);
    }
}

/// The operands of `i` that the encoder is handed.
fn encoder_operands(i: &X86Instr) -> (r: Vec<OpKind>)
    ensures r@ == spec_encoder_operands(*i),
{
    let mut args: Vec<OpKind> = Vec::new();
    if !matches!(i.op0, OpKind::Unused | OpKind::NearBranch(_)) {
        args.push(i.op0);
    }
    if !matches!(i.op1, OpKind::Unused | OpKind::NearBranch(_)) {
        args.push(i.op1);
    }
    if !matches!(i.op2, OpKind::Unused | OpKind::NearBranch(_)) {
        args.push(i.op2);
    }
    assert(args@ =~= spec_encoder_operands(*i));
    args
}

/// Builds the `iced_x86` instruction for `i`.
fn iced_instr(i: &X86Instr) -> (r: Option<IcedInstr>)
    requires is_instruction_code(i.code),
    ensures
        r == spec_iced_instr(*i),
        r matches Some(x) ==> iced_code(x) == i.code,
{
    let count = op_count(i.code);
    if let OpKind::NearBranch(target) = i.op0 {
        if count != Some(1u32) {
            return None;
        }
        return iced_with_branch(i.code, target);
    }
    let args = encoder_operands(i);
    let n = args.len();
    if count != Some(n as u32) {
        return None;
    }
    if n == 0 {
        iced_with(i.code)
    } else if n == 1 {
        match args[0] {
            OpKind::Register(r) => iced_with1_r(i.code, r),
            OpKind::Memory => iced_with1_m(i.code, i.mem),
            _ => None,
        }
    } else if n == 2 {
        match (args[0], args[1]) {
            (OpKind::Register(a), OpKind::Register(b)) => iced_with2_rr(i.code, a, b),
            (OpKind::Register(a), OpKind::Memory) => iced_with2_rm(i.code, a, i.mem),
            (OpKind::Memory, OpKind::Register(b)) => iced_with2_mr(i.code, i.mem, b),
            (OpKind::Register(a), OpKind::Immediate(v)) => iced_with2_ri(i.code, a, v),
            (OpKind::Memory, OpKind::Immediate(v)) => iced_with2_mi(i.code, i.mem, v as i32),
            _ => None,
        }
    } else {
        match (args[0], args[1], args[2]) {
            (OpKind::Register(a), OpKind::Register(b), OpKind::Register(c)) => iced_with3_rrr(i.code, a, b, c),
            (OpKind::Register(a), OpKind::Memory, OpKind::Register(c)) => iced_with3_rmr(i.code, a, i.mem, c),
            (OpKind::Register(a), OpKind::Register(b), OpKind::Memory) => iced_with3_rrm(i.code, a, b, i.mem),
            _ => None,
        }
    }
}

/// The `iced_x86` instructions of a laid-out block, each at the address that marks
/// its label; `None` where an instruction cannot be built.
fn iced_block(code: &LabelledCode) -> (r: Option<Vec<IcedInstr>>)
    requires
        code.ips@.len() == code.instrs@.len(),
        forall|k: int| 0 <= k < code.instrs@.len() ==> is_instruction_code(#[trigger] code.instrs@[k].code),
    ensures
        r matches Some(v) ==> spec_iced_block(code.instrs@, code.ips@, code.instrs@.len()) == Some(v@),
        r is None ==> spec_iced_block(code.instrs@, code.ips@, code.instrs@.len()) is None,
        r matches Some(v) ==> v@.len() == code.instrs@.len(),
        r matches Some(v) ==> forall|k: int| 0 <= k < v@.len() ==> #[trigger] iced_code(v@[k]) == code.instrs@[k].code,
{
    let mut out: Vec<IcedInstr> = Vec::new();
    let mut k: usize = 0;
    while k < code.instrs.len()
        invariant
            k <= code.instrs@.len(),
            code.ips@.len() == code.instrs@.len(),
            forall|j: int| 0 <= j < code.instrs@.len() ==> is_instruction_code(#[trigger] code.instrs@[j].code),
            spec_iced_block(code.instrs@, code.ips@, k as nat) == Some(out@),
            out@.len() == k,
            forall|j: int| 0 <= j < k ==> #[trigger] iced_code(out@[j]) == code.instrs@[j].code,
        decreases code.instrs@.len() - k,
    {
        match iced_instr(&code.instrs[k]) {
            Some(mut instr) => {
                set_ip(&mut instr, code.ips[k]);
                out.push(instr);
            },
            None => {
                proof {
                    lemma_iced_block_fails_on(code.instrs@, code.ips@, (k + 1) as nat, code.instrs@.len());
                }
                return None;
            },
        }
        k += 1;
    }
    Some(out)
}

/// The machine code of the block `ass` placed at `rip`: its laid-out instructions (an
/// empty one appended where a label names the end), each built for its operand form
/// and marked with the id of its label, encoded together; each branch to a label goes
/// to the instruction that the label names. `None` where an instruction cannot be
/// built or the encoder refuses the block.
pub open spec fn spec_encode_block(ass: Assembler, rip: u64) -> Option<(Seq<u8>, Seq<u32>)> {
    let instrs = spec_laid_instrs(ass);
    match spec_iced_block(instrs, spec_laid_ips(ass), instrs.len()) {
        Some(v) => iced_block_encoding(v, rip),
        None => None,
    }
}

/// Encodes the block `ass` for address `rip` (see `spec_encode_block`).
pub fn encode_block(ass: &Assembler, rip: u64) -> (r: Option<Encoded>)
    requires
        ass.labels_in_range(),
        ass.instrs@.len() < MAX_BLOCK_INSTRS,
        forall|k: int| 0 <= k < ass.instrs@.len() ==> is_instruction_code(#[trigger] ass.instrs@[k].code),
    ensures
        match r {
            Some(e) => {
                &&& spec_encode_block(*ass, rip) == Some((e.code@, e.offsets@))
                &&& e.offsets@.len() == spec_laid_instrs(*ass).len()
                &&& encoder_offsets_ok(e.offsets@, e.code@.len() as usize)
            },
            None => spec_encode_block(*ass, rip) is None,
        },
{
    let laid = ass.label_layout();
    proof {
        assert(laid.ips@ =~= spec_laid_ips(*ass));
        assert forall|k: int| 0 <= k < laid.instrs@.len() implies is_instruction_code(#[trigger] laid.instrs@[k].code) by {
            if k < ass.instrs@.len() {
                assert(laid.instrs@[k] == ass.instrs@[k]);
            }
        }
    }
    match iced_block(&laid) {
        Some(instrs) => {
            proof {
                assert forall|k: int| 0 <= k < instrs@.len() implies is_instruction_code(iced_code(#[trigger] instrs@[k])) by {
                    assert(iced_code(instrs@[k]) == laid.instrs@[k].code);
                }
            }
            block_encode(&instrs, rip)
        },
        None => None,
    }
}

} // verus!
