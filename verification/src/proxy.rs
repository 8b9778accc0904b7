//! The native code through which translated code calls a function of a wrapped
//! library: it calls the function with the translated code's arguments, then
//! returns to the translated caller through the shadow stack.
use vstd::prelude::*;
use crate::x86::{self, Assembler, X86Instr, OpKind, RAX, RDX, RDI, RSP, R10, R11, R15};
use crate::arm::X0;
use crate::register::{PARAM_OFFSET, SHADOW_SP_OFFSET, RegTranslation, spec_translate_reg};

verus! {

/// The label that the shadow-stack check jumps to when the return address does
/// not match.
pub const SHADOW_STACK_MISS: u64 = 1;

/// The instructions of the proxy for the library function at `target`, where
/// `indirect_jump` is the native handler of jumps to translated addresses.
pub open spec fn spec_lib_proxy(target: u64, indirect_jump: u64) -> Seq<X86Instr> {
    seq![
        // Keep r10 and the link register (r11) across the native call.
        x86::with_ri(x86::SUB_RM64_IMM8, RSP, 16),
        x86::with_mr(x86::MOV_RM64_R64, x86::mem_base_displ(RSP, 0), R10),
        x86::with_mr(x86::MOV_RM64_R64, x86::mem_base_displ(RSP, 8), R11),
        x86::with_ri(x86::MOV_R64_IMM64, RAX, target as i64),
        x86::with_r(x86::CALL_RM64, RAX),
        x86::with_rm(x86::MOV_R64_RM64, R10, x86::mem_base_displ(RSP, 0)),
        x86::with_rm(x86::MOV_R64_RM64, R11, x86::mem_base_displ(RSP, 8)),
        x86::with_ri(x86::ADD_RM64_IMM8, RSP, 16),
        // The result goes where translated code expects it (x0).
        x86::with_rr(x86::MOV_RM64_R64, RDI, RAX),
        // Pop the shadow stack: native return address, then the guest one.
        x86::with_rm(x86::MOV_R64_RM64, RDX, x86::mem_base_displ(R15, SHADOW_SP_OFFSET as u64)),
        x86::with_rm(x86::MOV_R64_RM64, RAX, x86::mem_base_displ(RDX, 8)),
        x86::with_rr(x86::CMP_RM64_R64, R11, RAX),
        x86::with_rm(x86::MOV_R64_RM64, RAX, x86::mem_base_displ(RDX, 0)),
        x86::with_rm(x86::LEA_R64_M, RDX, x86::mem_base_displ(RDX, 16)),
        x86::with_mr(x86::MOV_RM64_R64, x86::mem_base_displ(R15, SHADOW_SP_OFFSET as u64), RDX),
        x86::with_branch(x86::JNE_REL32_64, SHADOW_STACK_MISS),
        x86::with_r(x86::JMP_RM64, RAX),
        // On a miss, jump to the translation of the link register instead.
        x86::with_mr(x86::MOV_RM64_R64, x86::mem_base_displ(R15, PARAM_OFFSET as u64), R11),
        x86::with_ri(x86::MOV_R64_IMM64, RAX, indirect_jump as i64),
        x86::with_r(x86::CALL_RM64, RAX),
    ]
}

/// The index of the instruction the miss label names.
pub const SHADOW_STACK_MISS_INDEX: usize = 17;

/// The proxy through which translated code calls the native function at
/// `target`: it saves r10 and the link register, calls the function, moves its
/// result to the first argument register, and pops the shadow stack; when the
/// popped guest return address matches the link register it jumps to the native
/// one, and otherwise it hands the link register to the `indirect_jump` handler.
pub fn create_lib_proxy(target: u64, indirect_jump: u64) -> (r: Assembler)
    ensures
        r.instrs@ == spec_lib_proxy(target, indirect_jump),
        r.labels@ == seq![(SHADOW_STACK_MISS, SHADOW_STACK_MISS_INDEX)],
        r.next_label == SHADOW_STACK_MISS + 1,
{
    let mut ass = Assembler::new();
    ass.add(x86::with_ri(x86::SUB_RM64_IMM8, RSP, 16));
    ass.add(x86::with_mr(x86::MOV_RM64_R64, x86::mem_base_displ(RSP, 0), R10));
    ass.add(x86::with_mr(x86::MOV_RM64_R64, x86::mem_base_displ(RSP, 8), R11));
    ass.add(x86::with_ri(x86::MOV_R64_IMM64, RAX, target as i64));
    ass.add(x86::with_r(x86::CALL_RM64, RAX));
    ass.add(x86::with_rm(x86::MOV_R64_RM64, R10, x86::mem_base_displ(RSP, 0)));
    ass.add(x86::with_rm(x86::MOV_R64_RM64, R11, x86::mem_base_displ(RSP, 8)));
    ass.add(x86::with_ri(x86::ADD_RM64_IMM8, RSP, 16));
    ass.add(x86::with_rr(x86::MOV_RM64_R64, RDI, RAX));
    ass.add(x86::with_rm(x86::MOV_R64_RM64, RDX, x86::mem_base_displ(R15, SHADOW_SP_OFFSET as u64)));
    ass.add(x86::with_rm(x86::MOV_R64_RM64, RAX, x86::mem_base_displ(RDX, 8)));
    ass.add(x86::with_rr(x86::CMP_RM64_R64, R11, RAX));
    ass.add(x86::with_rm(x86::MOV_R64_RM64, RAX, x86::mem_base_displ(RDX, 0)));
    ass.add(x86::with_rm(x86::LEA_R64_M, RDX, x86::mem_base_displ(RDX, 16)));
    ass.add(x86::with_mr(x86::MOV_RM64_R64, x86::mem_base_displ(R15, SHADOW_SP_OFFSET as u64), RDX));
    let shadow_stack_miss = ass.create_label();
    ass.add(x86::with_branch(x86::JNE_REL32_64, shadow_stack_miss));
    ass.add(x86::with_r(x86::JMP_RM64, RAX));
    ass.set_label(shadow_stack_miss);
    ass.add(x86::with_mr(x86::MOV_RM64_R64, x86::mem_base_displ(R15, PARAM_OFFSET as u64), R11));
    ass.add(x86::with_ri(x86::MOV_R64_IMM64, RAX, indirect_jump as i64));
    ass.add(x86::with_r(x86::CALL_RM64, RAX));
    assert(ass.instrs@ =~= spec_lib_proxy(target, indirect_jump));
    assert(ass.labels@ =~= seq![(SHADOW_STACK_MISS, SHADOW_STACK_MISS_INDEX)]);
    ass
}

/// Whether `instr` writes the register `r`: its first operand is `r` and it is neither a
/// compare nor a jump or call.
pub open spec fn writes_reg(instr: X86Instr, r: u32) -> bool {
    &&& instr.op0 == OpKind::Register(r)
    &&& instr.code != x86::CMP_RM64_R64
    &&& instr.code != x86::JMP_RM64
    &&& instr.code != x86::CALL_RM64
}

/// The proxy returns the library function's result in x0: x0 lives in rdi, and after
/// the call of the function at `target` (loaded into rax), the proxy copies rax, the
/// native result register, into rdi before anything else writes rax; nothing writes rdi
/// after that.
pub proof fn lemma_lib_proxy_returns_result_in_x0(target: u64, indirect_jump: u64)
    ensures
        spec_translate_reg(X0).0 == RegTranslation::Direct(RDI),
        ({
            let t = spec_lib_proxy(target, indirect_jump);
            exists|c: int, k: int| {
                &&& 0 < c < k < t.len()
                &&& t[c - 1] == x86::with_ri(x86::MOV_R64_IMM64, RAX, target as i64)
                &&& #[trigger] t[c] == x86::with_r(x86::CALL_RM64, RAX)
                &&& #[trigger] t[k] == x86::with_rr(x86::MOV_RM64_R64, RDI, RAX)
                &&& forall|j: int| c < j < k ==> !writes_reg(#[trigger] t[j], RAX)
                &&& forall|j: int| k < j < t.len() ==> !writes_reg(#[trigger] t[j], RDI)
            }
        }),
{
    let t = spec_lib_proxy(target, indirect_jump);
    assert(t[4] == x86::with_r(x86::CALL_RM64, RAX));
    assert(t[8] == x86::with_rr(x86::MOV_RM64_R64, RDI, RAX));
    assert forall|j: int| 4 < j < 8 implies !writes_reg(#[trigger] t[j], RAX) by {
        assert(j == 5 || j == 6 || j == 7);
    }
    assert forall|j: int| 8 < j < t.len() implies !writes_reg(#[trigger] t[j], RDI) by {
        assert(9 <= j <= 20);
    }
}

} // verus!
