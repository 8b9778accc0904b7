//! Pointer authentication (FEAT_PAuth) instructions.
use vstd::prelude::*;
use crate::arm::{Instruction, Op};
use crate::x86::Assembler;

verus! {

/// The pointer authentication mnemonics. Adding a PAC modifies the pointer in place, so
/// it need not be emulated; authenticating and stripping a PAC that was never added are
/// then no-ops as well.
pub open spec fn is_pauth_op(op: Op) -> bool {
    match op {
        Op::PACIASP | Op::PACIAZ | Op::PACIA1716 | Op::PACIBSP | Op::PACIBZ | Op::PACIB1716
        | Op::PACIA | Op::PACDA | Op::PACIB | Op::PACDB | Op::PACIZA | Op::PACDZA | Op::PACIZB
        | Op::PACDZB => true,
        Op::AUTIASP | Op::AUTIAZ | Op::AUTIA1716 | Op::AUTIBSP | Op::AUTIBZ | Op::AUTIB1716
        | Op::AUTIA | Op::AUTDA | Op::AUTIB | Op::AUTDB | Op::AUTIZA | Op::AUTDZA | Op::AUTIZB
        | Op::AUTDZB => true,
        Op::XPACD | Op::XPACI | Op::XPACLRI => true,
        _ => false,
    }
}

/// Translates a pointer authentication instruction to nothing; returns whether the
/// instruction was one.
pub fn compile_instr(arm_instr: &Instruction, _ass: &mut Assembler) -> (r: bool)
    ensures
        r == is_pauth_op(arm_instr.op),
        *final(_ass) == *old(_ass),
{
    match arm_instr.op {
        Op::PACIASP | Op::PACIAZ | Op::PACIA1716 | Op::PACIBSP | Op::PACIBZ | Op::PACIB1716
        | Op::PACIA | Op::PACDA | Op::PACIB | Op::PACDB | Op::PACIZA | Op::PACDZA | Op::PACIZB
        | Op::PACDZB => {}
        // PACGA is not among them: it computes a code into a register
        // Authenticate PAC instructions
        Op::AUTIASP | Op::AUTIAZ | Op::AUTIA1716 | Op::AUTIBSP | Op::AUTIBZ | Op::AUTIB1716
        | Op::AUTIA | Op::AUTDA | Op::AUTIB | Op::AUTDB | Op::AUTIZA | Op::AUTDZA | Op::AUTIZB
        | Op::AUTDZB => {}
        // Since we don't add a PAC, stripping it also becomes a no-op
        Op::XPACD | Op::XPACI | Op::XPACLRI => {}
        _ => return false,
    }
    true
}

} // verus!
