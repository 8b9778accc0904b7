//! Opcode tables of the two-operand integer operations.
use vstd::prelude::*;
use crate::instr_utils::{OpRRCodes, OpRICodes};
use crate::x86;

verus! {

#[verifier::allow_in_spec]
pub fn mov_rr_codes() -> OpRRCodes
    returns OpRRCodes::new(x86::MOV_R32_RM32, x86::MOV_RM32_R32, x86::MOV_R64_RM64, x86::MOV_RM64_R64),
{
    OpRRCodes::new(x86::MOV_R32_RM32, x86::MOV_RM32_R32, x86::MOV_R64_RM64, x86::MOV_RM64_R64)
}

#[verifier::allow_in_spec]
pub fn add_rr_codes() -> OpRRCodes
    returns OpRRCodes::new(x86::ADD_R32_RM32, x86::ADD_RM32_R32, x86::ADD_R64_RM64, x86::ADD_RM64_R64),
{
    OpRRCodes::new(x86::ADD_R32_RM32, x86::ADD_RM32_R32, x86::ADD_R64_RM64, x86::ADD_RM64_R64)
}

#[verifier::allow_in_spec]
pub fn sub_rr_codes() -> OpRRCodes
    returns OpRRCodes::new(x86::SUB_R32_RM32, x86::SUB_RM32_R32, x86::SUB_R64_RM64, x86::SUB_RM64_R64),
{
    OpRRCodes::new(x86::SUB_R32_RM32, x86::SUB_RM32_R32, x86::SUB_R64_RM64, x86::SUB_RM64_R64)
}

#[verifier::allow_in_spec]
pub fn and_rr_codes() -> OpRRCodes
    returns OpRRCodes::new(x86::AND_R32_RM32, x86::AND_RM32_R32, x86::AND_R64_RM64, x86::AND_RM64_R64),
{
    OpRRCodes::new(x86::AND_R32_RM32, x86::AND_RM32_R32, x86::AND_R64_RM64, x86::AND_RM64_R64)
}

#[verifier::allow_in_spec]
pub fn compare_rr_codes() -> OpRRCodes
    returns OpRRCodes::new(x86::CMP_R32_RM32, x86::CMP_RM32_R32, x86::CMP_R64_RM64, x86::CMP_RM64_R64),
{
    OpRRCodes::new(x86::CMP_R32_RM32, x86::CMP_RM32_R32, x86::CMP_R64_RM64, x86::CMP_RM64_R64)
}

#[verifier::allow_in_spec]
pub fn add_ri_codes() -> OpRICodes
    returns OpRICodes::new(x86::ADD_RM32_IMM32, x86::ADD_RM64_IMM32),
{
    OpRICodes::new(x86::ADD_RM32_IMM32, x86::ADD_RM64_IMM32)
}

#[verifier::allow_in_spec]
pub fn sub_ri_codes() -> OpRICodes
    returns OpRICodes::new(x86::SUB_RM32_IMM32, x86::SUB_RM64_IMM32),
{
    OpRICodes::new(x86::SUB_RM32_IMM32, x86::SUB_RM64_IMM32)
}

#[verifier::allow_in_spec]
pub fn and_ri_codes() -> OpRICodes
    returns OpRICodes::new(x86::AND_RM32_IMM32, x86::AND_RM64_IMM32),
{
    OpRICodes::new(x86::AND_RM32_IMM32, x86::AND_RM64_IMM32)
}

#[verifier::allow_in_spec]
pub fn or_ri_codes() -> OpRICodes
    returns OpRICodes::new(x86::OR_RM32_IMM32, x86::OR_RM64_IMM32),
{
    OpRICodes::new(x86::OR_RM32_IMM32, x86::OR_RM64_IMM32)
}

#[verifier::allow_in_spec]
pub fn compare_ri_codes() -> OpRICodes
    returns OpRICodes::new(x86::CMP_RM32_IMM32, x86::CMP_RM64_IMM32),
{
    OpRICodes::new(x86::CMP_RM32_IMM32, x86::CMP_RM64_IMM32)
}

#[verifier::allow_in_spec]
pub fn mov_ri_codes() -> OpRICodes
    returns OpRICodes::new(x86::MOV_RM32_IMM32, x86::MOV_RM64_IMM32),
{
    OpRICodes::new(x86::MOV_RM32_IMM32, x86::MOV_RM64_IMM32)
}

} // verus!
