//! Instruction classification for both encodings, the barrel shifter with all
//! its corner cases, the arithmetic/logic unit with its carry and overflow
//! semantics, and the flag update rules.

use vstd::prelude::*;

use crate::arm7_tdmi::register_file::{spec_cpsr_flags_updated, spec_flag, spec_has_spsr,
    spec_mode_bits, spec_spsr_read, valid_mode_bits, ConditionCodeFlag, RegisterBanks};
use crate::arm7_tdmi::ARM7TDMI;
use crate::common::{spec_bit32, spec_ror32, wadd, wsub};

verus! {

broadcast use crate::common::lemma_and_mask_bound_u32;

/// The instruction classes of the 32-bit encoding. Encodings overlap, so
/// classification is priority-ordered first-match (see `decode_arm`).
#[derive(Debug, PartialEq, Eq, Clone, Copy, Structural)]
pub enum ArmInstructionType {
    DataProcessing,
    Multiply,
    SingleDataSwap,
    BranchAndExchange,
    HwTransfer,
    SingleDataTransfer,
    Undefined,
    BlockDataTransfer,
    Branch,
    CoprocessorDataTransfer,
    CoprocessorDataOperation,
    CoprocessorRegisterTransfer,
    SoftwareInterrupt,
    Unimplemented,
    PsrTransferMRS,
    PsrTransferMSR,
}

/// The 16 opcodes of the arithmetic/logic unit.
#[derive(Debug, PartialEq, Eq, Clone, Copy, Structural)]
pub enum ArmAluOpcode {
    AND,
    EOR,
    SUB,
    RSB,
    ADD,
    ADC,
    SBC,
    RSC,
    TST,
    TEQ,
    CMP,
    CMN,
    ORR,
    MOV,
    BIC,
    MNV,
}

/// The 4-bit field encoding of an ALU opcode.
pub open spec fn spec_opcode_value(op: ArmAluOpcode) -> u32 {
    match op {
        ArmAluOpcode::AND => 0,
        ArmAluOpcode::EOR => 1,
        ArmAluOpcode::SUB => 2,
        ArmAluOpcode::RSB => 3,
        ArmAluOpcode::ADD => 4,
        ArmAluOpcode::ADC => 5,
        ArmAluOpcode::SBC => 6,
        ArmAluOpcode::RSC => 7,
        ArmAluOpcode::TST => 8,
        ArmAluOpcode::TEQ => 9,
        ArmAluOpcode::CMP => 10,
        ArmAluOpcode::CMN => 11,
        ArmAluOpcode::ORR => 12,
        ArmAluOpcode::MOV => 13,
        ArmAluOpcode::BIC => 14,
        ArmAluOpcode::MNV => 15,
    }
}

/// The opcode encoded by a 4-bit field value; every value of 15 and above
/// reads as MNV.
pub open spec fn spec_opcode_from_value(v: u32) -> ArmAluOpcode {
    if v == 0 {
        ArmAluOpcode::AND
    } else if v == 1 {
        ArmAluOpcode::EOR
    } else if v == 2 {
        ArmAluOpcode::SUB
    } else if v == 3 {
        ArmAluOpcode::RSB
    } else if v == 4 {
        ArmAluOpcode::ADD
    } else if v == 5 {
        ArmAluOpcode::ADC
    } else if v == 6 {
        ArmAluOpcode::SBC
    } else if v == 7 {
        ArmAluOpcode::RSC
    } else if v == 8 {
        ArmAluOpcode::TST
    } else if v == 9 {
        ArmAluOpcode::TEQ
    } else if v == 10 {
        ArmAluOpcode::CMP
    } else if v == 11 {
        ArmAluOpcode::CMN
    } else if v == 12 {
        ArmAluOpcode::ORR
    } else if v == 13 {
        ArmAluOpcode::MOV
    } else if v == 14 {
        ArmAluOpcode::BIC
    } else {
        ArmAluOpcode::MNV
    }
}

/// Test opcodes (TST, TEQ, CMP, CMN) only ever update the flags and never
/// write a destination register.
pub open spec fn spec_is_test_opcode(op: ArmAluOpcode) -> bool {
    8 <= spec_opcode_value(op) <= 11
}

/// Logical opcodes take their carry from the shifter, not from the ALU.
pub open spec fn spec_is_logical(op: ArmAluOpcode) -> bool {
    ||| spec_opcode_value(op) <= 1
    ||| spec_opcode_value(op) == 8
    ||| spec_opcode_value(op) == 9
    ||| spec_opcode_value(op) >= 0xc
}

impl ArmAluOpcode {
    /// Whether `opcode` is a test opcode, which updates the flags but never
    /// writes back a result register.
    pub fn is_test_opcode(opcode: ArmAluOpcode) -> (r: bool)
        ensures
            r == spec_is_test_opcode(opcode),
    {
        match opcode {
            ArmAluOpcode::TST => true,
            ArmAluOpcode::TEQ => true,
            ArmAluOpcode::CMP => true,
            ArmAluOpcode::CMN => true,
            _ => false,
        }
    }

    /// Whether `opcode` is logical: no sum or subtraction is involved, so the
    /// carry comes from the shifter and the overflow flag is untouched.
    pub fn is_logical(opcode: ArmAluOpcode) -> (r: bool)
        ensures
            r == spec_is_logical(opcode),
    {
        match opcode {
            ArmAluOpcode::AND => true,
            ArmAluOpcode::EOR => true,
            ArmAluOpcode::TST => true,
            ArmAluOpcode::TEQ => true,
            ArmAluOpcode::ORR => true,
            ArmAluOpcode::MOV => true,
            ArmAluOpcode::BIC => true,
            ArmAluOpcode::MNV => true,
            _ => false,
        }
    }

    /// Whether `opcode` is arithmetic: it involves a sum or a subtraction and
    /// produces the carry and overflow flags itself.
    pub fn is_arithmetic(opcode: ArmAluOpcode) -> (r: bool)
        ensures
            r == !spec_is_logical(opcode),
    {
        !ArmAluOpcode::is_logical(opcode)
    }

    /// The opcode encoded by the 4-bit field `opcode`.
    pub fn from_value(opcode: u32) -> (r: ArmAluOpcode)
        ensures
            r == spec_opcode_from_value(opcode),
    {
        if opcode == 0 {
            ArmAluOpcode::AND
        } else if opcode == 1 {
            ArmAluOpcode::EOR
        } else if opcode == 2 {
            ArmAluOpcode::SUB
        } else if opcode == 3 {
            ArmAluOpcode::RSB
        } else if opcode == 4 {
            ArmAluOpcode::ADD
        } else if opcode == 5 {
            ArmAluOpcode::ADC
        } else if opcode == 6 {
            ArmAluOpcode::SBC
        } else if opcode == 7 {
            ArmAluOpcode::RSC
        } else if opcode == 8 {
            ArmAluOpcode::TST
        } else if opcode == 9 {
            ArmAluOpcode::TEQ
        } else if opcode == 10 {
            ArmAluOpcode::CMP
        } else if opcode == 11 {
            ArmAluOpcode::CMN
        } else if opcode == 12 {
            ArmAluOpcode::ORR
        } else if opcode == 13 {
            ArmAluOpcode::MOV
        } else if opcode == 14 {
            ArmAluOpcode::BIC
        } else {
            ArmAluOpcode::MNV
        }
    }
}

/// The four shift operations of the barrel shifter, in their 2-bit encoding
/// order: LSL, LSR, ASR, ROR.
#[derive(Debug, PartialEq, Eq, Clone, Copy, Structural)]
pub enum ArmAluShiftCodes {
    LSL,
    LSR,
    ASR,
    ROR,
}

/// The 2-bit field encoding of a shift operation.
pub open spec fn spec_shift_code_value(s: ArmAluShiftCodes) -> u32 {
    match s {
        ArmAluShiftCodes::LSL => 0,
        ArmAluShiftCodes::LSR => 1,
        ArmAluShiftCodes::ASR => 2,
        ArmAluShiftCodes::ROR => 3,
    }
}

impl ArmAluShiftCodes {
    /// The 2-bit field encoding of this shift operation.
    pub fn value(&self) -> (r: u32)
        ensures
            r == spec_shift_code_value(*self),
    {
        match self {
            ArmAluShiftCodes::LSL => 0,
            ArmAluShiftCodes::LSR => 1,
            ArmAluShiftCodes::ASR => 2,
            ArmAluShiftCodes::ROR => 3,
        }
    }
}

/// The class of a 32-bit instruction word: priority-ordered bit-mask matching,
/// first match wins, because the encodings overlap.
pub open spec fn spec_decode_arm(data: u32) -> ArmInstructionType {
    if data & 0x0fff_fff0 == 0x012f_ff10 {
        ArmInstructionType::BranchAndExchange
    } else if data & 0x0e00_0000 == 0x0800_0000 {
        ArmInstructionType::BlockDataTransfer
    } else if data & 0x0e00_0000 == 0x0a00_0000 {
        ArmInstructionType::Branch
    } else if data & 0x0f00_0000 == 0x0f00_0000 {
        ArmInstructionType::SoftwareInterrupt
    } else if data & 0x0e00_0010 == 0x0600_0010 {
        ArmInstructionType::Undefined
    } else if data & 0x0c00_0000 == 0x0400_0000 {
        ArmInstructionType::SingleDataTransfer
    } else if data & 0x0f80_0ff0 == 0x0100_0090 {
        ArmInstructionType::SingleDataSwap
    } else if data & 0x0f00_00f0 == 0x0000_0090 {
        ArmInstructionType::Multiply
    } else if data & 0x0e00_0090 == 0x0000_0090 {
        ArmInstructionType::HwTransfer
    } else if data & 0x0fbf_0000 == 0x010f_0000 {
        ArmInstructionType::PsrTransferMRS
    } else if data & 0x0db0_f000 == 0x0120_f000 {
        ArmInstructionType::PsrTransferMSR
    } else if data & 0x0c00_0000 == 0 {
        ArmInstructionType::DataProcessing
    } else {
        ArmInstructionType::Unimplemented
    }
}

/// Classify a 32-bit instruction word, with the exact priority order of
/// `spec_decode_arm`: branch-and-exchange, block transfer, branch, software
/// interrupt, undefined, single data transfer, swap, multiply, half-word
/// transfer, PSR transfers, data processing, and unimplemented for the rest.
pub fn decode_arm(data: u32) -> (r: ArmInstructionType)
    ensures
        r == spec_decode_arm(data),
{
    if data & 0x0fff_fff0 == 0x012f_ff10 {
        ArmInstructionType::BranchAndExchange
    } else if data & 0x0e00_0000 == 0x0800_0000 {
        ArmInstructionType::BlockDataTransfer
    } else if data & 0x0e00_0000 == 0x0a00_0000 {
        ArmInstructionType::Branch
    } else if data & 0x0f00_0000 == 0x0f00_0000 {
        ArmInstructionType::SoftwareInterrupt
    } else if data & 0x0e00_0010 == 0x0600_0010 {
        ArmInstructionType::Undefined
    } else if data & 0x0c00_0000 == 0x0400_0000 {
        ArmInstructionType::SingleDataTransfer
    } else if data & 0x0f80_0ff0 == 0x0100_0090 {
        ArmInstructionType::SingleDataSwap
    } else if data & 0x0f00_00f0 == 0x0000_0090 {
        ArmInstructionType::Multiply
    } else if data & 0x0e00_0090 == 0x0000_0090 {
        ArmInstructionType::HwTransfer
    } else if data & 0x0fbf_0000 == 0x010f_0000 {
        ArmInstructionType::PsrTransferMRS
    } else if data & 0x0db0_f000 == 0x0120_f000 {
        ArmInstructionType::PsrTransferMSR
    } else if data & 0x0c00_0000 == 0 {
        ArmInstructionType::DataProcessing
    } else {
        ArmInstructionType::Unimplemented
    }
}

/// The instruction classes of the 16-bit compressed encoding.
#[derive(Debug, PartialEq, Eq, Clone, Copy, Structural)]
pub enum ThumbInstructionType {
    MoveShiftedRegister,
    AddSubtract,
    AluImmediate,
    Alu,
    HiRegisterBx,
    PcRelativeLoad,
    LoadStoreRegOffset,
    LoadStoreSignExt,
    LoadStoreImmOffset,
    LoadStoreHalfWord,
    SpRelativeLoadStore,
    LoadAddress,
    AddOffsetToSp,
    PushPopRegister,
    MultipleLoadStore,
    ConditionalBranch,
    SoftwareInterrupt,
    UncoditionalBranch,
    LongBranchWithLink,
}

/// The class of a compressed instruction word, or `None` where the halfword is
/// not a valid compressed-set instruction; priority-ordered first-match.
pub open spec fn spec_decode_thumb(data: u32) -> Option<ThumbInstructionType> {
    if data & 0xf000 == 0xf000 {
        Some(ThumbInstructionType::LongBranchWithLink)
    } else if data & 0xf800 == 0xe000 {
        Some(ThumbInstructionType::UncoditionalBranch)
    } else if data & 0xff00 == 0xdf00 {
        Some(ThumbInstructionType::SoftwareInterrupt)
    } else if data & 0xf000 == 0xd000 {
        Some(ThumbInstructionType::ConditionalBranch)
    } else if data & 0xf000 == 0xc000 {
        Some(ThumbInstructionType::MultipleLoadStore)
    } else if data & 0xf600 == 0xb400 {
        Some(ThumbInstructionType::PushPopRegister)
    } else if data & 0xff00 == 0xb000 {
        Some(ThumbInstructionType::AddOffsetToSp)
    } else if data & 0xf000 == 0xa000 {
        Some(ThumbInstructionType::LoadAddress)
    } else if data & 0xf000 == 0x9000 {
        Some(ThumbInstructionType::SpRelativeLoadStore)
    } else if data & 0xf000 == 0x8000 {
        Some(ThumbInstructionType::LoadStoreHalfWord)
    } else if data & 0xe000 == 0x6000 {
        Some(ThumbInstructionType::LoadStoreImmOffset)
    } else if data & 0xf200 == 0x5200 {
        Some(ThumbInstructionType::LoadStoreSignExt)
    } else if data & 0xf200 == 0x5000 {
        Some(ThumbInstructionType::LoadStoreRegOffset)
    } else if data & 0xf800 == 0x4800 {
        Some(ThumbInstructionType::PcRelativeLoad)
    } else if data & 0xfc00 == 0x4400 {
        Some(ThumbInstructionType::HiRegisterBx)
    } else if data & 0xfc00 == 0x4000 {
        Some(ThumbInstructionType::Alu)
    } else if data & 0xe000 == 0x2000 {
        Some(ThumbInstructionType::AluImmediate)
    } else if data & 0xf800 == 0x1800 {
        Some(ThumbInstructionType::AddSubtract)
    } else if data & 0xe000 == 0 {
        Some(ThumbInstructionType::MoveShiftedRegister)
    } else {
        None
    }
}

/// Classify a compressed instruction word; `None` exactly where the word does
/// not belong to any of the 19 classes (a guest-code bug).
pub fn decode_thumb(data: u32) -> (r: Option<ThumbInstructionType>)
    ensures
        r == spec_decode_thumb(data),
{
    if data & 0xf000 == 0xf000 {
        Some(ThumbInstructionType::LongBranchWithLink)
    } else if data & 0xf800 == 0xe000 {
        Some(ThumbInstructionType::UncoditionalBranch)
    } else if data & 0xff00 == 0xdf00 {
        Some(ThumbInstructionType::SoftwareInterrupt)
    } else if data & 0xf000 == 0xd000 {
        Some(ThumbInstructionType::ConditionalBranch)
    } else if data & 0xf000 == 0xc000 {
        Some(ThumbInstructionType::MultipleLoadStore)
    } else if data & 0xf600 == 0xb400 {
        Some(ThumbInstructionType::PushPopRegister)
    } else if data & 0xff00 == 0xb000 {
        Some(ThumbInstructionType::AddOffsetToSp)
    } else if data & 0xf000 == 0xa000 {
        Some(ThumbInstructionType::LoadAddress)
    } else if data & 0xf000 == 0x9000 {
        Some(ThumbInstructionType::SpRelativeLoadStore)
    } else if data & 0xf000 == 0x8000 {
        Some(ThumbInstructionType::LoadStoreHalfWord)
    } else if data & 0xe000 == 0x6000 {
        Some(ThumbInstructionType::LoadStoreImmOffset)
    } else if data & 0xf200 == 0x5200 {
        Some(ThumbInstructionType::LoadStoreSignExt)
    } else if data & 0xf200 == 0x5000 {
        Some(ThumbInstructionType::LoadStoreRegOffset)
    } else if data & 0xf800 == 0x4800 {
        Some(ThumbInstructionType::PcRelativeLoad)
    } else if data & 0xfc00 == 0x4400 {
        Some(ThumbInstructionType::HiRegisterBx)
    } else if data & 0xfc00 == 0x4000 {
        Some(ThumbInstructionType::Alu)
    } else if data & 0xe000 == 0x2000 {
        Some(ThumbInstructionType::AluImmediate)
    } else if data & 0xf800 == 0x1800 {
        Some(ThumbInstructionType::AddSubtract)
    } else if data & 0xe000 == 0 {
        Some(ThumbInstructionType::MoveShiftedRegister)
    } else {
        None
    }
}

/// Arithmetic right shift of a 32-bit value: the sign bit fills the vacated
/// high bits.
pub open spec fn spec_asr32(x: u32, amount: u32) -> u32
    recommends
        0 < amount < 32,
{
    if spec_bit32(x, 31) {
        (x >> amount) | (0xffff_ffffu32 << ((32 - amount) as u32))
    } else {
        x >> amount
    }
}

/// The barrel shifter: `(result, carry_out, performed_shift)` for a value, a
/// shift type (0 LSL, 1 LSR, 2 ASR, 3 ROR), an amount, the current carry and
/// whether the amount was specified by a register. `performed_shift` is false
/// exactly in the documented no-op cases, which cost no extra cycle.
pub open spec fn spec_barrel_shifter(operand: u32, shift_type: u32, shift_amount: u32,
    old_c: bool, is_register: bool) -> (u32, bool, bool)
    recommends
        shift_type < 4,
{
    if shift_type == 0 {
        // LSL: amount 0 leaves value and carry; amount 32 gives 0 with
        // carry = bit 0; larger amounts give 0 with carry cleared.
        if shift_amount == 0 {
            (operand, old_c, false)
        } else if shift_amount < 32 {
            (operand << shift_amount, spec_bit32(operand, (32 - shift_amount) as u32), true)
        } else if shift_amount == 32 {
            (0u32, operand & 1 == 1, true)
        } else {
            (0u32, false, true)
        }
    } else if shift_type == 1 {
        // LSR: a register-specified amount 0 acts as LSL #0; an immediate
        // amount 0 reads as LSR #32.
        if shift_amount == 0 && is_register {
            (operand, old_c, false)
        } else if shift_amount == 32 || shift_amount == 0 {
            (0u32, spec_bit32(operand, 31), true)
        } else if shift_amount < 32 {
            (operand >> shift_amount, spec_bit32(operand, (shift_amount - 1) as u32), true)
        } else {
            (0u32, false, true)
        }
    } else if shift_type == 2 {
        // ASR: sign bit fills; amounts of 32 and beyond, and an immediate
        // amount 0, saturate to the sign bit.
        if shift_amount == 0 && is_register {
            (operand, old_c, false)
        } else if shift_amount >= 32 || shift_amount == 0 {
            (if spec_bit32(operand, 31) { 0xffff_ffffu32 } else { 0u32 },
                spec_bit32(operand, 31), true)
        } else {
            (spec_asr32(operand, shift_amount), spec_bit32(operand, (shift_amount - 1) as u32),
                true)
        }
    } else {
        // ROR: an immediate amount 0 is RRX (rotate by one through the carry);
        // only the low five bits of a non-zero amount matter, and a non-zero
        // multiple of 32 only refreshes the carry from bit 31.
        if shift_amount == 0 {
            if is_register {
                (operand, old_c, false)
            } else {
                let rotated = if old_c {
                    (operand >> 1u32) | 0x8000_0000u32
                } else {
                    (operand >> 1u32) & 0x7fff_ffffu32
                };
                (rotated, operand & 1 == 1, true)
            }
        } else {
            let s = (shift_amount % 32) as u32;
            if s == 0 {
                (operand, spec_bit32(operand, 31), true)
            } else {
                (spec_ror32(operand, s), spec_bit32(operand, (s - 1) as u32), true)
            }
        }
    }
}

/// The barrel shifter feeding the second ALU operand.
///
/// Returns the shifted value, the carry the shifter hands to logical
/// operations, and whether a shift was actually performed (a no-op shift does
/// not cost the one-cycle timing penalty of a real one).
pub fn barrel_shifter(operand: u32, shift_type: u32, shift_amount: u32, old_c: bool,
    is_register: bool) -> (r: (u32, bool, bool))
    requires
        shift_type < 4,
    ensures
        r == spec_barrel_shifter(operand, shift_type, shift_amount, old_c, is_register),
{
    if shift_type == 0 {
        if shift_amount == 0 {
            (operand, old_c, false)
        } else if shift_amount < 32 {
            (operand << shift_amount, (operand >> (32 - shift_amount)) & 1 == 1, true)
        } else if shift_amount == 32 {
            (0, operand & 1 == 1, true)
        } else {
            (0, false, true)
        }
    } else if shift_type == 1 {
        if shift_amount == 0 && is_register {
            (operand, old_c, false)
        } else if shift_amount == 32 || shift_amount == 0 {
            (0, (operand >> 31) & 1 == 1, true)
        } else if shift_amount < 32 {
            (operand >> shift_amount, (operand >> (shift_amount - 1)) & 1 == 1, true)
        } else {
            (0, false, true)
        }
    } else if shift_type == 2 {
        if shift_amount == 0 && is_register {
            (operand, old_c, false)
        } else if shift_amount >= 32 || shift_amount == 0 {
            let sign = (operand >> 31) & 1 == 1;
            (if sign { 0xffff_ffff } else { 0 }, sign, true)
        } else {
            let shifted = operand >> shift_amount;
            let filled = if (operand >> 31) & 1 == 1 {
                shifted | (0xffff_ffff << (32 - shift_amount))
            } else {
                shifted
            };
            (filled, (operand >> (shift_amount - 1)) & 1 == 1, true)
        }
    } else {
        if shift_amount == 0 {
            if is_register {
                (operand, old_c, false)
            } else {
                let rotated = if old_c {
                    (operand >> 1) | 0x8000_0000
                } else {
                    (operand >> 1) & 0x7fff_ffff
                };
                (rotated, operand & 1 == 1, true)
            }
        } else {
            let s = shift_amount % 32;
            if s == 0 {
                (operand, (operand >> 31) & 1 == 1, true)
            } else {
                (crate::common::ror32(operand, s), (operand >> (s - 1)) & 1 == 1, true)
            }
        }
    }
}

/// Result of an arithmetic ALU opcode: modulo-2^32 combination of the two
/// operands, with ADC/SBC/RSC folding in the carry flag (as a borrow
/// adjustment for the subtracting forms).
pub open spec fn spec_alu_result(a: u32, b: u32, c: bool, op: ArmAluOpcode) -> u32
    recommends
        !spec_is_logical(op),
{
    let ci: u32 = if c { 1u32 } else { 0u32 };
    match op {
        ArmAluOpcode::SUB => wsub(a, b),
        ArmAluOpcode::CMP => wsub(a, b),
        ArmAluOpcode::RSB => wsub(b, a),
        ArmAluOpcode::ADD => wadd(a, b),
        ArmAluOpcode::CMN => wadd(a, b),
        ArmAluOpcode::ADC => ((a + b + ci) % 0x1_0000_0000) as u32,
        ArmAluOpcode::SBC => ((a + 0x1_0000_0000 + ci - 1 - b) % 0x1_0000_0000) as u32,
        ArmAluOpcode::RSC => ((b + 0x1_0000_0000 + ci - 1 - a) % 0x1_0000_0000) as u32,
        _ => 0u32,
    }
}

/// Carry flag of an arithmetic ALU opcode: the unsigned carry/not-borrow out
/// of bit 31.
pub open spec fn spec_alu_carry(a: u32, b: u32, c: bool, op: ArmAluOpcode) -> bool
    recommends
        !spec_is_logical(op),
{
    let ci: u32 = if c { 1u32 } else { 0u32 };
    match op {
        ArmAluOpcode::SUB => b <= a,
        ArmAluOpcode::CMP => b <= a,
        ArmAluOpcode::RSB => a <= b,
        ArmAluOpcode::ADD => a + b > 0xffff_ffff,
        ArmAluOpcode::CMN => a + b > 0xffff_ffff,
        ArmAluOpcode::ADC => a + b + ci > 0xffff_ffff,
        ArmAluOpcode::SBC => b + 1 - ci <= a,
        ArmAluOpcode::RSC => a + 1 - ci <= b,
        _ => false,
    }
}

/// Overflow flag of an arithmetic ALU opcode: the signed-overflow bit trick on
/// bit 31 of the operands and the result.
pub open spec fn spec_alu_overflow(a: u32, b: u32, c: bool, op: ArmAluOpcode) -> bool
    recommends
        !spec_is_logical(op),
{
    let r = spec_alu_result(a, b, c, op);
    match op {
        ArmAluOpcode::SUB => spec_bit32((a ^ b) & (!b ^ r), 31),
        ArmAluOpcode::CMP => spec_bit32((a ^ b) & (!b ^ r), 31),
        ArmAluOpcode::SBC => spec_bit32((a ^ b) & (!b ^ r), 31),
        ArmAluOpcode::RSB => spec_bit32((b ^ a) & (!a ^ r), 31),
        ArmAluOpcode::RSC => spec_bit32((b ^ a) & (!a ^ r), 31),
        ArmAluOpcode::ADD => spec_bit32((b ^ !a) & (a ^ r), 31),
        ArmAluOpcode::CMN => spec_bit32((b ^ !a) & (a ^ r), 31),
        ArmAluOpcode::ADC => spec_bit32((b ^ !a) & (a ^ r), 31),
        _ => false,
    }
}

/// Result of any of the 16 ALU opcodes; the logical ones combine the operands
/// bitwise, the arithmetic ones go through `spec_alu_result`.
pub open spec fn spec_alu_op_result(a: u32, b: u32, c: bool, op: ArmAluOpcode) -> u32 {
    match op {
        ArmAluOpcode::AND => a & b,
        ArmAluOpcode::TST => a & b,
        ArmAluOpcode::EOR => a ^ b,
        ArmAluOpcode::TEQ => a ^ b,
        ArmAluOpcode::ORR => a | b,
        ArmAluOpcode::MOV => b,
        ArmAluOpcode::BIC => a & !b,
        ArmAluOpcode::MNV => !b,
        _ => spec_alu_result(a, b, c, op),
    }
}

/// Carry of any ALU opcode: false for the logical ones (their carry comes
/// from the shifter).
pub open spec fn spec_alu_op_carry(a: u32, b: u32, c: bool, op: ArmAluOpcode) -> bool {
    if spec_is_logical(op) {
        false
    } else {
        spec_alu_carry(a, b, c, op)
    }
}

/// Overflow of any ALU opcode: false for the logical ones.
pub open spec fn spec_alu_op_overflow(a: u32, b: u32, c: bool, op: ArmAluOpcode) -> bool {
    if spec_is_logical(op) {
        false
    } else {
        spec_alu_overflow(a, b, c, op)
    }
}


/// The shifter's no-op cases: a register-specified shift amount of zero (and
/// an immediate LSL #0) returns the operand, keeps the carry, and reports
/// that no shift was performed, for every value and carry.
pub proof fn lemma_shifter_noop_cases(v: u32, c: bool)
    ensures
        spec_barrel_shifter(v, 0, 0, c, true) == (v, c, false),
        spec_barrel_shifter(v, 0, 0, c, false) == (v, c, false),
        spec_barrel_shifter(v, 1, 0, c, true) == (v, c, false),
        spec_barrel_shifter(v, 2, 0, c, true) == (v, c, false),
        spec_barrel_shifter(v, 3, 0, c, true) == (v, c, false),
{
}

/// ALU carry and overflow are exactly the documented formulas, for all 32-bit
/// operands and either carry-in: the ADD carry is the unsigned sum exceeding
/// the 32-bit range, the SUB carry is the absence of an unsigned borrow, and
/// the overflow of the ADD/SUB/ADC/SBC family is the signed-overflow bit
/// trick on bit 31 of the operands and the result.
pub proof fn lemma_alu_carry_overflow(a: u32, b: u32, c: bool)
    ensures
        spec_alu_carry(a, b, c, ArmAluOpcode::ADD) == ((a as u64) + (b as u64) > 0xffff_ffff),
        spec_alu_carry(a, b, c, ArmAluOpcode::SUB) == (b <= a),
        spec_alu_carry(a, b, c, ArmAluOpcode::ADC) == ((a as u64) + (b as u64) + (if c {
            1u64
        } else {
            0u64
        }) > 0xffff_ffff),
        spec_alu_carry(a, b, c, ArmAluOpcode::SBC) == ((b as u64) + 1 - (if c {
            1u64
        } else {
            0u64
        }) <= a as u64),
        spec_alu_overflow(a, b, c, ArmAluOpcode::ADD) == spec_bit32((b ^ !a) & (a ^ wadd(a, b)),
            31),
        spec_alu_overflow(a, b, c, ArmAluOpcode::SUB) == spec_bit32((a ^ b) & (!b ^ wsub(a, b)),
            31),
        spec_alu_overflow(a, b, c, ArmAluOpcode::ADC) == spec_bit32((b ^ !a) & (a ^ spec_alu_result(
            a, b, c, ArmAluOpcode::ADC)), 31),
        spec_alu_overflow(a, b, c, ArmAluOpcode::SBC) == spec_bit32((a ^ b) & (!b ^ spec_alu_result(
            a, b, c, ArmAluOpcode::SBC)), 31),
{
}

impl ARM7TDMI {
    /// The ALU for arithmetic opcodes: result, carry and overflow, with the
    /// current carry flag folded into ADC/SBC/RSC.
    pub fn alu(&self, operand1: u32, operand2: u32, opcode: ArmAluOpcode) -> (r: (u32, bool, bool))
        requires
            !spec_is_logical(opcode),
        ensures
            r.0 == spec_alu_result(operand1, operand2,
                spec_flag(self.rf@.cpsr, ConditionCodeFlag::C), opcode),
            r.1 == spec_alu_carry(operand1, operand2,
                spec_flag(self.rf@.cpsr, ConditionCodeFlag::C), opcode),
            r.2 == spec_alu_overflow(operand1, operand2,
                spec_flag(self.rf@.cpsr, ConditionCodeFlag::C), opcode),
    {
        let c_in: u32 = if self.rf.is_flag_set(&ConditionCodeFlag::C) { 1 } else { 0 };
        let a = operand1;
        let b = operand2;
        let a64 = a as u64;
        let b64 = b as u64;
        let ci64 = c_in as u64;

        let (result, c_output): (u32, bool) = match opcode {
            ArmAluOpcode::SUB | ArmAluOpcode::CMP => (crate::common::wrapping_sub_u32(a, b),
                b <= a),
            ArmAluOpcode::RSB => (crate::common::wrapping_sub_u32(b, a), a <= b),
            ArmAluOpcode::ADD | ArmAluOpcode::CMN => (crate::common::wrapping_add_u32(a, b),
                a64 + b64 > 0xffff_ffff),
            ArmAluOpcode::ADC => (((a64 + b64 + ci64) % 0x1_0000_0000) as u32,
                a64 + b64 + ci64 > 0xffff_ffff),
            ArmAluOpcode::SBC => (((a64 + 0x1_0000_0000 + ci64 - 1 - b64) % 0x1_0000_0000) as u32,
                b64 + 1 - ci64 <= a64),
            ArmAluOpcode::RSC => (((b64 + 0x1_0000_0000 + ci64 - 1 - a64) % 0x1_0000_0000) as u32,
                a64 + 1 - ci64 <= b64),
            _ => (0, false),
        };

        let v_output: bool = match opcode {
            ArmAluOpcode::SUB | ArmAluOpcode::CMP | ArmAluOpcode::SBC => (((a ^ b) & (!b ^ result))
                >> 31) & 1 == 1,
            ArmAluOpcode::RSB | ArmAluOpcode::RSC => (((b ^ a) & (!a ^ result)) >> 31) & 1 == 1,
            _ => (((b ^ !a) & (a ^ result)) >> 31) & 1 == 1,
        };

        (result, c_output, v_output)
    }

    /// The full ALU: result, carry and overflow for all 16 opcodes. Logical
    /// opcodes return no carry and no overflow of their own.
    pub fn alu_operation(&self, operand1: u32, operand2: u32, opcode: ArmAluOpcode)
        -> (r: (u32, bool, bool))
        ensures
            r.0 == spec_alu_op_result(operand1, operand2,
                spec_flag(self.rf@.cpsr, ConditionCodeFlag::C), opcode),
            r.1 == spec_alu_op_carry(operand1, operand2,
                spec_flag(self.rf@.cpsr, ConditionCodeFlag::C), opcode),
            r.2 == spec_alu_op_overflow(operand1, operand2,
                spec_flag(self.rf@.cpsr, ConditionCodeFlag::C), opcode),
    {
        match opcode {
            ArmAluOpcode::AND => (operand1 & operand2, false, false),
            ArmAluOpcode::EOR => (operand1 ^ operand2, false, false),
            ArmAluOpcode::TST => (operand1 & operand2, false, false),
            ArmAluOpcode::TEQ => (operand1 ^ operand2, false, false),
            ArmAluOpcode::ORR => (operand1 | operand2, false, false),
            ArmAluOpcode::MOV => (operand2, false, false),
            ArmAluOpcode::BIC => (operand1 & !operand2, false, false),
            ArmAluOpcode::MNV => (!operand2, false, false),
            _ => self.alu(operand1, operand2, opcode),
        }
    }

    /// Update the flags after an ALU operation. With a destination other than
    /// r15, Z and N follow the result, C comes from the shifter for logical
    /// opcodes and from the ALU for arithmetic ones, which also set V. With
    /// r15 as destination the instruction is a return: the saved status
    /// register of the current mode replaces the current one wholesale.
    pub fn update_flags(&mut self, alu_result: u32, opcode: ArmAluOpcode, rd: u32,
        carry_output: bool, carry_shifter: bool, v_output: bool)
        requires
            old(self).rf.wf(),
            rd == 15 ==> spec_has_spsr(old(self).rf@),
            rd == 15 ==> valid_mode_bits(spec_mode_bits(spec_spsr_read(old(self).rf@))),
        ensures
            final(self).rf.wf(),
            rd != 15 ==> final(self).rf@ == (RegisterBanks {
                cpsr: spec_cpsr_flags_updated(old(self).rf@.cpsr, alu_result, spec_is_logical(
                    opcode), carry_output, carry_shifter, v_output),
                ..old(self).rf@
            }),
            rd == 15 ==> final(self).rf@ == (RegisterBanks {
                cpsr: spec_spsr_read(old(self).rf@),
                ..old(self).rf@
            }),
            final(self).arm_instruction_queue == old(self).arm_instruction_queue,
            final(self).arm_current_execute == old(self).arm_current_execute,
            final(self).instruction_step == old(self).instruction_step,
            final(self).data_is_fetch == old(self).data_is_fetch,
            final(self).last_used_address == old(self).last_used_address,
            final(self).instruction_counter_step == old(self).instruction_counter_step,
            final(self).list_transfer_op == old(self).list_transfer_op,
    {
        if rd != 15 {
            self.rf.write_z(alu_result == 0);
            self.rf.write_n((alu_result >> 31) & 1 == 1);
            if ArmAluOpcode::is_logical(opcode) {
                self.rf.write_c(carry_shifter);
            } else {
                self.rf.write_c(carry_output);
                self.rf.write_v(v_output);
            }
        } else {
            let current_spsr = self.rf.get_spsr();
            let _ = self.rf.write_cpsr(current_spsr);
        }
    }
}

} // verus!
