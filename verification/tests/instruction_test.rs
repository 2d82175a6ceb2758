//! Decoder classification, barrel shifter corner cases, and ALU flag
//! semantics on concrete values.

use arm7tdmi::arm7_tdmi::instruction::{barrel_shifter, decode_arm, decode_thumb, ArmAluOpcode,
    ArmAluShiftCodes, ArmInstructionType, ThumbInstructionType};
use arm7tdmi::arm7_tdmi::ARM7TDMI;

#[test]
fn test_arm_decode() {
    // add r1, r2, 0x10
    assert_eq!(decode_arm(0xe2821010), ArmInstructionType::DataProcessing);
    // mov r1, r2
    assert_eq!(decode_arm(0xe1a01002), ArmInstructionType::DataProcessing);
    // bics r1, r2
    assert_eq!(decode_arm(0xe1d11002), ArmInstructionType::DataProcessing);
    // mlaeq r10, r11, r12, r13
    assert_eq!(decode_arm(0x002adc9b), ArmInstructionType::Multiply);
    // smull r10, r11, r12, r13
    assert_eq!(decode_arm(0xe0cbad9c), ArmInstructionType::Multiply);
    // bleq 0x10
    assert_eq!(decode_arm(0x0b000002), ArmInstructionType::Branch);
    // bxmi r9
    assert_eq!(decode_arm(0x412fff19), ArmInstructionType::BranchAndExchange);
    // swp r10, r11, [r12]
    assert_eq!(decode_arm(0xe10ca09b), ArmInstructionType::SingleDataSwap);
    // ldrb r3, [r8, #3]
    assert_eq!(decode_arm(0xe5d83003), ArmInstructionType::SingleDataTransfer);

    // ldrh r3, [r0, #0xc1]
    assert_eq!(decode_arm(0xe1d0acb1), ArmInstructionType::HwTransfer);

    // ldrh r3, <same address>
    assert_eq!(decode_arm(0xe15fa0b8), ArmInstructionType::HwTransfer);

    // undefined
    assert_eq!(decode_arm(0xf7ffffff), ArmInstructionType::Undefined);

    // ldmia r0, {r5 - r8}
    assert_eq!(decode_arm(0xe89001e0), ArmInstructionType::BlockDataTransfer);

    // swi 0x30
    assert_eq!(decode_arm(0xef000030), ArmInstructionType::SoftwareInterrupt);

    assert_eq!(decode_thumb(0xdf0a).unwrap(), ThumbInstructionType::SoftwareInterrupt);

    assert_eq!(
        decode_thumb(0b00000000_00000000).unwrap(),
        ThumbInstructionType::MoveShiftedRegister
    );

    assert_eq!(decode_thumb(0b00011000_00000000).unwrap(), ThumbInstructionType::AddSubtract);

    assert_eq!(decode_thumb(0b00100000_00000000).unwrap(), ThumbInstructionType::AluImmediate);

    assert_eq!(decode_thumb(0b01000000_00000000).unwrap(), ThumbInstructionType::Alu);

    assert_eq!(decode_thumb(0b01000100_00000000).unwrap(), ThumbInstructionType::HiRegisterBx);

    assert_eq!(decode_thumb(0b01001000_00000000).unwrap(), ThumbInstructionType::PcRelativeLoad);

    assert_eq!(
        decode_thumb(0b01011101_00000000).unwrap(),
        ThumbInstructionType::LoadStoreRegOffset
    );

    assert_eq!(
        decode_thumb(0b01011110_00000000).unwrap(),
        ThumbInstructionType::LoadStoreSignExt
    );

    assert_eq!(
        decode_thumb(0b01111111_00000000).unwrap(),
        ThumbInstructionType::LoadStoreImmOffset
    );

    assert_eq!(
        decode_thumb(0b10000000_00000000).unwrap(),
        ThumbInstructionType::LoadStoreHalfWord
    );

    assert_eq!(
        decode_thumb(0b10011111_00000000).unwrap(),
        ThumbInstructionType::SpRelativeLoadStore
    );

    assert_eq!(decode_thumb(0b10100111_00000000).unwrap(), ThumbInstructionType::LoadAddress);

    assert_eq!(decode_thumb(0b10110000_00000100).unwrap(), ThumbInstructionType::AddOffsetToSp);

    assert_eq!(decode_thumb(0b10111100_00000100).unwrap(), ThumbInstructionType::PushPopRegister);

    assert_eq!(
        decode_thumb(0b11001100_00000100).unwrap(),
        ThumbInstructionType::MultipleLoadStore
    );

    assert_eq!(
        decode_thumb(0b11010100_00000100).unwrap(),
        ThumbInstructionType::ConditionalBranch
    );

    assert_eq!(
        decode_thumb(0b11011111_00000100).unwrap(),
        ThumbInstructionType::SoftwareInterrupt
    );

    assert_eq!(
        decode_thumb(0b11100111_00000100).unwrap(),
        ThumbInstructionType::UncoditionalBranch
    );

    assert_eq!(
        decode_thumb(0b11111111_11111111).unwrap(),
        ThumbInstructionType::LongBranchWithLink
    );
}

#[test]
fn test_decode_thumb_invalid() {
    // the gaps of the compressed encoding classify as nothing
    assert_eq!(decode_thumb(0xb800), None);
    assert_eq!(decode_thumb(0xe800), None);
    assert_eq!(decode_thumb(0xb100), None);
}

#[test]
fn test_barrel_shifter_noop_cases() {
    let lsl = ArmAluShiftCodes::LSL.value();
    let lsr = ArmAluShiftCodes::LSR.value();
    let asr = ArmAluShiftCodes::ASR.value();
    let ror = ArmAluShiftCodes::ROR.value();

    // a register-specified amount of zero never shifts, for any value and
    // either carry
    for v in [0u32, 1, 0xffff_ffff, 0x8000_0001, 0x1234_5678] {
        for c in [false, true] {
            assert_eq!(barrel_shifter(v, lsl, 0, c, true), (v, c, false));
            assert_eq!(barrel_shifter(v, lsr, 0, c, true), (v, c, false));
            assert_eq!(barrel_shifter(v, asr, 0, c, true), (v, c, false));
            assert_eq!(barrel_shifter(v, ror, 0, c, true), (v, c, false));
            // LSL #0 is a no-op with an immediate amount too
            assert_eq!(barrel_shifter(v, lsl, 0, c, false), (v, c, false));
        }
    }
}

#[test]
fn test_barrel_shifter_corner_cases() {
    let lsl = ArmAluShiftCodes::LSL.value();
    let lsr = ArmAluShiftCodes::LSR.value();
    let asr = ArmAluShiftCodes::ASR.value();
    let ror = ArmAluShiftCodes::ROR.value();

    // ordinary shifts
    assert_eq!(barrel_shifter(0xff, lsl, 4, false, false), (0xff0, false, true));
    assert_eq!(barrel_shifter(0xff0, lsr, 4, false, false), (0xff, false, true));
    assert_eq!(barrel_shifter(0x8000_0000, asr, 4, false, false), (0xf800_0000, false, true));
    assert_eq!(barrel_shifter(0x0000_00ff, ror, 8, false, false), (0xff00_0000, true, true));

    // amount 32: LSL gives 0 with carry = bit 0, LSR 0 with carry = bit 31,
    // ASR saturates to the sign, ROR only refreshes the carry from bit 31
    assert_eq!(barrel_shifter(0x8000_0001, lsl, 32, false, false), (0, true, true));
    assert_eq!(barrel_shifter(0x8000_0001, lsr, 32, false, false), (0, true, true));
    assert_eq!(barrel_shifter(0x8000_0001, asr, 32, false, false), (0xffff_ffff, true, true));
    assert_eq!(barrel_shifter(0x8000_0001, ror, 32, false, false), (0x8000_0001, true, true));

    // amounts beyond 32
    assert_eq!(barrel_shifter(0xffff_ffff, lsl, 33, true, false), (0, false, true));
    assert_eq!(barrel_shifter(0xffff_ffff, lsr, 33, true, false), (0, false, true));
    assert_eq!(barrel_shifter(0x8000_0000, asr, 40, false, false), (0xffff_ffff, true, true));
    assert_eq!(barrel_shifter(0x0000_ff00, ror, 40, false, false), (0x0000_00ff, false, true));

    // an immediate amount of zero: LSR/ASR read as #32, ROR becomes RRX
    assert_eq!(barrel_shifter(0x8000_0000, lsr, 0, false, false), (0, true, true));
    assert_eq!(barrel_shifter(0x8000_0000, asr, 0, false, false), (0xffff_ffff, true, true));
    assert_eq!(barrel_shifter(0x0000_0003, ror, 0, false, false), (0x0000_0001, true, true));
    assert_eq!(barrel_shifter(0x0000_0002, ror, 0, true, false), (0x8000_0001, false, true));
}

#[test]
fn test_alu_carry_overflow() {
    let cpu = ARM7TDMI::new();

    // ADD carry is the unsigned sum exceeding 32 bits
    let (r, c, v) = cpu.alu_operation(0xffff_ffff, 1, ArmAluOpcode::ADD);
    assert_eq!(r, 0);
    assert_eq!(c, true);
    assert_eq!(v, false);
    let (r, c, v) = cpu.alu_operation(0x7fff_ffff, 1, ArmAluOpcode::ADD);
    assert_eq!(r, 0x8000_0000);
    assert_eq!(c, false);
    assert_eq!(v, true);
    let (r, c, v) = cpu.alu_operation(2, 3, ArmAluOpcode::ADD);
    assert_eq!(r, 5);
    assert_eq!(c, false);
    assert_eq!(v, false);

    // SUB carry is "no unsigned borrow": set exactly when b <= a
    let (r, c, v) = cpu.alu_operation(5, 3, ArmAluOpcode::SUB);
    assert_eq!(r, 2);
    assert_eq!(c, true);
    assert_eq!(v, false);
    let (r, c, v) = cpu.alu_operation(3, 5, ArmAluOpcode::SUB);
    assert_eq!(r, 0xffff_fffe);
    assert_eq!(c, false);
    assert_eq!(v, false);
    let (r, c, v) = cpu.alu_operation(0x8000_0000, 1, ArmAluOpcode::SUB);
    assert_eq!(r, 0x7fff_ffff);
    assert_eq!(c, true);
    assert_eq!(v, true);

    // logical opcodes produce neither carry nor overflow of their own
    let (r, c, v) = cpu.alu_operation(0xf0f0, 0x0ff0, ArmAluOpcode::AND);
    assert_eq!(r, 0x00f0);
    assert_eq!(c, false);
    assert_eq!(v, false);
    let (r, _, _) = cpu.alu_operation(0, 0x1234, ArmAluOpcode::MNV);
    assert_eq!(r, !0x1234u32);
}

#[test]
fn test_opcode_helpers() {
    assert!(ArmAluOpcode::is_test_opcode(ArmAluOpcode::TST));
    assert!(ArmAluOpcode::is_test_opcode(ArmAluOpcode::CMN));
    assert!(!ArmAluOpcode::is_test_opcode(ArmAluOpcode::ADD));
    assert!(ArmAluOpcode::is_logical(ArmAluOpcode::MOV));
    assert!(ArmAluOpcode::is_arithmetic(ArmAluOpcode::SBC));
    assert_eq!(ArmAluOpcode::from_value(4), ArmAluOpcode::ADD);
    assert_eq!(ArmAluOpcode::from_value(13), ArmAluOpcode::MOV);
    assert_eq!(ArmAluOpcode::from_value(15), ArmAluOpcode::MNV);
}
