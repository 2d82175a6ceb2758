//! Register file behaviour: banking across mode switches, status register
//! writes, flags and condition codes.

use arm7tdmi::arm7_tdmi::register_file::{ConditionCodeFlag, RegisterFile};
use arm7tdmi::arm7_tdmi::OperatingMode;

#[test]
fn test_registers() {
    let mut rf = RegisterFile::new();

    // Should be able to enter user mode
    assert_eq!(rf.write_cpsr(OperatingMode::USER.value()), Ok(()));

    // r0 should get 0x0a as value
    rf.write_register(0, 0x0a);
    assert_eq!(0x0a, rf.get_register(0, 0));

    // r14 should get 0x7ac0 as value
    rf.write_register(14, 0x7ac0);
    assert_eq!(0x7ac0, rf.get_register(14, 0));

    // r14 should get 0x1001 as value
    rf.write_register(15, 0x1001);
    assert_eq!(0x1001, rf.get_register(15, 0));

    // Should be able to enter IRQ mode
    assert_eq!(rf.write_cpsr(OperatingMode::IRQ.value()), Ok(()));

    // Should be able to write spsr (since now we are in privileged mode)
    assert_eq!(rf.write_spsr(OperatingMode::SYSTEM.value()), Ok(()));

    // r0 is always the same for all the modes
    assert_eq!(0x0a, rf.get_register(0, 0));

    // r14 is not the same as before, so it does not have the same value
    assert_eq!(0x0, rf.get_register(14, 0));

    // Check the previous writing on spsr
    assert_eq!(OperatingMode::SYSTEM.value(), rf.get_spsr());

    // Check the current mode
    assert_eq!(rf.get_mode(), OperatingMode::IRQ);

    // r14 is now modified
    rf.write_register(14, 0xbe11);
    assert_eq!(0xbe11, rf.get_register(14, 0));

    // r15 is alawys the same
    assert_eq!(0x1001, rf.get_register(15, 0));

    // Enter system mode
    assert_eq!(rf.write_cpsr(OperatingMode::SYSTEM.value()), Ok(()));

    // r0 is always the same for all the modes
    assert_eq!(0x0a, rf.get_register(0, 0));

    // SYSTEM and USER share the same registers
    assert_eq!(0x7ac0, rf.get_register(14, 0));
    assert_eq!(0x1001, rf.get_register(15, 0));
    assert_eq!(rf.get_mode(), OperatingMode::SYSTEM);

    // Enter supervisor mode
    assert_eq!(rf.write_cpsr(OperatingMode::SUPERVISOR.value()), Ok(()));
    assert_eq!(rf.get_mode(), OperatingMode::SUPERVISOR);

    // r0 is always the same for all the modes
    assert_eq!(0x0a, rf.get_register(0, 0));

    // r14 is different for each mode
    assert_eq!(0, rf.get_register(14, 0));

    // Cannot write an invalid mode into cpsr
    assert_eq!(rf.write_cpsr(0), Err(()));

    // Enter user mode and set flags N and C
    assert_eq!(rf.write_cpsr(0xa0000000 | OperatingMode::USER.value()), Ok(()));
    assert_eq!(rf.get_mode(), OperatingMode::USER);

    // Only N and C are set
    assert_eq!(rf.is_flag_set(&ConditionCodeFlag::N), true);
    assert_eq!(rf.is_flag_set(&ConditionCodeFlag::Z), false);
    assert_eq!(rf.is_flag_set(&ConditionCodeFlag::C), true);
    assert_eq!(rf.is_flag_set(&ConditionCodeFlag::V), false);
}

#[test]
fn test_condition_code() {
    let mut rf = RegisterFile::new();

    // Z = 1
    let _ = rf.write_cpsr(0x40000010);

    //LS
    assert_eq!(true, rf.check_condition_code(0b1001));
    // EQ
    assert_eq!(true, rf.check_condition_code(0b0000));
    // VS
    assert_eq!(false, rf.check_condition_code(0b0110));
    // always
    assert_eq!(true, rf.check_condition_code(0b1110));
}

#[test]
fn test_condition_code_full_table() {
    let mut rf = RegisterFile::new();

    // every flag combination against all 16 condition codes
    for flags in 0..16u32 {
        let n = flags & 8 != 0;
        let z = flags & 4 != 0;
        let c = flags & 2 != 0;
        let v = flags & 1 != 0;
        let cpsr = (flags << 28) | OperatingMode::SYSTEM.value();
        assert_eq!(rf.write_cpsr(cpsr), Ok(()));

        let expected = [
            z,
            !z,
            c,
            !c,
            n,
            !n,
            v,
            !v,
            c && !z,
            !c || z,
            n == v,
            n != v,
            !z && (n == v),
            z || (n != v),
            true,
            true,
        ];
        for code in 0..16u32 {
            assert_eq!(rf.check_condition_code(code), expected[code as usize]);
        }
    }
}

#[test]
fn test_banked_r13_round_trip() {
    let mut rf = RegisterFile::new();

    // fill r0-r7 and r13 in SUPERVISOR mode
    assert_eq!(rf.write_cpsr(OperatingMode::SUPERVISOR.value()), Ok(()));
    for i in 0..8u32 {
        rf.write_register(i, 0x100 + i);
    }
    rf.write_register(13, 0xdeadbeef);
    assert_eq!(rf.get_register(13, 0), 0xdeadbeef);

    // the value written to the SUPERVISOR r13 is not observable from USER mode
    assert_eq!(rf.write_cpsr(OperatingMode::USER.value()), Ok(()));
    assert_ne!(rf.get_register(13, 0), 0xdeadbeef);
    assert_eq!(rf.get_register(13, 0), 0);

    // while r0-r7 are visible unchanged across any mode switch
    for i in 0..8u32 {
        assert_eq!(rf.get_register(i, 0), 0x100 + i);
    }
    let _ = rf.write_cpsr(OperatingMode::FIQ.value());
    for i in 0..8u32 {
        assert_eq!(rf.get_register(i, 0), 0x100 + i);
    }

    // and switching back shows the banked value again
    assert_eq!(rf.write_cpsr(OperatingMode::SUPERVISOR.value()), Ok(()));
    assert_eq!(rf.get_register(13, 0), 0xdeadbeef);
}

#[test]
fn test_spsr_rules() {
    let mut rf = RegisterFile::new();

    // a SYSTEM-mode spsr write is accepted but has no effect
    assert_eq!(rf.write_spsr(OperatingMode::FIQ.value()), Ok(()));

    // an invalid mode value is rejected
    assert_eq!(rf.write_cpsr(OperatingMode::IRQ.value()), Ok(()));
    assert_eq!(rf.write_spsr(3), Err(()));

    // each privileged mode has its own bank
    assert_eq!(rf.write_spsr(0x40000000 | OperatingMode::USER.value()), Ok(()));
    assert_eq!(rf.get_spsr(), 0x40000000 | OperatingMode::USER.value());
    assert_eq!(rf.write_cpsr(OperatingMode::UND.value()), Ok(()));
    assert_eq!(rf.get_spsr(), 0);
}
