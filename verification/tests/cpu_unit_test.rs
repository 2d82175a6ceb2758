//! Direct exercises of single handlers: multiply timing, exception entry, and
//! every fatal-error condition.

use arm7tdmi::arm7_tdmi::{CpuError, InstructionStep, OperatingMode, ARM7TDMI, NOP};
use arm7tdmi::bus::{BusCycle, BusSignal, MemoryRequest, MemoryResponse, TransferSize};

fn fetch_request() -> MemoryRequest {
    MemoryRequest {
        address: 0,
        data: 0,
        nr_w: BusSignal::LOW,
        mas: TransferSize::WORD,
        n_opc: BusSignal::LOW,
        n_trans: BusSignal::HIGH,
        lock: BusSignal::LOW,
        t_bit: BusSignal::LOW,
        bus_cycle: BusCycle::SEQUENTIAL,
    }
}

/// Number of cycles a multiply spends before its state machine returns to
/// step 0.
fn multiply_cycles(word: u32, multiplier: u32, multiplicand: u32) -> u32 {
    let mut cpu = ARM7TDMI::new();
    cpu.arm_current_execute = word;
    cpu.rf.write_register(11, multiplier);
    cpu.rf.write_register(10, multiplicand);

    let mut req = fetch_request();
    cpu.arm_multiply(&mut req).unwrap();
    assert_eq!(cpu.instruction_step, InstructionStep::STEP1);

    let mut cycles = 0;
    while cpu.instruction_step != InstructionStep::STEP0 {
        let mut req = fetch_request();
        cpu.arm_multiply(&mut req).unwrap();
        cycles += 1;
        assert!(cycles < 100);
    }
    cycles
}

#[test]
fn test_multiply_timing() {
    // mul r12, r10, r11 (multiplier in r11, multiplicand in r10)
    let mul = 0xe00c0b9a_u32;
    // mla r12, r10, r11, r0
    let mla = 0xe02c0b9a_u32;
    // umlal r0, r12, r10, r11
    let umlal = 0xe0ac0b9a_u32;

    // cycles follow the number of significant bytes of the multiplier
    assert_eq!(multiply_cycles(mul, 0x12, 5), 1);
    assert_eq!(multiply_cycles(mul, 0x1234, 5), 2);
    assert_eq!(multiply_cycles(mul, 0x123456, 5), 3);
    assert_eq!(multiply_cycles(mul, 0x12345678, 5), 4);

    // an all-zero multiplier still costs the minimum single cycle
    assert_eq!(multiply_cycles(mul, 0, 5), 1);

    // and never depend on the multiplicand
    for multiplicand in [0u32, 1, 0xffff_ffff, 0x8000_0000] {
        assert_eq!(multiply_cycles(mul, 0x1234, multiplicand), 2);
    }

    // accumulate adds one internal cycle, long accumulate adds two
    assert_eq!(multiply_cycles(mla, 0x1234, 5), 3);
    assert_eq!(multiply_cycles(umlal, 0x1234, 5), 4);
}

#[test]
fn test_error_unimplemented_instruction() {
    let mut cpu = ARM7TDMI::new();
    // a coprocessor data operation is not modeled
    cpu.arm_current_execute = 0xee000000;
    let rsp = MemoryResponse { data: NOP, n_wait: BusSignal::HIGH };
    assert_eq!(cpu.step(rsp), Err(CpuError::UnimplementedInstruction));
}

#[test]
fn test_error_invalid_thumb_instruction() {
    let mut cpu = ARM7TDMI::new();
    let cpsr = cpu.rf.get_cpsr();
    cpu.rf.write_cpsr(cpsr | 0x20).unwrap();
    cpu.arm_current_execute = 0xb800;
    let rsp = MemoryResponse { data: NOP, n_wait: BusSignal::HIGH };
    assert_eq!(cpu.step(rsp), Err(CpuError::InvalidThumbInstruction));
}

#[test]
fn test_error_invalid_step() {
    let mut cpu = ARM7TDMI::new();
    // a branch never defines step 3
    cpu.arm_current_execute = 0xea000000;
    cpu.instruction_step = InstructionStep::STEP3;
    let mut req = fetch_request();
    assert_eq!(cpu.arm_branch(&mut req), Err(CpuError::InvalidInstructionStep));
}

#[test]
fn test_error_pc_operand_forbidden() {
    let mut cpu = ARM7TDMI::new();

    // mrs r15, cpsr
    cpu.arm_current_execute = 0xe10ff000;
    assert_eq!(cpu.arm_psr_transfer_mrs(), Err(CpuError::PcOperandForbidden));

    // swp with r15 as destination
    cpu.arm_current_execute = 0xe100f09a;
    let mut req = fetch_request();
    let rsp = MemoryResponse { data: 0, n_wait: BusSignal::HIGH };
    assert_eq!(cpu.arm_single_data_swap(&mut req, &rsp), Err(CpuError::PcOperandForbidden));

    // ldm with r15 as base
    cpu.arm_current_execute = 0xe89f0003;
    let mut req = fetch_request();
    assert_eq!(cpu.arm_block_data_transfer(&mut req, &rsp), Err(CpuError::PcOperandForbidden));
}

#[test]
fn test_error_spsr_unavailable() {
    let mut cpu = ARM7TDMI::new();
    // movs pc, r14 in SYSTEM mode has no saved status register to return to
    cpu.arm_current_execute = 0xe1b0f00e;
    let mut req = fetch_request();
    assert_eq!(cpu.arm_data_processing(&mut req), Err(CpuError::SpsrUnavailable));
}

#[test]
fn test_error_invalid_mode_write() {
    let mut cpu = ARM7TDMI::new();
    // msr cpsr_c, #0 would set mode field 0, which encodes no mode
    cpu.arm_current_execute = 0xe321f000;
    assert_eq!(cpu.arm_psr_transfer_msr(), Err(CpuError::InvalidModeWrite));
}

#[test]
fn test_error_reserved_operand() {
    let mut cpu = ARM7TDMI::new();
    // a half-word transfer pattern with sub-opcode 0 belongs to swap
    cpu.arm_current_execute = 0xe1c00090;
    let mut req = fetch_request();
    let rsp = MemoryResponse { data: 0, n_wait: BusSignal::HIGH };
    assert_eq!(cpu.arm_hw_transfer(&mut req, &rsp), Err(CpuError::ReservedOperand));
}

#[test]
fn test_error_empty_prefetch_queue() {
    let mut cpu = ARM7TDMI::new();
    // with no fetch in flight and nothing queued, a retiring instruction has
    // nothing to execute next
    cpu.data_is_fetch = false;
    let rsp = MemoryResponse { data: NOP, n_wait: BusSignal::HIGH };
    assert_eq!(cpu.step(rsp), Err(CpuError::EmptyPrefetchQueue));
}

#[test]
fn test_stalled_bus_keeps_state() {
    let mut cpu = ARM7TDMI::new();
    let wait = MemoryResponse { data: 0x12345678, n_wait: BusSignal::LOW };

    let first = cpu.step(wait).unwrap();
    let second = cpu.step(wait).unwrap();

    // a stalled bus gets a structurally identical request every cycle and the
    // core keeps all of its state
    assert_eq!(first, second);
    assert_eq!(cpu.instruction_step, InstructionStep::STEP0);
    assert_eq!(cpu.arm_current_execute, NOP);
    assert_eq!(first.nr_w, BusSignal::LOW);
    assert_eq!(first.mas, TransferSize::WORD);
    assert_eq!(first.bus_cycle, BusCycle::SEQUENTIAL);
}

#[test]
fn test_reset_state() {
    let mut cpu = ARM7TDMI::new();
    assert_eq!(cpu.rf.get_mode(), OperatingMode::SYSTEM);
    assert_eq!(cpu.rf.get_cpsr(), OperatingMode::SYSTEM.value());
    assert_eq!(cpu.rf.get_register(15, 0), 0x07ff_fff8);
    for i in 0..15u32 {
        assert_eq!(cpu.rf.get_register(i, 0), 0);
    }
    // the first fetch goes to the reset vector target
    assert_eq!(cpu.rf.get_register(15, 8), 0x0800_0000);
}
