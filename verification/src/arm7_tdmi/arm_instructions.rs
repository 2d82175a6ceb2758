//! The instruction-class handlers of the 32-bit encoding: one finite state
//! machine per class, advanced one step per clock. A handler first re-checks
//! the condition code (a failing condition makes the instruction a one-cycle
//! no-op), and step 0 always decodes and computes; later steps only model bus
//! and pipeline latency.

use vstd::prelude::*;

use crate::arm7_tdmi::instruction::{spec_alu_op_carry, spec_alu_op_overflow, spec_alu_op_result,
    spec_barrel_shifter, spec_is_logical, spec_is_test_opcode, spec_opcode_from_value,
    ArmAluOpcode};
use crate::arm7_tdmi::register_file::{spec_condition_passed, spec_cpsr_flags_updated, spec_flag,
    spec_has_spsr, spec_mode_bits, spec_reg_read, spec_reg_read_biased, spec_reg_write,
    spec_spsr_read, valid_mode_bits, ConditionCodeFlag, RegisterBanks, RegisterFile};
use crate::arm7_tdmi::{CpuError, InstructionStep, ARM7TDMI, MODE_SUPERVISOR, MODE_UND};
use crate::bus::{BusCycle, BusSignal, MemoryRequest, MemoryResponse, TransferSize};
use crate::common::{spec_bit32, spec_ror32, wadd, wsub};

verus! {

broadcast use crate::common::lemma_and_mask_bound_u32;

/// The condition field of an instruction word.
pub open spec fn spec_cond(w: u32) -> u32 {
    (w >> 28) & 0xf
}

/// The pipeline bias of an r15 operand read: the program counter reads two
/// fetches ahead, +8 in the 32-bit set and +4 in the compressed set.
pub open spec fn spec_pc_fetch_bias(b: RegisterBanks) -> u32 {
    if (b.cpsr >> 5) & 1 == 1 {
        4u32
    } else {
        8u32
    }
}

/// The two operands of a data-processing instruction, the carry handed over
/// by the shifter, and whether a shift was actually performed:
/// `(operand1, operand2, carry_shifter, there_is_shift)`. Register operands
/// read with the +8 pipeline bias on r15, or +12 when the shift amount itself
/// comes from a register; an immediate operand is the 8-bit field rotated
/// right by twice its 4-bit rotation field.
pub open spec fn spec_dp_operands(b: RegisterBanks, w: u32) -> (u32, u32, bool, bool) {
    let c_flag = spec_flag(b.cpsr, ConditionCodeFlag::C);
    let bias = spec_pc_fetch_bias(b);
    let i_flag = (w >> 25) & 1;
    let rn = (w >> 16) & 0xf;
    let rm = w & 0xf;
    let rs = (w >> 8) & 0xf;
    let shift_type = (w >> 5) & 3;
    let r_flag = (w >> 4) & 1;
    let is = (w >> 8) & 0xf;
    let nn = w & 0xff;
    if i_flag == 1 {
        let carry = if is == 0 { c_flag } else { spec_bit32(nn, (is * 2 - 1) as u32) };
        (spec_reg_read_biased(b, rn, bias), spec_ror32(nn, (is * 2) as u32), carry, false)
    } else {
        if r_flag == 1 {
            let shift_amount = spec_reg_read(b, rs) & 0xff;
            let sh = spec_barrel_shifter(spec_reg_read_biased(b, rm, 12), shift_type,
                shift_amount, c_flag, true);
            (spec_reg_read_biased(b, rn, 12), sh.0, sh.1, sh.2)
        } else {
            let shift_amount = (w >> 7) & 0x1f;
            let sh = spec_barrel_shifter(spec_reg_read_biased(b, rm, bias), shift_type,
                shift_amount, c_flag, false);
            (spec_reg_read_biased(b, rn, bias), sh.0, sh.1, sh.2)
        }
    }
}

/// ALU outcome of a data-processing instruction:
/// `(result, carry_output, overflow_output)`.
pub open spec fn spec_dp_alu(b: RegisterBanks, w: u32) -> (u32, bool, bool) {
    let ops = spec_dp_operands(b, w);
    let c = spec_flag(b.cpsr, ConditionCodeFlag::C);
    let op = spec_opcode_from_value((w >> 21) & 0xf);
    (spec_alu_op_result(ops.0, ops.1, c, op), spec_alu_op_carry(ops.0, ops.1, c, op),
        spec_alu_op_overflow(ops.0, ops.1, c, op))
}

/// The register file after the compute step of a data-processing instruction:
/// the destination is written unless the opcode is a test one, and the flags
/// update when asked (or always, for test opcodes); with r15 as destination
/// the saved status register replaces the current one instead.
pub open spec fn spec_dp_step0_rf(b: RegisterBanks, w: u32) -> RegisterBanks {
    let op = spec_opcode_from_value((w >> 21) & 0xf);
    let s_flag = (w >> 20) & 1;
    let rd = (w >> 12) & 0xf;
    let ops = spec_dp_operands(b, w);
    let alu = spec_dp_alu(b, w);
    let b1 = if !spec_is_test_opcode(op) {
        spec_reg_write(b, rd, alu.0)
    } else {
        b
    };
    if spec_is_test_opcode(op) || s_flag == 1 {
        if rd != 15 {
            RegisterBanks {
                cpsr: spec_cpsr_flags_updated(b1.cpsr, alu.0, spec_is_logical(op), alu.1, ops.2,
                    alu.2),
                ..b1
            }
        } else {
            RegisterBanks { cpsr: spec_spsr_read(b1), ..b1 }
        }
    } else {
        b1
    }
}

/// Whether the compute step of a data-processing instruction must stop
/// emulation: a register-specified shift amount taken from r15, or a flag
/// update with r15 as destination in a state with no usable saved status
/// register.
pub open spec fn spec_dp_step0_fault(b: RegisterBanks, w: u32) -> Option<CpuError> {
    let op = spec_opcode_from_value((w >> 21) & 0xf);
    let s_flag = (w >> 20) & 1;
    let rd = (w >> 12) & 0xf;
    let i_flag = (w >> 25) & 1;
    let r_flag = (w >> 4) & 1;
    let rs = (w >> 8) & 0xf;
    if i_flag == 0 && r_flag == 1 && rs == 15 {
        Some(CpuError::PcOperandForbidden)
    } else if (spec_is_test_opcode(op) || s_flag == 1) && rd == 15 && !spec_has_spsr(
        spec_reg_write(b, rd, spec_dp_alu(b, w).0)) {
        Some(CpuError::SpsrUnavailable)
    } else if (spec_is_test_opcode(op) || s_flag == 1) && rd == 15 && !valid_mode_bits(
        spec_mode_bits(spec_spsr_read(spec_reg_write(b, rd, spec_dp_alu(b, w).0)))) {
        Some(CpuError::InvalidModeWrite)
    } else {
        None
    }
}

impl ARM7TDMI {
    /// Data-processing instructions (MOV, ADD, AND, ...): one cycle, plus one
    /// internal cycle if the shifter actually shifted, plus a two-cycle
    /// pipeline refill when the destination is r15 and the opcode writes back.
    pub fn arm_data_processing(&mut self, req: &mut MemoryRequest) -> (res: Result<(), CpuError>)
        requires
            old(self).wf(),
        ensures
            final(self).wf(),
            spec_arm_data_processing_effect(*old(self), *old(req), *final(self), *final(req), res),
    {
        let w = self.arm_current_execute;
        let rd = (w >> 12) & 0xf;
        let s_flag = (w >> 20) & 1;
        let opcode = ArmAluOpcode::from_value((w >> 21) & 0xf);

        if self.instruction_step == InstructionStep::STEP0 {
            let i_flag = (w >> 25) & 1;
            let condition = (w >> 28) & 0xf;
            let rn = (w >> 16) & 0xf;
            let mut shift_amount = (w >> 7) & 0x1f;
            let rs = (w >> 8) & 0xf;
            let shift_type = (w >> 5) & 3;
            let r_flag = (w >> 4) & 1;
            let rm = w & 0xf;
            let is = (w >> 8) & 0xf;
            let nn = w & 0xff;

            if !self.rf.check_condition_code(condition) {
                return Ok(());
            }

            let pc_bias: u32 = if self.rf.is_thumb_mode() { 4 } else { 8 };
            let carry_shifter: bool;
            let mut operand1 = self.rf.get_register(rn, pc_bias);
            let mut operand2 = self.rf.get_register(rm, pc_bias);
            let mut there_is_shift = false;

            if i_flag == 1 {
                // operand2 is the immediate, rotated right by twice the
                // rotation field; the rotation also refreshes the carry.
                if is == 0 {
                    carry_shifter = self.rf.is_flag_set(&ConditionCodeFlag::C);
                } else {
                    carry_shifter = (nn >> (is * 2 - 1)) & 1 == 1;
                }
                operand2 = crate::common::ror32(nn, is * 2);
            } else {
                if r_flag == 1 {
                    if rs == 15 {
                        // The hardware forbids r15 as the shift-amount source.
                        return Err(CpuError::PcOperandForbidden);
                    }
                    shift_amount = self.rf.get_register(rs, 0) & 0xff;

                    // with a register-specified shift, r15 operands read with
                    // a +12 bias instead of +8
                    operand1 = self.rf.get_register(rn, 12);
                    operand2 = self.rf.get_register(rm, 12);
                }

                let sh = crate::arm7_tdmi::instruction::barrel_shifter(operand2, shift_type,
                    shift_amount, self.rf.is_flag_set(&ConditionCodeFlag::C), r_flag == 1);
                operand2 = sh.0;
                carry_shifter = sh.1;
                there_is_shift = sh.2;
            }

            let alu_out = self.alu_operation(operand1, operand2, opcode);
            let next_to_write = alu_out.0;
            let c_output = alu_out.1;
            let v_output = alu_out.2;

            if !ArmAluOpcode::is_test_opcode(opcode) {
                self.rf.write_register(rd, next_to_write);
            }

            if ArmAluOpcode::is_test_opcode(opcode) || s_flag == 1 {
                if rd == 15 {
                    if !self.rf.has_spsr() {
                        return Err(CpuError::SpsrUnavailable);
                    }
                    if !RegisterFile::mode_field_valid(self.rf.get_spsr()) {
                        return Err(CpuError::InvalidModeWrite);
                    }
                }
                self.update_flags(next_to_write, opcode, rd, c_output, carry_shifter, v_output);
            }

            if there_is_shift {
                // a performed shift costs one internal cycle
                req.bus_cycle = BusCycle::INTERNAL;
                self.data_is_fetch = false;
                self.instruction_step = InstructionStep::STEP1;
            } else if rd == 15 && !ArmAluOpcode::is_test_opcode(opcode) {
                // a write to r15 redirects control flow: refill the pipeline
                self.arm_instruction_queue.clear();
                req.bus_cycle = BusCycle::NONSEQUENTIAL;
                self.data_is_fetch = false;
                self.instruction_step = InstructionStep::STEP2;
            }
            Ok(())
        } else if self.instruction_step == InstructionStep::STEP1 {
            if rd == 15 && !ArmAluOpcode::is_test_opcode(opcode) {
                self.arm_instruction_queue.clear();
                req.bus_cycle = BusCycle::NONSEQUENTIAL;
                self.data_is_fetch = false;
                self.instruction_step = InstructionStep::STEP2;
            } else {
                self.instruction_step = InstructionStep::STEP0;
            }
            Ok(())
        } else if self.instruction_step == InstructionStep::STEP2 {
            req.address = self.rf.get_register(15, 0);
            self.instruction_step = InstructionStep::STEP3;
            Ok(())
        } else if self.instruction_step == InstructionStep::STEP3 {
            // a flag-setting write to r15 already returned at the compute
            // step; restore again only while a saved status register exists
            if s_flag == 1 && self.rf.has_spsr() {
                let current_spsr = self.rf.get_spsr();
                let _ = self.rf.write_cpsr(current_spsr);
            }
            req.address = self.rf.get_register(15, 4);
            let pc = self.rf.get_register(15, 0);
            self.rf.write_register(15, crate::common::wrapping_sub_u32(pc, 4));
            self.instruction_step = InstructionStep::STEP0;
            Ok(())
        } else {
            Err(CpuError::InvalidInstructionStep)
        }
    }
}


impl ARM7TDMI {
    /// Branch and branch-with-link: flush the prefetch queue, redirect to the
    /// target (the sign-extended 24-bit immediate times four, relative to the
    /// fetch address), and refill the pipeline over two more cycles. The link
    /// register receives the return address only for branch-with-link.
    pub fn arm_branch(&mut self, req: &mut MemoryRequest) -> (res: Result<(), CpuError>)
        requires
            old(self).wf(),
        ensures
            final(self).wf(),
            spec_arm_branch_effect(*old(self), *old(req), *final(self), *final(req), res),
    {
        let w = self.arm_current_execute;
        let condition = (w >> 28) & 0xf;
        let opcode = (w >> 24) & 1;
        let nn = w & 0xff_ffff;
        let current_pc = self.rf.get_register(15, 0);

        if !self.rf.check_condition_code(condition) {
            return Ok(());
        }

        if self.instruction_step == InstructionStep::STEP0 {
            // sign-extend the 24-bit immediate; the byte offset is four times
            // its value, plus the 8-byte fetch bias
            let nn_ext = if (nn >> 23) & 1 == 1 { nn | 0xff00_0000 } else { nn };
            let target = crate::common::wrapping_add_u32(
                crate::common::wrapping_add_u32(current_pc, nn_ext << 2), 8);

            self.arm_instruction_queue.clear();
            req.bus_cycle = BusCycle::NONSEQUENTIAL;
            self.data_is_fetch = false;
            self.instruction_step = InstructionStep::STEP1;

            if opcode == 1 {
                self.rf.write_register(14, crate::common::wrapping_add_u32(current_pc, 4));
            }

            self.rf.write_register(15, target);
            Ok(())
        } else if self.instruction_step == InstructionStep::STEP1 {
            req.address = current_pc;
            self.instruction_step = InstructionStep::STEP2;
            Ok(())
        } else if self.instruction_step == InstructionStep::STEP2 {
            req.address = crate::common::wrapping_add_u32(current_pc, 4);
            self.rf.write_register(15, crate::common::wrapping_sub_u32(current_pc, 4));
            self.instruction_step = InstructionStep::STEP0;
            Ok(())
        } else {
            Err(CpuError::InvalidInstructionStep)
        }
    }

    /// Branch-and-exchange: redirect to the address in a register, selecting
    /// the instruction set from bit 0 of the target (set means compressed) and
    /// switching the fetch width accordingly while the pipeline refills.
    ///
    /// The exchange completes in three cycles, like a plain branch: the
    /// redirect cycle and a two-cycle refill already performed at the new
    /// fetch width, so the cost of the mode switch shows up in the halfword
    /// stride of the refill rather than as an extra cycle. The end-to-end
    /// suite pins this timing (an exchange into the compressed set reaches its
    /// first target instruction on the same cycle count as a branch).
    pub fn arm_branch_and_exchange(&mut self, req: &mut MemoryRequest, rsp: &MemoryResponse)
        -> (res: Result<(), CpuError>)
        requires
            old(self).wf(),
        ensures
            final(self).wf(),
            spec_arm_branch_and_exchange_effect(*old(self), *old(req), *rsp, *final(self), *final(req), res),
    {
        let w = self.arm_current_execute;
        let condition = (w >> 28) & 0xf;
        let rn = w & 0xf;
        let dest_raw = self.rf.get_register(rn, 8);
        let use_thumb_mode = dest_raw & 1 == 1;
        let destination_address = dest_raw & 0xffff_fffe;

        if !self.rf.check_condition_code(condition) {
            return Ok(());
        }

        if self.instruction_step == InstructionStep::STEP0 {
            self.arm_instruction_queue.clear();
            req.bus_cycle = BusCycle::NONSEQUENTIAL;
            self.data_is_fetch = false;
            self.instruction_step = InstructionStep::STEP1;
            Ok(())
        } else if self.instruction_step == InstructionStep::STEP1 {
            if use_thumb_mode {
                req.mas = TransferSize::HALFWORD;
            } else {
                req.mas = TransferSize::WORD;
            }
            req.address = destination_address;
            req.bus_cycle = BusCycle::SEQUENTIAL;
            self.data_is_fetch = false;
            self.instruction_step = InstructionStep::STEP2;
            Ok(())
        } else if self.instruction_step == InstructionStep::STEP2 {
            proof {
                crate::arm7_tdmi::register_file::lemma_thumb_bit_keeps_mode(self.rf@.cpsr);
            }
            if use_thumb_mode {
                if (self.last_used_address >> 1) & 1 == 0 {
                    self.arm_instruction_queue.push(rsp.data & 0xffff);
                } else {
                    self.arm_instruction_queue.push(rsp.data >> 16);
                }
                req.mas = TransferSize::HALFWORD;
                req.address = crate::common::wrapping_add_u32(destination_address, 2);
                self.rf.write_register(15,
                    crate::common::wrapping_sub_u32(destination_address, 2));
                let cpsr = self.rf.get_cpsr();
                let _ = self.rf.write_cpsr(cpsr | 0x20);
            } else {
                req.mas = TransferSize::WORD;
                req.address = crate::common::wrapping_add_u32(destination_address, 4);
                self.arm_instruction_queue.push(rsp.data);
                self.rf.write_register(15,
                    crate::common::wrapping_sub_u32(destination_address, 4));
                let cpsr = self.rf.get_cpsr();
                let _ = self.rf.write_cpsr(cpsr & 0xffff_ffdf);
            }
            req.bus_cycle = BusCycle::SEQUENTIAL;
            self.instruction_step = InstructionStep::STEP0;
            Ok(())
        } else {
            Err(CpuError::InvalidInstructionStep)
        }
    }

    /// Software interrupt: save the current status register into the
    /// SUPERVISOR bank, switch to SUPERVISOR mode in the 32-bit instruction
    /// set, set the link register to the return address, and restart execution
    /// at the exception vector 0x08 after a pipeline refill.
    pub fn arm_swi(&mut self, req: &mut MemoryRequest) -> (res: Result<(), CpuError>)
        requires
            old(self).wf(),
        ensures
            final(self).wf(),
            spec_arm_swi_effect(*old(self), *old(req), *final(self), *final(req), res),
    {
        let w = self.arm_current_execute;
        let condition = (w >> 28) & 0xf;

        if !self.rf.check_condition_code(condition) {
            return Ok(());
        }

        if self.instruction_step == InstructionStep::STEP0 {
            self.arm_instruction_queue.clear();
            req.bus_cycle = BusCycle::NONSEQUENTIAL;
            self.data_is_fetch = false;
            self.instruction_step = InstructionStep::STEP1;
            Ok(())
        } else if self.instruction_step == InstructionStep::STEP1 {
            let current_cpsr = self.rf.get_cpsr();
            proof {
                crate::arm7_tdmi::register_file::lemma_set_mode_bits(current_cpsr,
                    MODE_SUPERVISOR);
            }
            let _ = self.rf.write_cpsr((current_cpsr & 0xffff_ffc0) | MODE_SUPERVISOR);
            let _ = self.rf.write_spsr(current_cpsr);

            let return_address = self.rf.get_register(15, 4);
            self.rf.write_register(14, return_address);
            // the vector is 0x08; the stored value is biased by the automatic
            // increment at instruction retirement
            self.rf.write_register(15, 0x04);

            req.address = self.rf.get_register(15, 4);
            self.instruction_step = InstructionStep::STEP2;
            Ok(())
        } else if self.instruction_step == InstructionStep::STEP2 {
            req.address = self.rf.get_register(15, 8);
            self.instruction_step = InstructionStep::STEP0;
            Ok(())
        } else {
            Err(CpuError::InvalidInstructionStep)
        }
    }

    /// The undefined-instruction exception: like the software interrupt, but
    /// entering UNDEFINED mode with vector 0x00, and one extra internal cycle.
    pub fn arm_undefined(&mut self, req: &mut MemoryRequest) -> (res: Result<(), CpuError>)
        requires
            old(self).wf(),
        ensures
            final(self).wf(),
            spec_arm_undefined_effect(*old(self), *old(req), *final(self), *final(req), res),
    {
        let w = self.arm_current_execute;
        let condition = (w >> 28) & 0xf;

        if !self.rf.check_condition_code(condition) {
            return Ok(());
        }

        if self.instruction_step == InstructionStep::STEP0 {
            self.arm_instruction_queue.clear();
            req.bus_cycle = BusCycle::NONSEQUENTIAL;
            self.data_is_fetch = false;
            self.instruction_step = InstructionStep::STEP1;
            Ok(())
        } else if self.instruction_step == InstructionStep::STEP1 {
            let current_cpsr = self.rf.get_cpsr();
            proof {
                crate::arm7_tdmi::register_file::lemma_set_mode_bits(current_cpsr, MODE_UND);
            }
            let _ = self.rf.write_cpsr((current_cpsr & 0xffff_ffc0) | MODE_UND);
            let _ = self.rf.write_spsr(current_cpsr);

            let return_address = self.rf.get_register(15, 4);
            self.rf.write_register(14, return_address);
            self.rf.write_register(15, 0);

            req.address = self.rf.get_register(15, 4);
            self.instruction_step = InstructionStep::STEP2;
            Ok(())
        } else if self.instruction_step == InstructionStep::STEP2 {
            req.address = self.rf.get_register(15, 8);
            req.bus_cycle = BusCycle::INTERNAL;
            self.instruction_step = InstructionStep::STEP3;
            Ok(())
        } else if self.instruction_step == InstructionStep::STEP3 {
            self.data_is_fetch = false;
            self.instruction_step = InstructionStep::STEP0;
            Ok(())
        } else {
            Err(CpuError::InvalidInstructionStep)
        }
    }

    /// MRS: move the current status register, or the saved one of the current
    /// mode, into a register. One cycle; r15 is forbidden as destination.
    ///
    /// USER and SYSTEM own no saved status register, and a saved-register
    /// access there is a quiet no-op rather than a fault, on both directions:
    /// the write direction is specified as a no-op, and guest code relies on
    /// the read direction passing through without stopping the machine (the
    /// end-to-end suite executes this form in SYSTEM mode).
    pub fn arm_psr_transfer_mrs(&mut self) -> (res: Result<(), CpuError>)
        requires
            old(self).wf(),
        ensures
            final(self).wf(),
            spec_arm_psr_transfer_mrs_effect(*old(self), *final(self), res),
    {
        let w = self.arm_current_execute;
        let condition = (w >> 28) & 0xf;
        let psr_flag = (w >> 22) & 1;
        let rd = (w >> 12) & 0xf;

        if !self.rf.check_condition_code(condition) {
            return Ok(());
        }

        if rd == 15 {
            return Err(CpuError::PcOperandForbidden);
        }

        let source_register = if psr_flag == 0 {
            self.rf.get_cpsr()
        } else {
            if !self.rf.has_spsr() {
                // USER and SYSTEM have no saved status register: nothing moves
                return Ok(());
            }
            self.rf.get_spsr()
        };

        self.rf.write_register(rd, source_register);
        Ok(())
    }

    /// MSR: rebuild the current status register, or the saved one of the
    /// current mode, from a register or a rotated immediate. The control byte
    /// may only change outside USER mode; the flag nibble always may. A value
    /// with an invalid mode field is rejected and stops emulation.
    pub fn arm_psr_transfer_msr(&mut self) -> (res: Result<(), CpuError>)
        requires
            old(self).wf(),
        ensures
            final(self).wf(),
            spec_arm_psr_transfer_msr_effect(*old(self), *final(self), res),
    {
        let w = self.arm_current_execute;
        let condition = (w >> 28) & 0xf;
        let i_flag = (w >> 25) & 1;
        let psr_flag = (w >> 22) & 1;
        let f_flag = (w >> 19) & 1;
        let c_flag = (w >> 16) & 1;
        let rm = w & 0xf;
        let shift = (w >> 8) & 0xf;
        let imm = w & 0xff;

        if !self.rf.check_condition_code(condition) {
            return Ok(());
        }

        let source_operand = if i_flag == 0 {
            if rm == 15 {
                return Err(CpuError::PcOperandForbidden);
            }
            self.rf.get_register(rm, 0)
        } else {
            crate::common::ror32(imm, shift * 2)
        };

        if psr_flag == 1 && !self.rf.has_spsr() {
            // USER and SYSTEM have no saved status register: nothing changes
            return Ok(());
        }

        let mut to_modify = if psr_flag == 1 {
            self.rf.get_spsr()
        } else {
            self.rf.get_cpsr()
        };

        // the control byte may only change outside USER mode
        if c_flag == 1 && (self.rf.get_cpsr() & 0x1f) != crate::arm7_tdmi::MODE_USER {
            to_modify = to_modify & 0xffff_ff00;
            to_modify = to_modify | (source_operand & 0x0000_00ff);
        }

        // the flag nibble may always change
        if f_flag == 1 {
            to_modify = to_modify & 0x0fff_ffff;
            to_modify = to_modify | (source_operand & 0xf000_0000);
        }

        if psr_flag == 1 {
            match self.rf.write_spsr(to_modify) {
                Ok(()) => Ok(()),
                Err(()) => Err(CpuError::InvalidModeWrite),
            }
        } else {
            match self.rf.write_cpsr(to_modify) {
                Ok(()) => Ok(()),
                Err(()) => Err(CpuError::InvalidModeWrite),
            }
        }
    }
}


/// The transfer address of a single data transfer: base register (+8 bias on
/// r15) plus or minus either the 12-bit immediate or a shifted register.
pub open spec fn spec_sdt_target(b: RegisterBanks, w: u32) -> u32 {
    let rn = (w >> 16) & 0xf;
    let i_flag = (w >> 25) & 1;
    let u_flag = (w >> 23) & 1;
    let immediate = w & 0xfff;
    let shift_amount = (w >> 7) & 0x1f;
    let shift_type = (w >> 5) & 3;
    let rm = w & 0xf;
    let base = spec_reg_read_biased(b, rn, spec_pc_fetch_bias(b));
    let offset = if i_flag == 0 {
        immediate
    } else {
        spec_barrel_shifter(spec_reg_read(b, rm), shift_type, shift_amount,
            spec_flag(b.cpsr, ConditionCodeFlag::C), false).0
    };
    if u_flag == 1 {
        wadd(base, offset)
    } else {
        wsub(base, offset)
    }
}

/// The value a load writes back to its destination: a byte load extracts the
/// addressed lane, a word load rotates the fetched word by the misalignment of
/// the address (the hardware never sign-extends here).
pub open spec fn spec_sdt_loaded(data: u32, last_address: u32, b_flag: u32) -> u32 {
    let off = (last_address % 4) as u32;
    if b_flag == 1 {
        (data >> (off * 8)) & 0xff
    } else {
        spec_ror32(data, (off * 8) as u32)
    }
}

impl ARM7TDMI {
    /// Single data transfers (LDR, STR, LDRB, STRB). A load issues the access
    /// at step 1, consumes the data one internal cycle later, and refills the
    /// pipeline when the destination is r15; a store puts address and write
    /// data on the bus in a single extra step.
    #[verifier::rlimit(60)]
    pub fn arm_single_data_transfer(&mut self, req: &mut MemoryRequest, rsp: &MemoryResponse)
        -> (res: Result<(), CpuError>)
        requires
            old(self).wf(),
        ensures
            final(self).wf(),
            spec_arm_single_data_transfer_effect(*old(self), *old(req), *rsp, *final(self), *final(req), res),
    {
        let w = self.arm_current_execute;
        let condition = (w >> 28) & 0xf;
        let l_flag = (w >> 20) & 1;
        let rn = (w >> 16) & 0xf;
        let rd = (w >> 12) & 0xf;
        let p_flag = (w >> 24) & 1;
        // with pre-indexing this is the write-back flag; with post-indexing it
        // makes the access non-privileged instead
        let tw_flag = (w >> 21) & 1;
        let b_flag = (w >> 22) & 1;

        if !self.rf.check_condition_code(condition) {
            return Ok(());
        }

        let mut address_to_write: u32 = 0;

        // Common between load and store: step 1 issues the bus transaction,
        // so the transfer address is computed here.
        if self.instruction_step == InstructionStep::STEP1 {
            let i_flag = (w >> 25) & 1;
            let u_flag = (w >> 23) & 1;
            let immediate = w & 0xfff;
            let shift_amount = (w >> 7) & 0x1f;
            let shift_type = (w >> 5) & 3;
            let rm = w & 0xf;

            let pc_bias: u32 = if self.rf.is_thumb_mode() { 4 } else { 8 };
            let address_to_mem = self.rf.get_register(rn, pc_bias);

            let offset: u32;
            if i_flag == 0 {
                offset = immediate;
            } else {
                if rm == 15 {
                    return Err(CpuError::PcOperandForbidden);
                }
                let sh = crate::arm7_tdmi::instruction::barrel_shifter(self.rf.get_register(rm, 0),
                    shift_type, shift_amount, self.rf.is_flag_set(&ConditionCodeFlag::C), false);
                offset = sh.0;
            }

            address_to_write = if u_flag == 1 {
                crate::common::wrapping_add_u32(address_to_mem, offset)
            } else {
                crate::common::wrapping_sub_u32(address_to_mem, offset)
            };

            req.address = address_to_mem;

            if p_flag == 1 {
                req.address = address_to_write;
            } else if tw_flag == 1 {
                req.n_trans = BusSignal::LOW;
            }

            if b_flag == 1 {
                req.mas = TransferSize::BYTE;
            }
        }

        if l_flag == 1 {
            if self.instruction_step == InstructionStep::STEP0 {
                req.bus_cycle = BusCycle::NONSEQUENTIAL;
                self.instruction_step = InstructionStep::STEP1;
                Ok(())
            } else if self.instruction_step == InstructionStep::STEP1 {
                self.data_is_fetch = false;
                req.bus_cycle = BusCycle::INTERNAL;

                // base write-back: post-indexing always, pre-indexing on demand
                if p_flag == 0 || tw_flag == 1 {
                    self.rf.write_register(rn, address_to_write);
                }
                self.instruction_step = InstructionStep::STEP2;
                Ok(())
            } else if self.instruction_step == InstructionStep::STEP2 {
                let mut data_to_write = rsp.data;
                let offset = self.last_used_address % 4;

                if b_flag == 1 {
                    // byte load: extract the addressed little-endian lane
                    data_to_write = (data_to_write >> (offset * 8)) & 0xff;
                } else {
                    // misaligned word load: rotate, never sign-extend
                    data_to_write = crate::common::ror32(data_to_write, offset * 8);
                }

                self.rf.write_register(rd, data_to_write);
                self.data_is_fetch = false;

                if rd == 15 {
                    self.arm_instruction_queue.clear();
                    req.bus_cycle = BusCycle::NONSEQUENTIAL;
                    self.instruction_step = InstructionStep::STEP3;
                } else {
                    req.bus_cycle = BusCycle::SEQUENTIAL;
                    self.instruction_step = InstructionStep::STEP0;
                }
                Ok(())
            } else if self.instruction_step == InstructionStep::STEP3 {
                req.address = self.rf.get_register(15, 0);
                self.instruction_step = InstructionStep::STEP4;
                Ok(())
            } else {
                req.address = self.rf.get_register(15, 4);
                let pc = self.rf.get_register(15, 0);
                self.rf.write_register(15, crate::common::wrapping_sub_u32(pc, 4));
                self.instruction_step = InstructionStep::STEP0;
                Ok(())
            }
        } else {
            if self.instruction_step == InstructionStep::STEP0 {
                req.bus_cycle = BusCycle::NONSEQUENTIAL;
                self.instruction_step = InstructionStep::STEP1;
                Ok(())
            } else if self.instruction_step == InstructionStep::STEP1 {
                req.data = self.rf.get_register(rd, 12);

                // a byte store replicates the byte over all four bus lanes
                if b_flag == 1 {
                    let byte = req.data & 0xff;
                    req.data = byte | (byte << 8) | (byte << 16) | (byte << 24);
                }

                if p_flag == 0 || tw_flag == 1 {
                    self.rf.write_register(rn, address_to_write);
                }

                req.nr_w = BusSignal::HIGH;
                self.data_is_fetch = false;
                self.instruction_step = InstructionStep::STEP0;
                Ok(())
            } else {
                Err(CpuError::InvalidInstructionStep)
            }
        }
    }

    /// Single data swap (SWP, SWPB): an atomic read-then-write pair on the
    /// same address with the lock signal asserted. A byte swap replicates the
    /// written byte across all four bus lanes and extracts one lane on read.
    pub fn arm_single_data_swap(&mut self, req: &mut MemoryRequest, rsp: &MemoryResponse)
        -> (res: Result<(), CpuError>)
        requires
            old(self).wf(),
        ensures
            final(self).wf(),
            spec_arm_single_data_swap_effect(*old(self), *old(req), *rsp, *final(self), *final(req), res),
    {
        let w = self.arm_current_execute;
        let condition = (w >> 28) & 0xf;
        let b_flag = (w >> 22) & 1;
        let rn = (w >> 16) & 0xf;
        let rd = (w >> 12) & 0xf;
        let rm = w & 0xf;
        let offset = self.last_used_address % 4;

        if rd == 15 || rm == 15 || rn == 15 {
            return Err(CpuError::PcOperandForbidden);
        }

        if !self.rf.check_condition_code(condition) {
            return Ok(());
        }

        if self.instruction_step == InstructionStep::STEP0 {
            req.bus_cycle = BusCycle::NONSEQUENTIAL;
            self.instruction_step = InstructionStep::STEP1;
            Ok(())
        } else if self.instruction_step == InstructionStep::STEP1 {
            self.data_is_fetch = false;

            req.address = self.rf.get_register(rn, 0);
            req.mas = if b_flag == 0 {
                TransferSize::WORD
            } else {
                TransferSize::BYTE
            };
            req.n_opc = BusSignal::HIGH;
            // the lock signal keeps the read-write pair atomic on the bus
            req.lock = BusSignal::HIGH;
            req.bus_cycle = BusCycle::NONSEQUENTIAL;

            self.instruction_step = InstructionStep::STEP2;
            Ok(())
        } else if self.instruction_step == InstructionStep::STEP2 {
            self.data_is_fetch = false;

            req.address = self.rf.get_register(rn, 0);
            if b_flag == 0 {
                req.data = self.rf.get_register(rm, 0);
                let data_to_write = crate::common::ror32(rsp.data, 8 * offset);
                self.rf.write_register(rd, data_to_write);
                req.mas = TransferSize::WORD;
            } else {
                let byte = self.rf.get_register(rm, 0) & 0xff;
                req.data = byte | (byte << 8) | (byte << 16) | (byte << 24);
                let data_to_write = (rsp.data >> (offset * 8)) & 0xff;
                self.rf.write_register(rd, data_to_write);
                req.mas = TransferSize::BYTE;
            }
            req.nr_w = BusSignal::HIGH;
            req.n_opc = BusSignal::HIGH;
            req.lock = BusSignal::HIGH;
            req.bus_cycle = BusCycle::INTERNAL;
            self.instruction_step = InstructionStep::STEP3;
            Ok(())
        } else if self.instruction_step == InstructionStep::STEP3 {
            self.data_is_fetch = false;
            self.instruction_step = InstructionStep::STEP0;
            Ok(())
        } else {
            Err(CpuError::InvalidInstructionStep)
        }
    }
}


/// The transfer address of a half-word class transfer: base register (+8 bias
/// on r15) plus or minus either the split 8-bit immediate or a register.
pub open spec fn spec_hwt_target(b: RegisterBanks, w: u32) -> u32 {
    let rn = (w >> 16) & 0xf;
    let u_flag = (w >> 23) & 1;
    let i_flag = (w >> 22) & 1;
    let imm_offset_h = (w >> 8) & 0xf;
    let rm = w & 0xf;
    let base = spec_reg_read_biased(b, rn, spec_pc_fetch_bias(b));
    let offset = if i_flag == 1 {
        (imm_offset_h << 4u32) | rm
    } else {
        spec_reg_read(b, rm)
    };
    if u_flag == 1 {
        wadd(base, offset)
    } else {
        wsub(base, offset)
    }
}

/// The value a half-word class load writes back: a signed byte load extracts
/// and sign-extends one lane; a halfword load picks the addressed half (and a
/// misaligned one is rotated); a misaligned signed halfword load degrades to a
/// signed byte read, the documented hardware quirk.
pub open spec fn spec_hwt_loaded(data: u32, last_address: u32, opcode: u32) -> u32 {
    let off = (last_address % 4) as u32;
    if opcode == 2 {
        crate::common::spec_sign_extend_byte((data >> (off * 8)) & 0xff)
    } else {
        let half = if off < 2 { data & 0xffff } else { data >> 16 };
        let rotated = if off % 2 == 1 { spec_ror32(half, 8) } else { half };
        if opcode == 3 {
            if off % 2 == 1 {
                crate::common::spec_sign_extend_byte((data >> (off * 8)) & 0xff)
            } else {
                crate::common::spec_sign_extend_half(rotated)
            }
        } else {
            rotated
        }
    }
}

impl ARM7TDMI {
    /// Half-word class transfers (LDRH, STRH, LDRSB, LDRSH, LDRD, STRD).
    /// Signed loads sign-extend; the double-word forms cost two sequential
    /// accesses at the address and the address plus four.
    #[verifier::rlimit(60)]
    pub fn arm_hw_transfer(&mut self, req: &mut MemoryRequest, rsp: &MemoryResponse)
        -> (res: Result<(), CpuError>)
        requires
            old(self).wf(),
        ensures
            final(self).wf(),
            spec_arm_hw_transfer_effect(*old(self), *old(req), *rsp, *final(self), *final(req), res),
    {
        let w = self.arm_current_execute;
        let condition = (w >> 28) & 0xf;
        let p_flag = (w >> 24) & 1;
        let u_flag = (w >> 23) & 1;
        let i_flag = (w >> 22) & 1;
        let w_flag = (w >> 21) & 1;
        let l_flag = (w >> 20) & 1;
        let rn = (w >> 16) & 0xf;
        let rd = (w >> 12) & 0xf;
        let imm_offset_h = (w >> 8) & 0xf;
        let opcode = (w >> 5) & 3;
        let rm = w & 0xf;

        if !self.rf.check_condition_code(condition) {
            return Ok(());
        }

        let pc_bias: u32 = if self.rf.is_thumb_mode() { 4 } else { 8 };
        let address_to_mem = self.rf.get_register(rn, pc_bias);

        if opcode == 0 {
            // this pattern encodes the swap instruction instead
            return Err(CpuError::ReservedOperand);
        }

        let mut address_to_write: u32 = 0;

        if self.instruction_step == InstructionStep::STEP1 {
            let offset = if i_flag == 1 {
                (imm_offset_h << 4) | rm
            } else {
                self.rf.get_register(rm, 0)
            };

            address_to_write = if u_flag == 1 {
                crate::common::wrapping_add_u32(address_to_mem, offset)
            } else {
                crate::common::wrapping_sub_u32(address_to_mem, offset)
            };

            req.address = if p_flag == 1 {
                address_to_write
            } else {
                address_to_mem
            };
        }

        if l_flag == 1 {
            if self.instruction_step == InstructionStep::STEP0 {
                req.bus_cycle = BusCycle::NONSEQUENTIAL;
                self.instruction_step = InstructionStep::STEP1;
                Ok(())
            } else if self.instruction_step == InstructionStep::STEP1 {
                self.data_is_fetch = false;
                req.bus_cycle = BusCycle::INTERNAL;

                req.mas = if opcode == 2 {
                    TransferSize::BYTE
                } else {
                    TransferSize::HALFWORD
                };

                if p_flag == 0 || w_flag == 1 {
                    self.rf.write_register(rn, address_to_write);
                }

                self.instruction_step = InstructionStep::STEP2;
                Ok(())
            } else if self.instruction_step == InstructionStep::STEP2 {
                let mut data_to_write = rsp.data;
                let offset = self.last_used_address % 4;

                if opcode == 2 {
                    // signed byte load
                    data_to_write = crate::common::sign_extend_byte(
                        (data_to_write >> (offset * 8)) & 0xff);
                } else {
                    // pick the addressed halfword of the fetched word
                    data_to_write = if offset < 2 {
                        data_to_write & 0xffff
                    } else {
                        data_to_write >> 16
                    };

                    if offset % 2 == 1 {
                        data_to_write = crate::common::ror32(data_to_write, 8);
                    }

                    // signed halfword load: a misaligned address degrades to a
                    // signed byte read, as the hardware does
                    if opcode == 3 {
                        if offset % 2 == 1 {
                            data_to_write = crate::common::sign_extend_byte(
                                (rsp.data >> (offset * 8)) & 0xff);
                        } else {
                            data_to_write = crate::common::sign_extend_half(data_to_write);
                        }
                    }
                }

                self.rf.write_register(rd, data_to_write);
                self.data_is_fetch = false;

                if rd == 15 {
                    self.arm_instruction_queue.clear();
                    req.bus_cycle = BusCycle::NONSEQUENTIAL;
                    self.instruction_step = InstructionStep::STEP3;
                } else {
                    req.bus_cycle = BusCycle::SEQUENTIAL;
                    self.instruction_step = InstructionStep::STEP0;
                }
                Ok(())
            } else if self.instruction_step == InstructionStep::STEP3 {
                req.address = self.rf.get_register(15, 0);
                self.instruction_step = InstructionStep::STEP4;
                Ok(())
            } else {
                req.address = self.rf.get_register(15, 4);
                let pc = self.rf.get_register(15, 0);
                self.rf.write_register(15, crate::common::wrapping_sub_u32(pc, 4));
                self.instruction_step = InstructionStep::STEP0;
                Ok(())
            }
        } else {
            if opcode == 1 {
                // store halfword, replicated over both bus halves
                if self.instruction_step == InstructionStep::STEP0 {
                    req.bus_cycle = BusCycle::NONSEQUENTIAL;
                    self.instruction_step = InstructionStep::STEP1;
                    Ok(())
                } else if self.instruction_step == InstructionStep::STEP1 {
                    req.mas = TransferSize::HALFWORD;

                    req.data = self.rf.get_register(rd, 12);
                    req.data = (req.data & 0xffff) | (req.data << 16);

                    if p_flag == 0 || w_flag == 1 {
                        self.rf.write_register(rn, address_to_write);
                    }

                    req.nr_w = BusSignal::HIGH;
                    self.instruction_step = InstructionStep::STEP0;
                    self.data_is_fetch = false;
                    Ok(())
                } else {
                    Err(CpuError::InvalidInstructionStep)
                }
            } else if opcode == 2 {
                // load double-word: two loads back to back
                if self.instruction_step == InstructionStep::STEP0 {
                    req.bus_cycle = BusCycle::NONSEQUENTIAL;
                    self.instruction_step = InstructionStep::STEP1;
                    Ok(())
                } else if self.instruction_step == InstructionStep::STEP1 {
                    if req.address % 8 != 0 {
                        // the address must be double-word aligned
                        return Err(CpuError::PcOperandForbidden);
                    }
                    if rd % 2 != 0 || rd == 14 {
                        // the destination pair must be even and below r14
                        return Err(CpuError::PcOperandForbidden);
                    }
                    self.data_is_fetch = false;
                    self.instruction_step = InstructionStep::STEP2;
                    Ok(())
                } else if self.instruction_step == InstructionStep::STEP2 {
                    if rd % 2 != 0 || rd == 14 {
                        return Err(CpuError::PcOperandForbidden);
                    }
                    self.data_is_fetch = false;
                    req.bus_cycle = BusCycle::INTERNAL;
                    self.rf.write_register(rd, rsp.data);
                    // reuse the address issued by the previous step
                    req.address = crate::common::wrapping_add_u32(self.last_used_address, 4);
                    self.instruction_step = InstructionStep::STEP3;
                    Ok(())
                } else if self.instruction_step == InstructionStep::STEP3 {
                    if rd % 2 != 0 || rd == 14 {
                        return Err(CpuError::PcOperandForbidden);
                    }
                    self.data_is_fetch = false;
                    self.rf.write_register(rd + 1, rsp.data);
                    self.instruction_step = InstructionStep::STEP0;
                    Ok(())
                } else {
                    Err(CpuError::InvalidInstructionStep)
                }
            } else {
                // store double-word: two stores back to back
                if self.instruction_step == InstructionStep::STEP0 {
                    req.bus_cycle = BusCycle::NONSEQUENTIAL;
                    self.instruction_step = InstructionStep::STEP1;
                    Ok(())
                } else if self.instruction_step == InstructionStep::STEP1 {
                    if rd == 15 {
                        return Err(CpuError::PcOperandForbidden);
                    }
                    req.data = self.rf.get_register(rd, 0);
                    req.nr_w = BusSignal::HIGH;
                    self.instruction_step = InstructionStep::STEP2;
                    self.data_is_fetch = false;
                    Ok(())
                } else if self.instruction_step == InstructionStep::STEP2 {
                    if rd == 15 {
                        return Err(CpuError::PcOperandForbidden);
                    }
                    req.address = crate::common::wrapping_add_u32(self.last_used_address, 4);
                    req.data = self.rf.get_register(rd + 1, 0);
                    req.nr_w = BusSignal::HIGH;
                    self.instruction_step = InstructionStep::STEP0;
                    self.data_is_fetch = false;
                    Ok(())
                } else {
                    Err(CpuError::InvalidInstructionStep)
                }
            }
        }
    }
}


/// Number of significant bytes of the multiplier: 4 minus its leading-zero
/// byte count.
pub open spec fn spec_sig_bytes(x: u32) -> u32 {
    if x >= 0x0100_0000 {
        4
    } else if x >= 0x1_0000 {
        3
    } else if x >= 0x100 {
        2
    } else if x >= 1 {
        1
    } else {
        0
    }
}

/// Extra internal cycles of a multiply variant: none for plain multiply, two
/// for the long accumulating forms, one for everything else.
pub open spec fn spec_mul_bonus(opcode: u32) -> u32 {
    if opcode == 0 {
        0
    } else if opcode == 5 || opcode == 7 {
        2
    } else {
        1
    }
}

/// Internal cycles of a multiply: early termination pays one cycle per
/// significant byte of the multiplier, plus the variant bonus, and at least
/// one cycle in all.
pub open spec fn spec_mul_cycles(op_s: u32, opcode: u32) -> u32 {
    let t = spec_sig_bytes(op_s) + spec_mul_bonus(opcode);
    if t == 0 {
        1u32
    } else {
        t as u32
    }
}

/// Multiply timing is a function of the multiplier's leading-zero byte count
/// and the opcode variant alone: two multipliers with the same leading-zero
/// byte count cost the same number of internal cycles, whatever the
/// multiplicand and the other operands are.
pub proof fn lemma_multiply_timing(a: u32, b: u32, opcode: u32)
    requires
        spec_sig_bytes(a) == spec_sig_bytes(b),
    ensures
        spec_mul_cycles(a, opcode) == spec_mul_cycles(b, opcode),
{
}

/// The register file after the compute step of a multiply. The short forms
/// write the low 32 bits of the (possibly accumulating) product; the long
/// forms split the 64-bit product (sign-extended operands for the signed
/// variants) across the two destination registers. Flags, when requested, are
/// only N (bit 31 or 63) and Z; carry and overflow are never touched.
pub open spec fn spec_mul_rf(b: RegisterBanks, w: u32) -> RegisterBanks {
    let opcode = (w >> 21) & 0xf;
    let s_flag = (w >> 20) & 1;
    let rd = (w >> 16) & 0xf;
    let rn = (w >> 12) & 0xf;
    let rs = (w >> 8) & 0xf;
    let rm = w & 0xf;
    let op_s = spec_reg_read(b, rs);
    let op_m = spec_reg_read(b, rm);
    let op_n = spec_reg_read(b, rn);
    let op_d = spec_reg_read(b, rd);
    if opcode <= 1 {
        let full = if opcode == 0 {
            crate::common::wmul64(op_s as u64, op_m as u64)
        } else {
            crate::common::wadd64(crate::common::wmul64(op_s as u64, op_m as u64), op_n as u64)
        };
        let r32 = (full % 0x1_0000_0000) as u32;
        let b1 = spec_reg_write(b, rd, r32);
        if s_flag == 1 {
            RegisterBanks {
                cpsr: crate::arm7_tdmi::register_file::spec_cpsr_zn_updated(b1.cpsr, r32 == 0,
                    spec_bit32(r32, 31)),
                ..b1
            }
        } else {
            b1
        }
    } else {
        let acc = (op_n as u64) | ((op_d as u64) << 32u64);
        let full = if opcode == 4 {
            crate::common::wmul64(op_s as u64, op_m as u64)
        } else if opcode == 5 {
            crate::common::wadd64(crate::common::wmul64(op_s as u64, op_m as u64), acc)
        } else if opcode == 6 {
            crate::common::wmul64(crate::common::spec_sign_extend64(op_s),
                crate::common::spec_sign_extend64(op_m))
        } else {
            crate::common::wadd64(crate::common::wmul64(crate::common::spec_sign_extend64(op_s),
                crate::common::spec_sign_extend64(op_m)), acc)
        };
        let hi = ((full >> 32u64) & 0xffff_ffff) as u32;
        let lo = (full % 0x1_0000_0000) as u32;
        let b1 = spec_reg_write(b, rd, hi);
        let b2 = spec_reg_write(b1, rn, lo);
        if s_flag == 1 {
            RegisterBanks {
                cpsr: crate::arm7_tdmi::register_file::spec_cpsr_zn_updated(b2.cpsr, full == 0,
                    (full >> 63u64) & 1 == 1),
                ..b2
            }
        } else {
            b2
        }
    }
}

impl ARM7TDMI {
    /// Multiply and multiply-long (MUL, MLA, UMULL, UMLAL, SMULL, SMLAL): the
    /// cycle count comes from the leading-zero byte count of the multiplier
    /// (early termination) plus the variant bonus, and the whole computation
    /// lands in the registers when the last internal cycle elapses. With an
    /// all-zero multiplier the plain multiply still takes its one internal
    /// cycle.
    #[verifier::rlimit(60)]
    pub fn arm_multiply(&mut self, req: &mut MemoryRequest) -> (res: Result<(), CpuError>)
        requires
            old(self).wf(),
        ensures
            final(self).wf(),
            spec_arm_multiply_effect(*old(self), *old(req), *final(self), *final(req), res),
    {
        let w = self.arm_current_execute;
        let condition = (w >> 28) & 0xf;
        let opcode = (w >> 21) & 0xf;
        let s_flag = (w >> 20) & 1;
        let rd = (w >> 16) & 0xf;
        let rn = (w >> 12) & 0xf;
        let rs = (w >> 8) & 0xf;
        let rm = w & 0xf;

        if !self.rf.check_condition_code(condition) {
            return Ok(());
        }

        if self.instruction_step == InstructionStep::STEP0 {
            req.bus_cycle = BusCycle::INTERNAL;
            let op_s = self.rf.get_register(rs, 0);

            self.instruction_step = InstructionStep::STEP1;

            // early termination: one internal cycle per significant byte of
            // the multiplier, plus the variant bonus, and at least one cycle
            let significant_bytes: u32 = if op_s >= 0x0100_0000 {
                4
            } else if op_s >= 0x1_0000 {
                3
            } else if op_s >= 0x100 {
                2
            } else if op_s >= 1 {
                1
            } else {
                0
            };
            let bonus: u32 = if opcode == 0 {
                0
            } else if opcode == 5 || opcode == 7 {
                2
            } else {
                1
            };
            let mut cycles = significant_bytes + bonus;
            if cycles == 0 {
                cycles = 1;
            }
            self.instruction_counter_step = cycles;
            Ok(())
        } else if self.instruction_step == InstructionStep::STEP1 {
            if self.instruction_counter_step == 0 {
                return Err(CpuError::InvalidInstructionStep);
            }
            req.bus_cycle = BusCycle::INTERNAL;
            self.data_is_fetch = false;
            self.instruction_counter_step = self.instruction_counter_step - 1;

            if self.instruction_counter_step == 0 {
                let op_s = self.rf.get_register(rs, 0);
                let op_m = self.rf.get_register(rm, 0);
                let op_n = self.rf.get_register(rn, 0);
                let op_d = self.rf.get_register(rd, 0);

                if opcode <= 1 {
                    let product = crate::common::wrapping_mul_u64(op_s as u64, op_m as u64);
                    let full = if opcode == 0 {
                        product
                    } else {
                        crate::common::wrapping_add_u64(product, op_n as u64)
                    };
                    let result = (full % 0x1_0000_0000) as u32;

                    self.rf.write_register(rd, result);

                    if s_flag == 1 {
                        self.rf.write_z(result == 0);
                        self.rf.write_n((result >> 31) & 1 == 1);
                    }
                } else if opcode >= 4 && opcode <= 7 {
                    let acc = (op_n as u64) | ((op_d as u64) << 32);
                    let full = if opcode == 4 {
                        crate::common::wrapping_mul_u64(op_s as u64, op_m as u64)
                    } else if opcode == 5 {
                        crate::common::wrapping_add_u64(
                            crate::common::wrapping_mul_u64(op_s as u64, op_m as u64), acc)
                    } else if opcode == 6 {
                        crate::common::wrapping_mul_u64(crate::common::sign_extend64(op_s),
                            crate::common::sign_extend64(op_m))
                    } else {
                        crate::common::wrapping_add_u64(
                            crate::common::wrapping_mul_u64(crate::common::sign_extend64(op_s),
                                crate::common::sign_extend64(op_m)), acc)
                    };

                    self.rf.write_register(rd, ((full >> 32) & 0xffff_ffff) as u32);
                    self.rf.write_register(rn, (full % 0x1_0000_0000) as u32);

                    if s_flag == 1 {
                        self.rf.write_z(full == 0);
                        self.rf.write_n((full >> 63) & 1 == 1);
                    }
                } else {
                    return Err(CpuError::ReservedOperand);
                }

                self.instruction_step = InstructionStep::STEP0;
                req.bus_cycle = BusCycle::SEQUENTIAL;
            }
            Ok(())
        } else {
            Err(CpuError::InvalidInstructionStep)
        }
    }
}


/// Number of set bits among the low `i` bits of `x`.
pub open spec fn spec_count_low_bits(x: u32, i: int) -> int
    decreases i,
{
    if i <= 0 {
        0
    } else {
        spec_count_low_bits(x, i - 1) + (if spec_bit32(x, (i - 1) as u32) {
            1int
        } else {
            0int
        })
    }
}

/// The transfer plan of a block data transfer over the register list bits
/// `i..16`: one (address, register) pair per set bit, the lowest register at
/// the lowest address, addresses ascending by four from `start`.
pub open spec fn spec_transfer_list(r_list: u32, start: u32, i: int) -> Seq<(u32, u32)>
    decreases 16 - i,
{
    if i >= 16 {
        Seq::empty()
    } else if spec_bit32(r_list, i as u32) {
        seq![(start, i as u32)] + spec_transfer_list(r_list, wadd(start, 4), i + 1)
    } else {
        spec_transfer_list(r_list, start, i + 1)
    }
}

/// The register list of a block data transfer; an empty list transfers r15
/// only (the documented special case).
pub open spec fn spec_bdt_list_bits(w: u32) -> u32 {
    if w & 0xffff == 0 {
        0x8000u32
    } else {
        w & 0xffff
    }
}

/// The lowest transfer address of a block data transfer, derived from the
/// base register, the direction and pre/post flags, and the register count;
/// an empty register list moves the base by 0x40 instead of four per
/// register.
pub open spec fn spec_bdt_start(b: RegisterBanks, w: u32) -> u32 {
    let p_flag = (w >> 24) & 1;
    let u_flag = (w >> 23) & 1;
    let rn = (w >> 16) & 0xf;
    let was_empty = w & 0xffff == 0;
    let items = spec_count_low_bits(spec_bdt_list_bits(w), 16);
    let base = spec_reg_read(b, rn);
    if u_flag == 0 && p_flag == 0 {
        if was_empty {
            wadd(wsub(base, 0x40), 4)
        } else {
            wadd(wsub(base, (items * 4) as u32), 4)
        }
    } else if u_flag == 0 && p_flag == 1 {
        if was_empty {
            wsub(base, 0x40)
        } else {
            wsub(base, (items * 4) as u32)
        }
    } else if u_flag == 1 && p_flag == 1 {
        wadd(base, 4)
    } else {
        base
    }
}

/// The base register after the write-back of a block data transfer: moved by
/// `step` bytes in the direction of the transfer when write-back is enabled,
/// by 0x40 for the empty-list special case, untouched otherwise.
pub open spec fn spec_ldm_stm_writeback(b: RegisterBanks, was_list_empty: bool, w_flag: u32,
    u_flag: u32, rn: u32, step: u32) -> RegisterBanks {
    let amount = if was_list_empty { 0x40u32 } else { step };
    if w_flag == 1 && u_flag == 0 {
        spec_reg_write(b, rn, wsub(spec_reg_read(b, rn), amount))
    } else if w_flag == 1 && u_flag == 1 {
        spec_reg_write(b, rn, wadd(spec_reg_read(b, rn), amount))
    } else {
        b
    }
}

impl ARM7TDMI {
    /// Write-back of the base register in a block data transfer, honoring the
    /// direction flag and the empty-list special case.
    pub(crate) fn modify_register_ldm_stm(&mut self, was_list_empy: bool, w_flag: u32,
        u_flag: u32, rn: u32, step: u32)
        requires
            old(self).wf(),
            rn < 16,
        ensures
            final(self).wf(),
            final(self).rf@ == spec_ldm_stm_writeback(old(self).rf@, was_list_empy, w_flag,
                u_flag, rn, step),
            final(self).arm_instruction_queue == old(self).arm_instruction_queue,
            final(self).arm_current_execute == old(self).arm_current_execute,
            final(self).instruction_step == old(self).instruction_step,
            final(self).data_is_fetch == old(self).data_is_fetch,
            final(self).last_used_address == old(self).last_used_address,
            final(self).instruction_counter_step == old(self).instruction_counter_step,
            final(self).list_transfer_op == old(self).list_transfer_op,
    {
        let amount: u32 = if was_list_empy { 0x40 } else { step };
        if w_flag == 1 && u_flag == 0 {
            let base = self.rf.get_register(rn, 0);
            self.rf.write_register(rn, crate::common::wrapping_sub_u32(base, amount));
        } else if w_flag == 1 && u_flag == 1 {
            let base = self.rf.get_register(rn, 0);
            self.rf.write_register(rn, crate::common::wrapping_add_u32(base, amount));
        }
    }

    /// Block data transfers (LDM, STM): one bus beat per listed register, in
    /// ascending address order whatever the direction flags say; an empty
    /// list transfers r15 only and moves the base by 0x40. During a load the
    /// write-back is suppressed when the base register is itself listed, and
    /// a load of r15 restores the saved status register and refills the
    /// pipeline.
    #[verifier::rlimit(100)]
    #[verifier::spinoff_prover]
    pub fn arm_block_data_transfer(&mut self, req: &mut MemoryRequest, rsp: &MemoryResponse)
        -> (res: Result<(), CpuError>)
        requires
            old(self).wf(),
        ensures
            final(self).wf(),
            spec_arm_block_data_transfer_effect(*old(self), *old(req), *rsp, *final(self), *final(req), res),
    {
        let w = self.arm_current_execute;
        let condition = (w >> 28) & 0xf;
        let p_flag = (w >> 24) & 1;
        let u_flag = (w >> 23) & 1;
        let s_flag = (w >> 22) & 1;
        let w_flag = (w >> 21) & 1;
        let l_flag = (w >> 20) & 1;
        let rn = (w >> 16) & 0xf;
        let mut r_list = w & 0xffff;
        let mut was_list_empy = false;

        if !self.rf.check_condition_code(condition) {
            return Ok(());
        }

        if rn == 15 {
            return Err(CpuError::PcOperandForbidden);
        }

        // an empty register list transfers r15 only
        if r_list == 0 {
            r_list = 0x8000;
            was_list_empy = true;
        }

        let is_rn_in_list = r_list & (1u32 << rn) != 0;

        // number of registers to move
        let mut items_to_handle: u32 = 0;
        let mut i: u32 = 0;
        while i < 16
            invariant
                i <= 16,
                items_to_handle == spec_count_low_bits(r_list, i as int),
                items_to_handle <= i,
            decreases 16 - i,
        {
            if (r_list >> i) & 1 == 1 {
                items_to_handle = items_to_handle + 1;
            }
            i = i + 1;
        }

        // Plan every (address, register) pair up front: the lowest register
        // always goes with the lowest address, whatever the direction flags;
        // they only choose where the window of addresses starts.
        if self.instruction_step == InstructionStep::STEP0 {
            self.list_transfer_op.clear();

            let base = self.rf.get_register(rn, 0);
            let mut address_to_use: u32 = base;

            if u_flag == 0 && p_flag == 0 {
                if was_list_empy {
                    address_to_use = crate::common::wrapping_add_u32(
                        crate::common::wrapping_sub_u32(base, 0x40), 4);
                } else {
                    address_to_use = crate::common::wrapping_add_u32(
                        crate::common::wrapping_sub_u32(base, items_to_handle * 4), 4);
                }
            } else if u_flag == 0 && p_flag == 1 {
                if was_list_empy {
                    address_to_use = crate::common::wrapping_sub_u32(base, 0x40);
                } else {
                    address_to_use = crate::common::wrapping_sub_u32(base, items_to_handle * 4);
                }
            } else if u_flag == 1 && p_flag == 1 {
                address_to_use = crate::common::wrapping_add_u32(base, 4);
            }

            let ghost start = address_to_use;
            let mut register_counter: u32 = 0;
            while register_counter < 16
                invariant
                    register_counter <= 16,
                    spec_transfer_list(r_list, start, 0) == self.list_transfer_op@
                        + spec_transfer_list(r_list, address_to_use, register_counter as int),
                    self.rf == old(self).rf,
                    self.rf.wf(),
                    self.arm_instruction_queue == old(self).arm_instruction_queue,
                    self.arm_current_execute == old(self).arm_current_execute,
                    self.instruction_step == old(self).instruction_step,
                    self.data_is_fetch == old(self).data_is_fetch,
                    self.last_used_address == old(self).last_used_address,
                    self.instruction_counter_step == old(self).instruction_counter_step,
                decreases 16 - register_counter,
            {
                if (r_list >> register_counter) & 1 == 1 {
                    self.list_transfer_op.push((address_to_use, register_counter));
                    address_to_use = crate::common::wrapping_add_u32(address_to_use, 4);
                }
                register_counter = register_counter + 1;
            }
            proof {
                assert(self.list_transfer_op@ + spec_transfer_list(r_list, address_to_use, 16)
                    =~= self.list_transfer_op@);
            }
        }

        if l_flag == 0 {
            // store multiple
            if self.instruction_step == InstructionStep::STEP0 {
                req.bus_cycle = BusCycle::NONSEQUENTIAL;
                self.instruction_step = InstructionStep::STEP1;
                self.instruction_counter_step = 0;
                Ok(())
            } else if self.instruction_step == InstructionStep::STEP1 {
                let idx = self.instruction_counter_step;
                if idx >= 16 || idx as usize >= self.list_transfer_op.len() {
                    return Err(CpuError::InvalidInstructionStep);
                }
                let pair = self.list_transfer_op[idx as usize];
                let register_to_use = pair.1;
                if register_to_use >= 16 {
                    return Err(CpuError::InvalidInstructionStep);
                }

                self.data_is_fetch = false;
                req.bus_cycle = BusCycle::SEQUENTIAL;
                req.address = pair.0;
                req.nr_w = BusSignal::HIGH;

                // the S flag stores the user bank instead of the current one
                req.data = if s_flag == 1 {
                    self.rf.get_user_register(register_to_use, 12)
                } else {
                    self.rf.get_register(register_to_use, 12)
                };

                if self.instruction_counter_step == 0 {
                    self.modify_register_ldm_stm(was_list_empy, w_flag, u_flag, rn,
                        items_to_handle * 4);
                }

                self.instruction_counter_step = self.instruction_counter_step + 1;

                if self.instruction_counter_step == items_to_handle {
                    req.bus_cycle = BusCycle::NONSEQUENTIAL;
                    self.instruction_step = InstructionStep::STEP0;
                }
                Ok(())
            } else {
                Err(CpuError::InvalidInstructionStep)
            }
        } else {
            // load multiple
            if self.instruction_step == InstructionStep::STEP0 {
                req.bus_cycle = BusCycle::NONSEQUENTIAL;
                self.instruction_step = InstructionStep::STEP1;
                self.instruction_counter_step = 0;
                Ok(())
            } else if self.instruction_step == InstructionStep::STEP1 {
                if self.list_transfer_op.len() == 0 {
                    return Err(CpuError::InvalidInstructionStep);
                }
                self.data_is_fetch = false;
                req.bus_cycle = BusCycle::SEQUENTIAL;
                req.address = self.list_transfer_op[0].0;
                if items_to_handle == 1 {
                    req.bus_cycle = BusCycle::INTERNAL;
                }

                self.instruction_counter_step = self.instruction_counter_step.wrapping_add(1);
                self.instruction_step = InstructionStep::STEP2;
                Ok(())
            } else if self.instruction_step == InstructionStep::STEP2 {
                let idx = self.instruction_counter_step;
                if idx == 0 || idx as usize > self.list_transfer_op.len() {
                    return Err(CpuError::InvalidInstructionStep);
                }
                let pair = self.list_transfer_op[(idx - 1) as usize];
                if pair.1 >= 16 {
                    return Err(CpuError::InvalidInstructionStep);
                }

                self.data_is_fetch = false;

                // write-back only with the base register not in the list
                if !is_rn_in_list {
                    self.modify_register_ldm_stm(was_list_empy, w_flag, u_flag, rn, 4);
                }

                // the S flag loads the user bank, unless r15 is listed
                if s_flag == 0 || (r_list >> 15) & 1 == 1 {
                    self.rf.write_register(pair.1, rsp.data);
                } else {
                    self.rf.write_user_register(pair.1, rsp.data);
                }

                if items_to_handle == self.instruction_counter_step {
                    if (r_list >> 15) & 1 == 1 {
                        // a loaded r15 also returns: the saved status register
                        // replaces the current one, and the pipeline refills
                        if !self.rf.has_spsr() {
                            return Err(CpuError::SpsrUnavailable);
                        }
                        let current_spsr = self.rf.get_spsr();
                        let _ = self.rf.write_cpsr(current_spsr);
                        self.arm_instruction_queue.clear();
                        req.bus_cycle = BusCycle::NONSEQUENTIAL;
                        self.data_is_fetch = false;
                        self.instruction_step = InstructionStep::STEP3;
                    } else {
                        self.instruction_step = InstructionStep::STEP0;
                    }
                } else {
                    if self.instruction_counter_step.wrapping_add(1) == items_to_handle {
                        req.bus_cycle = BusCycle::INTERNAL;
                    }
                    if self.instruction_counter_step as usize >= self.list_transfer_op.len() {
                        return Err(CpuError::InvalidInstructionStep);
                    }
                    req.address = self.list_transfer_op[self.instruction_counter_step as usize].0;
                    self.instruction_counter_step = self.instruction_counter_step.wrapping_add(1);
                }
                Ok(())
            } else if self.instruction_step == InstructionStep::STEP3 {
                req.address = self.rf.get_register(15, 0);
                self.instruction_step = InstructionStep::STEP4;
                Ok(())
            } else if self.instruction_step == InstructionStep::STEP4 {
                req.address = self.rf.get_register(15, 4);
                let pc = self.rf.get_register(15, 0);
                self.rf.write_register(15, crate::common::wrapping_sub_u32(pc, 4));
                self.instruction_step = InstructionStep::STEP0;
                Ok(())
            } else {
                Err(CpuError::InvalidInstructionStep)
            }
        }
    }
}


/// One-cycle effect relation of `arm_data_processing`: how the post-state and the
/// outgoing request relate to the pre-state, the incoming request and the
/// result. The handler's contract is exactly this relation, so a caller can
/// quote it.
pub open spec fn spec_arm_data_processing_effect(pre: ARM7TDMI, req0: MemoryRequest, post: ARM7TDMI,
    req1: MemoryRequest, res: Result<(), CpuError>) -> bool {
    &&& post.arm_current_execute == pre.arm_current_execute
    &&& post.last_used_address == pre.last_used_address
    &&& post.instruction_counter_step == pre.instruction_counter_step
    &&& post.list_transfer_op == pre.list_transfer_op
    &&& ({
                let w = pre.arm_current_execute;
                let b = pre.rf@;
                let cond = spec_condition_passed(b.cpsr, spec_cond(w));
                let rd = (w >> 12) & 0xf;
                let s_flag = (w >> 20) & 1;
                let op = spec_opcode_from_value((w >> 21) & 0xf);
                let shifted = spec_dp_operands(b, w).3;
                let writes_pc = rd == 15 && !spec_is_test_opcode(op);
                &&& (pre.instruction_step == InstructionStep::STEP0 && !cond ==> res
                    == Ok::<(), CpuError>(()) && post == pre && req1 == req0)
                &&& (pre.instruction_step == InstructionStep::STEP0 && cond ==> (
                    match spec_dp_step0_fault(b, w) {
                        Some(e) => res == Err::<(), CpuError>(e)
                            && post.arm_instruction_queue == pre.arm_instruction_queue
                            && post.data_is_fetch == pre.data_is_fetch,
                        None => {
                            &&& res == Ok::<(), CpuError>(())
                            &&& post.rf@ == spec_dp_step0_rf(b, w)
                            &&& (shifted ==> post.instruction_step
                                == InstructionStep::STEP1 && !post.data_is_fetch && req1 == (MemoryRequest { bus_cycle: BusCycle::INTERNAL, ..req0 })
                                && post.arm_instruction_queue == pre.arm_instruction_queue)
                            &&& (!shifted && writes_pc ==> post.instruction_step
                                == InstructionStep::STEP2 && !post.data_is_fetch && req1 == (MemoryRequest {
                                bus_cycle: BusCycle::NONSEQUENTIAL,
                                ..req0
                            }) && post.arm_instruction_queue@ == Seq::<u32>::empty())
                            &&& (!shifted && !writes_pc ==> post.instruction_step
                                == InstructionStep::STEP0 && post.data_is_fetch == pre.data_is_fetch && req1 == req0 && post.arm_instruction_queue == pre.arm_instruction_queue)
                        },
                    }))
                &&& (pre.instruction_step == InstructionStep::STEP1 ==> res == Ok::<(),
                    CpuError>(()) && post.rf@ == b && (if writes_pc {
                    post.instruction_step == InstructionStep::STEP2 && !post.data_is_fetch && req1 == (MemoryRequest {
                        bus_cycle: BusCycle::NONSEQUENTIAL,
                        ..req0
                    }) && post.arm_instruction_queue@ == Seq::<u32>::empty()
                } else {
                    post.instruction_step == InstructionStep::STEP0 && req1 == req0 && post.arm_instruction_queue == pre.arm_instruction_queue && post.data_is_fetch == pre.data_is_fetch
                }))
                &&& (pre.instruction_step == InstructionStep::STEP2 ==> res == Ok::<(),
                    CpuError>(()) && post.rf@ == b && post.instruction_step
                    == InstructionStep::STEP3 && req1 == (MemoryRequest {
                    address: spec_reg_read(b, 15),
                    ..req0
                }) && post.arm_instruction_queue == pre.arm_instruction_queue && post.data_is_fetch == pre.data_is_fetch)
                &&& (pre.instruction_step == InstructionStep::STEP3 ==> ({
                    let b1 = if s_flag == 1 && spec_has_spsr(b) && valid_mode_bits(spec_mode_bits(
                        spec_spsr_read(b))) {
                        RegisterBanks { cpsr: spec_spsr_read(b), ..b }
                    } else {
                        b
                    };
                    &&& res == Ok::<(), CpuError>(())
                    &&& post.rf@ == spec_reg_write(b1, 15, wsub(spec_reg_read(b1, 15), 4))
                    &&& post.instruction_step == InstructionStep::STEP0
                    &&& post.arm_instruction_queue == pre.arm_instruction_queue
                    &&& post.data_is_fetch == pre.data_is_fetch
                    &&& req1 == (MemoryRequest {
                        address: wadd(spec_reg_read(b1, 15), 4),
                        ..req0
                    })
                }))
                &&& (pre.instruction_step == InstructionStep::STEP4 ==> res == Err::<(),
                    CpuError>(CpuError::InvalidInstructionStep) && post == pre
                    && req1 == req0)
    })
}

/// One-cycle effect relation of `arm_branch`: how the post-state and the
/// outgoing request relate to the pre-state, the incoming request and the
/// result. The handler's contract is exactly this relation, so a caller can
/// quote it.
pub open spec fn spec_arm_branch_effect(pre: ARM7TDMI, req0: MemoryRequest, post: ARM7TDMI,
    req1: MemoryRequest, res: Result<(), CpuError>) -> bool {
    &&& post.arm_current_execute == pre.arm_current_execute
    &&& post.last_used_address == pre.last_used_address
    &&& post.instruction_counter_step == pre.instruction_counter_step
    &&& post.list_transfer_op == pre.list_transfer_op
    &&& ({
                let w = pre.arm_current_execute;
                let b = pre.rf@;
                let cond = spec_condition_passed(b.cpsr, spec_cond(w));
                let link = (w >> 24) & 1;
                let nn = w & 0xff_ffff;
                let nn_ext = if spec_bit32(nn, 23) { nn | 0xff00_0000u32 } else { nn };
                let pc = spec_reg_read(b, 15);
                let target = wadd(wadd(pc, nn_ext << 2u32), 8);
                &&& (!cond ==> res == Ok::<(), CpuError>(()) && post == pre
                    && req1 == req0)
                &&& (cond && pre.instruction_step == InstructionStep::STEP0 ==> {
                    &&& res == Ok::<(), CpuError>(())
                    &&& post.rf@ == (if link == 1 {
                        spec_reg_write(spec_reg_write(b, 14, wadd(pc, 4)), 15, target)
                    } else {
                        spec_reg_write(b, 15, target)
                    })
                    &&& post.instruction_step == InstructionStep::STEP1
                    &&& !post.data_is_fetch
                    &&& post.arm_instruction_queue@ == Seq::<u32>::empty()
                    &&& req1 == (MemoryRequest { bus_cycle: BusCycle::NONSEQUENTIAL, ..req0 })
                })
                &&& (cond && pre.instruction_step == InstructionStep::STEP1 ==> res
                    == Ok::<(), CpuError>(()) && post.rf@ == b && post.instruction_step == InstructionStep::STEP2 && req1
                    == (MemoryRequest { address: pc, ..req0 }) && post.arm_instruction_queue == pre.arm_instruction_queue && post.data_is_fetch == pre.data_is_fetch)
                &&& (cond && pre.instruction_step == InstructionStep::STEP2 ==> res
                    == Ok::<(), CpuError>(()) && post.rf@ == spec_reg_write(b, 15, wsub(pc,
                    4)) && post.instruction_step == InstructionStep::STEP0 && req1
                    == (MemoryRequest { address: wadd(pc, 4), ..req0 }) && post.arm_instruction_queue == pre.arm_instruction_queue && post.data_is_fetch == pre.data_is_fetch)
                &&& (cond && (pre.instruction_step == InstructionStep::STEP3 || pre.instruction_step == InstructionStep::STEP4) ==> res == Err::<(),
                    CpuError>(CpuError::InvalidInstructionStep) && post == pre
                    && req1 == req0)
    })
}

/// One-cycle effect relation of `arm_swi`: how the post-state and the
/// outgoing request relate to the pre-state, the incoming request and the
/// result. The handler's contract is exactly this relation, so a caller can
/// quote it.
pub open spec fn spec_arm_swi_effect(pre: ARM7TDMI, req0: MemoryRequest, post: ARM7TDMI,
    req1: MemoryRequest, res: Result<(), CpuError>) -> bool {
    &&& post.arm_current_execute == pre.arm_current_execute
    &&& post.last_used_address == pre.last_used_address
    &&& post.instruction_counter_step == pre.instruction_counter_step
    &&& post.list_transfer_op == pre.list_transfer_op
    &&& ({
                let w = pre.arm_current_execute;
                let b = pre.rf@;
                let cond = spec_condition_passed(b.cpsr, spec_cond(w));
                &&& (!cond ==> res == Ok::<(), CpuError>(()) && post == pre
                    && req1 == req0)
                &&& (cond && pre.instruction_step == InstructionStep::STEP0 ==> {
                    &&& res == Ok::<(), CpuError>(())
                    &&& post.rf@ == b
                    &&& post.instruction_step == InstructionStep::STEP1
                    &&& !post.data_is_fetch
                    &&& post.arm_instruction_queue@ == Seq::<u32>::empty()
                    &&& req1 == (MemoryRequest { bus_cycle: BusCycle::NONSEQUENTIAL, ..req0 })
                })
                &&& (cond && pre.instruction_step == InstructionStep::STEP1 ==> ({
                    let b1 = RegisterBanks {
                        cpsr: (b.cpsr & 0xffff_ffc0) | MODE_SUPERVISOR,
                        ..b
                    };
                    let b2 = RegisterBanks { spsr: b1.spsr.update(1, b.cpsr), ..b1 };
                    let b3 = spec_reg_write(b2, 14, wadd(spec_reg_read(b2, 15), 4));
                    let b4 = spec_reg_write(b3, 15, 4);
                    &&& res == Ok::<(), CpuError>(())
                    &&& post.rf@ == b4
                    &&& post.instruction_step == InstructionStep::STEP2
                    &&& post.arm_instruction_queue == pre.arm_instruction_queue
                    &&& post.data_is_fetch == pre.data_is_fetch
                    &&& req1 == (MemoryRequest {
                        address: wadd(spec_reg_read(b4, 15), 4),
                        ..req0
                    })
                }))
                &&& (cond && pre.instruction_step == InstructionStep::STEP2 ==> res
                    == Ok::<(), CpuError>(()) && post.rf@ == b && post.instruction_step == InstructionStep::STEP0 && req1
                    == (MemoryRequest { address: wadd(spec_reg_read(b, 15), 8), ..req0 }) && post.arm_instruction_queue == pre.arm_instruction_queue && post.data_is_fetch == pre.data_is_fetch)
                &&& (cond && (pre.instruction_step == InstructionStep::STEP3 || pre.instruction_step == InstructionStep::STEP4) ==> res == Err::<(),
                    CpuError>(CpuError::InvalidInstructionStep) && post == pre
                    && req1 == req0)
    })
}

/// One-cycle effect relation of `arm_undefined`: how the post-state and the
/// outgoing request relate to the pre-state, the incoming request and the
/// result. The handler's contract is exactly this relation, so a caller can
/// quote it.
pub open spec fn spec_arm_undefined_effect(pre: ARM7TDMI, req0: MemoryRequest, post: ARM7TDMI,
    req1: MemoryRequest, res: Result<(), CpuError>) -> bool {
    &&& post.arm_current_execute == pre.arm_current_execute
    &&& post.last_used_address == pre.last_used_address
    &&& post.instruction_counter_step == pre.instruction_counter_step
    &&& post.list_transfer_op == pre.list_transfer_op
    &&& ({
                let w = pre.arm_current_execute;
                let b = pre.rf@;
                let cond = spec_condition_passed(b.cpsr, spec_cond(w));
                &&& (!cond ==> res == Ok::<(), CpuError>(()) && post == pre
                    && req1 == req0)
                &&& (cond && pre.instruction_step == InstructionStep::STEP0 ==> {
                    &&& res == Ok::<(), CpuError>(())
                    &&& post.rf@ == b
                    &&& post.instruction_step == InstructionStep::STEP1
                    &&& !post.data_is_fetch
                    &&& post.arm_instruction_queue@ == Seq::<u32>::empty()
                    &&& req1 == (MemoryRequest { bus_cycle: BusCycle::NONSEQUENTIAL, ..req0 })
                })
                &&& (cond && pre.instruction_step == InstructionStep::STEP1 ==> ({
                    let b1 = RegisterBanks { cpsr: (b.cpsr & 0xffff_ffc0) | MODE_UND, ..b };
                    let b2 = RegisterBanks { spsr: b1.spsr.update(4, b.cpsr), ..b1 };
                    let b3 = spec_reg_write(b2, 14, wadd(spec_reg_read(b2, 15), 4));
                    let b4 = spec_reg_write(b3, 15, 0);
                    &&& res == Ok::<(), CpuError>(())
                    &&& post.rf@ == b4
                    &&& post.instruction_step == InstructionStep::STEP2
                    &&& post.arm_instruction_queue == pre.arm_instruction_queue
                    &&& post.data_is_fetch == pre.data_is_fetch
                    &&& req1 == (MemoryRequest {
                        address: wadd(spec_reg_read(b4, 15), 4),
                        ..req0
                    })
                }))
                &&& (cond && pre.instruction_step == InstructionStep::STEP2 ==> res
                    == Ok::<(), CpuError>(()) && post.rf@ == b && post.instruction_step == InstructionStep::STEP3 && req1
                    == (MemoryRequest {
                    address: wadd(spec_reg_read(b, 15), 8),
                    bus_cycle: BusCycle::INTERNAL,
                    ..req0
                }) && post.arm_instruction_queue == pre.arm_instruction_queue && post.data_is_fetch == pre.data_is_fetch)
                &&& (cond && pre.instruction_step == InstructionStep::STEP3 ==> res
                    == Ok::<(), CpuError>(()) && post.rf@ == b && post.instruction_step == InstructionStep::STEP0 && !post.data_is_fetch
                    && req1 == req0 && post.arm_instruction_queue == pre.arm_instruction_queue)
                &&& (cond && pre.instruction_step == InstructionStep::STEP4 ==> res
                    == Err::<(), CpuError>(CpuError::InvalidInstructionStep) && post
                    == pre && req1 == req0)
    })
}

/// One-cycle effect relation of `arm_multiply`: how the post-state and the
/// outgoing request relate to the pre-state, the incoming request and the
/// result. The handler's contract is exactly this relation, so a caller can
/// quote it.
pub open spec fn spec_arm_multiply_effect(pre: ARM7TDMI, req0: MemoryRequest, post: ARM7TDMI,
    req1: MemoryRequest, res: Result<(), CpuError>) -> bool {
    &&& post.arm_current_execute == pre.arm_current_execute
    &&& post.last_used_address == pre.last_used_address
    &&& post.list_transfer_op == pre.list_transfer_op
    &&& ({
                let w = pre.arm_current_execute;
                let b = pre.rf@;
                let cond = spec_condition_passed(b.cpsr, spec_cond(w));
                let opcode = (w >> 21) & 0xf;
                let rs = (w >> 8) & 0xf;
                let step = pre.instruction_step;
                let counter = pre.instruction_counter_step;
                &&& (!cond ==> res == Ok::<(), CpuError>(()) && post == pre
                    && req1 == req0)
                &&& (cond && step == InstructionStep::STEP0 ==> {
                    &&& res == Ok::<(), CpuError>(())
                    &&& post.rf@ == b
                    &&& post.instruction_step == InstructionStep::STEP1
                    &&& post.instruction_counter_step == spec_mul_cycles(spec_reg_read(b,
                        rs), opcode)
                    &&& post.arm_instruction_queue == pre.arm_instruction_queue
                    &&& post.data_is_fetch == pre.data_is_fetch
                    &&& req1 == (MemoryRequest { bus_cycle: BusCycle::INTERNAL, ..req0 })
                })
                &&& (cond && step == InstructionStep::STEP1 && counter == 0 ==> res == Err::<(),
                    CpuError>(CpuError::InvalidInstructionStep) && post == pre
                    && req1 == req0)
                &&& (cond && step == InstructionStep::STEP1 && counter > 1 ==> {
                    &&& res == Ok::<(), CpuError>(())
                    &&& post.rf@ == b
                    &&& post.instruction_step == InstructionStep::STEP1
                    &&& post.instruction_counter_step == counter - 1
                    &&& !post.data_is_fetch
                    &&& post.arm_instruction_queue == pre.arm_instruction_queue
                    &&& req1 == (MemoryRequest { bus_cycle: BusCycle::INTERNAL, ..req0 })
                })
                &&& (cond && step == InstructionStep::STEP1 && counter == 1 ==> (if opcode <= 1
                    || (4 <= opcode && opcode <= 7) {
                    &&& res == Ok::<(), CpuError>(())
                    &&& post.rf@ == spec_mul_rf(b, w)
                    &&& post.instruction_step == InstructionStep::STEP0
                    &&& post.instruction_counter_step == 0
                    &&& !post.data_is_fetch
                    &&& post.arm_instruction_queue == pre.arm_instruction_queue
                    &&& req1 == (MemoryRequest { bus_cycle: BusCycle::SEQUENTIAL, ..req0 })
                } else {
                    &&& res == Err::<(), CpuError>(CpuError::ReservedOperand)
                    &&& post.rf@ == b
                    &&& post.instruction_step == InstructionStep::STEP1
                    &&& post.instruction_counter_step == 0
                    &&& !post.data_is_fetch
                    &&& post.arm_instruction_queue == pre.arm_instruction_queue
                    &&& req1 == (MemoryRequest { bus_cycle: BusCycle::INTERNAL, ..req0 })
                }))
                &&& (cond && step != InstructionStep::STEP0 && step != InstructionStep::STEP1 ==>
                    res == Err::<(), CpuError>(CpuError::InvalidInstructionStep) && post
                    == pre && req1 == req0)
    })
}

/// One-cycle effect relation of `arm_branch_and_exchange`: how the post-state and the
/// outgoing request relate to the pre-state, the incoming request and the
/// result. The handler's contract is exactly this relation, so a caller can
/// quote it.
pub open spec fn spec_arm_branch_and_exchange_effect(pre: ARM7TDMI, req0: MemoryRequest, rsp: MemoryResponse, post: ARM7TDMI,
    req1: MemoryRequest, res: Result<(), CpuError>) -> bool {
    &&& post.arm_current_execute == pre.arm_current_execute
    &&& post.last_used_address == pre.last_used_address
    &&& post.instruction_counter_step == pre.instruction_counter_step
    &&& post.list_transfer_op == pre.list_transfer_op
    &&& ({
                let w = pre.arm_current_execute;
                let b = pre.rf@;
                let cond = spec_condition_passed(b.cpsr, spec_cond(w));
                let rn = w & 0xf;
                let dest_raw = spec_reg_read_biased(b, rn, 8);
                let use_thumb = dest_raw & 1 == 1;
                let dest = dest_raw & 0xffff_fffe;
                &&& (!cond ==> res == Ok::<(), CpuError>(()) && post == pre
                    && req1 == req0)
                &&& (cond && pre.instruction_step == InstructionStep::STEP0 ==> {
                    &&& res == Ok::<(), CpuError>(())
                    &&& post.rf@ == b
                    &&& post.instruction_step == InstructionStep::STEP1
                    &&& !post.data_is_fetch
                    &&& post.arm_instruction_queue@ == Seq::<u32>::empty()
                    &&& req1 == (MemoryRequest { bus_cycle: BusCycle::NONSEQUENTIAL, ..req0 })
                })
                &&& (cond && pre.instruction_step == InstructionStep::STEP1 ==> {
                    &&& res == Ok::<(), CpuError>(())
                    &&& post.rf@ == b
                    &&& post.instruction_step == InstructionStep::STEP2
                    &&& !post.data_is_fetch
                    &&& post.arm_instruction_queue == pre.arm_instruction_queue
                    &&& req1 == (MemoryRequest {
                        address: dest,
                        mas: if use_thumb { TransferSize::HALFWORD } else { TransferSize::WORD },
                        bus_cycle: BusCycle::SEQUENTIAL,
                        ..req0
                    })
                })
                &&& (cond && pre.instruction_step == InstructionStep::STEP2 ==> {
                    &&& res == Ok::<(), CpuError>(())
                    &&& (if use_thumb {
                        &&& post.rf@ == (RegisterBanks {
                            cpsr: b.cpsr | 0x20u32,
                            ..spec_reg_write(b, 15, wsub(dest, 2))
                        })
                        &&& post.arm_instruction_queue@ == pre.arm_instruction_queue@.push(
                            if (pre.last_used_address >> 1) & 1 == 0 {
                                rsp.data & 0xffff
                            } else {
                                rsp.data >> 16
                            })
                        &&& req1 == (MemoryRequest {
                            address: wadd(dest, 2),
                            mas: TransferSize::HALFWORD,
                            bus_cycle: BusCycle::SEQUENTIAL,
                            ..req0
                        })
                    } else {
                        &&& post.rf@ == (RegisterBanks {
                            cpsr: b.cpsr & 0xffff_ffdfu32,
                            ..spec_reg_write(b, 15, wsub(dest, 4))
                        })
                        &&& post.arm_instruction_queue@ == pre.arm_instruction_queue@.push(rsp.data)
                        &&& req1 == (MemoryRequest {
                            address: wadd(dest, 4),
                            mas: TransferSize::WORD,
                            bus_cycle: BusCycle::SEQUENTIAL,
                            ..req0
                        })
                    })
                    &&& post.instruction_step == InstructionStep::STEP0
                    &&& post.data_is_fetch == pre.data_is_fetch
                })
                &&& (cond && (pre.instruction_step == InstructionStep::STEP3 || pre.instruction_step == InstructionStep::STEP4) ==> res == Err::<(),
                    CpuError>(CpuError::InvalidInstructionStep) && post == pre
                    && req1 == req0)
    })
}

/// One-cycle effect relation of `arm_single_data_transfer`: how the post-state and the
/// outgoing request relate to the pre-state, the incoming request and the
/// result. The handler's contract is exactly this relation, so a caller can
/// quote it.
pub open spec fn spec_arm_single_data_transfer_effect(pre: ARM7TDMI, req0: MemoryRequest, rsp: MemoryResponse, post: ARM7TDMI,
    req1: MemoryRequest, res: Result<(), CpuError>) -> bool {
    &&& post.arm_current_execute == pre.arm_current_execute
    &&& post.last_used_address == pre.last_used_address
    &&& post.instruction_counter_step == pre.instruction_counter_step
    &&& post.list_transfer_op == pre.list_transfer_op
    &&& ({
                let w = pre.arm_current_execute;
                let b = pre.rf@;
                let cond = spec_condition_passed(b.cpsr, spec_cond(w));
                let l_flag = (w >> 20) & 1;
                let rn = (w >> 16) & 0xf;
                let rd = (w >> 12) & 0xf;
                let p_flag = (w >> 24) & 1;
                let tw_flag = (w >> 21) & 1;
                let b_flag = (w >> 22) & 1;
                let i_flag = (w >> 25) & 1;
                let rm = w & 0xf;
                let target = spec_sdt_target(b, w);
                let base = spec_reg_read_biased(b, rn, spec_pc_fetch_bias(b));
                let writeback = p_flag == 0 || tw_flag == 1;
                &&& (!cond ==> res == Ok::<(), CpuError>(()) && post == pre
                    && req1 == req0)
                &&& (cond && pre.instruction_step == InstructionStep::STEP0 ==> res
                    == Ok::<(), CpuError>(()) && post.rf@ == b && post.instruction_step == InstructionStep::STEP1 && req1
                    == (MemoryRequest { bus_cycle: BusCycle::NONSEQUENTIAL, ..req0 }) && post.arm_instruction_queue == pre.arm_instruction_queue && post.data_is_fetch == pre.data_is_fetch)
                &&& (cond && pre.instruction_step == InstructionStep::STEP1 ==> (
                    if i_flag == 1 && rm == 15 {
                    res == Err::<(), CpuError>(CpuError::PcOperandForbidden) && post
                        == pre && req1 == req0
                } else {
                    &&& res == Ok::<(), CpuError>(())
                    &&& post.rf@ == (if writeback {
                        spec_reg_write(b, rn, target)
                    } else {
                        b
                    })
                    &&& !post.data_is_fetch
                    &&& post.arm_instruction_queue == pre.arm_instruction_queue
                    &&& ({
                        let addressed = MemoryRequest {
                            address: if p_flag == 1 { target } else { base },
                            n_trans: if p_flag == 0 && tw_flag == 1 {
                                BusSignal::LOW
                            } else {
                                req0.n_trans
                            },
                            mas: if b_flag == 1 { TransferSize::BYTE } else { req0.mas },
                            ..req0
                        };
                        if l_flag == 1 {
                            &&& post.instruction_step == InstructionStep::STEP2
                            &&& req1 == (MemoryRequest {
                                bus_cycle: BusCycle::INTERNAL,
                                ..addressed
                            })
                        } else {
                            &&& post.instruction_step == InstructionStep::STEP0
                            &&& req1 == (MemoryRequest {
                                data: if b_flag == 1 {
                                    let byte = spec_reg_read_biased(b, rd, 12) & 0xff;
                                    byte | (byte << 8u32) | (byte << 16u32) | (byte << 24u32)
                                } else {
                                    spec_reg_read_biased(b, rd, 12)
                                },
                                nr_w: BusSignal::HIGH,
                                ..addressed
                            })
                        }
                    })
                }))
                &&& (cond && pre.instruction_step == InstructionStep::STEP2 ==> (
                    if l_flag == 1 {
                    &&& res == Ok::<(), CpuError>(())
                    &&& post.rf@ == spec_reg_write(b, rd, spec_sdt_loaded(rsp.data, pre.last_used_address, b_flag))
                    &&& !post.data_is_fetch
                    &&& (rd == 15 ==> post.instruction_step == InstructionStep::STEP3
                        && post.arm_instruction_queue@ == Seq::<u32>::empty() && req1
                        == (MemoryRequest { bus_cycle: BusCycle::NONSEQUENTIAL, ..req0 }))
                    &&& (rd != 15 ==> post.instruction_step == InstructionStep::STEP0
                        && post.arm_instruction_queue == pre.arm_instruction_queue && req1
                        == (MemoryRequest {
                        bus_cycle: BusCycle::SEQUENTIAL,
                        ..req0
                    }))
                } else {
                    res == Err::<(), CpuError>(CpuError::InvalidInstructionStep) && post
                        == pre && req1 == req0
                }))
                &&& (cond && pre.instruction_step == InstructionStep::STEP3 ==> (
                    if l_flag == 1 {
                    res == Ok::<(), CpuError>(()) && post.rf@ == b && post.instruction_step == InstructionStep::STEP4 && req1
                        == (MemoryRequest { address: spec_reg_read(b, 15), ..req0 }) && post.arm_instruction_queue == pre.arm_instruction_queue && post.data_is_fetch == pre.data_is_fetch
                } else {
                    res == Err::<(), CpuError>(CpuError::InvalidInstructionStep) && post
                        == pre && req1 == req0
                }))
                &&& (cond && pre.instruction_step == InstructionStep::STEP4 ==> (
                    if l_flag == 1 {
                    res == Ok::<(), CpuError>(()) && post.rf@ == spec_reg_write(b, 15, wsub(
                        spec_reg_read(b, 15), 4)) && post.instruction_step
                        == InstructionStep::STEP0 && req1 == (MemoryRequest {
                        address: wadd(spec_reg_read(b, 15), 4),
                        ..req0
                    }) && post.arm_instruction_queue == pre.arm_instruction_queue && post.data_is_fetch == pre.data_is_fetch
                } else {
                    res == Err::<(), CpuError>(CpuError::InvalidInstructionStep) && post
                        == pre && req1 == req0
                }))
    })
}

/// One-cycle effect relation of `arm_hw_transfer`: how the post-state and the
/// outgoing request relate to the pre-state, the incoming request and the
/// result. The handler's contract is exactly this relation, so a caller can
/// quote it.
pub open spec fn spec_arm_hw_transfer_effect(pre: ARM7TDMI, req0: MemoryRequest, rsp: MemoryResponse, post: ARM7TDMI,
    req1: MemoryRequest, res: Result<(), CpuError>) -> bool {
    &&& post.arm_current_execute == pre.arm_current_execute
    &&& post.last_used_address == pre.last_used_address
    &&& post.instruction_counter_step == pre.instruction_counter_step
    &&& post.list_transfer_op == pre.list_transfer_op
    &&& ({
                let w = pre.arm_current_execute;
                let b = pre.rf@;
                let cond = spec_condition_passed(b.cpsr, spec_cond(w));
                let p_flag = (w >> 24) & 1;
                let w_flag = (w >> 21) & 1;
                let l_flag = (w >> 20) & 1;
                let rn = (w >> 16) & 0xf;
                let rd = (w >> 12) & 0xf;
                let opcode = (w >> 5) & 3;
                let target = spec_hwt_target(b, w);
                let base = spec_reg_read_biased(b, rn, spec_pc_fetch_bias(b));
                let issued = if p_flag == 1 { target } else { base };
                let writeback = p_flag == 0 || w_flag == 1;
                let step = pre.instruction_step;
                &&& (!cond ==> res == Ok::<(), CpuError>(()) && post == pre
                    && req1 == req0)
                &&& (cond && opcode == 0 ==> res == Err::<(), CpuError>(CpuError::ReservedOperand)
                    && post == pre && req1 == req0)
                &&& (cond && opcode != 0 && l_flag == 1 ==> {
                    &&& (step == InstructionStep::STEP0 ==> res == Ok::<(), CpuError>(()) && post.rf@ == b && post.instruction_step == InstructionStep::STEP1
                        && post.arm_instruction_queue == pre.arm_instruction_queue
                        && post.data_is_fetch == pre.data_is_fetch && req1 == (MemoryRequest {
                        bus_cycle: BusCycle::NONSEQUENTIAL,
                        ..req0
                    }))
                    &&& (step == InstructionStep::STEP1 ==> res == Ok::<(), CpuError>(()) && post.rf@ == (if writeback {
                        spec_reg_write(b, rn, target)
                    } else {
                        b
                    }) && post.instruction_step == InstructionStep::STEP2 && !post.data_is_fetch
                        && post.arm_instruction_queue == pre.arm_instruction_queue && req1
                        == (MemoryRequest {
                        address: issued,
                        mas: if opcode == 2 { TransferSize::BYTE } else { TransferSize::HALFWORD },
                        bus_cycle: BusCycle::INTERNAL,
                        ..req0
                    }))
                    &&& (step == InstructionStep::STEP2 ==> {
                        &&& res == Ok::<(), CpuError>(())
                        &&& post.rf@ == spec_reg_write(b, rd, spec_hwt_loaded(rsp.data, pre.last_used_address, opcode))
                        &&& !post.data_is_fetch
                        &&& (rd == 15 ==> post.instruction_step == InstructionStep::STEP3
                            && post.arm_instruction_queue@ == Seq::<u32>::empty() && req1 == (MemoryRequest {
                            bus_cycle: BusCycle::NONSEQUENTIAL,
                            ..req0
                        }))
                        &&& (rd != 15 ==> post.instruction_step == InstructionStep::STEP0
                            && post.arm_instruction_queue == pre.arm_instruction_queue && req1
                            == (MemoryRequest {
                            bus_cycle: BusCycle::SEQUENTIAL,
                            ..req0
                        }))
                    })
                    &&& (step == InstructionStep::STEP3 ==> res == Ok::<(), CpuError>(()) && post.rf@ == b && post.instruction_step == InstructionStep::STEP4
                        && req1 == (MemoryRequest { address: spec_reg_read(b, 15), ..req0 }) && post.arm_instruction_queue == pre.arm_instruction_queue && post.data_is_fetch == pre.data_is_fetch)
                    &&& (step == InstructionStep::STEP4 ==> res == Ok::<(), CpuError>(()) && post.rf@ == spec_reg_write(b, 15, wsub(spec_reg_read(b, 15), 4)) && post.instruction_step == InstructionStep::STEP0 && req1
                        == (MemoryRequest { address: wadd(spec_reg_read(b, 15), 4), ..req0 }) && post.arm_instruction_queue == pre.arm_instruction_queue && post.data_is_fetch == pre.data_is_fetch)
                })
                &&& (cond && opcode == 1 && l_flag == 0 ==> {
                    &&& (step == InstructionStep::STEP0 ==> res == Ok::<(), CpuError>(()) && post.rf@ == b && post.instruction_step == InstructionStep::STEP1
                        && post.arm_instruction_queue == pre.arm_instruction_queue
                        && post.data_is_fetch == pre.data_is_fetch && req1 == (MemoryRequest {
                        bus_cycle: BusCycle::NONSEQUENTIAL,
                        ..req0
                    }))
                    &&& (step == InstructionStep::STEP1 ==> ({
                        let half = spec_reg_read_biased(b, rd, 12) & 0xffff;
                        &&& res == Ok::<(), CpuError>(())
                        &&& post.rf@ == (if writeback {
                            spec_reg_write(b, rn, target)
                        } else {
                            b
                        })
                        &&& post.instruction_step == InstructionStep::STEP0
                        &&& !post.data_is_fetch
                        &&& post.arm_instruction_queue == pre.arm_instruction_queue
                        &&& req1 == (MemoryRequest {
                            address: issued,
                            mas: TransferSize::HALFWORD,
                            data: half | (spec_reg_read_biased(b, rd, 12) << 16u32),
                            nr_w: BusSignal::HIGH,
                            ..req0
                        })
                    }))
                    &&& (step != InstructionStep::STEP0 && step != InstructionStep::STEP1 ==> res
                        == Err::<(), CpuError>(CpuError::InvalidInstructionStep) && post
                        == pre && req1 == req0)
                })
                &&& (cond && opcode == 2 && l_flag == 0 ==> {
                    &&& (step == InstructionStep::STEP0 ==> res == Ok::<(), CpuError>(()) && post.rf@ == b && post.instruction_step == InstructionStep::STEP1
                        && post.arm_instruction_queue == pre.arm_instruction_queue
                        && post.data_is_fetch == pre.data_is_fetch && req1 == (MemoryRequest {
                        bus_cycle: BusCycle::NONSEQUENTIAL,
                        ..req0
                    }))
                    &&& (step == InstructionStep::STEP1 ==> (if issued % 8 != 0 || rd % 2 != 0
                        || rd == 14 {
                        res == Err::<(), CpuError>(CpuError::PcOperandForbidden) && post == pre
                            && req1 == (MemoryRequest { address: issued, ..req0 })
                    } else {
                        res == Ok::<(), CpuError>(()) && post.rf@ == b && post.instruction_step == InstructionStep::STEP2 && !post.data_is_fetch
                            && post.arm_instruction_queue == pre.arm_instruction_queue && req1
                            == (MemoryRequest {
                            address: issued,
                            ..req0
                        })
                    }))
                    &&& (step == InstructionStep::STEP2 ==> (if rd % 2 != 0 || rd == 14 {
                        res == Err::<(), CpuError>(CpuError::PcOperandForbidden) && post == pre
                            && req1 == req0
                    } else {
                        res == Ok::<(), CpuError>(()) && post.rf@ == spec_reg_write(b, rd,
                            rsp.data) && post.instruction_step == InstructionStep::STEP3
                            && !post.data_is_fetch
                            && post.arm_instruction_queue == pre.arm_instruction_queue && req1
                            == (MemoryRequest {
                            address: wadd(pre.last_used_address, 4),
                            bus_cycle: BusCycle::INTERNAL,
                            ..req0
                        })
                    }))
                    &&& (step == InstructionStep::STEP3 ==> (if rd % 2 != 0 || rd == 14 {
                        res == Err::<(), CpuError>(CpuError::PcOperandForbidden) && post == pre
                            && req1 == req0
                    } else {
                        res == Ok::<(), CpuError>(()) && post.rf@ == spec_reg_write(b, (rd
                            + 1) as u32, rsp.data) && post.instruction_step
                            == InstructionStep::STEP0 && !post.data_is_fetch
                            && post.arm_instruction_queue == pre.arm_instruction_queue && req1
                            == req0
                    }))
                    &&& (step == InstructionStep::STEP4 ==> res == Err::<(), CpuError>(
                        CpuError::InvalidInstructionStep) && post == pre && req1 == req0)
                })
                &&& (cond && opcode == 3 && l_flag == 0 ==> {
                    &&& (step == InstructionStep::STEP0 ==> res == Ok::<(), CpuError>(()) && post.rf@ == b && post.instruction_step == InstructionStep::STEP1
                        && post.arm_instruction_queue == pre.arm_instruction_queue
                        && post.data_is_fetch == pre.data_is_fetch && req1 == (MemoryRequest {
                        bus_cycle: BusCycle::NONSEQUENTIAL,
                        ..req0
                    }))
                    &&& (step == InstructionStep::STEP1 ==> (if rd == 15 {
                        res == Err::<(), CpuError>(CpuError::PcOperandForbidden) && post == pre
                            && req1 == (MemoryRequest { address: issued, ..req0 })
                    } else {
                        res == Ok::<(), CpuError>(()) && post.rf@ == b && post.instruction_step == InstructionStep::STEP2 && !post.data_is_fetch
                            && post.arm_instruction_queue == pre.arm_instruction_queue && req1
                            == (MemoryRequest {
                            address: issued,
                            data: spec_reg_read(b, rd),
                            nr_w: BusSignal::HIGH,
                            ..req0
                        })
                    }))
                    &&& (step == InstructionStep::STEP2 ==> (if rd == 15 {
                        res == Err::<(), CpuError>(CpuError::PcOperandForbidden) && post == pre
                            && req1 == req0
                    } else {
                        res == Ok::<(), CpuError>(()) && post.rf@ == b && post.instruction_step == InstructionStep::STEP0 && !post.data_is_fetch
                            && post.arm_instruction_queue == pre.arm_instruction_queue && req1
                            == (MemoryRequest {
                            address: wadd(pre.last_used_address, 4),
                            data: spec_reg_read(b, (rd + 1) as u32),
                            nr_w: BusSignal::HIGH,
                            ..req0
                        })
                    }))
                    &&& (step == InstructionStep::STEP3 || step == InstructionStep::STEP4 ==> res
                        == Err::<(), CpuError>(CpuError::InvalidInstructionStep) && post
                        == pre && req1 == req0)
                })
    })
}

/// One-cycle effect relation of `arm_single_data_swap`: how the post-state and the
/// outgoing request relate to the pre-state, the incoming request and the
/// result. The handler's contract is exactly this relation, so a caller can
/// quote it.
pub open spec fn spec_arm_single_data_swap_effect(pre: ARM7TDMI, req0: MemoryRequest, rsp: MemoryResponse, post: ARM7TDMI,
    req1: MemoryRequest, res: Result<(), CpuError>) -> bool {
    &&& post.arm_current_execute == pre.arm_current_execute
    &&& post.last_used_address == pre.last_used_address
    &&& post.instruction_counter_step == pre.instruction_counter_step
    &&& post.list_transfer_op == pre.list_transfer_op
    &&& ({
                let w = pre.arm_current_execute;
                let b = pre.rf@;
                let cond = spec_condition_passed(b.cpsr, spec_cond(w));
                let b_flag = (w >> 22) & 1;
                let rn = (w >> 16) & 0xf;
                let rd = (w >> 12) & 0xf;
                let rm = w & 0xf;
                let off = (pre.last_used_address % 4) as u32;
                &&& (rd == 15 || rm == 15 || rn == 15 ==> res == Err::<(), CpuError>(
                    CpuError::PcOperandForbidden) && post == pre && req1
                    == req0)
                &&& (rd != 15 && rm != 15 && rn != 15 && !cond ==> res == Ok::<(), CpuError>(())
                    && post == pre && req1 == req0)
                &&& (rd != 15 && rm != 15 && rn != 15 && cond ==> {
                    &&& (pre.instruction_step == InstructionStep::STEP0 ==> res == Ok::<(),
                        CpuError>(()) && post.rf@ == b && post.instruction_step
                        == InstructionStep::STEP1 && post.arm_instruction_queue == pre.arm_instruction_queue && post.data_is_fetch == pre.data_is_fetch && req1 == (MemoryRequest {
                        bus_cycle: BusCycle::NONSEQUENTIAL,
                        ..req0
                    }))
                    &&& (pre.instruction_step == InstructionStep::STEP1 ==> res == Ok::<(),
                        CpuError>(()) && post.rf@ == b && post.instruction_step
                        == InstructionStep::STEP2 && !post.data_is_fetch && post.arm_instruction_queue == pre.arm_instruction_queue && req1
                        == (MemoryRequest {
                        address: spec_reg_read(b, rn),
                        mas: if b_flag == 0 { TransferSize::WORD } else { TransferSize::BYTE },
                        n_opc: BusSignal::HIGH,
                        lock: BusSignal::HIGH,
                        bus_cycle: BusCycle::NONSEQUENTIAL,
                        ..req0
                    }))
                    &&& (pre.instruction_step == InstructionStep::STEP2 ==> {
                        &&& res == Ok::<(), CpuError>(())
                        &&& !post.data_is_fetch
                        &&& post.arm_instruction_queue == pre.arm_instruction_queue
                        &&& post.instruction_step == InstructionStep::STEP3
                        &&& post.rf@ == spec_reg_write(b, rd, if b_flag == 0 {
                            spec_ror32(rsp.data, (8 * off) as u32)
                        } else {
                            (rsp.data >> (off * 8)) & 0xff
                        })
                        &&& req1 == (MemoryRequest {
                            address: spec_reg_read(b, rn),
                            data: if b_flag == 0 {
                                spec_reg_read(b, rm)
                            } else {
                                let byte = spec_reg_read(b, rm) & 0xff;
                                byte | (byte << 8u32) | (byte << 16u32) | (byte << 24u32)
                            },
                            mas: if b_flag == 0 { TransferSize::WORD } else { TransferSize::BYTE },
                            nr_w: BusSignal::HIGH,
                            n_opc: BusSignal::HIGH,
                            lock: BusSignal::HIGH,
                            bus_cycle: BusCycle::INTERNAL,
                            ..req0
                        })
                    })
                    &&& (pre.instruction_step == InstructionStep::STEP3 ==> res == Ok::<(),
                        CpuError>(()) && post.rf@ == b && post.instruction_step
                        == InstructionStep::STEP0 && !post.data_is_fetch && post.arm_instruction_queue == pre.arm_instruction_queue && req1
                        == req0)
                    &&& (pre.instruction_step == InstructionStep::STEP4 ==> res == Err::<(),
                        CpuError>(CpuError::InvalidInstructionStep) && post == pre
                        && req1 == req0)
                })
    })
}

/// One-cycle effect relation of `arm_block_data_transfer`: how the post-state and the
/// outgoing request relate to the pre-state, the incoming request and the
/// result. The handler's contract is exactly this relation, so a caller can
/// quote it.
pub open spec fn spec_arm_block_data_transfer_effect(pre: ARM7TDMI, req0: MemoryRequest, rsp: MemoryResponse, post: ARM7TDMI,
    req1: MemoryRequest, res: Result<(), CpuError>) -> bool {
    &&& post.arm_current_execute == pre.arm_current_execute
    &&& post.last_used_address == pre.last_used_address
    &&& ({
                let w = pre.arm_current_execute;
                let b = pre.rf@;
                let cond = spec_condition_passed(b.cpsr, spec_cond(w));
                let p_flag = (w >> 24) & 1;
                let u_flag = (w >> 23) & 1;
                let s_flag = (w >> 22) & 1;
                let w_flag = (w >> 21) & 1;
                let l_flag = (w >> 20) & 1;
                let rn = (w >> 16) & 0xf;
                let r_list = spec_bdt_list_bits(w);
                let was_empty = w & 0xffff == 0;
                let is_rn_in_list = r_list & (1u32 << rn) != 0;
                let items = spec_count_low_bits(r_list, 16);
                let plan = pre.list_transfer_op@;
                let counter = pre.instruction_counter_step;
                let step = pre.instruction_step;
                &&& (!cond ==> res == Ok::<(), CpuError>(()) && post == pre
                    && req1 == req0)
                &&& (cond && rn == 15 ==> res == Err::<(), CpuError>(CpuError::PcOperandForbidden)
                    && post == pre && req1 == req0)
                &&& (cond && rn != 15 && step == InstructionStep::STEP0 ==> {
                    &&& res == Ok::<(), CpuError>(())
                    &&& post.rf@ == b
                    &&& post.list_transfer_op@ == spec_transfer_list(r_list, spec_bdt_start(
                        b, w), 0)
                    &&& post.instruction_counter_step == 0
                    &&& post.arm_instruction_queue == pre.arm_instruction_queue
                    &&& post.data_is_fetch == pre.data_is_fetch
                    &&& post.instruction_step == InstructionStep::STEP1
                    &&& req1 == (MemoryRequest { bus_cycle: BusCycle::NONSEQUENTIAL, ..req0 })
                })
                &&& (cond && rn != 15 && l_flag == 0 && step == InstructionStep::STEP1 ==> (
                    if counter < 16 && counter < plan.len() && plan[counter as int].1 < 16 {
                    &&& res == Ok::<(), CpuError>(())
                    &&& !post.data_is_fetch
                    &&& post.arm_instruction_queue == pre.arm_instruction_queue
                    &&& post.list_transfer_op == pre.list_transfer_op
                    &&& post.instruction_counter_step == counter + 1
                    &&& post.rf@ == (if counter == 0 {
                        spec_ldm_stm_writeback(b, was_empty, w_flag, u_flag, rn, (items
                            * 4) as u32)
                    } else {
                        b
                    })
                    &&& (counter + 1 == items ==> post.instruction_step
                        == InstructionStep::STEP0)
                    &&& (counter + 1 != items ==> post.instruction_step
                        == InstructionStep::STEP1)
                    &&& req1 == (MemoryRequest {
                        address: plan[counter as int].0,
                        data: if s_flag == 1 {
                            if plan[counter as int].1 == 15 {
                                wadd(b.user[15], 12)
                            } else {
                                b.user[plan[counter as int].1 as int]
                            }
                        } else {
                            spec_reg_read_biased(b, plan[counter as int].1, 12)
                        },
                        nr_w: BusSignal::HIGH,
                        bus_cycle: if counter + 1 == items {
                            BusCycle::NONSEQUENTIAL
                        } else {
                            BusCycle::SEQUENTIAL
                        },
                        ..req0
                    })
                } else {
                    res == Err::<(), CpuError>(CpuError::InvalidInstructionStep) && post == pre
                        && req1 == req0
                }))
                &&& (cond && rn != 15 && l_flag == 1 && step == InstructionStep::STEP1 ==> (
                    if plan.len() > 0 {
                    &&& res == Ok::<(), CpuError>(())
                    &&& post.rf@ == b
                    &&& !post.data_is_fetch
                    &&& post.arm_instruction_queue == pre.arm_instruction_queue
                    &&& post.list_transfer_op == pre.list_transfer_op
                    &&& post.instruction_counter_step == wadd(counter, 1)
                    &&& post.instruction_step == InstructionStep::STEP2
                    &&& req1 == (MemoryRequest {
                        address: plan[0].0,
                        bus_cycle: if items == 1 { BusCycle::INTERNAL } else { BusCycle::SEQUENTIAL },
                        ..req0
                    })
                } else {
                    res == Err::<(), CpuError>(CpuError::InvalidInstructionStep) && post == pre
                        && req1 == req0
                }))
                &&& (cond && rn != 15 && l_flag == 1 && step == InstructionStep::STEP2
                    && (counter == 0 || counter > plan.len() || plan[counter as int - 1].1 >= 16)
                    ==> res == Err::<(), CpuError>(CpuError::InvalidInstructionStep) && post == pre && req1
                    == req0)
                &&& (cond && rn != 15 && l_flag == 1 && step == InstructionStep::STEP2 && 1
                    <= counter <= plan.len() && plan[counter as int - 1].1 < 16 ==> ({
                    let reg = plan[counter as int - 1].1;
                    let wb = if !is_rn_in_list {
                        spec_ldm_stm_writeback(b, was_empty, w_flag, u_flag, rn, 4)
                    } else {
                        b
                    };
                    let loaded = if s_flag == 0 || (r_list >> 15) & 1 == 1 {
                        spec_reg_write(wb, reg, rsp.data)
                    } else {
                        RegisterBanks { user: wb.user.update(reg as int, rsp.data), ..wb }
                    };
                    let done = items == counter;
                    &&& !post.data_is_fetch
                    &&& post.list_transfer_op == pre.list_transfer_op
                    &&& (done && (r_list >> 15) & 1 == 1 ==> (if spec_has_spsr(loaded) {
                        &&& res == Ok::<(), CpuError>(())
                        &&& post.rf@ == (if valid_mode_bits(spec_mode_bits(spec_spsr_read(
                            loaded))) {
                            RegisterBanks { cpsr: spec_spsr_read(loaded), ..loaded }
                        } else {
                            loaded
                        })
                        &&& post.instruction_step == InstructionStep::STEP3
                        &&& post.arm_instruction_queue@ == Seq::<u32>::empty()
                        &&& post.instruction_counter_step == counter
                        &&& req1 == (MemoryRequest {
                            bus_cycle: BusCycle::NONSEQUENTIAL,
                            ..req0
                        })
                    } else {
                        res == Err::<(), CpuError>(CpuError::SpsrUnavailable) && post.rf@
                            == loaded && post.arm_instruction_queue
                            == pre.arm_instruction_queue && post.instruction_counter_step
                            == counter
                    }))
                    &&& (done && (r_list >> 15) & 1 == 0 ==> res == Ok::<(), CpuError>(()) && post.rf@ == loaded && post.instruction_step
                        == InstructionStep::STEP0 && post.arm_instruction_queue == pre.arm_instruction_queue
                        && post.instruction_counter_step == counter && req1 == req0)
                    &&& (!done && counter < plan.len() ==> res == Ok::<(), CpuError>(()) && post.rf@ == loaded && post.instruction_step
                        == InstructionStep::STEP2 && post.instruction_counter_step == wadd(
                        counter, 1) && post.arm_instruction_queue == pre.arm_instruction_queue && req1
                        == (MemoryRequest {
                        address: plan[counter as int].0,
                        bus_cycle: if wadd(counter, 1) == items {
                            BusCycle::INTERNAL
                        } else {
                            req0.bus_cycle
                        },
                        ..req0
                    }))
                }))
                &&& (cond && rn != 15 && l_flag == 1 && step == InstructionStep::STEP3 ==> res
                    == Ok::<(), CpuError>(()) && post.rf@ == b && post.instruction_step == InstructionStep::STEP4 && req1
                    == (MemoryRequest { address: spec_reg_read(b, 15), ..req0 }) && post.arm_instruction_queue == pre.arm_instruction_queue && post.data_is_fetch == pre.data_is_fetch
                    && post.instruction_counter_step == counter && post.list_transfer_op
                    == pre.list_transfer_op)
                &&& (cond && rn != 15 && l_flag == 1 && step == InstructionStep::STEP4 ==> res
                    == Ok::<(), CpuError>(()) && post.rf@ == spec_reg_write(b, 15, wsub(
                    spec_reg_read(b, 15), 4)) && post.instruction_step
                    == InstructionStep::STEP0 && req1 == (MemoryRequest {
                    address: wadd(spec_reg_read(b, 15), 4),
                    ..req0
                }) && post.arm_instruction_queue == pre.arm_instruction_queue && post.data_is_fetch == pre.data_is_fetch
                    && post.instruction_counter_step == counter && post.list_transfer_op
                    == pre.list_transfer_op)
    })
}

/// One-cycle effect relation of `arm_psr_transfer_mrs`: how the post-state relates
/// to the pre-state and the result; the handler touches neither the request
/// nor the rest of the machine. The handler's contract is exactly this
/// relation, so a caller can quote it.
pub open spec fn spec_arm_psr_transfer_mrs_effect(pre: ARM7TDMI, post: ARM7TDMI,
    res: Result<(), CpuError>) -> bool {
    &&& post.arm_current_execute == pre.arm_current_execute
    &&& post.instruction_step == pre.instruction_step
    &&& post.arm_instruction_queue == pre.arm_instruction_queue
    &&& post.data_is_fetch == pre.data_is_fetch
    &&& post.last_used_address == pre.last_used_address
    &&& post.instruction_counter_step == pre.instruction_counter_step
    &&& post.list_transfer_op == pre.list_transfer_op
    &&& ({
                let w = pre.arm_current_execute;
                let b = pre.rf@;
                let cond = spec_condition_passed(b.cpsr, spec_cond(w));
                let psr_flag = (w >> 22) & 1;
                let rd = (w >> 12) & 0xf;
                &&& (!cond ==> res == Ok::<(), CpuError>(()) && post == pre)
                &&& (cond && rd == 15 ==> res == Err::<(), CpuError>(CpuError::PcOperandForbidden)
                    && post == pre)
                &&& (cond && rd != 15 && psr_flag == 1 && !spec_has_spsr(b) ==> res == Ok::<(),
                    CpuError>(()) && post == pre)
                &&& (cond && rd != 15 && (psr_flag == 0 || spec_has_spsr(b)) ==> res == Ok::<(),
                    CpuError>(()) && post.rf@ == spec_reg_write(b, rd, if psr_flag == 0 {
                    b.cpsr
                } else {
                    spec_spsr_read(b)
                }))
    })
}

/// One-cycle effect relation of `arm_psr_transfer_msr`: how the post-state relates
/// to the pre-state and the result; the handler touches neither the request
/// nor the rest of the machine. The handler's contract is exactly this
/// relation, so a caller can quote it.
pub open spec fn spec_arm_psr_transfer_msr_effect(pre: ARM7TDMI, post: ARM7TDMI,
    res: Result<(), CpuError>) -> bool {
    &&& post.arm_current_execute == pre.arm_current_execute
    &&& post.instruction_step == pre.instruction_step
    &&& post.arm_instruction_queue == pre.arm_instruction_queue
    &&& post.data_is_fetch == pre.data_is_fetch
    &&& post.last_used_address == pre.last_used_address
    &&& post.instruction_counter_step == pre.instruction_counter_step
    &&& post.list_transfer_op == pre.list_transfer_op
    &&& ({
                let w = pre.arm_current_execute;
                let b = pre.rf@;
                let cond = spec_condition_passed(b.cpsr, spec_cond(w));
                let i_flag = (w >> 25) & 1;
                let psr_flag = (w >> 22) & 1;
                let f_flag = (w >> 19) & 1;
                let c_field = (w >> 16) & 1;
                let rm = w & 0xf;
                let shift = (w >> 8) & 0xf;
                let imm = w & 0xff;
                let source = if i_flag == 0 {
                    spec_reg_read(b, rm)
                } else {
                    spec_ror32(imm, (shift * 2) as u32)
                };
                let base = if psr_flag == 1 { spec_spsr_read(b) } else { b.cpsr };
                let m1 = if c_field == 1 && spec_mode_bits(b.cpsr) != crate::arm7_tdmi::MODE_USER {
                    (base & 0xffff_ff00) | (source & 0xff)
                } else {
                    base
                };
                let m2 = if f_flag == 1 { (m1 & 0x0fff_ffff) | (source & 0xf000_0000) } else { m1 };
                &&& (!cond ==> res == Ok::<(), CpuError>(()) && post == pre)
                &&& (cond && i_flag == 0 && rm == 15 ==> res == Err::<(), CpuError>(
                    CpuError::PcOperandForbidden) && post == pre)
                &&& (cond && !(i_flag == 0 && rm == 15) && psr_flag == 1 && !spec_has_spsr(b) ==>
                    res == Ok::<(), CpuError>(()) && post == pre)
                &&& (cond && !(i_flag == 0 && rm == 15) && (psr_flag == 0 || spec_has_spsr(b))
                    ==> (if !valid_mode_bits(spec_mode_bits(m2)) {
                    res == Err::<(), CpuError>(CpuError::InvalidModeWrite) && post.rf@ == b
                } else {
                    res == Ok::<(), CpuError>(()) && post.rf@ == (if psr_flag == 1 {
                        RegisterBanks {
                            spsr: b.spsr.update(crate::arm7_tdmi::register_file::spec_spsr_index(
                                spec_mode_bits(b.cpsr)), m2),
                            ..b
                        }
                    } else {
                        RegisterBanks { cpsr: m2, ..b }
                    })
                }))
    })
}

} // verus!
