//! Handlers of the 16-bit compressed instruction set. Most classes
//! re-synthesize the equivalent 32-bit encoding with a pure translation
//! function and re-dispatch through the corresponding 32-bit handler, so both
//! encodings share exactly one timing and flag implementation; each such
//! handler's effect relation states the equivalence in full, as the 32-bit
//! handler's relation over the retargeted states. The branches and the long
//! branch-with-link have no 32-bit equivalent and are handled natively.

use vstd::prelude::*;

use crate::arm7_tdmi::arm_instructions::{spec_arm_block_data_transfer_effect,
    spec_arm_branch_and_exchange_effect, spec_arm_data_processing_effect,
    spec_arm_hw_transfer_effect, spec_arm_multiply_effect,
    spec_arm_single_data_transfer_effect, spec_arm_swi_effect, spec_bdt_start,
    spec_bdt_list_bits, spec_cond, spec_dp_step0_fault, spec_dp_step0_rf, spec_hwt_loaded,
    spec_sdt_loaded, spec_transfer_list};
use crate::arm7_tdmi::register_file::{spec_condition_passed, spec_reg_read, spec_reg_write,
    RegisterBanks};
use crate::arm7_tdmi::{CpuError, InstructionStep, ARM7TDMI};
use crate::bus::{BusCycle, MemoryRequest, MemoryResponse};
use crate::common::{spec_bit32, wadd, wsub};

verus! {

broadcast use crate::common::lemma_and_mask_bound_u32;


/// `shadow` is `state` with only the in-execution instruction word replaced by
/// `w`: the state in which a re-dispatched compressed instruction runs its
/// re-synthesized 32-bit equivalent.
pub open spec fn spec_retargeted(state: ARM7TDMI, w: u32, shadow: ARM7TDMI) -> bool {
    &&& shadow.rf == state.rf
    &&& shadow.arm_current_execute == w
    &&& shadow.arm_instruction_queue == state.arm_instruction_queue
    &&& shadow.instruction_step == state.instruction_step
    &&& shadow.data_is_fetch == state.data_is_fetch
    &&& shadow.last_used_address == state.last_used_address
    &&& shadow.instruction_counter_step == state.instruction_counter_step
    &&& shadow.list_transfer_op == state.list_transfer_op
}

/// The 32-bit equivalent of a compressed move-shifted-register instruction:
/// a flag-setting MOV with an immediate shift.
pub open spec fn spec_thumb_move_shifted_to_arm(w: u32) -> u32 {
    let opcode = (w >> 11) & 3;
    let offset = (w >> 6) & 0x1f;
    let rs = (w >> 3) & 7;
    let rd = w & 7;
    0xe1b0_0000u32 | (rd << 12u32) | (offset << 7u32) | (opcode << 5u32) | rs
}

/// Translate a compressed move-shifted-register instruction.
pub fn thumb_move_shifted_to_arm(w: u32) -> (r: u32)
    ensures
        r == spec_thumb_move_shifted_to_arm(w),
{
    let opcode = (w >> 11) & 3;
    let offset = (w >> 6) & 0x1f;
    let rs = (w >> 3) & 7;
    let rd = w & 7;
    0xe1b0_0000 | (rd << 12) | (offset << 7) | (opcode << 5) | rs
}

/// The 32-bit equivalent of a compressed add/subtract instruction: a
/// flag-setting ADD or SUB of a register or 3-bit immediate.
pub open spec fn spec_thumb_add_subtract_to_arm(w: u32) -> u32 {
    let opcode = (w >> 9) & 3;
    let rn = (w >> 6) & 7;
    let rs = (w >> 3) & 7;
    let rd = w & 7;
    let base = 0xe010_0000u32;
    let with_op = if opcode & 1 == 0 { base | (4u32 << 21u32) } else { base | (2u32 << 21u32) };
    let with_imm = if opcode >= 2 { with_op | 0x0200_0000u32 } else { with_op };
    with_imm | (rs << 16u32) | (rd << 12u32) | rn
}

/// Translate a compressed add/subtract instruction.
pub fn thumb_add_subtract_to_arm(w: u32) -> (r: u32)
    ensures
        r == spec_thumb_add_subtract_to_arm(w),
{
    let opcode = (w >> 9) & 3;
    let rn = (w >> 6) & 7;
    let rs = (w >> 3) & 7;
    let rd = w & 7;
    let base: u32 = 0xe010_0000;
    let with_op = if opcode & 1 == 0 { base | (4 << 21) } else { base | (2 << 21) };
    let with_imm = if opcode >= 2 { with_op | 0x0200_0000 } else { with_op };
    with_imm | (rs << 16) | (rd << 12) | rn
}

/// The 32-bit equivalent of a compressed immediate-operand ALU instruction:
/// flag-setting MOV, CMP, ADD or SUB with an 8-bit immediate.
pub open spec fn spec_thumb_alu_immediate_to_arm(w: u32) -> u32 {
    let opcode = (w >> 11) & 3;
    let rd = (w >> 8) & 7;
    let nn = w & 0xff;
    let op = if opcode == 0 {
        13u32
    } else if opcode == 1 {
        10u32
    } else if opcode == 2 {
        4u32
    } else {
        2u32
    };
    0xe210_0000u32 | (rd << 12u32) | (rd << 16u32) | nn | (op << 21u32)
}

/// Translate a compressed immediate-operand ALU instruction.
pub fn thumb_alu_immediate_to_arm(w: u32) -> (r: u32)
    ensures
        r == spec_thumb_alu_immediate_to_arm(w),
{
    let opcode = (w >> 11) & 3;
    let rd = (w >> 8) & 7;
    let nn = w & 0xff;
    let op: u32 = if opcode == 0 {
        13
    } else if opcode == 1 {
        10
    } else if opcode == 2 {
        4
    } else {
        2
    };
    0xe210_0000 | (rd << 12) | (rd << 16) | nn | (op << 21)
}

/// The 32-bit equivalent of a compressed register-operand ALU instruction: a
/// flag-setting data-processing instruction, a register-shifted MOV for the
/// shift opcodes, a reverse subtraction from zero for NEG, or a multiply.
pub open spec fn spec_thumb_alu_to_arm(w: u32) -> u32 {
    let opcode = (w >> 6) & 0xf;
    let rs = (w >> 3) & 7;
    let rd = w & 7;
    if opcode == 0xd {
        0xe010_0090u32 | (rd << 16u32) | (rd << 8u32) | rs
    } else if (2 <= opcode && opcode <= 4) || opcode == 7 {
        let shift_code = if opcode == 7 { 3u32 } else { (opcode - 2) as u32 };
        0xe010_0000u32 | (13u32 << 21u32) | (rs << 8u32) | (shift_code << 5u32) | 0x10u32 | (rd
            << 12u32) | rd
    } else if opcode == 9 {
        0xe010_0000u32 | (3u32 << 21u32) | (rd << 12u32) | (rs << 16u32) | 0x0200_0000u32
    } else {
        0xe010_0000u32 | (opcode << 21u32) | (rd << 12u32) | rs | (rd << 16u32)
    }
}

/// Translate a compressed register-operand ALU instruction.
pub fn thumb_alu_to_arm(w: u32) -> (r: u32)
    ensures
        r == spec_thumb_alu_to_arm(w),
{
    let opcode = (w >> 6) & 0xf;
    let rs = (w >> 3) & 7;
    let rd = w & 7;
    if opcode == 0xd {
        0xe010_0090 | (rd << 16) | (rd << 8) | rs
    } else if (2 <= opcode && opcode <= 4) || opcode == 7 {
        let shift_code: u32 = if opcode == 7 { 3 } else { opcode - 2 };
        0xe010_0000 | (13 << 21) | (rs << 8) | (shift_code << 5) | 0x10 | (rd << 12) | rd
    } else if opcode == 9 {
        0xe010_0000 | (3 << 21) | (rd << 12) | (rs << 16) | 0x0200_0000
    } else {
        0xe010_0000 | (opcode << 21) | (rd << 12) | rs | (rd << 16)
    }
}

/// The full register numbers of a compressed high-register operation.
pub open spec fn spec_thumb_hi_regs(w: u32) -> (u32, u32) {
    let msbd = (w >> 7) & 1;
    let msbs = (w >> 6) & 1;
    let rs = (w >> 3) & 7;
    let rd = w & 7;
    (if msbd == 1 { rd | 8u32 } else { rd }, if msbs == 1 { rs | 8u32 } else { rs })
}

/// The 32-bit equivalent of a compressed high-register ADD/CMP/MOV.
pub open spec fn spec_thumb_hi_alu_to_arm(w: u32) -> u32 {
    let opcode = (w >> 8) & 3;
    let regs = spec_thumb_hi_regs(w);
    let op = if opcode == 0 {
        4u32
    } else if opcode == 1 {
        10u32
    } else {
        13u32
    };
    0xe000_0000u32 | (op << 21u32) | (regs.0 << 12u32) | (regs.0 << 16u32) | regs.1
}

/// The 32-bit equivalent of a compressed BX through a high register.
pub open spec fn spec_thumb_hi_bx_to_arm(w: u32) -> u32 {
    0xe12f_ff10u32 | spec_thumb_hi_regs(w).1
}

/// Translate a compressed high-register ADD/CMP/MOV.
pub fn thumb_hi_alu_to_arm(w: u32) -> (r: u32)
    ensures
        r == spec_thumb_hi_alu_to_arm(w),
{
    let opcode = (w >> 8) & 3;
    let msbd = (w >> 7) & 1;
    let msbs = (w >> 6) & 1;
    let rs = (w >> 3) & 7;
    let rd = w & 7;
    let full_rd = if msbd == 1 { rd | 0x8 } else { rd };
    let full_rs = if msbs == 1 { rs | 0x8 } else { rs };
    let op: u32 = if opcode == 0 {
        4
    } else if opcode == 1 {
        10
    } else {
        13
    };
    0xe000_0000 | (op << 21) | (full_rd << 12) | (full_rd << 16) | full_rs
}

/// Translate a compressed BX through a high register.
pub fn thumb_hi_bx_to_arm(w: u32) -> (r: u32)
    ensures
        r == spec_thumb_hi_bx_to_arm(w),
{
    let msbs = (w >> 6) & 1;
    let rs = (w >> 3) & 7;
    let full_rs = if msbs == 1 { rs | 0x8 } else { rs };
    0xe12f_ff10 | full_rs
}

/// The 32-bit equivalent of a compressed PC-relative load.
pub open spec fn spec_thumb_pc_relative_load_to_arm(w: u32) -> u32 {
    let rd = (w >> 8) & 7;
    let nn = (w & 0xff) << 2u32;
    0xe590_0000u32 | (15u32 << 16u32) | (rd << 12u32) | nn
}

/// Translate a compressed PC-relative load.
pub fn thumb_pc_relative_load_to_arm(w: u32) -> (r: u32)
    ensures
        r == spec_thumb_pc_relative_load_to_arm(w),
{
    let rd = (w >> 8) & 7;
    let nn = (w & 0xff) << 2;
    0xe590_0000 | (15 << 16) | (rd << 12) | nn
}

/// The 32-bit equivalent of a compressed register-offset load/store.
pub open spec fn spec_thumb_load_store_reg_to_arm(w: u32) -> u32 {
    let opcode = (w >> 10) & 3;
    let ro = (w >> 6) & 7;
    let rb = (w >> 3) & 7;
    let rd = w & 7;
    let base = 0xe780_0000u32;
    let with_byte = if opcode & 1 == 1 { base | 0x0040_0000u32 } else { base };
    let with_load = if opcode > 1 { with_byte | 0x0010_0000u32 } else { with_byte };
    with_load | (rb << 16u32) | (rd << 12u32) | ro
}

/// Translate a compressed register-offset load/store.
pub fn thumb_load_store_reg_to_arm(w: u32) -> (r: u32)
    ensures
        r == spec_thumb_load_store_reg_to_arm(w),
{
    let opcode = (w >> 10) & 3;
    let ro = (w >> 6) & 7;
    let rb = (w >> 3) & 7;
    let rd = w & 7;
    let base: u32 = 0xe780_0000;
    let with_byte = if opcode & 1 == 1 { base | 0x0040_0000 } else { base };
    let with_load = if opcode > 1 { with_byte | 0x0010_0000 } else { with_byte };
    with_load | (rb << 16) | (rd << 12) | ro
}

/// The 32-bit equivalent of a compressed sign-extending load/store: a
/// half-word class transfer with a register offset.
pub open spec fn spec_thumb_load_store_sign_ext_to_arm(w: u32) -> u32 {
    let opcode = (w >> 10) & 3;
    let ro = (w >> 6) & 7;
    let rb = (w >> 3) & 7;
    let rd = w & 7;
    let base = 0xe180_0080u32;
    let with_load = if opcode != 0 { base | 0x0010_0000u32 } else { base };
    let sub = if opcode == 1 {
        2u32
    } else if opcode == 3 {
        3u32
    } else {
        1u32
    };
    with_load | (rb << 16u32) | (rd << 12u32) | ro | (sub << 5u32)
}

/// Translate a compressed sign-extending load/store.
pub fn thumb_load_store_sign_ext_to_arm(w: u32) -> (r: u32)
    ensures
        r == spec_thumb_load_store_sign_ext_to_arm(w),
{
    let opcode = (w >> 10) & 3;
    let ro = (w >> 6) & 7;
    let rb = (w >> 3) & 7;
    let rd = w & 7;
    let base: u32 = 0xe180_0080;
    let with_load = if opcode != 0 { base | 0x0010_0000 } else { base };
    let sub: u32 = if opcode == 1 {
        2
    } else if opcode == 3 {
        3
    } else {
        1
    };
    with_load | (rb << 16) | (rd << 12) | ro | (sub << 5)
}

/// The 32-bit equivalent of a compressed immediate-offset load/store; word
/// transfers scale the 5-bit offset by four.
pub open spec fn spec_thumb_load_store_imm_to_arm(w: u32) -> u32 {
    let opcode = (w >> 11) & 3;
    let rb = (w >> 3) & 7;
    let rd = w & 7;
    let base = 0xe580_0000u32;
    let with_byte = if opcode > 1 { base | 0x0040_0000u32 } else { base };
    let offset = if opcode > 1 { (w >> 6) & 0x1f } else { (((w >> 6) & 0x1f) * 4) as u32 };
    let with_load = if opcode & 1 == 1 { with_byte | 0x0010_0000u32 } else { with_byte };
    with_load | (rb << 16u32) | (rd << 12u32) | offset
}

/// Translate a compressed immediate-offset load/store.
pub fn thumb_load_store_imm_to_arm(w: u32) -> (r: u32)
    ensures
        r == spec_thumb_load_store_imm_to_arm(w),
{
    let opcode = (w >> 11) & 3;
    let rb = (w >> 3) & 7;
    let rd = w & 7;
    let base: u32 = 0xe580_0000;
    let with_byte = if opcode > 1 { base | 0x0040_0000 } else { base };
    let offset = if opcode > 1 { (w >> 6) & 0x1f } else { ((w >> 6) & 0x1f) * 4 };
    let with_load = if opcode & 1 == 1 { with_byte | 0x0010_0000 } else { with_byte };
    with_load | (rb << 16) | (rd << 12) | offset
}

/// The 32-bit equivalent of a compressed halfword load/store.
pub open spec fn spec_thumb_load_store_halfword_to_arm(w: u32) -> u32 {
    let opcode = (w >> 11) & 1;
    let nn = ((w >> 6) & 0x1f) << 1u32;
    let rb = (w >> 3) & 7;
    let rd = w & 7;
    0xe1c0_00a0u32 | (opcode << 20u32) | (rb << 16u32) | (rd << 12u32) | nn
}

/// Translate a compressed halfword load/store.
pub fn thumb_load_store_halfword_to_arm(w: u32) -> (r: u32)
    ensures
        r == spec_thumb_load_store_halfword_to_arm(w),
{
    let opcode = (w >> 11) & 1;
    let nn = ((w >> 6) & 0x1f) << 1;
    let rb = (w >> 3) & 7;
    let rd = w & 7;
    0xe1c0_00a0 | (opcode << 20) | (rb << 16) | (rd << 12) | nn
}

/// The 32-bit equivalent of a compressed stack-pointer-relative load/store.
pub open spec fn spec_thumb_sp_relative_to_arm(w: u32) -> u32 {
    let opcode = (w >> 11) & 1;
    let rd = (w >> 8) & 7;
    let nn = (w & 0xff) << 2u32;
    0xe580_0000u32 | (opcode << 20u32) | (13u32 << 16u32) | (rd << 12u32) | nn
}

/// Translate a compressed stack-pointer-relative load/store.
pub fn thumb_sp_relative_to_arm(w: u32) -> (r: u32)
    ensures
        r == spec_thumb_sp_relative_to_arm(w),
{
    let opcode = (w >> 11) & 1;
    let rd = (w >> 8) & 7;
    let nn = (w & 0xff) << 2;
    0xe580_0000 | (opcode << 20) | (13 << 16) | (rd << 12) | nn
}

/// The 32-bit equivalent of a compressed load-address instruction: an ADD of
/// an immediate to either the program counter or the stack pointer.
pub open spec fn spec_thumb_load_address_to_arm(w: u32) -> u32 {
    let opcode = (w >> 11) & 1;
    let rd = (w >> 8) & 7;
    let nn = w & 0xff;
    let source = if opcode == 0 { 15u32 } else { 13u32 };
    0xe200_0f00u32 | (rd << 12u32) | (source << 16u32) | nn | (4u32 << 21u32)
}

/// Translate a compressed load-address instruction.
pub fn thumb_load_address_to_arm(w: u32) -> (r: u32)
    ensures
        r == spec_thumb_load_address_to_arm(w),
{
    let opcode = (w >> 11) & 1;
    let rd = (w >> 8) & 7;
    let nn = w & 0xff;
    let source: u32 = if opcode == 0 { 15 } else { 13 };
    0xe200_0f00 | (rd << 12) | (source << 16) | nn | (4 << 21)
}

/// The 32-bit equivalent of a compressed add-offset-to-stack-pointer.
pub open spec fn spec_thumb_add_offset_sp_to_arm(w: u32) -> u32 {
    let opcode = (w >> 7) & 1;
    let nn = w & 0x7f;
    let op = if opcode == 0 { 4u32 } else { 2u32 };
    0xe200_0f00u32 | (13u32 << 12u32) | (13u32 << 16u32) | nn | (op << 21u32)
}

/// Translate a compressed add-offset-to-stack-pointer.
pub fn thumb_add_offset_sp_to_arm(w: u32) -> (r: u32)
    ensures
        r == spec_thumb_add_offset_sp_to_arm(w),
{
    let opcode = (w >> 7) & 1;
    let nn = w & 0x7f;
    let op: u32 = if opcode == 0 { 4 } else { 2 };
    0xe200_0f00 | (13 << 12) | (13 << 16) | nn | (op << 21)
}

/// The 32-bit equivalent of a compressed push/pop: a block data transfer on
/// the stack pointer with write-back, with the link register joining a push
/// and the program counter joining a pop.
pub open spec fn spec_thumb_push_pop_to_arm(w: u32) -> u32 {
    let opcode = (w >> 11) & 1;
    let pc_bit = (w >> 8) & 1;
    let r_list = w & 0xff;
    let base = 0xe820_0000u32;
    let with_dir = if opcode == 0 {
        let pushed = base | 0x0100_0000u32;
        if pc_bit == 1 {
            pushed | 0x4000u32
        } else {
            pushed
        }
    } else {
        let popped = base | 0x0080_0000u32;
        if pc_bit == 1 {
            popped | 0x8000u32
        } else {
            popped
        }
    };
    with_dir | (opcode << 20u32) | (13u32 << 16u32) | r_list
}

/// Translate a compressed push/pop.
pub fn thumb_push_pop_to_arm(w: u32) -> (r: u32)
    ensures
        r == spec_thumb_push_pop_to_arm(w),
{
    let opcode = (w >> 11) & 1;
    let pc_bit = (w >> 8) & 1;
    let r_list = w & 0xff;
    let base: u32 = 0xe820_0000;
    let with_dir = if opcode == 0 {
        let pushed = base | 0x0100_0000;
        if pc_bit == 1 {
            pushed | 0x4000
        } else {
            pushed
        }
    } else {
        let popped = base | 0x0080_0000;
        if pc_bit == 1 {
            popped | 0x8000
        } else {
            popped
        }
    };
    with_dir | (opcode << 20) | (13 << 16) | r_list
}

/// The 32-bit equivalent of a compressed multiple load/store: an
/// incrementing block data transfer with write-back.
pub open spec fn spec_thumb_multiple_load_store_to_arm(w: u32) -> u32 {
    let opcode = (w >> 11) & 1;
    let rb = (w >> 8) & 7;
    let r_list = w & 0xff;
    0xe8a0_0000u32 | (opcode << 20u32) | (rb << 16u32) | r_list
}

/// Translate a compressed multiple load/store.
pub fn thumb_multiple_load_store_to_arm(w: u32) -> (r: u32)
    ensures
        r == spec_thumb_multiple_load_store_to_arm(w),
{
    let opcode = (w >> 11) & 1;
    let rb = (w >> 8) & 7;
    let r_list = w & 0xff;
    0xe8a0_0000 | (opcode << 20) | (rb << 16) | r_list
}

/// The branch offset of a compressed branch: the sign-extended 8-bit (for a
/// conditional branch) or 11-bit (for an unconditional one) immediate, in
/// halfword units.
pub open spec fn spec_thumb_branch_offset(w: u32, cond_branch: bool) -> u32 {
    if cond_branch {
        let nn = w & 0xff;
        let ext = if spec_bit32(nn, 7) { nn | 0xffff_ff00u32 } else { nn };
        ext << 1u32
    } else {
        let nn = w & 0x7ff;
        let ext = if spec_bit32(nn, 10) { nn | 0xffff_f800u32 } else { nn };
        ext << 1u32
    }
}

impl ARM7TDMI {
    /// Compressed move-shifted-register: a flag-setting MOV with an immediate
    /// shift, re-dispatched through the data-processing handler.
    pub fn thumb_move_shifter_register(&mut self, req: &mut MemoryRequest) -> (res: Result<(),
        CpuError>)
        requires
            old(self).wf(),
        ensures
            final(self).wf(),
            spec_thumb_move_shifter_register_effect(*old(self), *old(req), *final(self), *final(req), res),
    {
        let current_instruction = self.arm_current_execute;
        self.arm_current_execute = thumb_move_shifted_to_arm(current_instruction);
        let ghost retargeted_pre = *self;
        let res = self.arm_data_processing(req);
        let ghost retargeted_post = *self;
        self.arm_current_execute = current_instruction;
        proof {
            assert(spec_retargeted(*old(self), spec_thumb_move_shifted_to_arm(old(self).arm_current_execute),
                retargeted_pre));
            assert(spec_retargeted(*self, spec_thumb_move_shifted_to_arm(old(self).arm_current_execute),
                retargeted_post));
            assert(spec_arm_data_processing_effect(retargeted_pre, *old(req), retargeted_post, *req, res));
        }
        res
    }

    /// Compressed add/subtract, re-dispatched through the data-processing
    /// handler.
    pub fn thumb_add_subtract(&mut self, req: &mut MemoryRequest) -> (res: Result<(), CpuError>)
        requires
            old(self).wf(),
        ensures
            final(self).wf(),
            spec_thumb_add_subtract_effect(*old(self), *old(req), *final(self), *final(req), res),
    {
        let current_instruction = self.arm_current_execute;
        self.arm_current_execute = thumb_add_subtract_to_arm(current_instruction);
        let ghost retargeted_pre = *self;
        let res = self.arm_data_processing(req);
        let ghost retargeted_post = *self;
        self.arm_current_execute = current_instruction;
        proof {
            assert(spec_retargeted(*old(self), spec_thumb_add_subtract_to_arm(old(self).arm_current_execute),
                retargeted_pre));
            assert(spec_retargeted(*self, spec_thumb_add_subtract_to_arm(old(self).arm_current_execute),
                retargeted_post));
            assert(spec_arm_data_processing_effect(retargeted_pre, *old(req), retargeted_post, *req, res));
        }
        res
    }

    /// Compressed MOV/CMP/ADD/SUB with an 8-bit immediate, re-dispatched
    /// through the data-processing handler.
    pub fn thumb_alu_immediate(&mut self, req: &mut MemoryRequest) -> (res: Result<(), CpuError>)
        requires
            old(self).wf(),
        ensures
            final(self).wf(),
            spec_thumb_alu_immediate_effect(*old(self), *old(req), *final(self), *final(req), res),
    {
        let current_instruction = self.arm_current_execute;
        self.arm_current_execute = thumb_alu_immediate_to_arm(current_instruction);
        let ghost retargeted_pre = *self;
        let res = self.arm_data_processing(req);
        let ghost retargeted_post = *self;
        self.arm_current_execute = current_instruction;
        proof {
            assert(spec_retargeted(*old(self), spec_thumb_alu_immediate_to_arm(old(self).arm_current_execute),
                retargeted_pre));
            assert(spec_retargeted(*self, spec_thumb_alu_immediate_to_arm(old(self).arm_current_execute),
                retargeted_post));
            assert(spec_arm_data_processing_effect(retargeted_pre, *old(req), retargeted_post, *req, res));
        }
        res
    }

    /// Compressed register-operand ALU operations, re-dispatched through the
    /// data-processing handler, or the multiply handler for the MUL opcode.
    pub fn thumb_alu(&mut self, req: &mut MemoryRequest) -> (res: Result<(), CpuError>)
        requires
            old(self).wf(),
        ensures
            final(self).wf(),
            spec_thumb_alu_effect(*old(self), *old(req), *final(self), *final(req), res),
    {
        let current_instruction = self.arm_current_execute;
        let opcode = (current_instruction >> 6) & 0xf;
        self.arm_current_execute = thumb_alu_to_arm(current_instruction);
        let ghost retargeted_pre = *self;
        let res = if opcode == 0xd {
            self.arm_multiply(req)
        } else {
            self.arm_data_processing(req)
        };
        let ghost retargeted_post = *self;
        self.arm_current_execute = current_instruction;
        proof {
            assert(spec_retargeted(*old(self), spec_thumb_alu_to_arm(
                old(self).arm_current_execute), retargeted_pre));
            assert(spec_retargeted(*self, spec_thumb_alu_to_arm(old(self).arm_current_execute),
                retargeted_post));
            if opcode == 0xd {
                assert(spec_arm_multiply_effect(retargeted_pre, *old(req), retargeted_post, *req,
                    res));
            } else {
                assert(spec_arm_data_processing_effect(retargeted_pre, *old(req), retargeted_post,
                    *req, res));
            }
        }
        res
    }

    /// Compressed high-register operations: ADD/CMP/MOV over the full register
    /// file, or BX, re-dispatched through the matching 32-bit handler.
    pub fn thumb_hi_register_bx(&mut self, req: &mut MemoryRequest, rsp: &MemoryResponse)
        -> (res: Result<(), CpuError>)
        requires
            old(self).wf(),
        ensures
            final(self).wf(),
            spec_thumb_hi_register_bx_effect(*old(self), *old(req), *rsp, *final(self), *final(req), res),
    {
        let current_instruction = self.arm_current_execute;
        let opcode = (current_instruction >> 8) & 3;

        if opcode <= 2 {
            self.arm_current_execute = thumb_hi_alu_to_arm(current_instruction);
            let ghost retargeted_pre = *self;
            let res = self.arm_data_processing(req);
            let ghost retargeted_post = *self;
            self.arm_current_execute = current_instruction;
            proof {
                assert(spec_retargeted(*old(self), spec_thumb_hi_alu_to_arm(
                    old(self).arm_current_execute), retargeted_pre));
                assert(spec_retargeted(*self, spec_thumb_hi_alu_to_arm(
                    old(self).arm_current_execute), retargeted_post));
                assert(spec_arm_data_processing_effect(retargeted_pre, *old(req), retargeted_post,
                    *req, res));
            }
            res
        } else {
            self.arm_current_execute = thumb_hi_bx_to_arm(current_instruction);
            let ghost retargeted_pre = *self;
            let res = self.arm_branch_and_exchange(req, rsp);
            let ghost retargeted_post = *self;
            self.arm_current_execute = current_instruction;
            proof {
                assert(spec_retargeted(*old(self), spec_thumb_hi_bx_to_arm(
                    old(self).arm_current_execute), retargeted_pre));
                assert(spec_retargeted(*self, spec_thumb_hi_bx_to_arm(
                    old(self).arm_current_execute), retargeted_post));
                assert(spec_arm_branch_and_exchange_effect(retargeted_pre, *old(req), *rsp,
                    retargeted_post, *req, res));
            }
            res
        }
    }

    /// Compressed PC-relative load, re-dispatched through the single data
    /// transfer handler.
    pub fn thumb_pc_relative_load(&mut self, req: &mut MemoryRequest, rsp: &MemoryResponse)
        -> (res: Result<(), CpuError>)
        requires
            old(self).wf(),
        ensures
            final(self).wf(),
            spec_thumb_pc_relative_load_effect(*old(self), *old(req), *rsp, *final(self), *final(req), res),
    {
        let current_instruction = self.arm_current_execute;
        self.arm_current_execute = thumb_pc_relative_load_to_arm(current_instruction);
        let ghost retargeted_pre = *self;
        let res = self.arm_single_data_transfer(req, rsp);
        let ghost retargeted_post = *self;
        self.arm_current_execute = current_instruction;
        proof {
            assert(spec_retargeted(*old(self), spec_thumb_pc_relative_load_to_arm(old(self).arm_current_execute),
                retargeted_pre));
            assert(spec_retargeted(*self, spec_thumb_pc_relative_load_to_arm(old(self).arm_current_execute),
                retargeted_post));
            assert(spec_arm_single_data_transfer_effect(retargeted_pre, *old(req), *rsp, retargeted_post, *req, res));
        }
        res
    }

    /// Compressed register-offset load/store, re-dispatched through the
    /// single data transfer handler.
    pub fn thumb_load_store_reg_offset(&mut self, req: &mut MemoryRequest, rsp: &MemoryResponse)
        -> (res: Result<(), CpuError>)
        requires
            old(self).wf(),
        ensures
            final(self).wf(),
            spec_thumb_load_store_reg_offset_effect(*old(self), *old(req), *rsp, *final(self), *final(req), res),
    {
        let current_instruction = self.arm_current_execute;
        self.arm_current_execute = thumb_load_store_reg_to_arm(current_instruction);
        let ghost retargeted_pre = *self;
        let res = self.arm_single_data_transfer(req, rsp);
        let ghost retargeted_post = *self;
        self.arm_current_execute = current_instruction;
        proof {
            assert(spec_retargeted(*old(self), spec_thumb_load_store_reg_to_arm(old(self).arm_current_execute),
                retargeted_pre));
            assert(spec_retargeted(*self, spec_thumb_load_store_reg_to_arm(old(self).arm_current_execute),
                retargeted_post));
            assert(spec_arm_single_data_transfer_effect(retargeted_pre, *old(req), *rsp, retargeted_post, *req, res));
        }
        res
    }

    /// Compressed sign-extending load/store, re-dispatched through the
    /// half-word transfer handler.
    pub fn thumb_load_store_sign_ext(&mut self, req: &mut MemoryRequest, rsp: &MemoryResponse)
        -> (res: Result<(), CpuError>)
        requires
            old(self).wf(),
        ensures
            final(self).wf(),
            spec_thumb_load_store_sign_ext_effect(*old(self), *old(req), *rsp, *final(self), *final(req), res),
    {
        let current_instruction = self.arm_current_execute;
        self.arm_current_execute = thumb_load_store_sign_ext_to_arm(current_instruction);
        let ghost retargeted_pre = *self;
        let res = self.arm_hw_transfer(req, rsp);
        let ghost retargeted_post = *self;
        self.arm_current_execute = current_instruction;
        proof {
            assert(spec_retargeted(*old(self), spec_thumb_load_store_sign_ext_to_arm(old(self).arm_current_execute),
                retargeted_pre));
            assert(spec_retargeted(*self, spec_thumb_load_store_sign_ext_to_arm(old(self).arm_current_execute),
                retargeted_post));
            assert(spec_arm_hw_transfer_effect(retargeted_pre, *old(req), *rsp, retargeted_post, *req, res));
        }
        res
    }

    /// Compressed immediate-offset load/store, re-dispatched through the
    /// single data transfer handler.
    pub fn thumb_load_store_imm_offset(&mut self, req: &mut MemoryRequest, rsp: &MemoryResponse)
        -> (res: Result<(), CpuError>)
        requires
            old(self).wf(),
        ensures
            final(self).wf(),
            spec_thumb_load_store_imm_offset_effect(*old(self), *old(req), *rsp, *final(self), *final(req), res),
    {
        let current_instruction = self.arm_current_execute;
        self.arm_current_execute = thumb_load_store_imm_to_arm(current_instruction);
        let ghost retargeted_pre = *self;
        let res = self.arm_single_data_transfer(req, rsp);
        let ghost retargeted_post = *self;
        self.arm_current_execute = current_instruction;
        proof {
            assert(spec_retargeted(*old(self), spec_thumb_load_store_imm_to_arm(old(self).arm_current_execute),
                retargeted_pre));
            assert(spec_retargeted(*self, spec_thumb_load_store_imm_to_arm(old(self).arm_current_execute),
                retargeted_post));
            assert(spec_arm_single_data_transfer_effect(retargeted_pre, *old(req), *rsp, retargeted_post, *req, res));
        }
        res
    }

    /// Compressed halfword load/store, re-dispatched through the half-word
    /// transfer handler.
    pub fn thumb_load_store_halfword(&mut self, req: &mut MemoryRequest, rsp: &MemoryResponse)
        -> (res: Result<(), CpuError>)
        requires
            old(self).wf(),
        ensures
            final(self).wf(),
            spec_thumb_load_store_halfword_effect(*old(self), *old(req), *rsp, *final(self), *final(req), res),
    {
        let current_instruction = self.arm_current_execute;
        self.arm_current_execute = thumb_load_store_halfword_to_arm(current_instruction);
        let ghost retargeted_pre = *self;
        let res = self.arm_hw_transfer(req, rsp);
        let ghost retargeted_post = *self;
        self.arm_current_execute = current_instruction;
        proof {
            assert(spec_retargeted(*old(self), spec_thumb_load_store_halfword_to_arm(old(self).arm_current_execute),
                retargeted_pre));
            assert(spec_retargeted(*self, spec_thumb_load_store_halfword_to_arm(old(self).arm_current_execute),
                retargeted_post));
            assert(spec_arm_hw_transfer_effect(retargeted_pre, *old(req), *rsp, retargeted_post, *req, res));
        }
        res
    }

    /// Compressed stack-pointer-relative load/store, re-dispatched through
    /// the single data transfer handler.
    pub fn thumb_sp_relative_load_store(&mut self, req: &mut MemoryRequest, rsp: &MemoryResponse)
        -> (res: Result<(), CpuError>)
        requires
            old(self).wf(),
        ensures
            final(self).wf(),
            spec_thumb_sp_relative_load_store_effect(*old(self), *old(req), *rsp, *final(self), *final(req), res),
    {
        let current_instruction = self.arm_current_execute;
        self.arm_current_execute = thumb_sp_relative_to_arm(current_instruction);
        let ghost retargeted_pre = *self;
        let res = self.arm_single_data_transfer(req, rsp);
        let ghost retargeted_post = *self;
        self.arm_current_execute = current_instruction;
        proof {
            assert(spec_retargeted(*old(self), spec_thumb_sp_relative_to_arm(old(self).arm_current_execute),
                retargeted_pre));
            assert(spec_retargeted(*self, spec_thumb_sp_relative_to_arm(old(self).arm_current_execute),
                retargeted_post));
            assert(spec_arm_single_data_transfer_effect(retargeted_pre, *old(req), *rsp, retargeted_post, *req, res));
        }
        res
    }

    /// Compressed load-address, re-dispatched through the data-processing
    /// handler as an ADD on the program counter or stack pointer.
    pub fn thumb_load_address(&mut self, req: &mut MemoryRequest) -> (res: Result<(), CpuError>)
        requires
            old(self).wf(),
        ensures
            final(self).wf(),
            spec_thumb_load_address_effect(*old(self), *old(req), *final(self), *final(req), res),
    {
        let current_instruction = self.arm_current_execute;
        self.arm_current_execute = thumb_load_address_to_arm(current_instruction);
        let ghost retargeted_pre = *self;
        let res = self.arm_data_processing(req);
        let ghost retargeted_post = *self;
        self.arm_current_execute = current_instruction;
        proof {
            assert(spec_retargeted(*old(self), spec_thumb_load_address_to_arm(old(self).arm_current_execute),
                retargeted_pre));
            assert(spec_retargeted(*self, spec_thumb_load_address_to_arm(old(self).arm_current_execute),
                retargeted_post));
            assert(spec_arm_data_processing_effect(retargeted_pre, *old(req), retargeted_post, *req, res));
        }
        res
    }

    /// Compressed add-offset-to-stack-pointer, re-dispatched through the
    /// data-processing handler.
    pub fn thumb_add_offset_to_sp(&mut self, req: &mut MemoryRequest) -> (res: Result<(),
        CpuError>)
        requires
            old(self).wf(),
        ensures
            final(self).wf(),
            spec_thumb_add_offset_to_sp_effect(*old(self), *old(req), *final(self), *final(req), res),
    {
        let current_instruction = self.arm_current_execute;
        self.arm_current_execute = thumb_add_offset_sp_to_arm(current_instruction);
        let ghost retargeted_pre = *self;
        let res = self.arm_data_processing(req);
        let ghost retargeted_post = *self;
        self.arm_current_execute = current_instruction;
        proof {
            assert(spec_retargeted(*old(self), spec_thumb_add_offset_sp_to_arm(old(self).arm_current_execute),
                retargeted_pre));
            assert(spec_retargeted(*self, spec_thumb_add_offset_sp_to_arm(old(self).arm_current_execute),
                retargeted_post));
            assert(spec_arm_data_processing_effect(retargeted_pre, *old(req), retargeted_post, *req, res));
        }
        res
    }

    /// Compressed push/pop, re-dispatched through the block data transfer
    /// handler on the stack pointer.
    pub fn thumb_push_pop_register(&mut self, req: &mut MemoryRequest, rsp: &MemoryResponse)
        -> (res: Result<(), CpuError>)
        requires
            old(self).wf(),
        ensures
            final(self).wf(),
            spec_thumb_push_pop_register_effect(*old(self), *old(req), *rsp, *final(self), *final(req), res),
    {
        let current_instruction = self.arm_current_execute;
        self.arm_current_execute = thumb_push_pop_to_arm(current_instruction);
        let ghost retargeted_pre = *self;
        let res = self.arm_block_data_transfer(req, rsp);
        let ghost retargeted_post = *self;
        self.arm_current_execute = current_instruction;
        proof {
            assert(spec_retargeted(*old(self), spec_thumb_push_pop_to_arm(old(self).arm_current_execute),
                retargeted_pre));
            assert(spec_retargeted(*self, spec_thumb_push_pop_to_arm(old(self).arm_current_execute),
                retargeted_post));
            assert(spec_arm_block_data_transfer_effect(retargeted_pre, *old(req), *rsp, retargeted_post, *req, res));
        }
        res
    }

    /// Compressed multiple load/store, re-dispatched through the block data
    /// transfer handler.
    pub fn thumb_multiple_load_store(&mut self, req: &mut MemoryRequest, rsp: &MemoryResponse)
        -> (res: Result<(), CpuError>)
        requires
            old(self).wf(),
        ensures
            final(self).wf(),
            spec_thumb_multiple_load_store_effect(*old(self), *old(req), *rsp, *final(self), *final(req), res),
    {
        let current_instruction = self.arm_current_execute;
        self.arm_current_execute = thumb_multiple_load_store_to_arm(current_instruction);
        let ghost retargeted_pre = *self;
        let res = self.arm_block_data_transfer(req, rsp);
        let ghost retargeted_post = *self;
        self.arm_current_execute = current_instruction;
        proof {
            assert(spec_retargeted(*old(self), spec_thumb_multiple_load_store_to_arm(old(self).arm_current_execute),
                retargeted_pre));
            assert(spec_retargeted(*self, spec_thumb_multiple_load_store_to_arm(old(self).arm_current_execute),
                retargeted_post));
            assert(spec_arm_block_data_transfer_effect(retargeted_pre, *old(req), *rsp, retargeted_post, *req, res));
        }
        res
    }

    /// Compressed conditional and unconditional branches, handled natively:
    /// the PC-relative, halfword-granularity offset redirects control flow
    /// and the pipeline refills over two more cycles, exactly as the 32-bit
    /// branch does at its narrower fetch width.
    pub fn thumb_branch(&mut self, req: &mut MemoryRequest, cond_branch: bool) -> (res: Result<(),
        CpuError>)
        requires
            old(self).wf(),
        ensures
            final(self).wf(),
            spec_thumb_branch_effect(*old(self), *old(req), cond_branch, *final(self), *final(req), res),
    {
        let w = self.arm_current_execute;
        let current_pc = self.rf.get_register(15, 0);

        if cond_branch {
            let condition = (w >> 8) & 0xf;
            if !self.rf.check_condition_code(condition) {
                return Ok(());
            }
        }

        if self.instruction_step == InstructionStep::STEP0 {
            let offset = if cond_branch {
                let nn = w & 0xff;
                let ext = if (nn >> 7) & 1 == 1 { nn | 0xffff_ff00 } else { nn };
                ext << 1
            } else {
                let nn = w & 0x7ff;
                let ext = if (nn >> 10) & 1 == 1 { nn | 0xffff_f800 } else { nn };
                ext << 1
            };
            let target = crate::common::wrapping_add_u32(
                crate::common::wrapping_add_u32(current_pc, offset), 4);

            self.arm_instruction_queue.clear();
            req.bus_cycle = BusCycle::NONSEQUENTIAL;
            self.data_is_fetch = false;
            self.instruction_step = InstructionStep::STEP1;

            self.rf.write_register(15, target);
            Ok(())
        } else if self.instruction_step == InstructionStep::STEP1 {
            req.address = current_pc;
            self.instruction_step = InstructionStep::STEP2;
            Ok(())
        } else if self.instruction_step == InstructionStep::STEP2 {
            req.address = crate::common::wrapping_add_u32(current_pc, 2);
            self.rf.write_register(15, crate::common::wrapping_sub_u32(current_pc, 2));
            self.instruction_step = InstructionStep::STEP0;
            Ok(())
        } else {
            Err(CpuError::InvalidInstructionStep)
        }
    }

    /// Compressed software interrupt, re-dispatched through the software
    /// interrupt handler; the exception entry switches back to the 32-bit
    /// instruction set.
    pub fn thumb_software_interrupt(&mut self, req: &mut MemoryRequest) -> (res: Result<(),
        CpuError>)
        requires
            old(self).wf(),
        ensures
            final(self).wf(),
            spec_thumb_software_interrupt_effect(*old(self), *old(req), *final(self), *final(req), res),
    {
        let current_instruction = self.arm_current_execute;
        self.arm_current_execute = 0xe600_0000;
        let ghost retargeted_pre = *self;
        let res = self.arm_swi(req);
        let ghost retargeted_post = *self;
        self.arm_current_execute = current_instruction;
        proof {
            assert(spec_retargeted(*old(self), 0xe600_0000u32, retargeted_pre));
            assert(spec_retargeted(*self, 0xe600_0000u32, retargeted_post));
            assert(spec_arm_swi_effect(retargeted_pre, *old(req), retargeted_post, *req, res));
        }
        res
    }

    /// Compressed long branch-with-link, handled natively: a two-halfword
    /// encoding spanning two fetches. The first half stages the upper offset
    /// fragment in the link register; the second half computes the target from
    /// the staged value and the lower fragment, leaves the return address in
    /// the link register, and refills the pipeline like a branch.
    ///
    /// The return address is stored with bit 0 clear, deliberately: the
    /// refill steps of every r15 write use the stored value as a fetch address
    /// directly, so a return through `mov pc, lr` needs an even link value; a
    /// caller that wants a BX-style return into the compressed set sets bit 0
    /// itself.
    pub fn thumb_long_branch_with_link(&mut self, req: &mut MemoryRequest) -> (res: Result<(),
        CpuError>)
        requires
            old(self).wf(),
        ensures
            final(self).wf(),
            spec_thumb_long_branch_with_link_effect(*old(self), *old(req), *final(self), *final(req), res),
    {
        let w = self.arm_current_execute;
        let h_bit = (w >> 11) & 1;
        let nn = w & 0x7ff;
        let current_pc = self.rf.get_register(15, 0);

        if self.instruction_step == InstructionStep::STEP0 {
            if h_bit == 0 {
                // first half: stage the sign-extended upper offset fragment,
                // relative to the fetch address, in the link register
                let ext = if (nn >> 10) & 1 == 1 { nn | 0xffff_f800 } else { nn };
                let staged = crate::common::wrapping_add_u32(
                    crate::common::wrapping_add_u32(current_pc, 4), ext << 12);
                self.rf.write_register(14, staged);
                Ok(())
            } else {
                // second half: branch to the staged target and leave the
                // address of the following instruction in the link register
                let target = crate::common::wrapping_add_u32(self.rf.get_register(14, 0),
                    nn << 1);
                let return_address = crate::common::wrapping_add_u32(current_pc, 2);

                self.arm_instruction_queue.clear();
                req.bus_cycle = BusCycle::NONSEQUENTIAL;
                self.data_is_fetch = false;
                self.instruction_step = InstructionStep::STEP1;

                self.rf.write_register(14, return_address);
                self.rf.write_register(15, target);
                Ok(())
            }
        } else if self.instruction_step == InstructionStep::STEP1 {
            req.address = current_pc;
            self.instruction_step = InstructionStep::STEP2;
            Ok(())
        } else if self.instruction_step == InstructionStep::STEP2 {
            req.address = crate::common::wrapping_add_u32(current_pc, 2);
            self.rf.write_register(15, crate::common::wrapping_sub_u32(current_pc, 2));
            self.instruction_step = InstructionStep::STEP0;
            Ok(())
        } else {
            Err(CpuError::InvalidInstructionStep)
        }
    }
}


/// One-cycle effect relation of `thumb_hi_register_bx`: how the post-state and
/// the outgoing request relate to the pre-state, the incoming request and the
/// result. The handler's contract is exactly this relation, so a caller can
/// quote it.
pub open spec fn spec_thumb_hi_register_bx_effect(pre: ARM7TDMI, req0: MemoryRequest, rsp: MemoryResponse, post: ARM7TDMI,
    req1: MemoryRequest, res: Result<(), CpuError>) -> bool {
    &&& post.arm_current_execute == pre.arm_current_execute
    &&& ({
        let w = pre.arm_current_execute;
        if (w >> 8) & 3 <= 2 {
            exists|retargeted_pre: ARM7TDMI, retargeted_post: ARM7TDMI|
                {
                    &&& spec_retargeted(pre, spec_thumb_hi_alu_to_arm(w), retargeted_pre)
                    &&& spec_retargeted(post, spec_thumb_hi_alu_to_arm(w), retargeted_post)
                    &&& #[trigger] spec_arm_data_processing_effect(retargeted_pre, req0,
                        retargeted_post, req1, res)
                }
        } else {
            exists|retargeted_pre: ARM7TDMI, retargeted_post: ARM7TDMI|
                {
                    &&& spec_retargeted(pre, spec_thumb_hi_bx_to_arm(w), retargeted_pre)
                    &&& spec_retargeted(post, spec_thumb_hi_bx_to_arm(w), retargeted_post)
                    &&& #[trigger] spec_arm_branch_and_exchange_effect(retargeted_pre, req0,
                        rsp, retargeted_post, req1, res)
                }
        }
    })
    &&& ({
                let w = pre.arm_current_execute;
                let tw = spec_thumb_hi_alu_to_arm(w);
                let b = pre.rf@;
                (w >> 8) & 3 <= 2 && pre.instruction_step == InstructionStep::STEP0
                    && spec_condition_passed(b.cpsr, spec_cond(tw)) && spec_dp_step0_fault(b, tw)
                    is None ==> res == Ok::<(), CpuError>(()) && post.rf@
                    == spec_dp_step0_rf(b, tw)
            })
}

/// One-cycle effect relation of `thumb_pc_relative_load`: how the post-state and
/// the outgoing request relate to the pre-state, the incoming request and the
/// result. The handler's contract is exactly this relation, so a caller can
/// quote it.
pub open spec fn spec_thumb_pc_relative_load_effect(pre: ARM7TDMI, req0: MemoryRequest, rsp: MemoryResponse, post: ARM7TDMI,
    req1: MemoryRequest, res: Result<(), CpuError>) -> bool {
    &&& post.arm_current_execute == pre.arm_current_execute
    &&& exists|retargeted_pre: ARM7TDMI, retargeted_post: ARM7TDMI|
        {
            &&& spec_retargeted(pre, spec_thumb_pc_relative_load_to_arm(pre.arm_current_execute), retargeted_pre)
            &&& spec_retargeted(post, spec_thumb_pc_relative_load_to_arm(pre.arm_current_execute), retargeted_post)
            &&& #[trigger] spec_arm_single_data_transfer_effect(retargeted_pre, req0, rsp, retargeted_post, req1, res)
        }
    &&& ({
                let tw = spec_thumb_pc_relative_load_to_arm(pre.arm_current_execute);
                let b = pre.rf@;
                pre.instruction_step == InstructionStep::STEP2 && spec_condition_passed(
                    b.cpsr, spec_cond(tw)) && (tw >> 20) & 1 == 1 ==> res == Ok::<(), CpuError>(())
                    && post.rf@ == spec_reg_write(b, (tw >> 12) & 0xf, spec_sdt_loaded(
                    rsp.data, pre.last_used_address, (tw >> 22) & 1))
            })
}

/// One-cycle effect relation of `thumb_load_store_reg_offset`: how the post-state and
/// the outgoing request relate to the pre-state, the incoming request and the
/// result. The handler's contract is exactly this relation, so a caller can
/// quote it.
pub open spec fn spec_thumb_load_store_reg_offset_effect(pre: ARM7TDMI, req0: MemoryRequest, rsp: MemoryResponse, post: ARM7TDMI,
    req1: MemoryRequest, res: Result<(), CpuError>) -> bool {
    &&& post.arm_current_execute == pre.arm_current_execute
    &&& exists|retargeted_pre: ARM7TDMI, retargeted_post: ARM7TDMI|
        {
            &&& spec_retargeted(pre, spec_thumb_load_store_reg_to_arm(pre.arm_current_execute), retargeted_pre)
            &&& spec_retargeted(post, spec_thumb_load_store_reg_to_arm(pre.arm_current_execute), retargeted_post)
            &&& #[trigger] spec_arm_single_data_transfer_effect(retargeted_pre, req0, rsp, retargeted_post, req1, res)
        }
    &&& ({
                let tw = spec_thumb_load_store_reg_to_arm(pre.arm_current_execute);
                let b = pre.rf@;
                pre.instruction_step == InstructionStep::STEP2 && spec_condition_passed(
                    b.cpsr, spec_cond(tw)) && (tw >> 20) & 1 == 1 ==> res == Ok::<(), CpuError>(())
                    && post.rf@ == spec_reg_write(b, (tw >> 12) & 0xf, spec_sdt_loaded(
                    rsp.data, pre.last_used_address, (tw >> 22) & 1))
            })
}

/// One-cycle effect relation of `thumb_load_store_sign_ext`: how the post-state and
/// the outgoing request relate to the pre-state, the incoming request and the
/// result. The handler's contract is exactly this relation, so a caller can
/// quote it.
pub open spec fn spec_thumb_load_store_sign_ext_effect(pre: ARM7TDMI, req0: MemoryRequest, rsp: MemoryResponse, post: ARM7TDMI,
    req1: MemoryRequest, res: Result<(), CpuError>) -> bool {
    &&& post.arm_current_execute == pre.arm_current_execute
    &&& exists|retargeted_pre: ARM7TDMI, retargeted_post: ARM7TDMI|
        {
            &&& spec_retargeted(pre, spec_thumb_load_store_sign_ext_to_arm(pre.arm_current_execute), retargeted_pre)
            &&& spec_retargeted(post, spec_thumb_load_store_sign_ext_to_arm(pre.arm_current_execute), retargeted_post)
            &&& #[trigger] spec_arm_hw_transfer_effect(retargeted_pre, req0, rsp, retargeted_post, req1, res)
        }
    &&& ({
                let tw = spec_thumb_load_store_sign_ext_to_arm(pre.arm_current_execute);
                let b = pre.rf@;
                pre.instruction_step == InstructionStep::STEP2 && spec_condition_passed(
                    b.cpsr, spec_cond(tw)) && (tw >> 20) & 1 == 1 && (tw >> 5) & 3 != 0 ==> res
                    == Ok::<(), CpuError>(()) && post.rf@ == spec_reg_write(b, (tw >> 12)
                    & 0xf, spec_hwt_loaded(rsp.data, pre.last_used_address, (tw >> 5) & 3))
            })
}

/// One-cycle effect relation of `thumb_load_store_imm_offset`: how the post-state and
/// the outgoing request relate to the pre-state, the incoming request and the
/// result. The handler's contract is exactly this relation, so a caller can
/// quote it.
pub open spec fn spec_thumb_load_store_imm_offset_effect(pre: ARM7TDMI, req0: MemoryRequest, rsp: MemoryResponse, post: ARM7TDMI,
    req1: MemoryRequest, res: Result<(), CpuError>) -> bool {
    &&& post.arm_current_execute == pre.arm_current_execute
    &&& exists|retargeted_pre: ARM7TDMI, retargeted_post: ARM7TDMI|
        {
            &&& spec_retargeted(pre, spec_thumb_load_store_imm_to_arm(pre.arm_current_execute), retargeted_pre)
            &&& spec_retargeted(post, spec_thumb_load_store_imm_to_arm(pre.arm_current_execute), retargeted_post)
            &&& #[trigger] spec_arm_single_data_transfer_effect(retargeted_pre, req0, rsp, retargeted_post, req1, res)
        }
    &&& ({
                let tw = spec_thumb_load_store_imm_to_arm(pre.arm_current_execute);
                let b = pre.rf@;
                pre.instruction_step == InstructionStep::STEP2 && spec_condition_passed(
                    b.cpsr, spec_cond(tw)) && (tw >> 20) & 1 == 1 ==> res == Ok::<(), CpuError>(())
                    && post.rf@ == spec_reg_write(b, (tw >> 12) & 0xf, spec_sdt_loaded(
                    rsp.data, pre.last_used_address, (tw >> 22) & 1))
            })
}

/// One-cycle effect relation of `thumb_load_store_halfword`: how the post-state and
/// the outgoing request relate to the pre-state, the incoming request and the
/// result. The handler's contract is exactly this relation, so a caller can
/// quote it.
pub open spec fn spec_thumb_load_store_halfword_effect(pre: ARM7TDMI, req0: MemoryRequest, rsp: MemoryResponse, post: ARM7TDMI,
    req1: MemoryRequest, res: Result<(), CpuError>) -> bool {
    &&& post.arm_current_execute == pre.arm_current_execute
    &&& exists|retargeted_pre: ARM7TDMI, retargeted_post: ARM7TDMI|
        {
            &&& spec_retargeted(pre, spec_thumb_load_store_halfword_to_arm(pre.arm_current_execute), retargeted_pre)
            &&& spec_retargeted(post, spec_thumb_load_store_halfword_to_arm(pre.arm_current_execute), retargeted_post)
            &&& #[trigger] spec_arm_hw_transfer_effect(retargeted_pre, req0, rsp, retargeted_post, req1, res)
        }
    &&& ({
                let tw = spec_thumb_load_store_halfword_to_arm(pre.arm_current_execute);
                let b = pre.rf@;
                pre.instruction_step == InstructionStep::STEP2 && spec_condition_passed(
                    b.cpsr, spec_cond(tw)) && (tw >> 20) & 1 == 1 && (tw >> 5) & 3 != 0 ==> res
                    == Ok::<(), CpuError>(()) && post.rf@ == spec_reg_write(b, (tw >> 12)
                    & 0xf, spec_hwt_loaded(rsp.data, pre.last_used_address, (tw >> 5) & 3))
            })
}

/// One-cycle effect relation of `thumb_sp_relative_load_store`: how the post-state and
/// the outgoing request relate to the pre-state, the incoming request and the
/// result. The handler's contract is exactly this relation, so a caller can
/// quote it.
pub open spec fn spec_thumb_sp_relative_load_store_effect(pre: ARM7TDMI, req0: MemoryRequest, rsp: MemoryResponse, post: ARM7TDMI,
    req1: MemoryRequest, res: Result<(), CpuError>) -> bool {
    &&& post.arm_current_execute == pre.arm_current_execute
    &&& exists|retargeted_pre: ARM7TDMI, retargeted_post: ARM7TDMI|
        {
            &&& spec_retargeted(pre, spec_thumb_sp_relative_to_arm(pre.arm_current_execute), retargeted_pre)
            &&& spec_retargeted(post, spec_thumb_sp_relative_to_arm(pre.arm_current_execute), retargeted_post)
            &&& #[trigger] spec_arm_single_data_transfer_effect(retargeted_pre, req0, rsp, retargeted_post, req1, res)
        }
    &&& ({
                let tw = spec_thumb_sp_relative_to_arm(pre.arm_current_execute);
                let b = pre.rf@;
                pre.instruction_step == InstructionStep::STEP2 && spec_condition_passed(
                    b.cpsr, spec_cond(tw)) && (tw >> 20) & 1 == 1 ==> res == Ok::<(), CpuError>(())
                    && post.rf@ == spec_reg_write(b, (tw >> 12) & 0xf, spec_sdt_loaded(
                    rsp.data, pre.last_used_address, (tw >> 22) & 1))
            })
}

/// One-cycle effect relation of `thumb_push_pop_register`: how the post-state and
/// the outgoing request relate to the pre-state, the incoming request and the
/// result. The handler's contract is exactly this relation, so a caller can
/// quote it.
pub open spec fn spec_thumb_push_pop_register_effect(pre: ARM7TDMI, req0: MemoryRequest, rsp: MemoryResponse, post: ARM7TDMI,
    req1: MemoryRequest, res: Result<(), CpuError>) -> bool {
    &&& post.arm_current_execute == pre.arm_current_execute
    &&& exists|retargeted_pre: ARM7TDMI, retargeted_post: ARM7TDMI|
        {
            &&& spec_retargeted(pre, spec_thumb_push_pop_to_arm(pre.arm_current_execute), retargeted_pre)
            &&& spec_retargeted(post, spec_thumb_push_pop_to_arm(pre.arm_current_execute), retargeted_post)
            &&& #[trigger] spec_arm_block_data_transfer_effect(retargeted_pre, req0, rsp, retargeted_post, req1, res)
        }
    &&& ({
                let tw = spec_thumb_push_pop_to_arm(pre.arm_current_execute);
                let b = pre.rf@;
                pre.instruction_step == InstructionStep::STEP0 && spec_condition_passed(
                    b.cpsr, spec_cond(tw)) && (tw >> 16) & 0xf != 15 ==> res == Ok::<(),
                    CpuError>(()) && post.list_transfer_op@ == spec_transfer_list(
                    spec_bdt_list_bits(tw), spec_bdt_start(b, tw), 0)
            })
}

/// One-cycle effect relation of `thumb_multiple_load_store`: how the post-state and
/// the outgoing request relate to the pre-state, the incoming request and the
/// result. The handler's contract is exactly this relation, so a caller can
/// quote it.
pub open spec fn spec_thumb_multiple_load_store_effect(pre: ARM7TDMI, req0: MemoryRequest, rsp: MemoryResponse, post: ARM7TDMI,
    req1: MemoryRequest, res: Result<(), CpuError>) -> bool {
    &&& post.arm_current_execute == pre.arm_current_execute
    &&& exists|retargeted_pre: ARM7TDMI, retargeted_post: ARM7TDMI|
        {
            &&& spec_retargeted(pre, spec_thumb_multiple_load_store_to_arm(pre.arm_current_execute), retargeted_pre)
            &&& spec_retargeted(post, spec_thumb_multiple_load_store_to_arm(pre.arm_current_execute), retargeted_post)
            &&& #[trigger] spec_arm_block_data_transfer_effect(retargeted_pre, req0, rsp, retargeted_post, req1, res)
        }
    &&& ({
                let tw = spec_thumb_multiple_load_store_to_arm(pre.arm_current_execute);
                let b = pre.rf@;
                pre.instruction_step == InstructionStep::STEP0 && spec_condition_passed(
                    b.cpsr, spec_cond(tw)) && (tw >> 16) & 0xf != 15 ==> res == Ok::<(),
                    CpuError>(()) && post.list_transfer_op@ == spec_transfer_list(
                    spec_bdt_list_bits(tw), spec_bdt_start(b, tw), 0)
            })
}

/// One-cycle effect relation of `thumb_move_shifter_register`: how the post-state and
/// the outgoing request relate to the pre-state, the incoming request and the
/// result. The handler's contract is exactly this relation, so a caller can
/// quote it.
pub open spec fn spec_thumb_move_shifter_register_effect(pre: ARM7TDMI, req0: MemoryRequest, post: ARM7TDMI,
    req1: MemoryRequest, res: Result<(), CpuError>) -> bool {
    &&& post.arm_current_execute == pre.arm_current_execute
    &&& exists|retargeted_pre: ARM7TDMI, retargeted_post: ARM7TDMI|
        {
            &&& spec_retargeted(pre, spec_thumb_move_shifted_to_arm(pre.arm_current_execute), retargeted_pre)
            &&& spec_retargeted(post, spec_thumb_move_shifted_to_arm(pre.arm_current_execute), retargeted_post)
            &&& #[trigger] spec_arm_data_processing_effect(retargeted_pre, req0, retargeted_post, req1, res)
        }
    &&& ({
                let tw = spec_thumb_move_shifted_to_arm(pre.arm_current_execute);
                let b = pre.rf@;
                pre.instruction_step == InstructionStep::STEP0 && spec_condition_passed(
                    b.cpsr, spec_cond(tw)) && spec_dp_step0_fault(b, tw) is None ==> res
                    == Ok::<(), CpuError>(()) && post.rf@ == spec_dp_step0_rf(b, tw)
            })
}

/// One-cycle effect relation of `thumb_add_subtract`: how the post-state and
/// the outgoing request relate to the pre-state, the incoming request and the
/// result. The handler's contract is exactly this relation, so a caller can
/// quote it.
pub open spec fn spec_thumb_add_subtract_effect(pre: ARM7TDMI, req0: MemoryRequest, post: ARM7TDMI,
    req1: MemoryRequest, res: Result<(), CpuError>) -> bool {
    &&& post.arm_current_execute == pre.arm_current_execute
    &&& exists|retargeted_pre: ARM7TDMI, retargeted_post: ARM7TDMI|
        {
            &&& spec_retargeted(pre, spec_thumb_add_subtract_to_arm(pre.arm_current_execute), retargeted_pre)
            &&& spec_retargeted(post, spec_thumb_add_subtract_to_arm(pre.arm_current_execute), retargeted_post)
            &&& #[trigger] spec_arm_data_processing_effect(retargeted_pre, req0, retargeted_post, req1, res)
        }
    &&& ({
                let tw = spec_thumb_add_subtract_to_arm(pre.arm_current_execute);
                let b = pre.rf@;
                pre.instruction_step == InstructionStep::STEP0 && spec_condition_passed(
                    b.cpsr, spec_cond(tw)) && spec_dp_step0_fault(b, tw) is None ==> res
                    == Ok::<(), CpuError>(()) && post.rf@ == spec_dp_step0_rf(b, tw)
            })
}

/// One-cycle effect relation of `thumb_alu_immediate`: how the post-state and
/// the outgoing request relate to the pre-state, the incoming request and the
/// result. The handler's contract is exactly this relation, so a caller can
/// quote it.
pub open spec fn spec_thumb_alu_immediate_effect(pre: ARM7TDMI, req0: MemoryRequest, post: ARM7TDMI,
    req1: MemoryRequest, res: Result<(), CpuError>) -> bool {
    &&& post.arm_current_execute == pre.arm_current_execute
    &&& exists|retargeted_pre: ARM7TDMI, retargeted_post: ARM7TDMI|
        {
            &&& spec_retargeted(pre, spec_thumb_alu_immediate_to_arm(pre.arm_current_execute), retargeted_pre)
            &&& spec_retargeted(post, spec_thumb_alu_immediate_to_arm(pre.arm_current_execute), retargeted_post)
            &&& #[trigger] spec_arm_data_processing_effect(retargeted_pre, req0, retargeted_post, req1, res)
        }
    &&& ({
                let tw = spec_thumb_alu_immediate_to_arm(pre.arm_current_execute);
                let b = pre.rf@;
                pre.instruction_step == InstructionStep::STEP0 && spec_condition_passed(
                    b.cpsr, spec_cond(tw)) && spec_dp_step0_fault(b, tw) is None ==> res
                    == Ok::<(), CpuError>(()) && post.rf@ == spec_dp_step0_rf(b, tw)
            })
}

/// One-cycle effect relation of `thumb_alu`: how the post-state and
/// the outgoing request relate to the pre-state, the incoming request and the
/// result. The handler's contract is exactly this relation, so a caller can
/// quote it.
pub open spec fn spec_thumb_alu_effect(pre: ARM7TDMI, req0: MemoryRequest, post: ARM7TDMI,
    req1: MemoryRequest, res: Result<(), CpuError>) -> bool {
    &&& post.arm_current_execute == pre.arm_current_execute
    &&& ({
        let tw = spec_thumb_alu_to_arm(pre.arm_current_execute);
        if (pre.arm_current_execute >> 6) & 0xf == 0xd {
            exists|retargeted_pre: ARM7TDMI, retargeted_post: ARM7TDMI|
                {
                    &&& spec_retargeted(pre, tw, retargeted_pre)
                    &&& spec_retargeted(post, tw, retargeted_post)
                    &&& #[trigger] spec_arm_multiply_effect(retargeted_pre, req0,
                        retargeted_post, req1, res)
                }
        } else {
            exists|retargeted_pre: ARM7TDMI, retargeted_post: ARM7TDMI|
                {
                    &&& spec_retargeted(pre, tw, retargeted_pre)
                    &&& spec_retargeted(post, tw, retargeted_post)
                    &&& #[trigger] spec_arm_data_processing_effect(retargeted_pre, req0,
                        retargeted_post, req1, res)
                }
        }
    })
    &&& ({
                let w = pre.arm_current_execute;
                let tw = spec_thumb_alu_to_arm(w);
                let b = pre.rf@;
                (w >> 6) & 0xf == 0xd && pre.instruction_step == InstructionStep::STEP0
                    && spec_condition_passed(b.cpsr, spec_cond(tw)) ==> res == Ok::<(),
                    CpuError>(()) && post.rf@ == b && post.instruction_step
                    == InstructionStep::STEP1 && post.instruction_counter_step
                    == crate::arm7_tdmi::arm_instructions::spec_mul_cycles(spec_reg_read(b, (tw
                    >> 8) & 0xf), (tw >> 21) & 0xf) && req1 == (MemoryRequest {
                    bus_cycle: BusCycle::INTERNAL,
                    ..req0
                })
            })
    &&& ({
                let w = pre.arm_current_execute;
                let tw = spec_thumb_alu_to_arm(w);
                let b = pre.rf@;
                (w >> 6) & 0xf != 0xd && pre.instruction_step == InstructionStep::STEP0
                    && spec_condition_passed(b.cpsr, spec_cond(tw)) && spec_dp_step0_fault(b, tw)
                    is None ==> res == Ok::<(), CpuError>(()) && post.rf@
                    == spec_dp_step0_rf(b, tw)
            })
}

/// One-cycle effect relation of `thumb_load_address`: how the post-state and
/// the outgoing request relate to the pre-state, the incoming request and the
/// result. The handler's contract is exactly this relation, so a caller can
/// quote it.
pub open spec fn spec_thumb_load_address_effect(pre: ARM7TDMI, req0: MemoryRequest, post: ARM7TDMI,
    req1: MemoryRequest, res: Result<(), CpuError>) -> bool {
    &&& post.arm_current_execute == pre.arm_current_execute
    &&& exists|retargeted_pre: ARM7TDMI, retargeted_post: ARM7TDMI|
        {
            &&& spec_retargeted(pre, spec_thumb_load_address_to_arm(pre.arm_current_execute), retargeted_pre)
            &&& spec_retargeted(post, spec_thumb_load_address_to_arm(pre.arm_current_execute), retargeted_post)
            &&& #[trigger] spec_arm_data_processing_effect(retargeted_pre, req0, retargeted_post, req1, res)
        }
    &&& ({
                let tw = spec_thumb_load_address_to_arm(pre.arm_current_execute);
                let b = pre.rf@;
                pre.instruction_step == InstructionStep::STEP0 && spec_condition_passed(
                    b.cpsr, spec_cond(tw)) && spec_dp_step0_fault(b, tw) is None ==> res
                    == Ok::<(), CpuError>(()) && post.rf@ == spec_dp_step0_rf(b, tw)
            })
}

/// One-cycle effect relation of `thumb_add_offset_to_sp`: how the post-state and
/// the outgoing request relate to the pre-state, the incoming request and the
/// result. The handler's contract is exactly this relation, so a caller can
/// quote it.
pub open spec fn spec_thumb_add_offset_to_sp_effect(pre: ARM7TDMI, req0: MemoryRequest, post: ARM7TDMI,
    req1: MemoryRequest, res: Result<(), CpuError>) -> bool {
    &&& post.arm_current_execute == pre.arm_current_execute
    &&& exists|retargeted_pre: ARM7TDMI, retargeted_post: ARM7TDMI|
        {
            &&& spec_retargeted(pre, spec_thumb_add_offset_sp_to_arm(pre.arm_current_execute), retargeted_pre)
            &&& spec_retargeted(post, spec_thumb_add_offset_sp_to_arm(pre.arm_current_execute), retargeted_post)
            &&& #[trigger] spec_arm_data_processing_effect(retargeted_pre, req0, retargeted_post, req1, res)
        }
    &&& ({
                let tw = spec_thumb_add_offset_sp_to_arm(pre.arm_current_execute);
                let b = pre.rf@;
                pre.instruction_step == InstructionStep::STEP0 && spec_condition_passed(
                    b.cpsr, spec_cond(tw)) && spec_dp_step0_fault(b, tw) is None ==> res
                    == Ok::<(), CpuError>(()) && post.rf@ == spec_dp_step0_rf(b, tw)
            })
}

/// One-cycle effect relation of `thumb_software_interrupt`: how the post-state and
/// the outgoing request relate to the pre-state, the incoming request and the
/// result. The handler's contract is exactly this relation, so a caller can
/// quote it.
pub open spec fn spec_thumb_software_interrupt_effect(pre: ARM7TDMI, req0: MemoryRequest, post: ARM7TDMI,
    req1: MemoryRequest, res: Result<(), CpuError>) -> bool {
    &&& post.arm_current_execute == pre.arm_current_execute
    &&& exists|retargeted_pre: ARM7TDMI, retargeted_post: ARM7TDMI|
        {
            &&& spec_retargeted(pre, 0xe600_0000u32, retargeted_pre)
            &&& spec_retargeted(post, 0xe600_0000u32, retargeted_post)
            &&& #[trigger] spec_arm_swi_effect(retargeted_pre, req0, retargeted_post, req1, res)
        }
    &&& ({
                let b = pre.rf@;
                pre.instruction_step == InstructionStep::STEP1 && spec_condition_passed(
                    b.cpsr, spec_cond(0xe600_0000)) ==> res == Ok::<(), CpuError>(()) && ({
                    let b1 = RegisterBanks {
                        cpsr: (b.cpsr & 0xffff_ffc0) | crate::arm7_tdmi::MODE_SUPERVISOR,
                        ..b
                    };
                    let b2 = RegisterBanks { spsr: b1.spsr.update(1, b.cpsr), ..b1 };
                    let b3 = spec_reg_write(b2, 14, wadd(spec_reg_read(b2, 15), 4));
                    post.rf@ == spec_reg_write(b3, 15, 4)
                })
            })
}

/// One-cycle effect relation of `thumb_long_branch_with_link`: how the post-state and
/// the outgoing request relate to the pre-state, the incoming request and the
/// result. The handler's contract is exactly this relation, so a caller can
/// quote it.
pub open spec fn spec_thumb_long_branch_with_link_effect(pre: ARM7TDMI, req0: MemoryRequest, post: ARM7TDMI,
    req1: MemoryRequest, res: Result<(), CpuError>) -> bool {
    &&& post.arm_current_execute == pre.arm_current_execute
    &&& post.last_used_address == pre.last_used_address
    &&& post.instruction_counter_step == pre.instruction_counter_step
    &&& post.list_transfer_op == pre.list_transfer_op
    &&& ({
                let w = pre.arm_current_execute;
                let b = pre.rf@;
                let h_bit = (w >> 11) & 1;
                let nn = w & 0x7ff;
                let pc = spec_reg_read(b, 15);
                let upper = if spec_bit32(nn, 10) { nn | 0xffff_f800u32 } else { nn };
                let target = wadd(spec_reg_read(b, 14), nn << 1u32);
                &&& (h_bit == 0 && pre.instruction_step == InstructionStep::STEP0 ==> res
                    == Ok::<(), CpuError>(()) && post.rf@ == spec_reg_write(b, 14, wadd(
                    wadd(pc, 4), upper << 12u32)) && post.instruction_step
                    == InstructionStep::STEP0 && req1 == req0 && post.arm_instruction_queue == pre.arm_instruction_queue && post.data_is_fetch == pre.data_is_fetch)
                &&& (h_bit == 1 && pre.instruction_step == InstructionStep::STEP0 ==> {
                    &&& res == Ok::<(), CpuError>(())
                    &&& post.rf@ == spec_reg_write(spec_reg_write(b, 14, wadd(pc, 2)), 15,
                        target)
                    &&& post.instruction_step == InstructionStep::STEP1
                    &&& !post.data_is_fetch
                    &&& post.arm_instruction_queue@ == Seq::<u32>::empty()
                    &&& req1 == (MemoryRequest { bus_cycle: BusCycle::NONSEQUENTIAL, ..req0 })
                })
                &&& (pre.instruction_step == InstructionStep::STEP1 ==> res == Ok::<(),
                    CpuError>(()) && post.rf@ == b && post.instruction_step
                    == InstructionStep::STEP2 && req1 == (MemoryRequest {
                    address: pc,
                    ..req0
                }) && post.arm_instruction_queue == pre.arm_instruction_queue && post.data_is_fetch == pre.data_is_fetch)
                &&& (pre.instruction_step == InstructionStep::STEP2 ==> res == Ok::<(),
                    CpuError>(()) && post.rf@ == spec_reg_write(b, 15, wsub(pc, 2))
                    && post.instruction_step == InstructionStep::STEP0 && req1
                    == (MemoryRequest { address: wadd(pc, 2), ..req0 }) && post.arm_instruction_queue == pre.arm_instruction_queue && post.data_is_fetch == pre.data_is_fetch)
                &&& (pre.instruction_step == InstructionStep::STEP3 || pre.instruction_step == InstructionStep::STEP4 ==> res == Err::<(),
                    CpuError>(CpuError::InvalidInstructionStep) && post == pre
                    && req1 == req0)
            })
}

/// One-cycle effect relation of `thumb_branch`: how the post-state and
/// the outgoing request relate to the pre-state, the incoming request and the
/// result. The handler's contract is exactly this relation, so a caller can
/// quote it.
pub open spec fn spec_thumb_branch_effect(pre: ARM7TDMI, req0: MemoryRequest, cond_branch: bool, post: ARM7TDMI,
    req1: MemoryRequest, res: Result<(), CpuError>) -> bool {
    &&& post.arm_current_execute == pre.arm_current_execute
    &&& post.last_used_address == pre.last_used_address
    &&& post.instruction_counter_step == pre.instruction_counter_step
    &&& post.list_transfer_op == pre.list_transfer_op
    &&& ({
                let w = pre.arm_current_execute;
                let b = pre.rf@;
                let cond = !cond_branch || spec_condition_passed(b.cpsr, (w >> 8) & 0xf);
                let pc = spec_reg_read(b, 15);
                let target = wadd(wadd(pc, spec_thumb_branch_offset(w, cond_branch)), 4);
                &&& (!cond ==> res == Ok::<(), CpuError>(()) && post == pre
                    && req1 == req0)
                &&& (cond && pre.instruction_step == InstructionStep::STEP0 ==> {
                    &&& res == Ok::<(), CpuError>(())
                    &&& post.rf@ == spec_reg_write(b, 15, target)
                    &&& post.instruction_step == InstructionStep::STEP1
                    &&& !post.data_is_fetch
                    &&& post.arm_instruction_queue@ == Seq::<u32>::empty()
                    &&& req1 == (MemoryRequest { bus_cycle: BusCycle::NONSEQUENTIAL, ..req0 })
                })
                &&& (cond && pre.instruction_step == InstructionStep::STEP1 ==> res
                    == Ok::<(), CpuError>(()) && post.rf@ == b && post.instruction_step == InstructionStep::STEP2 && req1
                    == (MemoryRequest { address: pc, ..req0 }) && post.arm_instruction_queue == pre.arm_instruction_queue && post.data_is_fetch == pre.data_is_fetch)
                &&& (cond && pre.instruction_step == InstructionStep::STEP2 ==> res
                    == Ok::<(), CpuError>(()) && post.rf@ == spec_reg_write(b, 15, wsub(pc,
                    2)) && post.instruction_step == InstructionStep::STEP0 && req1
                    == (MemoryRequest { address: wadd(pc, 2), ..req0 }) && post.arm_instruction_queue == pre.arm_instruction_queue && post.data_is_fetch == pre.data_is_fetch)
                &&& (cond && (pre.instruction_step == InstructionStep::STEP3 || pre.instruction_step == InstructionStep::STEP4) ==> res == Err::<(),
                    CpuError>(CpuError::InvalidInstructionStep) && post == pre
                    && req1 == req0)
            })
}

} // verus!
