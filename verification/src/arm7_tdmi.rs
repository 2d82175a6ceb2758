//! The processor core: CPU state, operating modes, the per-clock `step`
//! driver, and the instruction-class handlers in the child modules.

pub mod arm_instructions;
pub mod thumb_instructions;
pub mod instruction;
pub mod register_file;

use vstd::prelude::*;

verus! {

broadcast use crate::common::lemma_and_mask_bound_u32;

/// Encoding of a data-processing no-op, used to initialize the CPU.
pub const NOP: u32 = 0xE1A00000;

/// Encoding of a compressed-set no-op.
pub const NOP_THUMB: u32 = 0x000046c0;

/// Mode field encoding of SYSTEM mode (low five bits of the status register).
pub const MODE_SYSTEM: u32 = 0x1F;

/// Mode field encoding of USER mode.
pub const MODE_USER: u32 = 0x10;

/// Mode field encoding of FIQ mode.
pub const MODE_FIQ: u32 = 0x11;

/// Mode field encoding of IRQ mode.
pub const MODE_IRQ: u32 = 0x12;

/// Mode field encoding of SUPERVISOR mode.
pub const MODE_SUPERVISOR: u32 = 0x13;

/// Mode field encoding of ABORT mode.
pub const MODE_ABORT: u32 = 0x17;

/// Mode field encoding of UNDEFINED mode.
pub const MODE_UND: u32 = 0x1B;

/// The operating modes of the processor; the low five bits of the current
/// status register always hold the encoding of one of them.
#[derive(Debug, PartialEq, Eq, Clone, Copy, Structural)]
pub enum OperatingMode {
    SYSTEM,
    USER,
    FIQ,
    IRQ,
    SUPERVISOR,
    ABORT,
    UND,
}

/// The mode field encoding of an operating mode.
pub open spec fn spec_mode_value(m: OperatingMode) -> u32 {
    match m {
        OperatingMode::SYSTEM => MODE_SYSTEM,
        OperatingMode::USER => MODE_USER,
        OperatingMode::FIQ => MODE_FIQ,
        OperatingMode::IRQ => MODE_IRQ,
        OperatingMode::SUPERVISOR => MODE_SUPERVISOR,
        OperatingMode::ABORT => MODE_ABORT,
        OperatingMode::UND => MODE_UND,
    }
}

impl OperatingMode {
    /// The mode field encoding of this operating mode.
    pub fn value(&self) -> (r: u32)
        ensures
            r == spec_mode_value(*self),
    {
        match self {
            OperatingMode::SYSTEM => MODE_SYSTEM,
            OperatingMode::USER => MODE_USER,
            OperatingMode::FIQ => MODE_FIQ,
            OperatingMode::IRQ => MODE_IRQ,
            OperatingMode::SUPERVISOR => MODE_SUPERVISOR,
            OperatingMode::ABORT => MODE_ABORT,
            OperatingMode::UND => MODE_UND,
        }
    }
}

/// State of the per-instruction finite state machine: step 0 decodes and
/// computes, the later steps model bus and pipeline latency. A new instruction
/// is retired into execution only when the machine is back at step 0.
#[derive(Debug, PartialEq, Eq, Clone, Copy, Structural)]
pub enum InstructionStep {
    STEP0,
    STEP1,
    STEP2,
    STEP3,
    STEP4,
}

/// Fatal conditions: programmer or model errors on which emulation must stop,
/// since continuing would desynchronize all subsequent timing.
#[derive(Debug, PartialEq, Eq, Clone, Copy, Structural)]
pub enum CpuError {
    /// The current instruction class (coprocessor operations) is not modeled.
    UnimplementedInstruction,
    /// The current halfword is not a valid compressed-set instruction.
    InvalidThumbInstruction,
    /// A handler was invoked in a finite-state-machine step it does not define.
    InvalidInstructionStep,
    /// The program counter was used where the hardware forbids it.
    PcOperandForbidden,
    /// A saved status register was needed in a mode that has none.
    SpsrUnavailable,
    /// A status register write would have set an invalid mode field.
    InvalidModeWrite,
    /// An instruction retired while the prefetch queue was empty.
    EmptyPrefetchQueue,
    /// The operand pattern is reserved for another instruction.
    ReservedOperand,
}

impl CpuError {
    /// A short description of the fatal condition.
    pub fn message(&self) -> String {
        match self {
            CpuError::UnimplementedInstruction => "instruction class is not implemented".to_string(),
            CpuError::InvalidThumbInstruction => "invalid compressed-set instruction".to_string(),
            CpuError::InvalidInstructionStep => "handler reached an undefined step".to_string(),
            CpuError::PcOperandForbidden => "r15 cannot be used as this operand".to_string(),
            CpuError::SpsrUnavailable => "current mode has no saved status register".to_string(),
            CpuError::InvalidModeWrite => "status register write with invalid mode".to_string(),
            CpuError::EmptyPrefetchQueue => "instruction retired with empty prefetch queue".to_string(),
            CpuError::ReservedOperand => "operand pattern reserved for another instruction".to_string(),
        }
    }
}

/// The processor: register file, prefetch queue, the instruction in execution
/// and the state its finite state machine is in, plus the small memos that
/// later steps of an instruction reuse.
pub struct ARM7TDMI {
    /// Register file.
    pub rf: register_file::RegisterFile,
    /// Prefetched instruction words, oldest first.
    pub arm_instruction_queue: Vec<u32>,
    /// The instruction currently decoded and executed.
    pub arm_current_execute: u32,
    /// Current step of the in-flight instruction's state machine.
    pub instruction_step: InstructionStep,
    /// Whether the data arriving on the next clock edge is an opcode fetch.
    pub data_is_fetch: bool,
    /// The address sent on the bus in the previous cycle.
    pub last_used_address: u32,
    /// Remaining iterations of a variable-length operation.
    pub instruction_counter_step: u32,
    /// Planned (address, register) transfers of a block data transfer.
    pub list_transfer_op: Vec<(u32, u32)>,
}

impl ARM7TDMI {
    /// The prefetched instruction words, oldest first.
    pub open spec fn queue(&self) -> Seq<u32> {
        self.arm_instruction_queue@
    }

    /// Whether the data arriving on the next clock edge is an opcode fetch.
    pub open spec fn fetch_pending(&self) -> bool {
        self.data_is_fetch
    }

    /// The address sent on the bus in the previous cycle.
    pub open spec fn last_address(&self) -> u32 {
        self.last_used_address
    }

    /// Remaining iterations of a variable-length operation.
    pub open spec fn counter(&self) -> u32 {
        self.instruction_counter_step
    }

    /// Planned (address, register) transfers of a block data transfer.
    pub open spec fn transfer_list(&self) -> Seq<(u32, u32)> {
        self.list_transfer_op@
    }

    /// Well-formedness of the whole CPU state.
    pub open spec fn wf(&self) -> bool {
        self.rf.wf()
    }

    /// A fresh CPU: reset vector in the program counter, SYSTEM mode, zero
    /// flags, empty prefetch queue, a no-op in execution, state machine at
    /// step 0.
    pub fn new() -> (r: ARM7TDMI)
        ensures
            r.wf(),
            r.rf@ == register_file::RegisterFile::spec_reset_banks(),
            r.queue() == Seq::<u32>::empty(),
            r.arm_current_execute == NOP,
            r.instruction_step == InstructionStep::STEP0,
            r.fetch_pending(),
            r.last_address() == 0,
            r.counter() == 0,
            r.transfer_list() == Seq::<(u32, u32)>::empty(),
    {
        Self {
            rf: register_file::RegisterFile::new(),
            arm_instruction_queue: Vec::new(),
            arm_current_execute: NOP,
            data_is_fetch: true,
            instruction_step: InstructionStep::STEP0,
            last_used_address: 0,
            instruction_counter_step: 0,
            list_transfer_op: Vec::new(),
        }
    }
}



/// The intermediate state after the fetch-absorb phase of a clock edge: when a
/// fetch was pending, the word that just arrived (or, in the compressed state,
/// the halfword selected by bit 1 of the last bus address) joins the prefetch
/// queue, and the next response is again treated as a fetch; nothing else
/// moves.
pub open spec fn spec_fetch_absorbed(pre: ARM7TDMI, rsp: crate::bus::MemoryResponse,
    mid: ARM7TDMI) -> bool {
    let thumb = (pre.rf@.cpsr >> 5) & 1 == 1;
    let word = if !thumb {
        rsp.data
    } else if (pre.last_used_address >> 1) & 1 == 0 {
        rsp.data & 0xffff
    } else {
        rsp.data >> 16
    };
    &&& mid.rf == pre.rf
    &&& mid.arm_current_execute == pre.arm_current_execute
    &&& mid.instruction_step == pre.instruction_step
    &&& mid.data_is_fetch == true
    &&& mid.last_used_address == pre.last_used_address
    &&& mid.instruction_counter_step == pre.instruction_counter_step
    &&& mid.list_transfer_op == pre.list_transfer_op
    &&& (if pre.data_is_fetch {
        mid.arm_instruction_queue@ == pre.arm_instruction_queue@.push(word)
    } else {
        mid.arm_instruction_queue == pre.arm_instruction_queue
    })
}

/// The dispatch phase of a clock edge: the handler selected by the decoded
/// class of the current instruction transforms the state and the request
/// exactly as that handler's effect relation says; an unimplemented class
/// (the coprocessor ones) or an invalid compressed word stops emulation with
/// nothing changed.
pub open spec fn spec_dispatched(pre: ARM7TDMI, req0: crate::bus::MemoryRequest,
    rsp: crate::bus::MemoryResponse, post: ARM7TDMI, req1: crate::bus::MemoryRequest,
    res: Result<(), CpuError>) -> bool {
    let w = pre.arm_current_execute;
    if (pre.rf@.cpsr >> 5) & 1 == 0 {
        match instruction::spec_decode_arm(w) {
            instruction::ArmInstructionType::DataProcessing =>
                arm_instructions::spec_arm_data_processing_effect(pre, req0, post, req1, res),
            instruction::ArmInstructionType::BranchAndExchange =>
                arm_instructions::spec_arm_branch_and_exchange_effect(pre, req0, rsp, post, req1,
                res),
            instruction::ArmInstructionType::SingleDataTransfer =>
                arm_instructions::spec_arm_single_data_transfer_effect(pre, req0, rsp, post, req1,
                res),
            instruction::ArmInstructionType::Branch =>
                arm_instructions::spec_arm_branch_effect(pre, req0, post, req1, res),
            instruction::ArmInstructionType::HwTransfer =>
                arm_instructions::spec_arm_hw_transfer_effect(pre, req0, rsp, post, req1, res),
            instruction::ArmInstructionType::SoftwareInterrupt =>
                arm_instructions::spec_arm_swi_effect(pre, req0, post, req1, res),
            instruction::ArmInstructionType::Undefined =>
                arm_instructions::spec_arm_undefined_effect(pre, req0, post, req1, res),
            instruction::ArmInstructionType::PsrTransferMRS =>
                arm_instructions::spec_arm_psr_transfer_mrs_effect(pre, post, res) && req1 == req0,
            instruction::ArmInstructionType::PsrTransferMSR =>
                arm_instructions::spec_arm_psr_transfer_msr_effect(pre, post, res) && req1 == req0,
            instruction::ArmInstructionType::SingleDataSwap =>
                arm_instructions::spec_arm_single_data_swap_effect(pre, req0, rsp, post, req1,
                res),
            instruction::ArmInstructionType::BlockDataTransfer =>
                arm_instructions::spec_arm_block_data_transfer_effect(pre, req0, rsp, post, req1,
                res),
            instruction::ArmInstructionType::Multiply =>
                arm_instructions::spec_arm_multiply_effect(pre, req0, post, req1, res),
            _ => res == Err::<(), CpuError>(CpuError::UnimplementedInstruction) && post == pre
                && req1 == req0,
        }
    } else {
        match instruction::spec_decode_thumb(w) {
            Some(instruction::ThumbInstructionType::MoveShiftedRegister) =>
                thumb_instructions::spec_thumb_move_shifter_register_effect(pre, req0, post, req1,
                res),
            Some(instruction::ThumbInstructionType::AddSubtract) =>
                thumb_instructions::spec_thumb_add_subtract_effect(pre, req0, post, req1, res),
            Some(instruction::ThumbInstructionType::AluImmediate) =>
                thumb_instructions::spec_thumb_alu_immediate_effect(pre, req0, post, req1, res),
            Some(instruction::ThumbInstructionType::Alu) =>
                thumb_instructions::spec_thumb_alu_effect(pre, req0, post, req1, res),
            Some(instruction::ThumbInstructionType::HiRegisterBx) =>
                thumb_instructions::spec_thumb_hi_register_bx_effect(pre, req0, rsp, post, req1,
                res),
            Some(instruction::ThumbInstructionType::PcRelativeLoad) =>
                thumb_instructions::spec_thumb_pc_relative_load_effect(pre, req0, rsp, post, req1,
                res),
            Some(instruction::ThumbInstructionType::LoadStoreRegOffset) =>
                thumb_instructions::spec_thumb_load_store_reg_offset_effect(pre, req0, rsp, post,
                req1, res),
            Some(instruction::ThumbInstructionType::LoadStoreSignExt) =>
                thumb_instructions::spec_thumb_load_store_sign_ext_effect(pre, req0, rsp, post,
                req1, res),
            Some(instruction::ThumbInstructionType::LoadStoreImmOffset) =>
                thumb_instructions::spec_thumb_load_store_imm_offset_effect(pre, req0, rsp, post,
                req1, res),
            Some(instruction::ThumbInstructionType::LoadStoreHalfWord) =>
                thumb_instructions::spec_thumb_load_store_halfword_effect(pre, req0, rsp, post,
                req1, res),
            Some(instruction::ThumbInstructionType::SpRelativeLoadStore) =>
                thumb_instructions::spec_thumb_sp_relative_load_store_effect(pre, req0, rsp, post,
                req1, res),
            Some(instruction::ThumbInstructionType::LoadAddress) =>
                thumb_instructions::spec_thumb_load_address_effect(pre, req0, post, req1, res),
            Some(instruction::ThumbInstructionType::AddOffsetToSp) =>
                thumb_instructions::spec_thumb_add_offset_to_sp_effect(pre, req0, post, req1, res),
            Some(instruction::ThumbInstructionType::PushPopRegister) =>
                thumb_instructions::spec_thumb_push_pop_register_effect(pre, req0, rsp, post, req1,
                res),
            Some(instruction::ThumbInstructionType::MultipleLoadStore) =>
                thumb_instructions::spec_thumb_multiple_load_store_effect(pre, req0, rsp, post,
                req1, res),
            Some(instruction::ThumbInstructionType::ConditionalBranch) =>
                thumb_instructions::spec_thumb_branch_effect(pre, req0, true, post, req1, res),
            Some(instruction::ThumbInstructionType::SoftwareInterrupt) =>
                thumb_instructions::spec_thumb_software_interrupt_effect(pre, req0, post, req1,
                res),
            Some(instruction::ThumbInstructionType::UncoditionalBranch) =>
                thumb_instructions::spec_thumb_branch_effect(pre, req0, false, post, req1, res),
            Some(instruction::ThumbInstructionType::LongBranchWithLink) =>
                thumb_instructions::spec_thumb_long_branch_with_link_effect(pre, req0, post, req1,
                res),
            None => res == Err::<(), CpuError>(CpuError::InvalidThumbInstruction) && post == pre
                && req1 == req0,
        }
    }
}

/// The retirement phase of a clock edge: a handler fault stops the cycle with
/// the state as the handler left it; otherwise, when the state machine is back
/// at step 0, the oldest prefetched word becomes the current instruction and
/// the program counter advances by one fetch (four bytes, or two in the
/// compressed state), failing exactly when the queue is empty; in all cases
/// the address of the outgoing request is remembered for the next cycle.
pub open spec fn spec_retired(h: ARM7TDMI, hreq: crate::bus::MemoryRequest,
    hres: Result<(), CpuError>, fin: ARM7TDMI, res: Result<crate::bus::MemoryRequest, CpuError>)
    -> bool {
    match hres {
        Result::Err(e) => res == Err::<crate::bus::MemoryRequest, CpuError>(e) && fin == h,
        Result::Ok(()) => {
            if h.instruction_step == InstructionStep::STEP0 {
                if h.arm_instruction_queue@.len() == 0 {
                    res == Err::<crate::bus::MemoryRequest, CpuError>(
                        CpuError::EmptyPrefetchQueue) && fin == h
                } else {
                    &&& res == Ok::<crate::bus::MemoryRequest, CpuError>(hreq)
                    &&& fin.arm_current_execute == h.arm_instruction_queue@[0]
                    &&& fin.arm_instruction_queue@ == h.arm_instruction_queue@.remove(0)
                    &&& fin.rf@ == register_file::spec_reg_write(h.rf@, 15, crate::common::wadd(
                        register_file::spec_reg_read(h.rf@, 15), if (h.rf@.cpsr >> 5) & 1 == 0 {
                        4u32
                    } else {
                        2u32
                    }))
                    &&& fin.instruction_step == h.instruction_step
                    &&& fin.data_is_fetch == h.data_is_fetch
                    &&& fin.instruction_counter_step == h.instruction_counter_step
                    &&& fin.list_transfer_op == h.list_transfer_op
                    &&& fin.last_used_address == hreq.address
                }
            } else {
                &&& res == Ok::<crate::bus::MemoryRequest, CpuError>(hreq)
                &&& fin.rf == h.rf
                &&& fin.arm_current_execute == h.arm_current_execute
                &&& fin.arm_instruction_queue == h.arm_instruction_queue
                &&& fin.instruction_step == h.instruction_step
                &&& fin.data_is_fetch == h.data_is_fetch
                &&& fin.instruction_counter_step == h.instruction_counter_step
                &&& fin.list_transfer_op == h.list_transfer_op
                &&& fin.last_used_address == hreq.address
            }
        },
    }
}

/// The whole effect of one ready-bus clock edge: there is an intermediate
/// state after the fetch absorb, and a handler outcome from it under the
/// dispatched instruction class, such that retirement of that outcome yields
/// the final state and the returned request or fault.
pub open spec fn spec_step_effect(pre: ARM7TDMI, rsp: crate::bus::MemoryResponse, fin: ARM7TDMI,
    res: Result<crate::bus::MemoryRequest, CpuError>) -> bool {
    exists|mid: ARM7TDMI, h: ARM7TDMI, req0: crate::bus::MemoryRequest,
        hreq: crate::bus::MemoryRequest, hres: Result<(), CpuError>|
        {
            &&& req0 == spec_default_request(pre)
            &&& spec_fetch_absorbed(pre, rsp, mid)
            &&& #[trigger] spec_dispatched(mid, req0, rsp, h, hreq, hres)
            &&& spec_retired(h, hreq, hres, fin, res)
        }
}

/// The fetch request that every clock edge starts from: an opcode read at the
/// current fetch address (r15 plus the pipeline depth of the active
/// instruction width), sequential, privileged outside USER mode, with the
/// width and t-bit of the active instruction set. A handler overrides fields
/// of it when its instruction needs the bus.
pub open spec fn spec_default_request(s: ARM7TDMI) -> crate::bus::MemoryRequest {
    let b = s.rf@;
    let thumb = (b.cpsr >> 5) & 1 == 1;
    crate::bus::MemoryRequest {
        address: if thumb {
            crate::common::wadd(register_file::spec_reg_read(b, 15), 4)
        } else {
            crate::common::wadd(register_file::spec_reg_read(b, 15), 8)
        },
        nr_w: crate::bus::BusSignal::LOW,
        mas: if thumb {
            crate::bus::TransferSize::HALFWORD
        } else {
            crate::bus::TransferSize::WORD
        },
        n_opc: crate::bus::BusSignal::LOW,
        data: 0,
        n_trans: if register_file::spec_mode_enum(register_file::spec_mode_bits(b.cpsr))
            == OperatingMode::USER {
            crate::bus::BusSignal::LOW
        } else {
            crate::bus::BusSignal::HIGH
        },
        lock: crate::bus::BusSignal::LOW,
        t_bit: if thumb { crate::bus::BusSignal::HIGH } else { crate::bus::BusSignal::LOW },
        bus_cycle: crate::bus::BusCycle::SEQUENTIAL,
    }
}

impl ARM7TDMI {
    /// One clock edge: consume the bus response, dispatch the current
    /// instruction's handler for one step, retire the instruction when its
    /// state machine is back at step 0, and produce the next bus request.
    ///
    /// While the bus asserts wait the core stalls: the state is untouched and
    /// the returned request is exactly the default fetch request, structurally
    /// identical cycle after cycle. On a ready cycle the whole edge is pinned
    /// by `spec_step_effect`: the response word joins the prefetch queue when
    /// a fetch was pending, the state and request then change exactly as the
    /// effect relation of the decoded handler says, and retirement pops the
    /// queue into the current instruction and advances the program counter by
    /// one fetch.
    ///
    /// An `Err` is a fatal model condition (an unimplemented instruction
    /// class, a forbidden operand, an undefined state-machine step): emulation
    /// must stop, since continuing would desynchronize all timing.
    #[verifier::rlimit(100)]
    #[verifier::spinoff_prover]
    pub fn step(&mut self, rsp: crate::bus::MemoryResponse) -> (res: Result<
        crate::bus::MemoryRequest, CpuError>)
        requires
            old(self).wf(),
        ensures
            final(self).wf(),
            rsp.n_wait == crate::bus::BusSignal::LOW ==> *final(self) == *old(self) && res
                == Ok::<crate::bus::MemoryRequest, CpuError>(spec_default_request(*old(self))),
            rsp.n_wait != crate::bus::BusSignal::LOW && res is Ok ==> final(
                self).last_used_address == res->Ok_0.address,
            rsp.n_wait != crate::bus::BusSignal::LOW ==> spec_step_effect(*old(self), rsp, *final(
                self), res),
    {
        let thumb_mode_active = self.rf.is_thumb_mode();

        // The request to fetch the next instruction; a handler that needs the
        // bus overrides its fields.
        let mut next_request = crate::bus::MemoryRequest {
            address: if thumb_mode_active {
                self.rf.get_register(15, 4)
            } else {
                self.rf.get_register(15, 8)
            },
            nr_w: crate::bus::BusSignal::LOW,
            mas: if thumb_mode_active {
                crate::bus::TransferSize::HALFWORD
            } else {
                crate::bus::TransferSize::WORD
            },
            n_opc: crate::bus::BusSignal::LOW,
            data: 0,
            n_trans: if self.rf.get_mode() == OperatingMode::USER {
                crate::bus::BusSignal::LOW
            } else {
                crate::bus::BusSignal::HIGH
            },
            lock: crate::bus::BusSignal::LOW,
            t_bit: if thumb_mode_active {
                crate::bus::BusSignal::HIGH
            } else {
                crate::bus::BusSignal::LOW
            },
            bus_cycle: crate::bus::BusCycle::SEQUENTIAL,
        };

        let ghost initial_request = next_request;
        proof {
            assert(initial_request == spec_default_request(*old(self)));
        }

        // the bus is not ready: stall without losing or duplicating state
        if rsp.n_wait == crate::bus::BusSignal::LOW {
            return Ok(next_request);
        }

        // a fetch was in progress: queue the data that just arrived
        if self.data_is_fetch {
            if !thumb_mode_active {
                self.arm_instruction_queue.push(rsp.data);
            } else {
                if (self.last_used_address >> 1) & 1 == 0 {
                    self.arm_instruction_queue.push(rsp.data & 0xffff);
                } else {
                    self.arm_instruction_queue.push(rsp.data >> 16);
                }
            }
        }

        self.data_is_fetch = true;

        let ghost absorbed_state = *self;
        proof {
            assert(spec_fetch_absorbed(*old(self), rsp, absorbed_state));
        }

        let handler_result: Result<(), CpuError> = if !thumb_mode_active {
            match instruction::decode_arm(self.arm_current_execute) {
                instruction::ArmInstructionType::DataProcessing => {
                    let r = self.arm_data_processing(&mut next_request);
                    proof {
                        assert(spec_dispatched(absorbed_state, initial_request, rsp, *self,
                            next_request, r));
                    }
                    r
                },
                instruction::ArmInstructionType::BranchAndExchange => {
                    let r = self.arm_branch_and_exchange(&mut next_request, &rsp);
                    proof {
                        assert(spec_dispatched(absorbed_state, initial_request, rsp, *self,
                            next_request, r));
                    }
                    r
                },
                instruction::ArmInstructionType::SingleDataTransfer => {
                    let r = self.arm_single_data_transfer(&mut next_request, &rsp);
                    proof {
                        assert(spec_dispatched(absorbed_state, initial_request, rsp, *self,
                            next_request, r));
                    }
                    r
                },
                instruction::ArmInstructionType::Branch => {
                    let r = self.arm_branch(&mut next_request);
                    proof {
                        assert(spec_dispatched(absorbed_state, initial_request, rsp, *self,
                            next_request, r));
                    }
                    r
                },
                instruction::ArmInstructionType::HwTransfer => {
                    let r = self.arm_hw_transfer(&mut next_request, &rsp);
                    proof {
                        assert(spec_dispatched(absorbed_state, initial_request, rsp, *self,
                            next_request, r));
                    }
                    r
                },
                instruction::ArmInstructionType::SoftwareInterrupt => {
                    let r = self.arm_swi(&mut next_request);
                    proof {
                        assert(spec_dispatched(absorbed_state, initial_request, rsp, *self,
                            next_request, r));
                    }
                    r
                },
                instruction::ArmInstructionType::Undefined => {
                    let r = self.arm_undefined(&mut next_request);
                    proof {
                        assert(spec_dispatched(absorbed_state, initial_request, rsp, *self,
                            next_request, r));
                    }
                    r
                },
                instruction::ArmInstructionType::PsrTransferMRS => {
                    let r = self.arm_psr_transfer_mrs();
                    proof {
                        assert(spec_dispatched(absorbed_state, initial_request, rsp, *self,
                            next_request, r));
                    }
                    r
                },
                instruction::ArmInstructionType::PsrTransferMSR => {
                    let r = self.arm_psr_transfer_msr();
                    proof {
                        assert(spec_dispatched(absorbed_state, initial_request, rsp, *self,
                            next_request, r));
                    }
                    r
                },
                instruction::ArmInstructionType::SingleDataSwap => {
                    let r = self.arm_single_data_swap(&mut next_request, &rsp);
                    proof {
                        assert(spec_dispatched(absorbed_state, initial_request, rsp, *self,
                            next_request, r));
                    }
                    r
                },
                instruction::ArmInstructionType::BlockDataTransfer => {
                    let r = self.arm_block_data_transfer(&mut next_request, &rsp);
                    proof {
                        assert(spec_dispatched(absorbed_state, initial_request, rsp, *self,
                            next_request, r));
                    }
                    r
                },
                instruction::ArmInstructionType::Multiply => {
                    let r = self.arm_multiply(&mut next_request);
                    proof {
                        assert(spec_dispatched(absorbed_state, initial_request, rsp, *self,
                            next_request, r));
                    }
                    r
                },
                _ => {
                    proof {
                        assert(spec_dispatched(absorbed_state, initial_request, rsp, *self,
                            next_request, Err::<(), CpuError>(
                            CpuError::UnimplementedInstruction)));
                    }
                    Err(CpuError::UnimplementedInstruction)
                },
            }
        } else {
            match instruction::decode_thumb(self.arm_current_execute) {
                Some(instruction::ThumbInstructionType::MoveShiftedRegister) => {
                    let r = self.thumb_move_shifter_register(&mut next_request);
                    proof {
                        assert(spec_dispatched(absorbed_state, initial_request, rsp, *self,
                            next_request, r));
                    }
                    r
                },
                Some(instruction::ThumbInstructionType::AddSubtract) => {
                    let r = self.thumb_add_subtract(&mut next_request);
                    proof {
                        assert(spec_dispatched(absorbed_state, initial_request, rsp, *self,
                            next_request, r));
                    }
                    r
                },
                Some(instruction::ThumbInstructionType::AluImmediate) => {
                    let r = self.thumb_alu_immediate(&mut next_request);
                    proof {
                        assert(spec_dispatched(absorbed_state, initial_request, rsp, *self,
                            next_request, r));
                    }
                    r
                },
                Some(instruction::ThumbInstructionType::Alu) => {
                    let r = self.thumb_alu(&mut next_request);
                    proof {
                        assert(spec_dispatched(absorbed_state, initial_request, rsp, *self,
                            next_request, r));
                    }
                    r
                },
                Some(instruction::ThumbInstructionType::HiRegisterBx) => {
                    let r = self.thumb_hi_register_bx(&mut next_request, &rsp);
                    proof {
                        assert(spec_dispatched(absorbed_state, initial_request, rsp, *self,
                            next_request, r));
                    }
                    r
                },
                Some(instruction::ThumbInstructionType::PcRelativeLoad) => {
                    let r = self.thumb_pc_relative_load(&mut next_request, &rsp);
                    proof {
                        assert(spec_dispatched(absorbed_state, initial_request, rsp, *self,
                            next_request, r));
                    }
                    r
                },
                Some(instruction::ThumbInstructionType::LoadStoreRegOffset) => {
                    let r = self.thumb_load_store_reg_offset(&mut next_request, &rsp);
                    proof {
                        assert(spec_dispatched(absorbed_state, initial_request, rsp, *self,
                            next_request, r));
                    }
                    r
                },
                Some(instruction::ThumbInstructionType::LoadStoreSignExt) => {
                    let r = self.thumb_load_store_sign_ext(&mut next_request, &rsp);
                    proof {
                        assert(spec_dispatched(absorbed_state, initial_request, rsp, *self,
                            next_request, r));
                    }
                    r
                },
                Some(instruction::ThumbInstructionType::LoadStoreImmOffset) => {
                    let r = self.thumb_load_store_imm_offset(&mut next_request, &rsp);
                    proof {
                        assert(spec_dispatched(absorbed_state, initial_request, rsp, *self,
                            next_request, r));
                    }
                    r
                },
                Some(instruction::ThumbInstructionType::LoadStoreHalfWord) => {
                    let r = self.thumb_load_store_halfword(&mut next_request, &rsp);
                    proof {
                        assert(spec_dispatched(absorbed_state, initial_request, rsp, *self,
                            next_request, r));
                    }
                    r
                },
                Some(instruction::ThumbInstructionType::SpRelativeLoadStore) => {
                    let r = self.thumb_sp_relative_load_store(&mut next_request, &rsp);
                    proof {
                        assert(spec_dispatched(absorbed_state, initial_request, rsp, *self,
                            next_request, r));
                    }
                    r
                },
                Some(instruction::ThumbInstructionType::LoadAddress) => {
                    let r = self.thumb_load_address(&mut next_request);
                    proof {
                        assert(spec_dispatched(absorbed_state, initial_request, rsp, *self,
                            next_request, r));
                    }
                    r
                },
                Some(instruction::ThumbInstructionType::AddOffsetToSp) => {
                    let r = self.thumb_add_offset_to_sp(&mut next_request);
                    proof {
                        assert(spec_dispatched(absorbed_state, initial_request, rsp, *self,
                            next_request, r));
                    }
                    r
                },
                Some(instruction::ThumbInstructionType::PushPopRegister) => {
                    let r = self.thumb_push_pop_register(&mut next_request, &rsp);
                    proof {
                        assert(spec_dispatched(absorbed_state, initial_request, rsp, *self,
                            next_request, r));
                    }
                    r
                },
                Some(instruction::ThumbInstructionType::MultipleLoadStore) => {
                    let r = self.thumb_multiple_load_store(&mut next_request, &rsp);
                    proof {
                        assert(spec_dispatched(absorbed_state, initial_request, rsp, *self,
                            next_request, r));
                    }
                    r
                },
                Some(instruction::ThumbInstructionType::ConditionalBranch) => {
                    let r = self.thumb_branch(&mut next_request, true);
                    proof {
                        assert(spec_dispatched(absorbed_state, initial_request, rsp, *self,
                            next_request, r));
                    }
                    r
                },
                Some(instruction::ThumbInstructionType::SoftwareInterrupt) => {
                    let r = self.thumb_software_interrupt(&mut next_request);
                    proof {
                        assert(spec_dispatched(absorbed_state, initial_request, rsp, *self,
                            next_request, r));
                    }
                    r
                },
                Some(instruction::ThumbInstructionType::UncoditionalBranch) => {
                    let r = self.thumb_branch(&mut next_request, false);
                    proof {
                        assert(spec_dispatched(absorbed_state, initial_request, rsp, *self,
                            next_request, r));
                    }
                    r
                },
                Some(instruction::ThumbInstructionType::LongBranchWithLink) => {
                    let r = self.thumb_long_branch_with_link(&mut next_request);
                    proof {
                        assert(spec_dispatched(absorbed_state, initial_request, rsp, *self,
                            next_request, r));
                    }
                    r
                },
                None => {
                    proof {
                        assert(spec_dispatched(absorbed_state, initial_request, rsp, *self,
                            next_request, Err::<(), CpuError>(
                            CpuError::InvalidThumbInstruction)));
                    }
                    Err(CpuError::InvalidThumbInstruction)
                },
            }
        };
        let ghost handler_state = *self;
        let ghost handler_request = next_request;
        match handler_result {
            Ok(()) => {},
            Err(e) => {
                proof {
                    assert(spec_retired(handler_state, handler_request, handler_result, *self,
                        Err::<crate::bus::MemoryRequest, CpuError>(e)));
                }
                return Err(e);
            },
        }

        // The in-flight instruction is done: retire it, pop the next one from
        // the prefetch queue and advance the program counter by one fetch.
        if self.instruction_step == InstructionStep::STEP0 {
            if self.arm_instruction_queue.len() == 0 {
                proof {
                    assert(spec_retired(handler_state, handler_request, handler_result, *self,
                        Err::<crate::bus::MemoryRequest, CpuError>(
                        CpuError::EmptyPrefetchQueue)));
                }
                return Err(CpuError::EmptyPrefetchQueue);
            }
            self.arm_current_execute = self.arm_instruction_queue.remove(0);

            let cpsr = self.rf.get_cpsr();
            if (cpsr >> 5) & 1 == 0 {
                let pc = self.rf.get_register(15, 4);
                self.rf.write_register(15, pc);
            } else {
                let pc = self.rf.get_register(15, 2);
                self.rf.write_register(15, pc);
            }
        }

        // remember the address of this bus transaction; several instructions
        // reuse it in a later step
        self.last_used_address = next_request.address;
        proof {
            assert(spec_retired(handler_state, handler_request, handler_result, *self, Ok::<
                crate::bus::MemoryRequest, CpuError>(next_request)));
        }
        Ok(next_request)
    }
}

} // verus!
