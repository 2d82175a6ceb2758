//! The banked register file: 16 logical registers whose storage location
//! depends on the operating mode, the current status register, one saved
//! status register per privileged mode, flag accessors, and the 16-way
//! condition-code table.
//!
//! Banking layout: FIQ mode has private copies of r8-r14; SUPERVISOR, ABORT,
//! IRQ and UNDEFINED modes have private copies of r13-r14; every other slot is
//! shared with USER/SYSTEM. r15 (the program counter) is never banked.

use vstd::prelude::*;

use crate::arm7_tdmi::{MODE_ABORT, MODE_FIQ, MODE_IRQ, MODE_SUPERVISOR, MODE_SYSTEM, MODE_UND,
    MODE_USER, OperatingMode};
use crate::common::wadd;

verus! {

broadcast use crate::common::lemma_and_mask_bound_u32;

/// One of the four condition flags of the status register.
#[derive(Debug, PartialEq, Eq, Clone, Copy, Structural)]
pub enum ConditionCodeFlag {
    N,
    Z,
    C,
    V,
}

/// Mathematical model of the register file: the shared user bank, the five
/// private banks, the current status register and the saved status registers
/// (index 0 FIQ, 1 SUPERVISOR, 2 ABORT, 3 IRQ, 4 UNDEFINED).
pub ghost struct RegisterBanks {
    pub user: Seq<u32>,
    pub fiq: Seq<u32>,
    pub svc: Seq<u32>,
    pub abt: Seq<u32>,
    pub irq: Seq<u32>,
    pub und: Seq<u32>,
    pub cpsr: u32,
    pub spsr: Seq<u32>,
}

/// Whether `m` is the mode field encoding of one of the seven operating modes.
pub open spec fn valid_mode_bits(m: u32) -> bool {
    ||| m == MODE_SYSTEM
    ||| m == MODE_USER
    ||| m == MODE_FIQ
    ||| m == MODE_IRQ
    ||| m == MODE_SUPERVISOR
    ||| m == MODE_ABORT
    ||| m == MODE_UND
}

/// The mode field of a status register value.
pub open spec fn spec_mode_bits(cpsr: u32) -> u32 {
    cpsr & 0x1f
}

/// The banks have their expected sizes and the status register holds a valid
/// mode.
pub open spec fn banks_wf(b: RegisterBanks) -> bool {
    &&& b.user.len() == 16
    &&& b.fiq.len() == 7
    &&& b.svc.len() == 2
    &&& b.abt.len() == 2
    &&& b.irq.len() == 2
    &&& b.und.len() == 2
    &&& b.spsr.len() == 5
    &&& valid_mode_bits(spec_mode_bits(b.cpsr))
}

/// The register that a read of slot `index` observes under the current mode
/// of `b`, before any program-counter bias.
pub open spec fn spec_reg_read(b: RegisterBanks, index: u32) -> u32
    recommends
        index < 16,
{
    let mode = spec_mode_bits(b.cpsr);
    if index <= 7 {
        b.user[index as int]
    } else if index <= 12 {
        if mode == MODE_FIQ {
            b.fiq[index - 8]
        } else {
            b.user[index as int]
        }
    } else if index <= 14 {
        if mode == MODE_FIQ {
            b.fiq[index - 8]
        } else if mode == MODE_SUPERVISOR {
            b.svc[index - 13]
        } else if mode == MODE_ABORT {
            b.abt[index - 13]
        } else if mode == MODE_IRQ {
            b.irq[index - 13]
        } else if mode == MODE_UND {
            b.und[index - 13]
        } else {
            b.user[index as int]
        }
    } else {
        b.user[15]
    }
}

/// The banks after writing `value` to slot `index` under the current mode of
/// `b`: exactly the observed register changes, every other bank is untouched.
pub open spec fn spec_reg_write(b: RegisterBanks, index: u32, value: u32) -> RegisterBanks
    recommends
        index < 16,
{
    let mode = spec_mode_bits(b.cpsr);
    if index <= 7 {
        RegisterBanks { user: b.user.update(index as int, value), ..b }
    } else if index <= 12 {
        if mode == MODE_FIQ {
            RegisterBanks { fiq: b.fiq.update(index - 8, value), ..b }
        } else {
            RegisterBanks { user: b.user.update(index as int, value), ..b }
        }
    } else if index <= 14 {
        if mode == MODE_FIQ {
            RegisterBanks { fiq: b.fiq.update(index - 8, value), ..b }
        } else if mode == MODE_SUPERVISOR {
            RegisterBanks { svc: b.svc.update(index - 13, value), ..b }
        } else if mode == MODE_ABORT {
            RegisterBanks { abt: b.abt.update(index - 13, value), ..b }
        } else if mode == MODE_IRQ {
            RegisterBanks { irq: b.irq.update(index - 13, value), ..b }
        } else if mode == MODE_UND {
            RegisterBanks { und: b.und.update(index - 13, value), ..b }
        } else {
            RegisterBanks { user: b.user.update(index as int, value), ..b }
        }
    } else {
        RegisterBanks { user: b.user.update(15, value), ..b }
    }
}


/// A register read as an operand: slot 15 reads with the pipeline bias that
/// the caller is at, every other slot reads through the current bank.
pub open spec fn spec_reg_read_biased(b: RegisterBanks, index: u32, bias: u32) -> u32
    recommends
        index < 16,
{
    if index == 15 {
        crate::common::wadd(spec_reg_read(b, 15), bias)
    } else {
        spec_reg_read(b, index)
    }
}

/// Whether the current mode of `b` owns a saved status register.
pub open spec fn spec_has_spsr(b: RegisterBanks) -> bool {
    let mode = spec_mode_bits(b.cpsr);
    ||| mode == MODE_FIQ
    ||| mode == MODE_SUPERVISOR
    ||| mode == MODE_ABORT
    ||| mode == MODE_IRQ
    ||| mode == MODE_UND
}

/// Index of the saved status register bank of mode `mode`.
pub open spec fn spec_spsr_index(mode: u32) -> int {
    if mode == MODE_FIQ {
        0
    } else if mode == MODE_SUPERVISOR {
        1
    } else if mode == MODE_ABORT {
        2
    } else if mode == MODE_IRQ {
        3
    } else {
        4
    }
}

/// The saved status register observed under the current mode of `b`.
pub open spec fn spec_spsr_read(b: RegisterBanks) -> u32
    recommends
        spec_has_spsr(b),
{
    b.spsr[spec_spsr_index(spec_mode_bits(b.cpsr))]
}

/// Value of one condition flag in a status register value.
pub open spec fn spec_flag(cpsr: u32, flag: ConditionCodeFlag) -> bool {
    match flag {
        ConditionCodeFlag::N => (cpsr >> 31) & 1 == 1,
        ConditionCodeFlag::Z => (cpsr >> 30) & 1 == 1,
        ConditionCodeFlag::C => (cpsr >> 29) & 1 == 1,
        ConditionCodeFlag::V => (cpsr >> 28) & 1 == 1,
    }
}

/// The 16-way condition table over the flags of `cpsr`: EQ, NE, CS, CC, MI,
/// PL, VS, VC, HI, LS, GE, LT, GT, LE, AL, and the reserved value treated as
/// "always".
pub open spec fn spec_condition_passed(cpsr: u32, code: u32) -> bool {
    let n = spec_flag(cpsr, ConditionCodeFlag::N);
    let z = spec_flag(cpsr, ConditionCodeFlag::Z);
    let c = spec_flag(cpsr, ConditionCodeFlag::C);
    let v = spec_flag(cpsr, ConditionCodeFlag::V);
    let cc = code & 0xf;
    if cc == 0 {
        z
    } else if cc == 1 {
        !z
    } else if cc == 2 {
        c
    } else if cc == 3 {
        !c
    } else if cc == 4 {
        n
    } else if cc == 5 {
        !n
    } else if cc == 6 {
        v
    } else if cc == 7 {
        !v
    } else if cc == 8 {
        c && !z
    } else if cc == 9 {
        !c || z
    } else if cc == 10 {
        n == v
    } else if cc == 11 {
        n != v
    } else if cc == 12 {
        !z && (n == v)
    } else if cc == 13 {
        z || (n != v)
    } else {
        true
    }
}

/// The operating mode encoded by the mode field `bits`; anything that is not
/// one of the six specific encodings reads as SYSTEM.
pub open spec fn spec_mode_enum(bits: u32) -> OperatingMode {
    if bits == MODE_USER {
        OperatingMode::USER
    } else if bits == MODE_FIQ {
        OperatingMode::FIQ
    } else if bits == MODE_IRQ {
        OperatingMode::IRQ
    } else if bits == MODE_SUPERVISOR {
        OperatingMode::SUPERVISOR
    } else if bits == MODE_ABORT {
        OperatingMode::ABORT
    } else if bits == MODE_UND {
        OperatingMode::UND
    } else {
        OperatingMode::SYSTEM
    }
}

/// `b` with its mode field replaced by `m`.
pub open spec fn spec_with_mode(b: RegisterBanks, m: u32) -> RegisterBanks {
    RegisterBanks { cpsr: (b.cpsr & 0xffff_ffe0) | m, ..b }
}

/// Setting the mode field leaves exactly the mode field.
pub proof fn lemma_set_mode_bits(c: u32, m: u32)
    by (bit_vector)
    requires
        m <= 0x1f,
    ensures
        ((c & 0xffff_ffe0) | m) & 0x1f == m,
        ((c & 0xffff_ffc0) | m) & 0x1f == m,
{
}


/// Touching the compressed-mode bit (bit 5) leaves the mode field alone.
pub proof fn lemma_thumb_bit_keeps_mode(c: u32)
    by (bit_vector)
    ensures
        (c | 0x20u32) & 0x1f == c & 0x1f,
        (c & 0xffff_ffdfu32) & 0x1f == c & 0x1f,
{
}

/// Touching one flag bit of the status register leaves the mode field alone.
pub proof fn lemma_flag_write_keeps_mode(c: u32)
    by (bit_vector)
    ensures
        (c | 0x8000_0000) & 0x1f == c & 0x1f,
        (c & 0x7fff_ffff) & 0x1f == c & 0x1f,
        (c | 0x4000_0000) & 0x1f == c & 0x1f,
        (c & 0xbfff_ffff) & 0x1f == c & 0x1f,
        (c | 0x2000_0000) & 0x1f == c & 0x1f,
        (c & 0xdfff_ffff) & 0x1f == c & 0x1f,
        (c | 0x1000_0000) & 0x1f == c & 0x1f,
        (c & 0xefff_ffff) & 0x1f == c & 0x1f,
{
}



/// The status register after updating only the Z and N flags (multiply-class
/// instructions never touch carry or overflow).
pub open spec fn spec_cpsr_zn_updated(cpsr: u32, z: bool, n: bool) -> u32 {
    let c1 = if z { cpsr | 0x4000_0000u32 } else { cpsr & 0xbfff_ffffu32 };
    if n { c1 | 0x8000_0000u32 } else { c1 & 0x7fff_ffffu32 }
}

/// The status register after the flag update of an ALU operation: Z follows a
/// zero result, N follows bit 31, then C (and V for arithmetic opcodes) as the
/// operation dictates.
pub open spec fn spec_cpsr_flags_updated(cpsr: u32, alu_result: u32, is_logical: bool,
    carry_output: bool, carry_shifter: bool, v_output: bool) -> u32 {
    let c1 = if alu_result == 0 { cpsr | 0x4000_0000u32 } else { cpsr & 0xbfff_ffffu32 };
    let c2 = if (alu_result >> 31) & 1 == 1 { c1 | 0x8000_0000u32 } else { c1 & 0x7fff_ffffu32 };
    if is_logical {
        if carry_shifter { c2 | 0x2000_0000u32 } else { c2 & 0xdfff_ffffu32 }
    } else {
        let c3 = if carry_output { c2 | 0x2000_0000u32 } else { c2 & 0xdfff_ffffu32 };
        if v_output { c3 | 0x1000_0000u32 } else { c3 & 0xefff_ffffu32 }
    }
}

/// The register file as stored: the shared bank, the five private banks, the
/// status register and the saved status registers.
pub struct RegisterFile {
    registers: Vec<u32>,
    fiq_bank: Vec<u32>,
    svc_bank: Vec<u32>,
    abt_bank: Vec<u32>,
    irq_bank: Vec<u32>,
    und_bank: Vec<u32>,
    cpsr: u32,
    spsr: Vec<u32>,
}

impl View for RegisterFile {
    type V = RegisterBanks;

    closed spec fn view(&self) -> RegisterBanks {
        RegisterBanks {
            user: self.registers@,
            fiq: self.fiq_bank@,
            svc: self.svc_bank@,
            abt: self.abt_bank@,
            irq: self.irq_bank@,
            und: self.und_bank@,
            cpsr: self.cpsr,
            spsr: self.spsr@,
        }
    }
}

impl RegisterFile {
    /// Well-formedness of the stored register file.
    pub open spec fn wf(&self) -> bool {
        banks_wf(self@)
    }

    /// The model of a freshly reset register file: all registers zero but for
    /// the program counter, which holds the reset vector bias, and SYSTEM mode
    /// with no flags set.
    pub open spec fn spec_reset_banks() -> RegisterBanks {
        RegisterBanks {
            user: Seq::new(16, |i: int| if i == 15 { 0x07ff_fff8u32 } else { 0u32 }),
            fiq: Seq::new(7, |i: int| 0u32),
            svc: Seq::new(2, |i: int| 0u32),
            abt: Seq::new(2, |i: int| 0u32),
            irq: Seq::new(2, |i: int| 0u32),
            und: Seq::new(2, |i: int| 0u32),
            cpsr: MODE_SYSTEM,
            spsr: Seq::new(5, |i: int| 0u32),
        }
    }

    /// Create the reset register file.
    pub fn new() -> (r: RegisterFile)
        ensures
            r.wf(),
            r@ == Self::spec_reset_banks(),
    {
        let r = Self {
            registers: vec![0, 0, 0, 0, 0, 0, 0, 0, 0, 0, 0, 0, 0, 0, 0, 0x07ff_fff8],
            fiq_bank: vec![0, 0, 0, 0, 0, 0, 0],
            svc_bank: vec![0, 0],
            abt_bank: vec![0, 0],
            irq_bank: vec![0, 0],
            und_bank: vec![0, 0],
            cpsr: MODE_SYSTEM,
            spsr: vec![0, 0, 0, 0, 0],
        };
        proof {
            crate::common::lemma_mode_consts();
            assert(r@.user =~= Self::spec_reset_banks().user);
            assert(r@.fiq =~= Self::spec_reset_banks().fiq);
            assert(r@.svc =~= Self::spec_reset_banks().svc);
            assert(r@.abt =~= Self::spec_reset_banks().abt);
            assert(r@.irq =~= Self::spec_reset_banks().irq);
            assert(r@.und =~= Self::spec_reset_banks().und);
            assert(r@.spsr =~= Self::spec_reset_banks().spsr);
        }
        r
    }

    /// Read one of the 16 registers through the bank of the current mode.
    /// Reads of slot 15 return the stored program counter plus `pc_increment`,
    /// the pipeline bias of the caller.
    pub fn get_register(&self, index: u32, pc_increment: u32) -> (r: u32)
        requires
            self.wf(),
            index < 16,
        ensures
            index < 15 ==> r == spec_reg_read(self@, index),
            index == 15 ==> r == wadd(spec_reg_read(self@, 15), pc_increment),
    {
        let mode = self.cpsr & 0x1f;
        if index <= 7 {
            self.registers[index as usize]
        } else if index <= 12 {
            if mode == MODE_FIQ {
                self.fiq_bank[(index - 8) as usize]
            } else {
                self.registers[index as usize]
            }
        } else if index <= 14 {
            if mode == MODE_FIQ {
                self.fiq_bank[(index - 8) as usize]
            } else if mode == MODE_SUPERVISOR {
                self.svc_bank[(index - 13) as usize]
            } else if mode == MODE_ABORT {
                self.abt_bank[(index - 13) as usize]
            } else if mode == MODE_IRQ {
                self.irq_bank[(index - 13) as usize]
            } else if mode == MODE_UND {
                self.und_bank[(index - 13) as usize]
            } else {
                self.registers[index as usize]
            }
        } else {
            crate::common::wrapping_add_u32(self.registers[15], pc_increment)
        }
    }

    /// Read one of the 16 registers from the shared user bank, regardless of
    /// the current mode (the user-bank transfer of block data transfers).
    pub fn get_user_register(&self, index: u32, pc_increment: u32) -> (r: u32)
        requires
            self.wf(),
            index < 16,
        ensures
            index < 15 ==> r == self@.user[index as int],
            index == 15 ==> r == wadd(self@.user[15], pc_increment),
    {
        if index <= 14 {
            self.registers[index as usize]
        } else {
            crate::common::wrapping_add_u32(self.registers[15], pc_increment)
        }
    }

    /// Write one of the 16 registers through the bank of the current mode;
    /// slot 15 always hits the unbanked program counter.
    pub fn write_register(&mut self, index: u32, value: u32)
        requires
            old(self).wf(),
            index < 16,
        ensures
            final(self).wf(),
            final(self)@ == spec_reg_write(old(self)@, index, value),
    {
        let mode = self.cpsr & 0x1f;
        if index <= 7 {
            self.registers.set(index as usize, value);
        } else if index <= 12 {
            if mode == MODE_FIQ {
                self.fiq_bank.set((index - 8) as usize, value);
            } else {
                self.registers.set(index as usize, value);
            }
        } else if index <= 14 {
            if mode == MODE_FIQ {
                self.fiq_bank.set((index - 8) as usize, value);
            } else if mode == MODE_SUPERVISOR {
                self.svc_bank.set((index - 13) as usize, value);
            } else if mode == MODE_ABORT {
                self.abt_bank.set((index - 13) as usize, value);
            } else if mode == MODE_IRQ {
                self.irq_bank.set((index - 13) as usize, value);
            } else if mode == MODE_UND {
                self.und_bank.set((index - 13) as usize, value);
            } else {
                self.registers.set(index as usize, value);
            }
        } else {
            self.registers.set(15, value);
        }
    }

    /// Write one of the 16 registers into the shared user bank, regardless of
    /// the current mode.
    pub fn write_user_register(&mut self, index: u32, value: u32)
        requires
            old(self).wf(),
            index < 16,
        ensures
            final(self).wf(),
            final(self)@ == (RegisterBanks { user: old(self)@.user.update(index as int, value), ..old(self)@ }),
    {
        self.registers.set(index as usize, value);
    }

    /// Read the current status register.
    pub fn get_cpsr(&self) -> (r: u32)
        ensures
            r == self@.cpsr,
    {
        self.cpsr
    }

    /// Whether `value` carries a valid mode field.
    pub fn mode_field_valid(value: u32) -> (r: bool)
        ensures
            r == valid_mode_bits(spec_mode_bits(value)),
    {
        let m = value & 0x1f;
        m == MODE_SYSTEM || m == MODE_USER || m == MODE_FIQ || m == MODE_IRQ
            || m == MODE_SUPERVISOR || m == MODE_ABORT || m == MODE_UND
    }

    /// Replace the current status register. The write fails, leaving the file
    /// unchanged, exactly when the new value's mode field is not one of the
    /// seven valid encodings.
    pub fn write_cpsr(&mut self, value: u32) -> (res: Result<(), ()>)
        requires
            old(self).wf(),
        ensures
            final(self).wf(),
            valid_mode_bits(spec_mode_bits(value)) ==> res == Ok::<(), ()>(())
                && final(self)@ == (RegisterBanks { cpsr: value, ..old(self)@ }),
            !valid_mode_bits(spec_mode_bits(value)) ==> res == Err::<(), ()>(())
                && final(self)@ == old(self)@,
    {
        if !Self::mode_field_valid(value) {
            return Err(());
        }
        self.cpsr = value;
        Ok(())
    }

    /// Set or clear the V (overflow) flag, bit 28 of the status register.
    pub fn write_v(&mut self, v: bool)
        requires
            old(self).wf(),
        ensures
            final(self).wf(),
            final(self)@ == (RegisterBanks {
                cpsr: if v { old(self)@.cpsr | 0x1000_0000 } else { old(self)@.cpsr & 0xefff_ffff },
                ..old(self)@
            }),
    {
        proof {
            lemma_flag_write_keeps_mode(self.cpsr);
        }
        if v {
            self.cpsr = self.cpsr | 0x1000_0000;
        } else {
            self.cpsr = self.cpsr & 0xefff_ffff;
        }
    }

    /// Set or clear the N (negative) flag, bit 31 of the status register.
    pub fn write_n(&mut self, n: bool)
        requires
            old(self).wf(),
        ensures
            final(self).wf(),
            final(self)@ == (RegisterBanks {
                cpsr: if n { old(self)@.cpsr | 0x8000_0000 } else { old(self)@.cpsr & 0x7fff_ffff },
                ..old(self)@
            }),
    {
        proof {
            lemma_flag_write_keeps_mode(self.cpsr);
        }
        if n {
            self.cpsr = self.cpsr | 0x8000_0000;
        } else {
            self.cpsr = self.cpsr & 0x7fff_ffff;
        }
    }

    /// Set or clear the C (carry) flag, bit 29 of the status register.
    pub fn write_c(&mut self, c: bool)
        requires
            old(self).wf(),
        ensures
            final(self).wf(),
            final(self)@ == (RegisterBanks {
                cpsr: if c { old(self)@.cpsr | 0x2000_0000 } else { old(self)@.cpsr & 0xdfff_ffff },
                ..old(self)@
            }),
    {
        proof {
            lemma_flag_write_keeps_mode(self.cpsr);
        }
        if c {
            self.cpsr = self.cpsr | 0x2000_0000;
        } else {
            self.cpsr = self.cpsr & 0xdfff_ffff;
        }
    }

    /// Set or clear the Z (zero) flag, bit 30 of the status register.
    pub fn write_z(&mut self, z: bool)
        requires
            old(self).wf(),
        ensures
            final(self).wf(),
            final(self)@ == (RegisterBanks {
                cpsr: if z { old(self)@.cpsr | 0x4000_0000 } else { old(self)@.cpsr & 0xbfff_ffff },
                ..old(self)@
            }),
    {
        proof {
            lemma_flag_write_keeps_mode(self.cpsr);
        }
        if z {
            self.cpsr = self.cpsr | 0x4000_0000;
        } else {
            self.cpsr = self.cpsr & 0xbfff_ffff;
        }
    }

    /// Whether the current mode owns a saved status register.
    pub fn has_spsr(&self) -> (r: bool)
        ensures
            r == spec_has_spsr(self@),
    {
        let mode = self.cpsr & 0x1f;
        mode == MODE_FIQ || mode == MODE_SUPERVISOR || mode == MODE_ABORT || mode == MODE_IRQ
            || mode == MODE_UND
    }

    /// Read the saved status register of the current mode. USER and SYSTEM
    /// have none, so they are excluded.
    pub fn get_spsr(&self) -> (r: u32)
        requires
            self.wf(),
            spec_has_spsr(self@),
        ensures
            r == spec_spsr_read(self@),
    {
        let mode = self.cpsr & 0x1f;
        if mode == MODE_FIQ {
            self.spsr[0]
        } else if mode == MODE_SUPERVISOR {
            self.spsr[1]
        } else if mode == MODE_ABORT {
            self.spsr[2]
        } else if mode == MODE_IRQ {
            self.spsr[3]
        } else {
            self.spsr[4]
        }
    }

    /// Write the saved status register of the current mode. The write fails,
    /// changing nothing, exactly when `value` carries an invalid mode field;
    /// in USER and SYSTEM mode a valid write is accepted but has no effect.
    pub fn write_spsr(&mut self, value: u32) -> (res: Result<(), ()>)
        requires
            old(self).wf(),
        ensures
            final(self).wf(),
            !valid_mode_bits(spec_mode_bits(value)) ==> res == Err::<(), ()>(())
                && final(self)@ == old(self)@,
            valid_mode_bits(spec_mode_bits(value)) && spec_has_spsr(old(self)@)
                ==> res == Ok::<(), ()>(()) && final(self)@ == (RegisterBanks {
                    spsr: old(self)@.spsr.update(
                        spec_spsr_index(spec_mode_bits(old(self)@.cpsr)), value),
                    ..old(self)@
                }),
            valid_mode_bits(spec_mode_bits(value)) && !spec_has_spsr(old(self)@)
                ==> res == Ok::<(), ()>(()) && final(self)@ == old(self)@,
    {
        if !Self::mode_field_valid(value) {
            return Err(());
        }

        let mode = self.cpsr & 0x1f;
        if mode == MODE_FIQ {
            self.spsr.set(0, value);
        } else if mode == MODE_SUPERVISOR {
            self.spsr.set(1, value);
        } else if mode == MODE_ABORT {
            self.spsr.set(2, value);
        } else if mode == MODE_IRQ {
            self.spsr.set(3, value);
        } else if mode == MODE_UND {
            self.spsr.set(4, value);
        }

        Ok(())
    }

    /// Read one condition flag of the status register.
    pub fn is_flag_set(&self, flag: &ConditionCodeFlag) -> (r: bool)
        ensures
            r == spec_flag(self@.cpsr, *flag),
    {
        match flag {
            ConditionCodeFlag::N => (self.cpsr >> 31) & 1 == 1,
            ConditionCodeFlag::Z => (self.cpsr >> 30) & 1 == 1,
            ConditionCodeFlag::C => (self.cpsr >> 29) & 1 == 1,
            ConditionCodeFlag::V => (self.cpsr >> 28) & 1 == 1,
        }
    }

    /// Evaluate condition code `code` (only its low four bits matter) against
    /// the current flags, following the 16-way condition table.
    pub fn check_condition_code(&self, code: u32) -> (r: bool)
        ensures
            r == spec_condition_passed(self@.cpsr, code),
    {
        let cc = code & 0xf;
        if cc == 0 {
            self.is_flag_set(&ConditionCodeFlag::Z)
        } else if cc == 1 {
            !self.is_flag_set(&ConditionCodeFlag::Z)
        } else if cc == 2 {
            self.is_flag_set(&ConditionCodeFlag::C)
        } else if cc == 3 {
            !self.is_flag_set(&ConditionCodeFlag::C)
        } else if cc == 4 {
            self.is_flag_set(&ConditionCodeFlag::N)
        } else if cc == 5 {
            !self.is_flag_set(&ConditionCodeFlag::N)
        } else if cc == 6 {
            self.is_flag_set(&ConditionCodeFlag::V)
        } else if cc == 7 {
            !self.is_flag_set(&ConditionCodeFlag::V)
        } else if cc == 8 {
            self.is_flag_set(&ConditionCodeFlag::C) && !self.is_flag_set(&ConditionCodeFlag::Z)
        } else if cc == 9 {
            !self.is_flag_set(&ConditionCodeFlag::C) || self.is_flag_set(&ConditionCodeFlag::Z)
        } else if cc == 10 {
            self.is_flag_set(&ConditionCodeFlag::N) == self.is_flag_set(&ConditionCodeFlag::V)
        } else if cc == 11 {
            self.is_flag_set(&ConditionCodeFlag::N) != self.is_flag_set(&ConditionCodeFlag::V)
        } else if cc == 12 {
            !self.is_flag_set(&ConditionCodeFlag::Z)
                && (self.is_flag_set(&ConditionCodeFlag::N)
                    == self.is_flag_set(&ConditionCodeFlag::V))
        } else if cc == 13 {
            self.is_flag_set(&ConditionCodeFlag::Z)
                || (self.is_flag_set(&ConditionCodeFlag::N)
                    != self.is_flag_set(&ConditionCodeFlag::V))
        } else {
            true
        }
    }

    /// Whether the compressed-instruction (thumb) bit, bit 5 of the status
    /// register, is set.
    pub fn is_thumb_mode(&self) -> (r: bool)
        ensures
            r == ((self@.cpsr >> 5) & 1 == 1),
    {
        (self.cpsr >> 5) & 1 == 1
    }

    /// Decode the current operating mode from the status register.
    pub fn get_mode(&self) -> (r: OperatingMode)
        ensures
            r == spec_mode_enum(spec_mode_bits(self@.cpsr)),
    {
        let mode = self.cpsr & 0x1f;
        if mode == MODE_USER {
            OperatingMode::USER
        } else if mode == MODE_FIQ {
            OperatingMode::FIQ
        } else if mode == MODE_IRQ {
            OperatingMode::IRQ
        } else if mode == MODE_SUPERVISOR {
            OperatingMode::SUPERVISOR
        } else if mode == MODE_ABORT {
            OperatingMode::ABORT
        } else if mode == MODE_UND {
            OperatingMode::UND
        } else {
            OperatingMode::SYSTEM
        }
    }
}


/// Condition-code gating follows the documented truth table, for every flag
/// combination in `cpsr` and all 16 condition codes: EQ, NE, CS, CC, MI, PL,
/// VS, VC, HI, LS, GE, LT, GT, LE, AL, and the reserved value, which is
/// always true like AL.
pub proof fn lemma_condition_code_table(cpsr: u32)
    ensures
        spec_condition_passed(cpsr, 0) == spec_flag(cpsr, ConditionCodeFlag::Z),
        spec_condition_passed(cpsr, 1) == !spec_flag(cpsr, ConditionCodeFlag::Z),
        spec_condition_passed(cpsr, 2) == spec_flag(cpsr, ConditionCodeFlag::C),
        spec_condition_passed(cpsr, 3) == !spec_flag(cpsr, ConditionCodeFlag::C),
        spec_condition_passed(cpsr, 4) == spec_flag(cpsr, ConditionCodeFlag::N),
        spec_condition_passed(cpsr, 5) == !spec_flag(cpsr, ConditionCodeFlag::N),
        spec_condition_passed(cpsr, 6) == spec_flag(cpsr, ConditionCodeFlag::V),
        spec_condition_passed(cpsr, 7) == !spec_flag(cpsr, ConditionCodeFlag::V),
        spec_condition_passed(cpsr, 8) == (spec_flag(cpsr, ConditionCodeFlag::C) && !spec_flag(
            cpsr, ConditionCodeFlag::Z)),
        spec_condition_passed(cpsr, 9) == (!spec_flag(cpsr, ConditionCodeFlag::C) || spec_flag(
            cpsr, ConditionCodeFlag::Z)),
        spec_condition_passed(cpsr, 10) == (spec_flag(cpsr, ConditionCodeFlag::N) == spec_flag(
            cpsr, ConditionCodeFlag::V)),
        spec_condition_passed(cpsr, 11) == (spec_flag(cpsr, ConditionCodeFlag::N) != spec_flag(
            cpsr, ConditionCodeFlag::V)),
        spec_condition_passed(cpsr, 12) == (!spec_flag(cpsr, ConditionCodeFlag::Z) && (spec_flag(
            cpsr, ConditionCodeFlag::N) == spec_flag(cpsr, ConditionCodeFlag::V))),
        spec_condition_passed(cpsr, 13) == (spec_flag(cpsr, ConditionCodeFlag::Z) || (spec_flag(
            cpsr, ConditionCodeFlag::N) != spec_flag(cpsr, ConditionCodeFlag::V))),
        spec_condition_passed(cpsr, 14),
        spec_condition_passed(cpsr, 15),
{
    assert forall|code: u32| code <= 15 implies (code & 0xf) == code by {
        crate::common::lemma_low_nibble_identity(code);
    }
}

/// Banking round trip: a value written to r13 in SUPERVISOR mode is not
/// observed on r13 after switching to USER mode (the write went to the
/// private bank), while r0-r7 read unchanged across a switch to any mode.
pub proof fn lemma_banked_write_isolation(b: RegisterBanks, x: u32)
    requires
        banks_wf(b),
        spec_mode_bits(b.cpsr) == MODE_SUPERVISOR,
    ensures
        spec_reg_read(spec_with_mode(spec_reg_write(b, 13, x), MODE_USER), 13)
            == spec_reg_read(spec_with_mode(b, MODE_USER), 13),
        forall|m: u32, i: u32| valid_mode_bits(m) && i <= 7
            ==> spec_reg_read(spec_with_mode(spec_reg_write(b, 13, x), m), i)
                == spec_reg_read(b, i),
{
    lemma_set_mode_bits(b.cpsr, MODE_USER);
    assert forall|m: u32, i: u32| valid_mode_bits(m) && i <= 7
        implies spec_reg_read(spec_with_mode(spec_reg_write(b, 13, x), m), i)
            == spec_reg_read(b, i) by {
        lemma_set_mode_bits(b.cpsr, m);
    }
}

} // verus!
