//! Types of the bus interface between the core and the outside world: one
//! request leaves the core every clock edge and one response comes back.

use vstd::prelude::*;

verus! {

/// Size of the current transfer on the bus.
#[derive(Debug, PartialEq, Eq, Clone, Copy, Structural)]
pub enum TransferSize {
    BYTE,
    HALFWORD,
    WORD,
}

/// Kind of the next bus cycle, sent together with the current request: a new
/// address phase, a burst continuation, a cycle without bus access, or a
/// coprocessor cycle (never produced by this core).
#[derive(Debug, PartialEq, Eq, Clone, Copy, Structural)]
pub enum BusCycle {
    NONSEQUENTIAL,
    SEQUENTIAL,
    INTERNAL,
    COPROCESSOR,
}

/// Value of a one-bit bus signal.
#[derive(Debug, PartialEq, Eq, Clone, Copy, Structural)]
pub enum BusSignal {
    HIGH,
    LOW,
}

/// A request from the core towards the bus.
#[derive(Debug, PartialEq, Eq, Clone, Copy, Structural)]
pub struct MemoryRequest {
    /// Address of the transfer.
    pub address: u32,
    /// Write payload.
    pub data: u32,
    /// HIGH for a write, LOW for a read.
    pub nr_w: BusSignal,
    /// Size of the transfer.
    pub mas: TransferSize,
    /// LOW when the transfer fetches an opcode.
    pub n_opc: BusSignal,
    /// HIGH when the access is privileged.
    pub n_trans: BusSignal,
    /// HIGH while an atomic read-write pair is in progress.
    pub lock: BusSignal,
    /// HIGH while the core fetches compressed (halfword) instructions.
    pub t_bit: BusSignal,
    /// Kind of the next bus cycle.
    pub bus_cycle: BusCycle,
}

/// A response from the bus to a memory request.
#[derive(Debug, PartialEq, Eq, Clone, Copy, Structural)]
pub struct MemoryResponse {
    /// Read payload.
    pub data: u32,
    /// LOW while the bus is not ready and the core must stall.
    pub n_wait: BusSignal,
}

} // verus!
