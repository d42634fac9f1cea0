use vstd::prelude::*;

verus! {

/// Slot of the task-state segment's interrupt stack table that holds the
/// double-fault stack. The trap table and the segment setup both read this one
/// constant, so the two can never disagree.
pub const DOUBLE_FAULT_IST_INDEX: u16 = 0;

/// Number of slots in the interrupt stack table.
pub const IST_SLOTS: usize = 7;

/// Number of entries in the trap-vector table.
pub const TRAP_VECTORS: usize = 256;

/// Vector of the breakpoint exception (`int3`).
pub const BREAKPOINT_VECTOR: u8 = 3;

/// Vector of the double-fault exception.
pub const DOUBLE_FAULT_VECTOR: u8 = 8;

/// Size in bytes of the dedicated double-fault stack.
pub const DOUBLE_FAULT_STACK_SIZE: u64 = 4096 * 5;

/// I/O port of the first serial interface.
pub const SERIAL_PORT_BASE: u16 = 0x3F8;

/// I/O port of the emulator's debug-exit device.
pub const DEBUG_EXIT_PORT: u16 = 0xf4;

} // verus!
