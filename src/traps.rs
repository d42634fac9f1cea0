use vstd::prelude::*;
use crate::config::{BREAKPOINT_VECTOR, DOUBLE_FAULT_IST_INDEX, DOUBLE_FAULT_VECTOR, IST_SLOTS, TRAP_VECTORS};

verus! {

/// One entry of the trap-vector table.
#[derive(Clone, Copy, Debug, PartialEq, Eq, Structural)]
pub struct GateEntry {
    /// Entry-point address of the handler.
    pub handler: u64,
    /// Whether the CPU may vector through this entry.
    pub present: bool,
    /// Interrupt-stack-table slot to switch to, or `None` to stay on the current stack.
    pub stack_index: Option<u16>,
}

/// The entry every vector starts with: not present, no handler, no stack switch.
pub open spec fn absent_gate() -> GateEntry {
    GateEntry { handler: 0, present: false, stack_index: None }
}

/// Entry-point addresses of the two handler routines.
#[derive(Clone, Copy, Debug, PartialEq, Eq, Structural)]
pub struct HandlerAddrs {
    pub breakpoint: u64,
    pub double_fault: u64,
}

/// The entry that the kernel's table holds for `vector`: the breakpoint handler
/// on the current stack, the double-fault handler on the dedicated stack, and
/// nothing for any other vector.
pub open spec fn trap_gate(h: HandlerAddrs, vector: int) -> GateEntry {
    if vector == BREAKPOINT_VECTOR {
        GateEntry { handler: h.breakpoint, present: true, stack_index: None }
    } else if vector == DOUBLE_FAULT_VECTOR {
        GateEntry {
            handler: h.double_fault,
            present: true,
            stack_index: Some(DOUBLE_FAULT_IST_INDEX),
        }
    } else {
        absent_gate()
    }
}

/// The kernel's trap table for the handler addresses `h`.
pub open spec fn kernel_trap_table(h: HandlerAddrs) -> Seq<GateEntry> {
    Seq::new(TRAP_VECTORS as nat, |i: int| trap_gate(h, i))
}

/// The trap-vector table: one entry per vector, 256 in all.
#[derive(Debug)]
pub struct TrapTable {
    entries: Vec<GateEntry>,
}

impl View for TrapTable {
    type V = Seq<GateEntry>;

    closed spec fn view(&self) -> Seq<GateEntry> {
        self.entries@
    }
}

impl TrapTable {
    /// The table has one entry per vector.
    pub open spec fn wf(&self) -> bool {
        self@.len() == TRAP_VECTORS
    }

    /// A table with every entry absent.
    pub fn new() -> (r: TrapTable)
        ensures
            r@ == Seq::new(TRAP_VECTORS as nat, |i: int| absent_gate()),
            r.wf(),
    {
        let mut entries: Vec<GateEntry> = Vec::new();
        let mut i: usize = 0;
        while i < TRAP_VECTORS
            invariant
                i <= TRAP_VECTORS,
                entries@ == Seq::new(i as nat, |j: int| absent_gate()),
            decreases TRAP_VECTORS - i,
        {
            entries.push(GateEntry { handler: 0, present: false, stack_index: None });
            i = i + 1;
            assert(entries@ =~= Seq::new(i as nat, |j: int| absent_gate()));
        }
        TrapTable { entries }
    }

    /// The entry for `vector`.
    pub fn entry(&self, vector: u8) -> (r: GateEntry)
        requires
            self.wf(),
        ensures
            r == self@[vector as int],
    {
        self.entries[vector as usize]
    }

    /// Points `vector` at `handler` and marks it present; its stack choice is kept.
    pub fn set_handler(&mut self, vector: u8, handler: u64)
        requires
            old(self).wf(),
        ensures
            final(self)@ == old(self)@.update(
                vector as int,
                GateEntry {
                    handler,
                    present: true,
                    stack_index: old(self)@[vector as int].stack_index,
                },
            ),
    {
        let old_entry = self.entries[vector as usize];
        self.entries.set(
            vector as usize,
            GateEntry { handler, present: true, stack_index: old_entry.stack_index },
        );
    }

    /// Makes the CPU switch to interrupt-stack-table slot `index` on `vector`.
    pub fn set_stack_index(&mut self, vector: u8, index: u16)
        requires
            old(self).wf(),
            index < IST_SLOTS,
        ensures
            final(self)@ == old(self)@.update(
                vector as int,
                GateEntry { stack_index: Some(index), ..old(self)@[vector as int] },
            ),
    {
        let old_entry = self.entries[vector as usize];
        self.entries.set(vector as usize, GateEntry { stack_index: Some(index), ..old_entry });
    }
}

/// Builds the kernel's trap table: the breakpoint handler on the current stack,
/// the double-fault handler on the stack registered at `DOUBLE_FAULT_IST_INDEX`.
pub fn build_trap_table(h: HandlerAddrs) -> (r: TrapTable)
    ensures
        r@ == kernel_trap_table(h),
        r.wf(),
{
    let mut table = TrapTable::new();
    table.set_handler(BREAKPOINT_VECTOR, h.breakpoint);
    table.set_handler(DOUBLE_FAULT_VECTOR, h.double_fault);
    table.set_stack_index(DOUBLE_FAULT_VECTOR, DOUBLE_FAULT_IST_INDEX);
    assert(table@ =~= kernel_trap_table(h));
    table
}

} // verus!
