use vstd::prelude::*;
use crate::config::{DOUBLE_FAULT_IST_INDEX, DOUBLE_FAULT_VECTOR, IST_SLOTS};
use crate::segments::{configure, stack_error, CODE_SEGMENT_INDEX, TSS_SEGMENT_INDEX, stack_region_ok, SegmentSetup, StackError, StackRegion};
use crate::traps::{build_trap_table, kernel_trap_table, GateEntry, HandlerAddrs, TrapTable};

verus! {

/// The interrupt stack table that the segment setup installs for `region`.
pub open spec fn ist_for(region: StackRegion) -> Seq<u64> {
    Seq::new(
        IST_SLOTS as nat,
        |i: int| if i == DOUBLE_FAULT_IST_INDEX { region.end() as u64 } else { 0u64 },
    )
}

/// The state of the machine as far as trap delivery is concerned.
pub struct KernelView {
    pub handlers: HandlerAddrs,
    pub alt_stack: StackRegion,
    /// Interrupt stack table of the loaded task state, once the segments are set up.
    pub ist: Option<Seq<u64>>,
    /// The trap table, once it has been built.
    pub table: Option<Seq<GateEntry>>,
    /// Whether the CPU's trap-table register points at that table.
    pub table_loaded: bool,
}

/// Bring-up state of the kernel: the segment setup, the lazily built trap table
/// and whether it is loaded.
pub struct Kernel {
    handlers: HandlerAddrs,
    alt_stack: StackRegion,
    segments: Option<SegmentSetup>,
    table: Option<TrapTable>,
    table_loaded: bool,
}

impl View for Kernel {
    type V = KernelView;

    closed spec fn view(&self) -> KernelView {
        KernelView {
            handlers: self.handlers,
            alt_stack: self.alt_stack,
            ist: match self.segments {
                Some(s) => Some(s.task_state.interrupt_stack_table@),
                None => None,
            },
            table: match self.table {
                Some(t) => Some(t@),
                None => None,
            },
            table_loaded: self.table_loaded,
        }
    }
}

/// A kernel before any bring-up step.
pub open spec fn initial(handlers: HandlerAddrs, alt_stack: StackRegion) -> KernelView {
    KernelView { handlers, alt_stack, ist: None, table: None, table_loaded: false }
}

impl KernelView {
    /// What every reachable state holds: a built table is the kernel's table, an
    /// installed stack table is the one for the alternate stack (which is a valid
    /// stack), and only a built table can be loaded.
    pub open spec fn valid(self) -> bool {
        &&& (self.table matches Some(t) ==> t == kernel_trap_table(self.handlers))
        &&& (self.ist matches Some(ist) ==> ist == ist_for(self.alt_stack) && stack_region_ok(
            self.alt_stack,
        ))
        &&& (self.table_loaded ==> self.table is Some)
    }
}

/// The segment-setup step: done once; a region that cannot be a stack changes nothing.
pub open spec fn configure_step(v: KernelView) -> KernelView {
    if v.ist is Some || !stack_region_ok(v.alt_stack) {
        v
    } else {
        KernelView { ist: Some(ist_for(v.alt_stack)), ..v }
    }
}

/// The table-load step: build the table on first use, then load it.
pub open spec fn load_step(v: KernelView) -> KernelView {
    KernelView {
        table: Some(
            match v.table {
                Some(t) => t,
                None => kernel_trap_table(v.handlers),
            },
        ),
        table_loaded: true,
        ..v
    }
}

/// A step of the startup sequence.
#[derive(Clone, Copy, Debug, PartialEq, Eq, Structural)]
pub enum StartupStep {
    ConfigureSegments,
    LoadTrapTable,
}

pub open spec fn apply_step(v: KernelView, s: StartupStep) -> KernelView {
    match s {
        StartupStep::ConfigureSegments => configure_step(v),
        StartupStep::LoadTrapTable => load_step(v),
    }
}

/// The state after running `steps` in order from `v`.
pub open spec fn run(v: KernelView, steps: Seq<StartupStep>) -> KernelView
    decreases steps.len(),
{
    if steps.len() == 0 {
        v
    } else {
        apply_step(run(v, steps.drop_last()), steps.last())
    }
}

/// Where the CPU ends up when a trap is delivered.
#[derive(Clone, Copy, Debug, PartialEq, Eq, Structural)]
pub enum Delivery {
    /// The handler of `vector` runs at `address` with the stack pointer at `stack_pointer`.
    Handler { vector: u8, address: u64, stack_pointer: u64 },
    /// No handler could be reached: the CPU resets.
    TripleFault,
}

/// The handler address and stack that the CPU reaches through the entry of
/// `vector`, if any. `stack_usable` tells whether the current stack can take the
/// trap frame (it cannot after the primary stack overflowed).
pub open spec fn gate_target(v: KernelView, vector: u8, stack_usable: bool, sp: u64) -> Option<
    (u64, u64),
> {
    if !v.table_loaded || v.table is None {
        None
    } else {
        let e = v.table.unwrap()[vector as int];
        if !e.present {
            None
        } else {
            match e.stack_index {
                Some(i) => match v.ist {
                    Some(ist) => if i < IST_SLOTS && ist[i as int] != 0 {
                        Some((e.handler, ist[i as int]))
                    } else {
                        None
                    },
                    None => None,
                },
                None => if stack_usable {
                    Some((e.handler, sp))
                } else {
                    None
                },
            }
        }
    }
}

/// Trap delivery: a trap that cannot reach its handler becomes a double fault,
/// and a double fault that cannot reach its handler resets the machine.
pub open spec fn deliver_spec(v: KernelView, vector: u8, stack_usable: bool, sp: u64) -> Delivery {
    match gate_target(v, vector, stack_usable, sp) {
        Some((a, p)) => Delivery::Handler { vector, address: a, stack_pointer: p },
        None => if vector == DOUBLE_FAULT_VECTOR {
            Delivery::TripleFault
        } else {
            match gate_target(v, DOUBLE_FAULT_VECTOR, stack_usable, sp) {
                Some((a, p)) => Delivery::Handler {
                    vector: DOUBLE_FAULT_VECTOR,
                    address: a,
                    stack_pointer: p,
                },
                None => Delivery::TripleFault,
            }
        },
    }
}

impl Kernel {
    pub closed spec fn wf(&self) -> bool {
        &&& self@.valid()
        &&& (self.table matches Some(t) ==> t.wf())
        &&& (self.segments matches Some(s) ==> s.selectors.code_selector == CODE_SEGMENT_INDEX * 8
            && s.selectors.tss_selector == TSS_SEGMENT_INDEX * 8)
    }

    /// A kernel that will take its double-fault stack from `alt_stack`.
    pub fn new(handlers: HandlerAddrs, alt_stack: StackRegion) -> (r: Kernel)
        ensures
            r@ == initial(handlers, alt_stack),
            r.wf(),
    {
        Kernel { handlers, alt_stack, segments: None, table: None, table_loaded: false }
    }

    /// Sets up the task state and segment table once; later calls keep the first setup.
    pub fn configure_segments(&mut self) -> (r: Result<(), StackError>)
        requires
            old(self).wf(),
        ensures
            final(self).wf(),
            final(self)@ == configure_step(old(self)@),
            r is Ok <==> stack_region_ok(old(self)@.alt_stack) || old(self)@.ist is Some,
            r matches Err(e) ==> stack_error(old(self)@.alt_stack) == Some(e),
    {
        if self.segments.is_some() {
            return Ok(());
        }
        match configure(self.alt_stack) {
            Ok(s) => {
                assert(s.task_state.interrupt_stack_table@ =~= ist_for(self.alt_stack));
                self.segments = Some(s);
                Ok(())
            },
            Err(e) => Err(e),
        }
    }

    /// A well-formed kernel's state is valid: its table, if built, is the
    /// kernel's table, and its stack table, if installed, is the alternate one.
    pub proof fn lemma_valid(&self)
        requires
            self.wf(),
        ensures
            self@.valid(),
    {
    }

    /// The loaded segment setup, for the code that programs the hardware.
    pub fn segment_setup(&self) -> (r: Option<SegmentSetup>)
        requires
            self.wf(),
        ensures
            r is Some <==> self@.ist is Some,
            r matches Some(s) ==> Some(s.task_state.interrupt_stack_table@) == self@.ist
                && s.selectors.code_selector == CODE_SEGMENT_INDEX * 8
                && s.selectors.tss_selector == TSS_SEGMENT_INDEX * 8,
    {
        self.segments
    }

    /// The entry for `vector` of the loaded trap table, if one is loaded.
    pub fn loaded_entry(&self, vector: u8) -> (r: Option<GateEntry>)
        requires
            self.wf(),
        ensures
            r == (if self@.table_loaded && self@.table is Some {
                Some(self@.table.unwrap()[vector as int])
            } else {
                None::<GateEntry>
            }),
    {
        if !self.table_loaded {
            return None;
        }
        match &self.table {
            Some(t) => Some(t.entry(vector)),
            None => None,
        }
    }

    fn target(&self, vector: u8, stack_usable: bool, sp: u64) -> (r: Option<(u64, u64)>)
        requires
            self.wf(),
        ensures
            r == gate_target(self@, vector, stack_usable, sp),
    {
        let e = match self.loaded_entry(vector) {
            Some(e) => e,
            None => return None,
        };
        if !e.present {
            return None;
        }
        match e.stack_index {
            Some(i) => match &self.segments {
                Some(s) => {
                    if (i as usize) < IST_SLOTS {
                        let top = s.task_state.interrupt_stack_table[i as usize];
                        if top != 0 {
                            Some((e.handler, top))
                        } else {
                            None
                        }
                    } else {
                        None
                    }
                },
                None => None,
            },
            None => if stack_usable {
                Some((e.handler, sp))
            } else {
                None
            },
        }
    }

    /// Where the CPU goes when trap `vector` is raised with the stack pointer at
    /// `sp`; `stack_usable` is false when that stack cannot take the trap frame.
    pub fn deliver(&self, vector: u8, stack_usable: bool, sp: u64) -> (r: Delivery)
        requires
            self.wf(),
        ensures
            r == deliver_spec(self@, vector, stack_usable, sp),
    {
        match self.target(vector, stack_usable, sp) {
            Some((a, p)) => Delivery::Handler { vector, address: a, stack_pointer: p },
            None => if vector == DOUBLE_FAULT_VECTOR {
                Delivery::TripleFault
            } else {
                match self.target(DOUBLE_FAULT_VECTOR, stack_usable, sp) {
                    Some((a, p)) => Delivery::Handler {
                        vector: DOUBLE_FAULT_VECTOR,
                        address: a,
                        stack_pointer: p,
                    },
                    None => Delivery::TripleFault,
                }
            },
        }
    }
}

/// Builds the trap table on first use and loads it into the CPU's trap-table
/// register. The table is built exactly once: later calls load the same table.
pub fn init_idt(kernel: &mut Kernel)
    requires
        old(kernel).wf(),
    ensures
        final(kernel).wf(),
        final(kernel)@ == load_step(old(kernel)@),
{
    if kernel.table.is_none() {
        kernel.table = Some(build_trap_table(kernel.handlers));
    }
    kernel.table_loaded = true;
}

} // verus!
