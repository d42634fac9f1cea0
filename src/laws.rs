use vstd::prelude::*;
use crate::config::{BREAKPOINT_VECTOR, DOUBLE_FAULT_VECTOR};
use crate::segments::{stack_region_ok, StackRegion};
use crate::startup::{
    deliver_spec, initial, ist_for, load_step, run, Delivery, KernelView, StartupStep,
};
use crate::traps::{kernel_trap_table, HandlerAddrs};

verus! {

/// Whether one of the first `n` steps sets up the segments.
pub open spec fn configured_in(steps: Seq<StartupStep>, n: int) -> bool {
    exists|i: int| 0 <= i < n && steps[i] == StartupStep::ConfigureSegments
}

/// Whether one of the first `n` steps loads the trap table.
pub open spec fn loaded_in(steps: Seq<StartupStep>, n: int) -> bool {
    exists|i: int| 0 <= i < n && steps[i] == StartupStep::LoadTrapTable
}

/// After any startup sequence the task state holds the dedicated stack exactly
/// when some step set up the segments, and the loaded table is the kernel's
/// table exactly when some step loaded it.
pub proof fn lemma_run_state(h: HandlerAddrs, region: StackRegion, steps: Seq<StartupStep>)
    requires
        stack_region_ok(region),
    ensures
        run(initial(h, region), steps).handlers == h,
        run(initial(h, region), steps).alt_stack == region,
        run(initial(h, region), steps).ist == (if configured_in(steps, steps.len() as int) {
            Some(ist_for(region))
        } else {
            None
        }),
        run(initial(h, region), steps).table_loaded == loaded_in(steps, steps.len() as int),
        run(initial(h, region), steps).table == (if loaded_in(steps, steps.len() as int) {
            Some(kernel_trap_table(h))
        } else {
            None
        }),
    decreases steps.len(),
{
    if steps.len() > 0 {
        let prev = steps.drop_last();
        let n = steps.len() as int;
        lemma_run_state(h, region, prev);
        assert forall|i: int| 0 <= i < n - 1 implies prev[i] == steps[i] by {}
        if configured_in(prev, n - 1) {
            let i = choose|i: int| 0 <= i < n - 1 && prev[i] == StartupStep::ConfigureSegments;
            assert(steps[i] == StartupStep::ConfigureSegments);
        }
        if configured_in(steps, n) && steps.last() != StartupStep::ConfigureSegments {
            let i = choose|i: int| 0 <= i < n && steps[i] == StartupStep::ConfigureSegments;
            assert(prev[i] == StartupStep::ConfigureSegments);
        }
        if loaded_in(prev, n - 1) {
            let i = choose|i: int| 0 <= i < n - 1 && prev[i] == StartupStep::LoadTrapTable;
            assert(steps[i] == StartupStep::LoadTrapTable);
        }
        if loaded_in(steps, n) && steps.last() != StartupStep::LoadTrapTable {
            let i = choose|i: int| 0 <= i < n && steps[i] == StartupStep::LoadTrapTable;
            assert(prev[i] == StartupStep::LoadTrapTable);
        }
        assert(steps[n - 1] == steps.last());
    }
}

/// The segment setup must come before the trap table is relied on: at any point
/// of a startup sequence after the table was loaded, a double fault raised on an
/// exhausted stack runs the double-fault handler on the top of the dedicated
/// stack if the segments were set up by then, and resets the machine otherwise.
pub proof fn lemma_startup_order(
    h: HandlerAddrs,
    region: StackRegion,
    steps: Seq<StartupStep>,
    k: int,
    sp: u64,
)
    requires
        stack_region_ok(region),
        0 <= k <= steps.len(),
        loaded_in(steps, k),
    ensures
        deliver_spec(run(initial(h, region), steps.take(k)), DOUBLE_FAULT_VECTOR, false, sp) == (
        if configured_in(steps, k) {
            Delivery::Handler {
                vector: DOUBLE_FAULT_VECTOR,
                address: h.double_fault,
                stack_pointer: region.end() as u64,
            }
        } else {
            Delivery::TripleFault
        }),
{
    let pre = steps.take(k);
    assert forall|i: int| 0 <= i < k implies pre[i] == steps[i] by {}
    assert(configured_in(pre, k) == configured_in(steps, k));
    assert(loaded_in(pre, k));
    lemma_run_state(h, region, pre);
}

/// A breakpoint raised once the trap table is loaded runs the breakpoint handler
/// on the current stack, whatever else the startup sequence did.
pub proof fn lemma_breakpoint_delivery(
    h: HandlerAddrs,
    region: StackRegion,
    steps: Seq<StartupStep>,
    sp: u64,
)
    requires
        stack_region_ok(region),
        loaded_in(steps, steps.len() as int),
    ensures
        deliver_spec(run(initial(h, region), steps), BREAKPOINT_VECTOR, true, sp) == (
        Delivery::Handler { vector: BREAKPOINT_VECTOR, address: h.breakpoint, stack_pointer: sp }),
{
    lemma_run_state(h, region, steps);
}

/// Whether two regions share no byte.
pub open spec fn disjoint(a: StackRegion, b: StackRegion) -> bool {
    a.end() <= b.start || b.end() <= a.start
}

/// Once the segments are set up and the table loaded, any trap raised while the
/// current stack cannot take a frame ends in the double-fault handler, which runs
/// with the stack pointer inside the dedicated stack region, and so outside any
/// primary stack that does not overlap that region.
pub proof fn lemma_double_fault_on_alternate_stack(
    h: HandlerAddrs,
    region: StackRegion,
    primary: StackRegion,
    steps: Seq<StartupStep>,
    vector: u8,
    sp: u64,
)
    requires
        stack_region_ok(region),
        disjoint(region, primary),
        configured_in(steps, steps.len() as int),
        loaded_in(steps, steps.len() as int),
    ensures
        deliver_spec(run(initial(h, region), steps), vector, false, sp) == (Delivery::Handler {
            vector: DOUBLE_FAULT_VECTOR,
            address: h.double_fault,
            stack_pointer: region.end() as u64,
        }),
        region.holds_stack_pointer(region.end() as u64),
        !primary.holds_stack_pointer(region.end() as u64),
{
    lemma_run_state(h, region, steps);
}

/// Loading the trap table again changes nothing: the table is built once and
/// the same table stays loaded.
pub proof fn lemma_load_idempotent(v: KernelView)
    ensures
        load_step(load_step(v)) == load_step(v),
        v.table is Some ==> load_step(v).table == v.table,
        v.table is None ==> load_step(v).table == Some(kernel_trap_table(v.handlers)),
{
}

/// The state after loading the trap table `n` times from `v`.
pub open spec fn load_times(v: KernelView, n: nat) -> KernelView
    decreases n,
{
    if n == 0 {
        v
    } else {
        load_step(load_times(v, (n - 1) as nat))
    }
}

/// Loading the trap table any number of times, once or more, leaves the state of
/// a single load: the kernel's table, 256 entries, with exactly the breakpoint
/// and double-fault entries present.
pub proof fn lemma_load_repeated(v: KernelView, n: nat)
    requires
        v.valid(),
        n >= 1,
    ensures
        load_times(v, n) == load_step(v),
        load_times(v, n).table_loaded,
        load_times(v, n).table == Some(kernel_trap_table(v.handlers)),
        kernel_trap_table(v.handlers).len() == 256,
        forall|i: int|
            0 <= i < 256 ==> (#[trigger] kernel_trap_table(v.handlers)[i].present <==> (i
                == BREAKPOINT_VECTOR || i == DOUBLE_FAULT_VECTOR)),
    decreases n,
{
    assert(load_times(v, n) == load_step(load_times(v, (n - 1) as nat)));
    if n > 1 {
        lemma_load_repeated(v, (n - 1) as nat);
        lemma_load_idempotent(v);
    } else {
        assert(load_times(v, 0) == v);
    }
}

} // verus!
