use mini_os::config::{BREAKPOINT_VECTOR, DOUBLE_FAULT_IST_INDEX, DOUBLE_FAULT_STACK_SIZE, DOUBLE_FAULT_VECTOR};
use mini_os::handlers::{breakpoint_handler, double_fault_handler, ExceptionFrame, HandlerExit};
use mini_os::segments::{configure, segment_selectors, stack_top, StackError, StackRegion};
use mini_os::startup::{init_idt, Delivery, Kernel};
use mini_os::traps::{build_trap_table, GateEntry, HandlerAddrs, TrapTable};

const HANDLERS: HandlerAddrs = HandlerAddrs { breakpoint: 0x20_1000, double_fault: 0x20_2000 };

fn alt_stack() -> StackRegion {
    StackRegion { start: 0x44_0000, size: DOUBLE_FAULT_STACK_SIZE }
}

fn frame(ip: u64, sp: u64) -> ExceptionFrame {
    ExceptionFrame { instruction_pointer: ip, code_segment: 8, cpu_flags: 0x46, stack_pointer: sp, stack_segment: 0 }
}

fn booted() -> Kernel {
    let mut k = Kernel::new(HANDLERS, alt_stack());
    assert_eq!(k.configure_segments(), Ok(()));
    init_idt(&mut k);
    k
}

#[test]
fn new_table_is_all_absent() {
    let t = TrapTable::new();
    for v in 0..=255u8 {
        assert_eq!(t.entry(v), GateEntry { handler: 0, present: false, stack_index: None });
    }
}

#[test]
fn built_table_has_two_entries() {
    let t = build_trap_table(HANDLERS);
    assert_eq!(t.entry(3), GateEntry { handler: 0x20_1000, present: true, stack_index: None });
    assert_eq!(t.entry(8), GateEntry { handler: 0x20_2000, present: true, stack_index: Some(0) });
    let present = (0..=255u8).filter(|v| t.entry(*v).present).count();
    assert_eq!(present, 2);
}

#[test]
fn set_handler_keeps_stack_choice() {
    let mut t = TrapTable::new();
    t.set_stack_index(14, 2);
    t.set_handler(14, 0x9000);
    assert_eq!(t.entry(14), GateEntry { handler: 0x9000, present: true, stack_index: Some(2) });
}

#[test]
fn stack_top_is_one_past_the_region() {
    assert_eq!(stack_top(StackRegion { start: 0x1000, size: 0x5000 }), Ok(0x6000));
    assert_eq!(stack_top(alt_stack()), Ok(0x44_0000 + 4096 * 5));
}

#[test]
fn stack_top_errors() {
    assert_eq!(stack_top(StackRegion { start: 0x1000, size: 0 }), Err(StackError::Empty));
    assert_eq!(stack_top(StackRegion { start: u64::MAX - 10, size: 11 }), Err(StackError::Overflow));
    assert_eq!(stack_top(StackRegion { start: 0x1000_0000_0000_0000, size: 16 }), Err(StackError::NotCanonical));
    // the top crosses from the lower half into the non-canonical hole
    assert_eq!(stack_top(StackRegion { start: 0x7fff_ffff_f000, size: 0x2000 }), Err(StackError::NotCanonical));
    // the top of the address space is canonical
    assert_eq!(stack_top(StackRegion { start: 0xffff_ffff_ffff_0000, size: 0x1000 }), Ok(0xffff_ffff_ffff_1000));
}

#[test]
fn selectors_follow_the_table_layout() {
    let s = segment_selectors();
    assert_eq!(s.code_selector, 8);
    assert_eq!(s.tss_selector, 16);
}

#[test]
fn configure_registers_the_double_fault_stack() {
    let s = configure(alt_stack()).unwrap();
    let top = 0x44_0000 + DOUBLE_FAULT_STACK_SIZE;
    for i in 0..7usize {
        let expected = if i == DOUBLE_FAULT_IST_INDEX as usize { top } else { 0 };
        assert_eq!(s.task_state.interrupt_stack_table[i], expected);
    }
    assert_eq!(s.selectors.code_selector, 8);
    assert_eq!(s.selectors.tss_selector, 16);
    assert_eq!(configure(StackRegion { start: 0, size: 0 }).err(), Some(StackError::Empty));
}

#[test]
fn breakpoint_reports_and_resumes() {
    let k = booted();
    let int3_at = 0x20_5000u64;
    let sp = 0x7_0000u64;
    let d = k.deliver(BREAKPOINT_VECTOR, true, sp);
    assert_eq!(d, Delivery::Handler { vector: 3, address: HANDLERS.breakpoint, stack_pointer: sp });
    let f = frame(int3_at + 1, sp);
    let r = breakpoint_handler(&f);
    assert!(r.title.contains("BREAKPOINT"));
    assert_eq!(r.frame, f);
    assert_eq!(r.exit, HandlerExit::Resume { at: int3_at + 1 });
    assert_ne!(r.exit, HandlerExit::Halt);
}

#[test]
fn stack_overflow_double_faults_on_alternate_stack() {
    let k = booted();
    let region = alt_stack();
    // a page fault on an exhausted stack cannot push its frame
    for vector in [14u8, DOUBLE_FAULT_VECTOR, BREAKPOINT_VECTOR] {
        match k.deliver(vector, false, region.start - 8) {
            Delivery::Handler { vector, address, stack_pointer } => {
                assert_eq!(vector, 8);
                assert_eq!(address, HANDLERS.double_fault);
                assert!(stack_pointer > region.start && stack_pointer <= region.start + region.size);
            }
            Delivery::TripleFault => panic!("double fault not handled"),
        }
    }
    let f = frame(0x20_6000, 0x7_0000);
    let r = double_fault_handler(&f, 0);
    assert!(r.title.contains("DOUBLE FAULT"));
    assert_eq!(r.frame, f);
    assert_eq!(r.frame.stack_pointer, 0x7_0000);
    assert_eq!(r.exit, HandlerExit::Halt);
}

#[test]
fn loading_before_segment_setup_resets_on_double_fault() {
    let mut k = Kernel::new(HANDLERS, alt_stack());
    init_idt(&mut k);
    assert_eq!(k.deliver(DOUBLE_FAULT_VECTOR, false, 0x1000), Delivery::TripleFault);
    assert_eq!(k.configure_segments(), Ok(()));
    let mut good = Kernel::new(HANDLERS, alt_stack());
    assert_eq!(good.configure_segments(), Ok(()));
    init_idt(&mut good);
    assert_eq!(
        good.deliver(DOUBLE_FAULT_VECTOR, false, 0x1000),
        Delivery::Handler { vector: 8, address: HANDLERS.double_fault, stack_pointer: 0x44_0000 + DOUBLE_FAULT_STACK_SIZE }
    );
}

#[test]
fn no_table_means_reset() {
    let mut k = Kernel::new(HANDLERS, alt_stack());
    assert_eq!(k.configure_segments(), Ok(()));
    assert_eq!(k.deliver(BREAKPOINT_VECTOR, true, 0x1000), Delivery::TripleFault);
    assert_eq!(k.loaded_entry(3), None);
}

#[test]
fn init_idt_twice_keeps_the_table() {
    let mut k = booted();
    let before: Vec<Option<GateEntry>> = (0..=255u8).map(|v| k.loaded_entry(v)).collect();
    for _ in 0..5 {
        init_idt(&mut k);
    }
    let after: Vec<Option<GateEntry>> = (0..=255u8).map(|v| k.loaded_entry(v)).collect();
    assert_eq!(before, after);
    assert_eq!(after.iter().filter(|e| e.map_or(false, |e| e.present)).count(), 2);
}

#[test]
fn bad_alternate_stack_is_refused() {
    let mut k = Kernel::new(HANDLERS, StackRegion { start: 0x1000, size: 0 });
    assert_eq!(k.configure_segments(), Err(StackError::Empty));
    assert!(k.segment_setup().is_none());
    init_idt(&mut k);
    assert_eq!(k.deliver(14, false, 0x1000), Delivery::TripleFault);
}

#[test]
fn configure_segments_reports_the_region_error() {
    let mut k = Kernel::new(HANDLERS, StackRegion { start: u64::MAX - 10, size: 11 });
    assert_eq!(k.configure_segments(), Err(StackError::Overflow));
    let mut k = Kernel::new(HANDLERS, StackRegion { start: 0x1000_0000_0000_0000, size: 16 });
    assert_eq!(k.configure_segments(), Err(StackError::NotCanonical));
    let mut k = booted();
    assert_eq!(k.configure_segments(), Ok(()));
    assert_eq!(k.segment_setup().unwrap().task_state.interrupt_stack_table[0], 0x44_0000 + DOUBLE_FAULT_STACK_SIZE);
}
