use vstd::prelude::*;
use crate::config::{DOUBLE_FAULT_IST_INDEX, IST_SLOTS};

verus! {

/// A 64-bit address is canonical when bits 48 to 63 copy bit 47.
pub open spec fn is_canonical(addr: u64) -> bool {
    addr < 0x0000_8000_0000_0000 || addr >= 0xffff_8000_0000_0000
}

/// Relies on `x86_64::VirtAddr::try_new`: it accepts exactly the addresses
/// whose bits 48 to 63 are a sign extension of bit 47, and keeps the value.
#[verifier::external_body]
fn canonical_addr(addr: u64) -> (r: Option<u64>)
    ensures
        r == (if is_canonical(addr) { Some(addr) } else { None::<u64> }),
{
    match x86_64::VirtAddr::try_new(addr) {
        Ok(a) => Some(a.as_u64()),
        Err(_) => None,
    }
}

/// Relies on `x86_64::structures::gdt::SegmentSelector::new` (with
/// `PrivilegeLevel::from_u16`): the selector is the table index shifted left by
/// three, or-ed with the requested privilege level.
#[verifier::external_body]
fn segment_selector(index: u16, rpl: u16) -> (r: u16)
    requires
        index < 8192,
        rpl < 4,
    ensures
        r == index * 8 + rpl,
{
    let level = x86_64::PrivilegeLevel::from_u16(rpl);
    x86_64::structures::gdt::SegmentSelector::new(index, level).0
}

/// A memory region reserved as a stack: `size` bytes from address `start`.
#[derive(Clone, Copy, Debug, PartialEq, Eq, Structural)]
pub struct StackRegion {
    pub start: u64,
    pub size: u64,
}

impl StackRegion {
    /// One past the last byte of the region: where a downward-growing stack starts.
    pub open spec fn end(self) -> int {
        self.start as int + self.size as int
    }

    /// Whether `sp` is a stack pointer inside the region (the top included).
    pub open spec fn holds_stack_pointer(self, sp: u64) -> bool {
        self.start < sp && sp as int <= self.end()
    }
}

/// Why a region cannot serve as the double-fault stack.
#[derive(Clone, Copy, Debug, PartialEq, Eq, Structural)]
pub enum StackError {
    /// The region has no bytes.
    Empty,
    /// The region runs past the end of the address space.
    Overflow,
    /// The start or the top of the region is not a canonical address.
    NotCanonical,
}

/// Whether a region can serve as a stack.
pub open spec fn stack_region_ok(region: StackRegion) -> bool {
    &&& region.size > 0
    &&& region.end() <= u64::MAX
    &&& is_canonical(region.start)
    &&& is_canonical(region.end() as u64)
}

/// The error, if any, that a region is refused with as a stack.
pub open spec fn stack_error(region: StackRegion) -> Option<StackError> {
    if region.size == 0 {
        Some(StackError::Empty)
    } else if region.end() > u64::MAX {
        Some(StackError::Overflow)
    } else if !stack_region_ok(region) {
        Some(StackError::NotCanonical)
    } else {
        None
    }
}

/// Computes the top of a stack region, the address the CPU loads into the stack
/// pointer before the first push.
pub fn stack_top(region: StackRegion) -> (r: Result<u64, StackError>)
    ensures
        r matches Ok(top) ==> stack_region_ok(region) && top == region.end(),
        r matches Err(e) ==> stack_error(region) == Some(e),
        r is Ok <==> stack_error(region) is None,
{
    if region.size == 0 {
        return Err(StackError::Empty);
    }
    if region.start > u64::MAX - region.size {
        return Err(StackError::Overflow);
    }
    let start = match canonical_addr(region.start) {
        Some(a) => a,
        None => return Err(StackError::NotCanonical),
    };
    match canonical_addr(start + region.size) {
        Some(top) => Ok(top),
        None => Err(StackError::NotCanonical),
    }
}

/// The part of the task-state segment that this kernel uses: the interrupt
/// stack table, holding up to seven alternate-stack tops (zero: no stack).
#[derive(Clone, Copy, Debug)]
pub struct TaskState {
    pub interrupt_stack_table: [u64; 7],
}

impl TaskState {
    /// A task state with every stack slot empty.
    pub fn new() -> (r: TaskState)
        ensures
            forall|i: int| 0 <= i < IST_SLOTS ==> #[trigger] r.interrupt_stack_table@[i] == 0,
    {
        TaskState { interrupt_stack_table: [0u64; 7] }
    }

    /// The stack top registered at `index`, zero when the slot is empty.
    pub open spec fn slot(self, index: u16) -> u64 {
        self.interrupt_stack_table@[index as int]
    }
}

/// Selectors of the two descriptors that the segment table holds after the
/// mandatory null descriptor: the kernel code segment and the task-state segment.
#[derive(Clone, Copy, Debug, PartialEq, Eq, Structural)]
pub struct Selectors {
    pub code_selector: u16,
    pub tss_selector: u16,
}

/// Table index of the kernel code segment descriptor.
pub const CODE_SEGMENT_INDEX: u16 = 1;

/// Table index of the task-state segment descriptor, which fills two slots.
pub const TSS_SEGMENT_INDEX: u16 = 2;

/// Lays out the segment table: null descriptor, kernel code segment, then the
/// two-slot task-state descriptor, all at privilege level zero.
pub fn segment_selectors() -> (r: Selectors)
    ensures
        r.code_selector == CODE_SEGMENT_INDEX * 8,
        r.tss_selector == TSS_SEGMENT_INDEX * 8,
{
    Selectors {
        code_selector: segment_selector(CODE_SEGMENT_INDEX, 0),
        tss_selector: segment_selector(TSS_SEGMENT_INDEX, 0),
    }
}

/// What the segment setup installs: the task state and the selectors that
/// the code-segment and task registers are loaded with.
#[derive(Clone, Copy, Debug)]
pub struct SegmentSetup {
    pub task_state: TaskState,
    pub selectors: Selectors,
}

/// What a successful segment setup for `region` holds.
pub open spec fn setup_for(region: StackRegion, s: SegmentSetup) -> bool {
    &&& s.task_state.slot(DOUBLE_FAULT_IST_INDEX) == region.end()
    &&& forall|i: int|
        0 <= i < IST_SLOTS && i != DOUBLE_FAULT_IST_INDEX ==> #[trigger] s.task_state.interrupt_stack_table@[i] == 0
    &&& s.selectors.code_selector == CODE_SEGMENT_INDEX * 8
    &&& s.selectors.tss_selector == TSS_SEGMENT_INDEX * 8
}

/// Registers `region` as the double-fault stack in a fresh task state and lays
/// out the segment table that references it.
pub fn configure(region: StackRegion) -> (r: Result<SegmentSetup, StackError>)
    ensures
        r is Ok <==> stack_region_ok(region),
        r matches Ok(s) ==> setup_for(region, s),
        r matches Err(e) ==> stack_error(region) == Some(e),
{
    let top = match stack_top(region) {
        Ok(t) => t,
        Err(e) => return Err(e),
    };
    let mut task_state = TaskState::new();
    task_state.interrupt_stack_table[DOUBLE_FAULT_IST_INDEX as usize] = top;
    Ok(SegmentSetup { task_state, selectors: segment_selectors() })
}

} // verus!
