//! Descriptor table manager: builds the task-state structure whose reserved
//! slot holds the double-fault stack top, and the segment table with one
//! kernel code descriptor and one task-state descriptor. Loading the built
//! tables into the processor is the caller's step.
use vstd::prelude::*;

verus! {

/// Slot of the interrupt stack table reserved for the double-fault handler.
pub const DOUBLE_FAULT_IST_INDEX: u16 = 0;

/// Size in bytes of the memory region reserved for the double-fault stack.
pub const DOUBLE_FAULT_STACK_SIZE: u64 = 4096 * 5;

/// Number of interrupt-stack-table slots a task state segment holds.
pub const IST_ENTRIES: usize = 7;

/// Task-state structure: the registry of alternate stack tops, indexed by
/// IST slot. An entry of zero means no alternate stack is registered there.
pub struct TaskStateSegment {
    pub interrupt_stack_table: Vec<u64>,
}

impl TaskStateSegment {
    pub open spec fn wf(self) -> bool {
        self.interrupt_stack_table@.len() == IST_ENTRIES
    }

    /// A task state with every alternate stack slot empty.
    pub fn new() -> (t: TaskStateSegment)
        ensures
            t.wf(),
            forall|i: int| 0 <= i < IST_ENTRIES ==> t.interrupt_stack_table@[i] == 0,
    {
        let mut interrupt_stack_table: Vec<u64> = Vec::new();
        let mut i: usize = 0;
        while i < IST_ENTRIES
            invariant
                i <= IST_ENTRIES,
                interrupt_stack_table@.len() == i,
                forall|j: int| 0 <= j < i ==> interrupt_stack_table@[j] == 0,
            decreases IST_ENTRIES - i,
        {
            interrupt_stack_table.push(0);
            i += 1;
        }
        TaskStateSegment { interrupt_stack_table }
    }
}

/// A selector naming one slot of the segment table.
#[derive(Debug, Clone, Copy, PartialEq, Eq, Structural)]
pub struct SegmentSelector {
    pub index: u16,
}

/// One entry of the segment table.
#[derive(Debug, Clone, Copy, PartialEq, Eq, Structural)]
pub enum SegmentDescriptor {
    /// The mandatory unused first entry.
    Null,
    /// The one code segment the kernel executes in.
    KernelCode,
    /// The descriptor referencing the task-state structure.
    TaskState,
}

/// The segment table: a list of descriptors whose first entry is null.
pub struct GlobalDescriptorTable {
    entries: Vec<SegmentDescriptor>,
}

impl GlobalDescriptorTable {
    pub closed spec fn entries_spec(self) -> Seq<SegmentDescriptor> {
        self.entries@
    }

    /// A table holding only the mandatory null descriptor.
    pub fn new() -> (t: GlobalDescriptorTable)
        ensures
            t.entries_spec() =~= seq![SegmentDescriptor::Null],
    {
        let mut entries: Vec<SegmentDescriptor> = Vec::new();
        entries.push(SegmentDescriptor::Null);
        GlobalDescriptorTable { entries }
    }

    /// How many descriptors the table holds, the null entry included.
    pub fn descriptor_count(&self) -> (n: usize)
        ensures
            n == self.entries_spec().len(),
    {
        self.entries.len()
    }

    /// The descriptor at one slot.
    pub fn descriptor_at(&self, index: usize) -> (d: SegmentDescriptor)
        requires
            index < self.entries_spec().len(),
        ensures
            d == self.entries_spec()[index as int],
    {
        self.entries[index]
    }

    /// Append one descriptor; the returned selector names its slot.
    pub fn append(&mut self, descriptor: SegmentDescriptor) -> (selector: SegmentSelector)
        requires
            old(self).entries_spec().len() < 8192,
        ensures
            final(self).entries_spec() == old(self).entries_spec().push(descriptor),
            selector.index == old(self).entries_spec().len(),
    {
        let selector = SegmentSelector { index: self.entries.len() as u16 };
        self.entries.push(descriptor);
        selector
    }
}

/// The built segment table together with the selectors of its code and
/// task-state entries.
pub struct GlobalDescriptorTableAccessor {
    pub global_descriptor_table: GlobalDescriptorTable,
    pub code_selector: SegmentSelector,
    pub tss_selector: SegmentSelector,
}

/// The boot-time shape of the descriptor tables: the task state's reserved
/// slot holds the top of the double-fault stack region (stacks grow
/// downward, so the top is the high address), and the segment table holds
/// exactly the null, kernel-code and task-state descriptors, in that order,
/// with the selectors naming the latter two.
pub open spec fn descriptor_tables_configured(
    tss: TaskStateSegment,
    accessor: GlobalDescriptorTableAccessor,
    double_fault_stack_start: u64,
) -> bool {
    &&& tss.wf()
    &&& tss.interrupt_stack_table@[DOUBLE_FAULT_IST_INDEX as int] == double_fault_stack_start
        + DOUBLE_FAULT_STACK_SIZE
    &&& accessor.global_descriptor_table.entries_spec() =~= seq![
        SegmentDescriptor::Null,
        SegmentDescriptor::KernelCode,
        SegmentDescriptor::TaskState,
    ]
    &&& accessor.code_selector.index == 1
    &&& accessor.tss_selector.index == 2
}

/// Build the task state and the segment table. The double-fault slot points
/// at the *top* of the reserved stack region, not its base. Runs once at
/// boot, before the interrupt vector table is built, because that table's
/// double-fault entry names the reserved slot.
pub fn init(double_fault_stack_start: u64) -> (r: (
    TaskStateSegment,
    GlobalDescriptorTableAccessor,
))
    requires
        double_fault_stack_start + DOUBLE_FAULT_STACK_SIZE <= u64::MAX,
    ensures
        descriptor_tables_configured(r.0, r.1, double_fault_stack_start),
        forall|i: int|
            0 <= i < IST_ENTRIES && i != DOUBLE_FAULT_IST_INDEX
                ==> r.0.interrupt_stack_table@[i] == 0,
{
    let mut task_state_segment = TaskStateSegment::new();
    let stack_top: u64 = double_fault_stack_start + DOUBLE_FAULT_STACK_SIZE;
    task_state_segment.interrupt_stack_table.set(DOUBLE_FAULT_IST_INDEX as usize, stack_top);

    let mut global_descriptor_table = GlobalDescriptorTable::new();
    let code_selector = global_descriptor_table.append(SegmentDescriptor::KernelCode);
    let tss_selector = global_descriptor_table.append(SegmentDescriptor::TaskState);

    let accessor = GlobalDescriptorTableAccessor {
        global_descriptor_table,
        code_selector,
        tss_selector,
    };
    (task_state_segment, accessor)
}

} // verus!
