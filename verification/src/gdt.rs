//! The descriptor and stack registry: the segment descriptor table, the
//! task-state record, and the dedicated emergency stack whose top address is
//! recorded for faults that cannot trust the normal stack.

use vstd::prelude::*;

verus! {

/// Interrupt-stack-table slot reserved for the double-fault handler. Any
/// slot would do; what matters is that the vector-table entry for the double
/// fault names a populated slot.
pub const DOUBLE_FAULT_IST_INDEX: u16 = 0;

/// Size of the emergency stack's backing buffer: five pages, comfortably
/// more than the one page the registry requires.
pub const STACK_SIZE: usize = 4096 * 5;

/// Number of interrupt-stack-table slots in a task-state record.
pub const IST_ENTRIES: usize = 7;

/// Number of privilege-stack-table slots in a task-state record.
pub const PST_ENTRIES: usize = 3;

/// The task-state record: a fixed set of stack-top addresses the processor
/// switches to on privilege changes or on vectors with a stack override.
/// A slot holding zero is unset; stacks grow downward, so a populated slot
/// holds the *end* address of its stack's backing region.
pub struct TaskStateRecord {
    pub interrupt_stack_table: Vec<u64>,
    pub privilege_stack_table: Vec<u64>,
}

impl TaskStateRecord {
    pub open spec fn wf(&self) -> bool {
        &&& self.interrupt_stack_table@.len() == IST_ENTRIES
        &&& self.privilege_stack_table@.len() == PST_ENTRIES
    }

    /// Whether an interrupt-stack-table slot holds a stack top.
    pub open spec fn ist_slot_populated(&self, index: int) -> bool {
        0 <= index < IST_ENTRIES && self.interrupt_stack_table@[index] != 0
    }

    /// A record with every stack slot unset.
    pub fn new() -> (t: TaskStateRecord)
        ensures
            t.wf(),
            forall|i: int| 0 <= i < IST_ENTRIES ==> t.interrupt_stack_table@[i] == 0,
            forall|i: int| 0 <= i < PST_ENTRIES ==> t.privilege_stack_table@[i] == 0,
    {
        let mut ist: Vec<u64> = Vec::new();
        let mut i: usize = 0;
        while i < IST_ENTRIES
            invariant
                i <= IST_ENTRIES,
                ist@.len() == i,
                forall|j: int| 0 <= j < i ==> ist@[j] == 0,
            decreases IST_ENTRIES - i,
        {
            ist.push(0);
            i = i + 1;
        }
        let mut pst: Vec<u64> = Vec::new();
        let mut k: usize = 0;
        while k < PST_ENTRIES
            invariant
                k <= PST_ENTRIES,
                pst@.len() == k,
                forall|j: int| 0 <= j < k ==> pst@[j] == 0,
            decreases PST_ENTRIES - k,
        {
            pst.push(0);
            k = k + 1;
        }
        TaskStateRecord { interrupt_stack_table: ist, privilege_stack_table: pst }
    }

    /// Record a stack top in an interrupt-stack-table slot.
    pub fn set_interrupt_stack(&mut self, index: usize, stack_top: u64)
        requires
            old(self).wf(),
            index < IST_ENTRIES,
            stack_top != 0,
        ensures
            final(self).wf(),
            final(self).interrupt_stack_table@ == old(self).interrupt_stack_table@.update(
                index as int,
                stack_top,
            ),
            final(self).privilege_stack_table@ == old(self).privilege_stack_table@,
            final(self).ist_slot_populated(index as int),
    {
        self.interrupt_stack_table.set(index, stack_top);
    }
}

/// The kinds of entry the segment descriptor table holds: the kernel code
/// segment and the task-state segment that points at the task-state record.
#[derive(Clone, Copy, PartialEq, Eq, Structural, Debug)]
pub enum DescriptorEntry {
    KernelCodeSegment,
    TaskStateSegment,
}

/// The descriptor and stack registry: the ordered descriptor entries, the
/// task-state record they reference, and the selectors handed back when the
/// entries were added. Built once; after `init` marks it loaded, nothing
/// mutates it.
pub struct GdtRegistry {
    pub entries: Vec<DescriptorEntry>,
    pub tss: TaskStateRecord,
    pub code_selector: usize,
    pub tss_selector: usize,
    pub loaded: bool,
}

impl GdtRegistry {
    pub open spec fn wf(&self) -> bool {
        &&& self.tss.wf()
        &&& self.code_selector < self.entries@.len()
        &&& self.tss_selector < self.entries@.len()
    }
}

/// Build the registry and mark it loaded: reserve the emergency stack whose
/// backing region starts at `stack_start` and spans `STACK_SIZE` bytes,
/// record its end address (the initial stack pointer) in the double-fault
/// slot, and lay out exactly one kernel code descriptor and one task-state
/// descriptor. Loading the table into the processor is irreversible and is
/// performed by the surrounding system right after this; it must happen
/// before any interrupt relies on the new selectors or the emergency stack.
pub fn init(stack_start: u64) -> (g: GdtRegistry)
    requires
        stack_start != 0,
        stack_start + STACK_SIZE <= u64::MAX,
    ensures
        g.wf(),
        g.loaded,
        g.entries@.len() == 2,
        g.entries@[0] == DescriptorEntry::KernelCodeSegment,
        g.entries@[1] == DescriptorEntry::TaskStateSegment,
        g.code_selector == 0,
        g.tss_selector == 1,
        g.tss.ist_slot_populated(DOUBLE_FAULT_IST_INDEX as int),
        g.tss.interrupt_stack_table@[DOUBLE_FAULT_IST_INDEX as int] == stack_start + STACK_SIZE,
        forall|i: int|
            0 <= i < IST_ENTRIES && i != DOUBLE_FAULT_IST_INDEX as int
                ==> g.tss.interrupt_stack_table@[i] == 0,
        forall|i: int| 0 <= i < PST_ENTRIES ==> g.tss.privilege_stack_table@[i] == 0,
{
    let mut tss = TaskStateRecord::new();
    let stack_end = stack_start + STACK_SIZE as u64;
    tss.set_interrupt_stack(DOUBLE_FAULT_IST_INDEX as usize, stack_end);
    let mut entries: Vec<DescriptorEntry> = Vec::new();
    entries.push(DescriptorEntry::KernelCodeSegment);
    let code_selector: usize = 0;
    entries.push(DescriptorEntry::TaskStateSegment);
    let tss_selector: usize = 1;
    GdtRegistry { entries, tss, code_selector, tss_selector, loaded: true }
}

} // verus!
