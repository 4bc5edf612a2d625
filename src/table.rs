use vstd::prelude::*;
use crate::vectors::{InterruptIndex, APIC_TIMER_VECTOR, PIC1_OFFSET};

verus! {

/// CPU exception vectors that this kernel handles.
pub const BREAKPOINT_VECTOR: u8 = 3;
pub const DOUBLE_FAULT_VECTOR: u8 = 8;
pub const GENERAL_PROTECTION_VECTOR: u8 = 13;
pub const PAGE_FAULT_VECTOR: u8 = 14;

/// Number of slots in the vector table.
pub const TABLE_LEN: usize = 256;

/// Interrupt-stack-table index of the stack reserved for double faults.
pub const DOUBLE_FAULT_IST_INDEX: u16 = 0;

/// The routines that the table can dispatch to.
#[derive(Debug, Clone, Copy, PartialEq, Eq, Structural)]
pub enum Handler {
    Breakpoint,
    GeneralProtection,
    DoubleFault,
    PageFault,
    Timer,
    Keyboard,
    ContextSwitch,
}

/// One slot of the vector table.
#[derive(Debug, Clone, Copy, PartialEq, Eq, Structural)]
pub enum Entry {
    Unused,
    /// Invoked through the CPU's interrupt calling convention, optionally on a
    /// stack taken from the interrupt stack table.
    Framed { handler: Handler, stack_index: Option<u16> },
    /// Installed by address; captures the full register state itself.
    RawCapture(Handler),
}

/// The slot that the kernel's table holds for vector `v`.
pub open spec fn standard_entry(v: int) -> Entry {
    if v == BREAKPOINT_VECTOR {
        Entry::Framed { handler: Handler::Breakpoint, stack_index: None }
    } else if v == GENERAL_PROTECTION_VECTOR {
        Entry::Framed { handler: Handler::GeneralProtection, stack_index: None }
    } else if v == DOUBLE_FAULT_VECTOR {
        Entry::Framed { handler: Handler::DoubleFault, stack_index: Some(DOUBLE_FAULT_IST_INDEX) }
    } else if v == PAGE_FAULT_VECTOR {
        Entry::Framed { handler: Handler::PageFault, stack_index: None }
    } else if v == InterruptIndex::Timer.vector() {
        Entry::Framed { handler: Handler::Timer, stack_index: None }
    } else if v == InterruptIndex::Keyboard.vector() {
        Entry::Framed { handler: Handler::Keyboard, stack_index: None }
    } else if v == InterruptIndex::ApicTimer.vector() {
        Entry::RawCapture(Handler::ContextSwitch)
    } else {
        Entry::Unused
    }
}

/// The handler a slot dispatches to, if any.
pub open spec fn entry_handler(e: Entry) -> Option<Handler> {
    match e {
        Entry::Unused => None,
        Entry::Framed { handler, .. } => Some(handler),
        Entry::RawCapture(h) => Some(h),
    }
}

/// The vector table: one entry per 8-bit vector number.
pub struct VectorTable {
    slots: Vec<Entry>,
}

impl View for VectorTable {
    type V = Seq<Entry>;

    closed spec fn view(&self) -> Seq<Entry> {
        self.slots@
    }
}

impl VectorTable {
    pub open spec fn wf(&self) -> bool {
        self@.len() == TABLE_LEN
    }

    /// Whether this is the kernel's table, with every handler installed.
    pub open spec fn is_standard(&self) -> bool {
        &&& self.wf()
        &&& forall|v: int| 0 <= v < TABLE_LEN ==> #[trigger] self@[v] == standard_entry(v)
    }

    /// The slot for `vector`.
    pub fn entry(&self, vector: u8) -> (r: Entry)
        requires
            self.wf(),
        ensures
            r == self@[vector as int],
    {
        self.slots[vector as usize]
    }

    /// The handler that raising `vector` runs; `None` for an unused slot,
    /// which is a fatal condition.
    pub fn dispatch(&self, vector: u8) -> (r: Option<Handler>)
        requires
            self.wf(),
        ensures
            r == entry_handler(self@[vector as int]),
    {
        match self.slots[vector as usize] {
            Entry::Unused => None,
            Entry::Framed { handler, .. } => Some(handler),
            Entry::RawCapture(h) => Some(h),
        }
    }
}

fn standard_entry_of(v: u8) -> (r: Entry)
    ensures
        r == standard_entry(v as int),
{
    if v == BREAKPOINT_VECTOR {
        Entry::Framed { handler: Handler::Breakpoint, stack_index: None }
    } else if v == GENERAL_PROTECTION_VECTOR {
        Entry::Framed { handler: Handler::GeneralProtection, stack_index: None }
    } else if v == DOUBLE_FAULT_VECTOR {
        Entry::Framed { handler: Handler::DoubleFault, stack_index: Some(DOUBLE_FAULT_IST_INDEX) }
    } else if v == PAGE_FAULT_VECTOR {
        Entry::Framed { handler: Handler::PageFault, stack_index: None }
    } else if v == InterruptIndex::Timer.as_u8() {
        Entry::Framed { handler: Handler::Timer, stack_index: None }
    } else if v == InterruptIndex::Keyboard.as_u8() {
        Entry::Framed { handler: Handler::Keyboard, stack_index: None }
    } else if v == InterruptIndex::ApicTimer.as_u8() {
        Entry::RawCapture(Handler::ContextSwitch)
    } else {
        Entry::Unused
    }
}

/// Builds the kernel's vector table: the exception handlers, the double
/// fault on its reserved stack, the two legacy device lines, and the raw
/// context-switch entry on the local timer's vector. Loading it into the CPU
/// is left to the caller, once, before interrupts are unmasked.
pub fn init_idt() -> (t: VectorTable)
    ensures
        t.is_standard(),
{
    let mut slots: Vec<Entry> = Vec::new();
    let mut v: usize = 0;
    while v < TABLE_LEN
        invariant
            v <= TABLE_LEN,
            slots@.len() == v,
            forall|i: int| 0 <= i < v ==> #[trigger] slots@[i] == standard_entry(i),
        decreases TABLE_LEN - v,
    {
        let e = standard_entry_of(v as u8);
        slots.push(e);
        v = v + 1;
    }
    VectorTable { slots }
}

/// Every vector with a handler in the kernel's table dispatches to that
/// handler and to no other: no handler is reachable from two vectors.
pub proof fn lemma_dispatch_exact(t: VectorTable, v1: u8, v2: u8, h: Handler)
    requires
        t.is_standard(),
        entry_handler(t@[v1 as int]) == Some(h),
        entry_handler(t@[v2 as int]) == Some(h),
    ensures
        v1 == v2,
{
    assert(t@[v1 as int] == standard_entry(v1 as int));
    assert(t@[v2 as int] == standard_entry(v2 as int));
}

/// The double-fault slot, and no other, switches to the reserved stack; the
/// local timer's slot is the one raw entry.
pub proof fn lemma_double_fault_on_reserved_stack(t: VectorTable, v: u8)
    requires
        t.is_standard(),
    ensures
        t@[DOUBLE_FAULT_VECTOR as int] == (Entry::Framed {
            handler: Handler::DoubleFault,
            stack_index: Some(DOUBLE_FAULT_IST_INDEX),
        }),
        (t@[v as int] matches Entry::Framed { stack_index: Some(_), .. }) ==> v == DOUBLE_FAULT_VECTOR,
        (t@[v as int] matches Entry::RawCapture(_)) <==> v == APIC_TIMER_VECTOR,
{
    assert(t@[DOUBLE_FAULT_VECTOR as int] == standard_entry(DOUBLE_FAULT_VECTOR as int));
    assert(t@[v as int] == standard_entry(v as int));
}

/// Every vector that the hardware sources of this kernel raise has a handler
/// in the kernel's table, and the legacy device vectors lie in the remapped
/// range.
pub proof fn lemma_sources_installed(t: VectorTable, s: InterruptIndex)
    requires
        t.is_standard(),
    ensures
        entry_handler(t@[s.vector() as int]) is Some,
        s != InterruptIndex::ApicTimer ==> PIC1_OFFSET <= s.vector() < PIC1_OFFSET + 8,
{
    assert(t@[s.vector() as int] == standard_entry(s.vector() as int));
}

} // verus!
