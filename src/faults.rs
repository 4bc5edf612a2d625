use vstd::prelude::*;
use x86_64::structures::paging::{Page, PageTableFlags, Size4KiB};
use x86_64::VirtAddr;
use crate::table::Handler;

verus! {

/// Size of the pages that the demand-paging policy maps.
pub const PAGE_SIZE: u64 = 4096;

/// Page-table flag bit: the mapping is present.
pub const FLAG_PRESENT: u64 = 1;

/// Page-table flag bit: writes through the mapping are allowed.
pub const FLAG_WRITABLE: u64 = 2;

/// Whether bits 48..64 of `addr` are copies of bit 47.
pub open spec fn is_canonical(addr: u64) -> bool {
    addr < 0x0000_8000_0000_0000u64 || addr >= 0xffff_8000_0000_0000u64
}

/// Start of the 4 KiB page that holds `addr`.
pub open spec fn page_of(addr: u64) -> u64 {
    (addr - addr % PAGE_SIZE) as u64
}

/// The flags that a demand-paged mapping gets: present and writable.
pub open spec fn demand_flags() -> u64 {
    (FLAG_PRESENT + FLAG_WRITABLE) as u64
}

/// Relies on x86_64's `VirtAddr::new` (which panics on a non-canonical
/// address) and `Page::<Size4KiB>::containing_address`, which aligns the
/// address down to 4096.
#[verifier::external_body]
fn containing_page(addr: u64) -> (r: u64)
    requires
        is_canonical(addr),
    ensures
        r == page_of(addr),
{
    Page::<Size4KiB>::containing_address(VirtAddr::new(addr)).start_address().as_u64()
}

/// Relies on x86_64's `PageTableFlags`: PRESENT is bit 0 and WRITABLE is bit 1.
#[verifier::external_body]
fn present_writable_bits() -> (r: u64)
    ensures
        r == demand_flags(),
{
    (PageTableFlags::PRESENT | PageTableFlags::WRITABLE).bits()
}

/// Why a fault ends with the machine halted.
#[derive(Debug, Clone, Copy, PartialEq, Eq, Structural)]
pub enum Fatal {
    /// The frame allocator had no frame left.
    FramesExhausted,
    /// The mapper refused the mapping.
    MapRefused,
    /// An event arrived that the current step does not expect.
    UnexpectedEvent,
}

/// Progress of one page-fault invocation.
#[derive(Debug, Clone, Copy, PartialEq, Eq, Structural)]
pub enum FaultState {
    AwaitFrame { page: u64 },
    AwaitMap { page: u64, frame: u64 },
    AwaitFlush { page: u64 },
    Resumed,
    Halted(Fatal),
}

/// What the collaborators report back.
#[derive(Debug, Clone, Copy, PartialEq, Eq, Structural)]
pub enum FaultEvent {
    FrameAllocated(u64),
    FramesExhausted,
    Mapped,
    MapRefused,
    Flushed,
}

/// What the handler asks of its collaborators next.
#[derive(Debug, Clone, Copy, PartialEq, Eq, Structural)]
pub enum FaultAction {
    AllocateFrame,
    MapPage { page: u64, frame: u64, flags: u64 },
    Flush { page: u64 },
    /// Return from the handler; the faulting instruction runs again.
    Resume,
    /// Print the diagnostics and halt.
    Halt(Fatal),
}

/// Entry into the handler for a fault at `addr`.
pub open spec fn begin_spec(addr: u64) -> (FaultState, FaultAction) {
    (FaultState::AwaitFrame { page: page_of(addr) }, FaultAction::AllocateFrame)
}

/// One decision of the handler: whatever the cause of the fault, back the
/// page with a fresh frame, map it present and writable, flush, resume; any
/// failure is fatal.
pub open spec fn step_spec(s: FaultState, e: FaultEvent) -> (FaultState, FaultAction) {
    match (s, e) {
        (FaultState::AwaitFrame { page }, FaultEvent::FrameAllocated(frame)) => (
            FaultState::AwaitMap { page, frame },
            FaultAction::MapPage { page, frame, flags: demand_flags() },
        ),
        (FaultState::AwaitFrame { .. }, FaultEvent::FramesExhausted) => (
            FaultState::Halted(Fatal::FramesExhausted),
            FaultAction::Halt(Fatal::FramesExhausted),
        ),
        (FaultState::AwaitMap { page, .. }, FaultEvent::Mapped) => (
            FaultState::AwaitFlush { page },
            FaultAction::Flush { page },
        ),
        (FaultState::AwaitMap { .. }, FaultEvent::MapRefused) => (
            FaultState::Halted(Fatal::MapRefused),
            FaultAction::Halt(Fatal::MapRefused),
        ),
        (FaultState::AwaitFlush { .. }, FaultEvent::Flushed) => (
            FaultState::Resumed,
            FaultAction::Resume,
        ),
        _ => (
            FaultState::Halted(Fatal::UnexpectedEvent),
            FaultAction::Halt(Fatal::UnexpectedEvent),
        ),
    }
}

/// Starts handling a page fault at `addr`: the first request is for a frame.
pub fn begin_page_fault(addr: u64) -> (r: (FaultState, FaultAction))
    requires
        is_canonical(addr),
    ensures
        r == begin_spec(addr),
{
    let page = containing_page(addr);
    (FaultState::AwaitFrame { page }, FaultAction::AllocateFrame)
}

/// Takes the handler one step, from its state and what a collaborator
/// reported, to its next state and request.
pub fn step_page_fault(s: FaultState, e: FaultEvent) -> (r: (FaultState, FaultAction))
    ensures
        r == step_spec(s, e),
{
    match (s, e) {
        (FaultState::AwaitFrame { page }, FaultEvent::FrameAllocated(frame)) => {
            let flags = present_writable_bits();
            (FaultState::AwaitMap { page, frame }, FaultAction::MapPage { page, frame, flags })
        },
        (FaultState::AwaitFrame { .. }, FaultEvent::FramesExhausted) => (
            FaultState::Halted(Fatal::FramesExhausted),
            FaultAction::Halt(Fatal::FramesExhausted),
        ),
        (FaultState::AwaitMap { page, .. }, FaultEvent::Mapped) => (
            FaultState::AwaitFlush { page },
            FaultAction::Flush { page },
        ),
        (FaultState::AwaitMap { .. }, FaultEvent::MapRefused) => (
            FaultState::Halted(Fatal::MapRefused),
            FaultAction::Halt(Fatal::MapRefused),
        ),
        (FaultState::AwaitFlush { .. }, FaultEvent::Flushed) => (
            FaultState::Resumed,
            FaultAction::Resume,
        ),
        _ => (
            FaultState::Halted(Fatal::UnexpectedEvent),
            FaultAction::Halt(Fatal::UnexpectedEvent),
        ),
    }
}

/// Page mappings as the mapper holds them: page start to (frame, flags).
pub type Mappings = Map<u64, (u64, u64)>;

/// The mappings after the mapper has carried out `a`.
pub open spec fn apply_action(m: Mappings, a: FaultAction) -> Mappings {
    match a {
        FaultAction::MapPage { page, frame, flags } => m.insert(page, (frame, flags)),
        _ => m,
    }
}

/// A fault at any canonical address, answered by a frame from the
/// allocator, a successful mapping and a flush, leaves the address's page
/// mapped to that frame, present and writable, and resumes the faulting
/// instruction. No other page's mapping changes.
pub proof fn lemma_demand_paging(addr: u64, frame: u64, m: Mappings)
    requires
        is_canonical(addr),
    ensures
        ({
            let (s0, a0) = begin_spec(addr);
            let (s1, a1) = step_spec(s0, FaultEvent::FrameAllocated(frame));
            let (s2, a2) = step_spec(s1, FaultEvent::Mapped);
            let (s3, a3) = step_spec(s2, FaultEvent::Flushed);
            let m1 = apply_action(m, a1);
            &&& a0 == FaultAction::AllocateFrame
            &&& m1.contains_key(page_of(addr))
            &&& m1[page_of(addr)] == (frame, demand_flags())
            &&& demand_flags() & FLAG_PRESENT != 0
            &&& demand_flags() & FLAG_WRITABLE != 0
            &&& forall|p: u64| p != page_of(addr) ==> m1.contains_key(p) == m.contains_key(p)
                && (m.contains_key(p) ==> #[trigger] m1[p] == m[p])
            &&& a2 == (FaultAction::Flush { page: page_of(addr) })
            &&& s3 == FaultState::Resumed
            &&& a3 == FaultAction::Resume
        }),
{
    assert(3u64 & 1u64 != 0) by (bit_vector);
    assert(3u64 & 2u64 != 0) by (bit_vector);
}

/// When the allocator has no frame, the handler halts at once: it asks for
/// no mapping, so the mappings stay as they were.
pub proof fn lemma_exhaustion_halts(addr: u64, m: Mappings)
    requires
        is_canonical(addr),
    ensures
        ({
            let (s0, a0) = begin_spec(addr);
            let (s1, a1) = step_spec(s0, FaultEvent::FramesExhausted);
            &&& s1 == FaultState::Halted(Fatal::FramesExhausted)
            &&& a1 == FaultAction::Halt(Fatal::FramesExhausted)
            &&& apply_action(apply_action(m, a0), a1) == m
        }),
{
}

/// How an exception ends.
#[derive(Debug, Clone, Copy, PartialEq, Eq, Structural)]
pub enum Disposition {
    /// Log and return to the interrupted code.
    Resume,
    /// Handled by the demand-paging steps, which resume or halt.
    DemandPage,
    /// Log and return after acknowledging the device.
    Acknowledge,
    /// Hand the captured state to the scheduler.
    Reschedule,
    /// Log and halt the machine.
    Halt,
}

pub open spec fn disposition_spec(h: Handler) -> Disposition {
    match h {
        Handler::Breakpoint => Disposition::Resume,
        Handler::GeneralProtection => Disposition::Halt,
        Handler::DoubleFault => Disposition::Halt,
        Handler::PageFault => Disposition::DemandPage,
        Handler::Timer => Disposition::Acknowledge,
        Handler::Keyboard => Disposition::Acknowledge,
        Handler::ContextSwitch => Disposition::Reschedule,
    }
}

/// How the routine `h` ends: breakpoints resume, general-protection and
/// double faults halt, page faults go through demand paging.
pub fn disposition(h: Handler) -> (r: Disposition)
    ensures
        r == disposition_spec(h),
{
    match h {
        Handler::Breakpoint => Disposition::Resume,
        Handler::GeneralProtection => Disposition::Halt,
        Handler::DoubleFault => Disposition::Halt,
        Handler::PageFault => Disposition::DemandPage,
        Handler::Timer => Disposition::Acknowledge,
        Handler::Keyboard => Disposition::Acknowledge,
        Handler::ContextSwitch => Disposition::Reschedule,
    }
}

} // verus!
