use vstd::prelude::*;

verus! {

/// First vector of the primary legacy controller (device lines 0..8).
pub const PIC1_OFFSET: u8 = 0x20;

/// First vector of the secondary legacy controller (device lines 8..16).
pub const PIC2_OFFSET: u8 = 0x28;

/// Vector of the local (per-core) preemption timer.
pub const APIC_TIMER_VECTOR: u8 = 0x30;

/// Hardware interrupt sources and the vectors they are assigned.
#[derive(Debug, Clone, Copy, PartialEq, Eq, Structural)]
pub enum InterruptIndex {
    /// Legacy controller line 0.
    Timer,
    /// Legacy controller line 1.
    Keyboard,
    /// Local controller timer, outside the legacy range.
    ApicTimer,
}

impl InterruptIndex {
    /// The vector number assigned to this source.
    pub open spec fn vector(self) -> u8 {
        match self {
            InterruptIndex::Timer => PIC1_OFFSET,
            InterruptIndex::Keyboard => (PIC1_OFFSET + 1) as u8,
            InterruptIndex::ApicTimer => APIC_TIMER_VECTOR,
        }
    }

    pub fn as_u8(self) -> (r: u8)
        ensures
            r == self.vector(),
    {
        match self {
            InterruptIndex::Timer => PIC1_OFFSET,
            InterruptIndex::Keyboard => PIC1_OFFSET + 1,
            InterruptIndex::ApicTimer => APIC_TIMER_VECTOR,
        }
    }

    pub fn as_usize(self) -> (r: usize)
        ensures
            r == self.vector() as usize,
    {
        self.as_u8() as usize
    }
}

/// Whether a vector is one of the 32 that the CPU reserves for exceptions.
pub open spec fn is_cpu_reserved(v: int) -> bool {
    0 <= v < 32
}

/// Distinct interrupt sources are assigned distinct vectors, none of them
/// reserved for CPU exceptions; in particular the legacy timer and the local
/// timer never share a vector.
pub proof fn lemma_vectors_distinct(a: InterruptIndex, b: InterruptIndex)
    ensures
        a != b ==> a.vector() != b.vector(),
        !is_cpu_reserved(a.vector() as int),
        InterruptIndex::Timer.vector() != InterruptIndex::ApicTimer.vector(),
{
}

} // verus!
