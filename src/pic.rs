use vstd::prelude::*;
use crate::vectors::{PIC1_OFFSET, PIC2_OFFSET};

verus! {

/// Command port of the primary legacy controller.
pub const PIC1_COMMAND: u16 = 0x20;

/// Command port of the secondary legacy controller.
pub const PIC2_COMMAND: u16 = 0xa0;

/// The end-of-interrupt command byte.
pub const CMD_END_OF_INTERRUPT: u8 = 0x20;

/// The two cascaded legacy controllers, each remapped to a base vector; each
/// serves eight consecutive vectors from its base.
pub struct ChainedPics {
    primary_offset: u8,
    secondary_offset: u8,
}

impl ChainedPics {
    pub closed spec fn primary(&self) -> int {
        self.primary_offset as int
    }

    pub closed spec fn secondary(&self) -> int {
        self.secondary_offset as int
    }

    /// Both ranges fit below 256 and do not overlap.
    pub open spec fn wf(&self) -> bool {
        &&& self.primary() + 8 <= 256
        &&& self.secondary() + 8 <= 256
        &&& (self.primary() + 8 <= self.secondary() || self.secondary() + 8 <= self.primary())
    }

    pub open spec fn in_primary(&self, id: int) -> bool {
        self.primary() <= id < self.primary() + 8
    }

    pub open spec fn in_secondary(&self, id: int) -> bool {
        self.secondary() <= id < self.secondary() + 8
    }

    /// The vector that device line `line` (0..16) raises.
    pub open spec fn line_vector_spec(&self, line: int) -> int {
        if line < 8 {
            self.primary() + line
        } else {
            self.secondary() + line - 8
        }
    }

    pub fn new(primary_offset: u8, secondary_offset: u8) -> (r: ChainedPics)
        requires
            primary_offset + 8 <= 256,
            secondary_offset + 8 <= 256,
            primary_offset + 8 <= secondary_offset || secondary_offset + 8 <= primary_offset,
        ensures
            r.wf(),
            r.primary() == primary_offset,
            r.secondary() == secondary_offset,
    {
        ChainedPics { primary_offset, secondary_offset }
    }

    /// The kernel's controllers: remapped just above the CPU-reserved vectors.
    pub fn kernel_default() -> (r: ChainedPics)
        ensures
            r.wf(),
            r.primary() == PIC1_OFFSET,
            r.secondary() == PIC2_OFFSET,
    {
        ChainedPics::new(PIC1_OFFSET, PIC2_OFFSET)
    }

    /// Whether one of the two controllers serves vector `id`.
    pub fn handles_interrupt(&self, id: u8) -> (r: bool)
        requires
            self.wf(),
        ensures
            r == (self.in_primary(id as int) || self.in_secondary(id as int)),
    {
        (self.primary_offset <= id && id - self.primary_offset < 8) || (self.secondary_offset
            <= id && id - self.secondary_offset < 8)
    }

    /// The vector raised by device line `line`.
    pub fn line_vector(&self, line: u8) -> (r: u8)
        requires
            self.wf(),
            line < 16,
        ensures
            r == self.line_vector_spec(line as int),
    {
        if line < 8 {
            self.primary_offset + line
        } else {
            self.secondary_offset + (line - 8)
        }
    }

    /// The command ports that receive an end of interrupt for vector `id`:
    /// the secondary first when it raised the vector, then always the
    /// primary, which it is chained through. Empty for a vector that neither
    /// controller serves.
    pub fn end_of_interrupt_ports(&self, id: u8) -> (r: Vec<u16>)
        requires
            self.wf(),
        ensures
            self.in_secondary(id as int) ==> r@ == seq![PIC2_COMMAND, PIC1_COMMAND],
            self.in_primary(id as int) ==> r@ == seq![PIC1_COMMAND],
            !self.in_primary(id as int) && !self.in_secondary(id as int) ==> r@.len() == 0,
    {
        let mut ports: Vec<u16> = Vec::new();
        if self.handles_interrupt(id) {
            if self.secondary_offset <= id && id - self.secondary_offset < 8 {
                ports.push(PIC2_COMMAND);
            }
            ports.push(PIC1_COMMAND);
        }
        ports
    }
}

/// Distinct device lines raise distinct vectors, none of them reserved for
/// CPU exceptions once the controllers are remapped at or above 32.
pub proof fn lemma_line_vectors_distinct(p: ChainedPics, a: int, b: int)
    requires
        p.wf(),
        0 <= a < 16,
        0 <= b < 16,
        a != b,
    ensures
        p.line_vector_spec(a) != p.line_vector_spec(b),
        p.primary() >= 32 && p.secondary() >= 32 ==> p.line_vector_spec(a) >= 32,
{
}

} // verus!
