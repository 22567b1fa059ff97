//! Dual-PIC controller model: the two chained interrupt controllers'
//! programmed vector bases and the record of end-of-interrupt signals, plus
//! the hardware IRQ vector names the kernel uses.
use vstd::prelude::*;

verus! {

/// Vector base the first controller's IRQ lines are remapped to.
pub const PIC_1_OFFSET: u8 = 32;

/// Vector base the second controller's IRQ lines are remapped to.
pub const PIC_2_OFFSET: u8 = PIC_1_OFFSET + 8;

/// Symbolic names of the remapped hardware IRQ vectors this kernel serves.
#[derive(Debug, Clone, Copy, PartialEq, Eq, Structural)]
pub enum InterruptIndex {
    Timer,
    Keyboard,
}

impl InterruptIndex {
    /// The vector number the IRQ line is remapped to: the first controller's
    /// base plus the line number.
    pub open spec fn vector_spec(self) -> u8 {
        match self {
            InterruptIndex::Timer => PIC_1_OFFSET,
            InterruptIndex::Keyboard => (PIC_1_OFFSET + 1) as u8,
        }
    }

    pub fn vector(self) -> (v: u8)
        ensures
            v == self.vector_spec(),
    {
        match self {
            InterruptIndex::Timer => PIC_1_OFFSET,
            InterruptIndex::Keyboard => PIC_1_OFFSET + 1,
        }
    }
}

/// State of the two chained controllers: the vector bases chosen once at
/// initialization, and the end-of-interrupt signals sent so far, oldest
/// first. The log is the model of the controller-facing port writes; the
/// layer that talks to the hardware replays it onto the ports.
pub struct PicPair {
    offset1: u8,
    offset2: u8,
    eoi_log: Vec<u8>,
}

impl PicPair {
    pub closed spec fn offset1_spec(self) -> u8 {
        self.offset1
    }

    pub closed spec fn offset2_spec(self) -> u8 {
        self.offset2
    }

    pub closed spec fn eoi_log_spec(self) -> Seq<u8> {
        self.eoi_log@
    }

    /// True when one of the two controllers delivers this vector.
    pub open spec fn handles_vector(self, vector: u8) -> bool {
        ||| self.offset1_spec() <= vector < self.offset1_spec() + 8
        ||| self.offset2_spec() <= vector < self.offset2_spec() + 8
    }

    /// Remap the two controllers: lines 0-7 land on `offset1..offset1+8`,
    /// lines 8-15 on `offset2..offset2+8`. Chosen once; never reconfigured.
    pub fn new(offset1: u8, offset2: u8) -> (p: PicPair)
        ensures
            p.offset1_spec() == offset1,
            p.offset2_spec() == offset2,
            p.eoi_log_spec() =~= Seq::<u8>::empty(),
    {
        PicPair { offset1, offset2, eoi_log: Vec::new() }
    }

    /// Record one end-of-interrupt signal for the vector just serviced.
    /// A hardware IRQ handler calls this exactly once, after its work.
    pub fn signal_end_of_interrupt(&mut self, vector: u8)
        ensures
            final(self).eoi_log_spec() == old(self).eoi_log_spec().push(vector),
            final(self).offset1_spec() == old(self).offset1_spec(),
            final(self).offset2_spec() == old(self).offset2_spec(),
    {
        self.eoi_log.push(vector);
    }

    /// The end-of-interrupt signals sent so far, oldest first.
    pub fn eoi_history(&self) -> (h: &Vec<u8>)
        ensures
            h@ == self.eoi_log_spec(),
    {
        &self.eoi_log
    }
}

/// Both vectors the kernel's IRQ handlers signal end-of-interrupt for are
/// vectors the controllers, programmed at their boot offsets, deliver.
pub proof fn lemma_irq_vectors_handled(p: PicPair)
    requires
        p.offset1_spec() == PIC_1_OFFSET,
        p.offset2_spec() == PIC_2_OFFSET,
    ensures
        p.handles_vector(InterruptIndex::Timer.vector_spec()),
        p.handles_vector(InterruptIndex::Keyboard.vector_spec()),
{
}

} // verus!
