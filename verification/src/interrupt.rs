//! Interrupt vector table and its handlers: 256 dispatch entries, one per
//! vector, installed once at boot and immutable afterward. The breakpoint
//! exception logs and resumes; the page fault logs its diagnostic and is
//! fatal by design (deliberately unimplemented); the double fault logs and
//! halts, bound to the reserved alternate stack so a corrupted primary
//! stack cannot keep it from running; the two PIC vectors dispatch to the
//! hardware IRQ handlers.
use vstd::prelude::*;
use vstd::string::StringSliceAdditionalSpecFns;
use crate::gdt::DOUBLE_FAULT_IST_INDEX;
use crate::keyboard::{decode_scancode, decoded_text_bytes, write_decoded_key, UsKeyboard};
use crate::pic::{InterruptIndex, PicPair};
use crate::vga_buffer::{write_bytes_spec, VgaWriter};

verus! {

/// Vector number of the breakpoint exception.
pub const BREAKPOINT_VECTOR: u8 = 3;

/// Vector number of the double-fault exception.
pub const DOUBLE_FAULT_VECTOR: u8 = 8;

/// Vector number of the page-fault exception.
pub const PAGE_FAULT_VECTOR: u8 = 14;

/// Number of dispatch entries the processor consults.
pub const VECTOR_COUNT: usize = 256;

/// What a vector's entry dispatches to.
#[derive(Debug, Clone, Copy, PartialEq, Eq, Structural)]
pub enum HandlerKind {
    /// No handler installed.
    Missing,
    Breakpoint,
    DoubleFault,
    PageFault,
    Timer,
    Keyboard,
}

/// One dispatch entry: the handler bound to the vector and, if set, the IST
/// slot whose stack the processor switches to before running it.
#[derive(Debug, Clone, Copy, PartialEq, Eq)]
pub struct VectorEntry {
    pub handler: HandlerKind,
    pub stack_index: Option<u16>,
}

/// The 256-entry dispatch table, index = vector number.
pub struct VectorTable {
    entries: Vec<VectorEntry>,
}

impl VectorTable {
    pub closed spec fn entries_spec(self) -> Seq<VectorEntry> {
        self.entries@
    }

    pub open spec fn wf(self) -> bool {
        self.entries_spec().len() == VECTOR_COUNT
    }

    pub open spec fn entry_spec(self, vector: u8) -> VectorEntry {
        self.entries_spec()[vector as int]
    }

    /// A table with no handler installed anywhere.
    pub fn new() -> (t: VectorTable)
        ensures
            t.wf(),
            forall|v: int|
                0 <= v < VECTOR_COUNT ==> t.entries_spec()[v] == (VectorEntry {
                    handler: HandlerKind::Missing,
                    stack_index: None,
                }),
    {
        let mut entries: Vec<VectorEntry> = Vec::new();
        let empty = VectorEntry { handler: HandlerKind::Missing, stack_index: None };
        let mut i: usize = 0;
        while i < VECTOR_COUNT
            invariant
                i <= VECTOR_COUNT,
                entries@.len() == i,
                empty == (VectorEntry { handler: HandlerKind::Missing, stack_index: None }),
                forall|v: int| 0 <= v < i ==> entries@[v] == empty,
            decreases VECTOR_COUNT - i,
        {
            entries.push(empty);
            i += 1;
        }
        VectorTable { entries }
    }

    /// Bind a handler to a vector, on the interrupted stack.
    pub fn set_handler(&mut self, vector: u8, handler: HandlerKind)
        requires
            old(self).wf(),
        ensures
            final(self).wf(),
            final(self).entries_spec() == old(self).entries_spec().update(
                vector as int,
                VectorEntry { handler, stack_index: None },
            ),
    {
        self.entries.set(vector as usize, VectorEntry { handler, stack_index: None });
    }

    /// Bind a handler to a vector and name the IST slot whose stack it runs
    /// on.
    pub fn set_handler_with_stack(&mut self, vector: u8, handler: HandlerKind, stack_index: u16)
        requires
            old(self).wf(),
        ensures
            final(self).wf(),
            final(self).entries_spec() == old(self).entries_spec().update(
                vector as int,
                VectorEntry { handler, stack_index: Some(stack_index) },
            ),
    {
        self.entries.set(
            vector as usize,
            VectorEntry { handler, stack_index: Some(stack_index) },
        );
    }

    /// The entry the processor consults for a vector.
    pub fn entry(&self, vector: u8) -> (e: VectorEntry)
        requires
            self.wf(),
        ensures
            e == self.entry_spec(vector),
    {
        self.entries[vector as usize]
    }
}

/// The boot-time shape of the table: the three exception handlers at their
/// architectural vectors, the double-fault entry bound to the reserved IST
/// slot, the two remapped PIC vectors, and nothing else installed.
pub open spec fn table_configured(t: VectorTable) -> bool {
    &&& t.wf()
    &&& t.entry_spec(BREAKPOINT_VECTOR) == (VectorEntry {
        handler: HandlerKind::Breakpoint,
        stack_index: None,
    })
    &&& t.entry_spec(DOUBLE_FAULT_VECTOR) == (VectorEntry {
        handler: HandlerKind::DoubleFault,
        stack_index: Some(DOUBLE_FAULT_IST_INDEX),
    })
    &&& t.entry_spec(PAGE_FAULT_VECTOR) == (VectorEntry {
        handler: HandlerKind::PageFault,
        stack_index: None,
    })
    &&& t.entry_spec(InterruptIndex::Timer.vector_spec()) == (VectorEntry {
        handler: HandlerKind::Timer,
        stack_index: None,
    })
    &&& t.entry_spec(InterruptIndex::Keyboard.vector_spec()) == (VectorEntry {
        handler: HandlerKind::Keyboard,
        stack_index: None,
    })
    &&& forall|v: u8|
        v != BREAKPOINT_VECTOR && v != DOUBLE_FAULT_VECTOR && v != PAGE_FAULT_VECTOR && v
            != InterruptIndex::Timer.vector_spec() && v != InterruptIndex::Keyboard.vector_spec()
            ==> #[trigger] t.entry_spec(v) == (VectorEntry {
            handler: HandlerKind::Missing,
            stack_index: None,
        })
}

/// Install the two hardware-IRQ entries at their remapped vectors.
pub fn set_pic_handlers(interrupt_descriptor_table: &mut VectorTable)
    requires
        old(interrupt_descriptor_table).wf(),
    ensures
        final(interrupt_descriptor_table).wf(),
        final(interrupt_descriptor_table).entries_spec() == old(
            interrupt_descriptor_table,
        ).entries_spec().update(
            InterruptIndex::Timer.vector_spec() as int,
            VectorEntry { handler: HandlerKind::Timer, stack_index: None },
        ).update(
            InterruptIndex::Keyboard.vector_spec() as int,
            VectorEntry { handler: HandlerKind::Keyboard, stack_index: None },
        ),
{
    interrupt_descriptor_table.set_handler(InterruptIndex::Timer.vector(), HandlerKind::Timer);
    interrupt_descriptor_table.set_handler(
        InterruptIndex::Keyboard.vector(),
        HandlerKind::Keyboard,
    );
}

/// Build the full boot-time table. Runs after the descriptor tables are
/// built, because the double-fault entry names the task state's reserved
/// stack slot; the caller loads the result into the processor exactly once,
/// and it is read-only afterward.
pub fn init() -> (t: VectorTable)
    ensures
        table_configured(t),
{
    let mut table = VectorTable::new();
    table.set_handler(BREAKPOINT_VECTOR, HandlerKind::Breakpoint);
    table.set_handler(PAGE_FAULT_VECTOR, HandlerKind::PageFault);
    table.set_handler_with_stack(
        DOUBLE_FAULT_VECTOR,
        HandlerKind::DoubleFault,
        DOUBLE_FAULT_IST_INDEX,
    );
    set_pic_handlers(&mut table);
    table
}

/// Whether execution goes on after a handler returns.
#[derive(Debug, Clone, Copy, PartialEq, Eq, Structural)]
pub enum HandlerOutcome {
    /// Control returns to the interrupted instruction stream.
    Resumed,
    /// The system halts; the handler does not return to the interrupted
    /// code.
    Halted,
}

/// The ASCII character of one hexadecimal digit value.
pub open spec fn hex_digit(d: u8) -> u8 {
    if d < 10 {
        (0x30 + d) as u8
    } else {
        (0x57 + d) as u8
    }
}

/// The sixteen hexadecimal digits of a 64-bit value, most significant
/// first.
pub open spec fn hex_digits(value: u64) -> Seq<u8> {
    Seq::new(16, |i: int| hex_digit(((value >> (((15 - i) * 4) as u64)) & 0xf) as u8))
}

/// The sixteen hexadecimal digit characters of a value, most significant
/// first.
pub fn hex_bytes(value: u64) -> (digits: Vec<u8>)
    ensures
        digits@ == hex_digits(value),
{
    let mut digits: Vec<u8> = Vec::new();
    let mut i: usize = 0;
    while i < 16
        invariant
            i <= 16,
            digits@.len() == i,
            forall|j: int| 0 <= j < i ==> digits@[j] == hex_digits(value)[j],
        decreases 16 - i,
    {
        let shift: u64 = (15 - i as u64) * 4;
        let nibble: u8 = ((value >> shift) & 0xf) as u8;
        proof {
            assert((value >> shift) & 0xf < 16) by (bit_vector);
        }
        let digit: u8 = if nibble < 10 {
            0x30 + nibble
        } else {
            0x57 + nibble
        };
        assert(digit == hex_digits(value)[i as int]);
        digits.push(digit);
        i += 1;
    }
    proof {
        assert(digits@ =~= hex_digits(value));
    }
    digits
}

/// Everything the page-fault handler prints: the exception banner, the
/// faulting address and the fault flags, in hexadecimal.
pub open spec fn page_fault_log(accessed_address: u64, error_code: u64) -> Seq<u8> {
    "EXCEPTION: PAGE FAULT\nAccessed Address: 0x".spec_bytes() + hex_digits(accessed_address)
        + "\nError Code: 0x".spec_bytes() + hex_digits(error_code) + "\n".spec_bytes()
}

/// Recoverable exception: log, then execution resumes at the interrupted
/// instruction.
pub fn breakpoint_handler(writer: &mut VgaWriter) -> (outcome: HandlerOutcome)
    requires
        old(writer).wf(),
    ensures
        outcome == HandlerOutcome::Resumed,
        final(writer).wf(),
        final(writer).color_spec() == old(writer).color_spec(),
        (final(writer).grid(), final(writer).column_spec()) == write_bytes_spec(
            old(writer).grid(),
            old(writer).column_spec(),
            "EXCEPTION: BREAKPOINT\n".spec_bytes(),
            old(writer).color_spec(),
        ),
{
    writer.write_string("EXCEPTION: BREAKPOINT\n");
    HandlerOutcome::Resumed
}

/// Fatal exception: log, then the system halts. The vector table binds this
/// handler to the reserved alternate stack, so it runs even when the
/// primary stack is corrupted or exhausted.
pub fn double_fault_handler(writer: &mut VgaWriter, _error_code: u64) -> (outcome:
    HandlerOutcome)
    requires
        old(writer).wf(),
    ensures
        outcome == HandlerOutcome::Halted,
        final(writer).wf(),
        final(writer).color_spec() == old(writer).color_spec(),
        (final(writer).grid(), final(writer).column_spec()) == write_bytes_spec(
            old(writer).grid(),
            old(writer).column_spec(),
            "EXCEPTION: DOUBLE FAULT\n".spec_bytes(),
            old(writer).color_spec(),
        ),
{
    writer.write_string("EXCEPTION: DOUBLE FAULT\n");
    HandlerOutcome::Halted
}

/// Unimplemented fault, fatal by design: log the faulting address and the
/// fault flags, then halt. Resolving the fault is deliberately out of
/// scope; this stub must stay fatal.
pub fn page_fault_handler(writer: &mut VgaWriter, accessed_address: u64, error_code: u64) -> (outcome: HandlerOutcome)
    requires
        old(writer).wf(),
    ensures
        outcome == HandlerOutcome::Halted,
        final(writer).wf(),
        final(writer).color_spec() == old(writer).color_spec(),
        (final(writer).grid(), final(writer).column_spec()) == write_bytes_spec(
            old(writer).grid(),
            old(writer).column_spec(),
            page_fault_log(accessed_address, error_code),
            old(writer).color_spec(),
        ),
{
    let ghost g0 = writer.grid();
    let ghost c0: int = writer.column_spec();
    let ghost color = writer.color_spec();
    writer.write_string("EXCEPTION: PAGE FAULT\nAccessed Address: 0x");
    let address_digits = hex_bytes(accessed_address);
    writer.write_bytes(address_digits.as_slice());
    writer.write_string("\nError Code: 0x");
    let code_digits = hex_bytes(error_code);
    writer.write_bytes(code_digits.as_slice());
    writer.write_string("\n");
    proof {
        let part1 = "EXCEPTION: PAGE FAULT\nAccessed Address: 0x".spec_bytes();
        let part2 = hex_digits(accessed_address);
        let part3 = "\nError Code: 0x".spec_bytes();
        let part4 = hex_digits(error_code);
        let part5 = "\n".spec_bytes();
        crate::vga_buffer::lemma_write_bytes_concat(g0, c0, part1, part2, color);
        crate::vga_buffer::lemma_write_bytes_concat(g0, c0, part1 + part2, part3, color);
        crate::vga_buffer::lemma_write_bytes_concat(g0, c0, part1 + part2 + part3, part4, color);
        crate::vga_buffer::lemma_write_bytes_concat(
            g0,
            c0,
            part1 + part2 + part3 + part4,
            part5,
            color,
        );
    }
    HandlerOutcome::Halted
}

/// Hardware timer IRQ: the handler body has no work to do; it signals
/// exactly one end-of-interrupt, with the timer vector.
pub fn timer_interrupt_handler(pics: &mut PicPair)
    ensures
        final(pics).eoi_log_spec() == old(pics).eoi_log_spec().push(
            InterruptIndex::Timer.vector_spec(),
        ),
        final(pics).offset1_spec() == old(pics).offset1_spec(),
        final(pics).offset2_spec() == old(pics).offset2_spec(),
{
    pics.signal_end_of_interrupt(InterruptIndex::Timer.vector());
}

/// Hardware keyboard IRQ: decode the byte read from the keyboard data port,
/// print whatever it decodes to, and signal exactly one end-of-interrupt
/// with the keyboard vector — whether or not there was a decodable event.
pub fn keyboard_interrupt_handler(
    keyboard: &mut UsKeyboard,
    writer: &mut VgaWriter,
    pics: &mut PicPair,
    scan_code: u8,
) -> (key: Option<crate::keyboard::DecodedKeyText>)
    requires
        old(writer).wf(),
    ensures
        final(pics).eoi_log_spec() == old(pics).eoi_log_spec().push(
            InterruptIndex::Keyboard.vector_spec(),
        ),
        final(pics).offset1_spec() == old(pics).offset1_spec(),
        final(pics).offset2_spec() == old(pics).offset2_spec(),
        final(writer).wf(),
        final(writer).color_spec() == old(writer).color_spec(),
        (final(writer).grid(), final(writer).column_spec()) == write_bytes_spec(
            old(writer).grid(),
            old(writer).column_spec(),
            decoded_text_bytes(key),
            old(writer).color_spec(),
        ),
{
    let key = decode_scancode(keyboard, scan_code);
    write_decoded_key(writer, &key);
    pics.signal_end_of_interrupt(InterruptIndex::Keyboard.vector());
    key
}

/// A dispatch's visible result: whether execution resumes, and which IST
/// slot's stack the handler ran on (none means the interrupted stack).
#[derive(Debug, Clone, Copy, PartialEq, Eq)]
pub struct DispatchResult {
    pub outcome: HandlerOutcome,
    pub stack_index: Option<u16>,
}

/// The processor's synchronous exception delivery against the table: it
/// switches to the alternate stack the entry names, if any, then runs the
/// entry's handler. A breakpoint logs and resumes; a double fault logs and
/// halts; a page fault logs its diagnostic and halts. A vector whose entry
/// holds no exception handler halts the system: there is nothing to recover
/// with.
pub fn dispatch_exception(
    table: &VectorTable,
    writer: &mut VgaWriter,
    vector: u8,
    accessed_address: u64,
    error_code: u64,
) -> (r: DispatchResult)
    requires
        table.wf(),
        old(writer).wf(),
    ensures
        final(writer).wf(),
        final(writer).color_spec() == old(writer).color_spec(),
        r.stack_index == table.entry_spec(vector).stack_index,
        table.entry_spec(vector).handler == HandlerKind::Breakpoint ==> (r.outcome
            == HandlerOutcome::Resumed && (final(writer).grid(), final(writer).column_spec())
            == write_bytes_spec(
            old(writer).grid(),
            old(writer).column_spec(),
            "EXCEPTION: BREAKPOINT\n".spec_bytes(),
            old(writer).color_spec(),
        )),
        table.entry_spec(vector).handler == HandlerKind::DoubleFault ==> (r.outcome
            == HandlerOutcome::Halted && (final(writer).grid(), final(writer).column_spec())
            == write_bytes_spec(
            old(writer).grid(),
            old(writer).column_spec(),
            "EXCEPTION: DOUBLE FAULT\n".spec_bytes(),
            old(writer).color_spec(),
        )),
        table.entry_spec(vector).handler == HandlerKind::PageFault ==> (r.outcome
            == HandlerOutcome::Halted && (final(writer).grid(), final(writer).column_spec())
            == write_bytes_spec(
            old(writer).grid(),
            old(writer).column_spec(),
            page_fault_log(accessed_address, error_code),
            old(writer).color_spec(),
        )),
        (table.entry_spec(vector).handler == HandlerKind::Missing || table.entry_spec(
            vector,
        ).handler == HandlerKind::Timer || table.entry_spec(vector).handler
            == HandlerKind::Keyboard) ==> (r.outcome == HandlerOutcome::Halted && *final(writer)
            == *old(writer)),
{
    let entry = table.entry(vector);
    let outcome = match entry.handler {
        HandlerKind::Breakpoint => breakpoint_handler(writer),
        HandlerKind::DoubleFault => double_fault_handler(writer, error_code),
        HandlerKind::PageFault => page_fault_handler(writer, accessed_address, error_code),
        HandlerKind::Missing => HandlerOutcome::Halted,
        HandlerKind::Timer => HandlerOutcome::Halted,
        HandlerKind::Keyboard => HandlerOutcome::Halted,
    };
    DispatchResult { outcome, stack_index: entry.stack_index }
}

} // verus!
