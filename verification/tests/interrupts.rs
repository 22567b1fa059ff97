use kernel_core::gdt;
use kernel_core::initialize_core;
use kernel_core::interrupt::{
    dispatch_exception, hex_bytes, keyboard_interrupt_handler, timer_interrupt_handler,
    HandlerKind, HandlerOutcome, BREAKPOINT_VECTOR, DOUBLE_FAULT_VECTOR, PAGE_FAULT_VECTOR,
};
use kernel_core::pic::{InterruptIndex, PicPair, PIC_1_OFFSET, PIC_2_OFFSET};
use kernel_core::vga_buffer::BUFFER_HEIGHT;

const STACK_START: u64 = 0x0010_0000;

fn row_text(core: &kernel_core::CoreState, row: usize, len: usize) -> String {
    let mut text = String::new();
    for col in 0..len {
        text.push(core.writer.char_at(row, col) as char);
    }
    text
}

#[test]
fn test_gdt_init_reserved_stack_top() {
    let (tss, accessor) = gdt::init(STACK_START);
    // the slot holds the *top* of the region: base plus size
    assert_eq!(
        STACK_START + gdt::DOUBLE_FAULT_STACK_SIZE,
        tss.interrupt_stack_table[gdt::DOUBLE_FAULT_IST_INDEX as usize]
    );
    for i in 1..gdt::IST_ENTRIES {
        assert_eq!(0, tss.interrupt_stack_table[i]);
    }
    assert_eq!(3, accessor.global_descriptor_table.descriptor_count());
    assert_eq!(
        gdt::SegmentDescriptor::Null,
        accessor.global_descriptor_table.descriptor_at(0)
    );
    assert_eq!(
        gdt::SegmentDescriptor::KernelCode,
        accessor.global_descriptor_table.descriptor_at(1)
    );
    assert_eq!(
        gdt::SegmentDescriptor::TaskState,
        accessor.global_descriptor_table.descriptor_at(2)
    );
    assert_eq!(1, accessor.code_selector.index);
    assert_eq!(2, accessor.tss_selector.index);
}

#[test]
fn test_vector_table_layout() {
    let core = initialize_core(STACK_START);
    let table = &core.interrupt_table;
    assert_eq!(HandlerKind::Breakpoint, table.entry(BREAKPOINT_VECTOR).handler);
    assert_eq!(None, table.entry(BREAKPOINT_VECTOR).stack_index);
    assert_eq!(HandlerKind::DoubleFault, table.entry(DOUBLE_FAULT_VECTOR).handler);
    assert_eq!(
        Some(gdt::DOUBLE_FAULT_IST_INDEX),
        table.entry(DOUBLE_FAULT_VECTOR).stack_index
    );
    assert_eq!(HandlerKind::PageFault, table.entry(PAGE_FAULT_VECTOR).handler);
    assert_eq!(HandlerKind::Timer, table.entry(PIC_1_OFFSET).handler);
    assert_eq!(HandlerKind::Keyboard, table.entry(PIC_1_OFFSET + 1).handler);
    assert_eq!(HandlerKind::Missing, table.entry(0).handler);
    assert_eq!(HandlerKind::Missing, table.entry(255).handler);
    assert_eq!(HandlerKind::Missing, table.entry(PIC_2_OFFSET).handler);
}

#[test]
fn test_breakpoint_resumes() {
    let mut core = initialize_core(STACK_START);
    let result = dispatch_exception(
        &core.interrupt_table,
        &mut core.writer,
        BREAKPOINT_VECTOR,
        0,
        0,
    );
    assert_eq!(HandlerOutcome::Resumed, result.outcome);
    assert_eq!(None, result.stack_index);
    assert_eq!(
        "EXCEPTION: BREAKPOINT",
        row_text(&core, BUFFER_HEIGHT - 2, "EXCEPTION: BREAKPOINT".len())
    );
}

#[test]
fn test_double_fault_halts_on_reserved_stack() {
    let mut core = initialize_core(STACK_START);
    let result = dispatch_exception(
        &core.interrupt_table,
        &mut core.writer,
        DOUBLE_FAULT_VECTOR,
        0,
        0,
    );
    assert_eq!(HandlerOutcome::Halted, result.outcome);
    // the handler ran on the reserved alternate stack named by the table
    assert_eq!(Some(gdt::DOUBLE_FAULT_IST_INDEX), result.stack_index);
    assert_eq!(
        "EXCEPTION: DOUBLE FAULT",
        row_text(&core, BUFFER_HEIGHT - 2, "EXCEPTION: DOUBLE FAULT".len())
    );
}

#[test]
fn test_page_fault_fatal_with_diagnostic() {
    let mut core = initialize_core(STACK_START);
    let result = dispatch_exception(
        &core.interrupt_table,
        &mut core.writer,
        PAGE_FAULT_VECTOR,
        0xdead,
        0x2,
    );
    assert_eq!(HandlerOutcome::Halted, result.outcome);
    assert_eq!(
        "EXCEPTION: PAGE FAULT",
        row_text(&core, BUFFER_HEIGHT - 4, "EXCEPTION: PAGE FAULT".len())
    );
    assert_eq!(
        "Accessed Address: 0x000000000000dead",
        row_text(&core, BUFFER_HEIGHT - 3, 36)
    );
    assert_eq!("Error Code: 0x0000000000000002", row_text(&core, BUFFER_HEIGHT - 2, 30));
}

#[test]
fn test_unhandled_vector_halts() {
    let mut core = initialize_core(STACK_START);
    let result = dispatch_exception(&core.interrupt_table, &mut core.writer, 99, 0, 0);
    assert_eq!(HandlerOutcome::Halted, result.outcome);
    assert_eq!(None, result.stack_index);
}

#[test]
fn test_hex_bytes_exact() {
    assert_eq!(b"000000000000dead".to_vec(), hex_bytes(0xdead));
    assert_eq!(b"0000000000000000".to_vec(), hex_bytes(0));
    assert_eq!(b"ffffffffffffffff".to_vec(), hex_bytes(u64::MAX));
    assert_eq!(b"0123456789abcdef".to_vec(), hex_bytes(0x0123_4567_89ab_cdef));
}

#[test]
fn test_timer_irq_signals_one_eoi() {
    let mut pics = PicPair::new(PIC_1_OFFSET, PIC_2_OFFSET);
    timer_interrupt_handler(&mut pics);
    assert_eq!(&vec![InterruptIndex::Timer.vector()], pics.eoi_history());
    timer_interrupt_handler(&mut pics);
    assert_eq!(2, pics.eoi_history().len());
}

#[test]
fn test_keyboard_irq_signals_eoi_without_event() {
    let mut core = initialize_core(STACK_START);
    // 0xe0 opens an extended sequence: no event completes, yet the EOI
    // is still signalled, with the keyboard vector
    let key = keyboard_interrupt_handler(
        &mut core.keyboard,
        &mut core.writer,
        &mut core.pics,
        0xe0,
    );
    assert!(key.is_none());
    assert_eq!(&vec![InterruptIndex::Keyboard.vector()], core.pics.eoi_history());
    // the grid stays blank
    assert_eq!(b' ', core.writer.char_at(BUFFER_HEIGHT - 1, 0));
    assert_eq!(0, core.writer.column());
}

#[test]
fn test_irq_vector_numbers() {
    assert_eq!(32, InterruptIndex::Timer.vector());
    assert_eq!(33, InterruptIndex::Keyboard.vector());
    assert_eq!(32, PIC_1_OFFSET);
    assert_eq!(40, PIC_2_OFFSET);
}
