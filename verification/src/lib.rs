//! Hardware-facing core of a small single-core x86 kernel: descriptor tables,
//! an interrupt vector table with exception and IRQ handlers, a dual-PIC
//! controller model, a keyboard scancode decoder, and text-mode video and
//! serial output drivers.
//!
//! All hardware registers are modelled as explicit state owned by the library;
//! the thin layer that touches real ports and memory-mapped RAM lives outside
//! of it and mirrors this state onto the machine.
use vstd::prelude::*;

pub mod gdt;
pub mod interrupt;
pub mod keyboard;
pub mod pic;
pub mod serial;
pub mod vga_buffer;

verus! {

/// Everything the core owns: the boot-time tables and the device state. One
/// instance exists per boot; the layer around the core constructs it once
/// through `initialize_core` and passes it to whichever handler needs it.
pub struct CoreState {
    pub task_state_segment: gdt::TaskStateSegment,
    pub global_descriptor_table: gdt::GlobalDescriptorTableAccessor,
    pub interrupt_table: interrupt::VectorTable,
    pub pics: pic::PicPair,
    pub keyboard: keyboard::UsKeyboard,
    pub writer: vga_buffer::VgaWriter,
    pub serial: serial::SerialPort,
}

impl CoreState {
    /// The boot invariants: the vector table is fully configured with the
    /// double-fault entry bound to the reserved alternate stack, the PIC
    /// bases hold their chosen offsets, and the video state is sound.
    pub open spec fn wf(self) -> bool {
        &&& self.task_state_segment.wf()
        &&& interrupt::table_configured(self.interrupt_table)
        &&& self.pics.offset1_spec() == pic::PIC_1_OFFSET
        &&& self.pics.offset2_spec() == pic::PIC_2_OFFSET
        &&& self.writer.wf()
    }
}

/// Boot-time setup, run exactly once: the descriptor tables first (the task
/// state's reserved slot takes the double-fault stack top), then the
/// interrupt vector table (whose double-fault entry names that slot), then
/// the device state: remapped PICs with an empty end-of-interrupt record, a
/// fresh keyboard decoder, a blank video grid, an untouched serial port.
pub fn initialize_core(double_fault_stack_start: u64) -> (core: CoreState)
    requires
        double_fault_stack_start + gdt::DOUBLE_FAULT_STACK_SIZE <= u64::MAX,
    ensures
        core.wf(),
        gdt::descriptor_tables_configured(
            core.task_state_segment,
            core.global_descriptor_table,
            double_fault_stack_start,
        ),
        core.pics.eoi_log_spec() =~= Seq::<u8>::empty(),
        core.writer.color_spec() == vga_buffer::color_code_spec(
            vga_buffer::Color::LightBlue,
            vga_buffer::Color::Black,
        ),
        core.writer.grid() =~= vga_buffer::blank_grid(core.writer.color_spec()),
        core.writer.column_spec() == 0,
        core.serial.transmitted_spec() =~= Seq::<u8>::empty(),
        !core.serial.initialized_spec(),
{
    let (task_state_segment, global_descriptor_table) = gdt::init(double_fault_stack_start);
    let interrupt_table = interrupt::init();
    let pics = pic::PicPair::new(pic::PIC_1_OFFSET, pic::PIC_2_OFFSET);
    let keyboard = keyboard::default_keyboard();
    let writer = vga_buffer::VgaWriter::new(
        vga_buffer::ColorCode::new(vga_buffer::Color::LightBlue, vga_buffer::Color::Black),
    );
    let serial = serial::SerialPort::new();
    CoreState {
        task_state_segment,
        global_descriptor_table,
        interrupt_table,
        pics,
        keyboard,
        writer,
        serial,
    }
}

} // verus!
