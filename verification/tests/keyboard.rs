use kernel_core::initialize_core;
use kernel_core::interrupt::keyboard_interrupt_handler;
use kernel_core::keyboard::{decode_scancode, default_keyboard, DecodedKeyText};
use kernel_core::pic::InterruptIndex;
use kernel_core::vga_buffer::BUFFER_HEIGHT;

const STACK_START: u64 = 0x0010_0000;

#[test]
fn test_letter_key_down_yields_character() {
    let mut keyboard = default_keyboard();
    // scancode set 1: 0x1e is the key-down code of the letter A
    let key = decode_scancode(&mut keyboard, 0x1e);
    assert_eq!(Some(DecodedKeyText::Unicode(String::from("a"))), key);
}

#[test]
fn test_modifier_key_down_yields_no_character() {
    let mut keyboard = default_keyboard();
    // 0x2a is the key-down code of the left shift key: no character
    let key = decode_scancode(&mut keyboard, 0x2a);
    assert!(!matches!(key, Some(DecodedKeyText::Unicode(_))));
}

#[test]
fn test_shift_changes_case() {
    let mut keyboard = default_keyboard();
    decode_scancode(&mut keyboard, 0x2a);
    let key = decode_scancode(&mut keyboard, 0x1e);
    assert_eq!(Some(DecodedKeyText::Unicode(String::from("A"))), key);
}

#[test]
fn test_modifier_release_yields_nothing() {
    let mut keyboard = default_keyboard();
    decode_scancode(&mut keyboard, 0x2a);
    // 0xaa is the key-up code of the left shift key
    let key = decode_scancode(&mut keyboard, 0xaa);
    assert_eq!(None, key);
}

#[test]
fn test_malformed_scancode_absorbed() {
    let mut keyboard = default_keyboard();
    // 0x00 maps to no key in scancode set 1: dropped silently
    let key = decode_scancode(&mut keyboard, 0x00);
    assert_eq!(None, key);
    // the decoder still works afterwards
    let key = decode_scancode(&mut keyboard, 0x1e);
    assert_eq!(Some(DecodedKeyText::Unicode(String::from("a"))), key);
}

#[test]
fn test_keyboard_irq_prints_letter_and_signals_eoi() {
    let mut core = initialize_core(STACK_START);
    let key = keyboard_interrupt_handler(
        &mut core.keyboard,
        &mut core.writer,
        &mut core.pics,
        0x1e,
    );
    assert_eq!(Some(DecodedKeyText::Unicode(String::from("a"))), key);
    assert_eq!(b'a', core.writer.char_at(BUFFER_HEIGHT - 1, 0));
    assert_eq!(1, core.writer.column());
    assert_eq!(&vec![InterruptIndex::Keyboard.vector()], core.pics.eoi_history());
}
