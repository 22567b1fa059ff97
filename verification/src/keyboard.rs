//! Keyboard scancode decoder: a stateful converter from raw scancode bytes
//! into decoded key events, built on the pc_keyboard crate's scancode-set-1
//! decoder with the US-104 layout. Malformed or unrecognized byte sequences
//! are absorbed silently; the decoder never fails on any input byte.
use vstd::prelude::*;
use crate::vga_buffer::{write_bytes_spec, VgaWriter};

verus! {

/// pc_keyboard's scancode-set-1 state machine, declared opaquely.
#[verifier::external_type_specification]
#[verifier::external_body]
pub struct ExScancodeSet1(pc_keyboard::ScancodeSet1);

/// pc_keyboard's key event (key code plus up/down state), declared opaquely.
#[verifier::external_type_specification]
#[verifier::external_body]
pub struct ExKeyEvent(pc_keyboard::KeyEvent);

/// pc_keyboard's decoded key (a Unicode character or a raw key code),
/// declared opaquely.
#[verifier::external_type_specification]
#[verifier::external_body]
pub struct ExDecodedKey(pc_keyboard::DecodedKey);

/// The decoder this kernel drives: pc_keyboard's scancode-set-1 decoder
/// with the US-104 layout, held opaquely (its internal sequence buffer and
/// modifier state are pc_keyboard's own).
#[verifier::external_body]
pub struct UsKeyboard {
    inner: pc_keyboard::Keyboard<pc_keyboard::layouts::Us104Key, pc_keyboard::ScancodeSet1>,
}

/// A decoded key as text: the Unicode character a key press stands for, or
/// the name of a key that has no printable mapping.
#[derive(Debug, PartialEq, Eq)]
pub enum DecodedKeyText {
    Unicode(String),
    RawKey(String),
}

/// Relies on pc_keyboard::ScancodeSet1::new: a scancode-set-1 decoder in
/// its start state.
#[verifier::external_body]
fn new_scancode_set1() -> pc_keyboard::ScancodeSet1 {
    pc_keyboard::ScancodeSet1::new()
}

/// Relies on pc_keyboard::Keyboard::new: a keyboard decoder over the given
/// scancode set with the US-104 layout, control keys passed through
/// unchanged.
#[verifier::external_body]
fn new_us_keyboard(scancode_set: pc_keyboard::ScancodeSet1) -> UsKeyboard {
    UsKeyboard {
        inner: pc_keyboard::Keyboard::new(
            scancode_set,
            pc_keyboard::layouts::Us104Key,
            pc_keyboard::HandleControl::Ignore,
        ),
    }
}

/// A fresh keyboard decoder in its start state.
pub fn default_keyboard() -> UsKeyboard {
    new_us_keyboard(new_scancode_set1())
}

/// Relies on pc_keyboard::Keyboard::add_byte: consumes one raw scancode
/// byte, returns a completed key event once a full sequence is recognized
/// and nothing while a multi-byte sequence is still incomplete. A malformed
/// byte yields an error, dropped here: malformed input is absorbed, never
/// propagated.
#[verifier::external_body]
fn kbd_add_byte(keyboard: &mut UsKeyboard, byte: u8) -> Option<pc_keyboard::KeyEvent> {
    match keyboard.inner.add_byte(byte) {
        Ok(event) => event,
        Err(_) => None,
    }
}

/// Relies on pc_keyboard::Keyboard::process_keyevent: applies the tracked
/// modifier state (shift, caps lock, ...) to map a key event to a decoded
/// key, or to nothing for an event with no mapping.
#[verifier::external_body]
fn kbd_process_keyevent(
    keyboard: &mut UsKeyboard,
    event: pc_keyboard::KeyEvent,
) -> Option<pc_keyboard::DecodedKey> {
    keyboard.inner.process_keyevent(event)
}

/// Relies on pc_keyboard::DecodedKey: tells its two variants apart, turning
/// the Unicode character into its text and a raw key code into its name.
#[verifier::external_body]
fn decoded_key_text(key: pc_keyboard::DecodedKey) -> DecodedKeyText {
    match key {
        pc_keyboard::DecodedKey::Unicode(character) => DecodedKeyText::Unicode(
            format!("{}", character),
        ),
        pc_keyboard::DecodedKey::RawKey(key_code) => DecodedKeyText::RawKey(
            format!("{:?}", key_code),
        ),
    }
}

/// Feed one raw scancode byte to the decoder. A byte that completes a
/// recognized sequence for a key with a decodable mapping yields that key's
/// text; an incomplete, unmapped or malformed byte yields nothing.
pub fn decode_scancode(keyboard: &mut UsKeyboard, byte: u8) -> Option<DecodedKeyText> {
    match kbd_add_byte(keyboard, byte) {
        Some(event) => match kbd_process_keyevent(keyboard, event) {
            Some(key) => Some(decoded_key_text(key)),
            None => None,
        },
        None => None,
    }
}

/// The UTF-8 bytes a decoded key prints: the character's own encoding, or
/// the raw key's name; nothing prints for no key.
pub open spec fn decoded_text_bytes(key: Option<DecodedKeyText>) -> Seq<u8> {
    match key {
        Option::None => Seq::empty(),
        Option::Some(DecodedKeyText::Unicode(text)) => vstd::utf8::encode_utf8(text@),
        Option::Some(DecodedKeyText::RawKey(name)) => vstd::utf8::encode_utf8(name@),
    }
}

/// Print a decoded key to the video grid: exactly the key's text, in order;
/// nothing for no key.
pub fn write_decoded_key(writer: &mut VgaWriter, key: &Option<DecodedKeyText>)
    requires
        old(writer).wf(),
    ensures
        final(writer).wf(),
        final(writer).color_spec() == old(writer).color_spec(),
        (final(writer).grid(), final(writer).column_spec()) == write_bytes_spec(
            old(writer).grid(),
            old(writer).column_spec(),
            decoded_text_bytes(*key),
            old(writer).color_spec(),
        ),
{
    match key {
        Option::Some(DecodedKeyText::Unicode(text)) => writer.write_string(text.as_str()),
        Option::Some(DecodedKeyText::RawKey(name)) => writer.write_string(name.as_str()),
        Option::None => {},
    }
}

} // verus!
