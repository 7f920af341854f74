//! Translation of key events to canonical single-byte keycodes.

use vstd::prelude::*;
use crate::codes;

verus! {

/// One keyboard action, as the device layer classifies it: a named key, or
/// the character that a key produced.
#[derive(Clone, Copy, Debug, PartialEq, Eq, Structural)]
pub enum KeyEvent {
    Backspace,
    Enter,
    Left,
    Right,
    Up,
    Down,
    Home,
    End,
    PageUp,
    PageDown,
    Tab,
    BackTab,
    Delete,
    Insert,
    /// A function key, with its number.
    F(u8),
    /// A key that produced a character.
    Char(char),
    Null,
    Esc,
    CapsLock,
    ScrollLock,
    NumLock,
    PrintScreen,
    Pause,
    Menu,
    KeypadBegin,
    /// A media key; which one is of no concern here.
    Media,
    /// A modifier key on its own; which one is of no concern here.
    Modifier,
}

/// Why a key event has no canonical keycode.
#[derive(Clone, Copy, Debug, PartialEq, Eq, Structural)]
pub enum EncodingError {
    /// The key is none of the named control keys and produced no character.
    UnsupportedKey,
    /// The character's code point does not fit in one byte.
    WideCharacter,
}

impl KeyEvent {
    /// The named control keys: those that have a code of their own.
    pub open spec fn is_control_key(self) -> bool {
        match self {
            KeyEvent::Backspace
            | KeyEvent::Enter
            | KeyEvent::Left
            | KeyEvent::Right
            | KeyEvent::Up
            | KeyEvent::Down
            | KeyEvent::Home
            | KeyEvent::End
            | KeyEvent::PageUp
            | KeyEvent::PageDown
            | KeyEvent::Tab
            | KeyEvent::Delete
            | KeyEvent::Insert => true,
            _ => false,
        }
    }

    /// The events that have a canonical keycode: the named control keys and
    /// the characters whose code point fits in one byte.
    pub open spec fn is_supported(self) -> bool {
        self.is_control_key() || (self matches KeyEvent::Char(ch) && fits_one_byte(ch))
    }
}

/// The value that the `keycodes` crate gives a named control key. On any
/// other event the value is 0 and means nothing.
pub open spec fn raw_control_code(event: KeyEvent) -> u8 {
    match event {
        KeyEvent::Backspace => 0x08,
        KeyEvent::Tab => 0x09,
        KeyEvent::Enter => 0x0E,
        KeyEvent::PageUp => 0x21,
        KeyEvent::PageDown => 0x22,
        KeyEvent::End => 0x23,
        KeyEvent::Home => 0x24,
        KeyEvent::Left => 0x25,
        KeyEvent::Up => 0x26,
        KeyEvent::Right => 0x27,
        KeyEvent::Down => 0x28,
        KeyEvent::Insert => 0x2D,
        KeyEvent::Delete => 0x2E,
        _ => 0,
    }
}

/// Whether a byte is a printable ASCII value: `0x20` to `0x7E`.
pub open spec fn is_printable_ascii(byte: u8) -> bool {
    0x20 <= byte <= 0x7E
}

/// Whether a code lies where control codes belong: at most 31, or at least
/// 127. No printable ASCII value does.
pub open spec fn in_control_range(code: u8) -> bool {
    code <= 31 || code >= 127
}

/// A raw value moved into the control range: a printable ASCII value gets
/// its top bit set, that is `0x80` added; any other value stays.
pub open spec fn moved_to_control_range(raw: u8) -> u8 {
    if is_printable_ascii(raw) {
        (raw + 0x80) as u8
    } else {
        raw
    }
}

/// The code of a named control key: the value that the `keycodes` crate
/// gives it, moved into the control range. On any other event the value is
/// 0 and means nothing.
pub open spec fn control_code(event: KeyEvent) -> u8 {
    moved_to_control_range(raw_control_code(event))
}

/// Whether a character's code point is at most `0xFF`.
pub open spec fn fits_one_byte(ch: char) -> bool {
    ch as u32 <= 0xFF
}

/// The canonical keycode of a key event, or the reason why it has none.
pub open spec fn keycode_of(event: KeyEvent) -> Result<u8, EncodingError> {
    if event.is_control_key() {
        Ok(control_code(event))
    } else if let KeyEvent::Char(ch) = event {
        if fits_one_byte(ch) {
            Ok(ch as u8)
        } else {
            Err(EncodingError::WideCharacter)
        }
    } else {
        Err(EncodingError::UnsupportedKey)
    }
}

/// Moves a raw value into the control range by setting the top bit of a
/// printable ASCII value.
fn to_control_range(raw: u8) -> (code: u8)
    ensures
        code == moved_to_control_range(raw),
        in_control_range(code),
{
    if 0x20 <= raw && raw <= 0x7E {
        assert(raw | 0x80 == raw + 0x80) by (bit_vector)
            requires
                raw <= 0x7E,
        ;
        raw | 0x80
    } else {
        raw
    }
}

/// Translates a key event to its canonical keycode.
///
/// A named control key gives its fixed code, a character gives its code
/// point where that fits in one byte. Every other event is refused with the
/// reason; no event makes the translation fail in any other way.
///
/// The code of a control key is never a printable ASCII value: where the
/// `keycodes` crate gives a key such a value, the code is that value with
/// the top bit set (`Left` is `0x25` there and `0xA5` here).
pub fn key_event_to_keycode(event: KeyEvent) -> (res: Result<u8, EncodingError>)
    ensures
        res == keycode_of(event),
        res is Ok <==> event.is_supported(),
        event.is_control_key() ==> res is Ok && in_control_range(res->Ok_0),
        res == Err::<u8, EncodingError>(EncodingError::WideCharacter) <==> (event matches KeyEvent::Char(ch)
            && !fits_one_byte(ch)),
        res == Err::<u8, EncodingError>(EncodingError::UnsupportedKey) <==> !event.is_control_key()
            && !(event is Char),
{
    match event {
        KeyEvent::Backspace => Ok(to_control_range(codes::key_back_space())),
        KeyEvent::Enter => Ok(to_control_range(codes::key_enter())),
        KeyEvent::Left => Ok(to_control_range(codes::key_left())),
        KeyEvent::Right => Ok(to_control_range(codes::key_right())),
        KeyEvent::Up => Ok(to_control_range(codes::key_up())),
        KeyEvent::Down => Ok(to_control_range(codes::key_down())),
        KeyEvent::Home => Ok(to_control_range(codes::key_home())),
        KeyEvent::End => Ok(to_control_range(codes::key_end())),
        KeyEvent::PageUp => Ok(to_control_range(codes::key_page_up())),
        KeyEvent::PageDown => Ok(to_control_range(codes::key_page_down())),
        KeyEvent::Tab => Ok(to_control_range(codes::key_tab())),
        KeyEvent::Delete => Ok(to_control_range(codes::key_delete())),
        KeyEvent::Insert => Ok(to_control_range(codes::key_insert())),
        KeyEvent::Char(ch) => {
            if ch as u32 <= 0xFF {
                Ok(ch as u8)
            } else {
                Err(EncodingError::WideCharacter)
            }
        },
        _ => Err(EncodingError::UnsupportedKey),
    }
}

/// Every named control key and every character that fits in one byte has a
/// keycode.
pub proof fn supported_events_have_a_keycode(event: KeyEvent)
    requires
        event.is_supported(),
    ensures
        keycode_of(event) is Ok,
        event.is_control_key() ==> keycode_of(event) == Ok::<u8, EncodingError>(
            control_code(event),
        ),
        event matches KeyEvent::Char(ch) ==> keycode_of(event) == Ok::<u8, EncodingError>(ch as u8)
            && keycode_of(event)->Ok_0 as u32 == ch as u32,
{
}

/// The code of a control key lies in the control range, at most 31 or at
/// least 127; it is never a printable ASCII value, and so never the keycode
/// of a printable ASCII character.
pub proof fn control_codes_are_in_the_control_range(event: KeyEvent)
    requires
        event.is_control_key(),
    ensures
        in_control_range(control_code(event)),
        !is_printable_ascii(control_code(event)),
        keycode_of(event) == Ok::<u8, EncodingError>(control_code(event)),
        forall|ch: char|
            is_printable_ascii(ch as u8) && fits_one_byte(ch) ==> #[trigger] keycode_of(
                KeyEvent::Char(ch),
            ) != keycode_of(event),
{
}

/// Moving a value into the control range always lands there, leaves a value
/// that is there already as it is, and keeps two different ASCII values
/// apart.
pub proof fn control_range_move_is_sound(a: u8, b: u8)
    ensures
        in_control_range(moved_to_control_range(a)),
        in_control_range(a) ==> moved_to_control_range(a) == a,
        a <= 0x7F && b <= 0x7F && a != b ==> moved_to_control_range(a)
            != moved_to_control_range(b),
{
}

/// Two different control keys never share a code.
pub proof fn control_codes_are_distinct(a: KeyEvent, b: KeyEvent)
    requires
        a.is_control_key(),
        b.is_control_key(),
        a != b,
    ensures
        control_code(a) != control_code(b),
        keycode_of(a) != keycode_of(b),
{
}

/// A character whose code point needs more than one byte is refused as too
/// wide.
pub proof fn wide_characters_are_rejected(ch: char)
    requires
        !fits_one_byte(ch),
    ensures
        keycode_of(KeyEvent::Char(ch)) == Err::<u8, EncodingError>(EncodingError::WideCharacter),
{
}

/// An event that is neither a control key nor a character is refused as
/// unsupported.
pub proof fn other_keys_are_rejected(event: KeyEvent)
    requires
        !event.is_control_key(),
        !(event is Char),
    ensures
        keycode_of(event) == Err::<u8, EncodingError>(EncodingError::UnsupportedKey),
{
}

} // verus!
