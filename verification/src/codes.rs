//! The values that the `keycodes` crate gives the control keys.
//!
//! Verus does not read constants of another crate, so each one is handed out
//! by a small function whose contract repeats the constant's value.

use vstd::prelude::*;

verus! {

/// Reads `keycodes::KEY_BACK_SPACE`, which that crate defines as `0x08`.
#[verifier::external_body]
pub(crate) fn key_back_space() -> (code: u8)
    ensures
        code == 0x08,
{
    keycodes::KEY_BACK_SPACE
}

/// Reads `keycodes::KEY_TAB`, which that crate defines as `0x09`.
#[verifier::external_body]
pub(crate) fn key_tab() -> (code: u8)
    ensures
        code == 0x09,
{
    keycodes::KEY_TAB
}

/// Reads `keycodes::KEY_ENTER`, which that crate defines as `0x0E`.
#[verifier::external_body]
pub(crate) fn key_enter() -> (code: u8)
    ensures
        code == 0x0E,
{
    keycodes::KEY_ENTER
}

/// Reads `keycodes::KEY_PAGE_UP`, which that crate defines as `0x21`.
#[verifier::external_body]
pub(crate) fn key_page_up() -> (code: u8)
    ensures
        code == 0x21,
{
    keycodes::KEY_PAGE_UP
}

/// Reads `keycodes::KEY_PAGE_DOWN`, which that crate defines as `0x22`.
#[verifier::external_body]
pub(crate) fn key_page_down() -> (code: u8)
    ensures
        code == 0x22,
{
    keycodes::KEY_PAGE_DOWN
}

/// Reads `keycodes::KEY_END`, which that crate defines as `0x23`.
#[verifier::external_body]
pub(crate) fn key_end() -> (code: u8)
    ensures
        code == 0x23,
{
    keycodes::KEY_END
}

/// Reads `keycodes::KEY_HOME`, which that crate defines as `0x24`.
#[verifier::external_body]
pub(crate) fn key_home() -> (code: u8)
    ensures
        code == 0x24,
{
    keycodes::KEY_HOME
}

/// Reads `keycodes::KEY_LEFT`, which that crate defines as `0x25`.
#[verifier::external_body]
pub(crate) fn key_left() -> (code: u8)
    ensures
        code == 0x25,
{
    keycodes::KEY_LEFT
}

/// Reads `keycodes::KEY_UP`, which that crate defines as `0x26`.
#[verifier::external_body]
pub(crate) fn key_up() -> (code: u8)
    ensures
        code == 0x26,
{
    keycodes::KEY_UP
}

/// Reads `keycodes::KEY_RIGHT`, which that crate defines as `0x27`.
#[verifier::external_body]
pub(crate) fn key_right() -> (code: u8)
    ensures
        code == 0x27,
{
    keycodes::KEY_RIGHT
}

/// Reads `keycodes::KEY_DOWN`, which that crate defines as `0x28`.
#[verifier::external_body]
pub(crate) fn key_down() -> (code: u8)
    ensures
        code == 0x28,
{
    keycodes::KEY_DOWN
}

/// Reads `keycodes::KEY_INSERT`, which that crate defines as `0x2D`.
#[verifier::external_body]
pub(crate) fn key_insert() -> (code: u8)
    ensures
        code == 0x2D,
{
    keycodes::KEY_INSERT
}

/// Reads `keycodes::KEY_DELETE`, which that crate defines as `0x2E`.
#[verifier::external_body]
pub(crate) fn key_delete() -> (code: u8)
    ensures
        code == 0x2E,
{
    keycodes::KEY_DELETE
}

} // verus!
