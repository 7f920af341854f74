//! The two control sequences that open every frame, as `crossterm` writes
//! them.

use vstd::prelude::*;

verus! {

/// The decimal digits of `n` as ASCII bytes, most significant first.
pub open spec fn decimal_digits(n: nat) -> Seq<u8>
    decreases n,
{
    if n < 10 {
        seq![(0x30 + n) as u8]
    } else {
        decimal_digits(n / 10).push((0x30 + n % 10) as u8)
    }
}

/// The sequence that moves the cursor to a column and a row, both counted
/// from zero: `ESC [ row+1 ; col+1 H`.
pub open spec fn move_to(col: u16, row: u16) -> Seq<u8> {
    seq![0x1Bu8, 0x5Bu8] + decimal_digits((row + 1) as nat) + seq![0x3Bu8] + decimal_digits(
        (col + 1) as nat,
    ) + seq![0x48u8]
}

/// The sequence that clears the whole screen: `ESC [ 2 J`.
pub open spec fn clear_all() -> Seq<u8> {
    seq![0x1Bu8, 0x5Bu8, 0x32u8, 0x4Au8]
}

/// The sequence that moves the cursor to the upper left corner is
/// `ESC [ 1 ; 1 H`.
pub proof fn move_to_origin_bytes()
    ensures
        move_to(0, 0) == seq![0x1Bu8, 0x5Bu8, 0x31u8, 0x3Bu8, 0x31u8, 0x48u8],
{
    assert(decimal_digits(1) == seq![0x31u8]);
    assert(move_to(0, 0) =~= seq![0x1Bu8, 0x5Bu8, 0x31u8, 0x3Bu8, 0x31u8, 0x48u8]);
}

/// Has `crossterm` write the ANSI form of its `MoveTo` command
/// (`Command::write_ansi`) and hands back the bytes. The command prints the
/// escape character, `[`, the row plus one and the column plus one in
/// decimal with `;` between them, and `H`. It adds the one in `u16`, so the
/// largest column and row are left out.
#[verifier::external_body]
pub(crate) fn move_to_sequence(col: u16, row: u16) -> (bytes: Vec<u8>)
    requires
        col < 0xFFFF,
        row < 0xFFFF,
    ensures
        bytes@ == move_to(col, row),
{
    let mut text = String::new();
    let _ = crossterm::Command::write_ansi(&crossterm::cursor::MoveTo(col, row), &mut text);
    text.into_bytes()
}

/// Has `crossterm` write the ANSI form of its `Clear` command for the whole
/// screen (`Command::write_ansi` on `Clear(ClearType::All)`) and hands back
/// the bytes: the escape character and `[2J`.
#[verifier::external_body]
pub(crate) fn clear_all_sequence() -> (bytes: Vec<u8>)
    ensures
        bytes@ == clear_all(),
{
    let mut text = String::new();
    let _ = crossterm::Command::write_ansi(
        &crossterm::terminal::Clear(crossterm::terminal::ClearType::All),
        &mut text,
    );
    text.into_bytes()
}

} // verus!
