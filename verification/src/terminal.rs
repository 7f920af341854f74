//! The virtual terminal: an input buffer that only grows, the dimensions of
//! the viewport, and the frame that shows them.

use vstd::prelude::*;
use crate::ansi;
use crate::keycode::{control_code, is_printable_ascii, raw_control_code, KeyEvent};

verus! {

/// The keycode that asks for the end of the session: `q`. It is never
/// buffered.
pub const QUIT_KEY: u8 = 0x71;

/// What the terminal tells its driver after an input.
#[derive(Clone, Copy, Debug, PartialEq, Eq, Structural)]
pub enum InputSignal {
    /// The session goes on.
    Continue,
    /// The quit key came in: the session is to end in good order.
    EndSession,
}

/// The state of a virtual terminal, as contracts speak of it.
pub struct TerminalState {
    pub input_buffer: Seq<u8>,
    pub cols: u16,
    pub rows: u16,
}

/// Whether a keycode lies in the ASCII range.
pub open spec fn is_ascii_code(keycode: u8) -> bool {
    keycode <= 0x7F
}

/// The keycodes that an input appends to the buffer: the ASCII ones, but for
/// the quit key.
pub open spec fn is_buffered(keycode: u8) -> bool {
    is_ascii_code(keycode) && keycode != QUIT_KEY
}

/// The signal that an input of this keycode gives.
pub open spec fn signal_of(keycode: u8) -> InputSignal {
    if keycode == QUIT_KEY {
        InputSignal::EndSession
    } else {
        InputSignal::Continue
    }
}

/// What every frame begins with: the cursor moved to the upper left corner,
/// then the whole screen cleared.
pub open spec fn frame_prefix() -> Seq<u8> {
    ansi::move_to(0, 0) + ansi::clear_all()
}

impl TerminalState {
    /// The state of a new terminal: nothing typed, no viewport yet.
    pub open spec fn initial() -> Self {
        TerminalState { input_buffer: Seq::empty(), cols: 0, rows: 0 }
    }

    /// The state after one input: a buffered keycode is appended, any other
    /// leaves the state as it was.
    pub open spec fn after_input(self, keycode: u8) -> Self {
        if is_buffered(keycode) {
            TerminalState { input_buffer: self.input_buffer.push(keycode), ..self }
        } else {
            self
        }
    }

    /// The state after a run of inputs, applied first to last.
    pub open spec fn after_inputs(self, keycodes: Seq<u8>) -> Self
        decreases keycodes.len(),
    {
        if keycodes.len() == 0 {
            self
        } else {
            self.after_inputs(keycodes.drop_last()).after_input(keycodes.last())
        }
    }

    /// The state after a resize: the dimensions are overwritten, whatever
    /// they are.
    pub open spec fn after_resize(self, cols: u16, rows: u16) -> Self {
        TerminalState { cols, rows, ..self }
    }

    /// The frame that shows this state: the prefix, then the buffer.
    pub open spec fn frame(self) -> Seq<u8> {
        frame_prefix() + self.input_buffer
    }
}

/// A terminal that takes keycodes and resizes and renders frames.
pub trait VirtualTerminal {
    /// The state that the terminal is in.
    spec fn state(&self) -> TerminalState;

    /// Applies one keycode. The quit key is answered with
    /// [`InputSignal::EndSession`] and changes nothing; any other ASCII
    /// keycode is appended to the buffer; the rest is ignored.
    fn on_input(&mut self, keycode: u8) -> (signal: InputSignal)
        ensures
            final(self).state() == old(self).state().after_input(keycode),
            signal == signal_of(keycode),
    ;

    /// Overwrites the dimensions. Every pair is taken, zero too.
    fn resize(&mut self, cols: u16, rows: u16)
        ensures
            final(self).state() == old(self).state().after_resize(cols, rows),
    ;

    /// The frame for the present state. Nothing is changed by it.
    fn render(&self) -> (frame: Vec<u8>)
        ensures
            frame@ == self.state().frame(),
    ;
}

/// The terminal that shows what was typed and nothing else.
#[derive(Debug)]
pub struct VoidStringInputTerminal {
    input_buffer: Vec<u8>,
    cols: u16,
    rows: u16,
}

impl VoidStringInputTerminal {
    /// What has been typed so far.
    pub fn input_buffer(&self) -> (buffer: &Vec<u8>)
        ensures
            buffer@ == self.state().input_buffer,
    {
        &self.input_buffer
    }

    /// The number of columns of the viewport.
    pub fn cols(&self) -> (cols: u16)
        ensures
            cols == self.state().cols,
    {
        self.cols
    }

    /// The number of rows of the viewport.
    pub fn rows(&self) -> (rows: u16)
        ensures
            rows == self.state().rows,
    {
        self.rows
    }
}

impl Clone for VoidStringInputTerminal {
    /// A second terminal in the same state.
    fn clone(&self) -> (copy: Self)
        ensures
            copy.state() == self.state(),
    {
        VoidStringInputTerminal {
            input_buffer: self.input_buffer.clone(),
            cols: self.cols,
            rows: self.rows,
        }
    }
}

impl Default for VoidStringInputTerminal {
    /// A terminal with an empty buffer and no viewport yet.
    fn default() -> (terminal: Self)
        ensures
            terminal.state() == TerminalState::initial(),
    {
        VoidStringInputTerminal { input_buffer: Vec::new(), cols: 0, rows: 0 }
    }
}

impl VirtualTerminal for VoidStringInputTerminal {
    closed spec fn state(&self) -> TerminalState {
        TerminalState { input_buffer: self.input_buffer@, cols: self.cols, rows: self.rows }
    }

    fn on_input(&mut self, keycode: u8) -> (signal: InputSignal) {
        if keycode == QUIT_KEY {
            return InputSignal::EndSession;
        }
        if keycode.is_ascii() {
            self.input_buffer.push(keycode);
        }
        InputSignal::Continue
    }

    fn resize(&mut self, cols: u16, rows: u16) {
        self.cols = cols;
        self.rows = rows;
    }

    fn render(&self) -> (frame: Vec<u8>) {
        let mut output: Vec<u8> = ansi::move_to_sequence(0, 0);
        let mut clear: Vec<u8> = ansi::clear_all_sequence();
        output.append(&mut clear);
        let mut i: usize = 0;
        while i < self.input_buffer.len()
            invariant
                i <= self.input_buffer.len(),
                output@ == frame_prefix() + self.input_buffer@.take(i as int),
            decreases self.input_buffer.len() - i,
        {
            output.push(self.input_buffer[i]);
            assert(self.input_buffer@.take(i + 1) == self.input_buffer@.take(i as int).push(
                self.input_buffer@[i as int],
            ));
            i += 1;
        }
        assert(self.input_buffer@.take(i as int) == self.input_buffer@);
        output
    }
}

/// `u8::is_ascii` tells whether the byte lies in the ASCII range, that is
/// whether it is at most `0x7F`.
pub assume_specification[ u8::is_ascii ](byte: &u8) -> (ascii: bool)
    ensures
        ascii == (*byte <= 0x7F),
;

/// The frame prefix, byte by byte: `ESC [ 1 ; 1 H`, then `ESC [ 2 J`.
pub proof fn frame_prefix_bytes()
    ensures
        frame_prefix() == seq![
            0x1Bu8,
            0x5Bu8,
            0x31u8,
            0x3Bu8,
            0x31u8,
            0x48u8,
            0x1Bu8,
            0x5Bu8,
            0x32u8,
            0x4Au8,
        ],
        frame_prefix().len() == 10,
{
    ansi::move_to_origin_bytes();
    assert(frame_prefix() =~= seq![
        0x1Bu8,
        0x5Bu8,
        0x31u8,
        0x3Bu8,
        0x31u8,
        0x48u8,
        0x1Bu8,
        0x5Bu8,
        0x32u8,
        0x4Au8,
    ]);
}

/// A run of inputs appends the buffered keycodes among them, in the order in
/// which they came, and touches nothing else.
pub proof fn inputs_append_the_buffered_keycodes(state: TerminalState, keycodes: Seq<u8>)
    ensures
        state.after_inputs(keycodes).input_buffer == state.input_buffer + keycodes.filter(
            |keycode: u8| is_buffered(keycode),
        ),
        state.after_inputs(keycodes).cols == state.cols,
        state.after_inputs(keycodes).rows == state.rows,
    decreases keycodes.len(),
{
    reveal(Seq::filter);
    if keycodes.len() > 0 {
        inputs_append_the_buffered_keycodes(state, keycodes.drop_last());
    }
}

/// After a run of ASCII keycodes without the quit key, the buffer is the old
/// buffer followed by those keycodes in order, and so is what the frame shows
/// behind its prefix.
pub proof fn ascii_inputs_are_appended_in_order(state: TerminalState, keycodes: Seq<u8>)
    requires
        forall|i: int| 0 <= i < keycodes.len() ==> is_buffered(#[trigger] keycodes[i]),
    ensures
        state.after_inputs(keycodes).input_buffer == state.input_buffer + keycodes,
        state.after_inputs(keycodes).frame() == frame_prefix() + state.input_buffer + keycodes,
        state.after_inputs(keycodes).frame().skip(frame_prefix().len() as int)
            == state.input_buffer + keycodes,
    decreases keycodes.len(),
{
    if keycodes.len() > 0 {
        ascii_inputs_are_appended_in_order(state, keycodes.drop_last());
        assert(keycodes == keycodes.drop_last().push(keycodes.last()));
    }
    assert(state.after_inputs(keycodes).input_buffer =~= state.input_buffer + keycodes);
    frame_shows_the_buffer(state.after_inputs(keycodes));
    assert(state.after_inputs(keycodes).frame() =~= frame_prefix() + state.input_buffer
        + keycodes);
}

/// Keycodes outside the ASCII range leave the state as it was.
pub proof fn non_ascii_inputs_change_nothing(state: TerminalState, keycodes: Seq<u8>)
    requires
        forall|i: int| 0 <= i < keycodes.len() ==> !is_ascii_code(#[trigger] keycodes[i]),
    ensures
        state.after_inputs(keycodes) == state,
    decreases keycodes.len(),
{
    if keycodes.len() > 0 {
        non_ascii_inputs_change_nothing(state, keycodes.drop_last());
    }
}

/// A control key whose code had to be moved into the control range has a
/// code outside ASCII: an input of it is ignored, and no printable character
/// appears in its place.
pub proof fn moved_control_codes_are_ignored(state: TerminalState, event: KeyEvent)
    requires
        event.is_control_key(),
        is_printable_ascii(raw_control_code(event)),
    ensures
        !is_ascii_code(control_code(event)),
        state.after_input(control_code(event)) == state,
        signal_of(control_code(event)) == InputSignal::Continue,
{
}

/// The quit key leaves the state as it was, whatever the state.
pub proof fn quit_key_changes_nothing(state: TerminalState)
    ensures
        state.after_input(QUIT_KEY) == state,
        signal_of(QUIT_KEY) == InputSignal::EndSession,
{
}

/// Behind its prefix a frame holds the buffer and nothing else.
pub proof fn frame_shows_the_buffer(state: TerminalState)
    ensures
        state.frame().len() == frame_prefix().len() + state.input_buffer.len(),
        state.frame().take(frame_prefix().len() as int) == frame_prefix(),
        state.frame().skip(frame_prefix().len() as int) == state.input_buffer,
{
    assert(state.frame().take(frame_prefix().len() as int) =~= frame_prefix());
    assert(state.frame().skip(frame_prefix().len() as int) =~= state.input_buffer);
}

/// The frame is a function of the buffer alone: two states with the same
/// buffer render alike, and two states that render alike have the same
/// buffer. So a second render without an input in between gives the same
/// frame as the first.
pub proof fn frame_depends_on_the_buffer_alone(a: TerminalState, b: TerminalState)
    ensures
        a.input_buffer == b.input_buffer <==> a.frame() == b.frame(),
{
    frame_shows_the_buffer(a);
    frame_shows_the_buffer(b);
}

/// A resize never touches the buffer, and so not the frame either.
pub proof fn resize_keeps_the_buffer(state: TerminalState, cols: u16, rows: u16)
    ensures
        state.after_resize(cols, rows).input_buffer == state.input_buffer,
        state.after_resize(cols, rows).frame() == state.frame(),
        state.after_resize(cols, rows).cols == cols,
        state.after_resize(cols, rows).rows == rows,
{
}

} // verus!
