//! The session driver: it owns the terminal, takes the keycodes in the order
//! in which they arrive, and sees to it that the terminal device is put back
//! in order once, on whichever way the session ends.
//!
//! The loop that receives, writes and switches the device's modes lives with
//! the caller; every decision is taken here.

use vstd::prelude::*;
use crate::terminal::{
    ascii_inputs_are_appended_in_order, is_buffered, InputSignal, TerminalState, VirtualTerminal,
    QUIT_KEY,
};

verus! {

/// Where a session stands.
#[derive(Clone, Copy, Debug, PartialEq, Eq, Structural)]
pub enum SessionPhase {
    /// Created; the device has not been touched.
    Idle,
    /// The device is being switched to the alternate screen and to raw mode.
    Entering,
    /// Keycodes are received and frames written.
    Running,
    /// Over. The device was restored if it had been touched.
    Closed,
}

/// What the loop around the driver reports to it.
#[derive(Clone, Copy, Debug, PartialEq, Eq, Structural)]
pub enum DriverEvent {
    /// The session is to begin.
    Launch,
    /// The device is on the alternate screen and in raw mode.
    ModesEntered,
    /// The channel gave a keycode, or `None` once it is closed and empty.
    Received(Option<u8>),
    /// The device refused a mode switch, a write or a flush.
    DeviceFailed,
    /// Some task of the process ended abnormally.
    Aborted,
}

/// What the loop around the driver is to do next.
#[derive(Debug, PartialEq, Eq)]
pub enum DriverAction {
    /// Switch to the alternate screen, hide the cursor, enable raw mode.
    EnterModes,
    /// Receive the next keycode from the channel.
    Receive,
    /// Write the frame to the device and flush, then receive the next
    /// keycode.
    Write(Vec<u8>),
    /// Disable raw mode, leave the alternate screen, show the cursor.
    Cleanup,
    /// Nothing is left to do.
    Exit,
}

/// A driver's action, as contracts speak of it.
pub enum DriverActionView {
    EnterModes,
    Receive,
    Write(Seq<u8>),
    Cleanup,
    Exit,
}

impl View for DriverAction {
    type V = DriverActionView;

    open spec fn view(&self) -> DriverActionView {
        match self {
            DriverAction::EnterModes => DriverActionView::EnterModes,
            DriverAction::Receive => DriverActionView::Receive,
            DriverAction::Write(frame) => DriverActionView::Write(frame@),
            DriverAction::Cleanup => DriverActionView::Cleanup,
            DriverAction::Exit => DriverActionView::Exit,
        }
    }
}

/// The state of a session, as contracts speak of it.
pub struct SessionState {
    pub terminal: TerminalState,
    pub phase: SessionPhase,
}

impl SessionState {
    /// Whether the event is the one that carries a session in this phase on:
    /// a launch when idle, the modes entered when entering, a keycode other
    /// than the quit key when running.
    pub open spec fn goes_on_with(self, event: DriverEvent) -> bool {
        match (self.phase, event) {
            (SessionPhase::Idle, DriverEvent::Launch) => true,
            (SessionPhase::Entering, DriverEvent::ModesEntered) => true,
            (SessionPhase::Running, DriverEvent::Received(Some(keycode))) => keycode != QUIT_KEY,
            _ => false,
        }
    }

    /// The state after an event. An event that carries the session on moves
    /// it to the next phase, and a keycode is applied to the terminal. Any
    /// other event closes the session; the terminal stays as it was.
    pub open spec fn next(self, event: DriverEvent) -> SessionState {
        match (self.phase, event) {
            (SessionPhase::Idle, DriverEvent::Launch) => SessionState {
                phase: SessionPhase::Entering,
                ..self
            },
            (SessionPhase::Entering, DriverEvent::ModesEntered) => SessionState {
                phase: SessionPhase::Running,
                ..self
            },
            (SessionPhase::Running, DriverEvent::Received(Some(keycode))) => if keycode
                == QUIT_KEY {
                SessionState { phase: SessionPhase::Closed, ..self }
            } else {
                SessionState { terminal: self.terminal.after_input(keycode), ..self }
            },
            _ => SessionState { phase: SessionPhase::Closed, ..self },
        }
    }

    /// The action that answers an event. A session that goes on enters the
    /// modes, receives, or writes the frame of the terminal after the input.
    /// A session that closes cleans up if the device was touched, that is
    /// when it was entering or running; otherwise there is nothing to do.
    pub open spec fn action(self, event: DriverEvent) -> DriverActionView {
        if self.goes_on_with(event) {
            match self.phase {
                SessionPhase::Idle => DriverActionView::EnterModes,
                SessionPhase::Entering => DriverActionView::Receive,
                _ => DriverActionView::Write(self.next(event).terminal.frame()),
            }
        } else {
            match self.phase {
                SessionPhase::Entering | SessionPhase::Running => DriverActionView::Cleanup,
                _ => DriverActionView::Exit,
            }
        }
    }

    /// The state after a run of events, taken first to last.
    pub open spec fn run(self, events: Seq<DriverEvent>) -> SessionState
        decreases events.len(),
    {
        if events.len() == 0 {
            self
        } else {
            self.run(events.drop_last()).next(events.last())
        }
    }

    /// How often a run of events is answered with a cleanup.
    pub open spec fn cleanups(self, events: Seq<DriverEvent>) -> nat
        decreases events.len(),
    {
        if events.len() == 0 {
            0
        } else {
            let before = self.cleanups(events.drop_last());
            if self.run(events.drop_last()).action(events.last()) == DriverActionView::Cleanup {
                before + 1
            } else {
                before
            }
        }
    }
}

/// The events that deliver these keycodes, one by one and in order.
pub open spec fn deliveries(keycodes: Seq<u8>) -> Seq<DriverEvent> {
    Seq::new(keycodes.len(), |i: int| DriverEvent::Received(Some(keycodes[i])))
}

/// The driver of one session. It owns the terminal: nothing else reaches it
/// while the session lasts.
pub struct SessionDriver<T: VirtualTerminal> {
    terminal: T,
    phase: SessionPhase,
}

impl<T: VirtualTerminal> View for SessionDriver<T> {
    type V = SessionState;

    closed spec fn view(&self) -> SessionState {
        SessionState { terminal: self.terminal.state(), phase: self.phase }
    }
}

impl<T: VirtualTerminal> SessionDriver<T> {
    /// A driver for this terminal, idle until the session is launched.
    pub fn new(terminal: T) -> (driver: Self)
        ensures
            driver@ == (SessionState { terminal: terminal.state(), phase: SessionPhase::Idle }),
    {
        SessionDriver { terminal, phase: SessionPhase::Idle }
    }

    /// The phase that the session is in.
    pub fn phase(&self) -> (phase: SessionPhase)
        ensures
            phase == self@.phase,
    {
        self.phase
    }

    /// The terminal, to look at.
    pub fn terminal(&self) -> (terminal: &T)
        ensures
            terminal.state() == self@.terminal,
    {
        &self.terminal
    }

    /// Takes one event and says what is to be done.
    ///
    /// A launch is answered with the order to enter the modes, and their
    /// entry with the order to receive. A keycode is applied to the
    /// terminal, and the frame that shows the terminal afterwards is handed
    /// out to be written; the quit key ends the session instead. The end of
    /// the channel, a failure of the device, an abnormal end of a task, and
    /// an event that the phase does not expect end the session too. A
    /// session that ends after the device was touched is answered with a
    /// cleanup, once; a closed session answers everything with an exit.
    pub fn step(&mut self, event: DriverEvent) -> (action: DriverAction)
        ensures
            final(self)@ == old(self)@.next(event),
            action@ == old(self)@.action(event),
    {
        match (self.phase, event) {
            (SessionPhase::Idle, DriverEvent::Launch) => {
                self.phase = SessionPhase::Entering;
                DriverAction::EnterModes
            },
            (SessionPhase::Entering, DriverEvent::ModesEntered) => {
                self.phase = SessionPhase::Running;
                DriverAction::Receive
            },
            (SessionPhase::Running, DriverEvent::Received(Some(keycode))) => {
                match self.terminal.on_input(keycode) {
                    InputSignal::Continue => DriverAction::Write(self.terminal.render()),
                    InputSignal::EndSession => {
                        self.phase = SessionPhase::Closed;
                        DriverAction::Cleanup
                    },
                }
            },
            (SessionPhase::Entering, _) | (SessionPhase::Running, _) => {
                self.phase = SessionPhase::Closed;
                DriverAction::Cleanup
            },
            _ => {
                self.phase = SessionPhase::Closed;
                DriverAction::Exit
            },
        }
    }
}

/// A closed session stays closed and is never cleaned up again.
pub proof fn closed_session_stays_closed(state: SessionState, events: Seq<DriverEvent>)
    requires
        state.phase == SessionPhase::Closed,
    ensures
        state.run(events) == state,
        state.cleanups(events) == 0,
    decreases events.len(),
{
    if events.len() > 0 {
        closed_session_stays_closed(state, events.drop_last());
    }
}

/// Whether a session in this state that meets these events touches the
/// device: it has done so already, or it is idle and is launched first.
pub open spec fn touches_the_device(state: SessionState, events: Seq<DriverEvent>) -> bool {
    match state.phase {
        SessionPhase::Entering | SessionPhase::Running => true,
        SessionPhase::Idle => events.len() > 0 && events[0] == DriverEvent::Launch,
        SessionPhase::Closed => false,
    }
}

/// Whatever happens, the device is cleaned up at most once. It is cleaned up
/// exactly once when the session has touched the device and has closed, and
/// not at all as long as the session is open or when it closed untouched.
pub proof fn cleanup_runs_exactly_once(state: SessionState, events: Seq<DriverEvent>)
    ensures
        state.cleanups(events) <= 1,
        state.cleanups(events) == 1 <==> touches_the_device(state, events) && state.run(
            events,
        ).phase == SessionPhase::Closed,
        state.run(events).phase == SessionPhase::Entering || state.run(events).phase
            == SessionPhase::Running ==> touches_the_device(state, events),
        state.run(events).phase == SessionPhase::Idle ==> events.len() == 0,
    decreases events.len(),
{
    if events.len() > 0 {
        let earlier = events.drop_last();
        cleanup_runs_exactly_once(state, earlier);
        if earlier.len() > 0 {
            assert(earlier[0] == events[0]);
        } else {
            assert(state.run(earlier) == state);
            assert(events[0] == events.last());
        }
    }
}

/// Keycodes that are delivered to a running session are applied to the
/// terminal one at a time and in the order of their delivery, as long as the
/// quit key is not among them; the session keeps running.
pub proof fn keycodes_are_applied_in_order(state: SessionState, keycodes: Seq<u8>)
    requires
        state.phase == SessionPhase::Running,
        forall|i: int| 0 <= i < keycodes.len() ==> #[trigger] keycodes[i] != QUIT_KEY,
    ensures
        state.run(deliveries(keycodes)).terminal == state.terminal.after_inputs(keycodes),
        state.run(deliveries(keycodes)).phase == SessionPhase::Running,
        state.cleanups(deliveries(keycodes)) == 0,
        keycodes.len() > 0 ==> state.run(deliveries(keycodes.drop_last())).action(
            DriverEvent::Received(Some(keycodes.last())),
        ) == DriverActionView::Write(state.terminal.after_inputs(keycodes).frame()),
    decreases keycodes.len(),
{
    if keycodes.len() > 0 {
        keycodes_are_applied_in_order(state, keycodes.drop_last());
        assert(deliveries(keycodes).drop_last() =~= deliveries(keycodes.drop_last()));
    }
}

/// ASCII keycodes without the quit key that are delivered to a running
/// session end up in the buffer behind what was there, in the order of their
/// delivery.
pub proof fn delivered_keycodes_are_buffered_in_order(state: SessionState, keycodes: Seq<u8>)
    requires
        state.phase == SessionPhase::Running,
        forall|i: int| 0 <= i < keycodes.len() ==> is_buffered(#[trigger] keycodes[i]),
    ensures
        state.run(deliveries(keycodes)).terminal.input_buffer == state.terminal.input_buffer
            + keycodes,
{
    keycodes_are_applied_in_order(state, keycodes);
    ascii_inputs_are_appended_in_order(state.terminal, keycodes);
}

} // verus!
