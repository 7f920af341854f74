//! The input pump: what it does next, given what its last action brought.
//!
//! The pump polls the raw event source without waiting, reads an event when
//! one is there, translates a key press and sends the keycode on, and yields
//! to the scheduler before it polls again. The loop that performs the
//! actions lives with the caller; every decision is taken here.

use vstd::prelude::*;
use crate::keycode::{key_event_to_keycode, keycode_of, EncodingError, KeyEvent};

verus! {

/// How many keycodes the channel between the pump and the driver holds
/// before a send has to wait.
pub const CHANNEL_CAPACITY: usize = 16;

/// Whether a key went down, is held down, or came up.
#[derive(Clone, Copy, Debug, PartialEq, Eq, Structural)]
pub enum KeyEventKind {
    Press,
    Repeat,
    Release,
}

/// One event of the raw source, as far as the pump looks at it.
#[derive(Clone, Copy, Debug, PartialEq, Eq, Structural)]
pub enum RawEvent {
    /// A key event, with the key and what happened to it.
    Key(KeyEvent, KeyEventKind),
    /// Anything else: focus, mouse, paste, resize.
    Other,
}

/// What the pump does next.
#[derive(Clone, Copy, Debug, PartialEq, Eq, Structural)]
pub enum PumpAction {
    /// Poll the source with a timeout of zero.
    Poll,
    /// Read exactly one event from the source.
    Read,
    /// Send the keycode into the channel, and wait as long as it is full.
    Send(u8),
    /// Hand the error to whoever observes the pump; the event is dropped.
    Report(EncodingError),
    /// Yield to the scheduler.
    Yield,
    /// Drop the sending end of the channel. The pump is over.
    Close,
}

/// What an action of the pump brought.
#[derive(Clone, Copy, Debug, PartialEq, Eq, Structural)]
pub enum PumpOutcome {
    /// The poll went through, and says whether an event is there.
    Polled(bool),
    /// The source failed, on a poll or on a read.
    SourceFailed,
    /// The read gave this event.
    Read(RawEvent),
    /// The keycode is in the channel.
    Sent,
    /// The receiving end of the channel is gone.
    ReceiverGone,
    /// The error was handed over.
    Reported,
    /// The scheduler gave control back.
    Yielded,
}

/// What the pump does with an event that it has read: a key press is sent on
/// as its keycode, or reported where it has none; everything else is passed
/// over.
pub open spec fn after_read(event: RawEvent) -> PumpAction {
    match event {
        RawEvent::Key(key, KeyEventKind::Press) => match keycode_of(key) {
            Ok(keycode) => PumpAction::Send(keycode),
            Err(error) => PumpAction::Report(error),
        },
        _ => PumpAction::Yield,
    }
}

/// The action that follows `action` once it has brought `outcome`. An
/// outcome that does not answer the action closes the pump.
pub open spec fn pump_next(action: PumpAction, outcome: PumpOutcome) -> PumpAction {
    match (action, outcome) {
        (PumpAction::Poll, PumpOutcome::Polled(true)) => PumpAction::Read,
        (PumpAction::Poll, PumpOutcome::Polled(false)) => PumpAction::Yield,
        (PumpAction::Read, PumpOutcome::Read(event)) => after_read(event),
        (PumpAction::Send(_), PumpOutcome::Sent) => PumpAction::Yield,
        (PumpAction::Report(_), PumpOutcome::Reported) => PumpAction::Yield,
        (PumpAction::Yield, PumpOutcome::Yielded) => PumpAction::Poll,
        _ => PumpAction::Close,
    }
}

/// The last action of a run that begins with `action` and meets the outcomes
/// in order.
pub open spec fn pump_run(action: PumpAction, outcomes: Seq<PumpOutcome>) -> PumpAction
    decreases outcomes.len(),
{
    if outcomes.len() == 0 {
        action
    } else {
        pump_next(pump_run(action, outcomes.drop_last()), outcomes.last())
    }
}

/// The action that the pump begins with: a poll.
pub fn pump_start() -> (action: PumpAction)
    ensures
        action == PumpAction::Poll,
{
    PumpAction::Poll
}

/// Decides what the pump does next.
///
/// A poll that finds an event is followed by a read, one that finds none by
/// a yield. A key press that was read is translated: its keycode is sent, or
/// the error reported and the event dropped; any other event is passed over.
/// After a send, a report or a pass the pump yields, and after the yield it
/// polls again. A failure of the source, a receiver that is gone, and an
/// outcome that does not answer the action close the pump, and closed it
/// stays.
pub fn pump_step(action: PumpAction, outcome: PumpOutcome) -> (next: PumpAction)
    ensures
        next == pump_next(action, outcome),
{
    match (action, outcome) {
        (PumpAction::Poll, PumpOutcome::Polled(true)) => PumpAction::Read,
        (PumpAction::Poll, PumpOutcome::Polled(false)) => PumpAction::Yield,
        (PumpAction::Read, PumpOutcome::Read(RawEvent::Key(key, KeyEventKind::Press))) => {
            match key_event_to_keycode(key) {
                Ok(keycode) => PumpAction::Send(keycode),
                Err(error) => PumpAction::Report(error),
            }
        },
        (PumpAction::Read, PumpOutcome::Read(_)) => PumpAction::Yield,
        (PumpAction::Send(_), PumpOutcome::Sent) => PumpAction::Yield,
        (PumpAction::Report(_), PumpOutcome::Reported) => PumpAction::Yield,
        (PumpAction::Yield, PumpOutcome::Yielded) => PumpAction::Poll,
        _ => PumpAction::Close,
    }
}

/// The pump polls only when it has just yielded: between two polls there is
/// always a yield.
pub proof fn poll_follows_a_yield(action: PumpAction, outcome: PumpOutcome)
    ensures
        pump_next(action, outcome) == PumpAction::Poll <==> action == PumpAction::Yield && outcome
            == PumpOutcome::Yielded,
{
}

/// A failure of the source ends the pump, whatever it was doing.
pub proof fn source_failure_closes_the_pump(action: PumpAction)
    ensures
        pump_next(action, PumpOutcome::SourceFailed) == PumpAction::Close,
{
}

/// A keycode is sent exactly when a key press with that keycode was read, and
/// an error reported exactly when a key press without a keycode was read. So
/// no keycode is made up and none is altered on its way.
pub proof fn key_presses_are_sent_or_reported(action: PumpAction, outcome: PumpOutcome)
    ensures
        forall|keycode: u8|
            pump_next(action, outcome) == PumpAction::Send(keycode) <==> action == PumpAction::Read
                && exists|key: KeyEvent| #[trigger]
                keycode_of(key) == Ok::<u8, EncodingError>(keycode) && outcome == PumpOutcome::Read(
                    RawEvent::Key(key, KeyEventKind::Press),
                ),
        forall|error: EncodingError|
            pump_next(action, outcome) == PumpAction::Report(error) <==> action == PumpAction::Read
                && exists|key: KeyEvent| #[trigger]
                keycode_of(key) == Err::<u8, EncodingError>(error) && outcome == PumpOutcome::Read(
                    RawEvent::Key(key, KeyEventKind::Press),
                ),
{
    assert forall|keycode: u8|
        pump_next(action, outcome) == PumpAction::Send(keycode) implies action == PumpAction::Read
        && exists|key: KeyEvent| #[trigger]
        keycode_of(key) == Ok::<u8, EncodingError>(keycode) && outcome == PumpOutcome::Read(
            RawEvent::Key(key, KeyEventKind::Press),
        ) by {
        if let PumpOutcome::Read(RawEvent::Key(key, KeyEventKind::Press)) = outcome {
            assert(keycode_of(key) == Ok::<u8, EncodingError>(keycode));
        }
    }
    assert forall|error: EncodingError|
        pump_next(action, outcome) == PumpAction::Report(error) implies action == PumpAction::Read
        && exists|key: KeyEvent| #[trigger]
        keycode_of(key) == Err::<u8, EncodingError>(error) && outcome == PumpOutcome::Read(
            RawEvent::Key(key, KeyEventKind::Press),
        ) by {
        if let PumpOutcome::Read(RawEvent::Key(key, KeyEventKind::Press)) = outcome {
            assert(keycode_of(key) == Err::<u8, EncodingError>(error));
        }
    }
}

/// A keycode that waits to be sent is never given up for want of room: the
/// pump leaves the send only when the keycode is in the channel, or closes.
pub proof fn pending_keycode_is_not_dropped(keycode: u8, outcome: PumpOutcome)
    ensures
        pump_next(PumpAction::Send(keycode), outcome) == PumpAction::Yield <==> outcome
            == PumpOutcome::Sent,
        pump_next(PumpAction::Send(keycode), outcome) == PumpAction::Close <==> outcome
            != PumpOutcome::Sent,
{
}

/// A pump that has closed stays closed, whatever comes after.
pub proof fn closed_pump_stays_closed(outcomes: Seq<PumpOutcome>)
    ensures
        pump_run(PumpAction::Close, outcomes) == PumpAction::Close,
    decreases outcomes.len(),
{
    if outcomes.len() > 0 {
        closed_pump_stays_closed(outcomes.drop_last());
    }
}

} // verus!
