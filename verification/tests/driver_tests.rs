use virtual_terminal::driver::{DriverAction, DriverEvent, SessionDriver, SessionPhase};
use virtual_terminal::pump::{pump_step, PumpAction, PumpOutcome};
use virtual_terminal::terminal::{VoidStringInputTerminal, QUIT_KEY};

const PREFIX: [u8; 10] = [0x1B, 0x5B, 0x31, 0x3B, 0x31, 0x48, 0x1B, 0x5B, 0x32, 0x4A];

const ALL_EVENTS: [DriverEvent; 7] = [
    DriverEvent::Launch,
    DriverEvent::ModesEntered,
    DriverEvent::Received(Some(0x61)),
    DriverEvent::Received(Some(QUIT_KEY)),
    DriverEvent::Received(None),
    DriverEvent::DeviceFailed,
    DriverEvent::Aborted,
];

fn framed(content: &[u8]) -> Vec<u8> {
    let mut frame = PREFIX.to_vec();
    frame.extend_from_slice(content);
    frame
}

fn running_driver() -> SessionDriver<VoidStringInputTerminal> {
    let mut driver = SessionDriver::new(VoidStringInputTerminal::default());
    assert_eq!(driver.step(DriverEvent::Launch), DriverAction::EnterModes);
    assert_eq!(driver.step(DriverEvent::ModesEntered), DriverAction::Receive);
    driver
}

#[test]
fn new_driver_is_idle_with_the_terminal_untouched() {
    let driver = SessionDriver::new(VoidStringInputTerminal::default());
    assert_eq!(driver.phase(), SessionPhase::Idle);
    assert!(driver.terminal().input_buffer().is_empty());
}

#[test]
fn launch_enters_the_modes_and_then_receives() {
    let mut driver = SessionDriver::new(VoidStringInputTerminal::default());
    assert_eq!(driver.step(DriverEvent::Launch), DriverAction::EnterModes);
    assert_eq!(driver.phase(), SessionPhase::Entering);
    assert_eq!(driver.step(DriverEvent::ModesEntered), DriverAction::Receive);
    assert_eq!(driver.phase(), SessionPhase::Running);
}

#[test]
fn keycode_is_applied_and_the_frame_handed_out() {
    let mut driver = running_driver();
    assert_eq!(
        driver.step(DriverEvent::Received(Some(b'h'))),
        DriverAction::Write(framed(b"h"))
    );
    assert_eq!(
        driver.step(DriverEvent::Received(Some(b'i'))),
        DriverAction::Write(framed(b"hi"))
    );
    assert_eq!(driver.phase(), SessionPhase::Running);
    assert_eq!(driver.terminal().input_buffer(), &vec![b'h', b'i']);
}

#[test]
fn keycodes_are_applied_in_the_order_of_delivery() {
    let mut driver = running_driver();
    driver.step(DriverEvent::Received(Some(b'x')));
    let (k1, k2, k3) = (b'c', b'a', b'b');
    driver.step(DriverEvent::Received(Some(k1)));
    driver.step(DriverEvent::Received(Some(k2)));
    let last = driver.step(DriverEvent::Received(Some(k3)));
    assert_eq!(driver.terminal().input_buffer(), &vec![b'x', k1, k2, k3]);
    assert_eq!(last, DriverAction::Write(framed(&[b'x', k1, k2, k3])));
}

#[test]
fn non_ascii_keycode_leaves_the_frame_as_it_was() {
    let mut driver = running_driver();
    driver.step(DriverEvent::Received(Some(b'a')));
    assert_eq!(
        driver.step(DriverEvent::Received(Some(0xE9))),
        DriverAction::Write(framed(b"a"))
    );
}

#[test]
fn left_key_is_not_shown_as_a_character() {
    let code: u8 = virtual_terminal::keycode::key_event_to_keycode(
        virtual_terminal::keycode::KeyEvent::Left,
    )
    .unwrap();
    let mut driver = running_driver();
    driver.step(DriverEvent::Received(Some(b'a')));
    assert_eq!(driver.step(DriverEvent::Received(Some(code))), DriverAction::Write(framed(b"a")));
}

#[test]
fn quit_key_ends_the_session_with_a_cleanup() {
    let mut driver = running_driver();
    driver.step(DriverEvent::Received(Some(b'a')));
    assert_eq!(driver.step(DriverEvent::Received(Some(QUIT_KEY))), DriverAction::Cleanup);
    assert_eq!(driver.phase(), SessionPhase::Closed);
    assert_eq!(driver.terminal().input_buffer(), &vec![b'a']);
}

#[test]
fn closed_channel_ends_the_session_with_a_cleanup() {
    let mut driver = running_driver();
    assert_eq!(driver.step(DriverEvent::Received(None)), DriverAction::Cleanup);
    assert_eq!(driver.phase(), SessionPhase::Closed);
}

#[test]
fn poll_error_closes_the_channel_and_the_driver_cleans_up_once() {
    let pump = pump_step(PumpAction::Poll, PumpOutcome::SourceFailed);
    assert_eq!(pump, PumpAction::Close);

    let (sender, mut receiver) = tokio::sync::mpsc::channel::<u8>(16);
    drop(sender);
    let received = receiver.try_recv().ok();
    assert_eq!(received, None);

    let mut driver = running_driver();
    let mut cleanups: u32 = 0;
    if driver.step(DriverEvent::Received(received)) == DriverAction::Cleanup {
        cleanups += 1;
    }
    for event in ALL_EVENTS {
        let action = driver.step(event);
        assert_eq!(action, DriverAction::Exit);
    }
    assert_eq!(cleanups, 1);
    assert_eq!(driver.phase(), SessionPhase::Closed);
}

#[test]
fn device_failure_and_abort_end_a_running_session_with_a_cleanup() {
    for event in [DriverEvent::DeviceFailed, DriverEvent::Aborted] {
        let mut driver = running_driver();
        assert_eq!(driver.step(event), DriverAction::Cleanup);
        assert_eq!(driver.phase(), SessionPhase::Closed);
    }
}

#[test]
fn failure_while_entering_the_modes_is_cleaned_up() {
    for event in ALL_EVENTS {
        if event == DriverEvent::ModesEntered {
            continue;
        }
        let mut driver = SessionDriver::new(VoidStringInputTerminal::default());
        driver.step(DriverEvent::Launch);
        assert_eq!(driver.step(event), DriverAction::Cleanup);
        assert_eq!(driver.phase(), SessionPhase::Closed);
        assert_eq!(driver.step(event), DriverAction::Exit);
    }
}

#[test]
fn idle_session_that_is_not_launched_closes_without_cleanup() {
    for event in ALL_EVENTS {
        if event == DriverEvent::Launch {
            continue;
        }
        let mut driver = SessionDriver::new(VoidStringInputTerminal::default());
        assert_eq!(driver.step(event), DriverAction::Exit);
        assert_eq!(driver.phase(), SessionPhase::Closed);
        assert!(driver.terminal().input_buffer().is_empty());
    }
}

#[test]
fn unexpected_event_ends_a_running_session_with_a_cleanup() {
    for event in [DriverEvent::Launch, DriverEvent::ModesEntered] {
        let mut driver = running_driver();
        assert_eq!(driver.step(event), DriverAction::Cleanup);
        assert_eq!(driver.step(event), DriverAction::Exit);
    }
}

#[test]
fn closed_session_applies_no_keycode() {
    let mut driver = running_driver();
    driver.step(DriverEvent::Received(Some(b'a')));
    driver.step(DriverEvent::Received(None));
    assert_eq!(driver.step(DriverEvent::Received(Some(b'b'))), DriverAction::Exit);
    assert_eq!(driver.terminal().input_buffer(), &vec![b'a']);
}

#[test]
fn every_run_of_three_events_cleans_up_at_most_once() {
    for first in ALL_EVENTS {
        for second in ALL_EVENTS {
            for third in ALL_EVENTS {
                let mut driver = SessionDriver::new(VoidStringInputTerminal::default());
                let mut cleanups: u32 = 0;
                for event in [DriverEvent::Launch, first, second, third] {
                    if driver.step(event) == DriverAction::Cleanup {
                        cleanups += 1;
                    }
                }
                let closed = driver.phase() == SessionPhase::Closed;
                assert_eq!(cleanups, if closed { 1 } else { 0 });
            }
        }
    }
}
