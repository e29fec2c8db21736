use player_daemon::controller::Signal;
use player_daemon::session::{Reaction, RunLoopDriver, SessionPhase};

#[test]
fn session_starts_once() {
    let mut d = RunLoopDriver::new();
    assert_eq!(d.phase(), SessionPhase::Starting);
    assert!(d.start());
    assert_eq!(d.phase(), SessionPhase::Running);
    assert!(!d.start());
    assert_eq!(d.phase(), SessionPhase::Running);
}

#[test]
fn end_of_stream_stops_engine_and_quits_loop() {
    let mut d = RunLoopDriver::new();
    d.start();
    let r = d.on_signal(Signal::EndOfStream);
    assert_eq!(r, Reaction { stop_engine: true, quit_loop: true, report_error: false });
    assert!(d.is_terminated());
}

#[test]
fn error_stops_engine_quits_loop_and_reports() {
    let mut d = RunLoopDriver::new();
    d.start();
    let r = d.on_signal(Signal::Error);
    assert_eq!(r, Reaction { stop_engine: true, quit_loop: true, report_error: true });
    assert!(d.is_terminated());
}

#[test]
fn error_before_running_still_ends_session() {
    let mut d = RunLoopDriver::new();
    let r = d.on_signal(Signal::Error);
    assert!(r.stop_engine && r.quit_loop && r.report_error);
    assert!(d.is_terminated());
    assert!(!d.start());
}

#[test]
fn error_after_end_of_stream_stops_and_reports_without_quitting() {
    let mut d = RunLoopDriver::new();
    d.start();
    d.on_signal(Signal::EndOfStream);
    let r = d.on_signal(Signal::Error);
    assert_eq!(r, Reaction { stop_engine: true, quit_loop: false, report_error: true });
    assert_eq!(d.phase(), SessionPhase::Terminated);
}

#[test]
fn end_of_stream_after_termination_stops_engine_only() {
    let mut d = RunLoopDriver::new();
    d.start();
    d.on_signal(Signal::Error);
    let r = d.on_signal(Signal::EndOfStream);
    assert_eq!(r, Reaction { stop_engine: true, quit_loop: false, report_error: false });
    assert_eq!(d.phase(), SessionPhase::Terminated);
    assert!(!d.start());
}

#[test]
fn loop_is_quit_once_over_many_signals() {
    let mut d = RunLoopDriver::new();
    d.start();
    let signals = [Signal::EndOfStream, Signal::Error, Signal::Error, Signal::EndOfStream];
    let mut quits = 0;
    let mut stops = 0;
    for s in signals {
        let r = d.on_signal(s);
        if r.quit_loop {
            quits += 1;
        }
        if r.stop_engine {
            stops += 1;
        }
    }
    assert_eq!(quits, 1);
    assert_eq!(stops, 4);
}
