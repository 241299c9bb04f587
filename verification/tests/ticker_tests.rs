use chch_daemon::commands::DaemonCommand;
use chch_daemon::text::{bool_str, trim_text, u64_to_string};
use chch_daemon::ticker::{
    capture_file_name, CaptureStep, ScreenShotter, TickerVerdict, TokioMessage,
};

fn active(base_ticks: u16) -> ScreenShotter {
    let mut ss = ScreenShotter::new(base_ticks);
    ss.handle_command(&DaemonCommand::Start);
    ss
}

#[test]
fn new_starts_idle_with_a_full_interval() {
    let ss = ScreenShotter::new(5);
    assert_eq!(ss.base_ticks, 5);
    assert_eq!(ss.ticks, 5);
    assert!(!ss.ticking);
    assert_eq!(ss.last_id, None);
    assert!(!ss.paused);
}

#[test]
fn state_dump_before_any_start() {
    let ss = ScreenShotter::new(1);
    let dump = TokioMessage::State(ss).to_string();
    assert_eq!(
        dump,
        "base_ticks: 1\nticks: 1\nticking: false\nlast_id: 0\npaused: false"
    );
}

#[test]
fn ping_and_noop_reply_texts() {
    assert_eq!(TokioMessage::Ping.to_string(), "ping");
    assert_eq!(TokioMessage::Noop.to_string(), "");
}

#[test]
fn start_resets_the_counter_from_any_state() {
    // from Idle
    let mut idle = ScreenShotter::new(4);
    let v = idle.handle_command(&DaemonCommand::Start);
    assert_eq!(v, TickerVerdict::Reply(TokioMessage::Noop));
    assert_eq!(idle.ticks, 0);
    assert!(idle.ticking && !idle.paused);

    // from Active, mid-interval
    let mut mid = active(4);
    mid.on_tick();
    mid.on_tick();
    assert_eq!(mid.ticks, 2);
    mid.handle_command(&DaemonCommand::Start);
    assert_eq!(mid.ticks, 0);
    assert!(mid.ticking && !mid.paused);

    // from Suspended
    let mut sus = active(4);
    sus.on_tick();
    sus.handle_command(&DaemonCommand::Pause);
    assert!(sus.paused);
    sus.handle_command(&DaemonCommand::Start);
    assert_eq!(sus.ticks, 0);
    assert!(sus.ticking && !sus.paused);
}

#[test]
fn exactly_interval_ticks_elapse_between_captures() {
    let mut ss = active(3);
    assert_eq!(ss.on_tick(), CaptureStep::NoCapture);
    assert_eq!(ss.on_tick(), CaptureStep::NoCapture);
    assert_eq!(ss.on_tick(), CaptureStep::CaptureFirst);
    ss.record_first_id(8);
    assert_eq!(ss.on_tick(), CaptureStep::NoCapture);
    assert_eq!(ss.on_tick(), CaptureStep::NoCapture);
    assert_eq!(ss.on_tick(), CaptureStep::Capture(9));
    assert_eq!(ss.on_tick(), CaptureStep::NoCapture);
    assert_eq!(ss.on_tick(), CaptureStep::NoCapture);
    assert_eq!(ss.on_tick(), CaptureStep::Capture(10));
}

#[test]
fn ticks_are_ignored_while_idle_or_suspended() {
    let mut idle = ScreenShotter::new(1);
    assert_eq!(idle.on_tick(), CaptureStep::NoCapture);
    assert_eq!(idle, ScreenShotter::new(1));

    let mut sus = active(1);
    sus.handle_command(&DaemonCommand::Pause);
    let before = sus;
    assert_eq!(sus.on_tick(), CaptureStep::NoCapture);
    assert_eq!(sus, before);
}

#[test]
fn pause_then_resume_fires_exactly_one_capture_per_interval() {
    let mut ss = active(2);
    ss.handle_command(&DaemonCommand::Pause);
    // a full interval of ticks while suspended: no capture
    assert_eq!(ss.on_tick(), CaptureStep::NoCapture);
    assert_eq!(ss.on_tick(), CaptureStep::NoCapture);
    // resume, then a full interval: exactly one capture
    ss.handle_command(&DaemonCommand::Resume);
    let first = ss.on_tick();
    let second = ss.on_tick();
    let captures = [first, second]
        .iter()
        .filter(|s| !matches!(s, CaptureStep::NoCapture))
        .count();
    assert_eq!(captures, 1);
}

#[test]
fn resume_is_idempotent_from_active() {
    let mut ss = active(3);
    ss.on_tick();
    let before = ss;
    let v = ss.handle_command(&DaemonCommand::Resume);
    assert_eq!(v, TickerVerdict::Reply(TokioMessage::Noop));
    assert_eq!(ss, before);
}

#[test]
fn exit_stops_the_ticker_without_touching_state() {
    let mut ss = active(3);
    ss.on_tick();
    let before = ss;
    assert_eq!(ss.handle_command(&DaemonCommand::Exit), TickerVerdict::Stop);
    assert_eq!(ss, before);
}

#[test]
fn get_state_answers_with_a_snapshot_and_changes_nothing() {
    let mut ss = active(3);
    ss.on_tick();
    let before = ss;
    let v = ss.handle_command(&DaemonCommand::GetState);
    assert_eq!(v, TickerVerdict::Reply(TokioMessage::State(before)));
    assert_eq!(ss, before);
}

#[test]
fn captures_after_the_first_increment_the_id_without_rescanning() {
    let mut ss = active(1);
    assert_eq!(ss.on_tick(), CaptureStep::CaptureFirst);
    ss.record_first_id(8);
    assert_eq!(ss.last_id, Some(8));
    assert_eq!(ss.on_tick(), CaptureStep::Capture(9));
    assert_eq!(ss.on_tick(), CaptureStep::Capture(10));
    assert_eq!(ss.last_id, Some(10));
}

#[test]
fn an_interval_of_zero_captures_on_every_tick() {
    let mut ss = active(0);
    assert_eq!(ss.on_tick(), CaptureStep::CaptureFirst);
    ss.record_first_id(0);
    assert_eq!(ss.on_tick(), CaptureStep::Capture(1));
}

#[test]
fn capture_file_names_carry_the_sequence_id() {
    assert_eq!(capture_file_name(8), "screen_8.jpeg");
    assert_eq!(capture_file_name(0), "screen_0.jpeg");
    assert_eq!(capture_file_name(12345), "screen_12345.jpeg");
}

#[test]
fn u64_to_string_renders_decimal() {
    assert_eq!(u64_to_string(0), "0");
    assert_eq!(u64_to_string(7), "7");
    assert_eq!(u64_to_string(10), "10");
    assert_eq!(u64_to_string(1_234_567_890), "1234567890");
    assert_eq!(u64_to_string(u64::MAX), "18446744073709551615");
}

#[test]
fn bool_str_renders_flags() {
    assert_eq!(bool_str(true), "true");
    assert_eq!(bool_str(false), "false");
}

#[test]
fn trim_text_strips_surrounding_blanks() {
    assert_eq!(trim_text(" ping \n"), "ping");
    assert_eq!(trim_text("\t\r\nstart"), "start");
    assert_eq!(trim_text("exit"), "exit");
    assert_eq!(trim_text("  \t  "), "");
    assert_eq!(trim_text(""), "");
    assert_eq!(trim_text("a b"), "a b");
}
