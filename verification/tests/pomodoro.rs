use pomodoro::input::{I3BarEvent, MouseButton};
use pomodoro::pomodoro::{NagLevel, Pomodoro, PomodoroConfig, PomodoroState};
use pomodoro::widget::State;

fn minute_config() -> PomodoroConfig {
    PomodoroConfig {
        length: 1,
        break_length: 1,
        message: PomodoroConfig::default_message(),
        break_message: PomodoroConfig::default_break_message(),
        use_nag: false,
        nag_path: PomodoroConfig::default_nag_path(),
    }
}

fn event_for(block: &Pomodoro, button: MouseButton) -> I3BarEvent {
    I3BarEvent {
        name: Some(block.id().to_string()),
        button,
    }
}

#[test]
fn config_defaults() {
    assert_eq!(PomodoroConfig::default_length(), 25);
    assert_eq!(PomodoroConfig::default_break_length(), 5);
    assert_eq!(PomodoroConfig::default_message(), "Pomodoro over! Take a break!");
    assert_eq!(PomodoroConfig::default_break_message(), "Break over! Time to work!");
    assert!(!PomodoroConfig::default_use_nag());
    assert_eq!(PomodoroConfig::default_nag_path(), "i3-nagbar");
}

#[test]
fn default_config_is_empty() {
    let cfg = PomodoroConfig::default();
    assert_eq!(cfg.length, 0);
    assert_eq!(cfg.break_length, 0);
    assert_eq!(cfg.message, "");
    assert_eq!(cfg.break_message, "");
    assert!(!cfg.use_nag);
    assert_eq!(cfg.nag_path, "");
}

#[test]
fn new_block_starts_stopped() {
    let block = Pomodoro::new(minute_config());
    assert_eq!(block.state, PomodoroState::Stopped);
    assert_eq!(block.count, 0);
    assert_eq!(block.length, 60_000);
    assert_eq!(block.break_length, 60_000);
    assert_eq!(block.update_interval, 1000);
    assert_eq!(block.view().text, "");
    assert_eq!(block.view().state, State::Idle);
}

#[test]
fn identities_are_fresh_32_char_strings() {
    let a = Pomodoro::new(minute_config());
    let b = Pomodoro::new(minute_config());
    assert_eq!(a.id().len(), 32);
    assert_eq!(b.id().len(), 32);
    assert!(a.id().chars().all(|c| c.is_ascii_hexdigit()));
    assert_ne!(a.id(), b.id());
}

#[test]
fn stopped_renders_zero_countdown() {
    let mut block = Pomodoro::new(minute_config());
    let hint = block.update(5_000);
    assert_eq!(hint.interval_ms, 1000);
    assert!(hint.notification.is_none());
    assert_eq!(block.state, PomodoroState::Stopped);
    assert_eq!(block.view().text, "0 | 0:00");
    assert_eq!(block.view().state, State::Idle);
}

#[test]
fn countdown_formatting_edges() {
    assert_eq!(PomodoroState::Stopped.fmt(123_456), "0:00");
    assert_eq!(PomodoroState::Paused(5_000).fmt(0), "0:05");
    assert_eq!(PomodoroState::Paused(59_999).fmt(0), "0:59");
    assert_eq!(PomodoroState::Paused(60_000).fmt(0), "1:00");
    // Minutes are unbounded, not clamped to an hour.
    assert_eq!(PomodoroState::Paused(3_661_000).fmt(0), "61:01");
    assert_eq!(PomodoroState::Started(1_000).fmt(31_000), "0:30");
}

#[test]
fn paused_elapsed_reads_no_clock() {
    let paused = PomodoroState::Paused(30_000);
    assert_eq!(paused.elapsed(0), 30_000);
    assert_eq!(paused.elapsed(1_000_000), 30_000);
}

// Start idle, click, work a full minute: the tick that sees the work
// duration elapsed moves the block on break, and the label it painted
// just before the transition reads "0 | 1:00".
#[test]
fn work_session_completes_into_break() {
    let mut block = Pomodoro::new(minute_config());
    block.click(&event_for(&block, MouseButton::Left), 1_000);
    assert_eq!(block.state, PomodoroState::Started(1_000));
    assert_eq!(block.view().state, State::Info);

    let hint = block.update(31_000);
    assert_eq!(block.state, PomodoroState::Started(1_000));
    assert_eq!(block.view().text, "0 | 0:30");
    assert!(hint.notification.is_none());

    let hint = block.update(61_000);
    assert_eq!(block.state, PomodoroState::OnBreak(61_000));
    assert_eq!(block.view().text, "0 | 1:00");
    assert_eq!(block.count, 0);
    assert!(hint.notification.is_none());
}

// Pausing freezes the label; it stays fixed across later ticks.
#[test]
fn pause_freezes_elapsed_and_label() {
    let mut block = Pomodoro::new(minute_config());
    block.click(&event_for(&block, MouseButton::Left), 1_000);
    block.click(&event_for(&block, MouseButton::Left), 31_000);
    assert_eq!(block.state, PomodoroState::Paused(30_000));
    assert_eq!(block.view().text, "0 | 0:30");
    assert_eq!(block.view().state, State::Warning);

    block.update(45_000);
    block.update(90_000);
    assert_eq!(block.state, PomodoroState::Paused(30_000));
    assert_eq!(block.view().text, "0 | 0:30");
}

// Resuming backdates the start so elapsed time continues seamlessly;
// 31 more seconds of real time later, elapsed is 61 seconds and the
// next tick moves the block on break.
#[test]
fn resume_continues_elapsed_time() {
    let mut block = Pomodoro::new(minute_config());
    block.click(&event_for(&block, MouseButton::Left), 1_000);
    block.click(&event_for(&block, MouseButton::Left), 31_000);
    assert_eq!(block.state, PomodoroState::Paused(30_000));

    block.click(&event_for(&block, MouseButton::Left), 100_000);
    assert_eq!(block.state, PomodoroState::Started(70_000));
    assert_eq!(block.state.elapsed(100_000), 30_000);

    assert_eq!(block.state.elapsed(131_000), 61_000);
    block.update(131_000);
    assert_eq!(block.state, PomodoroState::OnBreak(131_000));
}

// A resume whose backdating would underflow the clock's representable
// range discards the frozen time instead of failing.
#[test]
fn resume_underflow_discards_accumulated() {
    let mut block = Pomodoro::new(minute_config());
    block.click(&event_for(&block, MouseButton::Left), 0);
    block.click(&event_for(&block, MouseButton::Left), 30_000);
    assert_eq!(block.state, PomodoroState::Paused(30_000));

    block.click(&event_for(&block, MouseButton::Left), 10_000);
    assert_eq!(block.state, PomodoroState::Started(10_000));
    assert_eq!(block.state.elapsed(10_000), 0);
}

// A right click resets to stopped with a zero count from every phase.
#[test]
fn right_click_resets_from_any_phase() {
    let mut block = Pomodoro::new(minute_config());

    // From stopped.
    block.click(&event_for(&block, MouseButton::Right), 1_000);
    assert_eq!(block.state, PomodoroState::Stopped);
    assert_eq!(block.count, 0);

    // From working.
    block.click(&event_for(&block, MouseButton::Left), 2_000);
    block.click(&event_for(&block, MouseButton::Right), 3_000);
    assert_eq!(block.state, PomodoroState::Stopped);
    assert_eq!(block.count, 0);

    // From paused.
    block.click(&event_for(&block, MouseButton::Left), 4_000);
    block.click(&event_for(&block, MouseButton::Left), 5_000);
    assert!(matches!(block.state, PomodoroState::Paused(_)));
    block.click(&event_for(&block, MouseButton::Right), 6_000);
    assert_eq!(block.state, PomodoroState::Stopped);
    assert_eq!(block.count, 0);

    // From a break, with cycles on the counter, independent of the
    // elapsed break time.
    block.click(&event_for(&block, MouseButton::Left), 10_000);
    block.update(70_000);
    assert!(matches!(block.state, PomodoroState::OnBreak(_)));
    block.click(&event_for(&block, MouseButton::Left), 80_000);
    assert_eq!(block.count, 1);
    block.update(141_000);
    assert!(matches!(block.state, PomodoroState::OnBreak(_)));
    assert_eq!(block.count, 1);
    block.click(&event_for(&block, MouseButton::Right), 150_000);
    assert_eq!(block.state, PomodoroState::Stopped);
    assert_eq!(block.count, 0);
    assert_eq!(block.view().text, "0 | 0:00");
    assert_eq!(block.view().state, State::Idle);
}

// Skipping a break with a primary click counts the cycle as completed
// immediately and starts the next work session.
#[test]
fn break_skip_increments_count() {
    let mut block = Pomodoro::new(minute_config());
    block.click(&event_for(&block, MouseButton::Left), 0);
    block.update(60_000);
    assert_eq!(block.state, PomodoroState::OnBreak(60_000));
    assert_eq!(block.count, 0);

    block.click(&event_for(&block, MouseButton::Left), 75_000);
    assert_eq!(block.state, PomodoroState::Started(75_000));
    assert_eq!(block.count, 1);
}

// Every non-right button takes the primary-action path.
#[test]
fn other_buttons_act_as_primary() {
    let mut block = Pomodoro::new(minute_config());
    block.click(&event_for(&block, MouseButton::Middle), 1_000);
    assert_eq!(block.state, PomodoroState::Started(1_000));
    block.click(&event_for(&block, MouseButton::WheelUp), 2_000);
    assert_eq!(block.state, PomodoroState::Paused(1_000));
    block.click(&event_for(&block, MouseButton::WheelDown), 3_000);
    assert_eq!(block.state, PomodoroState::Started(2_000));
}

// A full natural cycle: work, then the break completes via a tick, and
// exactly one cycle is on the counter.
#[test]
fn full_cycle_counts_once() {
    let mut block = Pomodoro::new(minute_config());
    block.click(&event_for(&block, MouseButton::Left), 0);
    block.update(60_000);
    assert_eq!(block.state, PomodoroState::OnBreak(60_000));
    let hint = block.update(120_000);
    assert_eq!(block.state, PomodoroState::Stopped);
    assert_eq!(block.count, 1);
    assert!(hint.notification.is_none());

    let hint = block.update(121_000);
    assert_eq!(block.view().text, "1 | 0:00");
    assert!(hint.notification.is_none());
}

// An event addressed to another instance, or to none, changes nothing.
#[test]
fn unaddressed_events_are_ignored() {
    let mut block = Pomodoro::new(minute_config());
    block.click(&event_for(&block, MouseButton::Left), 1_000);
    assert_eq!(block.state, PomodoroState::Started(1_000));

    let other = I3BarEvent {
        name: Some("feedfacefeedfacefeedfacefeedface".to_string()),
        button: MouseButton::Right,
    };
    block.click(&other, 2_000);
    assert_eq!(block.state, PomodoroState::Started(1_000));
    assert_eq!(block.count, 0);

    let anonymous = I3BarEvent {
        name: None,
        button: MouseButton::Right,
    };
    block.click(&anonymous, 3_000);
    assert_eq!(block.state, PomodoroState::Started(1_000));
    assert_eq!(block.count, 0);
}

// With notifications enabled, completing the work session fires exactly
// one notification with the work message at error urgency.
#[test]
fn work_completion_notifies_once() {
    let mut cfg = minute_config();
    cfg.use_nag = true;
    let mut block = Pomodoro::new(cfg);
    block.click(&event_for(&block, MouseButton::Left), 0);

    let hint = block.update(59_000);
    assert!(hint.notification.is_none());

    let hint = block.update(60_000);
    let notice = hint.notification.expect("work completion should notify");
    assert_eq!(notice.message, "Pomodoro over! Take a break!");
    assert_eq!(notice.level, NagLevel::Error);
    assert_eq!(notice.level.arg(), "error");

    // The transition is committed; the next tick fires nothing more.
    let hint = block.update(61_000);
    assert!(hint.notification.is_none());
}

// With notifications enabled, completing the break fires exactly one
// notification with the break message at warning urgency.
#[test]
fn break_completion_notifies_once() {
    let mut cfg = minute_config();
    cfg.use_nag = true;
    let mut block = Pomodoro::new(cfg);
    block.click(&event_for(&block, MouseButton::Left), 0);
    block.update(60_000);
    assert_eq!(block.state, PomodoroState::OnBreak(60_000));

    let hint = block.update(120_000);
    let notice = hint.notification.expect("break completion should notify");
    assert_eq!(notice.message, "Break over! Time to work!");
    assert_eq!(notice.level, NagLevel::Warning);
    assert_eq!(notice.level.arg(), "warning");
    assert_eq!(block.count, 1);

    let hint = block.update(121_000);
    assert!(hint.notification.is_none());
}

// With notifications disabled, phase completions stay silent.
#[test]
fn disabled_notifications_stay_silent() {
    let mut block = Pomodoro::new(minute_config());
    block.click(&event_for(&block, MouseButton::Left), 0);
    let hint = block.update(60_000);
    assert!(hint.notification.is_none());
    let hint = block.update(120_000);
    assert!(hint.notification.is_none());
    assert_eq!(block.count, 1);
}

// The notifier command line is the configured program with -t and -m.
#[test]
fn nag_command_shape() {
    let block = Pomodoro::new(minute_config());
    let cmd = block.nag("Pomodoro over! Take a break!", "error");
    assert_eq!(cmd.program, "i3-nagbar");
    assert_eq!(cmd.args, vec!["-t", "error", "-m", "Pomodoro over! Take a break!"]);
}
