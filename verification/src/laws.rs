//! Laws of the timer's transitions, stated over the same spec
//! functions the entry points' contracts use.

use vstd::prelude::*;

use crate::input::MouseButton;
use crate::pomodoro::{
    spec_count_after_click, spec_count_after_tick, spec_state_after_click, spec_state_after_tick,
    spec_tick_notification, NagLevel, Notification, Pomodoro, PomodoroState,
};

verus! {

/// While a work session runs with no intervening click, elapsed time
/// never decreases as the clock advances, and a tick that observes
/// elapsed time below the work duration leaves the phase unchanged, so
/// the same holds across any sequence of such ticks.
pub proof fn lemma_working_elapsed_nondecreasing(
    s: PomodoroState,
    length: u64,
    break_length: u64,
    now1: u64,
    now2: u64,
)
    requires
        s is Started,
        s.valid_at(now1),
        now1 <= now2,
    ensures
        s.spec_elapsed(now1) <= s.spec_elapsed(now2),
        s.spec_elapsed(now1) < length ==> spec_state_after_tick(s, length, break_length, now1)
            == s,
{
}

/// Pausing and then resuming preserves elapsed-time continuity: with
/// any primary buttons, the elapsed time just after the resume equals
/// the elapsed time just before the pause, and the backdated resume
/// never underflows.
pub proof fn lemma_pause_resume_continuity(
    s: PomodoroState,
    pause_button: MouseButton,
    resume_button: MouseButton,
    now_pause: u64,
    now_resume: u64,
)
    requires
        s is Started,
        s.valid_at(now_pause),
        now_pause <= now_resume,
        pause_button != MouseButton::Right,
        resume_button != MouseButton::Right,
    ensures
        ({
            let paused = spec_state_after_click(s, pause_button, now_pause);
            let resumed = spec_state_after_click(paused, resume_button, now_resume);
            &&& paused == PomodoroState::Paused(s.spec_elapsed(now_pause) as u64)
            &&& resumed is Started
            &&& resumed.valid_at(now_resume)
            &&& resumed.spec_elapsed(now_resume) == s.spec_elapsed(now_pause)
        }),
{
}

/// The first tick that observes a work session's elapsed time at or
/// past the work duration moves the block on break at that reading,
/// leaves the cycle count unchanged, and fires exactly one
/// notification, with the work-complete message at `Error` urgency,
/// when notifications are enabled, and none when they are not.
pub proof fn lemma_work_completion(b: Pomodoro, now: u64)
    requires
        b.state is Started,
        b.state.valid_at(now),
        b.state.spec_elapsed(now) >= b.length,
    ensures
        spec_state_after_tick(b.state, b.length, b.break_length, now) == PomodoroState::OnBreak(
            now,
        ),
        spec_count_after_tick(b.state, b.count as int, b.break_length, now) == b.count as int,
        b.use_nag ==> spec_tick_notification(b, now) == Some(
            Notification { message: b.message, level: NagLevel::Error },
        ),
        !b.use_nag ==> spec_tick_notification(b, now) is None,
{
}

/// The first tick that observes a break's elapsed time at or past the
/// break duration stops the block, increments the cycle count by
/// exactly one, and fires exactly one notification, with the
/// break-complete message at `Warning` urgency, when notifications are
/// enabled, and none when they are not.
pub proof fn lemma_break_completion(b: Pomodoro, now: u64)
    requires
        b.state is OnBreak,
        b.state.valid_at(now),
        b.state.spec_elapsed(now) >= b.break_length,
    ensures
        spec_state_after_tick(b.state, b.length, b.break_length, now) == PomodoroState::Stopped,
        spec_count_after_tick(b.state, b.count as int, b.break_length, now) == b.count as int + 1,
        b.use_nag ==> spec_tick_notification(b, now) == Some(
            Notification { message: b.break_message, level: NagLevel::Warning },
        ),
        !b.use_nag ==> spec_tick_notification(b, now) is None,
{
}

/// A `Right` click from any phase stops the timer and resets the cycle
/// count to zero. Clicks fire no notification: only ticks do.
pub proof fn lemma_right_click_resets(s: PomodoroState, count: int, now: u64)
    ensures
        spec_state_after_click(s, MouseButton::Right, now) == PomodoroState::Stopped,
        spec_count_after_click(s, count, MouseButton::Right) == 0,
{
}

/// A primary click during a break skips it: the block starts working
/// at that reading and the cycle count grows by exactly one. No
/// notification fires on a click.
pub proof fn lemma_break_skip_counts(
    s: PomodoroState,
    count: int,
    button: MouseButton,
    now: u64,
)
    requires
        s is OnBreak,
        button != MouseButton::Right,
    ensures
        spec_state_after_click(s, button, now) == PomodoroState::Started(now),
        spec_count_after_click(s, count, button) == count + 1,
{
}

} // verus!
