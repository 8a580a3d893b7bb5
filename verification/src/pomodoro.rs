//! The pomodoro block: phase state machine, tick and click transitions,
//! label updates and notification decisions.
//!
//! Timestamps and durations are plain `u64` millisecond values. A live
//! phase stores the monotonic reading taken when it began; every entry
//! point takes the current reading `now` from the caller, which reads
//! the clock at the edge.

use vstd::prelude::*;
use vstd::string::StringExecFns;

use crate::input::{I3BarEvent, MouseButton};
use crate::label::{push_decimal, push_mmss, spec_label, spec_mmss};
use crate::widget::{ButtonWidget, State};

verus! {

/// The timer phase. `Started` and `OnBreak` carry the monotonic
/// millisecond reading at which the phase began; `Paused` carries the
/// elapsed work time frozen at the pause, in milliseconds.
#[derive(Clone, Copy, PartialEq, Eq, Structural, Debug)]
pub enum PomodoroState {
    Started(u64),
    Stopped,
    Paused(u64),
    OnBreak(u64),
}

/// Urgency of a phase-completion notification.
#[derive(Clone, Copy, PartialEq, Eq, Structural, Debug)]
pub enum NagLevel {
    Error,
    Warning,
}

/// A notification the host should surface: the configured message for
/// the phase that just completed, at the given urgency.
#[derive(Clone, Debug, PartialEq)]
pub struct Notification {
    pub message: String,
    pub level: NagLevel,
}

/// What a tick hands back to the host: the desired re-poll delay and
/// the notification due for this tick, if any.
pub struct Update {
    pub interval_ms: u64,
    pub notification: Option<Notification>,
}

/// The command line for the external notifier program.
pub struct NagCommand {
    pub program: String,
    pub args: Vec<String>,
}

impl PomodoroState {
    /// A phase is valid at reading `now` when any start timestamp it
    /// carries is no later than `now`: monotonic readings only grow.
    pub open spec fn valid_at(self, now: u64) -> bool {
        match self {
            PomodoroState::Started(start) => start <= now,
            PomodoroState::Stopped => true,
            PomodoroState::Paused(_) => true,
            PomodoroState::OnBreak(start) => start <= now,
        }
    }

    /// The elapsed milliseconds this phase represents at reading `now`:
    /// measured live for `Started` and `OnBreak`, frozen for `Paused`,
    /// and zero for `Stopped`.
    pub open spec fn spec_elapsed(self, now: u64) -> int {
        match self {
            PomodoroState::Started(start) => now - start,
            PomodoroState::Stopped => 0,
            PomodoroState::Paused(acc) => acc as int,
            PomodoroState::OnBreak(start) => now - start,
        }
    }

    /// Elapsed milliseconds at reading `now`. In `Stopped` there is no
    /// time data and the answer is zero rather than a failure.
    pub fn elapsed(&self, now: u64) -> (r: u64)
        requires
            self.valid_at(now),
        ensures
            r == self.spec_elapsed(now),
    {
        match self {
            PomodoroState::Started(start) => now - *start,
            PomodoroState::Stopped => 0,
            PomodoroState::Paused(acc) => *acc,
            PomodoroState::OnBreak(start) => now - *start,
        }
    }

    /// The countdown text for this phase at reading `now`: elapsed
    /// whole seconds as `m:ss`.
    pub fn fmt(&self, now: u64) -> (r: String)
        requires
            self.valid_at(now),
        ensures
            r@ == spec_mmss(self.spec_elapsed(now) / 1000),
    {
        let mut s = String::new();
        push_mmss(&mut s, self.elapsed(now) / 1000);
        s
    }
}

/// The severity shown for each phase. Purely presentational.
pub open spec fn spec_widget_state(s: PomodoroState) -> State {
    match s {
        PomodoroState::Started(_) => State::Info,
        PomodoroState::Stopped => State::Idle,
        PomodoroState::Paused(_) => State::Warning,
        PomodoroState::OnBreak(_) => State::Critical,
    }
}

/// The phase after a tick at reading `now`: a work session whose
/// elapsed time has reached the work duration goes on break, a break
/// whose elapsed time has reached the break duration stops; nothing
/// else changes.
pub open spec fn spec_state_after_tick(
    s: PomodoroState,
    length: u64,
    break_length: u64,
    now: u64,
) -> PomodoroState {
    match s {
        PomodoroState::Started(_) => if s.spec_elapsed(now) >= length {
            PomodoroState::OnBreak(now)
        } else {
            s
        },
        PomodoroState::OnBreak(_) => if s.spec_elapsed(now) >= break_length {
            PomodoroState::Stopped
        } else {
            s
        },
        _ => s,
    }
}

/// The cycle count after a tick: it grows by one exactly when a break
/// completes, and never otherwise.
pub open spec fn spec_count_after_tick(
    s: PomodoroState,
    count: int,
    break_length: u64,
    now: u64,
) -> int {
    if s is OnBreak && s.spec_elapsed(now) >= break_length {
        count + 1
    } else {
        count
    }
}

/// The phase after a click at reading `now`. A `Right` click stops the
/// timer from any phase. Any other button starts work from `Stopped`,
/// freezes the elapsed work time from `Started`, resumes from `Paused`
/// by backdating the start so elapsed time continues seamlessly (or
/// discards the frozen time if backdating would underflow), and starts
/// work from `OnBreak`.
pub open spec fn spec_state_after_click(
    s: PomodoroState,
    button: MouseButton,
    now: u64,
) -> PomodoroState {
    if button == MouseButton::Right {
        PomodoroState::Stopped
    } else {
        match s {
            PomodoroState::Stopped => PomodoroState::Started(now),
            PomodoroState::Started(start) => PomodoroState::Paused((now - start) as u64),
            PomodoroState::Paused(acc) => if acc <= now {
                PomodoroState::Started((now - acc) as u64)
            } else {
                PomodoroState::Started(now)
            },
            PomodoroState::OnBreak(_) => PomodoroState::Started(now),
        }
    }
}

/// The cycle count after a click: a `Right` click resets it to zero;
/// any other button grows it by one exactly when it skips a break.
pub open spec fn spec_count_after_click(s: PomodoroState, count: int, button: MouseButton) -> int {
    if button == MouseButton::Right {
        0
    } else if s is OnBreak {
        count + 1
    } else {
        count
    }
}

/// The notification a tick at reading `now` fires: when notifications
/// are enabled, the work-complete message at `Error` urgency for a work
/// session reaching its duration, the break-complete message at
/// `Warning` urgency for a break reaching its duration, and nothing
/// otherwise.
pub open spec fn spec_tick_notification(b: Pomodoro, now: u64) -> Option<Notification> {
    if !b.use_nag {
        None
    } else {
        match b.state {
            PomodoroState::Started(_) => if b.state.spec_elapsed(now) >= b.length {
                Some(Notification { message: b.message, level: NagLevel::Error })
            } else {
                None
            },
            PomodoroState::OnBreak(_) => if b.state.spec_elapsed(now) >= b.break_length {
                Some(Notification { message: b.break_message, level: NagLevel::Warning })
            } else {
                None
            },
            _ => None,
        }
    }
}

impl NagLevel {
    /// The severity string handed to the notifier program.
    pub open spec fn spec_arg(self) -> Seq<char> {
        match self {
            NagLevel::Error => "error"@,
            NagLevel::Warning => "warning"@,
        }
    }

    /// The severity argument for the notifier command line.
    pub fn arg(&self) -> (r: &'static str)
        ensures
            r@ == self.spec_arg(),
    {
        match self {
            NagLevel::Error => "error",
            NagLevel::Warning => "warning",
        }
    }
}

/// The pomodoro block instance.
pub struct Pomodoro {
    /// Identity distinguishing this instance among the host's widgets;
    /// used only to filter addressed click events.
    pub id: String,
    /// The widget the host paints.
    pub time: ButtonWidget,
    /// The current phase.
    pub state: PomodoroState,
    /// Work duration in milliseconds; fixed at construction.
    pub length: u64,
    /// Break duration in milliseconds; fixed at construction.
    pub break_length: u64,
    /// Re-poll delay handed back from each tick, in milliseconds.
    pub update_interval: u64,
    /// Notification text for a completed work session.
    pub message: String,
    /// Notification text for a completed break.
    pub break_message: String,
    /// Completed work/break cycles since the last reset.
    pub count: u64,
    /// Whether phase completions fire a notification.
    pub use_nag: bool,
    /// The external notifier executable.
    pub nag_path: String,
}

/// Configuration the block is built from; durations are whole minutes.
#[derive(Debug, Clone)]
pub struct PomodoroConfig {
    pub length: u64,
    pub break_length: u64,
    pub message: String,
    pub break_message: String,
    pub use_nag: bool,
    pub nag_path: String,
}

impl PomodoroConfig {
    /// Default work duration, in minutes.
    pub fn default_length() -> (r: u64)
        ensures
            r == 25,
    {
        25
    }

    /// Default break duration, in minutes.
    pub fn default_break_length() -> (r: u64)
        ensures
            r == 5,
    {
        5
    }

    /// Default work-complete notification text.
    pub fn default_message() -> (r: String)
        ensures
            r@ == "Pomodoro over! Take a break!"@,
    {
        String::from_str("Pomodoro over! Take a break!")
    }

    /// Default break-complete notification text.
    pub fn default_break_message() -> (r: String)
        ensures
            r@ == "Break over! Time to work!"@,
    {
        String::from_str("Break over! Time to work!")
    }

    /// Notifications are off by default.
    pub fn default_use_nag() -> (r: bool)
        ensures
            r == false,
    {
        false
    }

    /// Default notifier executable.
    pub fn default_nag_path() -> (r: String)
        ensures
            r@ == "i3-nagbar"@,
    {
        String::from_str("i3-nagbar")
    }
}

impl Default for PomodoroConfig {
    /// The all-empty configuration: zero durations, empty texts,
    /// notifications off.
    fn default() -> (r: PomodoroConfig)
        ensures
            r.length == 0,
            r.break_length == 0,
            r.message@ == Seq::<char>::empty(),
            r.break_message@ == Seq::<char>::empty(),
            r.use_nag == false,
            r.nag_path@ == Seq::<char>::empty(),
    {
        PomodoroConfig {
            length: 0,
            break_length: 0,
            message: String::new(),
            break_message: String::new(),
            use_nag: false,
            nag_path: String::new(),
        }
    }
}

/// Relies on `uuid::Uuid::new_v4` and the `Simple` formatter: a fresh
/// random identifier rendered as 32 lowercase hexadecimal characters.
/// The value itself is random, so nothing more is stated of it.
#[verifier::external_body]
fn new_identity() -> (r: String)
    ensures
        r@.len() == 32,
{
    uuid::Uuid::new_v4().simple().to_string()
}

impl Pomodoro {
    /// Builds a stopped block from a validated configuration, with a
    /// fresh random identity and an empty widget. Minute durations are
    /// converted to milliseconds; the bounds keep that conversion from
    /// overflowing.
    pub fn new(block_config: PomodoroConfig) -> (r: Pomodoro)
        requires
            block_config.length <= u64::MAX / 60000,
            block_config.break_length <= u64::MAX / 60000,
        ensures
            r.state == PomodoroState::Stopped,
            r.count == 0,
            r.length == block_config.length * 60000,
            r.break_length == block_config.break_length * 60000,
            r.update_interval == 1000,
            r.message@ == block_config.message@,
            r.break_message@ == block_config.break_message@,
            r.use_nag == block_config.use_nag,
            r.nag_path@ == block_config.nag_path@,
            r.id@.len() == 32,
            r.time.text@ == Seq::<char>::empty(),
            r.time.state == State::Idle,
    {
        let id = new_identity();
        Pomodoro {
            id,
            time: ButtonWidget::new(),
            state: PomodoroState::Stopped,
            length: block_config.length * 60000,
            break_length: block_config.break_length * 60000,
            update_interval: 1000,
            message: block_config.message,
            break_message: block_config.break_message,
            use_nag: block_config.use_nag,
            count: 0,
            nag_path: block_config.nag_path,
        }
    }

    /// The identity that addressed click events are matched against.
    pub fn id(&self) -> (r: &str)
        ensures
            r@ == self.id@,
    {
        self.id.as_str()
    }

    /// Whether an event targets this instance: its carried name equals
    /// this block's identity.
    pub open spec fn targets(self, event: I3BarEvent) -> bool {
        match event.name {
            Some(n) => n@ == self.id@,
            None => false,
        }
    }

    /// True when the block's configuration, identity and widget are
    /// unchanged between `pre` and `post`; only phase, count and the
    /// widget may move.
    pub open spec fn same_config(pre: Pomodoro, post: Pomodoro) -> bool {
        &&& post.id == pre.id
        &&& post.length == pre.length
        &&& post.break_length == pre.break_length
        &&& post.update_interval == pre.update_interval
        &&& post.message == pre.message
        &&& post.break_message == pre.break_message
        &&& post.use_nag == pre.use_nag
        &&& post.nag_path == pre.nag_path
    }

    /// Repaints the widget: the label from the current count and
    /// elapsed seconds, the severity from the current phase.
    pub fn set_text(&mut self, now: u64)
        requires
            old(self).state.valid_at(now),
        ensures
            Pomodoro::same_config(*old(self), *final(self)),
            final(self).state == old(self).state,
            final(self).count == old(self).count,
            final(self).time.text@ == spec_label(
                old(self).count as int,
                old(self).state.spec_elapsed(now) / 1000,
            ),
            final(self).time.state == spec_widget_state(old(self).state),
    {
        let mut text = String::new();
        push_decimal(&mut text, self.count);
        text.append(" | ");
        let countdown = self.state.fmt(now);
        text.append(countdown.as_str());
        self.time.set_text(text);
        self.time.set_state(self.compute_state());
    }

    /// The severity the widget should show for the current phase.
    pub fn compute_state(&self) -> (r: State)
        ensures
            r == spec_widget_state(self.state),
    {
        match self.state {
            PomodoroState::Started(_) => State::Info,
            PomodoroState::Stopped => State::Idle,
            PomodoroState::Paused(_) => State::Warning,
            PomodoroState::OnBreak(_) => State::Critical,
        }
    }

    /// The command line for the external notifier: the configured
    /// program with `-t <level>` and `-m <message>`.
    pub fn nag(&self, message: &str, level: &str) -> (r: NagCommand)
        ensures
            r.program@ == self.nag_path@,
            r.args@.len() == 4,
            r.args@[0]@ == "-t"@,
            r.args@[1]@ == level@,
            r.args@[2]@ == "-m"@,
            r.args@[3]@ == message@,
    {
        let mut args: Vec<String> = Vec::new();
        args.push(String::from_str("-t"));
        args.push(String::from_str(level));
        args.push(String::from_str("-m"));
        args.push(String::from_str(message));
        NagCommand { program: self.nag_path.clone(), args }
    }

    /// One periodic tick at reading `now`. Repaints the widget from the
    /// phase and count as they stood before any transition, then
    /// applies the tick transition, and returns the re-poll delay
    /// together with the notification due, if any.
    pub fn update(&mut self, now: u64) -> (r: Update)
        requires
            old(self).state.valid_at(now),
            old(self).count < u64::MAX,
        ensures
            Pomodoro::same_config(*old(self), *final(self)),
            final(self).state == spec_state_after_tick(
                old(self).state,
                old(self).length,
                old(self).break_length,
                now,
            ),
            final(self).state.valid_at(now),
            final(self).count == spec_count_after_tick(
                old(self).state,
                old(self).count as int,
                old(self).break_length,
                now,
            ),
            final(self).time.text@ == spec_label(
                old(self).count as int,
                old(self).state.spec_elapsed(now) / 1000,
            ),
            final(self).time.state == spec_widget_state(old(self).state),
            r.interval_ms == old(self).update_interval,
            r.notification == spec_tick_notification(*old(self), now),
    {
        self.set_text(now);
        let mut notification: Option<Notification> = None;
        match self.state {
            PomodoroState::Started(_) => {
                if self.state.elapsed(now) >= self.length {
                    if self.use_nag {
                        notification = Some(
                            Notification { message: self.message.clone(), level: NagLevel::Error },
                        );
                    }
                    self.state = PomodoroState::OnBreak(now);
                }
            },
            PomodoroState::OnBreak(_) => {
                if self.state.elapsed(now) >= self.break_length {
                    if self.use_nag {
                        notification = Some(
                            Notification {
                                message: self.break_message.clone(),
                                level: NagLevel::Warning,
                            },
                        );
                    }
                    self.state = PomodoroState::Stopped;
                    self.count = self.count + 1;
                }
            },
            _ => {},
        }
        Update { interval_ms: self.update_interval, notification }
    }

    /// One addressed click at reading `now`. An event that does not
    /// target this instance changes neither phase nor count. A
    /// targeting event applies the click transition. Either way the
    /// widget is repainted afterwards from the resulting phase and
    /// count. Clicks never fire a notification.
    pub fn click(&mut self, event: &I3BarEvent, now: u64)
        requires
            old(self).state.valid_at(now),
            old(self).count < u64::MAX,
        ensures
            Pomodoro::same_config(*old(self), *final(self)),
            old(self).targets(*event) ==> final(self).state == spec_state_after_click(
                old(self).state,
                event.button,
                now,
            ),
            old(self).targets(*event) ==> final(self).count == spec_count_after_click(
                old(self).state,
                old(self).count as int,
                event.button,
            ),
            !old(self).targets(*event) ==> final(self).state == old(self).state,
            !old(self).targets(*event) ==> final(self).count == old(self).count,
            final(self).state.valid_at(now),
            final(self).time.text@ == spec_label(
                final(self).count as int,
                final(self).state.spec_elapsed(now) / 1000,
            ),
            final(self).time.state == spec_widget_state(final(self).state),
    {
        let addressed = match &event.name {
            Some(name) => *name == self.id,
            None => false,
        };
        if addressed {
            match event.button {
                MouseButton::Right => {
                    self.state = PomodoroState::Stopped;
                    self.count = 0;
                },
                _ => {
                    match self.state {
                        PomodoroState::Stopped => {
                            self.state = PomodoroState::Started(now);
                        },
                        PomodoroState::Started(_) => {
                            self.state = PomodoroState::Paused(self.state.elapsed(now));
                        },
                        PomodoroState::Paused(acc) => {
                            if acc <= now {
                                self.state = PomodoroState::Started(now - acc);
                            } else {
                                self.state = PomodoroState::Started(now);
                            }
                        },
                        PomodoroState::OnBreak(_) => {
                            self.state = PomodoroState::Started(now);
                            self.count = self.count + 1;
                        },
                    }
                },
            }
        }
        self.set_text(now);
    }

    /// The widget the host paints for this block.
    pub fn view(&self) -> (r: &ButtonWidget)
        ensures
            r == &self.time,
    {
        &self.time
    }
}

} // verus!
