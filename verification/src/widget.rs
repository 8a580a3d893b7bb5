//! The displayed button widget: its text and severity state.

use vstd::prelude::*;

verus! {

/// Severity classification for host-side visual styling.
#[derive(Clone, Copy, PartialEq, Eq, Structural, Debug)]
pub enum State {
    Idle,
    Info,
    Warning,
    Critical,
}

/// A minimal text widget: what the host paints for this block.
pub struct ButtonWidget {
    /// The text currently shown.
    pub text: String,
    /// The severity state currently shown.
    pub state: State,
}

impl ButtonWidget {
    /// A fresh widget with empty text and idle severity.
    pub fn new() -> (r: ButtonWidget)
        ensures
            r.text@ == Seq::<char>::empty(),
            r.state == State::Idle,
    {
        ButtonWidget { text: String::new(), state: State::Idle }
    }

    /// Replaces the displayed text.
    pub fn set_text(&mut self, text: String)
        ensures
            final(self).text == text,
            final(self).state == old(self).state,
    {
        self.text = text;
    }

    /// Replaces the displayed severity state.
    pub fn set_state(&mut self, state: State)
        ensures
            final(self).text == old(self).text,
            final(self).state == state,
    {
        self.state = state;
    }
}

} // verus!
