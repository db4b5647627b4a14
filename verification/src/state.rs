//! The phases of a pomodoro session.

use vstd::prelude::*;
use vstd::string::StringExecFns;

verus! {

/// All possible states a pomo machine can be in
#[derive(Copy, Clone, Debug, Eq, PartialEq, Structural)]
pub enum PomoState {
    NotStarted,
    Pending,
    Working,
    Break,
    LongBreak,
    Completed,
    Paused,
}

impl PomoState {
    /// Whether one of the machine's timers runs in this state.
    pub open spec fn has_timer(self) -> bool {
        self == PomoState::Working || self == PomoState::Break || self == PomoState::LongBreak
    }

    /// The name of the state as it is shown.
    pub open spec fn label(self) -> Seq<char> {
        match self {
            Self::NotStarted => "NotStarted"@,
            Self::Pending => "Pending"@,
            Self::Working => "Working"@,
            Self::Break => "Break"@,
            Self::LongBreak => "Long Break"@,
            Self::Completed => "Completed"@,
            Self::Paused => "Paused"@,
        }
    }

    /// The name of the state as it is shown.
    pub fn name(&self) -> (name: &'static str)
        ensures
            name@ == self.label(),
    {
        match self {
            Self::NotStarted => "NotStarted",
            Self::Pending => "Pending",
            Self::Working => "Working",
            Self::Break => "Break",
            Self::LongBreak => "Long Break",
            Self::Completed => "Completed",
            Self::Paused => "Paused",
        }
    }

    pub fn to_string(&self) -> (text: String)
        ensures
            text@ == self.label(),
    {
        String::from_str(self.name())
    }
}

impl Default for PomoState {
    fn default() -> (state: Self)
        ensures
            state == PomoState::NotStarted,
    {
        Self::NotStarted
    }
}

} // verus!
