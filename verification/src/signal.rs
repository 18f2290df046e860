//! The lifecycle signal that the window host sends to the renderer.

use vstd::prelude::*;

verus! {

/// The state of the application as the window host sees it. Only equality
/// of two states means anything; `Closed` is final.
#[derive(Debug, Clone, Copy, PartialEq, Eq, PartialOrd, Ord, Structural)]
pub enum AppState {
    Closed,
    Awaiting,
    Paused,
    Loading,
    Open,
}

/// The state that a number on the wire stands for.
pub open spec fn state_of_wire(value: u8) -> Option<AppState> {
    if value == 0 {
        Some(AppState::Closed)
    } else if value == 1 {
        Some(AppState::Awaiting)
    } else if value == 2 {
        Some(AppState::Paused)
    } else if value == 4 {
        Some(AppState::Loading)
    } else if value == 8 {
        Some(AppState::Open)
    } else {
        None
    }
}

impl AppState {
    pub open spec fn spec_wire_value(self) -> u8 {
        match self {
            AppState::Closed => 0,
            AppState::Awaiting => 1,
            AppState::Paused => 2,
            AppState::Loading => 4,
            AppState::Open => 8,
        }
    }

    /// The number that stands for the state on the wire.
    #[verifier::when_used_as_spec(spec_wire_value)]
    pub fn wire_value(self) -> (value: u8)
        ensures
            value == self.spec_wire_value(),
            state_of_wire(value) == Some(self),
    {
        match self {
            AppState::Closed => 0,
            AppState::Awaiting => 1,
            AppState::Paused => 2,
            AppState::Loading => 4,
            AppState::Open => 8,
        }
    }

    /// The state that a number on the wire stands for, if any.
    pub fn from_wire(value: u8) -> (state: Option<AppState>)
        ensures
            state == state_of_wire(value),
            state is Some ==> state->0.spec_wire_value() == value,
    {
        if value == 0 {
            Some(AppState::Closed)
        } else if value == 1 {
            Some(AppState::Awaiting)
        } else if value == 2 {
            Some(AppState::Paused)
        } else if value == 4 {
            Some(AppState::Loading)
        } else if value == 8 {
            Some(AppState::Open)
        } else {
            None
        }
    }

    pub open spec fn spec_is_terminal(self) -> bool {
        self == AppState::Closed
    }

    /// Whether the state ends the renderer's control loop.
    #[verifier::when_used_as_spec(spec_is_terminal)]
    pub fn is_terminal(self) -> (terminal: bool)
        ensures
            terminal == self.spec_is_terminal(),
    {
        self == AppState::Closed
    }
}

impl Default for AppState {
    /// The state before the window host has reported anything.
    fn default() -> (state: Self)
        ensures
            state == AppState::Awaiting,
    {
        AppState::Awaiting
    }
}

} // verus!
