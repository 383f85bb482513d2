//! The setup phase as a machine.
//!
//! Setup alternates requests to the application shell with decisions on its
//! answers. The decisions are [`StartupPlan::advance`]: from where setup stands
//! and what the shell just answered, to where it stands next and what to ask
//! next. The caller performs each request and hands the answer back.

use vstd::prelude::*;
use crate::config::LogLevel;
use crate::plan::{StartupPlan, WindowVisibility};

verus! {

/// Where setup stands.
#[derive(Clone, Copy, Debug, PartialEq, Eq, Structural)]
pub enum SetupState {
    /// Nothing was asked yet.
    Start,
    /// The logger's registration is under way.
    RegisteringLogger,
    /// The lookup of the main window is under way.
    LocatingWindow,
    /// A show or hide request is under way.
    SettingVisibility,
    /// Setup has ended, one way or another.
    Over,
}

/// What the shell answered.
#[derive(Clone, Copy, Debug, PartialEq, Eq, Structural)]
pub enum SetupEvent {
    /// Setup was entered.
    Begin,
    /// The logger is attached.
    LoggerRegistered,
    /// The logger could not be attached.
    LoggerFailed,
    /// There is a main window.
    WindowFound,
    /// There is no main window.
    WindowMissing,
    /// The show or hide request went through.
    VisibilityApplied,
    /// The show or hide request failed.
    VisibilityFailed,
}

/// What setup asks for next.
#[derive(Clone, Copy, Debug, PartialEq, Eq, Structural)]
pub enum SetupAction {
    /// Attach the logger at this verbosity.
    RegisterLogger(LogLevel),
    /// Look the main window up by its label.
    LocateWindow,
    /// Hide the main window.
    HideWindow,
    /// Show the main window.
    ShowWindow,
    /// Leave setup with success.
    Complete,
    /// Leave setup with the logger's failure, which the shell reports.
    Abort,
    /// End the process at once, without cleanup.
    Crash,
}

/// One move of the machine.
#[derive(Clone, Copy, Debug, PartialEq, Eq, Structural)]
pub struct SetupStep {
    pub state: SetupState,
    pub action: SetupAction,
}

/// Why the machine did not move.
#[derive(Clone, Copy, Debug, PartialEq, Eq, Structural)]
pub enum SetupError {
    /// Setup has ended: no event is awaited any more.
    AlreadyOver,
    /// The event is not an answer to what was asked last.
    UnexpectedEvent,
}

/// The events that answer what was asked on entering `state`.
pub open spec fn awaits(state: SetupState, event: SetupEvent) -> bool {
    match state {
        SetupState::Start => event is Begin,
        SetupState::RegisteringLogger => event is LoggerRegistered || event is LoggerFailed,
        SetupState::LocatingWindow => event is WindowFound || event is WindowMissing,
        SetupState::SettingVisibility => event is VisibilityApplied || event is VisibilityFailed,
        SetupState::Over => false,
    }
}

/// The actions that end setup.
pub open spec fn is_final(action: SetupAction) -> bool {
    action is Complete || action is Abort || action is Crash
}

/// The lookup of the main window, which follows whatever came before it.
pub open spec fn locate_step() -> SetupStep {
    SetupStep { state: SetupState::LocatingWindow, action: SetupAction::LocateWindow }
}

/// The end of setup by `action`.
pub open spec fn final_step(action: SetupAction) -> SetupStep {
    SetupStep { state: SetupState::Over, action }
}

/// The move that `plan` makes in `state` on an awaited `event`.
pub open spec fn next_step(plan: StartupPlan, state: SetupState, event: SetupEvent) -> SetupStep
    recommends
        awaits(state, event),
{
    match event {
        SetupEvent::Begin => match plan.logger {
            Some(level) => SetupStep {
                state: SetupState::RegisteringLogger,
                action: SetupAction::RegisterLogger(level),
            },
            None => locate_step(),
        },
        SetupEvent::LoggerRegistered => locate_step(),
        SetupEvent::LoggerFailed => final_step(SetupAction::Abort),
        SetupEvent::WindowFound => match plan.visibility {
            WindowVisibility::Hidden => SetupStep {
                state: SetupState::SettingVisibility,
                action: SetupAction::HideWindow,
            },
            WindowVisibility::Shown => SetupStep {
                state: SetupState::SettingVisibility,
                action: SetupAction::ShowWindow,
            },
            WindowVisibility::Unmanaged => final_step(SetupAction::Complete),
        },
        SetupEvent::WindowMissing => final_step(SetupAction::Complete),
        SetupEvent::VisibilityApplied => final_step(SetupAction::Complete),
        SetupEvent::VisibilityFailed => final_step(SetupAction::Crash),
    }
}

/// The machine: it moves on the awaited events and on no others.
pub open spec fn step(plan: StartupPlan, state: SetupState, event: SetupEvent) -> Result<
    SetupStep,
    SetupError,
> {
    if state is Over {
        Err(SetupError::AlreadyOver)
    } else if !awaits(state, event) {
        Err(SetupError::UnexpectedEvent)
    } else {
        Ok(next_step(plan, state, event))
    }
}

impl SetupAction {
    /// Tells whether this action ends setup.
    pub fn is_final(&self) -> (last: bool)
        ensures
            last == is_final(*self),
    {
        match self {
            SetupAction::Complete | SetupAction::Abort | SetupAction::Crash => true,
            _ => false,
        }
    }
}

impl StartupPlan {
    /// Decides, in `state` and on `event`, where setup stands next and what
    /// it asks for.
    pub fn advance(&self, state: SetupState, event: SetupEvent) -> (moved: Result<
        SetupStep,
        SetupError,
    >)
        ensures
            moved == step(*self, state, event),
    {
        let over = SetupStep { state: SetupState::Over, action: SetupAction::Complete };
        let locate = SetupStep {
            state: SetupState::LocatingWindow,
            action: SetupAction::LocateWindow,
        };
        match (state, event) {
            (SetupState::Over, _) => Err(SetupError::AlreadyOver),
            (SetupState::Start, SetupEvent::Begin) => match self.logger {
                Some(level) => Ok(
                    SetupStep {
                        state: SetupState::RegisteringLogger,
                        action: SetupAction::RegisterLogger(level),
                    },
                ),
                None => Ok(locate),
            },
            (SetupState::RegisteringLogger, SetupEvent::LoggerRegistered) => Ok(locate),
            (SetupState::RegisteringLogger, SetupEvent::LoggerFailed) => Ok(
                SetupStep { action: SetupAction::Abort, ..over },
            ),
            (SetupState::LocatingWindow, SetupEvent::WindowFound) => match self.visibility {
                WindowVisibility::Hidden => Ok(
                    SetupStep {
                        state: SetupState::SettingVisibility,
                        action: SetupAction::HideWindow,
                    },
                ),
                WindowVisibility::Shown => Ok(
                    SetupStep {
                        state: SetupState::SettingVisibility,
                        action: SetupAction::ShowWindow,
                    },
                ),
                WindowVisibility::Unmanaged => Ok(over),
            },
            (SetupState::LocatingWindow, SetupEvent::WindowMissing) => Ok(over),
            (SetupState::SettingVisibility, SetupEvent::VisibilityApplied) => Ok(over),
            (SetupState::SettingVisibility, SetupEvent::VisibilityFailed) => Ok(
                SetupStep { action: SetupAction::Crash, ..over },
            ),
            _ => Err(SetupError::UnexpectedEvent),
        }
    }
}

} // verus!
