//! What the shell is asked to do at startup, settled before anything runs.

use vstd::prelude::*;
use crate::args::{hidden_flag_present, hidden_requested};
use crate::config::{BuildClass, LogLevel, TargetClass, CONTENT_SERVER_PORT};

verus! {

/// What setup asks of the main window once it is found.
#[derive(Clone, Copy, Debug, PartialEq, Eq, Structural)]
pub enum WindowVisibility {
    /// The window is kept out of sight.
    Hidden,
    /// The window is brought up.
    Shown,
    /// The window is left as the platform made it.
    Unmanaged,
}

/// The startup of one process: where the content server listens, whether a
/// logger is attached and how verbose it is, and what happens to the main
/// window.
#[derive(Clone, Copy, Debug, PartialEq, Eq)]
pub struct StartupPlan {
    pub port: u16,
    pub logger: Option<LogLevel>,
    pub visibility: WindowVisibility,
}

/// Debug builds log at informational verbosity; release builds do not log.
pub open spec fn logger_for(build: BuildClass) -> Option<LogLevel> {
    match build {
        BuildClass::Debug => Some(LogLevel::Info),
        BuildClass::Release => None,
    }
}

/// On a desktop the window is hidden exactly when that was asked for, and
/// shown otherwise; on a mobile target it is not touched.
pub open spec fn visibility_for(target: TargetClass, hidden: bool) -> WindowVisibility {
    match target {
        TargetClass::Mobile => WindowVisibility::Unmanaged,
        TargetClass::Desktop => if hidden {
            WindowVisibility::Hidden
        } else {
            WindowVisibility::Shown
        },
    }
}

/// The plan that a process with arguments `args` follows.
pub open spec fn plan_for(args: Seq<Seq<char>>, target: TargetClass, build: BuildClass)
    -> StartupPlan {
    StartupPlan {
        port: CONTENT_SERVER_PORT,
        logger: logger_for(build),
        visibility: visibility_for(target, hidden_flag_present(args)),
    }
}

/// The logger's verbosity in a build of class `build`, if it logs at all.
pub fn logger_level(build: BuildClass) -> (level: Option<LogLevel>)
    ensures
        level == logger_for(build),
{
    match build {
        BuildClass::Debug => Some(LogLevel::Info),
        BuildClass::Release => None,
    }
}

/// What becomes of the main window on `target` when hiding was, or was not,
/// asked for.
pub fn window_visibility(target: TargetClass, hidden: bool) -> (visibility: WindowVisibility)
    ensures
        visibility == visibility_for(target, hidden),
{
    match target {
        TargetClass::Mobile => WindowVisibility::Unmanaged,
        TargetClass::Desktop => {
            if hidden {
                WindowVisibility::Hidden
            } else {
                WindowVisibility::Shown
            }
        },
    }
}

impl StartupPlan {
    /// Settles the startup of a process that was given `args`.
    pub fn new(args: &[String], target: TargetClass, build: BuildClass) -> (plan: StartupPlan)
        ensures
            plan == plan_for(args.deep_view(), target, build),
    {
        StartupPlan {
            port: CONTENT_SERVER_PORT,
            logger: logger_level(build),
            visibility: window_visibility(target, hidden_requested(args)),
        }
    }
}

} // verus!
