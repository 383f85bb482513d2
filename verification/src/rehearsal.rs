//! Setup played through against a shell whose answers are fixed in advance.
//!
//! [`setup_actions`] says, in closed form, what a shell is asked for during
//! setup. [`StartupPlan::rehearse`] drives the machine to the end and obtains
//! exactly that, so what is proved of `setup_actions` below holds of every
//! caller that performs the machine's requests faithfully.

use vstd::prelude::*;
use crate::args::hidden_flag_present;
use crate::config::{BuildClass, LogLevel, TargetClass};
use crate::plan::{plan_for, StartupPlan, WindowVisibility};
use crate::setup::{awaits, is_final, step, SetupAction, SetupEvent, SetupState};

verus! {

/// How a shell answers each kind of request.
#[derive(Clone, Copy, Debug, PartialEq, Eq, Structural)]
pub struct ShellReplies {
    /// The logger can be attached.
    pub logger_registers: bool,
    /// There is a main window.
    pub window_exists: bool,
    /// Show and hide requests go through.
    pub visibility_applies: bool,
}

/// The event by which a shell that answers as `replies` says answers
/// `action`; the actions that end setup are not answered.
pub open spec fn answer_of(replies: ShellReplies, action: SetupAction) -> Option<SetupEvent> {
    match action {
        SetupAction::RegisterLogger(_) => Some(
            if replies.logger_registers {
                SetupEvent::LoggerRegistered
            } else {
                SetupEvent::LoggerFailed
            },
        ),
        SetupAction::LocateWindow => Some(
            if replies.window_exists {
                SetupEvent::WindowFound
            } else {
                SetupEvent::WindowMissing
            },
        ),
        SetupAction::HideWindow | SetupAction::ShowWindow => Some(
            if replies.visibility_applies {
                SetupEvent::VisibilityApplied
            } else {
                SetupEvent::VisibilityFailed
            },
        ),
        SetupAction::Complete | SetupAction::Abort | SetupAction::Crash => None,
    }
}

/// Setup gets past the logger: none is planned, or it can be attached.
pub open spec fn logger_ready(plan: StartupPlan, replies: ShellReplies) -> bool {
    plan.logger is None || replies.logger_registers
}

/// Setup comes to hold a main window.
pub open spec fn reaches_window(plan: StartupPlan, replies: ShellReplies) -> bool {
    logger_ready(plan, replies) && replies.window_exists
}

/// The request for the logger, where one is planned.
pub open spec fn logger_actions(plan: StartupPlan) -> Seq<SetupAction> {
    match plan.logger {
        Some(level) => seq![SetupAction::RegisterLogger(level)],
        None => Seq::empty(),
    }
}

/// How a show or hide request ends setup.
pub open spec fn visibility_ending(replies: ShellReplies) -> SetupAction {
    if replies.visibility_applies {
        SetupAction::Complete
    } else {
        SetupAction::Crash
    }
}

/// The lookup of the main window and what follows it.
pub open spec fn window_actions(plan: StartupPlan, replies: ShellReplies) -> Seq<SetupAction> {
    if !replies.window_exists {
        seq![SetupAction::LocateWindow, SetupAction::Complete]
    } else {
        match plan.visibility {
            WindowVisibility::Hidden => seq![
                SetupAction::LocateWindow,
                SetupAction::HideWindow,
                visibility_ending(replies),
            ],
            WindowVisibility::Shown => seq![
                SetupAction::LocateWindow,
                SetupAction::ShowWindow,
                visibility_ending(replies),
            ],
            WindowVisibility::Unmanaged => seq![SetupAction::LocateWindow, SetupAction::Complete],
        }
    }
}

/// Everything that setup under `plan` asks of a shell that answers as
/// `replies` says, in order: the logger first, where one is planned, and the
/// window only once the logger is attached.
pub open spec fn setup_actions(plan: StartupPlan, replies: ShellReplies) -> Seq<SetupAction> {
    if logger_ready(plan, replies) {
        logger_actions(plan) + window_actions(plan, replies)
    } else {
        logger_actions(plan).push(SetupAction::Abort)
    }
}

/// How far `state` is from the end of setup, in moves.
spec fn distance(state: SetupState) -> nat {
    match state {
        SetupState::Start => 4,
        SetupState::RegisteringLogger => 3,
        SetupState::LocatingWindow => 2,
        SetupState::SettingVisibility => 1,
        SetupState::Over => 0,
    }
}

/// What the machine asks for from `state` on, `event` being the answer at
/// hand.
spec fn run_from(plan: StartupPlan, replies: ShellReplies, state: SetupState, event: SetupEvent)
    -> Seq<SetupAction>
    decreases distance(state),
{
    match step(plan, state, event) {
        Err(_) => Seq::empty(),
        Ok(moved) => match answer_of(replies, moved.action) {
            None => seq![moved.action],
            Some(next) => seq![moved.action] + run_from(plan, replies, moved.state, next),
        },
    }
}

/// Run from the start, the machine asks for `setup_actions`.
proof fn lemma_run_from_start(plan: StartupPlan, replies: ShellReplies)
    ensures
        run_from(plan, replies, SetupState::Start, SetupEvent::Begin) == setup_actions(
            plan,
            replies,
        ),
{
    reveal_with_fuel(run_from, 5);
    assert(run_from(plan, replies, SetupState::Start, SetupEvent::Begin) =~= setup_actions(
        plan,
        replies,
    ));
}

impl ShellReplies {
    /// The answer to `action`, if it is one that is answered.
    pub fn answer(&self, action: SetupAction) -> (event: Option<SetupEvent>)
        ensures
            event == answer_of(*self, action),
    {
        match action {
            SetupAction::RegisterLogger(_) => Some(
                if self.logger_registers {
                    SetupEvent::LoggerRegistered
                } else {
                    SetupEvent::LoggerFailed
                },
            ),
            SetupAction::LocateWindow => Some(
                if self.window_exists {
                    SetupEvent::WindowFound
                } else {
                    SetupEvent::WindowMissing
                },
            ),
            SetupAction::HideWindow | SetupAction::ShowWindow => Some(
                if self.visibility_applies {
                    SetupEvent::VisibilityApplied
                } else {
                    SetupEvent::VisibilityFailed
                },
            ),
            SetupAction::Complete | SetupAction::Abort | SetupAction::Crash => None,
        }
    }
}

impl StartupPlan {
    /// Plays setup through against a shell that answers as `replies` says,
    /// and returns what it was asked for, in order.
    pub fn rehearse(&self, replies: ShellReplies) -> (actions: Vec<SetupAction>)
        ensures
            actions@ == setup_actions(*self, replies),
    {
        let mut actions: Vec<SetupAction> = Vec::new();
        let mut state = SetupState::Start;
        let mut event = SetupEvent::Begin;
        proof {
            lemma_run_from_start(*self, replies);
        }
        loop
            invariant_except_break
                awaits(state, event),
                actions@ + run_from(*self, replies, state, event) == setup_actions(*self, replies),
            ensures
                actions@ == setup_actions(*self, replies),
            decreases distance(state),
        {
            let ghost asked = actions@;
            match self.advance(state, event) {
                Ok(moved) => {
                    actions.push(moved.action);
                    match replies.answer(moved.action) {
                        Some(next) => {
                            assert(actions@ + run_from(*self, replies, moved.state, next) =~= asked
                                + run_from(*self, replies, state, event));
                            state = moved.state;
                            event = next;
                        },
                        None => {
                            assert(actions@ =~= asked + run_from(*self, replies, state, event));
                            break ;
                        },
                    }
                },
                // Not reached: the event at hand always answers the state.
                Err(_) => {
                    break ;
                },
            }
        }
        actions
    }
}

/// With the hidden flag among its arguments, a desktop shell is never asked
/// to show its main window, and it is asked to hide it whenever setup comes to
/// hold one. Without the flag it is the other way round: never asked to hide,
/// and asked to show whenever setup comes to hold a window.
pub proof fn lemma_flag_selects_hide_or_show(
    args: Seq<Seq<char>>,
    build: BuildClass,
    replies: ShellReplies,
)
    ensures
        ({
            let plan = plan_for(args, TargetClass::Desktop, build);
            let asked = setup_actions(plan, replies);
            if hidden_flag_present(args) {
                &&& !asked.contains(SetupAction::ShowWindow)
                &&& asked.contains(SetupAction::HideWindow) <==> reaches_window(plan, replies)
            } else {
                &&& !asked.contains(SetupAction::HideWindow)
                &&& asked.contains(SetupAction::ShowWindow) <==> reaches_window(plan, replies)
            }
        }),
{
    let plan = plan_for(args, TargetClass::Desktop, build);
    lemma_asked_exactly(plan, replies);
}

/// On a mobile target no show or hide request is made, whatever the
/// arguments, the build and the shell's answers.
pub proof fn lemma_mobile_never_sets_visibility(
    args: Seq<Seq<char>>,
    build: BuildClass,
    replies: ShellReplies,
)
    ensures
        !setup_actions(plan_for(args, TargetClass::Mobile, build), replies).contains(
            SetupAction::HideWindow,
        ),
        !setup_actions(plan_for(args, TargetClass::Mobile, build), replies).contains(
            SetupAction::ShowWindow,
        ),
        !setup_actions(plan_for(args, TargetClass::Mobile, build), replies).contains(
            SetupAction::Crash,
        ),
{
    lemma_asked_exactly(plan_for(args, TargetClass::Mobile, build), replies);
}

/// A logger is asked for in debug builds only, and then at informational
/// verbosity and before anything else; a release build never asks for one.
pub proof fn lemma_logger_in_debug_builds_only(
    args: Seq<Seq<char>>,
    target: TargetClass,
    build: BuildClass,
    replies: ShellReplies,
    level: LogLevel,
)
    ensures
        setup_actions(plan_for(args, target, build), replies).contains(
            SetupAction::RegisterLogger(level),
        ) <==> build is Debug && level is Info,
        build is Debug ==> setup_actions(plan_for(args, target, build), replies)[0]
            == SetupAction::RegisterLogger(LogLevel::Info),
{
    lemma_asked_exactly(plan_for(args, target, build), replies);
}

/// Where there is no main window, setup asks nothing of it and does not
/// crash: once past the logger it ends with success.
pub proof fn lemma_missing_window_is_tolerated(plan: StartupPlan, replies: ShellReplies)
    requires
        !replies.window_exists,
    ensures
        !setup_actions(plan, replies).contains(SetupAction::HideWindow),
        !setup_actions(plan, replies).contains(SetupAction::ShowWindow),
        !setup_actions(plan, replies).contains(SetupAction::Crash),
        logger_ready(plan, replies) ==> setup_actions(plan, replies).last()
            == SetupAction::Complete,
{
    lemma_asked_exactly(plan, replies);
}

/// Setup ends, and ends once: the last action asked for is one that ends
/// setup, and none before it is. It aborts exactly when the planned logger
/// cannot be attached, and crashes exactly when a show or hide request fails.
pub proof fn lemma_setup_ends_once(plan: StartupPlan, replies: ShellReplies)
    ensures
        setup_actions(plan, replies).len() >= 2,
        is_final(setup_actions(plan, replies).last()),
        forall|i: int|
            0 <= i < setup_actions(plan, replies).len() - 1 ==> !is_final(
                #[trigger] setup_actions(plan, replies)[i],
            ),
        setup_actions(plan, replies).last() is Abort <==> !logger_ready(plan, replies),
        setup_actions(plan, replies).last() is Crash <==> reaches_window(plan, replies)
            && !(plan.visibility is Unmanaged) && !replies.visibility_applies,
{
}

/// Which actions `setup_actions` holds, one by one.
proof fn lemma_asked_exactly(plan: StartupPlan, replies: ShellReplies)
    ensures
        forall|level: LogLevel|
            #[trigger] setup_actions(plan, replies).contains(SetupAction::RegisterLogger(level))
                <==> plan.logger == Some(level),
        plan.logger is Some ==> setup_actions(plan, replies)[0] == SetupAction::RegisterLogger(
            plan.logger->0,
        ),
        setup_actions(plan, replies).contains(SetupAction::LocateWindow) <==> logger_ready(
            plan,
            replies,
        ),
        setup_actions(plan, replies).contains(SetupAction::HideWindow) <==> reaches_window(
            plan,
            replies,
        ) && plan.visibility is Hidden,
        setup_actions(plan, replies).contains(SetupAction::ShowWindow) <==> reaches_window(
            plan,
            replies,
        ) && plan.visibility is Shown,
        setup_actions(plan, replies).contains(SetupAction::Crash) <==> reaches_window(
            plan,
            replies,
        ) && !(plan.visibility is Unmanaged) && !replies.visibility_applies,
        setup_actions(plan, replies).contains(SetupAction::Abort) <==> !logger_ready(
            plan,
            replies,
        ),
        logger_ready(plan, replies) && !reaches_window(plan, replies) ==> setup_actions(
            plan,
            replies,
        ).last() == SetupAction::Complete,
{
    let asked = setup_actions(plan, replies);
    assert forall|level: LogLevel| #[trigger]
        asked.contains(SetupAction::RegisterLogger(level)) <==> plan.logger == Some(level) by {
        lemma_contains_in_short_seq(asked, SetupAction::RegisterLogger(level));
    }
    lemma_contains_in_short_seq(asked, SetupAction::LocateWindow);
    lemma_contains_in_short_seq(asked, SetupAction::HideWindow);
    lemma_contains_in_short_seq(asked, SetupAction::ShowWindow);
    lemma_contains_in_short_seq(asked, SetupAction::Crash);
    lemma_contains_in_short_seq(asked, SetupAction::Abort);
}

/// Membership in a sequence of at most four elements, index by index.
proof fn lemma_contains_in_short_seq<A>(s: Seq<A>, a: A)
    requires
        s.len() <= 4,
    ensures
        s.contains(a) <==> (0 < s.len() && s[0] == a) || (1 < s.len() && s[1] == a) || (2
            < s.len() && s[2] == a) || (3 < s.len() && s[3] == a),
{
    if s.contains(a) {
        let i = choose|i: int| 0 <= i < s.len() && s[i] == a;
        assert(i == 0 || i == 1 || i == 2 || i == 3);
    }
}

} // verus!
