use app_bootstrap::config::LogLevel;
use app_bootstrap::plan::{StartupPlan, WindowVisibility};
use app_bootstrap::setup::{SetupAction, SetupError, SetupEvent, SetupState, SetupStep};

const STATES: [SetupState; 5] = [
    SetupState::Start,
    SetupState::RegisteringLogger,
    SetupState::LocatingWindow,
    SetupState::SettingVisibility,
    SetupState::Over,
];

const EVENTS: [SetupEvent; 7] = [
    SetupEvent::Begin,
    SetupEvent::LoggerRegistered,
    SetupEvent::LoggerFailed,
    SetupEvent::WindowFound,
    SetupEvent::WindowMissing,
    SetupEvent::VisibilityApplied,
    SetupEvent::VisibilityFailed,
];

fn plans() -> Vec<StartupPlan> {
    let mut all = Vec::new();
    for logger in [None, Some(LogLevel::Info), Some(LogLevel::Trace)] {
        for visibility in
            [WindowVisibility::Hidden, WindowVisibility::Shown, WindowVisibility::Unmanaged]
        {
            all.push(StartupPlan { port: 9527, logger, visibility });
        }
    }
    all
}

fn moved(state: SetupState, action: SetupAction) -> Result<SetupStep, SetupError> {
    Ok(SetupStep { state, action })
}

#[test]
fn setup_begins_with_the_logger_where_one_is_planned() {
    let plan = StartupPlan {
        port: 9527,
        logger: Some(LogLevel::Info),
        visibility: WindowVisibility::Shown,
    };
    assert_eq!(
        plan.advance(SetupState::Start, SetupEvent::Begin),
        moved(SetupState::RegisteringLogger, SetupAction::RegisterLogger(LogLevel::Info))
    );
    let verbose = StartupPlan { logger: Some(LogLevel::Trace), ..plan };
    assert_eq!(
        verbose.advance(SetupState::Start, SetupEvent::Begin),
        moved(SetupState::RegisteringLogger, SetupAction::RegisterLogger(LogLevel::Trace))
    );
}

#[test]
fn setup_begins_with_the_window_where_no_logger_is_planned() {
    let plan = StartupPlan { port: 9527, logger: None, visibility: WindowVisibility::Shown };
    assert_eq!(
        plan.advance(SetupState::Start, SetupEvent::Begin),
        moved(SetupState::LocatingWindow, SetupAction::LocateWindow)
    );
}

#[test]
fn a_registered_logger_leads_to_the_window() {
    for plan in plans() {
        assert_eq!(
            plan.advance(SetupState::RegisteringLogger, SetupEvent::LoggerRegistered),
            moved(SetupState::LocatingWindow, SetupAction::LocateWindow)
        );
    }
}

#[test]
fn a_failed_logger_aborts_setup() {
    for plan in plans() {
        assert_eq!(
            plan.advance(SetupState::RegisteringLogger, SetupEvent::LoggerFailed),
            moved(SetupState::Over, SetupAction::Abort)
        );
    }
}

#[test]
fn a_found_window_is_hidden_shown_or_left_alone() {
    for logger in [None, Some(LogLevel::Info)] {
        let hidden = StartupPlan { port: 9527, logger, visibility: WindowVisibility::Hidden };
        assert_eq!(
            hidden.advance(SetupState::LocatingWindow, SetupEvent::WindowFound),
            moved(SetupState::SettingVisibility, SetupAction::HideWindow)
        );
        let shown = StartupPlan { port: 9527, logger, visibility: WindowVisibility::Shown };
        assert_eq!(
            shown.advance(SetupState::LocatingWindow, SetupEvent::WindowFound),
            moved(SetupState::SettingVisibility, SetupAction::ShowWindow)
        );
        let unmanaged =
            StartupPlan { port: 9527, logger, visibility: WindowVisibility::Unmanaged };
        assert_eq!(
            unmanaged.advance(SetupState::LocatingWindow, SetupEvent::WindowFound),
            moved(SetupState::Over, SetupAction::Complete)
        );
    }
}

#[test]
fn a_missing_window_completes_setup() {
    for plan in plans() {
        assert_eq!(
            plan.advance(SetupState::LocatingWindow, SetupEvent::WindowMissing),
            moved(SetupState::Over, SetupAction::Complete)
        );
    }
}

#[test]
fn an_applied_visibility_completes_setup() {
    for plan in plans() {
        assert_eq!(
            plan.advance(SetupState::SettingVisibility, SetupEvent::VisibilityApplied),
            moved(SetupState::Over, SetupAction::Complete)
        );
    }
}

#[test]
fn a_failed_visibility_request_crashes() {
    for plan in plans() {
        assert_eq!(
            plan.advance(SetupState::SettingVisibility, SetupEvent::VisibilityFailed),
            moved(SetupState::Over, SetupAction::Crash)
        );
    }
}

#[test]
fn nothing_moves_once_setup_is_over() {
    for plan in plans() {
        for event in EVENTS {
            assert_eq!(plan.advance(SetupState::Over, event), Err(SetupError::AlreadyOver));
        }
    }
}

#[test]
fn events_that_answer_nothing_are_refused() {
    let awaited = |state: SetupState, event: SetupEvent| match state {
        SetupState::Start => event == SetupEvent::Begin,
        SetupState::RegisteringLogger => {
            event == SetupEvent::LoggerRegistered || event == SetupEvent::LoggerFailed
        }
        SetupState::LocatingWindow => {
            event == SetupEvent::WindowFound || event == SetupEvent::WindowMissing
        }
        SetupState::SettingVisibility => {
            event == SetupEvent::VisibilityApplied || event == SetupEvent::VisibilityFailed
        }
        SetupState::Over => false,
    };
    for plan in plans() {
        for state in STATES {
            for event in EVENTS {
                let result = plan.advance(state, event);
                if state == SetupState::Over {
                    assert_eq!(result, Err(SetupError::AlreadyOver));
                } else if awaited(state, event) {
                    assert!(result.is_ok(), "{:?} {:?}", state, event);
                } else {
                    assert_eq!(result, Err(SetupError::UnexpectedEvent), "{:?} {:?}", state, event);
                }
            }
        }
    }
}

#[test]
fn the_machine_ends_exactly_with_the_actions_that_end_setup() {
    for plan in plans() {
        for state in STATES {
            for event in EVENTS {
                if let Ok(step) = plan.advance(state, event) {
                    assert_eq!(step.state == SetupState::Over, step.action.is_final());
                }
            }
        }
    }
}

#[test]
fn which_actions_end_setup() {
    assert!(SetupAction::Complete.is_final());
    assert!(SetupAction::Abort.is_final());
    assert!(SetupAction::Crash.is_final());
    assert!(!SetupAction::RegisterLogger(LogLevel::Info).is_final());
    assert!(!SetupAction::LocateWindow.is_final());
    assert!(!SetupAction::HideWindow.is_final());
    assert!(!SetupAction::ShowWindow.is_final());
}
