use app_bootstrap::config::{
    BuildClass, LogLevel, TargetClass, CONTENT_SERVER_PORT, HIDDEN_FLAG, MAIN_WINDOW_LABEL,
    RUN_FAILURE_MESSAGE,
};
use app_bootstrap::plan::{logger_level, window_visibility, StartupPlan, WindowVisibility};

fn strings(items: &[&str]) -> Vec<String> {
    items.iter().map(|item| item.to_string()).collect()
}

#[test]
fn the_fixed_configuration() {
    assert_eq!(CONTENT_SERVER_PORT, 9527);
    assert_eq!(MAIN_WINDOW_LABEL, "main");
    assert_eq!(HIDDEN_FLAG, "--hidden");
    assert_eq!(RUN_FAILURE_MESSAGE, "error while running tauri application");
}

#[test]
fn debug_builds_log_at_info() {
    assert_eq!(logger_level(BuildClass::Debug), Some(LogLevel::Info));
}

#[test]
fn release_builds_do_not_log() {
    assert_eq!(logger_level(BuildClass::Release), None);
}

#[test]
fn a_desktop_hides_or_shows_its_window() {
    assert_eq!(window_visibility(TargetClass::Desktop, true), WindowVisibility::Hidden);
    assert_eq!(window_visibility(TargetClass::Desktop, false), WindowVisibility::Shown);
}

#[test]
fn a_mobile_target_leaves_its_window_alone() {
    assert_eq!(window_visibility(TargetClass::Mobile, true), WindowVisibility::Unmanaged);
    assert_eq!(window_visibility(TargetClass::Mobile, false), WindowVisibility::Unmanaged);
}

#[test]
fn plan_without_arguments() {
    assert_eq!(
        StartupPlan::new(&strings(&[]), TargetClass::Desktop, BuildClass::Release),
        StartupPlan { port: 9527, logger: None, visibility: WindowVisibility::Shown }
    );
    assert_eq!(
        StartupPlan::new(&strings(&[]), TargetClass::Desktop, BuildClass::Debug),
        StartupPlan {
            port: 9527,
            logger: Some(LogLevel::Info),
            visibility: WindowVisibility::Shown
        }
    );
}

#[test]
fn plan_with_the_hidden_flag() {
    assert_eq!(
        StartupPlan::new(&strings(&["--hidden"]), TargetClass::Desktop, BuildClass::Release),
        StartupPlan { port: 9527, logger: None, visibility: WindowVisibility::Hidden }
    );
    assert_eq!(
        StartupPlan::new(
            &strings(&["foo", "--hidden", "bar"]),
            TargetClass::Desktop,
            BuildClass::Debug
        ),
        StartupPlan {
            port: 9527,
            logger: Some(LogLevel::Info),
            visibility: WindowVisibility::Hidden
        }
    );
}

#[test]
fn plan_with_a_flag_that_only_looks_alike() {
    assert_eq!(
        StartupPlan::new(&strings(&["--hidden=true"]), TargetClass::Desktop, BuildClass::Release),
        StartupPlan { port: 9527, logger: None, visibility: WindowVisibility::Shown }
    );
}

#[test]
fn plan_on_a_mobile_target_ignores_the_flag() {
    for args in [strings(&[]), strings(&["--hidden"]), strings(&["foo", "--hidden", "bar"])] {
        for build in [BuildClass::Debug, BuildClass::Release] {
            let plan = StartupPlan::new(&args, TargetClass::Mobile, build);
            assert_eq!(plan.visibility, WindowVisibility::Unmanaged);
            assert_eq!(plan.port, 9527);
            assert_eq!(plan.logger, logger_level(build));
        }
    }
}
