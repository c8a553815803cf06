use scrotto::backend::Backend;
use scrotto::flow::{
    invalid_backend_message, missing_backend_message, plan_startup, unknown_argument_warning,
    unsupported_session_message, usage_text, StartupPlan,
};

fn args_of(list: &[&str]) -> Vec<String> {
    list.iter().map(|s| s.to_string()).collect()
}

#[test]
fn wayland_gnome_defaults_to_portal() {
    let plan = plan_startup(
        &"wayland".to_string(),
        &Some("ubuntu:GNOME".to_string()),
        &args_of(&["prog"]),
    );
    assert_eq!(
        plan,
        StartupPlan::Capture {
            fullscreen: false,
            backend: Backend::Portal,
            unknown_args: Vec::new(),
        }
    );
}

#[test]
fn wayland_kde_defaults_to_auto() {
    let plan = plan_startup(
        &"wayland".to_string(),
        &Some("KDE".to_string()),
        &args_of(&["prog"]),
    );
    assert_eq!(
        plan,
        StartupPlan::Capture {
            fullscreen: false,
            backend: Backend::Auto,
            unknown_args: Vec::new(),
        }
    );
}

#[test]
fn explicit_backend_overrides_computed_default() {
    let plan = plan_startup(
        &"wayland".to_string(),
        &Some("ubuntu:GNOME".to_string()),
        &args_of(&["prog", "--backend", "auto"]),
    );
    assert_eq!(
        plan,
        StartupPlan::Capture {
            fullscreen: false,
            backend: Backend::Auto,
            unknown_args: Vec::new(),
        }
    );
}

#[test]
fn bogus_backend_value_refuses_capture() {
    let plan = plan_startup(
        &"wayland".to_string(),
        &Some("ubuntu:GNOME".to_string()),
        &args_of(&["prog", "--backend", "bogus"]),
    );
    assert_eq!(plan, StartupPlan::InvalidBackend { value: "bogus".to_string() });
}

#[test]
fn missing_backend_value_refuses_capture() {
    let plan = plan_startup(
        &"wayland".to_string(),
        &None,
        &args_of(&["prog", "--backend"]),
    );
    assert_eq!(plan, StartupPlan::MissingBackendValue);
}

#[test]
fn x11_session_is_refused() {
    let plan = plan_startup(&"x11".to_string(), &None, &args_of(&["prog"]));
    assert_eq!(plan, StartupPlan::UnsupportedSession { session: "x11".to_string() });
}

#[test]
fn unknown_session_is_refused() {
    let plan = plan_startup(&"unknown".to_string(), &None, &args_of(&["prog", "--full"]));
    assert_eq!(
        plan,
        StartupPlan::UnsupportedSession { session: "unknown".to_string() }
    );
}

#[test]
fn help_wins_over_capture() {
    let plan = plan_startup(&"wayland".to_string(), &None, &args_of(&["prog", "--help"]));
    assert_eq!(plan, StartupPlan::Help);
}

#[test]
fn fullscreen_and_unknown_arguments_reach_the_plan() {
    let plan = plan_startup(
        &"WAYLAND".to_string(),
        &None,
        &args_of(&["prog", "--full", "stray"]),
    );
    assert_eq!(
        plan,
        StartupPlan::Capture {
            fullscreen: true,
            backend: Backend::Auto,
            unknown_args: vec!["stray".to_string()],
        }
    );
}

#[test]
fn diagnostics_carry_their_subject() {
    assert_eq!(
        invalid_backend_message(&"bogus".to_string()),
        "❌ Unknown backend 'bogus'. Use 'portal' or 'auto'."
    );
    assert_eq!(
        missing_backend_message(),
        "❌ Missing value for --backend (expected 'portal' or 'auto')"
    );
    assert_eq!(
        unsupported_session_message(&"x11".to_string()),
        "❌ Scrotto requires a Wayland session\n   Current session type: x11\n   Please run this application in a Wayland environment"
    );
    assert_eq!(
        unknown_argument_warning(&"stray".to_string()),
        "⚠️  Ignoring unknown argument: stray"
    );
    assert!(usage_text().starts_with("Usage: scrotto"));
}
