use scrotto::backend::Backend;
use scrotto::cli::{parse_args, CliOutcome};

fn args_of(list: &[&str]) -> Vec<String> {
    list.iter().map(|s| s.to_string()).collect()
}

#[test]
fn no_arguments_runs_with_defaults() {
    let r = parse_args(&args_of(&["prog"]));
    assert_eq!(
        r.outcome,
        CliOutcome::Run { fullscreen: false, backend_override: None }
    );
    assert!(r.unknown.is_empty());
}

#[test]
fn full_flag_both_spellings() {
    let r = parse_args(&args_of(&["prog", "--full"]));
    assert_eq!(
        r.outcome,
        CliOutcome::Run { fullscreen: true, backend_override: None }
    );
    let r = parse_args(&args_of(&["prog", "-f"]));
    assert_eq!(
        r.outcome,
        CliOutcome::Run { fullscreen: true, backend_override: None }
    );
}

#[test]
fn backend_flag_takes_value() {
    let r = parse_args(&args_of(&["prog", "--backend", "portal"]));
    assert_eq!(
        r.outcome,
        CliOutcome::Run { fullscreen: false, backend_override: Some(Backend::Portal) }
    );
    let r = parse_args(&args_of(&["prog", "--backend", "AUTO"]));
    assert_eq!(
        r.outcome,
        CliOutcome::Run { fullscreen: false, backend_override: Some(Backend::Auto) }
    );
}

#[test]
fn backend_flag_without_value_is_an_error() {
    let r = parse_args(&args_of(&["prog", "--backend"]));
    assert_eq!(r.outcome, CliOutcome::MissingBackendValue);
}

#[test]
fn backend_flag_with_bad_value_is_an_error() {
    let r = parse_args(&args_of(&["prog", "--backend", "bogus"]));
    assert_eq!(
        r.outcome,
        CliOutcome::InvalidBackend { value: "bogus".to_string() }
    );
}

#[test]
fn help_stops_parsing() {
    let r = parse_args(&args_of(&["prog", "--help"]));
    assert_eq!(r.outcome, CliOutcome::Help);
    let r = parse_args(&args_of(&["prog", "-f", "-h"]));
    assert_eq!(r.outcome, CliOutcome::Help);
}

#[test]
fn unknown_arguments_are_collected_not_fatal() {
    let r = parse_args(&args_of(&["prog", "mystery", "--full"]));
    assert_eq!(
        r.outcome,
        CliOutcome::Run { fullscreen: true, backend_override: None }
    );
    assert_eq!(r.unknown, vec!["mystery".to_string()]);
}

#[test]
fn flags_combine_in_any_order() {
    let r = parse_args(&args_of(&["prog", "--backend", "portal", "--full"]));
    assert_eq!(
        r.outcome,
        CliOutcome::Run { fullscreen: true, backend_override: Some(Backend::Portal) }
    );
}

#[test]
fn later_backend_value_overrides_earlier() {
    let r = parse_args(&args_of(&["prog", "--backend", "portal", "--backend", "auto"]));
    assert_eq!(
        r.outcome,
        CliOutcome::Run { fullscreen: false, backend_override: Some(Backend::Auto) }
    );
}

#[test]
fn unknown_after_terminal_argument_is_not_reported() {
    let r = parse_args(&args_of(&["prog", "odd", "--help", "other"]));
    assert_eq!(r.outcome, CliOutcome::Help);
    assert_eq!(r.unknown, vec!["odd".to_string()]);
}
