//! The startup decision: from the raw session-type signal, the desktop
//! identifier and the command line to what the run does — refuse the
//! session, print usage, reject bad input, or capture with a resolved
//! backend. All of it happens before any side effect.
use vstd::prelude::*;
use vstd::string::StringExecFns;

use crate::backend::{
    classify_session, classify_session_spec, opt_str_view, resolve_backend, resolve_backend_spec,
    views_of, Backend, SessionType,
};
use crate::cli::{parse_args, parse_spec, CliOutcome, SpecCliOutcome};

verus! {

/// What the program does at startup, decided before any side effect.
#[derive(Debug, PartialEq, Eq)]
pub enum StartupPlan {
    /// The session is not a supported interactive display session: print a
    /// diagnostic, exit with non-zero status, and capture nothing.
    UnsupportedSession { session: String },
    /// Print usage and stop.
    Help,
    /// `--backend` came without a value: print an error and stop.
    MissingBackendValue,
    /// `--backend` came with an unrecognised value: print an error and
    /// stop; no capture is attempted.
    InvalidBackend { value: String },
    /// Proceed to capture with the resolved backend; the unknown arguments
    /// are reported as warnings only.
    Capture { fullscreen: bool, backend: Backend, unknown_args: Vec<String> },
}

/// The mathematical form of a `StartupPlan`.
#[verifier::ext_equal]
pub enum SpecStartupPlan {
    UnsupportedSession { session: Seq<char> },
    Help,
    MissingBackendValue,
    InvalidBackend { value: Seq<char> },
    Capture { fullscreen: bool, backend: Backend, unknown_args: Seq<Seq<char>> },
}

pub open spec fn startup_view(p: StartupPlan) -> SpecStartupPlan {
    match p {
        StartupPlan::UnsupportedSession { session } => SpecStartupPlan::UnsupportedSession {
            session: session@,
        },
        StartupPlan::Help => SpecStartupPlan::Help,
        StartupPlan::MissingBackendValue => SpecStartupPlan::MissingBackendValue,
        StartupPlan::InvalidBackend { value } => SpecStartupPlan::InvalidBackend { value: value@ },
        StartupPlan::Capture { fullscreen, backend, unknown_args } => SpecStartupPlan::Capture {
            fullscreen,
            backend,
            unknown_args: views_of(unknown_args@),
        },
    }
}

/// The startup decision: only a Wayland session proceeds; the command
/// line then either stops the run or yields the capture configuration,
/// with the backend resolved from override and environment.
pub open spec fn plan_startup_spec(
    session_raw: Seq<char>,
    desktop: Option<Seq<char>>,
    args: Seq<Seq<char>>,
) -> SpecStartupPlan {
    if classify_session_spec(session_raw) != SessionType::Wayland {
        SpecStartupPlan::UnsupportedSession { session: session_raw }
    } else {
        let p = parse_spec(args);
        match p.outcome {
            SpecCliOutcome::Run { fullscreen, backend_override } => SpecStartupPlan::Capture {
                fullscreen,
                backend: resolve_backend_spec(SessionType::Wayland, desktop, backend_override),
                unknown_args: p.unknown,
            },
            SpecCliOutcome::Help => SpecStartupPlan::Help,
            SpecCliOutcome::MissingBackendValue => SpecStartupPlan::MissingBackendValue,
            SpecCliOutcome::InvalidBackend { value } => SpecStartupPlan::InvalidBackend { value },
        }
    }
}

pub fn plan_startup(session_raw: &String, desktop: &Option<String>, args: &Vec<String>) -> (r:
    StartupPlan)
    ensures
        startup_view(r) == plan_startup_spec(session_raw@, opt_str_view(*desktop), views_of(args@)),
{
    let session = classify_session(session_raw.as_str());
    if session != SessionType::Wayland {
        return StartupPlan::UnsupportedSession { session: session_raw.clone() };
    }
    let parsed = parse_args(args);
    match parsed.outcome {
        CliOutcome::Run { fullscreen, backend_override } => {
            let backend = resolve_backend(&SessionType::Wayland, desktop, &backend_override);
            StartupPlan::Capture { fullscreen, backend, unknown_args: parsed.unknown }
        },
        CliOutcome::Help => StartupPlan::Help,
        CliOutcome::MissingBackendValue => StartupPlan::MissingBackendValue,
        CliOutcome::InvalidBackend { value } => StartupPlan::InvalidBackend { value },
    }
}

/// The usage text shown for `--help`.
pub fn usage_text() -> (r: String)
    ensures
        r@
            == "Usage: scrotto [--full|-f] [--backend auto|portal]\nWhen running on GNOME Wayland the portal backend is chosen automatically."@,
{
    "Usage: scrotto [--full|-f] [--backend auto|portal]\nWhen running on GNOME Wayland the portal backend is chosen automatically.".to_owned()
}

/// The diagnostic for a `--backend` flag without a value.
pub fn missing_backend_message() -> (r: String)
    ensures
        r@ == "❌ Missing value for --backend (expected 'portal' or 'auto')"@,
{
    "❌ Missing value for --backend (expected 'portal' or 'auto')".to_owned()
}

pub open spec fn invalid_backend_message_spec(value: Seq<char>) -> Seq<char> {
    "❌ Unknown backend '"@ + value + "'. Use 'portal' or 'auto'."@
}

/// The diagnostic for an unrecognised `--backend` value, carrying that
/// value.
pub fn invalid_backend_message(value: &String) -> (r: String)
    ensures
        r@ == invalid_backend_message_spec(value@),
{
    "❌ Unknown backend '".to_owned().concat(value.as_str()).concat("'. Use 'portal' or 'auto'.")
}

pub open spec fn unsupported_session_message_spec(session: Seq<char>) -> Seq<char> {
    "❌ Scrotto requires a Wayland session\n   Current session type: "@ + session
        + "\n   Please run this application in a Wayland environment"@
}

/// The diagnostic for an unsupported session, carrying the session type
/// that was seen.
pub fn unsupported_session_message(session: &String) -> (r: String)
    ensures
        r@ == unsupported_session_message_spec(session@),
{
    "❌ Scrotto requires a Wayland session\n   Current session type: ".to_owned().concat(
        session.as_str(),
    ).concat("\n   Please run this application in a Wayland environment")
}

pub open spec fn unknown_argument_warning_spec(arg: Seq<char>) -> Seq<char> {
    "⚠️  Ignoring unknown argument: "@ + arg
}

/// The warning for an argument the parser did not recognise.
pub fn unknown_argument_warning(arg: &String) -> (r: String)
    ensures
        r@ == unknown_argument_warning_spec(arg@),
{
    "⚠️  Ignoring unknown argument: ".to_owned().concat(arg.as_str())
}

/// A session that is not a supported interactive display session is
/// refused outright: the plan is the non-zero exit, never a capture.
pub proof fn lemma_unsupported_session_refuses(
    session_raw: Seq<char>,
    desktop: Option<Seq<char>>,
    args: Seq<Seq<char>>,
)
    requires
        classify_session_spec(session_raw) != SessionType::Wayland,
    ensures
        plan_startup_spec(session_raw, desktop, args) == (SpecStartupPlan::UnsupportedSession {
            session: session_raw,
        }),
{
}

/// A command line that stops the run — usage, a missing backend value, or
/// an invalid one — never leads to a capture attempt.
pub proof fn lemma_cli_stop_refuses(
    session_raw: Seq<char>,
    desktop: Option<Seq<char>>,
    args: Seq<Seq<char>>,
)
    requires
        !(parse_spec(args).outcome is Run),
    ensures
        !(plan_startup_spec(session_raw, desktop, args) is Capture),
{
}

/// In particular, an invalid `--backend` value yields the error plan with
/// that value, never a capture.
pub proof fn lemma_invalid_backend_refuses(
    session_raw: Seq<char>,
    desktop: Option<Seq<char>>,
    args: Seq<Seq<char>>,
    value: Seq<char>,
)
    requires
        classify_session_spec(session_raw) == SessionType::Wayland,
        parse_spec(args).outcome == (SpecCliOutcome::InvalidBackend { value }),
    ensures
        plan_startup_spec(session_raw, desktop, args) == (SpecStartupPlan::InvalidBackend {
            value,
        }),
{
}

/// Capture is planned only on a supported session.
pub proof fn lemma_capture_only_on_wayland(
    session_raw: Seq<char>,
    desktop: Option<Seq<char>>,
    args: Seq<Seq<char>>,
)
    ensures
        plan_startup_spec(session_raw, desktop, args) is Capture ==> classify_session_spec(
            session_raw,
        ) == SessionType::Wayland,
{
}

} // verus!