//! Capture policy: the ordered strategy chains for region and fullscreen
//! capture, the exact command lines each strategy runs, what counts as a
//! successful attempt, and how a region-selection helper's output is read.
use vstd::prelude::*;
use vstd::string::StrSliceExecFns;

use crate::backend::views_of;
use crate::text::{has_substring, trim_chars, trimmed};

verus! {

/// The region-capture strategies, in descending priority.
#[derive(Clone, Copy, PartialEq, Eq, Structural, Debug)]
pub enum RegionStrategy {
    /// The native desktop-environment tool with its area-selection flag.
    GnomeScreenshot,
    /// A selection helper whose geometry output feeds a capture tool.
    SlurpGrim,
}

/// The fullscreen-capture strategies, in descending priority.
#[derive(Clone, Copy, PartialEq, Eq, Structural, Debug)]
pub enum FullStrategy {
    /// The native desktop-environment tool with its fullscreen flag.
    GnomeScreenshot,
    /// A minimal Wayland-native capture tool.
    Grim,
}

/// The applicable region strategies in order: the native tool first, the
/// helper pair after it, each only when its executables are present.
pub open spec fn region_chain_spec(
    have_gnome_screenshot: bool,
    have_slurp: bool,
    have_grim: bool,
) -> Seq<RegionStrategy> {
    (if have_gnome_screenshot {
        seq![RegionStrategy::GnomeScreenshot]
    } else {
        Seq::empty()
    }) + (if have_slurp && have_grim {
        seq![RegionStrategy::SlurpGrim]
    } else {
        Seq::empty()
    })
}

pub fn region_chain(have_gnome_screenshot: bool, have_slurp: bool, have_grim: bool) -> (r: Vec<
    RegionStrategy,
>)
    ensures
        r@ == region_chain_spec(have_gnome_screenshot, have_slurp, have_grim),
{
    let mut r: Vec<RegionStrategy> = Vec::new();
    if have_gnome_screenshot {
        r.push(RegionStrategy::GnomeScreenshot);
    }
    if have_slurp && have_grim {
        r.push(RegionStrategy::SlurpGrim);
    }
    proof {
        assert(r@ =~= region_chain_spec(have_gnome_screenshot, have_slurp, have_grim));
    }
    r
}

/// The applicable fullscreen strategies in order.
pub open spec fn fullscreen_chain_spec(have_gnome_screenshot: bool, have_grim: bool) -> Seq<
    FullStrategy,
> {
    (if have_gnome_screenshot {
        seq![FullStrategy::GnomeScreenshot]
    } else {
        Seq::empty()
    }) + (if have_grim {
        seq![FullStrategy::Grim]
    } else {
        Seq::empty()
    })
}

pub fn fullscreen_chain(have_gnome_screenshot: bool, have_grim: bool) -> (r: Vec<FullStrategy>)
    ensures
        r@ == fullscreen_chain_spec(have_gnome_screenshot, have_grim),
{
    let mut r: Vec<FullStrategy> = Vec::new();
    if have_gnome_screenshot {
        r.push(FullStrategy::GnomeScreenshot);
    }
    if have_grim {
        r.push(FullStrategy::Grim);
    }
    proof {
        assert(r@ =~= fullscreen_chain_spec(have_gnome_screenshot, have_grim));
    }
    r
}

/// The fixed path of the transient capture artifact.
pub fn artifact_path() -> (r: String)
    ensures
        r@ == "/tmp/screen_grab.png"@,
{
    "/tmp/screen_grab.png".to_owned()
}

/// A capture attempt counts as a success only when the external tool
/// exited successfully and the target image file exists afterwards.
pub open spec fn capture_success_spec(status_ok: bool, file_exists: bool) -> bool {
    status_ok && file_exists
}

pub fn capture_attempt_succeeded(status_ok: bool, file_exists: bool) -> (r: bool)
    ensures
        r == capture_success_spec(status_ok, file_exists),
{
    status_ok && file_exists
}

/// A strategy that reports success does so only with the artifact present
/// on disk at that moment.
pub proof fn lemma_capture_success_implies_artifact(status_ok: bool, file_exists: bool)
    ensures
        capture_success_spec(status_ok, file_exists) ==> file_exists,
{
}

/// How a finished run of the region-selection helper is read.
#[derive(Debug, PartialEq, Eq)]
pub enum SlurpOutcome {
    /// The helper failed and named a user cancellation on its error stream.
    Cancelled,
    /// The helper failed for any other reason.
    Failed,
    /// The helper succeeded but selected nothing.
    NoArea,
    /// The trimmed geometry line the capture tool consumes.
    Area { geometry: String },
}

/// The mathematical form of a `SlurpOutcome`.
#[verifier::ext_equal]
pub enum SpecSlurpOutcome {
    Cancelled,
    Failed,
    NoArea,
    Area { geometry: Seq<char> },
}

pub open spec fn slurp_outcome_view(o: SlurpOutcome) -> SpecSlurpOutcome {
    match o {
        SlurpOutcome::Cancelled => SpecSlurpOutcome::Cancelled,
        SlurpOutcome::Failed => SpecSlurpOutcome::Failed,
        SlurpOutcome::NoArea => SpecSlurpOutcome::NoArea,
        SlurpOutcome::Area { geometry } => SpecSlurpOutcome::Area { geometry: geometry@ },
    }
}

pub open spec fn slurp_outcome_spec(status_ok: bool, stdout: Seq<char>, stderr: Seq<char>) -> SpecSlurpOutcome {
    if !status_ok {
        if has_substring(stderr, "cancelled"@) {
            SpecSlurpOutcome::Cancelled
        } else {
            SpecSlurpOutcome::Failed
        }
    } else if trimmed(stdout).len() == 0 {
        SpecSlurpOutcome::NoArea
    } else {
        SpecSlurpOutcome::Area { geometry: trimmed(stdout) }
    }
}

/// Reads a finished run of the selection helper: a failure mentioning
/// "cancelled" on the error stream is a user cancellation, any other
/// failure a hard one; a success yields the trimmed geometry, which must
/// not be empty.
pub fn read_slurp_outcome(status_ok: bool, stdout: &str, stderr: &str) -> (r: SlurpOutcome)
    ensures
        slurp_outcome_view(r) == slurp_outcome_spec(status_ok, stdout@, stderr@),
{
    if !status_ok {
        if crate::text::contains_chars(stderr, "cancelled") {
            SlurpOutcome::Cancelled
        } else {
            SlurpOutcome::Failed
        }
    } else {
        let area = trim_chars(stdout);
        if area.unicode_len() == 0 {
            SlurpOutcome::NoArea
        } else {
            SlurpOutcome::Area { geometry: area.to_owned() }
        }
    }
}

/// The command line of the native tool for region capture.
pub fn gnome_screenshot_area_argv(target: &String) -> (r: Vec<String>)
    ensures
        views_of(r@) == seq!["gnome-screenshot"@, "-a"@, "-f"@, target@],
{
    let mut r: Vec<String> = Vec::new();
    r.push("gnome-screenshot".to_owned());
    r.push("-a".to_owned());
    r.push("-f".to_owned());
    r.push(target.clone());
    proof {
        assert(views_of(r@) =~= seq!["gnome-screenshot"@, "-a"@, "-f"@, target@]);
    }
    r
}

/// The command line of the native tool for fullscreen capture.
pub fn gnome_screenshot_full_argv(target: &String) -> (r: Vec<String>)
    ensures
        views_of(r@) == seq!["gnome-screenshot"@, "-f"@, target@],
{
    let mut r: Vec<String> = Vec::new();
    r.push("gnome-screenshot".to_owned());
    r.push("-f".to_owned());
    r.push(target.clone());
    proof {
        assert(views_of(r@) =~= seq!["gnome-screenshot"@, "-f"@, target@]);
    }
    r
}

/// The command line of the selection helper.
pub fn slurp_argv() -> (r: Vec<String>)
    ensures
        views_of(r@) == seq!["slurp"@],
{
    let mut r: Vec<String> = Vec::new();
    r.push("slurp".to_owned());
    proof {
        assert(views_of(r@) =~= seq!["slurp"@]);
    }
    r
}

/// The command line of the capture tool over a selected geometry.
pub fn grim_region_argv(geometry: &String, target: &String) -> (r: Vec<String>)
    ensures
        views_of(r@) == seq!["grim"@, "-g"@, geometry@, target@],
{
    let mut r: Vec<String> = Vec::new();
    r.push("grim".to_owned());
    r.push("-g".to_owned());
    r.push(geometry.clone());
    r.push(target.clone());
    proof {
        assert(views_of(r@) =~= seq!["grim"@, "-g"@, geometry@, target@]);
    }
    r
}

/// The command line of the capture tool for the whole screen.
pub fn grim_full_argv(target: &String) -> (r: Vec<String>)
    ensures
        views_of(r@) == seq!["grim"@, target@],
{
    let mut r: Vec<String> = Vec::new();
    r.push("grim".to_owned());
    r.push(target.clone());
    proof {
        assert(views_of(r@) =~= seq!["grim"@, target@]);
    }
    r
}

/// The command line of the text-recognition engine: English recognition,
/// output on the standard output stream.
pub fn tesseract_argv(image: &String) -> (r: Vec<String>)
    ensures
        views_of(r@) == seq!["tesseract"@, image@, "stdout"@, "-l"@, "eng"@],
{
    let mut r: Vec<String> = Vec::new();
    r.push("tesseract".to_owned());
    r.push(image.clone());
    r.push("stdout".to_owned());
    r.push("-l".to_owned());
    r.push("eng".to_owned());
    proof {
        assert(views_of(r@) =~= seq!["tesseract"@, image@, "stdout"@, "-l"@, "eng"@]);
    }
    r
}

} // verus!
