//! Delivery policy: how recognised text is read from the OCR engine, how
//! it reaches the clipboard (with readback verification) and the user's
//! notification, and the exact messages every terminal path shows.
use vstd::prelude::*;
use vstd::string::{StrSliceExecFns, StringExecFns};

use crate::backend::views_of;
use crate::text::{has_substring, match_at, str_eq, trim_chars, trimmed};

verus! {

/// The display timeout of a desktop notification, in milliseconds.
pub const NOTIFY_TIMEOUT_MS: u32 = 5000;

/// The clipboard mechanisms, in descending priority.
#[derive(Clone, Copy, PartialEq, Eq, Structural, Debug)]
pub enum ClipboardMethod {
    /// The native Wayland clipboard-copy utility, verified by readback
    /// through its paired paste utility.
    WlCopy,
    /// The library-level clipboard provider, verified by readback where it
    /// supports retrieval.
    Provider,
}

/// The notification mechanisms, in descending priority.
#[derive(Clone, Copy, PartialEq, Eq, Structural, Debug)]
pub enum NotifyMethod {
    /// The structured desktop-notification binding.
    Library,
    /// The command-line notification tool.
    NotifySend,
}

/// The applicable clipboard mechanisms in order: the native utility when
/// present, the library provider always as fallback.
pub open spec fn clipboard_chain_spec(have_wl_copy: bool) -> Seq<ClipboardMethod> {
    (if have_wl_copy {
        seq![ClipboardMethod::WlCopy]
    } else {
        Seq::empty()
    }) + seq![ClipboardMethod::Provider]
}

pub fn clipboard_chain(have_wl_copy: bool) -> (r: Vec<ClipboardMethod>)
    ensures
        r@ == clipboard_chain_spec(have_wl_copy),
{
    let mut r: Vec<ClipboardMethod> = Vec::new();
    if have_wl_copy {
        r.push(ClipboardMethod::WlCopy);
    }
    r.push(ClipboardMethod::Provider);
    proof {
        assert(r@ =~= clipboard_chain_spec(have_wl_copy));
    }
    r
}

/// The clipboard chain always ends with the library provider: whatever
/// utilities are present, there is a mechanism to fall back to.
pub proof fn lemma_clipboard_chain_has_fallback(have_wl_copy: bool)
    ensures
        clipboard_chain_spec(have_wl_copy).len() >= 1,
        clipboard_chain_spec(have_wl_copy).last() == ClipboardMethod::Provider,
{
}

/// The applicable notification mechanisms in order: the library binding
/// always first, the command-line tool after it when present.
pub open spec fn notify_chain_spec(have_notify_send: bool) -> Seq<NotifyMethod> {
    seq![NotifyMethod::Library] + (if have_notify_send {
        seq![NotifyMethod::NotifySend]
    } else {
        Seq::empty()
    })
}

pub fn notify_chain(have_notify_send: bool) -> (r: Vec<NotifyMethod>)
    ensures
        r@ == notify_chain_spec(have_notify_send),
{
    let mut r: Vec<NotifyMethod> = Vec::new();
    r.push(NotifyMethod::Library);
    if have_notify_send {
        r.push(NotifyMethod::NotifySend);
    }
    proof {
        assert(r@ =~= notify_chain_spec(have_notify_send));
    }
    r
}

/// The notification chain always starts with the library binding; the
/// command-line tool is only ever a fallback.
pub proof fn lemma_notify_chain_starts_with_library(have_notify_send: bool)
    ensures
        notify_chain_spec(have_notify_send).len() >= 1,
        notify_chain_spec(have_notify_send)[0] == NotifyMethod::Library,
{
}

/// The text the run works with: the OCR output with surrounding
/// whitespace removed, or nothing when only whitespace was recognised.
/// No clipboard action follows from a `None`.
pub fn extract_text(ocr_stdout: &str) -> (r: Option<String>)
    ensures
        match r {
            Option::Some(t) => trimmed(ocr_stdout@).len() > 0 && t@ == trimmed(ocr_stdout@),
            Option::None => trimmed(ocr_stdout@).len() == 0,
        },
{
    let t = trim_chars(ocr_stdout);
    if t.unicode_len() == 0 {
        Option::None
    } else {
        Option::Some(t.to_owned())
    }
}

/// A clipboard write is confirmed when the read-back value, trimmed,
/// equals the trimmed text that was written.
pub fn readback_confirms(expected: &str, observed: &str) -> (r: bool)
    ensures
        r == (trimmed(observed@) == trimmed(expected@)),
{
    let a = trim_chars(observed);
    let b = trim_chars(expected);
    str_eq(a, b)
}

/// The notification preview: text longer than 100 characters is cut to
/// 100 with a trailing ellipsis marker, shorter text passes unchanged.
pub open spec fn preview_spec(t: Seq<char>) -> Seq<char> {
    if t.len() > 100 {
        t.take(100) + "..."@
    } else {
        t
    }
}

pub fn preview_of(text: &str) -> (r: String)
    ensures
        r@ == preview_spec(text@),
{
    let n = text.unicode_len();
    if n > 100 {
        let head = text.substring_char(0, 100);
        proof {
            assert(head@ =~= text@.take(100));
        }
        head.to_owned().concat("...")
    } else {
        text.to_owned()
    }
}

/// Text at the truncation bound passes unchanged; longer text is cut to
/// exactly 100 characters plus the three-character ellipsis marker.
pub proof fn lemma_preview_truncation(t: Seq<char>)
    ensures
        t.len() <= 100 ==> preview_spec(t) == t,
        t.len() > 100 ==> preview_spec(t) == t.take(100) + "..."@,
        t.len() > 100 ==> preview_spec(t).len() == 103,
{
    reveal_strlit("...");
}

/// What a finished run shows the user: a console message, a notification,
/// and the direction to delete the capture artifact.
#[derive(Debug)]
pub struct Report {
    pub console: String,
    pub notify_title: String,
    pub notify_body: String,
    pub remove_artifact: bool,
}

pub open spec fn success_console_spec(t: Seq<char>) -> Seq<char> {
    "✅ Text copied to clipboard:\n"@ + t
}

pub open spec fn success_body_spec(t: Seq<char>) -> Seq<char> {
    "✅ Text copied to clipboard:\n\n"@ + preview_spec(t)
}

pub open spec fn failure_console_spec(t: Seq<char>) -> Seq<char> {
    "❌ Failed to copy to clipboard, but text extracted:\n"@ + t
        + "\n💡 You can manually copy this text from the terminal"@
}

pub open spec fn failure_body_spec(t: Seq<char>) -> Seq<char> {
    "❌ Clipboard failed, but text extracted:\n\n"@ + preview_spec(t)
}

/// The report of a run whose OCR found only whitespace: it says that no
/// text was detected, and it still directs artifact removal.
pub fn no_text_report() -> (r: Report)
    ensures
        r.console@ == "❌ No text detected in the selected area."@,
        r.notify_title@ == "Scrotto"@,
        r.notify_body@
            == "❌ No text found in selected area\n\nTip: Make sure the area contains clear, readable text"@,
        r.remove_artifact,
{
    Report {
        console: "❌ No text detected in the selected area.".to_owned(),
        notify_title: "Scrotto".to_owned(),
        notify_body:
            "❌ No text found in selected area\n\nTip: Make sure the area contains clear, readable text".to_owned(),
        remove_artifact: true,
    }
}

/// The report of a run that extracted text: whether or not the clipboard
/// took it, the console carries the full text and the notification its
/// preview, and the artifact is directed to be removed.
pub fn delivery_report(text: &str, clipboard_ok: bool) -> (r: Report)
    ensures
        r.notify_title@ == "Scrotto"@,
        r.remove_artifact,
        clipboard_ok ==> r.console@ == success_console_spec(text@),
        clipboard_ok ==> r.notify_body@ == success_body_spec(text@),
        !clipboard_ok ==> r.console@ == failure_console_spec(text@),
        !clipboard_ok ==> r.notify_body@ == failure_body_spec(text@),
{
    let preview = preview_of(text);
    if clipboard_ok {
        Report {
            console: "✅ Text copied to clipboard:\n".to_owned().concat(text),
            notify_title: "Scrotto".to_owned(),
            notify_body: "✅ Text copied to clipboard:\n\n".to_owned().concat(preview.as_str()),
            remove_artifact: true,
        }
    } else {
        let console = "❌ Failed to copy to clipboard, but text extracted:\n".to_owned().concat(
            text,
        ).concat("\n💡 You can manually copy this text from the terminal");
        Report {
            console,
            notify_title: "Scrotto".to_owned(),
            notify_body: "❌ Clipboard failed, but text extracted:\n\n".to_owned().concat(
                preview.as_str(),
            ),
            remove_artifact: true,
        }
    }
}

/// When every clipboard mechanism has failed, the console message still
/// carries the full extracted text.
pub proof fn lemma_failure_console_has_full_text(t: Seq<char>)
    ensures
        has_substring(failure_console_spec(t), t),
{
    let p = "❌ Failed to copy to clipboard, but text extracted:\n"@;
    let s = "\n💡 You can manually copy this text from the terminal"@;
    let whole = failure_console_spec(t);
    assert(whole.subrange(p.len() as int, p.len() as int + t.len() as int) =~= t);
    assert(match_at(whole, t, p.len() as int));
}

/// When the text is short enough to escape truncation, the failure
/// notification body carries it in full as well.
pub proof fn lemma_failure_body_has_full_text(t: Seq<char>)
    requires
        t.len() <= 100,
    ensures
        failure_body_spec(t) == "❌ Clipboard failed, but text extracted:\n\n"@ + t,
{
}

/// The command line of the clipboard-copy utility.
pub fn wl_copy_argv(text: &String) -> (r: Vec<String>)
    ensures
        views_of(r@) == seq!["wl-copy"@, text@],
{
    let mut r: Vec<String> = Vec::new();
    r.push("wl-copy".to_owned());
    r.push(text.clone());
    proof {
        assert(views_of(r@) =~= seq!["wl-copy"@, text@]);
    }
    r
}

/// The command line of the paired clipboard-paste utility.
pub fn wl_paste_argv() -> (r: Vec<String>)
    ensures
        views_of(r@) == seq!["wl-paste"@],
{
    let mut r: Vec<String> = Vec::new();
    r.push("wl-paste".to_owned());
    proof {
        assert(views_of(r@) =~= seq!["wl-paste"@]);
    }
    r
}

/// The command line of the notification tool.
pub fn notify_send_argv(title: &String, body: &String) -> (r: Vec<String>)
    ensures
        views_of(r@) == seq!["notify-send"@, title@, body@],
{
    let mut r: Vec<String> = Vec::new();
    r.push("notify-send".to_owned());
    r.push(title.clone());
    r.push(body.clone());
    proof {
        assert(views_of(r@) =~= seq!["notify-send"@, title@, body@]);
    }
    r
}

} // verus!
