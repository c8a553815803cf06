//! Session classification and capture-backend selection: the session type
//! and the colon-delimited desktop identifier deterministically pick a
//! default backend, and an explicit override always wins.
use vstd::prelude::*;
use vstd::string::StrSliceExecFns;

use crate::text::{chars_eq_ignore_ascii_case, eq_ignore_ascii_case, trim_chars, trimmed};

verus! {

/// The display-server session classes the tool distinguishes.
#[derive(Clone, Copy, PartialEq, Eq, Structural, Debug)]
pub enum SessionType {
    Wayland,
    X11,
    Unknown,
}

/// The capture subsystem family: generic tool-based capture, or the
/// desktop portal.
#[derive(Clone, Copy, PartialEq, Eq, Structural, Debug)]
pub enum Backend {
    Auto,
    Portal,
}

pub open spec fn classify_session_spec(s: Seq<char>) -> SessionType {
    if eq_ignore_ascii_case(s, "wayland"@) {
        SessionType::Wayland
    } else if eq_ignore_ascii_case(s, "x11"@) {
        SessionType::X11
    } else {
        SessionType::Unknown
    }
}

/// Classifies the session-type signal, ignoring ASCII case.
pub fn classify_session(s: &str) -> (r: SessionType)
    ensures
        r == classify_session_spec(s@),
{
    if chars_eq_ignore_ascii_case(s, "wayland") {
        SessionType::Wayland
    } else if chars_eq_ignore_ascii_case(s, "x11") {
        SessionType::X11
    } else {
        SessionType::Unknown
    }
}

pub open spec fn backend_of_str(v: Seq<char>) -> Option<Backend> {
    if eq_ignore_ascii_case(v, "auto"@) {
        Option::Some(Backend::Auto)
    } else if eq_ignore_ascii_case(v, "portal"@) {
        Option::Some(Backend::Portal)
    } else {
        Option::None
    }
}

impl Backend {
    /// Parses a backend name, ignoring ASCII case; any other value is
    /// rejected.
    pub fn from_str(value: &str) -> (r: Option<Backend>)
        ensures
            r == backend_of_str(value@),
    {
        if chars_eq_ignore_ascii_case(value, "auto") {
            Option::Some(Backend::Auto)
        } else if chars_eq_ignore_ascii_case(value, "portal") {
            Option::Some(Backend::Portal)
        } else {
            Option::None
        }
    }
}

/// The colon-delimited components of a string; a string without a colon is
/// one component, and every colon separates two (possibly empty) ones.
pub open spec fn colon_components(s: Seq<char>) -> Seq<Seq<char>>
    decreases s.len(),
{
    if s.len() == 0 {
        seq![Seq::<char>::empty()]
    } else if s[0] == ':' {
        seq![Seq::<char>::empty()] + colon_components(s.drop_first())
    } else {
        let rest = colon_components(s.drop_first());
        seq![seq![s[0]] + rest[0]] + rest.drop_first()
    }
}

proof fn lemma_components_len(s: Seq<char>)
    ensures
        colon_components(s).len() >= 1,
    decreases s.len(),
{
    if s.len() == 0 {
    } else {
        lemma_components_len(s.drop_first());
    }
}

proof fn lemma_components_colon_free(s: Seq<char>)
    requires
        forall|j: int| 0 <= j < s.len() ==> s[j] != ':',
    ensures
        colon_components(s) == seq![s],
    decreases s.len(),
{
    if s.len() == 0 {
        assert(colon_components(s) =~~= seq![s]);
    } else {
        lemma_components_colon_free(s.drop_first());
        assert(seq![s[0]] + s.drop_first() =~= s);
        assert(colon_components(s) =~~= seq![s]);
    }
}

proof fn lemma_components_until_colon(s: Seq<char>, k: int)
    requires
        0 <= k < s.len(),
        s[k] == ':',
        forall|j: int| 0 <= j < k ==> s[j] != ':',
    ensures
        colon_components(s) == seq![s.take(k)] + colon_components(s.skip(k + 1)),
    decreases k,
{
    if k == 0 {
        assert(s.drop_first() =~= s.skip(1));
        assert(s.take(0) =~= Seq::<char>::empty());
        assert(colon_components(s) =~~= seq![s.take(0)] + colon_components(s.skip(1)));
    } else {
        let t = s.drop_first();
        assert(t =~= s.skip(1));
        assert(t[k - 1] == ':');
        lemma_components_until_colon(t, k - 1);
        lemma_components_len(t.skip(k));
        assert(seq![s[0]] + t.take(k - 1) =~= s.take(k));
        assert(t.skip(k) =~= s.skip(k + 1));
        assert((seq![t.take(k - 1)] + colon_components(t.skip(k))).drop_first() =~~= colon_components(
            s.skip(k + 1),
        ));
        assert(colon_components(s) =~~= seq![s.take(k)] + colon_components(s.skip(k + 1)));
    }
}

/// The views of a sequence of strings.
pub open spec fn views_of(v: Seq<String>) -> Seq<Seq<char>> {
    v.map_values(|s: String| s@)
}

/// Splits a string at every colon, as `str::split(':')` does.
pub fn split_colon(s: &str) -> (r: Vec<String>)
    ensures
        views_of(r@) == colon_components(s@),
{
    let n = s.unicode_len();
    let mut parts: Vec<String> = Vec::new();
    let mut start: usize = 0;
    let mut i: usize = 0;
    proof {
        assert(views_of(parts@) =~~= Seq::<Seq<char>>::empty());
        assert(s@.skip(0) =~= s@);
    }
    while i < n
        invariant
            n == s@.len(),
            0 <= start <= i <= n,
            forall|j: int| start <= j < i ==> s@[j] != ':',
            colon_components(s@) == views_of(parts@) + colon_components(s@.skip(start as int)),
        decreases n - i,
    {
        if s.get_char(i) == ':' {
            let piece = s.substring_char(start, i).to_owned();
            proof {
                let t = s@.skip(start as int);
                assert(t[i - start] == ':');
                assert(forall|j: int| 0 <= j < i - start ==> t[j] == s@[j + start]);
                lemma_components_until_colon(t, i - start);
                assert(t.take(i - start) =~= s@.subrange(start as int, i as int));
                assert(t.skip(i - start + 1) =~= s@.skip(i + 1));
                assert(views_of(parts@.push(piece)) =~~= views_of(parts@).push(piece@));
                assert(colon_components(s@) =~~= views_of(parts@.push(piece))
                    + colon_components(s@.skip(i + 1)));
            }
            parts.push(piece);
            start = i + 1;
        }
        i += 1;
    }
    let piece = s.substring_char(start, n).to_owned();
    proof {
        let t = s@.skip(start as int);
        lemma_components_colon_free(t);
        assert(t =~= s@.subrange(start as int, n as int));
        assert(views_of(parts@.push(piece)) =~~= views_of(parts@).push(piece@));
        assert(views_of(parts@.push(piece)) =~~= colon_components(s@));
    }
    parts.push(piece);
    parts
}

/// Some colon-delimited component of the desktop identifier, once trimmed,
/// reads "gnome" up to ASCII case.
pub open spec fn desktop_has_gnome(d: Seq<char>) -> bool {
    exists|i: int|
        0 <= i < colon_components(d).len() && eq_ignore_ascii_case(
            trimmed(#[trigger] colon_components(d)[i]),
            "gnome"@,
        )
}

pub fn desktop_mentions_gnome(d: &str) -> (r: bool)
    ensures
        r == desktop_has_gnome(d@),
{
    let parts = split_colon(d);
    let n = parts.len();
    let mut i: usize = 0;
    while i < n
        invariant
            n == parts@.len(),
            views_of(parts@) == colon_components(d@),
            0 <= i <= n,
            forall|k: int|
                0 <= k < i ==> !eq_ignore_ascii_case(
                    trimmed(#[trigger] colon_components(d@)[k]),
                    "gnome"@,
                ),
        decreases n - i,
    {
        let t = trim_chars(parts[i].as_str());
        proof {
            assert(colon_components(d@)[i as int] == views_of(parts@)[i as int]);
            assert(views_of(parts@)[i as int] == parts@[i as int]@);
        }
        if chars_eq_ignore_ascii_case(t, "gnome") {
            assert(eq_ignore_ascii_case(trimmed(colon_components(d@)[i as int]), "gnome"@));
            return true;
        }
        i += 1;
    }
    false
}

pub open spec fn opt_str_view(d: Option<String>) -> Option<Seq<char>> {
    match d {
        Option::Some(s) => Option::Some(s@),
        Option::None => Option::None,
    }
}

/// The default backend: the portal on a GNOME Wayland session, the generic
/// tool chain everywhere else.
pub open spec fn default_backend_spec(session: SessionType, desktop: Option<Seq<char>>) -> Backend {
    match (session, desktop) {
        (SessionType::Wayland, Option::Some(d)) => if desktop_has_gnome(d) {
            Backend::Portal
        } else {
            Backend::Auto
        },
        _ => Backend::Auto,
    }
}

pub fn default_backend(session: &SessionType, desktop: &Option<String>) -> (r: Backend)
    ensures
        r == default_backend_spec(*session, opt_str_view(*desktop)),
{
    match (session, desktop) {
        (SessionType::Wayland, Option::Some(d)) => {
            if desktop_mentions_gnome(d.as_str()) {
                Backend::Portal
            } else {
                Backend::Auto
            }
        },
        _ => Backend::Auto,
    }
}

/// The backend for the run: an explicit override if one was given, the
/// computed default otherwise.
pub open spec fn resolve_backend_spec(
    session: SessionType,
    desktop: Option<Seq<char>>,
    ovr: Option<Backend>,
) -> Backend {
    match ovr {
        Option::Some(b) => b,
        Option::None => default_backend_spec(session, desktop),
    }
}

pub fn resolve_backend(session: &SessionType, desktop: &Option<String>, ovr: &Option<Backend>) -> (r:
    Backend)
    ensures
        r == resolve_backend_spec(*session, opt_str_view(*desktop), *ovr),
{
    match ovr {
        Option::Some(b) => *b,
        Option::None => default_backend(session, desktop),
    }
}

/// Backend selection is a pure function of the session type, the desktop
/// identifier and the explicit override: the same inputs always yield the
/// same backend.
pub proof fn lemma_backend_selection_deterministic(
    s1: SessionType,
    d1: Option<Seq<char>>,
    o1: Option<Backend>,
    s2: SessionType,
    d2: Option<Seq<char>>,
    o2: Option<Backend>,
)
    requires
        s1 == s2,
        d1 == d2,
        o1 == o2,
    ensures
        resolve_backend_spec(s1, d1, o1) == resolve_backend_spec(s2, d2, o2),
{
}

/// An explicit backend override always decides the backend, whatever
/// default the environment would have produced.
pub proof fn lemma_override_wins(session: SessionType, desktop: Option<Seq<char>>, b: Backend)
    ensures
        resolve_backend_spec(session, desktop, Option::Some(b)) == b,
{
}

} // verus!
