//! The redirection engine: for one intercepted call, which path the original
//! function receives.

use vstd::prelude::*;
use vstd::string::*;
use vstd::utf8::*;
use crate::config::{root_view, ConfigError};
use crate::text::{decode_text, is_absolute, is_absolute_path};

verus! {

/// The intercepted operations. They differ only in the arguments passed
/// through untouched and in what they return, and share one decision.
#[derive(Clone, Copy, Debug, PartialEq, Eq, Structural)]
pub enum CallKind {
    /// `open`: a path, flags and a mode.
    Open,
    /// `open64`, the large-file variant of `open`.
    Open64,
    /// `fopen`: a path and a mode string.
    Fopen,
    /// `opendir`: a path alone; redirected only where directories are enabled.
    Opendir,
}

/// Why a call keeps its original path.
#[derive(Clone, Debug, PartialEq, Eq)]
pub enum Fallback {
    /// The path is not valid UTF-8.
    BadEncoding,
    /// The shadow root could not be resolved.
    Config(ConfigError),
    /// The path, given as text, does not begin with a separator.
    NotAbsolutePath(String),
    /// No file stands at the candidate path under the shadow root.
    NotInShadowRoot(String),
}

/// A [`Fallback`] with its texts as sequences of characters.
pub enum FallbackView {
    BadEncoding,
    Config(ConfigError),
    NotAbsolutePath(Seq<char>),
    NotInShadowRoot(Seq<char>),
}

impl View for Fallback {
    type V = FallbackView;

    open spec fn view(&self) -> FallbackView {
        match self {
            Fallback::BadEncoding => FallbackView::BadEncoding,
            Fallback::Config(e) => FallbackView::Config(*e),
            Fallback::NotAbsolutePath(t) => FallbackView::NotAbsolutePath(t@),
            Fallback::NotInShadowRoot(t) => FallbackView::NotInShadowRoot(t@),
        }
    }
}

/// The path decision for one call.
#[derive(Clone, Debug, PartialEq, Eq)]
pub enum Decision {
    /// The call is not subject to redirection: no lookup, nothing to trace.
    Untouched,
    /// Redirection was attempted and the original path is kept.
    Fallback(Fallback),
    /// The original path (as text) and the shadow path that replaces it.
    Redirect(String, String),
}

/// A [`Decision`] with its texts as sequences of characters.
pub enum Route {
    Untouched,
    Fallback(FallbackView),
    Redirect(Seq<char>, Seq<char>),
}

impl View for Decision {
    type V = Route;

    open spec fn view(&self) -> Route {
        match self {
            Decision::Untouched => Route::Untouched,
            Decision::Fallback(f) => Route::Fallback(f@),
            Decision::Redirect(t, c) => Route::Redirect(t@, c@),
        }
    }
}

/// `rest` appended to `root` as a path component: one separator between
/// them, none added where `root` already ends with one. `rest` is never
/// treated as absolute.
pub open spec fn join_root(root: Seq<char>, rest: Seq<char>) -> Seq<char> {
    if root.len() > 0 && root.last() == '/' {
        root + rest
    } else {
        root + seq!['/'] + rest
    }
}

/// The candidate under `root` for the absolute path `path`: its leading
/// separator is stripped once and the rest joined onto the root.
pub open spec fn shadow_path(root: Seq<char>, path: Seq<char>) -> Seq<char> {
    join_root(root, path.drop_first())
}

/// The decision for a call of kind `kind` on the path bytes `path`, given
/// the policy flags, the resolved shadow root, and whether a file exists at
/// the candidate path.
pub open spec fn route(
    kind: CallKind,
    dirs_enabled: bool,
    allow_missing: bool,
    path: Seq<u8>,
    root: Result<Seq<char>, ConfigError>,
    candidate_exists: bool,
) -> Route {
    if kind == CallKind::Opendir && !dirs_enabled {
        Route::Untouched
    } else if !valid_utf8(path) {
        Route::Fallback(FallbackView::BadEncoding)
    } else {
        let text = decode_utf8(path);
        match root {
            Err(e) => Route::Fallback(FallbackView::Config(e)),
            Ok(r) => if !is_absolute(text) {
                Route::Fallback(FallbackView::NotAbsolutePath(text))
            } else if allow_missing || candidate_exists {
                Route::Redirect(text, shadow_path(r, text))
            } else {
                Route::Fallback(FallbackView::NotInShadowRoot(text))
            },
        }
    }
}

/// Whether a call of kind `kind` is subject to redirection at all. Where it
/// is not, the decision is `Untouched` whatever the path, root and disk.
pub fn attempts_redirect(kind: CallKind, dirs_enabled: bool) -> (r: bool)
    ensures
        r == !(kind == CallKind::Opendir && !dirs_enabled),
        !r ==> forall|
            allow_missing: bool,
            path: Seq<u8>,
            root: Result<Seq<char>, ConfigError>,
            candidate_exists: bool,
        |
            #![trigger route(kind, dirs_enabled, allow_missing, path, root, candidate_exists)]
            route(kind, dirs_enabled, allow_missing, path, root, candidate_exists)
                == Route::Untouched,
{
    match kind {
        CallKind::Opendir => dirs_enabled,
        _ => true,
    }
}

/// The first step of a decision. Either it is made, or it turns on whether a
/// file exists at the candidate path, which the caller asks the disk.
pub enum Plan {
    /// The decision, whatever the disk holds.
    Decided(Decision),
    /// The original path as text and the candidate path to look up.
    CheckCandidate(String, String),
}

/// Joins the absolute path `path` onto `root`.
fn join_shadow_path(root: &str, path: &str) -> (r: String)
    requires
        path@.len() > 0,
    ensures
        r@ == shadow_path(root@, path@),
{
    let n = path.unicode_len();
    let rest = path.substring_char(1, n);
    let mut out = String::from_str(root);
    let m = root.unicode_len();
    if m == 0 || root.get_char(m - 1) != '/' {
        let sep = "/";
        proof {
            reveal_strlit("/");
        }
        out.append(sep);
    }
    out.append(rest);
    assert(rest@ =~= path@.drop_first());
    out
}

/// Plans the path decision for one call of kind `kind` on the path bytes
/// `path`, with the shadow root as resolved. Where the plan is made, it is
/// the decision whether or not the candidate exists; where it asks for a
/// lookup, the candidate is redirected to exactly when it exists.
pub fn get_fake_path(
    kind: CallKind,
    dirs_enabled: bool,
    allow_missing: bool,
    path: &[u8],
    root: &Result<String, ConfigError>,
) -> (r: Plan)
    ensures
        match r {
            Plan::Decided(d) => {
                &&& d@ == route(kind, dirs_enabled, allow_missing, path@, root_view(root), false)
                &&& d@ == route(kind, dirs_enabled, allow_missing, path@, root_view(root), true)
            },
            Plan::CheckCandidate(t, c) => {
                &&& route(kind, dirs_enabled, allow_missing, path@, root_view(root), true)
                    == Route::Redirect(t@, c@)
                &&& route(kind, dirs_enabled, allow_missing, path@, root_view(root), false)
                    == Route::Fallback(FallbackView::NotInShadowRoot(t@))
            },
        },
{
    if !attempts_redirect(kind, dirs_enabled) {
        return Plan::Decided(Decision::Untouched);
    }
    let text = match decode_text(path) {
        None => {
            return Plan::Decided(Decision::Fallback(Fallback::BadEncoding));
        },
        Some(t) => t,
    };
    let base = match root {
        Err(e) => {
            return Plan::Decided(Decision::Fallback(Fallback::Config(*e)));
        },
        Ok(b) => b,
    };
    if !is_absolute_path(text) {
        return Plan::Decided(Decision::Fallback(Fallback::NotAbsolutePath(String::from_str(text))));
    }
    let candidate = join_shadow_path(base.as_str(), text);
    let original = String::from_str(text);
    if allow_missing {
        Plan::Decided(Decision::Redirect(original, candidate))
    } else {
        Plan::CheckCandidate(original, candidate)
    }
}

/// Completes a plan that asked for a lookup: `exists` tells whether a file
/// stands at `candidate`.
pub fn confirm_fake_path(text: String, candidate: String, exists: bool) -> (r: Decision)
    ensures
        r@ == (if exists {
            Route::Redirect(text@, candidate@)
        } else {
            Route::Fallback(FallbackView::NotInShadowRoot(text@))
        }),
{
    if exists {
        Decision::Redirect(text, candidate)
    } else {
        Decision::Fallback(Fallback::NotInShadowRoot(text))
    }
}

} // verus!
