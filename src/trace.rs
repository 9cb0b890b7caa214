//! The diagnostic line that each decision produces when tracing is on.

use vstd::prelude::*;
use vstd::string::*;
use crate::config::{ConfigError, ENV_FAKEROOT};
use crate::engine::{Decision, Fallback, FallbackView, Route};

verus! {

/// The prefix of every diagnostic line.
pub const HOOK_TAG: &'static str = "@HOOK@";

/// What a diagnostic line says of a decision, after the tag.
pub open spec fn message(d: Route) -> Seq<char> {
    match d {
        Route::Untouched => Seq::empty(),
        Route::Fallback(f) => match f {
            FallbackView::BadEncoding => "failed to read string: invalid utf-8"@,
            FallbackView::Config(ConfigError::MissingConfig) => "environment variable not found"@,
            FallbackView::Config(ConfigError::NotAbsolute) => ENV_FAKEROOT@ + " is not absolute"@,
            FallbackView::Config(ConfigError::RootNotFound) => ENV_FAKEROOT@
                + " does not exist on disk"@,
            FallbackView::NotAbsolutePath(t) => "not an absolute path: "@ + t,
            FallbackView::NotInShadowRoot(t) => "not in fake root: "@ + t,
        },
        Route::Redirect(t, c) => t + " => "@ + c,
    }
}

/// The line traced for a decision: none where tracing is off or the call
/// was not subject to redirection, else the tag and the message.
pub open spec fn diagnostic_line(debug: bool, d: Route) -> Option<Seq<char>> {
    if debug && !(d is Untouched) {
        Some(HOOK_TAG@ + ": "@ + message(d))
    } else {
        None
    }
}

/// The text of an optional line.
pub open spec fn line_view(r: Option<String>) -> Option<Seq<char>> {
    match r {
        Some(s) => Some(s@),
        None => None,
    }
}

/// The text that follows the tag for a decision other than `Untouched`.
fn message_text(d: &Decision) -> (r: String)
    ensures
        r@ == message(d@),
{
    match d {
        Decision::Untouched => String::new(),
        Decision::Fallback(f) => match f {
            Fallback::BadEncoding => String::from_str("failed to read string: invalid utf-8"),
            Fallback::Config(ConfigError::MissingConfig) => String::from_str(
                "environment variable not found",
            ),
            Fallback::Config(ConfigError::NotAbsolute) => {
                let mut s = String::from_str(ENV_FAKEROOT);
                s.append(" is not absolute");
                s
            },
            Fallback::Config(ConfigError::RootNotFound) => {
                let mut s = String::from_str(ENV_FAKEROOT);
                s.append(" does not exist on disk");
                s
            },
            Fallback::NotAbsolutePath(t) => {
                let mut s = String::from_str("not an absolute path: ");
                s.append(t.as_str());
                s
            },
            Fallback::NotInShadowRoot(t) => {
                let mut s = String::from_str("not in fake root: ");
                s.append(t.as_str());
                s
            },
        },
        Decision::Redirect(t, c) => {
            let mut s = String::from_str(t.as_str());
            s.append(" => ");
            s.append(c.as_str());
            s
        },
    }
}

/// The diagnostic line for a decision, where one is traced.
pub fn diagnostic(debug: bool, d: &Decision) -> (r: Option<String>)
    ensures
        line_view(r) == diagnostic_line(debug, d@),
{
    if !debug {
        return None;
    }
    if let Decision::Untouched = d {
        return None;
    }
    let mut line = String::from_str(HOOK_TAG);
    line.append(": ");
    let m = message_text(d);
    line.append(m.as_str());
    Some(line)
}

} // verus!
