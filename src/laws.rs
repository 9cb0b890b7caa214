//! Properties of the redirection decision that hold over all inputs.

use vstd::prelude::*;
use vstd::utf8::*;
use crate::config::{flag_enabled, root_outcome, ConfigError};
use crate::engine::{route, shadow_path, CallKind, Route};
use crate::text::is_absolute;
use crate::trace::{diagnostic_line, message, HOOK_TAG};

verus! {

/// UTF-8 encoding maps concatenation of text to concatenation of bytes.
pub proof fn lemma_encode_concat(a: Seq<char>, b: Seq<char>)
    ensures
        encode_utf8(a + b) == encode_utf8(a) + encode_utf8(b),
    decreases a.len(),
{
    if a.len() == 0 {
        assert(a + b =~= b);
        assert(encode_utf8(a) + encode_utf8(b) =~= encode_utf8(b));
    } else {
        lemma_encode_concat(a.drop_first(), b);
        assert((a + b).drop_first() =~= a.drop_first() + b);
        assert((a + b)[0] == a[0]);
        let first = encode_scalar(a[0] as u32);
        assert(first + (encode_utf8(a.drop_first()) + encode_utf8(b)) =~= (first + encode_utf8(
            a.drop_first(),
        )) + encode_utf8(b));
    }
}

/// The separator is encoded as the single byte `0x2f`.
pub proof fn lemma_encode_separator()
    ensures
        encode_utf8(seq!['/']) == seq![0x2fu8],
{
    assert(('/' as u32) == 0x2f);
    assert((0x2fu32 & 0x7f) as u8 == 0x2fu8) by (bit_vector);
    assert(seq!['/'].drop_first() =~= Seq::<char>::empty());
    assert(encode_scalar(0x2fu32) =~= seq![0x2fu8]);
    assert(encode_utf8(seq!['/']) =~= seq![0x2fu8] + encode_utf8(Seq::<char>::empty()));
}

/// With a valid shadow root and a file at the candidate, a call that is
/// subject to redirection goes to the candidate: the root joined with the
/// absolute path whose leading separator is stripped exactly once. Byte for
/// byte, the candidate is the root, a separator unless the root already ends
/// with one, and the path's bytes after the first.
pub proof fn lemma_redirect_to_candidate(
    kind: CallKind,
    dirs_enabled: bool,
    allow_missing: bool,
    path: Seq<u8>,
    root: Seq<char>,
)
    requires
        kind != CallKind::Opendir || dirs_enabled,
        is_absolute(root),
        valid_utf8(path),
        is_absolute(decode_utf8(path)),
    ensures
        route(kind, dirs_enabled, allow_missing, path, Ok(root), true) == Route::Redirect(
            decode_utf8(path),
            shadow_path(root, decode_utf8(path)),
        ),
        encode_utf8(shadow_path(root, decode_utf8(path))) == encode_utf8(root) + (if root.last()
            == '/' {
            Seq::<u8>::empty()
        } else {
            seq![0x2fu8]
        }) + path.subrange(1, path.len() as int),
{
    let text = decode_utf8(path);
    let rest = text.drop_first();
    decode_utf8_encode_utf8(path);
    assert(text =~= seq!['/'] + rest);
    lemma_encode_concat(seq!['/'], rest);
    lemma_encode_separator();
    assert(path =~= seq![0x2fu8] + encode_utf8(rest));
    assert(path.subrange(1, path.len() as int) =~= encode_utf8(rest));
    if root.last() == '/' {
        lemma_encode_concat(root, rest);
        assert(encode_utf8(root) + Seq::<u8>::empty() =~= encode_utf8(root));
    } else {
        lemma_encode_concat(root, seq!['/']);
        lemma_encode_concat(root + seq!['/'], rest);
    }
}

/// Without permission to redirect to missing files, a call whose candidate
/// does not exist keeps its original path.
pub proof fn lemma_missing_candidate_keeps_path(
    kind: CallKind,
    dirs_enabled: bool,
    path: Seq<u8>,
    root: Result<Seq<char>, ConfigError>,
)
    ensures
        !(route(kind, dirs_enabled, false, path, root, false) is Redirect),
{
}

/// With permission to redirect to missing files, whether the candidate
/// exists does not matter, and a call subject to redirection with a valid
/// root goes to the candidate verbatim.
pub proof fn lemma_allow_missing_redirects(
    kind: CallKind,
    dirs_enabled: bool,
    path: Seq<u8>,
    root: Result<Seq<char>, ConfigError>,
    candidate_exists: bool,
)
    ensures
        route(kind, dirs_enabled, true, path, root, candidate_exists) == route(
            kind,
            dirs_enabled,
            true,
            path,
            root,
            true,
        ),
        (kind != CallKind::Opendir || dirs_enabled) && root is Ok && is_absolute(root->Ok_0)
            && valid_utf8(path) && is_absolute(decode_utf8(path)) ==> route(
            kind,
            dirs_enabled,
            true,
            path,
            root,
            candidate_exists,
        ) == Route::Redirect(decode_utf8(path), shadow_path(root->Ok_0, decode_utf8(path))),
{
}

/// A directory open is redirected only where the directory flag's setting
/// is truthy: otherwise it is left untouched, without a lookup; where it is
/// truthy, it is decided as the other call kinds are.
pub proof fn lemma_directory_flag(
    dirs_setting: Option<Seq<char>>,
    allow_missing: bool,
    path: Seq<u8>,
    root: Result<Seq<char>, ConfigError>,
    candidate_exists: bool,
)
    ensures
        !flag_enabled(dirs_setting) ==> route(
            CallKind::Opendir,
            flag_enabled(dirs_setting),
            allow_missing,
            path,
            root,
            candidate_exists,
        ) == Route::Untouched,
        flag_enabled(dirs_setting) ==> route(
            CallKind::Opendir,
            flag_enabled(dirs_setting),
            allow_missing,
            path,
            root,
            candidate_exists,
        ) == route(
            CallKind::Open,
            flag_enabled(dirs_setting),
            allow_missing,
            path,
            root,
            candidate_exists,
        ),
{
}

/// With the shadow-root setting absent, no call is redirected: each keeps
/// its original path.
pub proof fn lemma_unset_root_never_redirects(
    kind: CallKind,
    dirs_enabled: bool,
    allow_missing: bool,
    path: Seq<u8>,
    on_disk: bool,
    candidate_exists: bool,
)
    ensures
        !(route(
            kind,
            dirs_enabled,
            allow_missing,
            path,
            root_outcome(None, on_disk),
            candidate_exists,
        ) is Redirect),
{
}

/// With tracing off no decision produces a line. With tracing on, every
/// decision on a call subject to redirection produces one line: the tag,
/// then the mapping or the reason for keeping the original path.
pub proof fn lemma_trace_lines(debug: bool, d: Route)
    ensures
        !debug ==> diagnostic_line(debug, d) is None,
        debug && !(d is Untouched) ==> diagnostic_line(debug, d) == Some(
            HOOK_TAG@ + ": "@ + message(d),
        ),
        debug && !(d is Untouched) ==> diagnostic_line(debug, d)->Some_0.subrange(
            0,
            HOOK_TAG@.len() as int,
        ) == HOOK_TAG@,
{
    if debug && !(d is Untouched) {
        let line = HOOK_TAG@ + ": "@ + message(d);
        assert(line.subrange(0, HOOK_TAG@.len() as int) =~= HOOK_TAG@);
    }
}

} // verus!
