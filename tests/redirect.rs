use fakeroot::config::ConfigError;
use fakeroot::engine::{attempts_redirect, confirm_fake_path, get_fake_path, CallKind, Decision, Fallback, Plan};
use fakeroot::trace::diagnostic;

fn root(s: &str) -> Result<String, ConfigError> {
    Ok(String::from(s))
}

fn redirect(a: &str, b: &str) -> Decision {
    Decision::Redirect(String::from(a), String::from(b))
}

fn decided(p: Plan) -> Decision {
    match p {
        Plan::Decided(d) => d,
        Plan::CheckCandidate(t, c) => panic!("lookup asked for {} at {}", t, c),
    }
}

fn candidate(p: Plan) -> (String, String) {
    match p {
        Plan::Decided(d) => panic!("decided early: {:?}", d),
        Plan::CheckCandidate(t, c) => (t, c),
    }
}

/// The full decision, with `exists` standing for the disk.
fn decide(kind: CallKind, dirs: bool, all: bool, path: &[u8], r: &Result<String, ConfigError>, exists: bool) -> Decision {
    match get_fake_path(kind, dirs, all, path, r) {
        Plan::Decided(d) => d,
        Plan::CheckCandidate(t, c) => confirm_fake_path(t, c, exists),
    }
}

#[test]
fn shadow_file_is_redirected() {
    let r = root("/tmp/X");
    let (t, c) = candidate(get_fake_path(CallKind::Open, false, false, b"/etc/hosts", &r));
    assert_eq!(t, "/etc/hosts");
    assert_eq!(c, "/tmp/X/etc/hosts");
    assert_eq!(confirm_fake_path(t, c, true), redirect("/etc/hosts", "/tmp/X/etc/hosts"));
}

#[test]
fn file_absent_from_shadow_root_keeps_path() {
    let r = root("/tmp/X");
    let d = decide(CallKind::Open, false, false, b"/etc/passwd", &r, false);
    assert_eq!(d, Decision::Fallback(Fallback::NotInShadowRoot(String::from("/etc/passwd"))));
}

#[test]
fn allow_missing_redirects_without_lookup() {
    let r = root("/tmp/X");
    let d = decided(get_fake_path(CallKind::Open, false, true, b"/asdf", &r));
    assert_eq!(d, redirect("/asdf", "/tmp/X/asdf"));
}

#[test]
fn write_without_allow_missing_targets_real_path() {
    let r = root("/tmp/X");
    let d = decide(CallKind::Fopen, false, false, b"/asdf", &r, false);
    assert_eq!(d, Decision::Fallback(Fallback::NotInShadowRoot(String::from("/asdf"))));
}

#[test]
fn every_open_kind_shares_the_decision() {
    let r = root("/tmp/X");
    for kind in [CallKind::Open, CallKind::Open64, CallKind::Fopen, CallKind::Opendir] {
        let d = decide(kind, true, false, b"/opt/foo", &r, true);
        assert_eq!(d, redirect("/opt/foo", "/tmp/X/opt/foo"));
    }
}

#[test]
fn directory_open_needs_its_flag() {
    let r = root("/tmp/X");
    let d = decided(get_fake_path(CallKind::Opendir, false, true, b"/etc", &r));
    assert_eq!(d, Decision::Untouched);
    let d = decide(CallKind::Opendir, true, false, b"/etc", &r, true);
    assert_eq!(d, redirect("/etc", "/tmp/X/etc"));
}

#[test]
fn directory_flag_off_skips_even_a_bad_root() {
    let r = Err(ConfigError::MissingConfig);
    let d = decided(get_fake_path(CallKind::Opendir, false, false, b"/etc", &r));
    assert_eq!(d, Decision::Untouched);
    assert_eq!(diagnostic(true, &d), None);
}

#[test]
fn unset_root_passes_every_call_through() {
    let r = Err(ConfigError::MissingConfig);
    for kind in [CallKind::Open, CallKind::Open64, CallKind::Fopen, CallKind::Opendir] {
        let d = decided(get_fake_path(kind, true, true, b"/etc/passwd", &r));
        assert_eq!(d, Decision::Fallback(Fallback::Config(ConfigError::MissingConfig)));
    }
}

#[test]
fn invalid_utf8_path_keeps_path() {
    let r = root("/tmp/X");
    let d = decided(get_fake_path(CallKind::Open, false, true, b"/etc/\xff", &r));
    assert_eq!(d, Decision::Fallback(Fallback::BadEncoding));
}

#[test]
fn relative_path_keeps_path() {
    let r = root("/tmp/X");
    let d = decided(get_fake_path(CallKind::Open, false, true, b"etc/hosts", &r));
    assert_eq!(d, Decision::Fallback(Fallback::NotAbsolutePath(String::from("etc/hosts"))));
    let d = decided(get_fake_path(CallKind::Open, false, true, b"", &r));
    assert_eq!(d, Decision::Fallback(Fallback::NotAbsolutePath(String::new())));
}

#[test]
fn root_with_trailing_separator_gets_no_second_one() {
    let r = root("/tmp/X/");
    let d = decided(get_fake_path(CallKind::Open, false, true, b"/etc/hosts", &r));
    assert_eq!(d, redirect("/etc/hosts", "/tmp/X/etc/hosts"));
}

#[test]
fn join_strips_one_separator_only() {
    let r = root("/tmp/X");
    let d = decided(get_fake_path(CallKind::Open, false, true, b"//etc", &r));
    assert_eq!(d, redirect("//etc", "/tmp/X//etc"));
    let d = decided(get_fake_path(CallKind::Open, false, true, b"/", &r));
    assert_eq!(d, redirect("/", "/tmp/X/"));
}

#[test]
fn non_ascii_path_is_joined_by_bytes() {
    let r = root("/tmp/X");
    let d = decided(get_fake_path(CallKind::Open, false, true, "/etc/🪃".as_bytes(), &r));
    assert_eq!(d, redirect("/etc/🪃", "/tmp/X/etc/🪃"));
}

#[test]
fn trace_is_silent_when_off() {
    let r = root("/tmp/X");
    let ds = [
        decide(CallKind::Open, false, false, b"/etc/hosts", &r, true),
        decide(CallKind::Open, false, false, b"/etc/passwd", &r, false),
        decide(CallKind::Open, false, false, b"/\xff", &r, false),
        Decision::Fallback(Fallback::Config(ConfigError::RootNotFound)),
    ];
    for d in ds.iter() {
        assert_eq!(diagnostic(false, d), None);
    }
}

#[test]
fn trace_lines_when_on() {
    let r = root("/tmp/X");
    let d = decide(CallKind::Open, false, false, b"/etc/hosts", &r, true);
    assert_eq!(diagnostic(true, &d), Some(String::from("@HOOK@: /etc/hosts => /tmp/X/etc/hosts")));
    let d = decide(CallKind::Open, false, false, b"/etc/passwd", &r, false);
    assert_eq!(diagnostic(true, &d), Some(String::from("@HOOK@: not in fake root: /etc/passwd")));
    let d = decide(CallKind::Open, false, false, b"/\xff", &r, false);
    assert_eq!(diagnostic(true, &d), Some(String::from("@HOOK@: failed to read string: invalid utf-8")));
    let d = decide(CallKind::Open, false, false, b"tmp", &r, false);
    assert_eq!(diagnostic(true, &d), Some(String::from("@HOOK@: not an absolute path: tmp")));
}

#[test]
fn trace_names_each_root_error() {
    let line = |e| diagnostic(true, &Decision::Fallback(Fallback::Config(e)));
    assert_eq!(line(ConfigError::MissingConfig), Some(String::from("@HOOK@: environment variable not found")));
    assert_eq!(line(ConfigError::NotAbsolute), Some(String::from("@HOOK@: FAKEROOT is not absolute")));
    assert_eq!(line(ConfigError::RootNotFound), Some(String::from("@HOOK@: FAKEROOT does not exist on disk")));
}

#[test]
fn only_directory_opens_are_gated() {
    assert!(attempts_redirect(CallKind::Open, false));
    assert!(attempts_redirect(CallKind::Open64, false));
    assert!(attempts_redirect(CallKind::Fopen, false));
    assert!(!attempts_redirect(CallKind::Opendir, false));
    assert!(attempts_redirect(CallKind::Opendir, true));
}
