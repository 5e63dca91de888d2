use gitwrapper::invoker::{Action, GitWrapper, Outcome, Step};
use gitwrapper::journal::{format_log_line, format_timestamp, log_line_now, Timestamp};
use gitwrapper::text::{
    contains_text, decode_stream, escape_braces, is_drive_path, join_args, normalize_drive_path,
};

fn strings(v: &[&str]) -> Vec<String> {
    v.iter().map(|s| s.to_string()).collect()
}

fn exited(code: i32, out: &str, err: &str) -> Outcome {
    Outcome::Exited { code: Some(code), stdout: out.as_bytes().to_vec(), stderr: err.as_bytes().to_vec() }
}

fn not_started(error: &str) -> Outcome {
    Outcome::NotStarted { error: error.to_string() }
}

fn expect_to_unix(a: Action) -> String {
    assert!(a.log.is_none());
    match a.step {
        Step::ToUnix(p) => p,
        _ => panic!("expected a to-unix conversion"),
    }
}

fn expect_run(a: Action) -> Vec<String> {
    match a.step {
        Step::RunVcs(v) => v,
        _ => panic!("expected the delegated run"),
    }
}

fn expect_to_windows(a: Action) -> String {
    assert!(a.log.is_none());
    match a.step {
        Step::ToWindows(p) => p,
        _ => panic!("expected a to-windows conversion"),
    }
}

fn expect_done(a: Action) -> (i32, String, String, Option<String>) {
    match a.step {
        Step::Done(c, o, e) => (c, o, e, a.log),
        _ => panic!("expected the end"),
    }
}

#[test]
fn escape_wraps_braces() {
    assert_eq!(escape_braces("{a}"), "\\{a\\}");
    assert_eq!(escape_braces("HEAD@{1}"), "HEAD@\\{1\\}");
}

#[test]
fn escape_without_braces_is_unchanged() {
    assert_eq!(escape_braces("status"), "status");
    assert_eq!(escape_braces(""), "");
    assert_eq!(escape_braces("C:/Users/x"), "C:/Users/x");
}

#[test]
fn drive_paths_are_detected() {
    assert!(is_drive_path("C:/Users/x"));
    assert!(is_drive_path("C:\\Users\\x"));
    assert!(is_drive_path("--file=D:/a"));
    assert!(!is_drive_path("/c/Users/x"));
    assert!(!is_drive_path("status"));
    assert!(!is_drive_path("a:b"));
    assert!(!is_drive_path(""));
}

#[test]
fn substring_search() {
    assert!(contains_text("abc", ""));
    assert!(contains_text("abc", "bc"));
    assert!(!contains_text("abc", "cb"));
    assert!(!contains_text("ab", "abc"));
    assert!(contains_text("/c/x\n", "/"));
}

#[test]
fn arguments_join_with_single_spaces() {
    assert_eq!(join_args(&strings(&["rev-parse", "--show-toplevel"])), "rev-parse --show-toplevel");
    assert_eq!(join_args(&strings(&["one"])), "one");
    assert_eq!(join_args(&Vec::new()), "");
}

#[test]
fn drive_letter_is_lowered() {
    assert_eq!(normalize_drive_path("C:/Users/x"), "c:/Users/x");
    assert_eq!(normalize_drive_path("C:\\Users\\x\\repo\n"), "c:/Users/x/repo\n");
    assert_eq!(normalize_drive_path("AB:\\x"), "AB:/x");
    assert_eq!(normalize_drive_path("c:/x"), "c:/x");
    assert_eq!(normalize_drive_path("X"), "X");
}

#[test]
fn streams_decode_or_become_empty() {
    assert_eq!(decode_stream(b"On branch main\n".to_vec()), "On branch main\n");
    assert_eq!(decode_stream("é".as_bytes().to_vec()), "é");
    assert_eq!(decode_stream(vec![0x66, 0xff, 0x67]), "");
    assert_eq!(decode_stream(Vec::new()), "");
}

#[test]
fn arguments_keep_count_and_order() {
    let mut w = GitWrapper::new(strings(&["log", "{x}", "C:/a", "-n", "D:\\b"]));
    assert_eq!(expect_to_unix(w.begin()), "C:/a");
    assert_eq!(expect_to_unix(w.on_unix_path(exited(0, "/c/a", ""))), "D:\\b");
    let v = expect_run(w.on_unix_path(exited(0, "/d/b", "")));
    assert_eq!(v, strings(&["log", "\\{x\\}", "/c/a", "-n", "/d/b"]));
}

#[test]
fn brace_next_to_colon_goes_to_helper() {
    let mut w = GitWrapper::new(strings(&["a:{b}"]));
    assert_eq!(expect_to_unix(w.begin()), "a:\\{b\\}");
    let v = expect_run(w.on_unix_path(exited(0, "", "")));
    assert_eq!(v, strings(&["a:\\{b\\}"]));
}

#[test]
fn empty_helper_output_keeps_the_argument() {
    let mut w = GitWrapper::new(strings(&["add", "C:/{y}"]));
    assert_eq!(expect_to_unix(w.begin()), "C:/\\{y\\}");
    let a = w.on_unix_path(exited(1, "", "bad"));
    assert!(a.log.is_none());
    assert_eq!(expect_run(a), strings(&["add", "C:/\\{y\\}"]));
}

#[test]
fn helper_that_cannot_start_keeps_the_argument_and_logs() {
    let mut w = GitWrapper::new(strings(&["C:/x"]));
    assert_eq!(expect_to_unix(w.begin()), "C:/x");
    let a = w.on_unix_path(not_started("no such file"));
    assert_eq!(a.log.as_deref(), Some("Error:convert_path_from_windows_to_unix=no such file"));
    assert_eq!(expect_run(a), strings(&["C:/x"]));
}

#[test]
fn vcs_not_found() {
    let mut w = GitWrapper::new(strings(&["status"]));
    expect_run(w.begin());
    let (c, o, e, log) = expect_done(w.on_vcs(not_started("program not found")));
    assert_eq!(c, -1);
    assert_eq!(o, "");
    assert_eq!(e, "Error:call_git=program not found");
    assert!(!e.is_empty());
    assert_eq!(log.as_deref(), Some("Error:call_git=program not found"));
}

#[test]
fn vcs_without_status() {
    let mut w = GitWrapper::new(strings(&["status"]));
    expect_run(w.begin());
    let outcome = Outcome::Exited { code: None, stdout: b"x".to_vec(), stderr: b"y".to_vec() };
    let (c, o, e, log) = expect_done(w.on_vcs(outcome));
    assert_eq!(c, -1);
    assert_eq!(o, "");
    assert!(!e.is_empty());
    assert_eq!(log, Some(e));
}

#[test]
fn scenario_status_passes_through() {
    let mut w = GitWrapper::new(strings(&["status"]));
    assert_eq!(expect_run(w.begin()), strings(&["status"]));
    let (c, o, e, log) = expect_done(w.on_vcs(exited(0, "On branch main\n", "")));
    assert_eq!((c, o.as_str(), e.as_str()), (0, "On branch main\n", ""));
    assert!(log.is_none());
}

#[test]
fn scenario_toplevel_is_reversed() {
    let mut w = GitWrapper::new(strings(&["rev-parse", "--show-toplevel"]));
    assert_eq!(expect_run(w.begin()), strings(&["rev-parse", "--show-toplevel"]));
    let p = expect_to_windows(w.on_vcs(exited(0, "/c/Users/x/repo\n", "")));
    assert_eq!(p, "/c/Users/x/repo\n");
    let (c, o, e, log) = expect_done(w.on_windows_path(exited(0, "C:\\Users\\x\\repo\n", "")));
    assert_eq!((c, o.as_str(), e.as_str()), (0, "c:/Users/x/repo\n", ""));
    assert!(log.is_none());
}

#[test]
fn scenario_add_converts_path() {
    let mut w = GitWrapper::new(strings(&["add", "C:/Users/x/file.txt"]));
    assert_eq!(expect_to_unix(w.begin()), "C:/Users/x/file.txt");
    let v = expect_run(w.on_unix_path(exited(0, "/c/Users/x/file.txt", "")));
    assert_eq!(v, strings(&["add", "/c/Users/x/file.txt"]));
    let (c, o, e, _) = expect_done(w.on_vcs(exited(0, "added /c/Users/x/file.txt\n", "")));
    assert_eq!((c, o.as_str(), e.as_str()), (0, "added /c/Users/x/file.txt\n", ""));
}

#[test]
fn reverse_needs_success() {
    let mut w = GitWrapper::new(strings(&["rev-parse", "--show-toplevel"]));
    expect_run(w.begin());
    let (c, o, e, _) = expect_done(w.on_vcs(exited(128, "/c/x\n", "fatal")));
    assert_eq!((c, o.as_str(), e.as_str()), (128, "/c/x\n", "fatal"));
}

#[test]
fn reverse_needs_a_slash() {
    let mut w = GitWrapper::new(strings(&["rev-parse", "--show-toplevel"]));
    expect_run(w.begin());
    let (c, o, _, _) = expect_done(w.on_vcs(exited(0, "repo\n", "")));
    assert_eq!((c, o.as_str()), (0, "repo\n"));
}

#[test]
fn reverse_needs_the_phrase_in_order() {
    let mut w = GitWrapper::new(strings(&["--show-toplevel", "rev-parse"]));
    expect_run(w.begin());
    let (c, o, _, _) = expect_done(w.on_vcs(exited(0, "/c/x\n", "")));
    assert_eq!((c, o.as_str()), (0, "/c/x\n"));
}

#[test]
fn reverse_phrase_may_sit_among_other_arguments() {
    let mut w = GitWrapper::new(strings(&["-C", "x", "rev-parse", "--show-toplevel"]));
    expect_run(w.begin());
    let p = expect_to_windows(w.on_vcs(exited(0, "/d/r\n", "e")));
    assert_eq!(p, "/d/r\n");
    let a = w.on_windows_path(not_started("missing"));
    let (c, o, e, log) = expect_done(a);
    assert_eq!((c, o.as_str(), e.as_str()), (0, "/d/r\n", "e"));
    assert_eq!(log.as_deref(), Some("Error:convert_path_from_unix_to_windows=missing"));
}

#[test]
fn reverse_with_empty_helper_output_normalises_the_original() {
    let mut w = GitWrapper::new(strings(&["rev-parse", "--show-toplevel"]));
    expect_run(w.begin());
    expect_to_windows(w.on_vcs(exited(0, "C:\\r/x", "")));
    let (_, o, _, _) = expect_done(w.on_windows_path(exited(0, "", "")));
    assert_eq!(o, "c:/r/x");
}

#[test]
fn no_arguments_run_directly() {
    let mut w = GitWrapper::new(Vec::new());
    assert!(expect_run(w.begin()).is_empty());
}

#[test]
fn timestamp_is_zero_padded() {
    let t = Timestamp { year: 2024, month: 3, day: 5, hour: 7, minute: 8, second: 9 };
    assert_eq!(format_timestamp(&t), "2024-03-05 07:08:09");
    let t = Timestamp { year: 1999, month: 12, day: 31, hour: 23, minute: 59, second: 59 };
    assert_eq!(format_timestamp(&t), "1999-12-31 23:59:59");
}

#[test]
fn timestamp_years_outside_four_digits() {
    let t = Timestamp { year: 12345, month: 1, day: 1, hour: 0, minute: 0, second: 0 };
    assert_eq!(format_timestamp(&t), "+12345-01-01 00:00:00");
    let t = Timestamp { year: -5, month: 1, day: 1, hour: 0, minute: 0, second: 0 };
    assert_eq!(format_timestamp(&t), "-0005-01-01 00:00:00");
    let t = Timestamp { year: 7, month: 1, day: 1, hour: 0, minute: 0, second: 0 };
    assert_eq!(format_timestamp(&t), "0007-01-01 00:00:00");
}

#[test]
fn log_line_layout() {
    let t = Timestamp { year: 2021, month: 6, day: 30, hour: 12, minute: 1, second: 2 };
    assert_eq!(format_log_line(&t, "Error:call_git=x"), "[2021-06-30 12:01:02]:Error:call_git=x\r\n");
}

#[test]
fn log_line_now_has_the_layout() {
    let line = log_line_now("m");
    let chars: Vec<char> = line.chars().collect();
    assert!(line.starts_with('['));
    assert!(line.ends_with("]:m\r\n"));
    assert_eq!(chars[5], '-');
    assert_eq!(chars[8], '-');
    assert_eq!(chars[11], ' ');
    assert_eq!(chars[14], ':');
    assert_eq!(chars[17], ':');
}
