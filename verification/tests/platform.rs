use zju_connect_gui::backend::platform::windows_impl::{escape_arg, relaunch_parameters, to_wide_str};
use zju_connect_gui::backend::platform::{unix_impl, ElevationError, WaitError};

#[test]
fn escape_arg_empty_is_empty_quoted() {
    assert_eq!(escape_arg(""), "\"\"");
}

#[test]
fn escape_arg_simple_passes_through() {
    assert_eq!(escape_arg("hello"), "hello");
    assert_eq!(escape_arg("a/b/c"), "a/b/c");
}

#[test]
fn escape_arg_with_space_quoted() {
    assert_eq!(escape_arg("hello world"), "\"hello world\"");
}

#[test]
fn escape_arg_internal_quote_escaped() {
    assert_eq!(escape_arg("he said \"hi\""), "\"he said \\\"hi\\\"\"");
}

#[test]
fn escape_arg_trailing_backslash_doubled() {
    assert_eq!(escape_arg("path\\"), "\"path\\\\\"");
}

#[test]
fn escape_arg_backslash_before_quote_doubled() {
    assert_eq!(escape_arg("a\\\"b"), "\"a\\\\\\\"b\"");
}

#[test]
fn relaunch_parameters_join_escaped_args() {
    let args = vec!["--resume-pending-connect".to_string(), "a b".to_string()];
    assert_eq!(relaunch_parameters(&args), "--resume-pending-connect \"a b\"");
}

#[test]
fn wide_strings_are_nul_terminated_utf16() {
    assert_eq!(to_wide_str("ab"), vec![97u16, 98, 0]);
    assert_eq!(to_wide_str("\u{1F600}"), vec![0xD83D, 0xDE00, 0]);
}

#[test]
fn unix_passes_arguments_unchanged_and_never_elevates() {
    assert_eq!(unix_impl::escape_arg("a b\"c"), "a b\"c");
    assert!(unix_impl::is_process_elevated());
    assert!(matches!(
        unix_impl::relaunch_self_elevated(&vec!["x".to_string()]),
        Err(ElevationError::Unsupported)
    ));
}

#[test]
fn platform_error_messages() {
    assert_eq!(
        ElevationError::Unsupported.message(),
        "elevation is not supported on this platform"
    );
    assert_eq!(
        ElevationError::Failed("boom".into()).message(),
        "elevation failed: boom"
    );
    assert_eq!(WaitError::Timeout.message(), "timed out waiting for process exit");
    let io = WaitError::Io(std::io::Error::other("gone"));
    assert_eq!(io.message(), "io error during wait: gone");
}

/// The C runtime's splitting of a parameter string, written out for the test.
fn split_like_c_runtime(t: &str) -> Vec<String> {
    let chars: Vec<char> = t.chars().collect();
    let mut args = Vec::new();
    let mut cur = String::new();
    let mut started = false;
    let mut in_quotes = false;
    let mut bs = 0usize;
    let mut i = 0usize;
    while i < chars.len() {
        let c = chars[i];
        if c == '\\' {
            bs += 1;
            started = true;
        } else if c == '"' {
            cur.push_str(&"\\".repeat(bs / 2));
            if bs % 2 == 1 {
                cur.push('"');
            } else if in_quotes && i + 1 < chars.len() && chars[i + 1] == '"' {
                cur.push('"');
                i += 1;
            } else {
                in_quotes = !in_quotes;
            }
            bs = 0;
            started = true;
        } else if !in_quotes && (c == ' ' || c == '\t') {
            if started {
                cur.push_str(&"\\".repeat(bs));
                args.push(std::mem::take(&mut cur));
            }
            bs = 0;
            started = false;
        } else {
            cur.push_str(&"\\".repeat(bs));
            bs = 0;
            cur.push(c);
            started = true;
        }
        i += 1;
    }
    if started {
        cur.push_str(&"\\".repeat(bs));
        args.push(cur);
    }
    args
}

#[test]
fn relaunch_parameters_read_back_as_the_same_arguments() {
    let args = vec![
        "--resume-pending-connect".to_string(),
        String::new(),
        "a b".to_string(),
        "say \"hi\"".to_string(),
        "C:\\dir with space\\".to_string(),
        "a\\\"b".to_string(),
        "tab\there".to_string(),
        "\\\\server\\share".to_string(),
    ];
    let line = relaunch_parameters(&args);
    assert_eq!(split_like_c_runtime(&line), args);
}
