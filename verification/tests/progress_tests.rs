use builder_monitor::progress::{
    contains_substr, is_completion_line, translate, BuilderProgress, LineRead,
};

#[test]
fn marker_line_yields_running_then_done() {
    let (events, keep_going) = translate(LineRead::Line("build done successfully".to_string()));
    assert_eq!(
        events,
        vec![
            BuilderProgress::Running("build done successfully".to_string()),
            BuilderProgress::Done,
        ]
    );
    assert!(!keep_going);
}

#[test]
fn plain_line_yields_running_and_continues() {
    let (events, keep_going) = translate(LineRead::Line("searching builds".to_string()));
    assert_eq!(
        events,
        vec![BuilderProgress::Running("searching builds".to_string())]
    );
    assert!(keep_going);
}

#[test]
fn end_of_stream_yields_single_terminal_error() {
    let (events, keep_going) = translate(LineRead::EndOfStream);
    assert_eq!(
        events,
        vec![BuilderProgress::Error(
            "Failed to read stdout: reached end of stream".to_string()
        )]
    );
    assert!(!keep_going);
}

#[test]
fn read_failure_yields_single_terminal_error() {
    let (events, keep_going) = translate(LineRead::ReadFailure);
    assert_eq!(
        events,
        vec![BuilderProgress::Error("Failed to read stdout".to_string())]
    );
    assert!(!keep_going);
}

#[test]
fn marker_is_a_case_sensitive_substring_match() {
    assert!(is_completion_line("done"));
    assert!(is_completion_line("build done successfully"));
    assert!(is_completion_line("undone"));
    assert!(!is_completion_line("Done"));
    assert!(!is_completion_line("don e"));
    assert!(!is_completion_line(""));
}

#[test]
fn substring_search_edge_cases() {
    assert!(contains_substr("abc", ""));
    assert!(contains_substr("", ""));
    assert!(!contains_substr("", "a"));
    assert!(contains_substr("aaab", "aab"));
    assert!(!contains_substr("aab", "aaab"));
    assert!(contains_substr("xyz", "xyz"));
}
