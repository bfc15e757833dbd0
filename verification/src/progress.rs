//! Progress events produced while the builder runs, and the translation of
//! raw output lines into those events.

use vstd::prelude::*;

verus! {

/// One unit of progress observed from the builder process.
#[derive(Debug, Clone, PartialEq, Eq)]
pub enum BuilderProgress {
    /// One line of output, surfaced verbatim.
    Running(String),
    /// The completion marker was seen: the run succeeded.
    Done,
    /// The run ended abnormally; the payload is a human-readable message.
    Error(String),
    /// Placeholder for "nothing has happened": renders as an empty line.
    Inactive,
}

/// `pat` occurs in `s` starting at position `i`.
pub open spec fn match_at(s: Seq<char>, pat: Seq<char>, i: int) -> bool {
    &&& 0 <= i
    &&& i + pat.len() <= s.len()
    &&& forall|j: int| 0 <= j < pat.len() ==> s[i + j] == pat[j]
}

/// `pat` occurs somewhere in `s` as a contiguous substring.
pub open spec fn contains_seq(s: Seq<char>, pat: Seq<char>) -> bool {
    exists|i: int| match_at(s, pat, i)
}

/// Whether `pat` occurs in `s` starting exactly at position `i`.
fn match_at_exec(s: &str, pat: &str, i: usize, n: usize, m: usize) -> (r: bool)
    requires
        n == s@.len(),
        m == pat@.len(),
        i + m <= n,
    ensures
        r == match_at(s@, pat@, i as int),
{
    let mut j: usize = 0;
    while j < m
        invariant
            n == s@.len(),
            m == pat@.len(),
            i + m <= n,
            j <= m,
            forall|k: int| 0 <= k < j ==> s@[i + k] == pat@[k],
        decreases m - j,
    {
        if s.get_char(i + j) != pat.get_char(j) {
            assert(!match_at(s@, pat@, i as int));
            return false;
        }
        j += 1;
    }
    true
}

/// Substring search: does `s` contain `pat` anywhere (contiguously)?
///
/// An empty pattern is contained in every string.
pub fn contains_substr(s: &str, pat: &str) -> (r: bool)
    ensures
        r == contains_seq(s@, pat@),
{
    let n = s.unicode_len();
    let m = pat.unicode_len();
    if m > n {
        assert(forall|i: int| !match_at(s@, pat@, i));
        return false;
    }
    let mut i: usize = 0;
    while i <= n - m
        invariant
            n == s@.len(),
            m == pat@.len(),
            m <= n,
            i <= n - m + 1,
            forall|k: int| 0 <= k < i ==> !match_at(s@, pat@, k),
        decreases n - m + 1 - i,
    {
        if match_at_exec(s, pat, i, n, m) {
            assert(contains_seq(s@, pat@));
            return true;
        }
        i += 1;
    }
    assert(forall|k: int| match_at(s@, pat@, k) ==> 0 <= k <= n - m);
    false
}

/// A line of the builder's output contains the completion marker.
pub open spec fn line_completes(line: Seq<char>) -> bool {
    contains_seq(line, crate::completion_marker())
}

/// Whether this line signals completion of the builder's work.
pub fn is_completion_line(line: &str) -> (r: bool)
    ensures
        r == line_completes(line@),
{
    contains_substr(line, "done")
}

/// The outcome of one attempt to read a line from the builder's output.
#[derive(Debug, Clone, PartialEq, Eq)]
pub enum LineRead {
    /// A complete line of text became available.
    Line(String),
    /// The stream closed with no further line.
    EndOfStream,
    /// Reading from the pipe failed.
    ReadFailure,
}

/// Translate one read outcome into the progress events it yields, together
/// with whether line consumption continues afterwards.
///
/// A line carrying the completion marker is still surfaced verbatim as a
/// `Running` event before the synthetic terminal `Done`.
pub fn translate(read: LineRead) -> (out: (Vec<BuilderProgress>, bool))
    ensures
        (read matches LineRead::Line(line) ==> {
            if line_completes(line@) {
                &&& out.0@ =~= seq![
                    BuilderProgress::Running(line),
                    BuilderProgress::Done,
                ]
                &&& !out.1
            } else {
                &&& out.0@ =~= seq![BuilderProgress::Running(line)]
                &&& out.1
            }
        }),
        (read is EndOfStream ==> {
            &&& out.0@.len() == 1
            &&& (out.0@[0] matches BuilderProgress::Error(m)
                && m@ == "Failed to read stdout: reached end of stream"@)
            &&& !out.1
        }),
        (read is ReadFailure ==> {
            &&& out.0@.len() == 1
            &&& (out.0@[0] matches BuilderProgress::Error(m)
                && m@ == "Failed to read stdout"@)
            &&& !out.1
        }),
{
    let mut events: Vec<BuilderProgress> = Vec::new();
    match read {
        LineRead::Line(line) => {
            if is_completion_line(line.as_str()) {
                events.push(BuilderProgress::Running(line));
                events.push(BuilderProgress::Done);
                (events, false)
            } else {
                events.push(BuilderProgress::Running(line));
                (events, true)
            }
        }
        LineRead::EndOfStream => {
            events.push(BuilderProgress::Error(
                "Failed to read stdout: reached end of stream".to_owned(),
            ));
            (events, false)
        }
        LineRead::ReadFailure => {
            events.push(BuilderProgress::Error("Failed to read stdout".to_owned()));
            (events, false)
        }
    }
}

} // verus!
