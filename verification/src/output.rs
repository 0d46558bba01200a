//! What the proxy prints: each line is freed of the white space around it
//! and of its colour codes, given a severity, and searched for the sign that
//! the proxy is ready.

use vstd::prelude::*;
use crate::text::{chars_of, contains, contains_text, is_digit, string_of};

verus! {

/// How a line of the proxy's output is to be logged.
#[derive(Clone, Copy, Debug, PartialEq, Eq, Structural)]
pub enum Severity {
    Warn,
    Trace,
}

/// A line of the proxy's output, read.
#[derive(Clone, Debug, PartialEq, Eq)]
pub struct LineReport {
    /// The line without the white space around it and without its colour
    /// codes.
    pub text: String,
    /// The severity to log it at.
    pub severity: Severity,
    /// Whether the line says that the proxy is ready.
    pub ready: bool,
}

/// Whether `c` is white space, as `char::is_whitespace` tells it.
pub uninterp spec fn white_space(c: char) -> bool;

/// `char::is_whitespace` tells whether the character is white space.
pub assume_specification[ char::is_whitespace ](c: char) -> (b: bool)
    ensures
        b == white_space(c),
;

/// Index of the first character of `s` at or after `from` that is no white
/// space; the length of `s` where there is none.
pub open spec fn content_start(s: Seq<char>, from: int) -> int
    decreases s.len() - from,
{
    if from < 0 || from >= s.len() {
        s.len() as int
    } else if !white_space(s[from]) {
        from
    } else {
        content_start(s, from + 1)
    }
}

/// Index just behind the last of the first `to` characters of `s` that is no
/// white space; 0 where there is none.
pub open spec fn content_end(s: Seq<char>, to: int) -> int
    decreases to,
{
    if to <= 0 || to > s.len() {
        0
    } else if !white_space(s[to - 1]) {
        to
    } else {
        content_end(s, to - 1)
    }
}

/// `s` without the white space at its beginning and at its end.
pub open spec fn trimmed(s: Seq<char>) -> Seq<char> {
    let start = content_start(s, 0);
    let end = content_end(s, s.len() as int);
    if start < end {
        s.subrange(start, end)
    } else {
        Seq::empty()
    }
}

/// The character that begins a colour code.
pub const ESCAPE: char = '\x1b';

/// A character of a colour code's parameters: a digit or a semicolon.
pub open spec fn is_parameter(c: char) -> bool {
    is_digit(c) || c == ';'
}

/// The number of parameter characters that stand in `s` from `from` on.
pub open spec fn parameters_len(s: Seq<char>, from: int) -> nat
    decreases s.len() - from,
{
    if from < 0 || from >= s.len() || !is_parameter(s[from]) {
        0
    } else {
        1 + parameters_len(s, from + 1)
    }
}

/// The length of the colour code that begins at `at`, or 0 where none does.
/// A colour code is the escape character, `[`, any number of parameter
/// characters, and `m`.
pub open spec fn colour_code_len(s: Seq<char>, at: int) -> nat {
    let end = at + 2 + parameters_len(s, at + 2);
    if 0 <= at && at + 1 < s.len() && s[at] == ESCAPE && s[at + 1] == '[' && end < s.len() && s[end]
        == 'm' {
        3 + parameters_len(s, at + 2)
    } else {
        0
    }
}

/// `s` from `from` on, without its colour codes.
pub open spec fn stripped_from(s: Seq<char>, from: int) -> Seq<char>
    decreases s.len() - from,
{
    if from < 0 || from >= s.len() {
        Seq::empty()
    } else if colour_code_len(s, from) > 0 {
        stripped_from(s, from + colour_code_len(s, from))
    } else {
        seq![s[from]] + stripped_from(s, from + 1)
    }
}

/// `s` without its colour codes.
pub open spec fn stripped(s: Seq<char>) -> Seq<char> {
    stripped_from(s, 0)
}

/// The mark of a warning in a line of the proxy.
pub open spec fn warn_marker() -> Seq<char> {
    "/WARN]"@
}

/// The words with which the proxy says that it is ready.
pub open spec fn ready_marker() -> Seq<char> {
    "Finished mapping loading"@
}

/// What is left of a line for the log: the line without the white space
/// around it, and then without its colour codes.
pub open spec fn cleaned(line: Seq<char>) -> Seq<char> {
    stripped(trimmed(line))
}

/// What reading `line` gives: its text cleaned, a warning where that text
/// holds the mark of one, and readiness where it holds the words for it.
pub open spec fn reads_as(line: Seq<char>, report: LineReport) -> bool {
    &&& report.text@ == cleaned(line)
    &&& report.severity == if contains_text(cleaned(line), warn_marker()) {
        Severity::Warn
    } else {
        Severity::Trace
    }
    &&& report.ready == contains_text(cleaned(line), ready_marker())
}

/// `line` without the white space at its beginning and at its end.
pub fn trim(line: &Vec<char>) -> (inner: Vec<char>)
    ensures
        inner@ == trimmed(line@),
{
    let mut start: usize = 0;
    while start < line.len() && line[start].is_whitespace()
        invariant
            start <= line.len(),
            content_start(line@, 0) == content_start(line@, start as int),
        decreases line.len() - start,
    {
        start += 1;
    }
    let mut end: usize = line.len();
    while end > 0 && line[end - 1].is_whitespace()
        invariant
            end <= line.len(),
            content_end(line@, line.len() as int) == content_end(line@, end as int),
        decreases end,
    {
        end -= 1;
    }
    let mut inner: Vec<char> = Vec::new();
    let mut i: usize = start;
    while i < end
        invariant
            start <= i,
            end <= line.len(),
            start < end ==> i <= end,
            start < end ==> inner@ == line@.subrange(start as int, i as int),
            start >= end ==> inner@ == Seq::<char>::empty(),
        decreases end - i,
    {
        inner.push(line[i]);
        i += 1;
    }
    inner
}

/// The length of the colour code that begins at `at`, or 0.
fn scan_colour_code(s: &Vec<char>, at: usize) -> (len: usize)
    requires
        at < s.len(),
    ensures
        len == colour_code_len(s@, at as int),
        at + len <= s.len(),
{
    if s[at] != ESCAPE || s.len() - at < 2 || s[at + 1] != '[' {
        return 0;
    }
    let mut end: usize = at + 2;
    while end < s.len() && (('0' <= s[end] && s[end] <= '9') || s[end] == ';')
        invariant
            at + 2 <= end <= s.len(),
            parameters_len(s@, at + 2) == (end - at - 2) + parameters_len(s@, end as int),
        decreases s.len() - end,
    {
        end += 1;
    }
    if end < s.len() && s[end] == 'm' {
        end + 1 - at
    } else {
        0
    }
}

/// `line` without its colour codes.
pub fn strip_colour_codes(line: &Vec<char>) -> (clean: Vec<char>)
    ensures
        clean@ == stripped(line@),
{
    let mut clean: Vec<char> = Vec::new();
    let mut i: usize = 0;
    while i < line.len()
        invariant
            i <= line.len(),
            clean@ + stripped_from(line@, i as int) == stripped(line@),
        decreases line.len() - i,
    {
        let len: usize = scan_colour_code(line, i);
        if len > 0 {
            i += len;
        } else {
            assert(clean@.push(line@[i as int]) + stripped_from(line@, i + 1) =~= clean@
                + stripped_from(line@, i as int));
            clean.push(line[i]);
            i += 1;
        }
    }
    assert(clean@ + Seq::<char>::empty() =~= clean@);
    clean
}

/// Reads one line of the proxy's output: removes the white space around it
/// and then the colour codes, and says whether the line is a warning and
/// whether it reports that the proxy is ready.
pub fn read_line(line: &str) -> (report: LineReport)
    ensures
        reads_as(line@, report),
{
    let raw = chars_of(line);
    let inner = trim(&raw);
    let clean = strip_colour_codes(&inner);
    let severity = if contains(&clean, "/WARN]") {
        Severity::Warn
    } else {
        Severity::Trace
    };
    let ready = contains(&clean, "Finished mapping loading");
    LineReport { text: string_of(&clean), severity, ready }
}

} // verus!
