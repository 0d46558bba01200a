//! The runtime version probe: finding a version number in the free-form text
//! that a runtime prints about itself.

use vstd::prelude::*;
use vstd::utf8::{decode_utf8, valid_utf8};
use crate::text::{
    chars_of, decimal, decimal_value, is_digit, is_digit_char, is_number, lemma_decimal_denotes,
    push_range,
};

verus! {

/// A version number: major, minor and patch.
#[derive(Clone, Copy, Debug, PartialEq, Eq, Structural)]
pub struct Version {
    pub major: u64,
    pub minor: u64,
    pub patch: u64,
}

/// Why no version could be read from a runtime's output.
#[derive(Clone, Copy, Debug, PartialEq, Eq, Structural)]
pub enum ParseError {
    /// The output is not UTF-8 text.
    InvalidUtf8,
    /// The text holds no decimal digit at all.
    NoVersion,
    /// A component of the version does not fit in 64 bits.
    TooLarge,
}

/// `semver::Error`, the error of `semver::Version::parse`. Nothing is
/// claimed of what it holds.
#[verifier::external_type_specification]
#[verifier::external_body]
pub struct ExSemverError(semver::Error);

/// `std::string::FromUtf8Error`, the error of `String::from_utf8`. Nothing
/// is claimed of what it holds.
#[verifier::external_type_specification]
#[verifier::external_body]
pub struct ExFromUtf8Error(std::string::FromUtf8Error);

/// `String::from_utf8` succeeds exactly on valid UTF-8, and the string it
/// returns holds the characters that the bytes encode.
pub assume_specification[ String::from_utf8 ](vec: Vec<u8>) -> (r: Result<
    String,
    std::string::FromUtf8Error,
>)
    ensures
        r is Ok <==> valid_utf8(vec@),
        r matches Ok(s) ==> s@ == decode_utf8(vec@),
;

/// Whether a strict parser takes the digit run `s` as one component of a
/// version: no leading zero, and a value that fits in 64 bits.
pub open spec fn is_component(s: Seq<char>) -> bool {
    &&& is_number(s)
    &&& s.len() > 1 ==> s[0] != '0'
    &&& decimal_value(s) <= u64::MAX
}

/// Whether each of the three digit runs is a component.
pub open spec fn are_components(major: Seq<char>, minor: Seq<char>, patch: Seq<char>) -> bool {
    is_component(major) && is_component(minor) && is_component(patch)
}

/// The version whose numbers the three digit runs denote.
pub open spec fn version_of(major: Seq<char>, minor: Seq<char>, patch: Seq<char>) -> Version {
    Version {
        major: decimal_value(major) as u64,
        minor: decimal_value(minor) as u64,
        patch: decimal_value(patch) as u64,
    }
}

/// `major`, `minor` and `patch` joined by dots.
pub open spec fn dotted(major: Seq<char>, minor: Seq<char>, patch: Seq<char>) -> Seq<char> {
    major + seq!['.'] + minor + seq!['.'] + patch
}

/// Hands `major.minor.patch` to `semver::Version::parse`. For three digit runs
/// the parse succeeds exactly when none has a leading zero and each fits in
/// 64 bits, and the version it returns holds their values.
#[verifier::external_body]
fn semver_parse(major: &str, minor: &str, patch: &str) -> (r: Result<Version, semver::Error>)
    requires
        is_number(major@),
        is_number(minor@),
        is_number(patch@),
    ensures
        r is Ok <==> are_components(major@, minor@, patch@),
        r matches Ok(v) ==> v == version_of(major@, minor@, patch@),
{
    match semver::Version::parse(&format!("{major}.{minor}.{patch}")) {
        Ok(parsed) => Ok(
            Version { major: parsed.major, minor: parsed.minor, patch: parsed.patch },
        ),
        Err(error) => Err(error),
    }
}

/// Renders the version through `semver::Version`'s `Display`: the three
/// numbers in decimal, joined by dots.
#[verifier::external_body]
fn semver_display(version: &Version) -> (text: String)
    ensures
        text@ == dotted(
            decimal(version.major as nat),
            decimal(version.minor as nat),
            decimal(version.patch as nat),
        ),
{
    semver::Version::new(version.major, version.minor, version.patch).to_string()
}

/// Index of the first decimal digit of `text` at or after `from`; the length
/// of `text` where there is none.
pub open spec fn first_digit(text: Seq<char>, from: int) -> int
    decreases text.len() - from,
{
    if from < 0 || from >= text.len() {
        text.len() as int
    } else if is_digit(text[from]) {
        from
    } else {
        first_digit(text, from + 1)
    }
}

/// Index just behind the longest run of decimal digits that starts at `from`.
pub open spec fn run_end(text: Seq<char>, from: int) -> int
    decreases text.len() - from,
{
    if from < 0 || from >= text.len() || !is_digit(text[from]) {
        from
    } else {
        run_end(text, from + 1)
    }
}

/// Index just behind `.` and a non-empty digit run, where `text` holds them
/// at `from`.
pub open spec fn dot_run_end(text: Seq<char>, from: int) -> Option<int> {
    if 0 <= from < text.len() && text[from] == '.' && run_end(text, from + 1) > from + 1 {
        Some(run_end(text, from + 1))
    } else {
        None
    }
}

/// The digit runs that make up the version in `text`.
///
/// The version starts at the first decimal digit of the text. Its major
/// number is the longest digit run from there. Where `.`, a digit run, `.`
/// and another digit run follow at once, they give minor and patch;
/// otherwise both are `0`.
pub open spec fn version_runs(text: Seq<char>) -> Option<(Seq<char>, Seq<char>, Seq<char>)> {
    let start = first_digit(text, 0);
    if start >= text.len() {
        None
    } else {
        let major_end = run_end(text, start);
        let major = text.subrange(start, major_end);
        match dot_run_end(text, major_end) {
            Some(minor_end) => match dot_run_end(text, minor_end) {
                Some(patch_end) => Some(
                    (
                        major,
                        text.subrange(major_end + 1, minor_end),
                        text.subrange(minor_end + 1, patch_end),
                    ),
                ),
                None => Some((major, seq!['0'], seq!['0'])),
            },
            None => Some((major, seq!['0'], seq!['0'])),
        }
    }
}

/// The version that `text` states, or why it states none.
pub open spec fn parsed_version(text: Seq<char>) -> Result<Version, ParseError> {
    match version_runs(text) {
        None => Err(ParseError::NoVersion),
        Some((major, minor, patch)) => if decimal_value(major) <= u64::MAX && decimal_value(minor)
            <= u64::MAX && decimal_value(patch) <= u64::MAX {
            Ok(version_of(major, minor, patch))
        } else {
            Err(ParseError::TooLarge)
        },
    }
}

/// What the probe reports for the bytes that the runtime printed, `None`
/// standing for a runtime that could not be started.
pub open spec fn probed_version(output: Option<Seq<u8>>) -> Result<Option<Version>, ParseError> {
    match output {
        None => Ok(None),
        Some(bytes) => if !valid_utf8(bytes) {
            Err(ParseError::InvalidUtf8)
        } else {
            match parsed_version(decode_utf8(bytes)) {
                Ok(version) => Ok(Some(version)),
                Err(e) => Err(e),
            }
        },
    }
}

impl Version {
    /// The version `major.minor.patch`.
    pub fn new(major: u64, minor: u64, patch: u64) -> (version: Version)
        ensures
            version == (Version { major, minor, patch }),
    {
        Version { major, minor, patch }
    }

    /// The text of the version: its three numbers in decimal, joined by dots.
    pub open spec fn text(self) -> Seq<char> {
        dotted(decimal(self.major as nat), decimal(self.minor as nat), decimal(self.patch as nat))
    }

    /// Renders the version as `major.minor.patch`.
    pub fn to_text(&self) -> (text: String)
        ensures
            text@ == self.text(),
    {
        semver_display(self)
    }
}

/// A leading zero adds nothing to the value of a digit run.
pub proof fn lemma_leading_zero(s: Seq<char>)
    ensures
        decimal_value(seq!['0'] + s) == decimal_value(s),
    decreases s.len(),
{
    let t = seq!['0'] + s;
    if s.len() == 0 {
        assert(t.drop_last() =~= Seq::<char>::empty());
        assert(decimal_value(t.drop_last()) == 0);
    } else {
        lemma_leading_zero(s.drop_last());
        assert(t.drop_last() =~= seq!['0'] + s.drop_last());
        assert(t.last() == s.last());
    }
}

/// The value of a digit run does not change when leading zeros are dropped.
pub proof fn lemma_skip_zeros(s: Seq<char>, k: int)
    requires
        0 <= k <= s.len(),
        forall|i: int| 0 <= i < k ==> s[i] == '0',
    ensures
        decimal_value(s.subrange(k, s.len() as int)) == decimal_value(s),
    decreases k,
{
    if k == 0 {
        assert(s.subrange(0, s.len() as int) =~= s);
    } else {
        lemma_skip_zeros(s, k - 1);
        let tail = s.subrange(k, s.len() as int);
        assert(s.subrange(k - 1, s.len() as int) =~= seq!['0'] + tail);
        lemma_leading_zero(tail);
    }
}

/// Index just behind the longest run of decimal digits that starts at `from`.
fn scan_run(text: &Vec<char>, from: usize) -> (end: usize)
    requires
        from <= text.len(),
    ensures
        end == run_end(text@, from as int),
        from <= end <= text.len(),
        from < text.len() && is_digit(text@[from as int]) ==> from < end,
        forall|i: int| from <= i < end ==> is_digit(text@[i]),
{
    let mut i: usize = from;
    while i < text.len() && is_digit_char(text[i])
        invariant
            from <= i <= text.len(),
            run_end(text@, from as int) == run_end(text@, i as int),
            forall|k: int| from <= k < i ==> is_digit(text@[k]),
        decreases text.len() - i,
    {
        i += 1;
    }
    i
}

/// Index just behind `.` and a non-empty digit run at `from`, if they stand
/// there.
fn scan_dot_run(text: &Vec<char>, from: usize) -> (end: Option<usize>)
    requires
        from <= text.len(),
    ensures
        match end {
            Some(e) => dot_run_end(text@, from as int) == Some(e as int) && from + 1 < e
                <= text.len() && forall|i: int| from < i < e ==> is_digit(text@[i]),
            None => dot_run_end(text@, from as int) is None,
        },
{
    if from < text.len() && text[from] == '.' {
        let e: usize = scan_run(text, from + 1);
        if e > from + 1 {
            Some(e)
        } else {
            None
        }
    } else {
        None
    }
}

/// The digit run `text[from..to]` without its leading zeros, as a string.
fn component_text(text: &Vec<char>, from: usize, to: usize) -> (s: String)
    requires
        from < to <= text.len(),
        forall|i: int| from <= i < to ==> is_digit(text@[i]),
    ensures
        is_number(s@),
        s@.len() > 1 ==> s@[0] != '0',
        decimal_value(s@) == decimal_value(text@.subrange(from as int, to as int)),
{
    let mut k: usize = from;
    while k + 1 < to && text[k] == '0'
        invariant
            from <= k < to <= text.len(),
            forall|i: int| from <= i < k ==> text@[i] == '0',
        decreases to - k,
    {
        k += 1;
    }
    let mut s = String::new();
    push_range(&mut s, text, k, to);
    proof {
        let run = text@.subrange(from as int, to as int);
        assert(s@ =~= text@.subrange(k as int, to as int));
        assert(s@ =~= run.subrange(k - from, run.len() as int));
        lemma_skip_zeros(run, k - from);
    }
    s
}

/// Reads the version that a runtime states in `stderr`.
///
/// The version is taken from the first decimal digit of the text on: the
/// longest digit run there is the major number, and minor and patch follow it
/// as `.digits.digits` or are both zero. No digit at all is an error, and so
/// is a number too large for 64 bits.
pub fn parse_java_version(stderr: &str) -> (r: Result<Version, ParseError>)
    ensures
        r == parsed_version(stderr@),
{
    let text = chars_of(stderr);
    let mut start: usize = 0;
    while start < text.len() && !is_digit_char(text[start])
        invariant
            start <= text.len(),
            first_digit(text@, 0) == first_digit(text@, start as int),
        decreases text.len() - start,
    {
        start += 1;
    }
    if start >= text.len() {
        return Err(ParseError::NoVersion);
    }
    let major_end: usize = scan_run(&text, start);
    let major = component_text(&text, start, major_end);
    let mut minor = String::new();
    minor.push('0');
    let mut patch = String::new();
    patch.push('0');
    proof {
        assert(minor@ =~= seq!['0']);
        assert(patch@ =~= seq!['0']);
    }
    if let Some(minor_end) = scan_dot_run(&text, major_end) {
        if let Some(patch_end) = scan_dot_run(&text, minor_end) {
            minor = component_text(&text, major_end + 1, minor_end);
            patch = component_text(&text, minor_end + 1, patch_end);
        }
    }
    proof {
        assert(seq!['0'].len() == 1);
    }
    match semver_parse(major.as_str(), minor.as_str(), patch.as_str()) {
        Ok(version) => Ok(version),
        Err(_) => Err(ParseError::TooLarge),
    }
}

/// Reads the runtime's version from what its version query printed.
///
/// `output` is the captured diagnostic stream, `None` where the runtime could
/// not be started: that is no error, and gives `Ok(None)`. Output that is not
/// UTF-8, or that states no version, is an error.
pub fn try_find_java_version(output: Option<Vec<u8>>) -> (r: Result<Option<Version>, ParseError>)
    ensures
        r == probed_version(
            match output {
                Some(bytes) => Some(bytes@),
                None => None,
            },
        ),
{
    match output {
        None => Ok(None),
        Some(bytes) => match String::from_utf8(bytes) {
            Err(_) => Err(ParseError::InvalidUtf8),
            Ok(stderr) => match parse_java_version(stderr.as_str()) {
                Ok(version) => Ok(Some(version)),
                Err(e) => Err(e),
            },
        },
    }
}

/// Where `at` is the first index from `from` on that holds a digit, or the
/// length of `text` where none does, `first_digit` finds it.
pub proof fn lemma_first_digit_is(text: Seq<char>, from: int, at: int)
    requires
        0 <= from <= at <= text.len(),
        forall|i: int| from <= i < at ==> !is_digit(text[i]),
        at < text.len() ==> is_digit(text[at]),
    ensures
        first_digit(text, from) == at,
    decreases at - from,
{
    if from < at {
        lemma_first_digit_is(text, from + 1, at);
    }
}

/// Where the digits from `from` on reach exactly to `end`, `run_end` finds
/// it.
pub proof fn lemma_run_end_is(text: Seq<char>, from: int, end: int)
    requires
        0 <= from <= end <= text.len(),
        forall|i: int| from <= i < end ==> is_digit(text[i]),
        end < text.len() ==> !is_digit(text[end]),
    ensures
        run_end(text, from) == end,
    decreases end - from,
{
    if from < end {
        lemma_run_end_is(text, from + 1, end);
    }
}

/// A text without a decimal digit states no version, and only such a text
/// is refused for stating none.
pub proof fn lemma_no_digit_no_version(text: Seq<char>)
    ensures
        (forall|i: int| 0 <= i < text.len() ==> !is_digit(text[i])) <==> parsed_version(text) == Err::<
            Version,
            ParseError,
        >(ParseError::NoVersion),
{
    if forall|i: int| 0 <= i < text.len() ==> !is_digit(text[i]) {
        lemma_first_digit_is(text, 0, text.len() as int);
    } else {
        let i = choose|i: int| 0 <= i < text.len() && is_digit(text[i]);
        lemma_first_digit_finds(text, 0, i);
    }
}

/// A digit at `at` keeps `first_digit` from passing it.
pub proof fn lemma_first_digit_finds(text: Seq<char>, from: int, at: int)
    requires
        0 <= from <= at < text.len(),
        is_digit(text[at]),
    ensures
        from <= first_digit(text, from) <= at,
    decreases at - from,
{
    if from < at && !is_digit(text[from]) {
        lemma_first_digit_finds(text, from + 1, at);
    }
}

/// Where the first digits of a text are `major.minor.patch`, three runs of
/// digits that fit in 64 bits each, with no digit before the first run and
/// none right behind the last, the text states exactly that version.
pub proof fn lemma_reads_full_version(
    before: Seq<char>,
    major: Seq<char>,
    minor: Seq<char>,
    patch: Seq<char>,
    after: Seq<char>,
)
    requires
        forall|i: int| 0 <= i < before.len() ==> !is_digit(before[i]),
        is_number(major),
        is_number(minor),
        is_number(patch),
        after.len() > 0 ==> !is_digit(after[0]),
        decimal_value(major) <= u64::MAX,
        decimal_value(minor) <= u64::MAX,
        decimal_value(patch) <= u64::MAX,
    ensures
        parsed_version(before + dotted(major, minor, patch) + after) == Ok::<Version, ParseError>(
            version_of(major, minor, patch),
        ),
{
    let text = before + dotted(major, minor, patch) + after;
    let a = before.len() as int;
    let b = a + major.len();
    let c = b + 1 + minor.len();
    let d = c + 1 + patch.len();
    assert(text.len() == d + after.len());
    assert forall|i: int| 0 <= i < a implies !is_digit(text[i]) by {
        assert(text[i] == before[i]);
    }
    assert forall|i: int| a <= i < b implies is_digit(text[i]) by {
        assert(text[i] == major[i - a]);
    }
    assert(text[b] == '.');
    assert forall|i: int| b + 1 <= i < c implies is_digit(text[i]) by {
        assert(text[i] == minor[i - b - 1]);
    }
    assert(text[c] == '.');
    assert forall|i: int| c + 1 <= i < d implies is_digit(text[i]) by {
        assert(text[i] == patch[i - c - 1]);
    }
    if d < text.len() {
        assert(text[d] == after[0]);
    }
    lemma_first_digit_is(text, 0, a);
    lemma_run_end_is(text, a, b);
    lemma_run_end_is(text, b + 1, c);
    lemma_run_end_is(text, c + 1, d);
    assert(text.subrange(a, b) =~= major);
    assert(text.subrange(b + 1, c) =~= minor);
    assert(text.subrange(c + 1, d) =~= patch);
    assert(dot_run_end(text, b) == Some(c));
    assert(dot_run_end(text, c) == Some(d));
    assert(version_runs(text) == Some((major, minor, patch)));
}

/// Where the first digits of a text are one run that fits in 64 bits, with
/// neither a digit nor a dot right behind it, the text states that major
/// version, with minor and patch zero.
pub proof fn lemma_reads_major_alone(before: Seq<char>, major: Seq<char>, after: Seq<char>)
    requires
        forall|i: int| 0 <= i < before.len() ==> !is_digit(before[i]),
        is_number(major),
        after.len() > 0 ==> !is_digit(after[0]) && after[0] != '.',
        decimal_value(major) <= u64::MAX,
    ensures
        parsed_version(before + major + after) == Ok::<Version, ParseError>(
            Version { major: decimal_value(major) as u64, minor: 0, patch: 0 },
        ),
{
    let text = before + major + after;
    let a = before.len() as int;
    let b = a + major.len();
    assert forall|i: int| 0 <= i < a implies !is_digit(text[i]) by {
        assert(text[i] == before[i]);
    }
    assert forall|i: int| a <= i < b implies is_digit(text[i]) by {
        assert(text[i] == major[i - a]);
    }
    if b < text.len() {
        assert(text[b] == after[0]);
    }
    lemma_first_digit_is(text, 0, a);
    lemma_run_end_is(text, a, b);
    assert(text.subrange(a, b) =~= major);
    assert(dot_run_end(text, b) is None);
    assert(version_runs(text) == Some((major, seq!['0'], seq!['0'])));
    assert(decimal_value(seq!['0']) == 0) by {
        reveal_with_fuel(decimal_value, 2);
        assert(seq!['0'].drop_last() =~= Seq::<char>::empty());
    }
}

/// The text of a version states that version: what is rendered can be read
/// back.
pub proof fn lemma_version_text_reads_back(version: Version)
    ensures
        parsed_version(version.text()) == Ok::<Version, ParseError>(version),
{
    let major = decimal(version.major as nat);
    let minor = decimal(version.minor as nat);
    let patch = decimal(version.patch as nat);
    lemma_decimal_denotes(version.major as nat);
    lemma_decimal_denotes(version.minor as nat);
    lemma_decimal_denotes(version.patch as nat);
    lemma_reads_full_version(Seq::empty(), major, minor, patch, Seq::empty());
    assert(Seq::<char>::empty() + dotted(major, minor, patch) + Seq::<char>::empty()
        =~= version.text());
}

} // verus!
