//! Deciding, from what `pandoc --version` printed, whether the converter has
//! the citation engine built in.

use vstd::prelude::*;

verus! {

/// Whether `c` is a white space character in Unicode's sense, as
/// `char::is_whitespace` has it.
pub open spec fn is_space(c: char) -> bool {
    let u = c as u32;
    (0x9 <= u && u <= 0xD) || u == 0x20 || u == 0x85 || u == 0xA0 || u == 0x1680 || (0x2000 <= u
        && u <= 0x200A) || u == 0x2028 || u == 0x2029 || u == 0x202F || u == 0x205F || u == 0x3000
}

/// The first index from `i` on whose character is not of the given kind
/// (white space when `space`, else anything else), or the end.
pub open spec fn skip_run(s: Seq<char>, i: nat, space: bool) -> nat
    decreases s.len() - i,
{
    if i < s.len() && is_space(s[i as int]) == space {
        skip_run(s, i + 1, space)
    } else {
        i
    }
}

/// The second of the white-space separated words of `s`, if it has two.
pub open spec fn second_word(s: Seq<char>) -> Option<Seq<char>> {
    let first_start = skip_run(s, 0, true);
    let first_end = skip_run(s, first_start, false);
    let start = skip_run(s, first_end, true);
    let end = skip_run(s, start, false);
    if start < s.len() {
        Some(s.subrange(start as int, end as int))
    } else {
        None
    }
}

/// The index of the first line feed at or after `i`, or the end.
pub open spec fn line_end(s: Seq<char>, i: nat) -> nat
    decreases s.len() - i,
{
    if i < s.len() && s[i as int] != '\n' {
        line_end(s, i + 1)
    } else {
        i
    }
}

/// The first line of `s`, without its line feed; none for an empty text.
pub open spec fn first_line(s: Seq<char>) -> Option<Seq<char>> {
    if s.len() == 0 {
        None
    } else {
        Some(s.subrange(0, line_end(s, 0) as int))
    }
}

/// The version number in a version banner: the second word of its first line
/// (`pandoc 3.1.9` gives `3.1.9`).
pub open spec fn banner_version(out: Seq<char>) -> Option<Seq<char>> {
    match first_line(out) {
        Some(line) => second_word(line),
        None => None,
    }
}

/// What `version_compare::compare_to(a, b, Cmp::Ge)` gives: none where either
/// text does not parse as a version, else whether `a` is at least `b`.
pub uninterp spec fn version_at_least(a: Seq<char>, b: Seq<char>) -> Option<bool>;

/// Relies on `version_compare::compare_to` with `Cmp::Ge`, which parses both
/// texts, fails where either is no version, and else compares them part by part.
#[verifier::external_body]
fn compare_at_least(a: &str, b: &str) -> (r: Option<bool>)
    ensures
        r == version_at_least(a@, b@),
{
    version_compare::compare_to(a, b, version_compare::Cmp::Ge).ok()
}

/// The oldest converter version with the citation engine built in.
pub open spec fn builtin_threshold() -> Seq<char> {
    "2.11.0"@
}

/// Why the converter's version could not be settled.
#[derive(Clone, Debug, PartialEq, Eq)]
pub enum ProbeError {
    /// The version query exited with failure; holds what it wrote to its error stream.
    QueryFailed(String),
    /// The version query printed nothing.
    NoVersionLine,
    /// The first line has no second word; holds all that was printed.
    NoVersionNumber(String),
    /// The second word is no version; holds that word.
    UnparsableVersion(String),
}

/// What the probe decides for a query that exited with `success` and printed
/// `out`: whether the built-in engine is there, or none where no decision can
/// be had.
pub open spec fn builtin_selected(success: bool, out: Seq<char>) -> Option<bool> {
    if !success {
        None
    } else {
        match banner_version(out) {
            Some(v) => version_at_least(v, builtin_threshold()),
            None => None,
        }
    }
}

/// Whether `c` is a white space character.
pub fn is_space_char(c: char) -> (r: bool)
    ensures
        r == is_space(c),
{
    let u = c as u32;
    (0x9 <= u && u <= 0xD) || u == 0x20 || u == 0x85 || u == 0xA0 || u == 0x1680 || (0x2000 <= u
        && u <= 0x200A) || u == 0x2028 || u == 0x2029 || u == 0x202F || u == 0x205F || u == 0x3000
}

fn skip(s: &str, n: usize, i: usize, space: bool) -> (r: usize)
    requires
        n == s@.len(),
        i <= n,
    ensures
        r == skip_run(s@, i as nat, space),
        i <= r <= n,
{
    let mut k: usize = i;
    while k < n && is_space_char(s.get_char(k)) == space
        invariant
            n == s@.len(),
            i <= k <= n,
            skip_run(s@, i as nat, space) == skip_run(s@, k as nat, space),
        decreases n - k,
    {
        k = k + 1;
    }
    k
}

fn find_line_end(s: &str, n: usize) -> (r: usize)
    requires
        n == s@.len(),
    ensures
        r == line_end(s@, 0),
        r <= n,
{
    let mut k: usize = 0;
    while k < n && s.get_char(k) != '\n'
        invariant
            n == s@.len(),
            k <= n,
            line_end(s@, 0) == line_end(s@, k as nat),
        decreases n - k,
    {
        k = k + 1;
    }
    k
}

/// The version number that a version banner holds: the second word of its
/// first line.
pub fn version_field(out: &str) -> (r: Option<String>)
    ensures
        r matches Some(v) ==> banner_version(out@) == Some(v@),
        r is None ==> banner_version(out@) is None,
{
    let n = out.unicode_len();
    if n == 0 {
        return None;
    }
    let e = find_line_end(out, n);
    let line = out.substring_char(0, e);
    assert(first_line(out@) == Some(line@));
    let start = skip(line, e, 0, true);
    let first_end = skip(line, e, start, false);
    let word_start = skip(line, e, first_end, true);
    if word_start < e {
        let word_end = skip(line, e, word_start, false);
        Some(line.substring_char(word_start, word_end).to_owned())
    } else {
        None
    }
}

/// Whether the installed converter has the citation engine built in, from
/// what its version query returned: its exit status, and what it wrote to
/// its output and error streams.
///
/// The engine is built in from version 2.11.0 on; an older converter needs
/// the external citation filter.
pub fn builtin_citeproc_support(success: bool, stdout: &str, stderr: String) -> (r: Result<
    bool,
    ProbeError,
>)
    ensures
        match r {
            Ok(b) => builtin_selected(success, stdout@) == Some(b),
            Err(ProbeError::QueryFailed(e)) => !success && e == stderr,
            Err(ProbeError::NoVersionLine) => success && stdout@.len() == 0,
            Err(ProbeError::NoVersionNumber(o)) => success && stdout@.len() > 0 && banner_version(
                stdout@,
            ) is None && o@ == stdout@,
            Err(ProbeError::UnparsableVersion(v)) => success && banner_version(stdout@) == Some(
                v@,
            ) && version_at_least(v@, builtin_threshold()) is None,
        },
{
    if !success {
        return Err(ProbeError::QueryFailed(stderr));
    }
    if stdout.unicode_len() == 0 {
        return Err(ProbeError::NoVersionLine);
    }
    match version_field(stdout) {
        None => Err(ProbeError::NoVersionNumber(stdout.to_owned())),
        Some(v) => match compare_at_least(v.as_str(), "2.11.0") {
            Some(b) => Ok(b),
            None => Err(ProbeError::UnparsableVersion(v)),
        },
    }
}

} // verus!
