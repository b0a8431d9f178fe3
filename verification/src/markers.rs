//! The two markers the renderer writes into its output, and what follows
//! them.

use crate::text::{
    after_first, chars_of, find_in, first_word, matches_at, run_from, string_of, trim_bounds,
    trimmed,
};
use vstd::prelude::*;

verus! {

/// What stands in front of a progress token.
pub open spec fn progress_marker() -> Seq<char> {
    "Progress: "@
}

/// What stands in front of the path of the finished video.
pub open spec fn completion_marker() -> Seq<char> {
    "Video is available at: "@
}

/// The token after the first progress marker of `line`: the characters up
/// to the next whitespace or the end of the line. `None` if the line has no
/// progress marker.
pub open spec fn progress_token(line: Seq<char>) -> Option<Seq<char>> {
    match after_first(line, progress_marker()) {
        Some(rest) => Some(first_word(rest)),
        None => None,
    }
}

/// `c`, or a slash where `c` is a backslash.
pub open spec fn forward(c: char) -> char {
    if c == '\\' {
        '/'
    } else {
        c
    }
}

/// `raw` with slashes for backslashes and without whitespace at its ends.
pub open spec fn normalized_path(raw: Seq<char>) -> Seq<char> {
    trimmed(raw.map_values(|c: char| forward(c)))
}

/// The normalized path after the first completion marker of `line`. `None`
/// if the line has no completion marker.
pub open spec fn completion_path(line: Seq<char>) -> Option<Seq<char>> {
    match after_first(line, completion_marker()) {
        Some(rest) => Some(normalized_path(rest)),
        None => None,
    }
}

/// The token that reports a finished render.
pub open spec fn full_progress() -> Seq<char> {
    "100%"@
}

/// Extracts the progress token of a line of renderer output.
pub fn parse_progress(line: &str) -> (token: Option<String>)
    ensures
        match token {
            Some(t) => progress_token(line@) == Some(t@),
            None => progress_token(line@) is None,
        },
{
    let chars = chars_of(line);
    let marker = chars_of("Progress: ");
    match find_in(&chars, &marker) {
        Some(at) => {
            let from: usize = at + marker.len();
            let n: usize = run_from(&chars, from, false);
            let token = string_of(&chars, from, from + n);
            assert(token@ =~= first_word(chars@.subrange(from as int, chars.len() as int)));
            Some(token)
        },
        None => None,
    }
}

/// Extracts the path of the finished video from a line of renderer output.
pub fn parse_completion(line: &str) -> (path: Option<String>)
    ensures
        match path {
            Some(p) => completion_path(line@) == Some(p@),
            None => completion_path(line@) is None,
        },
{
    let chars = chars_of(line);
    let marker = chars_of("Video is available at: ");
    match find_in(&chars, &marker) {
        Some(at) => {
            let from: usize = at + marker.len();
            let mut raw: Vec<char> = Vec::new();
            let mut i: usize = from;
            assert(raw@ =~= chars@.subrange(from as int, i as int).map_values(
                |c: char| forward(c),
            ));
            while i < chars.len()
                invariant
                    from <= i <= chars.len(),
                    raw@ == chars@.subrange(from as int, i as int).map_values(
                        |c: char| forward(c),
                    ),
                decreases chars.len() - i,
            {
                let c = chars[i];
                raw.push(if c == '\\' { '/' } else { c });
                assert(raw@ =~= chars@.subrange(from as int, i + 1).map_values(
                    |c: char| forward(c),
                ));
                i += 1;
            }
            let (a, b) = trim_bounds(&raw);
            Some(string_of(&raw, a, b))
        },
        None => None,
    }
}

/// Whether `token` reports a finished render.
pub fn is_full_progress(token: &str) -> (full: bool)
    ensures
        full == (token@ == full_progress()),
{
    let chars = chars_of(token);
    let full = chars_of("100%");
    assert(chars@.subrange(0, chars.len() as int) =~= chars@);
    chars.len() == full.len() && matches_at(&chars, &full, 0)
}

} // verus!
