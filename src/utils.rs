//! Small decisions of a run: where the project manifest is, and how a build
//! command line splits into a program and its arguments.

use vstd::prelude::*;
use crate::paths::{file_name, join, join_path, last_index};
use crate::text::{chars_of, same_text};

verus! {

/// The project manifest to read for the user's path: the path itself when it
/// is a file named `Cargo.toml`, else `Cargo.toml` inside it.
pub open spec fn manifest_candidate_of(path: Seq<char>, is_file: bool) -> Seq<char> {
    if is_file && file_name(path) == "Cargo.toml"@ {
        path
    } else {
        join_path(path, "Cargo.toml"@)
    }
}

/// The project manifest path for `path`, as [`manifest_candidate_of`] says;
/// `is_file` tells whether `path` names a file.
pub fn manifest_candidate(path: &str, is_file: bool) -> (r: String)
    ensures
        r@ == manifest_candidate_of(path@, is_file),
{
    if is_file {
        let cs = chars_of(path);
        let n = cs.len();
        let start = match last_index(&cs, '/') {
            Some(k) => {
                assert(k < n);
                k + 1
            },
            None => 0,
        };
        let name = path.substring_char(start, n);
        if same_text(name, "Cargo.toml") {
            return String::from_str(path);
        }
    }
    join(path, "Cargo.toml")
}

/// Whether `c` separates the words of a command line.
pub open spec fn is_blank(c: char) -> bool {
    c == ' ' || c == '\t' || c == '\n' || c == '\r' || c == '\x0B' || c == '\x0C'
}

/// The words of `s` from index `i` on, given the word `cur` in progress and
/// the words `acc` already complete: maximal runs of non-blank characters.
pub open spec fn words_from(s: Seq<char>, i: int, cur: Seq<char>, acc: Seq<Seq<char>>) -> Seq<
    Seq<char>,
>
    decreases s.len() - i,
{
    if i < 0 || i >= s.len() {
        if cur.len() > 0 {
            acc.push(cur)
        } else {
            acc
        }
    } else if is_blank(s[i]) {
        words_from(
            s,
            i + 1,
            Seq::empty(),
            if cur.len() > 0 {
                acc.push(cur)
            } else {
                acc
            },
        )
    } else {
        words_from(s, i + 1, cur.push(s[i]), acc)
    }
}

/// The words of a command line, in order.
pub open spec fn words(s: Seq<char>) -> Seq<Seq<char>> {
    words_from(s, 0, Seq::empty(), Seq::empty())
}

/// Splits a build command line into words: the program, then its arguments.
/// A line of blanks has no words and runs nothing.
pub fn command_words(line: &str) -> (r: Vec<String>)
    ensures
        r@.map_values(|w: String| w@) == words(line@),
{
    let cs = chars_of(line);
    let n = cs.len();
    let mut out: Vec<String> = Vec::new();
    let mut start: usize = 0;
    let mut i: usize = 0;
    assert(line@.subrange(0, 0) =~= Seq::<char>::empty());
    assert(out@.map_values(|w: String| w@) =~= Seq::<Seq<char>>::empty());
    while i < n
        invariant
            cs@ == line@,
            n == line@.len(),
            start <= i <= n,
            words(line@) == words_from(
                line@,
                i as int,
                line@.subrange(start as int, i as int),
                out@.map_values(|w: String| w@),
            ),
        decreases n - i,
    {
        let ghost acc = out@.map_values(|w: String| w@);
        let ghost cur = line@.subrange(start as int, i as int);
        if cs[i] == ' ' || cs[i] == '\t' || cs[i] == '\n' || cs[i] == '\r' || cs[i] == '\x0B'
            || cs[i] == '\x0C' {
            if start < i {
                out.push(String::from_str(line.substring_char(start, i)));
                assert(out@.map_values(|w: String| w@) =~= acc.push(cur));
            }
            i = i + 1;
            start = i;
            assert(line@.subrange(start as int, i as int) =~= Seq::<char>::empty());
        } else {
            i = i + 1;
            assert(line@.subrange(start as int, i as int) =~= cur.push(line@[i - 1]));
        }
    }
    let ghost acc = out@.map_values(|w: String| w@);
    let ghost cur = line@.subrange(start as int, n as int);
    if start < n {
        out.push(String::from_str(line.substring_char(start, n)));
        assert(out@.map_values(|w: String| w@) =~= acc.push(cur));
    }
    out
}

} // verus!
