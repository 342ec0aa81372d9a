//! File paths as text: the few operations the packaging logic needs, with
//! `/` as the separator.

use vstd::prelude::*;
use crate::text::{chars_of, same_text};

verus! {

/// Index of the last `c` in `s`, or -1 when there is none.
pub open spec fn last_index_of(s: Seq<char>, c: char) -> int
    decreases s.len(),
{
    if s.len() == 0 {
        -1
    } else if s.last() == c {
        s.len() - 1
    } else {
        last_index_of(s.drop_last(), c)
    }
}

/// The last index of a character lies within the sequence and holds that character.
pub proof fn lemma_last_index_bounds(s: Seq<char>, c: char)
    ensures
        -1 <= last_index_of(s, c) < s.len(),
        last_index_of(s, c) >= 0 ==> s[last_index_of(s, c)] == c,
    decreases s.len(),
{
    if s.len() > 0 && s.last() != c {
        lemma_last_index_bounds(s.drop_last(), c);
    }
}

/// `rel` placed under `base`: an absolute `rel` stands alone, an empty `base`
/// adds nothing, and one separator goes between the two.
pub open spec fn join_path(base: Seq<char>, rel: Seq<char>) -> Seq<char> {
    if rel.len() > 0 && rel[0] == '/' {
        rel
    } else if base.len() == 0 {
        rel
    } else if base.last() == '/' {
        base + rel
    } else {
        base + seq!['/'] + rel
    }
}

/// `p` without the separators at its end.
pub open spec fn trim_end_slashes(p: Seq<char>) -> Seq<char>
    decreases p.len(),
{
    if p.len() > 0 && p.last() == '/' {
        trim_end_slashes(p.drop_last())
    } else {
        p
    }
}

/// The directory part of a path, as `Path::parent` reads it, with `.` where
/// that has none: separators at the end are ignored; then what stands before
/// the last separator, without its own separators at the end (`/` when that
/// leaves the root); empty for a bare name; `.` for an empty path or the root.
pub open spec fn parent_dir(p: Seq<char>) -> Seq<char> {
    let q = trim_end_slashes(p);
    if q.len() == 0 {
        seq!['.']
    } else {
        let k = last_index_of(q, '/');
        if k < 0 {
            Seq::empty()
        } else {
            let h = trim_end_slashes(q.subrange(0, k));
            if h.len() == 0 {
                seq!['/']
            } else {
                h
            }
        }
    }
}

/// The last component of a path.
pub open spec fn file_name(p: Seq<char>) -> Seq<char> {
    p.subrange(last_index_of(p, '/') + 1, p.len() as int)
}

/// What follows the last `.` of the file name, when that `.` is not its first
/// character.
pub open spec fn extension(p: Seq<char>) -> Option<Seq<char>> {
    let f = file_name(p);
    let d = last_index_of(f, '.');
    if d > 0 {
        Some(f.subrange(d + 1, f.len() as int))
    } else {
        None
    }
}

/// Extensions of files that are read by people rather than run.
pub open spec fn is_doc_extension(e: Seq<char>) -> bool {
    ||| e == "md"@
    ||| e == "txt"@
    ||| e == "pdf"@
    ||| e == "html"@
    ||| e == "toml"@
    ||| e == "json"@
    ||| e == "yml"@
    ||| e == "yaml"@
}

/// Whether the file at `p` is documentation, going by its extension.
pub open spec fn is_documentation_path(p: Seq<char>) -> bool {
    match extension(p) {
        Some(e) => is_doc_extension(e),
        None => false,
    }
}

/// Position of the last `c` in `v`.
pub fn last_index(v: &Vec<char>, c: char) -> (r: Option<usize>)
    ensures
        match r {
            Some(i) => i as int == last_index_of(v@, c) && i < v@.len() && v@[i as int] == c,
            None => last_index_of(v@, c) == -1,
        },
{
    let mut i: usize = v.len();
    assert(v@.subrange(0, i as int) =~= v@);
    while i > 0
        invariant
            i <= v@.len(),
            last_index_of(v@, c) == last_index_of(v@.subrange(0, i as int), c),
        decreases i,
    {
        let ghost pre = v@.subrange(0, i as int);
        if v[i - 1] == c {
            assert(pre.last() == c);
            return Some(i - 1);
        }
        assert(pre.drop_last() =~= v@.subrange(0, i - 1));
        i = i - 1;
    }
    assert(v@.subrange(0, 0).len() == 0);
    None
}

/// Joins `rel` onto `base` as [`join_path`] says.
pub fn join(base: &str, rel: &str) -> (r: String)
    ensures
        r@ == join_path(base@, rel@),
{
    let rn = rel.unicode_len();
    let bn = base.unicode_len();
    if rn > 0 && rel.get_char(0) == '/' {
        return String::from_str(rel);
    }
    if bn == 0 {
        return String::from_str(rel);
    }
    let mut r = String::from_str(base);
    if base.get_char(bn - 1) != '/' {
        r.append("/");
        proof {
            reveal_strlit("/");
        }
    }
    r.append(rel);
    r
}

/// The length of `v[..end]` once its separators at the end are dropped.
fn trimmed_end(v: &Vec<char>, end: usize) -> (r: usize)
    requires
        end <= v@.len(),
    ensures
        r <= end,
        v@.subrange(0, r as int) == trim_end_slashes(v@.subrange(0, end as int)),
{
    let mut e = end;
    while e > 0 && v[e - 1] == '/'
        invariant
            e <= end <= v@.len(),
            trim_end_slashes(v@.subrange(0, end as int)) == trim_end_slashes(v@.subrange(0, e as int)),
        decreases e,
    {
        assert(v@.subrange(0, e as int).drop_last() =~= v@.subrange(0, e - 1));
        e = e - 1;
    }
    e
}

/// The directory part of `p`, as [`parent_dir`] says.
pub fn parent(p: &str) -> (r: String)
    ensures
        r@ == parent_dir(p@),
{
    let cs = chars_of(p);
    proof {
        reveal_strlit(".");
        reveal_strlit("/");
    }
    let e = trimmed_end(&cs, cs.len());
    assert(cs@.subrange(0, cs@.len() as int) =~= cs@);
    if e == 0 {
        return String::from_str(".");
    }
    let q = p.substring_char(0, e);
    let qs = chars_of(q);
    match last_index(&qs, '/') {
        None => String::new(),
        Some(k) => {
            let h = trimmed_end(&qs, k);
            if h == 0 {
                String::from_str("/")
            } else {
                String::from_str(q.substring_char(0, h))
            }
        },
    }
}

/// The extension of `p`, as [`extension`] says.
pub fn extension_of(p: &str) -> (r: Option<String>)
    ensures
        match r {
            Some(e) => extension(p@) == Some(e@),
            None => extension(p@) is None,
        },
{
    let cs = chars_of(p);
    let start = match last_index(&cs, '/') {
        Some(k) => k + 1,
        None => 0,
    };
    let name = p.substring_char(start, cs.len());
    assert(name@ == file_name(p@));
    let ns = chars_of(name);
    match last_index(&ns, '.') {
        Some(d) => {
            if d > 0 {
                Some(String::from_str(name.substring_char(d + 1, ns.len())))
            } else {
                None
            }
        },
        None => None,
    }
}

/// Whether `p` names a documentation file (md, txt, pdf, html, toml, json,
/// yml or yaml).
pub fn is_documentation(p: &str) -> (r: bool)
    ensures
        r == is_documentation_path(p@),
{
    match extension_of(p) {
        None => false,
        Some(e) => {
            let e = e.as_str();
            same_text(e, "md") || same_text(e, "txt") || same_text(e, "pdf")
                || same_text(e, "html") || same_text(e, "toml") || same_text(e, "json")
                || same_text(e, "yml") || same_text(e, "yaml")
        },
    }
}

} // verus!
