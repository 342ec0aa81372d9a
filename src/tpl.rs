//! Substitution of `$NAME`-style variables into manifest strings.

use vstd::prelude::*;
use crate::text::{chars_of, contains, join2, matches_at, occurs_at};

verus! {

/// The text `$key` that stands for a variable in a template.
pub open spec fn token(key: Seq<char>) -> Seq<char> {
    seq!['$'] + key
}

/// Among the first `n` entries of `vars`, the index of the one with the
/// longest key whose token occurs in `s` at `i`; -1 when there is none.
pub open spec fn best_key(vars: Seq<(Seq<char>, Seq<char>)>, s: Seq<char>, i: int, n: int) -> int
    decreases n,
{
    if n <= 0 {
        -1
    } else {
        let b = best_key(vars, s, i, n - 1);
        if occurs_at(s, token(vars[n - 1].0), i) && (b < 0 || vars[n - 1].0.len() > vars[b].0.len()) {
            n - 1
        } else {
            b
        }
    }
}

/// The expansion of `s` from index `i` on: one scan from left to right that
/// puts a variable's value in place of its token and copies every other
/// character. A value put in place is never scanned again; where tokens of
/// two keys start at the same place, the longer key wins.
pub open spec fn expand_from(vars: Seq<(Seq<char>, Seq<char>)>, s: Seq<char>, i: int) -> Seq<char>
    decreases s.len() - i,
{
    if i < 0 || i >= s.len() {
        Seq::empty()
    } else {
        let k = best_key(vars, s, i, vars.len() as int);
        if 0 <= k < vars.len() && occurs_at(s, token(vars[k].0), i) {
            vars[k].1 + expand_from(vars, s, i + token(vars[k].0).len())
        } else {
            seq![s[i]] + expand_from(vars, s, i + 1)
        }
    }
}

/// `s` with every token of a variable of `vars` replaced by its value, in
/// one scan.
pub open spec fn substitute(vars: Seq<(Seq<char>, Seq<char>)>, s: Seq<char>) -> Seq<char> {
    expand_from(vars, s, 0)
}

/// Whether some entry of `vars` has the key `key`.
pub open spec fn has_key(vars: Seq<(Seq<char>, Seq<char>)>, key: Seq<char>) -> bool {
    exists|i: int| 0 <= i < vars.len() && #[trigger] vars[i].0 == key
}

/// Whether no two entries of `vars` share a key.
pub open spec fn keys_unique(vars: Seq<(Seq<char>, Seq<char>)>) -> bool {
    forall|i: int, j: int|
        0 <= i < vars.len() && 0 <= j < vars.len() && #[trigger] vars[i].0 == #[trigger] vars[j].0
            ==> i == j
}

proof fn lemma_best_key_found(vars: Seq<(Seq<char>, Seq<char>)>, s: Seq<char>, i: int, n: int)
    requires
        n <= vars.len(),
    ensures
        -1 <= best_key(vars, s, i, n) < (if n < 0 { 0 } else { n }),
        best_key(vars, s, i, n) >= 0 ==> occurs_at(s, token(vars[best_key(vars, s, i, n)].0), i),
    decreases n,
{
    if n > 0 {
        lemma_best_key_found(vars, s, i, n - 1);
    }
}

proof fn lemma_best_key_none(vars: Seq<(Seq<char>, Seq<char>)>, s: Seq<char>, i: int, n: int)
    requires
        n <= vars.len(),
        forall|j: int| 0 <= j < n ==> !occurs_at(s, #[trigger] token(vars[j].0), i),
    ensures
        best_key(vars, s, i, n) == -1,
    decreases n,
{
    if n > 0 {
        assert(!occurs_at(s, token(vars[n - 1].0), i));
        lemma_best_key_none(vars, s, i, n - 1);
    }
}

proof fn lemma_expand_without_tokens(vars: Seq<(Seq<char>, Seq<char>)>, s: Seq<char>, i: int)
    requires
        0 <= i <= s.len(),
        forall|j: int| 0 <= j < vars.len() ==> !contains(s, #[trigger] token(vars[j].0)),
    ensures
        expand_from(vars, s, i) == s.subrange(i, s.len() as int),
    decreases s.len() - i,
{
    if i < s.len() {
        assert forall|j: int| 0 <= j < vars.len() implies !occurs_at(s, #[trigger] token(vars[j].0), i) by {
            assert(!contains(s, token(vars[j].0)));
        }
        lemma_best_key_none(vars, s, i, vars.len() as int);
        lemma_expand_without_tokens(vars, s, i + 1);
        assert(seq![s[i]] + s.subrange(i + 1, s.len() as int) =~= s.subrange(i, s.len() as int));
    } else {
        assert(s.subrange(i, s.len() as int) =~= Seq::<char>::empty());
    }
}

/// Text in which no registered variable occurs comes back unchanged:
/// tokens of unregistered names pass through, and expanding such text again
/// changes nothing.
pub proof fn lemma_parse_without_tokens(vars: Seq<(Seq<char>, Seq<char>)>, s: Seq<char>)
    requires
        forall|i: int| 0 <= i < vars.len() ==> !contains(s, #[trigger] token(vars[i].0)),
    ensures
        substitute(vars, s) == s,
{
    lemma_expand_without_tokens(vars, s, 0);
    assert(s.subrange(0, s.len() as int) =~= s);
}

proof fn lemma_best_key_same_keys(
    a: Seq<(Seq<char>, Seq<char>)>,
    b: Seq<(Seq<char>, Seq<char>)>,
    s: Seq<char>,
    i: int,
    n: int,
)
    requires
        n <= a.len(),
        n <= b.len(),
        forall|j: int| 0 <= j < n ==> #[trigger] a[j].0 == b[j].0,
    ensures
        best_key(a, s, i, n) == best_key(b, s, i, n),
    decreases n,
{
    if n > 0 {
        lemma_best_key_same_keys(a, b, s, i, n - 1);
        lemma_best_key_found(a, s, i, n - 1);
        let x = best_key(a, s, i, n - 1);
        if x >= 0 {
            assert(a[x].0 == b[x].0);
        }
        assert(a[n - 1].0 == b[n - 1].0);
    }
}

proof fn lemma_expand_rebind(
    vars: Seq<(Seq<char>, Seq<char>)>,
    next: Seq<(Seq<char>, Seq<char>)>,
    key: Seq<char>,
    s: Seq<char>,
    i: int,
)
    requires
        vars.len() <= next.len() <= vars.len() + 1,
        forall|j: int| 0 <= j < vars.len() ==> #[trigger] next[j].0 == vars[j].0,
        forall|j: int| 0 <= j < vars.len() && next[j] != vars[j] ==> next[j].0 == key,
        next.len() == vars.len() + 1 ==> next.last().0 == key,
        !contains(s, token(key)),
    ensures
        expand_from(next, s, i) == expand_from(vars, s, i),
    decreases s.len() - i,
{
    if 0 <= i < s.len() {
        let n = vars.len() as int;
        lemma_best_key_same_keys(vars, next, s, i, n);
        if next.len() == n + 1 {
            assert(!occurs_at(s, token(next[n].0), i));
        }
        assert(best_key(next, s, i, next.len() as int) == best_key(vars, s, i, n));
        lemma_best_key_found(vars, s, i, n);
        let k = best_key(vars, s, i, n);
        if k >= 0 {
            if next[k] != vars[k] {
                assert(occurs_at(s, token(key), i));
            }
            lemma_expand_rebind(vars, next, key, s, i + token(vars[k].0).len());
        } else {
            lemma_expand_rebind(vars, next, key, s, i + 1);
        }
    }
}

/// Binding a key whose token does not occur in `s`, anew or again, leaves
/// the expansion of `s` as it was.
pub proof fn lemma_register_unrelated(
    vars: Seq<(Seq<char>, Seq<char>)>,
    key: Seq<char>,
    value: Seq<char>,
    s: Seq<char>,
)
    requires
        !contains(s, token(key)),
    ensures
        substitute(vars.push((key, value)), s) == substitute(vars, s),
        forall|i: int|
            0 <= i < vars.len() && vars[i].0 == key ==> substitute(
                #[trigger] vars.update(i, (key, value)),
                s,
            ) == substitute(vars, s),
{
    lemma_expand_rebind(vars, vars.push((key, value)), key, s, 0);
    assert forall|i: int|
        0 <= i < vars.len() && vars[i].0 == key implies substitute(
            #[trigger] vars.update(i, (key, value)),
            s,
        ) == substitute(vars, s) by {
        lemma_expand_rebind(vars, vars.update(i, (key, value)), key, s, 0);
    }
}

/// A set of named variables and the template expansion over them.
pub struct Tpl {
    variables: Vec<(String, String)>,
}

impl View for Tpl {
    type V = Seq<(Seq<char>, Seq<char>)>;

    closed spec fn view(&self) -> Seq<(Seq<char>, Seq<char>)> {
        self.variables@.map_values(|p: (String, String)| (p.0@, p.1@))
    }
}

impl Tpl {
    /// Each key is bound at most once.
    pub open spec fn wf(&self) -> bool {
        keys_unique(self@)
    }

    /// A processor with no variables.
    pub fn new() -> (r: Self)
        ensures
            r@ == Seq::<(Seq<char>, Seq<char>)>::empty(),
            r.wf(),
    {
        let r = Tpl { variables: Vec::new() };
        assert(r@ =~= Seq::<(Seq<char>, Seq<char>)>::empty());
        r
    }

    /// Binds `key` to `value`. A key bound before keeps its place and takes
    /// the new value; a new key comes after all others.
    pub fn register(&mut self, key: &str, value: &str)
        requires
            old(self).wf(),
        ensures
            final(self).wf(),
            has_key(old(self)@, key@) ==> exists|i: int|
                0 <= i < old(self)@.len() && old(self)@[i].0 == key@
                    && final(self)@ == old(self)@.update(i, (key@, value@)),
            !has_key(old(self)@, key@) ==> final(self)@ == old(self)@.push((key@, value@)),
    {
        let k = String::from_str(key);
        let v = String::from_str(value);
        let ghost before = self@;
        let n = self.variables.len();
        let mut i: usize = 0;
        while i < n
            invariant
                n == self.variables@.len(),
                self@ == before,
                before == old(self)@,
                keys_unique(before),
                k@ == key@,
                v@ == value@,
                i <= n,
                forall|j: int| 0 <= j < i ==> before[j].0 != key@,
            decreases n - i,
        {
            if self.variables[i].0 == k {
                self.variables.set(i, (k, v));
                proof {
                    assert(self@ =~= before.update(i as int, (key@, value@)));
                    assert(before[i as int].0 == key@);
                    assert(has_key(before, key@));
                    assert(self@ == before.update(i as int, (key@, value@)));
                    assert(exists|j: int| 0 <= j < before.len() && before[j].0 == key@
                        && self@ == before.update(j, (key@, value@)));
                    assert(keys_unique(self@));
                }
                return;
            }
            i = i + 1;
        }
        self.variables.push((k, v));
        assert(self@ =~= before.push((key@, value@)));
        assert(!has_key(before, key@));
    }

    /// `input` with every registered `$KEY` replaced by its value, in one
    /// scan from left to right; values are not scanned again, and tokens of
    /// unregistered names are left as they are.
    pub fn parse(&self, input: &str) -> (r: String)
        ensures
            r@ == substitute(self@, input@),
    {
        let ghost vars = self@;
        let nv = self.variables.len();
        let mut toks: Vec<Vec<char>> = Vec::new();
        proof {
            reveal_strlit("$");
        }
        let mut j: usize = 0;
        while j < nv
            invariant
                nv == vars.len(),
                vars == self@,
                j <= nv,
                toks@.len() == j,
                forall|q: int| 0 <= q < j ==> #[trigger] toks@[q]@ == token(vars[q].0),
            decreases nv - j,
        {
            let t = chars_of(join2("$", self.variables[j].0.as_str()).as_str());
            proof {
                reveal_strlit("$");
                assert(self.variables@[j as int].0@ == vars[j as int].0);
                assert(t@ =~= token(vars[j as int].0));
            }
            toks.push(t);
            j = j + 1;
        }
        let cs = chars_of(input);
        let n = cs.len();
        let mut out = String::new();
        let mut start: usize = 0;
        let mut i: usize = 0;
        assert(input@.subrange(0, 0) =~= Seq::<char>::empty());
        assert(out@ + input@.subrange(0, 0) =~= Seq::<char>::empty());
        while i < n
            invariant
                nv == vars.len(),
                vars == self@,
                toks@.len() == nv,
                forall|q: int| 0 <= q < nv ==> #[trigger] toks@[q]@ == token(vars[q].0),
                cs@ == input@,
                n == input@.len(),
                start <= i <= n,
                out@ + input@.subrange(start as int, i as int) + expand_from(vars, input@, i as int)
                    == substitute(vars, input@),
            decreases n - i,
        {
            let mut best: Option<usize> = None;
            let mut q: usize = 0;
            while q < nv
                invariant
                    nv == vars.len(),
                    toks@.len() == nv,
                    forall|x: int| 0 <= x < nv ==> #[trigger] toks@[x]@ == token(vars[x].0),
                    cs@ == input@,
                    i < n == input@.len(),
                    q <= nv,
                    best_key(vars, input@, i as int, q as int) == match best {
                        Some(b) => b as int,
                        None => -1,
                    },
                    best matches Some(b) ==> b < q,
                decreases nv - q,
            {
                if matches_at(&cs, &toks[q], i) {
                    let longer = match best {
                        None => true,
                        Some(b) => toks[q].len() > toks[b].len(),
                    };
                    if longer {
                        best = Some(q);
                    }
                }
                q = q + 1;
            }
            proof {
                lemma_best_key_found(vars, input@, i as int, nv as int);
            }
            match best {
                Some(k) => {
                    let tl = toks[k].len();
                    out.append(input.substring_char(start, i));
                    out.append(self.variables[k].1.as_str());
                    proof {
                        assert(self.variables@[k as int].1@ == vars[k as int].1);
                    }
                    i = i + tl;
                    start = i;
                    assert(input@.subrange(start as int, i as int) =~= Seq::<char>::empty());
                },
                None => {
                    proof {
                        let c = input@[i as int];
                        assert(input@.subrange(start as int, i + 1)
                            =~= input@.subrange(start as int, i as int) + seq![c]);
                    }
                    i = i + 1;
                },
            }
        }
        out.append(input.substring_char(start, n));
        assert(input@.subrange(n as int, n as int) =~= Seq::<char>::empty());
        assert(out@ =~= substitute(vars, input@));
        out
    }

    /// Expands every string of `input`, keeping the order.
    pub fn parse_vec(&self, input: &[String]) -> (r: Vec<String>)
        ensures
            r@.len() == input@.len(),
            forall|i: int| 0 <= i < input@.len() ==> #[trigger] r@[i]@ == substitute(self@, input@[i]@),
    {
        let mut r: Vec<String> = Vec::new();
        let mut i: usize = 0;
        while i < input.len()
            invariant
                i <= input@.len(),
                r@.len() == i,
                forall|j: int| 0 <= j < i ==> #[trigger] r@[j]@ == substitute(self@, input@[j]@),
            decreases input@.len() - i,
        {
            let s = self.parse(input[i].as_str());
            r.push(s);
            i = i + 1;
        }
        r
    }
}

impl Default for Tpl {
    fn default() -> (r: Self)
        ensures
            r@ == Seq::<(Seq<char>, Seq<char>)>::empty(),
    {
        Tpl::new()
    }
}

} // verus!
