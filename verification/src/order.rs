//! Lexicographic order of strings, and sorting a list of names into a list
//! without repeats.
use vstd::prelude::*;
use crate::text::strings_view;

verus! {

/// Whether `a` comes strictly before `b` in lexicographic order of
/// characters (the order of Rust's `String`, since UTF-8 keeps the order of
/// code points).
pub open spec fn lex_lt(a: Seq<char>, b: Seq<char>) -> bool
    decreases a.len(),
{
    if a.len() == 0 {
        b.len() > 0
    } else if b.len() == 0 {
        false
    } else if (a[0] as u32) < (b[0] as u32) {
        true
    } else if (a[0] as u32) > (b[0] as u32) {
        false
    } else {
        lex_lt(a.drop_first(), b.drop_first())
    }
}

/// Each name comes strictly before the next: sorted, without repeats.
pub open spec fn strictly_sorted(s: Seq<Seq<char>>) -> bool {
    forall|i: int, j: int| 0 <= i < j < s.len() ==> lex_lt(#[trigger] s[i], #[trigger] s[j])
}

proof fn lemma_char_eq(a: char, b: char)
    requires
        a as u32 == b as u32,
    ensures
        a == b,
{
}

pub proof fn lemma_lex_irreflexive(a: Seq<char>)
    ensures
        !lex_lt(a, a),
    decreases a.len(),
{
    if a.len() > 0 {
        lemma_lex_irreflexive(a.drop_first());
    }
}

pub proof fn lemma_lex_asymmetric(a: Seq<char>, b: Seq<char>)
    requires
        lex_lt(a, b),
    ensures
        !lex_lt(b, a),
    decreases a.len(),
{
    if a.len() > 0 && b.len() > 0 && a[0] as u32 == b[0] as u32 {
        lemma_lex_asymmetric(a.drop_first(), b.drop_first());
    }
}

pub proof fn lemma_lex_total(a: Seq<char>, b: Seq<char>)
    ensures
        a == b || lex_lt(a, b) || lex_lt(b, a),
    decreases a.len(),
{
    if a.len() > 0 && b.len() > 0 && a[0] as u32 == b[0] as u32 {
        lemma_lex_total(a.drop_first(), b.drop_first());
        lemma_char_eq(a[0], b[0]);
        if a.drop_first() == b.drop_first() {
            assert(a =~= seq![a[0]] + a.drop_first());
            assert(b =~= seq![b[0]] + b.drop_first());
        }
    } else if a.len() == 0 && b.len() == 0 {
        assert(a =~= b);
    }
}

pub proof fn lemma_lex_transitive(a: Seq<char>, b: Seq<char>, c: Seq<char>)
    requires
        lex_lt(a, b),
        lex_lt(b, c),
    ensures
        lex_lt(a, c),
    decreases a.len(),
{
    if a.len() > 0 && b.len() > 0 && c.len() > 0 && a[0] as u32 == b[0] as u32 && b[0] as u32 == c[0] as u32 {
        lemma_lex_transitive(a.drop_first(), b.drop_first(), c.drop_first());
    }
}

/// Whether `a` comes strictly before `b`.
pub fn string_lt(a: &str, b: &str) -> (r: bool)
    ensures
        r == lex_lt(a@, b@),
{
    let n = a.unicode_len();
    let m = b.unicode_len();
    let mut i: usize = 0;
    assert(a@.skip(0) =~= a@);
    assert(b@.skip(0) =~= b@);
    while i < n && i < m
        invariant
            n == a@.len(),
            m == b@.len(),
            i <= n,
            i <= m,
            lex_lt(a@, b@) == lex_lt(a@.skip(i as int), b@.skip(i as int)),
        decreases n - i,
    {
        let x = a.get_char(i);
        let y = b.get_char(i);
        assert(a@.skip(i as int)[0] == x && b@.skip(i as int)[0] == y);
        if (x as u32) < (y as u32) {
            return true;
        }
        if (x as u32) > (y as u32) {
            return false;
        }
        assert(a@.skip(i as int).drop_first() =~= a@.skip(i + 1));
        assert(b@.skip(i as int).drop_first() =~= b@.skip(i + 1));
        i = i + 1;
    }
    n - i == 0 && m - i > 0
}

/// The names sorted in lexicographic order, each once.
pub fn sorted_unique(names: Vec<String>) -> (r: Vec<String>)
    ensures
        strictly_sorted(strings_view(r@)),
        strings_view(r@).to_set() == strings_view(names@).to_set(),
{
    let mut out: Vec<String> = Vec::new();
    let n = names.len();
    let mut i: usize = 0;
    while i < n
        invariant
            n == names@.len(),
            i <= n,
            strictly_sorted(strings_view(out@)),
            strings_view(out@).to_set() == strings_view(names@).take(i as int).to_set(),
        decreases n - i,
    {
        let x = &names[i];
        let ghost xs = x@;
        let ghost before = strings_view(out@);
        let len = out.len();
        let mut p: usize = 0;
        while p < len && string_lt(out[p].as_str(), x.as_str())
            invariant
                len == out@.len(),
                p <= len,
                before == strings_view(out@),
                xs == x@,
                forall|k: int| 0 <= k < p ==> lex_lt(#[trigger] before[k], xs),
            decreases len - p,
        {
            p = p + 1;
        }
        let ghost seen = strings_view(names@).take(i as int);
        assert(strings_view(names@).take(i + 1) =~= seen.push(xs));
        assert(seen.push(xs).to_set() =~= seen.to_set().insert(xs)) by {
            assert forall|t: Seq<char>| seen.push(xs).contains(t) <==> seen.to_set().insert(xs).contains(t) by {
                if seen.push(xs).contains(t) {
                    let k = choose|k: int| 0 <= k < seen.push(xs).len() && seen.push(xs)[k] == t;
                    if k < seen.len() {
                        assert(seen[k] == t);
                    }
                }
                if seen.contains(t) {
                    let k = choose|k: int| 0 <= k < seen.len() && seen[k] == t;
                    assert(seen.push(xs)[k] == t);
                }
                if t == xs {
                    assert(seen.push(xs)[seen.len() as int] == xs);
                }
            }
        }
        if p < len && out[p] == *x {
            assert(strings_view(out@).to_set() =~= strings_view(names@).take(i + 1).to_set()) by {
                assert(before[p as int] == xs);
                assert(before.contains(xs));
            }
        } else {
            proof {
                if p < len {
                    lemma_lex_total(before[p as int], xs);
                    assert(lex_lt(xs, before[p as int]));
                }
                assert forall|k: int| p <= k < before.len() implies lex_lt(xs, #[trigger] before[k]) by {
                    if k > p {
                        lemma_lex_transitive(xs, before[p as int], before[k]);
                    }
                }
            }
            out.insert(p, x.clone());
            let ghost after = strings_view(out@);
            assert(after =~= before.insert(p as int, xs));
            assert forall|a: int, b: int| 0 <= a < b < after.len() implies lex_lt(
                #[trigger] after[a],
                #[trigger] after[b],
            ) by {
                if b < p {
                } else if a < p && b == p {
                } else if a < p && b > p {
                    assert(lex_lt(xs, before[b - 1]));
                    lemma_lex_transitive(before[a], xs, before[b - 1]);
                } else if a == p {
                    assert(lex_lt(xs, before[b - 1]));
                } else {
                    assert(lex_lt(before[a - 1], before[b - 1]));
                }
            }
            assert(after.to_set() =~= before.to_set().insert(xs)) by {
                assert forall|s: Seq<char>| after.contains(s) <==> before.to_set().insert(xs).contains(s) by {
                    if after.contains(s) {
                        let k = choose|k: int| 0 <= k < after.len() && after[k] == s;
                        if k < p {
                            assert(before[k] == s);
                        } else if k > p {
                            assert(before[k - 1] == s);
                        }
                    }
                    if before.contains(s) {
                        let k = choose|k: int| 0 <= k < before.len() && before[k] == s;
                        if k < p {
                            assert(after[k] == s);
                        } else {
                            assert(after[k + 1] == s);
                        }
                    }
                    if s == xs {
                        assert(after[p as int] == xs);
                    }
                }
            }
        }
        i = i + 1;
    }
    assert(strings_view(names@).take(n as int) =~= strings_view(names@));
    out
}

} // verus!
