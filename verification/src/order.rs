//! Lexicographic order on texts (by code point, which for UTF-8 strings is the
//! order of `String`'s `Ord`), and sorted lists of distinct texts.
use vstd::prelude::*;

use crate::governance::views;
use crate::text::chars_of;

verus! {

/// `a` comes strictly before `b` in lexicographic code-point order.
pub open spec fn text_lt(a: Seq<char>, b: Seq<char>) -> bool
    decreases a.len(),
{
    if a.len() == 0 {
        b.len() > 0
    } else if b.len() == 0 {
        false
    } else if (a[0] as u32) < (b[0] as u32) {
        true
    } else if a[0] == b[0] {
        text_lt(a.drop_first(), b.drop_first())
    } else {
        false
    }
}

/// Strictly increasing: sorted, with no text twice.
pub open spec fn strictly_sorted(s: Seq<Seq<char>>) -> bool {
    forall|i: int, j: int| 0 <= i < j < s.len() ==> text_lt(#[trigger] s[i], #[trigger] s[j])
}

/// No text comes before itself.
pub proof fn lemma_text_lt_irreflexive(a: Seq<char>)
    ensures
        !text_lt(a, a),
    decreases a.len(),
{
    if a.len() > 0 {
        lemma_text_lt_irreflexive(a.drop_first());
    }
}

/// Of two different texts, one comes before the other.
pub proof fn lemma_text_lt_total(a: Seq<char>, b: Seq<char>)
    ensures
        a != b ==> text_lt(a, b) || text_lt(b, a),
    decreases a.len(),
{
    if a.len() > 0 && b.len() > 0 {
        if a[0] == b[0] {
            lemma_text_lt_total(a.drop_first(), b.drop_first());
            if a.drop_first() == b.drop_first() {
                assert(a =~= seq![a[0]] + a.drop_first());
                assert(b =~= seq![b[0]] + b.drop_first());
            }
        } else {
            if (a[0] as u32) == (b[0] as u32) {
                vstd::utf8::char_u32_cast(a[0], a[0] as u32);
                vstd::utf8::char_u32_cast(b[0], b[0] as u32);
            }
        }
    } else if a.len() == 0 && b.len() == 0 {
        assert(a =~= b);
    }
}

/// The order is transitive.
pub proof fn lemma_text_lt_transitive(a: Seq<char>, b: Seq<char>, c: Seq<char>)
    requires
        text_lt(a, b),
        text_lt(b, c),
    ensures
        text_lt(a, c),
    decreases a.len(),
{
    if a.len() > 0 && b.len() > 0 && c.len() > 0 && a[0] == b[0] && b[0] == c[0] {
        lemma_text_lt_transitive(a.drop_first(), b.drop_first(), c.drop_first());
    }
}

/// The order is asymmetric.
pub proof fn lemma_text_lt_asymmetric(a: Seq<char>, b: Seq<char>)
    requires
        text_lt(a, b),
    ensures
        !text_lt(b, a),
{
    if text_lt(b, a) {
        lemma_text_lt_transitive(a, b, a);
        lemma_text_lt_irreflexive(a);
    }
}

/// Whether `a` comes strictly before `b`.
pub fn text_less(a: &Vec<char>, b: &Vec<char>) -> (r: bool)
    ensures
        r == text_lt(a@, b@),
{
    let mut i: usize = 0;
    assert(a@.subrange(0, a@.len() as int) =~= a@);
    assert(b@.subrange(0, b@.len() as int) =~= b@);
    while i < a.len() && i < b.len()
        invariant
            i <= a@.len(),
            i <= b@.len(),
            a@.subrange(0, i as int) == b@.subrange(0, i as int),
            text_lt(a@, b@) == text_lt(a@.subrange(i as int, a@.len() as int), b@.subrange(i as int, b@.len() as int)),
        decreases a.len() - i,
    {
        let ghost sa = a@.subrange(i as int, a@.len() as int);
        let ghost sb = b@.subrange(i as int, b@.len() as int);
        assert(sa[0] == a@[i as int]);
        assert(sb[0] == b@[i as int]);
        if (a[i] as u32) < (b[i] as u32) {
            return true;
        }
        if a[i] != b[i] {
            return false;
        }
        assert(sa.drop_first() =~= a@.subrange(i + 1, a@.len() as int));
        assert(sb.drop_first() =~= b@.subrange(i + 1, b@.len() as int));
        assert(a@.subrange(0, i + 1) =~= a@.subrange(0, i as int).push(a@[i as int]));
        assert(b@.subrange(0, i + 1) =~= b@.subrange(0, i as int).push(b@[i as int]));
        i = i + 1;
    }
    i == a.len() && i < b.len()
}

/// Inserts `x` into the strictly sorted `v`, unless it is there already.
pub fn insert_sorted(v: &mut Vec<String>, x: String)
    requires
        strictly_sorted(views(old(v)@)),
    ensures
        strictly_sorted(views(final(v)@)),
        views(final(v)@).to_set() == views(old(v)@).to_set().insert(x@),
{
    let ghost s0 = views(v@);
    let xs = chars_of(x.as_str());
    let mut p: usize = 0;
    let mut searching = true;
    while searching && p < v.len()
        invariant
            p <= v@.len(),
            views(v@) == s0,
            xs@ == x@,
            strictly_sorted(s0),
            forall|k: int| 0 <= k < p ==> text_lt(#[trigger] s0[k], x@),
            !searching ==> p < v@.len() && !text_lt(s0[p as int], x@),
        decreases v.len() - p + if searching {
            1int
        } else {
            0int
        },
    {
        let cur = chars_of(v[p].as_str());
        if text_less(&cur, &xs) {
            p = p + 1;
        } else {
            searching = false;
        }
    }
    if p < v.len() {
        let cur = chars_of(v[p].as_str());
        if crate::text::seq_eq(&cur, &xs) {
            assert(s0.to_set().insert(x@) =~= s0.to_set()) by {
                assert(s0[p as int] == x@);
            }
            return;
        }
        proof {
            lemma_text_lt_total(s0[p as int], x@);
        }
    }
    v.insert(p, x);
    let ghost s1 = views(v@);
    assert(s1 =~= s0.insert(p as int, x@));
    assert forall|i: int, j: int| 0 <= i < j < s1.len() implies text_lt(#[trigger] s1[i], #[trigger] s1[j]) by {
        if j < p {
        } else if j == p {
        } else if i == p {
            if j - 1 > p {
                lemma_text_lt_transitive(x@, s0[p as int], s0[j - 1]);
            }
        } else if i < p {
            if j - 1 >= p {
                assert(text_lt(s0[i], x@));
            }
        } else {
        }
    }
    assert(s1.to_set() =~= s0.to_set().insert(x@)) by {
        assert forall|t: Seq<char>| s1.to_set().contains(t) <==> s0.to_set().insert(x@).contains(t) by {
            if s1.to_set().contains(t) {
                let k = choose|k: int| 0 <= k < s1.len() && s1[k] == t;
                if k < p {
                    assert(s0[k] == t);
                } else if k > p {
                    assert(s0[k - 1] == t);
                }
            }
            if s0.to_set().contains(t) {
                let k = choose|k: int| 0 <= k < s0.len() && s0[k] == t;
                if k < p {
                    assert(s1[k] == t);
                } else {
                    assert(s1[k + 1] == t);
                }
            }
            if t == x@ {
                assert(s1[p as int] == t);
            }
        }
    }
}

} // verus!
