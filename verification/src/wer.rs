//! Word error measurement for the end-to-end check: text normalization, word
//! splitting and the word-level edit distance.
use vstd::prelude::*;

use crate::governance::views;
use crate::text::{chars_of, fields, is_ws, split_fields, str_eq, string_of};

verus! {

/// What `str::to_lowercase` makes of a text (Unicode lowercase, with the
/// context-dependent final sigma).
pub uninterp spec fn lowercase_text(s: Seq<char>) -> Seq<char>;

/// Whether `char::is_alphanumeric` holds of `c` (Unicode `Alphabetic` or
/// `Numeric`).
pub uninterp spec fn alphanumeric(c: char) -> bool;

/// `str::to_lowercase`.
#[verifier::external_body]
fn to_lowercase(s: &str) -> (r: String)
    ensures
        r@ == lowercase_text(s@),
{
    s.to_lowercase()
}

/// `char::is_alphanumeric`.
#[verifier::external_body]
fn is_alphanumeric(c: char) -> (b: bool)
    ensures
        b == alphanumeric(c),
{
    c.is_alphanumeric()
}

/// A character kept by normalization, or a space in its place.
pub open spec fn kept_or_space(c: char) -> char {
    if alphanumeric(c) || is_ws(c) {
        c
    } else {
        ' '
    }
}

/// A text lowercased, with every character that is neither alphanumeric nor
/// whitespace replaced by a space.
pub open spec fn normalized(s: Seq<char>) -> Seq<char> {
    let l = lowercase_text(s);
    Seq::new(l.len(), |i: int| kept_or_space(l[i]))
}

/// The normalized form of a text.
pub fn normalize_text(s: &str) -> (r: String)
    ensures
        r@ == normalized(s@),
{
    let low = to_lowercase(s);
    let v = chars_of(low.as_str());
    let mut out: Vec<char> = Vec::new();
    let mut i: usize = 0;
    while i < v.len()
        invariant
            i <= v@.len(),
            v@ == lowercase_text(s@),
            out@.len() == i,
            forall|k: int| 0 <= k < i ==> out@[k] == kept_or_space(v@[k]),
        decreases v.len() - i,
    {
        let c = v[i];
        if is_alphanumeric(c) || crate::text::char_is_ws(c) {
            out.push(c);
        } else {
            out.push(' ');
        }
        i = i + 1;
    }
    assert(out@ =~= normalized(s@));
    string_of(&out)
}

/// The whitespace characters, as a list.
pub open spec fn ws_chars() -> Seq<char> {
    seq![
        '\u{9}', '\u{a}', '\u{b}', '\u{c}', '\u{d}', ' ', '\u{85}', '\u{a0}', '\u{1680}', '\u{2000}',
        '\u{2001}', '\u{2002}', '\u{2003}', '\u{2004}', '\u{2005}', '\u{2006}', '\u{2007}',
        '\u{2008}', '\u{2009}', '\u{200a}', '\u{2028}', '\u{2029}', '\u{202f}', '\u{205f}',
        '\u{3000}',
    ]
}

/// The words of a text (as `str::split_whitespace` gives them).
pub open spec fn words(s: Seq<char>) -> Seq<Seq<char>> {
    fields(s, ws_chars())
}

fn ws_list() -> (v: Vec<char>)
    ensures
        v@ == ws_chars(),
        forall|c: char| v@.contains(c) <==> is_ws(c),
{
    let v = vec![
        '\u{9}', '\u{a}', '\u{b}', '\u{c}', '\u{d}', ' ', '\u{85}', '\u{a0}', '\u{1680}', '\u{2000}',
        '\u{2001}', '\u{2002}', '\u{2003}', '\u{2004}', '\u{2005}', '\u{2006}', '\u{2007}',
        '\u{2008}', '\u{2009}', '\u{200a}', '\u{2028}', '\u{2029}', '\u{202f}', '\u{205f}',
        '\u{3000}',
    ];
    assert(v@ =~= ws_chars());
    assert forall|c: char| v@.contains(c) <==> is_ws(c) by {
        if is_ws(c) {
            let u = c as u32;
            vstd::utf8::char_u32_cast(c, u);
            if u == 0x09 {
                assert(v@[0] == c);
            } else if u == 0x0A {
                assert(v@[1] == c);
            } else if u == 0x0B {
                assert(v@[2] == c);
            } else if u == 0x0C {
                assert(v@[3] == c);
            } else if u == 0x0D {
                assert(v@[4] == c);
            } else if u == 0x20 {
                assert(v@[5] == c);
            } else if u == 0x85 {
                assert(v@[6] == c);
            } else if u == 0xA0 {
                assert(v@[7] == c);
            } else if u == 0x1680 {
                assert(v@[8] == c);
            } else if u == 0x2028 {
                assert(v@[20] == c);
            } else if u == 0x2029 {
                assert(v@[21] == c);
            } else if u == 0x202F {
                assert(v@[22] == c);
            } else if u == 0x205F {
                assert(v@[23] == c);
            } else if u == 0x3000 {
                assert(v@[24] == c);
            } else {
                assert(0x2000 <= u <= 0x200A);
                assert(v@[9 + (u - 0x2000)] == c);
            }
        }
    }
    v
}

/// The word-level edit distance: the fewest word insertions, deletions and
/// substitutions that turn `a` into `b`.
pub open spec fn edit_distance(a: Seq<Seq<char>>, b: Seq<Seq<char>>) -> nat
    decreases a.len() + b.len(),
{
    if a.len() == 0 {
        b.len()
    } else if b.len() == 0 {
        a.len()
    } else {
        let del = edit_distance(a.drop_last(), b) + 1;
        let ins = edit_distance(a, b.drop_last()) + 1;
        let sub = edit_distance(a.drop_last(), b.drop_last()) + if a.last() == b.last() {
            0nat
        } else {
            1nat
        };
        let m = if del <= ins {
            del
        } else {
            ins
        };
        if m <= sub {
            m
        } else {
            sub
        }
    }
}

/// The distance never exceeds the longer of the two word lists.
pub proof fn lemma_edit_distance_bounded(a: Seq<Seq<char>>, b: Seq<Seq<char>>)
    ensures
        edit_distance(a, b) <= if a.len() >= b.len() {
            a.len()
        } else {
            b.len()
        },
    decreases a.len() + b.len(),
{
    if a.len() > 0 && b.len() > 0 {
        lemma_edit_distance_bounded(a.drop_last(), b.drop_last());
        lemma_edit_distance_bounded(a.drop_last(), b);
        lemma_edit_distance_bounded(a, b.drop_last());
    }
}

/// A word list is at distance zero from itself.
pub proof fn lemma_edit_distance_self(a: Seq<Seq<char>>)
    ensures
        edit_distance(a, a) == 0,
    decreases a.len(),
{
    if a.len() > 0 {
        lemma_edit_distance_self(a.drop_last());
    }
}

/// The word-level edit distance between `a` and `b`.
pub fn levenshtein_words(a: &[&str], b: &[&str]) -> (d: usize)
    requires
        a@.len() < usize::MAX,
        b@.len() < usize::MAX,
    ensures
        d == edit_distance(a@.map_values(|w: &str| w@), b@.map_values(|w: &str| w@)),
{
    let ghost sa = a@.map_values(|w: &str| w@);
    let ghost sb = b@.map_values(|w: &str| w@);
    let n = a.len();
    let m = b.len();
    let mut prev: Vec<usize> = Vec::new();
    let mut j: usize = 0;
    while j <= m
        invariant
            j <= m + 1,
            m == b@.len(),
            m < usize::MAX,
            sa == a@.map_values(|w: &str| w@),
            sb == b@.map_values(|w: &str| w@),
            prev@.len() == j,
            forall|k: int| 0 <= k < j ==> prev@[k] == edit_distance(sa.subrange(0, 0), #[trigger] sb.subrange(0, k)),
        decreases m + 1 - j,
    {
        proof {
            assert(edit_distance(sa.subrange(0, 0), sb.subrange(0, j as int)) == j);
        }
        prev.push(j);
        j = j + 1;
    }
    let mut i: usize = 1;
    while i <= n
        invariant
            1 <= i <= n + 1,
            n == a@.len(),
            m == b@.len(),
            n < usize::MAX,
            m < usize::MAX,
            sa == a@.map_values(|w: &str| w@),
            sb == b@.map_values(|w: &str| w@),
            prev@.len() == m + 1,
            forall|k: int| 0 <= k <= m ==> prev@[k] == edit_distance(sa.subrange(0, i - 1), #[trigger] sb.subrange(0, k)),
        decreases n + 1 - i,
    {
        let mut cur: Vec<usize> = Vec::new();
        proof {
            lemma_edit_distance_bounded(sa.subrange(0, i as int), sb.subrange(0, 0));
        }
        cur.push(i);
        let mut j: usize = 1;
        while j <= m
            invariant
                1 <= i <= n,
                1 <= j <= m + 1,
                n == a@.len(),
                m == b@.len(),
                n < usize::MAX,
                m < usize::MAX,
                sa == a@.map_values(|w: &str| w@),
                sb == b@.map_values(|w: &str| w@),
                prev@.len() == m + 1,
                cur@.len() == j,
                forall|k: int| 0 <= k <= m ==> prev@[k] == edit_distance(sa.subrange(0, i - 1), #[trigger] sb.subrange(0, k)),
                forall|k: int| 0 <= k < j ==> cur@[k] == edit_distance(sa.subrange(0, i as int), #[trigger] sb.subrange(0, k)),
            decreases m + 1 - j,
        {
            let ghost ai = sa.subrange(0, i as int);
            let ghost bj = sb.subrange(0, j as int);
            proof {
                assert(ai.drop_last() =~= sa.subrange(0, i - 1));
                assert(bj.drop_last() =~= sb.subrange(0, j - 1));
                assert(ai.last() == a@[i - 1]@);
                assert(bj.last() == b@[j - 1]@);
                lemma_edit_distance_bounded(sa.subrange(0, i - 1), sb.subrange(0, j as int));
                lemma_edit_distance_bounded(ai, sb.subrange(0, j - 1));
                lemma_edit_distance_bounded(sa.subrange(0, i - 1), sb.subrange(0, j - 1));
                assert(prev@[j as int] == edit_distance(sa.subrange(0, i - 1), sb.subrange(0, j as int)));
                assert(cur@[j - 1] == edit_distance(ai, sb.subrange(0, j - 1)));
                assert(prev@[j - 1] == edit_distance(sa.subrange(0, i - 1), sb.subrange(0, j - 1)));
            }
            let cost: usize = if str_eq(a[i - 1], b[j - 1]) {
                0
            } else {
                1
            };
            let del = prev[j] + 1;
            let ins = cur[j - 1] + 1;
            let sub = prev[j - 1] + cost;
            let mm = if del <= ins {
                del
            } else {
                ins
            };
            let v = if mm <= sub {
                mm
            } else {
                sub
            };
            proof {
                assert(v == edit_distance(ai, bj));
            }
            cur.push(v);
            j = j + 1;
        }
        prev = cur;
        i = i + 1;
    }
    proof {
        assert(sa.subrange(0, n as int) =~= sa);
        assert(sb.subrange(0, m as int) =~= sb);
    }
    prev[m]
}

/// The word-level edit distance between a reference and a hypothesis, both
/// normalized and split into words, and the number of reference words. (A
/// list of `usize::MAX` words cannot be held in memory; the distance is only
/// computed below that.)
pub fn word_distance(reference: &str, hyp: &str) -> (r: (usize, usize))
    ensures
        r.1 == words(normalized(reference@)).len(),
        words(normalized(reference@)).len() < usize::MAX && words(normalized(hyp@)).len()
            < usize::MAX ==> r.0 == edit_distance(words(normalized(reference@)), words(normalized(hyp@))),
{
    let rn = normalize_text(reference);
    let hn = normalize_text(hyp);
    let ws = ws_list();
    let rw = split_fields(rn.as_str(), &ws);
    let hw = split_fields(hn.as_str(), &ws);
    let mut ra: Vec<&str> = Vec::new();
    let mut i: usize = 0;
    while i < rw.len()
        invariant
            i <= rw@.len(),
            ra@.len() == i,
            forall|k: int| 0 <= k < i ==> #[trigger] ra@[k]@ == rw@[k]@,
        decreases rw.len() - i,
    {
        ra.push(rw[i].as_str());
        i = i + 1;
    }
    let mut ha: Vec<&str> = Vec::new();
    let mut i: usize = 0;
    while i < hw.len()
        invariant
            i <= hw@.len(),
            ha@.len() == i,
            forall|k: int| 0 <= k < i ==> #[trigger] ha@[k]@ == hw@[k]@,
        decreases hw.len() - i,
    {
        ha.push(hw[i].as_str());
        i = i + 1;
    }
    assert(ra@.map_values(|w: &str| w@) =~= views(rw@));
    assert(ha@.map_values(|w: &str| w@) =~= views(hw@));
    if ra.len() == usize::MAX || ha.len() == usize::MAX {
        return (usize::MAX, rw.len());
    }
    let d = levenshtein_words(ra.as_slice(), ha.as_slice());
    (d, rw.len())
}

} // verus!
