//! Character-level text helpers shared by the configuration, routing and
//! output-cleaning logic. Every helper is specified over `Seq<char>`.
use vstd::prelude::*;

verus! {

/// Unicode `White_Space` property, which is what `char::is_whitespace` tests.
pub open spec fn is_ws(c: char) -> bool {
    let u = c as u32;
    ||| (0x09 <= u && u <= 0x0D)
    ||| u == 0x20
    ||| u == 0x85
    ||| u == 0xA0
    ||| u == 0x1680
    ||| (0x2000 <= u && u <= 0x200A)
    ||| u == 0x2028
    ||| u == 0x2029
    ||| u == 0x202F
    ||| u == 0x205F
    ||| u == 0x3000
}

/// ASCII lowercase of one character (non-ASCII-uppercase characters are kept).
pub open spec fn lower_char(c: char) -> char {
    if 'A' <= c && c <= 'Z' {
        ((c as u32) + 32) as char
    } else {
        c
    }
}

/// ASCII lowercase of a whole text.
pub open spec fn lower(s: Seq<char>) -> Seq<char> {
    Seq::new(s.len(), |i: int| lower_char(s[i]))
}

/// `s` without its leading whitespace.
pub open spec fn trim_start(s: Seq<char>) -> Seq<char>
    decreases s.len(),
{
    if s.len() > 0 && is_ws(s[0]) {
        trim_start(s.drop_first())
    } else {
        s
    }
}

/// `s` without its trailing whitespace.
pub open spec fn trim_end(s: Seq<char>) -> Seq<char>
    decreases s.len(),
{
    if s.len() > 0 && is_ws(s.last()) {
        trim_end(s.drop_last())
    } else {
        s
    }
}

/// `s` without leading and trailing whitespace (as `str::trim`).
pub open spec fn trim(s: Seq<char>) -> Seq<char> {
    trim_end(trim_start(s))
}

/// Lowercasing keeps whether a character is whitespace.
pub proof fn lemma_lower_char_ws(c: char)
    ensures
        is_ws(lower_char(c)) == is_ws(c),
        lower_char(lower_char(c)) == lower_char(c),
{
}

proof fn lemma_trim_start_shape(s: Seq<char>)
    ensures
        trim_start(s).len() == 0 || !is_ws(trim_start(s)[0]),
        trim_start(s).len() <= s.len(),
        trim_start(s) == s.subrange(s.len() - trim_start(s).len(), s.len() as int),
    decreases s.len(),
{
    if s.len() > 0 && is_ws(s[0]) {
        lemma_trim_start_shape(s.drop_first());
        assert(s.drop_first().subrange(
            s.drop_first().len() - trim_start(s.drop_first()).len(),
            s.drop_first().len() as int,
        ) =~= s.subrange(s.len() - trim_start(s).len(), s.len() as int));
    } else {
        assert(s.subrange(0, s.len() as int) =~= s);
    }
}

proof fn lemma_trim_end_shape(s: Seq<char>)
    ensures
        trim_end(s).len() == 0 || !is_ws(trim_end(s).last()),
        trim_end(s).len() <= s.len(),
        trim_end(s) == s.subrange(0, trim_end(s).len() as int),
    decreases s.len(),
{
    if s.len() > 0 && is_ws(s.last()) {
        lemma_trim_end_shape(s.drop_last());
        assert(s.drop_last().subrange(0, trim_end(s.drop_last()).len() as int) =~= s.subrange(
            0,
            trim_end(s).len() as int,
        ));
    } else {
        assert(s.subrange(0, s.len() as int) =~= s);
    }
}

/// A trimmed text starts and ends with a character that is not whitespace.
pub proof fn lemma_trim_shape(s: Seq<char>)
    ensures
        trim(s).len() == 0 || (!is_ws(trim(s)[0]) && !is_ws(trim(s).last())),
{
    lemma_trim_start_shape(s);
    lemma_trim_end_shape(trim_start(s));
    let t = trim_start(s);
    if trim(s).len() > 0 {
        assert(trim(s) == t.subrange(0, trim(s).len() as int));
        assert(trim(s)[0] == t[0]);
    }
}

/// A text that neither starts nor ends with whitespace is its own trim.
pub proof fn lemma_trim_fixed(s: Seq<char>)
    requires
        s.len() == 0 || (!is_ws(s[0]) && !is_ws(s.last())),
    ensures
        trim(s) == s,
{
    assert(trim_start(s) == s);
    assert(trim_end(s) == s);
}

/// Lowercasing a trimmed text leaves it trimmed, and lowercasing twice is
/// lowercasing once.
pub proof fn lemma_lower_trimmed(s: Seq<char>)
    ensures
        trim(lower(trim(s))) == lower(trim(s)),
        lower(lower(s)) == lower(s),
{
    lemma_trim_shape(s);
    let t = trim(s);
    let l = lower(t);
    if t.len() > 0 {
        lemma_lower_char_ws(t[0]);
        lemma_lower_char_ws(t.last());
        assert(l[0] == lower_char(t[0]));
        assert(l.last() == lower_char(t.last()));
    }
    lemma_trim_fixed(l);
    assert forall|i: int| 0 <= i < s.len() implies lower(lower(s))[i] == lower(s)[i] by {
        lemma_lower_char_ws(s[i]);
    }
    assert(lower(lower(s)) =~= lower(s));
}

/// `p` is a prefix of `s`.
pub open spec fn has_prefix(s: Seq<char>, p: Seq<char>) -> bool {
    p.len() <= s.len() && s.subrange(0, p.len() as int) == p
}

/// `p` is a suffix of `s`.
pub open spec fn has_suffix(s: Seq<char>, p: Seq<char>) -> bool {
    p.len() <= s.len() && s.subrange(s.len() - p.len(), s.len() as int) == p
}

/// `p` occurs in `s` starting at position `i`.
pub open spec fn occurs_at(s: Seq<char>, p: Seq<char>, i: int) -> bool {
    0 <= i && i + p.len() <= s.len() && s.subrange(i, i + p.len()) == p
}

/// `p` occurs somewhere in `s` (as `str::contains`).
pub open spec fn contains(s: Seq<char>, p: Seq<char>) -> bool {
    exists|i: int| occurs_at(s, p, i)
}

/// Appends one character to a string (`String::push`).
#[verifier::external_body]
pub(crate) fn push_char(s: &mut String, c: char)
    ensures
        final(s)@ == old(s)@.push(c),
{
    s.push(c);
}

/// The characters of a string slice, in order.
pub fn chars_of(s: &str) -> (v: Vec<char>)
    ensures
        v@ == s@,
{
    let mut v: Vec<char> = Vec::new();
    for c in it: s.chars()
        invariant
            v@ == it.seq().subrange(0, it.index() as int),
            it.seq() == s@,
    {
        v.push(c);
    }
    v
}

/// A string made of the characters `v[lo..hi]`.
pub fn string_of_range(v: &Vec<char>, lo: usize, hi: usize) -> (s: String)
    requires
        lo <= hi <= v.len(),
    ensures
        s@ == v@.subrange(lo as int, hi as int),
{
    let mut s = String::new();
    let mut i = lo;
    while i < hi
        invariant
            lo <= i <= hi <= v.len(),
            s@ == v@.subrange(lo as int, i as int),
        decreases hi - i,
    {
        push_char(&mut s, v[i]);
        assert(v@.subrange(lo as int, i + 1) == v@.subrange(lo as int, i as int).push(v@[i as int]));
        i = i + 1;
    }
    s
}

/// A string made of all the characters of `v`.
pub fn string_of(v: &Vec<char>) -> (s: String)
    ensures
        s@ == v@,
{
    let s = string_of_range(v, 0, v.len());
    assert(v@.subrange(0, v@.len() as int) == v@);
    s
}

/// Copies a string slice into an owned string.
pub fn owned(s: &str) -> (r: String)
    ensures
        r@ == s@,
{
    let v = chars_of(s);
    string_of(&v)
}

/// Whether `c` is a whitespace character (as `char::is_whitespace`).
pub fn char_is_ws(c: char) -> (b: bool)
    ensures
        b == is_ws(c),
{
    let u = c as u32;
    (0x09 <= u && u <= 0x0D) || u == 0x20 || u == 0x85 || u == 0xA0 || u == 0x1680 || (0x2000
        <= u && u <= 0x200A) || u == 0x2028 || u == 0x2029 || u == 0x202F || u == 0x205F || u
        == 0x3000
}

/// ASCII lowercase of one character (as `char::to_ascii_lowercase`).
pub fn char_lower(c: char) -> (r: char)
    ensures
        r == lower_char(c),
{
    if 'A' <= c && c <= 'Z' {
        let b: u8 = c as u8;
        let r = (b + 32) as char;
        r
    } else {
        c
    }
}

/// Whether two character sequences are equal.
pub fn seq_eq(a: &Vec<char>, b: &Vec<char>) -> (r: bool)
    ensures
        r == (a@ == b@),
{
    if a.len() != b.len() {
        return false;
    }
    let mut i: usize = 0;
    while i < a.len()
        invariant
            a.len() == b.len(),
            i <= a.len(),
            forall|k: int| 0 <= k < i ==> a@[k] == b@[k],
        decreases a.len() - i,
    {
        if a[i] != b[i] {
            return false;
        }
        i = i + 1;
    }
    assert(a@ =~= b@);
    true
}

/// Whether two strings are equal.
pub fn str_eq(a: &str, b: &str) -> (r: bool)
    ensures
        r == (a@ == b@),
{
    let va = chars_of(a);
    let vb = chars_of(b);
    seq_eq(&va, &vb)
}

/// Whether `v` equals the string `b`.
pub fn chars_eq_str(v: &Vec<char>, b: &str) -> (r: bool)
    ensures
        r == (v@ == b@),
{
    let vb = chars_of(b);
    seq_eq(v, &vb)
}

/// ASCII lowercase of a character sequence.
pub fn lower_chars(v: &Vec<char>) -> (r: Vec<char>)
    ensures
        r@ == lower(v@),
{
    let mut r: Vec<char> = Vec::new();
    let mut i: usize = 0;
    while i < v.len()
        invariant
            i <= v.len(),
            r@.len() == i,
            forall|k: int| 0 <= k < i ==> r@[k] == lower_char(v@[k]),
        decreases v.len() - i,
    {
        r.push(char_lower(v[i]));
        i = i + 1;
    }
    assert(r@ =~= lower(v@));
    r
}

proof fn lemma_trim_start_skip(s: Seq<char>, i: int)
    requires
        0 <= i <= s.len(),
        forall|k: int| 0 <= k < i ==> is_ws(s[k]),
    ensures
        trim_start(s) == trim_start(s.subrange(i, s.len() as int)),
    decreases i,
{
    if i > 0 {
        assert(s.drop_first() == s.subrange(1, s.len() as int));
        lemma_trim_start_skip(s.drop_first(), i - 1);
        assert(s.drop_first().subrange(i - 1, s.drop_first().len() as int) == s.subrange(
            i,
            s.len() as int,
        ));
    } else {
        assert(s.subrange(0, s.len() as int) == s);
    }
}

proof fn lemma_trim_end_skip(s: Seq<char>, j: int)
    requires
        0 <= j <= s.len(),
        forall|k: int| j <= k < s.len() ==> is_ws(s[k]),
    ensures
        trim_end(s) == trim_end(s.subrange(0, j)),
    decreases s.len() - j,
{
    if j < s.len() {
        assert(s.drop_last() == s.subrange(0, s.len() - 1));
        lemma_trim_end_skip(s.drop_last(), j);
        assert(s.drop_last().subrange(0, j) == s.subrange(0, j));
    } else {
        assert(s.subrange(0, j) == s);
    }
}

/// Bounds `(lo, hi)` such that `v[lo..hi]` is `v` trimmed.
pub fn trim_bounds(v: &Vec<char>) -> (r: (usize, usize))
    ensures
        r.0 <= r.1 <= v.len(),
        v@.subrange(r.0 as int, r.1 as int) == trim(v@),
{
    let mut lo: usize = 0;
    while lo < v.len() && char_is_ws(v[lo])
        invariant
            lo <= v.len(),
            forall|k: int| 0 <= k < lo ==> is_ws(v@[k]),
        decreases v.len() - lo,
    {
        lo = lo + 1;
    }
    proof {
        lemma_trim_start_skip(v@, lo as int);
    }
    let ghost t = v@.subrange(lo as int, v.len() as int);
    assert(trim_start(t) == t);
    let mut hi: usize = v.len();
    while hi > lo && char_is_ws(v[hi - 1])
        invariant
            lo <= hi <= v.len(),
            forall|k: int| hi <= k < v.len() ==> is_ws(v@[k]),
        decreases hi,
    {
        hi = hi - 1;
    }
    proof {
        assert forall|k: int| hi - lo <= k < t.len() implies is_ws(t[k]) by {
            assert(t[k] == v@[k + lo]);
        }
        lemma_trim_end_skip(t, hi - lo);
        assert(t.subrange(0, hi - lo) == v@.subrange(lo as int, hi as int));
        let u = v@.subrange(lo as int, hi as int);
        if u.len() > 0 {
            assert(u.last() == v@[hi - 1]);
        }
        assert(trim_end(u) == u);
    }
    (lo, hi)
}

/// `v` without leading and trailing whitespace.
pub fn trim_chars(v: &Vec<char>) -> (r: Vec<char>)
    ensures
        r@ == trim(v@),
{
    let (lo, hi) = trim_bounds(v);
    let mut r: Vec<char> = Vec::new();
    let mut i = lo;
    while i < hi
        invariant
            lo <= i <= hi <= v.len(),
            r@ == v@.subrange(lo as int, i as int),
        decreases hi - i,
    {
        r.push(v[i]);
        assert(v@.subrange(lo as int, i + 1) == v@.subrange(lo as int, i as int).push(v@[i as int]));
        i = i + 1;
    }
    r
}

/// Trimmed and ASCII-lowercased characters of `s` (as `s.trim().to_ascii_lowercase()`).
pub fn trim_lower(s: &str) -> (r: Vec<char>)
    ensures
        r@ == lower(trim(s@)),
{
    let v = chars_of(s);
    let t = trim_chars(&v);
    lower_chars(&t)
}

/// Whether `p` is a prefix of `v`.
pub fn starts_with(v: &Vec<char>, p: &Vec<char>) -> (r: bool)
    ensures
        r == has_prefix(v@, p@),
{
    if p.len() > v.len() {
        return false;
    }
    let mut i: usize = 0;
    while i < p.len()
        invariant
            p.len() <= v.len(),
            i <= p.len(),
            forall|k: int| 0 <= k < i ==> v@[k] == p@[k],
        decreases p.len() - i,
    {
        if v[i] != p[i] {
            assert(v@.subrange(0, p.len() as int)[i as int] != p@[i as int]);
            return false;
        }
        i = i + 1;
    }
    assert(v@.subrange(0, p.len() as int) =~= p@);
    true
}

/// Whether `p` occurs in `v` at position `at`.
pub fn matches_at(v: &Vec<char>, p: &Vec<char>, at: usize) -> (r: bool)
    ensures
        r == occurs_at(v@, p@, at as int),
{
    if at > v.len() || p.len() > v.len() - at {
        return false;
    }
    let mut i: usize = 0;
    while i < p.len()
        invariant
            at + p.len() <= v.len(),
            i <= p.len(),
            forall|k: int| 0 <= k < i ==> v@[at + k] == p@[k],
        decreases p.len() - i,
    {
        if v[at + i] != p[i] {
            assert(v@.subrange(at as int, at + p.len())[i as int] != p@[i as int]);
            return false;
        }
        i = i + 1;
    }
    assert(v@.subrange(at as int, at + p.len()) =~= p@);
    true
}

/// Whether `p` is a suffix of `v`.
pub fn ends_with(v: &Vec<char>, p: &Vec<char>) -> (r: bool)
    ensures
        r == has_suffix(v@, p@),
{
    if p.len() > v.len() {
        return false;
    }
    matches_at(v, p, v.len() - p.len())
}

/// Whether `p` occurs anywhere in `v`.
pub fn contains_chars(v: &Vec<char>, p: &Vec<char>) -> (r: bool)
    ensures
        r == contains(v@, p@),
{
    if p.len() > v.len() {
        assert forall|i: int| !occurs_at(v@, p@, i) by {}
        return false;
    }
    if p.len() == 0 {
        assert(v@.subrange(0, 0) =~= p@);
        assert(occurs_at(v@, p@, 0));
        return true;
    }
    let mut at: usize = 0;
    while at <= v.len() - p.len()
        invariant
            0 < p.len() <= v.len(),
            forall|i: int| 0 <= i < at ==> !occurs_at(v@, p@, i),
        decreases v.len() - p.len() + 1 - at,
    {
        if matches_at(v, p, at) {
            return true;
        }
        at = at + 1;
    }
    assert forall|i: int| !occurs_at(v@, p@, i) by {}
    false
}

/// Whether the string `p` occurs in `v`.
pub fn contains_str(v: &Vec<char>, p: &str) -> (r: bool)
    ensures
        r == contains(v@, p@),
{
    let pv = chars_of(p);
    contains_chars(v, &pv)
}

/// Whether `v` starts with the string `p`.
pub fn starts_with_str(v: &Vec<char>, p: &str) -> (r: bool)
    ensures
        r == has_prefix(v@, p@),
{
    let pv = chars_of(p);
    starts_with(v, &pv)
}

/// Whether `v` ends with the string `p`.
pub fn ends_with_str(v: &Vec<char>, p: &str) -> (r: bool)
    ensures
        r == has_suffix(v@, p@),
{
    let pv = chars_of(p);
    ends_with(v, &pv)
}

/// The characters `v[lo..hi]`.
pub fn sub_chars(v: &Vec<char>, lo: usize, hi: usize) -> (r: Vec<char>)
    requires
        lo <= hi <= v.len(),
    ensures
        r@ == v@.subrange(lo as int, hi as int),
{
    let mut r: Vec<char> = Vec::new();
    let mut i = lo;
    while i < hi
        invariant
            lo <= i <= hi <= v.len(),
            r@ == v@.subrange(lo as int, i as int),
        decreases hi - i,
    {
        r.push(v[i]);
        assert(v@.subrange(lo as int, i + 1) == v@.subrange(lo as int, i as int).push(v@[i as int]));
        i = i + 1;
    }
    r
}

/// Appends the characters of `s` to `out`.
pub fn push_str(out: &mut String, s: &str)
    ensures
        final(out)@ == old(out)@ + s@,
{
    let v = chars_of(s);
    push_chars(out, &v);
}

/// Appends the characters of `v` to `out`.
pub fn push_chars(out: &mut String, v: &Vec<char>)
    ensures
        final(out)@ == old(out)@ + v@,
{
    let ghost start = out@;
    let mut i: usize = 0;
    while i < v.len()
        invariant
            i <= v.len(),
            out@ == start + v@.subrange(0, i as int),
        decreases v.len() - i,
    {
        push_char(out, v[i]);
        assert(v@.subrange(0, i + 1) == v@.subrange(0, i as int).push(v@[i as int]));
        i = i + 1;
    }
    assert(v@.subrange(0, v.len() as int) == v@);
}


/// The pieces of `s` between separator characters (a separator at either end
/// gives an empty piece), as `str::split` yields them.
pub open spec fn segments(s: Seq<char>, seps: Seq<char>) -> Seq<Seq<char>>
    decreases s.len(),
{
    if s.len() == 0 {
        seq![Seq::<char>::empty()]
    } else {
        let parts = segments(s.drop_last(), seps);
        if seps.contains(s.last()) {
            parts.push(Seq::<char>::empty())
        } else {
            parts.update(parts.len() - 1, parts.last().push(s.last()))
        }
    }
}

/// Each piece trimmed, the empty ones left out, in order.
pub open spec fn trimmed_nonempty(parts: Seq<Seq<char>>) -> Seq<Seq<char>>
    decreases parts.len(),
{
    if parts.len() == 0 {
        Seq::empty()
    } else {
        let rest = trimmed_nonempty(parts.drop_last());
        if trim(parts.last()).len() > 0 {
            rest.push(trim(parts.last()))
        } else {
            rest
        }
    }
}

/// The non-empty trimmed fields of `s` between separator characters.
pub open spec fn fields(s: Seq<char>, seps: Seq<char>) -> Seq<Seq<char>> {
    trimmed_nonempty(segments(s, seps))
}

/// `parts` joined with `sep` between consecutive parts (as `join`).
pub open spec fn join(parts: Seq<Seq<char>>, sep: Seq<char>) -> Seq<char>
    decreases parts.len(),
{
    if parts.len() == 0 {
        Seq::empty()
    } else if parts.len() == 1 {
        parts[0]
    } else {
        join(parts.drop_last(), sep) + sep + parts.last()
    }
}

proof fn lemma_segments_nonempty(s: Seq<char>, seps: Seq<char>)
    ensures
        segments(s, seps).len() >= 1,
    decreases s.len(),
{
    if s.len() > 0 {
        lemma_segments_nonempty(s.drop_last(), seps);
    }
}

/// Appending characters that are no separators extends the last piece.
proof fn lemma_segments_plain(a: Seq<char>, b: Seq<char>, seps: Seq<char>)
    requires
        forall|k: int| 0 <= k < b.len() ==> !seps.contains(#[trigger] b[k]),
    ensures
        segments(a + b, seps) == segments(a, seps).update(
            segments(a, seps).len() - 1,
            segments(a, seps).last() + b,
        ),
    decreases b.len(),
{
    lemma_segments_nonempty(a, seps);
    let sa = segments(a, seps);
    if b.len() == 0 {
        assert(a + b == a);
        assert(sa.last() + b == sa.last());
        assert(sa.update(sa.len() - 1, sa.last()) == sa);
    } else {
        let b0 = b.drop_last();
        lemma_segments_plain(a, b0, seps);
        assert((a + b).drop_last() == a + b0);
        assert((a + b).last() == b.last());
        assert(!seps.contains(b[b.len() - 1]));
        assert(sa.last() + b0 + seq![b.last()] == sa.last() + b);
        assert((sa.last() + b0).push(b.last()) == sa.last() + b);
        assert(segments(a + b, seps) =~= sa.update(sa.len() - 1, sa.last() + b));
    }
}

/// Joining pieces that hold no separator with one separator character, then
/// splitting at it, gives the pieces back.
pub proof fn lemma_segments_join(parts: Seq<Seq<char>>, c: char)
    requires
        parts.len() >= 1,
        forall|i: int| 0 <= i < parts.len() ==> !(#[trigger] parts[i]).contains(c),
    ensures
        segments(join(parts, seq![c]), seq![c]) == parts,
    decreases parts.len(),
{
    let seps = seq![c];
    assert forall|p: Seq<char>| #![auto] !p.contains(c) implies (forall|k: int|
        0 <= k < p.len() ==> !seps.contains(#[trigger] p[k])) by {
        assert forall|k: int| 0 <= k < p.len() implies !seps.contains(#[trigger] p[k]) by {
            if seps.contains(p[k]) {
                assert(seps[0] == c);
                assert(p.contains(c));
            }
        }
    }
    if parts.len() == 1 {
        let e = Seq::<char>::empty();
        assert(!parts[0].contains(c));
        lemma_segments_plain(e, parts[0], seps);
        assert(e + parts[0] == parts[0]);
        assert(segments(e, seps) == seq![e]);
        assert(segments(parts[0], seps) =~= parts);
    } else {
        let init = parts.drop_last();
        assert forall|i: int| 0 <= i < init.len() implies !(#[trigger] init[i]).contains(c) by {
            assert(init[i] == parts[i]);
        }
        lemma_segments_join(init, c);
        let j = join(init, seps);
        let js = j + seps;
        assert(js.drop_last() == j);
        assert(js.last() == c);
        assert(seps.contains(c));
        assert(segments(js, seps) == init.push(Seq::<char>::empty()));
        assert(!parts.last().contains(c));
        assert(!parts[parts.len() - 1].contains(c));
        lemma_segments_plain(js, parts.last(), seps);
        assert(Seq::<char>::empty() + parts.last() == parts.last());
        assert(init.push(Seq::<char>::empty()).update(init.len() as int, parts.last()) =~= parts);
    }
}

/// No piece between separators holds a separator.
pub proof fn lemma_segments_no_sep(s: Seq<char>, seps: Seq<char>)
    ensures
        forall|i: int, k: int|
            0 <= i < segments(s, seps).len() && 0 <= k < segments(s, seps)[i].len()
                ==> !seps.contains(#[trigger] segments(s, seps)[i][k]),
    decreases s.len(),
{
    if s.len() > 0 {
        lemma_segments_no_sep(s.drop_last(), seps);
        lemma_segments_nonempty(s.drop_last(), seps);
        let p = segments(s.drop_last(), seps);
        let r = segments(s, seps);
        if !seps.contains(s.last()) {
            assert forall|i: int, k: int| 0 <= i < r.len() && 0 <= k < r[i].len() implies !seps.contains(
                #[trigger] r[i][k],
            ) by {
                if i == p.len() - 1 {
                    assert(r[i] == p.last().push(s.last()));
                    if k < p.last().len() {
                        assert(r[i][k] == p[p.len() - 1][k]);
                    }
                } else {
                    assert(r[i] == p[i]);
                }
            }
        } else {
            assert forall|i: int, k: int| 0 <= i < r.len() && 0 <= k < r[i].len() implies !seps.contains(
                #[trigger] r[i][k],
            ) by {
                assert(i < p.len());
                assert(r[i] == p[i]);
            }
        }
    }
}

/// Trimming keeps only characters of the text.
pub proof fn lemma_trim_keeps_chars(s: Seq<char>)
    ensures
        forall|k: int| 0 <= k < trim(s).len() ==> s.contains(#[trigger] trim(s)[k]),
{
    lemma_trim_start_shape(s);
    let t = trim_start(s);
    lemma_trim_end_shape(t);
    let off = s.len() - t.len();
    assert forall|k: int| 0 <= k < trim(s).len() implies s.contains(#[trigger] trim(s)[k]) by {
        assert(trim(s)[k] == t[k]);
        assert(t[k] == s[off + k]);
    }
}

/// Trimming a trimmed text changes nothing.
pub proof fn lemma_trim_idempotent(s: Seq<char>)
    ensures
        trim(trim(s)) == trim(s),
{
    lemma_trim_shape(s);
    lemma_trim_fixed(trim(s));
}

/// Pieces that are trimmed and non-empty pass through unchanged.
pub proof fn lemma_trimmed_nonempty_fixed(parts: Seq<Seq<char>>)
    requires
        forall|i: int| 0 <= i < parts.len() ==> (#[trigger] parts[i]).len() > 0 && trim(parts[i]) == parts[i],
    ensures
        trimmed_nonempty(parts) == parts,
    decreases parts.len(),
{
    if parts.len() > 0 {
        let init = parts.drop_last();
        assert forall|i: int| 0 <= i < init.len() implies (#[trigger] init[i]).len() > 0 && trim(init[i]) == init[i] by {
            assert(init[i] == parts[i]);
        }
        lemma_trimmed_nonempty_fixed(init);
        assert(parts.last() == parts[parts.len() - 1]);
        assert(init.push(parts.last()) =~= parts);
    }
}

/// Every field is non-empty, trimmed and free of separators.
pub proof fn lemma_fields_shape(s: Seq<char>, seps: Seq<char>)
    ensures
        forall|i: int| 0 <= i < fields(s, seps).len() ==> {
            &&& (#[trigger] fields(s, seps)[i]).len() > 0
            &&& trim(fields(s, seps)[i]) == fields(s, seps)[i]
            &&& forall|k: int| 0 <= k < fields(s, seps)[i].len() ==> !seps.contains(#[trigger] fields(s, seps)[i][k])
        },
{
    lemma_segments_no_sep(s, seps);
    lemma_trimmed_nonempty_shape(segments(s, seps), seps);
}

proof fn lemma_trimmed_nonempty_shape(parts: Seq<Seq<char>>, seps: Seq<char>)
    requires
        forall|i: int, k: int|
            0 <= i < parts.len() && 0 <= k < parts[i].len() ==> !seps.contains(#[trigger] parts[i][k]),
    ensures
        forall|i: int| 0 <= i < trimmed_nonempty(parts).len() ==> {
            &&& (#[trigger] trimmed_nonempty(parts)[i]).len() > 0
            &&& trim(trimmed_nonempty(parts)[i]) == trimmed_nonempty(parts)[i]
            &&& forall|k: int| 0 <= k < trimmed_nonempty(parts)[i].len() ==> !seps.contains(#[trigger] trimmed_nonempty(parts)[i][k])
        },
    decreases parts.len(),
{
    if parts.len() > 0 {
        let init = parts.drop_last();
        assert forall|i: int, k: int| 0 <= i < init.len() && 0 <= k < init[i].len() implies !seps.contains(
            #[trigger] init[i][k],
        ) by {
            assert(init[i] == parts[i]);
        }
        lemma_trimmed_nonempty_shape(init, seps);
        let p = parts.last();
        let t = trim(p);
        let rest = trimmed_nonempty(init);
        let r = trimmed_nonempty(parts);
        if t.len() > 0 {
            lemma_trim_idempotent(p);
            lemma_trim_keeps_chars(p);
            assert forall|k: int| 0 <= k < t.len() implies !seps.contains(#[trigger] t[k]) by {
                assert(p.contains(t[k]));
                let j = choose|j: int| 0 <= j < p.len() && p[j] == t[k];
                assert(parts[parts.len() - 1][j] == t[k]);
            }
            assert(r == rest.push(t));
            assert forall|i: int| 0 <= i < r.len() implies {
                &&& (#[trigger] r[i]).len() > 0
                &&& trim(r[i]) == r[i]
                &&& forall|k: int| 0 <= k < r[i].len() ==> !seps.contains(#[trigger] r[i][k])
            } by {
                if i < rest.len() {
                    assert(r[i] == rest[i]);
                } else {
                    assert(r[i] == t);
                }
            }
        } else {
            assert(r == rest);
        }
    }
}

fn char_in(c: char, seps: &Vec<char>) -> (b: bool)
    ensures
        b == seps@.contains(c),
{
    let mut i: usize = 0;
    while i < seps.len()
        invariant
            i <= seps.len(),
            forall|k: int| 0 <= k < i ==> seps@[k] != c,
        decreases seps.len() - i,
    {
        if seps[i] == c {
            assert(seps@[i as int] == c);
            return true;
        }
        i = i + 1;
    }
    false
}

/// The non-empty trimmed fields of `s` between the separator characters `seps`.
pub fn split_fields(s: &str, seps: &Vec<char>) -> (r: Vec<String>)
    ensures
        crate::governance::views(r@) == fields(s@, seps@),
{
    let v = chars_of(s);
    let mut out: Vec<String> = Vec::new();
    let mut cur: Vec<char> = Vec::new();
    let mut i: usize = 0;
    proof {
        assert(v@.subrange(0, 0) =~= Seq::<char>::empty());
    }
    while i < v.len()
        invariant
            i <= v@.len(),
            v@ == s@,
            segments(v@.subrange(0, i as int), seps@) == trimmed_parts_done(v@, seps@, i as int).push(cur@),
            crate::governance::views(out@) == trimmed_nonempty(trimmed_parts_done(v@, seps@, i as int)),
        decreases v.len() - i,
    {
        let c = v[i];
        let ghost pre = v@.subrange(0, i as int);
        proof {
            assert(v@.subrange(0, i + 1).drop_last() == pre);
            assert(v@.subrange(0, i + 1).last() == c);
            lemma_segments_nonempty(pre, seps@);
        }
        if char_in(c, seps) {
            let t = trim_chars(&cur);
            let ghost done_before = trimmed_parts_done(v@, seps@, i as int);
            if t.len() > 0 {
                out.push(string_of(&t));
                proof {
                    let d2 = done_before.push(cur@);
                    assert(d2.drop_last() == done_before);
                    assert(crate::governance::views(out@) =~= trimmed_nonempty(done_before).push(t@));
                }
            } else {
                proof {
                    let d2 = done_before.push(cur@);
                    assert(d2.drop_last() == done_before);
                }
            }
            proof {
                assert(trimmed_parts_done(v@, seps@, i + 1) == done_before.push(cur@));
            }
            cur = Vec::new();
            proof {
                assert(segments(v@.subrange(0, i + 1), seps@) =~= trimmed_parts_done(v@, seps@, i + 1).push(cur@));
            }
        } else {
            proof {
                assert(trimmed_parts_done(v@, seps@, i + 1) == trimmed_parts_done(v@, seps@, i as int));
            }
            cur.push(c);
            proof {
                assert(segments(v@.subrange(0, i + 1), seps@) =~= trimmed_parts_done(v@, seps@, i + 1).push(cur@));
            }
        }
        i = i + 1;
    }
    let t = trim_chars(&cur);
    let ghost done = trimmed_parts_done(v@, seps@, v@.len() as int);
    proof {
        assert(v@.subrange(0, v@.len() as int) == v@);
        let all = done.push(cur@);
        assert(all.drop_last() == done);
    }
    if t.len() > 0 {
        out.push(string_of(&t));
        assert(crate::governance::views(out@) =~= trimmed_nonempty(done).push(t@));
    }
    out
}

/// The pieces of `v[..i]` that a separator has already closed.
pub open spec fn trimmed_parts_done(v: Seq<char>, seps: Seq<char>, i: int) -> Seq<Seq<char>> {
    segments(v.subrange(0, i), seps).drop_last()
}

/// `parts` joined with `sep`.
pub fn join_strings(parts: &Vec<String>, sep: &str) -> (r: String)
    ensures
        r@ == join(crate::governance::views(parts@), sep@),
{
    let mut r = String::new();
    let mut i: usize = 0;
    while i < parts.len()
        invariant
            i <= parts@.len(),
            r@ == join(crate::governance::views(parts@).subrange(0, i as int), sep@),
        decreases parts.len() - i,
    {
        let ghost ps = crate::governance::views(parts@);
        proof {
            assert(ps.subrange(0, i + 1).drop_last() == ps.subrange(0, i as int));
            assert(ps.subrange(0, i + 1).last() == parts@[i as int]@);
        }
        if i > 0 {
            push_str(&mut r, sep);
        } else {
            assert(ps.subrange(0, 1) =~= seq![parts@[0]@]);
        }
        push_str(&mut r, parts[i].as_str());
        i = i + 1;
    }
    assert(crate::governance::views(parts@).subrange(0, parts@.len() as int) == crate::governance::views(parts@));
    r
}


/// The decimal digit character of `d` (0..=9).
pub open spec fn digit_char(d: nat) -> char {
    ((d + 48) as u32) as char
}

/// The decimal representation of `n`, without leading zeros.
pub open spec fn decimal(n: nat) -> Seq<char>
    decreases n,
{
    if n < 10 {
        seq![digit_char(n)]
    } else {
        decimal(n / 10).push(digit_char(n % 10))
    }
}

/// The decimal representation of `n` (as `n.to_string()`).
pub fn usize_to_decimal(n: usize) -> (s: String)
    ensures
        s@ == decimal(n as nat),
{
    let mut digits: Vec<char> = Vec::new();
    let mut m = n;
    assert(digits@.reverse() =~= Seq::<char>::empty());
    loop
        invariant_except_break
            decimal(n as nat) == decimal(m as nat) + digits@.reverse(),
        ensures
            decimal(n as nat) == digits@.reverse(),
        decreases m,
    {
        let d = m % 10;
        let c = ((d as u8) + 48) as char;
        assert(c == digit_char(d as nat));
        let ghost before = digits@;
        digits.push(c);
        assert(digits@.reverse() =~= seq![c] + before.reverse());
        if m < 10 {
            assert(decimal(m as nat) == seq![c]);
            break;
        }
        assert(decimal(m as nat) == decimal((m / 10) as nat).push(c));
        assert(decimal((m / 10) as nat).push(c) + before.reverse() =~= decimal((m / 10) as nat) + (
        seq![c] + before.reverse()));
        m = m / 10;
    }
    let mut out = String::new();
    let mut i = digits.len();
    while i > 0
        invariant
            i <= digits@.len(),
            out@ == digits@.subrange(i as int, digits@.len() as int).reverse(),
        decreases i,
    {
        i = i - 1;
        push_char(&mut out, digits[i]);
        assert(digits@.subrange(i as int, digits@.len() as int).reverse() =~= digits@.subrange(
            i + 1,
            digits@.len() as int,
        ).reverse().push(digits@[i as int]));
    }
    assert(digits@.subrange(0, digits@.len() as int) == digits@);
    out
}

} // verus!
