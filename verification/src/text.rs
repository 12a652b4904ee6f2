//! Character-level helpers shared by the text-handling modules: Unicode
//! white space, trimming, and splitting off the first word.

use vstd::prelude::*;

verus! {

broadcast use vstd::string::group_string_axioms;

/// Unicode `White_Space`, the property that `char::is_whitespace` tests and
/// that `str::trim` and `str::split_whitespace` go by.
pub open spec fn is_white_space(c: char) -> bool {
    let u = c as u32;
    ||| 0x9 <= u <= 0xd
    ||| u == 0x20
    ||| u == 0x85
    ||| u == 0xa0
    ||| u == 0x1680
    ||| 0x2000 <= u <= 0x200a
    ||| u == 0x2028
    ||| u == 0x2029
    ||| u == 0x202f
    ||| u == 0x205f
    ||| u == 0x3000
}

/// `s` without its leading white space.
pub open spec fn trim_start(s: Seq<char>) -> Seq<char>
    decreases s.len(),
{
    if s.len() > 0 && is_white_space(s[0]) {
        trim_start(s.drop_first())
    } else {
        s
    }
}

/// `s` without its trailing white space.
pub open spec fn trim_end(s: Seq<char>) -> Seq<char>
    decreases s.len(),
{
    if s.len() > 0 && is_white_space(s.last()) {
        trim_end(s.drop_last())
    } else {
        s
    }
}

/// `s` without white space at either end.
pub open spec fn trim(s: Seq<char>) -> Seq<char> {
    trim_end(trim_start(s))
}

/// The run of non-white-space characters that `s` starts with.
pub open spec fn leading_word(s: Seq<char>) -> Seq<char>
    decreases s.len(),
{
    if s.len() == 0 || is_white_space(s[0]) {
        Seq::empty()
    } else {
        seq![s[0]] + leading_word(s.drop_first())
    }
}

/// The first white-space-separated word of `s`, if it has one.
pub open spec fn first_word(s: Seq<char>) -> Option<Seq<char>> {
    let rest = trim_start(s);
    if rest.len() == 0 {
        None
    } else {
        Some(leading_word(rest))
    }
}

proof fn lemma_trim_start_split(s: Seq<char>) -> (k: int)
    ensures
        0 <= k <= s.len(),
        trim_start(s) == s.skip(k),
        forall|i: int| 0 <= i < k ==> is_white_space(#[trigger] s[i]),
        k < s.len() ==> !is_white_space(s[k]),
    decreases s.len(),
{
    if s.len() > 0 && is_white_space(s[0]) {
        let k1 = lemma_trim_start_split(s.drop_first());
        assert(s.drop_first().skip(k1) =~= s.skip(k1 + 1));
        assert forall|i: int| 0 <= i < k1 + 1 implies is_white_space(#[trigger] s[i]) by {
            if i > 0 {
                assert(s[i] == s.drop_first()[i - 1]);
            }
        }
        k1 + 1
    } else {
        assert(s.skip(0) =~= s);
        0
    }
}

proof fn lemma_trim_end_split(s: Seq<char>) -> (e: int)
    ensures
        0 <= e <= s.len(),
        trim_end(s) == s.take(e),
        forall|i: int| e <= i < s.len() ==> is_white_space(#[trigger] s[i]),
        e > 0 ==> !is_white_space(s[e - 1]),
    decreases s.len(),
{
    if s.len() > 0 && is_white_space(s.last()) {
        let e1 = lemma_trim_end_split(s.drop_last());
        assert(s.drop_last().take(e1) =~= s.take(e1));
        assert forall|i: int| e1 <= i < s.len() implies is_white_space(#[trigger] s[i]) by {
            if i < s.len() - 1 {
                assert(s[i] == s.drop_last()[i]);
            }
        }
        e1
    } else {
        assert(s.take(s.len() as int) =~= s);
        s.len() as int
    }
}

proof fn lemma_leading_word_split(t: Seq<char>) -> (j: int)
    ensures
        0 <= j <= t.len(),
        leading_word(t) == t.take(j),
        forall|i: int| 0 <= i < j ==> !is_white_space(#[trigger] t[i]),
        j < t.len() ==> is_white_space(t[j]),
    decreases t.len(),
{
    if t.len() == 0 || is_white_space(t[0]) {
        assert(t.take(0) =~= Seq::<char>::empty());
        0
    } else {
        let j1 = lemma_leading_word_split(t.drop_first());
        assert(seq![t[0]] + t.drop_first().take(j1) =~= t.take(j1 + 1));
        assert forall|i: int| 0 <= i < j1 + 1 implies !is_white_space(#[trigger] t[i]) by {
            if i > 0 {
                assert(t[i] == t.drop_first()[i - 1]);
            }
        }
        j1 + 1
    }
}

/// Trimming removes exactly the white space at either end: the trimmed
/// text is a stretch of the text, everything before and after it is white
/// space, and it neither starts nor ends with white space.
pub proof fn lemma_trim_strips_white_space(s: Seq<char>)
    ensures
        exists|a: int, b: int|
            {
                &&& 0 <= a <= b <= s.len()
                &&& trim(s) == s.subrange(a, b)
                &&& forall|i: int| 0 <= i < a ==> is_white_space(#[trigger] s[i])
                &&& forall|i: int| b <= i < s.len() ==> is_white_space(#[trigger] s[i])
                &&& a < b ==> !is_white_space(s[a]) && !is_white_space(s[b - 1])
            },
{
    let k = lemma_trim_start_split(s);
    let t = s.skip(k);
    let e = lemma_trim_end_split(t);
    assert(t.take(e) =~= s.subrange(k, k + e));
    assert forall|i: int| k + e <= i < s.len() implies is_white_space(#[trigger] s[i]) by {
        assert(s[i] == t[i - k]);
    }
    if 0 < e {
        assert(s[k] == t[0]);
        assert(s[k + e - 1] == t[e - 1]);
        if e < t.len() {
            assert(!is_white_space(t[0]));
        }
    }
    assert({
        &&& 0 <= k <= k + e <= s.len()
        &&& trim(s) == s.subrange(k, k + e)
        &&& forall|i: int| 0 <= i < k ==> is_white_space(#[trigger] s[i])
        &&& forall|i: int| k + e <= i < s.len() ==> is_white_space(#[trigger] s[i])
        &&& k < k + e ==> !is_white_space(s[k]) && !is_white_space(s[k + e - 1])
    });
}

/// `w` stands in `s` at `a` as a word that only white space precedes: a
/// nonempty run of non-white-space characters followed by white space or
/// the end of `s`.
pub open spec fn first_run_at(s: Seq<char>, a: int, w: Seq<char>) -> bool {
    &&& 0 <= a
    &&& a + w.len() <= s.len()
    &&& w.len() > 0
    &&& s.subrange(a, a + w.len()) == w
    &&& forall|i: int| 0 <= i < a ==> is_white_space(#[trigger] s[i])
    &&& forall|i: int| 0 <= i < w.len() ==> !is_white_space(#[trigger] w[i])
    &&& a + w.len() < s.len() ==> is_white_space(s[a + w.len()])
}

/// The first word of a text is its first run of non-white-space
/// characters: a text has none exactly when it is all white space, and
/// otherwise the word is a nonempty stretch of the text, preceded only by
/// white space and followed by white space or the end.
pub proof fn lemma_first_word_is_first_run(s: Seq<char>)
    ensures
        first_word(s) is None <==> forall|i: int| 0 <= i < s.len() ==> is_white_space(#[trigger] s[i]),
        first_word(s) is Some ==> exists|a: int| #[trigger] first_run_at(s, a, first_word(s)->0),
{
    let k = lemma_trim_start_split(s);
    let t = s.skip(k);
    if k < s.len() {
        let j = lemma_leading_word_split(t);
        assert(!is_white_space(t[0]));
        assert(j > 0);
        let w = t.take(j);
        assert(w =~= s.subrange(k, k + j));
        assert forall|i: int| 0 <= i < w.len() implies !is_white_space(#[trigger] w[i]) by {
            assert(w[i] == t[i]);
        }
        if k + j < s.len() {
            assert(s[k + j] == t[j]);
        }
        assert(!is_white_space(s[k]));
        assert(first_word(s) == Some(w));
        assert(first_run_at(s, k, first_word(s)->0));
    } else {
        assert(trim_start(s).len() == 0);
        assert(first_word(s) is None);
    }
}

/// Tests `c` for Unicode white space.
pub fn is_white_space_char(c: char) -> (b: bool)
    ensures
        b == is_white_space(c),
{
    let u = c as u32;
    (0x9 <= u && u <= 0xd) || u == 0x20 || u == 0x85 || u == 0xa0 || u == 0x1680 || (0x2000 <= u
        && u <= 0x200a) || u == 0x2028 || u == 0x2029 || u == 0x202f || u == 0x205f || u == 0x3000
}

/// The characters of `s`, in order.
pub fn chars_of(s: &str) -> (v: Vec<char>)
    ensures
        v@ == s@,
{
    let mut v: Vec<char> = Vec::new();
    for c in it: s.chars()
        invariant
            v@ == it.seq().take(it.index() as int),
            it.seq() == s@,
    {
        v.push(c);
    }
    v
}

/// The index of the first character of `s` at or after `from` that is not
/// white space, or `s.len()`.
fn skip_white_space(s: &Vec<char>, from: usize) -> (i: usize)
    requires
        from <= s.len(),
    ensures
        from <= i <= s.len(),
        trim_start(s@.subrange(from as int, s.len() as int)) == s@.subrange(i as int, s.len() as int),
        i < s.len() ==> !is_white_space(s@[i as int]),
{
    let mut i = from;
    while i < s.len() && is_white_space_char(s[i])
        invariant
            from <= i <= s.len(),
            trim_start(s@.subrange(from as int, s.len() as int)) == trim_start(
                s@.subrange(i as int, s.len() as int),
            ),
        decreases s.len() - i,
    {
        assert(s@.subrange(i as int, s.len() as int).drop_first() =~= s@.subrange(
            i + 1,
            s.len() as int,
        ));
        i = i + 1;
    }
    i
}

/// The bounds `(a, b)` of `trim(s)` within `s`.
pub fn trim_bounds(s: &Vec<char>) -> (r: (usize, usize))
    ensures
        r.0 <= r.1 <= s.len(),
        trim(s@) == s@.subrange(r.0 as int, r.1 as int),
{
    let a = skip_white_space(s, 0);
    assert(s@.subrange(0, s.len() as int) =~= s@);
    let mut b = s.len();
    while b > a && is_white_space_char(s[b - 1])
        invariant
            a <= b <= s.len(),
            trim(s@) == trim_end(s@.subrange(a as int, b as int)),
        decreases b,
    {
        assert(s@.subrange(a as int, b as int).drop_last() =~= s@.subrange(a as int, b - 1));
        b = b - 1;
    }
    (a, b)
}

/// The bounds `(a, b)` of `first_word(s)` within `s`, or `None` when `s`
/// holds no word.
pub fn first_word_bounds(s: &Vec<char>) -> (r: Option<(usize, usize)>)
    ensures
        match r {
            None => first_word(s@) is None,
            Some((a, b)) => a <= b <= s.len() && first_word(s@) == Some(
                s@.subrange(a as int, b as int),
            ),
        },
{
    let a = skip_white_space(s, 0);
    assert(s@.subrange(0, s.len() as int) =~= s@);
    if a == s.len() {
        return None;
    }
    let mut b = a;
    while b < s.len() && !is_white_space_char(s[b])
        invariant
            a <= b <= s.len(),
            leading_word(s@.subrange(a as int, s.len() as int)) == s@.subrange(a as int, b as int)
                + leading_word(s@.subrange(b as int, s.len() as int)),
        decreases s.len() - b,
    {
        assert(s@.subrange(b as int, s.len() as int).drop_first() =~= s@.subrange(
            b + 1,
            s.len() as int,
        ));
        assert(s@.subrange(a as int, b + 1) =~= s@.subrange(a as int, b as int) + seq![s@[b as int]]);
        b = b + 1;
    }
    assert(s@.subrange(a as int, b as int) + Seq::<char>::empty() =~= s@.subrange(a as int, b as int));
    Some((a, b))
}

} // verus!
