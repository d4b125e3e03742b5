//! Character-level helpers shared by the command, script and header rules.
//!
//! Every contract here is stated over `Seq<char>`, the view of a string.

use vstd::prelude::*;

verus! {

/// Whether `c` carries the Unicode `White_Space` property.
pub open spec fn is_whitespace(c: char) -> bool {
    let n = c as u32;
    ||| 0x09 <= n <= 0x0D
    ||| n == 0x20
    ||| n == 0x85
    ||| n == 0xA0
    ||| n == 0x1680
    ||| 0x2000 <= n <= 0x200A
    ||| n == 0x2028
    ||| n == 0x2029
    ||| n == 0x202F
    ||| n == 0x205F
    ||| n == 0x3000
}

/// `s` without its leading white space.
pub open spec fn trim_start(s: Seq<char>) -> Seq<char>
    decreases s.len(),
{
    if s.len() > 0 && is_whitespace(s[0]) {
        trim_start(s.drop_first())
    } else {
        s
    }
}

/// `s` without its trailing white space.
pub open spec fn trim_end(s: Seq<char>) -> Seq<char>
    decreases s.len(),
{
    if s.len() > 0 && is_whitespace(s.last()) {
        trim_end(s.drop_last())
    } else {
        s
    }
}

/// `s` after every leading repetition of `pat` is removed. An empty `pat`
/// removes nothing.
pub open spec fn trim_start_matches(s: Seq<char>, pat: Seq<char>) -> Seq<char>
    decreases s.len(),
{
    if pat.len() > 0 && pat.is_prefix_of(s) {
        trim_start_matches(s.skip(pat.len() as int), pat)
    } else {
        s
    }
}

/// `s` after every trailing repetition of `pat` is removed. An empty `pat`
/// removes nothing.
pub open spec fn trim_end_matches(s: Seq<char>, pat: Seq<char>) -> Seq<char>
    decreases s.len(),
{
    if pat.len() > 0 && pat.is_suffix_of(s) {
        trim_end_matches(s.take(s.len() - pat.len()), pat)
    } else {
        s
    }
}

/// The longest prefix of `s` that holds no white space.
pub open spec fn leading_word(s: Seq<char>) -> Seq<char>
    decreases s.len(),
{
    if s.len() > 0 && !is_whitespace(s[0]) {
        seq![s[0]] + leading_word(s.drop_first())
    } else {
        Seq::empty()
    }
}

/// The first white-space-delimited word of `s`, if it has one.
pub open spec fn first_word(s: Seq<char>) -> Option<Seq<char>> {
    let rest = trim_start(s);
    if rest.len() == 0 {
        None
    } else {
        Some(leading_word(rest))
    }
}

/// What follows the last `c` in `s`; all of `s` where it holds no `c`.
pub open spec fn after_last(s: Seq<char>, c: char) -> Seq<char>
    decreases s.len(),
{
    if s.len() == 0 {
        s
    } else if s.last() == c {
        Seq::empty()
    } else {
        after_last(s.drop_last(), c).push(s.last())
    }
}

/// Index of the first `c` in `s` at or after `from`, or the length of `s`
/// where there is none.
pub open spec fn index_from(s: Seq<char>, c: char, from: int) -> int
    decreases s.len() - from,
{
    if from >= s.len() {
        s.len() as int
    } else if s[from] == c {
        from
    } else {
        index_from(s, c, from + 1)
    }
}

/// `s` without the white space at either end.
pub open spec fn trim(s: Seq<char>) -> Seq<char> {
    trim_end(trim_start(s))
}

/// Where `c` stands at `at` in `s` and nowhere from `from` up to there, the
/// search from `from` finds it at `at`.
pub proof fn lemma_index_from_finds(s: Seq<char>, c: char, from: int, at: int)
    requires
        0 <= from <= at < s.len(),
        s[at] == c,
        forall|i: int| from <= i < at ==> s[i] != c,
    ensures
        index_from(s, c, from) == at,
    decreases at - from,
{
    if from < at {
        lemma_index_from_finds(s, c, from + 1, at);
    }
}

/// Executable form of [`is_whitespace`].
pub fn char_is_whitespace(c: char) -> (b: bool)
    ensures
        b == is_whitespace(c),
{
    let n: u32 = c as u32;
    (0x09 <= n && n <= 0x0D) || n == 0x20 || n == 0x85 || n == 0xA0 || n == 0x1680 || (0x2000 <= n
        && n <= 0x200A) || n == 0x2028 || n == 0x2029 || n == 0x202F || n == 0x205F || n == 0x3000
}

/// The characters of `s`, in order.
pub fn chars_of(s: &str) -> (v: Vec<char>)
    ensures
        v@ == s@,
{
    let mut v: Vec<char> = Vec::new();
    for c in it: s.chars()
        invariant
            it.seq() == s@,
            v@ == s@.take(it.index() as int),
    {
        v.push(c);
    }
    assert(s@.take(s@.len() as int) == s@);
    v
}

/// Collects characters into a `String` through std's `FromIterator<&char>`
/// for `String`: the result holds exactly the characters of `v`, in order.
#[verifier::external_body]
pub(crate) fn string_of(v: &Vec<char>) -> (s: String)
    ensures
        s@ == v@,
{
    v.iter().collect()
}

/// A copy of `v[from..to]`.
pub fn slice_of(v: &Vec<char>, from: usize, to: usize) -> (r: Vec<char>)
    requires
        from <= to <= v.len(),
    ensures
        r@ == v@.subrange(from as int, to as int),
{
    let mut r: Vec<char> = Vec::new();
    let mut i: usize = from;
    while i < to
        invariant
            from <= i <= to <= v.len(),
            r@ == v@.subrange(from as int, i as int),
        decreases to - i,
    {
        r.push(v[i]);
        i += 1;
    }
    r
}

/// Whether `a` and `b` hold the same characters.
pub fn same_chars(a: &Vec<char>, b: &Vec<char>) -> (r: bool)
    ensures
        r == (a@ == b@),
{
    if a.len() != b.len() {
        return false;
    }
    let mut i: usize = 0;
    while i < a.len()
        invariant
            a.len() == b.len(),
            i <= a.len(),
            a@.take(i as int) == b@.take(i as int),
        decreases a.len() - i,
    {
        if a[i] != b[i] {
            return false;
        }
        assert(a@.take(i + 1) == a@.take(i as int).push(a@[i as int]));
        assert(b@.take(i + 1) == b@.take(i as int).push(b@[i as int]));
        i += 1;
    }
    assert(a@.take(a.len() as int) == a@);
    assert(b@.take(b.len() as int) == b@);
    true
}

/// Whether `v[at..]` begins with `pat`.
pub fn matches_at(v: &Vec<char>, at: usize, pat: &Vec<char>) -> (r: bool)
    requires
        at <= v.len(),
    ensures
        r == pat@.is_prefix_of(v@.skip(at as int)),
{
    if pat.len() > v.len() - at {
        return false;
    }
    let mut i: usize = 0;
    while i < pat.len()
        invariant
            at <= v.len(),
            pat.len() <= v.len() - at,
            i <= pat.len(),
            forall|k: int| 0 <= k < i ==> pat@[k] == v@[at + k],
        decreases pat.len() - i,
    {
        if pat[i] != v[at + i] {
            assert(pat@[i as int] != v@.skip(at as int)[i as int]);
            return false;
        }
        i += 1;
    }
    assert(pat@ =~= v@.skip(at as int).subrange(0, pat@.len() as int));
    true
}

/// Index of the first character of `v` that is not white space.
fn leading_whitespace(v: &Vec<char>) -> (i: usize)
    ensures
        i <= v.len(),
        trim_start(v@) == v@.skip(i as int),
{
    let mut i: usize = 0;
    proof {
        assert(v@.skip(0) == v@);
    }
    while i < v.len() && char_is_whitespace(v[i])
        invariant
            i <= v.len(),
            trim_start(v@) == trim_start(v@.skip(i as int)),
        decreases v.len() - i,
    {
        proof {
            assert(v@.skip(i as int).drop_first() == v@.skip(i + 1));
        }
        i += 1;
    }
    i
}

/// One past the index of the last character of `v` that is not white space.
fn trailing_whitespace(v: &Vec<char>) -> (j: usize)
    ensures
        j <= v.len(),
        trim_end(v@) == v@.take(j as int),
{
    let mut j: usize = v.len();
    proof {
        assert(v@.take(v.len() as int) == v@);
    }
    while j > 0 && char_is_whitespace(v[j - 1])
        invariant
            j <= v.len(),
            trim_end(v@) == trim_end(v@.take(j as int)),
        decreases j,
    {
        proof {
            assert(v@.take(j as int).drop_last() == v@.take(j - 1));
        }
        j -= 1;
    }
    j
}

/// Executable form of [`trim_start`].
pub fn trimmed_start(v: &Vec<char>) -> (r: Vec<char>)
    ensures
        r@ == trim_start(v@),
{
    let i = leading_whitespace(v);
    slice_of(v, i, v.len())
}

/// Executable form of [`trim_end`].
pub fn trimmed_end(v: &Vec<char>) -> (r: Vec<char>)
    ensures
        r@ == trim_end(v@),
{
    let j = trailing_whitespace(v);
    slice_of(v, 0, j)
}

/// Executable form of [`trim_start_matches`].
pub fn trimmed_start_matches(v: &Vec<char>, pat: &Vec<char>) -> (r: Vec<char>)
    ensures
        r@ == trim_start_matches(v@, pat@),
{
    let mut i: usize = 0;
    proof {
        assert(v@.skip(0) == v@);
    }
    if pat.len() > 0 {
        while matches_at(v, i, pat)
            invariant
                i <= v.len(),
                pat.len() > 0,
                trim_start_matches(v@, pat@) == trim_start_matches(v@.skip(i as int), pat@),
            decreases v.len() - i,
        {
            proof {
                assert(v@.skip(i as int).skip(pat@.len() as int) == v@.skip(i + pat@.len()));
            }
            i += pat.len();
        }
    }
    slice_of(v, i, v.len())
}

/// Executable form of [`trim_end_matches`].
pub fn trimmed_end_matches(v: &Vec<char>, pat: &Vec<char>) -> (r: Vec<char>)
    ensures
        r@ == trim_end_matches(v@, pat@),
{
    let mut j: usize = v.len();
    proof {
        assert(v@.take(v.len() as int) == v@);
    }
    if pat.len() > 0 {
        while j >= pat.len() && matches_at(v, j - pat.len(), pat)
            invariant
                j <= v.len(),
                pat.len() > 0,
                trim_end_matches(v@, pat@) == trim_end_matches(v@.take(j as int), pat@),
            decreases j,
        {
            proof {
                let t = v@.take(j as int);
                assert(t.skip(t.len() - pat@.len()) == v@.skip(j - pat@.len()).take(
                    pat@.len() as int,
                ));
                assert(pat@.is_suffix_of(t));
                assert(t.take(t.len() - pat@.len()) == v@.take(j - pat@.len()));
            }
            j -= pat.len();
        }
        proof {
            let t = v@.take(j as int);
            if j >= pat.len() {
                assert(t.skip(t.len() - pat@.len()) == v@.skip(j - pat@.len()).take(
                    pat@.len() as int,
                ));
            }
            assert(!pat@.is_suffix_of(t));
        }
    }
    slice_of(v, 0, j)
}

/// Executable form of [`index_from`].
pub fn find_from(s: &Vec<char>, c: char, from: usize) -> (r: usize)
    requires
        from <= s.len(),
    ensures
        r == index_from(s@, c, from as int),
        from <= r <= s.len(),
        r < s.len() ==> s@[r as int] == c,
{
    let mut i: usize = from;
    while i < s.len() && s[i] != c
        invariant
            from <= i <= s.len(),
            index_from(s@, c, from as int) == index_from(s@, c, i as int),
        decreases s.len() - i,
    {
        i += 1;
    }
    i
}

/// Executable form of [`trim`].
pub fn trimmed(v: &Vec<char>) -> (r: Vec<char>)
    ensures
        r@ == trim(v@),
{
    trimmed_end(&trimmed_start(v))
}

/// Executable form of [`after_last`].
pub fn after_last_of(v: &Vec<char>, c: char) -> (r: Vec<char>)
    ensures
        r@ == after_last(v@, c),
{
    let mut j: usize = v.len();
    proof {
        assert(v@.take(v.len() as int) == v@);
        assert(v@.subrange(v.len() as int, v.len() as int) == Seq::<char>::empty());
    }
    while j > 0 && v[j - 1] != c
        invariant
            j <= v.len(),
            after_last(v@, c) == after_last(v@.take(j as int), c) + v@.subrange(
                j as int,
                v.len() as int,
            ),
        decreases j,
    {
        proof {
            let t = v@.take(j as int);
            assert(t.drop_last() == v@.take(j - 1));
            assert(after_last(t, c) == after_last(v@.take(j - 1), c).push(v@[j - 1]));
            assert(after_last(v@.take(j - 1), c).push(v@[j - 1]) + v@.subrange(
                j as int,
                v.len() as int,
            ) == after_last(v@.take(j - 1), c) + v@.subrange(j - 1, v.len() as int));
        }
        j -= 1;
    }
    slice_of(v, j, v.len())
}

/// Executable form of [`first_word`].
pub fn first_word_of(v: &Vec<char>) -> (r: Option<Vec<char>>)
    ensures
        match r {
            Some(w) => first_word(v@) == Some(w@),
            None => first_word(v@) is None,
        },
{
    let start = leading_whitespace(v);
    if start == v.len() {
        return None;
    }
    let mut end: usize = start;
    let ghost rest = v@.skip(start as int);
    while end < v.len() && !char_is_whitespace(v[end])
        invariant
            start <= end <= v.len(),
            rest == v@.skip(start as int),
            leading_word(rest) == v@.subrange(start as int, end as int) + leading_word(
                v@.skip(end as int),
            ),
        decreases v.len() - end,
    {
        proof {
            let tail = v@.skip(end as int);
            assert(tail.drop_first() == v@.skip(end + 1));
            assert(v@.subrange(start as int, end as int) + seq![tail[0]] == v@.subrange(
                start as int,
                end + 1,
            ));
        }
        end += 1;
    }
    Some(slice_of(v, start, end))
}

} // verus!
