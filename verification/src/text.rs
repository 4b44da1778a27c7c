//! Text helpers: whitespace trimming and trailing-character stripping,
//! stated over the characters of a string.

use vstd::prelude::*;
use vstd::string::*;

verus! {

/// Unicode `White_Space`: the characters that `str::trim` removes.
pub open spec fn is_whitespace(c: char) -> bool {
    let u = c as u32;
    (0x9 <= u && u <= 0xd) || u == 0x20 || u == 0x85 || u == 0xa0 || u == 0x1680
        || (0x2000 <= u && u <= 0x200a) || u == 0x2028 || u == 0x2029 || u == 0x202f
        || u == 0x205f || u == 0x3000
}

/// `s` without its leading whitespace.
pub open spec fn trim_start_seq(s: Seq<char>) -> Seq<char>
    decreases s.len(),
{
    if s.len() > 0 && is_whitespace(s[0]) {
        trim_start_seq(s.drop_first())
    } else {
        s
    }
}

/// `s` without its trailing whitespace.
pub open spec fn trim_end_seq(s: Seq<char>) -> Seq<char>
    decreases s.len(),
{
    if s.len() > 0 && is_whitespace(s.last()) {
        trim_end_seq(s.drop_last())
    } else {
        s
    }
}

/// `s` without leading and trailing whitespace.
pub open spec fn trim_seq(s: Seq<char>) -> Seq<char> {
    trim_end_seq(trim_start_seq(s))
}

/// `s` without any run of `c` at its end.
pub open spec fn trim_end_char_seq(s: Seq<char>, c: char) -> Seq<char>
    decreases s.len(),
{
    if s.len() > 0 && s.last() == c {
        trim_end_char_seq(s.drop_last(), c)
    } else {
        s
    }
}

/// True when `s` holds nothing but whitespace (or nothing at all).
pub open spec fn is_blank(s: Seq<char>) -> bool {
    trim_seq(s).len() == 0
}

pub fn is_whitespace_char(c: char) -> (r: bool)
    ensures
        r == is_whitespace(c),
{
    let u = c as u32;
    (0x9 <= u && u <= 0xd) || u == 0x20 || u == 0x85 || u == 0xa0 || u == 0x1680
        || (0x2000 <= u && u <= 0x200a) || u == 0x2028 || u == 0x2029 || u == 0x202f
        || u == 0x205f || u == 0x3000
}

proof fn lemma_trim_start_skip(s: Seq<char>, i: int)
    requires
        0 <= i < s.len(),
        is_whitespace(s[i]),
    ensures
        trim_start_seq(s.subrange(i, s.len() as int)) == trim_start_seq(
            s.subrange(i + 1, s.len() as int),
        ),
{
    assert(s.subrange(i, s.len() as int).drop_first() =~= s.subrange(i + 1, s.len() as int));
}

proof fn lemma_trim_end_skip(s: Seq<char>, i: int, j: int)
    requires
        0 <= i < j <= s.len(),
        is_whitespace(s[j - 1]),
    ensures
        trim_end_seq(s.subrange(i, j)) == trim_end_seq(s.subrange(i, j - 1)),
{
    assert(s.subrange(i, j).drop_last() =~= s.subrange(i, j - 1));
}

proof fn lemma_trim_end_char_skip(s: Seq<char>, j: int, c: char)
    requires
        0 < j <= s.len(),
        s[j - 1] == c,
    ensures
        trim_end_char_seq(s.subrange(0, j), c) == trim_end_char_seq(s.subrange(0, j - 1), c),
{
    assert(s.subrange(0, j).drop_last() =~= s.subrange(0, j - 1));
}

/// `s` with its part before `i` and from `j` on cut off, all of which is
/// whitespace, and what remains neither starts nor ends with whitespace.
pub open spec fn is_trimmed_slice(s: Seq<char>, r: Seq<char>, i: int, j: int) -> bool {
    &&& 0 <= i <= j <= s.len()
    &&& r == s.subrange(i, j)
    &&& forall|k: int| 0 <= k < i ==> is_whitespace(#[trigger] s[k])
    &&& forall|k: int| j <= k < s.len() ==> is_whitespace(#[trigger] s[k])
    &&& i < j ==> !is_whitespace(s[i]) && !is_whitespace(s[j - 1])
}

/// `str::trim`: the slice of `s` without leading and trailing whitespace.
pub fn trim_whitespace(s: &str) -> (r: &str)
    ensures
        r@ == trim_seq(s@),
        exists|i: int, j: int| is_trimmed_slice(s@, r@, i, j),
{
    let n = s.unicode_len();
    let mut i: usize = 0;
    assert(s@.subrange(0, s@.len() as int) =~= s@);
    while i < n
        invariant
            n == s@.len(),
            i <= n,
            trim_start_seq(s@) == trim_start_seq(s@.subrange(i as int, n as int)),
            forall|k: int| 0 <= k < i ==> is_whitespace(#[trigger] s@[k]),
        ensures
            i <= n,
            trim_start_seq(s@) == trim_start_seq(s@.subrange(i as int, n as int)),
            forall|k: int| 0 <= k < i ==> is_whitespace(#[trigger] s@[k]),
            i == n || !is_whitespace(s@[i as int]),
        decreases n - i,
    {
        let c = s.get_char(i);
        if !is_whitespace_char(c) {
            break;
        }
        proof {
            lemma_trim_start_skip(s@, i as int);
        }
        i = i + 1;
    }
    assert(i < n ==> s@.subrange(i as int, n as int)[0] == s@[i as int]);
    assert(trim_start_seq(s@) == s@.subrange(i as int, n as int));
    let mut j: usize = n;
    while j > i
        invariant
            n == s@.len(),
            i <= j <= n,
            trim_start_seq(s@) == s@.subrange(i as int, n as int),
            trim_seq(s@) == trim_end_seq(s@.subrange(i as int, j as int)),
            forall|k: int| j <= k < n ==> is_whitespace(#[trigger] s@[k]),
        ensures
            i <= j <= n,
            trim_seq(s@) == trim_end_seq(s@.subrange(i as int, j as int)),
            forall|k: int| j <= k < n ==> is_whitespace(#[trigger] s@[k]),
            j == i || !is_whitespace(s@[j - 1]),
        decreases j,
    {
        let c = s.get_char(j - 1);
        if !is_whitespace_char(c) {
            break;
        }
        proof {
            lemma_trim_end_skip(s@, i as int, j as int);
        }
        j = j - 1;
    }
    assert(i < j ==> s@.subrange(i as int, j as int).last() == s@[j - 1]);
    assert(trim_seq(s@) == s@.subrange(i as int, j as int));
    assert(i < j ==> !is_whitespace(s@[i as int]));
    assert(is_trimmed_slice(s@, s@.subrange(i as int, j as int), i as int, j as int));
    s.substring_char(i, j)
}

/// `str::trim_end_matches` with one character: `s` without the run of `c` at its end.
pub fn trim_end_matches_char(s: &str, c: char) -> (r: &str)
    ensures
        r@ == trim_end_char_seq(s@, c),
        r@.len() <= s@.len(),
        r@ == s@.subrange(0, r@.len() as int),
        forall|k: int| r@.len() <= k < s@.len() ==> #[trigger] s@[k] == c,
        r@.len() == 0 || r@.last() != c,
{
    let n = s.unicode_len();
    let mut j: usize = n;
    assert(s@.subrange(0, n as int) =~= s@);
    while j > 0
        invariant
            n == s@.len(),
            j <= n,
            trim_end_char_seq(s@, c) == trim_end_char_seq(s@.subrange(0, j as int), c),
            forall|k: int| j <= k < n ==> #[trigger] s@[k] == c,
        ensures
            j <= n,
            trim_end_char_seq(s@, c) == trim_end_char_seq(s@.subrange(0, j as int), c),
            forall|k: int| j <= k < n ==> #[trigger] s@[k] == c,
            j == 0 || s@[j - 1] != c,
        decreases j,
    {
        let d = s.get_char(j - 1);
        if d != c {
            break;
        }
        proof {
            lemma_trim_end_char_skip(s@, j as int, c);
        }
        j = j - 1;
    }
    assert(j > 0 ==> s@.subrange(0, j as int).last() == s@[j - 1]);
    assert(trim_end_char_seq(s@, c) == s@.subrange(0, j as int));
    s.substring_char(0, j)
}

/// Trimming leading whitespace leaves a suffix of `s` that does not start
/// with whitespace.
pub proof fn lemma_trim_start_shape(s: Seq<char>)
    ensures
        trim_start_seq(s).len() <= s.len(),
        trim_start_seq(s) == s.subrange(s.len() - trim_start_seq(s).len(), s.len() as int),
        trim_start_seq(s).len() == 0 || !is_whitespace(trim_start_seq(s)[0]),
    decreases s.len(),
{
    if s.len() > 0 && is_whitespace(s[0]) {
        lemma_trim_start_shape(s.drop_first());
        let r = trim_start_seq(s.drop_first());
        assert(s.drop_first().subrange(s.len() - 1 - r.len(), s.len() - 1) =~= s.subrange(
            s.len() - r.len(),
            s.len() as int,
        ));
    } else {
        assert(s.subrange(0, s.len() as int) =~= s);
    }
}

/// Trimming trailing whitespace leaves a prefix of `s` that does not end
/// with whitespace.
pub proof fn lemma_trim_end_shape(s: Seq<char>)
    ensures
        trim_end_seq(s).len() <= s.len(),
        trim_end_seq(s) == s.subrange(0, trim_end_seq(s).len() as int),
        trim_end_seq(s).len() == 0 || !is_whitespace(trim_end_seq(s).last()),
    decreases s.len(),
{
    if s.len() > 0 && is_whitespace(s.last()) {
        lemma_trim_end_shape(s.drop_last());
        let r = trim_end_seq(s.drop_last());
        assert(s.drop_last().subrange(0, r.len() as int) =~= s.subrange(0, r.len() as int));
    } else {
        assert(s.subrange(0, s.len() as int) =~= s);
    }
}

/// A trimmed string neither starts nor ends with whitespace, and trimming it
/// again changes nothing.
pub proof fn lemma_trim_idempotent(s: Seq<char>)
    ensures
        trim_seq(s).len() == 0 || (!is_whitespace(trim_seq(s)[0]) && !is_whitespace(
            trim_seq(s).last(),
        )),
        trim_seq(trim_seq(s)) == trim_seq(s),
{
    let t = trim_start_seq(s);
    let u = trim_end_seq(t);
    lemma_trim_start_shape(s);
    lemma_trim_end_shape(t);
    if u.len() > 0 {
        assert(u[0] == t[0]);
        assert(trim_start_seq(u) == u);
        assert(trim_end_seq(u) == u);
    } else {
        assert(trim_start_seq(u) == u);
        assert(trim_end_seq(u) == u);
    }
}

/// Stripping a trailing run of `c` leaves a prefix of `s` that does not end
/// with `c`, and stripping again changes nothing.
pub proof fn lemma_trim_end_char_shape(s: Seq<char>, c: char)
    ensures
        trim_end_char_seq(s, c).len() <= s.len(),
        trim_end_char_seq(s, c) == s.subrange(0, trim_end_char_seq(s, c).len() as int),
        trim_end_char_seq(s, c).len() == 0 || trim_end_char_seq(s, c).last() != c,
        trim_end_char_seq(trim_end_char_seq(s, c), c) == trim_end_char_seq(s, c),
    decreases s.len(),
{
    if s.len() > 0 && s.last() == c {
        lemma_trim_end_char_shape(s.drop_last(), c);
        let r = trim_end_char_seq(s.drop_last(), c);
        assert(s.drop_last().subrange(0, r.len() as int) =~= s.subrange(0, r.len() as int));
    } else {
        assert(s.subrange(0, s.len() as int) =~= s);
    }
}

} // verus!
