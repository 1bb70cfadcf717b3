//! Whitespace trimming, specified over sequences of characters.

use vstd::prelude::*;
use vstd::string::StrSliceExecFns;

verus! {

/// Whether `c` has the Unicode `White_Space` property: the set of
/// characters that trimming removes.
pub open spec fn is_space(c: char) -> bool {
    let u: u32 = c as u32;
    ||| u == 0x09
    ||| u == 0x0A
    ||| u == 0x0B
    ||| u == 0x0C
    ||| u == 0x0D
    ||| u == 0x20
    ||| u == 0x85
    ||| u == 0xA0
    ||| u == 0x1680
    ||| (0x2000 <= u && u <= 0x200A)
    ||| u == 0x2028
    ||| u == 0x2029
    ||| u == 0x202F
    ||| u == 0x205F
    ||| u == 0x3000
}

/// Decides `is_space` for one character.
pub fn is_space_char(c: char) -> (r: bool)
    ensures
        r == is_space(c),
{
    let u: u32 = c as u32;
    u == 0x09 || u == 0x0A || u == 0x0B || u == 0x0C || u == 0x0D || u == 0x20 || u == 0x85
        || u == 0xA0 || u == 0x1680 || (0x2000 <= u && u <= 0x200A) || u == 0x2028 || u == 0x2029
        || u == 0x202F || u == 0x205F || u == 0x3000
}

/// `s` without its leading whitespace.
pub open spec fn trim_start_spec(s: Seq<char>) -> Seq<char>
    decreases s.len(),
{
    if s.len() > 0 && is_space(s[0]) {
        trim_start_spec(s.drop_first())
    } else {
        s
    }
}

/// `s` without its trailing whitespace.
pub open spec fn trim_end_spec(s: Seq<char>) -> Seq<char>
    decreases s.len(),
{
    if s.len() > 0 && is_space(s.last()) {
        trim_end_spec(s.drop_last())
    } else {
        s
    }
}

/// `s` without its leading and trailing whitespace.
pub open spec fn trim_spec(s: Seq<char>) -> Seq<char> {
    trim_end_spec(trim_start_spec(s))
}

proof fn lemma_trim_start_subrange(s: Seq<char>, i: int)
    requires
        0 <= i <= s.len(),
        forall|k: int| 0 <= k < i ==> is_space(s[k]),
        i < s.len() ==> !is_space(s[i]),
    ensures
        trim_start_spec(s) == s.subrange(i, s.len() as int),
    decreases i,
{
    if i == 0 {
        assert(s.subrange(0, s.len() as int) =~= s);
    } else {
        let t = s.drop_first();
        assert(is_space(s[0]));
        assert(forall|k: int| 0 <= k < i - 1 ==> is_space(#[trigger] t[k]));
        lemma_trim_start_subrange(t, i - 1);
        assert(t.subrange(i - 1, t.len() as int) =~= s.subrange(i, s.len() as int));
    }
}

proof fn lemma_trim_end_subrange(s: Seq<char>, j: int)
    requires
        0 <= j <= s.len(),
        forall|k: int| j <= k < s.len() ==> is_space(s[k]),
        j > 0 ==> !is_space(s[j - 1]),
    ensures
        trim_end_spec(s) == s.subrange(0, j),
    decreases s.len() - j,
{
    if j == s.len() {
        if s.len() > 0 && is_space(s.last()) {
            assert(!is_space(s[j - 1]));
            assert(false);
        }
        assert(s.subrange(0, j) =~= s);
    } else {
        let t = s.drop_last();
        assert(is_space(s.last()));
        assert(forall|k: int| j <= k < t.len() ==> is_space(#[trigger] t[k]));
        lemma_trim_end_subrange(t, j);
        assert(t.subrange(0, j) =~= s.subrange(0, j));
    }
}

/// Trimming removes nothing but whitespace and leaves no whitespace at
/// either end: a string of nothing but whitespace trims to the empty
/// string, exactly as the empty string does.
pub proof fn lemma_all_space_trims_empty(s: Seq<char>)
    requires
        forall|k: int| 0 <= k < s.len() ==> is_space(s[k]),
    ensures
        trim_spec(s).len() == 0,
        trim_spec(s) == trim_spec(Seq::<char>::empty()),
{
    lemma_trim_start_subrange(s, s.len() as int);
    let t = s.subrange(s.len() as int, s.len() as int);
    assert(t.len() == 0);
    lemma_trim_end_subrange(t, 0);
    assert(trim_spec(s) =~= Seq::<char>::empty());
    let e = Seq::<char>::empty();
    lemma_trim_start_subrange(e, 0);
    assert(e.subrange(0, 0) =~= e);
    lemma_trim_end_subrange(e, 0);
}

/// Returns `s` with leading and trailing whitespace removed.
pub fn trim(s: &str) -> (r: &str)
    ensures
        r@ == trim_spec(s@),
{
    let n: usize = s.unicode_len();
    let mut start: usize = 0;
    while start < n && is_space_char(s.get_char(start))
        invariant
            n == s@.len(),
            0 <= start <= n,
            forall|k: int| 0 <= k < start ==> is_space(s@[k]),
        decreases n - start,
    {
        start = start + 1;
    }
    let mut end: usize = n;
    while end > start && is_space_char(s.get_char(end - 1))
        invariant
            n == s@.len(),
            start <= end <= n,
            forall|k: int| end <= k < n ==> is_space(s@[k]),
        decreases end,
    {
        end = end - 1;
    }
    let r = s.substring_char(start, end);
    proof {
        lemma_trim_start_subrange(s@, start as int);
        let t = s@.subrange(start as int, n as int);
        assert(forall|k: int| end - start <= k < t.len() ==> is_space(#[trigger] t[k]));
        if end > start {
            assert(t[end - start - 1] == s@[end - 1]);
        }
        lemma_trim_end_subrange(t, end - start);
        assert(t.subrange(0, end - start) =~= s@.subrange(start as int, end as int));
    }
    r
}

} // verus!
