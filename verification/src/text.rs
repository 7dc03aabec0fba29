//! Text handling shared by the protocols: trimming of lines read from a
//! process, and the view of a list of strings.
use vstd::prelude::*;
use vstd::string::StrSliceExecFns;
use vstd::string::StringExecFns;

verus! {

/// Whether `char::is_whitespace` holds of `c`: the Unicode `White_Space`
/// property, as the standard library of this build knows it.
pub uninterp spec fn whitespace(c: char) -> bool;

/// `char::is_whitespace`. The result is a fixed property of the character;
/// nothing more is claimed of it.
#[verifier::external_body]
fn is_whitespace(c: char) -> (b: bool)
    ensures
        b == whitespace(c),
{
    c.is_whitespace()
}

/// The character sequences of a list of strings.
pub open spec fn texts(items: Seq<String>) -> Seq<Seq<char>> {
    items.map_values(|item: String| item@)
}

/// `s` without its leading whitespace.
pub open spec fn trim_start(s: Seq<char>) -> Seq<char>
    decreases s.len(),
{
    if s.len() > 0 && whitespace(s.first()) {
        trim_start(s.drop_first())
    } else {
        s
    }
}

/// `s` without its trailing whitespace.
pub open spec fn trim_end(s: Seq<char>) -> Seq<char>
    decreases s.len(),
{
    if s.len() > 0 && whitespace(s.last()) {
        trim_end(s.drop_last())
    } else {
        s
    }
}

/// `s` without leading and trailing whitespace.
pub open spec fn trimmed(s: Seq<char>) -> Seq<char> {
    trim_end(trim_start(s))
}

/// Every character of `s` in `[from, to)` is whitespace.
pub open spec fn all_whitespace(s: Seq<char>, from: int, to: int) -> bool {
    forall|i: int| from <= i < to ==> whitespace(#[trigger] s[i])
}

/// Leading whitespace is exactly what `trim_start` drops.
pub proof fn lemma_trim_start(s: Seq<char>, k: int)
    requires
        0 <= k <= s.len(),
        all_whitespace(s, 0, k),
        k < s.len() ==> !whitespace(s[k]),
    ensures
        trim_start(s) == s.subrange(k, s.len() as int),
    decreases s.len(),
{
    if k == 0 {
        assert(s.subrange(0, s.len() as int) =~= s);
    } else {
        let rest = s.drop_first();
        assert forall|i: int| 0 <= i < k - 1 implies whitespace(#[trigger] rest[i]) by {
            assert(rest[i] == s[i + 1]);
        }
        lemma_trim_start(rest, k - 1);
        assert(rest.subrange(k - 1, rest.len() as int) =~= s.subrange(k, s.len() as int));
    }
}

/// Trailing whitespace is exactly what `trim_end` drops.
pub proof fn lemma_trim_end(s: Seq<char>, k: int)
    requires
        0 <= k <= s.len(),
        all_whitespace(s, k, s.len() as int),
        k > 0 ==> !whitespace(s[k - 1]),
    ensures
        trim_end(s) == s.subrange(0, k),
    decreases s.len(),
{
    if k == s.len() {
        assert(s.subrange(0, k) =~= s);
    } else {
        let rest = s.drop_last();
        assert forall|i: int| k <= i < rest.len() implies whitespace(#[trigger] rest[i]) by {
            assert(rest[i] == s[i]);
        }
        lemma_trim_end(rest, k);
        assert(rest.subrange(0, k) =~= s.subrange(0, k));
    }
}

/// The line without leading and trailing whitespace.
pub fn trim(line: &str) -> (text: String)
    ensures
        text@ == trimmed(line@),
{
    let total = line.unicode_len();
    let mut start: usize = 0;
    let mut end: usize = 0;
    let mut seen = false;
    let mut i: usize = 0;
    for c in it: line.chars()
        invariant
            i == it.index(),
            it.seq() == line@,
            total == line@.len(),
            !seen ==> start == 0 && end == 0 && all_whitespace(line@, 0, i as int),
            seen ==> start < end <= i && all_whitespace(line@, 0, start as int) && !whitespace(
                line@[start as int],
            ) && !whitespace(line@[end - 1]) && all_whitespace(line@, end as int, i as int),
    {
        if !is_whitespace(c) {
            if !seen {
                start = i;
                seen = true;
            }
            end = i + 1;
        }
        i = i + 1;
    }
    proof {
        let s = line@;
        if seen {
            lemma_trim_start(s, start as int);
            let t = s.subrange(start as int, s.len() as int);
            assert forall|j: int| end - start <= j < t.len() implies whitespace(#[trigger] t[j]) by {
                assert(t[j] == s[j + start]);
            }
            assert(t[end - start - 1] == s[end - 1]);
            lemma_trim_end(t, end - start);
            assert(t.subrange(0, end - start) =~= s.subrange(start as int, end as int));
        } else {
            lemma_trim_start(s, s.len() as int);
            let t = s.subrange(s.len() as int, s.len() as int);
            lemma_trim_end(t, 0);
            assert(t.subrange(0, 0) =~= s.subrange(0, 0));
        }
    }
    String::from_str(line.substring_char(start, end))
}

} // verus!
