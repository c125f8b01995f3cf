//! Lines of user input: white space and trimming.

use vstd::prelude::*;

verus! {

/// White space, by code point: the characters that Unicode lists as
/// `White_Space`. A line feed and a carriage return are among them.
pub open spec fn is_space(c: char) -> bool {
    let n = c as u32;
    ||| 0x09 <= n <= 0x0D
    ||| n == 0x20
    ||| n == 0x85
    ||| n == 0xA0
    ||| n == 0x1680
    ||| 0x2000 <= n <= 0x200A
    ||| n == 0x2028
    ||| n == 0x2029
    ||| n == 0x202F
    ||| n == 0x205F
    ||| n == 0x3000
}

/// How many characters of white space `s` begins with.
pub open spec fn leading_space(s: Seq<char>) -> nat
    decreases s.len(),
{
    if s.len() > 0 && is_space(s.first()) {
        1 + leading_space(s.drop_first())
    } else {
        0
    }
}

/// How many characters of white space `s` ends with.
pub open spec fn trailing_space(s: Seq<char>) -> nat
    decreases s.len(),
{
    if s.len() > 0 && is_space(s.last()) {
        1 + trailing_space(s.drop_last())
    } else {
        0
    }
}

/// `s` without the white space it begins with.
pub open spec fn trim_start(s: Seq<char>) -> Seq<char> {
    s.skip(leading_space(s) as int)
}

/// `s` without the white space it ends with.
pub open spec fn trim_end(s: Seq<char>) -> Seq<char> {
    s.take(s.len() - trailing_space(s))
}

/// `s` without the white space at either end.
pub open spec fn trimmed(s: Seq<char>) -> Seq<char> {
    trim_end(trim_start(s))
}

/// Every character of `s` is white space.
pub open spec fn blank(s: Seq<char>) -> bool {
    forall|i: int| 0 <= i < s.len() ==> is_space(#[trigger] s[i])
}

/// Whether `c` is white space.
pub fn is_space_char(c: char) -> (r: bool)
    ensures
        r == is_space(c),
{
    let n: u32 = c as u32;
    (0x09 <= n && n <= 0x0D) || n == 0x20 || n == 0x85 || n == 0xA0 || n == 0x1680 || (0x2000 <= n
        && n <= 0x200A) || n == 0x2028 || n == 0x2029 || n == 0x202F || n == 0x205F || n == 0x3000
}

/// The leading white space is the longest blank prefix: `k` characters of
/// white space followed by the end or by another character.
pub proof fn lemma_leading_space(s: Seq<char>, k: int)
    requires
        0 <= k <= s.len(),
        blank(s.take(k)),
        k == s.len() || !is_space(s[k]),
    ensures
        leading_space(s) == k,
    decreases k,
{
    if k > 0 {
        assert(s.take(k)[0] == s[0]);
        let rest = s.drop_first();
        assert forall|i: int| 0 <= i < k - 1 implies is_space(#[trigger] rest.take(k - 1)[i]) by {
            assert(rest.take(k - 1)[i] == s.take(k)[i + 1]);
        }
        lemma_leading_space(rest, k - 1);
    }
}

/// The trailing white space is the longest blank suffix.
pub proof fn lemma_trailing_space(s: Seq<char>, k: int)
    requires
        0 <= k <= s.len(),
        blank(s.skip(s.len() - k)),
        k == s.len() || !is_space(s[s.len() - k - 1]),
    ensures
        trailing_space(s) == k,
    decreases k,
{
    if k > 0 {
        assert(s.skip(s.len() - k)[k - 1] == s.last());
        let rest = s.drop_last();
        assert forall|i: int| 0 <= i < k - 1 implies is_space(
            #[trigger] rest.skip(rest.len() - (k - 1))[i],
        ) by {
            assert(rest.skip(rest.len() - (k - 1))[i] == s.skip(s.len() - k)[i]);
        }
        lemma_trailing_space(rest, k - 1);
    }
}

/// Removes the white space at both ends of a line, in one pass over its
/// characters. The result borrows from the line.
pub fn trim_line(line: &str) -> (r: &str)
    ensures
        r@ == trimmed(line@),
{
    let n = line.unicode_len();
    let mut index: usize = 0;
    let mut start: usize = n;
    let mut end: usize = 0;
    let chars = line.chars();
    for c in it: chars
        invariant
            it.seq() == line@,
            n == line@.len(),
            index == it.index(),
            forall|i: int| 0 <= i < index && i < start ==> is_space(#[trigger] line@[i]),
            forall|i: int| end <= i < index ==> is_space(#[trigger] line@[i]),
            start == n || (start < index && !is_space(line@[start as int])),
            start == n ==> end == 0,
            start < n ==> start < end <= index && !is_space(line@[end - 1]),
    {
        if !is_space_char(c) {
            if start == n {
                start = index;
            }
            end = index + 1;
        }
        index += 1;
    }
    if start == n {
        end = n;
    }
    proof {
        let s = line@;
        assert forall|i: int| 0 <= i < start implies is_space(#[trigger] s.take(start as int)[i]) by {
            assert(s.take(start as int)[i] == s[i]);
        }
        lemma_leading_space(s, start as int);
        let t = trim_start(s);
        let k = n - end;
        assert forall|i: int| 0 <= i < k implies is_space(#[trigger] t.skip(t.len() - k)[i]) by {
            assert(t.skip(t.len() - k)[i] == s[end + i]);
        }
        if k != t.len() {
            assert(t[t.len() - k - 1] == s[end - 1]);
        }
        lemma_trailing_space(t, k);
        assert(trimmed(s) =~= s.subrange(start as int, end as int));
    }
    line.substring_char(start, end)
}

/// A line is its leading white space, its trimmed text and its trailing
/// white space, in that order; the trimmed text neither begins nor ends
/// with white space.
pub proof fn lemma_trimmed_parts(s: Seq<char>)
    ensures
        leading_space(s) + trimmed(s).len() + trailing_space(trim_start(s)) == s.len(),
        blank(s.take(leading_space(s) as int)),
        blank(s.skip((leading_space(s) + trimmed(s).len()) as int)),
        trimmed(s) == s.subrange(
            leading_space(s) as int,
            (leading_space(s) + trimmed(s).len()) as int,
        ),
        trimmed(s).len() > 0 ==> !is_space(trimmed(s).first()) && !is_space(trimmed(s).last()),
{
    lemma_leading_is_blank(s);
    let t = trim_start(s);
    lemma_trailing_is_blank(t);
    let a = leading_space(s) as int;
    let b = trailing_space(t) as int;
    assert(trimmed(s) =~= s.subrange(a, a + trimmed(s).len()));
    assert forall|i: int| 0 <= i < s.skip(a + trimmed(s).len()).len() implies is_space(
        #[trigger] s.skip(a + trimmed(s).len())[i],
    ) by {
        assert(s.skip(a + trimmed(s).len())[i] == t.skip(t.len() - b)[i]);
    }
    if trimmed(s).len() > 0 {
        assert(trimmed(s).first() == s[a]);
        assert(trimmed(s).last() == t[t.len() - b - 1]);
    }
}

/// The counted prefix is blank and stops at the end or at a character that
/// is no white space.
pub proof fn lemma_leading_is_blank(s: Seq<char>)
    ensures
        leading_space(s) <= s.len(),
        blank(s.take(leading_space(s) as int)),
        leading_space(s) == s.len() || !is_space(s[leading_space(s) as int]),
    decreases s.len(),
{
    if s.len() > 0 && is_space(s.first()) {
        let rest = s.drop_first();
        lemma_leading_is_blank(rest);
        let k = leading_space(s) as int;
        assert forall|i: int| 0 <= i < k implies is_space(#[trigger] s.take(k)[i]) by {
            if i > 0 {
                assert(s.take(k)[i] == rest.take(k - 1)[i - 1]);
            }
        }
        if k != s.len() {
            assert(s[k] == rest[k - 1]);
        }
    }
}

/// The counted suffix is blank and begins at the start or after a character
/// that is no white space.
pub proof fn lemma_trailing_is_blank(s: Seq<char>)
    ensures
        trailing_space(s) <= s.len(),
        blank(s.skip(s.len() - trailing_space(s))),
        trailing_space(s) == s.len() || !is_space(s[s.len() - trailing_space(s) - 1]),
    decreases s.len(),
{
    if s.len() > 0 && is_space(s.last()) {
        let rest = s.drop_last();
        lemma_trailing_is_blank(rest);
        let k = trailing_space(s) as int;
        assert forall|i: int| 0 <= i < k implies is_space(#[trigger] s.skip(s.len() - k)[i]) by {
            if i < k - 1 {
                assert(s.skip(s.len() - k)[i] == rest.skip(rest.len() - (k - 1))[i]);
            }
        }
        if k != s.len() {
            assert(s[s.len() - k - 1] == rest[rest.len() - (k - 1) - 1]);
        }
    }
}

/// Trimming twice is trimming once.
pub proof fn lemma_trimmed_idempotent(s: Seq<char>)
    ensures
        trimmed(trimmed(s)) == trimmed(s),
{
    lemma_trimmed_parts(s);
    let t = trimmed(s);
    assert(blank(t.take(0)));
    lemma_leading_space(t, 0);
    assert(trim_start(t) =~= t);
    assert(blank(t.skip(t.len() as int)));
    lemma_trailing_space(t, 0);
    assert(trim_end(t) =~= t);
}

} // verus!
