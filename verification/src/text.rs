//! Characters and character sequences: white space, trimming, and the
//! characters of a string as a vector.

use vstd::prelude::*;
use vstd::slice::slice_subrange;

verus! {

/// Whether `c` is white space: a character with the Unicode property `White_Space`.
pub open spec fn is_whitespace(c: char) -> bool {
    ||| ('\u{0009}' <= c && c <= '\u{000D}')
    ||| c == '\u{0020}'
    ||| c == '\u{0085}'
    ||| c == '\u{00A0}'
    ||| c == '\u{1680}'
    ||| ('\u{2000}' <= c && c <= '\u{200A}')
    ||| c == '\u{2028}'
    ||| c == '\u{2029}'
    ||| c == '\u{202F}'
    ||| c == '\u{205F}'
    ||| c == '\u{3000}'
}

/// `s` without the white space it begins with.
pub open spec fn trim_start(s: Seq<char>) -> Seq<char>
    decreases s.len(),
{
    if s.len() > 0 && is_whitespace(s[0]) {
        trim_start(s.skip(1))
    } else {
        s
    }
}

/// `s` without the white space it ends with.
pub open spec fn trim_end(s: Seq<char>) -> Seq<char>
    decreases s.len(),
{
    if s.len() > 0 && is_whitespace(s.last()) {
        trim_end(s.drop_last())
    } else {
        s
    }
}

/// `s` without the white space at either end.
pub open spec fn trim(s: Seq<char>) -> Seq<char> {
    trim_end(trim_start(s))
}

/// Whether `c` is white space.
pub fn is_whitespace_char(c: char) -> (b: bool)
    ensures
        b == is_whitespace(c),
{
    ('\u{0009}' <= c && c <= '\u{000D}') || c == '\u{0020}' || c == '\u{0085}' || c == '\u{00A0}'
        || c == '\u{1680}' || ('\u{2000}' <= c && c <= '\u{200A}') || c == '\u{2028}'
        || c == '\u{2029}' || c == '\u{202F}' || c == '\u{205F}' || c == '\u{3000}'
}

/// The characters of `s`, in order.
pub fn chars_of(s: &str) -> (v: Vec<char>)
    ensures
        v@ == s@,
{
    let mut v: Vec<char> = Vec::new();
    for c in it: s.chars()
        invariant
            v@ == it.seq().take(it.index() as int),
            it.seq() == s@,
    {
        v.push(c);
    }
    v
}

/// The part of `s` between the white space at its two ends.
pub fn trim_slice(s: &[char]) -> (t: &[char])
    ensures
        t@ == trim(s@),
{
    let n: usize = s.len();
    let mut a: usize = 0;
    assert(s@.skip(0) == s@);
    while a < n && is_whitespace_char(s[a])
        invariant
            a <= n,
            n == s@.len(),
            trim_start(s@) == trim_start(s@.skip(a as int)),
        decreases n - a,
    {
        assert(s@.skip(a as int).skip(1) == s@.skip(a + 1));
        a += 1;
    }
    let mut b: usize = n;
    while b > a && is_whitespace_char(s[b - 1])
        invariant
            a <= b <= n,
            n == s@.len(),
            trim_end(s@.skip(a as int)) == trim_end(s@.subrange(a as int, b as int)),
        decreases b,
    {
        assert(s@.subrange(a as int, b as int).drop_last() == s@.subrange(a as int, b - 1));
        b -= 1;
    }
    slice_subrange(s, a, b)
}

/// Whether `s` is white space throughout.
pub open spec fn all_whitespace(s: Seq<char>) -> bool {
    forall|i: int| 0 <= i < s.len() ==> is_whitespace(#[trigger] s[i])
}

/// White space before a text is trimmed away.
proof fn lemma_trim_start_padding(l: Seq<char>, x: Seq<char>)
    requires
        all_whitespace(l),
    ensures
        trim_start(l + x) == trim_start(x),
    decreases l.len(),
{
    if l.len() > 0 {
        assert((l + x)[0] == l[0]);
        assert((l + x).skip(1) == l.skip(1) + x);
        assert forall|i: int| 0 <= i < l.skip(1).len() implies is_whitespace(
            #[trigger] l.skip(1)[i],
        ) by {
            assert(l.skip(1)[i] == l[i + 1]);
        }
        lemma_trim_start_padding(l.skip(1), x);
    } else {
        assert(l + x == x);
    }
}

/// White space after a text is trimmed away.
proof fn lemma_trim_end_padding(x: Seq<char>, r: Seq<char>)
    requires
        all_whitespace(r),
    ensures
        trim_end(x + r) == trim_end(x),
    decreases r.len(),
{
    if r.len() > 0 {
        assert((x + r).last() == r.last());
        assert((x + r).drop_last() == x + r.drop_last());
        assert forall|i: int| 0 <= i < r.drop_last().len() implies is_whitespace(
            #[trigger] r.drop_last()[i],
        ) by {
            assert(r.drop_last()[i] == r[i]);
        }
        lemma_trim_end_padding(x, r.drop_last());
    } else {
        assert(x + r == x);
    }
}

/// Trimming the start of a text leaves what follows its first character
/// that is no white space, and nothing where it has none.
proof fn lemma_trim_start_keeps_tail(x: Seq<char>, r: Seq<char>)
    ensures
        all_whitespace(x) ==> trim_start(x) == Seq::<char>::empty(),
        !all_whitespace(x) ==> trim_start(x + r) == trim_start(x) + r,
    decreases x.len(),
{
    if x.len() == 0 {
    } else if is_whitespace(x[0]) {
        let rest = x.skip(1);
        assert((x + r)[0] == x[0]);
        assert((x + r).skip(1) == rest + r);
        lemma_trim_start_keeps_tail(rest, r);
        if all_whitespace(x) {
            assert forall|i: int| 0 <= i < rest.len() implies is_whitespace(#[trigger] rest[i]) by {
                assert(rest[i] == x[i + 1]);
            }
        } else {
            let i = choose|i: int| 0 <= i < x.len() && !is_whitespace(#[trigger] x[i]);
            assert(rest[i - 1] == x[i]);
        }
    } else {
        assert((x + r)[0] == x[0]);
    }
}

/// White space round a text makes no difference to what is left of it once trimmed.
pub proof fn lemma_padding_is_trimmed(l: Seq<char>, t: Seq<char>, r: Seq<char>)
    requires
        all_whitespace(l),
        all_whitespace(r),
    ensures
        trim(l + t + r) == trim(t),
{
    assert(l + t + r == l + (t + r));
    lemma_trim_start_padding(l, t + r);
    lemma_trim_start_keeps_tail(t, r);
    if all_whitespace(t) {
        assert(all_whitespace(t + r)) by {
            assert forall|i: int| 0 <= i < (t + r).len() implies is_whitespace(
                #[trigger] (t + r)[i],
            ) by {
                if i < t.len() {
                    assert((t + r)[i] == t[i]);
                } else {
                    assert((t + r)[i] == r[i - t.len()]);
                }
            }
        }
        lemma_trim_start_keeps_tail(t + r, r);
    } else {
        lemma_trim_end_padding(trim_start(t), r);
    }
}

} // verus!
