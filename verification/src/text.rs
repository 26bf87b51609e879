//! Text helpers shared by the parsers.

use vstd::prelude::*;
use vstd::string::*;

verus! {

/// The lowercase form of a text, as the standard library computes it.
pub uninterp spec fn lowercase_of(s: Seq<char>) -> Seq<char>;

/// Lowercases a text.
///
/// Trusted: calls `str::to_lowercase` of the standard library. The contract
/// only gives its result a name, [`lowercase_of`]; nothing else is claimed
/// of it.
#[verifier::external_body]
pub(crate) fn to_lowercase(s: &str) -> (r: String)
    ensures
        r@ == lowercase_of(s@),
{
    s.to_lowercase()
}

/// Whether `s` ends with `suffix`.
pub open spec fn ends_with(s: Seq<char>, suffix: Seq<char>) -> bool {
    suffix.len() <= s.len() && s.subrange(s.len() - suffix.len(), s.len() as int) == suffix
}

/// `s` without its last `n` characters.
pub open spec fn drop_last_n(s: Seq<char>, n: nat) -> Seq<char>
    recommends
        n <= s.len(),
{
    s.subrange(0, s.len() - n)
}

/// `s` with every trailing repetition of `suffix` removed.
pub open spec fn trim_end(s: Seq<char>, suffix: Seq<char>) -> Seq<char>
    decreases s.len(),
{
    if suffix.len() > 0 && ends_with(s, suffix) {
        trim_end(drop_last_n(s, suffix.len()), suffix)
    } else {
        s
    }
}

/// The characters of a text, in order.
pub(crate) fn chars_of(s: &str) -> (v: Vec<char>)
    ensures
        v@ == s@,
{
    let n = s.unicode_len();
    let mut v: Vec<char> = Vec::new();
    let mut i: usize = 0;
    while i < n
        invariant
            i <= n,
            n == s@.len(),
            v@ == s@.subrange(0, i as int),
        decreases n - i,
    {
        v.push(s.get_char(i));
        i += 1;
        assert(v@ =~= s@.subrange(0, i as int));
    }
    assert(v@ =~= s@);
    v
}

/// Tells whether the first `len` characters of `chars` spell `word`.
pub(crate) fn spells(chars: &Vec<char>, len: usize, word: &str) -> (r: bool)
    requires
        len <= chars.len(),
    ensures
        r == (chars@.subrange(0, len as int) == word@),
{
    let n = word.unicode_len();
    if n != len {
        return false;
    }
    let mut i: usize = 0;
    while i < n
        invariant
            i <= n,
            n == len,
            n == word@.len(),
            len <= chars.len(),
            chars@.subrange(0, i as int) == word@.subrange(0, i as int),
        decreases n - i,
    {
        if chars[i] != word.get_char(i) {
            assert(chars@.subrange(0, len as int)[i as int] != word@[i as int]);
            return false;
        }
        i += 1;
        assert(chars@.subrange(0, i as int) =~= word@.subrange(0, i as int)) by {
            assert(chars@.subrange(0, i - 1) == word@.subrange(0, i - 1));
            assert forall|j: int| 0 <= j < i implies chars@.subrange(0, i as int)[j]
                == word@.subrange(0, i as int)[j] by {
                if j < i - 1 {
                    assert(chars@.subrange(0, i - 1)[j] == word@.subrange(0, i - 1)[j]);
                }
            }
        }
    }
    assert(word@.subrange(0, n as int) =~= word@);
    true
}

/// Tells whether the first `len` characters of `chars` end with `suffix`.
pub(crate) fn prefix_ends_with(chars: &Vec<char>, len: usize, suffix: &str) -> (r: bool)
    requires
        len <= chars.len(),
    ensures
        r == ends_with(chars@.subrange(0, len as int), suffix@),
{
    let n = suffix.unicode_len();
    if n > len {
        return false;
    }
    let start = len - n;
    let ghost head = chars@.subrange(0, len as int);
    let mut i: usize = 0;
    while i < n
        invariant
            i <= n,
            n <= len,
            start == len - n,
            n == suffix@.len(),
            len <= chars.len(),
            head == chars@.subrange(0, len as int),
            head.subrange(start as int, start + i) == suffix@.subrange(0, i as int),
        decreases n - i,
    {
        if chars[start + i] != suffix.get_char(i) {
            assert(head.subrange(len - n, len as int)[i as int] != suffix@[i as int]);
            return false;
        }
        i += 1;
        assert(head.subrange(start as int, start + i) =~= suffix@.subrange(0, i as int)) by {
            assert(head.subrange(start as int, start + i - 1) == suffix@.subrange(0, i - 1));
            assert forall|j: int| 0 <= j < i implies head.subrange(start as int, start + i)[j]
                == suffix@.subrange(0, i as int)[j] by {
                if j < i - 1 {
                    assert(head.subrange(start as int, start + i - 1)[j] == suffix@.subrange(
                        0,
                        i - 1,
                    )[j]);
                }
            }
        }
    }
    assert(suffix@.subrange(0, n as int) =~= suffix@);
    true
}

/// The length of the first `len` characters of `chars` once every trailing
/// repetition of `suffix` is removed.
pub(crate) fn trimmed_len(chars: &Vec<char>, len: usize, suffix: &str) -> (r: usize)
    requires
        len <= chars.len(),
    ensures
        r <= len,
        chars@.subrange(0, r as int) == trim_end(chars@.subrange(0, len as int), suffix@),
{
    let n = suffix.unicode_len();
    if n == 0 {
        return len;
    }
    let mut cur = len;
    while prefix_ends_with(chars, cur, suffix)
        invariant
            cur <= len,
            len <= chars.len(),
            n == suffix@.len(),
            n > 0,
            trim_end(chars@.subrange(0, cur as int), suffix@) == trim_end(
                chars@.subrange(0, len as int),
                suffix@,
            ),
        decreases cur,
    {
        assert(drop_last_n(chars@.subrange(0, cur as int), n as nat) =~= chars@.subrange(
            0,
            cur - n,
        ));
        cur = cur - n;
    }
    cur
}

} // verus!
