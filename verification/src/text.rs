//! Text the service inspects and the messages it composes.

use vstd::prelude::*;

verus! {

/// `needle` occurs in `hay` as a run of consecutive characters (the empty
/// text occurs everywhere).
pub open spec fn has_substring(hay: Seq<char>, needle: Seq<char>) -> bool {
    exists|i: int| 0 <= i <= hay.len() - needle.len() && #[trigger] hay.subrange(i, i + needle.len()) == needle
}

/// Whether `needle` occurs in `hay`.
pub fn contains_text(hay: &str, needle: &str) -> (found: bool)
    ensures
        found == has_substring(hay@, needle@),
{
    let n = hay.unicode_len();
    let m = needle.unicode_len();
    if m == 0 {
        assert(hay@.subrange(0, 0 + needle@.len() as int) =~= needle@);
        return true;
    }
    if m > n {
        return false;
    }
    let mut i: usize = 0;
    while m <= n - i
        invariant
            n == hay@.len(),
            m == needle@.len(),
            0 < m <= n,
            i <= n,
            forall|k: int| 0 <= k < i ==> #[trigger] hay@.subrange(k, k + m) != needle@,
        decreases n - i,
    {
        let mut j: usize = 0;
        let mut same = true;
        while j < m && same
            invariant
                n == hay@.len(),
                m == needle@.len(),
                m <= n - i,
                j <= m,
                same ==> forall|t: int| 0 <= t < j ==> hay@[i + t] == needle@[t],
                !same ==> hay@[i + j] != needle@[j as int] && j < m,
            decreases m - j + if same { 1int } else { 0int },
        {
            if hay.get_char(i + j) != needle.get_char(j) {
                same = false;
            } else {
                j = j + 1;
            }
        }
        if same {
            assert(hay@.subrange(i as int, i + m) =~= needle@);
            return true;
        }
        assert(hay@.subrange(i as int, i + m)[j as int] != needle@[j as int]);
        i = i + 1;
    }
    assert forall|k: int| 0 <= k <= n - m implies #[trigger] hay@.subrange(k, k + m) != needle@ by {
    }
    false
}

/// The text `first`, then `second`, then `third`.
pub fn join_three(first: &str, second: &str, third: &str) -> (joined: String)
    ensures
        joined@ == first@ + second@ + third@,
{
    let mut joined = String::from_str(first);
    joined.append(second);
    joined.append(third);
    joined
}

/// The text `first`, then `second`.
pub fn join_two(first: &str, second: &str) -> (joined: String)
    ensures
        joined@ == first@ + second@,
{
    let mut joined = String::from_str(first);
    joined.append(second);
    joined
}

/// What Rust's `Debug` formatting writes for a text: the text in double
/// quotes, with characters escaped as `char::escape_debug` does.
pub uninterp spec fn debug_rendering(text: Seq<char>) -> Seq<char>;

/// Formats a text with std's `Debug` implementation for `str`
/// (`format!("{:?}", text)`). The contract claims only that the result is a
/// function of the text, named `debug_rendering`; the quoting and escaping
/// rules are std's and are not restated here.
#[verifier::external_body]
pub(crate) fn debug_quoted(text: &str) -> (rendered: String)
    ensures
        rendered@ == debug_rendering(text@),
{
    format!("{:?}", text)
}

} // verus!
