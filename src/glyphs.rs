//! Turns raw text into the glyphs that a shape is drawn with: every
//! character folded to its uppercase form, multi-character foldings kept
//! whole and in order.

use vstd::prelude::*;

use crate::layout::push_chars;

verus! {

/// What `char::to_uppercase` yields for `c`.
pub uninterp spec fn upper_of(c: char) -> Seq<char>;

/// Relies on `char::to_uppercase`: one or more characters, the Unicode
/// uppercase mapping of `c`.
#[verifier::external_body]
fn uppercase(c: char) -> (r: Vec<char>)
    ensures
        r@ == upper_of(c),
        r@.len() >= 1,
{
    c.to_uppercase().collect()
}

/// The glyph sequence of `s`: each character's uppercase form, flattened.
pub open spec fn normalize(s: Seq<char>) -> Seq<char>
    decreases s.len(),
{
    if s.len() == 0 {
        Seq::empty()
    } else {
        normalize(s.drop_last()) + upper_of(s.last())
    }
}

/// The glyphs of `s`, in order.
pub fn collect_chars(s: &str) -> (r: Vec<char>)
    ensures
        r@ == normalize(s@),
        r@.len() >= s@.len(),
{
    let mut out: Vec<char> = Vec::new();
    let n = s.unicode_len();
    for i in 0..n
        invariant
            n == s@.len(),
            out@ == normalize(s@.take(i as int)),
            out@.len() >= i,
    {
        let up = uppercase(s.get_char(i));
        push_chars(&mut out, &up);
        assert(s@.take(i + 1).drop_last() =~= s@.take(i as int));
    }
    assert(s@.take(n as int) =~= s@);
    out
}

/// Two texts whose characters fold alike, position by position, have the
/// same glyphs.
pub proof fn lemma_normalize_folds_alike(s: Seq<char>, t: Seq<char>)
    requires
        s.len() == t.len(),
        forall|i: int| 0 <= i < s.len() ==> upper_of(#[trigger] s[i]) == upper_of(t[i]),
    ensures
        normalize(s) == normalize(t),
    decreases s.len(),
{
    if s.len() > 0 {
        lemma_normalize_folds_alike(s.drop_last(), t.drop_last());
        assert(upper_of(s[s.len() - 1]) == upper_of(t[t.len() - 1]));
    }
}

} // verus!
