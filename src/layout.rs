//! Text-layout building blocks shared by every shape: runs of spaces,
//! space-separated glyphs and newline-joined rows.

use vstd::prelude::*;

verus! {

/// `n` blanks.
pub open spec fn spaces(n: int) -> Seq<char> {
    Seq::new(n as nat, |_i: int| ' ')
}

/// The glyphs of `s` with a single blank between neighbours.
pub open spec fn spaced(s: Seq<char>) -> Seq<char>
    decreases s.len(),
{
    if s.len() <= 1 {
        s
    } else {
        spaced(s.drop_last()) + seq![' ', s.last()]
    }
}

/// The rows joined by newlines, with no newline after the last one.
pub open spec fn lines(rows: Seq<Seq<char>>) -> Seq<char>
    decreases rows.len(),
{
    if rows.len() == 0 {
        Seq::empty()
    } else if rows.len() == 1 {
        rows[0]
    } else {
        lines(rows.drop_last()) + seq!['\n'] + rows.last()
    }
}

pub proof fn lemma_spaced_step(s: Seq<char>, i: int)
    requires
        1 <= i < s.len(),
    ensures
        spaced(s.take(i + 1)) == spaced(s.take(i)) + seq![' ', s[i]],
{
    assert(s.take(i + 1).drop_last() =~= s.take(i));
}

pub proof fn lemma_lines_step(rows: Seq<Seq<char>>, k: int)
    requires
        1 <= k < rows.len(),
    ensures
        lines(rows.take(k + 1)) == lines(rows.take(k)) + seq!['\n'] + rows[k],
{
    assert(rows.take(k + 1).drop_last() =~= rows.take(k));
}

/// A spaced run of `n` glyphs is `2n - 1` characters long, glyph `j`
/// standing at position `2j` and a blank between each pair.
pub proof fn lemma_spaced_index(s: Seq<char>)
    requires
        s.len() >= 1,
    ensures
        spaced(s).len() == 2 * s.len() - 1,
        forall|j: int| 0 <= j < s.len() ==> #[trigger] spaced(s)[2 * j] == s[j],
        forall|j: int| 0 <= j < s.len() - 1 ==> #[trigger] spaced(s)[2 * j + 1] == ' ',
    decreases s.len(),
{
    if s.len() > 1 {
        lemma_spaced_index(s.drop_last());
        let p = spaced(s.drop_last());
        assert forall|j: int| 0 <= j < s.len() implies #[trigger] spaced(s)[2 * j] == s[j] by {
            if j < s.len() - 1 {
                assert(spaced(s)[2 * j] == p[2 * j]);
            }
        }
        assert forall|j: int| 0 <= j < s.len() - 1 implies #[trigger] spaced(s)[2 * j + 1]
            == ' ' by {
            if j < s.len() - 2 {
                assert(spaced(s)[2 * j + 1] == p[2 * j + 1]);
            }
        }
    }
}

/// Appends `n` blanks.
pub fn push_spaces(out: &mut Vec<char>, n: usize)
    ensures
        final(out)@ == old(out)@ + spaces(n as int),
{
    let ghost start = out@;
    for i in 0..n
        invariant
            out@ == start + spaces(i as int),
    {
        out.push(' ');
        assert(start + spaces(i + 1) =~= (start + spaces(i as int)).push(' '));
    }
}

/// Appends the glyphs of `g` with a blank between neighbours.
pub fn push_spaced(out: &mut Vec<char>, g: &Vec<char>)
    ensures
        final(out)@ == old(out)@ + spaced(g@),
{
    let ghost start = out@;
    let n = g.len();
    if n == 0 {
        assert(out@ =~= start + spaced(g@));
        return;
    }
    out.push(g[0]);
    assert(g@.take(1).len() == 1);
    assert(out@ =~= start + spaced(g@.take(1)));
    for i in 1..n
        invariant
            n == g@.len(),
            out@ == start + spaced(g@.take(i as int)),
    {
        proof {
            lemma_spaced_step(g@, i as int);
        }
        out.push(' ');
        out.push(g[i]);
        assert(out@ =~= start + spaced(g@.take(i + 1)));
    }
    assert(g@.take(n as int) =~= g@);
}

/// Appends every character of `s`.
pub fn push_str(out: &mut Vec<char>, s: &str)
    ensures
        final(out)@ == old(out)@ + s@,
{
    let ghost start = out@;
    let n = s.unicode_len();
    for i in 0..n
        invariant
            n == s@.len(),
            out@ == start + s@.take(i as int),
    {
        out.push(s.get_char(i));
        assert(out@ =~= start + s@.take(i + 1));
    }
    assert(s@.take(n as int) =~= s@);
}

/// Appends every glyph of `g`.
pub fn push_chars(out: &mut Vec<char>, g: &Vec<char>)
    ensures
        final(out)@ == old(out)@ + g@,
{
    let ghost start = out@;
    for j in 0..g.len()
        invariant
            out@ == start + g@.take(j as int),
    {
        out.push(g[j]);
        assert(out@ =~= start + g@.take(j + 1));
    }
    assert(g@.take(g@.len() as int) =~= g@);
}

/// Appends the rows of `rows`, a newline between neighbours.
pub fn push_lines(out: &mut Vec<char>, rows: &Vec<Vec<char>>)
    ensures
        final(out)@ == old(out)@ + lines(rows@.map_values(|r: Vec<char>| r@)),
{
    let ghost start = out@;
    let ghost model = rows@.map_values(|r: Vec<char>| r@);
    let n = rows.len();
    for k in 0..n
        invariant
            n == rows@.len(),
            model == rows@.map_values(|r: Vec<char>| r@),
            out@ == start + lines(model.take(k as int)),
    {
        if k > 0 {
            proof {
                lemma_lines_step(model, k as int);
            }
            out.push('\n');
        } else {
            assert(model.take(1).len() == 1);
        }
        push_chars(out, &rows[k]);
        assert(out@ =~= start + lines(model.take(k + 1)));
    }
    assert(model.take(n as int) =~= model);
}

/// Relies on `String`'s `FromIterator<&char>`: the string holds exactly
/// the characters handed to it, in order.
#[verifier::external_body]
pub(crate) fn string_of(chars: &Vec<char>) -> (r: String)
    ensures
        r@ == chars@,
{
    chars.iter().collect()
}

} // verus!
