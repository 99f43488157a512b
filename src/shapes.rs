//! The four shape layouts. Each is stated as the rows it draws, a pure
//! function of the glyph sequence, and rendered by a function that builds
//! exactly those rows.

use vstd::prelude::*;

use crate::layout::{
    lemma_spaced_index, lines, push_lines, push_spaced, push_spaces, spaced, spaces, string_of,
};

verus! {

/// The most glyphs a shape is drawn from: twice as many still fit in `usize`.
pub const MAX_GLYPHS: usize = usize::MAX / 2;

/// A renderable glyph sequence.
pub open spec fn drawable(g: Seq<char>) -> bool {
    1 <= g.len() <= MAX_GLYPHS
}

/// Distance of line `i` from the nearer edge of a `2n - 1` wide grid.
pub open spec fn edge_distance(i: int, n: int) -> int {
    if i < n {
        i
    } else {
        2 * n - 2 - i
    }
}

/// The glyph of the square at row `r`, column `c`: ring `d` from the
/// edge shows glyph `n - 1 - d`, so the last glyph forms the outer ring and
/// the first one stands alone at the centre.
pub open spec fn square_cell(g: Seq<char>, r: int, c: int) -> char {
    let n = g.len() as int;
    let dr = edge_distance(r, n);
    let dc = edge_distance(c, n);
    let ring = if dr <= dc {
        dr
    } else {
        dc
    };
    g[n - 1 - ring]
}

/// The `(2n - 1) x (2n - 1)` grid of the square.
pub open spec fn square_grid(g: Seq<char>) -> Seq<Seq<char>> {
    let side = (2 * g.len() - 1) as nat;
    Seq::new(side, |r: int| Seq::new(side, |c: int| square_cell(g, r, c)))
}

pub open spec fn square_rows(g: Seq<char>) -> Seq<Seq<char>> {
    square_grid(g).map_values(|row: Seq<char>| spaced(row))
}

pub open spec fn square_text(g: Seq<char>) -> Seq<char> {
    lines(square_rows(g))
}

fn square_row(g: &Vec<char>, r: usize) -> (row: Vec<char>)
    requires
        drawable(g@),
        r < 2 * g@.len() - 1,
    ensures
        row@ == square_rows(g@)[r as int],
{
    let n = g.len();
    let side = 2 * n - 1;
    let dr = if r < n {
        r
    } else {
        side - 1 - r
    };
    let ghost grid_row = square_grid(g@)[r as int];
    let mut cells: Vec<char> = Vec::new();
    for c in 0..side
        invariant
            n == g@.len(),
            side == 2 * n - 1,
            drawable(g@),
            r < side,
            dr == edge_distance(r as int, n as int),
            grid_row == square_grid(g@)[r as int],
            cells@ == grid_row.take(c as int),
    {
        let dc = if c < n {
            c
        } else {
            side - 1 - c
        };
        let ring = if dr <= dc {
            dr
        } else {
            dc
        };
        cells.push(g[n - 1 - ring]);
        assert(cells@ =~= grid_row.take(c + 1));
    }
    assert(cells@ =~= grid_row);
    let mut row: Vec<char> = Vec::new();
    push_spaced(&mut row, &cells);
    row
}

/// Draws `g` as concentric square rings.
pub fn render_square(g: &Vec<char>) -> (r: String)
    requires
        drawable(g@),
    ensures
        r@ == square_text(g@),
{
    let side = 2 * g.len() - 1;
    let ghost model = square_rows(g@);
    let mut rows: Vec<Vec<char>> = Vec::new();
    for k in 0..side
        invariant
            side == 2 * g@.len() - 1,
            drawable(g@),
            model == square_rows(g@),
            rows@.len() == k,
            forall|j: int| 0 <= j < k ==> (#[trigger] rows@[j])@ == model[j],
    {
        rows.push(square_row(g, k));
    }
    assert(rows@.map_values(|v: Vec<char>| v@) =~= model);
    let mut out: Vec<char> = Vec::new();
    push_lines(&mut out, &rows);
    string_of(&out)
}

/// The double row through the middle of the star and the diagonal: the
/// glyphs after the first, backwards, then all of them forwards.
pub open spec fn double_row(g: Seq<char>) -> Seq<char> {
    spaced(g.drop_first().reverse() + g)
}

fn double_row_exec(g: &Vec<char>) -> (row: Vec<char>)
    requires
        drawable(g@),
    ensures
        row@ == double_row(g@),
{
    let n = g.len();
    let ghost back = g@.drop_first().reverse();
    let mut seq: Vec<char> = Vec::new();
    let mut i: usize = n;
    while i > 1
        invariant
            n == g@.len(),
            1 <= i <= n,
            back == g@.drop_first().reverse(),
            seq@ == back.take(n - i),
        decreases i,
    {
        i = i - 1;
        seq.push(g[i]);
        assert(seq@ =~= back.take(n - i));
    }
    assert(seq@ =~= back);
    crate::layout::push_chars(&mut seq, g);
    let mut row: Vec<char> = Vec::new();
    push_spaced(&mut row, &seq);
    row
}

/// Star row for arm `i`: glyph `i + 1` three times, the gaps widening
/// with `i`, indented less as `i` grows.
pub open spec fn star_arm(g: Seq<char>, i: int) -> Seq<char> {
    let n = g.len() as int;
    let c = g[i + 1];
    spaces(2 * (n - i - 2)) + seq![c] + spaces(2 * i + 1) + seq![c] + spaces(2 * i + 1) + seq![c]
}

/// The star's `2n - 1` rows: arms from the outermost in, the double row,
/// arms from the innermost out.
pub open spec fn star_rows(g: Seq<char>) -> Seq<Seq<char>> {
    let n = g.len() as int;
    Seq::new(
        (2 * n - 1) as nat,
        |k: int|
            if k < n - 1 {
                star_arm(g, n - 2 - k)
            } else if k == n - 1 {
                double_row(g)
            } else {
                star_arm(g, k - n)
            },
    )
}

pub open spec fn star_text(g: Seq<char>) -> Seq<char> {
    lines(star_rows(g))
}

fn star_arm_exec(g: &Vec<char>, i: usize) -> (row: Vec<char>)
    requires
        drawable(g@),
        i + 2 <= g@.len(),
    ensures
        row@ == star_arm(g@, i as int),
{
    let n = g.len();
    let c = g[i + 1];
    let mut row: Vec<char> = Vec::new();
    push_spaces(&mut row, 2 * (n - i - 2));
    row.push(c);
    push_spaces(&mut row, 2 * i + 1);
    row.push(c);
    push_spaces(&mut row, 2 * i + 1);
    row.push(c);
    assert(row@ =~= star_arm(g@, i as int));
    row
}

fn star_row(g: &Vec<char>, k: usize) -> (row: Vec<char>)
    requires
        drawable(g@),
        k < 2 * g@.len() - 1,
    ensures
        row@ == star_rows(g@)[k as int],
{
    let n = g.len();
    if k + 1 < n {
        star_arm_exec(g, n - 2 - k)
    } else if k + 1 == n {
        double_row_exec(g)
    } else {
        star_arm_exec(g, k - n)
    }
}

/// Draws `g` as a six-pointed star.
pub fn render_star(g: &Vec<char>) -> (r: String)
    requires
        drawable(g@),
    ensures
        r@ == star_text(g@),
{
    let height = 2 * g.len() - 1;
    let ghost model = star_rows(g@);
    let mut rows: Vec<Vec<char>> = Vec::new();
    for k in 0..height
        invariant
            height == 2 * g@.len() - 1,
            drawable(g@),
            model == star_rows(g@),
            rows@.len() == k,
            forall|j: int| 0 <= j < k ==> (#[trigger] rows@[j])@ == model[j],
    {
        rows.push(star_row(g, k));
    }
    assert(rows@.map_values(|v: Vec<char>| v@) =~= model);
    let mut out: Vec<char> = Vec::new();
    push_lines(&mut out, &rows);
    string_of(&out)
}

/// The arrow's `n` rows: all glyphs as the head, then glyph `k` twice,
/// `2k - 1` blanks apart.
pub open spec fn arrow_rows(g: Seq<char>) -> Seq<Seq<char>> {
    Seq::new(
        g.len(),
        |k: int|
            if k == 0 {
                spaced(g)
            } else {
                seq![g[k]] + spaces(2 * k - 1) + seq![g[k]]
            },
    )
}

pub open spec fn arrow_text(g: Seq<char>) -> Seq<char> {
    lines(arrow_rows(g))
}

fn arrow_row(g: &Vec<char>, k: usize) -> (row: Vec<char>)
    requires
        drawable(g@),
        k < g@.len(),
    ensures
        row@ == arrow_rows(g@)[k as int],
{
    let mut row: Vec<char> = Vec::new();
    if k == 0 {
        push_spaced(&mut row, g);
    } else {
        row.push(g[k]);
        push_spaces(&mut row, 2 * k - 1);
        row.push(g[k]);
        assert(row@ =~= arrow_rows(g@)[k as int]);
    }
    row
}

/// Draws `g` as an arrow: a head row and two diverging rails.
pub fn render_arrow(g: &Vec<char>) -> (r: String)
    requires
        drawable(g@),
    ensures
        r@ == arrow_text(g@),
{
    let height = g.len();
    let ghost model = arrow_rows(g@);
    let mut rows: Vec<Vec<char>> = Vec::new();
    for k in 0..height
        invariant
            height == g@.len(),
            drawable(g@),
            model == arrow_rows(g@),
            rows@.len() == k,
            forall|j: int| 0 <= j < k ==> (#[trigger] rows@[j])@ == model[j],
    {
        rows.push(arrow_row(g, k));
    }
    assert(rows@.map_values(|v: Vec<char>| v@) =~= model);
    let mut out: Vec<char> = Vec::new();
    push_lines(&mut out, &rows);
    string_of(&out)
}

/// Top row `a` of the diagonal: the first one opens with the first glyph
/// and closes with every glyph backwards, each followed by a blank; the
/// others hold glyph `a` on the left rail and glyph `n - 1 - a` on the right.
pub open spec fn sw_top(g: Seq<char>, a: int) -> Seq<char> {
    let n = g.len() as int;
    if a == 0 {
        seq![g[0]] + spaces(2 * n - 3) + spaced(g.reverse()) + seq![' ']
    } else {
        seq![g[a]] + spaces(2 * n - 3) + seq![g[n - 1 - a]]
    }
}

/// Bottom row `a` (from 1) of the diagonal: the last one opens with every
/// glyph forwards and ends in the first glyph; the others are indented by
/// `2n - 2` and hold glyph `a` and glyph `n - 1 - a`.
pub open spec fn sw_bottom(g: Seq<char>, a: int) -> Seq<char> {
    let n = g.len() as int;
    if a == n - 1 {
        spaced(g) + spaces(2 * n - 3) + seq![g[0]]
    } else {
        spaces(2 * n - 2) + seq![g[a]] + spaces(2 * n - 3) + seq![g[n - 1 - a]]
    }
}

/// The diagonal's `2n - 1` rows: `n - 1` top rows, the double row, and
/// `n - 1` bottom rows.
pub open spec fn sw_rows(g: Seq<char>) -> Seq<Seq<char>> {
    let n = g.len() as int;
    Seq::new(
        (2 * n - 1) as nat,
        |k: int|
            if k < n - 1 {
                sw_top(g, k)
            } else if k == n - 1 {
                double_row(g)
            } else {
                sw_bottom(g, k - n + 1)
            },
    )
}

pub open spec fn sw_text(g: Seq<char>) -> Seq<char> {
    lines(sw_rows(g))
}

fn sw_top_exec(g: &Vec<char>, a: usize) -> (row: Vec<char>)
    requires
        drawable(g@),
        a + 1 < g@.len(),
    ensures
        row@ == sw_top(g@, a as int),
{
    let n = g.len();
    let mut row: Vec<char> = Vec::new();
    row.push(g[a]);
    push_spaces(&mut row, 2 * n - 3);
    if a == 0 {
        let mut back: Vec<char> = Vec::new();
        let mut i: usize = n;
        while i > 0
            invariant
                n == g@.len(),
                i <= n,
                back@ == g@.reverse().take(n - i),
            decreases i,
        {
            i = i - 1;
            back.push(g[i]);
            assert(back@ =~= g@.reverse().take(n - i));
        }
        assert(back@ =~= g@.reverse());
        push_spaced(&mut row, &back);
        row.push(' ');
    } else {
        row.push(g[n - 1 - a]);
    }
    assert(row@ =~= sw_top(g@, a as int));
    row
}

fn sw_bottom_exec(g: &Vec<char>, a: usize) -> (row: Vec<char>)
    requires
        drawable(g@),
        1 <= a < g@.len(),
    ensures
        row@ == sw_bottom(g@, a as int),
{
    let n = g.len();
    let mut row: Vec<char> = Vec::new();
    if a == n - 1 {
        push_spaced(&mut row, g);
        push_spaces(&mut row, 2 * n - 3);
        row.push(g[0]);
    } else {
        push_spaces(&mut row, 2 * n - 2);
        row.push(g[a]);
        push_spaces(&mut row, 2 * n - 3);
        row.push(g[n - 1 - a]);
    }
    assert(row@ =~= sw_bottom(g@, a as int));
    row
}

fn sw_row(g: &Vec<char>, k: usize) -> (row: Vec<char>)
    requires
        drawable(g@),
        k < 2 * g@.len() - 1,
    ensures
        row@ == sw_rows(g@)[k as int],
{
    let n = g.len();
    if k + 1 < n {
        sw_top_exec(g, k)
    } else if k + 1 == n {
        double_row_exec(g)
    } else {
        sw_bottom_exec(g, k + 1 - n)
    }
}

/// Draws `g` as the diagonal pattern: two rails joined by full-width top,
/// middle and bottom rows.
pub fn render_sw(g: &Vec<char>) -> (r: String)
    requires
        drawable(g@),
    ensures
        r@ == sw_text(g@),
{
    let height = 2 * g.len() - 1;
    let ghost model = sw_rows(g@);
    let mut rows: Vec<Vec<char>> = Vec::new();
    for k in 0..height
        invariant
            height == 2 * g@.len() - 1,
            drawable(g@),
            model == sw_rows(g@),
            rows@.len() == k,
            forall|j: int| 0 <= j < k ==> (#[trigger] rows@[j])@ == model[j],
    {
        rows.push(sw_row(g, k));
    }
    assert(rows@.map_values(|v: Vec<char>| v@) =~= model);
    let mut out: Vec<char> = Vec::new();
    push_lines(&mut out, &rows);
    string_of(&out)
}

/// The square is `2n - 1` rows of `2n - 1` glyphs, each row written with
/// single blanks between its glyphs; it looks the same turned half a
/// circle; its centre holds the first glyph and its corners the last.
pub proof fn lemma_square_shape(g: Seq<char>)
    requires
        drawable(g),
    ensures
        square_grid(g).len() == 2 * g.len() - 1,
        square_rows(g).len() == 2 * g.len() - 1,
        forall|r: int|
            0 <= r < 2 * g.len() - 1 ==> (#[trigger] square_grid(g)[r]).len() == 2 * g.len() - 1
                && square_rows(g)[r] == spaced(square_grid(g)[r]) && square_rows(g)[r].len() == 4
                * g.len() - 3,
        forall|r: int, c: int|
            0 <= r < 2 * g.len() - 1 && 0 <= c < 2 * g.len() - 1 ==> #[trigger] square_grid(g)[r][c]
                == square_grid(g)[2 * g.len() - 2 - r][2 * g.len() - 2 - c],
        square_grid(g)[g.len() - 1][g.len() - 1] == g[0],
        square_grid(g)[0][0] == g[g.len() - 1],
{
    let side = 2 * g.len() - 1;
    assert forall|r: int| 0 <= r < side implies (#[trigger] square_grid(g)[r]).len() == side
        && square_rows(g)[r] == spaced(square_grid(g)[r]) && square_rows(g)[r].len() == 4
        * g.len() - 3 by {
        lemma_spaced_index(square_grid(g)[r]);
    }
}

/// The star reads the same from the bottom up: row `k` equals row
/// `2n - 2 - k`, the double row in the middle.
pub proof fn lemma_star_mirror(g: Seq<char>)
    requires
        drawable(g),
    ensures
        star_rows(g).len() == 2 * g.len() - 1,
        star_rows(g)[g.len() - 1] == double_row(g),
        forall|k: int|
            0 <= k < 2 * g.len() - 1 ==> #[trigger] star_rows(g)[k] == star_rows(g)[2 * g.len() - 2
                - k],
{
}

/// The arrow has no middle row to mirror about: it is `n` rows, the head
/// first.
pub proof fn lemma_arrow_height(g: Seq<char>)
    requires
        drawable(g),
    ensures
        arrow_rows(g).len() == g.len(),
        arrow_rows(g)[0] == spaced(g),
{
}

/// The diagonal is `2n - 1` rows with the double row in the middle.
pub proof fn lemma_sw_height(g: Seq<char>)
    requires
        drawable(g),
    ensures
        sw_rows(g).len() == 2 * g.len() - 1,
        sw_rows(g)[g.len() - 1] == double_row(g),
{
}

} // verus!
