//! The rendering facade: a shape kind and a raw text in, either the drawn
//! shape or the length error out.

use vstd::prelude::*;

use crate::glyphs::{collect_chars, lemma_normalize_folds_alike, normalize, upper_of};
use crate::layout::{push_str, string_of};
use crate::shapes::{
    arrow_text, render_arrow, render_square, render_star, render_sw, square_text, star_text,
    sw_text, MAX_GLYPHS,
};

verus! {

/// The shapes a text can be drawn as.
#[derive(Clone, Copy, Debug, PartialEq, Eq, Structural)]
pub enum ShapeKind {
    Square,
    Star,
    Arrow,
    Diagonal,
}

/// Why a text was not drawn: its length in bytes lies outside
/// `min ..= max` (or it folds to more than `MAX_GLYPHS` glyphs).
#[derive(Clone, Copy, Debug, PartialEq, Eq, Structural)]
pub struct TransformError {
    pub min: usize,
    pub max: usize,
}

pub type TransformResult<T> = Result<T, TransformError>;

/// `n` in decimal digits.
pub open spec fn decimal(n: nat) -> Seq<char>
    decreases n,
{
    if n < 10 {
        seq![digit(n)]
    } else {
        decimal(n / 10) + seq![digit(n % 10)]
    }
}

pub open spec fn digit(d: nat) -> char {
    if d == 0 {
        '0'
    } else if d == 1 {
        '1'
    } else if d == 2 {
        '2'
    } else if d == 3 {
        '3'
    } else if d == 4 {
        '4'
    } else if d == 5 {
        '5'
    } else if d == 6 {
        '6'
    } else if d == 7 {
        '7'
    } else if d == 8 {
        '8'
    } else {
        '9'
    }
}

fn digit_char(d: usize) -> (c: char)
    requires
        d < 10,
    ensures
        c == digit(d as nat),
{
    if d == 0 {
        '0'
    } else if d == 1 {
        '1'
    } else if d == 2 {
        '2'
    } else if d == 3 {
        '3'
    } else if d == 4 {
        '4'
    } else if d == 5 {
        '5'
    } else if d == 6 {
        '6'
    } else if d == 7 {
        '7'
    } else if d == 8 {
        '8'
    } else {
        '9'
    }
}

fn push_decimal(out: &mut Vec<char>, n: usize)
    ensures
        final(out)@ == old(out)@ + decimal(n as nat),
    decreases n,
{
    if n >= 10 {
        push_decimal(out, n / 10);
    }
    out.push(digit_char(n % 10));
}

/// The message shown for a length error.
pub open spec fn length_message(min: nat, max: nat) -> Seq<char> {
    "text must contain from "@ + decimal(min) + " up to "@ + decimal(max) + " characters"@
}

impl TransformError {
    /// The error for a text whose length lies outside `min ..= max`.
    pub fn invalid_length(min: usize, max: usize) -> (e: TransformError)
        ensures
            e.min == min,
            e.max == max,
    {
        TransformError { min, max }
    }

    /// The human-readable message of the error.
    pub fn description(&self) -> (r: String)
        ensures
            r@ == length_message(self.min as nat, self.max as nat),
    {
        let mut out: Vec<char> = Vec::new();
        push_str(&mut out, "text must contain from ");
        push_decimal(&mut out, self.min);
        push_str(&mut out, " up to ");
        push_decimal(&mut out, self.max);
        push_str(&mut out, " characters");
        string_of(&out)
    }

    /// The message, as `Display` would write it.
    pub fn to_string(&self) -> (r: String)
        ensures
            r@ == length_message(self.min as nat, self.max as nat),
    {
        self.description()
    }
}

/// The allowed byte lengths of a text drawn as `kind`. Every shape,
/// the square included, takes from 3 to 100 bytes.
pub open spec fn spec_bounds(kind: ShapeKind) -> (usize, usize) {
    match kind {
        ShapeKind::Square => (3, 100),
        ShapeKind::Star => (3, 100),
        ShapeKind::Arrow => (3, 100),
        ShapeKind::Diagonal => (3, 100),
    }
}

/// The allowed byte lengths of a text drawn as `kind`.
pub fn bounds(kind: ShapeKind) -> (b: (usize, usize))
    ensures
        b == spec_bounds(kind),
{
    match kind {
        ShapeKind::Square => (3, 100),
        ShapeKind::Star => (3, 100),
        ShapeKind::Arrow => (3, 100),
        ShapeKind::Diagonal => (3, 100),
    }
}

/// Whether a text of `len` bytes may be drawn as `kind`.
pub open spec fn length_ok(kind: ShapeKind, len: nat) -> bool {
    spec_bounds(kind).0 <= len <= spec_bounds(kind).1
}

/// Whether the byte length of `text` lies within the bounds of `kind`.
pub fn is_valid(kind: ShapeKind, text: &str) -> (r: bool)
    ensures
        r == length_ok(kind, text.len() as nat),
{
    let (min, max) = bounds(kind);
    let len = text.len();
    min <= len && len <= max
}

/// The drawing of the glyphs `g` as `kind`.
pub open spec fn shape_text(kind: ShapeKind, g: Seq<char>) -> Seq<char> {
    match kind {
        ShapeKind::Square => square_text(g),
        ShapeKind::Star => star_text(g),
        ShapeKind::Arrow => arrow_text(g),
        ShapeKind::Diagonal => sw_text(g),
    }
}

/// Whether `text` is drawn as `kind`: its byte length is within the
/// shape's bounds and its glyphs number at most `MAX_GLYPHS`.
pub open spec fn renders(kind: ShapeKind, text: &str) -> bool {
    length_ok(kind, text.len() as nat) && normalize(text@).len() <= MAX_GLYPHS
}

/// The error for a text that `kind` refuses: the shape's bounds.
pub open spec fn length_error(kind: ShapeKind) -> TransformError {
    TransformError { min: spec_bounds(kind).0, max: spec_bounds(kind).1 }
}

/// What rendering `text` as `kind` yields: the drawing of its glyphs when
/// it is drawn at all, the shape's length error otherwise.
pub open spec fn rendered(kind: ShapeKind, text: &str, r: TransformResult<String>) -> bool {
    match r {
        Ok(s) => renders(kind, text) && s@ == shape_text(kind, normalize(text@)),
        Err(e) => !renders(kind, text) && e == length_error(kind),
    }
}

/// Checks the length of `text` against the bounds of `kind`, then draws
/// its glyphs.
pub fn render(kind: ShapeKind, text: &str) -> (r: TransformResult<String>)
    ensures
        rendered(kind, text, r),
        !length_ok(kind, text.len() as nat) ==> r == Err::<String, TransformError>(
            length_error(kind),
        ),
{
    let (min, max) = bounds(kind);
    if !is_valid(kind, text) {
        return Err(TransformError::invalid_length(min, max));
    }
    let glyphs = collect_chars(text);
    if glyphs.len() > MAX_GLYPHS {
        return Err(TransformError::invalid_length(min, max));
    }
    assert(text@.len() >= 1);
    let out = match kind {
        ShapeKind::Square => render_square(&glyphs),
        ShapeKind::Star => render_star(&glyphs),
        ShapeKind::Arrow => render_arrow(&glyphs),
        ShapeKind::Diagonal => render_sw(&glyphs),
    };
    Ok(out)
}

/// Draws a text as an arrow.
pub trait ToArrow {
    fn to_arrow(&self) -> TransformResult<String>;
}

impl<'a> ToArrow for &'a str {
    fn to_arrow(&self) -> (r: TransformResult<String>)
        ensures
            rendered(ShapeKind::Arrow, *self, r),
    {
        render(ShapeKind::Arrow, *self)
    }
}

/// Draws a text as concentric squares.
pub trait ToSquare {
    fn to_square(&self) -> TransformResult<String>;
}

impl<'a> ToSquare for &'a str {
    fn to_square(&self) -> (r: TransformResult<String>)
        ensures
            rendered(ShapeKind::Square, *self, r),
    {
        render(ShapeKind::Square, *self)
    }
}

/// Draws a text as a star.
pub trait ToStar {
    fn to_star(&self) -> TransformResult<String>;
}

impl<'a> ToStar for &'a str {
    fn to_star(&self) -> (r: TransformResult<String>)
        ensures
            rendered(ShapeKind::Star, *self, r),
    {
        render(ShapeKind::Star, *self)
    }
}

/// Draws a text as the diagonal pattern.
pub trait ToSw {
    fn to_sw(&self) -> TransformResult<String>;
}

impl<'a> ToSw for &'a str {
    fn to_sw(&self) -> (r: TransformResult<String>)
        ensures
            rendered(ShapeKind::Diagonal, *self, r),
    {
        render(ShapeKind::Diagonal, *self)
    }
}

/// Draws `orig` as an arrow.
pub fn to_arrow(orig: &str) -> (r: TransformResult<String>)
    ensures
        rendered(ShapeKind::Arrow, orig, r),
{
    render(ShapeKind::Arrow, orig)
}

/// Rendering is a function of the shape and the text: two renderings of
/// the same pair agree, to the character.
pub proof fn lemma_render_deterministic(
    kind: ShapeKind,
    text: &str,
    r1: TransformResult<String>,
    r2: TransformResult<String>,
)
    requires
        rendered(kind, text, r1),
        rendered(kind, text, r2),
    ensures
        r1 is Ok <==> r2 is Ok,
        r1 matches Ok(s1) ==> r2 matches Ok(s2) && s1@ == s2@,
        r1 matches Err(e1) ==> r2 matches Err(e2) && e1 == e2,
{
}

/// Case does not matter: two texts of one byte length whose characters
/// fold to the same uppercase forms, position by position, render alike.
pub proof fn lemma_render_ignores_case(
    kind: ShapeKind,
    t1: &str,
    t2: &str,
    r1: TransformResult<String>,
    r2: TransformResult<String>,
)
    requires
        t1.len() == t2.len(),
        t1@.len() == t2@.len(),
        forall|i: int| 0 <= i < t1@.len() ==> upper_of(#[trigger] t1@[i]) == upper_of(t2@[i]),
        rendered(kind, t1, r1),
        rendered(kind, t2, r2),
    ensures
        r1 is Ok <==> r2 is Ok,
        r1 matches Ok(s1) ==> r2 matches Ok(s2) && s1@ == s2@,
        r1 matches Err(e1) ==> r2 matches Err(e2) && e1 == e2,
{
    lemma_normalize_folds_alike(t1@, t2@);
}

} // verus!
