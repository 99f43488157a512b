//! Renders a short text as one of four ASCII-art shapes: concentric
//! squares, a star, an arrow and a diagonal pattern.

pub mod glyphs;
pub mod layout;
pub mod shapes;
pub mod transform;

use vstd::prelude::*;

use crate::glyphs::normalize;
use crate::transform::{render, renders, shape_text, ShapeKind};

verus! {

/// A text drawn as concentric squares.
pub struct Square {
    pub buf: String,
}

impl Square {
    /// Draws `text`, or fails where its length is outside the bounds of
    /// the shape.
    pub fn try_from(text: &str) -> (r: Result<Square, ()>)
        ensures
            r is Ok <==> renders(ShapeKind::Square, text),
            r matches Ok(s) ==> s.buf@ == shape_text(ShapeKind::Square, normalize(text@)),
    {
        match render(ShapeKind::Square, text) {
            Ok(buf) => Ok(Square { buf }),
            Err(_) => Err(()),
        }
    }

    /// The drawing.
    pub fn to_string(&self) -> (r: String)
        ensures
            r@ == self.buf@,
    {
        self.buf.clone()
    }
}

/// A text drawn as a star.
pub struct Star {
    pub buf: String,
}

impl Star {
    /// Draws `text`, or fails where its length is outside the bounds of
    /// the shape.
    pub fn try_from(text: &str) -> (r: Result<Star, ()>)
        ensures
            r is Ok <==> renders(ShapeKind::Star, text),
            r matches Ok(s) ==> s.buf@ == shape_text(ShapeKind::Star, normalize(text@)),
    {
        match render(ShapeKind::Star, text) {
            Ok(buf) => Ok(Star { buf }),
            Err(_) => Err(()),
        }
    }

    /// The drawing.
    pub fn to_string(&self) -> (r: String)
        ensures
            r@ == self.buf@,
    {
        self.buf.clone()
    }
}

/// A text drawn as an arrow.
pub struct Arrow {
    pub buf: String,
}

impl Arrow {
    /// Draws `text`, or fails where its length is outside the bounds of
    /// the shape.
    pub fn try_from(text: &str) -> (r: Result<Arrow, ()>)
        ensures
            r is Ok <==> renders(ShapeKind::Arrow, text),
            r matches Ok(s) ==> s.buf@ == shape_text(ShapeKind::Arrow, normalize(text@)),
    {
        match render(ShapeKind::Arrow, text) {
            Ok(buf) => Ok(Arrow { buf }),
            Err(_) => Err(()),
        }
    }

    /// The drawing.
    pub fn to_string(&self) -> (r: String)
        ensures
            r@ == self.buf@,
    {
        self.buf.clone()
    }
}

/// A text drawn as the diagonal pattern.
pub struct Sw {
    pub buf: String,
}

impl Sw {
    /// Draws `text`, or fails where its length is outside the bounds of
    /// the shape.
    pub fn try_from(text: &str) -> (r: Result<Sw, ()>)
        ensures
            r is Ok <==> renders(ShapeKind::Diagonal, text),
            r matches Ok(s) ==> s.buf@ == shape_text(ShapeKind::Diagonal, normalize(text@)),
    {
        match render(ShapeKind::Diagonal, text) {
            Ok(buf) => Ok(Sw { buf }),
            Err(_) => Err(()),
        }
    }

    /// The drawing.
    pub fn to_string(&self) -> (r: String)
        ensures
            r@ == self.buf@,
    {
        self.buf.clone()
    }
}

} // verus!
