//! What a drawing request hands to the rendering backend: plain shapes, in
//! sub-pixel units relative to the board's top-left corner.

use vstd::prelude::*;
use crate::position::Piece;

verus! {

/// An opaque colour, by its red, green and blue parts.
#[derive(Clone, Copy, Debug, PartialEq, Eq, Structural)]
pub struct Color {
    pub r: u8,
    pub g: u8,
    pub b: u8,
}

impl Color {
    /// The colour with the given parts.
    pub open spec fn spec_rgb8(r: u8, g: u8, b: u8) -> Color {
        Color { r, g, b }
    }

    /// The colour with the given parts.
    #[verifier::when_used_as_spec(spec_rgb8)]
    pub fn from_rgb8(r: u8, g: u8, b: u8) -> (c: Color)
        ensures
            c == Color::spec_rgb8(r, g, b),
    {
        Color { r, g, b }
    }
}

/// Pure white.
pub open spec fn white() -> Color {
    Color { r: 255, g: 255, b: 255 }
}

/// Pure black.
pub open spec fn black() -> Color {
    Color { r: 0, g: 0, b: 0 }
}

/// An axis-aligned rectangle.
#[derive(Clone, Copy, Debug, PartialEq, Eq, Structural)]
pub struct Rectangle {
    pub x: i64,
    pub y: i64,
    pub width: i64,
    pub height: i64,
}

/// A filled rectangle without border, its corners rounded by `radius`.
#[derive(Clone, Copy, Debug, PartialEq, Eq, Structural)]
pub struct Quad {
    pub bounds: Rectangle,
    pub radius: i64,
    pub color: Color,
}

/// One character of text, centred on `(x, y)`.
#[derive(Clone, Copy, Debug, PartialEq, Eq, Structural)]
pub struct Label {
    pub content: char,
    pub x: i64,
    pub y: i64,
    pub size: i64,
    pub color: Color,
}

/// The glyph of a piece, drawn into `bounds`.
#[derive(Clone, Copy, Debug, PartialEq, Eq, Structural)]
pub struct Sprite {
    pub piece: Piece,
    pub bounds: Rectangle,
}

/// One step of drawing.
#[derive(Clone, Copy, Debug, PartialEq, Eq, Structural)]
pub enum Primitive {
    Fill(Quad),
    Text(Label),
    Image(Sprite),
}

/// The steps that fill each of `quads` in turn.
pub open spec fn fills(quads: Seq<Quad>) -> Seq<Primitive> {
    quads.map_values(|q: Quad| Primitive::Fill(q))
}

/// The steps that write each of `labels` in turn.
pub open spec fn texts(labels: Seq<Label>) -> Seq<Primitive> {
    labels.map_values(|l: Label| Primitive::Text(l))
}

/// The steps that draw each of `sprites` in turn.
pub open spec fn images(sprites: Seq<Sprite>) -> Seq<Primitive> {
    sprites.map_values(|s: Sprite| Primitive::Image(s))
}

/// Appends the steps that fill each of `quads` in turn.
pub fn push_fills(steps: &mut Vec<Primitive>, quads: &Vec<Quad>)
    ensures
        final(steps)@ == old(steps)@ + fills(quads@),
{
    let ghost before = steps@;
    let mut i: usize = 0;
    while i < quads.len()
        invariant
            0 <= i <= quads@.len(),
            steps@ == before + fills(quads@.take(i as int)),
        decreases quads@.len() - i,
    {
        steps.push(Primitive::Fill(quads[i]));
        proof {
            assert(quads@.take(i + 1) == quads@.take(i as int).push(quads@[i as int]));
            assert(steps@ == before + fills(quads@.take(i + 1)));
        }
        i = i + 1;
    }
    proof {
        assert(quads@.take(i as int) == quads@);
    }
}

/// Appends the steps that write each of `labels` in turn.
pub fn push_texts(steps: &mut Vec<Primitive>, labels: &Vec<Label>)
    ensures
        final(steps)@ == old(steps)@ + texts(labels@),
{
    let ghost before = steps@;
    let mut i: usize = 0;
    while i < labels.len()
        invariant
            0 <= i <= labels@.len(),
            steps@ == before + texts(labels@.take(i as int)),
        decreases labels@.len() - i,
    {
        steps.push(Primitive::Text(labels[i]));
        proof {
            assert(labels@.take(i + 1) == labels@.take(i as int).push(labels@[i as int]));
            assert(steps@ == before + texts(labels@.take(i + 1)));
        }
        i = i + 1;
    }
    proof {
        assert(labels@.take(i as int) == labels@);
    }
}

/// Appends the steps that draw each of `sprites` in turn.
pub fn push_images(steps: &mut Vec<Primitive>, sprites: &Vec<Sprite>)
    ensures
        final(steps)@ == old(steps)@ + images(sprites@),
{
    let ghost before = steps@;
    let mut i: usize = 0;
    while i < sprites.len()
        invariant
            0 <= i <= sprites@.len(),
            steps@ == before + images(sprites@.take(i as int)),
        decreases sprites@.len() - i,
    {
        steps.push(Primitive::Image(sprites[i]));
        proof {
            assert(sprites@.take(i + 1) == sprites@.take(i as int).push(sprites@[i as int]));
            assert(steps@ == before + images(sprites@.take(i + 1)));
        }
        i = i + 1;
    }
    proof {
        assert(sprites@.take(i as int) == sprites@);
    }
}

} // verus!
