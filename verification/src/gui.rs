//! A small overlay document model: a tree of styled block elements laid out
//! over a rectangle of the frame.

use vstd::prelude::*;

use crate::surface::Extent2D;

verus! {

/// A signed position on the surface, in pixels.
#[derive(Clone, Copy, PartialEq, Eq, Structural, Debug)]
pub struct Offset2D {
    pub x: i32,
    pub y: i32,
}

/// A rectangle of the surface.
#[derive(Clone, Copy, PartialEq, Eq, Structural, Debug)]
pub struct Rect2D {
    pub offset: Offset2D,
    pub extent: Extent2D,
}

/// An 8-bit RGBA colour.
#[derive(Clone, Copy, PartialEq, Eq, Structural, Debug)]
pub struct Color {
    pub r: u8,
    pub g: u8,
    pub b: u8,
    pub a: u8,
}

/// Anything that can stand in the document tree.
pub trait Node {
}

/// The styles an element carries, one optional value per style name.
pub struct Styles {
    background_color: Option<Color>,
}

impl Styles {
    /// The background colour, as contracts see it.
    pub closed spec fn spec_background_color(&self) -> Option<Color> {
        self.background_color
    }

    /// Fresh styles carry no values.
    pub fn new() -> (s: Styles)
        ensures
            s.spec_background_color() is None,
    {
        Styles { background_color: None }
    }

    pub fn background_color(&self) -> (r: Option<Color>)
        ensures
            r == self.spec_background_color(),
    {
        self.background_color
    }

    pub fn set_background_color(&mut self, color: Color)
        ensures
            final(self).spec_background_color() == Some(color),
    {
        self.background_color = Some(color);
    }
}

/// A block element: styled, with child elements.
pub struct DivElement {
    pub children: Vec<DivElement>,
    pub style: Styles,
}

impl Node for DivElement {
}

/// The root of the overlay: its elements and the rectangle they cover.
pub struct Document {
    pub body: Vec<DivElement>,
    pub rect: Rect2D,
}

} // verus!
