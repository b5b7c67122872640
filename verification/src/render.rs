//! What a rendering context is asked to do: fill or stroke one shape with
//! one colour.

use vstd::prelude::*;
use crate::color::Color;
use crate::geometry::{Circle, Line, Rect};
use crate::path::PathEl;

verus! {

/// A shape that can be filled or stroked.
#[derive(Debug, PartialEq, Eq)]
pub enum Shape {
    Rect(Rect),
    Line(Line),
    Circle(Circle),
    Path(Vec<PathEl>),
}

/// A shape as a mathematical value: a path is the sequence of its elements.
pub ghost enum ShapeView {
    Rect(Rect),
    Line(Line),
    Circle(Circle),
    Path(Seq<PathEl>),
}

impl View for Shape {
    type V = ShapeView;

    open spec fn view(&self) -> ShapeView {
        match *self {
            Shape::Rect(rect) => ShapeView::Rect(rect),
            Shape::Line(line) => ShapeView::Line(line),
            Shape::Circle(circle) => ShapeView::Circle(circle),
            Shape::Path(path) => ShapeView::Path(path@),
        }
    }
}

/// How a stroke ends.
#[derive(Clone, Copy, Debug, PartialEq, Eq, Structural)]
pub enum LineCap {
    /// The stroke stops at the end point.
    Butt,
    /// The stroke ends in a half disc around the end point.
    Round,
    /// The stroke goes on for half its width past the end point.
    Square,
}

/// How a shape is painted. Widths are in whole pixels.
#[derive(Clone, Copy, Debug, PartialEq, Eq, Structural)]
pub enum Paint {
    /// The inside is filled.
    Fill,
    /// The outline is stroked with the given cap at its ends.
    StrokeStyled { width: u32, line_cap: LineCap },
}

/// One call into the rendering context.
#[derive(Debug, PartialEq, Eq)]
pub struct RenderOp {
    pub shape: Shape,
    pub brush: Color,
    pub paint: Paint,
}

/// A call into the rendering context as a mathematical value.
pub ghost struct RenderOpView {
    pub shape: ShapeView,
    pub brush: Color,
    pub paint: Paint,
}

impl View for RenderOp {
    type V = RenderOpView;

    open spec fn view(&self) -> RenderOpView {
        RenderOpView { shape: self.shape@, brush: self.brush, paint: self.paint }
    }
}

} // verus!
