//! The drawing backend: each primitive of the chart becomes at most one call
//! into the rendering context.

use vstd::prelude::*;
use plotters_backend::BackendCoord;
use crate::binary64::Binary64;
use crate::color::{plotters_color_to_piet, render_color, BackendColor};
use crate::error::Error;
use crate::geometry::{
    inclusive_rect, mid_point, mid_rect, plotters_point_to_kurbo_corner,
    plotters_point_to_kurbo_mid, Circle, Line, Point, Rect,
};
use crate::path::{is_well_formed, path_from_points, path_of};
use crate::render::{LineCap, Paint, RenderOp, RenderOpView, Shape, ShapeView};

verus! {

/// The colour and the stroke width that a primitive is drawn with.
#[derive(Clone, Copy, Debug)]
pub struct BackendStyle {
    pub color: BackendColor,
    pub stroke_width: u32,
}

/// The backend for one frame. The size of the frame's surface, in pixels,
/// has to be given here.
#[derive(Debug)]
pub struct PietBackend {
    pub size: (u32, u32),
}

/// A fill of `shape` in the colour `color`.
pub open spec fn fill_of(shape: ShapeView, color: BackendColor) -> RenderOpView {
    RenderOpView { shape, brush: render_color(color), paint: Paint::Fill }
}

/// A stroke of `shape`. Every stroke has square caps.
pub open spec fn square_stroke_of(shape: ShapeView, style: BackendStyle) -> RenderOpView {
    RenderOpView {
        shape,
        brush: render_color(style.color),
        paint: Paint::StrokeStyled { width: style.stroke_width, line_cap: LineCap::Square },
    }
}

impl PietBackend {
    /// The backend for a surface whose width and height are measured on the
    /// plane: what follows the binary point is dropped, a negative measure
    /// or a NaN gives no pixel, and one beyond thirty-two bits is clipped.
    pub fn for_surface(width: Binary64, height: Binary64) -> (backend: PietBackend)
        ensures
            backend.size.0 == width.saturating_floor(0, u32::MAX as nat),
            backend.size.1 == height.saturating_floor(0, u32::MAX as nat),
    {
        PietBackend { size: (width.saturating_floor_u32(), height.saturating_floor_u32()) }
    }

    /// The size of the surface, as it was given.
    pub fn get_size(&self) -> (size: (u32, u32))
        ensures
            size == self.size,
    {
        self.size
    }

    /// Called before the first primitive of a frame. There is nothing to
    /// prepare.
    pub fn ensure_prepared(&self) -> (done: Result<(), Error>)
        ensures
            done is Ok,
    {
        Ok(())
    }

    /// Ends the frame. `finished` is what the rendering context answered
    /// when it was told to finish; the frame fails exactly if that call did,
    /// whatever error the context gave.
    pub fn present<E>(&self, finished: Result<(), E>) -> (done: Result<(), Error>)
        ensures
            done is Ok <==> finished is Ok,
            done is Err ==> done == Err::<(), Error>(Error {  }),
    {
        match finished {
            Ok(()) => Ok(()),
            Err(_) => Err(Error {  }),
        }
    }

    /// One pixel: a fill of its square.
    pub fn draw_pixel(&self, point: BackendCoord, color: BackendColor) -> (op: RenderOp)
        ensures
            op@ == fill_of(ShapeView::Rect(inclusive_rect(point, point)), color),
    {
        let p0 = plotters_point_to_kurbo_corner(point);
        let p1 = Point { x2: p0.x2 + 2, y2: p0.y2 + 2 };
        RenderOp {
            shape: Shape::Rect(Rect { p0, p1 }),
            brush: plotters_color_to_piet(&color),
            paint: Paint::Fill,
        }
    }

    /// A line between the middles of two pixels, stroked with square caps.
    pub fn draw_line(&self, from: BackendCoord, to: BackendCoord, style: &BackendStyle) -> (op:
        RenderOp)
        ensures
            op@ == square_stroke_of(
                ShapeView::Line(Line { p0: mid_point(from), p1: mid_point(to) }),
                *style,
            ),
    {
        let from = plotters_point_to_kurbo_mid(from);
        let to = plotters_point_to_kurbo_mid(to);
        RenderOp {
            shape: Shape::Line(Line { p0: from, p1: to }),
            brush: plotters_color_to_piet(&style.color),
            paint: Paint::StrokeStyled { width: style.stroke_width, line_cap: LineCap::Square },
        }
    }

    /// A rectangle. Filled, it spans every pixel from `upper_left` to
    /// `bottom_right`, both included. Stroked, its outline runs through the
    /// middles of the two pixels, with square caps as every stroke.
    pub fn draw_rect(
        &self,
        upper_left: BackendCoord,
        bottom_right: BackendCoord,
        style: &BackendStyle,
        fill: bool,
    ) -> (op: RenderOp)
        ensures
            fill ==> op@ == fill_of(
                ShapeView::Rect(inclusive_rect(upper_left, bottom_right)),
                style.color,
            ),
            !fill ==> op@ == square_stroke_of(
                ShapeView::Rect(mid_rect(upper_left, bottom_right)),
                *style,
            ),
    {
        let color = plotters_color_to_piet(&style.color);
        if fill {
            let upper_left = plotters_point_to_kurbo_corner(upper_left);
            let mut bottom_right = plotters_point_to_kurbo_corner(bottom_right);
            bottom_right.x2 = bottom_right.x2 + 2;
            bottom_right.y2 = bottom_right.y2 + 2;
            let rect = Rect { p0: upper_left, p1: bottom_right };
            RenderOp { shape: Shape::Rect(rect), brush: color, paint: Paint::Fill }
        } else {
            let upper_left = plotters_point_to_kurbo_mid(upper_left);
            let bottom_right = plotters_point_to_kurbo_mid(bottom_right);
            let rect = Rect { p0: upper_left, p1: bottom_right };
            RenderOp {
                shape: Shape::Rect(rect),
                brush: color,
                paint: Paint::StrokeStyled {
                    width: style.stroke_width,
                    line_cap: LineCap::Square,
                },
            }
        }
    }

    /// The open path through the middles of the pixels `path`, stroked with
    /// square caps. In a transparent colour nothing is drawn.
    pub fn draw_path(&self, path: Vec<BackendCoord>, style: &BackendStyle) -> (op: Option<
        RenderOp,
    >)
        ensures
            style.color.is_transparent() ==> op is None,
            !style.color.is_transparent() ==> op is Some && op->0@ == square_stroke_of(
                ShapeView::Path(path_of(path@, false)),
                *style,
            ),
            op is Some ==> is_well_formed(op->0@.shape->Path_0),
    {
        if style.color.is_transparent() {
            return None;
        }
        let path = path_from_points(path, false);
        Some(
            RenderOp {
                shape: Shape::Path(path),
                brush: plotters_color_to_piet(&style.color),
                paint: Paint::StrokeStyled {
                    width: style.stroke_width,
                    line_cap: LineCap::Square,
                },
            },
        )
    }

    /// A circle around the middle of the pixel `center`, filled or stroked
    /// with square caps.
    pub fn draw_circle(
        &self,
        center: BackendCoord,
        radius: u32,
        style: &BackendStyle,
        fill: bool,
    ) -> (op: RenderOp)
        ensures
            fill ==> op@ == fill_of(
                ShapeView::Circle(Circle { center: mid_point(center), radius }),
                style.color,
            ),
            !fill ==> op@ == square_stroke_of(
                ShapeView::Circle(Circle { center: mid_point(center), radius }),
                *style,
            ),
    {
        let center = plotters_point_to_kurbo_mid(center);
        let color = plotters_color_to_piet(&style.color);
        let circle = Circle { center, radius };
        if fill {
            RenderOp { shape: Shape::Circle(circle), brush: color, paint: Paint::Fill }
        } else {
            RenderOp {
                shape: Shape::Circle(circle),
                brush: color,
                paint: Paint::StrokeStyled {
                    width: style.stroke_width,
                    line_cap: LineCap::Square,
                },
            }
        }
    }

    /// The polygon with corners in the middles of the pixels `vert`, filled.
    /// In a transparent colour nothing is drawn, and nothing of a polygon
    /// without corners: its path would have no "move" to begin with.
    pub fn fill_polygon(&self, vert: Vec<BackendCoord>, style: &BackendStyle) -> (op: Option<
        RenderOp,
    >)
        ensures
            style.color.is_transparent() || vert@.len() == 0 ==> op is None,
            !style.color.is_transparent() && vert@.len() > 0 ==> op is Some && op->0@ == fill_of(
                ShapeView::Path(path_of(vert@, true)),
                style.color,
            ),
            op is Some ==> op->0@.shape->Path_0[0] is MoveTo && is_well_formed(
                op->0@.shape->Path_0,
            ),
    {
        if style.color.is_transparent() || vert.len() == 0 {
            return None;
        }
        let path = path_from_points(vert, true);
        Some(
            RenderOp {
                shape: Shape::Path(path),
                brush: plotters_color_to_piet(&style.color),
                paint: Paint::Fill,
            },
        )
    }
}

} // verus!
