//! Paths: a polyline or a polygon's boundary as the rendering context takes
//! it, a "move" to the first point and a "line" to each of the others.

use vstd::prelude::*;
use plotters_backend::BackendCoord;
use crate::geometry::{mid_point, plotters_point_to_kurbo_mid, Point};

verus! {

/// One element of a path.
#[derive(Clone, Copy, Debug, PartialEq, Eq, Structural)]
pub enum PathEl {
    /// Start a new stretch at the point.
    MoveTo(Point),
    /// Draw a straight line from where the path stands to the point.
    LineTo(Point),
    /// Draw a straight line back to where the stretch started.
    ClosePath,
}

/// The element that the pixel at place `i` of a polyline becomes.
pub open spec fn path_el_at(points: Seq<BackendCoord>, i: int) -> PathEl {
    if i == 0 {
        PathEl::MoveTo(mid_point(points[i]))
    } else {
        PathEl::LineTo(mid_point(points[i]))
    }
}

/// The path through the middles of the pixels `points`, closed or not.
/// Without a pixel there is nothing to close, and the path is empty.
pub open spec fn path_of(points: Seq<BackendCoord>, closed: bool) -> Seq<PathEl> {
    let polyline = Seq::new(points.len(), |i: int| path_el_at(points, i));
    if closed && points.len() > 0 {
        polyline.push(PathEl::ClosePath)
    } else {
        polyline
    }
}

/// Whether a rendering context takes the path: it is empty, or it begins
/// with a "move" and holds no other.
pub open spec fn is_well_formed(path: Seq<PathEl>) -> bool {
    forall|i: int| 0 <= i < path.len() ==> (#[trigger] path[i] is MoveTo <==> i == 0)
}

/// Walks over pixels and hands out the elements of the open path through
/// them: the first as a "move", each later one as a "line". Some rendering
/// contexts take no path that starts with a "line".
#[derive(Debug)]
pub struct PlottersPathToKurbo {
    iter: Vec<BackendCoord>,
    taken: usize,
    first: bool,
}

impl PlottersPathToKurbo {
    #[verifier::type_invariant]
    spec fn well_formed(&self) -> bool {
        self.taken <= self.iter.len()
    }

    /// The elements that are still to come, in their order.
    pub closed spec fn view(&self) -> Seq<PathEl> {
        Seq::new(
            (self.iter.len() - self.taken) as nat,
            |i: int|
                if self.first && i == 0 {
                    PathEl::MoveTo(mid_point(self.iter@[self.taken + i]))
                } else {
                    PathEl::LineTo(mid_point(self.iter@[self.taken + i]))
                },
        )
    }

    /// Starts a walk over `path`.
    pub fn new(path: Vec<BackendCoord>) -> (walk: PlottersPathToKurbo)
        ensures
            walk@ == path_of(path@, false),
    {
        let walk = PlottersPathToKurbo { iter: path, taken: 0, first: true };
        assert(walk@ =~= path_of(path@, false));
        walk
    }

    /// Hands out the next element, or `None` when every pixel was taken.
    pub fn next(&mut self) -> (el: Option<PathEl>)
        ensures
            old(self)@.len() == 0 ==> el is None && final(self)@ == old(self)@,
            old(self)@.len() > 0 ==> el == Some(old(self)@[0]) && final(self)@ == old(self)@.skip(
                1,
            ),
    {
        proof {
            use_type_invariant(&*self);
        }
        if self.taken < self.iter.len() {
            let point = plotters_point_to_kurbo_mid(self.iter[self.taken]);
            let el = if self.first {
                PathEl::MoveTo(point)
            } else {
                PathEl::LineTo(point)
            };
            self.first = false;
            self.taken = self.taken + 1;
            assert(final(self)@ =~= old(self)@.skip(1));
            Some(el)
        } else {
            None
        }
    }
}

/// Starts a walk over `path` that hands out the open path through it.
pub fn plotters_path_to_kurbo(path: Vec<BackendCoord>) -> (walk: PlottersPathToKurbo)
    ensures
        walk@ == path_of(path@, false),
{
    PlottersPathToKurbo::new(path)
}

/// Builds the path through the middles of the pixels `points`: a "move" to
/// the first, a "line" to each of the others and, where `closed` is set and
/// there is a first pixel to go back to, the element that closes the path.
pub fn path_from_points(points: Vec<BackendCoord>, closed: bool) -> (path: Vec<PathEl>)
    ensures
        path@ == path_of(points@, closed),
        is_well_formed(path@),
{
    let ghost whole = path_of(points@, false);
    let mut walk = plotters_path_to_kurbo(points);
    let mut path: Vec<PathEl> = Vec::new();
    loop
        invariant
            path@ + walk@ == whole,
        ensures
            path@ == whole,
        decreases walk@.len(),
    {
        let ghost before = walk@;
        match walk.next() {
            Some(el) => {
                path.push(el);
                assert(path@ + walk@ =~= whole) by {
                    assert(before =~= seq![before[0]] + before.skip(1));
                }
            },
            None => {
                assert(path@ =~= path@ + walk@);
                break ;
            },
        }
    }
    if closed && path.len() > 0 {
        path.push(PathEl::ClosePath);
    }
    path
}

/// A path is empty or starts with a "move". The "move" is its only one:
/// "lines" follow, and the closing element comes last where the path is
/// closed and not empty.
pub proof fn lemma_path_starts_with_move(points: Seq<BackendCoord>, closed: bool)
    ensures
        path_of(points, closed).len() == points.len() + if closed && points.len() > 0 {
            1int
        } else {
            0int
        },
        points.len() > 0 ==> path_of(points, closed)[0] == PathEl::MoveTo(mid_point(points[0])),
        forall|i: int|
            1 <= i < points.len() ==> #[trigger] path_of(points, closed)[i] == PathEl::LineTo(
                mid_point(points[i]),
            ),
        closed && points.len() > 0 ==> path_of(points, closed).last() == PathEl::ClosePath,
        is_well_formed(path_of(points, closed)),
{
}

} // verus!
