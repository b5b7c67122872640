use plotters_piet::geometry::Point;
use plotters_piet::path::{path_from_points, plotters_path_to_kurbo, PathEl, PlottersPathToKurbo};

fn kurbo_point(point: Point) -> kurbo::Point {
    kurbo::Point { x: point.x2 as f64 / 2.0, y: point.y2 as f64 / 2.0 }
}

fn kurbo_el(el: PathEl) -> kurbo::PathEl {
    match el {
        PathEl::MoveTo(point) => kurbo::PathEl::MoveTo(kurbo_point(point)),
        PathEl::LineTo(point) => kurbo::PathEl::LineTo(kurbo_point(point)),
        PathEl::ClosePath => kurbo::PathEl::ClosePath,
    }
}

fn collect_walk(mut walk: PlottersPathToKurbo) -> Vec<kurbo::PathEl> {
    let mut out = Vec::new();
    while let Some(el) = walk.next() {
        out.push(kurbo_el(el));
    }
    out
}

#[test]
fn test_plotters_path_to_kurbo() {
    let path = vec![(1, 2), (3, 4), (5, 6)];

    let kurbo_path: Vec<kurbo::PathEl> = collect_walk(plotters_path_to_kurbo(path));

    assert_eq!(
        kurbo_path,
        vec![
            kurbo::PathEl::MoveTo(kurbo::Point { x: 1.5, y: 2.5 }),
            kurbo::PathEl::LineTo(kurbo::Point { x: 3.5, y: 4.5 }),
            kurbo::PathEl::LineTo(kurbo::Point { x: 5.5, y: 6.5 }),
        ]
    );
}

#[test]
fn open_path_from_points() {
    let path = path_from_points(vec![(1, 2), (3, 4), (5, 6)], false);
    assert_eq!(
        path,
        vec![
            PathEl::MoveTo(Point { x2: 3, y2: 5 }),
            PathEl::LineTo(Point { x2: 7, y2: 9 }),
            PathEl::LineTo(Point { x2: 11, y2: 13 }),
        ]
    );
}

#[test]
fn closed_path_ends_with_close() {
    let path = path_from_points(vec![(0, 0), (4, 0), (4, 3)], true);
    assert_eq!(
        path,
        vec![
            PathEl::MoveTo(Point { x2: 1, y2: 1 }),
            PathEl::LineTo(Point { x2: 9, y2: 1 }),
            PathEl::LineTo(Point { x2: 9, y2: 7 }),
            PathEl::ClosePath,
        ]
    );
}

#[test]
fn path_of_no_points() {
    assert_eq!(path_from_points(Vec::new(), false), Vec::<PathEl>::new());
    assert_eq!(path_from_points(Vec::new(), true), Vec::<PathEl>::new());
}

#[test]
fn closed_path_of_one_point() {
    assert_eq!(
        path_from_points(vec![(0, 0)], true),
        vec![PathEl::MoveTo(Point { x2: 1, y2: 1 }), PathEl::ClosePath]
    );
}

#[test]
fn path_of_one_point_is_a_move() {
    assert_eq!(
        path_from_points(vec![(-7, 9)], false),
        vec![PathEl::MoveTo(Point { x2: -13, y2: 19 })]
    );
}

#[test]
fn walk_hands_out_move_then_lines_then_nothing() {
    let mut walk = PlottersPathToKurbo::new(vec![(10, 20), (30, 40), (50, 60)]);
    assert_eq!(walk.next(), Some(PathEl::MoveTo(Point { x2: 21, y2: 41 })));
    assert_eq!(walk.next(), Some(PathEl::LineTo(Point { x2: 61, y2: 81 })));
    assert_eq!(walk.next(), Some(PathEl::LineTo(Point { x2: 101, y2: 121 })));
    assert_eq!(walk.next(), None);
    assert_eq!(walk.next(), None);
}

#[test]
fn walk_over_nothing_is_empty() {
    let mut walk = PlottersPathToKurbo::new(Vec::new());
    assert_eq!(walk.next(), None);
}

#[test]
fn path_matches_the_walk() {
    let points = vec![(0, 0), (-1, 5), (i32::MAX, i32::MIN), (7, 7)];
    let from_walk = collect_walk(plotters_path_to_kurbo(points.clone()));
    let from_path: Vec<kurbo::PathEl> =
        path_from_points(points, false).into_iter().map(kurbo_el).collect();
    assert_eq!(from_walk, from_path);
    assert_eq!(from_walk.len(), 4);
    assert_eq!(
        from_walk[2],
        kurbo::PathEl::LineTo(kurbo::Point { x: 2147483647.5, y: -2147483647.5 })
    );
}
