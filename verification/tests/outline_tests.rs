use freetype::outline::{Curve, Outline, TAG_BEZIER3, TAG_ONCURVE};
use freetype::{Error, Vector};

const OFF_QUAD: u8 = 0x00;

fn v(x: i64, y: i64) -> Vector {
    Vector { x, y }
}

fn collect_contours(outline: &Outline) -> Vec<(Vector, Vec<Curve>)> {
    let mut result = Vec::new();
    let mut contours = outline.contours_iter();
    while let Some(mut contour) = contours.next() {
        let start = *contour.start();
        let mut curves = Vec::new();
        while let Some(curve) = contour.next() {
            curves.push(curve);
        }
        result.push((start, curves));
    }
    result
}

#[test]
fn all_on_curve_points_yield_one_line_each() {
    let points = vec![v(0, 0), v(100, 0), v(100, 100), v(0, 100)];
    let tags = vec![TAG_ONCURVE; 4];
    let contours = vec![3i16];
    let outline = Outline::new(points, tags, contours).unwrap();

    let decomposed = collect_contours(&outline);
    assert_eq!(decomposed.len(), 1);
    let (start, curves) = &decomposed[0];
    assert_eq!(*start, v(0, 0));
    assert_eq!(
        *curves,
        vec![
            Curve::Line(v(100, 0)),
            Curve::Line(v(100, 100)),
            Curve::Line(v(0, 100)),
            Curve::Line(v(0, 0)),
        ]
    );
}

#[test]
fn single_quadratic_contour_uses_stored_control_and_endpoint() {
    let points = vec![v(0, 0), v(10, 20), v(20, 0)];
    let tags = vec![TAG_ONCURVE, OFF_QUAD, TAG_ONCURVE];
    let outline = Outline::new(points, tags, vec![2i16]).unwrap();

    let decomposed = collect_contours(&outline);
    let (_, curves) = &decomposed[0];
    assert_eq!(
        *curves,
        vec![Curve::Bezier2(v(10, 20), v(20, 0)), Curve::Line(v(0, 0))]
    );
    let quadratics = curves
        .iter()
        .filter(|c| matches!(c, Curve::Bezier2(_, _)))
        .count();
    assert_eq!(quadratics, 1);
}

#[test]
fn consecutive_off_points_synthesize_midpoint() {
    let points = vec![v(0, 0), v(3, 5), v(4, 5), v(10, 0)];
    let tags = vec![TAG_ONCURVE, OFF_QUAD, OFF_QUAD, TAG_ONCURVE];
    let outline = Outline::new(points, tags, vec![3i16]).unwrap();

    let decomposed = collect_contours(&outline);
    let (_, curves) = &decomposed[0];
    assert_eq!(
        *curves,
        vec![
            // The first arc ends at the synthesized midpoint of (3,5)/(4,5):
            // (7/2, 10/2) truncates to (3, 5).
            Curve::Bezier2(v(3, 5), v(3, 5)),
            // The second arc starts there and uses the second control.
            Curve::Bezier2(v(4, 5), v(10, 0)),
            Curve::Line(v(0, 0)),
        ]
    );
}

#[test]
fn midpoint_truncates_toward_zero() {
    assert_eq!(freetype::outline::midpoint(v(3, 5), v(4, 5)), v(3, 5));
    assert_eq!(freetype::outline::midpoint(v(-3, -5), v(-4, -5)), v(-3, -5));
    assert_eq!(freetype::outline::midpoint(v(1, -1), v(2, -2)), v(1, -1));
    assert_eq!(freetype::outline::midpoint(v(4, 6), v(6, 8)), v(5, 7));
    // Determinism: the same controls always give the same midpoint.
    assert_eq!(
        freetype::outline::midpoint(v(3, 5), v(4, 5)),
        freetype::outline::midpoint(v(3, 5), v(4, 5))
    );
}

#[test]
fn cubic_contour_uses_two_controls() {
    let points = vec![v(0, 0), v(5, 10), v(15, 10), v(20, 0)];
    let tags = vec![TAG_ONCURVE, TAG_BEZIER3, TAG_BEZIER3, TAG_ONCURVE];
    let outline = Outline::new(points, tags, vec![3i16]).unwrap();

    let decomposed = collect_contours(&outline);
    let (_, curves) = &decomposed[0];
    assert_eq!(
        *curves,
        vec![
            Curve::Bezier3(v(5, 10), v(15, 10), v(20, 0)),
            Curve::Line(v(0, 0)),
        ]
    );
}

#[test]
fn trailing_off_point_wraps_to_contour_start() {
    let points = vec![v(0, 0), v(10, 10)];
    let tags = vec![TAG_ONCURVE, OFF_QUAD];
    let outline = Outline::new(points, tags, vec![1i16]).unwrap();

    let decomposed = collect_contours(&outline);
    let (_, curves) = &decomposed[0];
    assert_eq!(*curves, vec![Curve::Bezier2(v(10, 10), v(0, 0))]);
}

#[test]
fn tag_bits_beyond_the_low_two_are_ignored() {
    // The on-curve decision reads bit 0, the cubic decision bit 1; higher
    // bits (such as the dropout-control bits real fonts set) change nothing.
    let points = vec![v(0, 0), v(8, 8), v(16, 0)];
    let tags = vec![0x81, 0xF1, 0x11];
    let outline = Outline::new(points, tags, vec![2i16]).unwrap();

    let decomposed = collect_contours(&outline);
    let (_, curves) = &decomposed[0];
    assert_eq!(
        *curves,
        vec![
            Curve::Line(v(8, 8)),
            Curve::Line(v(16, 0)),
            Curve::Line(v(0, 0)),
        ]
    );
}

#[test]
fn two_contours_come_out_in_array_order() {
    let points = vec![
        v(0, 0),
        v(10, 0),
        v(10, 10),
        v(100, 100),
        v(110, 100),
        v(110, 110),
    ];
    let tags = vec![TAG_ONCURVE; 6];
    let outline = Outline::new(points, tags, vec![2i16, 5i16]).unwrap();

    let decomposed = collect_contours(&outline);
    assert_eq!(decomposed.len(), 2);
    assert_eq!(decomposed[0].0, v(0, 0));
    assert_eq!(decomposed[1].0, v(100, 100));
    assert_eq!(
        decomposed[0].1,
        vec![
            Curve::Line(v(10, 0)),
            Curve::Line(v(10, 10)),
            Curve::Line(v(0, 0)),
        ]
    );
    assert_eq!(
        decomposed[1].1,
        vec![
            Curve::Line(v(110, 100)),
            Curve::Line(v(110, 110)),
            Curve::Line(v(100, 100)),
        ]
    );
}

#[test]
fn contours_can_be_consumed_independently() {
    let points = vec![v(0, 0), v(10, 0), v(20, 20), v(30, 20)];
    let tags = vec![TAG_ONCURVE; 4];
    let outline = Outline::new(points, tags, vec![1i16, 3i16]).unwrap();

    let mut contours = outline.contours_iter();
    let mut first = contours.next().unwrap();
    let mut second = contours.next().unwrap();
    assert!(contours.next().is_none());

    // Walk the second contour before touching the first.
    assert_eq!(second.next(), Some(Curve::Line(v(30, 20))));
    assert_eq!(first.next(), Some(Curve::Line(v(10, 0))));
    assert_eq!(second.next(), Some(Curve::Line(v(20, 20))));
    assert_eq!(first.next(), Some(Curve::Line(v(0, 0))));
    assert_eq!(second.next(), None);
    assert_eq!(first.next(), None);
}

#[test]
fn outline_accessors_expose_the_arrays() {
    let points = vec![v(0, 0), v(1, 1)];
    let tags = vec![TAG_ONCURVE, TAG_ONCURVE];
    let outline = Outline::new(points.clone(), tags.clone(), vec![1i16]).unwrap();
    assert_eq!(*outline.points(), points);
    assert_eq!(*outline.tags(), tags);
    assert_eq!(*outline.contours(), vec![1i16]);

    let copy = outline.duplicate();
    assert_eq!(*copy.points(), points);
    assert_eq!(*copy.tags(), tags);
    assert_eq!(*copy.contours(), vec![1i16]);
}

#[test]
fn malformed_outlines_are_rejected() {
    // One tag too few.
    assert_eq!(
        Outline::new(vec![v(0, 0), v(1, 1)], vec![TAG_ONCURVE], vec![1i16]).unwrap_err(),
        Error::InvalidOutline
    );
    // Contour end out of range.
    assert_eq!(
        Outline::new(vec![v(0, 0)], vec![TAG_ONCURVE], vec![1i16]).unwrap_err(),
        Error::InvalidOutline
    );
    // Contour ends not strictly increasing.
    assert_eq!(
        Outline::new(
            vec![v(0, 0), v(1, 1), v(2, 2)],
            vec![TAG_ONCURVE; 3],
            vec![2i16, 2i16],
        )
        .unwrap_err(),
        Error::InvalidOutline
    );
    // Last contour does not close the point array.
    assert_eq!(
        Outline::new(
            vec![v(0, 0), v(1, 1), v(2, 2)],
            vec![TAG_ONCURVE; 3],
            vec![1i16],
        )
        .unwrap_err(),
        Error::InvalidOutline
    );
    // Points without any contour.
    assert_eq!(
        Outline::new(vec![v(0, 0)], vec![TAG_ONCURVE], vec![]).unwrap_err(),
        Error::InvalidOutline
    );
    // A coordinate beyond the representable bound.
    assert_eq!(
        Outline::new(vec![v(i64::MAX, 0)], vec![TAG_ONCURVE], vec![0i16]).unwrap_err(),
        Error::InvalidOutline
    );
    // The empty outline is fine.
    assert!(Outline::new(vec![], vec![], vec![]).is_ok());
}
