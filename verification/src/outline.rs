//! Glyph outline decomposition.
//!
//! An outline is stored as three parallel arrays: `points` (fixed-point
//! vectors), `tags` (one flag byte per point) and `contours` (the index of
//! the last point of each closed sub-path, strictly increasing).  The
//! iterators below turn that packed encoding into a sequence of curve
//! segments per contour: a `Line` to the next on-curve point, a quadratic
//! Bezier through one off-curve control point, or a cubic Bezier through
//! two.  Two consecutive quadratic control points imply an unstored on-curve
//! point halfway between them, which the iterator synthesizes.

use vstd::prelude::*;

use crate::Vector;
use crate::error::{Error, FtResult};

verus! {

/// Tag bit that marks a point as an on-curve (anchor) point.
pub const TAG_ONCURVE: u8 = 0x01;
/// Tag bit that marks an off-curve point as a cubic (third-order) control.
pub const TAG_BEZIER3: u8 = 0x02;

/// Outline coordinates are kept strictly below this bound in absolute value,
/// so that the sum of two coordinates never overflows an `i64` when a
/// midpoint is synthesized.
pub const COORD_LIMIT: i64 = 0x4000_0000_0000_0000;

/// The largest number of points an outline can hold: end indices of contours
/// are stored as `i16`, and the last of them must equal `points.len() - 1`.
pub const MAX_POINTS: usize = 0x8000;

/// One segment of a contour's path, from the current on-curve position to
/// the segment's last point.
#[derive(Clone, Copy, PartialEq, Eq, Structural, Debug)]
pub enum Curve {
    /// A straight line to the given point.
    Line(Vector),
    /// A quadratic Bezier arc: control point, then endpoint.
    Bezier2(Vector, Vector),
    /// A cubic Bezier arc: two control points, then endpoint.
    Bezier3(Vector, Vector, Vector),
}

/// Whether a tag byte marks an on-curve point.
pub open spec fn tag_on_curve(t: u8) -> bool {
    t & TAG_ONCURVE == TAG_ONCURVE
}

/// Whether a tag byte marks a cubic control point.
pub open spec fn tag_cubic(t: u8) -> bool {
    t & TAG_BEZIER3 == TAG_BEZIER3
}

/// Whether a vector's coordinates are within the bound that keeps midpoint
/// synthesis free of overflow.
pub open spec fn coord_ok(v: Vector) -> bool {
    &&& -COORD_LIMIT < v.x < COORD_LIMIT
    &&& -COORD_LIMIT < v.y < COORD_LIMIT
}

/// Halving that truncates toward zero, as the `/ 2` of the execution
/// platform does on signed integers.
pub open spec fn half_toward_zero(s: int) -> int {
    if s >= 0 {
        s / 2
    } else {
        -((-s) / 2)
    }
}

/// The synthesized on-curve point between two quadratic control points:
/// each coordinate is averaged independently, truncating toward zero.
pub open spec fn midpoint_spec(a: Vector, b: Vector) -> Vector {
    Vector {
        x: half_toward_zero(a.x + b.x) as i64,
        y: half_toward_zero(a.y + b.y) as i64,
    }
}

/// An index into a contour's point range: offsets that run past the end wrap
/// to the contour's first point, closing the loop.
pub open spec fn wrap_index(len: int, i: int) -> int {
    if i < len {
        i
    } else {
        0
    }
}

/// The contour point at offset `i`, with the wrap-around of `wrap_index`.
pub open spec fn pt_at(pts: Seq<Vector>, i: int) -> Vector {
    pts[wrap_index(pts.len() as int, i)]
}

/// The contour tag at offset `i`, with the wrap-around of `wrap_index`.
pub open spec fn tag_at(tgs: Seq<u8>, i: int) -> u8 {
    tgs[wrap_index(tgs.len() as int, i)]
}

/// How far the cursor advances for the segment emitted at `idx`: one point
/// for a line, three for a cubic arc, two for a stored quadratic arc, and
/// one for a quadratic arc whose endpoint is synthesized (the second control
/// point starts the next segment).
pub open spec fn step_shift(tgs: Seq<u8>, idx: int) -> int {
    let t1 = tag_at(tgs, idx + 1);
    if tag_on_curve(t1) {
        1
    } else if tag_cubic(t1) {
        3
    } else if tag_on_curve(tag_at(tgs, idx + 2)) {
        2
    } else {
        1
    }
}

/// The segment emitted when the cursor stands at `idx`: decided by the tag
/// of the next point, with an implied midpoint synthesized between two
/// consecutive quadratic control points.
pub open spec fn step_curve(pts: Seq<Vector>, tgs: Seq<u8>, idx: int) -> Curve {
    let t1 = tag_at(tgs, idx + 1);
    if tag_on_curve(t1) {
        Curve::Line(pt_at(pts, idx + 1))
    } else if tag_cubic(t1) {
        Curve::Bezier3(pt_at(pts, idx + 1), pt_at(pts, idx + 2), pt_at(pts, idx + 3))
    } else if tag_on_curve(tag_at(tgs, idx + 2)) {
        Curve::Bezier2(pt_at(pts, idx + 1), pt_at(pts, idx + 2))
    } else {
        Curve::Bezier2(
            pt_at(pts, idx + 1),
            midpoint_spec(pt_at(pts, idx + 1), pt_at(pts, idx + 2)),
        )
    }
}

/// All segments a contour yields from cursor position `idx` to its end.
pub open spec fn contour_curves_from(pts: Seq<Vector>, tgs: Seq<u8>, idx: int) -> Seq<Curve>
    decreases pts.len() + 3 - idx
        when 0 <= idx
{
    if idx >= pts.len() {
        Seq::empty()
    } else {
        seq![step_curve(pts, tgs, idx)] + contour_curves_from(pts, tgs, idx + step_shift(tgs, idx))
    }
}

/// The full decomposition of one contour, from its first point back to its
/// first point.
pub open spec fn contour_curves(pts: Seq<Vector>, tgs: Seq<u8>) -> Seq<Curve> {
    contour_curves_from(pts, tgs, 0)
}

/// Halve a sum of two coordinates, truncating toward zero.
fn half_of(s: i64) -> (r: i64)
    requires
        s != i64::MIN,
    ensures
        r == half_toward_zero(s as int),
{
    if s >= 0 {
        ((s as u64) / 2) as i64
    } else {
        let m: u64 = (-s) as u64;
        -((m / 2) as i64)
    }
}

/// The synthesized on-curve point halfway between two quadratic control
/// points.  Each coordinate is averaged independently; an odd sum truncates
/// toward zero.
pub fn midpoint(a: Vector, b: Vector) -> (r: Vector)
    requires
        coord_ok(a),
        coord_ok(b),
    ensures
        r == midpoint_spec(a, b),
{
    Vector { x: half_of(a.x + b.x), y: half_of(a.y + b.y) }
}

/// The well-formedness of an outline's three parallel arrays: one tag per
/// point, bounded coordinates, and contour end indices that increase
/// strictly, stay in range, and (when any contour exists) close the array
/// with the last point.
pub open spec fn outline_data_ok(pts: Seq<Vector>, tgs: Seq<u8>, ctrs: Seq<i16>) -> bool {
    &&& tgs.len() == pts.len()
    &&& pts.len() <= MAX_POINTS
    &&& (forall|i: int| 0 <= i < pts.len() ==> coord_ok(#[trigger] pts[i]))
    &&& (forall|k: int| 0 <= k < ctrs.len() ==> 0 <= #[trigger] ctrs[k] < pts.len())
    &&& (forall|k: int| 0 < k < ctrs.len() ==> ctrs[k - 1] < #[trigger] ctrs[k])
    &&& (ctrs.len() == 0 ==> pts.len() == 0)
    &&& (ctrs.len() > 0 ==> ctrs[ctrs.len() - 1] == pts.len() - 1)
}

/// A glyph outline: a read-only set of parallel arrays describing the closed
/// contours of a scalable glyph.
#[derive(Debug)]
pub struct Outline {
    points: Vec<Vector>,
    tags: Vec<u8>,
    contours: Vec<i16>,
}

impl Outline {
    /// The ordered points of the outline.
    pub closed spec fn spec_points(self) -> Seq<Vector> {
        self.points@
    }

    /// The per-point flag bytes of the outline.
    pub closed spec fn spec_tags(self) -> Seq<u8> {
        self.tags@
    }

    /// The end index of each contour, in array order.
    pub closed spec fn spec_contours(self) -> Seq<i16> {
        self.contours@
    }

    /// Whether the outline's arrays satisfy the format's invariants.
    pub open spec fn wf(self) -> bool {
        outline_data_ok(self.spec_points(), self.spec_tags(), self.spec_contours())
    }

    /// Build an outline after validating the invariants of the packed
    /// encoding; a malformed encoding is rejected as an invalid outline.
    pub fn new(points: Vec<Vector>, tags: Vec<u8>, contours: Vec<i16>) -> (r: FtResult<Outline>)
        ensures
            match r {
                Ok(o) => {
                    &&& outline_data_ok(points@, tags@, contours@)
                    &&& o.wf()
                    &&& o.spec_points() == points@
                    &&& o.spec_tags() == tags@
                    &&& o.spec_contours() == contours@
                },
                Err(e) => {
                    &&& e == Error::InvalidOutline
                    &&& !outline_data_ok(points@, tags@, contours@)
                },
            },
    {
        if tags.len() != points.len() || points.len() > MAX_POINTS {
            return Err(Error::InvalidOutline);
        }
        if contours.len() == 0 && points.len() > 0 {
            return Err(Error::InvalidOutline);
        }
        let mut i: usize = 0;
        while i < points.len()
            invariant
                i <= points.len(),
                forall|j: int| 0 <= j < i ==> coord_ok(#[trigger] points@[j]),
            decreases points.len() - i,
        {
            let p = points[i];
            if !(-COORD_LIMIT < p.x && p.x < COORD_LIMIT && -COORD_LIMIT < p.y && p.y
                < COORD_LIMIT) {
                return Err(Error::InvalidOutline);
            }
            i = i + 1;
        }
        let mut k: usize = 0;
        while k < contours.len()
            invariant
                k <= contours.len(),
                tags@.len() == points@.len(),
                forall|j: int| 0 <= j < k ==> 0 <= #[trigger] contours@[j] < points@.len(),
                forall|j: int| 0 < j < k ==> contours@[j - 1] < #[trigger] contours@[j],
            decreases contours.len() - k,
        {
            let c = contours[k];
            if c < 0 || c as usize >= points.len() {
                return Err(Error::InvalidOutline);
            }
            if k > 0 && contours[k - 1] >= c {
                return Err(Error::InvalidOutline);
            }
            k = k + 1;
        }
        if contours.len() > 0 {
            let last = contours[contours.len() - 1];
            if last as usize != points.len() - 1 {
                return Err(Error::InvalidOutline);
            }
        }
        Ok(Outline { points, tags, contours })
    }

    /// An independent copy of the outline, equal to it array for array.
    pub fn duplicate(&self) -> (r: Outline)
        ensures
            r.spec_points() == self.spec_points(),
            r.spec_tags() == self.spec_tags(),
            r.spec_contours() == self.spec_contours(),
            self.wf() ==> r.wf(),
    {
        Outline {
            points: crate::copy_vec(&self.points),
            tags: crate::copy_vec(&self.tags),
            contours: crate::copy_vec(&self.contours),
        }
    }

    /// The points array of the outline.
    pub fn points(&self) -> (r: &Vec<Vector>)
        ensures
            r@ == self.spec_points(),
    {
        &self.points
    }

    /// The tags array of the outline.
    pub fn tags(&self) -> (r: &Vec<u8>)
        ensures
            r@ == self.spec_tags(),
    {
        &self.tags
    }

    /// The contour end-index array of the outline.
    pub fn contours(&self) -> (r: &Vec<i16>)
        ensures
            r@ == self.spec_contours(),
    {
        &self.contours
    }

    /// An iterator over the outline's contours, in array order.
    pub fn contours_iter(&self) -> (r: ContourIterator<'_>)
        requires
            self.wf(),
        ensures
            r.wf(),
            r.spec_outline() == *self,
            r.position() == 0,
    {
        ContourIterator { outline: self, next_contour: 0 }
    }
}

/// The first point index of contour `k`, given the contour end-index array:
/// one past the previous contour's end, or zero for the first contour.
pub open spec fn contour_range_start(ctrs: Seq<i16>, k: int) -> int {
    if k == 0 {
        0
    } else {
        ctrs[k - 1] + 1
    }
}

/// One past the last point index of contour `k`.
pub open spec fn contour_range_end(ctrs: Seq<i16>, k: int) -> int {
    ctrs[k] + 1
}

/// A cursor over the curve segments of one contour.
pub struct CurveIterator<'a> {
    points: &'a Vec<Vector>,
    tags: &'a Vec<u8>,
    start: usize,
    length: usize,
    idx: usize,
}

impl<'a> CurveIterator<'a> {
    /// The points of this contour, first point first.
    pub closed spec fn contour_points(self) -> Seq<Vector> {
        self.points@.subrange(self.start as int, self.start + self.length)
    }

    /// The tag bytes of this contour, first point first.
    pub closed spec fn contour_tags(self) -> Seq<u8> {
        self.tags@.subrange(self.start as int, self.start + self.length)
    }

    /// The cursor's position within the contour.
    pub closed spec fn cursor(self) -> int {
        self.idx as int
    }

    /// The iterator's internal invariant: the contour lies inside the
    /// arrays, holds at least one point, and its coordinates are bounded.
    pub closed spec fn wf(self) -> bool {
        &&& self.tags@.len() == self.points@.len()
        &&& self.points@.len() <= MAX_POINTS
        &&& self.start + self.length <= self.points@.len()
        &&& 1 <= self.length
        &&& self.idx <= self.length + 2
        &&& (forall|j: int|
            0 <= j < self.length ==> coord_ok(#[trigger] self.points@[self.start + j]))
    }

    /// The segments not yet yielded.
    pub closed spec fn remaining(self) -> Seq<Curve> {
        contour_curves_from(self.contour_points(), self.contour_tags(), self.idx as int)
    }

    /// The first point of the contour; the font format starts every contour
    /// with an on-curve point, and the contour's segments end back here.
    pub fn start(&self) -> (r: &'a Vector)
        requires
            self.wf(),
        ensures
            *r == self.contour_points()[0],
    {
        proof {
            assert(self.contour_points()[0] == self.points@[self.start as int]);
        }
        &self.points[self.start]
    }

    /// The contour point at offset `i` from the cursor; offsets past the
    /// contour's end wrap to its first point.
    fn pt(&self, i: usize) -> (r: Vector)
        requires
            self.wf(),
            i <= 3,
        ensures
            r == pt_at(self.contour_points(), self.idx + i),
            coord_ok(r),
    {
        proof {
            let j: int = self.idx + i;
            if j < self.length {
                assert(coord_ok(self.points@[self.start + j]));
            }
            let j0: int = 0;
            assert(coord_ok(self.points@[self.start + j0]));
        }
        if self.idx + i < self.length {
            self.points[self.start + self.idx + i]
        } else {
            self.points[self.start]
        }
    }

    /// The contour tag at offset `i` from the cursor, wrapping like `pt`.
    fn tg(&self, i: usize) -> (r: u8)
        requires
            self.wf(),
            i <= 3,
        ensures
            r == tag_at(self.contour_tags(), self.idx + i),
    {
        if self.idx + i < self.length {
            self.tags[self.start + self.idx + i]
        } else {
            self.tags[self.start]
        }
    }

    /// Yield the next curve segment of the contour, or `None` once the
    /// cursor has passed the contour's last point.
    pub fn next(&mut self) -> (r: Option<Curve>)
        requires
            old(self).wf(),
        ensures
            final(self).wf(),
            final(self).contour_points() == old(self).contour_points(),
            final(self).contour_tags() == old(self).contour_tags(),
            match r {
                None => {
                    &&& old(self).remaining() == Seq::<Curve>::empty()
                    &&& *final(self) == *old(self)
                },
                Some(c) => old(self).remaining() == seq![c] + final(self).remaining(),
            },
    {
        if self.idx >= self.length {
            None
        } else {
            let tag1 = self.tg(1);
            let (shift, curve): (usize, Curve) = if tag1 & TAG_ONCURVE == TAG_ONCURVE {
                (1, Curve::Line(self.pt(1)))
            } else if tag1 & TAG_BEZIER3 == TAG_BEZIER3 {
                (3, Curve::Bezier3(self.pt(1), self.pt(2), self.pt(3)))
            } else if self.tg(2) & TAG_ONCURVE == TAG_ONCURVE {
                (2, Curve::Bezier2(self.pt(1), self.pt(2)))
            } else {
                // Two consecutive quadratic controls: synthesize the implied
                // on-curve endpoint and re-examine the second control next.
                let p1 = self.pt(1);
                let p2 = self.pt(2);
                (1, Curve::Bezier2(p1, midpoint(p1, p2)))
            };
            proof {
                assert(shift == step_shift(old(self).contour_tags(), old(self).cursor()));
                assert(curve == step_curve(
                    old(self).contour_points(),
                    old(self).contour_tags(),
                    old(self).cursor(),
                ));
            }
            self.idx = self.idx + shift;
            Some(curve)
        }
    }
}

proof fn lemma_line_contour_from(pts: Seq<Vector>, tgs: Seq<u8>, idx: int)
    requires
        pts.len() == tgs.len(),
        1 <= pts.len(),
        0 <= idx <= pts.len(),
        forall|i: int| 0 <= i < tgs.len() ==> tag_on_curve(#[trigger] tgs[i]),
    ensures
        contour_curves_from(pts, tgs, idx).len() == pts.len() - idx,
        forall|j: int|
            0 <= j < pts.len() - idx ==> contour_curves_from(pts, tgs, idx)[j] == Curve::Line(
                pt_at(pts, idx + j + 1),
            ),
    decreases pts.len() - idx,
{
    if idx < pts.len() {
        assert(tag_on_curve(tag_at(tgs, idx + 1)));
        lemma_line_contour_from(pts, tgs, idx + 1);
        assert forall|j: int| 0 <= j < pts.len() - idx implies contour_curves_from(pts, tgs, idx)[j]
            == Curve::Line(pt_at(pts, idx + j + 1)) by {
            if j > 0 {
                assert(contour_curves_from(pts, tgs, idx)[j] == contour_curves_from(
                    pts,
                    tgs,
                    idx + 1,
                )[j - 1]);
            }
        }
    }
}

/// Law: a contour holding only on-curve points decomposes into exactly one
/// straight line per point, the line at position `j` ending at point
/// `j + 1`, and the last line closing the contour back at its first point.
pub proof fn lemma_all_on_curve_lines(pts: Seq<Vector>, tgs: Seq<u8>)
    requires
        pts.len() == tgs.len(),
        1 <= pts.len(),
        forall|i: int| 0 <= i < tgs.len() ==> tag_on_curve(#[trigger] tgs[i]),
    ensures
        contour_curves(pts, tgs).len() == pts.len(),
        forall|j: int|
            0 <= j < pts.len() ==> contour_curves(pts, tgs)[j] == Curve::Line(pt_at(pts, j + 1)),
        contour_curves(pts, tgs)[pts.len() - 1] == Curve::Line(pts[0]),
{
    lemma_line_contour_from(pts, tgs, 0);
}

/// Law: a three-point contour `[on, off, on]` yields exactly one quadratic
/// arc, built from the stored control point and the stored endpoint,
/// followed by the line that closes the contour at its first point.
pub proof fn lemma_single_quadratic(pts: Seq<Vector>, tgs: Seq<u8>)
    requires
        pts.len() == 3,
        tgs.len() == 3,
        tag_on_curve(tgs[0]),
        !tag_on_curve(tgs[1]),
        !tag_cubic(tgs[1]),
        tag_on_curve(tgs[2]),
    ensures
        contour_curves(pts, tgs) =~= seq![
            Curve::Bezier2(pts[1], pts[2]),
            Curve::Line(pts[0]),
        ],
{
    reveal_with_fuel(contour_curves_from, 4);
}

/// Law: a contour `[on, off, off, on]` with two consecutive quadratic
/// control points yields two quadratic arcs: the first ends at the
/// synthesized midpoint of the two controls, and the second starts at that
/// midpoint, using the second control and the stored endpoint; the closing
/// line returns to the contour's first point.
pub proof fn lemma_double_quadratic(pts: Seq<Vector>, tgs: Seq<u8>)
    requires
        pts.len() == 4,
        tgs.len() == 4,
        tag_on_curve(tgs[0]),
        !tag_on_curve(tgs[1]),
        !tag_cubic(tgs[1]),
        !tag_on_curve(tgs[2]),
        !tag_cubic(tgs[2]),
        tag_on_curve(tgs[3]),
    ensures
        contour_curves(pts, tgs) =~= seq![
            Curve::Bezier2(pts[1], midpoint_spec(pts[1], pts[2])),
            Curve::Bezier2(pts[2], pts[3]),
            Curve::Line(pts[0]),
        ],
{
    reveal_with_fuel(contour_curves_from, 5);
}

/// An iterator handing out one curve cursor per contour, in array order.
pub struct ContourIterator<'a> {
    outline: &'a Outline,
    next_contour: usize,
}

impl<'a> ContourIterator<'a> {
    /// The outline being walked.
    pub closed spec fn spec_outline(self) -> Outline {
        *self.outline
    }

    /// How many contours have been handed out so far.
    pub closed spec fn position(self) -> int {
        self.next_contour as int
    }

    /// The iterator's internal invariant.
    pub closed spec fn wf(self) -> bool {
        &&& self.outline.wf()
        &&& self.next_contour <= self.outline.spec_contours().len()
    }

    /// Yield a curve cursor for the next contour, or `None` when every
    /// contour has been handed out.
    pub fn next(&mut self) -> (r: Option<CurveIterator<'a>>)
        requires
            old(self).wf(),
        ensures
            final(self).wf(),
            final(self).spec_outline() == old(self).spec_outline(),
            match r {
                None => {
                    &&& old(self).position() == old(self).spec_outline().spec_contours().len()
                    &&& *final(self) == *old(self)
                },
                Some(ci) => {
                    &&& old(self).position() < old(self).spec_outline().spec_contours().len()
                    &&& final(self).position() == old(self).position() + 1
                    &&& ci.wf()
                    &&& ci.contour_points() == old(self).spec_outline().spec_points().subrange(
                        contour_range_start(
                            old(self).spec_outline().spec_contours(),
                            old(self).position(),
                        ),
                        contour_range_end(
                            old(self).spec_outline().spec_contours(),
                            old(self).position(),
                        ),
                    )
                    &&& ci.contour_tags() == old(self).spec_outline().spec_tags().subrange(
                        contour_range_start(
                            old(self).spec_outline().spec_contours(),
                            old(self).position(),
                        ),
                        contour_range_end(
                            old(self).spec_outline().spec_contours(),
                            old(self).position(),
                        ),
                    )
                    &&& ci.remaining() == contour_curves(ci.contour_points(), ci.contour_tags())
                    &&& ci.cursor() == 0
                },
            },
    {
        let n = self.outline.contours.len();
        if self.next_contour >= n {
            None
        } else {
            let k = self.next_contour;
            let end = self.outline.contours[k];
            let cs: usize = if k == 0 {
                0
            } else {
                (self.outline.contours[k - 1] + 1) as usize
            };
            let ce: usize = end as usize + 1;
            let ci = CurveIterator {
                points: &self.outline.points,
                tags: &self.outline.tags,
                start: cs,
                length: ce - cs,
                idx: 0,
            };
            self.next_contour = k + 1;
            Some(ci)
        }
    }
}

} // verus!
