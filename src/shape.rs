//! The outline of a shape and the segments that it is drawn with.
//!
//! A shape is a sequence of radial distances at evenly spaced angles; its outline joins
//! each point to the next one, and the last one back to the first. Segments here have
//! coordinates on an integer grid, so that whether two of them cross is decided exactly.
use vstd::prelude::*;

verus! {

/// A cursor over the boundary of a shape with `len` radial points: it hands out the index
/// of each point together with the index of the next one, wrapping from the last to the
/// first.
#[derive(Debug, Clone, Copy, PartialEq, Eq, Structural)]
pub struct ShapeIter {
    pub index: usize,
    pub len: usize,
}

impl ShapeIter {
    pub fn new(len: usize) -> (r: ShapeIter)
        ensures
            r.index == 0,
            r.len == len,
    {
        ShapeIter { index: 0, len }
    }

    /// The next pair of neighbouring indices, or `None` once every point has been visited.
    pub fn next(&mut self) -> (r: Option<(usize, usize)>)
        ensures
            final(self).len == old(self).len,
            old(self).index < old(self).len ==> {
                &&& r == Some(
                    (old(self).index, ((old(self).index + 1) % (old(self).len as int)) as usize),
                )
                &&& final(self).index == old(self).index + 1
            },
            old(self).index >= old(self).len ==> r.is_none() && *final(self) == *old(self),
    {
        if self.index >= self.len {
            return None;
        }
        let i = self.index;
        let j = if i + 1 == self.len { 0 } else { i + 1 };
        proof {
            let n = self.len as int;
            assert(j == (i + 1) % n) by (nonlinear_arith)
                requires
                    0 <= i < n,
                    j == if i + 1 == n { 0 } else { i + 1 },
            ;
        }
        self.index = i + 1;
        Some((i, j))
    }
}

/// The pairs of neighbouring values around a closed outline.
pub open spec fn boundary_pairs_spec<T>(points: Seq<T>) -> Seq<(T, T)> {
    Seq::new(points.len(), |i: int| (points[i], points[(i + 1) % (points.len() as int)]))
}

/// Each value of `points` together with the next one, the last together with the first.
pub fn boundary_pairs<T: Copy>(points: &Vec<T>) -> (r: Vec<(T, T)>)
    ensures
        r@ == boundary_pairs_spec(points@),
{
    let n = points.len();
    let mut it = ShapeIter::new(n);
    let mut r: Vec<(T, T)> = Vec::new();
    while it.index < n
        invariant
            it.len == n,
            n == points@.len(),
            it.index <= n,
            r@ == boundary_pairs_spec(points@).subrange(0, it.index as int),
        decreases n - it.index,
    {
        match it.next() {
            Some((i, j)) => {
                r.push((points[i], points[j]));
            },
            None => {},
        }
    }
    assert(r@ =~= boundary_pairs_spec(points@));
    r
}

/// Walking the boundary pairs of an outline goes round it once: each pair ends where the
/// next one starts, and the last one ends where the first one starts.
pub proof fn lemma_boundary_pairs_cyclic<T>(points: Seq<T>)
    ensures
        boundary_pairs_spec(points).len() == points.len(),
        forall|i: int|
            0 <= i < points.len() ==> (#[trigger] boundary_pairs_spec(points)[i]).0 == points[i],
        forall|i: int|
            0 <= i < points.len() ==> (#[trigger] boundary_pairs_spec(points)[i]).1
                == boundary_pairs_spec(points)[(i + 1) % (points.len() as int)].0,
        points.len() > 0 ==> boundary_pairs_spec(points)[points.len() - 1].1 == points[0],
{
    let n = points.len() as int;
    assert forall|i: int| 0 <= i < n implies (#[trigger] boundary_pairs_spec(points)[i]).1
        == boundary_pairs_spec(points)[(i + 1) % n].0 by {
        assert(0 <= (i + 1) % n < n) by (nonlinear_arith)
            requires
                0 <= i < n,
        ;
    }
    if n > 0 {
        assert((n - 1 + 1) % n == 0) by (nonlinear_arith)
            requires
                n > 0,
        ;
    }
}

/// A point of the integer grid.
#[derive(Debug, Clone, Copy, PartialEq, Eq, Structural)]
pub struct Point {
    pub x: i32,
    pub y: i32,
}

/// A directed segment between two points of the integer grid.
#[derive(Debug, Clone, Copy, PartialEq, Eq, Structural)]
pub struct Line {
    pub start: Point,
    pub end: Point,
}

pub open spec fn line_dx(l: Line) -> int {
    l.end.x - l.start.x
}

pub open spec fn line_dy(l: Line) -> int {
    l.end.y - l.start.y
}

/// The cross product of the directions of `a` and `b`: zero exactly when they are parallel.
pub open spec fn direction_cross(a: Line, b: Line) -> int {
    line_dy(b) * line_dx(a) - line_dx(b) * line_dy(a)
}

/// The position of the crossing point along `a`, times `direction_cross(a, b)`.
pub open spec fn along_first(a: Line, b: Line) -> int {
    line_dx(b) * (a.start.y - b.start.y) - line_dy(b) * (a.start.x - b.start.x)
}

/// The position of the crossing point along `b`, times `direction_cross(a, b)`.
pub open spec fn along_second(a: Line, b: Line) -> int {
    line_dx(a) * (a.start.y - b.start.y) - line_dy(a) * (a.start.x - b.start.x)
}

/// Whether the fraction `t / d`, with `d` not zero, lies in `[0, 1]`.
pub open spec fn in_unit_interval(t: int, d: int) -> bool {
    if d > 0 {
        0 <= t <= d
    } else {
        d <= t <= 0
    }
}

/// Two segments intersect when they are not parallel and the crossing point of their lines
/// lies on both of them, an end point included.
pub open spec fn segments_intersect(a: Line, b: Line) -> bool {
    &&& direction_cross(a, b) != 0
    &&& in_unit_interval(along_first(a, b), direction_cross(a, b))
    &&& in_unit_interval(along_second(a, b), direction_cross(a, b))
}

const WIDE: i128 = 0x2_0000_0000;

fn mul_wide(a: i128, b: i128) -> (r: i128)
    requires
        -WIDE <= a <= WIDE,
        -WIDE <= b <= WIDE,
    ensures
        r == a * b,
        -WIDE * WIDE <= r <= WIDE * WIDE,
{
    proof {
        assert(-WIDE * WIDE <= a * b <= WIDE * WIDE) by (nonlinear_arith)
            requires
                -WIDE <= a <= WIDE,
                -WIDE <= b <= WIDE,
        ;
    }
    a * b
}

fn in_unit(t: i128, d: i128) -> (r: bool)
    requires
        d != 0,
    ensures
        r == in_unit_interval(t as int, d as int),
{
    if d > 0 {
        0 <= t && t <= d
    } else {
        d <= t && t <= 0
    }
}

impl Line {
    pub fn new(start: (i32, i32), end: (i32, i32)) -> (r: Line)
        ensures
            r.start == (Point { x: start.0, y: start.1 }),
            r.end == (Point { x: end.0, y: end.1 }),
    {
        Line { start: Point { x: start.0, y: start.1 }, end: Point { x: end.0, y: end.1 } }
    }

    /// The difference in the x values over the line.
    pub fn dx(&self) -> (r: i64)
        ensures
            r == line_dx(*self),
    {
        self.end.x as i64 - self.start.x as i64
    }

    /// The difference in the y values over the line.
    pub fn dy(&self) -> (r: i64)
        ensures
            r == line_dy(*self),
    {
        self.end.y as i64 - self.start.y as i64
    }

    /// Whether the two segments cross or touch. Parallel segments never do, even where they
    /// overlap.
    pub fn intersects(&self, other: &Line) -> (r: bool)
        ensures
            r == segments_intersect(*self, *other),
    {
        let adx = self.dx() as i128;
        let ady = self.dy() as i128;
        let bdx = other.dx() as i128;
        let bdy = other.dy() as i128;
        let sx = self.start.x as i128 - other.start.x as i128;
        let sy = self.start.y as i128 - other.start.y as i128;
        let cross = mul_wide(bdy, adx) - mul_wide(bdx, ady);
        if cross == 0 {
            return false;
        }
        let ua = mul_wide(bdx, sy) - mul_wide(bdy, sx);
        let ub = mul_wide(adx, sy) - mul_wide(ady, sx);
        in_unit(ua, cross) && in_unit(ub, cross)
    }
}

/// Whether a segment crosses `a` and `b` in turn; it is the same question either way round.
pub proof fn lemma_intersects_symmetric(a: Line, b: Line)
    ensures
        segments_intersect(a, b) == segments_intersect(b, a),
{
    let (adx, ady, bdx, bdy) = (line_dx(a), line_dy(a), line_dx(b), line_dy(b));
    let (sx, sy) = (a.start.x - b.start.x, a.start.y - b.start.y);
    assert(direction_cross(b, a) == -direction_cross(a, b)) by (nonlinear_arith)
        requires
            direction_cross(a, b) == bdy * adx - bdx * ady,
            direction_cross(b, a) == ady * bdx - adx * bdy,
    ;
    assert(along_first(b, a) == -along_second(a, b)) by (nonlinear_arith)
        requires
            along_first(b, a) == adx * (-sy) - ady * (-sx),
            along_second(a, b) == adx * sy - ady * sx,
    ;
    assert(along_second(b, a) == -along_first(a, b)) by (nonlinear_arith)
        requires
            along_second(b, a) == bdx * (-sy) - bdy * (-sx),
            along_first(a, b) == bdx * sy - bdy * sx,
    ;
}

/// Parallel segments never intersect, even where they overlap: in particular two segments
/// that run into a common point along one line.
pub proof fn lemma_parallel_never_intersect(a: Line, b: Line)
    requires
        direction_cross(a, b) == 0,
    ensures
        !segments_intersect(a, b),
        !segments_intersect(b, a),
{
    lemma_intersects_symmetric(a, b);
}

/// Segments that end at a common point and are not parallel touch there, which counts as
/// an intersection.
pub proof fn lemma_common_end_touches(a: Line, b: Line)
    requires
        a.end == b.end,
        direction_cross(a, b) != 0,
    ensures
        segments_intersect(a, b),
{
    let (adx, ady, bdx, bdy) = (line_dx(a), line_dy(a), line_dx(b), line_dy(b));
    let (sx, sy) = (a.start.x - b.start.x, a.start.y - b.start.y);
    assert(sx == bdx - adx && sy == bdy - ady);
    assert(along_first(a, b) == direction_cross(a, b)) by (nonlinear_arith)
        requires
            along_first(a, b) == bdx * sy - bdy * sx,
            direction_cross(a, b) == bdy * adx - bdx * ady,
            sx == bdx - adx,
            sy == bdy - ady,
    ;
    assert(along_second(a, b) == direction_cross(a, b)) by (nonlinear_arith)
        requires
            along_second(a, b) == adx * sy - ady * sx,
            direction_cross(a, b) == bdy * adx - bdx * ady,
            sx == bdx - adx,
            sy == bdy - ady,
    ;
}

/// Whether some segment of `a` intersects some segment of `b`.
pub open spec fn outlines_cross(a: Seq<Line>, b: Seq<Line>) -> bool {
    exists|i: int, j: int|
        0 <= i < a.len() && 0 <= j < b.len() && #[trigger] segments_intersect(a[i], b[j])
}

/// Whether two placed shapes overlap, given their outlines: two copies of one shape at one
/// place always do; otherwise they do when some pair of their segments intersects.
pub fn outlines_intersect(identical: bool, a: &Vec<Line>, b: &Vec<Line>) -> (r: bool)
    ensures
        r == (identical || outlines_cross(a@, b@)),
{
    if identical {
        return true;
    }
    let mut i: usize = 0;
    while i < a.len()
        invariant
            i <= a@.len(),
            forall|k: int, j: int|
                0 <= k < i && 0 <= j < b@.len() ==> !#[trigger] segments_intersect(a@[k], b@[j]),
        decreases a@.len() - i,
    {
        let mut j: usize = 0;
        while j < b.len()
            invariant
                i < a@.len(),
                j <= b@.len(),
                forall|k: int, l: int|
                    0 <= k < i && 0 <= l < b@.len() ==> !#[trigger] segments_intersect(a@[k], b@[l]),
                forall|l: int| 0 <= l < j ==> !#[trigger] segments_intersect(a@[i as int], b@[l]),
            decreases b@.len() - j,
        {
            if a[i].intersects(&b[j]) {
                return true;
            }
            j = j + 1;
        }
        i = i + 1;
    }
    false
}

} // verus!
