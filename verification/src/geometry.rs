//! Planar geometry over fixed-point coordinates: positions, closed rings and
//! their envelopes.

use vstd::prelude::*;

verus! {

/// How many stored units make one unit of the field (one degree, one metre).
pub const UNITS_PER_ONE: i64 = 1_000_000_000;

/// A position, each axis counted in billionths of a unit.
#[derive(Clone, Copy, Debug, PartialEq, Eq, Structural)]
pub struct Coordinate {
    pub x: i64,
    pub y: i64,
}

/// An axis-aligned rectangle given by its lower and upper corners.
#[derive(Clone, Copy, Debug, PartialEq, Eq, Structural)]
pub struct Rect {
    pub min: Coordinate,
    pub max: Coordinate,
}

/// A ring is a sequence of at least four positions that ends where it starts.
pub open spec fn is_ring(s: Seq<Coordinate>) -> bool {
    s.len() >= 4 && s[0] == s[s.len() - 1]
}

/// The sequence with its first position repeated at the end, unless it is
/// empty or already ends where it starts.
pub open spec fn close_ring(s: Seq<Coordinate>) -> Seq<Coordinate> {
    if s.len() > 0 && s[0] != s[s.len() - 1] {
        s.push(s[0])
    } else {
        s
    }
}

/// `r` is the envelope of `s`: it holds every position of `s`, and each of its
/// four sides passes through one of them.
pub open spec fn is_envelope(s: Seq<Coordinate>, r: Rect) -> bool {
    &&& forall|i: int|
        0 <= i < s.len() ==> r.min.x <= (#[trigger] s[i]).x <= r.max.x && r.min.y <= s[i].y
            <= r.max.y
    &&& exists|i: int| 0 <= i < s.len() && (#[trigger] s[i]).x == r.min.x
    &&& exists|i: int| 0 <= i < s.len() && (#[trigger] s[i]).x == r.max.x
    &&& exists|i: int| 0 <= i < s.len() && (#[trigger] s[i]).y == r.min.y
    &&& exists|i: int| 0 <= i < s.len() && (#[trigger] s[i]).y == r.max.y
}

/// The envelope of `s`, where it has one: every sequence but the empty one
/// does.
pub open spec fn envelope(s: Seq<Coordinate>) -> Rect {
    choose|r: Rect| is_envelope(s, r)
}

/// The four corners of the rectangle from (`min_x`, `min_y`) to (`max_x`,
/// `max_y`), walked from the lower left corner through the lower right, and
/// closed.
pub open spec fn rectangle_ring(min_x: i64, min_y: i64, max_x: i64, max_y: i64) -> Seq<
    Coordinate,
> {
    seq![
        Coordinate { x: min_x, y: min_y },
        Coordinate { x: max_x, y: min_y },
        Coordinate { x: max_x, y: max_y },
        Coordinate { x: min_x, y: max_y },
        Coordinate { x: min_x, y: min_y },
    ]
}

/// The rectangle between the corner (`x0`, `y0`) and the opposite corner
/// (`x1`, `y1`), walked from the first corner, counter-clockwise, and closed.
/// Where the opposite corner lies above and to the right, or below and to
/// the left, the walk sets out along x; otherwise along y.
pub open spec fn rectangle_from(x0: i64, y0: i64, x1: i64, y1: i64) -> Seq<Coordinate> {
    if (x0 <= x1) == (y0 <= y1) {
        rectangle_ring(x0, y0, x1, y1)
    } else {
        seq![
            Coordinate { x: x0, y: y0 },
            Coordinate { x: x0, y: y1 },
            Coordinate { x: x1, y: y1 },
            Coordinate { x: x1, y: y0 },
            Coordinate { x: x0, y: y0 },
        ]
    }
}

/// A rectangle walked from one of its corners is closed there, passes the
/// opposite corner half way round, and the two other corners before and
/// after it: it has the corners of the rectangle, whichever way it is
/// walked.
pub proof fn rectangle_from_visits_the_corners(x0: i64, y0: i64, x1: i64, y1: i64)
    ensures
        ({
            let ring = rectangle_from(x0, y0, x1, y1);
            let across = Coordinate { x: x1, y: y0 };
            let along = Coordinate { x: x0, y: y1 };
            &&& ring.len() == 5
            &&& is_ring(ring)
            &&& ring[0] == (Coordinate { x: x0, y: y0 })
            &&& ring[2] == (Coordinate { x: x1, y: y1 })
            &&& (ring[1] == across && ring[3] == along) || (ring[1] == along && ring[3] == across)
            &&& ring.to_set() =~= rectangle_ring(x0, y0, x1, y1).to_set()
        }),
{
    let ring = rectangle_from(x0, y0, x1, y1);
    let plain = rectangle_ring(x0, y0, x1, y1);
    assert forall|c: Coordinate| ring.contains(c) <==> plain.contains(c) by {
        if ring.contains(c) {
            let i = choose|i: int| 0 <= i < ring.len() && ring[i] == c;
            assert(plain[0] == ring[0] && plain[2] == ring[2] && plain[4] == ring[4]);
            assert(plain[1] == ring[1] || plain[3] == ring[1]);
            assert(plain[1] == ring[3] || plain[3] == ring[3]);
        }
        if plain.contains(c) {
            let i = choose|i: int| 0 <= i < plain.len() && plain[i] == c;
            assert(plain[0] == ring[0] && plain[2] == ring[2] && plain[4] == ring[4]);
            assert(ring[1] == plain[1] || ring[3] == plain[1]);
            assert(ring[1] == plain[3] || ring[3] == plain[3]);
        }
    }
}

/// Twice the area swept by the first `n` steps of the walk along `s`, as
/// seen from the point where both axes start: each step adds the triangle
/// that it spans with that point, counted positive where the step passes
/// the point on its left.
pub open spec fn swept(s: Seq<Coordinate>, n: int) -> int
    decreases n,
{
    if n <= 0 {
        0
    } else {
        swept(s, n - 1) + (s[n - 1].x * s[n].y - s[n].x * s[n - 1].y)
    }
}

/// Twice the area that a ring encloses: above zero where the ring is walked
/// counter-clockwise, below zero where it is walked clockwise.
pub open spec fn twice_signed_area(s: Seq<Coordinate>) -> int {
    swept(s, s.len() - 1)
}

/// How far `a` and `b` are apart.
pub open spec fn apart(a: int, b: int) -> int {
    if a <= b {
        b - a
    } else {
        a - b
    }
}

/// A rectangle walked from one of its corners encloses its width times its
/// height, counted positive: where it encloses anything, it is walked
/// counter-clockwise, wherever the opposite corner lies.
pub proof fn rectangle_from_is_counter_clockwise(x0: i64, y0: i64, x1: i64, y1: i64)
    ensures
        twice_signed_area(rectangle_from(x0, y0, x1, y1)) == 2 * (apart(x0 as int, x1 as int)
            * apart(y0 as int, y1 as int)),
        twice_signed_area(rectangle_from(x0, y0, x1, y1)) >= 0,
        x0 != x1 && y0 != y1 ==> twice_signed_area(rectangle_from(x0, y0, x1, y1)) > 0,
{
    let s = rectangle_from(x0, y0, x1, y1);
    let (a, b, c, d) = (x0 as int, y0 as int, x1 as int, y1 as int);
    reveal_with_fuel(swept, 5);
    assert(s.len() == 5);
    if (x0 <= x1) == (y0 <= y1) {
        assert(twice_signed_area(s) == (a * b - c * b) + (c * d - c * b) + (c * d - a * d) + (a * b
            - a * d));
        assert((a * b - c * b) + (c * d - c * b) + (c * d - a * d) + (a * b - a * d) == 2 * ((c
            - a) * (d - b))) by (nonlinear_arith);
        assert((c - a) * (d - b) == apart(a, c) * apart(b, d)) by (nonlinear_arith)
            requires
                (a <= c) == (b <= d),
        ;
    } else {
        assert(twice_signed_area(s) == (a * d - a * b) + (a * d - c * d) + (c * b - c * d) + (c * b
            - a * b));
        assert((a * d - a * b) + (a * d - c * d) + (c * b - c * d) + (c * b - a * b) == 2 * ((a
            - c) * (d - b))) by (nonlinear_arith);
        assert((a - c) * (d - b) == apart(a, c) * apart(b, d)) by (nonlinear_arith)
            requires
                (a <= c) != (b <= d),
        ;
    }
    assert(apart(a, c) * apart(b, d) >= 0) by (nonlinear_arith)
        requires
            apart(a, c) >= 0,
            apart(b, d) >= 0,
    ;
    assert(a != c && b != d ==> apart(a, c) * apart(b, d) > 0) by (nonlinear_arith)
        requires
            a != c ==> apart(a, c) > 0,
            b != d ==> apart(b, d) > 0,
            apart(a, c) >= 0,
            apart(b, d) >= 0,
    ;
}

/// The least rectangle that holds both `r` and `c`.
pub open spec fn widened(r: Rect, c: Coordinate) -> Rect {
    Rect {
        min: Coordinate {
            x: if c.x < r.min.x { c.x } else { r.min.x },
            y: if c.y < r.min.y { c.y } else { r.min.y },
        },
        max: Coordinate {
            x: if c.x > r.max.x { c.x } else { r.max.x },
            y: if c.y > r.max.y { c.y } else { r.max.y },
        },
    }
}

/// The envelope of the first `n` positions, widened by the next one, is the
/// envelope of the first `n + 1`.
proof fn envelope_grows(s: Seq<Coordinate>, n: int, q: Rect)
    requires
        1 <= n < s.len(),
        is_envelope(s.take(n), q),
    ensures
        is_envelope(s.take(n + 1), widened(q, s[n])),
{
    let before = s.take(n);
    let after = s.take(n + 1);
    let r = widened(q, s[n]);
    assert(after[n] == s[n]);
    assert forall|k: int| 0 <= k < before.len() implies before[k] == after[k] by {}
    let a = choose|k: int| 0 <= k < before.len() && (#[trigger] before[k]).x == q.min.x;
    assert(after[a].x == q.min.x);
    let b = choose|k: int| 0 <= k < before.len() && (#[trigger] before[k]).x == q.max.x;
    assert(after[b].x == q.max.x);
    let c = choose|k: int| 0 <= k < before.len() && (#[trigger] before[k]).y == q.min.y;
    assert(after[c].y == q.min.y);
    let d = choose|k: int| 0 <= k < before.len() && (#[trigger] before[k]).y == q.max.y;
    assert(after[d].y == q.max.y);
    assert forall|k: int| 0 <= k < after.len() implies r.min.x <= (#[trigger] after[k]).x
        <= r.max.x && r.min.y <= after[k].y <= r.max.y by {
        if k < n {
            assert(before[k] == after[k]);
        }
    }
}

proof fn envelope_of_prefix(s: Seq<Coordinate>, n: int) -> (r: Rect)
    requires
        1 <= n <= s.len(),
    ensures
        is_envelope(s.take(n), r),
    decreases n,
{
    if n == 1 {
        assert(s.take(1)[0] == s[0]);
        Rect { min: s[0], max: s[0] }
    } else {
        let q = envelope_of_prefix(s, n - 1);
        envelope_grows(s, n - 1, q);
        widened(q, s[n - 1])
    }
}

/// Every sequence of positions but the empty one has an envelope.
pub proof fn envelope_exists(s: Seq<Coordinate>)
    requires
        s.len() > 0,
    ensures
        is_envelope(s, envelope(s)),
{
    let r = envelope_of_prefix(s, s.len() as int);
    assert(s.take(s.len() as int) =~= s);
}

/// A sequence of positions has at most one envelope.
pub proof fn envelope_is_unique(s: Seq<Coordinate>, a: Rect, b: Rect)
    requires
        is_envelope(s, a),
        is_envelope(s, b),
    ensures
        a == b,
{
}

/// A polygon without holes, held as its exterior ring.
#[derive(Debug, PartialEq, Eq)]
pub struct Polygon {
    exterior: Vec<Coordinate>,
}

impl View for Polygon {
    type V = Seq<Coordinate>;

    closed spec fn view(&self) -> Seq<Coordinate> {
        self.exterior@
    }
}

impl Clone for Polygon {
    fn clone(&self) -> (r: Self)
        ensures
            r@ == self@,
    {
        proof {
            use_type_invariant(self);
        }
        Polygon { exterior: self.exterior.clone() }
    }
}

impl Polygon {
    #[verifier::type_invariant]
    spec fn ring_is_closed(&self) -> bool {
        is_ring(self.exterior@)
    }

    /// Makes a polygon of the given positions, closing them into a ring
    /// where they are not closed yet. Positions that close into fewer than
    /// four make no polygon.
    pub fn new(exterior: Vec<Coordinate>) -> (r: Option<Polygon>)
        ensures
            match r {
                Some(p) => p@ == close_ring(exterior@) && is_ring(p@),
                None => !is_ring(close_ring(exterior@)),
            },
    {
        let mut ring = exterior;
        let n = ring.len();
        if n > 0 {
            let first = ring[0];
            let last = ring[n - 1];
            if first != last {
                ring.push(first);
            }
        }
        if ring.len() >= 4 {
            Some(Polygon { exterior: ring })
        } else {
            None
        }
    }

    /// The rectangle from (`min_x`, `min_y`) to (`max_x`, `max_y`).
    pub fn rectangle(min_x: i64, min_y: i64, max_x: i64, max_y: i64) -> (r: Polygon)
        ensures
            r@ == rectangle_ring(min_x, min_y, max_x, max_y),
    {
        let mut ring: Vec<Coordinate> = Vec::new();
        ring.push(Coordinate { x: min_x, y: min_y });
        ring.push(Coordinate { x: max_x, y: min_y });
        ring.push(Coordinate { x: max_x, y: max_y });
        ring.push(Coordinate { x: min_x, y: max_y });
        ring.push(Coordinate { x: min_x, y: min_y });
        Polygon { exterior: ring }
    }

    /// The rectangle between the corner (`x0`, `y0`) and the opposite
    /// corner (`x1`, `y1`), walked counter-clockwise from the first.
    pub fn rectangle_from(x0: i64, y0: i64, x1: i64, y1: i64) -> (r: Polygon)
        ensures
            r@ == self::rectangle_from(x0, y0, x1, y1),
            r@[0] == (Coordinate { x: x0, y: y0 }),
            twice_signed_area(r@) >= 0,
            x0 != x1 && y0 != y1 ==> twice_signed_area(r@) > 0,
    {
        proof {
            rectangle_from_is_counter_clockwise(x0, y0, x1, y1);
        }
        if (x0 <= x1) == (y0 <= y1) {
            return Polygon::rectangle(x0, y0, x1, y1);
        }
        let mut ring: Vec<Coordinate> = Vec::new();
        ring.push(Coordinate { x: x0, y: y0 });
        ring.push(Coordinate { x: x0, y: y1 });
        ring.push(Coordinate { x: x1, y: y1 });
        ring.push(Coordinate { x: x1, y: y0 });
        ring.push(Coordinate { x: x0, y: y0 });
        proof {
            assert(ring@ =~= self::rectangle_from(x0, y0, x1, y1));
        }
        Polygon { exterior: ring }
    }

    /// The positions of the ring, the last one equal to the first.
    pub fn exterior(&self) -> (r: &Vec<Coordinate>)
        ensures
            r@ == self@,
            is_ring(r@),
    {
        proof {
            use_type_invariant(self);
        }
        &self.exterior
    }

    /// The smallest axis-aligned rectangle that holds the polygon.
    pub fn bounding_rect(&self) -> (r: Rect)
        ensures
            is_envelope(self@, r),
            r == envelope(self@),
    {
        proof {
            use_type_invariant(self);
        }
        let first = self.exterior[0];
        let mut r = Rect { min: first, max: first };
        let mut i: usize = 1;
        proof {
            assert(self.exterior@.take(1)[0] == first);
        }
        while i < self.exterior.len()
            invariant
                1 <= i <= self.exterior.len(),
                is_envelope(self.exterior@.take(i as int), r),
            decreases self.exterior.len() - i,
        {
            let c = self.exterior[i];
            let ghost grown = widened(r, c);
            proof {
                envelope_grows(self.exterior@, i as int, r);
            }
            if c.x < r.min.x {
                r.min.x = c.x;
            }
            if c.x > r.max.x {
                r.max.x = c.x;
            }
            if c.y < r.min.y {
                r.min.y = c.y;
            }
            if c.y > r.max.y {
                r.max.y = c.y;
            }
            assert(r == grown);
            i += 1;
        }
        proof {
            assert(self.exterior@.take(i as int) =~= self.exterior@);
            envelope_is_unique(self@, r, envelope(self@));
        }
        r
    }
}

} // verus!
