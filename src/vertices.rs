//! The full-screen quad that every lighting pass draws.
use vstd::prelude::*;

verus! {

/// A vertex of the full-screen quad, in clip-space coordinates.
#[derive(Clone, Copy, PartialEq, Eq, Structural, Debug)]
pub struct BasicVertex2D {
    pub x: i8,
    pub y: i8,
}

/// Twice the signed area of triangle `a b c`: positive when its vertices
/// run counter-clockwise.
pub open spec fn doubled_signed_area(a: BasicVertex2D, b: BasicVertex2D, c: BasicVertex2D) -> int {
    (b.x - a.x) * (c.y - a.y) - (b.y - a.y) * (c.x - a.x)
}

impl BasicVertex2D {
    pub open spec fn at(x: int, y: int) -> BasicVertex2D {
        BasicVertex2D { x: x as i8, y: y as i8 }
    }

    /// Two triangles that share the diagonal from `(-1, -1)` to `(1, 1)`
    /// and together cover the clip-space square.
    pub open spec fn spec_screen_vertices() -> Seq<BasicVertex2D> {
        seq![
            Self::at(-1, -1),
            Self::at(-1, 1),
            Self::at(1, 1),
            Self::at(-1, -1),
            Self::at(1, 1),
            Self::at(1, -1),
        ]
    }

    /// The six vertices of the full-screen quad. Both triangles wind the
    /// same way, so back-face culling keeps both or neither, and their areas
    /// add up to the area of the square.
    pub fn screen_vertices() -> (r: [BasicVertex2D; 6])
        ensures
            r@ == Self::spec_screen_vertices(),
            doubled_signed_area(r@[0], r@[1], r@[2]) == doubled_signed_area(r@[3], r@[4], r@[5]),
            doubled_signed_area(r@[0], r@[1], r@[2]) + doubled_signed_area(r@[3], r@[4], r@[5])
                == -2 * (2 * 2),
    {
        let r = [
            BasicVertex2D { x: -1, y: -1 },
            BasicVertex2D { x: -1, y: 1 },
            BasicVertex2D { x: 1, y: 1 },
            BasicVertex2D { x: -1, y: -1 },
            BasicVertex2D { x: 1, y: 1 },
            BasicVertex2D { x: 1, y: -1 },
        ];
        assert(r@ =~= Self::spec_screen_vertices());
        assert(r@[0].x == -1 && r@[0].y == -1);
        assert(r@[1].x == -1 && r@[1].y == 1);
        assert(r@[2].x == 1 && r@[2].y == 1);
        assert(r@[4].x == 1 && r@[4].y == 1);
        assert(r@[5].x == 1 && r@[5].y == -1);
        assert(doubled_signed_area(r@[0], r@[1], r@[2]) == -4) by (nonlinear_arith)
            requires
                r@[0].x == -1 && r@[0].y == -1,
                r@[1].x == -1 && r@[1].y == 1,
                r@[2].x == 1 && r@[2].y == 1,
        ;
        assert(doubled_signed_area(r@[3], r@[4], r@[5]) == -4) by (nonlinear_arith)
            requires
                r@[3].x == -1 && r@[3].y == -1,
                r@[4].x == 1 && r@[4].y == 1,
                r@[5].x == 1 && r@[5].y == -1,
        ;
        r
    }
}

} // verus!
