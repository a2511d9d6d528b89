//! Points and half-plane boundaries.
use vstd::prelude::*;
use crate::fixed_point::SCALE;

verus! {

/// A point of the plane, coordinates in micrometres. `+x` points right, `+y` up.
#[derive(Copy, Clone, Debug, Default, PartialEq, Eq, Structural)]
pub struct Vec2d {
    pub x: i64,
    pub y: i64,
}

impl Vec2d {
    pub fn new(x: i64, y: i64) -> (r: Vec2d)
        ensures
            r.x == x,
            r.y == y,
    {
        Vec2d { x, y }
    }
}

#[derive(Copy, Clone, Debug, PartialEq, Eq, Structural)]
pub enum Axis {
    X,
    Y,
}

/// The line that bounds a half-plane.
#[derive(Copy, Clone, Debug, PartialEq, Eq, Structural)]
pub enum LineType {
    /// `y = y0`, in micrometres.
    Horizontal(i64),
    /// `x = x0`, in micrometres.
    Vertical(i64),
    /// `y = m * x + c`: the slope `m` in millionths, the intercept `c` in micrometres.
    Diagonal(i64, i64),
}

/// A half-plane: the side of `line_type` that counts as inside is the side of
/// larger coordinates when `positive_inf_within` holds.
#[derive(Copy, Clone, Debug, PartialEq, Eq, Structural)]
pub struct Boundary {
    pub line_type: LineType,
    pub positive_inf_within: bool,
}

/// A boundary whose line a marker cannot be placed along: a diagonal one.
#[derive(Copy, Clone, Debug, PartialEq, Eq, Structural)]
pub struct UnsupportedLine {
    pub slope: i64,
    pub intercept: i64,
}

impl Boundary {
    pub fn vertical(x: i64, left_within: bool) -> (r: Boundary)
        ensures
            r.line_type == LineType::Vertical(x),
            r.positive_inf_within == !left_within,
    {
        Boundary { line_type: LineType::Vertical(x), positive_inf_within: !left_within }
    }

    pub fn horizontal(y: i64, below_within: bool) -> (r: Boundary)
        ensures
            r.line_type == LineType::Horizontal(y),
            r.positive_inf_within == !below_within,
    {
        Boundary { line_type: LineType::Horizontal(y), positive_inf_within: !below_within }
    }

    /// The point lies on the inside. A point exactly on the line is not above
    /// it, so it is inside iff the side of smaller coordinates is. For a
    /// diagonal line the point is above when `y > m * x / SCALE + c`, compared
    /// exactly, without rounding the line's height.
    pub open spec fn contains(self, p: Vec2d) -> bool {
        match self.line_type {
            LineType::Horizontal(y0) => (p.y > y0) == self.positive_inf_within,
            LineType::Vertical(x0) => (p.x > x0) == self.positive_inf_within,
            LineType::Diagonal(m, c) => ((p.y - c) * SCALE > m * p.x) == self.positive_inf_within,
        }
    }

    /// Where a marker of this line goes and the axis it runs along: a
    /// horizontal line is marked at `(0, y0)` along `X`, a vertical one at
    /// `(x0, 0)` along `Y`; a diagonal one cannot be marked.
    pub fn marker_placement(&self) -> (r: Result<(Vec2d, Axis), UnsupportedLine>)
        ensures
            r == (match self.line_type {
                LineType::Horizontal(y) => Ok((Vec2d { x: 0, y }, Axis::X)),
                LineType::Vertical(x) => Ok((Vec2d { x, y: 0 }, Axis::Y)),
                LineType::Diagonal(m, c) => Err(UnsupportedLine { slope: m, intercept: c }),
            }),
    {
        match self.line_type {
            LineType::Horizontal(y) => Ok((Vec2d { x: 0, y }, Axis::X)),
            LineType::Vertical(x) => Ok((Vec2d { x, y: 0 }, Axis::Y)),
            LineType::Diagonal(m, c) => Err(UnsupportedLine { slope: m, intercept: c }),
        }
    }

    pub fn point_within(&self, point: &Vec2d) -> (r: bool)
        ensures
            r == self.contains(*point),
    {
        match self.line_type {
            LineType::Horizontal(y_intercept) => !((point.y > y_intercept)
                ^ self.positive_inf_within),
            LineType::Vertical(x_intercept) => !((point.x > x_intercept)
                ^ self.positive_inf_within),
            LineType::Diagonal(m, c_y) => {
                let mi = m as i128;
                let xi = point.x as i128;
                assert(-0x4000_0000_0000_0000_0000_0000_0000_0000 <= mi * xi
                    <= 0x4000_0000_0000_0000_0000_0000_0000_0000) by (nonlinear_arith)
                    requires
                        -0x8000_0000_0000_0000 <= mi <= 0x7fff_ffff_ffff_ffff,
                        -0x8000_0000_0000_0000 <= xi <= 0x7fff_ffff_ffff_ffff,
                ;
                let rise: i128 = point.y as i128 - c_y as i128;
                assert(-0x4000_0000_0000_0000_0000_0000 <= rise * (SCALE as i128)
                    <= 0x4000_0000_0000_0000_0000_0000) by (nonlinear_arith)
                    requires
                        -0x1_0000_0000_0000_0000 <= rise <= 0x1_0000_0000_0000_0000,
                ;
                let above = rise * (SCALE as i128) > mi * xi;
                !(above ^ self.positive_inf_within)
            },
        }
    }
}

} // verus!
