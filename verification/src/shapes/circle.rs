//! An axis-aligned ellipse centered at its local origin.

use vstd::prelude::*;
use vstd::string::StringExecFns;

use crate::error::ArgumentFault;
use crate::error::GraphError;
use crate::shapes::Svg;
use crate::shapes::copy_bytes;
use crate::shapes::copy_vals;

verus! {

/// Whether the point `(x, y)` lies in the strict interior of the ellipse
/// of full width `w` and full height `h` centered at the origin, that is,
/// `(x / (w/2))^2 + (y / (h/2))^2 < 1` once cleared of denominators.
/// The boundary is excluded; a degenerate ellipse (zero width or height)
/// contains nothing.
pub open spec fn circle_contains(w: int, h: int, x: int, y: int) -> bool {
    4 * x * x * h * h + 4 * y * y * w * w < w * w * h * h
}

/// A product of values inside the given bounds stays inside the product of
/// the bounds.
pub(crate) proof fn lemma_mul_le(a: int, b: int, bound_a: int, bound_b: int)
    by (nonlinear_arith)
    requires
        0 <= a <= bound_a,
        0 <= b <= bound_b,
    ensures
        0 <= a * b <= bound_a * bound_b,
{
}

/// A square of a value inside symmetric bounds is at most the bound squared.
pub(crate) proof fn lemma_sq_le(v: int, m: int)
    by (nonlinear_arith)
    requires
        -m <= v <= m,
    ensures
        v * v <= m * m,
{
}

/// A square of a value outside symmetric bounds is at least the bound squared.
pub(crate) proof fn lemma_sq_ge(v: int, m: int)
    by (nonlinear_arith)
    requires
        v < -m || m <= v,
        0 <= m,
    ensures
        m * m <= v * v,
{
}

/// Squaring twice the product of the magnitudes of `v` and `u` yields four
/// times the product of their squares.
proof fn lemma_scaled_sq(v: int, u: int, av: int, au: int)
    by (nonlinear_arith)
    requires
        av == v || av == -v,
        au == u || au == -u,
    ensures
        (2 * av * au) * (2 * av * au) == 4 * v * v * u * u,
{
}

/// Squaring the product of the magnitudes of `v` and `u` yields the product
/// of their squares.
proof fn lemma_prod_sq(v: int, u: int, av: int, au: int)
    by (nonlinear_arith)
    requires
        av == v || av == -v,
        au == u || au == -u,
    ensures
        (av * au) * (av * au) == v * v * u * u,
{
}

/// When the first coordinate's square dominates the squared width, the
/// ellipse inequality cannot hold.
proof fn lemma_dominant_first(x: int, h: int, w: int, y: int)
    by (nonlinear_arith)
    requires
        w * w <= x * x,
    ensures
        !(4 * x * x * h * h + 4 * y * y * w * w < w * w * h * h),
{
}

/// When the second coordinate's square dominates the squared height, the
/// ellipse inequality cannot hold.
proof fn lemma_dominant_second(y: int, w: int, h: int, x: int)
    by (nonlinear_arith)
    requires
        h * h <= y * y,
    ensures
        !(4 * x * x * h * h + 4 * y * y * w * w < w * w * h * h),
{
}

/// A point whose coordinates do not both lie in the signed 32-bit range is
/// outside every ellipse whose dimensions do.
pub(crate) proof fn lemma_far_point_outside_circle(w: int, h: int, x: int, y: int)
    requires
        -0x8000_0000 <= w <= 0x7fff_ffff,
        -0x8000_0000 <= h <= 0x7fff_ffff,
        x < -0x8000_0000 || 0x7fff_ffff < x || y < -0x8000_0000 || 0x7fff_ffff < y,
    ensures
        !circle_contains(w, h, x, y),
{
    if x < -0x8000_0000 || 0x7fff_ffff < x {
        lemma_sq_ge(x, 0x8000_0000);
        lemma_sq_le(w, 0x8000_0000);
        lemma_dominant_first(x, h, w, y);
    } else {
        lemma_sq_ge(y, 0x8000_0000);
        lemma_sq_le(h, 0x8000_0000);
        lemma_dominant_second(y, w, h, x);
    }
}

/// The magnitude of a 32-bit value, widened so that negation cannot wrap.
pub(crate) fn mag(v: i32) -> (r: u64)
    ensures
        r as int == vstd::math::abs(v as int),
        r <= 0x8000_0000,
{
    if v < 0 {
        (-(v as i64)) as u64
    } else {
        v as u64
    }
}

/// A circle (more generally an axis-aligned ellipse): its bounding box is
/// `width` by `height`, centered at the local origin.
#[derive(Debug, PartialEq)]
pub struct Circle {
    /// Full width of the bounding box; nonnegative in a well-formed circle.
    pub width: i32,
    /// Full height of the bounding box; nonnegative in a well-formed circle.
    pub height: i32,
    /// Color channels; exactly four (R, G, B, A) in a well-formed circle.
    pub color: Vec<u8>,
    /// Border values; exactly four in a well-formed circle.
    pub border: Vec<i32>,
}

impl Circle {
    /// The invariant the constructor establishes and the setters preserve.
    pub open spec fn wf(&self) -> bool {
        0 <= self.width && 0 <= self.height && self.color@.len() == 4 && self.border@.len() == 4
    }

    /// Builds a circle, rejecting a color or border that does not have
    /// exactly four values and dimensions that are negative.
    pub fn new(width: i32, height: i32, color: Vec<u8>, border: Vec<i32>) -> (r: Result<
        Circle,
        GraphError,
    >)
        ensures
            r is Ok <==> color@.len() == 4 && border@.len() == 4 && 0 <= width && 0 <= height,
            r is Ok ==> r->Ok_0 == (Circle { width, height, color, border }) && r->Ok_0.wf(),
            color@.len() != 4 ==> r->Err_0 == GraphError::InvalidArgument(
                ArgumentFault::Length { expected: 4, actual: color@.len() as usize },
            ),
            color@.len() == 4 && border@.len() != 4 ==> r->Err_0 == GraphError::InvalidArgument(
                ArgumentFault::Length { expected: 4, actual: border@.len() as usize },
            ),
            color@.len() == 4 && border@.len() == 4 && (width < 0 || height < 0) ==> r->Err_0
                == GraphError::InvalidArgument(ArgumentFault::NegativeDimension),
    {
        if color.len() != 4 {
            Err(GraphError::InvalidArgument(ArgumentFault::Length { expected: 4, actual: color.len() }))
        } else if border.len() != 4 {
            Err(GraphError::InvalidArgument(ArgumentFault::Length { expected: 4, actual: border.len() }))
        } else if width < 0 || height < 0 {
            Err(GraphError::InvalidArgument(ArgumentFault::NegativeDimension))
        } else {
            Ok(Circle { width, height, color, border })
        }
    }

    /// Returns the width and height.
    pub fn get_dimensions(&self) -> (r: (i32, i32))
        ensures
            r.0 == self.width,
            r.1 == self.height,
    {
        (self.width, self.height)
    }

    /// Replaces both dimensions atomically: on a negative input neither is
    /// updated and the call fails.
    pub fn set_dimensions(&mut self, width: i32, height: i32) -> (r: Result<(), GraphError>)
        ensures
            r is Ok <==> 0 <= width && 0 <= height,
            r is Ok ==> *final(self) == (Circle { width, height, ..*old(self) }),
            r is Err ==> *final(self) == *old(self) && r->Err_0 == GraphError::InvalidArgument(
                ArgumentFault::NegativeDimension,
            ),
    {
        if width < 0 || height < 0 {
            Err(GraphError::InvalidArgument(ArgumentFault::NegativeDimension))
        } else {
            self.width = width;
            self.height = height;
            Ok(())
        }
    }

    /// Returns a copy of the color channels.
    pub fn get_color(&self) -> (r: Vec<u8>)
        ensures
            r@ == self.color@,
    {
        copy_bytes(&self.color)
    }

    /// Replaces the color, rejecting a value that does not have exactly
    /// four channels and leaving the circle unchanged in that case.
    pub fn set_color(&mut self, color: Vec<u8>) -> (r: Result<(), GraphError>)
        ensures
            r is Ok <==> color@.len() == 4,
            r is Ok ==> *final(self) == (Circle { color, ..*old(self) }),
            r is Err ==> *final(self) == *old(self) && r->Err_0 == GraphError::InvalidArgument(
                ArgumentFault::Length { expected: 4, actual: color@.len() as usize },
            ),
    {
        if color.len() != 4 {
            Err(GraphError::InvalidArgument(ArgumentFault::Length { expected: 4, actual: color.len() }))
        } else {
            self.color = color;
            Ok(())
        }
    }

    /// Returns a copy of the border values.
    pub fn get_border(&self) -> (r: Vec<i32>)
        ensures
            r@ == self.border@,
    {
        copy_vals(&self.border)
    }

    /// Replaces the border, rejecting a value that does not have exactly
    /// four entries and leaving the circle unchanged in that case.
    pub fn set_border(&mut self, border: Vec<i32>) -> (r: Result<(), GraphError>)
        ensures
            r is Ok <==> border@.len() == 4,
            r is Ok ==> *final(self) == (Circle { border, ..*old(self) }),
            r is Err ==> *final(self) == *old(self) && r->Err_0 == GraphError::InvalidArgument(
                ArgumentFault::Length { expected: 4, actual: border@.len() as usize },
            ),
    {
        if border.len() != 4 {
            Err(GraphError::InvalidArgument(ArgumentFault::Length { expected: 4, actual: border.len() }))
        } else {
            self.border = border;
            Ok(())
        }
    }

    /// Whether `(x, y)`, in the circle's local frame, lies strictly inside
    /// the circle.  Exact: the inequality is decided in wide integers with
    /// no rounding, and a point exactly on the outline is not contained.
    pub fn contains(&self, x: i32, y: i32) -> (r: bool)
        ensures
            r == circle_contains(self.width as int, self.height as int, x as int, y as int),
    {
        let ax = mag(x);
        let ay = mag(y);
        let aw = mag(self.width);
        let ah = mag(self.height);
        proof {
            lemma_mul_le(2 * (ax as int), ah as int, 0x1_0000_0000, 0x8000_0000);
            lemma_mul_le(2 * (ay as int), aw as int, 0x1_0000_0000, 0x8000_0000);
            lemma_mul_le(aw as int, ah as int, 0x8000_0000, 0x8000_0000);
        }
        let a: u128 = 2 * (ax as u128) * (ah as u128);
        let b: u128 = 2 * (ay as u128) * (aw as u128);
        let m: u128 = (aw as u128) * (ah as u128);
        proof {
            lemma_mul_le(a as int, a as int, 0x8000_0000_0000_0000, 0x8000_0000_0000_0000);
            lemma_mul_le(b as int, b as int, 0x8000_0000_0000_0000, 0x8000_0000_0000_0000);
            lemma_mul_le(m as int, m as int, 0x4000_0000_0000_0000, 0x4000_0000_0000_0000);
        }
        let lhs: u128 = a * a + b * b;
        let rhs: u128 = m * m;
        proof {
            lemma_scaled_sq(x as int, self.height as int, ax as int, ah as int);
            lemma_scaled_sq(y as int, self.width as int, ay as int, aw as int);
            lemma_prod_sq(self.width as int, self.height as int, aw as int, ah as int);
        }
        lhs < rhs
    }
}

impl Svg for Circle {
    open spec fn tag(&self) -> Seq<char> {
        "circle"@
    }

    fn get_tag(&self) -> (r: String) {
        String::from_str("circle")
    }
}

} // verus!
