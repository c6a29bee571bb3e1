//! An axis-aligned rectangle centered at its local origin.

use vstd::prelude::*;
use vstd::string::StringExecFns;

use crate::error::ArgumentFault;
use crate::error::GraphError;
use crate::shapes::Svg;
use crate::shapes::copy_bytes;
use crate::shapes::copy_vals;

verus! {

/// Whether the point `(x, y)` lies in the strict interior of the rectangle
/// of width `w` and height `h` centered at the origin, that is,
/// `|x| < w/2` and `|y| < h/2` once cleared of denominators.  The boundary
/// is excluded; a degenerate rectangle contains nothing.
pub open spec fn square_contains(w: int, h: int, x: int, y: int) -> bool {
    -w < 2 * x && 2 * x < w && -h < 2 * y && 2 * y < h
}

/// A point whose coordinates do not both lie in the signed 32-bit range is
/// outside every rectangle whose dimensions do.
pub(crate) proof fn lemma_far_point_outside_square(w: int, h: int, x: int, y: int)
    requires
        w <= 0x7fff_ffff,
        h <= 0x7fff_ffff,
        x < -0x8000_0000 || 0x7fff_ffff < x || y < -0x8000_0000 || 0x7fff_ffff < y,
    ensures
        !square_contains(w, h, x, y),
{
}

/// A square (more generally an axis-aligned rectangle): `width` by
/// `height`, centered at the local origin.
#[derive(Debug, PartialEq)]
pub struct Square {
    /// Width; nonnegative in a well-formed square.
    pub width: i32,
    /// Height; nonnegative in a well-formed square.
    pub height: i32,
    /// Color channels; exactly four (R, G, B, A) in a well-formed square.
    pub color: Vec<u8>,
    /// Border values; exactly four in a well-formed square.
    pub border: Vec<i32>,
}

impl Square {
    /// The invariant the constructor establishes and the setters preserve.
    pub open spec fn wf(&self) -> bool {
        0 <= self.width && 0 <= self.height && self.color@.len() == 4 && self.border@.len() == 4
    }

    /// Builds a square, rejecting a color or border that does not have
    /// exactly four values and dimensions that are negative.
    pub fn new(width: i32, height: i32, color: Vec<u8>, border: Vec<i32>) -> (r: Result<
        Square,
        GraphError,
    >)
        ensures
            r is Ok <==> color@.len() == 4 && border@.len() == 4 && 0 <= width && 0 <= height,
            r is Ok ==> r->Ok_0 == (Square { width, height, color, border }) && r->Ok_0.wf(),
            color@.len() != 4 ==> r->Err_0 == GraphError::InvalidArgument(
                ArgumentFault::Length { expected: 4, actual: color@.len() as usize },
            ),
            color@.len() == 4 && border@.len() != 4 ==> r->Err_0 == GraphError::InvalidArgument(
                ArgumentFault::Length { expected: 4, actual: border@.len() as usize },
            ),
            color@.len() == 4 && border@.len() == 4 && (width < 0 || height < 0) ==> r->Err_0
                == GraphError::InvalidArgument(ArgumentFault::NegativeDimension),
    {
        if color.len() != 4 {
            Err(GraphError::InvalidArgument(ArgumentFault::Length { expected: 4, actual: color.len() }))
        } else if border.len() != 4 {
            Err(GraphError::InvalidArgument(ArgumentFault::Length { expected: 4, actual: border.len() }))
        } else if width < 0 || height < 0 {
            Err(GraphError::InvalidArgument(ArgumentFault::NegativeDimension))
        } else {
            Ok(Square { width, height, color, border })
        }
    }

    /// Returns the width and height.
    pub fn get_dimensions(&self) -> (r: (i32, i32))
        ensures
            r.0 == self.width,
            r.1 == self.height,
    {
        (self.width, self.height)
    }

    /// Replaces both dimensions atomically: on a negative input neither is
    /// updated and the call fails.
    pub fn set_dimensions(&mut self, width: i32, height: i32) -> (r: Result<(), GraphError>)
        ensures
            r is Ok <==> 0 <= width && 0 <= height,
            r is Ok ==> *final(self) == (Square { width, height, ..*old(self) }),
            r is Err ==> *final(self) == *old(self) && r->Err_0 == GraphError::InvalidArgument(
                ArgumentFault::NegativeDimension,
            ),
    {
        if width < 0 || height < 0 {
            Err(GraphError::InvalidArgument(ArgumentFault::NegativeDimension))
        } else {
            self.width = width;
            self.height = height;
            Ok(())
        }
    }

    /// Returns a copy of the color channels.
    pub fn get_color(&self) -> (r: Vec<u8>)
        ensures
            r@ == self.color@,
    {
        copy_bytes(&self.color)
    }

    /// Replaces the color, rejecting a value that does not have exactly
    /// four channels and leaving the square unchanged in that case.
    pub fn set_color(&mut self, color: Vec<u8>) -> (r: Result<(), GraphError>)
        ensures
            r is Ok <==> color@.len() == 4,
            r is Ok ==> *final(self) == (Square { color, ..*old(self) }),
            r is Err ==> *final(self) == *old(self) && r->Err_0 == GraphError::InvalidArgument(
                ArgumentFault::Length { expected: 4, actual: color@.len() as usize },
            ),
    {
        if color.len() != 4 {
            Err(GraphError::InvalidArgument(ArgumentFault::Length { expected: 4, actual: color.len() }))
        } else {
            self.color = color;
            Ok(())
        }
    }

    /// Returns a copy of the border values.
    pub fn get_border(&self) -> (r: Vec<i32>)
        ensures
            r@ == self.border@,
    {
        copy_vals(&self.border)
    }

    /// Replaces the border, rejecting a value that does not have exactly
    /// four entries and leaving the square unchanged in that case.
    pub fn set_border(&mut self, border: Vec<i32>) -> (r: Result<(), GraphError>)
        ensures
            r is Ok <==> border@.len() == 4,
            r is Ok ==> *final(self) == (Square { border, ..*old(self) }),
            r is Err ==> *final(self) == *old(self) && r->Err_0 == GraphError::InvalidArgument(
                ArgumentFault::Length { expected: 4, actual: border@.len() as usize },
            ),
    {
        if border.len() != 4 {
            Err(GraphError::InvalidArgument(ArgumentFault::Length { expected: 4, actual: border.len() }))
        } else {
            self.border = border;
            Ok(())
        }
    }

    /// Whether `(x, y)`, in the square's local frame, lies strictly inside
    /// the square.  Exact: decided in wide integers, and a point exactly on
    /// the outline is not contained.
    pub fn contains(&self, x: i32, y: i32) -> (r: bool)
        ensures
            r == square_contains(self.width as int, self.height as int, x as int, y as int),
    {
        let x2: i64 = 2 * (x as i64);
        let y2: i64 = 2 * (y as i64);
        let w: i64 = self.width as i64;
        let h: i64 = self.height as i64;
        -w < x2 && x2 < w && -h < y2 && y2 < h
    }
}

impl Svg for Square {
    open spec fn tag(&self) -> Seq<char> {
        "rect"@
    }

    fn get_tag(&self) -> (r: String) {
        String::from_str("rect")
    }
}

} // verus!
