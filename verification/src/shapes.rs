//! The closed family of renderable shape primitives.

use vstd::prelude::*;

use crate::error::ArgumentFault;
use crate::error::GraphError;

pub(crate) mod circle;
pub(crate) mod square;

pub use circle::Circle;
pub use circle::circle_contains;
pub use square::Square;
pub use square::square_contains;

verus! {

/// The capability of naming one's own markup tag.
pub trait Svg {
    /// The tag this shape renders under.
    spec fn tag(&self) -> Seq<char>;

    /// Returns the markup tag of the shape.
    fn get_tag(&self) -> (r: String)
        ensures
            r@ == self.tag(),
    ;
}

/// Copies a byte vector element by element.
pub(crate) fn copy_bytes(v: &Vec<u8>) -> (r: Vec<u8>)
    ensures
        r@ == v@,
{
    let mut out: Vec<u8> = Vec::new();
    let mut i: usize = 0;
    while i < v.len()
        invariant
            i <= v.len(),
            out@ == v@.take(i as int),
        decreases v.len() - i,
    {
        out.push(v[i]);
        proof {
            assert(v@.take(i as int + 1) =~= v@.take(i as int).push(v@[i as int]));
        }
        i = i + 1;
    }
    proof {
        assert(v@.take(v@.len() as int) =~= v@);
    }
    out
}

/// Copies a vector of border values element by element.
pub(crate) fn copy_vals(v: &Vec<i32>) -> (r: Vec<i32>)
    ensures
        r@ == v@,
{
    let mut out: Vec<i32> = Vec::new();
    let mut i: usize = 0;
    while i < v.len()
        invariant
            i <= v.len(),
            out@ == v@.take(i as int),
        decreases v.len() - i,
    {
        out.push(v[i]);
        proof {
            assert(v@.take(i as int + 1) =~= v@.take(i as int).push(v@[i as int]));
        }
        i = i + 1;
    }
    proof {
        assert(v@.take(v@.len() as int) =~= v@);
    }
    out
}

/// A renderable primitive: one of the concrete shape kinds.
///
/// The shape set is closed, so a canvas can own mixed shapes by value and
/// every operation dispatches exhaustively.
#[derive(Debug, PartialEq)]
pub enum Shape {
    Circle(Circle),
    Square(Square),
}

impl Shape {
    /// The width of the shape's bounding box.
    pub open spec fn width_spec(&self) -> int {
        match self {
            Shape::Circle(c) => c.width as int,
            Shape::Square(s) => s.width as int,
        }
    }

    /// The height of the shape's bounding box.
    pub open spec fn height_spec(&self) -> int {
        match self {
            Shape::Circle(c) => c.height as int,
            Shape::Square(s) => s.height as int,
        }
    }

    /// The shape's color channels.
    pub open spec fn color_spec(&self) -> Seq<u8> {
        match self {
            Shape::Circle(c) => c.color@,
            Shape::Square(s) => s.color@,
        }
    }

    /// The shape's border values.
    pub open spec fn border_spec(&self) -> Seq<i32> {
        match self {
            Shape::Circle(c) => c.border@,
            Shape::Square(s) => s.border@,
        }
    }

    /// The structural invariant every shape built through the constructors
    /// and setters satisfies: nonnegative dimensions and four-element color
    /// and border arrays.
    pub open spec fn wf(&self) -> bool {
        match self {
            Shape::Circle(c) => c.wf(),
            Shape::Square(s) => s.wf(),
        }
    }

    /// Whether the point `(x, y)`, in the shape's local frame, lies in the
    /// shape's strict interior.
    pub open spec fn contains_spec(&self, x: int, y: int) -> bool {
        match self {
            Shape::Circle(c) => circle_contains(c.width as int, c.height as int, x, y),
            Shape::Square(s) => square_contains(s.width as int, s.height as int, x, y),
        }
    }

    /// Returns the shape's width and height.
    pub fn get_dimensions(&self) -> (r: (i32, i32))
        ensures
            r.0 as int == self.width_spec(),
            r.1 as int == self.height_spec(),
    {
        match self {
            Shape::Circle(c) => c.get_dimensions(),
            Shape::Square(s) => s.get_dimensions(),
        }
    }

    /// Replaces both dimensions, or neither on a negative input.
    pub fn set_dimensions(&mut self, width: i32, height: i32) -> (r: Result<(), GraphError>)
        ensures
            r is Ok <==> 0 <= width && 0 <= height,
            r is Ok ==> final(self).width_spec() == width as int,
            r is Ok ==> final(self).height_spec() == height as int,
            r is Ok ==> final(self).color_spec() == old(self).color_spec(),
            r is Ok ==> final(self).border_spec() == old(self).border_spec(),
            r is Ok ==> (*final(self) is Circle <==> *old(self) is Circle),
            r is Err ==> *final(self) == *old(self),
            r is Err ==> r->Err_0 == GraphError::InvalidArgument(ArgumentFault::NegativeDimension),
    {
        match self {
            Shape::Circle(c) => c.set_dimensions(width, height),
            Shape::Square(s) => s.set_dimensions(width, height),
        }
    }

    /// Returns a copy of the shape's color.
    pub fn get_color(&self) -> (r: Vec<u8>)
        ensures
            r@ == self.color_spec(),
    {
        match self {
            Shape::Circle(c) => c.get_color(),
            Shape::Square(s) => s.get_color(),
        }
    }

    /// Replaces the shape's color, or leaves it unchanged when the new one
    /// does not have exactly four channels.
    pub fn set_color(&mut self, color: Vec<u8>) -> (r: Result<(), GraphError>)
        ensures
            r is Ok <==> color@.len() == 4,
            r is Ok ==> final(self).color_spec() == color@,
            r is Ok ==> final(self).width_spec() == old(self).width_spec(),
            r is Ok ==> final(self).height_spec() == old(self).height_spec(),
            r is Ok ==> final(self).border_spec() == old(self).border_spec(),
            r is Ok ==> (*final(self) is Circle <==> *old(self) is Circle),
            r is Err ==> *final(self) == *old(self),
            r is Err ==> r->Err_0 == GraphError::InvalidArgument(ArgumentFault::Length { expected: 4, actual: color@.len() as usize }),
    {
        match self {
            Shape::Circle(c) => c.set_color(color),
            Shape::Square(s) => s.set_color(color),
        }
    }

    /// Returns a copy of the shape's border values.
    pub fn get_border(&self) -> (r: Vec<i32>)
        ensures
            r@ == self.border_spec(),
    {
        match self {
            Shape::Circle(c) => c.get_border(),
            Shape::Square(s) => s.get_border(),
        }
    }

    /// Replaces the shape's border, or leaves it unchanged when the new one
    /// does not have exactly four values.
    pub fn set_border(&mut self, border: Vec<i32>) -> (r: Result<(), GraphError>)
        ensures
            r is Ok <==> border@.len() == 4,
            r is Ok ==> final(self).border_spec() == border@,
            r is Ok ==> final(self).width_spec() == old(self).width_spec(),
            r is Ok ==> final(self).height_spec() == old(self).height_spec(),
            r is Ok ==> final(self).color_spec() == old(self).color_spec(),
            r is Ok ==> (*final(self) is Circle <==> *old(self) is Circle),
            r is Err ==> *final(self) == *old(self),
            r is Err ==> r->Err_0 == GraphError::InvalidArgument(ArgumentFault::Length { expected: 4, actual: border@.len() as usize }),
    {
        match self {
            Shape::Circle(c) => c.set_border(border),
            Shape::Square(s) => s.set_border(border),
        }
    }

    /// Strict-interior containment test in the shape's local frame.
    pub fn contains(&self, x: i32, y: i32) -> (r: bool)
        ensures
            r == self.contains_spec(x as int, y as int),
    {
        match self {
            Shape::Circle(c) => c.contains(x, y),
            Shape::Square(s) => s.contains(x, y),
        }
    }
}

impl Svg for Shape {
    open spec fn tag(&self) -> Seq<char> {
        match self {
            Shape::Circle(c) => c.tag(),
            Shape::Square(s) => s.tag(),
        }
    }

    fn get_tag(&self) -> (r: String) {
        match self {
            Shape::Circle(c) => c.get_tag(),
            Shape::Square(s) => s.get_tag(),
        }
    }
}

/// Law: setting a valid four-channel color and then reading it back yields
/// exactly the color that was set.  `set_color` establishes that the
/// shape's color is the given sequence, and `get_color` returns the
/// shape's color, so the value read equals the value set.
pub proof fn lemma_color_round_trip(s: Shape, c: Seq<u8>, read: Seq<u8>)
    requires
        c.len() == 4,
        s.color_spec() == c,
        read == s.color_spec(),
    ensures
        read == c,
{
}

} // verus!
