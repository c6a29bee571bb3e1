//! Positioned shapes and the canvas that composes them.

use vstd::prelude::*;

use crate::error::GraphError;
use crate::shapes::Shape;
use crate::shapes::circle::lemma_far_point_outside_circle;
use crate::shapes::square::lemma_far_point_outside_square;

pub mod html;

verus! {

/// One shape placed on a canvas: the shape itself plus the offset of its
/// local origin within the canvas's coordinate space.
#[derive(Debug, PartialEq)]
pub struct CanvasItem {
    /// Horizontal offset of the shape's local origin.
    pub offset_x: i32,
    /// Vertical offset of the shape's local origin.
    pub offset_y: i32,
    /// The shape, owned exclusively by this item.
    pub shape: Shape,
}

impl CanvasItem {
    /// An item is well formed when its shape is.
    pub open spec fn wf(&self) -> bool {
        self.shape.wf()
    }

    /// Wraps a shape with the offset locating it on the canvas.
    pub fn new(shape: Shape, offset_x: i32, offset_y: i32) -> (r: CanvasItem)
        ensures
            r == (CanvasItem { offset_x, offset_y, shape }),
    {
        CanvasItem { offset_x, offset_y, shape }
    }

    /// Whether the canvas-space point `(x, y)` lies strictly inside this
    /// item's shape: the offset is subtracted and the shape's own
    /// containment test decides, exactly, with no wrap-around at the edges
    /// of the coordinate range.
    pub fn contains_point(&self, x: i32, y: i32) -> (r: bool)
        ensures
            r == self.shape.contains_spec(
                x as int - self.offset_x as int,
                y as int - self.offset_y as int,
            ),
    {
        let dx: i64 = (x as i64) - (self.offset_x as i64);
        let dy: i64 = (y as i64) - (self.offset_y as i64);
        if dx < -0x8000_0000i64 || 0x7fff_ffffi64 < dx || dy < -0x8000_0000i64 || 0x7fff_ffffi64
            < dy {
            proof {
                match &self.shape {
                    Shape::Circle(c) => lemma_far_point_outside_circle(
                        c.width as int,
                        c.height as int,
                        dx as int,
                        dy as int,
                    ),
                    Shape::Square(s) => lemma_far_point_outside_square(
                        s.width as int,
                        s.height as int,
                        dx as int,
                        dy as int,
                    ),
                }
            }
            false
        } else {
            self.shape.contains(dx as i32, dy as i32)
        }
    }
}

/// An ordered collection of positioned shapes, polymorphic over the output
/// backend.  Insertion order is paint order and exactly the order in which
/// the rendered document lists the items' fragments.
pub trait Canvas: Sized {
    /// The items on the canvas, in insertion order.
    spec fn elements(&self) -> Seq<CanvasItem>;

    /// The document this backend renders for a given item sequence.
    spec fn document_of(items: Seq<CanvasItem>) -> Seq<char>;

    /// Appends an item; the existing items and their order are untouched.
    /// Returns a reference to the canvas so that a read can be chained.
    fn add_element(&mut self, element: CanvasItem) -> (r: &Self)
        ensures
            final(self).elements() == old(self).elements().push(element),
            *r == *final(self),
    ;

    /// A read-only view of the items, in insertion order.
    fn get_elements(&self) -> (r: &Vec<CanvasItem>)
        ensures
            r@ == self.elements(),
    ;

    /// Renders the canvas: a pure read that emits one fragment per item,
    /// in insertion order.  It succeeds exactly when every item is well
    /// formed — always, for a canvas populated through the library's
    /// constructors — and fails defensively otherwise.
    fn render_elements(&self) -> (r: Result<String, GraphError>)
        ensures
            r is Ok <==> (forall|i: int|
                0 <= i < self.elements().len() ==> (#[trigger] self.elements()[i]).wf()),
            r is Ok ==> r->Ok_0@ == Self::document_of(self.elements()),
            r is Err ==> r->Err_0 == GraphError::RenderError,
    ;
}

} // verus!
