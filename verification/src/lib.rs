//! A minimal 2D vector-graphics scene model.
//!
//! Shapes (circles and squares) carry dimensions, a 4-channel color and a
//! 4-value border description.  Positioned shapes are collected on a canvas
//! in insertion order and rendered to a textual markup document, one
//! fragment per item.
//!
//! All coordinates, dimensions and border values are integers; a caller
//! that thinks in fractional units picks a fixed scale (the containment
//! predicates are invariant under uniform scaling).

pub mod canvas;
pub mod error;
pub mod numeral;
pub mod shapes;

pub use canvas::Canvas;
pub use canvas::CanvasItem;
pub use canvas::html::Html;
pub use error::ArgumentFault;
pub use error::GraphError;
pub use shapes::Circle;
pub use shapes::Shape;
pub use shapes::Square;
pub use shapes::Svg;
