use graph_lib::ArgumentFault;
use graph_lib::Circle;
use graph_lib::GraphError;
use graph_lib::Shape;
use graph_lib::Square;
use graph_lib::Svg;

// One coordinate unit in these tests stands for a tenth of a scene unit:
// the containment predicates are invariant under uniform scaling, so a
// circle of diameter 1.0 becomes one of diameter 10.

#[test]
fn circle_color_round_trip() {
    let mut c = Circle::new(10, 10, vec![255, 0, 0, 255], vec![0, 0, 0, 0]).unwrap();
    assert_eq!(c.get_color(), vec![255, 0, 0, 255]);
    c.set_color(vec![0, 255, 0, 128]).unwrap();
    assert_eq!(c.get_color(), vec![0, 255, 0, 128]);
}

#[test]
fn square_color_round_trip() {
    let mut s = Square::new(20, 20, vec![0, 0, 0, 255], vec![0, 0, 0, 0]).unwrap();
    s.set_color(vec![9, 8, 7, 6]).unwrap();
    assert_eq!(s.get_color(), vec![9, 8, 7, 6]);
}

#[test]
fn set_color_wrong_length_rejected() {
    let mut c = Circle::new(10, 10, vec![255, 0, 0, 255], vec![0, 0, 0, 0]).unwrap();
    let r = c.set_color(vec![1, 2, 3]);
    assert_eq!(
        r,
        Err(GraphError::InvalidArgument(ArgumentFault::Length { expected: 4, actual: 3 }))
    );
    assert_eq!(c.get_color(), vec![255, 0, 0, 255]);
}

#[test]
fn set_border_wrong_length_rejected() {
    let mut s = Square::new(20, 20, vec![0, 0, 0, 255], vec![1, 1, 1, 1]).unwrap();
    let r = s.set_border(vec![5, 5, 5, 5, 5]);
    assert_eq!(
        r,
        Err(GraphError::InvalidArgument(ArgumentFault::Length { expected: 4, actual: 5 }))
    );
    assert_eq!(s.get_border(), vec![1, 1, 1, 1]);
}

#[test]
fn constructor_wrong_length_rejected() {
    let c = Circle::new(10, 10, vec![255, 0, 0], vec![0, 0, 0, 0]);
    assert_eq!(
        c,
        Err(GraphError::InvalidArgument(ArgumentFault::Length { expected: 4, actual: 3 }))
    );
    let s = Square::new(20, 20, vec![0, 0, 0, 255], vec![0, 0, 0, 0, 0]);
    assert_eq!(
        s,
        Err(GraphError::InvalidArgument(ArgumentFault::Length { expected: 4, actual: 5 }))
    );
}

#[test]
fn constructor_negative_dimension_rejected() {
    let c = Circle::new(-10, 10, vec![255, 0, 0, 255], vec![0, 0, 0, 0]);
    assert_eq!(c, Err(GraphError::InvalidArgument(ArgumentFault::NegativeDimension)));
    let s = Square::new(20, -20, vec![0, 0, 0, 255], vec![0, 0, 0, 0]);
    assert_eq!(s, Err(GraphError::InvalidArgument(ArgumentFault::NegativeDimension)));
}

#[test]
fn set_dimensions_is_atomic() {
    let mut c = Circle::new(10, 20, vec![255, 0, 0, 255], vec![0, 0, 0, 0]).unwrap();
    let r = c.set_dimensions(30, -1);
    assert_eq!(r, Err(GraphError::InvalidArgument(ArgumentFault::NegativeDimension)));
    assert_eq!(c.get_dimensions(), (10, 20));
    c.set_dimensions(30, 40).unwrap();
    assert_eq!(c.get_dimensions(), (30, 40));
}

#[test]
fn circle_containment() {
    // A unit circle (diameter 1.0, here 10) centered at the origin.
    let c = Circle::new(10, 10, vec![255, 0, 0, 255], vec![0, 0, 0, 0]).unwrap();
    assert!(c.contains(0, 0));
    assert!(!c.contains(5, 5));
    assert!(c.contains(4, 0));
    // Exactly on the outline: excluded.
    assert!(!c.contains(5, 0));
}

#[test]
fn square_containment() {
    // A 2.0 by 2.0 square, here 20 by 20.
    let s = Square::new(20, 20, vec![0, 0, 0, 255], vec![0, 0, 0, 0]).unwrap();
    assert!(s.contains(9, 9));
    // Exactly on the boundary: excluded.
    assert!(!s.contains(10, 0));
}

#[test]
fn degenerate_shapes_contain_nothing() {
    let c = Circle::new(0, 10, vec![255, 0, 0, 255], vec![0, 0, 0, 0]).unwrap();
    assert!(!c.contains(0, 0));
    let s = Square::new(0, 0, vec![0, 0, 0, 255], vec![0, 0, 0, 0]).unwrap();
    assert!(!s.contains(0, 0));
}

#[test]
fn tags_name_the_markup_elements() {
    let c = Circle::new(10, 10, vec![255, 0, 0, 255], vec![0, 0, 0, 0]).unwrap();
    assert_eq!(c.get_tag(), "circle");
    let s = Square::new(20, 20, vec![0, 0, 0, 255], vec![0, 0, 0, 0]).unwrap();
    assert_eq!(s.get_tag(), "rect");
}

#[test]
fn shape_enum_delegates() {
    let c = Circle::new(10, 10, vec![255, 0, 0, 255], vec![0, 0, 0, 0]).unwrap();
    let mut shape = Shape::Circle(c);
    assert_eq!(shape.get_dimensions(), (10, 10));
    assert_eq!(shape.get_tag(), "circle");
    assert!(shape.contains(0, 0));
    assert!(!shape.contains(5, 5));
    shape.set_color(vec![1, 2, 3, 4]).unwrap();
    assert_eq!(shape.get_color(), vec![1, 2, 3, 4]);
    let r = shape.set_border(vec![1]);
    assert_eq!(
        r,
        Err(GraphError::InvalidArgument(ArgumentFault::Length { expected: 4, actual: 1 }))
    );
    assert_eq!(shape.get_border(), vec![0, 0, 0, 0]);
}
