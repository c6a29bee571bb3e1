use graph_lib::Canvas;
use graph_lib::CanvasItem;
use graph_lib::Circle;
use graph_lib::GraphError;
use graph_lib::Html;
use graph_lib::Shape;
use graph_lib::Square;
use graph_lib::numeral::i32_dec;
use graph_lib::numeral::u64_dec;

fn unit_circle(r: u8, g: u8, b: u8) -> Shape {
    Shape::Circle(Circle::new(10, 10, vec![r, g, b, 255], vec![0, 0, 0, 0]).unwrap())
}

fn unit_square() -> Shape {
    Shape::Square(Square::new(20, 20, vec![0, 0, 0, 255], vec![1, 1, 1, 1]).unwrap())
}

#[test]
fn item_composition_translates_the_point() {
    // A circle of radius 0.5 (diameter 10 at this scale) placed at (10, 10),
    // that is (100, 100) in scaled units.
    let item = CanvasItem::new(unit_circle(255, 0, 0), 100, 100);
    assert!(item.contains_point(100, 100));
    assert!(!item.contains_point(0, 0));
}

#[test]
fn item_composition_far_points_are_outside() {
    let circle = CanvasItem::new(unit_circle(255, 0, 0), -2147483648, 0);
    assert!(!circle.contains_point(2147483647, 0));
    let square = CanvasItem::new(unit_square(), -2147483648, 0);
    assert!(!square.contains_point(2147483647, 0));
}

#[test]
fn empty_canvas_renders_empty_document() {
    let canvas = Html::new();
    assert_eq!(canvas.render_elements(), Ok(String::new()));
}

#[test]
fn render_exact_single_fragment() {
    let mut canvas = Html::new();
    let shape = Shape::Circle(Circle::new(10, 20, vec![255, 0, 0, 255], vec![1, 2, 3, 4]).unwrap());
    canvas.add_element(CanvasItem::new(shape, -7, 8));
    let doc = canvas.render_elements().unwrap();
    assert_eq!(
        doc.as_str(),
        "<circle x=\"-7\" y=\"8\" width=\"10\" height=\"20\" color=\"255,0,0,255\" border=\"1,2,3,4\"/>"
    );
}

#[test]
fn render_exact_square_fragment() {
    let mut canvas = Html::new();
    canvas.add_element(CanvasItem::new(unit_square(), 0, -30));
    let doc = canvas.render_elements().unwrap();
    assert_eq!(
        doc.as_str(),
        "<rect x=\"0\" y=\"-30\" width=\"20\" height=\"20\" color=\"0,0,0,255\" border=\"1,1,1,1\"/>"
    );
}

#[test]
fn render_is_idempotent() {
    let mut canvas = Html::new();
    canvas.add_element(CanvasItem::new(unit_circle(255, 0, 0), 1, 2));
    canvas.add_element(CanvasItem::new(unit_square(), 3, 4));
    let first = canvas.render_elements().unwrap();
    let second = canvas.render_elements().unwrap();
    assert_eq!(first, second);
    // And the canvas still holds its elements, untouched.
    assert_eq!(canvas.get_elements().len(), 2);
}

#[test]
fn render_preserves_insertion_order() {
    let mut canvas = Html::new();
    canvas.add_element(CanvasItem::new(unit_circle(255, 0, 0), 111, 0));
    canvas.add_element(CanvasItem::new(unit_square(), 222, 0));
    canvas.add_element(CanvasItem::new(unit_circle(0, 0, 255), 333, 0));
    let doc = canvas.render_elements().unwrap();
    let first = doc.find("x=\"111\"").unwrap();
    let second = doc.find("x=\"222\"").unwrap();
    let third = doc.find("x=\"333\"").unwrap();
    assert!(first < second);
    assert!(second < third);
}

#[test]
fn get_elements_reflects_additions_in_order() {
    let mut canvas = Html::new();
    assert!(canvas.get_elements().is_empty());
    // `add_element` hands back a reference, so a read can be chained.
    let count = canvas.add_element(CanvasItem::new(unit_circle(1, 2, 3), 5, 6)).get_elements().len();
    assert_eq!(count, 1);
    canvas.add_element(CanvasItem::new(unit_square(), 7, 8));
    let elements = canvas.get_elements();
    assert_eq!(elements.len(), 2);
    assert_eq!(elements[0].offset_x, 5);
    assert_eq!(elements[0].offset_y, 6);
    assert_eq!(elements[1].offset_x, 7);
    assert_eq!(elements[1].offset_y, 8);
}

#[test]
fn render_rejects_an_invalid_element() {
    // The fields are public, so a host can bypass the constructors; render
    // then refuses the corrupted scene instead of emitting bad markup.
    let bad = Circle { width: -1, height: 10, color: vec![255, 0, 0, 255], border: vec![0, 0, 0, 0] };
    let mut canvas = Html::new();
    canvas.add_element(CanvasItem::new(Shape::Circle(bad), 0, 0));
    assert_eq!(canvas.render_elements(), Err(GraphError::RenderError));
}

#[test]
fn numerals_render_exactly() {
    assert_eq!(u64_dec(0).as_str(), "0");
    assert_eq!(u64_dec(905).as_str(), "905");
    assert_eq!(i32_dec(-123).as_str(), "-123");
    assert_eq!(i32_dec(2147483647).as_str(), "2147483647");
    assert_eq!(i32_dec(-2147483648).as_str(), "-2147483648");
}
