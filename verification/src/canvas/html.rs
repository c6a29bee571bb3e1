//! The markup backend: renders a canvas to an HTML/SVG-like document.

use vstd::prelude::*;
use vstd::string::StringExecFns;

use crate::canvas::Canvas;
use crate::canvas::CanvasItem;
use crate::error::GraphError;
use crate::numeral::dec_seq;
use crate::numeral::i32_dec;
use crate::numeral::int_seq;
use crate::numeral::u64_dec;
use crate::shapes::Svg;

verus! {

/// Four color channels as decimal numerals separated by commas.
pub open spec fn quad_u8(s: Seq<u8>) -> Seq<char>
    recommends
        s.len() == 4,
{
    dec_seq(s[0] as int) + ","@ + dec_seq(s[1] as int) + ","@ + dec_seq(s[2] as int) + ","@
        + dec_seq(s[3] as int)
}

/// Four border values as decimal numerals separated by commas.
pub open spec fn quad_i32(s: Seq<i32>) -> Seq<char>
    recommends
        s.len() == 4,
{
    int_seq(s[0] as int) + ","@ + int_seq(s[1] as int) + ","@ + int_seq(s[2] as int) + ","@
        + int_seq(s[3] as int)
}

/// The markup fragment of one positioned shape: its tag, its absolute
/// position, its dimensions, its color and its border.
pub open spec fn html_fragment(item: CanvasItem) -> Seq<char>
    recommends
        item.wf(),
{
    "<"@ + item.shape.tag() + " x=\""@ + int_seq(item.offset_x as int) + "\" y=\""@ + int_seq(
        item.offset_y as int,
    ) + "\" width=\""@ + int_seq(item.shape.width_spec()) + "\" height=\""@ + int_seq(
        item.shape.height_spec(),
    ) + "\" color=\""@ + quad_u8(item.shape.color_spec()) + "\" border=\""@ + quad_i32(
        item.shape.border_spec(),
    ) + "\"/>"@
}

/// The whole document: the items' fragments concatenated in order.
pub open spec fn html_document(items: Seq<CanvasItem>) -> Seq<char>
    decreases items.len(),
{
    if items.len() == 0 {
        Seq::empty()
    } else {
        html_document(items.drop_last()) + html_fragment(items.last())
    }
}

/// Law: rendering distributes over concatenation of item sequences: the
/// items of the first part render first, contiguously and unchanged, then
/// the items of the second part.
#[verifier::rlimit(50)]
pub proof fn lemma_document_concat(a: Seq<CanvasItem>, b: Seq<CanvasItem>)
    ensures
        html_document(a + b) == html_document(a) + html_document(b),
    decreases b.len(),
{
    if b.len() == 0 {
        assert(a + b =~= a);
        assert(html_document(a) + html_document(b) =~= html_document(a));
    } else {
        lemma_document_concat(a, b.drop_last());
        assert((a + b).drop_last() =~= a + b.drop_last());
        assert((a + b).last() == b.last());
        assert(html_document(a) + (html_document(b.drop_last()) + html_fragment(b.last())) =~= (
        html_document(a) + html_document(b.drop_last())) + html_fragment(b.last()));
    }
}

/// Law: appending an item to a scene appends exactly that item's fragment
/// to the rendered document and leaves the earlier part of the document
/// unchanged; so the fragments of items added in some order appear in the
/// document in that same order.
pub proof fn lemma_document_append(items: Seq<CanvasItem>, item: CanvasItem)
    ensures
        html_document(items.push(item)) == html_document(items) + html_fragment(item),
{
    assert(items.push(item).drop_last() =~= items);
    assert(items.push(item).last() == item);
}

/// Law: the rendered document is a pure function of the element sequence,
/// so rendering the same unmodified canvas twice yields identical output.
pub proof fn lemma_render_deterministic(
    items: Seq<CanvasItem>,
    first: Seq<char>,
    second: Seq<char>,
)
    requires
        first == html_document(items),
        second == html_document(items),
    ensures
        first == second,
{
}

/// Renders one item's markup fragment, failing defensively when the item's
/// state violates the shape invariant.
fn render_fragment(item: &CanvasItem) -> (r: Result<String, GraphError>)
    ensures
        r is Ok <==> item.wf(),
        r is Ok ==> r->Ok_0@ == html_fragment(*item),
        r is Err ==> r->Err_0 == GraphError::RenderError,
{
    let (w, h) = item.shape.get_dimensions();
    if w < 0 || h < 0 {
        return Err(GraphError::RenderError);
    }
    let color = item.shape.get_color();
    if color.len() != 4 {
        return Err(GraphError::RenderError);
    }
    let border = item.shape.get_border();
    if border.len() != 4 {
        return Err(GraphError::RenderError);
    }
    let mut s = String::from_str("<");
    let tag = item.shape.get_tag();
    s.append(tag.as_str());
    s.append(" x=\"");
    let sx = i32_dec(item.offset_x);
    s.append(sx.as_str());
    s.append("\" y=\"");
    let sy = i32_dec(item.offset_y);
    s.append(sy.as_str());
    s.append("\" width=\"");
    let sw = i32_dec(w);
    s.append(sw.as_str());
    s.append("\" height=\"");
    let sh = i32_dec(h);
    s.append(sh.as_str());
    s.append("\" color=\"");
    let c0 = u64_dec(color[0] as u64);
    s.append(c0.as_str());
    s.append(",");
    let c1 = u64_dec(color[1] as u64);
    s.append(c1.as_str());
    s.append(",");
    let c2 = u64_dec(color[2] as u64);
    s.append(c2.as_str());
    s.append(",");
    let c3 = u64_dec(color[3] as u64);
    s.append(c3.as_str());
    s.append("\" border=\"");
    let b0 = i32_dec(border[0]);
    s.append(b0.as_str());
    s.append(",");
    let b1 = i32_dec(border[1]);
    s.append(b1.as_str());
    s.append(",");
    let b2 = i32_dec(border[2]);
    s.append(b2.as_str());
    s.append(",");
    let b3 = i32_dec(border[3]);
    s.append(b3.as_str());
    s.append("\"/>");
    proof {
        assert(s@ =~= html_fragment(*item));
    }
    Ok(s)
}

/// The markup canvas: owns the positioned shapes in insertion order and
/// renders them to a textual document.
#[derive(Debug)]
pub struct Html {
    /// The items, in insertion order, which is exactly render order.
    pub elements: Vec<CanvasItem>,
}

impl Html {
    /// An empty canvas.
    pub fn new() -> (r: Html)
        ensures
            r.elements@ == Seq::<CanvasItem>::empty(),
    {
        Html { elements: Vec::new() }
    }
}

impl Canvas for Html {
    open spec fn elements(&self) -> Seq<CanvasItem> {
        self.elements@
    }

    open spec fn document_of(items: Seq<CanvasItem>) -> Seq<char> {
        html_document(items)
    }

    fn add_element(&mut self, element: CanvasItem) -> (r: &Self) {
        self.elements.push(element);
        self
    }

    fn get_elements(&self) -> (r: &Vec<CanvasItem>) {
        &self.elements
    }

    fn render_elements(&self) -> (r: Result<String, GraphError>) {
        let mut doc = String::new();
        let mut i: usize = 0;
        let n = self.elements.len();
        while i < n
            invariant
                n == self.elements.len(),
                i <= n,
                doc@ == html_document(self.elements@.take(i as int)),
                forall|j: int| 0 <= j < i ==> (#[trigger] self.elements@[j]).wf(),
            decreases n - i,
        {
            match render_fragment(&self.elements[i]) {
                Ok(f) => {
                    doc.append(f.as_str());
                },
                Err(e) => {
                    proof {
                        assert((i as int) < self.elements().len());
                        assert(!(self.elements()[i as int]).wf());
                    }
                    return Err(e);
                },
            }
            proof {
                assert(self.elements@.take(i as int + 1).drop_last() =~= self.elements@.take(
                    i as int,
                ));
                assert(self.elements@.take(i as int + 1).last() == self.elements@[i as int]);
            }
            i = i + 1;
        }
        proof {
            assert(self.elements@.take(n as int) =~= self.elements@);
        }
        Ok(doc)
    }
}

} // verus!
