//! A compiled, paged document as the exporters read it: pages of nested
//! frames whose leaves are runs of text or marks that carry no text.

use vstd::prelude::*;

verus! {

/// One item placed in a frame.
#[derive(Debug, PartialEq, Eq)]
pub enum FrameItem {
    /// A nested frame.
    Group(Frame),
    /// A run of shaped text.
    Text(String),
    /// A link target; carries no text.
    Link,
    /// An introspection tag; carries no text.
    Tag,
    /// A geometric shape; carries no text.
    Shape,
    /// An image; carries no text.
    Image,
}

/// A frame: its items in the order in which they were laid out.
#[derive(Debug, PartialEq, Eq)]
pub struct Frame {
    pub items: Vec<FrameItem>,
}

/// One page of a document.
#[derive(Debug, PartialEq, Eq)]
pub struct Page {
    pub frame: Frame,
}

/// A compiled document: its pages in order, and the title it declares.
#[derive(Debug, PartialEq, Eq)]
pub struct PagedDocument {
    pub pages: Vec<Page>,
    pub title: Option<String>,
}

/// The text of one item: a text run is its own text, a group is the text of
/// its frame, every other item is empty.
pub open spec fn item_text(item: FrameItem) -> Seq<char>
    decreases item, 0int,
{
    match item {
        FrameItem::Group(frame) => items_text(frame.items@),
        FrameItem::Text(text) => text@,
        _ => Seq::empty(),
    }
}

/// The text of a sequence of items: the texts of the items, one after the
/// other.
pub open spec fn items_text(items: Seq<FrameItem>) -> Seq<char>
    decreases items, 1int,
{
    if items.len() == 0 {
        Seq::empty()
    } else {
        items_text(items.drop_last()) + item_text(items.last())
    }
}

/// The text of a frame.
pub open spec fn frame_text(frame: Frame) -> Seq<char> {
    items_text(frame.items@)
}

/// The text of a sequence of pages: the texts of their frames, one after the
/// other.
pub open spec fn pages_text(pages: Seq<Page>) -> Seq<char>
    decreases pages.len(),
{
    if pages.len() == 0 {
        Seq::empty()
    } else {
        pages_text(pages.drop_last()) + frame_text(pages.last().frame)
    }
}

/// Appends the text of `frame` to `out`, item by item, descending into
/// groups.
fn push_frame_text(frame: &Frame, out: &mut String)
    ensures
        final(out)@ == old(out)@ + frame_text(*frame),
    decreases frame,
{
    let ghost before = out@;
    let mut i: usize = 0;
    while i < frame.items.len()
        invariant
            i <= frame.items.len(),
            out@ == before + items_text(frame.items@.take(i as int)),
        decreases frame.items.len() - i,
    {
        let ghost so_far = out@;
        match &frame.items[i] {
            FrameItem::Group(inner) => {
                push_frame_text(inner, out);
            },
            FrameItem::Text(text) => {
                out.append(text.as_str());
            },
            _ => {},
        }
        proof {
            let next = frame.items@.take(i + 1);
            assert(next.drop_last() == frame.items@.take(i as int));
            assert(next.last() == frame.items@[i as int]);
            assert(out@ == so_far + item_text(frame.items@[i as int]));
        }
        i += 1;
    }
    proof {
        assert(frame.items@.take(frame.items.len() as int) == frame.items@);
    }
}

impl PagedDocument {
    /// The full text of the document.
    pub open spec fn text(&self) -> Seq<char> {
        pages_text(self.pages@)
    }

    /// Whether the document declares a title.
    pub open spec fn has_title(&self) -> bool {
        self.title.is_some()
    }

    /// Whether the document declares a title.
    pub fn declares_title(&self) -> (r: bool)
        ensures
            r == self.has_title(),
    {
        self.title.is_some()
    }

    /// Extracts the full text: every text run of every page, in document
    /// order, with nothing between the runs.
    pub fn full_text(&self) -> (r: String)
        ensures
            r@ == self.text(),
    {
        let mut out = String::new();
        let mut i: usize = 0;
        while i < self.pages.len()
            invariant
                i <= self.pages.len(),
                out@ == pages_text(self.pages@.take(i as int)),
            decreases self.pages.len() - i,
        {
            push_frame_text(&self.pages[i].frame, &mut out);
            proof {
                let next = self.pages@.take(i + 1);
                assert(next.drop_last() == self.pages@.take(i as int));
                assert(next.last() == self.pages@[i as int]);
            }
            i += 1;
        }
        proof {
            assert(self.pages@.take(self.pages.len() as int) == self.pages@);
        }
        out
    }
}

} // verus!
