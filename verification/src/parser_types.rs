//! The document model the markup parser produces: styled elements gathered
//! into a flat document.

use vstd::prelude::*;

verus! {

/// A CSS-like length in one of the units the markup uses.
#[derive(Debug, Clone, Copy, PartialEq, Eq)]
pub struct Unit {
    pub pixels: i32,
    pub percentage: i32,
    pub inches: i32,
}

/// A font family by name.
#[derive(Debug, Clone, PartialEq, Eq)]
pub struct FontFamily {
    pub font_family: String,
}

/// An RGB colour.
#[derive(Debug, Clone, Copy, PartialEq, Eq)]
pub struct Color {
    pub red: u8,
    pub green: u8,
    pub blue: u8,
}

/// The style block a markup element may carry.
#[derive(Debug, Clone, PartialEq, Eq)]
pub struct Style {
    pub margin_top: Unit,
    pub margin_bottom: Unit,
    pub margin_left: Unit,
    pub margin_right: Unit,
    pub qt_block_indent: i32,
    pub text_indent: Unit,
    pub font_family: FontFamily,
    pub color: Color,
}

/// One markup element: a text run, a styled container, or a reference to
/// something outside the document.
#[derive(Debug)]
pub enum Element {
    Text { text: String },
    Span { style: Option<Style>, elements: Vec<Element> },
    Paragraph { style: Option<Style>, elements: Vec<Element> },
    Preformatted { style: Option<Style>, elements: Vec<Element> },
    Bold { style: Option<Style>, elements: Vec<Element> },
    Italic { style: Option<Style>, elements: Vec<Element> },
    Underline { style: Option<Style>, elements: Vec<Element> },
    Image { source: String },
    Reference { location: String },
}

/// A parsed document: its elements in order.
#[derive(Debug)]
pub struct Document {
    pub elements: Vec<Element>,
}

impl Document {
    /// An empty document.
    pub fn new() -> (r: Document)
        ensures
            r.elements@ == Seq::<Element>::empty(),
    {
        Document { elements: Vec::new() }
    }

    /// Append one element.
    pub fn push(&mut self, element: Element)
        ensures
            final(self).elements@ == old(self).elements@.push(element),
    {
        self.elements.push(element);
    }
}

} // verus!
