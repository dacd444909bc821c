//! What a widget asks to have drawn.

use crate::text::views;
use vstd::prelude::*;

verus! {

/// A foreground colour.
#[derive(Debug, PartialEq, Eq, Clone, Copy)]
pub enum Color {
    LightGreen,
    Gray,
}

/// Where a line stands in its area.
#[derive(Debug, PartialEq, Eq, Clone, Copy)]
pub enum Alignment {
    Left,
    Center,
}

/// How text is drawn.
#[derive(Debug, PartialEq, Eq, Clone, Copy)]
pub struct Style {
    pub fg: Color,
    pub bold: bool,
}

/// One line of text; `bold` adds to the style of the paragraph it stands in.
#[derive(Debug, PartialEq, Eq, Clone)]
pub struct Line {
    pub text: String,
    pub bold: bool,
}

/// A line as plain values.
pub struct LineView {
    pub text: Seq<char>,
    pub bold: bool,
}

impl View for Line {
    type V = LineView;

    open spec fn view(&self) -> LineView {
        LineView { text: self.text@, bold: self.bold }
    }
}

/// The views of the lines that `lines` holds.
pub open spec fn line_views(lines: Seq<Line>) -> Seq<LineView> {
    Seq::new(lines.len(), |i: int| lines[i]@)
}

/// Lines of text in one style.
#[derive(Debug, PartialEq, Eq, Clone)]
pub struct Paragraph {
    pub lines: Vec<Line>,
    pub style: Style,
    pub alignment: Alignment,
}

/// A paragraph as plain values.
pub struct ParagraphView {
    pub lines: Seq<LineView>,
    pub style: Style,
    pub alignment: Alignment,
}

impl View for Paragraph {
    type V = ParagraphView;

    open spec fn view(&self) -> ParagraphView {
        ParagraphView {
            lines: line_views(self.lines@),
            style: self.style,
            alignment: self.alignment,
        }
    }
}

/// The scrollbar beside a list.
#[derive(Debug, PartialEq, Eq, Clone, Copy)]
pub struct Scrollbar {
    /// How many items the list has.
    pub total: usize,
    /// The first item in sight.
    pub position: usize,
    /// How many items are in sight at once.
    pub viewport: usize,
}

/// A framed list with a title.
#[derive(Debug, PartialEq, Eq, Clone)]
pub struct List {
    pub title: String,
    pub items: Vec<String>,
    pub style: Style,
    /// The first item in sight.
    pub offset: usize,
    /// The scrollbar, where the items do not all fit.
    pub scrollbar: Option<Scrollbar>,
}

/// A list as plain values.
pub struct ListView {
    pub title: Seq<char>,
    pub items: Seq<Seq<char>>,
    pub style: Style,
    pub offset: usize,
    pub scrollbar: Option<Scrollbar>,
}

impl View for List {
    type V = ListView;

    open spec fn view(&self) -> ListView {
        ListView {
            title: self.title@,
            items: views(self.items@),
            style: self.style,
            offset: self.offset,
            scrollbar: self.scrollbar,
        }
    }
}

/// The views of the string slices that `v` holds.
pub open spec fn str_views(v: Seq<&str>) -> Seq<Seq<char>> {
    Seq::new(v.len(), |i: int| v[i]@)
}

} // verus!
