//! A button with a label.

use crate::widget::display::{Alignment, Color, Line, LineView, Paragraph, ParagraphView, Style};
use vstd::prelude::*;

verus! {

/// A button: its label, and whether it is the one selected.
pub struct Button<'a> {
    label: &'a str,
    is_selected: bool,
}

/// The style of a button: bold light green where it is selected, gray where
/// it is not.
pub open spec fn button_style(is_selected: bool) -> Style {
    if is_selected {
        Style { fg: Color::LightGreen, bold: true }
    } else {
        Style { fg: Color::Gray, bold: false }
    }
}

/// What a button draws: its label, centred, in the button's style.
pub open spec fn button_paragraph(label: Seq<char>, is_selected: bool) -> ParagraphView {
    ParagraphView {
        lines: seq![LineView { text: label, bold: false }],
        style: button_style(is_selected),
        alignment: Alignment::Center,
    }
}

impl<'a> Button<'a> {
    pub closed spec fn label(&self) -> Seq<char> {
        self.label@
    }

    pub closed spec fn is_selected(&self) -> bool {
        self.is_selected
    }

    pub fn new(label: &'a str, is_selected: bool) -> (button: Self)
        ensures
            button.label() == label@,
            button.is_selected() == is_selected,
    {
        Self { label, is_selected }
    }

    /// What the button draws.
    pub fn render(&self) -> (p: Paragraph)
        ensures
            p@ == button_paragraph(self.label(), self.is_selected()),
    {
        let style = if self.is_selected {
            Style { fg: Color::LightGreen, bold: true }
        } else {
            Style { fg: Color::Gray, bold: false }
        };
        let mut lines: Vec<Line> = Vec::new();
        lines.push(Line { text: self.label.to_owned(), bold: false });
        let p = Paragraph { lines, style, alignment: Alignment::Center };
        assert(p@.lines =~= seq![LineView { text: self.label@, bold: false }]);
        p
    }
}

} // verus!
