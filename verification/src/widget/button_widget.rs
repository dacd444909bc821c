//! A button with a label, kept as a widget of its own.

use crate::widget::button::button_paragraph;
use crate::widget::display::{Alignment, Color, Line, LineView, Paragraph, Style};
use vstd::prelude::*;

verus! {

/// A button: its label, and whether it is the one selected.
pub struct ButtonWidget<'a> {
    label: &'a str,
    is_selected: bool,
}

impl<'a> ButtonWidget<'a> {
    pub closed spec fn label(&self) -> Seq<char> {
        self.label@
    }

    pub closed spec fn is_selected(&self) -> bool {
        self.is_selected
    }

    pub fn new(label: &'a str, is_selected: bool) -> (button: Self)
        ensures
            button.label() == label@,
            button.is_selected() == is_selected,
    {
        Self { label, is_selected }
    }

    /// What the button draws: its label, centred, bold light green where it
    /// is selected and gray where it is not.
    pub fn render(&self) -> (p: Paragraph)
        ensures
            p@ == button_paragraph(self.label(), self.is_selected()),
    {
        let style = if self.is_selected {
            Style { fg: Color::LightGreen, bold: true }
        } else {
            Style { fg: Color::Gray, bold: false }
        };
        let mut lines: Vec<Line> = Vec::new();
        lines.push(Line { text: self.label.to_owned(), bold: false });
        let p = Paragraph { lines, style, alignment: Alignment::Center };
        assert(p@.lines =~= seq![LineView { text: self.label@, bold: false }]);
        p
    }
}

} // verus!
