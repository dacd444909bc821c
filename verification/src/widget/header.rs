//! A title with a line below it.

use crate::widget::display::{Alignment, Color, Line, LineView, Paragraph, ParagraphView, Style};
use vstd::prelude::*;

verus! {

/// A header: a title and a subtitle.
pub struct Header<'a> {
    title: &'a str,
    subtitle: &'a str,
}

/// What a header draws: the title in bold and the subtitle below it, both
/// centred and light green.
pub open spec fn header_paragraph(title: Seq<char>, subtitle: Seq<char>) -> ParagraphView {
    ParagraphView {
        lines: seq![
            LineView { text: title, bold: true },
            LineView { text: subtitle, bold: false },
        ],
        style: Style { fg: Color::LightGreen, bold: false },
        alignment: Alignment::Center,
    }
}

impl<'a> Header<'a> {
    pub closed spec fn title(&self) -> Seq<char> {
        self.title@
    }

    pub closed spec fn subtitle(&self) -> Seq<char> {
        self.subtitle@
    }

    pub fn new(title: &'a str, subtitle: &'a str) -> (header: Self)
        ensures
            header.title() == title@,
            header.subtitle() == subtitle@,
    {
        Self { title, subtitle }
    }

    /// What the header draws.
    pub fn render(&self) -> (p: Paragraph)
        ensures
            p@ == header_paragraph(self.title(), self.subtitle()),
    {
        let mut lines: Vec<Line> = Vec::new();
        lines.push(Line { text: self.title.to_owned(), bold: true });
        lines.push(Line { text: self.subtitle.to_owned(), bold: false });
        let p = Paragraph {
            lines,
            style: Style { fg: Color::LightGreen, bold: false },
            alignment: Alignment::Center,
        };
        assert(p@.lines =~= header_paragraph(self.title@, self.subtitle@).lines);
        p
    }
}

} // verus!
