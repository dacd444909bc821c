//! A question with the answer typed so far.

use crate::widget::display::{Alignment, Color, Line, LineView, Paragraph, ParagraphView, Style};
use vstd::prelude::*;

verus! {

/// A prompt: the question and what was typed.
pub struct Prompt<'a> {
    pub message: &'a str,
    pub input: &'a str,
}

/// What a prompt draws: the question, a space and the input on one line,
/// light green, from the left.
pub open spec fn prompt_paragraph(message: Seq<char>, input: Seq<char>) -> ParagraphView {
    ParagraphView {
        lines: seq![LineView { text: message + " "@ + input, bold: false }],
        style: Style { fg: Color::LightGreen, bold: false },
        alignment: Alignment::Left,
    }
}

impl<'a> Prompt<'a> {
    pub fn new(message: &'a str, input: &'a str) -> (prompt: Self)
        ensures
            prompt.message@ == message@,
            prompt.input@ == input@,
    {
        Self { message, input }
    }

    /// What the prompt draws.
    pub fn render(&self) -> (p: Paragraph)
        ensures
            p@ == prompt_paragraph(self.message@, self.input@),
    {
        let mut text = self.message.to_owned();
        text.append(" ");
        text.append(self.input);
        let mut lines: Vec<Line> = Vec::new();
        lines.push(Line { text, bold: false });
        let p = Paragraph {
            lines,
            style: Style { fg: Color::LightGreen, bold: false },
            alignment: Alignment::Left,
        };
        assert(p@.lines =~= prompt_paragraph(self.message@, self.input@).lines);
        p
    }
}

} // verus!
