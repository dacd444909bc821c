//! The chat screen: the messages, the users and the input line.

use crate::text::views;
use crate::widget::display::{
    str_views, Alignment, Color, Line, LineView, Paragraph, ParagraphView, Style,
};
use crate::widget::messages::Messages;
use crate::widget::users::Users;
use vstd::prelude::*;

verus! {

/// What the chat screen shows.
pub struct Model {
    pub input: String,
    pub character_index: usize,
    pub messages: Vec<String>,
    pub users: Vec<String>,
}

/// What the chat screen draws besides its two lists.
pub struct ChatView {
    /// The input line, for a frame titled `Input`.
    pub input: Paragraph,
    /// The column of the cursor.
    pub cursor_column: u16,
    /// The row of the cursor, counted from the top of the input's frame.
    pub cursor_row: u16,
}

/// The input line: a mark, a space and what was typed, light green.
pub open spec fn input_paragraph(input: Seq<char>) -> ParagraphView {
    ParagraphView {
        lines: seq![LineView { text: "> "@ + input, bold: false }],
        style: Style { fg: Color::LightGreen, bold: false },
        alignment: Alignment::Left,
    }
}

/// The column of the cursor: behind the frame, the mark and the space, at
/// the character that the index names. A column too large for 16 bits wraps
/// round.
pub open spec fn cursor_column(character_index: usize) -> u16 {
    ((character_index + 3) % 0x10000) as u16
}

/// The string slices of `v`, in order.
pub fn as_strs<'a>(v: &'a Vec<String>) -> (r: Vec<&'a str>)
    ensures
        str_views(r@) == views(v@),
{
    let mut out: Vec<&'a str> = Vec::new();
    let n = v.len();
    let mut i: usize = 0;
    while i < n
        invariant
            n == v@.len(),
            i <= n,
            out@.len() == i,
            forall|k: int| 0 <= k < i ==> out@[k]@ == v@[k]@,
        decreases n - i,
    {
        out.push(v[i].as_str());
        i += 1;
    }
    assert(str_views(out@) =~= views(v@));
    out
}

/// The list of the messages of `model`.
pub fn messages<'a>(model: &'a Model) -> (widget: Messages<'a>)
    ensures
        str_views(widget.messages@) == views(model.messages@),
{
    Messages::new(as_strs(&model.messages))
}

/// The list of the users of `model`.
pub fn users<'a>(model: &'a Model) -> (widget: Users<'a>)
    ensures
        str_views(widget.users@) == views(model.users@),
{
    Users::new(as_strs(&model.users))
}

/// What the chat screen draws for `model`, besides its two lists.
pub fn view(model: &Model) -> (v: ChatView)
    ensures
        v.input@ == input_paragraph(model.input@),
        v.cursor_column == cursor_column(model.character_index),
        v.cursor_row == 1,
{
    let mut text = "> ".to_owned();
    text.append(model.input.as_str());
    let mut lines: Vec<Line> = Vec::new();
    lines.push(Line { text, bold: false });
    let input = Paragraph {
        lines,
        style: Style { fg: Color::LightGreen, bold: false },
        alignment: Alignment::Left,
    };
    assert(input@.lines =~= input_paragraph(model.input@).lines);
    let column: usize = (model.character_index % 0x10000 + 3) % 0x10000;
    ChatView { input, cursor_column: column as u16, cursor_row: 1 }
}

} // verus!
