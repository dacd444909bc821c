//! The setup screen: one question at a time.

use crate::widget::header::Header;
use crate::widget::prompt::Prompt;
use vstd::prelude::*;
use vstd::utf8::encode_utf8;

verus! {

/// What the setup screen shows.
pub struct Model {
    pub prompt: String,
    pub input: String,
    pub character_index: usize,
}

/// What the setup screen draws besides its header and its prompt.
pub struct WizardView {
    /// The column of the cursor.
    pub cursor_column: u16,
}

/// The column of the cursor: behind the frame, the question, which counts
/// by its bytes, and the space, at the character that the index names. A
/// column too large for 16 bits wraps round.
pub open spec fn cursor_column(prompt_bytes: usize, character_index: usize) -> u16 {
    ((prompt_bytes + character_index + 2) % 0x10000) as u16
}

/// The header of the setup screen.
pub fn header() -> (h: Header<'static>)
    ensures
        h.title() == "Setup"@,
        h.subtitle() == ""@,
{
    Header::new("Setup", "")
}

/// The prompt of `model`.
pub fn prompt<'a>(model: &'a Model) -> (p: Prompt<'a>)
    ensures
        p.message@ == model.prompt@,
        p.input@ == model.input@,
{
    Prompt::new(model.prompt.as_str(), model.input.as_str())
}

/// What the setup screen draws for `model`, besides its header and prompt.
pub fn view(model: &Model) -> (v: WizardView)
    ensures
        v.cursor_column == cursor_column(
            encode_utf8(model.prompt@).len() as usize,
            model.character_index,
        ),
{
    let bytes: usize = model.prompt.as_str().len();
    let column: usize = (bytes % 0x10000 + model.character_index % 0x10000 + 2) % 0x10000;
    WizardView { cursor_column: column as u16 }
}

} // verus!
