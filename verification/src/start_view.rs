//! The start screen: a title and the choice between starting and leaving.

use crate::widget::display::{Color, Style};
use crate::widget::header::Header;
use vstd::prelude::*;

verus! {

/// The two choices of the start screen.
#[derive(Clone, Copy, Debug, PartialEq, Eq)]
pub enum StartSelection {
    Start,
    Exit,
}

impl StartSelection {
    /// The other choice.
    pub open spec fn other(self) -> StartSelection {
        match self {
            StartSelection::Start => StartSelection::Exit,
            StartSelection::Exit => StartSelection::Start,
        }
    }

    /// The other choice.
    pub fn toggled(self) -> (r: StartSelection)
        ensures
            r == self.other(),
    {
        match self {
            StartSelection::Start => StartSelection::Exit,
            StartSelection::Exit => StartSelection::Start,
        }
    }
}

/// What the start screen shows.
pub struct Model {
    pub selection: StartSelection,
}

/// What the start screen draws.
pub struct StartView {
    /// The style of the `Start` option and of its frame.
    pub start_style: Style,
    /// The style of the `Exit` option and of its frame.
    pub exit_style: Style,
}

/// The style of an option: light green, bold where it is the one selected.
pub open spec fn option_style(selected: bool) -> Style {
    Style { fg: Color::LightGreen, bold: selected }
}

/// What the start screen draws: the selected option in bold, the other not.
pub open spec fn view_spec(selection: StartSelection) -> StartView {
    StartView {
        start_style: option_style(selection == StartSelection::Start),
        exit_style: option_style(selection == StartSelection::Exit),
    }
}

/// The title of the program and the line below it.
pub fn header() -> (h: Header<'static>)
    ensures
        h.title() == "irkki"@,
        h.subtitle() == "A IRC client"@,
{
    Header::new("irkki", "A IRC client")
}

/// What the start screen draws for `model`.
pub fn view(model: &Model) -> (v: StartView)
    ensures
        v == view_spec(model.selection),
{
    match model.selection {
        StartSelection::Start => StartView {
            start_style: Style { fg: Color::LightGreen, bold: true },
            exit_style: Style { fg: Color::LightGreen, bold: false },
        },
        StartSelection::Exit => StartView {
            start_style: Style { fg: Color::LightGreen, bold: false },
            exit_style: Style { fg: Color::LightGreen, bold: true },
        },
    }
}

} // verus!
