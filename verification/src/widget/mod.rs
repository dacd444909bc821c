//! The widgets of the terminal interface, as plain values.
//!
//! A widget here decides what is drawn: which text, in which style, from
//! which line on. Putting it on a terminal is left to the caller.

pub mod button;
pub mod button_widget;
pub mod display;
pub mod header;
pub mod messages;
pub mod prompt;
pub mod users;

pub use button::Button;
pub use button_widget::ButtonWidget;
pub use header::Header;
pub use messages::Messages;
pub use prompt::Prompt;
pub use users::Users;
