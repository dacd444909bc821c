//! A client for Internet Relay Chat, verified.
//!
//! The [`lexer`] cuts a protocol line into tokens and the [`parser`] reads a
//! message from them; [`wire`] says what a well-formed line is and proves that
//! parsing gives its parts back. [`irc_client`] holds the connection engine as
//! a state machine without a socket: the read loop's reaction to each line and
//! the commands that the user's input turns into; [`session`] follows it over
//! several lines. [`app`], the views and the [`widget`]s hold the state of the
//! terminal interface and what it draws, as plain values.

pub mod app;
pub mod chat_view;
pub mod irc_client;
pub mod lexer;
pub mod number;
pub mod parser;
pub mod session;
pub mod start_view;
pub mod text;
pub mod widget;
pub mod wire;
pub mod wizard_view;

pub use app::{App, Command, CurrentScreen, Key, WizardStep};
pub use irc_client::{
    Action, ClientError, ConnectionState, IRCClient, IRCEvent, Listener, ReadOutcome,
};
pub use lexer::{Lexer, Token, TokenType};
pub use parser::{Message, ParseError, Parser};
pub use start_view::StartSelection;
