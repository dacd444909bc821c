//! The connection engine, without the connection.
//!
//! The engine decides; its caller owns the byte stream. Every function here
//! takes what was read or what the user typed and returns the lines to write
//! and the events to hand on. Each line to write is returned ready for the
//! wire, with its line terminator; the caller writes it whole and flushes.

use crate::parser::{parse_line, Message, MessageView, ParseError, Parser};
use crate::text::{
    clone_strings, join, join_spec, split_whitespace, split_whitespace_spec, starts_with, str_eq,
    strip_repeated_prefix, trim, trim_spec, trim_start_matches, views,
};
use vstd::prelude::*;

verus! {

/// What the engine hands to its consumer.
#[derive(PartialEq, Eq, Clone)]
pub enum IRCEvent {
    /// A message that the engine does not handle itself.
    Message(Message),
    /// The nicknames of one names reply.
    Users(Vec<String>),
    /// The lines of the message of the day.
    MessageOfTheDay(Vec<String>),
    /// A text that the engine made up: a notice or an error.
    Raw(String),
}

/// An event as plain sequences of characters.
pub enum IRCEventView {
    Message(MessageView),
    Users(Seq<Seq<char>>),
    MessageOfTheDay(Seq<Seq<char>>),
    Raw(Seq<char>),
}

impl View for IRCEvent {
    type V = IRCEventView;

    open spec fn view(&self) -> IRCEventView {
        match self {
            IRCEvent::Message(m) => IRCEventView::Message(m@),
            IRCEvent::Users(u) => IRCEventView::Users(views(u@)),
            IRCEvent::MessageOfTheDay(l) => IRCEventView::MessageOfTheDay(views(l@)),
            IRCEvent::Raw(s) => IRCEventView::Raw(s@),
        }
    }
}

impl IRCEventView {
    /// The event in one line of text, for logs.
    pub open spec fn debug_text(self) -> Seq<char> {
        match self {
            IRCEventView::Message(m) => "IRCEvent::Message(cmd: "@ + m.command + ")"@,
            IRCEventView::Raw(s) => "IRCEvent::Raw("@ + s + ")"@,
            IRCEventView::Users(u) => "IRCEvent::Users("@ + join_spec(u, ", "@) + ")"@,
            IRCEventView::MessageOfTheDay(l) => "IRCEvent::MessageOfTheDay("@ + join_spec(
                l,
                "\n"@,
            ) + ")"@,
        }
    }
}

impl IRCEvent {
    /// The event in one line of text, for logs.
    pub fn to_debug_string(&self) -> (text: String)
        ensures
            text@ == self@.debug_text(),
    {
        match self {
            IRCEvent::Message(m) => {
                let mut text = "IRCEvent::Message(cmd: ".to_owned();
                text.append(m.command.as_str());
                text.append(")");
                text
            },
            IRCEvent::Raw(s) => {
                let mut text = "IRCEvent::Raw(".to_owned();
                text.append(s.as_str());
                text.append(")");
                text
            },
            IRCEvent::Users(users) => {
                let mut text = "IRCEvent::Users(".to_owned();
                text.append(join(users, ", ").as_str());
                text.append(")");
                text
            },
            IRCEvent::MessageOfTheDay(lines) => {
                let mut text = "IRCEvent::MessageOfTheDay(".to_owned();
                text.append(join(lines, "\n").as_str());
                text.append(")");
                text
            },
        }
    }
}

/// What the caller is to do after the engine has seen a line.
#[derive(PartialEq, Eq, Clone)]
pub enum Action {
    /// Write this line, which ends with its terminator, and flush.
    Send(String),
    /// Hand this event to the consumer.
    Emit(IRCEvent),
    /// Nothing: go on reading.
    Nothing,
    /// Stop reading: the connection is closed.
    Stop,
}

/// An action as plain sequences of characters.
pub enum ActionView {
    Send(Seq<char>),
    Emit(IRCEventView),
    Nothing,
    Stop,
}

impl View for Action {
    type V = ActionView;

    open spec fn view(&self) -> ActionView {
        match self {
            Action::Send(line) => ActionView::Send(line@),
            Action::Emit(event) => ActionView::Emit(event@),
            Action::Nothing => ActionView::Nothing,
            Action::Stop => ActionView::Stop,
        }
    }
}

/// `line` as it goes over the wire: with the line terminator behind it.
pub open spec fn framed(line: Seq<char>) -> Seq<char> {
    line + "\r\n"@
}

/// `line` as it goes over the wire: with the line terminator behind it.
pub fn frame_line(line: &str) -> (wire: String)
    ensures
        wire@ == framed(line@),
{
    let mut wire = line.to_owned();
    wire.append("\r\n");
    wire
}

/// The text that tells the consumer of a line that is no message.
pub open spec fn diagnostic_text(error: ParseError) -> Seq<char> {
    match error {
        ParseError::MalformedPrefix => "Ignored a line with a malformed prefix."@,
        ParseError::MalformedCommand => "Ignored a line with a malformed command."@,
        ParseError::MalformedParameters => "Ignored a line with malformed parameters."@,
    }
}

/// The second parameter, which in a nickname error names the nickname; the
/// empty text where there is none.
pub open spec fn rejected_nickname(params: Seq<Seq<char>>) -> Seq<char> {
    if params.len() > 1 {
        params[1]
    } else {
        Seq::empty()
    }
}

/// What reading one line leaves behind: the lines of the message of the day
/// gathered so far, and the action to take.
pub struct Reaction {
    pub motd: Seq<Seq<char>>,
    pub action: ActionView,
}

/// How the engine reacts to a message, given the lines of the message of the
/// day gathered so far.
///
/// A `PING` is answered with a `PONG` that carries its parameters. A names
/// reply (`353`) gives the nicknames of its last parameter. `375` starts the
/// message of the day afresh, `372` adds its last parameter to it, `376` hands
/// it out. The end of a names list (`366`) is passed over. The nickname errors
/// `431`, `432`, `433` and `436` become a text for the user. Every other
/// message is handed on as it is.
pub open spec fn react_to_message(motd: Seq<Seq<char>>, m: MessageView) -> Reaction {
    let c = m.command;
    if c == "PING"@ {
        Reaction {
            motd,
            action: ActionView::Send(framed("PONG :"@ + join_spec(m.params, " "@))),
        }
    } else if c == "353"@ {
        Reaction {
            motd,
            action: if m.params.len() > 0 {
                ActionView::Emit(IRCEventView::Users(split_whitespace_spec(m.params.last())))
            } else {
                ActionView::Nothing
            },
        }
    } else if c == "366"@ {
        Reaction { motd, action: ActionView::Nothing }
    } else if c == "372"@ {
        Reaction {
            motd: if m.params.len() > 0 {
                motd.push(m.params.last())
            } else {
                motd
            },
            action: ActionView::Nothing,
        }
    } else if c == "375"@ {
        Reaction { motd: Seq::empty(), action: ActionView::Nothing }
    } else if c == "376"@ {
        Reaction { motd, action: ActionView::Emit(IRCEventView::MessageOfTheDay(motd)) }
    } else if c == "432"@ {
        Reaction {
            motd,
            action: ActionView::Emit(
                IRCEventView::Raw(
                    "The nickname '"@ + rejected_nickname(m.params) + "' is invalid!"@,
                ),
            ),
        }
    } else if c == "431"@ {
        Reaction {
            motd,
            action: ActionView::Emit(
                IRCEventView::Raw("No nickname given! Please provide a nickname."@),
            ),
        }
    } else if c == "433"@ {
        Reaction {
            motd,
            action: ActionView::Emit(
                IRCEventView::Raw(
                    "The nickname '"@ + rejected_nickname(m.params) + "' is already in use!"@,
                ),
            ),
        }
    } else if c == "436"@ {
        Reaction {
            motd,
            action: ActionView::Emit(
                IRCEventView::Raw(
                    "The nickname '"@ + rejected_nickname(m.params)
                        + "' is already in use (collision)!"@,
                ),
            ),
        }
    } else {
        Reaction { motd, action: ActionView::Emit(IRCEventView::Message(m)) }
    }
}

/// How the engine reacts to one line that was read. A line that is no
/// message becomes a text for the consumer, and reading goes on.
pub open spec fn react_to_line(motd: Seq<Seq<char>>, line: Seq<char>) -> Reaction {
    match parse_line(line) {
        Ok(m) => react_to_message(motd, m),
        Err(e) => Reaction {
            motd,
            action: ActionView::Emit(IRCEventView::Raw(diagnostic_text(e))),
        },
    }
}

/// What a read on the connection gave.
pub enum ReadOutcome<'a> {
    /// One line, as it was read.
    Line(&'a str),
    /// The end of the stream: no byte was read.
    EndOfStream,
    /// The read failed.
    Failed,
}

/// The state of the read loop.
pub struct ListenerView {
    /// The lines of the message of the day gathered so far.
    pub motd: Seq<Seq<char>>,
    /// Whether the loop has ended.
    pub closed: bool,
}

/// How the read loop goes on after one read. The end of the stream and a
/// failed read close it; once closed it stays closed and asks to stop.
pub open spec fn listen_step_spec(state: ListenerView, line: Option<Seq<char>>) -> (
    ListenerView,
    ActionView,
) {
    if state.closed {
        (state, ActionView::Stop)
    } else {
        match line {
            Some(l) => {
                let r = react_to_line(state.motd, l);
                (ListenerView { motd: r.motd, closed: false }, r.action)
            },
            None => (ListenerView { motd: state.motd, closed: true }, ActionView::Stop),
        }
    }
}

/// The line that a read gave, if it gave one.
pub open spec fn line_of(read: ReadOutcome) -> Option<Seq<char>> {
    match read {
        ReadOutcome::Line(l) => Some(l@),
        _ => None,
    }
}

/// The read loop's state: what it has to remember from one line to the next.
pub struct Listener {
    message_of_the_day: Vec<String>,
    closed: bool,
}

impl View for Listener {
    type V = ListenerView;

    closed spec fn view(&self) -> ListenerView {
        ListenerView { motd: views(self.message_of_the_day@), closed: self.closed }
    }
}

impl Listener {
    /// A read loop at its start.
    pub fn new() -> (listener: Self)
        ensures
            listener@ == (ListenerView { motd: Seq::empty(), closed: false }),
    {
        let listener = Listener { message_of_the_day: Vec::new(), closed: false };
        assert(views(listener.message_of_the_day@) =~= Seq::<Seq<char>>::empty());
        listener
    }

    /// Whether the loop has ended.
    pub fn is_closed(&self) -> (b: bool)
        ensures
            b == self@.closed,
    {
        self.closed
    }

    /// Ends the loop: for the caller whose write or whose consumer failed.
    pub fn close(&mut self)
        ensures
            final(self)@ == (ListenerView { motd: old(self)@.motd, closed: true }),
    {
        self.closed = true;
    }

    /// One turn of the read loop: takes what the read gave and says what to do.
    pub fn listen_step(&mut self, read: ReadOutcome) -> (action: Action)
        ensures
            final(self)@ == listen_step_spec(old(self)@, line_of(read)).0,
            action@ == listen_step_spec(old(self)@, line_of(read)).1,
    {
        if self.closed {
            return Action::Stop;
        }
        match read {
            ReadOutcome::Line(line) => self.handle_line(line),
            _ => {
                self.closed = true;
                Action::Stop
            },
        }
    }

    /// Reacts to one line: parses it and handles the message, or reports
    /// that it is none.
    pub fn handle_line(&mut self, line: &str) -> (action: Action)
        ensures
            final(self)@.closed == old(self)@.closed,
            final(self)@.motd == react_to_line(old(self)@.motd, line@).motd,
            action@ == react_to_line(old(self)@.motd, line@).action,
    {
        let mut parser = Parser::new(line);
        match parser.parse_message() {
            Ok(message) => self.handle_message(message),
            Err(error) => Action::Emit(IRCEvent::Raw(diagnostic(error))),
        }
    }

    /// Reacts to one message.
    pub fn handle_message(&mut self, message: Message) -> (action: Action)
        ensures
            final(self)@.closed == old(self)@.closed,
            final(self)@.motd == react_to_message(old(self)@.motd, message@).motd,
            action@ == react_to_message(old(self)@.motd, message@).action,
    {
        let command = message.command.as_str();
        if str_eq(command, "PING") {
            let mut response = "PONG :".to_owned();
            response.append(join(&message.params, " ").as_str());
            Action::Send(frame_line(response.as_str()))
        } else if str_eq(command, "353") {
            let n = message.params.len();
            if n > 0 {
                assert(views(message.params@).last() == message.params@[n - 1]@);
                Action::Emit(IRCEvent::Users(split_whitespace(message.params[n - 1].as_str())))
            } else {
                Action::Nothing
            }
        } else if str_eq(command, "366") {
            Action::Nothing
        } else if str_eq(command, "372") {
            let n = message.params.len();
            if n > 0 {
                let line = message.params[n - 1].clone();
                proof {
                    assert(views(message.params@).last() == message.params@[n - 1]@);
                    assert(views(self.message_of_the_day@.push(line)) =~= views(
                        self.message_of_the_day@,
                    ).push(line@));
                }
                self.message_of_the_day.push(line);
            }
            Action::Nothing
        } else if str_eq(command, "375") {
            self.message_of_the_day.clear();
            assert(views(self.message_of_the_day@) =~= Seq::<Seq<char>>::empty());
            Action::Nothing
        } else if str_eq(command, "376") {
            Action::Emit(IRCEvent::MessageOfTheDay(clone_strings(&self.message_of_the_day)))
        } else if str_eq(command, "432") {
            let mut text = "The nickname '".to_owned();
            text.append(nickname_of(&message.params).as_str());
            text.append("' is invalid!");
            Action::Emit(IRCEvent::Raw(text))
        } else if str_eq(command, "431") {
            Action::Emit(IRCEvent::Raw("No nickname given! Please provide a nickname.".to_owned()))
        } else if str_eq(command, "433") {
            let mut text = "The nickname '".to_owned();
            text.append(nickname_of(&message.params).as_str());
            text.append("' is already in use!");
            Action::Emit(IRCEvent::Raw(text))
        } else if str_eq(command, "436") {
            let mut text = "The nickname '".to_owned();
            text.append(nickname_of(&message.params).as_str());
            text.append("' is already in use (collision)!");
            Action::Emit(IRCEvent::Raw(text))
        } else {
            Action::Emit(IRCEvent::Message(message))
        }
    }
}

/// The text that tells the consumer of a line that is no message.
pub fn diagnostic(error: ParseError) -> (text: String)
    ensures
        text@ == diagnostic_text(error),
{
    match error {
        ParseError::MalformedPrefix => "Ignored a line with a malformed prefix.".to_owned(),
        ParseError::MalformedCommand => "Ignored a line with a malformed command.".to_owned(),
        ParseError::MalformedParameters => "Ignored a line with malformed parameters.".to_owned(),
    }
}

/// The nickname that a nickname error names.
fn nickname_of(params: &Vec<String>) -> (nickname: String)
    ensures
        nickname@ == rejected_nickname(views(params@)),
{
    if params.len() > 1 {
        params[1].clone()
    } else {
        String::new()
    }
}

/// Where a client stands.
#[derive(Debug, PartialEq, Eq, Clone, Copy)]
pub enum ConnectionState {
    /// No connection was opened.
    Unconnected,
    /// The connection is open and the registration was sent; the read loop
    /// has not been started.
    Registering,
    /// The read loop was started.
    Listening,
}

/// Why the engine refuses a call.
#[derive(Debug, PartialEq, Eq, Clone, Copy)]
pub enum ClientError {
    /// There is no connection, or its read loop was started before.
    NotConnected,
}

/// A client as plain values.
pub struct ClientView {
    pub nickname: Seq<char>,
    pub server: Seq<char>,
    pub port: u16,
    pub channel: Seq<char>,
    pub state: ConnectionState,
}

/// The lines to write, or the reason why there are none.
pub type Outgoing = Result<Seq<Seq<char>>, ClientError>;

/// What a call on the client leaves behind: the client and the lines to
/// write, each ready for the wire.
pub struct Sent {
    pub client: ClientView,
    pub lines: Outgoing,
}

impl ClientView {
    pub open spec fn is_connected(self) -> bool {
        self.state != ConnectionState::Unconnected
    }

    /// The three lines that register the client and join its channel.
    pub open spec fn registration(self) -> Seq<Seq<char>> {
        seq![
            framed("NICK "@ + self.nickname),
            framed("USER "@ + self.nickname + " 0 * :"@ + self.nickname),
            framed("JOIN "@ + self.channel),
        ]
    }

    /// The two lines that leave the channel and end the session.
    pub open spec fn farewell(self) -> Seq<Seq<char>> {
        seq![framed("PART "@ + self.channel + " :Goodbye!"@), framed("QUIT :Client closed"@)]
    }

    /// Sending one line: refused without a connection.
    pub open spec fn send_line(self, line: Seq<char>) -> Sent {
        Sent {
            client: self,
            lines: if self.is_connected() {
                Ok(seq![framed(line)])
            } else {
                Err(ClientError::NotConnected)
            },
        }
    }

    /// Ending the session: nothing to do without a connection.
    pub open spec fn quit(self) -> Sent {
        Sent {
            client: self,
            lines: Ok(
                if self.is_connected() {
                    self.farewell()
                } else {
                    Seq::empty()
                },
            ),
        }
    }

    /// Asking about a user: nothing to do for an empty nickname.
    pub open spec fn whois(self, nickname: Seq<char>) -> Sent {
        let nick = trim_spec(nickname);
        if nick.len() == 0 {
            Sent { client: self, lines: Ok(Seq::empty()) }
        } else {
            self.send_line("WHOIS "@ + nick)
        }
    }

    /// Taking a new nickname: nothing to do for an empty one. Where the line
    /// can be sent the new nickname is remembered at once, before the server
    /// has answered.
    pub open spec fn change_nickname(self, new_nickname: Seq<char>) -> Sent {
        let nick = trim_spec(new_nickname);
        if nick.len() == 0 {
            Sent { client: self, lines: Ok(Seq::empty()) }
        } else if self.is_connected() {
            Sent {
                client: ClientView { nickname: nick, ..self },
                lines: Ok(seq![framed("NICK "@ + nick)]),
            }
        } else {
            Sent { client: self, lines: Err(ClientError::NotConnected) }
        }
    }

    /// What the user typed, as commands for the server.
    ///
    /// The text is trimmed; an empty text does nothing. A text that begins
    /// with `/whois` asks about the user named behind it, one that begins
    /// with `/nick` takes the nickname named behind it, the text `/quit` ends
    /// the session. Any other text is said in the channel.
    pub open spec fn send_message(self, message: Seq<char>) -> Sent {
        let text = trim_spec(message);
        if text.len() == 0 {
            Sent { client: self, lines: Ok(Seq::empty()) }
        } else if "/whois"@.is_prefix_of(text) {
            self.whois(trim_spec(strip_repeated_prefix(text, "/whois"@)))
        } else if "/nick"@.is_prefix_of(text) {
            self.change_nickname(trim_spec(strip_repeated_prefix(text, "/nick"@)))
        } else if text == "/quit"@ {
            self.quit()
        } else {
            self.send_line("PRIVMSG "@ + self.channel + " :"@ + text)
        }
    }
}

/// A result of lines as plain sequences of characters.
pub open spec fn outgoing_view(r: Result<Vec<String>, ClientError>) -> Outgoing {
    match r {
        Ok(lines) => Ok(views(lines@)),
        Err(e) => Err(e),
    }
}

/// The client's side of a session: who it is, where it goes, how far it got.
pub struct IRCClient {
    nickname: String,
    server: String,
    port: u16,
    channel: String,
    state: ConnectionState,
}

impl View for IRCClient {
    type V = ClientView;

    closed spec fn view(&self) -> ClientView {
        ClientView {
            nickname: self.nickname@,
            server: self.server@,
            port: self.port,
            channel: self.channel@,
            state: self.state,
        }
    }
}

impl IRCClient {
    /// A client that is not connected, for the channel `#testchannel`.
    pub fn new(nickname: &str, server: &str, port: u16) -> (client: Self)
        ensures
            client@ == (ClientView {
                nickname: nickname@,
                server: server@,
                port,
                channel: "#testchannel"@,
                state: ConnectionState::Unconnected,
            }),
    {
        IRCClient {
            nickname: nickname.to_owned(),
            server: server.to_owned(),
            port,
            channel: "#testchannel".to_owned(),
            state: ConnectionState::Unconnected,
        }
    }

    /// A client on a connection that was just opened, and the lines that
    /// register it. The client does not wait for the server's answer.
    pub fn connect(nickname: &str, server: &str, port: u16) -> (r: (Self, Vec<String>))
        ensures
            r.0@ == (ClientView {
                nickname: nickname@,
                server: server@,
                port,
                channel: "#testchannel"@,
                state: ConnectionState::Registering,
            }),
            views(r.1@) == r.0@.registration(),
    {
        let mut client = Self::new(nickname, server, port);
        let lines = client.initialize_connection();
        (client, lines)
    }

    /// Takes note that the connection is open and gives the lines that
    /// register the client: `NICK`, `USER` and `JOIN`.
    pub fn initialize_connection(&mut self) -> (lines: Vec<String>)
        ensures
            final(self)@ == (ClientView { state: ConnectionState::Registering, ..old(self)@ }),
            views(lines@) == old(self)@.registration(),
    {
        self.state = ConnectionState::Registering;
        let mut nick = "NICK ".to_owned();
        nick.append(self.nickname.as_str());
        let mut user = "USER ".to_owned();
        user.append(self.nickname.as_str());
        user.append(" 0 * :");
        user.append(self.nickname.as_str());
        let mut join_line = "JOIN ".to_owned();
        join_line.append(self.channel.as_str());
        let mut lines: Vec<String> = Vec::new();
        lines.push(frame_line(nick.as_str()));
        lines.push(frame_line(user.as_str()));
        lines.push(frame_line(join_line.as_str()));
        assert(views(lines@) =~= old(self)@.registration());
        lines
    }

    pub fn nickname(&self) -> (r: &str)
        ensures
            r@ == self@.nickname,
    {
        self.nickname.as_str()
    }

    pub fn server(&self) -> (r: &str)
        ensures
            r@ == self@.server,
    {
        self.server.as_str()
    }

    pub fn port(&self) -> (r: u16)
        ensures
            r == self@.port,
    {
        self.port
    }

    pub fn channel(&self) -> (r: &str)
        ensures
            r@ == self@.channel,
    {
        self.channel.as_str()
    }

    pub fn state(&self) -> (r: ConnectionState)
        ensures
            r == self@.state,
    {
        self.state
    }

    pub fn is_connected(&self) -> (b: bool)
        ensures
            b == self@.is_connected(),
    {
        match self.state {
            ConnectionState::Unconnected => false,
            _ => true,
        }
    }

    /// The line as it is to be written, if there is a connection.
    pub fn send_line(&self, line: &str) -> (r: Result<Vec<String>, ClientError>)
        ensures
            outgoing_view(r) == self@.send_line(line@).lines,
    {
        if !self.is_connected() {
            return Err(ClientError::NotConnected);
        }
        let mut lines: Vec<String> = Vec::new();
        lines.push(frame_line(line));
        assert(views(lines@) =~= seq![framed(line@)]);
        Ok(lines)
    }

    /// Ends the session: `PART` and `QUIT`. Without a connection it does
    /// nothing, and that is no error.
    pub fn quit(&mut self) -> (r: Result<Vec<String>, ClientError>)
        ensures
            final(self)@ == old(self)@.quit().client,
            outgoing_view(r) == old(self)@.quit().lines,
    {
        let mut lines: Vec<String> = Vec::new();
        if !self.is_connected() {
            assert(views(lines@) =~= Seq::<Seq<char>>::empty());
            return Ok(lines);
        }
        let mut part = "PART ".to_owned();
        part.append(self.channel.as_str());
        part.append(" :Goodbye!");
        lines.push(frame_line(part.as_str()));
        lines.push(frame_line("QUIT :Client closed"));
        assert(views(lines@) =~= self@.farewell());
        Ok(lines)
    }

    /// Asks the server about a user.
    pub fn whois(&mut self, nickname: &str) -> (r: Result<Vec<String>, ClientError>)
        ensures
            final(self)@ == old(self)@.whois(nickname@).client,
            outgoing_view(r) == old(self)@.whois(nickname@).lines,
    {
        let nick = trim(nickname);
        if nick.unicode_len() == 0 {
            let lines: Vec<String> = Vec::new();
            assert(views(lines@) =~= Seq::<Seq<char>>::empty());
            return Ok(lines);
        }
        let mut line = "WHOIS ".to_owned();
        line.append(nick);
        self.send_line(line.as_str())
    }

    /// Takes a new nickname, and remembers it without waiting for the
    /// server to accept it.
    pub fn change_nickname(&mut self, new_nickname: &str) -> (r: Result<Vec<String>, ClientError>)
        ensures
            final(self)@ == old(self)@.change_nickname(new_nickname@).client,
            outgoing_view(r) == old(self)@.change_nickname(new_nickname@).lines,
    {
        let nick = trim(new_nickname);
        if nick.unicode_len() == 0 {
            let lines: Vec<String> = Vec::new();
            assert(views(lines@) =~= Seq::<Seq<char>>::empty());
            return Ok(lines);
        }
        let mut line = "NICK ".to_owned();
        line.append(nick);
        match self.send_line(line.as_str()) {
            Ok(lines) => {
                self.nickname = nick.to_owned();
                Ok(lines)
            },
            Err(e) => Err(e),
        }
    }

    /// Turns what the user typed into commands for the server.
    pub fn send_message(&mut self, message: &str) -> (r: Result<Vec<String>, ClientError>)
        ensures
            final(self)@ == old(self)@.send_message(message@).client,
            outgoing_view(r) == old(self)@.send_message(message@).lines,
    {
        let text = trim(message);
        if text.unicode_len() == 0 {
            let lines: Vec<String> = Vec::new();
            assert(views(lines@) =~= Seq::<Seq<char>>::empty());
            return Ok(lines);
        }
        if starts_with(text, "/whois") {
            let nickname = trim(trim_start_matches(text, "/whois"));
            self.whois(nickname)
        } else if starts_with(text, "/nick") {
            let new_nick = trim(trim_start_matches(text, "/nick"));
            self.change_nickname(new_nick)
        } else if str_eq(text, "/quit") {
            self.quit()
        } else {
            let mut line = "PRIVMSG ".to_owned();
            line.append(self.channel.as_str());
            line.append(" :");
            line.append(text);
            self.send_line(line.as_str())
        }
    }

    /// Starts the read loop. It can be started once, on a connection that
    /// is open.
    pub fn start_listening(&mut self) -> (r: Result<Listener, ClientError>)
        ensures
            old(self)@.state == ConnectionState::Registering ==> r is Ok && r->Ok_0@ == (
            ListenerView { motd: Seq::empty(), closed: false }) && final(self)@ == (ClientView {
                state: ConnectionState::Listening,
                ..old(self)@
            }),
            old(self)@.state != ConnectionState::Registering ==> r == Err::<Listener, ClientError>(
                ClientError::NotConnected,
            ) && final(self)@ == old(self)@,
    {
        match self.state {
            ConnectionState::Registering => {
                self.state = ConnectionState::Listening;
                Ok(Listener::new())
            },
            _ => Err(ClientError::NotConnected),
        }
    }
}

} // verus!
