//! The state of the terminal client: screens, the setup wizard, the input
//! box, and what a key or an event from the server changes.
//!
//! The state decides and records; it draws nothing and opens no connection.
//! Where something is to be done outside, a key gives a [`Command`] back, and
//! the caller reports how it went.

use crate::chat_view;
use crate::irc_client::{
    ClientError, ClientView, ConnectionState, IRCClient, IRCEvent, IRCEventView, Listener,
    ListenerView,
};
use crate::number::{decimal_digits, parse_u16, parse_u16_spec, push_char, push_decimal};
use crate::start_view::{self, StartSelection};
use crate::text::{clone_strings, join, join_spec, str_eq, trim, trim_spec, views};
use crate::wizard_view;
use vstd::prelude::*;

verus! {

/// The screen in front.
#[derive(Clone, Copy, Debug, PartialEq, Eq)]
pub enum CurrentScreen {
    Start,
    Wizard,
    Chat,
}

/// The question that the wizard asks.
#[derive(Clone, Copy, Debug, PartialEq, Eq)]
pub enum WizardStep {
    Nickname,
    Server,
    Port,
}

/// A key that was pressed.
#[derive(Clone, Copy, Debug, PartialEq, Eq)]
pub enum Key {
    Enter,
    Char(char),
    Backspace,
    Left,
    Right,
    /// Any other key.
    Other,
}

/// What the caller is to do after a key.
#[derive(Clone, Debug, PartialEq, Eq)]
pub enum Command {
    /// Nothing.
    Nothing,
    /// Leave the program.
    Exit,
    /// Open a connection to the server and port of the state, then report
    /// with `connection_opened` or `connection_failed`.
    Connect,
    /// Write these lines, then report with `message_sent` or `message_failed`.
    Send { lines: Vec<String>, message: String },
}

/// A command as plain values.
pub enum CommandView {
    Nothing,
    Exit,
    Connect,
    Send { lines: Seq<Seq<char>>, message: Seq<char> },
}

impl View for Command {
    type V = CommandView;

    open spec fn view(&self) -> CommandView {
        match self {
            Command::Nothing => CommandView::Nothing,
            Command::Exit => CommandView::Exit,
            Command::Connect => CommandView::Connect,
            Command::Send { lines, message } => CommandView::Send {
                lines: views(lines@),
                message: message@,
            },
        }
    }
}

/// How far the cursor jumps besides the step itself.
pub const INPUT_CHARACTER_START: usize = 3;

/// The least of two numbers.
pub open spec fn least(a: int, b: int) -> int {
    if a <= b {
        a
    } else {
        b
    }
}

/// The input box: the text and the index of the character under the cursor.
pub struct InputBox {
    pub text: Seq<char>,
    pub cursor: usize,
}

impl InputBox {
    /// `position`, or the end of the text where it lies behind it.
    pub open spec fn clamp(self, position: int) -> usize {
        least(position, self.text.len() as int) as usize
    }

    /// The cursor one step to the left and then the usual jump to the right,
    /// not past the end of the text.
    pub open spec fn move_left(self) -> InputBox {
        let stepped = if self.cursor > 0 {
            self.cursor - 1
        } else {
            0
        };
        InputBox { cursor: self.clamp(stepped + INPUT_CHARACTER_START), ..self }
    }

    /// The cursor one step to the right and then the usual jump, not past the
    /// end of the text.
    pub open spec fn move_right(self) -> InputBox {
        InputBox { cursor: self.clamp(self.cursor + 1 + INPUT_CHARACTER_START), ..self }
    }

    /// `c` put in before the character under the cursor, or at the end, and
    /// the cursor moved to the right.
    pub open spec fn enter_char(self, c: char) -> InputBox {
        let at = least(self.cursor as int, self.text.len() as int);
        (InputBox { text: self.text.take(at).push(c) + self.text.skip(at), ..self }).move_right()
    }

    /// The character before the cursor taken out, and the cursor moved to the
    /// left; nothing where the cursor stands at the start.
    pub open spec fn delete_char(self) -> InputBox {
        if self.cursor == 0 {
            self
        } else {
            let from = least(self.cursor as int, self.text.len() as int);
            let upto = least(self.cursor - 1, self.text.len() as int);
            (InputBox { text: self.text.take(upto) + self.text.skip(from), ..self }).move_left()
        }
    }

    /// The empty box.
    pub open spec fn cleared() -> InputBox {
        InputBox { text: Seq::empty(), cursor: 0 }
    }
}

/// The state as plain values.
pub struct AppView {
    pub input: InputBox,
    pub messages: Seq<Seq<char>>,
    pub users: Seq<Seq<char>>,
    pub nickname: Seq<char>,
    pub server: Seq<char>,
    pub port: u16,
    pub current_screen: CurrentScreen,
    pub start_selection: StartSelection,
    pub wizard_step: WizardStep,
    pub client: Option<ClientView>,
}

/// The state after a key, and the command for the caller.
pub struct Step {
    pub app: AppView,
    pub command: CommandView,
}

impl AppView {
    /// The state at the start of the program.
    pub open spec fn initial() -> AppView {
        AppView {
            input: InputBox::cleared(),
            messages: Seq::empty(),
            users: Seq::empty(),
            nickname: "anonguest4523"@,
            server: "irc.eu.libera.chat"@,
            port: 6667,
            current_screen: CurrentScreen::Start,
            start_selection: StartSelection::Start,
            wizard_step: WizardStep::Nickname,
            client: None,
        }
    }

    /// The same state with another input box, and nothing to do.
    pub open spec fn edited(self, input: InputBox) -> Step {
        Step { app: AppView { input, ..self }, command: CommandView::Nothing }
    }

    /// The same state with one more message.
    pub open spec fn with_message(self, message: Seq<char>) -> AppView {
        AppView { messages: self.messages.push(message), ..self }
    }

    /// The question of the wizard, with the value that stands if nothing is
    /// typed.
    pub open spec fn wizard_prompt(self) -> Seq<char> {
        match self.wizard_step {
            WizardStep::Nickname => "Enter your nickname ("@ + self.nickname + "):"@,
            WizardStep::Server => "Enter server address ("@ + self.server + "):"@,
            WizardStep::Port => "Enter server port ("@ + decimal_digits(self.port as nat) + "):"@,
        }
    }

    /// A key on the start screen: left and right change the choice, enter
    /// takes it.
    pub open spec fn handle_start_input(self, key: Key) -> Step {
        match key {
            Key::Left | Key::Right => Step {
                app: AppView { start_selection: self.start_selection.other(), ..self },
                command: CommandView::Nothing,
            },
            Key::Enter => match self.start_selection {
                StartSelection::Start => Step {
                    app: AppView {
                        current_screen: CurrentScreen::Wizard,
                        wizard_step: WizardStep::Nickname,
                        input: InputBox::cleared(),
                        ..self
                    },
                    command: CommandView::Nothing,
                },
                StartSelection::Exit => Step { app: self, command: CommandView::Exit },
            },
            _ => Step { app: self, command: CommandView::Nothing },
        }
    }

    /// Enter in the wizard: the trimmed input, where it is not empty, becomes
    /// the answer, and the wizard goes on. A port that is no 16-bit number
    /// is not taken, and the wizard stays. After the port the chat opens and
    /// the connection is asked for.
    pub open spec fn advance_wizard(self) -> Step {
        let answer = trim_spec(self.input.text);
        match self.wizard_step {
            WizardStep::Nickname => Step {
                app: AppView {
                    nickname: if answer.len() > 0 {
                        answer
                    } else {
                        self.nickname
                    },
                    wizard_step: WizardStep::Server,
                    input: InputBox::cleared(),
                    ..self
                },
                command: CommandView::Nothing,
            },
            WizardStep::Server => Step {
                app: AppView {
                    server: if answer.len() > 0 {
                        answer
                    } else {
                        self.server
                    },
                    wizard_step: WizardStep::Port,
                    input: InputBox::cleared(),
                    ..self
                },
                command: CommandView::Nothing,
            },
            WizardStep::Port => if answer.len() > 0 && parse_u16_spec(answer) is None {
                Step { app: self, command: CommandView::Nothing }
            } else {
                Step {
                    app: AppView {
                        port: if answer.len() > 0 {
                            parse_u16_spec(answer)->0
                        } else {
                            self.port
                        },
                        current_screen: CurrentScreen::Chat,
                        input: InputBox::cleared(),
                        ..self
                    },
                    command: CommandView::Connect,
                }
            },
        }
    }

    /// Enter in the chat: the trimmed input, where it is not empty, is taken
    /// as a message and the input box is emptied. Without a client that is
    /// noted; a client that refuses is noted too; else the client's lines
    /// are to be sent.
    pub open spec fn submit_message(self) -> Step {
        let message = trim_spec(self.input.text);
        if message.len() == 0 {
            Step { app: self, command: CommandView::Nothing }
        } else {
            let emptied = AppView { input: InputBox::cleared(), ..self };
            match self.client {
                None => Step {
                    app: emptied.with_message("Not connected to an IRC server."@),
                    command: CommandView::Nothing,
                },
                Some(client) => {
                    let sent = client.send_message(message);
                    match sent.lines {
                        Ok(lines) => Step {
                            app: AppView { client: Some(sent.client), ..emptied },
                            command: CommandView::Send { lines, message },
                        },
                        Err(_) => Step {
                            app: (AppView { client: Some(sent.client), ..emptied }).with_message(
                                "Failed to send message: Client is not connected."@,
                            ),
                            command: CommandView::Nothing,
                        },
                    }
                },
            }
        }
    }

    /// A key that edits the input box.
    pub open spec fn edit(self, key: Key) -> Step {
        match key {
            Key::Char(c) => self.edited(self.input.enter_char(c)),
            Key::Backspace => self.edited(self.input.delete_char()),
            Key::Left => self.edited(self.input.move_left()),
            Key::Right => self.edited(self.input.move_right()),
            _ => Step { app: self, command: CommandView::Nothing },
        }
    }

    /// A key in the wizard.
    pub open spec fn handle_wizard_input(self, key: Key) -> Step {
        match key {
            Key::Enter => self.advance_wizard(),
            _ => self.edit(key),
        }
    }

    /// A key in the chat.
    pub open spec fn handle_chat_input(self, key: Key) -> Step {
        match key {
            Key::Enter => self.submit_message(),
            _ => self.edit(key),
        }
    }

    /// A key, on the screen in front.
    pub open spec fn handle_key(self, key: Key) -> Step {
        match self.current_screen {
            CurrentScreen::Start => self.handle_start_input(key),
            CurrentScreen::Wizard => self.handle_wizard_input(key),
            CurrentScreen::Chat => self.handle_chat_input(key),
        }
    }

    /// The message was written: it is shown behind the nickname, and `/quit`
    /// leads back to the start screen.
    pub open spec fn message_sent(self, message: Seq<char>) -> AppView {
        let shown = self.with_message("<"@ + self.nickname + "> "@ + message);
        if message == "/quit"@ {
            AppView { current_screen: CurrentScreen::Start, ..shown }
        } else {
            shown
        }
    }

    /// The message could not be written: the reason is shown.
    pub open spec fn message_failed(self, error: Seq<char>) -> AppView {
        self.with_message("Failed to send message: "@ + error)
    }

    /// The connection could not be opened, or the registration could not be
    /// written: the reason is shown and there is no client.
    pub open spec fn connection_failed(self, error: Seq<char>) -> AppView {
        AppView {
            client: None,
            ..self.with_message(
                "Failed to connect to "@ + self.server + ":"@ + decimal_digits(self.port as nat)
                    + ": "@ + error,
            )
        }
    }

    /// The client of a connection that was opened for this state and whose
    /// read loop was started.
    pub open spec fn new_client(self) -> ClientView {
        ClientView {
            nickname: self.nickname,
            server: self.server,
            port: self.port,
            channel: "#testchannel"@,
            state: ConnectionState::Listening,
        }
    }

    /// An event from the server: users join the user list, a message is
    /// shown as its command and parameters, the message of the day below
    /// its heading, a text as it is.
    pub open spec fn apply_event(self, event: IRCEventView) -> AppView {
        match event {
            IRCEventView::Users(u) => AppView { users: self.users + u, ..self },
            IRCEventView::Message(m) => self.with_message(
                m.command + " "@ + join_spec(m.params, " "@),
            ),
            IRCEventView::MessageOfTheDay(lines) => AppView {
                messages: self.messages.push("Message of the Day:"@) + lines,
                ..self
            },
            IRCEventView::Raw(text) => self.with_message(text),
        }
    }

    /// The events applied one after the other.
    pub open spec fn apply_events(self, events: Seq<IRCEventView>) -> AppView
        decreases events.len(),
    {
        if events.len() == 0 {
            self
        } else {
            self.apply_events(events.drop_last()).apply_event(events.last())
        }
    }
}

/// The views of the events that `events` holds.
pub open spec fn event_views(events: Seq<IRCEvent>) -> Seq<IRCEventView> {
    Seq::new(events.len(), |i: int| events[i]@)
}

/// The state of the terminal client.
pub struct App {
    /// What stands in the input box.
    input: String,
    /// The index of the character under the cursor.
    character_index: usize,
    /// The lines of the chat.
    messages: Vec<String>,
    users: Vec<String>,
    nickname: String,
    server: String,
    port: u16,
    current_screen: CurrentScreen,
    start_selection: StartSelection,
    wizard_step: WizardStep,
    irc_client: Option<IRCClient>,
}

impl View for App {
    type V = AppView;

    closed spec fn view(&self) -> AppView {
        AppView {
            input: InputBox { text: self.input@, cursor: self.character_index },
            messages: views(self.messages@),
            users: views(self.users@),
            nickname: self.nickname@,
            server: self.server@,
            port: self.port,
            current_screen: self.current_screen,
            start_selection: self.start_selection,
            wizard_step: self.wizard_step,
            client: match self.irc_client {
                Some(client) => Some(client@),
                None => None,
            },
        }
    }
}

impl App {
    /// The state at the start of the program.
    pub fn new() -> (app: Self)
        ensures
            app@ == AppView::initial(),
    {
        let app = App {
            input: String::new(),
            messages: Vec::new(),
            users: Vec::new(),
            character_index: 0,
            nickname: "anonguest4523".to_owned(),
            server: "irc.eu.libera.chat".to_owned(),
            port: 6667,
            current_screen: CurrentScreen::Start,
            start_selection: StartSelection::Start,
            wizard_step: WizardStep::Nickname,
            irc_client: None,
        };
        assert(views(app.messages@) =~= Seq::<Seq<char>>::empty());
        assert(views(app.users@) =~= Seq::<Seq<char>>::empty());
        app
    }

    pub fn current_screen(&self) -> (r: CurrentScreen)
        ensures
            r == self@.current_screen,
    {
        self.current_screen
    }

    pub fn start_selection(&self) -> (r: StartSelection)
        ensures
            r == self@.start_selection,
    {
        self.start_selection
    }

    pub fn wizard_step(&self) -> (r: WizardStep)
        ensures
            r == self@.wizard_step,
    {
        self.wizard_step
    }

    /// What stands in the input box.
    pub fn input(&self) -> (r: &str)
        ensures
            r@ == self@.input.text,
    {
        self.input.as_str()
    }

    /// The index of the character under the cursor.
    pub fn character_index(&self) -> (r: usize)
        ensures
            r == self@.input.cursor,
    {
        self.character_index
    }

    /// The lines of the chat.
    pub fn messages(&self) -> (r: &Vec<String>)
        ensures
            views(r@) == self@.messages,
    {
        &self.messages
    }

    /// The users of the channel.
    pub fn users(&self) -> (r: &Vec<String>)
        ensures
            views(r@) == self@.users,
    {
        &self.users
    }

    /// Whether there is a client.
    pub fn has_client(&self) -> (b: bool)
        ensures
            b == self@.client.is_some(),
    {
        self.irc_client.is_some()
    }

    pub fn nickname(&self) -> (r: &str)
        ensures
            r@ == self@.nickname,
    {
        self.nickname.as_str()
    }

    pub fn server(&self) -> (r: &str)
        ensures
            r@ == self@.server,
    {
        self.server.as_str()
    }

    pub fn port(&self) -> (r: u16)
        ensures
            r == self@.port,
    {
        self.port
    }

    fn move_cursor_left(&mut self)
        ensures
            final(self)@ == old(self)@.edited(old(self)@.input.move_left()).app,
    {
        let stepped: usize = if self.character_index > 0 {
            self.character_index - 1
        } else {
            0
        };
        self.character_index = self.clamp_cursor(stepped, INPUT_CHARACTER_START);
    }

    fn move_cursor_right(&mut self)
        ensures
            final(self)@ == old(self)@.edited(old(self)@.input.move_right()).app,
    {
        self.character_index = self.clamp_cursor(self.character_index, 1 + INPUT_CHARACTER_START);
    }

    /// `position + jump`, or the end of the input where that lies behind it.
    fn clamp_cursor(&self, position: usize, jump: usize) -> (r: usize)
        ensures
            r == self@.input.clamp(position + jump),
    {
        let n = self.input.as_str().unicode_len();
        if position >= n || n - position <= jump {
            n
        } else {
            position + jump
        }
    }

    fn reset_cursor(&mut self)
        ensures
            final(self)@ == (AppView {
                input: InputBox { cursor: 0, ..old(self)@.input },
                ..old(self)@
            }),
    {
        self.character_index = 0;
    }

    /// Empties the input box.
    fn clear_input(&mut self)
        ensures
            final(self)@ == (AppView { input: InputBox::cleared(), ..old(self)@ }),
    {
        self.input = String::new();
        self.reset_cursor();
    }

    fn enter_char(&mut self, new_char: char)
        ensures
            final(self)@ == old(self)@.edited(old(self)@.input.enter_char(new_char)).app,
    {
        let n = self.input.as_str().unicode_len();
        let at: usize = if self.character_index < n {
            self.character_index
        } else {
            n
        };
        let mut text = self.input.as_str().substring_char(0, at).to_owned();
        push_char(&mut text, new_char);
        text.append(self.input.as_str().substring_char(at, n));
        proof {
            let before = old(self)@.input.text;
            assert(text@ =~= before.take(at as int).push(new_char) + before.skip(at as int));
        }
        self.input = text;
        self.move_cursor_right();
    }

    fn delete_char(&mut self)
        ensures
            final(self)@ == old(self)@.edited(old(self)@.input.delete_char()).app,
    {
        if self.character_index != 0 {
            let n = self.input.as_str().unicode_len();
            let from: usize = if self.character_index < n {
                self.character_index
            } else {
                n
            };
            let upto: usize = if self.character_index - 1 < n {
                self.character_index - 1
            } else {
                n
            };
            let mut text = self.input.as_str().substring_char(0, upto).to_owned();
            text.append(self.input.as_str().substring_char(from, n));
            proof {
                let before = old(self)@.input.text;
                assert(text@ =~= before.take(upto as int) + before.skip(from as int));
            }
            self.input = text;
            self.move_cursor_left();
        }
    }

    /// The question of the wizard.
    pub fn wizard_prompt(&self) -> (prompt: String)
        ensures
            prompt@ == self@.wizard_prompt(),
    {
        match self.wizard_step {
            WizardStep::Nickname => {
                let mut prompt = "Enter your nickname (".to_owned();
                prompt.append(self.nickname.as_str());
                prompt.append("):");
                prompt
            },
            WizardStep::Server => {
                let mut prompt = "Enter server address (".to_owned();
                prompt.append(self.server.as_str());
                prompt.append("):");
                prompt
            },
            WizardStep::Port => {
                let mut prompt = "Enter server port (".to_owned();
                push_decimal(&mut prompt, self.port as usize);
                prompt.append("):");
                prompt
            },
        }
    }

    /// Takes a key on the screen in front and says what is to be done.
    pub fn handle_key(&mut self, key: Key) -> (command: Command)
        ensures
            final(self)@ == old(self)@.handle_key(key).app,
            command@ == old(self)@.handle_key(key).command,
    {
        match self.current_screen {
            CurrentScreen::Start => self.handle_start_input(key),
            CurrentScreen::Wizard => self.handle_wizard_input(key),
            CurrentScreen::Chat => self.handle_chat_input(key),
        }
    }

    fn handle_start_input(&mut self, key: Key) -> (command: Command)
        ensures
            final(self)@ == old(self)@.handle_start_input(key).app,
            command@ == old(self)@.handle_start_input(key).command,
    {
        match key {
            Key::Left | Key::Right => {
                self.start_selection = self.start_selection.toggled();
                Command::Nothing
            },
            Key::Enter => match self.start_selection {
                StartSelection::Start => {
                    self.current_screen = CurrentScreen::Wizard;
                    self.wizard_step = WizardStep::Nickname;
                    self.clear_input();
                    Command::Nothing
                },
                StartSelection::Exit => Command::Exit,
            },
            _ => Command::Nothing,
        }
    }

    /// A key that edits the input box.
    fn edit(&mut self, key: Key)
        ensures
            final(self)@ == old(self)@.edit(key).app,
    {
        match key {
            Key::Char(to_insert) => self.enter_char(to_insert),
            Key::Backspace => self.delete_char(),
            Key::Left => self.move_cursor_left(),
            Key::Right => self.move_cursor_right(),
            _ => {},
        }
    }

    fn handle_wizard_input(&mut self, key: Key) -> (command: Command)
        ensures
            final(self)@ == old(self)@.handle_wizard_input(key).app,
            command@ == old(self)@.handle_wizard_input(key).command,
    {
        match key {
            Key::Enter => self.advance_wizard(),
            _ => {
                self.edit(key);
                Command::Nothing
            },
        }
    }

    fn handle_chat_input(&mut self, key: Key) -> (command: Command)
        ensures
            final(self)@ == old(self)@.handle_chat_input(key).app,
            command@ == old(self)@.handle_chat_input(key).command,
    {
        match key {
            Key::Enter => self.submit_message(),
            _ => {
                self.edit(key);
                Command::Nothing
            },
        }
    }

    fn advance_wizard(&mut self) -> (command: Command)
        ensures
            final(self)@ == old(self)@.advance_wizard().app,
            command@ == old(self)@.advance_wizard().command,
    {
        let answer = trim(self.input.as_str());
        let given = answer.unicode_len() > 0;
        let command = match self.wizard_step {
            WizardStep::Nickname => {
                if given {
                    self.nickname = answer.to_owned();
                }
                self.wizard_step = WizardStep::Server;
                Command::Nothing
            },
            WizardStep::Server => {
                if given {
                    self.server = answer.to_owned();
                }
                self.wizard_step = WizardStep::Port;
                Command::Nothing
            },
            WizardStep::Port => {
                if given {
                    match parse_u16(answer) {
                        Some(port) => {
                            self.port = port;
                        },
                        None => {
                            return Command::Nothing;
                        },
                    }
                }
                self.current_screen = CurrentScreen::Chat;
                Command::Connect
            },
        };
        self.clear_input();
        command
    }

    fn submit_message(&mut self) -> (command: Command)
        ensures
            final(self)@ == old(self)@.submit_message().app,
            command@ == old(self)@.submit_message().command,
    {
        let message = trim(self.input.as_str()).to_owned();
        if message.as_str().unicode_len() == 0 {
            return Command::Nothing;
        }
        let command = match self.irc_client.take() {
            Some(client) => {
                let mut client = client;
                let sent = client.send_message(message.as_str());
                self.irc_client = Some(client);
                match sent {
                    Ok(lines) => Command::Send { lines, message },
                    Err(_) => {
                        self.push_message(
                            "Failed to send message: Client is not connected.".to_owned(),
                        );
                        Command::Nothing
                    },
                }
            },
            None => {
                self.push_message("Not connected to an IRC server.".to_owned());
                Command::Nothing
            },
        };
        self.clear_input();
        command
    }

    /// Adds one line to the chat.
    fn push_message(&mut self, message: String)
        ensures
            final(self)@ == old(self)@.with_message(message@),
    {
        assert(views(self.messages@.push(message)) =~= views(self.messages@).push(message@));
        self.messages.push(message);
    }

    /// Takes note that the lines of `message` were written.
    pub fn message_sent(&mut self, message: &str)
        ensures
            final(self)@ == old(self)@.message_sent(message@),
    {
        let mut shown = "<".to_owned();
        shown.append(self.nickname.as_str());
        shown.append("> ");
        shown.append(message);
        self.push_message(shown);
        if str_eq(message, "/quit") {
            self.current_screen = CurrentScreen::Start;
        }
    }

    /// Takes note that the lines of a message could not be written.
    pub fn message_failed(&mut self, error: &str)
        ensures
            final(self)@ == old(self)@.message_failed(error@),
    {
        let mut shown = "Failed to send message: ".to_owned();
        shown.append(error);
        self.push_message(shown);
    }

    /// Takes note that a connection is open: makes the client for it and
    /// gives the lines that register it.
    pub fn connection_opened(&mut self) -> (lines: Vec<String>)
        ensures
            final(self)@ == (AppView {
                client: Some(
                    ClientView { state: ConnectionState::Registering, ..old(self)@.new_client() },
                ),
                ..old(self)@
            }),
            views(lines@) == (ClientView {
                state: ConnectionState::Registering,
                ..old(self)@.new_client()
            }).registration(),
    {
        let (client, lines) = IRCClient::connect(
            self.nickname.as_str(),
            self.server.as_str(),
            self.port,
        );
        self.irc_client = Some(client);
        lines
    }

    /// Starts the read loop of the client. Where there is no client whose
    /// loop can be started, that is noted and the client is given up.
    pub fn start_listening(&mut self) -> (r: Result<Listener, ClientError>)
        ensures
            match old(self)@.client {
                Some(client) if client.state == ConnectionState::Registering => r is Ok
                    && r->Ok_0@ == (ListenerView { motd: Seq::empty(), closed: false })
                    && final(self)@ == (AppView {
                    client: Some(ClientView { state: ConnectionState::Listening, ..client }),
                    ..old(self)@
                }),
                _ => r == Err::<Listener, ClientError>(ClientError::NotConnected) && final(self)@
                    == (AppView {
                    client: None,
                    ..old(self)@.with_message(
                        "Failed to start listener: Client is not connected."@,
                    )
                }),
            },
    {
        let started = match self.irc_client.take() {
            Some(client) => {
                let mut client = client;
                match client.start_listening() {
                    Ok(listener) => {
                        self.irc_client = Some(client);
                        Ok(listener)
                    },
                    Err(e) => Err(e),
                }
            },
            None => Err(ClientError::NotConnected),
        };
        match started {
            Ok(listener) => Ok(listener),
            Err(e) => {
                self.push_message("Failed to start listener: Client is not connected.".to_owned());
                Err(e)
            },
        }
    }

    /// Takes note that the connection could not be opened, or that the
    /// registration could not be written.
    pub fn connection_failed(&mut self, error: &str)
        ensures
            final(self)@ == old(self)@.connection_failed(error@),
    {
        let mut shown = "Failed to connect to ".to_owned();
        shown.append(self.server.as_str());
        shown.append(":");
        push_decimal(&mut shown, self.port as usize);
        shown.append(": ");
        shown.append(error);
        self.push_message(shown);
        self.irc_client = None;
    }

    /// Takes one event from the server into the state.
    pub fn apply_event(&mut self, event: IRCEvent)
        ensures
            final(self)@ == old(self)@.apply_event(event@),
    {
        match event {
            IRCEvent::Users(u) => {
                let mut u = u;
                assert(views(self.users@ + u@) =~= views(self.users@) + views(u@));
                self.users.append(&mut u);
            },
            IRCEvent::Message(message) => {
                let mut shown = message.command;
                shown.append(" ");
                shown.append(join(&message.params, " ").as_str());
                self.push_message(shown);
            },
            IRCEvent::MessageOfTheDay(motd) => {
                let mut motd = motd;
                let heading = "Message of the Day:".to_owned();
                assert(views(self.messages@.push(heading) + motd@) =~= views(self.messages@).push(
                    heading@,
                ) + views(motd@));
                self.messages.push(heading);
                self.messages.append(&mut motd);
            },
            IRCEvent::Raw(raw) => self.push_message(raw),
        }
    }

    /// Takes the events that have come in, in order, into the state.
    pub fn drain_incoming(&mut self, events: Vec<IRCEvent>)
        ensures
            final(self)@ == old(self)@.apply_events(event_views(events@)),
    {
        let mut events = events;
        let ghost all = event_views(events@);
        let mut pending: Vec<IRCEvent> = Vec::new();
        while events.len() > 0
            invariant
                events@.len() + pending@.len() == all.len(),
                event_views(events@) == all.take(events@.len() as int),
                forall|k: int|
                    0 <= k < pending@.len() ==> (#[trigger] pending@[k])@ == all[all.len() - 1
                        - k],
                *self == *old(self),
            decreases events.len(),
        {
            let ghost before = events@;
            let event = events.pop().unwrap();
            proof {
                assert(event_views(events@) =~= all.take(events@.len() as int)) by {
                    assert forall|k: int| 0 <= k < events@.len() implies event_views(events@)[k]
                        == all[k] by {
                        assert(event_views(before)[k] == all.take(before.len() as int)[k]);
                    }
                }
                assert(event@ == all[before.len() - 1]) by {
                    assert(event_views(before)[before.len() - 1] == all.take(
                        before.len() as int,
                    )[before.len() - 1]);
                }
            }
            pending.push(event);
        }
        assert(all.take(0) =~= Seq::<IRCEventView>::empty());
        let ghost mut done: int = 0;
        while pending.len() > 0
            invariant
                0 <= done <= all.len(),
                done + pending@.len() == all.len(),
                forall|k: int|
                    0 <= k < pending@.len() ==> (#[trigger] pending@[k])@ == all[all.len() - 1
                        - k],
                self@ == old(self)@.apply_events(all.take(done)),
            decreases pending.len(),
        {
            let event = pending.pop().unwrap();
            proof {
                assert(all.take(done + 1).drop_last() =~= all.take(done));
                assert(all.take(done + 1).last() == all[done]);
                done = done + 1;
            }
            self.apply_event(event);
        }
        assert(all.take(done) =~= all);
    }

    /// What the start screen shows.
    pub fn start_model(&self) -> (model: start_view::Model)
        ensures
            model.selection == self@.start_selection,
    {
        start_view::Model { selection: self.start_selection }
    }

    /// What the setup screen shows.
    pub fn wizard_model(&self) -> (model: wizard_view::Model)
        ensures
            model.prompt@ == self@.wizard_prompt(),
            model.input@ == self@.input.text,
            model.character_index == self@.input.cursor,
    {
        wizard_view::Model {
            prompt: self.wizard_prompt(),
            input: self.input.clone(),
            character_index: self.character_index,
        }
    }

    /// What the chat screen shows.
    pub fn chat_model(&self) -> (model: chat_view::Model)
        ensures
            model.input@ == self@.input.text,
            model.character_index == self@.input.cursor,
            views(model.messages@) == self@.messages,
            views(model.users@) == self@.users,
    {
        chat_view::Model {
            input: self.input.clone(),
            character_index: self.character_index,
            messages: clone_strings(&self.messages),
            users: clone_strings(&self.users),
        }
    }
}

} // verus!
