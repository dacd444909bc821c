use irkki::app::{App, Command, CurrentScreen, Key, WizardStep};
use irkki::irc_client::{ClientError, IRCEvent};
use irkki::parser::Message;
use irkki::start_view::StartSelection;

fn strings(items: &[&str]) -> Vec<String> {
    items.iter().map(|s| s.to_string()).collect()
}

fn type_text(app: &mut App, text: &str) {
    for c in text.chars() {
        assert_eq!(app.handle_key(Key::Char(c)), Command::Nothing);
    }
}

/// An app on the chat screen with a client whose read loop runs.
fn connected_app() -> App {
    let mut app = App::new();
    assert_eq!(app.handle_key(Key::Enter), Command::Nothing);
    assert_eq!(app.handle_key(Key::Enter), Command::Nothing);
    assert_eq!(app.handle_key(Key::Enter), Command::Nothing);
    assert_eq!(app.handle_key(Key::Enter), Command::Connect);
    app.connection_opened();
    assert!(app.start_listening().is_ok());
    app
}

#[test]
fn new_app_stands_on_the_start_screen() {
    let app = App::new();

    assert_eq!(app.current_screen(), CurrentScreen::Start);
    assert_eq!(app.start_selection(), StartSelection::Start);
    assert_eq!(app.wizard_step(), WizardStep::Nickname);
    assert_eq!(app.nickname(), "anonguest4523");
    assert_eq!(app.server(), "irc.eu.libera.chat");
    assert_eq!(app.port(), 6667);
    assert_eq!(app.input(), "");
    assert_eq!(app.character_index(), 0);
    assert!(app.messages().is_empty());
    assert!(app.users().is_empty());
    assert!(!app.has_client());
}

#[test]
fn start_screen_toggles_and_exits() {
    let mut app = App::new();

    assert_eq!(app.handle_key(Key::Right), Command::Nothing);
    assert_eq!(app.start_selection(), StartSelection::Exit);
    assert_eq!(app.handle_key(Key::Left), Command::Nothing);
    assert_eq!(app.start_selection(), StartSelection::Start);
    assert_eq!(app.handle_key(Key::Char('x')), Command::Nothing);
    assert_eq!(app.handle_key(Key::Backspace), Command::Nothing);
    assert_eq!(app.handle_key(Key::Other), Command::Nothing);
    assert_eq!(app.input(), "");
    assert_eq!(app.handle_key(Key::Left), Command::Nothing);
    assert_eq!(app.handle_key(Key::Enter), Command::Exit);
    assert_eq!(app.current_screen(), CurrentScreen::Start);
}

#[test]
fn start_leads_to_the_wizard() {
    let mut app = App::new();

    assert_eq!(app.handle_key(Key::Enter), Command::Nothing);

    assert_eq!(app.current_screen(), CurrentScreen::Wizard);
    assert_eq!(app.wizard_step(), WizardStep::Nickname);
    assert_eq!(app.wizard_prompt(), "Enter your nickname (anonguest4523):");
}

#[test]
fn wizard_takes_the_answers() {
    let mut app = App::new();
    app.handle_key(Key::Enter);

    type_text(&mut app, "  alice ");
    assert_eq!(app.handle_key(Key::Enter), Command::Nothing);
    assert_eq!(app.nickname(), "alice");
    assert_eq!(app.wizard_step(), WizardStep::Server);
    assert_eq!(app.input(), "");
    assert_eq!(app.character_index(), 0);
    assert_eq!(app.wizard_prompt(), "Enter server address (irc.eu.libera.chat):");

    type_text(&mut app, "irc.example.org");
    assert_eq!(app.handle_key(Key::Enter), Command::Nothing);
    assert_eq!(app.server(), "irc.example.org");
    assert_eq!(app.wizard_step(), WizardStep::Port);
    assert_eq!(app.wizard_prompt(), "Enter server port (6667):");

    type_text(&mut app, "6697");
    assert_eq!(app.handle_key(Key::Enter), Command::Connect);
    assert_eq!(app.port(), 6697);
    assert_eq!(app.current_screen(), CurrentScreen::Chat);
    assert_eq!(app.input(), "");
}

#[test]
fn wizard_keeps_the_defaults_for_empty_answers() {
    let mut app = App::new();
    app.handle_key(Key::Enter);

    app.handle_key(Key::Enter);
    type_text(&mut app, "   ");
    app.handle_key(Key::Enter);
    assert_eq!(app.handle_key(Key::Enter), Command::Connect);

    assert_eq!(app.nickname(), "anonguest4523");
    assert_eq!(app.server(), "irc.eu.libera.chat");
    assert_eq!(app.port(), 6667);
    assert_eq!(app.current_screen(), CurrentScreen::Chat);
}

#[test]
fn wizard_stays_on_a_port_that_is_no_number() {
    let mut app = App::new();
    app.handle_key(Key::Enter);
    app.handle_key(Key::Enter);
    app.handle_key(Key::Enter);

    type_text(&mut app, "70000");
    assert_eq!(app.handle_key(Key::Enter), Command::Nothing);

    assert_eq!(app.wizard_step(), WizardStep::Port);
    assert_eq!(app.current_screen(), CurrentScreen::Wizard);
    assert_eq!(app.port(), 6667);
    assert_eq!(app.input(), "70000");
}

#[test]
fn typing_at_the_end_appends() {
    let mut app = App::new();
    app.handle_key(Key::Enter);

    type_text(&mut app, "héllo");

    assert_eq!(app.input(), "héllo");
    assert_eq!(app.character_index(), 5);
}

#[test]
fn cursor_jumps_by_the_input_start() {
    let mut app = App::new();
    app.handle_key(Key::Enter);
    type_text(&mut app, "abcdefghij");
    assert_eq!(app.character_index(), 10);

    app.handle_key(Key::Left);
    assert_eq!(app.character_index(), 10);
    app.handle_key(Key::Right);
    assert_eq!(app.character_index(), 10);
}

#[test]
fn backspace_deletes_before_the_cursor() {
    let mut app = App::new();
    app.handle_key(Key::Enter);
    type_text(&mut app, "abç");

    app.handle_key(Key::Backspace);
    assert_eq!(app.input(), "ab");
    assert_eq!(app.character_index(), 2);
    app.handle_key(Key::Backspace);
    app.handle_key(Key::Backspace);
    assert_eq!(app.input(), "");
    assert_eq!(app.character_index(), 0);
    app.handle_key(Key::Backspace);
    assert_eq!(app.input(), "");
    assert_eq!(app.character_index(), 0);
}

#[test]
fn submit_without_client_is_noted() {
    let mut app = App::new();
    app.handle_key(Key::Enter);
    app.handle_key(Key::Enter);
    app.handle_key(Key::Enter);
    assert_eq!(app.handle_key(Key::Enter), Command::Connect);
    app.connection_failed("Connection refused (os error 111)");
    assert_eq!(
        app.messages(),
        &strings(&["Failed to connect to irc.eu.libera.chat:6667: Connection refused (os error 111)"])
    );
    assert!(!app.has_client());

    type_text(&mut app, "hello");
    assert_eq!(app.handle_key(Key::Enter), Command::Nothing);

    assert_eq!(app.messages()[1], "Not connected to an IRC server.");
    assert_eq!(app.input(), "");
    assert_eq!(app.character_index(), 0);
}

#[test]
fn submit_of_nothing_does_nothing() {
    let mut app = connected_app();

    type_text(&mut app, "   ");
    assert_eq!(app.handle_key(Key::Enter), Command::Nothing);

    assert_eq!(app.input(), "   ");
    assert!(app.messages().is_empty());
}

#[test]
fn connection_opened_registers() {
    let mut app = App::new();
    app.handle_key(Key::Enter);
    type_text(&mut app, "alice");
    app.handle_key(Key::Enter);
    app.handle_key(Key::Enter);
    assert_eq!(app.handle_key(Key::Enter), Command::Connect);

    let lines = app.connection_opened();

    assert_eq!(
        lines,
        strings(&["NICK alice\r\n", "USER alice 0 * :alice\r\n", "JOIN #testchannel\r\n"])
    );
    assert!(app.has_client());
    assert!(app.start_listening().is_ok());
    assert!(app.has_client());
}

#[test]
fn start_listening_without_client_is_noted() {
    let mut app = App::new();

    match app.start_listening() {
        Err(error) => assert_eq!(error, ClientError::NotConnected),
        Ok(_) => panic!("a loop was started without a client"),
    }

    assert_eq!(
        app.messages(),
        &strings(&["Failed to start listener: Client is not connected."])
    );
    assert!(!app.has_client());
}

#[test]
fn start_listening_twice_gives_the_client_up() {
    let mut app = connected_app();

    assert!(app.start_listening().is_err());

    assert!(!app.has_client());
    assert_eq!(
        app.messages(),
        &strings(&["Failed to start listener: Client is not connected."])
    );
}

#[test]
fn submit_sends_and_shows_the_message() {
    let mut app = connected_app();

    type_text(&mut app, " hello all ");
    let command = app.handle_key(Key::Enter);

    assert_eq!(
        command,
        Command::Send {
            lines: strings(&["PRIVMSG #testchannel :hello all\r\n"]),
            message: "hello all".to_string(),
        }
    );
    assert_eq!(app.input(), "");
    assert!(app.messages().is_empty());

    app.message_sent("hello all");
    assert_eq!(app.messages(), &strings(&["<anonguest4523> hello all"]));
    assert_eq!(app.current_screen(), CurrentScreen::Chat);
}

#[test]
fn failed_write_is_shown() {
    let mut app = connected_app();
    type_text(&mut app, "hello");
    app.handle_key(Key::Enter);

    app.message_failed("Broken pipe (os error 32)");

    assert_eq!(
        app.messages(),
        &strings(&["Failed to send message: Broken pipe (os error 32)"])
    );
}

#[test]
fn quit_leads_back_to_the_start_screen() {
    let mut app = connected_app();

    type_text(&mut app, "/quit");
    let command = app.handle_key(Key::Enter);
    assert_eq!(
        command,
        Command::Send {
            lines: strings(&["PART #testchannel :Goodbye!\r\n", "QUIT :Client closed\r\n"]),
            message: "/quit".to_string(),
        }
    );
    assert_eq!(app.current_screen(), CurrentScreen::Chat);

    app.message_sent("/quit");

    assert_eq!(app.current_screen(), CurrentScreen::Start);
    assert_eq!(app.messages(), &strings(&["<anonguest4523> /quit"]));
}

#[test]
fn nick_command_leaves_the_shown_nickname() {
    let mut app = connected_app();

    type_text(&mut app, "/nick bob");
    let command = app.handle_key(Key::Enter);
    assert_eq!(
        command,
        Command::Send { lines: strings(&["NICK bob\r\n"]), message: "/nick bob".to_string() }
    );
    app.message_sent("/nick bob");

    assert_eq!(app.nickname(), "anonguest4523");
    assert_eq!(app.messages(), &strings(&["<anonguest4523> /nick bob"]));
}

#[test]
fn events_change_the_state() {
    let mut app = App::new();

    app.apply_event(IRCEvent::Users(strings(&["alice", "bob"])));
    app.apply_event(IRCEvent::Users(strings(&["carol"])));
    app.apply_event(IRCEvent::Message(Message {
        prefix: Some("bob".to_string()),
        command: "PRIVMSG".to_string(),
        params: strings(&["#testchannel", "hi all"]),
    }));
    app.apply_event(IRCEvent::MessageOfTheDay(strings(&["- one", "- two"])));
    app.apply_event(IRCEvent::Raw("The nickname 'x' is invalid!".to_string()));

    assert_eq!(app.users(), &strings(&["alice", "bob", "carol"]));
    assert_eq!(
        app.messages(),
        &strings(&[
            "PRIVMSG #testchannel hi all",
            "Message of the Day:",
            "- one",
            "- two",
            "The nickname 'x' is invalid!",
        ])
    );
}

#[test]
fn message_without_parameters_is_shown_with_a_space() {
    let mut app = App::new();

    app.apply_event(IRCEvent::Message(Message {
        prefix: None,
        command: "AWAY".to_string(),
        params: Vec::new(),
    }));

    assert_eq!(app.messages(), &strings(&["AWAY "]));
}

#[test]
fn drain_incoming_applies_in_order() {
    let mut app = App::new();

    app.drain_incoming(vec![
        IRCEvent::Raw("one".to_string()),
        IRCEvent::Users(strings(&["alice"])),
        IRCEvent::Raw("two".to_string()),
        IRCEvent::Users(strings(&["bob"])),
        IRCEvent::Raw("three".to_string()),
    ]);
    app.drain_incoming(Vec::new());

    assert_eq!(app.messages(), &strings(&["one", "two", "three"]));
    assert_eq!(app.users(), &strings(&["alice", "bob"]));
}

#[test]
fn models_show_the_state() {
    let mut app = connected_app();
    app.apply_event(IRCEvent::Users(strings(&["alice"])));
    app.apply_event(IRCEvent::Raw("hello".to_string()));
    type_text(&mut app, "abc");

    let chat = app.chat_model();
    assert_eq!(chat.input, "abc");
    assert_eq!(chat.character_index, 3);
    assert_eq!(chat.messages, strings(&["hello"]));
    assert_eq!(chat.users, strings(&["alice"]));

    let wizard = app.wizard_model();
    assert_eq!(wizard.prompt, "Enter server port (6667):");
    assert_eq!(wizard.input, "abc");
    assert_eq!(wizard.character_index, 3);

    assert_eq!(App::new().start_model().selection, StartSelection::Start);
}
