use irkki::chat_view;
use irkki::start_view::{self, StartSelection};
use irkki::widget::display::{Alignment, Color, Line, Style};
use irkki::wizard_view;

fn strings(items: &[&str]) -> Vec<String> {
    items.iter().map(|s| s.to_string()).collect()
}

#[test]
fn chat_view_of_a_model() {
    let model = chat_view::Model {
        input: "hello".to_string(),
        character_index: 2,
        messages: vec!["Message 1".to_string(), "Message 2".to_string()],
        users: vec!["Alice".to_string(), "Bob".to_string()],
    };

    let view = chat_view::view(&model);
    let messages = chat_view::messages(&model).render(15);
    let users = chat_view::users(&model).render();

    assert_eq!(messages.title, "Chat");
    assert_eq!(view.input.lines, vec![Line { text: "> hello".to_string(), bold: false }]);
    assert_eq!(users.title, "Users");
    assert_eq!(users.items, strings(&["Alice", "Bob"]));
    assert_eq!(messages.items, strings(&["0: Message 1", "1: Message 2"]));
    assert_eq!(view.input.style, Style { fg: Color::LightGreen, bold: false });
    assert_eq!(view.input.alignment, Alignment::Left);
    assert_eq!(view.cursor_column, 5);
    assert_eq!(view.cursor_row, 1);
}

#[test]
fn chat_cursor_follows_the_character_index() {
    let model = chat_view::Model {
        input: "abcdef".to_string(),
        character_index: 4,
        messages: vec![],
        users: vec![],
    };

    let view = chat_view::view(&model);

    assert_eq!(view.cursor_column, 7);
    assert_eq!(view.cursor_row, 1);
}

#[test]
fn chat_cursor_column_wraps_round() {
    let model = chat_view::Model {
        input: String::new(),
        character_index: 65533,
        messages: vec![],
        users: vec![],
    };
    assert_eq!(chat_view::view(&model).cursor_column, 0);

    let model = chat_view::Model { character_index: usize::MAX, ..model };
    assert_eq!(chat_view::view(&model).cursor_column, 2);
}

#[test]
fn wizard_view_of_a_model() {
    let model = wizard_view::Model {
        prompt: "Question?".to_string(),
        input: "Answer".to_string(),
        character_index: 3,
    };

    let view = wizard_view::view(&model);
    let header = wizard_view::header().render();
    let prompt = wizard_view::prompt(&model).render();

    assert_eq!(header.lines[0], Line { text: "Setup".to_string(), bold: true });
    assert_eq!(header.style.fg, Color::LightGreen);
    assert_eq!(prompt.lines, vec![Line { text: "Question? Answer".to_string(), bold: false }]);
    assert_eq!(prompt.style, Style { fg: Color::LightGreen, bold: false });
    assert_eq!(view.cursor_column, (model.prompt.len() + model.character_index + 2) as u16);
    assert_eq!(view.cursor_column, 14);
}

#[test]
fn wizard_cursor_counts_the_prompt_by_bytes() {
    let model = wizard_view::Model {
        prompt: "Größe?".to_string(),
        input: String::new(),
        character_index: 0,
    };

    assert_eq!(wizard_view::view(&model).cursor_column, 10);
}

#[test]
fn start_view_marks_the_selection() {
    let view = start_view::view(&start_view::Model { selection: StartSelection::Start });
    assert_eq!(view.start_style, Style { fg: Color::LightGreen, bold: true });
    assert_eq!(view.exit_style, Style { fg: Color::LightGreen, bold: false });

    let view = start_view::view(&start_view::Model { selection: StartSelection::Exit });
    assert_eq!(view.start_style, Style { fg: Color::LightGreen, bold: false });
    assert_eq!(view.exit_style, Style { fg: Color::LightGreen, bold: true });
}

#[test]
fn start_header_names_the_program() {
    let header = start_view::header().render();

    assert_eq!(
        header.lines,
        vec![
            Line { text: "irkki".to_string(), bold: true },
            Line { text: "A IRC client".to_string(), bold: false },
        ]
    );
}

#[test]
fn selection_toggles() {
    assert_eq!(StartSelection::Start.toggled(), StartSelection::Exit);
    assert_eq!(StartSelection::Exit.toggled(), StartSelection::Start);
}
