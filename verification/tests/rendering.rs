use irkki::widget::display;
use irkki::widget::{Button, Header, Messages, Prompt, Users};
use irkki::{chat_view, start_view, wizard_view};
use ratatui::layout::{Alignment, Constraint, Direction, Layout, Margin, Position, Rect};
use ratatui::style::{Color, Modifier, Style};
use ratatui::text::{Line, Span};
use ratatui::widgets::{
    Block, List, ListItem, ListState, Paragraph, Scrollbar, ScrollbarOrientation, ScrollbarState,
};
use ratatui::backend::TestBackend;
use ratatui::buffer::Buffer;
use ratatui::widgets::{StatefulWidget, Widget};
use ratatui::{Frame, Terminal};

fn style(style: display::Style) -> Style {
    let colour = match style.fg {
        display::Color::LightGreen => Color::LightGreen,
        display::Color::Gray => Color::Gray,
    };
    let base = Style::default().fg(colour);
    if style.bold {
        base.add_modifier(Modifier::BOLD)
    } else {
        base
    }
}

fn alignment(alignment: display::Alignment) -> Alignment {
    match alignment {
        display::Alignment::Left => Alignment::Left,
        display::Alignment::Center => Alignment::Center,
    }
}

fn paragraph(paragraph: &display::Paragraph) -> Paragraph<'static> {
    let base = style(paragraph.style);
    let lines: Vec<Line<'static>> = paragraph
        .lines
        .iter()
        .map(|line| {
            if line.bold {
                Line::from(Span::styled(
                    line.text.clone(),
                    base.add_modifier(Modifier::BOLD),
                ))
            } else {
                Line::from(Span::raw(line.text.clone()))
            }
        })
        .collect();
    Paragraph::new(lines)
        .style(base)
        .alignment(alignment(paragraph.alignment))
}

fn list(list: &display::List, area: Rect, frame: &mut Frame) {
    let items: Vec<ListItem> = list
        .items
        .iter()
        .map(|item| ListItem::new(Line::from(Span::raw(item.clone()))))
        .collect();
    let widget = List::new(items)
        .style(style(list.style))
        .block(Block::bordered().title(list.title.clone()));
    let mut state = ListState::default().with_offset(list.offset);
    frame.render_stateful_widget(widget, area, &mut state);

    if let Some(bar) = list.scrollbar {
        let bar_area = area.inner(Margin {
            vertical: 1,
            horizontal: 1,
        });
        let mut bar_state = ScrollbarState::new(bar.total)
            .position(bar.position)
            .viewport_content_length(bar.viewport);
        frame.render_stateful_widget(
            Scrollbar::new(ScrollbarOrientation::VerticalRight),
            bar_area,
            &mut bar_state,
        );
    }
}

fn chat(model: &chat_view::Model, frame: &mut Frame) {
    let outer = Layout::default()
        .direction(Direction::Horizontal)
        .constraints(vec![Constraint::Percentage(80), Constraint::Percentage(20)])
        .split(frame.area());
    let inner = Layout::vertical([Constraint::Min(1), Constraint::Length(3)]).split(outer[0]);

    let view = chat_view::view(model);
    let input = paragraph(&view.input).block(Block::bordered().title("Input"));
    frame.render_widget(input, inner[1]);
    frame.set_cursor_position(Position::new(
        view.cursor_column,
        inner[1].y.saturating_add(view.cursor_row),
    ));

    let messages = chat_view::messages(model).render(inner[0].height);
    list(&messages, inner[0], frame);

    let users = chat_view::users(model).render();
    list(&users, outer[1], frame);
}

fn start(model: &start_view::Model, frame: &mut Frame) {
    let base = Style::default().fg(Color::LightGreen);
    let area = frame.area();

    let outer_block = Block::bordered().style(base);
    frame.render_widget(&outer_block, area);
    let inner_area = outer_block.inner(area);

    let vertical = Layout::default()
        .direction(Direction::Vertical)
        .constraints([
            Constraint::Min(0),
            Constraint::Length(3),
            Constraint::Length(1),
            Constraint::Length(5),
            Constraint::Min(0),
        ])
        .split(inner_area);

    let header = start_view::header().render();
    frame.render_widget(paragraph(&header), vertical[1]);

    let options_row = Layout::default()
        .direction(Direction::Horizontal)
        .constraints([
            Constraint::Min(0),
            Constraint::Length(12),
            Constraint::Length(4),
            Constraint::Length(12),
            Constraint::Min(0),
        ])
        .split(vertical[3]);

    let view = start_view::view(model);
    option("Start", style(view.start_style), base, options_row[1], frame);
    option("Exit", style(view.exit_style), base, options_row[3], frame);
}

fn option(label: &'static str, marked: Style, base: Style, area: Rect, frame: &mut Frame) {
    let block = Block::bordered().style(base).border_style(marked);
    let widget = Paragraph::new(label)
        .style(marked)
        .block(block)
        .alignment(Alignment::Center);
    frame.render_widget(widget, area);
}

fn wizard(model: &wizard_view::Model, frame: &mut Frame) {
    let base = Style::default().fg(Color::LightGreen);
    let area = frame.area();

    let outer_block = Block::bordered().style(base);
    frame.render_widget(&outer_block, area);
    let inner_area = outer_block.inner(area);

    let vertical = Layout::default()
        .direction(Direction::Vertical)
        .constraints([
            Constraint::Min(0),
            Constraint::Length(3),
            Constraint::Length(3),
            Constraint::Min(0),
        ])
        .split(inner_area);

    let header = wizard_view::header().render();
    frame.render_widget(paragraph(&header), vertical[1]);

    let prompt = wizard_view::prompt(model).render();
    frame.render_widget(paragraph(&prompt), vertical[2]);

    let view = wizard_view::view(model);
    frame.set_cursor_position(Position::new(view.cursor_column, vertical[2].y));
}

fn list_in_buffer(list: &display::List, area: Rect, buf: &mut Buffer) {
    let items: Vec<ListItem> = list
        .items
        .iter()
        .map(|item| ListItem::new(Line::from(Span::raw(item.clone()))))
        .collect();
    let widget = List::new(items)
        .style(style(list.style))
        .block(Block::bordered().title(list.title.clone()));
    let mut state = ListState::default().with_offset(list.offset);
    StatefulWidget::render(widget, area, buf, &mut state);

    if let Some(bar) = list.scrollbar {
        let bar_area = area.inner(Margin {
            vertical: 1,
            horizontal: 1,
        });
        let mut bar_state = ScrollbarState::new(bar.total)
            .position(bar.position)
            .viewport_content_length(bar.viewport);
        StatefulWidget::render(
            Scrollbar::new(ScrollbarOrientation::VerticalRight),
            bar_area,
            buf,
            &mut bar_state,
        );
    }
}

fn row(buffer: &Buffer, y: u16, width: u16) -> String {
    (0..width).map(|x| buffer[(x, y)].symbol()).collect()
}

fn rows(buffer: &Buffer, width: u16, height: u16) -> Vec<String> {
    (0..height).map(|y| row(buffer, y, width)).collect()
}

fn on_terminal(draw: impl FnOnce(&mut Frame)) -> (Buffer, Position) {
    let backend = TestBackend::new(40, 15);
    let mut terminal = Terminal::new(backend).unwrap();

    terminal.draw(draw).unwrap();
    let cursor = terminal.get_cursor_position().unwrap();
    (terminal.backend().buffer().clone(), cursor)
}

#[test]
fn render_when_selected() {
    let widget = Button::new("Click Me", true);
    let area = Rect::new(0, 0, 12, 3);

    let mut buffer = Buffer::empty(area);
    paragraph(&widget.render()).render(area, &mut buffer);

    assert_eq!(row(&buffer, 0, area.width), "  Click Me  ");

    let style = buffer[(4, 0)].style();
    assert_eq!(style.fg, Some(Color::LightGreen));
    assert!(style.add_modifier.contains(Modifier::BOLD));
}

#[test]
fn render_when_not_selected() {
    let widget = Button::new("Click Me", false);
    let area = Rect::new(0, 0, 12, 3);

    let mut buffer = Buffer::empty(area);
    paragraph(&widget.render()).render(area, &mut buffer);

    assert_eq!(row(&buffer, 0, area.width), "  Click Me  ");

    let style = buffer[(4, 0)].style();
    assert_eq!(style.fg, Some(Color::Gray));
    assert!(!style.add_modifier.contains(Modifier::BOLD));
}

#[test]
fn header_render() {
    let widget = Header::new("Title", "Subtitle");
    let area = Rect::new(0, 0, 20, 5);

    let mut buffer = Buffer::empty(area);
    paragraph(&widget.render()).render(area, &mut buffer);

    assert_eq!(row(&buffer, 0, area.width), "        Title       ");
    assert_eq!(row(&buffer, 1, area.width), "      Subtitle      ");

    let title_style = buffer[(8, 0)].style();
    assert_eq!(title_style.fg, Some(Color::LightGreen));
    assert!(title_style.add_modifier.contains(Modifier::BOLD));

    let subtitle_style = buffer[(7, 1)].style();
    assert_eq!(subtitle_style.fg, Some(Color::LightGreen));
    assert!(!subtitle_style.add_modifier.contains(Modifier::BOLD));
}

#[test]
fn messages_render() {
    let widget = Messages::new(vec!["Message 1", "Message 2", "Message 3"]);
    let area = Rect::new(0, 0, 30, 6);

    let mut buffer = Buffer::empty(area);
    list_in_buffer(&widget.render(area.height), area, &mut buffer);

    assert_eq!(row(&buffer, 0, 30), "┌Chat────────────────────────┐");
    assert_eq!(row(&buffer, 1, 30), "│0: Message 1                │");
    assert_eq!(row(&buffer, 2, 30), "│1: Message 2                │");
    assert_eq!(row(&buffer, 3, 30), "│2: Message 3                │");
    assert_eq!(row(&buffer, 4, 30), "│                            │");
    assert_eq!(row(&buffer, 5, 30), "└────────────────────────────┘");

    let style = buffer[(4, 0)].style();
    assert_eq!(style.fg, Some(Color::LightGreen));
    assert!(!style.add_modifier.contains(Modifier::BOLD));
}

#[test]
fn render_with_scrollbar() {
    let texts: Vec<String> = (1..=20).map(|i| format!("Message {}", i)).collect();
    let messages: Vec<&str> = texts.iter().map(|s| s.as_str()).collect();
    let widget = Messages::new(messages);
    let area = Rect::new(0, 0, 30, 6);

    let mut buffer = Buffer::empty(area);
    list_in_buffer(&widget.render(area.height), area, &mut buffer);

    assert_eq!(row(&buffer, 0, 30), "┌Chat────────────────────────┐");
    assert_eq!(row(&buffer, 1, 30), "│16: Message 17             ▲│");
    assert_eq!(row(&buffer, 2, 30), "│17: Message 18             ║│");
    assert_eq!(row(&buffer, 3, 30), "│18: Message 19             █│");
    assert_eq!(row(&buffer, 4, 30), "│19: Message 20             ▼│");
    assert_eq!(row(&buffer, 5, 30), "└────────────────────────────┘");

    let style = buffer[(4, 0)].style();
    assert_eq!(style.fg, Some(Color::LightGreen));
    assert!(!style.add_modifier.contains(Modifier::BOLD));
}

#[test]
fn prompt_render() {
    let widget = Prompt::new("Question?", "Answer");
    let area = Rect::new(0, 0, 30, 3);

    let mut buffer = Buffer::empty(area);
    paragraph(&widget.render()).render(area, &mut buffer);

    assert_eq!(row(&buffer, 0, area.width), "Question? Answer              ");

    let style = buffer[(4, 0)].style();
    assert_eq!(style.fg, Some(Color::LightGreen));
    assert!(!style.add_modifier.contains(Modifier::BOLD));
}

#[test]
fn users_render() {
    let widget = Users::new(vec!["Alice", "Bob", "Charlie"]);
    let area = Rect::new(0, 0, 30, 6);

    let mut buffer = Buffer::empty(area);
    list_in_buffer(&widget.render(), area, &mut buffer);

    assert_eq!(row(&buffer, 0, 30), "┌Users───────────────────────┐");
    assert_eq!(row(&buffer, 1, 30), "│Alice                       │");
    assert_eq!(row(&buffer, 2, 30), "│Bob                         │");
    assert_eq!(row(&buffer, 3, 30), "│Charlie                     │");
    assert_eq!(row(&buffer, 4, 30), "│                            │");
    assert_eq!(row(&buffer, 5, 30), "└────────────────────────────┘");

    let style = buffer[(4, 0)].style();
    assert_eq!(style.fg, Some(Color::LightGreen));
    assert!(!style.add_modifier.contains(Modifier::BOLD));
}

#[test]
fn render_chat_widgets() {
    let model = chat_view::Model {
        input: "hello".to_string(),
        character_index: 2,
        messages: vec!["Message 1".to_string(), "Message 2".to_string()],
        users: vec!["Alice".to_string(), "Bob".to_string()],
    };
    let (buffer, cursor) = on_terminal(|frame| chat(&model, frame));

    let rows = rows(&buffer, 40, 15);

    assert!(rows.iter().any(|r| r.contains("Chat")));
    assert!(rows.iter().any(|r| r.contains("Input")));
    assert!(rows.iter().any(|r| r.contains("> hello")));
    assert!(rows.iter().any(|r| r.contains("Users")));
    assert!(rows.iter().any(|r| r.contains("Alice")));
    assert!(rows.iter().any(|r| r.contains("0: Message 1")));

    let input_y = rows
        .iter()
        .position(|r| r.contains("> hello"))
        .expect("input line should be rendered") as u16;
    let input_x = rows[input_y as usize]
        .find('>')
        .expect("> should be rendered") as u16;
    let input_style = buffer[(input_x, input_y)].style();
    assert_eq!(input_style.fg, Some(Color::LightGreen));
    assert!(!input_style.add_modifier.contains(Modifier::BOLD));

    assert_eq!(cursor, Position::new(5, input_y));
}

#[test]
fn render_sets_cursor_from_character_index() {
    let model = chat_view::Model {
        input: "abcdef".to_string(),
        character_index: 4,
        messages: vec![],
        users: vec![],
    };
    let (_buffer, cursor) = on_terminal(|frame| chat(&model, frame));

    assert_eq!(cursor, Position::new(7, 13));
}

#[test]
fn render_and_set_cursor() {
    let model = wizard_view::Model {
        prompt: "Question?".to_string(),
        input: "Answer".to_string(),
        character_index: 3,
    };
    let (buffer, cursor) = on_terminal(|frame| wizard(&model, frame));
    let rows = rows(&buffer, 40, 15);

    assert_eq!(rows[0], "┌──────────────────────────────────────┐");
    assert_eq!(rows[14], "└──────────────────────────────────────┘");

    let setup_y = rows
        .iter()
        .position(|r| r.contains("Setup"))
        .expect("Setup header should be rendered");
    let setup_x = rows[setup_y].chars().position(|c| c == 'S').expect("Setup S should be rendered") as u16;

    let prompt_y = rows
        .iter()
        .position(|r| r.contains("Question? Answer"))
        .expect("prompt should be rendered");
    let prompt_x = rows[prompt_y].chars().position(|c| c == 'Q').expect("prompt Q should be rendered") as u16;

    let border_style = buffer[(0, 0)].style();
    assert_eq!(border_style.fg, Some(Color::LightGreen));

    let header_style = buffer[(setup_x, setup_y as u16)].style();
    assert_eq!(header_style.fg, Some(Color::LightGreen));
    assert!(header_style.add_modifier.contains(Modifier::BOLD));

    let prompt_style = buffer[(prompt_x, prompt_y as u16)].style();
    assert_eq!(prompt_style.fg, Some(Color::LightGreen));
    assert!(!prompt_style.add_modifier.contains(Modifier::BOLD));

    assert_eq!(
        cursor,
        Position::new(
            (model.prompt.len() + model.character_index + 2) as u16,
            prompt_y as u16
        )
    );
}

#[test]
fn start_screen_marks_the_selected_option() {
    let model = start_view::Model {
        selection: start_view::StartSelection::Exit,
    };
    let (buffer, _cursor) = on_terminal(|frame| start(&model, frame));
    let rows = rows(&buffer, 40, 15);

    let title_y = rows.iter().position(|r| r.contains("irkki")).unwrap();
    assert!(rows[title_y + 1].contains("A IRC client"));
    let options_y = rows.iter().position(|r| r.contains("Start")).unwrap();
    assert!(rows[options_y].contains("Exit"));

    let start_x = rows[options_y].chars().position(|c| c == 'S').unwrap() as u16;
    let exit_x = rows[options_y].chars().position(|c| c == 'E').unwrap() as u16;
    let start_style = buffer[(start_x, options_y as u16)].style();
    let exit_style = buffer[(exit_x, options_y as u16)].style();
    assert_eq!(start_style.fg, Some(Color::LightGreen));
    assert!(!start_style.add_modifier.contains(Modifier::BOLD));
    assert!(exit_style.add_modifier.contains(Modifier::BOLD));
}
