use comprehensive_calculator::app::App;
use comprehensive_calculator::history::{AppState, HistoryItem};
use comprehensive_calculator::keys::{Effect, Key, KeyPress};

fn plain(key: Key) -> KeyPress {
    KeyPress { key, control: false }
}

fn control(key: Key) -> KeyPress {
    KeyPress { key, control: true }
}

fn press_line(app: &mut App, line: &str) -> Effect {
    for c in line.chars() {
        assert_eq!(app.on_event(plain(Key::Char(c))), Effect::Nothing);
    }
    app.on_event(plain(Key::Enter))
}

fn item(expression: &str, result: &str) -> HistoryItem {
    HistoryItem {
        expression: expression.to_string(),
        result: result.to_string(),
        is_error: false,
    }
}

#[test]
fn characters_reach_the_input_buffer() {
    let mut app = App::new(None);
    assert_eq!(app.on_event(plain(Key::Char('1'))), Effect::Nothing);
    assert_eq!(app.on_event(plain(Key::Char('+'))), Effect::Nothing);
    assert_eq!(app.on_event(control(Key::Char('x'))), Effect::Nothing);
    assert_eq!(app.input(), "1+x");
    assert_eq!(app.on_event(plain(Key::Backspace)), Effect::Nothing);
    assert_eq!(app.input(), "1+");
    assert_eq!(app.on_event(plain(Key::Char('c'))), Effect::Nothing);
    assert_eq!(app.on_event(plain(Key::Char('y'))), Effect::Nothing);
    assert_eq!(app.input(), "1+cy");
    assert!(!app.should_quit());
}

#[test]
fn enter_evaluates_the_line() {
    let mut app = App::new(None);
    assert_eq!(press_line(&mut app, "2*21"), Effect::Nothing);
    assert_eq!(app.history().len(), 1);
    assert_eq!(app.history()[0], item("2*21", "42"));
}

#[test]
fn arrows_move_the_cursor() {
    let mut app = App::new(None);
    press_line(&mut app, "1");
    press_line(&mut app, "2");
    press_line(&mut app, "3");
    assert_eq!(app.on_event(plain(Key::Up)), Effect::Nothing);
    assert_eq!(app.selected(), Some(1));
    assert_eq!(app.on_event(plain(Key::Down)), Effect::Nothing);
    assert_eq!(app.on_event(plain(Key::Down)), Effect::Nothing);
    assert_eq!(app.selected(), Some(0));
}

#[test]
fn control_y_copies_the_selected_result() {
    let mut app = App::new(None);
    assert_eq!(app.on_event(control(Key::Char('y'))), Effect::Nothing);
    press_line(&mut app, "1+2");
    press_line(&mut app, "10*10");
    assert_eq!(app.on_event(control(Key::Char('y'))), Effect::Copy("100".to_string()));
    app.on_event(plain(Key::Up));
    assert_eq!(app.on_event(control(Key::Char('y'))), Effect::Copy("3".to_string()));
    assert_eq!(app.input(), "");
    app.on_event(plain(Key::Function(1)));
    assert_eq!(app.on_event(control(Key::Char('y'))), Effect::Nothing);
    assert_eq!(app.input(), "");
}

#[test]
fn question_mark_and_f1_toggle_help() {
    let mut app = App::new(None);
    assert_eq!(app.on_event(plain(Key::Char('?'))), Effect::Nothing);
    assert!(app.show_help());
    assert_eq!(app.input(), "");
    assert_eq!(app.on_event(plain(Key::Function(1))), Effect::Nothing);
    assert!(!app.show_help());
    assert_eq!(app.on_event(plain(Key::Function(2))), Effect::Nothing);
    assert!(!app.show_help());
    assert_eq!(app.on_event(control(Key::Char('?'))), Effect::Nothing);
    assert!(app.show_help());
}

#[test]
fn escape_closes_help_before_it_quits() {
    let mut app = App::new(None);
    press_line(&mut app, "5");
    app.on_event(plain(Key::Char('?')));
    assert_eq!(app.on_event(plain(Key::Escape)), Effect::Nothing);
    assert!(!app.show_help());
    assert!(!app.should_quit());
    let effect = app.on_event(plain(Key::Escape));
    assert!(app.should_quit());
    assert_eq!(effect, Effect::Persist(AppState { history: vec![item("5", "5")] }));
}

#[test]
fn control_c_quits_even_while_help_is_open() {
    let mut app = App::new(None);
    press_line(&mut app, "7");
    app.on_event(plain(Key::Function(1)));
    let effect = app.on_event(control(Key::Char('c')));
    assert!(app.should_quit());
    assert!(app.show_help());
    assert_eq!(effect, Effect::Persist(AppState { history: vec![item("7", "7")] }));
}

#[test]
fn quit_command_asks_to_persist() {
    let mut app = App::new(None);
    press_line(&mut app, "1");
    let effect = press_line(&mut app, ":q");
    assert!(app.should_quit());
    assert_eq!(effect, Effect::Persist(AppState { history: vec![item("1", "1")] }));
}

#[test]
fn enter_while_help_is_open_only_closes_it() {
    let mut app = App::new(None);
    app.on_event(plain(Key::Char('9')));
    app.on_event(plain(Key::Char('?')));
    assert_eq!(app.on_event(plain(Key::Enter)), Effect::Nothing);
    assert!(!app.show_help());
    assert_eq!(app.input(), "9");
    assert!(app.history().is_empty());
}

#[test]
fn other_keys_are_ignored() {
    let mut app = App::new(None);
    press_line(&mut app, "1");
    app.on_event(plain(Key::Char('a')));
    assert_eq!(app.on_event(plain(Key::Other)), Effect::Nothing);
    assert_eq!(app.on_event(control(Key::Other)), Effect::Nothing);
    assert_eq!(app.input(), "a");
    assert_eq!(app.history().len(), 1);
    assert_eq!(app.selected(), Some(0));
    assert!(!app.show_help());
    assert!(!app.should_quit());
}
