use lazyfloat::app::{
    command_for, App, Command, Effect, Event, FocusedWidgetArea, KeyCode, KeyEvent, KeyEventKind,
};

fn press(code: KeyCode) -> KeyEvent {
    KeyEvent { code, kind: KeyEventKind::Press }
}

fn state(counter: i64, focused_widget: FocusedWidgetArea, exit: bool) -> App {
    App { counter, focused_widget, exit, log_failed: false }
}

#[test]
fn starts_at_zero_on_the_menu() {
    let app = App::default();
    assert_eq!(app, state(0, FocusedWidgetArea::Menu, false));
    assert!(app.is_running());
    assert_eq!(FocusedWidgetArea::default(), FocusedWidgetArea::Menu);
}

#[test]
fn three_rights_count_three() {
    let mut app = App::default();
    for _ in 0..3 {
        assert_eq!(app.handle_key_event(press(KeyCode::Right)), Effect::Nothing);
    }
    assert_eq!(app.counter, 3);
    assert_eq!(app.focused_widget, FocusedWidgetArea::Menu);
    assert!(!app.exit);
}

#[test]
fn tab_moves_focus_to_actions() {
    let mut app = App::default();
    app.handle_key_event(press(KeyCode::Tab));
    assert_eq!(app, state(0, FocusedWidgetArea::Actions, false));
}

#[test]
fn quit_keeps_the_counter() {
    let mut app = state(5, FocusedWidgetArea::Actions, false);
    assert_eq!(app.handle_key_event(press(KeyCode::Char('q'))), Effect::Nothing);
    assert_eq!(app, state(5, FocusedWidgetArea::Actions, true));
    assert!(!app.is_running());
}

#[test]
fn unmapped_key_changes_nothing() {
    let mut app = state(7, FocusedWidgetArea::Actions, false);
    let before = app;
    assert_eq!(app.handle_key_event(press(KeyCode::Char('z'))), Effect::Nothing);
    assert_eq!(app.handle_key_event(press(KeyCode::Other)), Effect::Nothing);
    assert_eq!(app.handle_key_event(press(KeyCode::Char('Q'))), Effect::Nothing);
    assert_eq!(app.handle_key_event(press(KeyCode::Char('l'))), Effect::Nothing);
    assert_eq!(app, before);
}

#[test]
fn moves_accumulate_to_rights_less_lefts() {
    let mut app = App::default();
    let keys = [
        KeyCode::Left,
        KeyCode::Left,
        KeyCode::Right,
        KeyCode::Left,
        KeyCode::Left,
        KeyCode::Right,
        KeyCode::Left,
    ];
    for k in keys {
        app.handle_key_event(press(k));
    }
    assert_eq!(app.counter, -3);
    assert_eq!(app.focused_widget, FocusedWidgetArea::Menu);
}

#[test]
fn counter_goes_below_zero() {
    let mut app = App::default();
    app.decrement_counter();
    assert_eq!(app.counter, -1);
    app.increment_counter();
    app.increment_counter();
    assert_eq!(app.counter, 1);
}

#[test]
fn counter_wraps_at_the_bounds() {
    let mut app = state(i64::MAX, FocusedWidgetArea::Menu, false);
    app.increment_counter();
    assert_eq!(app.counter, i64::MIN);
    app.decrement_counter();
    assert_eq!(app.counter, i64::MAX);
}

#[test]
fn cycling_focus_twice_returns() {
    for start in [FocusedWidgetArea::Menu, FocusedWidgetArea::Actions] {
        let mut app = state(2, start, false);
        app.next_focus();
        assert_ne!(app.focused_widget, start);
        app.next_focus();
        assert_eq!(app, state(2, start, false));
    }
}

#[test]
fn nothing_changes_after_quit() {
    let mut app = state(1, FocusedWidgetArea::Menu, false);
    app.handle_key_event(press(KeyCode::Char('q')));
    let after_quit = app;
    for k in [KeyCode::Right, KeyCode::Left, KeyCode::Tab, KeyCode::Char('q')] {
        assert_eq!(app.handle_key_event(press(k)), Effect::Nothing);
    }
    assert_eq!(app.handle_key_event(press(KeyCode::Char('L'))), Effect::Nothing);
    assert_eq!(app.apply_command(Command::NavigateRight), Effect::Nothing);
    assert_eq!(app, after_quit);
}

#[test]
fn log_key_asks_for_authentication() {
    let mut app = state(4, FocusedWidgetArea::Actions, false);
    assert_eq!(app.handle_key_event(press(KeyCode::Char('L'))), Effect::Authenticate);
    assert_eq!(app, state(4, FocusedWidgetArea::Actions, false));
    assert_eq!(app.self_log_time(), Effect::Authenticate);
}

#[test]
fn log_outcome_is_recorded() {
    let mut app = state(4, FocusedWidgetArea::Actions, false);
    app.record_log_outcome(false);
    assert!(app.log_failed);
    assert_eq!(app.counter, 4);
    assert_eq!(app.focused_widget, FocusedWidgetArea::Actions);
    app.record_log_outcome(true);
    assert!(!app.log_failed);
}

#[test]
fn only_key_presses_are_handled() {
    let mut app = App::default();
    let release = KeyEvent { code: KeyCode::Right, kind: KeyEventKind::Release };
    let repeat = KeyEvent { code: KeyCode::Right, kind: KeyEventKind::Repeat };
    assert_eq!(app.handle_events(Event::Key(release)), Effect::Nothing);
    assert_eq!(app.handle_events(Event::Key(repeat)), Effect::Nothing);
    assert_eq!(app.handle_events(Event::Other), Effect::Nothing);
    assert_eq!(app, App::default());
    assert_eq!(app.handle_events(Event::Key(press(KeyCode::Right))), Effect::Nothing);
    assert_eq!(app.counter, 1);
    assert_eq!(
        app.handle_events(Event::Key(press(KeyCode::Char('L')))),
        Effect::Authenticate
    );
    let lrelease = KeyEvent { code: KeyCode::Char('L'), kind: KeyEventKind::Release };
    assert_eq!(app.handle_events(Event::Key(lrelease)), Effect::Nothing);
}

#[test]
fn keys_map_to_commands() {
    assert_eq!(command_for(KeyCode::Char('q')), Some(Command::Quit));
    assert_eq!(command_for(KeyCode::Left), Some(Command::NavigateLeft));
    assert_eq!(command_for(KeyCode::Right), Some(Command::NavigateRight));
    assert_eq!(command_for(KeyCode::Char('L')), Some(Command::LogAction));
    assert_eq!(command_for(KeyCode::Tab), Some(Command::CycleFocus));
    assert_eq!(command_for(KeyCode::Char('z')), None);
    assert_eq!(command_for(KeyCode::Other), None);
}

#[test]
fn commands_follow_the_table() {
    let mut app = App::default();
    app.apply_command(Command::NavigateRight);
    app.apply_command(Command::CycleFocus);
    assert_eq!(app.apply_command(Command::LogAction), Effect::Authenticate);
    assert_eq!(app, state(1, FocusedWidgetArea::Actions, false));
    app.apply_command(Command::Quit);
    assert_eq!(app, state(1, FocusedWidgetArea::Actions, true));
    let mut other = App::default();
    other.exit();
    assert!(other.exit);
}

#[test]
fn order_of_moves_does_not_matter() {
    let start = state(-2, FocusedWidgetArea::Actions, false);
    let mut a = start;
    let mut b = start;
    for k in [KeyCode::Right, KeyCode::Right, KeyCode::Left, KeyCode::Right] {
        a.handle_key_event(press(k));
    }
    for k in [KeyCode::Left, KeyCode::Right, KeyCode::Right, KeyCode::Right] {
        b.handle_key_event(press(k));
    }
    assert_eq!(a, b);
    assert_eq!(a, state(0, FocusedWidgetArea::Actions, false));
}
