use hecto::editor::terminal::{Command, Size, Terminal};
use hecto::editor::{Editor, Event, KeyCode, KeyEvent, KeyEventKind, KeyModifiers, Location};

const NO_MODIFIERS: KeyModifiers = KeyModifiers {
    shift: false,
    control: false,
    alt: false,
    super_key: false,
    hyper: false,
    meta: false,
};

const CONTROL: KeyModifiers = KeyModifiers { control: true, ..NO_MODIFIERS };

fn press(code: KeyCode) -> Event {
    Event::Key(KeyEvent { code, modifiers: NO_MODIFIERS, kind: KeyEventKind::Press })
}

fn chord(code: KeyCode, modifiers: KeyModifiers) -> Event {
    Event::Key(KeyEvent { code, modifiers, kind: KeyEventKind::Press })
}

fn editor(w: usize, h: usize) -> Editor {
    let mut terminal = Terminal::new();
    Editor::new(&mut terminal, Size { w, h }, None)
}

fn at(x: usize, y: usize) -> Location {
    Location { x, y }
}

/// An editor in a viewport of `w` by `h` cells whose caret the keys have taken to
/// column `x` of row `y`.
fn editor_at(w: usize, h: usize, x: usize, y: usize) -> Editor {
    let mut editor = editor(w, h);
    for _ in 0..x {
        editor.move_point(KeyCode::Right);
    }
    for _ in 0..y {
        editor.move_point(KeyCode::Down);
    }
    assert_eq!(editor.location(), at(x, y));
    editor
}

#[test]
fn new_sets_up_the_terminal() {
    let mut terminal = Terminal::new();
    let editor = Editor::new(&mut terminal, Size { w: 80, h: 24 }, None);
    assert_eq!(
        terminal.take_commands(),
        vec![
            Command::EnableRawMode,
            Command::EnterAlternateScreen,
            Command::ClearScreen,
            Command::Flush,
        ]
    );
    assert!(!editor.should_quit());
    assert_eq!(editor.location(), at(0, 0));
    assert_eq!(editor.viewport().size(), Size { w: 80, h: 24 });
    assert!(editor.viewport().needs_redraw());
    assert!(editor.viewport().buffer().is_empty());
}

#[test]
fn new_loads_the_source() {
    let mut terminal = Terminal::new();
    let editor = Editor::new(&mut terminal, Size { w: 80, h: 24 }, Some("a\nb\n"));
    assert_eq!(editor.viewport().buffer().line_count(), 2);
    assert_eq!(editor.viewport().buffer().line_at(1), Some("b"));
    assert!(editor.viewport().needs_redraw());
}

#[test]
fn left_and_up_at_the_origin_change_nothing() {
    let mut editor = editor(10, 5);
    editor.evaluate_event(press(KeyCode::Left));
    editor.evaluate_event(press(KeyCode::Up));
    assert_eq!(editor.location(), at(0, 0));
}

#[test]
fn arrows_move_by_one_cell() {
    let mut editor = editor(10, 5);
    editor.evaluate_event(press(KeyCode::Right));
    assert_eq!(editor.location(), at(1, 0));
    editor.evaluate_event(press(KeyCode::Down));
    assert_eq!(editor.location(), at(1, 1));
    editor.evaluate_event(press(KeyCode::Right));
    editor.evaluate_event(press(KeyCode::Down));
    assert_eq!(editor.location(), at(2, 2));
    editor.evaluate_event(press(KeyCode::Left));
    assert_eq!(editor.location(), at(1, 2));
    editor.evaluate_event(press(KeyCode::Up));
    assert_eq!(editor.location(), at(1, 1));
}

#[test]
fn right_and_down_stop_at_the_last_cell() {
    let mut editor = editor(3, 2);
    for _ in 0..10 {
        editor.evaluate_event(press(KeyCode::Right));
        editor.evaluate_event(press(KeyCode::Down));
    }
    assert_eq!(editor.location(), at(2, 1));
}

#[test]
fn page_keys_and_home_and_end_jump_to_the_edges() {
    let mut editor = editor_at(10, 5, 4, 2);
    editor.evaluate_event(press(KeyCode::PageDown));
    assert_eq!(editor.location(), at(4, 4));
    editor.evaluate_event(press(KeyCode::End));
    assert_eq!(editor.location(), at(9, 4));
    editor.evaluate_event(press(KeyCode::PageUp));
    assert_eq!(editor.location(), at(9, 0));
    editor.evaluate_event(press(KeyCode::Home));
    assert_eq!(editor.location(), at(0, 0));
}

#[test]
fn every_key_keeps_the_caret_in_the_viewport() {
    let keys = [
        KeyCode::Up,
        KeyCode::Down,
        KeyCode::Left,
        KeyCode::Right,
        KeyCode::PageUp,
        KeyCode::PageDown,
        KeyCode::Home,
        KeyCode::End,
        KeyCode::Char('x'),
        KeyCode::Other,
    ];
    for (w, h) in [(1usize, 1usize), (1, 4), (4, 1), (3, 3)] {
        for x in 0..w {
            for y in 0..h {
                for key in keys {
                    let mut editor = editor_at(w, h, x, y);
                    editor.move_point(key);
                    let caret = editor.location();
                    assert!(caret.x < w && caret.y < h, "{:?} from {:?} in {}x{}", key, (x, y), w, h);
                }
            }
        }
    }
}

#[test]
fn move_point_ignores_other_keys() {
    let mut editor = editor_at(10, 5, 3, 3);
    editor.move_point(KeyCode::Char('q'));
    editor.move_point(KeyCode::Char('a'));
    editor.move_point(KeyCode::Other);
    assert_eq!(editor.location(), at(3, 3));
    assert!(!editor.should_quit());
}

#[test]
fn arrows_move_whatever_the_modifiers() {
    let mut editor = editor(10, 5);
    editor.evaluate_event(chord(KeyCode::Right, CONTROL));
    editor.evaluate_event(chord(KeyCode::Down, KeyModifiers { shift: true, alt: true, ..NO_MODIFIERS }));
    assert_eq!(editor.location(), at(1, 1));
}

#[test]
fn only_pressed_keys_count() {
    let mut editor = editor(10, 5);
    editor.evaluate_event(Event::Key(KeyEvent {
        code: KeyCode::Right,
        modifiers: NO_MODIFIERS,
        kind: KeyEventKind::Release,
    }));
    editor.evaluate_event(Event::Key(KeyEvent {
        code: KeyCode::Down,
        modifiers: NO_MODIFIERS,
        kind: KeyEventKind::Repeat,
    }));
    editor.evaluate_event(Event::Key(KeyEvent {
        code: KeyCode::Char('q'),
        modifiers: CONTROL,
        kind: KeyEventKind::Release,
    }));
    assert_eq!(editor.location(), at(0, 0));
    assert!(!editor.should_quit());
}

#[test]
fn control_q_ends_the_session() {
    let mut editor = editor(10, 5);
    editor.evaluate_event(chord(KeyCode::Char('q'), CONTROL));
    assert!(editor.should_quit());
    assert_eq!(editor.location(), at(0, 0));
}

#[test]
fn q_with_other_modifiers_does_not_end_the_session() {
    let mut editor = editor(10, 5);
    editor.evaluate_event(press(KeyCode::Char('q')));
    editor.evaluate_event(chord(KeyCode::Char('q'), KeyModifiers { shift: true, ..CONTROL }));
    editor.evaluate_event(chord(KeyCode::Char('q'), KeyModifiers { alt: true, ..CONTROL }));
    editor.evaluate_event(chord(KeyCode::Char('q'), KeyModifiers { super_key: true, ..CONTROL }));
    editor.evaluate_event(chord(KeyCode::Char('q'), KeyModifiers { hyper: true, ..CONTROL }));
    editor.evaluate_event(chord(KeyCode::Char('q'), KeyModifiers { meta: true, ..CONTROL }));
    editor.evaluate_event(chord(KeyCode::Char('q'), KeyModifiers { alt: true, ..NO_MODIFIERS }));
    editor.evaluate_event(chord(KeyCode::Char('Q'), CONTROL));
    editor.evaluate_event(chord(KeyCode::Char('x'), CONTROL));
    editor.evaluate_event(chord(KeyCode::Other, CONTROL));
    assert!(!editor.should_quit());
}

#[test]
fn other_events_change_nothing() {
    let mut editor = editor_at(10, 5, 2, 2);
    let mut terminal = Terminal::new();
    editor.refresh_screen(&mut terminal);
    editor.evaluate_event(Event::Other);
    editor.evaluate_event(press(KeyCode::Other));
    editor.evaluate_event(press(KeyCode::Char('a')));
    assert_eq!(editor.location(), at(2, 2));
    assert!(!editor.should_quit());
    assert!(!editor.viewport().needs_redraw());
    assert_eq!(editor.viewport().size(), Size { w: 10, h: 5 });
}

#[test]
fn resize_changes_the_viewport_and_not_the_caret() {
    let mut editor = editor_at(10, 5, 9, 4);
    let mut terminal = Terminal::new();
    editor.refresh_screen(&mut terminal);
    assert!(!editor.viewport().needs_redraw());
    editor.evaluate_event(Event::Resize(4, 3));
    assert_eq!(editor.viewport().size(), Size { w: 4, h: 3 });
    assert!(editor.viewport().needs_redraw());
    assert_eq!(editor.location(), at(9, 4));
}

#[test]
fn caret_left_outside_by_a_resize_comes_back_with_later_moves() {
    let mut editor = editor_at(10, 5, 9, 4);
    editor.evaluate_event(Event::Resize(4, 3));
    editor.evaluate_event(press(KeyCode::Up));
    assert_eq!(editor.location(), at(9, 3));
    editor.evaluate_event(press(KeyCode::Down));
    assert_eq!(editor.location(), at(9, 2));
    editor.evaluate_event(press(KeyCode::Left));
    assert_eq!(editor.location(), at(8, 2));
    editor.evaluate_event(press(KeyCode::Right));
    assert_eq!(editor.location(), at(3, 2));
}

#[test]
fn viewport_without_cells_keeps_the_caret_at_the_origin() {
    let mut editor = editor(0, 0);
    for key in [KeyCode::Right, KeyCode::Down, KeyCode::End, KeyCode::PageDown, KeyCode::Left, KeyCode::Up] {
        editor.evaluate_event(press(key));
        assert_eq!(editor.location(), at(0, 0));
    }
    let mut editor = editor_at(10, 5, 6, 3);
    editor.evaluate_event(Event::Resize(0, 0));
    editor.evaluate_event(press(KeyCode::Right));
    assert_eq!(editor.location(), at(0, 3));
    editor.evaluate_event(press(KeyCode::PageDown));
    assert_eq!(editor.location(), at(0, 0));
}

#[test]
fn refresh_screen_draws_the_view_between_hiding_and_showing_the_caret() {
    let mut editor = editor_at(20, 2, 5, 1);
    let mut terminal = Terminal::new();
    editor.refresh_screen(&mut terminal);
    assert_eq!(
        terminal.take_commands(),
        vec![
            Command::Hide,
            Command::MoveTo { col: 0, row: 0 },
            Command::ClearLine,
            Command::Print(String::from("~")),
            Command::Flush,
            Command::MoveTo { col: 0, row: 1 },
            Command::ClearLine,
            Command::Print(String::from("~")),
            Command::Flush,
            Command::MoveTo { col: 5, row: 1 },
            Command::Show,
            Command::Flush,
        ]
    );
    assert!(!editor.viewport().needs_redraw());
}

#[test]
fn refresh_screen_of_a_drawn_view_only_places_the_caret() {
    let mut editor = editor_at(20, 2, 5, 1);
    let mut terminal = Terminal::new();
    editor.refresh_screen(&mut terminal);
    terminal.take_commands();
    editor.refresh_screen(&mut terminal);
    assert_eq!(
        terminal.take_commands(),
        vec![Command::Hide, Command::MoveTo { col: 5, row: 1 }, Command::Show, Command::Flush]
    );
}

#[test]
fn step_handles_the_event_and_refreshes() {
    let mut editor = editor(20, 2);
    let mut terminal = Terminal::new();
    editor.refresh_screen(&mut terminal);
    terminal.take_commands();
    assert!(editor.step(press(KeyCode::Right), &mut terminal));
    assert_eq!(editor.location(), at(1, 0));
    assert_eq!(
        terminal.take_commands(),
        vec![Command::Hide, Command::MoveTo { col: 1, row: 0 }, Command::Show, Command::Flush]
    );
    assert!(editor.step(Event::Resize(30, 1), &mut terminal));
    assert_eq!(
        terminal.take_commands(),
        vec![
            Command::Hide,
            Command::MoveTo { col: 0, row: 0 },
            Command::ClearLine,
            Command::Print(String::from("~hecto editor -- version 0.1.0")),
            Command::Flush,
            Command::MoveTo { col: 1, row: 0 },
            Command::Show,
            Command::Flush,
        ]
    );
}

#[test]
fn step_stops_the_session_on_quit_after_a_last_refresh() {
    let mut editor = editor(20, 2);
    let mut terminal = Terminal::new();
    editor.refresh_screen(&mut terminal);
    terminal.take_commands();
    assert!(!editor.step(chord(KeyCode::Char('q'), CONTROL), &mut terminal));
    assert!(editor.should_quit());
    assert_eq!(
        terminal.take_commands(),
        vec![Command::Hide, Command::MoveTo { col: 0, row: 0 }, Command::Show, Command::Flush]
    );
}

#[test]
fn resize_without_columns_draws_nothing() {
    let mut editor = editor(80, 24);
    let mut terminal = Terminal::new();
    editor.refresh_screen(&mut terminal);
    terminal.take_commands();
    assert!(editor.step(Event::Resize(0, 24), &mut terminal));
    assert_eq!(
        terminal.take_commands(),
        vec![Command::Hide, Command::MoveTo { col: 0, row: 0 }, Command::Show, Command::Flush]
    );
    assert!(editor.viewport().needs_redraw());
    assert_eq!(editor.viewport().size(), Size { w: 0, h: 24 });
}

#[test]
fn shutdown_after_quit_says_goodbye_once_the_terminal_is_restored() {
    let mut editor = editor(20, 2);
    editor.evaluate_event(chord(KeyCode::Char('q'), CONTROL));
    let mut terminal = Terminal::new();
    editor.shutdown(&mut terminal);
    assert_eq!(
        terminal.take_commands(),
        vec![
            Command::Show,
            Command::LeaveAlternateScreen,
            Command::Flush,
            Command::DisableRawMode,
            Command::Print(String::from("GoodBye. \r\n")),
            Command::Flush,
        ]
    );
}

#[test]
fn shutdown_without_quit_only_restores_the_terminal() {
    let editor = editor(20, 2);
    let mut terminal = Terminal::new();
    editor.shutdown(&mut terminal);
    assert_eq!(
        terminal.take_commands(),
        vec![
            Command::Show,
            Command::LeaveAlternateScreen,
            Command::Flush,
            Command::DisableRawMode,
        ]
    );
}

#[test]
fn from_cells_takes_columns_first() {
    assert_eq!(Size::from_cells(80, 24), Size { w: 80, h: 24 });
    assert_eq!(Size::from_cells(65535, 0), Size { w: 65535, h: 0 });
    assert_eq!(Location::default(), at(0, 0));
}
