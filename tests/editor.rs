use hecto::editor::{Editor, Key, Position};
use hecto::terminal::{Size, Terminal};

const CLEAR_ALL: &str = "\x1b[2J";
const CLEAR_LINE: &str = "\x1b[2K";
const HOME: &str = "\x1b[1;1H";
const FAREWELL: &str = "\x1b[2JGoodBye. \r\n";

fn editor(width: u16, height: u16) -> Editor {
    Editor::new(Terminal::new(Size { width, height }))
}

fn feed(e: &mut Editor, keys: &[Key]) {
    for k in keys {
        e.process_keypress(*k);
    }
}

/// Runs the loop as the program does, with scripted keys: paint, stop when
/// quitting, else take the next key. Returns everything sent.
fn run_script(e: &mut Editor, keys: &[Key]) -> String {
    let mut sent = String::new();
    let mut next = 0;
    loop {
        sent.push_str(&e.refresh_screen());
        if e.should_quit() {
            break;
        }
        e.process_keypress(keys[next]);
        next += 1;
    }
    sent
}

#[test]
fn scenario_right_right_down_quit() {
    let mut e = editor(20, 5);
    let sent = run_script(&mut e, &[Key::Right, Key::Right, Key::Down, Key::Ctrl('q')]);
    assert_eq!(e.cursor_position(), Position { x: 2, y: 1 });
    assert!(sent.ends_with(FAREWELL));
}

#[test]
fn scenario_left_up_quit() {
    let mut e = editor(20, 5);
    run_script(&mut e, &[Key::Left, Key::Up, Key::Ctrl('q')]);
    assert_eq!(e.cursor_position(), Position { x: 0, y: 0 });
}

#[test]
fn scenario_end_pagedown_quit() {
    let mut e = editor(20, 5);
    run_script(&mut e, &[Key::End, Key::PageDown, Key::Ctrl('q')]);
    assert_eq!(e.cursor_position(), Position { x: 19, y: 3 });
}

#[test]
fn scenario_home_pageup_quit() {
    let mut e = editor(20, 5);
    run_script(&mut e, &[Key::Home, Key::PageUp, Key::Ctrl('q')]);
    assert_eq!(e.cursor_position(), Position { x: 0, y: 0 });
}

#[test]
fn scenario_banner_width_ten() {
    let mut e = editor(10, 5);
    let sent = e.refresh_screen();
    let expected = format!(
        "{HOME}{CLEAR_LINE}Hello Edit\r\n{CLEAR_LINE}~\r\n{CLEAR_LINE}~\r\n{CLEAR_LINE}~\r\n{HOME}"
    );
    assert_eq!(sent, expected);
    assert_eq!(sent.matches(CLEAR_LINE).count(), 4);
}

#[test]
fn full_paint_on_wide_screen() {
    let mut e = editor(80, 3);
    feed(&mut e, &[Key::Right, Key::Down]);
    let sent = e.refresh_screen();
    let expected = format!(
        "{HOME}{CLEAR_LINE}Hello Editor -- version 0.1.0\r\n{CLEAR_LINE}~\r\n\x1b[2;2H"
    );
    assert_eq!(sent, expected);
}

#[test]
fn quit_then_next_paint_says_goodbye() {
    let mut e = editor(20, 5);
    e.process_keypress(Key::Ctrl('q'));
    assert!(e.should_quit());
    let sent = e.refresh_screen();
    assert_eq!(sent, format!("{HOME}{FAREWELL}"));
}

#[test]
fn fatal_path_clears_screen() {
    let mut e = editor(20, 5);
    e.refresh_screen();
    e.process_keypress(Key::Down);
    assert_eq!(e.fatal_screen(), CLEAR_ALL);
}

#[test]
fn cursor_stays_in_bounds() {
    let keys = [
        Key::Right, Key::Right, Key::Down, Key::Down, Key::Down, Key::Down, Key::Down,
        Key::End, Key::Right, Key::PageDown, Key::Down, Key::Left, Key::Up, Key::Right,
    ];
    for (w, h) in [(1u16, 2u16), (2, 3), (3, 4), (20, 5)] {
        let mut e = editor(w, h);
        for k in keys {
            e.process_keypress(k);
            let p = e.cursor_position();
            assert!(p.x <= (w - 1) as usize);
            assert!(p.y <= (h - 2) as usize);
        }
    }
}

#[test]
fn left_and_up_saturate_at_zero() {
    let mut e = editor(20, 5);
    e.process_keypress(Key::Left);
    assert_eq!(e.cursor_position().x, 0);
    e.process_keypress(Key::Up);
    assert_eq!(e.cursor_position().y, 0);
    feed(&mut e, &[Key::Right, Key::Down, Key::Left, Key::Left, Key::Up, Key::Up]);
    assert_eq!(e.cursor_position(), Position { x: 0, y: 0 });
}

#[test]
fn extremes_of_navigation_keys() {
    let mut e = editor(7, 9);
    e.process_keypress(Key::End);
    assert_eq!(e.cursor_position().x, 6);
    e.process_keypress(Key::PageDown);
    assert_eq!(e.cursor_position().y, 7);
    e.process_keypress(Key::Home);
    assert_eq!(e.cursor_position().x, 0);
    e.process_keypress(Key::PageUp);
    assert_eq!(e.cursor_position().y, 0);
}

#[test]
fn right_and_down_stop_at_last_cell() {
    let mut e = editor(3, 4);
    feed(&mut e, &[Key::Right, Key::Right, Key::Right, Key::Right]);
    feed(&mut e, &[Key::Down, Key::Down, Key::Down, Key::Down]);
    assert_eq!(e.cursor_position(), Position { x: 2, y: 2 });
}

#[test]
fn unknown_keys_change_nothing() {
    let mut e = editor(20, 5);
    feed(&mut e, &[Key::Right, Key::Down]);
    feed(&mut e, &[Key::Char('q'), Key::Ctrl('x'), Key::Char('a'), Key::Other]);
    assert_eq!(e.cursor_position(), Position { x: 1, y: 1 });
    assert!(!e.should_quit());
}

#[test]
fn cursor_restored_after_paint() {
    let mut e = editor(20, 5);
    feed(&mut e, &[Key::End, Key::Down, Key::Down]);
    let sent = e.refresh_screen();
    assert!(sent.ends_with("\x1b[3;20H"));
}

#[test]
fn tiny_screens_draw_no_rows() {
    for h in [0u16, 1] {
        let mut e = editor(0, h);
        feed(&mut e, &[Key::Down, Key::PageDown, Key::End, Key::Right]);
        assert_eq!(e.cursor_position(), Position { x: 0, y: 0 });
        assert_eq!(e.refresh_screen(), format!("{HOME}{HOME}"));
    }
}

#[test]
fn single_paintable_row_shows_banner_only() {
    let mut e = editor(5, 2);
    assert_eq!(e.refresh_screen(), format!("{HOME}{CLEAR_LINE}Hello\r\n{HOME}"));
}

#[test]
fn widest_screen_moves_to_column_65535() {
    let mut e = editor(u16::MAX, 3);
    e.process_keypress(Key::End);
    assert_eq!(e.cursor_position().x, 65534);
    assert!(e.refresh_screen().ends_with("\x1b[1;65535H"));
}

#[test]
fn terminal_primitives_write_control_sequences() {
    let mut t = Terminal::new(Size { width: 4, height: 6 });
    assert_eq!(*t.size(), Size { width: 4, height: 6 });
    t.clear_screen();
    t.clear_current_line();
    t.cursor_position(&Position { x: 11, y: 4 });
    t.write("ab");
    assert_eq!(t.flush(), "\x1b[2J\x1b[2K\x1b[5;12Hab");
    assert_eq!(t.flush(), "");
}

#[test]
fn cursor_position_saturates() {
    let mut t = Terminal::new(Size { width: 4, height: 6 });
    t.cursor_position(&Position { x: usize::MAX, y: 65535 });
    assert_eq!(t.flush(), "\x1b[65535;65535H");
}

#[test]
fn new_editor_starts_at_origin() {
    let e = editor(20, 5);
    assert_eq!(e.cursor_position(), Position { x: 0, y: 0 });
    assert_eq!(e.size(), Size { width: 20, height: 5 });
    assert!(!e.should_quit());
}
