use modal_edit::{handle_insert_mode, handle_normal_mode, Action, Buffer, Editor, Event, Key, Mode};

fn editor_with(lines: &[&str], cols: u16, rows: u16) -> Editor {
    let lines: Vec<Vec<char>> = lines.iter().map(|l| l.chars().collect()).collect();
    Editor::new(Buffer::new(lines, String::from("a.txt")), cols, rows)
}

#[test]
fn normal_mode_bindings() {
    let k = |c: char| handle_normal_mode(Event::Key(Key::Char(c)));
    assert_eq!(k('q'), Some(Action::Quit));
    assert_eq!(k('i'), Some(Action::ChangeMode(Mode::Insert)));
    assert_eq!(k('o'), Some(Action::InsertNewLine));
    assert_eq!(k('0'), Some(Action::MoveToLineBegin));
    assert_eq!(k('h'), Some(Action::MoveLeft));
    assert_eq!(k('l'), Some(Action::MoveRight));
    assert_eq!(k('k'), Some(Action::MoveUp));
    assert_eq!(k('j'), Some(Action::MoveDown));
    assert_eq!(k('x'), None);
    assert_eq!(handle_normal_mode(Event::Key(Key::Left)), Some(Action::MoveLeft));
    assert_eq!(handle_normal_mode(Event::Key(Key::Right)), Some(Action::MoveRight));
    assert_eq!(handle_normal_mode(Event::Key(Key::Up)), Some(Action::MoveUp));
    assert_eq!(handle_normal_mode(Event::Key(Key::Down)), Some(Action::MoveDown));
    assert_eq!(handle_normal_mode(Event::Key(Key::Esc)), None);
    assert_eq!(handle_normal_mode(Event::Key(Key::Enter)), None);
    assert_eq!(handle_normal_mode(Event::Resize(3, 4)), None);
    assert_eq!(handle_normal_mode(Event::Other), None);
}

#[test]
fn insert_mode_bindings() {
    assert_eq!(handle_insert_mode(Event::Key(Key::Esc)), Some(Action::ChangeMode(Mode::Normal)));
    assert_eq!(handle_insert_mode(Event::Key(Key::Backspace)), Some(Action::DeleteChar));
    assert_eq!(handle_insert_mode(Event::Key(Key::Enter)), Some(Action::InsertNewLine));
    assert_eq!(handle_insert_mode(Event::Key(Key::Char('q'))), Some(Action::InsertChar('q')));
    assert_eq!(handle_insert_mode(Event::Key(Key::Char('j'))), Some(Action::InsertChar('j')));
    assert_eq!(handle_insert_mode(Event::Key(Key::Left)), None);
    assert_eq!(handle_insert_mode(Event::Key(Key::Other)), None);
    assert_eq!(handle_insert_mode(Event::Other), None);
}

#[test]
fn handle_event_follows_mode() {
    let mut e = editor_with(&["abc"], 80, 24);
    let a = e.handle_event(Event::Key(Key::Char('i'))).unwrap();
    assert!(e.apply(a));
    assert_eq!(e.mode(), Mode::Insert);
    assert_eq!(e.handle_event(Event::Key(Key::Char('q'))), Some(Action::InsertChar('q')));
    let a = e.handle_event(Event::Key(Key::Esc)).unwrap();
    assert!(e.apply(a));
    assert_eq!(e.handle_event(Event::Key(Key::Char('q'))), Some(Action::Quit));
}

#[test]
fn open_line_enters_insert_mode() {
    let mut e = editor_with(&["  ab"], 80, 24);
    let a = e.handle_event(Event::Key(Key::Char('o'))).unwrap();
    assert!(e.apply(a));
    assert_eq!(e.mode(), Mode::Insert);
    assert_eq!(e.buffer().len(), 2);
    assert_eq!(e.row(), 1);
}

#[test]
fn resize_keeps_cursor_on_its_line() {
    let mut e = editor_with(&["a", "b", "c", "d", "e", "f"], 80, 24);
    for _ in 0..5 {
        e.apply(Action::MoveDown);
    }
    assert_eq!((e.row(), e.scroll()), (5, 0));
    assert_eq!(e.handle_event(Event::Resize(40, 3)), None);
    assert_eq!(e.v_width(), 40);
    assert_eq!(e.v_height(), 2);
    assert_eq!((e.row(), e.scroll()), (1, 4));
    assert_eq!(e.get_current_line_len(), 1);
    let (l, _) = e.current_line();
    assert_eq!(l, &vec!['f']);
}

#[test]
fn resize_to_tiny_terminal_keeps_one_row() {
    let mut e = editor_with(&["a", "b", "c"], 80, 24);
    e.apply(Action::MoveDown);
    e.resize(5, 1);
    assert_eq!((e.row(), e.scroll()), (0, 1));
    e.apply(Action::MoveDown);
    assert_eq!((e.row(), e.scroll()), (0, 2));
}

#[test]
fn render_pads_lines_to_width() {
    let mut e = editor_with(&["abc", "a long line"], 6, 4);
    let s = |v: Vec<char>| v.into_iter().collect::<String>();
    assert_eq!(s(e.render_line(0)), "abc   ");
    assert_eq!(s(e.render_line(1)), "a long line");
    assert_eq!(s(e.render_line(2)), "      ");
    e.apply(Action::MoveDown);
    e.resize(6, 2);
    assert_eq!(e.scroll(), 1);
    assert_eq!(s(e.render_line(0)), "a long line");
    assert_eq!(s(e.render_line(1)), "      ");
}

#[test]
fn mode_label_and_name() {
    let mut e = editor_with(&["abc"], 80, 24);
    assert_eq!(e.mode_label(), "NOR");
    e.apply(Action::ChangeMode(Mode::Insert));
    assert_eq!(e.mode_label(), "INS");
    assert_eq!(e.buffer().name(), "a.txt");
}

#[test]
fn indentation_length() {
    assert_eq!(modal_edit::indent_of(&" \t x".chars().collect()), 3);
    assert_eq!(modal_edit::indent_of(&"x  ".chars().collect()), 0);
    assert_eq!(modal_edit::indent_of(&"   ".chars().collect()), 3);
    assert_eq!(modal_edit::indent_of(&" \n ".chars().collect()), 1);
    assert_eq!(modal_edit::indent_of(&Vec::new()), 0);
}

#[test]
fn buffer_primitives() {
    let mut b = Buffer::new(vec!["ab".chars().collect(), "  cd".chars().collect()], String::from("f"));
    b.insert_char(0, 1, 'X');
    assert_eq!(b.line(0), &vec!['a', 'X', 'b']);
    b.delete_char_before(0, 0);
    assert_eq!(b.line_len(0), 3);
    b.delete_char_before(0, 3);
    assert_eq!(b.line(0), &vec!['a', 'X']);
    assert_eq!(b.split_line(1, 3), 2);
    assert_eq!(b.len(), 3);
    assert_eq!(b.line(1), &vec![' ', ' ', 'c']);
    assert_eq!(b.line(2), &vec![' ', ' ', 'd']);
}
