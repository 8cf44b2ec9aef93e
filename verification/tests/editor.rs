use committer::editor::EditorBuffer;

#[test]
fn a_new_buffer_is_empty() {
    let e = EditorBuffer::new();
    assert_eq!(e.text(), "");
    assert_eq!(e.cursor(), 0);
    assert!(e.has_room());
}

#[test]
fn four_byte_character_then_left_puts_the_cursor_before_all_its_bytes() {
    let mut e = EditorBuffer::new();
    e.insert_char('\u{1f600}');
    assert_eq!(e.text(), "\u{1f600}");
    assert_eq!(e.cursor(), 4);
    e.move_left();
    assert_eq!(e.cursor(), 0);
    assert!(e.text().is_char_boundary(e.cursor()));
}

#[test]
fn the_cursor_advances_by_the_encoded_length() {
    let mut e = EditorBuffer::new();
    e.insert_char('a');
    assert_eq!(e.cursor(), 1);
    e.insert_char('\u{e9}');
    assert_eq!(e.cursor(), 3);
    e.insert_char('\u{20ac}');
    assert_eq!(e.cursor(), 6);
    e.insert_char('\u{1f600}');
    assert_eq!(e.cursor(), 10);
    assert_eq!(e.text(), "a\u{e9}\u{20ac}\u{1f600}");
}

#[test]
fn moving_visits_every_character_boundary_and_stops_at_the_ends() {
    let mut e = EditorBuffer::new();
    for c in ['a', '\u{e9}', '\u{20ac}', '\u{1f600}'] {
        e.insert_char(c);
    }
    let mut seen = vec![e.cursor()];
    for _ in 0..6 {
        e.move_left();
        seen.push(e.cursor());
    }
    assert_eq!(seen, vec![10, 6, 3, 1, 0, 0, 0]);
    let mut seen = vec![e.cursor()];
    for _ in 0..6 {
        e.move_right();
        seen.push(e.cursor());
    }
    assert_eq!(seen, vec![0, 1, 3, 6, 10, 10, 10]);
    assert_eq!(e.text(), "a\u{e9}\u{20ac}\u{1f600}");
}

#[test]
fn backspace_deletes_one_whole_character() {
    let mut e = EditorBuffer::new();
    for c in ['a', '\u{e9}', '\u{20ac}', '\u{1f600}'] {
        e.insert_char(c);
    }
    e.backspace();
    assert_eq!(e.text(), "a\u{e9}\u{20ac}");
    assert_eq!(e.cursor(), 6);
    e.move_left();
    e.backspace();
    assert_eq!(e.text(), "a\u{20ac}");
    assert_eq!(e.cursor(), 1);
    e.backspace();
    assert_eq!(e.text(), "\u{20ac}");
    assert_eq!(e.cursor(), 0);
}

#[test]
fn backspace_at_the_start_changes_nothing() {
    let mut e = EditorBuffer::new();
    e.backspace();
    assert_eq!(e.text(), "");
    assert_eq!(e.cursor(), 0);
    e.insert_char('x');
    e.move_left();
    e.backspace();
    assert_eq!(e.text(), "x");
    assert_eq!(e.cursor(), 0);
}

#[test]
fn characters_go_in_at_the_cursor() {
    let mut e = EditorBuffer::new();
    e.insert_char('a');
    e.insert_char('\u{20ac}');
    e.move_left();
    e.insert_char('x');
    assert_eq!(e.text(), "ax\u{20ac}");
    assert_eq!(e.cursor(), 2);
    e.insert_newline();
    assert_eq!(e.text(), "ax\n\u{20ac}");
    assert_eq!(e.cursor(), 3);
}

#[test]
fn the_cursor_is_on_a_boundary_after_every_step() {
    let mut e = EditorBuffer::new();
    let steps = "ilr\u{1f600}lblr\u{e9}llbrrb";
    for step in steps.chars() {
        match step {
            'l' => e.move_left(),
            'r' => e.move_right(),
            'b' => e.backspace(),
            'i' => e.insert_newline(),
            c => e.insert_char(c),
        }
        assert!(e.cursor() <= e.text().len());
        assert!(e.text().is_char_boundary(e.cursor()));
    }
}
