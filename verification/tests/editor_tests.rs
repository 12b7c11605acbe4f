use miniedit::directions::Direction;
use miniedit::editor::Editor;

fn line(s: &str) -> Vec<char> {
    s.chars().collect()
}

fn doc(lines: &[&str]) -> Vec<Vec<char>> {
    lines.iter().map(|s| line(s)).collect()
}

fn editor_with(lines: &[&str]) -> Editor {
    let mut ed = Editor::new(10, 11);
    assert!(ed.load(doc(lines), "test.txt".to_string()));
    ed
}

#[test]
fn a_new_editor_holds_one_empty_untitled_line() {
    let ed = Editor::new(80, 24);
    assert_eq!(ed.line_count(), 1);
    assert_eq!(ed.get_row(0), Vec::<char>::new());
    assert!(ed.is_untitled());
    assert!(!ed.is_dirty());
    assert_eq!(ed.absolute_position().x(), 0);
    assert_eq!(ed.absolute_position().y(), 0);
}

#[test]
fn loading_an_empty_document_keeps_a_single_empty_line() {
    let mut ed = Editor::new(80, 24);
    assert!(ed.load(Vec::new(), "empty.txt".to_string()));
    assert_eq!(ed.line_count(), 1);
    assert_eq!(ed.get_row(0), Vec::<char>::new());
    assert!(!ed.is_untitled());
    assert_eq!(ed.file_name(), "empty.txt".to_string());
}

#[test]
fn loading_replaces_document_and_rewinds_the_view() {
    let mut ed = editor_with(&["ab", "cd"]);
    ed.move_cursor(Direction::Right);
    assert!(ed.load(doc(&["xyz"]), "other.txt".to_string()));
    assert_eq!(ed.line_count(), 1);
    assert_eq!(ed.get_row(0), line("xyz"));
    assert_eq!(ed.absolute_position().x(), 0);
    assert_eq!(ed.absolute_position().y(), 0);
    assert!(!ed.is_dirty());
}

#[test]
fn loading_refuses_a_document_with_too_many_lines() {
    let mut ed = editor_with(&["keep"]);
    let huge: Vec<Vec<char>> = vec![Vec::new(); u16::MAX as usize + 1];
    assert!(!ed.load(huge, "huge.txt".to_string()));
    assert_eq!(ed.get_row(0), line("keep"));
    assert_eq!(ed.file_name(), "test.txt".to_string());
}

#[test]
fn loading_refuses_an_overlong_line() {
    let mut ed = editor_with(&["keep"]);
    let long: Vec<char> = vec!['x'; u16::MAX as usize + 1];
    assert!(!ed.load(vec![long], "long.txt".to_string()));
    assert_eq!(ed.get_row(0), line("keep"));
}

#[test]
fn right_at_end_of_line_wraps_to_next_line_start() {
    // document ["ab", "cd"], cursor at absolute (2, 0): Right lands on (0, 1)
    let mut ed = editor_with(&["ab", "cd"]);
    ed.move_cursor(Direction::Right);
    ed.move_cursor(Direction::Right);
    assert_eq!(ed.absolute_position().x(), 2);
    assert_eq!(ed.absolute_position().y(), 0);
    ed.move_cursor(Direction::Right);
    assert_eq!(ed.absolute_position().x(), 0);
    assert_eq!(ed.absolute_position().y(), 1);
}

#[test]
fn right_at_end_of_last_line_is_a_no_op() {
    let mut ed = editor_with(&["ab"]);
    ed.move_cursor(Direction::Right);
    ed.move_cursor(Direction::Right);
    assert_eq!(ed.absolute_position().x(), 2);
    ed.move_cursor(Direction::Right);
    assert_eq!(ed.absolute_position().x(), 2);
    assert_eq!(ed.absolute_position().y(), 0);
}

#[test]
fn left_at_document_start_is_a_no_op_even_repeated() {
    let mut ed = editor_with(&["ab", "cd"]);
    for _ in 0..5 {
        ed.move_cursor(Direction::Left);
        assert_eq!(ed.absolute_position().x(), 0);
        assert_eq!(ed.absolute_position().y(), 0);
        assert_eq!(ed.screen().get_row_offset(), 0);
        assert_eq!(ed.screen().get_col_offset(), 0);
    }
}

#[test]
fn left_at_line_start_wraps_to_previous_line_end() {
    let mut ed = editor_with(&["abc", "d"]);
    ed.move_cursor(Direction::Down);
    assert_eq!(ed.absolute_position().y(), 1);
    ed.move_cursor(Direction::Left);
    assert_eq!(ed.absolute_position().x(), 3);
    assert_eq!(ed.absolute_position().y(), 0);
}

#[test]
fn down_refuses_to_pass_the_last_line() {
    let mut ed = editor_with(&["a", "b"]);
    ed.move_cursor(Direction::Down);
    assert_eq!(ed.absolute_position().y(), 1);
    ed.move_cursor(Direction::Down);
    assert_eq!(ed.absolute_position().y(), 1);
}

#[test]
fn up_at_the_very_top_is_a_no_op() {
    let mut ed = editor_with(&["a", "b"]);
    ed.move_cursor(Direction::Up);
    assert_eq!(ed.absolute_position().y(), 0);
    assert_eq!(ed.screen().get_row_offset(), 0);
}

#[test]
fn vertical_moves_clamp_the_column_to_the_shorter_line() {
    let mut ed = editor_with(&["abcd", "x", "efgh"]);
    for _ in 0..4 {
        ed.move_cursor(Direction::Right);
    }
    assert_eq!(ed.absolute_position().x(), 4);
    ed.move_cursor(Direction::Down);
    assert_eq!(ed.absolute_position().y(), 1);
    assert_eq!(ed.absolute_position().x(), 1);
    ed.move_cursor(Direction::Up);
    assert_eq!(ed.absolute_position().y(), 0);
    assert_eq!(ed.absolute_position().x(), 1);
}

#[test]
fn navigating_below_the_window_scrolls_down() {
    // terminal height 4 gives a text area of 3 rows
    let mut ed = Editor::new(10, 4);
    assert!(ed.load(doc(&["a", "b", "c", "d", "e"]), "t".to_string()));
    ed.move_cursor(Direction::Down);
    ed.move_cursor(Direction::Down);
    assert_eq!(ed.screen().get_row_offset(), 0);
    assert_eq!(ed.cursor().y, 2);
    ed.move_cursor(Direction::Down);
    assert_eq!(ed.screen().get_row_offset(), 1);
    assert_eq!(ed.cursor().y, 2);
    assert_eq!(ed.absolute_position().y(), 3);
}

#[test]
fn navigating_past_the_window_edge_scrolls_right() {
    // window only 3 columns wide
    let mut ed = Editor::new(3, 4);
    assert!(ed.load(doc(&["abcdef"]), "t".to_string()));
    ed.move_cursor(Direction::Right);
    ed.move_cursor(Direction::Right);
    assert_eq!(ed.cursor().x, 2);
    assert_eq!(ed.screen().get_col_offset(), 0);
    ed.move_cursor(Direction::Right);
    assert_eq!(ed.cursor().x, 2);
    assert_eq!(ed.screen().get_col_offset(), 1);
    assert_eq!(ed.absolute_position().x(), 3);
}

#[test]
fn navigation_stays_inside_the_document_under_any_key_sequence() {
    let mut ed = Editor::new(4, 4);
    assert!(ed.load(doc(&["abcdef", "x", "", "long line here"]), "t".to_string()));
    let moves = [
        Direction::Right, Direction::Right, Direction::Down, Direction::Left,
        Direction::Down, Direction::Down, Direction::Right, Direction::Up,
        Direction::Right, Direction::Right, Direction::Right, Direction::Down,
        Direction::Down, Direction::Left, Direction::Up, Direction::Right,
    ];
    for (i, d) in moves.iter().cycle().take(200).enumerate() {
        ed.move_cursor(*d);
        let pos = ed.absolute_position();
        let y = pos.y() as usize;
        assert!(y < ed.line_count(), "row out of range at step {}", i);
        assert!(
            (pos.x() as usize) <= ed.get_row(y).len(),
            "column out of range at step {}",
            i
        );
    }
}

#[test]
fn insert_char_splices_and_advances() {
    // document ["ab"], cursor (0,0): insert 'x' gives ["xab"], cursor (1,0), dirty
    let mut ed = editor_with(&["ab"]);
    ed.insert_char('x');
    assert_eq!(ed.line_count(), 1);
    assert_eq!(ed.get_row(0), line("xab"));
    assert_eq!(ed.absolute_position().x(), 1);
    assert_eq!(ed.absolute_position().y(), 0);
    assert!(ed.is_dirty());
}

#[test]
fn insert_char_in_the_middle_of_a_line() {
    let mut ed = editor_with(&["ac"]);
    ed.move_cursor(Direction::Right);
    ed.insert_char('b');
    assert_eq!(ed.get_row(0), line("abc"));
    assert_eq!(ed.absolute_position().x(), 2);
}

#[test]
fn insert_then_backspace_restores_document_and_position() {
    let mut ed = editor_with(&["hello", "world"]);
    ed.move_cursor(Direction::Down);
    ed.move_cursor(Direction::Right);
    ed.move_cursor(Direction::Right);
    let before_x = ed.absolute_position().x();
    let before_y = ed.absolute_position().y();
    ed.insert_char('q');
    ed.process_backspace();
    assert_eq!(ed.get_row(0), line("hello"));
    assert_eq!(ed.get_row(1), line("world"));
    assert_eq!(ed.absolute_position().x(), before_x);
    assert_eq!(ed.absolute_position().y(), before_y);
}

#[test]
fn enter_splits_the_line_at_the_cursor() {
    let mut ed = editor_with(&["abcd"]);
    ed.move_cursor(Direction::Right);
    ed.move_cursor(Direction::Right);
    ed.insert_enter();
    assert_eq!(ed.line_count(), 2);
    assert_eq!(ed.get_row(0), line("ab"));
    assert_eq!(ed.get_row(1), line("cd"));
    assert_eq!(ed.absolute_position().x(), 0);
    assert_eq!(ed.absolute_position().y(), 1);
    assert!(ed.is_dirty());
}

#[test]
fn enter_then_backspace_merges_the_lines_back() {
    let mut ed = editor_with(&["abcd"]);
    ed.move_cursor(Direction::Right);
    ed.move_cursor(Direction::Right);
    ed.insert_enter();
    ed.process_backspace();
    assert_eq!(ed.line_count(), 1);
    assert_eq!(ed.get_row(0), line("abcd"));
    assert_eq!(ed.absolute_position().x(), 2);
    assert_eq!(ed.absolute_position().y(), 0);
}

#[test]
fn backspace_at_document_start_changes_nothing() {
    let mut ed = editor_with(&["ab"]);
    ed.process_backspace();
    assert_eq!(ed.get_row(0), line("ab"));
    assert_eq!(ed.absolute_position().x(), 0);
    assert_eq!(ed.absolute_position().y(), 0);
    assert!(!ed.is_dirty());
}

#[test]
fn backspace_at_column_zero_merges_onto_previous_line() {
    let mut ed = editor_with(&["ab", "cd"]);
    ed.move_cursor(Direction::Down);
    ed.process_backspace();
    assert_eq!(ed.line_count(), 1);
    assert_eq!(ed.get_row(0), line("abcd"));
    assert_eq!(ed.absolute_position().x(), 2);
    assert_eq!(ed.absolute_position().y(), 0);
    assert!(ed.is_dirty());
}

#[test]
fn backspace_removes_the_character_to_the_left() {
    let mut ed = editor_with(&["abc"]);
    ed.move_cursor(Direction::Right);
    ed.move_cursor(Direction::Right);
    ed.process_backspace();
    assert_eq!(ed.get_row(0), line("ac"));
    assert_eq!(ed.absolute_position().x(), 1);
    assert!(ed.is_dirty());
}

#[test]
fn delete_at_end_of_last_line_is_a_no_op() {
    let mut ed = editor_with(&["ab"]);
    ed.move_cursor(Direction::Right);
    ed.move_cursor(Direction::Right);
    ed.process_delete();
    assert_eq!(ed.line_count(), 1);
    assert_eq!(ed.get_row(0), line("ab"));
    assert!(!ed.is_dirty());
}

#[test]
fn delete_at_end_of_a_line_merges_the_next_one() {
    let mut ed = editor_with(&["ab", "cd"]);
    ed.move_cursor(Direction::Right);
    ed.move_cursor(Direction::Right);
    ed.process_delete();
    assert_eq!(ed.line_count(), 1);
    assert_eq!(ed.get_row(0), line("abcd"));
    assert_eq!(ed.absolute_position().x(), 2);
    assert_eq!(ed.absolute_position().y(), 0);
    assert!(ed.is_dirty());
}

#[test]
fn delete_removes_the_character_under_the_cursor() {
    let mut ed = editor_with(&["abc"]);
    ed.move_cursor(Direction::Right);
    ed.process_delete();
    assert_eq!(ed.get_row(0), line("ac"));
    assert_eq!(ed.absolute_position().x(), 1);
}

#[test]
fn saving_clears_the_dirty_flag() {
    let mut ed = editor_with(&["ab"]);
    ed.insert_char('x');
    assert!(ed.is_dirty());
    ed.mark_saved();
    assert!(!ed.is_dirty());
}

#[test]
fn joined_content_puts_newlines_between_lines() {
    let ed = editor_with(&["ab", "", "cd"]);
    let joined: String = ed.joined_content().into_iter().collect();
    assert_eq!(joined, "ab\n\ncd".to_string());
}

#[test]
fn joined_content_of_a_single_line_has_no_newline() {
    let ed = editor_with(&["ab"]);
    let joined: String = ed.joined_content().into_iter().collect();
    assert_eq!(joined, "ab".to_string());
}

#[test]
fn set_file_name_renames_the_buffer() {
    let mut ed = Editor::new(80, 24);
    assert!(ed.is_untitled());
    ed.set_file_name("notes.txt".to_string());
    assert!(!ed.is_untitled());
    assert_eq!(ed.file_name(), "notes.txt".to_string());
}

#[test]
fn status_message_lives_on_the_editor_too() {
    let mut ed = Editor::new(80, 24);
    ed.set_status_msg("HELP: Ctrl-Q = quit | Ctrl-S = save".to_string(), 100);
    assert_eq!(
        ed.status_msg(),
        "HELP: Ctrl-Q = quit | Ctrl-S = save".to_string()
    );
    assert!(ed.status_is_fresh(1099));
    assert!(!ed.status_is_fresh(1100));
}

#[test]
fn visible_row_windows_the_line() {
    let mut ed = Editor::new(3, 4);
    assert!(ed.load(doc(&["abcdef", "gh"]), "t".to_string()));
    assert_eq!(ed.visible_row(0), Some(line("abc")));
    assert_eq!(ed.visible_row(1), Some(line("gh")));
    assert_eq!(ed.visible_row(2), None);
}

#[test]
fn visible_row_honours_both_offsets() {
    let mut ed = Editor::new(3, 4);
    assert!(ed.load(doc(&["abcdef", "gh", "ij"]), "t".to_string()));
    // walk right until the window scrolls twice
    for _ in 0..4 {
        ed.move_cursor(Direction::Right);
    }
    assert_eq!(ed.screen().get_col_offset(), 2);
    assert_eq!(ed.visible_row(0), Some(line("cde")));
    // the shorter lines are exhausted by the scroll
    assert_eq!(ed.visible_row(1), Some(line("")));
}

#[test]
fn cursor_end_of_line_clamps_the_row() {
    let ed = editor_with(&["abc", "de"]);
    let eol = ed.cursor_end_of_line(1);
    assert_eq!(eol.x(), 2);
    assert_eq!(eol.y(), 1);
    let clamped = ed.cursor_end_of_line(99);
    assert_eq!(clamped.x(), 2);
    assert_eq!(clamped.y(), 1);
}
