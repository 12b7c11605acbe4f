use miniedit::directions::Direction;
use miniedit::editor::Editor;

fn line(s: &str) -> Vec<char> {
    s.chars().collect()
}

#[test]
fn up_at_the_window_top_scrolls_the_view_up() {
    // terminal height 2 leaves a single text row, so every vertical move
    // becomes a scroll
    let mut ed = Editor::new(10, 2);
    assert!(ed.load(vec![line("a"), line("b"), line("c")], "t".to_string()));
    ed.move_cursor(Direction::Down);
    ed.move_cursor(Direction::Down);
    assert_eq!(ed.screen().get_row_offset(), 2);
    assert_eq!(ed.absolute_position().y(), 2);
    ed.move_cursor(Direction::Up);
    assert_eq!(ed.screen().get_row_offset(), 1);
    assert_eq!(ed.absolute_position().y(), 1);
}

#[test]
fn left_with_a_scrolled_window_reveals_one_more_column() {
    let mut ed = Editor::new(3, 4);
    assert!(ed.load(vec![line("abcdef")], "t".to_string()));
    for _ in 0..4 {
        ed.move_cursor(Direction::Right);
    }
    assert_eq!(ed.screen().get_col_offset(), 2);
    assert_eq!(ed.cursor().x, 2);
    ed.move_cursor(Direction::Left);
    assert_eq!(ed.cursor().x, 1);
    assert_eq!(ed.screen().get_col_offset(), 2);
    ed.move_cursor(Direction::Left);
    ed.move_cursor(Direction::Left);
    // window column 0 with a nonzero offset: scroll left instead of moving
    assert_eq!(ed.cursor().x, 0);
    assert_eq!(ed.screen().get_col_offset(), 1);
    ed.move_cursor(Direction::Left);
    assert_eq!(ed.screen().get_col_offset(), 0);
    assert_eq!(ed.absolute_position().x(), 0);
}

#[test]
fn left_wrap_onto_a_long_line_scrolls_it_into_view() {
    let mut ed = Editor::new(4, 4);
    assert!(ed.load(vec![line("abcdefgh"), line("x")], "t".to_string()));
    ed.move_cursor(Direction::Down);
    ed.move_cursor(Direction::Left);
    // the previous line's end column 8 does not fit a 4-column window
    assert_eq!(ed.absolute_position().x(), 8);
    assert_eq!(ed.absolute_position().y(), 0);
    assert_eq!(ed.cursor().x, 3);
    assert_eq!(ed.screen().get_col_offset(), 5);
}

#[test]
fn insert_into_a_line_at_the_length_limit_is_refused() {
    let mut ed = Editor::new(10, 11);
    let full: Vec<char> = vec!['x'; u16::MAX as usize];
    assert!(ed.load(vec![full.clone()], "t".to_string()));
    ed.insert_char('y');
    assert_eq!(ed.get_row(0), full);
    assert_eq!(ed.absolute_position().x(), 0);
    assert!(!ed.is_dirty());
}

#[test]
fn line_break_at_the_line_count_limit_is_refused() {
    let mut ed = Editor::new(10, 11);
    let many: Vec<Vec<char>> = vec![Vec::new(); u16::MAX as usize];
    assert!(ed.load(many, "t".to_string()));
    ed.insert_enter();
    assert_eq!(ed.line_count(), u16::MAX as usize);
    assert!(!ed.is_dirty());
}

#[test]
fn merge_that_would_pass_the_length_limit_is_refused() {
    let mut ed = Editor::new(10, 11);
    let a: Vec<char> = vec!['a'; 60000];
    let b: Vec<char> = vec!['b'; 6000];
    assert!(ed.load(vec![a.clone(), b.clone()], "t".to_string()));
    ed.move_cursor(Direction::Down);
    ed.process_backspace();
    assert_eq!(ed.line_count(), 2);
    assert_eq!(ed.get_row(0), a);
    assert_eq!(ed.get_row(1), b);
    assert!(!ed.is_dirty());
}

#[test]
fn delete_merge_that_would_pass_the_length_limit_is_refused() {
    let mut ed = Editor::new(10, 11);
    let a: Vec<char> = vec!['a'; 60000];
    let b: Vec<char> = vec!['b'; 6000];
    assert!(ed.load(vec![a.clone(), b.clone()], "t".to_string()));
    // walk to the end of the first line
    ed.go_to_coordinate(miniedit::coords::Coordinates::new(60000, 0));
    assert_eq!(ed.absolute_position().x(), 60000);
    ed.process_delete();
    assert_eq!(ed.line_count(), 2);
    assert_eq!(ed.get_row(0), a);
    assert!(!ed.is_dirty());
}
