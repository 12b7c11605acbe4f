use vstd::prelude::*;

use crate::coords::Coordinates;
use crate::directions::Direction;
use crate::editor::{lemma_editor_view, Editor, EditorView};
use crate::screen::ScreenView;

verus! {

broadcast use lemma_editor_view;

impl EditorView {
    /// The document row that an end-of-line lookup resolves `y` to: `y`
    /// clamped to the last existing line.
    pub open spec fn eol_row(&self, y: int) -> int {
        vstd::math::min(y, self.rows.len() - 1)
    }

    /// The end-of-line column of the clamped row `y`: the line's length,
    /// a valid cursor position just past the last character.
    pub open spec fn eol_col(&self, y: int) -> int {
        self.rows[self.eol_row(y)].len() as int
    }

    /// The cursor's column pulled back onto the line it now stands on: the
    /// window-relative column drops to the line's end-of-line column if it
    /// passed it, and the horizontal scroll resets when the absolute column
    /// would still reach past the line's end.
    pub open spec fn clamp_x_spec(&self) -> EditorView {
        let e = self.cur_line().len() as int;
        let nx = vstd::math::min(self.cursor_x as int, e);
        if nx + self.screen.col_offset > e {
            EditorView {
                cursor_x: nx as u16,
                screen: ScreenView { col_offset: 0u16, ..self.screen },
                ..*self
            }
        } else {
            EditorView { cursor_x: nx as u16, ..*self }
        }
    }
}

/// One step toward the document start: the cursor row decrements inside the
/// window, or the window scrolls up one row; either way the column is
/// clamped to the target line. At the very top nothing happens.
pub open spec fn move_up_spec(v: EditorView) -> EditorView {
    if v.cursor_y > 0 {
        EditorView { cursor_y: (v.cursor_y - 1) as u16, ..v }.clamp_x_spec()
    } else if v.screen.row_offset > 0 {
        EditorView {
            screen: ScreenView { row_offset: (v.screen.row_offset - 1) as u16, ..v.screen },
            ..v
        }.clamp_x_spec()
    } else {
        v
    }
}

/// One step toward the document end, refused on the last line: the cursor
/// row increments inside the window, or the window scrolls down one row;
/// either way the column is clamped to the target line.
pub open spec fn move_down_spec(v: EditorView) -> EditorView {
    if v.abs_row() + 1 >= v.rows.len() {
        v
    } else if v.cursor_y + 1 < v.screen.height {
        EditorView { cursor_y: (v.cursor_y + 1) as u16, ..v }.clamp_x_spec()
    } else {
        EditorView {
            screen: ScreenView { row_offset: (v.screen.row_offset + 1) as u16, ..v.screen },
            ..v
        }.clamp_x_spec()
    }
}

/// One column to the left. Inside the window the column steps back (clamped
/// to the line). At window column 0: scroll one column left if the window is
/// scrolled; at the document start do nothing; otherwise wrap to the end of
/// the previous row, scrolling right just enough when that end-of-line
/// column does not fit the window's width.
pub open spec fn move_left_spec(v: EditorView) -> EditorView {
    if v.cursor_x > 0 {
        EditorView { cursor_x: (v.cursor_x - 1) as u16, ..v }.clamp_x_spec()
    } else if v.screen.col_offset > 0 {
        EditorView {
            screen: ScreenView { col_offset: (v.screen.col_offset - 1) as u16, ..v.screen },
            ..v
        }
    } else if v.abs_row() == 0 {
        v
    } else {
        let e = v.rows[v.abs_row() - 1].len() as int;
        let ncy: u16 = if v.cursor_y > 0 {
            (v.cursor_y - 1) as u16
        } else {
            0u16
        };
        let nro: u16 = if v.cursor_y > 0 {
            v.screen.row_offset
        } else {
            (v.screen.row_offset - 1) as u16
        };
        if e >= v.screen.width {
            EditorView {
                cursor_x: (v.screen.width - 1) as u16,
                cursor_y: ncy,
                screen: ScreenView {
                    row_offset: nro,
                    col_offset: (e - (v.screen.width - 1)) as u16,
                    ..v.screen
                },
                ..v
            }
        } else {
            EditorView {
                cursor_x: e as u16,
                cursor_y: ncy,
                screen: ScreenView { row_offset: nro, col_offset: 0u16, ..v.screen },
                ..v
            }
        }
    }
}

/// One column to the right. Before the line's end the column advances, the
/// window scrolling right when the cursor already sits at its right edge. At
/// the line's end the cursor wraps to the start of the next row — scrolling
/// down when it sits at the window's bottom — and does nothing at the end of
/// the last line.
pub open spec fn move_right_spec(v: EditorView) -> EditorView {
    let e = v.cur_line().len() as int;
    if v.abs_col() < e {
        if v.cursor_x + 1 < v.screen.width {
            EditorView { cursor_x: (v.cursor_x + 1) as u16, ..v }
        } else {
            EditorView {
                screen: ScreenView { col_offset: (v.screen.col_offset + 1) as u16, ..v.screen },
                ..v
            }
        }
    } else {
        if v.abs_row() + 1 >= v.rows.len() {
            v
        } else if v.cursor_y + 1 < v.screen.height {
            EditorView {
                cursor_x: 0u16,
                cursor_y: (v.cursor_y + 1) as u16,
                screen: ScreenView { col_offset: 0u16, ..v.screen },
                ..v
            }
        } else {
            EditorView {
                cursor_x: 0u16,
                screen: ScreenView {
                    col_offset: 0u16,
                    row_offset: (v.screen.row_offset + 1) as u16,
                    ..v.screen
                },
                ..v
            }
        }
    }
}

/// What one navigation step does to the editor state.
pub open spec fn move_spec(v: EditorView, direction: Direction) -> EditorView {
    match direction {
        Direction::Up => move_up_spec(v),
        Direction::Down => move_down_spec(v),
        Direction::Left => move_left_spec(v),
        Direction::Right => move_right_spec(v),
    }
}

/// What a whole sequence of navigation steps does, first step first.
pub open spec fn moves_spec(v: EditorView, directions: Seq<Direction>) -> EditorView
    decreases directions.len(),
{
    if directions.len() == 0 {
        v
    } else {
        moves_spec(move_spec(v, directions[0]), directions.drop_first())
    }
}

impl Editor {
    /// The clamped row and its end-of-line column for document row `y`: the
    /// single join point that keeps every navigation branch consistent with
    /// the document's current line lengths.
    pub fn cursor_end_of_line(&self, y: usize) -> (r: Coordinates)
        requires
            self@.wf(),
        ensures
            r.y == self@.eol_row(y as int),
            r.x == self@.eol_col(y as int),
    {
        let last = self.rows.len() - 1;
        let true_y: usize = if y < last {
            y
        } else {
            last
        };
        let true_x: usize = self.rows[true_y].len();
        Coordinates::new(true_x as u16, true_y as u16)
    }

    /// Pull the cursor's column back onto the line it stands on, resetting
    /// the horizontal scroll when the absolute column would still pass the
    /// line's end.
    fn clamp_cursor_to_line(&mut self)
        requires
            old(self)@.frame_ok(),
        ensures
            final(self)@ == old(self)@.clamp_x_spec(),
            final(self)@.wf(),
    {
        let row = self.cursor.y() as usize + self.screen.get_row_offset() as usize;
        let e_len: usize = self.rows[row].len();
        let e: u16 = e_len as u16;
        let nx: u16 = if self.cursor.x() < e {
            self.cursor.x()
        } else {
            e
        };
        if nx as usize + self.screen.get_col_offset() as usize > e_len {
            self.screen.reset_column_offset();
        }
        self.cursor = Coordinates::new(nx, self.cursor.y());
        proof {
            assert(self@ =~= old(self)@.clamp_x_spec());
        }
    }

    /// One navigation step. Out-of-range requests degrade to no-ops or to a
    /// scroll-only adjustment; navigation never fails and never edits the
    /// document.
    pub fn move_cursor(&mut self, direction: Direction)
        requires
            old(self)@.wf(),
        ensures
            final(self)@ == move_spec(old(self)@, direction),
            final(self)@.wf(),
    {
        match direction {
            Direction::Up => {
                if self.cursor.y() > 0 {
                    self.cursor = Coordinates::new(self.cursor.x(), self.cursor.y() - 1);
                    self.clamp_cursor_to_line();
                } else if self.screen.get_row_offset() > 0 {
                    self.screen.scroll_up(1);
                    self.clamp_cursor_to_line();
                }
                proof {
                    assert(self@ =~= move_up_spec(old(self)@));
                }
            }
            Direction::Down => {
                let ay = self.cursor.y() as usize + self.screen.get_row_offset() as usize;
                if ay + 1 >= self.rows.len() {
                    // last line: refuse to move past it
                } else if self.cursor.y() + 1 < self.screen.height() {
                    self.cursor = Coordinates::new(self.cursor.x(), self.cursor.y() + 1);
                    self.clamp_cursor_to_line();
                } else {
                    proof {
                        assert(old(self)@.abs_row() + 1 < old(self)@.rows.len());
                        assert(old(self)@.screen.row_offset < old(self)@.rows.len());
                        assert(old(self)@.screen.row_offset + 1 <= u16::MAX);
                    }
                    self.screen.scroll_down(1);
                    proof {
                        assert(self@.screen.row_offset == old(self)@.screen.row_offset + 1);
                        assert(self@.frame_ok());
                    }
                    self.clamp_cursor_to_line();
                }
                proof {
                    assert(self@ =~= move_down_spec(old(self)@));
                }
            }
            Direction::Left => {
                if self.cursor.x() > 0 {
                    self.cursor = Coordinates::new(self.cursor.x() - 1, self.cursor.y());
                    self.clamp_cursor_to_line();
                } else if self.screen.get_col_offset() > 0 {
                    self.screen.scroll_left(1);
                } else {
                    let ay = self.cursor.y() as usize + self.screen.get_row_offset() as usize;
                    if ay == 0 {
                        // beginning of file
                    } else {
                        proof {
                            assert(self@.rows[ay as int - 1].len() <= u16::MAX);
                        }
                        let e_len: usize = self.rows[ay - 1].len();
                        let e: u16 = e_len as u16;
                        if self.cursor.y() > 0 {
                            self.cursor = Coordinates::new(self.cursor.x(), self.cursor.y() - 1);
                        } else {
                            self.screen.scroll_up(1);
                        }
                        if e >= self.screen.width() {
                            self.screen.scroll_right(e - (self.screen.width() - 1));
                            self.cursor = Coordinates::new(self.screen.width() - 1, self.cursor.y());
                        } else {
                            self.cursor = Coordinates::new(e, self.cursor.y());
                        }
                    }
                }
                proof {
                    assert(self@ =~= move_left_spec(old(self)@));
                }
            }
            Direction::Right => {
                let ay = self.cursor.y() as usize + self.screen.get_row_offset() as usize;
                let e_len: usize = self.rows[ay].len();
                let ax = self.cursor.x() as usize + self.screen.get_col_offset() as usize;
                if ax < e_len {
                    if self.cursor.x() + 1 < self.screen.width() {
                        self.cursor = Coordinates::new(self.cursor.x() + 1, self.cursor.y());
                    } else {
                        self.screen.scroll_right(1);
                    }
                } else {
                    if ay + 1 >= self.rows.len() {
                        // end of file
                    } else if self.cursor.y() + 1 < self.screen.height() {
                        self.cursor = Coordinates::new(0, self.cursor.y() + 1);
                        self.screen.reset_column_offset();
                    } else {
                        self.screen.scroll_down(1);
                        self.cursor = Coordinates::new(0, self.cursor.y());
                        self.screen.reset_column_offset();
                    }
                }
                proof {
                    assert(self@ =~= move_right_spec(old(self)@));
                }
            }
        }
    }
}

} // verus!
