use vstd::prelude::*;

use crate::coords::Coordinates;
use crate::directions::Direction;
use crate::editor::{lemma_editor_view, rows_view, Editor, EditorView};
use crate::navigation::{move_down_spec, move_left_spec, move_right_spec};
use crate::screen::ScreenView;

verus! {

broadcast use lemma_editor_view;

/// Inserting a character: it is spliced into the line at the absolute
/// column, the buffer turns dirty, and the cursor steps right to track it.
/// A line already at the 16-bit length limit refuses the insertion.
pub open spec fn insert_char_spec(v: EditorView, ch: char) -> EditorView {
    let r = v.abs_row();
    let c = v.abs_col();
    if v.rows[r].len() >= u16::MAX {
        v
    } else {
        move_right_spec(
            EditorView { rows: v.rows.update(r, v.rows[r].insert(c, ch)), has_changed: true, ..v },
        )
    }
}

/// Inserting a line break: the line under the cursor splits at the absolute
/// column into a prefix, kept in place, and a suffix, inserted as the next
/// line; the cursor steps down and lands at column 0 with the horizontal
/// scroll reset; the buffer turns dirty. A document already at the 16-bit
/// line-count limit refuses the split.
pub open spec fn insert_enter_spec(v: EditorView) -> EditorView {
    if v.rows.len() >= u16::MAX {
        v
    } else {
        let r = v.abs_row();
        let c = v.abs_col();
        let line = v.rows[r];
        let pre = line.subrange(0, c);
        let post = line.subrange(c, line.len() as int);
        let v1 = EditorView {
            rows: v.rows.update(r, pre).insert(r + 1, post),
            has_changed: true,
            ..v
        };
        let v2 = move_down_spec(v1);
        EditorView { cursor_x: 0u16, screen: ScreenView { col_offset: 0u16, ..v2.screen }, ..v2 }
    }
}

/// Backspace. At the document start nothing happens. At column 0 of a later
/// row the row merges onto the end of the previous one, the cursor landing
/// at the join point (one step left, which wraps); the merge is refused when
/// the joined line would pass the 16-bit length limit. Anywhere else the
/// character left of the cursor goes away and the cursor steps left. Every
/// case but the no-ops turns the buffer dirty.
pub open spec fn backspace_spec(v: EditorView) -> EditorView {
    let r = v.abs_row();
    let c = v.abs_col();
    if c == 0 && r == 0 {
        v
    } else if c == 0 {
        if v.rows[r - 1].len() + v.rows[r].len() > u16::MAX {
            v
        } else {
            let v1 = move_left_spec(v);
            EditorView {
                rows: v.rows.update(r - 1, v.rows[r - 1] + v.rows[r]).remove(r),
                has_changed: true,
                ..v1
            }
        }
    } else {
        let v1 = move_left_spec(v);
        EditorView { rows: v.rows.update(r, v.rows[r].remove(c - 1)), has_changed: true, ..v1 }
    }
}

/// Delete-forward. At the end of the last line nothing happens. At the end
/// of an earlier row the next line merges onto this one and goes away, the
/// cursor staying put; the merge is refused when the joined line would pass
/// the 16-bit length limit. Anywhere else the character under the cursor
/// goes away, the cursor staying put. Every case but the no-ops turns the
/// buffer dirty.
pub open spec fn delete_spec(v: EditorView) -> EditorView {
    let r = v.abs_row();
    let c = v.abs_col();
    let e = v.rows[r].len() as int;
    if c == e && r == v.rows.len() - 1 {
        v
    } else if c == e {
        if v.rows[r].len() + v.rows[r + 1].len() > u16::MAX {
            v
        } else {
            EditorView {
                rows: v.rows.update(r, v.rows[r] + v.rows[r + 1]).remove(r + 1),
                has_changed: true,
                ..v
            }
        }
    } else {
        EditorView { rows: v.rows.update(r, v.rows[r].remove(c)), has_changed: true, ..v }
    }
}

impl Editor {
    /// Splice `ch` into the line at the cursor's absolute position and step
    /// right to sit behind it.
    pub fn insert_char(&mut self, ch: char)
        requires
            old(self)@.wf(),
        ensures
            final(self)@ == insert_char_spec(old(self)@, ch),
            final(self)@.wf(),
    {
        let row_i = self.cursor.y() as usize + self.screen.get_row_offset() as usize;
        let col_i = self.cursor.x() as usize + self.screen.get_col_offset() as usize;
        if self.rows[row_i].len() >= u16::MAX as usize {
            return;
        }
        self.has_changed = true;
        let mut line = self.rows.remove(row_i);
        line.insert(col_i, ch);
        self.rows.insert(row_i, line);
        proof {
            assert(rows_view(self.rows@) =~= old(self)@.rows.update(
                row_i as int,
                old(self)@.rows[row_i as int].insert(col_i as int, ch),
            ));
            assert(self@ =~= (EditorView {
                rows: old(self)@.rows.update(
                    row_i as int,
                    old(self)@.rows[row_i as int].insert(col_i as int, ch),
                ),
                has_changed: true,
                ..old(self)@
            }));
            assert(self@.wf());
        }
        self.move_cursor(Direction::Right);
    }

    /// Split the line at the cursor's absolute position and land at the
    /// start of the new line.
    pub fn insert_enter(&mut self)
        requires
            old(self)@.wf(),
        ensures
            final(self)@ == insert_enter_spec(old(self)@),
            final(self)@.wf(),
    {
        if self.rows.len() >= u16::MAX as usize {
            return;
        }
        let row_i = self.cursor.y() as usize + self.screen.get_row_offset() as usize;
        let col_i = self.cursor.x() as usize + self.screen.get_col_offset() as usize;
        self.has_changed = true;
        let mut line = self.rows.remove(row_i);
        let post = line.split_off(col_i);
        self.rows.insert(row_i, line);
        self.rows.insert(row_i + 1, post);
        proof {
            let ghost v = old(self)@;
            let ghost r = row_i as int;
            let ghost c = col_i as int;
            let ghost pre_l = v.rows[r].subrange(0, c);
            let ghost post_l = v.rows[r].subrange(c, v.rows[r].len() as int);
            assert(rows_view(self.rows@) =~= v.rows.update(r, pre_l).insert(r + 1, post_l));
            assert(self@ =~= (EditorView {
                rows: v.rows.update(r, pre_l).insert(r + 1, post_l),
                has_changed: true,
                ..v
            }));
            assert(self@.wf());
        }
        self.move_cursor(Direction::Down);
        self.cursor = Coordinates::new(0, self.cursor.y());
        self.screen.reset_column_offset();
        proof {
            assert(self@ =~= insert_enter_spec(old(self)@));
            assert(self@.wf());
        }
    }

    /// Remove the character left of the cursor, or merge this row onto the
    /// previous one when the cursor sits at column 0.
    pub fn process_backspace(&mut self)
        requires
            old(self)@.wf(),
        ensures
            final(self)@ == backspace_spec(old(self)@),
            final(self)@.wf(),
    {
        let row_i = self.cursor.y() as usize + self.screen.get_row_offset() as usize;
        let col_i = self.cursor.x() as usize + self.screen.get_col_offset() as usize;
        if col_i == 0 && row_i == 0 {
            return;
        }
        if col_i == 0 {
            proof {
                assert(old(self)@.rows[row_i as int - 1].len() <= u16::MAX);
            }
            if u16::MAX as usize - self.rows[row_i - 1].len() < self.rows[row_i].len() {
                return;
            }
            self.move_cursor(Direction::Left);
            let mut cur = self.rows.remove(row_i);
            let mut prev = self.rows.remove(row_i - 1);
            prev.append(&mut cur);
            self.rows.insert(row_i - 1, prev);
            proof {
                let ghost v = old(self)@;
                let ghost r = row_i as int;
                assert(rows_view(self.rows@) =~= v.rows.update(r - 1, v.rows[r - 1] + v.rows[r])
                    .remove(r));
            }
        } else {
            self.move_cursor(Direction::Left);
            let mut line = self.rows.remove(row_i);
            line.remove(col_i - 1);
            self.rows.insert(row_i, line);
            proof {
                let ghost v = old(self)@;
                let ghost r = row_i as int;
                assert(rows_view(self.rows@) =~= v.rows.update(r, v.rows[r].remove(col_i - 1)));
            }
        }
        self.has_changed = true;
        proof {
            assert(self@ =~= backspace_spec(old(self)@));
            assert(self@.wf());
        }
    }

    /// Remove the character under the cursor, or merge the next row onto
    /// this one when the cursor sits at the end of the line.
    pub fn process_delete(&mut self)
        requires
            old(self)@.wf(),
        ensures
            final(self)@ == delete_spec(old(self)@),
            final(self)@.wf(),
    {
        let row_i = self.cursor.y() as usize + self.screen.get_row_offset() as usize;
        let col_i = self.cursor.x() as usize + self.screen.get_col_offset() as usize;
        let e_len = self.rows[row_i].len();
        if col_i == e_len && row_i == self.rows.len() - 1 {
            return;
        }
        if col_i == e_len {
            if u16::MAX as usize - e_len < self.rows[row_i + 1].len() {
                return;
            }
            let mut next = self.rows.remove(row_i + 1);
            let mut line = self.rows.remove(row_i);
            line.append(&mut next);
            self.rows.insert(row_i, line);
            proof {
                let ghost v = old(self)@;
                let ghost r = row_i as int;
                assert(rows_view(self.rows@) =~= v.rows.update(r, v.rows[r] + v.rows[r + 1])
                    .remove(r + 1));
            }
        } else {
            let mut line = self.rows.remove(row_i);
            line.remove(col_i);
            self.rows.insert(row_i, line);
            proof {
                let ghost v = old(self)@;
                let ghost r = row_i as int;
                assert(rows_view(self.rows@) =~= v.rows.update(r, v.rows[r].remove(col_i as int)));
            }
        }
        self.has_changed = true;
        proof {
            assert(self@ =~= delete_spec(old(self)@));
            assert(self@.wf());
        }
    }
}

} // verus!
