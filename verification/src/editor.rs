use vstd::prelude::*;

use crate::coords::Coordinates;
use crate::screen::{Screen, ScreenView};

verus! {

/// The whole editor: the visible window, the cursor, the line buffer, the
/// file name and the dirty flag.
///
/// The cursor is kept window-relative; its absolute document position is
/// `(cursor.x + col_offset, cursor.y + row_offset)`. Every operation
/// preserves [`EditorView::wf`]: the cursor stays inside the window, the
/// absolute row stays inside the document, and the absolute column never
/// passes the end of its line.
pub struct Editor {
    pub(crate) screen: Screen,
    pub(crate) cursor: Coordinates,
    pub(crate) rows: Vec<Vec<char>>,
    pub(crate) file_name: String,
    pub(crate) has_changed: bool,
}

/// The mathematical state of an [`Editor`].
#[verifier::ext_equal]
pub struct EditorView {
    pub screen: ScreenView,
    pub cursor_x: u16,
    pub cursor_y: u16,
    pub rows: Seq<Seq<char>>,
    pub file_name: Seq<char>,
    pub has_changed: bool,
}

/// The sequence of lines a vector of character rows stands for.
pub open spec fn rows_view(rows: Seq<Vec<char>>) -> Seq<Seq<char>> {
    Seq::new(rows.len(), |i: int| rows[i]@)
}

pub(crate) open spec fn editor_view(e: &Editor) -> EditorView {
    EditorView {
        screen: e.screen@,
        cursor_x: e.cursor.x,
        cursor_y: e.cursor.y,
        rows: rows_view(e.rows@),
        file_name: e.file_name@,
        has_changed: e.has_changed,
    }
}

impl View for Editor {
    type V = EditorView;

    closed spec fn view(&self) -> EditorView {
        editor_view(self)
    }
}

/// What [`Editor::view`] is, spelled out for the crate's own proofs.
pub(crate) broadcast proof fn lemma_editor_view(e: &Editor)
    ensures
        #[trigger] e@ == editor_view(e),
{
}

impl EditorView {
    /// The document row the cursor stands on.
    pub open spec fn abs_row(&self) -> int {
        self.cursor_y + self.screen.row_offset
    }

    /// The document column the cursor stands on; the column equal to the
    /// line's length is a valid position, just past the last character.
    pub open spec fn abs_col(&self) -> int {
        self.cursor_x + self.screen.col_offset
    }

    /// The line under the cursor.
    pub open spec fn cur_line(&self) -> Seq<char> {
        self.rows[self.abs_row()]
    }

    /// Everything [`EditorView::wf`] demands except the column clamp: the
    /// window is not degenerate, the document holds at least one line and
    /// fits the 16-bit coordinate space, the cursor sits inside the window,
    /// and its absolute row sits inside the document.
    pub open spec fn frame_ok(&self) -> bool {
        &&& self.screen.width >= 1
        &&& self.screen.height >= 1
        &&& 1 <= self.rows.len() <= u16::MAX
        &&& (forall|i: int|
            0 <= i < self.rows.len() ==> (#[trigger] self.rows[i]).len() <= u16::MAX)
        &&& (self.cursor_x as int) < self.screen.width
        &&& (self.cursor_y as int) < self.screen.height
        &&& 0 <= self.abs_row() < self.rows.len()
    }

    /// The editor's standing invariant: [`EditorView::frame_ok`], and the
    /// absolute column never passes the end of its line (the column equal to
    /// the line's length is valid: just past the last character).
    pub open spec fn wf(&self) -> bool {
        &&& self.frame_ok()
        &&& 0 <= self.abs_col() <= self.cur_line().len()
    }
}

/// The state a fresh editor starts in: a single empty line, an untitled
/// buffer, the cursor at the origin.
pub open spec fn init_spec(width: u16, height: u16) -> EditorView {
    EditorView {
        screen: ScreenView {
            width,
            height: (height - 1) as u16,
            row_offset: 0u16,
            col_offset: 0u16,
            status_msg: Seq::<char>::empty(),
            status_time: 0u64,
        },
        cursor_x: 0u16,
        cursor_y: 0u16,
        rows: seq![Seq::<char>::empty()],
        file_name: "[New file]"@,
        has_changed: false,
    }
}

/// An empty sequence of lines stands for the empty document, which is kept
/// as a single empty line so that a valid cursor target always exists.
pub open spec fn normalize_rows(rows: Seq<Seq<char>>) -> Seq<Seq<char>> {
    if rows.len() == 0 {
        seq![Seq::<char>::empty()]
    } else {
        rows
    }
}

/// Whether a document fits the editor's 16-bit coordinate space: at least
/// one line, at most `u16::MAX` lines, no line longer than `u16::MAX`.
pub open spec fn doc_ok(rows: Seq<Seq<char>>) -> bool {
    &&& 1 <= rows.len() <= u16::MAX
    &&& (forall|i: int| 0 <= i < rows.len() ==> (#[trigger] rows[i]).len() <= u16::MAX)
}

/// The state after loading a document: the given lines and name, the cursor
/// and both scroll offsets back at the origin, the buffer clean.
pub open spec fn load_spec(v: EditorView, rows: Seq<Seq<char>>, name: Seq<char>) -> EditorView {
    EditorView {
        screen: ScreenView { row_offset: 0u16, col_offset: 0u16, ..v.screen },
        cursor_x: 0u16,
        cursor_y: 0u16,
        rows: normalize_rows(rows),
        file_name: name,
        has_changed: false,
    }
}

impl Editor {
    /// A fresh editor for a terminal of the given size. One terminal row is
    /// reserved for the status bar, so `height` must leave at least one text
    /// row under it.
    pub fn new(width: u16, height: u16) -> (r: Self)
        requires
            width >= 1,
            height >= 2,
        ensures
            r@ == init_spec(width, height),
            r@.wf(),
    {
        let r = Self {
            screen: Screen::new(width, height),
            cursor: Coordinates::origin(),
            rows: vec![Vec::new()],
            file_name: "[New file]".to_owned(),
            has_changed: false,
        };
        proof {
            assert(rows_view(r.rows@) =~= seq![Seq::<char>::empty()]);
            assert(r@ =~= init_spec(width, height));
        }
        r
    }

    /// Replace the buffer with a loaded document and take its file name.
    ///
    /// An empty line list is accepted and stored as a single empty line.
    /// A document too large for the 16-bit coordinate space is refused:
    /// `false` comes back and nothing changes.
    pub fn load(&mut self, lines: Vec<Vec<char>>, name: String) -> (r: bool)
        requires
            old(self)@.wf(),
        ensures
            r == doc_ok(normalize_rows(rows_view(lines@))),
            r ==> final(self)@ == load_spec(old(self)@, rows_view(lines@), name@),
            r ==> final(self)@.wf(),
            !r ==> final(self)@ == old(self)@,
    {
        let ghost target = rows_view(lines@);
        if lines.len() > u16::MAX as usize {
            return false;
        }
        let mut i: usize = 0;
        while i < lines.len()
            invariant
                i <= lines.len(),
                forall|j: int| 0 <= j < i ==> (#[trigger] lines@[j])@.len() <= u16::MAX,
            decreases lines.len() - i,
        {
            if lines[i].len() > u16::MAX as usize {
                proof {
                    assert(normalize_rows(rows_view(lines@)) == rows_view(lines@));
                    assert(rows_view(lines@)[i as int].len() > u16::MAX);
                }
                return false;
            }
            i += 1;
        }
        if lines.len() == 0 {
            self.rows = vec![Vec::new()];
        } else {
            self.rows = lines;
        }
        self.cursor = Coordinates::origin();
        self.screen.reset_row_offset();
        self.screen.reset_column_offset();
        self.file_name = name;
        self.has_changed = false;
        proof {
            assert(rows_view(self.rows@) =~= normalize_rows(target));
            assert(self@ =~= load_spec(old(self)@, target, self.file_name@));
        }
        true
    }

    /// How many lines the document holds; at least 1.
    pub fn line_count(&self) -> (r: usize)
        ensures
            r == self@.rows.len(),
    {
        self.rows.len()
    }

    /// A copy of the document line at index `y`.
    pub fn get_row(&self, y: usize) -> (r: Vec<char>)
        requires
            y < self@.rows.len(),
        ensures
            r@ == self@.rows[y as int],
    {
        self.rows[y].clone()
    }

    /// Whether the buffer holds edits that were not saved yet.
    pub fn is_dirty(&self) -> (r: bool)
        ensures
            r == self@.has_changed,
    {
        self.has_changed
    }

    /// Record that the buffer was written out: the dirty flag clears.
    pub fn mark_saved(&mut self)
        ensures
            final(self)@ == (EditorView { has_changed: false, ..old(self)@ }),
    {
        self.has_changed = false;
        proof {
            assert(self@ =~= (EditorView { has_changed: false, ..old(self)@ }));
        }
    }

    /// A copy of the file name.
    pub fn file_name(&self) -> (r: String)
        ensures
            r@ == self@.file_name,
    {
        self.file_name.clone()
    }

    pub fn set_file_name(&mut self, name: String)
        ensures
            final(self)@ == (EditorView { file_name: name@, ..old(self)@ }),
    {
        self.file_name = name;
        proof {
            assert(self@ =~= (EditorView { file_name: self.file_name@, ..old(self)@ }));
        }
    }

    /// Whether the buffer still carries the placeholder name of a new file.
    pub fn is_untitled(&self) -> (r: bool)
        ensures
            r == (self@.file_name == "[New file]"@),
    {
        let placeholder: String = "[New file]".to_owned();
        self.file_name == placeholder
    }

    /// The window and scroll state, read-only.
    pub fn screen(&self) -> (r: &Screen)
        ensures
            r@ == self@.screen,
    {
        &self.screen
    }

    /// The window-relative cursor.
    pub fn cursor(&self) -> (r: Coordinates)
        ensures
            r.x == self@.cursor_x,
            r.y == self@.cursor_y,
    {
        self.cursor
    }

    /// The cursor's absolute document position.
    pub fn absolute_position(&self) -> (r: Coordinates)
        requires
            self@.wf(),
        ensures
            r.x == self@.abs_col(),
            r.y == self@.abs_row(),
    {
        Coordinates::new(
            self.cursor.x() + self.screen.get_col_offset(),
            self.cursor.y() + self.screen.get_row_offset(),
        )
    }

    /// Replace the status message; `now` is the caller's millisecond clock.
    pub fn set_status_msg(&mut self, msg: String, now: u64)
        ensures
            final(self)@ == (EditorView {
                screen: ScreenView { status_msg: msg@, status_time: now, ..old(self)@.screen },
                ..old(self)@
            }),
    {
        self.screen.set_status_msg(msg, now);
        proof {
            assert(self@ =~= (EditorView { screen: self.screen@, ..old(self)@ }));
        }
    }

    /// Whether the status message is younger than its one-second display
    /// window.
    pub fn status_is_fresh(&self, now: u64) -> (r: bool)
        ensures
            r == ((now as int) < (self@.screen.status_time as int) + 1000),
    {
        self.screen.status_is_fresh(now)
    }

    /// A copy of the status message.
    pub fn status_msg(&self) -> (r: String)
        ensures
            r@ == self@.screen.status_msg,
    {
        self.screen.status_msg()
    }

    /// The slice of the document visible on window row `screen_y`, if that
    /// row exists: the line scrolled by the column offset and cut to the
    /// window's width. `None` means the row lies past the document's end and
    /// shows a continuation marker instead.
    pub fn visible_row(&self, screen_y: u16) -> (r: Option<Vec<char>>)
        ensures
            r is Some <==> screen_y + self@.screen.row_offset < self@.rows.len(),
            (r matches Some(w) ==> w@ == window_spec(
                self@.rows[screen_y + self@.screen.row_offset],
                self@.screen.col_offset as int,
                self@.screen.width as int,
            )),
    {
        let row = screen_y as usize + self.screen.get_row_offset() as usize;
        if row >= self.rows.len() {
            return None;
        }
        let line = &self.rows[row];
        let co = self.screen.get_col_offset() as usize;
        let begin: usize = if line.len() < co {
            line.len()
        } else {
            co
        };
        let wanted = co + self.screen.width() as usize;
        let end: usize = if line.len() < wanted {
            line.len()
        } else {
            wanted
        };
        let mut out: Vec<char> = Vec::new();
        let mut i = begin;
        while i < end
            invariant
                begin <= i <= end <= line@.len(),
                out@ == line@.subrange(begin as int, i as int),
            decreases end - i,
        {
            out.push(line[i]);
            proof {
                assert(out@ =~= line@.subrange(begin as int, i + 1));
            }
            i += 1;
        }
        proof {
            assert(out@ =~= window_spec(
                self@.rows[screen_y + self@.screen.row_offset],
                self@.screen.col_offset as int,
                self@.screen.width as int,
            ));
        }
        Some(out)
    }

    /// The whole document as one character sequence, the lines joined by
    /// newlines: what a save writes out.
    pub fn joined_content(&self) -> (r: Vec<char>)
        ensures
            r@ == joined(self@.rows),
    {
        let mut out: Vec<char> = Vec::new();
        let mut y: usize = 0;
        while y < self.rows.len()
            invariant
                y <= self@.rows.len(),
                out@ == joined_upto(self@.rows, y as int),
            decreases self@.rows.len() - y,
        {
            if y > 0 {
                out.push('\n');
            }
            out.extend_from_slice(self.rows[y].as_slice());
            proof {
                assert(out@ =~= joined_upto(self@.rows, y + 1));
            }
            y += 1;
        }
        out
    }
}

/// The part of `line` a window of width `width`, scrolled `col_offset`
/// columns in, shows: the character range `[col_offset, col_offset + width)`
/// with both ends clamped to the line's length.
pub open spec fn window_spec(line: Seq<char>, col_offset: int, width: int) -> Seq<char> {
    line.subrange(
        vstd::math::min(line.len() as int, col_offset),
        vstd::math::min(line.len() as int, col_offset + width),
    )
}

/// The first `n` lines joined by newlines.
pub open spec fn joined_upto(rows: Seq<Seq<char>>, n: int) -> Seq<char>
    decreases n,
{
    if n <= 0 {
        Seq::empty()
    } else if n == 1 {
        rows[0]
    } else {
        joined_upto(rows, n - 1).push('\n') + rows[n - 1]
    }
}

/// The whole document joined by newlines: its serialized form.
pub open spec fn joined(rows: Seq<Seq<char>>) -> Seq<char> {
    joined_upto(rows, rows.len() as int)
}

} // verus!
