use vstd::prelude::*;

verus! {

/// The visible window into the document, plus the transient status message.
///
/// `width` and `height` are the dimensions of the text area, fixed at session
/// start; `height` is the terminal height minus the row reserved for the
/// status bar. `row_offset` and `col_offset` say which document row and
/// column are aligned with the window's top-left corner: the absolute
/// document cell shown at window cell `(c, r)` is
/// `(c + col_offset, r + row_offset)`.
///
/// The status message carries the instant it was set, as a caller-supplied
/// millisecond clock value; it stays fresh for one second.
pub struct Screen {
    pub(crate) width: u16,
    pub(crate) height: u16,
    pub(crate) row_offset: u16,
    pub(crate) col_offset: u16,
    pub(crate) status_msg: String,
    pub(crate) status_time: u64,
}

/// The mathematical state of a [`Screen`].
#[verifier::ext_equal]
pub struct ScreenView {
    pub width: u16,
    pub height: u16,
    pub row_offset: u16,
    pub col_offset: u16,
    pub status_msg: Seq<char>,
    pub status_time: u64,
}

impl View for Screen {
    type V = ScreenView;

    closed spec fn view(&self) -> ScreenView {
        ScreenView {
            width: self.width,
            height: self.height,
            row_offset: self.row_offset,
            col_offset: self.col_offset,
            status_msg: self.status_msg@,
            status_time: self.status_time,
        }
    }
}

/// `a + b`, stopped at `u16::MAX`.
pub open spec fn sat_add_u16(a: u16, b: u16) -> u16 {
    if a + b > u16::MAX {
        u16::MAX
    } else {
        (a + b) as u16
    }
}

/// `a - b`, stopped at 0.
pub open spec fn sat_sub_u16(a: u16, b: u16) -> u16 {
    if a >= b {
        (a - b) as u16
    } else {
        0u16
    }
}

impl Screen {
    /// A fresh window of the given terminal dimensions, scrolled to the
    /// document start. One terminal row is set aside for the status bar, so
    /// the text area is `height - 1` rows tall.
    pub fn new(width: u16, height: u16) -> (r: Self)
        requires
            height >= 1,
        ensures
            r@ == (ScreenView {
                width,
                height: (height - 1) as u16,
                row_offset: 0u16,
                col_offset: 0u16,
                status_msg: Seq::<char>::empty(),
                status_time: 0u64,
            }),
    {
        let r = Self {
            width,
            height: height - 1,
            row_offset: 0,
            col_offset: 0,
            status_msg: String::new(),
            status_time: 0,
        };
        proof {
            assert(r@ =~= (ScreenView {
                width,
                height: (height - 1) as u16,
                row_offset: 0u16,
                col_offset: 0u16,
                status_msg: Seq::<char>::empty(),
                status_time: 0u64,
            }));
        }
        r
    }

    /// Replace the status message and remember when it was set; `now` is the
    /// caller's millisecond clock.
    pub fn set_status_msg(&mut self, msg: String, now: u64)
        ensures
            final(self)@ == (ScreenView { status_msg: msg@, status_time: now, ..old(self)@ }),
    {
        self.status_msg = msg;
        self.status_time = now;
    }

    /// Whether the status message is younger than its one-second display
    /// window, judged against the caller's millisecond clock.
    pub fn status_is_fresh(&self, now: u64) -> (r: bool)
        ensures
            r == ((now as int) < (self@.status_time as int) + 1000),
    {
        if now < self.status_time {
            true
        } else {
            now - self.status_time < 1000
        }
    }

    /// A copy of the status message.
    pub fn status_msg(&self) -> (r: String)
        ensures
            r@ == self@.status_msg,
    {
        self.status_msg.clone()
    }

    /// Scroll the window `by` rows toward the document start, stopping at
    /// row 0.
    pub fn scroll_up(&mut self, by: u16)
        ensures
            final(self)@ == (ScreenView {
                row_offset: sat_sub_u16(old(self)@.row_offset, by),
                ..old(self)@
            }),
    {
        self.row_offset = self.row_offset.saturating_sub(by);
    }

    /// Scroll the window `by` rows toward the document end.
    pub fn scroll_down(&mut self, by: u16)
        ensures
            final(self)@ == (ScreenView {
                row_offset: sat_add_u16(old(self)@.row_offset, by),
                ..old(self)@
            }),
    {
        self.row_offset = self.row_offset.saturating_add(by);
    }

    /// Scroll the window `by` columns toward the line ends.
    pub fn scroll_right(&mut self, by: u16)
        ensures
            final(self)@ == (ScreenView {
                col_offset: sat_add_u16(old(self)@.col_offset, by),
                ..old(self)@
            }),
    {
        self.col_offset = self.col_offset.saturating_add(by);
    }

    /// Scroll the window `by` columns toward the line starts, stopping at
    /// column 0.
    pub fn scroll_left(&mut self, by: u16)
        ensures
            final(self)@ == (ScreenView {
                col_offset: sat_sub_u16(old(self)@.col_offset, by),
                ..old(self)@
            }),
    {
        self.col_offset = self.col_offset.saturating_sub(by);
    }

    /// Realign the window with the lines' left edge.
    pub fn reset_column_offset(&mut self)
        ensures
            final(self)@ == (ScreenView { col_offset: 0u16, ..old(self)@ }),
    {
        self.col_offset = 0;
    }

    /// Realign the window with the document's first row.
    pub fn reset_row_offset(&mut self)
        ensures
            final(self)@ == (ScreenView { row_offset: 0u16, ..old(self)@ }),
    {
        self.row_offset = 0;
    }

    pub fn width(&self) -> (r: u16)
        ensures
            r == self@.width,
    {
        self.width
    }

    pub fn height(&self) -> (r: u16)
        ensures
            r == self@.height,
    {
        self.height
    }

    /// The text row that shows the greeting while the buffer is new: one
    /// third of the way down the window.
    pub fn greeting_row(&self) -> (r: u16)
        ensures
            r == self@.height / 3,
    {
        self.height / 3
    }

    /// How many columns sit left of a centered text of the given length.
    pub fn greeting_padding(&self, len: u16) -> (r: u16)
        requires
            len <= self@.width,
        ensures
            r == (self@.width - len) / 2,
    {
        (self.width - len) / 2
    }

    pub fn get_col_offset(&self) -> (r: u16)
        ensures
            r == self@.col_offset,
    {
        self.col_offset
    }

    pub fn get_row_offset(&self) -> (r: u16)
        ensures
            r == self@.row_offset,
    {
        self.row_offset
    }
}

} // verus!
