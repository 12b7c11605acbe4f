use vstd::prelude::*;

use crate::coords::Coordinates;
use crate::editor::{lemma_editor_view, Editor, EditorView};
use crate::screen::ScreenView;

verus! {

broadcast use lemma_editor_view;

/// `term` occurs in `line` starting at column `i`.
pub open spec fn is_match_at(line: Seq<char>, term: Seq<char>, i: int) -> bool {
    &&& 0 <= i
    &&& i + term.len() <= line.len()
    &&& line.subrange(i, i + term.len() as int) == term
}

/// The leftmost column at or after `i` where `term` occurs in `line`, if
/// any.
pub open spec fn first_match_from(line: Seq<char>, term: Seq<char>, i: nat) -> Option<nat>
    decreases line.len() - i
        when i <= line.len()
{
    if i + term.len() > line.len() {
        None
    } else if term.len() == 0 {
        // the empty term matches at once, as `is_match_at` also says
        Some(i)
    } else if is_match_at(line, term, i as int) {
        Some(i)
    } else {
        first_match_from(line, term, i + 1)
    }
}

/// The match coordinates of the first `n` document rows, in row order: the
/// leftmost occurrence of `term` in each row that holds one.
pub open spec fn matches_upto(rows: Seq<Seq<char>>, term: Seq<char>, n: int) -> Seq<Coordinates>
    decreases n,
{
    if n <= 0 {
        Seq::empty()
    } else {
        let rest = matches_upto(rows, term, n - 1);
        match first_match_from(rows[n - 1], term, 0) {
            Some(x) => rest.push(Coordinates { x: x as u16, y: (n - 1) as u16 }),
            None => rest,
        }
    }
}

/// Every match coordinate of `term` in the document, in row order.
pub open spec fn matches_spec(rows: Seq<Seq<char>>, term: Seq<char>) -> Seq<Coordinates> {
    matches_upto(rows, term, rows.len() as int)
}

/// Whether `term` starts at column `i` of `line`.
fn match_at(line: &Vec<char>, term: &Vec<char>, i: usize) -> (r: bool)
    requires
        i + term@.len() <= line@.len(),
    ensures
        r == is_match_at(line@, term@, i as int),
{
    let llen = line.len();
    let mut j: usize = 0;
    while j < term.len()
        invariant
            j <= term@.len(),
            i + term@.len() <= line@.len(),
            llen == line@.len(),
            forall|k: int| 0 <= k < j ==> line@[i + k] == term@[k],
        decreases term@.len() - j,
    {
        if line[i + j] != term[j] {
            proof {
                if is_match_at(line@, term@, i as int) {
                    assert(line@.subrange(i as int, i + term@.len() as int)[j as int]
                        == term@[j as int]);
                }
            }
            return false;
        }
        j += 1;
    }
    proof {
        assert(line@.subrange(i as int, i + term@.len() as int) =~= term@);
    }
    true
}

/// The leftmost occurrence of `term` in `line`, if any.
fn first_match_in_line(line: &Vec<char>, term: &Vec<char>) -> (r: Option<usize>)
    ensures
        r is Some <==> first_match_from(line@, term@, 0) is Some,
        r matches Some(i) ==> first_match_from(line@, term@, 0) == Some(i as nat) && i <= line@.len(),
{
    if term.len() > line.len() {
        return None;
    }
    let bound = line.len() - term.len();
    let mut i: usize = 0;
    loop
        invariant
            i <= bound,
            bound == line@.len() - term@.len(),
            term@.len() <= line@.len(),
            first_match_from(line@, term@, 0) == first_match_from(line@, term@, i as nat),
        decreases bound - i,
    {
        if match_at(line, term, i) {
            return Some(i);
        }
        proof {
            // the empty term matches everywhere, so a failed probe means the
            // term has at least one character
            if term@.len() == 0 {
                assert(line@.subrange(i as int, i as int) =~= term@);
                assert(is_match_at(line@, term@, i as int));
            }
            assert(term@.len() >= 1);
        }
        if i == bound {
            proof {
                assert(first_match_from(line@, term@, (i + 1) as nat) is None);
            }
            return None;
        }
        i += 1;
    }
}

/// What `first_match_from` reports really is an occurrence, the leftmost
/// one at or after `i`; `None` means no occurrence starts at or after `i`.
proof fn lemma_first_match_characterizes(line: Seq<char>, term: Seq<char>, i: nat)
    requires
        i <= line.len(),
    ensures
        (first_match_from(line, term, i) matches Some(x) ==> i <= x && is_match_at(
            line,
            term,
            x as int,
        ) && (forall|j: int| i <= j < x ==> !is_match_at(line, term, j))),
        (first_match_from(line, term, i) is None ==> forall|j: int|
            i <= j ==> !is_match_at(line, term, j)),
    decreases line.len() - i,
{
    if i + term.len() > line.len() {
    } else if term.len() == 0 {
        assert(line.subrange(i as int, i as int) =~= term);
        assert(is_match_at(line, term, i as int));
    } else if is_match_at(line, term, i as int) {
    } else {
        lemma_first_match_characterizes(line, term, i + 1);
    }
}

/// `m` points at a real occurrence of `term`, the leftmost one of its row.
pub open spec fn match_entry_ok(rows: Seq<Seq<char>>, term: Seq<char>, m: Coordinates) -> bool {
    &&& is_match_at(rows[m.y as int], term, m.x as int)
    &&& forall|j: int| 0 <= j < m.x ==> !is_match_at(rows[m.y as int], term, j)
}

/// Every coordinate `matches_upto` lists points at a real occurrence — the
/// leftmost of its row — and the rows come in strictly increasing order.
proof fn lemma_matches_upto_characterizes(rows: Seq<Seq<char>>, term: Seq<char>, n: int)
    requires
        0 <= n <= rows.len(),
        rows.len() <= u16::MAX,
        forall|i: int| 0 <= i < rows.len() ==> (#[trigger] rows[i]).len() <= u16::MAX,
    ensures
        forall|k: int| 0 <= k < matches_upto(rows, term, n).len() ==> (#[trigger] matches_upto(
            rows,
            term,
            n,
        )[k]).y < n && match_entry_ok(rows, term, matches_upto(rows, term, n)[k]),
        forall|k1: int, k2: int|
            0 <= k1 < k2 < matches_upto(rows, term, n).len() ==> (#[trigger] matches_upto(
                rows,
                term,
                n,
            )[k1]).y < (#[trigger] matches_upto(rows, term, n)[k2]).y,
    decreases n,
{
    if n > 0 {
        lemma_matches_upto_characterizes(rows, term, n - 1);
        lemma_first_match_characterizes(rows[n - 1], term, 0);
        let prev = matches_upto(rows, term, n - 1);
        let cur = matches_upto(rows, term, n);
        match first_match_from(rows[n - 1], term, 0) {
            Some(x) => {
                let m_new = Coordinates { x: x as u16, y: (n - 1) as u16 };
                assert(x + term.len() <= rows[n - 1].len());
                assert(cur == prev.push(m_new));
                assert(match_entry_ok(rows, term, m_new));
                assert forall|k: int| 0 <= k < cur.len() implies (#[trigger] cur[k]).y < n
                    && match_entry_ok(rows, term, cur[k]) by {
                    if k < prev.len() {
                        assert(cur[k] == prev[k]);
                    } else {
                        assert(cur[k] == m_new);
                    }
                }
                assert forall|k1: int, k2: int| 0 <= k1 < k2 < cur.len() implies (
                #[trigger] cur[k1]).y < (#[trigger] cur[k2]).y by {
                    if k2 < prev.len() {
                        assert(cur[k1] == prev[k1] && cur[k2] == prev[k2]);
                    } else {
                        assert(cur[k2] == m_new);
                        assert(cur[k1] == prev[k1]);
                        assert(prev[k1].y < n - 1);
                    }
                }
            }
            None => {
                assert(cur == prev);
            }
        }
    }
}

impl Editor {
    /// Scan the document for `term`: the ordered list of absolute match
    /// coordinates, one leftmost match per row that holds one.
    pub fn find(&self, term: &Vec<char>) -> (r: Vec<Coordinates>)
        requires
            self@.wf(),
        ensures
            r@ == matches_spec(self@.rows, term@),
            forall|k: int|
                0 <= k < r@.len() ==> (#[trigger] r@[k]).y < self@.rows.len() && match_entry_ok(
                    self@.rows,
                    term@,
                    r@[k],
                ),
            forall|k1: int, k2: int|
                0 <= k1 < k2 < r@.len() ==> (#[trigger] r@[k1]).y < (#[trigger] r@[k2]).y,
    {
        proof {
            lemma_matches_upto_characterizes(self@.rows, term@, self@.rows.len() as int);
        }
        let mut findings: Vec<Coordinates> = Vec::new();
        let mut y: usize = 0;
        while y < self.rows.len()
            invariant
                self@.wf(),
                y <= self@.rows.len(),
                findings@ == matches_upto(self@.rows, term@, y as int),
            decreases self@.rows.len() - y,
        {
            proof {
                assert(self@.rows[y as int].len() <= u16::MAX);
            }
            match first_match_in_line(&self.rows[y], term) {
                Some(x) => {
                    findings.push(Coordinates::new(x as u16, y as u16));
                }
                None => {}
            }
            y += 1;
        }
        findings
    }
}

/// The match the cycle visits after `current` on a downward step: the next
/// one, wrapping to the first past the last.
pub fn next_match_index(current: usize, count: usize) -> (r: usize)
    requires
        count >= 1,
        current < count,
    ensures
        r == (if current + 1 == count { 0int } else { current + 1 }),
        r < count,
{
    if current == count - 1 {
        0
    } else {
        current + 1
    }
}

/// The match the cycle visits after `current` on an upward step: the
/// previous one, wrapping to the last before the first.
pub fn prev_match_index(current: usize, count: usize) -> (r: usize)
    requires
        count >= 1,
        current < count,
    ensures
        r == (if current == 0 { count - 1 } else { current - 1 }),
        r < count,
{
    if current == 0 {
        count - 1
    } else {
        current - 1
    }
}

/// Recentering on an absolute position: both offsets restart at 0, then the
/// window scrolls so the position sits at half its height and width (the
/// scroll saturating at the document's top-left), and the cursor takes the
/// position relative to the new offsets.
pub open spec fn go_to_spec(v: EditorView, x: int, y: int) -> EditorView {
    let oro = if y > v.screen.height / 2 {
        y - v.screen.height / 2
    } else {
        0
    };
    let oco = if x > v.screen.width / 2 {
        x - v.screen.width / 2
    } else {
        0
    };
    EditorView {
        cursor_x: (x - oco) as u16,
        cursor_y: (y - oro) as u16,
        screen: ScreenView { row_offset: oro as u16, col_offset: oco as u16, ..v.screen },
        ..v
    }
}

impl Editor {
    /// Jump to an absolute position — a search match — recentering the
    /// window on it.
    pub fn go_to_coordinate(&mut self, coord: Coordinates)
        requires
            old(self)@.wf(),
            coord.y < old(self)@.rows.len(),
            coord.x <= old(self)@.rows[coord.y as int].len(),
        ensures
            final(self)@ == go_to_spec(old(self)@, coord.x as int, coord.y as int),
            final(self)@.wf(),
    {
        let x = coord.x();
        let y = coord.y();
        let half_h = self.screen.height() / 2;
        let half_w = self.screen.width() / 2;
        let offset_row = if y > half_h {
            y - half_h
        } else {
            0
        };
        let true_y = y - offset_row;
        let offset_col = if x > half_w {
            x - half_w
        } else {
            0
        };
        let true_x = x - offset_col;
        self.screen.reset_row_offset();
        self.screen.reset_column_offset();
        self.screen.scroll_down(offset_row);
        self.screen.scroll_right(offset_col);
        self.cursor = Coordinates::new(true_x, true_y);
        proof {
            assert(self@ =~= go_to_spec(old(self)@, coord.x as int, coord.y as int));
            assert(self@.wf());
        }
    }
}

} // verus!
