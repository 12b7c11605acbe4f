use vstd::prelude::*;

use crate::directions::Direction;
use crate::edit::{backspace_spec, delete_spec, insert_char_spec, insert_enter_spec};
use crate::editor::EditorView;
use crate::navigation::{move_left_spec, move_right_spec, move_spec, moves_spec};

verus! {

/// Navigation keeps the cursor inside the document: one step from a
/// well-formed state lands in a well-formed state — the absolute row within
/// `[0, line_count - 1]`, the absolute column within `[0, length of the line
/// at that row]` — and leaves the document itself untouched. Step after
/// step, this bounds every sequence of navigation calls.
pub proof fn lemma_navigation_preserves_invariant(v: EditorView, d: Direction)
    requires
        v.wf(),
    ensures
        move_spec(v, d).wf(),
        0 <= move_spec(v, d).abs_row() < move_spec(v, d).rows.len(),
        0 <= move_spec(v, d).abs_col() <= move_spec(v, d).rows[move_spec(v, d).abs_row()].len(),
        move_spec(v, d).rows == v.rows,
{
}

/// The sequence form of the bound above: however many navigation steps are
/// strung together, a well-formed state stays well formed and the document
/// stays untouched.
pub proof fn lemma_navigation_sequence_stays_in_bounds(v: EditorView, directions: Seq<Direction>)
    requires
        v.wf(),
    ensures
        moves_spec(v, directions).wf(),
        moves_spec(v, directions).rows == v.rows,
    decreases directions.len(),
{
    if directions.len() > 0 {
        lemma_navigation_preserves_invariant(v, directions[0]);
        lemma_navigation_sequence_stays_in_bounds(
            move_spec(v, directions[0]),
            directions.drop_first(),
        );
    }
}

/// Navigating Left at absolute position `(0, 0)` changes nothing: the state
/// comes back exactly as it was, so any number of repetitions is still a
/// no-op.
pub proof fn lemma_left_at_origin_is_noop(v: EditorView)
    requires
        v.wf(),
        v.abs_row() == 0,
        v.abs_col() == 0,
    ensures
        move_spec(v, Direction::Left) == v,
{
}

/// The repetition form of the no-op above: any number of Left steps at
/// absolute position `(0, 0)` leaves the state exactly as it was.
pub proof fn lemma_left_repeated_at_origin_is_noop(v: EditorView, n: nat)
    requires
        v.wf(),
        v.abs_row() == 0,
        v.abs_col() == 0,
    ensures
        moves_spec(v, Seq::new(n, |i: int| Direction::Left)) == v,
    decreases n,
{
    let directions = Seq::new(n, |i: int| Direction::Left);
    if n > 0 {
        lemma_left_at_origin_is_noop(v);
        assert(directions.drop_first() =~= Seq::new((n - 1) as nat, |i: int| Direction::Left));
        lemma_left_repeated_at_origin_is_noop(v, (n - 1) as nat);
    }
}

/// Inserting a character and backspacing right after returns the document
/// to its prior content and the cursor to its prior absolute position. The
/// one premise beyond validity is room for the character: a line at the
/// 16-bit length limit refuses the insertion itself.
pub proof fn lemma_insert_backspace_round_trip(v: EditorView, ch: char)
    requires
        v.wf(),
        v.cur_line().len() < u16::MAX,
    ensures
        backspace_spec(insert_char_spec(v, ch)).rows == v.rows,
        backspace_spec(insert_char_spec(v, ch)).abs_row() == v.abs_row(),
        backspace_spec(insert_char_spec(v, ch)).abs_col() == v.abs_col(),
{
    let r = v.abs_row();
    let c = v.abs_col();
    let line1 = v.rows[r].insert(c, ch);
    let v1 = EditorView { rows: v.rows.update(r, line1), has_changed: true, ..v };
    let v2 = move_right_spec(v1);
    assert(v2.abs_row() == r && v2.abs_col() == c + 1 && v2.rows == v1.rows);
    let back = backspace_spec(v2);
    assert(back.rows == v2.rows.update(r, line1.remove(c)));
    assert(line1.remove(c) =~= v.rows[r]);
    assert(v.rows.update(r, line1).update(r, v.rows[r]) =~= v.rows);
    let v3 = move_left_spec(v2);
    assert(v3.abs_row() == r && v3.abs_col() == c);
}

/// A line-break insert followed by Backspace at the new line's column 0
/// merges the two lines back into exactly the original single line: the
/// document and the absolute cursor position come back unchanged. The one
/// premise beyond validity is room for the split: a document at the 16-bit
/// line-count limit refuses the insert itself.
pub proof fn lemma_enter_backspace_round_trip(v: EditorView)
    requires
        v.wf(),
        v.rows.len() < u16::MAX,
    ensures
        backspace_spec(insert_enter_spec(v)).rows == v.rows,
        backspace_spec(insert_enter_spec(v)).abs_row() == v.abs_row(),
        backspace_spec(insert_enter_spec(v)).abs_col() == v.abs_col(),
{
    let r = v.abs_row();
    let c = v.abs_col();
    let line = v.rows[r];
    let pre = line.subrange(0, c);
    let post = line.subrange(c, line.len() as int);
    let ve = insert_enter_spec(v);
    assert(ve.rows == v.rows.update(r, pre).insert(r + 1, post));
    assert(ve.abs_row() == r + 1 && ve.abs_col() == 0);
    assert(ve.rows[r] == pre && ve.rows[r + 1] == post);
    assert(pre.len() + post.len() <= u16::MAX);
    let back = backspace_spec(ve);
    assert(back.rows == ve.rows.update(r, pre + post).remove(r + 1));
    assert(pre + post =~= line);
    assert(back.rows =~= v.rows);
    assert(back.abs_row() == r && back.abs_col() == c);
}

/// The document's characters from the first `n` lines, in order, with the
/// line structure flattened away.
pub open spec fn concat_rows_upto(rows: Seq<Seq<char>>, n: int) -> Seq<char>
    decreases n,
{
    if n <= 0 {
        Seq::empty()
    } else {
        concat_rows_upto(rows, n - 1) + rows[n - 1]
    }
}

/// The document's characters in order, the line structure flattened away.
pub open spec fn concat_rows(rows: Seq<Seq<char>>) -> Seq<char> {
    concat_rows_upto(rows, rows.len() as int)
}

proof fn lemma_concat_agree(r1: Seq<Seq<char>>, r2: Seq<Seq<char>>, n: int)
    requires
        n <= r1.len(),
        n <= r2.len(),
        forall|i: int| 0 <= i < n ==> r1[i] == r2[i],
    ensures
        concat_rows_upto(r1, n) == concat_rows_upto(r2, n),
    decreases n,
{
    if n > 0 {
        lemma_concat_agree(r1, r2, n - 1);
    }
}

/// Replacing row `r` by two rows that concatenate to it leaves the first
/// `m` rows' flattened content unchanged (the replacement contributes one
/// extra row, hence `m + 1` on the left).
proof fn lemma_split_concat(rows: Seq<Seq<char>>, r: int, a: Seq<char>, b: Seq<char>, m: int)
    requires
        0 <= r < rows.len(),
        a + b == rows[r],
        r + 1 <= m <= rows.len(),
    ensures
        concat_rows_upto(rows.update(r, a).insert(r + 1, b), m + 1) == concat_rows_upto(rows, m),
    decreases m,
{
    let rows2 = rows.update(r, a).insert(r + 1, b);
    if m == r + 1 {
        lemma_concat_agree(rows2, rows, r);
        assert(concat_rows_upto(rows2, r + 2) == concat_rows_upto(rows2, r + 1) + rows2[r + 1]);
        assert(concat_rows_upto(rows2, r + 1) == concat_rows_upto(rows2, r) + rows2[r]);
        assert(rows2[r] == a && rows2[r + 1] == b);
        assert((concat_rows_upto(rows, r) + a) + b =~= concat_rows_upto(rows, r) + (a + b));
        assert(concat_rows_upto(rows, r + 1) == concat_rows_upto(rows, r) + rows[r]);
    } else {
        lemma_split_concat(rows, r, a, b, m - 1);
        assert(rows2[m] == rows[m - 1]);
        assert(concat_rows_upto(rows2, m + 1) == concat_rows_upto(rows2, m) + rows2[m]);
        assert(concat_rows_upto(rows, m) == concat_rows_upto(rows, m - 1) + rows[m - 1]);
    }
}

/// Merging row `r + 1` onto row `r` leaves the flattened content unchanged.
proof fn lemma_merge_concat(rows: Seq<Seq<char>>, r: int)
    requires
        0 <= r,
        r + 1 < rows.len(),
    ensures
        concat_rows(rows.update(r, rows[r] + rows[r + 1]).remove(r + 1)) == concat_rows(rows),
{
    let merged = rows.update(r, rows[r] + rows[r + 1]).remove(r + 1);
    assert(merged.update(r, rows[r]).insert(r + 1, rows[r + 1]) =~= rows);
    assert(merged[r] == rows[r] + rows[r + 1]);
    lemma_split_concat(merged, r, rows[r], rows[r + 1], merged.len() as int);
}

/// A line-break split creates and drops no characters: flattened, the
/// document reads exactly as before. (The newline between the two lines
/// appears only in the serialized form a save writes.)
pub proof fn lemma_enter_preserves_content(v: EditorView)
    requires
        v.wf(),
    ensures
        concat_rows(insert_enter_spec(v).rows) == concat_rows(v.rows),
{
    if v.rows.len() < u16::MAX {
        let r = v.abs_row();
        let c = v.abs_col();
        let line = v.rows[r];
        let pre = line.subrange(0, c);
        let post = line.subrange(c, line.len() as int);
        assert(pre + post =~= line);
        lemma_split_concat(v.rows, r, pre, post, v.rows.len() as int);
        assert(insert_enter_spec(v).rows == v.rows.update(r, pre).insert(r + 1, post));
    }
}

/// Backspace at column 0 creates and drops no characters: whether it merges
/// two lines or does nothing, the flattened document reads exactly as
/// before.
pub proof fn lemma_backspace_at_column_zero_preserves_content(v: EditorView)
    requires
        v.wf(),
        v.abs_col() == 0,
    ensures
        concat_rows(backspace_spec(v).rows) == concat_rows(v.rows),
{
    let r = v.abs_row();
    if r != 0 && v.rows[r - 1].len() + v.rows[r].len() <= u16::MAX {
        lemma_merge_concat(v.rows, r - 1);
    }
}

/// Delete-forward at a line's end creates and drops no characters: whether
/// it merges the next line or does nothing, the flattened document reads
/// exactly as before.
pub proof fn lemma_delete_at_line_end_preserves_content(v: EditorView)
    requires
        v.wf(),
        v.abs_col() == v.cur_line().len(),
    ensures
        concat_rows(delete_spec(v).rows) == concat_rows(v.rows),
{
    let r = v.abs_row();
    if r != v.rows.len() - 1 && v.rows[r].len() + v.rows[r + 1].len() <= u16::MAX {
        lemma_merge_concat(v.rows, r);
    }
}

/// Delete-forward at the end of the last line is a no-op: the state comes
/// back exactly as it was.
pub proof fn lemma_delete_at_document_end_is_noop(v: EditorView)
    requires
        v.wf(),
        v.abs_row() == v.rows.len() - 1,
        v.abs_col() == v.cur_line().len(),
    ensures
        delete_spec(v) == v,
{
}

/// Delete-forward at the end of a non-last line merges the following line
/// onto the current one, reducing the line count by one; every other line
/// and the cursor stay put. The one premise beyond validity is that the
/// joined line fits the 16-bit length limit, under which the merge refuses.
pub proof fn lemma_delete_at_line_end_merges(v: EditorView)
    requires
        v.wf(),
        v.abs_row() < v.rows.len() - 1,
        v.abs_col() == v.cur_line().len(),
        v.cur_line().len() + v.rows[v.abs_row() + 1].len() <= u16::MAX,
    ensures
        delete_spec(v).rows.len() == v.rows.len() - 1,
        delete_spec(v).rows[v.abs_row()] == v.cur_line() + v.rows[v.abs_row() + 1],
        forall|i: int| 0 <= i < v.abs_row() ==> delete_spec(v).rows[i] == v.rows[i],
        forall|i: int|
            v.abs_row() < i < delete_spec(v).rows.len() ==> delete_spec(v).rows[i] == v.rows[i
                + 1],
        delete_spec(v).abs_row() == v.abs_row(),
        delete_spec(v).abs_col() == v.abs_col(),
        delete_spec(v).wf(),
{
}

} // verus!
