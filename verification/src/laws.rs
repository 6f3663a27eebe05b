//! Laws of the cursor model, proved over the abstract transitions of
//! [`crate::step`].

use vstd::prelude::*;

use crate::editor::wf_abs;
use crate::step::EdState;
use crate::step::buf_col;
use crate::step::cur_row;
use crate::step::end_abs;
use crate::step::move_down_abs;
use crate::step::move_left_abs;
use crate::step::move_up_abs;
use crate::step::right_limit;
use crate::step::right_limit_buf;

verus! {

/// For a non-empty row, the Insert-mode right limit (one past the last
/// character, for appending) is exactly one greater than the Normal-mode
/// right limit (the last character itself). An empty row is the one
/// exception: both limits are column zero there.
pub proof fn lemma_insert_limit_one_greater(len: int)
    requires
        len > 0,
    ensures
        right_limit_buf(len, true) == right_limit_buf(len, false) + 1,
{
}

/// Arrow Left always clears the end-of-line latch; in particular, End
/// followed immediately by Left leaves it cleared, so subsequent vertical
/// moves restore the preferred column instead of clamping to the end of
/// the line.
pub proof fn lemma_end_then_left_clears_latch(s: EdState)
    ensures
        end_abs(s).rightted,
        !move_left_abs(end_abs(s)).rightted,
        !move_left_abs(s).rightted,
{
}

/// The sticky column: moving Down and then Up returns the cursor to the
/// buffer row and column it started from, provided the cursor's column is
/// within its row's right limit and is the preferred column, the
/// end-of-line latch is clear, a next row exists, and the next row is not
/// shorter than the column offset (a shorter next row may still be
/// shorter than the preferred column: the cursor is clamped on it and
/// restored on the way back).
pub proof fn lemma_sticky_column(s: EdState)
    requires
        wf_abs(s),
        s.mode is Normal || s.mode is Insert,
        !s.rightted,
        s.max_x == s.cx,
        cur_row(s) + 1 < s.rows.len(),
        s.coloff <= s.rows[cur_row(s) + 1].len(),
        s.cx <= right_limit(s),
    ensures
        cur_row(move_up_abs(move_down_abs(s))) == cur_row(s),
        buf_col(move_up_abs(move_down_abs(s))) == buf_col(s),
        move_up_abs(move_down_abs(s)).cx == s.cx,
        move_up_abs(move_down_abs(s)).coloff == s.coloff,
        move_up_abs(move_down_abs(s)).rows == s.rows,
{
}

} // verus!
