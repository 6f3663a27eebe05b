//! The concrete editor session state and its cursor/viewport operations.
//!
//! [`EditorConfig`] is the single owned session object. Every operation
//! requires and preserves the well-formedness invariant [`EditorConfig::wf`]
//! and is proved to follow the abstract model in [`crate::step`].

use vstd::prelude::*;

use crate::document::line_wf;
use crate::document::row_views;
use crate::escapes::dec_rep;
use crate::escapes::decimal_width;
use crate::row::EditorRow;
use crate::step::EdState;
use crate::step::ModeAbs;
use crate::step::cur_len;
use crate::step::cur_row;
use crate::step::right_limit;
use crate::step::right_limit_buf;
use crate::step::set_x_abs;

verus! {

/// The editing mode. The command line (text and edit index) lives only
/// inside the `Command` variant, so the other modes cannot observe or
/// corrupt it.
pub enum EditorMode {
    Normal,
    Insert,
    Command { cmd: Vec<char>, cmdix: usize },
}

/// The abstraction of a mode value.
pub open spec fn mode_abs(m: &EditorMode) -> ModeAbs {
    match m {
        EditorMode::Normal => ModeAbs::Normal,
        EditorMode::Insert => ModeAbs::Insert,
        EditorMode::Command { cmd, cmdix } => ModeAbs::Command {
            cmd: cmd@,
            cmdix: *cmdix as int,
        },
    }
}

/// The label shown in the status line for each mode.
pub open spec fn mode_label_seq(m: ModeAbs) -> Seq<char> {
    match m {
        ModeAbs::Normal => seq!['n', 'o', 'r', 'm', 'a', 'l'],
        ModeAbs::Insert => seq!['i', 'n', 's', 'e', 'r', 't'],
        ModeAbs::Command { .. } => Seq::empty(),
    }
}

impl EditorMode {
    /// The mode's status-line label.
    pub fn label(&self) -> (r: &'static str)
        ensures
            r@ == mode_label_seq(mode_abs(self)),
    {
        match self {
            EditorMode::Normal => {
                let s = "normal";
                proof {
                    reveal_strlit("normal");
                    assert(s@ =~= mode_label_seq(ModeAbs::Normal));
                }
                s
            },
            EditorMode::Insert => {
                let s = "insert";
                proof {
                    reveal_strlit("insert");
                    assert(s@ =~= mode_label_seq(ModeAbs::Insert));
                }
                s
            },
            EditorMode::Command { .. } => {
                let s = "";
                proof {
                    reveal_strlit("");
                    assert(s@ =~= Seq::<char>::empty());
                }
                s
            },
        }
    }
}

/// Everything the abstract state requires of itself, except that the
/// column offset fits the current row (vertical moves restore that part
/// through the sticky-column rule).
pub open spec fn wf_abs_base(st: EdState) -> bool {
    &&& st.rows.len() >= 1
    &&& (forall|k: int| 0 <= k < st.rows.len() ==> line_wf(#[trigger] st.rows[k]))
    &&& st.cx_base == dec_rep(st.rows.len() as nat).len() + 4
    &&& 2 <= st.screenrows <= 0xFFFF
    &&& st.cx_base + 6 <= st.screencols
    &&& st.screencols <= 0xFFFF
    &&& 1 <= st.cy <= st.screenrows - 1
    &&& 0 <= st.rowoff
    &&& st.rowoff + st.cy - 1 < st.rows.len()
    &&& st.cx_base <= st.cx <= st.screencols
    &&& st.cx_base <= st.max_x <= st.screencols
    &&& 0 <= st.coloff
    &&& (st.mode matches ModeAbs::Command { cmd, cmdix } ==> 0 <= cmdix <= cmd.len())
}

/// The abstract state invariant: the base conditions plus a column offset
/// that does not pass the current row's end.
pub open spec fn wf_abs(st: EdState) -> bool {
    &&& wf_abs_base(st)
    &&& st.coloff <= cur_len(st)
}

/// The initial abstract state for a freshly loaded document.
pub open spec fn init_abs(rows: Seq<Seq<char>>, ws_row: int, ws_col: int) -> EdState {
    let base = dec_rep(rows.len() as nat).len() + 4;
    EdState {
        rows: rows,
        cx: base as int,
        cy: 1,
        max_x: base as int,
        rowoff: 0,
        coloff: 0,
        rightted: false,
        mode: ModeAbs::Normal,
        screenrows: ws_row,
        screencols: ws_col,
        cx_base: base as int,
    }
}

/// Whether a reported terminal size can host this session: room for the
/// status line and for the gutter plus some text columns.
pub open spec fn size_usable(s: EdState, ws_row: int, ws_col: int) -> bool {
    &&& 2 <= ws_row <= 0xFFFF
    &&& s.cx_base + 6 <= ws_col <= 0xFFFF
}

/// The state after the terminal reports a new size: unusable sizes are
/// ignored; otherwise the dimensions are taken over, the cursor is
/// clamped into the new screen, and the sticky-column rule re-derives the
/// horizontal position.
pub open spec fn winsize_abs(s: EdState, ws_row: int, ws_col: int) -> EdState {
    if size_usable(s, ws_row, ws_col) {
        let ncy = if s.cy <= ws_row - 1 {
            s.cy
        } else {
            ws_row - 1
        };
        let ncx = if s.cx <= ws_col {
            s.cx
        } else {
            ws_col
        };
        let nmx = if s.max_x <= ws_col {
            s.max_x
        } else {
            ws_col
        };
        set_x_abs(
            EdState { screenrows: ws_row, screencols: ws_col, cy: ncy, cx: ncx, max_x: nmx, ..s },
        )
    } else {
        s
    }
}

/// The whole editor session: document, cursor, viewport, mode.
pub struct EditorConfig {
    /// 1-indexed cursor screen column (at least the gutter width).
    pub cx: usize,
    /// 1-indexed cursor screen row.
    pub cy: usize,
    /// The sticky preferred column, restored by vertical moves.
    pub max_x: usize,
    /// Terminal height in rows.
    pub screenrows: usize,
    /// Terminal width in columns.
    pub screencols: usize,
    /// First visible buffer row.
    pub rowoff: usize,
    /// First visible buffer column.
    pub coloff: usize,
    /// Set by End, cleared by any horizontal move: vertical moves then
    /// keep clamping to the end of the line.
    pub rightted: bool,
    /// The document rows; never empty.
    pub rows: Vec<EditorRow>,
    /// The current mode, with the command line inside `Command`.
    pub mode: EditorMode,
    /// Columns reserved for the line-number gutter, fixed at load time.
    pub cx_base: usize,
}

impl EditorConfig {
    /// The abstract state this session stands for.
    pub open spec fn abs(&self) -> EdState {
        EdState {
            rows: row_views(self.rows@),
            cx: self.cx as int,
            cy: self.cy as int,
            max_x: self.max_x as int,
            rowoff: self.rowoff as int,
            coloff: self.coloff as int,
            rightted: self.rightted,
            mode: mode_abs(&self.mode),
            screenrows: self.screenrows as int,
            screencols: self.screencols as int,
            cx_base: self.cx_base as int,
        }
    }

    /// Every row's cached length is in sync.
    pub open spec fn rows_wf(&self) -> bool {
        forall|k: int| 0 <= k < self.rows@.len() ==> (#[trigger] self.rows@[k]).wf()
    }

    /// The session invariant, short of the column-offset bound.
    pub open spec fn wf_base(&self) -> bool {
        &&& self.rows_wf()
        &&& wf_abs_base(self.abs())
    }

    /// The session invariant: every operation requires and preserves it.
    pub open spec fn wf(&self) -> bool {
        &&& self.rows_wf()
        &&& wf_abs(self.abs())
    }

    /// Builds a session for an already-loaded document and the current
    /// terminal size; `None` when the terminal is too small to host the
    /// gutter, the status line and a text column.
    pub fn new(rows: Vec<EditorRow>, ws_row: u16, ws_col: u16) -> (r: Option<EditorConfig>)
        requires
            rows@.len() >= 1,
            forall|k: int|
                0 <= k < rows@.len() ==> (#[trigger] rows@[k]).wf() && line_wf(rows@[k]@),
        ensures
            match r {
                Some(ed) => {
                    &&& ed.wf()
                    &&& ed.abs() == init_abs(row_views(rows@), ws_row as int, ws_col as int)
                    &&& ws_row >= 2
                    &&& ws_col as int >= dec_rep(rows@.len() as nat).len() + 10
                },
                None => ws_row < 2 || (ws_col as int) < dec_rep(rows@.len() as nat).len() + 10,
            },
    {
        let width = decimal_width(rows.len());
        let cx_base = width + 4;
        if ws_row < 2 || (ws_col as usize) < cx_base + 6 {
            return None;
        }
        let ed = EditorConfig {
            cx: cx_base,
            cy: 1,
            max_x: cx_base,
            screenrows: ws_row as usize,
            screencols: ws_col as usize,
            rowoff: 0,
            coloff: 0,
            rightted: false,
            rows,
            mode: EditorMode::Normal,
            cx_base,
        };
        proof {
            assert(row_views(ed.rows@)[cur_row(ed.abs())] == ed.rows@[0]@);
        }
        Some(ed)
    }

    /// The right-most screen column the cursor may sit on in the current
    /// row and mode.
    pub fn curr_right_limit(&self) -> (r: usize)
        requires
            self.wf(),
        ensures
            r == right_limit(self.abs()),
            self.cx_base <= r <= self.screencols,
    {
        let n = self.rows.len();
        proof {
            assert(self.abs().rows.len() == n);
        }
        let row_ix = self.rowoff + self.cy - 1;
        let len = self.rows[row_ix].len;
        proof {
            assert(row_views(self.rows@)[row_ix as int] == self.rows@[row_ix as int]@);
        }
        let insert = match self.mode {
            EditorMode::Insert => true,
            _ => false,
        };
        let lb = if insert {
            len
        } else if len > 0 {
            len - 1
        } else {
            0
        };
        proof {
            assert(lb as int == right_limit_buf(cur_len(self.abs()), self.abs().mode is Insert));
        }
        if lb >= self.coloff {
            let d = lb - self.coloff;
            if d >= self.screencols - self.cx_base {
                self.screencols
            } else {
                self.cx_base + d
            }
        } else {
            self.cx_base
        }
    }

    /// Takes over a freshly read terminal size, refreshed every frame
    /// since the terminal may be resized externally. Returns whether the
    /// dimensions changed; the caller must then re-query the cursor
    /// position once before the next render, since a resize invalidates
    /// previously computed screen coordinates. A size too small for the
    /// session (or a zero size) is ignored.
    pub fn apply_winsize(&mut self, ws_row: u16, ws_col: u16) -> (changed: bool)
        requires
            old(self).wf(),
        ensures
            final(self).wf(),
            final(self).abs() == winsize_abs(old(self).abs(), ws_row as int, ws_col as int),
            changed == (size_usable(old(self).abs(), ws_row as int, ws_col as int) && (ws_row
                as int != old(self).abs().screenrows || ws_col as int
                != old(self).abs().screencols)),
    {
        let wr = ws_row as usize;
        let wc = ws_col as usize;
        if wr < 2 || wc < self.cx_base + 6 {
            return false;
        }
        let changed = wr != self.screenrows || wc != self.screencols;
        self.screenrows = wr;
        self.screencols = wc;
        if self.cy > wr - 1 {
            self.cy = wr - 1;
        }
        if self.cx > wc {
            self.cx = wc;
        }
        if self.max_x > wc {
            self.max_x = wc;
        }
        self.set_x_after_up_down();
        changed
    }

    /// Re-derives the horizontal position after a vertical move: the
    /// sticky-column rule of [`set_x_abs`].
    pub fn set_x_after_up_down(&mut self)
        requires
            old(self).wf_base(),
        ensures
            final(self).wf(),
            final(self).abs() == set_x_abs(old(self).abs()),
    {
        let n = self.rows.len();
        proof {
            assert(self.abs().rows.len() == n);
        }
        let row_ix = self.rowoff + self.cy - 1;
        let len = self.rows[row_ix].len;
        proof {
            assert(row_views(self.rows@)[row_ix as int] == self.rows@[row_ix as int]@);
        }
        if len < self.coloff {
            self.coloff = len;
            self.cx = self.cx_base;
        } else {
            let rightlim = self.curr_right_limit();
            if !self.rightted && self.max_x < rightlim {
                self.cx = self.max_x;
            } else {
                self.cx = rightlim;
            }
        }
    }
}

} // verus!
