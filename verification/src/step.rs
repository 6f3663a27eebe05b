//! The mathematical model of the editor: an abstract state and one spec
//! transition function per key event. The executable state machine
//! ([`crate::editor::EditorConfig::handle_key`]) is proved to follow
//! [`step_abs`] exactly, and the movement laws are proved over these
//! functions.

use vstd::prelude::*;

use crate::keys::EditorKey;

verus! {

/// The editing mode, with the command line living only inside `Command`.
pub ghost enum ModeAbs {
    Normal,
    Insert,
    Command { cmd: Seq<char>, cmdix: int },
}

/// Abstract editor state: document rows as character sequences, the
/// 1-indexed screen cursor (`cx`, `cy`), the sticky preferred column
/// `max_x`, scroll offsets, the end-of-line latch `rightted`, the mode,
/// the terminal dimensions and the gutter width `cx_base`.
pub ghost struct EdState {
    pub rows: Seq<Seq<char>>,
    pub cx: int,
    pub cy: int,
    pub max_x: int,
    pub rowoff: int,
    pub coloff: int,
    pub rightted: bool,
    pub mode: ModeAbs,
    pub screenrows: int,
    pub screencols: int,
    pub cx_base: int,
}

/// What the control loop is told to do after a key event.
#[derive(Clone, Copy, PartialEq, Eq, Structural, Debug)]
pub enum EditorAction {
    /// Render and wait for the next key.
    Continue,
    /// Terminate the session.
    Quit,
    /// Persist the document, then continue.
    Save,
}

/// The buffer row the cursor is on.
pub open spec fn cur_row(s: EdState) -> int {
    s.rowoff + s.cy - 1
}

/// The length of the row the cursor is on.
pub open spec fn cur_len(s: EdState) -> int {
    s.rows[cur_row(s)].len() as int
}

/// The buffer column the cursor is on.
pub open spec fn buf_col(s: EdState) -> int {
    s.coloff + s.cx - s.cx_base
}

/// The right-most buffer column the cursor may sit on: one past the last
/// character in Insert mode (for appending), the last character
/// otherwise.
pub open spec fn right_limit_buf(len: int, insert: bool) -> int {
    if insert {
        len
    } else if len > 0 {
        len - 1
    } else {
        0
    }
}

/// The right-most screen column the cursor may sit on, given the current
/// row, mode and column offset, clipped to the screen.
pub open spec fn right_limit(s: EdState) -> int {
    let lb = right_limit_buf(cur_len(s), s.mode is Insert);
    if lb >= s.coloff {
        if lb - s.coloff >= s.screencols - s.cx_base {
            s.screencols
        } else {
            s.cx_base + (lb - s.coloff)
        }
    } else {
        s.cx_base
    }
}

/// The sticky-column rule, applied after any vertical move: if the new
/// row is shorter than the column offset, clamp the offset to the row and
/// put the cursor at the gutter edge; else restore the preferred column
/// when it is not latched to end-of-line and fits; else clamp to the
/// row's right limit.
pub open spec fn set_x_abs(s: EdState) -> EdState {
    if cur_len(s) < s.coloff {
        EdState { coloff: cur_len(s), cx: s.cx_base, ..s }
    } else if !s.rightted && s.max_x < right_limit(s) {
        EdState { cx: s.max_x, ..s }
    } else {
        EdState { cx: right_limit(s), ..s }
    }
}

/// Moves the cursor one screen row up, scrolling at the top edge,
/// clamping at the start of the document.
pub open spec fn up_shift(s: EdState) -> EdState {
    if s.cy == 1 {
        if s.rowoff > 0 {
            EdState { rowoff: s.rowoff - 1, ..s }
        } else {
            s
        }
    } else {
        EdState { cy: s.cy - 1, ..s }
    }
}

/// Moves the cursor one screen row down, scrolling at the bottom edge,
/// clamping at the end of the document.
pub open spec fn down_shift(s: EdState) -> EdState {
    if s.cy + 1 == s.screenrows {
        if s.cy + s.rowoff < s.rows.len() {
            EdState { rowoff: s.rowoff + 1, ..s }
        } else {
            s
        }
    } else if s.rowoff + s.cy < s.rows.len() {
        EdState { cy: s.cy + 1, ..s }
    } else {
        s
    }
}

/// Arrow Up in Normal/Insert mode.
pub open spec fn move_up_abs(s: EdState) -> EdState {
    set_x_abs(up_shift(s))
}

/// Arrow Down in Normal/Insert mode.
pub open spec fn move_down_abs(s: EdState) -> EdState {
    set_x_abs(down_shift(s))
}

/// Arrow Left in Normal/Insert mode: one column left, scrolling at the
/// gutter edge; updates the preferred column and clears the end-of-line
/// latch.
pub open spec fn move_left_abs(s: EdState) -> EdState {
    let t = if s.cx == s.cx_base {
        if s.coloff > 0 {
            EdState { coloff: s.coloff - 1, ..s }
        } else {
            s
        }
    } else {
        EdState { cx: s.cx - 1, ..s }
    };
    EdState { max_x: t.cx, rightted: false, ..t }
}

/// Arrow Right in Normal/Insert mode: one column right within the row's
/// right limit, scrolling at the screen edge; updates the preferred
/// column and clears the end-of-line latch.
pub open spec fn move_right_abs(s: EdState) -> EdState {
    let t = if s.cx == s.screencols && buf_col(s) < cur_len(s) {
        EdState { coloff: s.coloff + 1, ..s }
    } else {
        let lim = right_limit(s);
        let ncx = if s.cx < lim {
            s.cx + 1
        } else {
            lim
        };
        EdState { cx: ncx, ..s }
    };
    EdState { max_x: t.cx, rightted: false, ..t }
}

/// Home: back to column offset zero and the gutter edge; clears the
/// end-of-line latch.
pub open spec fn home_abs(s: EdState) -> EdState {
    EdState { coloff: 0, cx: s.cx_base, max_x: s.cx_base, rightted: false, ..s }
}

/// End: place the cursor one past the row's content, scrolling so the
/// row's final segment is visible; sets the end-of-line latch.
pub open spec fn end_abs(s: EdState) -> EdState {
    let len = cur_len(s);
    if len > s.screencols - s.cx_base {
        EdState {
            coloff: len - (s.screencols - s.cx_base),
            cx: s.screencols,
            max_x: s.screencols,
            rightted: true,
            ..s
        }
    } else {
        EdState {
            coloff: 0,
            cx: s.cx_base + len,
            max_x: s.cx_base + len,
            rightted: true,
            ..s
        }
    }
}

/// Page Up: the viewport moves one screen-height up, clamped at the start
/// of the document; the cursor lands on the top visible row.
pub open spec fn page_up_abs(s: EdState) -> EdState {
    let page = s.screenrows - 1;
    let noff = if s.rowoff > page {
        s.rowoff - page
    } else {
        0
    };
    set_x_abs(EdState { rowoff: noff, cy: 1, ..s })
}

/// Page Down: the cursor moves one screen-height of rows down, clamped at
/// the last row, landing on the bottom visible screen row.
pub open spec fn page_down_abs(s: EdState) -> EdState {
    let page = s.screenrows - 1;
    let target = if cur_row(s) + page >= s.rows.len() {
        s.rows.len() - 1
    } else {
        cur_row(s) + page
    };
    let t = if target >= page {
        EdState { rowoff: target - (page - 1), cy: page, ..s }
    } else {
        EdState { rowoff: 0, cy: target + 1, ..s }
    };
    set_x_abs(t)
}

/// Delete in Normal/Insert mode: removes the character at the cursor's
/// buffer column; a silent no-op when the cursor is past the row's end.
pub open spec fn delete_abs(s: EdState) -> EdState {
    let col = buf_col(s);
    if col < cur_len(s) {
        EdState { rows: s.rows.update(cur_row(s), s.rows[cur_row(s)].remove(col)), ..s }
    } else {
        s
    }
}

/// Backspace in Normal/Insert mode: removes the character before the
/// cursor's buffer column and retreats the cursor by one; a silent no-op
/// at buffer column zero.
pub open spec fn backspace_abs(s: EdState) -> EdState {
    let col = buf_col(s);
    if col > 0 {
        let nrows = if col - 1 < cur_len(s) {
            s.rows.update(cur_row(s), s.rows[cur_row(s)].remove(col - 1))
        } else {
            s.rows
        };
        if s.cx > s.cx_base {
            EdState { rows: nrows, cx: s.cx - 1, ..s }
        } else {
            EdState { rows: nrows, coloff: s.coloff - 1, ..s }
        }
    } else {
        s
    }
}

/// A printable byte in Insert mode: the character enters the current row
/// at the cursor's buffer column (appending when the cursor is at or past
/// the row's end) and the cursor advances, scrolling at the screen edge;
/// the preferred column follows the cursor.
pub open spec fn insert_char_abs(s: EdState, c: char) -> EdState {
    let col = buf_col(s);
    let row = s.rows[cur_row(s)];
    let nrow = if col >= cur_len(s) {
        row.push(c)
    } else {
        row.insert(col, c)
    };
    let t = if s.cx < s.screencols {
        EdState { rows: s.rows.update(cur_row(s), nrow), cx: s.cx + 1, ..s }
    } else {
        EdState { rows: s.rows.update(cur_row(s), nrow), coloff: s.coloff + 1, ..s }
    };
    let nmax = if s.max_x >= t.cx {
        s.max_x
    } else {
        t.cx
    };
    EdState { max_x: nmax, ..t }
}

/// Whether a byte is a printable character (space through tilde).
pub open spec fn printable(c: u8) -> bool {
    32 <= c <= 126
}

/// Arrow Left in Command mode: the command-line index retreats.
pub open spec fn cmd_left_abs(s: EdState) -> EdState {
    match s.mode {
        ModeAbs::Command { cmd, cmdix } => {
            let nix = if cmdix > 0 {
                cmdix - 1
            } else {
                0
            };
            EdState { mode: ModeAbs::Command { cmd, cmdix: nix }, ..s }
        },
        _ => s,
    }
}

/// Arrow Right in Command mode: the command-line index advances up to the
/// text's end.
pub open spec fn cmd_right_abs(s: EdState) -> EdState {
    match s.mode {
        ModeAbs::Command { cmd, cmdix } => {
            let nix = if cmdix < cmd.len() {
                cmdix + 1
            } else {
                cmdix
            };
            EdState { mode: ModeAbs::Command { cmd, cmdix: nix }, ..s }
        },
        _ => s,
    }
}

/// Backspace in Command mode: removes the character before the index.
pub open spec fn cmd_backspace_abs(s: EdState) -> EdState {
    match s.mode {
        ModeAbs::Command { cmd, cmdix } => {
            if cmdix > 0 {
                EdState {
                    mode: ModeAbs::Command { cmd: cmd.remove(cmdix - 1), cmdix: cmdix - 1 },
                    ..s
                }
            } else {
                s
            }
        },
        _ => s,
    }
}

/// A printable byte in Command mode: the character enters the command
/// line at the index.
pub open spec fn cmd_insert_abs(s: EdState, c: char) -> EdState {
    match s.mode {
        ModeAbs::Command { cmd, cmdix } => EdState {
            mode: ModeAbs::Command { cmd: cmd.insert(cmdix, c), cmdix: cmdix + 1 },
            ..s
        },
        _ => s,
    }
}

/// Enter in Command mode: dispatches the typed command (`q` quits, `w`
/// saves, anything else is ignored) and returns to Normal mode, the
/// command buffer discarded either way.
pub open spec fn cmd_enter_abs(s: EdState) -> (EdState, EditorAction) {
    match s.mode {
        ModeAbs::Command { cmd, .. } => {
            let act = if cmd == seq!['q'] {
                EditorAction::Quit
            } else if cmd == seq!['w'] {
                EditorAction::Save
            } else {
                EditorAction::Continue
            };
            (EdState { mode: ModeAbs::Normal, ..s }, act)
        },
        _ => (s, EditorAction::Continue),
    }
}

/// One transition of the edit-mode state machine: the state after the key
/// event and the action the control loop must take. Navigation keys move
/// either the document cursor or the command-line index depending on the
/// mode; Enter in Command mode dispatches the typed command (`q` quits,
/// `w` saves, anything else is ignored) and always returns to Normal
/// mode with the command buffer discarded.
pub open spec fn step_abs(s: EdState, key: EditorKey) -> (EdState, EditorAction) {
    match key {
        EditorKey::ArrowLeft => match s.mode {
            ModeAbs::Normal | ModeAbs::Insert => (move_left_abs(s), EditorAction::Continue),
            ModeAbs::Command { .. } => (cmd_left_abs(s), EditorAction::Continue),
        },
        EditorKey::ArrowRight => match s.mode {
            ModeAbs::Normal | ModeAbs::Insert => (move_right_abs(s), EditorAction::Continue),
            ModeAbs::Command { .. } => (cmd_right_abs(s), EditorAction::Continue),
        },
        EditorKey::ArrowUp => match s.mode {
            ModeAbs::Normal | ModeAbs::Insert => (move_up_abs(s), EditorAction::Continue),
            ModeAbs::Command { .. } => (s, EditorAction::Continue),
        },
        EditorKey::ArrowDown => match s.mode {
            ModeAbs::Normal | ModeAbs::Insert => (move_down_abs(s), EditorAction::Continue),
            ModeAbs::Command { .. } => (s, EditorAction::Continue),
        },
        EditorKey::DelKey => match s.mode {
            ModeAbs::Normal | ModeAbs::Insert => (delete_abs(s), EditorAction::Continue),
            ModeAbs::Command { .. } => (s, EditorAction::Continue),
        },
        EditorKey::HomeKey => (home_abs(s), EditorAction::Continue),
        EditorKey::EndKey => (end_abs(s), EditorAction::Continue),
        EditorKey::PageUp => (page_up_abs(s), EditorAction::Continue),
        EditorKey::PageDown => (page_down_abs(s), EditorAction::Continue),
        EditorKey::Backspace => match s.mode {
            ModeAbs::Normal | ModeAbs::Insert => (backspace_abs(s), EditorAction::Continue),
            ModeAbs::Command { .. } => (cmd_backspace_abs(s), EditorAction::Continue),
        },
        EditorKey::Insert => match s.mode {
            ModeAbs::Normal => (EdState { mode: ModeAbs::Insert, ..s }, EditorAction::Continue),
            ModeAbs::Insert => (EdState { mode: ModeAbs::Normal, ..s }, EditorAction::Continue),
            ModeAbs::Command { .. } => (s, EditorAction::Continue),
        },
        EditorKey::K(c) => match s.mode {
            ModeAbs::Normal => {
                if c == 105 {  // 'i'
                    (EdState { mode: ModeAbs::Insert, ..s }, EditorAction::Continue)
                } else if c == 58 {  // ':'
                    (
                        EdState {
                            mode: ModeAbs::Command { cmd: Seq::empty(), cmdix: 0 },
                            ..s
                        },
                        EditorAction::Continue,
                    )
                } else {
                    (s, EditorAction::Continue)
                }
            },
            ModeAbs::Insert => {
                if c == 27 {  // ESC
                    (EdState { mode: ModeAbs::Normal, ..s }, EditorAction::Continue)
                } else if printable(c) {
                    (insert_char_abs(s, c as char), EditorAction::Continue)
                } else {
                    (s, EditorAction::Continue)
                }
            },
            ModeAbs::Command { .. } => {
                if c == 27 {  // ESC
                    (EdState { mode: ModeAbs::Normal, ..s }, EditorAction::Continue)
                } else if c == 13 {  // Enter
                    cmd_enter_abs(s)
                } else if c == 127 {  // DEL byte, backspace in the command line
                    (cmd_backspace_abs(s), EditorAction::Continue)
                } else if printable(c) {
                    (cmd_insert_abs(s, c as char), EditorAction::Continue)
                } else {
                    (s, EditorAction::Continue)
                }
            },
        },
    }
}

} // verus!
