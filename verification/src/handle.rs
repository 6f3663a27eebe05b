//! The executable edit-mode state machine: one key event in, the state
//! mutated and an action for the control loop out, exactly as
//! [`step_abs`] prescribes.

use vstd::prelude::*;

use crate::document::row_views;
use crate::editor::EditorConfig;
use crate::editor::EditorMode;
use crate::keys::EditorKey;
use crate::step::EditorAction;
use crate::step::backspace_abs;
use crate::step::cmd_backspace_abs;
use crate::step::cmd_enter_abs;
use crate::step::cmd_insert_abs;
use crate::step::cmd_left_abs;
use crate::step::cmd_right_abs;
use crate::step::delete_abs;
use crate::step::down_shift;
use crate::step::end_abs;
use crate::step::home_abs;
use crate::step::insert_char_abs;
use crate::step::move_down_abs;
use crate::step::move_left_abs;
use crate::step::move_right_abs;
use crate::step::move_up_abs;
use crate::step::page_down_abs;
use crate::step::page_up_abs;
use crate::step::step_abs;
use crate::step::up_shift;

verus! {

impl EditorConfig {
    /// Whether the session is in Command mode.
    fn in_command(&self) -> (r: bool)
        ensures
            r == (self.abs().mode is Command),
    {
        matches!(self.mode, EditorMode::Command { .. })
    }

    /// Arrow Left on the document cursor.
    fn move_left_doc(&mut self)
        requires
            old(self).wf(),
        ensures
            final(self).wf(),
            final(self).abs() == move_left_abs(old(self).abs()),
    {
        if self.cx == self.cx_base {
            if self.coloff > 0 {
                self.coloff = self.coloff - 1;
            }
        } else {
            self.cx = self.cx - 1;
        }
        self.max_x = self.cx;
        self.rightted = false;
    }

    /// Arrow Right on the document cursor.
    fn move_right_doc(&mut self)
        requires
            old(self).wf(),
        ensures
            final(self).wf(),
            final(self).abs() == move_right_abs(old(self).abs()),
    {
        let n = self.rows.len();
        proof {
            assert(self.abs().rows.len() == n);
        }
        let row_ix = self.rowoff + self.cy - 1;
        let len = self.rows[row_ix].len;
        proof {
            assert(row_views(self.rows@)[row_ix as int] == self.rows@[row_ix as int]@);
        }
        let dx = self.cx - self.cx_base;
        let room = len - self.coloff;
        if self.cx == self.screencols && dx < room {
            self.coloff = self.coloff + 1;
        } else {
            let lim = self.curr_right_limit();
            if self.cx < lim {
                self.cx = self.cx + 1;
            } else {
                self.cx = lim;
            }
        }
        self.max_x = self.cx;
        self.rightted = false;
    }

    /// Arrow Up on the document cursor.
    fn move_up_doc(&mut self)
        requires
            old(self).wf(),
        ensures
            final(self).wf(),
            final(self).abs() == move_up_abs(old(self).abs()),
    {
        if self.cy == 1 {
            if self.rowoff > 0 {
                self.rowoff = self.rowoff - 1;
            }
        } else {
            self.cy = self.cy - 1;
        }
        proof {
            assert(self.abs() == up_shift(old(self).abs()));
        }
        self.set_x_after_up_down();
    }

    /// Arrow Down on the document cursor.
    fn move_down_doc(&mut self)
        requires
            old(self).wf(),
        ensures
            final(self).wf(),
            final(self).abs() == move_down_abs(old(self).abs()),
    {
        let n = self.rows.len();
        proof {
            assert(self.abs().rows.len() == n);
        }
        if self.cy + 1 == self.screenrows {
            if self.cy + self.rowoff < n {
                self.rowoff = self.rowoff + 1;
            }
        } else {
            if self.rowoff + self.cy < n {
                self.cy = self.cy + 1;
            }
        }
        proof {
            assert(self.abs() == down_shift(old(self).abs()));
        }
        self.set_x_after_up_down();
    }

    /// Home on the document cursor.
    fn go_home_doc(&mut self)
        requires
            old(self).wf(),
        ensures
            final(self).wf(),
            final(self).abs() == home_abs(old(self).abs()),
    {
        self.coloff = 0;
        self.cx = self.cx_base;
        self.max_x = self.cx_base;
        self.rightted = false;
    }

    /// End on the document cursor.
    fn go_end_doc(&mut self)
        requires
            old(self).wf(),
        ensures
            final(self).wf(),
            final(self).abs() == end_abs(old(self).abs()),
    {
        let n = self.rows.len();
        proof {
            assert(self.abs().rows.len() == n);
        }
        let row_ix = self.rowoff + self.cy - 1;
        let len = self.rows[row_ix].len;
        proof {
            assert(row_views(self.rows@)[row_ix as int] == self.rows@[row_ix as int]@);
        }
        let width = self.screencols - self.cx_base;
        if len > width {
            self.coloff = len - width;
            self.cx = self.screencols;
            self.max_x = self.screencols;
        } else {
            self.coloff = 0;
            self.cx = self.cx_base + len;
            self.max_x = self.cx;
        }
        self.rightted = true;
    }

    /// Page Up on the document cursor.
    fn page_up_doc(&mut self)
        requires
            old(self).wf(),
        ensures
            final(self).wf(),
            final(self).abs() == page_up_abs(old(self).abs()),
    {
        let page = self.screenrows - 1;
        if self.rowoff > page {
            self.rowoff = self.rowoff - page;
        } else {
            self.rowoff = 0;
        }
        self.cy = 1;
        self.set_x_after_up_down();
    }

    /// Page Down on the document cursor.
    fn page_down_doc(&mut self)
        requires
            old(self).wf(),
        ensures
            final(self).wf(),
            final(self).abs() == page_down_abs(old(self).abs()),
    {
        let n = self.rows.len();
        proof {
            assert(self.abs().rows.len() == n);
        }
        let page = self.screenrows - 1;
        let cur = self.rowoff + self.cy - 1;
        let target = if n - 1 - cur <= page {
            n - 1
        } else {
            cur + page
        };
        if target >= page {
            self.rowoff = target - (page - 1);
            self.cy = page;
        } else {
            self.rowoff = 0;
            self.cy = target + 1;
        }
        self.set_x_after_up_down();
    }

    /// Delete on the document: removes the character at the cursor.
    fn delete_doc(&mut self)
        requires
            old(self).wf(),
        ensures
            final(self).wf(),
            final(self).abs() == delete_abs(old(self).abs()),
    {
        let n = self.rows.len();
        proof {
            assert(self.abs().rows.len() == n);
        }
        let row_ix = self.rowoff + self.cy - 1;
        let len = self.rows[row_ix].len;
        proof {
            assert(row_views(self.rows@)[row_ix as int] == self.rows@[row_ix as int]@);
        }
        let dx = self.cx - self.cx_base;
        let room = len - self.coloff;
        if dx < room {
            let col = self.coloff + dx;
            let ghost prev = self.rows@;
            self.rows[row_ix].remove(col);
            proof {
                assert(row_views(self.rows@) =~= row_views(prev).update(
                    row_ix as int,
                    prev[row_ix as int]@.remove(col as int),
                ));
            }
        }
    }

    /// Backspace on the document: removes the character before the cursor
    /// and retreats it.
    fn backspace_doc(&mut self)
        requires
            old(self).wf(),
        ensures
            final(self).wf(),
            final(self).abs() == backspace_abs(old(self).abs()),
    {
        let n = self.rows.len();
        proof {
            assert(self.abs().rows.len() == n);
        }
        let row_ix = self.rowoff + self.cy - 1;
        let len = self.rows[row_ix].len;
        proof {
            assert(row_views(self.rows@)[row_ix as int] == self.rows@[row_ix as int]@);
        }
        let dx = self.cx - self.cx_base;
        if dx == 0 && self.coloff == 0 {
            return ;
        }
        let room = len - self.coloff;
        if dx <= room {
            let col1 = self.coloff + dx - 1;
            let ghost prev = self.rows@;
            self.rows[row_ix].remove(col1);
            proof {
                assert(row_views(self.rows@) =~= row_views(prev).update(
                    row_ix as int,
                    prev[row_ix as int]@.remove(col1 as int),
                ));
            }
        }
        if self.cx > self.cx_base {
            self.cx = self.cx - 1;
        } else {
            self.coloff = self.coloff - 1;
        }
    }

    /// A printable byte in Insert mode enters the current row at the
    /// cursor and the cursor advances.
    fn insert_char_doc(&mut self, c: u8)
        requires
            old(self).wf(),
            32 <= c <= 126,
        ensures
            final(self).wf(),
            final(self).abs() == insert_char_abs(old(self).abs(), c as char),
    {
        let n = self.rows.len();
        proof {
            assert(self.abs().rows.len() == n);
        }
        let row_ix = self.rowoff + self.cy - 1;
        let len = self.rows[row_ix].len;
        proof {
            assert(row_views(self.rows@)[row_ix as int] == self.rows@[row_ix as int]@);
        }
        let dx = self.cx - self.cx_base;
        let room = len - self.coloff;
        let ch = (c as char);
        let ghost prev = self.rows@;
        if dx >= room {
            self.rows[row_ix].push(ch);
            proof {
                assert(row_views(self.rows@) =~= row_views(prev).update(
                    row_ix as int,
                    prev[row_ix as int]@.push(ch),
                ));
            }
        } else {
            let col = self.coloff + dx;
            self.rows[row_ix].insert(col, ch);
            proof {
                assert(row_views(self.rows@) =~= row_views(prev).update(
                    row_ix as int,
                    prev[row_ix as int]@.insert(col as int, ch),
                ));
            }
        }
        if self.cx < self.screencols {
            self.cx = self.cx + 1;
        } else {
            self.coloff = self.coloff + 1;
        }
        if self.max_x < self.cx {
            self.max_x = self.cx;
        }
    }

    /// Arrow Left on the command line.
    fn cmd_left(&mut self)
        requires
            old(self).wf(),
            old(self).abs().mode is Command,
        ensures
            final(self).wf(),
            final(self).abs() == cmd_left_abs(old(self).abs()),
    {
        let mut m = EditorMode::Normal;
        core::mem::swap(&mut m, &mut self.mode);
        match m {
            EditorMode::Command { cmd, cmdix } => {
                let nix = if cmdix > 0 {
                    cmdix - 1
                } else {
                    0
                };
                self.mode = EditorMode::Command { cmd, cmdix: nix };
            },
            _ => {
                self.mode = m;
            },
        }
    }

    /// Arrow Right on the command line.
    fn cmd_right(&mut self)
        requires
            old(self).wf(),
            old(self).abs().mode is Command,
        ensures
            final(self).wf(),
            final(self).abs() == cmd_right_abs(old(self).abs()),
    {
        let mut m = EditorMode::Normal;
        core::mem::swap(&mut m, &mut self.mode);
        match m {
            EditorMode::Command { cmd, cmdix } => {
                let nix = if cmdix < cmd.len() {
                    cmdix + 1
                } else {
                    cmdix
                };
                self.mode = EditorMode::Command { cmd, cmdix: nix };
            },
            _ => {
                self.mode = m;
            },
        }
    }

    /// Backspace on the command line.
    fn cmd_backspace(&mut self)
        requires
            old(self).wf(),
            old(self).abs().mode is Command,
        ensures
            final(self).wf(),
            final(self).abs() == cmd_backspace_abs(old(self).abs()),
    {
        let mut m = EditorMode::Normal;
        core::mem::swap(&mut m, &mut self.mode);
        match m {
            EditorMode::Command { mut cmd, cmdix } => {
                if cmdix > 0 {
                    cmd.remove(cmdix - 1);
                    self.mode = EditorMode::Command { cmd, cmdix: cmdix - 1 };
                } else {
                    self.mode = EditorMode::Command { cmd, cmdix };
                }
            },
            _ => {
                self.mode = m;
            },
        }
    }

    /// A printable byte enters the command line at the index.
    fn cmd_insert(&mut self, c: u8)
        requires
            old(self).wf(),
            old(self).abs().mode is Command,
            32 <= c <= 126,
        ensures
            final(self).wf(),
            final(self).abs() == cmd_insert_abs(old(self).abs(), c as char),
    {
        let mut m = EditorMode::Normal;
        core::mem::swap(&mut m, &mut self.mode);
        match m {
            EditorMode::Command { mut cmd, cmdix } => {
                cmd.insert(cmdix, c as char);
                let nlen = cmd.len();
                proof {
                    assert(cmdix + 1 <= nlen);
                }
                self.mode = EditorMode::Command { cmd, cmdix: cmdix + 1 };
            },
            _ => {
                self.mode = m;
            },
        }
    }

    /// Enter on the command line: dispatches the command and returns to
    /// Normal mode.
    fn cmd_enter(&mut self) -> (r: EditorAction)
        requires
            old(self).wf(),
            old(self).abs().mode is Command,
        ensures
            final(self).wf(),
            final(self).abs() == cmd_enter_abs(old(self).abs()).0,
            r == cmd_enter_abs(old(self).abs()).1,
    {
        let mut m = EditorMode::Normal;
        core::mem::swap(&mut m, &mut self.mode);
        match m {
            EditorMode::Command { cmd, .. } => {
                let ghost gcmd = cmd@;
                let act = if cmd.len() == 1 {
                    let c0 = cmd[0];
                    if c0 == 'q' {
                        EditorAction::Quit
                    } else if c0 == 'w' {
                        EditorAction::Save
                    } else {
                        EditorAction::Continue
                    }
                } else {
                    EditorAction::Continue
                };
                proof {
                    if gcmd.len() == 1 && gcmd[0] == 'q' {
                        assert(gcmd =~= seq!['q']);
                    }
                    if gcmd.len() == 1 && gcmd[0] == 'w' {
                        assert(gcmd =~= seq!['w']);
                    }
                    if gcmd == seq!['q'] {
                        assert(gcmd.len() == 1 && gcmd[0] == 'q');
                    }
                    if gcmd == seq!['w'] {
                        assert(gcmd.len() == 1 && gcmd[0] == 'w');
                    }
                }
                act
            },
            _ => EditorAction::Continue,
        }
    }

    /// Routes one key event: navigation moves the document cursor or the
    /// command-line index depending on the mode, edits go to the current
    /// row or the command line, and Enter in Command mode dispatches the
    /// typed command. Returns what the control loop must do next.
    pub fn handle_key(&mut self, key: EditorKey) -> (r: EditorAction)
        requires
            old(self).wf(),
        ensures
            final(self).wf(),
            final(self).abs() == step_abs(old(self).abs(), key).0,
            r == step_abs(old(self).abs(), key).1,
    {
        match key {
            EditorKey::ArrowLeft => {
                if self.in_command() {
                    self.cmd_left();
                } else {
                    self.move_left_doc();
                }
                EditorAction::Continue
            },
            EditorKey::ArrowRight => {
                if self.in_command() {
                    self.cmd_right();
                } else {
                    self.move_right_doc();
                }
                EditorAction::Continue
            },
            EditorKey::ArrowUp => {
                if !self.in_command() {
                    self.move_up_doc();
                }
                EditorAction::Continue
            },
            EditorKey::ArrowDown => {
                if !self.in_command() {
                    self.move_down_doc();
                }
                EditorAction::Continue
            },
            EditorKey::DelKey => {
                if !self.in_command() {
                    self.delete_doc();
                }
                EditorAction::Continue
            },
            EditorKey::HomeKey => {
                self.go_home_doc();
                EditorAction::Continue
            },
            EditorKey::EndKey => {
                self.go_end_doc();
                EditorAction::Continue
            },
            EditorKey::PageUp => {
                self.page_up_doc();
                EditorAction::Continue
            },
            EditorKey::PageDown => {
                self.page_down_doc();
                EditorAction::Continue
            },
            EditorKey::Backspace => {
                if self.in_command() {
                    self.cmd_backspace();
                } else {
                    self.backspace_doc();
                }
                EditorAction::Continue
            },
            EditorKey::Insert => {
                let is_normal = matches!(self.mode, EditorMode::Normal);
                let is_insert = matches!(self.mode, EditorMode::Insert);
                if is_normal {
                    self.mode = EditorMode::Insert;
                } else if is_insert {
                    self.mode = EditorMode::Normal;
                }
                EditorAction::Continue
            },
            EditorKey::K(c) => {
                let is_normal = matches!(self.mode, EditorMode::Normal);
                let is_insert = matches!(self.mode, EditorMode::Insert);
                if is_normal {
                    if c == 105 {
                        self.mode = EditorMode::Insert;
                    } else if c == 58 {
                        self.mode = EditorMode::Command { cmd: Vec::new(), cmdix: 0 };
                    }
                    EditorAction::Continue
                } else if is_insert {
                    if c == 27 {
                        self.mode = EditorMode::Normal;
                    } else if c > 31 && c < 127 {
                        self.insert_char_doc(c);
                    }
                    EditorAction::Continue
                } else {
                    if c == 27 {
                        self.mode = EditorMode::Normal;
                        EditorAction::Continue
                    } else if c == 13 {
                        self.cmd_enter()
                    } else if c == 127 {
                        self.cmd_backspace();
                        EditorAction::Continue
                    } else if c > 31 && c < 127 {
                        self.cmd_insert(c);
                        EditorAction::Continue
                    } else {
                        EditorAction::Continue
                    }
                }
            },
        }
    }
}

} // verus!
