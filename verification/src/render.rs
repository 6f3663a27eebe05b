//! The frame renderer: one escape-coded output string per cycle, built in
//! a fixed order (hide cursor, home, visible rows with gutter and
//! clipped text, tildes, status or command line, cursor reposition, show
//! cursor) so the terminal never displays a partially updated frame. The
//! caller writes the whole string in a single write.

use vstd::prelude::*;

use crate::editor::EditorConfig;
use crate::editor::EditorMode;
use crate::editor::mode_label_seq;
use crate::escapes::bg_color;
use crate::escapes::bg_color_seq;
use crate::escapes::dec_rep;
use crate::escapes::decimal_width;
use crate::escapes::fg_color;
use crate::escapes::fg_color_seq;
use crate::escapes::push_decimal;
use crate::row::EditorRow;
use crate::step::EdState;
use crate::step::ModeAbs;

verus! {

/// `n` copies of one character.
pub open spec fn repeat_char(c: char, n: int) -> Seq<char> {
    if n <= 0 {
        Seq::empty()
    } else {
        Seq::new(n as nat, |i: int| c)
    }
}

/// Cursor-hide control sequence.
pub open spec fn hide_seq() -> Seq<char> {
    seq!['\x1b', '[', '?', '2', '5', 'l']
}

/// Cursor-show control sequence.
pub open spec fn show_seq() -> Seq<char> {
    seq!['\x1b', '[', '?', '2', '5', 'h']
}

/// Cursor-home control sequence.
pub open spec fn home_seq() -> Seq<char> {
    seq!['\x1b', '[', 'H']
}

/// Erase-line control sequence.
pub open spec fn erase_seq() -> Seq<char> {
    seq!['\x1b', '[', 'K']
}

/// Color-reset control sequence.
pub open spec fn neutral_seq() -> Seq<char> {
    seq!['\x1b', '[', '0', 'm']
}

/// Line terminator inside a frame.
pub open spec fn crlf_seq() -> Seq<char> {
    seq!['\r', '\n']
}

/// Absolute cursor-position control sequence.
pub open spec fn pos_seq(row: int, col: int) -> Seq<char> {
    seq!['\x1b', '['] + dec_rep(row as nat) + seq![';'] + dec_rep(col as nat) + seq!['H']
}

/// The line-number gutter cell: the 1-based number between single spaces,
/// left-padded to the gutter width.
pub open spec fn gutter_seq(lineno: nat, cx_base: int) -> Seq<char> {
    let core = seq![' '] + dec_rep(lineno) + seq![' '];
    if core.len() < cx_base - 2 {
        repeat_char(' ', cx_base - 2 - core.len()) + core
    } else {
        core
    }
}

/// The part of a row visible at the current horizontal scroll and width.
pub open spec fn visible_seq(line: Seq<char>, coloff: int, cx_base: int, screencols: int) -> Seq<
    char,
> {
    let clip = if screencols - cx_base + coloff <= line.len() {
        screencols - cx_base + coloff
    } else {
        line.len() as int
    };
    if clip > coloff {
        line.subrange(coloff, clip)
    } else {
        Seq::empty()
    }
}

/// One rendered document row: erase, colored gutter, colored text clipped
/// to the visible region, blanks to the right edge, reset, newline.
pub open spec fn row_piece(
    line: Seq<char>,
    lineno: nat,
    coloff: int,
    cx_base: int,
    screencols: int,
) -> Seq<char> {
    let visible = visible_seq(line, coloff, cx_base, screencols);
    erase_seq() + bg_color_seq(96, 115, 116) + gutter_seq(lineno, cx_base) + neutral_seq()
        + bg_color_seq(250, 238, 209) + fg_color_seq(0, 0, 0) + seq![' '] + visible + repeat_char(
        ' ',
        screencols - cx_base - visible.len() + 1,
    ) + neutral_seq() + crlf_seq()
}

/// The first `count` visible rows, rendered in order.
pub open spec fn rows_section(
    rows: Seq<Seq<char>>,
    rowoff: int,
    count: int,
    coloff: int,
    cx_base: int,
    screencols: int,
) -> Seq<char>
    decreases count,
{
    if count <= 0 {
        Seq::empty()
    } else {
        rows_section(rows, rowoff, count - 1, coloff, cx_base, screencols) + row_piece(
            rows[rowoff + count - 1],
            (rowoff + count) as nat,
            coloff,
            cx_base,
            screencols,
        )
    }
}

/// Tilde lines filling the screen below the document.
pub open spec fn tildes_section(count: int) -> Seq<char>
    decreases count,
{
    if count <= 0 {
        Seq::empty()
    } else {
        tildes_section(count - 1) + erase_seq() + seq!['~'] + crlf_seq()
    }
}

/// The status line: a dashed gutter stub and the mode label in
/// Normal/Insert mode; `: ` and the command text in Command mode.
pub open spec fn status_piece(s: EdState) -> Seq<char> {
    match s.mode {
        ModeAbs::Command { cmd, .. } => pos_seq(s.screenrows, 1) + bg_color_seq(178, 165, 155)
            + erase_seq() + seq![':', ' '] + cmd + neutral_seq(),
        _ => pos_seq(s.screenrows, 1) + erase_seq() + bg_color_seq(96, 115, 116) + repeat_char(
            '-',
            s.cx_base - 2,
        ) + neutral_seq() + bg_color_seq(178, 165, 155) + mode_label_seq(s.mode) + repeat_char(
            ' ',
            s.screencols - s.cx_base - mode_label_seq(s.mode).len() + 2,
        ) + neutral_seq(),
    }
}

/// Where the cursor is put at the end of the frame: inside the command
/// line in Command mode (clipped to the screen), at the cursor's screen
/// coordinate otherwise.
pub open spec fn cursor_piece(s: EdState) -> Seq<char> {
    match s.mode {
        ModeAbs::Command { cmdix, .. } => {
            let col = if cmdix + 3 > s.screencols {
                s.screencols
            } else {
                cmdix + 3
            };
            pos_seq(s.screenrows, col)
        },
        _ => pos_seq(s.cy, s.cx),
    }
}

/// The whole frame for one render cycle.
pub open spec fn frame_seq(s: EdState) -> Seq<char> {
    let visible_rows = if s.screenrows - 1 <= s.rows.len() - s.rowoff {
        s.screenrows - 1
    } else {
        s.rows.len() - s.rowoff
    };
    hide_seq() + home_seq() + rows_section(
        s.rows,
        s.rowoff,
        visible_rows,
        s.coloff,
        s.cx_base,
        s.screencols,
    ) + tildes_section(s.screenrows - 1 - visible_rows) + status_piece(s) + cursor_piece(s)
        + show_seq()
}

/// Appends `n` copies of `c`.
fn push_repeat(s: &mut String, c: char, n: usize)
    ensures
        final(s)@ == old(s)@ + repeat_char(c, n as int),
{
    let mut i: usize = 0;
    while i < n
        invariant
            i <= n,
            s@ == old(s)@ + repeat_char(c, i as int),
        decreases n - i,
    {
        s.push(c);
        proof {
            assert(repeat_char(c, i + 1) =~= repeat_char(c, i as int).push(c));
            assert(old(s)@ + repeat_char(c, i + 1) =~= (old(s)@ + repeat_char(c, i as int)).push(
                c,
            ));
        }
        i = i + 1;
    }
    proof {
        assert(s@ =~= old(s)@ + repeat_char(c, n as int));
    }
}

/// Appends the erase-line control sequence.
fn push_erase(s: &mut String)
    ensures
        final(s)@ == old(s)@ + erase_seq(),
{
    s.append("\x1b[K");
    proof {
        reveal_strlit("\x1b[K");
        assert("\x1b[K"@ =~= erase_seq());
    }
}

/// Appends the color-reset control sequence.
fn push_neutral(s: &mut String)
    ensures
        final(s)@ == old(s)@ + neutral_seq(),
{
    s.append("\x1b[0m");
    proof {
        reveal_strlit("\x1b[0m");
        assert("\x1b[0m"@ =~= neutral_seq());
    }
}

/// Appends the line terminator.
fn push_crlf(s: &mut String)
    ensures
        final(s)@ == old(s)@ + crlf_seq(),
{
    s.append("\r\n");
    proof {
        reveal_strlit("\r\n");
        assert("\r\n"@ =~= crlf_seq());
    }
}

/// Appends an absolute cursor-position control sequence.
fn push_pos(s: &mut String, row: usize, col: usize)
    ensures
        final(s)@ == old(s)@ + pos_seq(row as int, col as int),
{
    s.append("\x1b[");
    proof {
        reveal_strlit("\x1b[");
        assert("\x1b["@ =~= seq!['\x1b', '[']);
    }
    push_decimal(s, row);
    s.push(';');
    push_decimal(s, col);
    s.push('H');
    proof {
        assert(s@ =~= old(s)@ + pos_seq(row as int, col as int));
    }
}

/// Appends the gutter cell for one line number.
fn push_gutter(s: &mut String, lineno: usize, cx_base: usize)
    requires
        cx_base >= 4,
    ensures
        final(s)@ == old(s)@ + gutter_seq(lineno as nat, cx_base as int),
{
    let width = decimal_width(lineno);
    if width + 2 < cx_base - 2 {
        push_repeat(s, ' ', cx_base - 2 - (width + 2));
    }
    s.push(' ');
    push_decimal(s, lineno);
    s.push(' ');
    proof {
        assert(seq![' '] + dec_rep(lineno as nat) + seq![' '] =~= Seq::empty().push(' ')
            + dec_rep(lineno as nat) + seq![' ']);
        assert(s@ =~= old(s)@ + gutter_seq(lineno as nat, cx_base as int));
    }
}

/// Appends the visible part of one row's text.
fn push_visible(s: &mut String, row: &EditorRow, coloff: usize, cx_base: usize, screencols: usize)
    requires
        row.wf(),
        cx_base + 6 <= screencols,
    ensures
        final(s)@ == old(s)@ + visible_seq(row@, coloff as int, cx_base as int, screencols as int),
{
    let len = row.len;
    if len > coloff {
        let avail = screencols - cx_base;
        let rem = len - coloff;
        let vl = if rem < avail {
            rem
        } else {
            avail
        };
        let end = coloff + vl;
        let mut j: usize = coloff;
        while j < end
            invariant
                coloff <= j <= end,
                end <= row@.len(),
                row.wf(),
                s@ == old(s)@ + row@.subrange(coloff as int, j as int),
            decreases end - j,
        {
            s.push(row.chars[j]);
            proof {
                assert(row@.subrange(coloff as int, j + 1) =~= row@.subrange(
                    coloff as int,
                    j as int,
                ).push(row@[j as int]));
                assert(old(s)@ + row@.subrange(coloff as int, j + 1) =~= (old(s)@
                    + row@.subrange(coloff as int, j as int)).push(row@[j as int]));
            }
            j = j + 1;
        }
        proof {
            assert(row@.subrange(coloff as int, end as int) =~= visible_seq(
                row@,
                coloff as int,
                cx_base as int,
                screencols as int,
            ));
        }
    } else {
        proof {
            assert(visible_seq(row@, coloff as int, cx_base as int, screencols as int)
                =~= Seq::<char>::empty());
            assert(s@ =~= old(s)@ + Seq::<char>::empty());
        }
    }
}

/// Appends one rendered document row.
fn push_row(
    s: &mut String,
    row: &EditorRow,
    lineno: usize,
    coloff: usize,
    cx_base: usize,
    screencols: usize,
)
    requires
        row.wf(),
        cx_base >= 4,
        cx_base + 6 <= screencols,
    ensures
        final(s)@ == old(s)@ + row_piece(
            row@,
            lineno as nat,
            coloff as int,
            cx_base as int,
            screencols as int,
        ),
{
    push_erase(s);
    let lineno_bg = bg_color(96, 115, 116);
    s.append(lineno_bg.as_str());
    push_gutter(s, lineno, cx_base);
    push_neutral(s);
    let text_bg = bg_color(250, 238, 209);
    s.append(text_bg.as_str());
    let black_fg = fg_color(0, 0, 0);
    s.append(black_fg.as_str());
    s.push(' ');
    push_visible(s, row, coloff, cx_base, screencols);
    let ghost visible = visible_seq(row@, coloff as int, cx_base as int, screencols as int);
    proof {
        assert(visible.len() <= screencols - cx_base);
    }
    let vl = if row.len > coloff {
        let rem = row.len - coloff;
        let avail = screencols - cx_base;
        if rem < avail {
            rem
        } else {
            avail
        }
    } else {
        0
    };
    proof {
        assert(vl == visible.len());
    }
    push_repeat(s, ' ', screencols - cx_base - vl + 1);
    push_neutral(s);
    push_crlf(s);
    proof {
        assert(s@ =~= old(s)@ + row_piece(
            row@,
            lineno as nat,
            coloff as int,
            cx_base as int,
            screencols as int,
        ));
    }
}

impl EditorConfig {
    /// Composes the whole frame for the current state. The caller writes
    /// the returned string to the terminal in one write.
    #[verifier::rlimit(100)]
    pub fn render_frame(&self) -> (out: String)
        requires
            self.wf(),
        ensures
            out@ == frame_seq(self.abs()),
    {
        let mut out = String::new();
        out.append("\x1b[?25l");
        proof {
            reveal_strlit("\x1b[?25l");
            assert("\x1b[?25l"@ =~= hide_seq());
        }
        out.append("\x1b[H");
        proof {
            reveal_strlit("\x1b[H");
            assert("\x1b[H"@ =~= home_seq());
        }
        let ghost header = hide_seq() + home_seq();
        proof {
            assert(out@ =~= header);
        }
        let n = self.rows.len();
        proof {
            assert(self.abs().rows.len() == n);
        }
        let visible_rows = if self.screenrows - 1 <= n - self.rowoff {
            self.screenrows - 1
        } else {
            n - self.rowoff
        };
        let mut k: usize = 0;
        while k < visible_rows
            invariant
                self.wf(),
                k <= visible_rows,
                n == self.rows@.len(),
                self.rowoff + visible_rows <= n,
                self.cx_base >= 4,
                self.cx_base + 6 <= self.screencols,
                out@ == header + rows_section(
                    self.abs().rows,
                    self.rowoff as int,
                    k as int,
                    self.coloff as int,
                    self.cx_base as int,
                    self.screencols as int,
                ),
            decreases visible_rows - k,
        {
            let ix = self.rowoff + k;
            proof {
                assert(self.abs().rows[ix as int] == self.rows@[ix as int]@);
            }
            push_row(&mut out, &self.rows[ix], ix + 1, self.coloff, self.cx_base, self.screencols);
            proof {
                assert(out@ =~= header + rows_section(
                    self.abs().rows,
                    self.rowoff as int,
                    k + 1,
                    self.coloff as int,
                    self.cx_base as int,
                    self.screencols as int,
                ));
            }
            k = k + 1;
        }
        let tilde_count = self.screenrows - 1 - visible_rows;
        let ghost before_tildes = out@;
        let mut t: usize = 0;
        while t < tilde_count
            invariant
                t <= tilde_count,
                out@ == before_tildes + tildes_section(t as int),
            decreases tilde_count - t,
        {
            push_erase(&mut out);
            out.push('~');
            push_crlf(&mut out);
            proof {
                assert(out@ =~= before_tildes + tildes_section(t + 1));
            }
            t = t + 1;
        }
        // Status or command line.
        let ghost before_status = out@;
        match &self.mode {
            EditorMode::Command { cmd, .. } => {
                push_pos(&mut out, self.screenrows, 1);
                let cmd_bg = bg_color(178, 165, 155);
                out.append(cmd_bg.as_str());
                out.append("\x1b[K: ");
                proof {
                    reveal_strlit("\x1b[K: ");
                    assert("\x1b[K: "@ =~= erase_seq() + seq![':', ' ']);
                }
                let clen = cmd.len();
                let mut j: usize = 0;
                let ghost before_cmd = out@;
                while j < clen
                    invariant
                        j <= clen,
                        clen == cmd@.len(),
                        out@ == before_cmd + cmd@.subrange(0, j as int),
                    decreases clen - j,
                {
                    out.push(cmd[j]);
                    proof {
                        assert(cmd@.subrange(0, j + 1) =~= cmd@.subrange(0, j as int).push(
                            cmd@[j as int],
                        ));
                        assert(before_cmd + cmd@.subrange(0, j + 1) =~= (before_cmd
                            + cmd@.subrange(0, j as int)).push(cmd@[j as int]));
                    }
                    j = j + 1;
                }
                proof {
                    assert(cmd@.subrange(0, clen as int) =~= cmd@);
                }
                push_neutral(&mut out);
                proof {
                    assert(out@ =~= before_status + status_piece(self.abs()));
                }
            },
            _ => {
                push_pos(&mut out, self.screenrows, 1);
                push_erase(&mut out);
                let lineno_bg = bg_color(96, 115, 116);
                out.append(lineno_bg.as_str());
                push_repeat(&mut out, '-', self.cx_base - 2);
                push_neutral(&mut out);
                let cmd_bg = bg_color(178, 165, 155);
                out.append(cmd_bg.as_str());
                let label = self.mode.label();
                let label_len = label.unicode_len();
                out.append(label);
                proof {
                    assert(label_len == mode_label_seq(self.abs().mode).len());
                    assert(label_len <= 6);
                }
                push_repeat(&mut out, ' ', self.screencols - self.cx_base - label_len + 2);
                push_neutral(&mut out);
                proof {
                    assert(out@ =~= before_status + status_piece(self.abs()));
                }
            },
        }
        // Final cursor position, then show the cursor again.
        let ghost before_cursor = out@;
        match &self.mode {
            EditorMode::Command { cmdix, .. } => {
                let col = if *cmdix > self.screencols - 3 {
                    self.screencols
                } else {
                    *cmdix + 3
                };
                push_pos(&mut out, self.screenrows, col);
            },
            _ => {
                push_pos(&mut out, self.cy, self.cx);
            },
        }
        proof {
            assert(out@ =~= before_cursor + cursor_piece(self.abs()));
        }
        out.append("\x1b[?25h");
        proof {
            reveal_strlit("\x1b[?25h");
            assert("\x1b[?25h"@ =~= show_seq());
            assert(out@ =~= frame_seq(self.abs()));
        }
        out
    }
}

} // verus!
