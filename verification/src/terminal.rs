//! Parsing the terminal's cursor-position report and resynchronizing the
//! session from it.
//!
//! The report has the shape `ESC [ row ; col R`. The parser scans to the
//! first `[`, then reads two non-empty decimal fields separated by `;`
//! and terminated by `R`. A malformed or missing reply parses to `None`
//! and leaves the prior cursor values unchanged — it is never fatal.

use vstd::prelude::*;

use crate::document::row_views;
use crate::editor::EditorConfig;
use crate::step::EdState;
use crate::step::cur_len;

verus! {

/// Whether a byte is an ASCII decimal digit.
pub open spec fn is_digit(b: u8) -> bool {
    48 <= b <= 57
}

/// Splits the longest run of leading digits from the rest.
pub open spec fn take_digits(s: Seq<u8>) -> (Seq<u8>, Seq<u8>)
    decreases s.len(),
{
    if s.len() == 0 || !is_digit(s[0]) {
        (Seq::empty(), s)
    } else {
        let (d, r) = take_digits(s.drop_first());
        (seq![s[0]] + d, r)
    }
}

/// The number a digit string denotes, most significant digit first.
pub open spec fn dec_val(ds: Seq<u8>) -> int
    decreases ds.len(),
{
    if ds.len() == 0 {
        0
    } else {
        dec_val(ds.drop_last()) * 10 + (ds.last() - 48)
    }
}

/// Parses `row ; col R` after the opening bracket.
pub open spec fn parse_fields(s: Seq<u8>) -> Option<(int, int)> {
    let (d1, r1) = take_digits(s);
    if d1.len() == 0 || r1.len() == 0 || r1[0] != 59 {  // ';'
        None
    } else {
        let (d2, r2) = take_digits(r1.drop_first());
        if d2.len() == 0 || r2.len() == 0 || r2[0] != 82 {  // 'R'
            None
        } else {
            Some((dec_val(d1), dec_val(d2)))
        }
    }
}

/// Parses a whole reply buffer: everything before the first `[` is
/// skipped, then the two fields follow.
pub open spec fn parse_reply(s: Seq<u8>) -> Option<(int, int)>
    decreases s.len(),
{
    if s.len() == 0 {
        None
    } else if s[0] == 91 {  // '['
        parse_fields(s.drop_first())
    } else {
        parse_reply(s.drop_first())
    }
}

/// What [`take_digits`] splits off is made of digits.
proof fn lemma_take_digits_digits(s: Seq<u8>)
    ensures
        forall|i: int|
            0 <= i < take_digits(s).0.len() ==> is_digit(#[trigger] take_digits(s).0[i]),
    decreases s.len(),
{
    if s.len() > 0 && is_digit(s[0]) {
        lemma_take_digits_digits(s.drop_first());
        assert forall|i: int|
            0 <= i < take_digits(s).0.len() implies is_digit(
            #[trigger] take_digits(s).0[i],
        ) by {
            if i > 0 {
                assert(take_digits(s).0[i] == take_digits(s.drop_first()).0[i - 1]);
            }
        }
    }
}

/// A digit string denotes a nonnegative number.
proof fn lemma_dec_val_nonneg(ds: Seq<u8>)
    requires
        forall|i: int| 0 <= i < ds.len() ==> is_digit(#[trigger] ds[i]),
    ensures
        dec_val(ds) >= 0,
    decreases ds.len(),
{
    if ds.len() > 0 {
        assert(forall|i: int|
            0 <= i < ds.drop_last().len() ==> is_digit(#[trigger] ds.drop_last()[i]));
        lemma_dec_val_nonneg(ds.drop_last());
    }
}

/// A digit string's prefixes denote no more than the whole string.
proof fn lemma_dec_val_prefix_le(ds: Seq<u8>, k: int)
    requires
        0 <= k <= ds.len(),
        forall|i: int| 0 <= i < ds.len() ==> is_digit(#[trigger] ds[i]),
    ensures
        dec_val(ds.take(k)) <= dec_val(ds),
    decreases ds.len() - k,
{
    if k < ds.len() {
        lemma_dec_val_prefix_le(ds, k + 1);
        assert(ds.take(k + 1).drop_last() =~= ds.take(k));
        assert(dec_val(ds.take(k + 1)) == dec_val(ds.take(k)) * 10 + (ds.take(k + 1).last()
            - 48));
        assert(forall|i: int|
            0 <= i < ds.take(k).len() ==> is_digit(#[trigger] ds.take(k)[i]));
        lemma_dec_val_nonneg(ds.take(k));
    } else {
        assert(ds.take(k) =~= ds);
    }
}

/// Scans the decimal field starting at `from`: its value and the index
/// just past it, or `None` when the field is empty or its value does not
/// fit a `usize`.
fn scan_number(buf: &Vec<u8>, from: usize) -> (r: Option<(usize, usize)>)
    requires
        from <= buf@.len(),
    ensures
        ({
            let (d, rest) = take_digits(buf@.skip(from as int));
            match r {
                Some((v, j)) => {
                    &&& d.len() > 0
                    &&& v == dec_val(d)
                    &&& j == from + d.len()
                    &&& j <= buf@.len()
                    &&& rest == buf@.skip(j as int)
                },
                None => d.len() == 0 || dec_val(d) > usize::MAX,
            }
        }),
{
    let ghost whole = take_digits(buf@.skip(from as int)).0;
    let n = buf.len();
    let mut j: usize = from;
    let mut val: usize = 0;
    while j < n && 48 <= buf[j] && buf[j] <= 57
        invariant
            from <= j <= n,
            n == buf@.len(),
            whole == take_digits(buf@.skip(from as int)).0,
            buf@.subrange(from as int, j as int) + take_digits(buf@.skip(j as int)).0 == whole,
            take_digits(buf@.skip(j as int)).1 == take_digits(buf@.skip(from as int)).1,
            val == dec_val(buf@.subrange(from as int, j as int)),
            buf@.subrange(from as int, j as int) =~= whole.take(j - from),
            forall|k: int| from <= k < j ==> is_digit(#[trigger] buf@[k]),
        decreases n - j,
    {
        let b = buf[j];
        let d = (b - 48) as usize;
        proof {
            assert(buf@.skip(j as int)[0] == buf@[j as int]);
            assert(buf@.skip(j as int).drop_first() =~= buf@.skip(j + 1));
            assert(take_digits(buf@.skip(j as int)).0 == seq![buf@[j as int]] + take_digits(
                buf@.skip(j + 1),
            ).0);
            assert(buf@.subrange(from as int, j + 1) =~= buf@.subrange(from as int, j as int)
                + seq![buf@[j as int]]);
            assert(buf@.subrange(from as int, j + 1) + take_digits(buf@.skip(j + 1)).0
                =~= buf@.subrange(from as int, j as int) + take_digits(buf@.skip(j as int)).0);
            assert(buf@.subrange(from as int, j + 1).drop_last() =~= buf@.subrange(
                from as int,
                j as int,
            ));
        }
        if val > (usize::MAX - d) / 10 {
            // The field's value cannot fit: the whole run of digits
            // denotes at least this much.
            proof {
                assert(val * 10 + d > usize::MAX) by (nonlinear_arith)
                    requires
                        val > (usize::MAX - d) / 10,
                        d <= 9,
                ;
                assert(dec_val(buf@.subrange(from as int, j + 1)) == val * 10 + d);
                assert(buf@.subrange(from as int, j + 1) =~= whole.take(j + 1 - from));
                lemma_take_digits_digits(buf@.skip(j + 1));
                assert(forall|i: int|
                    0 <= i < whole.len() ==> is_digit(#[trigger] whole[i]));
                lemma_dec_val_prefix_le(whole, j + 1 - from);
            }
            return None;
        }
        proof {
            assert(val <= (usize::MAX - d) / 10 ==> val * 10 + d <= usize::MAX) by (
            nonlinear_arith)
                requires
                    d <= 9,
            ;
        }
        val = val * 10 + d;
        j = j + 1;
    }
    proof {
        let tail = buf@.skip(j as int);
        if j < n {
            assert(!is_digit(tail[0]));
            assert(take_digits(tail).0 =~= Seq::<u8>::empty());
        } else {
            assert(tail =~= Seq::<u8>::empty());
            assert(take_digits(tail).0 =~= Seq::<u8>::empty());
        }
        assert(whole =~= buf@.subrange(from as int, j as int));
    }
    if j == from {
        None
    } else {
        Some((val, j))
    }
}

/// Parses a cursor-position reply. Returns the reported row and column,
/// or `None` when the buffer holds no well-formed report whose fields fit
/// a `usize`.
pub fn parse_cursor_reply(buf: &Vec<u8>) -> (r: Option<(usize, usize)>)
    ensures
        match parse_reply(buf@) {
            Some((row, col)) => {
                if 0 <= row <= usize::MAX && 0 <= col <= usize::MAX {
                    r == Some((row as usize, col as usize))
                } else {
                    r is None
                }
            },
            None => r is None,
        },
{
    let n = buf.len();
    proof {
        assert(buf@.skip(0) =~= buf@);
    }
    let mut i: usize = 0;
    while i < n && buf[i] != 91
        invariant
            0 <= i <= n,
            n == buf@.len(),
            parse_reply(buf@.skip(i as int)) == parse_reply(buf@),
            forall|k: int| 0 <= k < i ==> buf@[k] != 91,
        decreases n - i,
    {
        proof {
            assert(buf@.skip(i as int)[0] == buf@[i as int]);
            assert(buf@.skip(i as int).drop_first() =~= buf@.skip(i + 1));
        }
        i = i + 1;
    }
    if i == n {
        proof {
            assert(buf@.skip(i as int) =~= Seq::<u8>::empty());
        }
        return None;
    }
    // buf[i] == '[': the fields follow.
    proof {
        assert(buf@.skip(i as int)[0] == buf@[i as int]);
        assert(buf@.skip(i as int).drop_first() =~= buf@.skip(i + 1));
        assert(parse_reply(buf@) == parse_fields(buf@.skip(i + 1)));
    }
    let first = scan_number(buf, i + 1);
    let (row, j) = match first {
        Some(p) => p,
        None => {
            return None;
        },
    };
    proof {
        let (d1, r1) = take_digits(buf@.skip(i + 1));
        assert(r1 =~= buf@.skip(j as int));
    }
    if j == n || buf[j] != 59 {
        return None;
    }
    proof {
        assert(buf@.skip(j as int)[0] == buf@[j as int]);
        assert(buf@.skip(j as int).drop_first() =~= buf@.skip(j + 1));
    }
    let second = scan_number(buf, j + 1);
    let (col, k) = match second {
        Some(p) => p,
        None => {
            return None;
        },
    };
    proof {
        let (d2, r2) = take_digits(buf@.skip(j + 1));
        assert(r2 =~= buf@.skip(k as int));
    }
    if k == n || buf[k] != 82 {
        return None;
    }
    proof {
        assert(buf@.skip(k as int)[0] == buf@[k as int]);
    }
    Some((row, col))
}

/// The state after a successful cursor-position re-query: the reported
/// coordinates, clamped into the screen and the document, with the column
/// offset pulled back when the new row is shorter than it.
pub open spec fn reply_abs(s: EdState, row: int, col: int) -> EdState {
    let maxcy = if s.screenrows - 1 <= s.rows.len() - s.rowoff {
        s.screenrows - 1
    } else {
        s.rows.len() - s.rowoff
    };
    let ncy = if row < 1 {
        1
    } else if row > maxcy {
        maxcy
    } else {
        row
    };
    let ncx = if col < s.cx_base {
        s.cx_base
    } else if col > s.screencols {
        s.screencols
    } else {
        col
    };
    let t = EdState { cy: ncy, cx: ncx, ..s };
    if cur_len(t) < t.coloff {
        EdState { coloff: cur_len(t), cx: t.cx_base, ..t }
    } else {
        t
    }
}

impl EditorConfig {
    /// Resynchronizes the cursor from the terminal's reply to a position
    /// query. A malformed or missing reply leaves the prior values
    /// unchanged.
    pub fn handle_cursor_reply(&mut self, buf: &Vec<u8>)
        requires
            old(self).wf(),
        ensures
            final(self).wf(),
            match parse_reply(buf@) {
                Some((row, col)) => {
                    if 0 <= row <= usize::MAX && 0 <= col <= usize::MAX {
                        final(self).abs() == reply_abs(old(self).abs(), row, col)
                    } else {
                        *final(self) == *old(self)
                    }
                },
                None => *final(self) == *old(self),
            },
    {
        let parsed = parse_cursor_reply(buf);
        let (row, col) = match parsed {
            Some(p) => p,
            None => {
                return ;
            },
        };
        let n = self.rows.len();
        proof {
            assert(self.abs().rows.len() == n);
        }
        let maxcy = if self.screenrows - 1 <= n - self.rowoff {
            self.screenrows - 1
        } else {
            n - self.rowoff
        };
        self.cy = if row < 1 {
            1
        } else if row > maxcy {
            maxcy
        } else {
            row
        };
        self.cx = if col < self.cx_base {
            self.cx_base
        } else if col > self.screencols {
            self.screencols
        } else {
            col
        };
        let row_ix = self.rowoff + self.cy - 1;
        let len = self.rows[row_ix].len;
        proof {
            assert(row_views(self.rows@)[row_ix as int] == self.rows@[row_ix as int]@);
        }
        if len < self.coloff {
            self.coloff = len;
            self.cx = self.cx_base;
        }
    }
}

} // verus!
