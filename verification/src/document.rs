//! Loading a document from its character content and saving it back.
//!
//! A document is a non-empty sequence of rows. Loading splits the content
//! on `'\n'`, keeping a final empty row when the content ends in a
//! newline (so an empty document is one empty row). Saving writes every
//! row followed by a newline, omitting a final empty row; loading and
//! then saving therefore reproduces content that ended in a newline
//! byte-for-byte ([`lemma_load_save_round_trip`]).

use vstd::prelude::*;

use crate::row::EditorRow;

verus! {

/// A line of a document never contains a newline itself.
pub open spec fn line_wf(line: Seq<char>) -> bool {
    forall|i: int| 0 <= i < line.len() ==> line[i] != '\n'
}

/// The character sequences of a sequence of rows.
pub open spec fn row_views(rows: Seq<EditorRow>) -> Seq<Seq<char>> {
    rows.map_values(|r: EditorRow| r@)
}

/// The content a sequence of lines stands for: the lines joined by single
/// `'\n'` separators, with no trailing newline.
pub open spec fn unsplit(lines: Seq<Seq<char>>) -> Seq<char>
    decreases lines.len(),
{
    if lines.len() == 0 {
        Seq::empty()
    } else if lines.len() == 1 {
        lines[0]
    } else {
        lines[0] + seq!['\n'] + unsplit(lines.drop_first())
    }
}

/// The first `k` lines, each followed by a newline, concatenated.
pub open spec fn joined(lines: Seq<Seq<char>>, k: int) -> Seq<char>
    decreases k,
{
    if k <= 0 {
        Seq::empty()
    } else {
        joined(lines, k - 1) + lines[k - 1] + seq!['\n']
    }
}

/// What saving a document produces: every row followed by a newline,
/// omitting a final empty row.
pub open spec fn save_spec(lines: Seq<Seq<char>>) -> Seq<char> {
    if lines.len() > 0 && lines.last().len() == 0 {
        joined(lines, lines.len() - 1)
    } else {
        joined(lines, lines.len() as int)
    }
}

/// Appending one more line extends [`unsplit`] by a separator and that
/// line.
proof fn lemma_unsplit_snoc(lines: Seq<Seq<char>>, line: Seq<char>)
    ensures
        unsplit(lines.push(line)) == if lines.len() == 0 {
            line
        } else {
            unsplit(lines) + seq!['\n'] + line
        },
    decreases lines.len(),
{
    reveal_with_fuel(unsplit, 3);
    if lines.len() == 0 {
        assert(lines.push(line) =~= seq![line]);
        assert(unsplit(seq![line]) == line);
    } else if lines.len() == 1 {
        assert(lines.push(line)[0] == lines[0]);
        assert(lines.push(line).drop_first() =~= seq![line]);
        assert(unsplit(lines.push(line)) == lines[0] + seq!['\n'] + line);
        assert(unsplit(lines) == lines[0]);
    } else {
        assert(lines.push(line).drop_first() =~= lines.drop_first().push(line));
        lemma_unsplit_snoc(lines.drop_first(), line);
        assert(unsplit(lines.push(line)) == lines[0] + seq!['\n'] + (unsplit(lines.drop_first())
            + seq!['\n'] + line));
        assert(lines[0] + seq!['\n'] + (unsplit(lines.drop_first()) + seq!['\n'] + line) =~= (
        lines[0] + seq!['\n'] + unsplit(lines.drop_first())) + seq!['\n'] + line);
    }
}

/// [`joined`] over the tail, expressed from the front.
proof fn lemma_joined_head(lines: Seq<Seq<char>>, k: int)
    requires
        1 <= k <= lines.len(),
    ensures
        joined(lines, k) == lines[0] + seq!['\n'] + joined(lines.drop_first(), k - 1),
    decreases k,
{
    reveal_with_fuel(joined, 3);
    if k == 1 {
        assert(joined(lines, 1) == Seq::<char>::empty() + lines[0] + seq!['\n']);
        assert(Seq::<char>::empty() + lines[0] + seq!['\n'] =~= lines[0] + seq!['\n']
            + Seq::<char>::empty());
        assert(joined(lines.drop_first(), 0) == Seq::<char>::empty());
    } else {
        lemma_joined_head(lines, k - 1);
        assert(lines.drop_first()[k - 2] == lines[k - 1]);
        assert((lines[0] + seq!['\n'] + joined(lines.drop_first(), k - 2)) + lines[k - 1]
            + seq!['\n'] =~= lines[0] + seq!['\n'] + (joined(lines.drop_first(), k - 2) + lines[k
            - 1] + seq!['\n']));
    }
}

/// [`unsplit`] is all but the last line each followed by a newline, then
/// the last line bare.
proof fn lemma_unsplit_as_joined(lines: Seq<Seq<char>>)
    requires
        lines.len() >= 1,
    ensures
        unsplit(lines) == joined(lines, lines.len() - 1) + lines.last(),
    decreases lines.len(),
{
    reveal_with_fuel(unsplit, 3);
    reveal_with_fuel(joined, 3);
    if lines.len() == 1 {
        assert(joined(lines, 0) + lines.last() =~= lines[0]);
    } else {
        lemma_unsplit_as_joined(lines.drop_first());
        lemma_joined_head(lines, lines.len() - 1);
        assert(lines.drop_first().last() == lines.last());
        assert(lines[0] + seq!['\n'] + (joined(lines.drop_first(), lines.len() - 2)
            + lines.drop_first().last()) =~= (lines[0] + seq!['\n'] + joined(
            lines.drop_first(),
            lines.len() - 2,
        )) + lines.last());
    }
}

/// Loading and then saving reproduces the content exactly, whenever the
/// content is empty or ends in a newline. `lines` is what loading
/// `contents` yields: non-empty, newline-free lines that joined give the
/// content back, as [`load_rows`] ensures.
pub proof fn lemma_load_save_round_trip(contents: Seq<char>, lines: Seq<Seq<char>>)
    requires
        lines.len() >= 1,
        forall|k: int| 0 <= k < lines.len() ==> line_wf(#[trigger] lines[k]),
        unsplit(lines) == contents,
        contents.len() == 0 || contents.last() == '\n',
    ensures
        save_spec(lines) == contents,
{
    lemma_unsplit_as_joined(lines);
    if lines.last().len() > 0 {
        // The last character of the content would then be the last
        // character of the last line, which is not a newline.
        assert(contents.last() == lines.last().last());
        assert(line_wf(lines.last()));
        assert(false);
    }
    assert(joined(lines, lines.len() - 1) + lines.last() =~= joined(lines, lines.len() - 1));
}

/// Splits `contents` into document rows on `'\n'`: one row per line, plus
/// a final empty row when the content ends in a newline; an empty content
/// gives one empty row.
pub fn load_rows(contents: &Vec<char>) -> (rows: Vec<EditorRow>)
    ensures
        rows@.len() >= 1,
        forall|k: int|
            0 <= k < rows@.len() ==> (#[trigger] rows@[k]).wf() && line_wf(rows@[k]@),
        unsplit(row_views(rows@)) == contents@,
{
    let mut rows: Vec<EditorRow> = Vec::new();
    let mut cur: Vec<char> = Vec::new();
    let mut i: usize = 0;
    while i < contents.len()
        invariant
            i <= contents@.len(),
            forall|k: int|
                0 <= k < rows@.len() ==> (#[trigger] rows@[k]).wf() && line_wf(rows@[k]@),
            line_wf(cur@),
            unsplit(row_views(rows@).push(cur@)) == contents@.take(i as int),
        decreases contents@.len() - i,
    {
        let c = contents[i];
        proof {
            assert(contents@.take(i + 1) =~= contents@.take(i as int).push(contents@[i as int]));
        }
        if c == '\n' {
            let ghost prev_rows = rows@;
            let ghost prev_cur = cur@;
            proof {
                lemma_unsplit_snoc(row_views(prev_rows).push(prev_cur), Seq::empty());
                assert(unsplit(row_views(prev_rows).push(prev_cur)) + seq!['\n']
                    + Seq::<char>::empty() =~= contents@.take(i as int).push('\n'));
            }
            let row = EditorRow::from_chars(cur);
            rows.push(row);
            cur = Vec::new();
            proof {
                assert(row_views(rows@) =~= row_views(prev_rows).push(row@));
                assert(row_views(rows@).push(cur@) =~= row_views(prev_rows).push(prev_cur).push(
                    Seq::empty(),
                ));
            }
        } else {
            proof {
                let base = row_views(rows@);
                lemma_unsplit_snoc(base, cur@);
                lemma_unsplit_snoc(base, cur@.push(c));
                if base.len() == 0 {
                    assert(unsplit(base.push(cur@.push(c))) =~= contents@.take(i as int).push(c));
                } else {
                    assert(unsplit(base) + seq!['\n'] + cur@.push(c) =~= (unsplit(base)
                        + seq!['\n'] + cur@).push(c));
                }
            }
            cur.push(c);
        }
        i = i + 1;
    }
    proof {
        assert(contents@.take(i as int) =~= contents@);
    }
    let ghost prev_rows = rows@;
    let ghost prev_cur = cur@;
    let row = EditorRow::from_chars(cur);
    rows.push(row);
    proof {
        assert(row_views(rows@) =~= row_views(prev_rows).push(row@));
        assert(row_views(rows@) =~= row_views(prev_rows).push(prev_cur));
    }
    rows
}

/// Joins the rows back into file content: every row followed by a
/// newline, with a final empty row omitted.
pub fn save_content(rows: &Vec<EditorRow>) -> (out: Vec<char>)
    requires
        forall|k: int| 0 <= k < rows@.len() ==> (#[trigger] rows@[k]).wf(),
    ensures
        out@ == save_spec(row_views(rows@)),
{
    let n = rows.len();
    let limit = if n > 0 && rows[n - 1].len == 0 {
        n - 1
    } else {
        n
    };
    proof {
        if n > 0 && rows@[n - 1].len == 0 {
            assert(row_views(rows@).last().len() == 0);
        } else if n > 0 {
            assert(row_views(rows@).last().len() != 0);
        }
    }
    let mut out: Vec<char> = Vec::new();
    let mut k: usize = 0;
    while k < limit
        invariant
            k <= limit <= rows@.len(),
            forall|j: int| 0 <= j < rows@.len() ==> (#[trigger] rows@[j]).wf(),
            out@ == joined(row_views(rows@), k as int),
        decreases limit - k,
    {
        let row_len = rows[k].len;
        let mut j: usize = 0;
        while j < row_len
            invariant
                k < rows@.len(),
                forall|jj: int| 0 <= jj < rows@.len() ==> (#[trigger] rows@[jj]).wf(),
                row_len == rows@[k as int]@.len(),
                j <= row_len,
                out@ == joined(row_views(rows@), k as int) + rows@[k as int]@.take(j as int),
            decreases row_len - j,
        {
            out.push(rows[k].chars[j]);
            proof {
                assert(rows@[k as int]@.take(j + 1) =~= rows@[k as int]@.take(j as int).push(
                    rows@[k as int]@[j as int],
                ));
                assert(joined(row_views(rows@), k as int) + rows@[k as int]@.take(j + 1) =~= (
                joined(row_views(rows@), k as int) + rows@[k as int]@.take(j as int)).push(
                    rows@[k as int]@[j as int],
                ));
            }
            j = j + 1;
        }
        out.push('\n');
        proof {
            assert(rows@[k as int]@.take(row_len as int) =~= rows@[k as int]@);
            assert(row_views(rows@)[k as int] == rows@[k as int]@);
            assert((joined(row_views(rows@), k as int) + rows@[k as int]@).push('\n') =~= joined(
                row_views(rows@),
                k as int,
            ) + rows@[k as int]@ + seq!['\n']);
        }
        k = k + 1;
    }
    out
}

} // verus!
