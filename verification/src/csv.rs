//! Reading and writing comma-separated tabular text.
//!
//! The reader is a character-level state machine over the usual CSV shape:
//! fields separated by commas, records ended by a line feed or a carriage
//! return and line feed, fields optionally enclosed in double quotes with
//! embedded quotes doubled, and quoted fields free to contain separators and
//! line breaks.  Lines that are entirely empty carry no record.  Quoting
//! is strict: a stray quote inside an unquoted field, text following a
//! closing quote, an unterminated quoted field, or a carriage return not
//! followed by a line feed is malformed, and malformed text fails the whole
//! run.
//!
//! The writer quotes a field exactly when it contains a separator, a quote
//! or a line break, and ends every record with the chosen line ending.

use vstd::prelude::*;

use crate::error::{Error, ErrorV};

verus! {

/// Where the reader stands between two characters.
#[derive(Debug, Clone, Copy, PartialEq, Eq, Structural)]
pub enum CsvMode {
    /// At the start of a field: nothing of it read yet.
    FieldStart,
    /// Inside an unquoted field.
    Unquoted,
    /// Inside a quoted field, after its opening quote.
    Quoted,
    /// Just after a quote inside a quoted field: either the closing quote,
    /// or the first half of a doubled one.
    QuoteEnd,
    /// Just after a carriage return; the payload says whether the pending
    /// line feed closes a record or merely an empty line.
    SeenCr(bool),
    /// The text is malformed; nothing can mend it.
    Failed,
}

/// The whole reader state: finished rows, the open row, the open field.
pub struct CsvState {
    pub mode: CsvMode,
    pub field: Seq<char>,
    pub row: Seq<Seq<char>>,
    pub rows: Seq<Seq<Seq<char>>>,
}

/// The reader before any character.
pub open spec fn csv_init() -> CsvState {
    CsvState { mode: CsvMode::FieldStart, field: Seq::empty(), row: Seq::empty(), rows: Seq::empty() }
}

/// The state with the open field closed and the open row finished.
pub open spec fn csv_end_record(st: CsvState) -> CsvState {
    CsvState {
        mode: CsvMode::FieldStart,
        field: Seq::empty(),
        row: Seq::empty(),
        rows: st.rows.push(st.row.push(st.field)),
    }
}

/// One character of progress.
pub open spec fn csv_step(st: CsvState, c: char) -> CsvState {
    match st.mode {
        CsvMode::FieldStart => {
            if c == '"' {
                CsvState { mode: CsvMode::Quoted, ..st }
            } else if c == ',' {
                CsvState { mode: CsvMode::FieldStart, field: Seq::empty(), row: st.row.push(st.field), ..st }
            } else if c == '\n' {
                if st.row.len() == 0 {
                    st
                } else {
                    csv_end_record(st)
                }
            } else if c == '\r' {
                CsvState { mode: CsvMode::SeenCr(st.row.len() > 0), ..st }
            } else {
                CsvState { mode: CsvMode::Unquoted, field: st.field.push(c), ..st }
            }
        },
        CsvMode::Unquoted => {
            if c == ',' {
                CsvState { mode: CsvMode::FieldStart, field: Seq::empty(), row: st.row.push(st.field), ..st }
            } else if c == '\n' {
                csv_end_record(st)
            } else if c == '\r' {
                CsvState { mode: CsvMode::SeenCr(true), ..st }
            } else if c == '"' {
                CsvState { mode: CsvMode::Failed, ..st }
            } else {
                CsvState { field: st.field.push(c), ..st }
            }
        },
        CsvMode::Quoted => {
            if c == '"' {
                CsvState { mode: CsvMode::QuoteEnd, ..st }
            } else {
                CsvState { field: st.field.push(c), ..st }
            }
        },
        CsvMode::QuoteEnd => {
            if c == '"' {
                CsvState { mode: CsvMode::Quoted, field: st.field.push('"'), ..st }
            } else if c == ',' {
                CsvState { mode: CsvMode::FieldStart, field: Seq::empty(), row: st.row.push(st.field), ..st }
            } else if c == '\n' {
                csv_end_record(st)
            } else if c == '\r' {
                CsvState { mode: CsvMode::SeenCr(true), ..st }
            } else {
                CsvState { mode: CsvMode::Failed, ..st }
            }
        },
        CsvMode::SeenCr(produce) => {
            if c == '\n' {
                if produce {
                    csv_end_record(st)
                } else {
                    CsvState { mode: CsvMode::FieldStart, ..st }
                }
            } else {
                CsvState { mode: CsvMode::Failed, ..st }
            }
        },
        CsvMode::Failed => st,
    }
}

/// The reader state after the whole text.
pub open spec fn csv_fold(s: Seq<char>) -> CsvState
    decreases s.len(),
{
    if s.len() == 0 {
        csv_init()
    } else {
        csv_step(csv_fold(s.drop_last()), s.last())
    }
}

/// Close the reader at the end of the text.  A final record needs no
/// trailing line ending; an open quoted field or a dangling carriage
/// return is malformed.
pub open spec fn csv_finish(st: CsvState) -> Option<Seq<Seq<Seq<char>>>> {
    match st.mode {
        CsvMode::FieldStart => {
            if st.row.len() == 0 {
                Some(st.rows)
            } else {
                Some(st.rows.push(st.row.push(st.field)))
            }
        },
        CsvMode::Unquoted => Some(st.rows.push(st.row.push(st.field))),
        CsvMode::QuoteEnd => Some(st.rows.push(st.row.push(st.field))),
        CsvMode::Quoted => None,
        CsvMode::SeenCr(_) => None,
        CsvMode::Failed => None,
    }
}

/// What reading yields: the rows of the text, each a sequence of fields —
/// or nothing, for malformed text.
pub open spec fn csv_parse(s: Seq<char>) -> Option<Seq<Seq<Seq<char>>>> {
    csv_finish(csv_fold(s))
}

/// Unfolding the reader one character at a time.
proof fn lemma_fold_step(s: Seq<char>, i: int)
    requires
        0 <= i < s.len(),
    ensures
        csv_fold(s.take(i + 1)) == csv_step(csv_fold(s.take(i)), s[i]),
{
    assert(s.take(i + 1).drop_last() =~= s.take(i));
    assert(s.take(i + 1).last() == s[i]);
}

/// Malformed text stays malformed however much more is read.
proof fn lemma_failed_persists(s: Seq<char>, i: int)
    requires
        0 <= i <= s.len(),
        csv_fold(s.take(i)).mode == CsvMode::Failed,
    ensures
        csv_fold(s).mode == CsvMode::Failed,
    decreases s.len() - i,
{
    if i < s.len() {
        lemma_fold_step(s, i);
        lemma_failed_persists(s, i + 1);
    } else {
        assert(s.take(i) =~= s);
    }
}

/// Read tabular text into its rows.  Exactly the texts the CSV grammar
/// accepts yield rows; malformed text is a syntax error.
pub fn parse_csv(s: &Vec<char>) -> (r: Result<Vec<Vec<Vec<char>>>, Error>)
    ensures
        match r {
            Ok(rows) => csv_parse(s@) == Some(rows.deep_view()),
            Err(e) => csv_parse(s@) is None && e@ == ErrorV::CsvSyntax,
        },
{
    let mut mode = CsvMode::FieldStart;
    let mut field: Vec<char> = Vec::new();
    let mut row: Vec<Vec<char>> = Vec::new();
    let mut rows: Vec<Vec<Vec<char>>> = Vec::new();
    let mut i: usize = 0;
    proof {
        assert(s@.take(0).len() == 0);
        assert(row.deep_view() =~~= csv_init().row);
        assert(rows.deep_view() =~~= csv_init().rows);
    }
    while i < s.len()
        invariant
            i <= s@.len(),
            mode != CsvMode::Failed,
            csv_fold(s@.take(i as int)).mode == mode,
            csv_fold(s@.take(i as int)).field == field@,
            csv_fold(s@.take(i as int)).row == row.deep_view(),
            csv_fold(s@.take(i as int)).rows == rows.deep_view(),
        decreases s@.len() - i,
    {
        let ghost prev = csv_fold(s@.take(i as int));
        let c = s[i];
        proof {
            lemma_fold_step(s@, i as int);
        }
        match mode {
            CsvMode::FieldStart => {
                if c == '"' {
                    mode = CsvMode::Quoted;
                } else if c == ',' {
                    row.push(field);
                    field = Vec::new();
                    proof {
                        assert(row.deep_view() =~~= prev.row.push(prev.field));
                    }
                } else if c == '\n' {
                    if row.len() == 0 {
                    } else {
                        row.push(field);
                        field = Vec::new();
                        rows.push(row);
                        row = Vec::new();
                        proof {
                            assert(rows.deep_view() =~~= prev.rows.push(prev.row.push(prev.field)));
                        }
                    }
                } else if c == '\r' {
                    mode = CsvMode::SeenCr(row.len() > 0);
                } else {
                    mode = CsvMode::Unquoted;
                    field.push(c);
                }
            },
            CsvMode::Unquoted => {
                if c == ',' {
                    mode = CsvMode::FieldStart;
                    row.push(field);
                    field = Vec::new();
                    proof {
                        assert(row.deep_view() =~~= prev.row.push(prev.field));
                    }
                } else if c == '\n' {
                    mode = CsvMode::FieldStart;
                    row.push(field);
                    field = Vec::new();
                    rows.push(row);
                    row = Vec::new();
                    proof {
                        assert(rows.deep_view() =~~= prev.rows.push(prev.row.push(prev.field)));
                    }
                } else if c == '\r' {
                    mode = CsvMode::SeenCr(true);
                } else if c == '"' {
                    proof {
                        lemma_failed_persists(s@, i + 1);
                    }
                    return Err(Error::CsvSyntax);
                } else {
                    field.push(c);
                }
            },
            CsvMode::Quoted => {
                if c == '"' {
                    mode = CsvMode::QuoteEnd;
                } else {
                    field.push(c);
                }
            },
            CsvMode::QuoteEnd => {
                if c == '"' {
                    mode = CsvMode::Quoted;
                    field.push('"');
                } else if c == ',' {
                    mode = CsvMode::FieldStart;
                    row.push(field);
                    field = Vec::new();
                    proof {
                        assert(row.deep_view() =~~= prev.row.push(prev.field));
                    }
                } else if c == '\n' {
                    mode = CsvMode::FieldStart;
                    row.push(field);
                    field = Vec::new();
                    rows.push(row);
                    row = Vec::new();
                    proof {
                        assert(rows.deep_view() =~~= prev.rows.push(prev.row.push(prev.field)));
                    }
                } else if c == '\r' {
                    mode = CsvMode::SeenCr(true);
                } else {
                    proof {
                        lemma_failed_persists(s@, i + 1);
                    }
                    return Err(Error::CsvSyntax);
                }
            },
            CsvMode::SeenCr(produce) => {
                if c == '\n' {
                    if produce {
                        mode = CsvMode::FieldStart;
                        row.push(field);
                        field = Vec::new();
                        rows.push(row);
                        row = Vec::new();
                        proof {
                            assert(rows.deep_view() =~~= prev.rows.push(prev.row.push(prev.field)));
                        }
                    } else {
                        mode = CsvMode::FieldStart;
                    }
                } else {
                    proof {
                        lemma_failed_persists(s@, i + 1);
                    }
                    return Err(Error::CsvSyntax);
                }
            },
            CsvMode::Failed => {
                proof {
                    assert(false);
                }
            },
        }
        proof {
            let next = csv_step(prev, s@[i as int]);
            assert(next.mode == mode);
            assert(next.field =~= field@);
            assert(next.row =~~= row.deep_view());
            assert(next.rows =~~= rows.deep_view());
        }
        i += 1;
    }
    assert(s@.take(s@.len() as int) =~= s@);
    match mode {
        CsvMode::FieldStart => {
            if row.len() == 0 {
                Ok(rows)
            } else {
                row.push(field);
                rows.push(row);
                proof {
                    assert(rows.deep_view() =~~= csv_fold(s@).rows.push(
                        csv_fold(s@).row.push(csv_fold(s@).field),
                    ));
                }
                Ok(rows)
            }
        },
        CsvMode::Unquoted | CsvMode::QuoteEnd => {
            row.push(field);
            rows.push(row);
            proof {
                assert(rows.deep_view() =~~= csv_fold(s@).rows.push(
                    csv_fold(s@).row.push(csv_fold(s@).field),
                ));
            }
            Ok(rows)
        },
        CsvMode::Quoted | CsvMode::SeenCr(_) => Err(Error::CsvSyntax),
        CsvMode::Failed => Err(Error::CsvSyntax),
    }
}

/// Whether a written field must be quoted: it holds a separator, a quote or
/// a line break.
pub open spec fn field_needs_quote(f: Seq<char>) -> bool {
    exists|i: int|
        0 <= i < f.len() && (f[i] == ',' || f[i] == '"' || f[i] == '\n' || f[i] == '\r')
}

/// A field's characters with every quote doubled.
pub open spec fn escape_quotes(f: Seq<char>) -> Seq<char>
    decreases f.len(),
{
    if f.len() == 0 {
        Seq::empty()
    } else {
        escape_quotes(f.drop_last()) + (if f.last() == '"' {
            seq!['"', '"']
        } else {
            seq![f.last()]
        })
    }
}

/// A field as written: quoted and escaped when it needs it, bare otherwise.
pub open spec fn rendered_field(f: Seq<char>) -> Seq<char> {
    if field_needs_quote(f) {
        seq!['"'] + escape_quotes(f) + seq!['"']
    } else {
        f
    }
}

/// A row's fields as written, separated by commas, without the line ending.
pub open spec fn rendered_fields(r: Seq<Seq<char>>) -> Seq<char>
    decreases r.len(),
{
    if r.len() == 0 {
        Seq::empty()
    } else if r.len() == 1 {
        rendered_field(r[0])
    } else {
        rendered_fields(r.drop_last()) + seq![','] + rendered_field(r.last())
    }
}

/// The line ending written after each record.
#[derive(Debug, Clone, Copy, PartialEq, Eq, Structural)]
pub enum LineEnding {
    Lf,
    CrLf,
}

/// The characters of a line ending.
pub open spec fn ending_chars(e: LineEnding) -> Seq<char> {
    match e {
        LineEnding::Lf => seq!['\n'],
        LineEnding::CrLf => seq!['\r', '\n'],
    }
}

/// Rows as written: each row's fields, then the line ending.
pub open spec fn rendered_rows(rows: Seq<Seq<Seq<char>>>, e: LineEnding) -> Seq<char>
    decreases rows.len(),
{
    if rows.len() == 0 {
        Seq::empty()
    } else {
        rendered_rows(rows.drop_last(), e) + rendered_fields(rows.last()) + ending_chars(e)
    }
}

/// Whether this field must be quoted when written.
fn needs_quote_exec(f: &Vec<char>) -> (r: bool)
    ensures
        r == field_needs_quote(f@),
{
    let mut i: usize = 0;
    while i < f.len()
        invariant
            i <= f@.len(),
            forall|j: int|
                0 <= j < i ==> !(f@[j] == ',' || f@[j] == '"' || f@[j] == '\n' || f@[j] == '\r'),
        decreases f@.len() - i,
    {
        let c = f[i];
        if c == ',' || c == '"' || c == '\n' || c == '\r' {
            return true;
        }
        i += 1;
    }
    false
}

/// Append one field, quoted if it needs it.
fn write_field(out: &mut Vec<char>, f: &Vec<char>)
    ensures
        final(out)@ == old(out)@ + rendered_field(f@),
{
    if !needs_quote_exec(f) {
        let mut i: usize = 0;
        while i < f.len()
            invariant
                i <= f@.len(),
                out@ == old(out)@ + f@.take(i as int),
            decreases f@.len() - i,
        {
            out.push(f[i]);
            assert(out@ =~= old(out)@ + f@.take(i + 1 as int));
            i += 1;
        }
        assert(out@ =~= old(out)@ + f@);
    } else {
        out.push('"');
        let ghost base = out@;
        let mut i: usize = 0;
        while i < f.len()
            invariant
                i <= f@.len(),
                out@ == base + escape_quotes(f@.take(i as int)),
            decreases f@.len() - i,
        {
            let c = f[i];
            proof {
                assert(f@.take(i + 1 as int).drop_last() =~= f@.take(i as int));
            }
            if c == '"' {
                out.push('"');
                out.push('"');
                assert(out@ =~= base + escape_quotes(f@.take(i + 1 as int)));
            } else {
                out.push(c);
                assert(out@ =~= base + escape_quotes(f@.take(i + 1 as int)));
            }
            i += 1;
        }
        out.push('"');
        assert(f@.take(f@.len() as int) =~= f@);
        assert(out@ =~= old(out)@ + rendered_field(f@));
    }
}

/// Append one row and its line ending.
fn write_row(out: &mut Vec<char>, r: &Vec<Vec<char>>, e: LineEnding)
    ensures
        final(out)@ == old(out)@ + rendered_fields(r.deep_view()) + ending_chars(e),
{
    let mut i: usize = 0;
    while i < r.len()
        invariant
            i <= r@.len(),
            out@ == old(out)@ + rendered_fields(r.deep_view().take(i as int)),
        decreases r@.len() - i,
    {
        if i > 0 {
            out.push(',');
        }
        write_field(out, &r[i]);
        proof {
            let rv = r.deep_view();
            assert(rv.take(i + 1 as int).drop_last() =~= rv.take(i as int));
            assert(rv.take(i + 1 as int).last() == rv[i as int]);
            assert(rv[i as int] == r@[i as int].deep_view());
            assert(r@[i as int].deep_view() =~= r@[i as int]@);
            if i == 0 {
                assert(rendered_fields(rv.take(1)) == rendered_field(rv.take(1)[0]));
                assert(out@ =~= old(out)@ + rendered_fields(rv.take(i + 1 as int)));
            } else {
                assert(out@ =~= old(out)@ + rendered_fields(rv.take(i + 1 as int)));
            }
        }
        i += 1;
    }
    assert(r.deep_view().take(r@.len() as int) =~= r.deep_view());
    match e {
        LineEnding::Lf => {
            out.push('\n');
        },
        LineEnding::CrLf => {
            out.push('\r');
            out.push('\n');
        },
    }
    assert(out@ =~= old(out)@ + rendered_fields(r.deep_view()) + ending_chars(e));
}

/// Write rows as tabular text, each record closed by the line ending.
pub fn write_csv(rows: &Vec<Vec<Vec<char>>>, e: LineEnding) -> (out: Vec<char>)
    ensures
        out@ == rendered_rows(rows.deep_view(), e),
{
    let mut out: Vec<char> = Vec::new();
    let mut i: usize = 0;
    while i < rows.len()
        invariant
            i <= rows@.len(),
            out@ == rendered_rows(rows.deep_view().take(i as int), e),
        decreases rows@.len() - i,
    {
        write_row(&mut out, &rows[i], e);
        proof {
            let rv = rows.deep_view();
            assert(rv.take(i + 1 as int).drop_last() =~= rv.take(i as int));
            assert(rv.take(i + 1 as int).last() == rv[i as int]);
            assert(rv[i as int] =~~= rows@[i as int].deep_view());
        }
        i += 1;
    }
    assert(rows.deep_view().take(rows@.len() as int) =~= rows.deep_view());
    out
}

} // verus!
