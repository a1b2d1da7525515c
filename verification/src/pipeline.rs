//! The conversion pipeline: one sequential pass over the input's rows, in
//! order.  Each data row is read by the chosen input schema, filtered by
//! the date window and the schema's acceptance predicate, mapped to the
//! chosen output schema, and written out after the output's header row.
//! Any malformed row fails the whole run; filtered rows are skipped
//! silently.

use vstd::prelude::*;

use crate::csv::{csv_parse, parse_csv, rendered_rows, write_csv, LineEnding};
use crate::error::{Error, ErrorV};
use crate::formats::{coin_of, Coin, InputFormat, OutputFormat};
use crate::numeric::{bool_of, is_float_str, u64_parse};
use crate::output::{
    bt_row_of, ct_row_of, header_of, header_row, BitcoinTax, CoinTracking, OutputRecord,
};
use crate::records::{
    col_index, kraken_cols_match, kraken_missing_col, staketax_cols_match, staketax_missing_col,
    subscan_cols_match, subscan_missing_col, InputRecord, Kraken, KrakenCols, StakeTax,
    StakeTaxCols, Subscan, SubscanCols,
};
use crate::text::{chars_of, eq_lit};
use crate::timestamp::{parse_timestamp, ts_le, ts_parse, Timestamp};

verus! {

/// The line ending of a run: aggregator-style runs close records with
/// carriage return and line feed, the others with a bare line feed.
pub open spec fn ending_of(f: InputFormat) -> LineEnding {
    match f {
        InputFormat::StakeTax => LineEnding::CrLf,
        _ => LineEnding::Lf,
    }
}

/// The line ending of a run.
pub fn ending_for(f: InputFormat) -> (r: LineEnding)
    ensures
        r == ending_of(f),
{
    match f {
        InputFormat::StakeTax => LineEnding::CrLf,
        _ => LineEnding::Lf,
    }
}

/// The field of a row under a named header column.
pub open spec fn field(h: Seq<Seq<char>>, row: Seq<Seq<char>>, name: Seq<char>) -> Seq<char> {
    row[col_index(h, name)]
}

/// The first input-schema column the header lacks, if any.
pub open spec fn missing_col_of(f: InputFormat, h: Seq<Seq<char>>) -> Option<Seq<char>> {
    match f {
        InputFormat::Subscan => subscan_missing_col(h),
        InputFormat::Kraken => kraken_missing_col(h),
        InputFormat::StakeTax => staketax_missing_col(h),
    }
}

/// The first invalid typed field of a data row, if any, in the schema's
/// field order.
pub open spec fn row_error(f: InputFormat, h: Seq<Seq<char>>, row: Seq<Seq<char>>) -> Option<
    ErrorV,
> {
    match f {
        InputFormat::Subscan => {
            if u64_parse(field(h, row, "Block"@)) is None {
                Some(ErrorV::BadNumber(field(h, row, "Block"@)))
            } else if !is_float_str(field(h, row, "Value"@)) {
                Some(ErrorV::BadNumber(field(h, row, "Value"@)))
            } else {
                None
            }
        },
        InputFormat::Kraken => {
            if !is_float_str(field(h, row, "amount"@)) {
                Some(ErrorV::BadNumber(field(h, row, "amount"@)))
            } else if !is_float_str(field(h, row, "fee"@)) {
                Some(ErrorV::BadNumber(field(h, row, "fee"@)))
            } else {
                None
            }
        },
        InputFormat::StakeTax => {
            if bool_of(field(h, row, "taxable"@)) is None {
                Some(ErrorV::BadBool(field(h, row, "taxable"@)))
            } else if field(h, row, "received_amount"@).len() != 0 && !is_float_str(
                field(h, row, "received_amount"@),
            ) {
                Some(ErrorV::BadNumber(field(h, row, "received_amount"@)))
            } else if field(h, row, "sent_amount"@).len() != 0 && !is_float_str(
                field(h, row, "sent_amount"@),
            ) {
                Some(ErrorV::BadNumber(field(h, row, "sent_amount"@)))
            } else if field(h, row, "fee"@).len() != 0 && !is_float_str(field(h, row, "fee"@)) {
                Some(ErrorV::BadNumber(field(h, row, "fee"@)))
            } else {
                None
            }
        },
    }
}

/// The event timestamp text of a data row.
pub open spec fn row_date_text(f: InputFormat, h: Seq<Seq<char>>, row: Seq<Seq<char>>) -> Seq<
    char,
> {
    match f {
        InputFormat::Subscan => field(h, row, "Date"@),
        InputFormat::Kraken => field(h, row, "time"@),
        InputFormat::StakeTax => field(h, row, "timestamp"@),
    }
}

/// The amount text of a data row; an aggregator-style row without a
/// received amount counts zero.
pub open spec fn row_amount_text(f: InputFormat, h: Seq<Seq<char>>, row: Seq<Seq<char>>) -> Seq<
    char,
> {
    match f {
        InputFormat::Subscan => field(h, row, "Value"@),
        InputFormat::Kraken => field(h, row, "amount"@),
        InputFormat::StakeTax => {
            if field(h, row, "received_amount"@).len() == 0 {
                "0.0"@
            } else {
                field(h, row, "received_amount"@)
            }
        },
    }
}

/// The schema's acceptance predicate: explorer-style rows pass
/// unconditionally, exchange-style rows only with the type label exactly
/// "staking", aggregator-style rows only with the transaction type exactly
/// "STAKING" — both case-sensitive.
pub open spec fn row_label_ok(f: InputFormat, h: Seq<Seq<char>>, row: Seq<Seq<char>>) -> bool {
    match f {
        InputFormat::Subscan => true,
        InputFormat::Kraken => field(h, row, "type"@) == "staking"@,
        InputFormat::StakeTax => field(h, row, "tx_type"@) == "STAKING"@,
    }
}

/// Whether a timestamp lies in the inclusive window.
pub open spec fn in_window(start: Timestamp, end: Timestamp, t: Timestamp) -> bool {
    ts_le(start, t) && ts_le(t, end)
}

/// The asset of an accepted row: exchange-style rows carry their own,
/// parsed against the alias table; every other schema uses the run's coin.
pub open spec fn row_coin(f: InputFormat, coin: Coin, h: Seq<Seq<char>>, row: Seq<Seq<char>>) -> Result<
    Coin,
    ErrorV,
> {
    match f {
        InputFormat::Kraken => match coin_of(field(h, row, "asset"@)) {
            Some(c) => Ok(c),
            None => Err(ErrorV::InvalidCoin(field(h, row, "asset"@))),
        },
        _ => Ok(coin),
    }
}

/// What one data row contributes: an output row, nothing (filtered), or
/// the error that fails the run.  A row of the wrong width or with an
/// invalid typed field or timestamp fails; a row outside the window or
/// failing the acceptance predicate is skipped; an accepted exchange-style
/// row with an unknown asset fails; an accepted row of a schema the chosen
/// output schema does not support fails.
pub open spec fn process_row(
    f: InputFormat,
    o: OutputFormat,
    coin: Coin,
    start: Timestamp,
    end: Timestamp,
    h: Seq<Seq<char>>,
    row: Seq<Seq<char>>,
) -> Result<Option<Seq<Seq<char>>>, ErrorV> {
    if row.len() != h.len() {
        Err(ErrorV::RowLength)
    } else if row_error(f, h, row) is Some {
        Err(row_error(f, h, row)->Some_0)
    } else {
        match ts_parse(row_date_text(f, h, row)) {
            None => Err(ErrorV::BadTimestamp(row_date_text(f, h, row))),
            Some(date) => {
                if !(in_window(start, end, date) && row_label_ok(f, h, row)) {
                    Ok(None)
                } else {
                    match row_coin(f, coin, h, row) {
                        Err(e) => Err(e),
                        Ok(c) => match o {
                            OutputFormat::BitcoinTax => Ok(
                                Some(bt_row_of(date, row_amount_text(f, h, row), c)),
                            ),
                            OutputFormat::CoinTracking => {
                                if f is Subscan {
                                    Ok(Some(ct_row_of(row_amount_text(f, h, row), c, date)))
                                } else {
                                    Err(ErrorV::UnsupportedCombination)
                                }
                            },
                        },
                    }
                }
            },
        }
    }
}

/// What the data rows contribute, in order, stopping at the first error.
pub open spec fn process_rows(
    f: InputFormat,
    o: OutputFormat,
    coin: Coin,
    start: Timestamp,
    end: Timestamp,
    h: Seq<Seq<char>>,
    rows: Seq<Seq<Seq<char>>>,
) -> Result<Seq<Seq<Seq<char>>>, ErrorV>
    decreases rows.len(),
{
    if rows.len() == 0 {
        Ok(Seq::empty())
    } else {
        match process_row(f, o, coin, start, end, h, rows[0]) {
            Err(e) => Err(e),
            Ok(opt) => match process_rows(f, o, coin, start, end, h, rows.drop_first()) {
                Err(e) => Err(e),
                Ok(rest) => Ok(
                    match opt {
                        Some(r) => seq![r] + rest,
                        None => rest,
                    },
                ),
            },
        }
    }
}

/// What a whole run yields: the output header row and the accepted rows'
/// renderings, as tabular text with the run's line ending — or the first
/// error.  An input without data rows yields the header alone; its header
/// row, if any, is not checked for columns then.
pub open spec fn convert_spec(
    input: Seq<char>,
    f: InputFormat,
    o: OutputFormat,
    coin: Coin,
    start: Timestamp,
    end: Timestamp,
) -> Result<Seq<char>, ErrorV> {
    match csv_parse(input) {
        None => Err(ErrorV::CsvSyntax),
        Some(rows) => {
            if rows.len() <= 1 {
                Ok(rendered_rows(seq![header_of(o)], ending_of(f)))
            } else {
                let h = rows[0];
                match missing_col_of(f, h) {
                    Some(name) => Err(ErrorV::MissingColumn(name)),
                    None => match process_rows(f, o, coin, start, end, h, rows.drop_first()) {
                        Err(e) => Err(e),
                        Ok(body) => Ok(
                            rendered_rows(seq![header_of(o)] + body, ending_of(f)),
                        ),
                    },
                }
            }
        },
    }
}

/// The bound columns of whichever input schema the run reads.
#[derive(Debug, Clone, Copy)]
enum Cols {
    S(SubscanCols),
    K(KrakenCols),
    T(StakeTaxCols),
}

/// Whether the bound columns belong to the run's schema and header.
spec fn cols_match_any(f: InputFormat, c: Cols, h: Seq<Seq<char>>) -> bool {
    match (f, c) {
        (InputFormat::Subscan, Cols::S(x)) => subscan_cols_match(x, h),
        (InputFormat::Kraken, Cols::K(x)) => kraken_cols_match(x, h),
        (InputFormat::StakeTax, Cols::T(x)) => staketax_cols_match(x, h),
        _ => false,
    }
}

/// Bind the run's schema columns in the header.
fn resolve_cols(f: InputFormat, header: &Vec<Vec<char>>) -> (r: Result<Cols, Error>)
    ensures
        match r {
            Ok(c) => missing_col_of(f, header.deep_view()) is None && cols_match_any(
                f,
                c,
                header.deep_view(),
            ),
            Err(e) => {
                &&& missing_col_of(f, header.deep_view()) is Some
                &&& e@ == ErrorV::MissingColumn(missing_col_of(f, header.deep_view())->Some_0)
            },
        },
{
    match f {
        InputFormat::Subscan => match SubscanCols::resolve(header) {
            Ok(c) => Ok(Cols::S(c)),
            Err(e) => Err(e),
        },
        InputFormat::Kraken => match KrakenCols::resolve(header) {
            Ok(c) => Ok(Cols::K(c)),
            Err(e) => Err(e),
        },
        InputFormat::StakeTax => match StakeTaxCols::resolve(header) {
            Ok(c) => Ok(Cols::T(c)),
            Err(e) => Err(e),
        },
    }
}

/// Read, filter and map one data row, as the run's schema says.
fn process_row_exec(
    f: InputFormat,
    cols: &Cols,
    o: OutputFormat,
    coin: Coin,
    start: &Timestamp,
    end: &Timestamp,
    row: &Vec<Vec<char>>,
    Ghost(h): Ghost<Seq<Seq<char>>>,
) -> (r: Result<Option<Vec<Vec<char>>>, Error>)
    requires
        cols_match_any(f, *cols, h),
        row@.len() == h.len(),
    ensures
        match r {
            Ok(opt) => process_row(f, o, coin, *start, *end, h, row.deep_view()) == Ok::<
                _,
                ErrorV,
            >(
                match opt {
                    Some(v) => Some(v.deep_view()),
                    None => None,
                },
            ),
            Err(e) => process_row(f, o, coin, *start, *end, h, row.deep_view()) == Err::<
                Option<Seq<Seq<char>>>,
                _,
            >(e@),
        },
{
    let ghost rv = row.deep_view();
    proof {
        assert(rv.len() == row@.len());
    }
    match (f, cols) {
        (InputFormat::Subscan, Cols::S(c)) => {
            let rec = match Subscan::from_row(*c, row) {
                Ok(rec) => rec,
                Err(e) => { return Err(e); },
            };
            let date = match parse_timestamp(rec.get_date()) {
                Some(d) => d,
                None => { return Err(Error::BadTimestamp(rec.date.clone())); },
            };
            if crate::timestamp::ts_le_exec(start, &date) && crate::timestamp::ts_le_exec(
                &date,
                end,
            ) {
                let amount = rec.get_amount();
                match o {
                    OutputFormat::BitcoinTax => {
                        let out = OutputRecord::BT(BitcoinTax::create(date, amount, coin));
                        let v = out.to_row();
                        proof {
                            assert(v.deep_view() =~~= bt_row_of(
                                date,
                                row_amount_text(f, h, rv),
                                coin,
                            ));
                        }
                        Ok(Some(v))
                    },
                    OutputFormat::CoinTracking => {
                        let out = OutputRecord::CT(
                            CoinTracking::create(
                                amount,
                                coin.label(),
                                chars_of("Polkadot Staking"),
                                chars_of("Self-Staking"),
                                date,
                            ),
                        );
                        let v = out.to_row();
                        proof {
                            assert(v.deep_view() =~~= ct_row_of(
                                row_amount_text(f, h, rv),
                                coin,
                                date,
                            ));
                        }
                        Ok(Some(v))
                    },
                }
            } else {
                Ok(None)
            }
        },
        (InputFormat::Kraken, Cols::K(c)) => {
            let rec = match Kraken::from_row(*c, row) {
                Ok(rec) => rec,
                Err(e) => { return Err(e); },
            };
            let date = match parse_timestamp(rec.get_date()) {
                Some(d) => d,
                None => { return Err(Error::BadTimestamp(rec.date.clone())); },
            };
            if crate::timestamp::ts_le_exec(start, &date) && crate::timestamp::ts_le_exec(
                &date,
                end,
            ) && eq_lit(&rec.action, "staking") {
                let row_asset = match Coin::from_str(&rec.asset) {
                    Ok(rc) => rc,
                    Err(e) => { return Err(e); },
                };
                match o {
                    OutputFormat::BitcoinTax => {
                        let amount = rec.get_amount();
                        let out = OutputRecord::BT(BitcoinTax::create(date, amount, row_asset));
                        let v = out.to_row();
                        proof {
                            assert(v.deep_view() =~~= bt_row_of(
                                date,
                                row_amount_text(f, h, rv),
                                row_asset,
                            ));
                        }
                        Ok(Some(v))
                    },
                    OutputFormat::CoinTracking => Err(Error::UnsupportedCombination),
                }
            } else {
                Ok(None)
            }
        },
        (InputFormat::StakeTax, Cols::T(c)) => {
            let rec = match StakeTax::from_row(*c, row) {
                Ok(rec) => rec,
                Err(e) => { return Err(e); },
            };
            let date = match parse_timestamp(rec.get_date()) {
                Some(d) => d,
                None => { return Err(Error::BadTimestamp(rec.timestamp.clone())); },
            };
            if crate::timestamp::ts_le_exec(start, &date) && crate::timestamp::ts_le_exec(
                &date,
                end,
            ) && eq_lit(&rec.tx_type, "STAKING") {
                match o {
                    OutputFormat::BitcoinTax => {
                        let amount = rec.get_amount();
                        let out = OutputRecord::BT(BitcoinTax::create(date, amount, coin));
                        let v = out.to_row();
                        proof {
                            assert(v.deep_view() =~~= bt_row_of(
                                date,
                                row_amount_text(f, h, rv),
                                coin,
                            ));
                        }
                        Ok(Some(v))
                    },
                    OutputFormat::CoinTracking => Err(Error::UnsupportedCombination),
                }
            } else {
                Ok(None)
            }
        },
        _ => {
            proof {
                assert(false);
            }
            Err(Error::CsvSyntax)
        },
    }
}

/// Run the whole conversion: read the input's rows, pass each data row
/// through the chosen schemas and the date window, and render the output —
/// the header row, then the accepted rows, in input order.
#[verifier::rlimit(60)]
pub fn convert(
    input: &Vec<char>,
    f: InputFormat,
    o: OutputFormat,
    coin: Coin,
    start: Timestamp,
    end: Timestamp,
) -> (r: Result<Vec<char>, Error>)
    ensures
        match r {
            Ok(out) => convert_spec(input@, f, o, coin, start, end) == Ok::<_, ErrorV>(out@),
            Err(e) => convert_spec(input@, f, o, coin, start, end) == Err::<Seq<char>, _>(e@),
        },
{
    let rows = match parse_csv(input) {
        Ok(rows) => rows,
        Err(e) => { return Err(e); },
    };
    let ghost rowsv = rows.deep_view();
    let ending = ending_for(f);
    let mut out_rows: Vec<Vec<Vec<char>>> = Vec::new();
    out_rows.push(header_row(o));
    if rows.len() <= 1 {
        let out = write_csv(&out_rows, ending);
        proof {
            assert(out_rows.deep_view() =~~= seq![header_of(o)]);
        }
        return Ok(out);
    }
    let cols = match resolve_cols(f, &rows[0]) {
        Ok(c) => c,
        Err(e) => {
            proof {
                assert(rowsv[0] =~~= rows@[0].deep_view());
            }
            return Err(e);
        },
    };
    let ghost h = rowsv[0];
    proof {
        assert(h =~~= rows@[0].deep_view());
    }
    let ghost data = rowsv.drop_first();
    let hlen = rows[0].len();
    let mut i: usize = 1;
    proof {
        assert(data.skip(0) =~= data);
        assert(out_rows.deep_view() =~~= seq![header_of(o)]);
        assert(out_rows.deep_view().skip(1) =~= Seq::<Seq<Seq<char>>>::empty());
    }
    while i < rows.len()
        invariant
            1 <= i <= rows@.len(),
            rows@.len() >= 2,
            csv_parse(input@) == Some(rowsv),
            missing_col_of(f, h) is None,
            ending == ending_of(f),
            rowsv == rows.deep_view(),
            h == rowsv[0],
            hlen == h.len(),
            data == rowsv.drop_first(),
            cols_match_any(f, cols, h),
            out_rows.deep_view().len() >= 1,
            out_rows.deep_view()[0] == header_of(o),
            ({
                let tail = process_rows(f, o, coin, start, end, h, data.skip(i - 1));
                let whole = process_rows(f, o, coin, start, end, h, data);
                whole == (match tail {
                    Err(e) => Err::<Seq<Seq<Seq<char>>>, ErrorV>(e),
                    Ok(rest) => Ok::<Seq<Seq<Seq<char>>>, ErrorV>(
                        out_rows.deep_view().skip(1) + rest,
                    ),
                })
            }),
        decreases rows@.len() - i,
    {
        let ghost tail_rows = data.skip(i - 1);
        proof {
            assert(tail_rows.len() > 0);
            assert(tail_rows[0] =~~= rowsv[i as int]);
            assert(tail_rows.drop_first() =~= data.skip(i as int));
            assert(rowsv[i as int] =~~= rows@[i as int].deep_view());
        }
        if rows[i].len() != hlen {
            proof {
                assert(rowsv[i as int].len() == rows@[i as int].len());
                assert(process_row(f, o, coin, start, end, h, tail_rows[0]) == Err::<
                    Option<Seq<Seq<char>>>,
                    _,
                >(ErrorV::RowLength));
                assert(process_rows(f, o, coin, start, end, h, tail_rows) == Err::<
                    Seq<Seq<Seq<char>>>,
                    _,
                >(ErrorV::RowLength));
            }
            return Err(Error::RowLength);
        }
        assert(rows@[i as int].deep_view().len() == rows@[i as int].len());
        match process_row_exec(f, &cols, o, coin, &start, &end, &rows[i], Ghost(h)) {
            Err(e) => {
                proof {
                    assert(process_rows(f, o, coin, start, end, h, tail_rows) == Err::<
                        Seq<Seq<Seq<char>>>,
                        _,
                    >(e@));
                }
                return Err(e);
            },
            Ok(None) => {
                proof {
                    assert(process_rows(f, o, coin, start, end, h, tail_rows) == process_rows(
                        f,
                        o,
                        coin,
                        start,
                        end,
                        h,
                        data.skip(i as int),
                    ));
                }
            },
            Ok(Some(v)) => {
                let ghost before = out_rows.deep_view();
                out_rows.push(v);
                proof {
                    assert(out_rows.deep_view() =~~= before.push(v.deep_view()));
                    assert(out_rows.deep_view().skip(1) =~= before.skip(1).push(v.deep_view()));
                    let rest_r = process_rows(f, o, coin, start, end, h, data.skip(i as int));
                    if rest_r is Ok {
                        let rest = rest_r->Ok_0;
                        assert(process_rows(f, o, coin, start, end, h, tail_rows) == Ok::<
                            _,
                            ErrorV,
                        >(seq![v.deep_view()] + rest));
                        assert(before.skip(1).push(v.deep_view()) + rest =~= before.skip(1) + (
                        seq![v.deep_view()] + rest));
                    } else {
                        assert(process_rows(f, o, coin, start, end, h, tail_rows) == rest_r);
                    }
                }
            },
        }
        i += 1;
    }
    proof {
        assert(data.skip(rows@.len() - 1) =~= Seq::<Seq<Seq<char>>>::empty());
        assert(process_rows(f, o, coin, start, end, h, data) == Ok::<_, ErrorV>(
            out_rows.deep_view().skip(1),
        ));
        assert(out_rows.deep_view() =~~= seq![header_of(o)] + out_rows.deep_view().skip(1));
    }
    let out = write_csv(&out_rows, ending);
    Ok(out)
}

/// Whether a data row passes the run's filters: its timestamp parses, lies
/// in the inclusive window, and the schema's acceptance predicate holds.
pub open spec fn row_accepted(
    f: InputFormat,
    start: Timestamp,
    end: Timestamp,
    h: Seq<Seq<char>>,
    row: Seq<Seq<char>>,
) -> bool {
    &&& ts_parse(row_date_text(f, h, row)) matches Some(d)
    &&& in_window(start, end, ts_parse(row_date_text(f, h, row))->Some_0)
    &&& row_label_ok(f, h, row)
}

/// The same conversion on the same input and parameters always yields the
/// same result: two runs of one configuration agree byte for byte.
pub proof fn lemma_convert_idempotent(
    input: Seq<char>,
    f: InputFormat,
    o: OutputFormat,
    coin: Coin,
    start: Timestamp,
    end: Timestamp,
    r1: Result<Seq<char>, ErrorV>,
    r2: Result<Seq<char>, ErrorV>,
)
    requires
        r1 == convert_spec(input, f, o, coin, start, end),
        r2 == convert_spec(input, f, o, coin, start, end),
    ensures
        r1 == r2,
{
}

/// In a run that succeeds, every data row was read without error.
proof fn lemma_rows_ok_pointwise(
    f: InputFormat,
    o: OutputFormat,
    coin: Coin,
    start: Timestamp,
    end: Timestamp,
    h: Seq<Seq<char>>,
    rows: Seq<Seq<Seq<char>>>,
    i: int,
)
    requires
        process_rows(f, o, coin, start, end, h, rows) is Ok,
        0 <= i < rows.len(),
    ensures
        process_row(f, o, coin, start, end, h, rows[i]) is Ok,
    decreases rows.len(),
{
    if i > 0 {
        lemma_rows_ok_pointwise(f, o, coin, start, end, h, rows.drop_first(), i - 1);
    }
}

/// In a run that succeeds, every data row whose timestamp lies in the
/// inclusive window — its boundaries included — and which the schema
/// accepts contributes a row, and that row appears in the run's output.
pub proof fn lemma_in_window_row_appears(
    f: InputFormat,
    o: OutputFormat,
    coin: Coin,
    start: Timestamp,
    end: Timestamp,
    h: Seq<Seq<char>>,
    rows: Seq<Seq<Seq<char>>>,
    i: int,
)
    requires
        process_rows(f, o, coin, start, end, h, rows) is Ok,
        0 <= i < rows.len(),
        row_accepted(f, start, end, h, rows[i]),
    ensures
        process_row(f, o, coin, start, end, h, rows[i]) matches Ok(opt) && opt is Some,
        process_rows(f, o, coin, start, end, h, rows)->Ok_0.contains(
            process_row(f, o, coin, start, end, h, rows[i])->Ok_0->Some_0,
        ),
    decreases rows.len(),
{
    lemma_rows_ok_pointwise(f, o, coin, start, end, h, rows, i);
    let out = process_rows(f, o, coin, start, end, h, rows)->Ok_0;
    let r = process_row(f, o, coin, start, end, h, rows[i])->Ok_0->Some_0;
    let opt0 = process_row(f, o, coin, start, end, h, rows[0])->Ok_0;
    let rest = process_rows(f, o, coin, start, end, h, rows.drop_first())->Ok_0;
    if i == 0 {
        assert(out[0] == r);
        assert(out.contains(r));
    } else {
        lemma_in_window_row_appears(f, o, coin, start, end, h, rows.drop_first(), i - 1);
        let j = choose|j: int| 0 <= j < rest.len() && rest[j] == r;
        if opt0 is Some {
            assert(out[j + 1] == r);
        } else {
            assert(out[j] == r);
        }
        assert(out.contains(r));
    }
}

/// In a run that succeeds, a data row whose timestamp lies strictly outside
/// the window — or which the schema does not accept — contributes nothing.
pub proof fn lemma_filtered_row_skipped(
    f: InputFormat,
    o: OutputFormat,
    coin: Coin,
    start: Timestamp,
    end: Timestamp,
    h: Seq<Seq<char>>,
    rows: Seq<Seq<Seq<char>>>,
    i: int,
)
    requires
        process_rows(f, o, coin, start, end, h, rows) is Ok,
        0 <= i < rows.len(),
        !row_accepted(f, start, end, h, rows[i]),
    ensures
        process_row(f, o, coin, start, end, h, rows[i]) == Ok::<_, ErrorV>(
            None::<Seq<Seq<char>>>,
        ),
{
    lemma_rows_ok_pointwise(f, o, coin, start, end, h, rows, i);
}

/// In a run that succeeds, every output row is the contribution of some
/// accepted data row: nothing outside the window or failing the acceptance
/// predicate ever reaches the output.
pub proof fn lemma_output_rows_from_accepted(
    f: InputFormat,
    o: OutputFormat,
    coin: Coin,
    start: Timestamp,
    end: Timestamp,
    h: Seq<Seq<char>>,
    rows: Seq<Seq<Seq<char>>>,
    j: int,
)
    requires
        process_rows(f, o, coin, start, end, h, rows) is Ok,
        0 <= j < process_rows(f, o, coin, start, end, h, rows)->Ok_0.len(),
    ensures
        exists|i: int|
            {
                &&& 0 <= i < rows.len()
                &&& row_accepted(f, start, end, h, rows[i])
                &&& #[trigger] process_row(f, o, coin, start, end, h, rows[i]) == Ok::<_, ErrorV>(
                    Some(process_rows(f, o, coin, start, end, h, rows)->Ok_0[j]),
                )
            },
    decreases rows.len(),
{
    let out = process_rows(f, o, coin, start, end, h, rows)->Ok_0;
    let opt0 = process_row(f, o, coin, start, end, h, rows[0])->Ok_0;
    let rest = process_rows(f, o, coin, start, end, h, rows.drop_first())->Ok_0;
    if opt0 is Some && j == 0 {
        assert(process_row(f, o, coin, start, end, h, rows[0]) == Ok::<_, ErrorV>(Some(out[0])));
    } else {
        let j2 = if opt0 is Some {
            j - 1
        } else {
            j
        };
        lemma_output_rows_from_accepted(f, o, coin, start, end, h, rows.drop_first(), j2);
        let i2 = choose|i2: int|
            {
                &&& 0 <= i2 < rows.drop_first().len()
                &&& row_accepted(f, start, end, h, rows.drop_first()[i2])
                &&& #[trigger] process_row(f, o, coin, start, end, h, rows.drop_first()[i2])
                    == Ok::<_, ErrorV>(
                    Some(rest[j2]),
                )
            };
        assert(rows.drop_first()[i2] == rows[i2 + 1]);
        assert(out[j] == rest[j2]);
        assert(process_row(f, o, coin, start, end, h, rows[i2 + 1]) == Ok::<_, ErrorV>(
            Some(out[j]),
        ));
    }
}

} // verus!
