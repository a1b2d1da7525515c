//! The input record schemas, one per source exporter.  Each schema binds its
//! named columns in the header row once, then reads and validates its fields
//! from every data row.  However many fields a schema carries, it exposes the
//! two derived facts the conversion needs: an event timestamp string and an
//! amount string.

use vstd::prelude::*;

use crate::error::{Error, ErrorV};
use crate::numeric::{bool_of, is_float_str, is_float_str_exec, parse_u64, u64_parse, bool_from_string};
use crate::text::{chars_of, eq_lit};

verus! {

/// The first position of a named column in the header, or -1.
pub open spec fn col_index(h: Seq<Seq<char>>, name: Seq<char>) -> int
    decreases h.len(),
{
    if h.len() == 0 {
        -1
    } else if h[0] == name {
        0
    } else {
        let r = col_index(h.drop_first(), name);
        if r == -1 {
            -1
        } else {
            r + 1
        }
    }
}

/// The first match is where the scan stops.
proof fn lemma_col_index_found(h: Seq<Seq<char>>, name: Seq<char>, i: int)
    requires
        0 <= i < h.len(),
        h[i] == name,
        forall|j: int| 0 <= j < i ==> h[j] != name,
    ensures
        col_index(h, name) == i,
    decreases i,
{
    if i > 0 {
        lemma_col_index_found(h.drop_first(), name, i - 1);
    }
}

/// A header without the name yields no position.
proof fn lemma_col_index_none(h: Seq<Seq<char>>, name: Seq<char>)
    requires
        forall|j: int| 0 <= j < h.len() ==> h[j] != name,
    ensures
        col_index(h, name) == -1,
    decreases h.len(),
{
    if h.len() > 0 {
        lemma_col_index_none(h.drop_first(), name);
    }
}

/// A found position lies in the header and holds the name.
pub proof fn lemma_col_index_in_range(h: Seq<Seq<char>>, name: Seq<char>)
    ensures
        col_index(h, name) == -1 || (0 <= col_index(h, name) < h.len() && h[col_index(h, name)]
            == name),
    decreases h.len(),
{
    if h.len() > 0 && h[0] != name {
        lemma_col_index_in_range(h.drop_first(), name);
    }
}

/// Find a named column in the header row.
fn find_col(header: &Vec<Vec<char>>, name: &str) -> (r: Option<usize>)
    ensures
        match r {
            Some(i) => col_index(header.deep_view(), name@) == i && i < header@.len(),
            None => col_index(header.deep_view(), name@) == -1,
        },
{
    let ghost h = header.deep_view();
    let mut i: usize = 0;
    while i < header.len()
        invariant
            i <= header@.len(),
            h == header.deep_view(),
            forall|j: int| 0 <= j < i ==> h[j] != name@,
        decreases header@.len() - i,
    {
        if eq_lit(&header[i], name) {
            proof {
                assert(h[i as int] =~= header@[i as int]@);
                lemma_col_index_found(h, name@, i as int);
            }
            return Some(i);
        }
        proof {
            assert(h[i as int] =~= header@[i as int]@);
        }
        i += 1;
    }
    proof {
        lemma_col_index_none(h, name@);
    }
    None
}

/// An explorer-style record: block metadata around a timestamped value.
#[derive(Debug)]
pub struct Subscan {
    pub event_id: Vec<char>,
    pub date: Vec<char>,
    pub block: u64,
    pub extrinsic: Vec<char>,
    pub amount: Vec<char>,
    pub action: Vec<char>,
}

/// Where the explorer-style columns stand in the header.
#[derive(Debug, Clone, Copy, PartialEq, Eq, Structural)]
pub struct SubscanCols {
    pub event_id: usize,
    pub date: usize,
    pub block: usize,
    pub extrinsic: usize,
    pub amount: usize,
    pub action: usize,
}

/// Whether these positions are exactly where the header holds the
/// explorer-style columns.
pub open spec fn subscan_cols_match(c: SubscanCols, h: Seq<Seq<char>>) -> bool {
    &&& c.event_id == col_index(h, "Event Index"@)
    &&& c.date == col_index(h, "Date"@)
    &&& c.block == col_index(h, "Block"@)
    &&& c.extrinsic == col_index(h, "Extrinsic Index"@)
    &&& c.amount == col_index(h, "Value"@)
    &&& c.action == col_index(h, "Action"@)
    &&& c.event_id < h.len()
    &&& c.date < h.len()
    &&& c.block < h.len()
    &&& c.extrinsic < h.len()
    &&& c.amount < h.len()
    &&& c.action < h.len()
}

/// The first explorer-style column the header lacks, if any.
pub open spec fn subscan_missing_col(h: Seq<Seq<char>>) -> Option<Seq<char>> {
    if col_index(h, "Event Index"@) == -1 {
        Some("Event Index"@)
    } else if col_index(h, "Date"@) == -1 {
        Some("Date"@)
    } else if col_index(h, "Block"@) == -1 {
        Some("Block"@)
    } else if col_index(h, "Extrinsic Index"@) == -1 {
        Some("Extrinsic Index"@)
    } else if col_index(h, "Value"@) == -1 {
        Some("Value"@)
    } else if col_index(h, "Action"@) == -1 {
        Some("Action"@)
    } else {
        None
    }
}

impl SubscanCols {
    /// Bind the explorer-style columns in the header.
    pub fn resolve(header: &Vec<Vec<char>>) -> (r: Result<SubscanCols, Error>)
        ensures
            match r {
                Ok(c) => subscan_missing_col(header.deep_view()) is None && subscan_cols_match(
                    c,
                    header.deep_view(),
                ),
                Err(e) => {
                    &&& subscan_missing_col(header.deep_view()) matches Some(n)
                    &&& e@ == ErrorV::MissingColumn(
                        subscan_missing_col(header.deep_view())->Some_0,
                    )
                },
            },
    {
        let event_id = match find_col(header, "Event Index") {
            Some(i) => i,
            None => { return Err(Error::MissingColumn(chars_of("Event Index"))); },
        };
        let date = match find_col(header, "Date") {
            Some(i) => i,
            None => { return Err(Error::MissingColumn(chars_of("Date"))); },
        };
        let block = match find_col(header, "Block") {
            Some(i) => i,
            None => { return Err(Error::MissingColumn(chars_of("Block"))); },
        };
        let extrinsic = match find_col(header, "Extrinsic Index") {
            Some(i) => i,
            None => { return Err(Error::MissingColumn(chars_of("Extrinsic Index"))); },
        };
        let amount = match find_col(header, "Value") {
            Some(i) => i,
            None => { return Err(Error::MissingColumn(chars_of("Value"))); },
        };
        let action = match find_col(header, "Action") {
            Some(i) => i,
            None => { return Err(Error::MissingColumn(chars_of("Action"))); },
        };
        Ok(SubscanCols { event_id, date, block, extrinsic, amount, action })
    }
}

impl Subscan {
    /// Read an explorer-style record from a data row.  The block number must
    /// be an unsigned decimal and the value a number; the first field that
    /// is not is the row's error.
    pub fn from_row(c: SubscanCols, row: &Vec<Vec<char>>) -> (r: Result<Subscan, Error>)
        requires
            c.event_id < row@.len(),
            c.date < row@.len(),
            c.block < row@.len(),
            c.extrinsic < row@.len(),
            c.amount < row@.len(),
            c.action < row@.len(),
        ensures
            ({
                let rv = row.deep_view();
                match r {
                    Ok(rec) => {
                        &&& u64_parse(rv[c.block as int]) == Some(rec.block)
                        &&& is_float_str(rv[c.amount as int])
                        &&& rec.event_id@ == rv[c.event_id as int]
                        &&& rec.date@ == rv[c.date as int]
                        &&& rec.extrinsic@ == rv[c.extrinsic as int]
                        &&& rec.amount@ == rv[c.amount as int]
                        &&& rec.action@ == rv[c.action as int]
                    },
                    Err(e) => {
                        ||| (u64_parse(rv[c.block as int]) is None && e@ == ErrorV::BadNumber(
                            rv[c.block as int],
                        ))
                        ||| (u64_parse(rv[c.block as int]) is Some && !is_float_str(
                            rv[c.amount as int],
                        ) && e@ == ErrorV::BadNumber(rv[c.amount as int]))
                    },
                }
            }),
    {
        proof {
            assert(forall|j: int|
                0 <= j < row@.len() ==> #[trigger] row.deep_view()[j] =~= row@[j]@);
        }
        let block = match parse_u64(&row[c.block]) {
            Some(v) => v,
            None => { return Err(Error::BadNumber(row[c.block].clone())); },
        };
        if !is_float_str_exec(&row[c.amount]) {
            return Err(Error::BadNumber(row[c.amount].clone()));
        }
        Ok(Subscan {
            event_id: row[c.event_id].clone(),
            date: row[c.date].clone(),
            block,
            extrinsic: row[c.extrinsic].clone(),
            amount: row[c.amount].clone(),
            action: row[c.action].clone(),
        })
    }
}

/// An exchange-style record: a typed ledger entry carrying its own asset.
#[derive(Debug)]
pub struct Kraken {
    pub txid: Vec<char>,
    pub refid: Vec<char>,
    pub date: Vec<char>,
    pub action: Vec<char>,
    pub aclass: Vec<char>,
    pub asset: Vec<char>,
    pub amount: Vec<char>,
    pub fee: Vec<char>,
}

/// Where the exchange-style columns stand in the header.
#[derive(Debug, Clone, Copy, PartialEq, Eq, Structural)]
pub struct KrakenCols {
    pub txid: usize,
    pub refid: usize,
    pub date: usize,
    pub action: usize,
    pub aclass: usize,
    pub asset: usize,
    pub amount: usize,
    pub fee: usize,
}

/// Whether these positions are exactly where the header holds the
/// exchange-style columns.
pub open spec fn kraken_cols_match(c: KrakenCols, h: Seq<Seq<char>>) -> bool {
    &&& c.txid == col_index(h, "txid"@)
    &&& c.refid == col_index(h, "refid"@)
    &&& c.date == col_index(h, "time"@)
    &&& c.action == col_index(h, "type"@)
    &&& c.aclass == col_index(h, "aclass"@)
    &&& c.asset == col_index(h, "asset"@)
    &&& c.amount == col_index(h, "amount"@)
    &&& c.fee == col_index(h, "fee"@)
    &&& c.txid < h.len()
    &&& c.refid < h.len()
    &&& c.date < h.len()
    &&& c.action < h.len()
    &&& c.aclass < h.len()
    &&& c.asset < h.len()
    &&& c.amount < h.len()
    &&& c.fee < h.len()
}

/// The first exchange-style column the header lacks, if any.
pub open spec fn kraken_missing_col(h: Seq<Seq<char>>) -> Option<Seq<char>> {
    if col_index(h, "txid"@) == -1 {
        Some("txid"@)
    } else if col_index(h, "refid"@) == -1 {
        Some("refid"@)
    } else if col_index(h, "time"@) == -1 {
        Some("time"@)
    } else if col_index(h, "type"@) == -1 {
        Some("type"@)
    } else if col_index(h, "aclass"@) == -1 {
        Some("aclass"@)
    } else if col_index(h, "asset"@) == -1 {
        Some("asset"@)
    } else if col_index(h, "amount"@) == -1 {
        Some("amount"@)
    } else if col_index(h, "fee"@) == -1 {
        Some("fee"@)
    } else {
        None
    }
}

impl KrakenCols {
    /// Bind the exchange-style columns in the header.
    pub fn resolve(header: &Vec<Vec<char>>) -> (r: Result<KrakenCols, Error>)
        ensures
            match r {
                Ok(c) => kraken_missing_col(header.deep_view()) is None && kraken_cols_match(
                    c,
                    header.deep_view(),
                ),
                Err(e) => {
                    &&& kraken_missing_col(header.deep_view()) matches Some(n)
                    &&& e@ == ErrorV::MissingColumn(kraken_missing_col(header.deep_view())->Some_0)
                },
            },
    {
        let txid = match find_col(header, "txid") {
            Some(i) => i,
            None => { return Err(Error::MissingColumn(chars_of("txid"))); },
        };
        let refid = match find_col(header, "refid") {
            Some(i) => i,
            None => { return Err(Error::MissingColumn(chars_of("refid"))); },
        };
        let date = match find_col(header, "time") {
            Some(i) => i,
            None => { return Err(Error::MissingColumn(chars_of("time"))); },
        };
        let action = match find_col(header, "type") {
            Some(i) => i,
            None => { return Err(Error::MissingColumn(chars_of("type"))); },
        };
        let aclass = match find_col(header, "aclass") {
            Some(i) => i,
            None => { return Err(Error::MissingColumn(chars_of("aclass"))); },
        };
        let asset = match find_col(header, "asset") {
            Some(i) => i,
            None => { return Err(Error::MissingColumn(chars_of("asset"))); },
        };
        let amount = match find_col(header, "amount") {
            Some(i) => i,
            None => { return Err(Error::MissingColumn(chars_of("amount"))); },
        };
        let fee = match find_col(header, "fee") {
            Some(i) => i,
            None => { return Err(Error::MissingColumn(chars_of("fee"))); },
        };
        Ok(KrakenCols { txid, refid, date, action, aclass, asset, amount, fee })
    }
}

impl Kraken {
    /// Read an exchange-style record from a data row.  The amount and the
    /// fee must be numbers; the first field that is not is the row's error.
    pub fn from_row(c: KrakenCols, row: &Vec<Vec<char>>) -> (r: Result<Kraken, Error>)
        requires
            c.txid < row@.len(),
            c.refid < row@.len(),
            c.date < row@.len(),
            c.action < row@.len(),
            c.aclass < row@.len(),
            c.asset < row@.len(),
            c.amount < row@.len(),
            c.fee < row@.len(),
        ensures
            ({
                let rv = row.deep_view();
                match r {
                    Ok(rec) => {
                        &&& is_float_str(rv[c.amount as int])
                        &&& is_float_str(rv[c.fee as int])
                        &&& rec.txid@ == rv[c.txid as int]
                        &&& rec.refid@ == rv[c.refid as int]
                        &&& rec.date@ == rv[c.date as int]
                        &&& rec.action@ == rv[c.action as int]
                        &&& rec.aclass@ == rv[c.aclass as int]
                        &&& rec.asset@ == rv[c.asset as int]
                        &&& rec.amount@ == rv[c.amount as int]
                        &&& rec.fee@ == rv[c.fee as int]
                    },
                    Err(e) => {
                        ||| (!is_float_str(rv[c.amount as int]) && e@ == ErrorV::BadNumber(
                            rv[c.amount as int],
                        ))
                        ||| (is_float_str(rv[c.amount as int]) && !is_float_str(rv[c.fee as int])
                            && e@ == ErrorV::BadNumber(rv[c.fee as int]))
                    },
                }
            }),
    {
        proof {
            assert(forall|j: int|
                0 <= j < row@.len() ==> #[trigger] row.deep_view()[j] =~= row@[j]@);
        }
        if !is_float_str_exec(&row[c.amount]) {
            return Err(Error::BadNumber(row[c.amount].clone()));
        }
        if !is_float_str_exec(&row[c.fee]) {
            return Err(Error::BadNumber(row[c.fee].clone()));
        }
        Ok(Kraken {
            txid: row[c.txid].clone(),
            refid: row[c.refid].clone(),
            date: row[c.date].clone(),
            action: row[c.action].clone(),
            aclass: row[c.aclass].clone(),
            asset: row[c.asset].clone(),
            amount: row[c.amount].clone(),
            fee: row[c.fee].clone(),
        })
    }
}

/// An aggregator-style record: a typed transaction with optional legs.
#[derive(Debug)]
pub struct StakeTax {
    pub timestamp: Vec<char>,
    pub tx_type: Vec<char>,
    pub taxable: bool,
    pub received_amount: Option<Vec<char>>,
    pub received_currency: Vec<char>,
    pub sent_amount: Option<Vec<char>>,
    pub sent_currency: Vec<char>,
    pub fee: Option<Vec<char>>,
    pub fee_currency: Vec<char>,
    pub comment: Vec<char>,
    pub tx_id: Vec<char>,
    pub url: Vec<char>,
    pub exchange: Vec<char>,
    pub wallet_address: Vec<char>,
}

/// Where the aggregator-style columns stand in the header.
#[derive(Debug, Clone, Copy, PartialEq, Eq, Structural)]
pub struct StakeTaxCols {
    pub timestamp: usize,
    pub tx_type: usize,
    pub taxable: usize,
    pub received_amount: usize,
    pub received_currency: usize,
    pub sent_amount: usize,
    pub sent_currency: usize,
    pub fee: usize,
    pub fee_currency: usize,
    pub comment: usize,
    pub tx_id: usize,
    pub url: usize,
    pub exchange: usize,
    pub wallet_address: usize,
}

/// Whether these positions are exactly where the header holds the
/// aggregator-style columns.
pub open spec fn staketax_cols_match(c: StakeTaxCols, h: Seq<Seq<char>>) -> bool {
    &&& c.timestamp == col_index(h, "timestamp"@)
    &&& c.tx_type == col_index(h, "tx_type"@)
    &&& c.taxable == col_index(h, "taxable"@)
    &&& c.received_amount == col_index(h, "received_amount"@)
    &&& c.received_currency == col_index(h, "received_currency"@)
    &&& c.sent_amount == col_index(h, "sent_amount"@)
    &&& c.sent_currency == col_index(h, "sent_currency"@)
    &&& c.fee == col_index(h, "fee"@)
    &&& c.fee_currency == col_index(h, "fee_currency"@)
    &&& c.comment == col_index(h, "comment"@)
    &&& c.tx_id == col_index(h, "txid"@)
    &&& c.url == col_index(h, "url"@)
    &&& c.exchange == col_index(h, "exchange"@)
    &&& c.wallet_address == col_index(h, "wallet_address"@)
    &&& c.timestamp < h.len()
    &&& c.tx_type < h.len()
    &&& c.taxable < h.len()
    &&& c.received_amount < h.len()
    &&& c.received_currency < h.len()
    &&& c.sent_amount < h.len()
    &&& c.sent_currency < h.len()
    &&& c.fee < h.len()
    &&& c.fee_currency < h.len()
    &&& c.comment < h.len()
    &&& c.tx_id < h.len()
    &&& c.url < h.len()
    &&& c.exchange < h.len()
    &&& c.wallet_address < h.len()
}

/// The first aggregator-style column the header lacks, if any.
pub open spec fn staketax_missing_col(h: Seq<Seq<char>>) -> Option<Seq<char>> {
    if col_index(h, "timestamp"@) == -1 {
        Some("timestamp"@)
    } else if col_index(h, "tx_type"@) == -1 {
        Some("tx_type"@)
    } else if col_index(h, "taxable"@) == -1 {
        Some("taxable"@)
    } else if col_index(h, "received_amount"@) == -1 {
        Some("received_amount"@)
    } else if col_index(h, "received_currency"@) == -1 {
        Some("received_currency"@)
    } else if col_index(h, "sent_amount"@) == -1 {
        Some("sent_amount"@)
    } else if col_index(h, "sent_currency"@) == -1 {
        Some("sent_currency"@)
    } else if col_index(h, "fee"@) == -1 {
        Some("fee"@)
    } else if col_index(h, "fee_currency"@) == -1 {
        Some("fee_currency"@)
    } else if col_index(h, "comment"@) == -1 {
        Some("comment"@)
    } else if col_index(h, "txid"@) == -1 {
        Some("txid"@)
    } else if col_index(h, "url"@) == -1 {
        Some("url"@)
    } else if col_index(h, "exchange"@) == -1 {
        Some("exchange"@)
    } else if col_index(h, "wallet_address"@) == -1 {
        Some("wallet_address"@)
    } else {
        None
    }
}

impl StakeTaxCols {
    /// Bind the aggregator-style columns in the header.
    pub fn resolve(header: &Vec<Vec<char>>) -> (r: Result<StakeTaxCols, Error>)
        ensures
            match r {
                Ok(c) => staketax_missing_col(header.deep_view()) is None && staketax_cols_match(
                    c,
                    header.deep_view(),
                ),
                Err(e) => {
                    &&& staketax_missing_col(header.deep_view()) matches Some(n)
                    &&& e@ == ErrorV::MissingColumn(
                        staketax_missing_col(header.deep_view())->Some_0,
                    )
                },
            },
    {
        let timestamp = match find_col(header, "timestamp") {
            Some(i) => i,
            None => { return Err(Error::MissingColumn(chars_of("timestamp"))); },
        };
        let tx_type = match find_col(header, "tx_type") {
            Some(i) => i,
            None => { return Err(Error::MissingColumn(chars_of("tx_type"))); },
        };
        let taxable = match find_col(header, "taxable") {
            Some(i) => i,
            None => { return Err(Error::MissingColumn(chars_of("taxable"))); },
        };
        let received_amount = match find_col(header, "received_amount") {
            Some(i) => i,
            None => { return Err(Error::MissingColumn(chars_of("received_amount"))); },
        };
        let received_currency = match find_col(header, "received_currency") {
            Some(i) => i,
            None => { return Err(Error::MissingColumn(chars_of("received_currency"))); },
        };
        let sent_amount = match find_col(header, "sent_amount") {
            Some(i) => i,
            None => { return Err(Error::MissingColumn(chars_of("sent_amount"))); },
        };
        let sent_currency = match find_col(header, "sent_currency") {
            Some(i) => i,
            None => { return Err(Error::MissingColumn(chars_of("sent_currency"))); },
        };
        let fee = match find_col(header, "fee") {
            Some(i) => i,
            None => { return Err(Error::MissingColumn(chars_of("fee"))); },
        };
        let fee_currency = match find_col(header, "fee_currency") {
            Some(i) => i,
            None => { return Err(Error::MissingColumn(chars_of("fee_currency"))); },
        };
        let comment = match find_col(header, "comment") {
            Some(i) => i,
            None => { return Err(Error::MissingColumn(chars_of("comment"))); },
        };
        let tx_id = match find_col(header, "txid") {
            Some(i) => i,
            None => { return Err(Error::MissingColumn(chars_of("txid"))); },
        };
        let url = match find_col(header, "url") {
            Some(i) => i,
            None => { return Err(Error::MissingColumn(chars_of("url"))); },
        };
        let exchange = match find_col(header, "exchange") {
            Some(i) => i,
            None => { return Err(Error::MissingColumn(chars_of("exchange"))); },
        };
        let wallet_address = match find_col(header, "wallet_address") {
            Some(i) => i,
            None => { return Err(Error::MissingColumn(chars_of("wallet_address"))); },
        };
        Ok(StakeTaxCols {
            timestamp,
            tx_type,
            taxable,
            received_amount,
            received_currency,
            sent_amount,
            sent_currency,
            fee,
            fee_currency,
            comment,
            tx_id,
            url,
            exchange,
            wallet_address,
        })
    }
}

/// What an optional amount field means: nothing when empty, its text when
/// it spells a number, and no meaning otherwise.
pub open spec fn opt_amount_of(f: Seq<char>) -> Option<Option<Seq<char>>> {
    if f.len() == 0 {
        Some(None)
    } else if is_float_str(f) {
        Some(Some(f))
    } else {
        None
    }
}

/// Read an optional amount field: empty means absent.
fn opt_amount_from(f: &Vec<char>) -> (r: Result<Option<Vec<char>>, Error>)
    ensures
        match r {
            Ok(v) => opt_amount_of(f@) == Some(match v {
                Some(a) => Some(a@),
                None => None,
            }),
            Err(e) => opt_amount_of(f@) is None && e@ == ErrorV::BadNumber(f@),
        },
{
    if f.len() == 0 {
        Ok(None)
    } else if is_float_str_exec(f) {
        Ok(Some(f.clone()))
    } else {
        Err(Error::BadNumber(f.clone()))
    }
}

impl StakeTax {
    /// Read an aggregator-style record from a data row.  The taxable flag
    /// must be a boolean and each present amount leg a number; the first
    /// field that is not is the row's error.  A missing received amount is
    /// not an error.
    pub fn from_row(c: StakeTaxCols, row: &Vec<Vec<char>>) -> (r: Result<StakeTax, Error>)
        requires
            c.timestamp < row@.len(),
            c.tx_type < row@.len(),
            c.taxable < row@.len(),
            c.received_amount < row@.len(),
            c.received_currency < row@.len(),
            c.sent_amount < row@.len(),
            c.sent_currency < row@.len(),
            c.fee < row@.len(),
            c.fee_currency < row@.len(),
            c.comment < row@.len(),
            c.tx_id < row@.len(),
            c.url < row@.len(),
            c.exchange < row@.len(),
            c.wallet_address < row@.len(),
        ensures
            ({
                let rv = row.deep_view();
                match r {
                    Ok(rec) => {
                        &&& bool_of(rv[c.taxable as int]) == Some(rec.taxable)
                        &&& opt_amount_of(rv[c.received_amount as int]) == Some(
                            match rec.received_amount {
                                Some(a) => Some(a@),
                                None => None,
                            },
                        )
                        &&& opt_amount_of(rv[c.sent_amount as int]) == Some(
                            match rec.sent_amount {
                                Some(a) => Some(a@),
                                None => None,
                            },
                        )
                        &&& opt_amount_of(rv[c.fee as int]) == Some(
                            match rec.fee {
                                Some(a) => Some(a@),
                                None => None,
                            },
                        )
                        &&& rec.timestamp@ == rv[c.timestamp as int]
                        &&& rec.tx_type@ == rv[c.tx_type as int]
                        &&& rec.received_currency@ == rv[c.received_currency as int]
                        &&& rec.sent_currency@ == rv[c.sent_currency as int]
                        &&& rec.fee_currency@ == rv[c.fee_currency as int]
                        &&& rec.comment@ == rv[c.comment as int]
                        &&& rec.tx_id@ == rv[c.tx_id as int]
                        &&& rec.url@ == rv[c.url as int]
                        &&& rec.exchange@ == rv[c.exchange as int]
                        &&& rec.wallet_address@ == rv[c.wallet_address as int]
                    },
                    Err(e) => {
                        ||| (bool_of(rv[c.taxable as int]) is None && e@ == ErrorV::BadBool(
                            rv[c.taxable as int],
                        ))
                        ||| (bool_of(rv[c.taxable as int]) is Some && opt_amount_of(
                            rv[c.received_amount as int],
                        ) is None && e@ == ErrorV::BadNumber(rv[c.received_amount as int]))
                        ||| (bool_of(rv[c.taxable as int]) is Some && opt_amount_of(
                            rv[c.received_amount as int],
                        ) is Some && opt_amount_of(rv[c.sent_amount as int]) is None && e@
                            == ErrorV::BadNumber(rv[c.sent_amount as int]))
                        ||| (bool_of(rv[c.taxable as int]) is Some && opt_amount_of(
                            rv[c.received_amount as int],
                        ) is Some && opt_amount_of(rv[c.sent_amount as int]) is Some
                            && opt_amount_of(rv[c.fee as int]) is None && e@ == ErrorV::BadNumber(
                            rv[c.fee as int],
                        ))
                    },
                }
            }),
    {
        proof {
            assert(forall|j: int|
                0 <= j < row@.len() ==> #[trigger] row.deep_view()[j] =~= row@[j]@);
        }
        let taxable = match bool_from_string(&row[c.taxable]) {
            Ok(v) => v,
            Err(e) => { return Err(e); },
        };
        let received_amount = match opt_amount_from(&row[c.received_amount]) {
            Ok(v) => v,
            Err(e) => { return Err(e); },
        };
        let sent_amount = match opt_amount_from(&row[c.sent_amount]) {
            Ok(v) => v,
            Err(e) => { return Err(e); },
        };
        let fee = match opt_amount_from(&row[c.fee]) {
            Ok(v) => v,
            Err(e) => { return Err(e); },
        };
        Ok(StakeTax {
            timestamp: row[c.timestamp].clone(),
            tx_type: row[c.tx_type].clone(),
            taxable,
            received_amount,
            received_currency: row[c.received_currency].clone(),
            sent_amount,
            sent_currency: row[c.sent_currency].clone(),
            fee,
            fee_currency: row[c.fee_currency].clone(),
            comment: row[c.comment].clone(),
            tx_id: row[c.tx_id].clone(),
            url: row[c.url].clone(),
            exchange: row[c.exchange].clone(),
            wallet_address: row[c.wallet_address].clone(),
        })
    }
}

/// The uniform capability of every input schema: an event timestamp string
/// and an amount string.
pub trait InputRecord {
    /// The record's event timestamp text.
    spec fn date_spec(&self) -> Seq<char>;

    /// The record's amount text.
    spec fn amount_spec(&self) -> Seq<char>;

    /// The record's event timestamp text.
    fn get_date(&self) -> (r: &Vec<char>)
        ensures
            r@ == self.date_spec(),
    ;

    /// The record's amount text.
    fn get_amount(&self) -> (r: Vec<char>)
        ensures
            r@ == self.amount_spec(),
    ;
}

impl InputRecord for Subscan {
    open spec fn date_spec(&self) -> Seq<char> {
        self.date@
    }

    open spec fn amount_spec(&self) -> Seq<char> {
        self.amount@
    }

    fn get_date(&self) -> (r: &Vec<char>) {
        &self.date
    }

    fn get_amount(&self) -> (r: Vec<char>) {
        self.amount.clone()
    }
}

impl InputRecord for Kraken {
    open spec fn date_spec(&self) -> Seq<char> {
        self.date@
    }

    open spec fn amount_spec(&self) -> Seq<char> {
        self.amount@
    }

    fn get_date(&self) -> (r: &Vec<char>) {
        &self.date
    }

    fn get_amount(&self) -> (r: Vec<char>) {
        self.amount.clone()
    }
}

impl InputRecord for StakeTax {
    open spec fn date_spec(&self) -> Seq<char> {
        self.timestamp@
    }

    /// A missing received amount is zero, never an error.
    open spec fn amount_spec(&self) -> Seq<char> {
        match self.received_amount {
            Some(a) => a@,
            None => "0.0"@,
        }
    }

    fn get_date(&self) -> (r: &Vec<char>) {
        &self.timestamp
    }

    fn get_amount(&self) -> (r: Vec<char>) {
        match &self.received_amount {
            Some(a) => a.clone(),
            None => chars_of("0.0"),
        }
    }
}

} // verus!
