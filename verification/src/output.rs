//! The output record schemas, one per destination tax tool, each built once
//! from a matched input record and immediately serialized: the simple
//! income schema and the ledger-style schema, with their exact header rows.

use vstd::prelude::*;

use crate::formats::{coin_label, coin_symbol, Coin, Currency, currency_symbol, OutputFormat};
use crate::text::{append_chars, chars_of};
use crate::timestamp::{ts_fmt, Timestamp};

verus! {

/// The simple income schema's header row.
pub open spec fn bt_header() -> Seq<Seq<char>> {
    seq!["Date"@, "Action"@, "Account"@, "Symbol"@, "Volume"@]
}

/// The ledger-style schema's header row.
pub open spec fn ct_header() -> Seq<Seq<char>> {
    seq![
        "Type"@,
        "Buy Amount"@,
        "Buy Currency"@,
        "Sell Amount"@,
        "Sell Currency"@,
        "Fee"@,
        "Fee Currency"@,
        "Exchange"@,
        "Trade-Group"@,
        "Comment"@,
        "Date"@,
        "Tx-ID"@,
        "Buy Value in Account Currency"@,
    ]
}

/// The header row of the chosen output schema.
pub open spec fn header_of(o: OutputFormat) -> Seq<Seq<char>> {
    match o {
        OutputFormat::BitcoinTax => bt_header(),
        OutputFormat::CoinTracking => ct_header(),
    }
}

/// Build the header row of the chosen output schema.
pub fn header_row(o: OutputFormat) -> (r: Vec<Vec<char>>)
    ensures
        r.deep_view() == header_of(o),
{
    let mut r: Vec<Vec<char>> = Vec::new();
    match o {
        OutputFormat::BitcoinTax => {
            r.push(chars_of("Date"));
            r.push(chars_of("Action"));
            r.push(chars_of("Account"));
            r.push(chars_of("Symbol"));
            r.push(chars_of("Volume"));
            assert(r.deep_view() =~~= bt_header());
        },
        OutputFormat::CoinTracking => {
            r.push(chars_of("Type"));
            r.push(chars_of("Buy Amount"));
            r.push(chars_of("Buy Currency"));
            r.push(chars_of("Sell Amount"));
            r.push(chars_of("Sell Currency"));
            r.push(chars_of("Fee"));
            r.push(chars_of("Fee Currency"));
            r.push(chars_of("Exchange"));
            r.push(chars_of("Trade-Group"));
            r.push(chars_of("Comment"));
            r.push(chars_of("Date"));
            r.push(chars_of("Tx-ID"));
            r.push(chars_of("Buy Value in Account Currency"));
            assert(r.deep_view() =~~= ct_header());
        },
    }
    r
}

/// The account label of a coin: its label-form name, then " STAKING".
pub open spec fn bt_account(c: Coin) -> Seq<char> {
    coin_label(c) + " STAKING"@
}

/// The serialized simple income row for an amount of a coin at a time.
pub open spec fn bt_row_of(date: Timestamp, amount: Seq<char>, c: Coin) -> Seq<Seq<char>> {
    seq![ts_fmt(date), "INCOME"@, bt_account(c), coin_symbol(c), amount]
}

/// The serialized ledger-style income row for an amount of a coin at a
/// time: the buy side filled, everything else defaulted.
pub open spec fn ct_row_of(amount: Seq<char>, c: Coin, date: Timestamp) -> Seq<Seq<char>> {
    seq![
        "Income"@,
        amount,
        coin_label(c),
        "0.0"@,
        "USD"@,
        "0.0"@,
        "USD"@,
        Seq::<char>::empty(),
        "Polkadot Staking"@,
        "Self-Staking"@,
        ts_fmt(date),
        Seq::<char>::empty(),
        "0.0"@,
    ]
}

/// A simple income record: a timestamp, the fixed action "INCOME", an
/// account label derived from the asset, the asset, and the amount.
#[derive(Debug)]
pub struct BitcoinTax {
    pub date: Timestamp,
    pub action: Vec<char>,
    pub account: Vec<char>,
    pub symbol: Coin,
    pub volume: Vec<char>,
}

impl BitcoinTax {
    /// Build a simple income record for an amount of a coin at a time.
    pub fn create(date: Timestamp, volume: Vec<char>, symbol: Coin) -> (r: BitcoinTax)
        ensures
            r.date == date,
            r.action@ == "INCOME"@,
            r.account@ == bt_account(symbol),
            r.symbol == symbol,
            r.volume@ == volume@,
    {
        let mut account = symbol.label();
        let suffix = chars_of(" STAKING");
        append_chars(&mut account, &suffix);
        BitcoinTax { date, action: chars_of("INCOME"), account, symbol, volume }
    }

    /// The record's serialized fields, in column order.
    pub open spec fn row_spec(self) -> Seq<Seq<char>> {
        seq![ts_fmt(self.date), self.action@, self.account@, coin_symbol(self.symbol), self.volume@]
    }

    /// Serialize the record's fields, in column order.
    pub fn to_row(self) -> (r: Vec<Vec<char>>)
        requires
            self.date.wf(),
        ensures
            r.deep_view() == self.row_spec(),
    {
        let ghost spec_row = self.row_spec();
        let mut r: Vec<Vec<char>> = Vec::new();
        r.push(crate::timestamp::format_timestamp(&self.date));
        r.push(self.action);
        r.push(self.account);
        r.push(self.symbol.symbol());
        r.push(self.volume);
        assert(r.deep_view() =~~= spec_row);
        r
    }
}

/// A ledger-style income record: the buy side carries the converted
/// amount and asset; the sell side, the fees and the valuation are zeroed —
/// valuation is out of scope.
#[derive(Debug)]
pub struct CoinTracking {
    pub tx_type: Vec<char>,
    pub buy_amount: Vec<char>,
    pub buy_currency: Vec<char>,
    pub sell_amount: Vec<char>,
    pub sell_currency: Currency,
    pub fee: Vec<char>,
    pub fee_currency: Currency,
    pub exchange: Vec<char>,
    pub trade_group: Vec<char>,
    pub comment: Vec<char>,
    pub date: Timestamp,
    pub tx_id: Vec<char>,
    pub buy_value: Vec<char>,
}

impl CoinTracking {
    /// Build a ledger-style income record: type "Income", the given buy
    /// side, and zeroed sell, fee and valuation columns.
    pub fn create(
        buy_amount: Vec<char>,
        buy_currency: Vec<char>,
        trade_group: Vec<char>,
        comment: Vec<char>,
        date: Timestamp,
    ) -> (r: CoinTracking)
        ensures
            r.tx_type@ == "Income"@,
            r.buy_amount@ == buy_amount@,
            r.buy_currency@ == buy_currency@,
            r.sell_amount@ == "0.0"@,
            r.sell_currency == Currency::USD,
            r.fee@ == "0.0"@,
            r.fee_currency == Currency::USD,
            r.exchange@ == Seq::<char>::empty(),
            r.trade_group@ == trade_group@,
            r.comment@ == comment@,
            r.date == date,
            r.tx_id@ == Seq::<char>::empty(),
            r.buy_value@ == "0.0"@,
    {
        CoinTracking {
            tx_type: chars_of("Income"),
            buy_amount,
            buy_currency,
            sell_amount: chars_of("0.0"),
            sell_currency: Currency::USD,
            fee: chars_of("0.0"),
            fee_currency: Currency::USD,
            exchange: Vec::new(),
            trade_group,
            comment,
            date,
            tx_id: Vec::new(),
            buy_value: chars_of("0.0"),
        }
    }

    /// The record's serialized fields, in column order.
    pub open spec fn row_spec(self) -> Seq<Seq<char>> {
        seq![
            self.tx_type@,
            self.buy_amount@,
            self.buy_currency@,
            self.sell_amount@,
            currency_symbol(self.sell_currency),
            self.fee@,
            currency_symbol(self.fee_currency),
            self.exchange@,
            self.trade_group@,
            self.comment@,
            ts_fmt(self.date),
            self.tx_id@,
            self.buy_value@,
        ]
    }

    /// Serialize the record's fields, in column order.
    pub fn to_row(self) -> (r: Vec<Vec<char>>)
        requires
            self.date.wf(),
        ensures
            r.deep_view() == self.row_spec(),
    {
        let ghost spec_row = self.row_spec();
        let mut r: Vec<Vec<char>> = Vec::new();
        r.push(self.tx_type);
        r.push(self.buy_amount);
        r.push(self.buy_currency);
        r.push(self.sell_amount);
        r.push(self.sell_currency.symbol());
        r.push(self.fee);
        r.push(self.fee_currency.symbol());
        r.push(self.exchange);
        r.push(self.trade_group);
        r.push(self.comment);
        r.push(crate::timestamp::format_timestamp(&self.date));
        r.push(self.tx_id);
        r.push(self.buy_value);
        assert(r.deep_view() =~~= spec_row);
        r
    }
}

/// A record of either output schema.
#[derive(Debug)]
pub enum OutputRecord {
    BT(BitcoinTax),
    CT(CoinTracking),
}

impl OutputRecord {
    /// The record's event timestamp.
    pub open spec fn date_of(self) -> Timestamp {
        match self {
            OutputRecord::BT(b) => b.date,
            OutputRecord::CT(c) => c.date,
        }
    }

    /// The record's serialized fields, in its schema's column order.
    pub open spec fn row_spec(self) -> Seq<Seq<char>> {
        match self {
            OutputRecord::BT(b) => b.row_spec(),
            OutputRecord::CT(c) => c.row_spec(),
        }
    }

    /// Serialize the record's fields, in its schema's column order.
    pub fn to_row(self) -> (r: Vec<Vec<char>>)
        requires
            self.date_of().wf(),
        ensures
            r.deep_view() == self.row_spec(),
    {
        match self {
            OutputRecord::BT(b) => b.to_row(),
            OutputRecord::CT(c) => c.to_row(),
        }
    }
}

} // verus!
