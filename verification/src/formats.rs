//! Closed enumerations of the conversion: assets, settlement currencies,
//! quarters, and the input and output schema selectors, each with its
//! case-insensitive parser over a fixed alias table.

use vstd::prelude::*;

use crate::error::{Error, ErrorV};
use crate::text::{chars_of, eq_lit, lower, lower_exec};

verus! {

/// The closed set of supported staking assets.
#[derive(Debug, Clone, Copy, PartialEq, Eq, Structural)]
pub enum Coin {
    DOT,
    KSM,
    ATOM,
    ETH,
    SOL,
    KAVA,
    ADA,
    XTZ,
}

/// The alias table: which strings name which coin, case-insensitively.
/// A trailing ".s" marks an exchange's staked balance of the same asset,
/// and "eth2" the beacon-chain form of ETH.
pub open spec fn coin_of(s: Seq<char>) -> Option<Coin> {
    let l = lower(s);
    if l == "dot"@ || l == "dot.s"@ {
        Some(Coin::DOT)
    } else if l == "ksm"@ || l == "ksm.s"@ {
        Some(Coin::KSM)
    } else if l == "atom"@ || l == "atom.s"@ {
        Some(Coin::ATOM)
    } else if l == "eth"@ || l == "eth.s"@ || l == "eth2"@ || l == "eth2.s"@ {
        Some(Coin::ETH)
    } else if l == "sol"@ || l == "sol.s"@ {
        Some(Coin::SOL)
    } else if l == "kava"@ || l == "kava.s"@ {
        Some(Coin::KAVA)
    } else if l == "ada"@ || l == "ada.s"@ {
        Some(Coin::ADA)
    } else if l == "xtz"@ || l == "xtz.s"@ {
        Some(Coin::XTZ)
    } else {
        None
    }
}

/// The upper-case name of a coin, as written in the output's symbol column.
pub open spec fn coin_symbol(c: Coin) -> Seq<char> {
    match c {
        Coin::DOT => "DOT"@,
        Coin::KSM => "KSM"@,
        Coin::ATOM => "ATOM"@,
        Coin::ETH => "ETH"@,
        Coin::SOL => "SOL"@,
        Coin::KAVA => "KAVA"@,
        Coin::ADA => "ADA"@,
        Coin::XTZ => "XTZ"@,
    }
}

/// The account-label form of a coin's name.  DOT alone maps to "DOT2";
/// every other coin maps to its own name.  This asymmetry is kept as
/// literal behaviour of the account labelling.
pub open spec fn coin_label(c: Coin) -> Seq<char> {
    match c {
        Coin::DOT => "DOT2"@,
        _ => coin_symbol(c),
    }
}

impl Coin {
    /// Parse an asset string against the closed alias table.  Exactly the
    /// strings of the table are accepted; anything else is a hard error
    /// naming the offending string, never a silent default.
    pub fn from_str(s: &Vec<char>) -> (r: Result<Coin, Error>)
        ensures
            match r {
                Ok(c) => coin_of(s@) == Some(c),
                Err(e) => coin_of(s@) is None && e@ == ErrorV::InvalidCoin(s@),
            },
    {
        let l = lower_exec(s);
        if eq_lit(&l, "dot") || eq_lit(&l, "dot.s") {
            Ok(Coin::DOT)
        } else if eq_lit(&l, "ksm") || eq_lit(&l, "ksm.s") {
            Ok(Coin::KSM)
        } else if eq_lit(&l, "atom") || eq_lit(&l, "atom.s") {
            Ok(Coin::ATOM)
        } else if eq_lit(&l, "eth") || eq_lit(&l, "eth.s") || eq_lit(&l, "eth2") || eq_lit(
            &l,
            "eth2.s",
        ) {
            Ok(Coin::ETH)
        } else if eq_lit(&l, "sol") || eq_lit(&l, "sol.s") {
            Ok(Coin::SOL)
        } else if eq_lit(&l, "kava") || eq_lit(&l, "kava.s") {
            Ok(Coin::KAVA)
        } else if eq_lit(&l, "ada") || eq_lit(&l, "ada.s") {
            Ok(Coin::ADA)
        } else if eq_lit(&l, "xtz") || eq_lit(&l, "xtz.s") {
            Ok(Coin::XTZ)
        } else {
            Err(Error::InvalidCoin(s.clone()))
        }
    }

    /// The coin's name for the output's symbol column.
    pub fn symbol(self) -> (r: Vec<char>)
        ensures
            r@ == coin_symbol(self),
    {
        match self {
            Coin::DOT => chars_of("DOT"),
            Coin::KSM => chars_of("KSM"),
            Coin::ATOM => chars_of("ATOM"),
            Coin::ETH => chars_of("ETH"),
            Coin::SOL => chars_of("SOL"),
            Coin::KAVA => chars_of("KAVA"),
            Coin::ADA => chars_of("ADA"),
            Coin::XTZ => chars_of("XTZ"),
        }
    }

    /// The coin's name for account labels and ledger currency columns.
    pub fn label(self) -> (r: Vec<char>)
        ensures
            r@ == coin_label(self),
    {
        match self {
            Coin::DOT => chars_of("DOT2"),
            _ => self.symbol(),
        }
    }
}

/// The closed set of settlement currencies used for output defaults.
#[derive(Debug, Clone, Copy, PartialEq, Eq, Structural)]
pub enum Currency {
    USD,
    GBP,
    EUR,
}

/// Which strings name which settlement currency, case-insensitively.
pub open spec fn currency_of(s: Seq<char>) -> Option<Currency> {
    let l = lower(s);
    if l == "usd"@ {
        Some(Currency::USD)
    } else if l == "gbp"@ {
        Some(Currency::GBP)
    } else if l == "eur"@ {
        Some(Currency::EUR)
    } else {
        None
    }
}

/// The upper-case name of a settlement currency, as serialized.
pub open spec fn currency_symbol(c: Currency) -> Seq<char> {
    match c {
        Currency::USD => "USD"@,
        Currency::GBP => "GBP"@,
        Currency::EUR => "EUR"@,
    }
}

impl Currency {
    /// Parse a settlement-currency string; anything outside the closed set
    /// is a hard error naming the offending string.
    pub fn from_str(s: &Vec<char>) -> (r: Result<Currency, Error>)
        ensures
            match r {
                Ok(c) => currency_of(s@) == Some(c),
                Err(e) => currency_of(s@) is None && e@ == ErrorV::InvalidCurrency(s@),
            },
    {
        let l = lower_exec(s);
        if eq_lit(&l, "usd") {
            Ok(Currency::USD)
        } else if eq_lit(&l, "gbp") {
            Ok(Currency::GBP)
        } else if eq_lit(&l, "eur") {
            Ok(Currency::EUR)
        } else {
            Err(Error::InvalidCurrency(s.clone()))
        }
    }

    /// The currency's name for output columns.
    pub fn symbol(self) -> (r: Vec<char>)
        ensures
            r@ == currency_symbol(self),
    {
        match self {
            Currency::USD => chars_of("USD"),
            Currency::GBP => chars_of("GBP"),
            Currency::EUR => chars_of("EUR"),
        }
    }
}

/// A fiscal quarter of a calendar year, or the whole year.
#[derive(Debug, Clone, Copy, PartialEq, Eq, Structural)]
pub enum Quarter {
    Q1,
    Q2,
    Q3,
    Q4,
    ALL,
}

/// Which strings select which quarter: a quarter name, its ordinal digit,
/// or "all", case-insensitively.
pub open spec fn quarter_of(s: Seq<char>) -> Option<Quarter> {
    let l = lower(s);
    if l == "q1"@ || l == "1"@ {
        Some(Quarter::Q1)
    } else if l == "q2"@ || l == "2"@ {
        Some(Quarter::Q2)
    } else if l == "q3"@ || l == "3"@ {
        Some(Quarter::Q3)
    } else if l == "q4"@ || l == "4"@ {
        Some(Quarter::Q4)
    } else if l == "all"@ {
        Some(Quarter::ALL)
    } else {
        None
    }
}

impl Quarter {
    /// Parse a quarter selector; anything else is a configuration error.
    pub fn from_str(s: &Vec<char>) -> (r: Result<Quarter, Error>)
        ensures
            match r {
                Ok(q) => quarter_of(s@) == Some(q),
                Err(e) => quarter_of(s@) is None && e@ == ErrorV::InvalidQuarter(s@),
            },
    {
        let l = lower_exec(s);
        if eq_lit(&l, "q1") || eq_lit(&l, "1") {
            Ok(Quarter::Q1)
        } else if eq_lit(&l, "q2") || eq_lit(&l, "2") {
            Ok(Quarter::Q2)
        } else if eq_lit(&l, "q3") || eq_lit(&l, "3") {
            Ok(Quarter::Q3)
        } else if eq_lit(&l, "q4") || eq_lit(&l, "4") {
            Ok(Quarter::Q4)
        } else if eq_lit(&l, "all") {
            Ok(Quarter::ALL)
        } else {
            Err(Error::InvalidQuarter(s.clone()))
        }
    }
}

/// Which source exporter's schema the input follows.
#[derive(Debug, Clone, Copy, PartialEq, Eq, Structural)]
pub enum InputFormat {
    Subscan,
    Kraken,
    StakeTax,
}

/// Which strings select which input schema, case-insensitively.
pub open spec fn input_format_of(s: Seq<char>) -> Option<InputFormat> {
    let l = lower(s);
    if l == "subscan"@ {
        Some(InputFormat::Subscan)
    } else if l == "kraken"@ {
        Some(InputFormat::Kraken)
    } else if l == "staketax"@ {
        Some(InputFormat::StakeTax)
    } else {
        None
    }
}

impl InputFormat {
    /// Parse an input-format name.
    pub fn from_str(s: &Vec<char>) -> (r: Result<InputFormat, Error>)
        ensures
            match r {
                Ok(f) => input_format_of(s@) == Some(f),
                Err(e) => input_format_of(s@) is None && e@ == ErrorV::InvalidInputFormat(s@),
            },
    {
        let l = lower_exec(s);
        if eq_lit(&l, "subscan") {
            Ok(InputFormat::Subscan)
        } else if eq_lit(&l, "kraken") {
            Ok(InputFormat::Kraken)
        } else if eq_lit(&l, "staketax") {
            Ok(InputFormat::StakeTax)
        } else {
            Err(Error::InvalidInputFormat(s.clone()))
        }
    }
}

/// Which destination tax tool's schema the output follows.
#[derive(Debug, Clone, Copy, PartialEq, Eq, Structural)]
pub enum OutputFormat {
    BitcoinTax,
    CoinTracking,
}

/// Which strings select which output schema, case-insensitively.
pub open spec fn output_format_of(s: Seq<char>) -> Option<OutputFormat> {
    let l = lower(s);
    if l == "bitcointax"@ || l == "bitcoin.tax"@ {
        Some(OutputFormat::BitcoinTax)
    } else if l == "cointracking"@ || l == "coin tracking"@ {
        Some(OutputFormat::CoinTracking)
    } else {
        None
    }
}

impl OutputFormat {
    /// Parse an output-format name.
    pub fn from_str(s: &Vec<char>) -> (r: Result<OutputFormat, Error>)
        ensures
            match r {
                Ok(f) => output_format_of(s@) == Some(f),
                Err(e) => output_format_of(s@) is None && e@ == ErrorV::InvalidOutputFormat(s@),
            },
    {
        let l = lower_exec(s);
        if eq_lit(&l, "bitcointax") || eq_lit(&l, "bitcoin.tax") {
            Ok(OutputFormat::BitcoinTax)
        } else if eq_lit(&l, "cointracking") || eq_lit(&l, "coin tracking") {
            Ok(OutputFormat::CoinTracking)
        } else {
            Err(Error::InvalidOutputFormat(s.clone()))
        }
    }
}

} // verus!
