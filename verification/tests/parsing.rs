use taxmat::csv::{parse_csv, write_csv, LineEnding};
use taxmat::error::Error;
use taxmat::formats::{Coin, Currency, InputFormat, OutputFormat, Quarter};
use taxmat::numeric::{bool_from_string, is_float_str_exec, parse_u64};
use taxmat::timestamp::{format_timestamp, parse_timestamp, ts_le_exec, Timestamp};

fn chars(s: &str) -> Vec<char> {
    s.chars().collect()
}

fn text(v: &[char]) -> String {
    v.iter().collect()
}

#[test]
fn coin_aliases_parse_case_insensitively() {
    assert_eq!(Coin::from_str(&chars("dot")), Ok(Coin::DOT));
    assert_eq!(Coin::from_str(&chars("DOT.S")), Ok(Coin::DOT));
    assert_eq!(Coin::from_str(&chars("Ksm")), Ok(Coin::KSM));
    assert_eq!(Coin::from_str(&chars("eth2")), Ok(Coin::ETH));
    assert_eq!(Coin::from_str(&chars("ETH2.S")), Ok(Coin::ETH));
    assert_eq!(Coin::from_str(&chars("atom.s")), Ok(Coin::ATOM));
    assert_eq!(Coin::from_str(&chars("sol")), Ok(Coin::SOL));
    assert_eq!(Coin::from_str(&chars("KAVA")), Ok(Coin::KAVA));
    assert_eq!(Coin::from_str(&chars("ada")), Ok(Coin::ADA));
    assert_eq!(Coin::from_str(&chars("xtz.s")), Ok(Coin::XTZ));
}

#[test]
fn unknown_coin_is_an_error_naming_the_string() {
    assert_eq!(
        Coin::from_str(&chars("doge")),
        Err(Error::InvalidCoin(chars("doge")))
    );
    assert_eq!(
        Coin::from_str(&chars("")),
        Err(Error::InvalidCoin(chars("")))
    );
}

#[test]
fn coin_symbol_and_label() {
    assert_eq!(text(&Coin::DOT.symbol()), "DOT");
    assert_eq!(text(&Coin::DOT.label()), "DOT2");
    assert_eq!(text(&Coin::KSM.symbol()), "KSM");
    assert_eq!(text(&Coin::KSM.label()), "KSM");
}

#[test]
fn currency_parses_and_rejects() {
    assert_eq!(Currency::from_str(&chars("usd")), Ok(Currency::USD));
    assert_eq!(Currency::from_str(&chars("GBP")), Ok(Currency::GBP));
    assert_eq!(Currency::from_str(&chars("Eur")), Ok(Currency::EUR));
    assert_eq!(
        Currency::from_str(&chars("yen")),
        Err(Error::InvalidCurrency(chars("yen")))
    );
}

#[test]
fn quarter_parses_names_digits_and_all() {
    assert_eq!(Quarter::from_str(&chars("Q1")), Ok(Quarter::Q1));
    assert_eq!(Quarter::from_str(&chars("q3")), Ok(Quarter::Q3));
    assert_eq!(Quarter::from_str(&chars("2")), Ok(Quarter::Q2));
    assert_eq!(Quarter::from_str(&chars("4")), Ok(Quarter::Q4));
    assert_eq!(Quarter::from_str(&chars("ALL")), Ok(Quarter::ALL));
    assert_eq!(
        Quarter::from_str(&chars("q5")),
        Err(Error::InvalidQuarter(chars("q5")))
    );
}

#[test]
fn format_names_parse() {
    assert_eq!(
        InputFormat::from_str(&chars("Subscan")),
        Ok(InputFormat::Subscan)
    );
    assert_eq!(
        InputFormat::from_str(&chars("kraken")),
        Ok(InputFormat::Kraken)
    );
    assert_eq!(
        InputFormat::from_str(&chars("StakeTax")),
        Ok(InputFormat::StakeTax)
    );
    assert_eq!(
        InputFormat::from_str(&chars("csv")),
        Err(Error::InvalidInputFormat(chars("csv")))
    );
    assert_eq!(
        OutputFormat::from_str(&chars("bitcointax")),
        Ok(OutputFormat::BitcoinTax)
    );
    assert_eq!(
        OutputFormat::from_str(&chars("Bitcoin.Tax")),
        Ok(OutputFormat::BitcoinTax)
    );
    assert_eq!(
        OutputFormat::from_str(&chars("cointracking")),
        Ok(OutputFormat::CoinTracking)
    );
    assert_eq!(
        OutputFormat::from_str(&chars("coin tracking")),
        Ok(OutputFormat::CoinTracking)
    );
    assert_eq!(
        OutputFormat::from_str(&chars("ledger")),
        Err(Error::InvalidOutputFormat(chars("ledger")))
    );
}

#[test]
fn timestamp_round_trips_exactly() {
    let t = parse_timestamp(&chars("2021-03-05 12:34:56")).unwrap();
    assert_eq!(
        t,
        Timestamp { year: 2021, month: 3, day: 5, hour: 12, minute: 34, second: 56 }
    );
    assert_eq!(text(&format_timestamp(&t)), "2021-03-05 12:34:56");
    let again = parse_timestamp(&format_timestamp(&t)).unwrap();
    assert_eq!(again, t);
}

#[test]
fn timestamp_shape_is_fixed() {
    assert!(parse_timestamp(&chars("2021-3-05 12:34:56")).is_none());
    assert!(parse_timestamp(&chars("2021-03-05T12:34:56")).is_none());
    assert!(parse_timestamp(&chars("2021-03-05 12:34:5")).is_none());
    assert!(parse_timestamp(&chars("2021-03-05 12:34:56 ")).is_none());
    assert!(parse_timestamp(&chars("2021-13-05 12:34:56")).is_none());
    assert!(parse_timestamp(&chars("2021-04-31 12:34:56")).is_none());
    assert!(parse_timestamp(&chars("2021-03-05 24:00:00")).is_none());
    assert!(parse_timestamp(&chars("2021-03-05 12:60:00")).is_none());
    assert!(parse_timestamp(&chars("2021-03-05 12:00:60")).is_none());
}

#[test]
fn timestamp_order_is_chronological() {
    let a = parse_timestamp(&chars("2021-03-05 12:34:56")).unwrap();
    let b = parse_timestamp(&chars("2021-03-05 12:34:57")).unwrap();
    let c = parse_timestamp(&chars("2022-01-01 00:00:00")).unwrap();
    assert!(ts_le_exec(&a, &a));
    assert!(ts_le_exec(&a, &b));
    assert!(!ts_le_exec(&b, &a));
    assert!(ts_le_exec(&b, &c));
}

#[test]
fn float_syntax_follows_the_standard_grammar() {
    for good in [
        "0", "5", "5.0", "5.", ".5", "-5.25", "+1", "1e5", "1.5e-3", "2E+7", "inf", "-INF",
        "Infinity", "nan", "NaN",
    ] {
        assert!(is_float_str_exec(&chars(good)), "{good}");
    }
    for bad in ["", "-", ".", "5..0", "1.5.0", "e5", "5e", "5e+", "abc", "5 ", "0x1"] {
        assert!(!is_float_str_exec(&chars(bad)), "{bad}");
    }
}

#[test]
fn unsigned_decimals_parse_exactly() {
    assert_eq!(parse_u64(&chars("0")), Some(0));
    assert_eq!(parse_u64(&chars("12345678901234567890")), Some(12345678901234567890));
    assert_eq!(parse_u64(&chars("123456789012345678901")), None);
    assert_eq!(parse_u64(&chars("18446744073709551615")), Some(u64::MAX));
    assert_eq!(parse_u64(&chars("18446744073709551616")), None);
    assert_eq!(parse_u64(&chars("+7")), Some(7));
    assert_eq!(parse_u64(&chars("")), None);
    assert_eq!(parse_u64(&chars("-7")), None);
    assert_eq!(parse_u64(&chars("1 2")), None);
}

#[test]
fn boolean_fields_parse_with_empty_as_false() {
    assert_eq!(bool_from_string(&chars("true")), Ok(true));
    assert_eq!(bool_from_string(&chars("TRUE")), Ok(true));
    assert_eq!(bool_from_string(&chars("false")), Ok(false));
    assert_eq!(bool_from_string(&chars("")), Ok(false));
    assert_eq!(
        bool_from_string(&chars("maybe")),
        Err(Error::BadBool(chars("maybe")))
    );
}

#[test]
fn csv_reader_handles_quotes_separators_and_endings() {
    let rows = parse_csv(&chars("a,b\n\"c,d\",\"e\"\"f\"\r\ng,\n")).unwrap();
    let as_text: Vec<Vec<String>> = rows
        .iter()
        .map(|r| r.iter().map(|f| text(f)).collect())
        .collect();
    assert_eq!(
        as_text,
        vec![
            vec!["a".to_string(), "b".to_string()],
            vec!["c,d".to_string(), "e\"f".to_string()],
            vec!["g".to_string(), "".to_string()],
        ]
    );
}

#[test]
fn csv_reader_skips_empty_lines_and_reads_final_record() {
    let rows = parse_csv(&chars("a,b\n\nc,d")).unwrap();
    assert_eq!(rows.len(), 2);
    assert_eq!(text(&rows[1][0]), "c");
    assert_eq!(text(&rows[1][1]), "d");
}

#[test]
fn csv_reader_supports_newlines_inside_quotes() {
    let rows = parse_csv(&chars("\"a\nb\",c\n")).unwrap();
    assert_eq!(rows.len(), 1);
    assert_eq!(text(&rows[0][0]), "a\nb");
}

#[test]
fn csv_reader_rejects_malformed_text() {
    assert_eq!(parse_csv(&chars("a\"b,c\n")), Err(Error::CsvSyntax));
    assert_eq!(parse_csv(&chars("\"ab\"x,c\n")), Err(Error::CsvSyntax));
    assert_eq!(parse_csv(&chars("\"ab\n")), Err(Error::CsvSyntax));
    assert_eq!(parse_csv(&chars("a,b\rc,d\n")), Err(Error::CsvSyntax));
}

#[test]
fn csv_writer_quotes_exactly_what_needs_it() {
    let rows: Vec<Vec<Vec<char>>> = vec![
        vec![chars("plain"), chars("with space")],
        vec![chars("a,b"), chars("q\"q"), chars("l\nl"), chars("")],
    ];
    let out = text(&write_csv(&rows, LineEnding::Lf));
    assert_eq!(out, "plain,with space\n\"a,b\",\"q\"\"q\",\"l\nl\",\n");
    let out_crlf = text(&write_csv(&vec![vec![chars("x")]], LineEnding::CrLf));
    assert_eq!(out_crlf, "x\r\n");
}
