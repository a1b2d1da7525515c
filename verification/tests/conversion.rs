use taxmat::error::Error;
use taxmat::formats::{Coin, InputFormat, OutputFormat, Quarter};
use taxmat::pipeline::convert;
use taxmat::range::get_date_range;
use taxmat::timestamp::Timestamp;

fn chars(s: &str) -> Vec<char> {
    s.chars().collect()
}

fn text(v: &[char]) -> String {
    v.iter().collect()
}

fn run(
    input: &str,
    f: InputFormat,
    o: OutputFormat,
    coin: Coin,
    year: i32,
    quarter: Quarter,
) -> Result<String, Error> {
    let (start, end) = get_date_range(Some(year), quarter).unwrap();
    convert(&chars(input), f, o, coin, start, end).map(|v| text(&v))
}

const SUBSCAN_HEADER: &str = "Event Index,Date,Block,Extrinsic Index,Value,Action";
const KRAKEN_HEADER: &str = "txid,refid,time,type,aclass,asset,amount,fee";
const STAKETAX_HEADER: &str = "timestamp,tx_type,taxable,received_amount,received_currency,sent_amount,sent_currency,fee,fee_currency,comment,txid,url,exchange,wallet_address";

#[test]
fn parse_subscan_to_bitcointax() {
    let input = format!(
        "{}\n1234-5,2021-02-10 08:00:00,1234,1234-2,1.5,Reward\n",
        SUBSCAN_HEADER
    );
    let out = run(
        &input,
        InputFormat::Subscan,
        OutputFormat::BitcoinTax,
        Coin::DOT,
        2021,
        Quarter::Q1,
    )
    .unwrap();
    assert_eq!(
        out,
        "Date,Action,Account,Symbol,Volume\n2021-02-10 08:00:00,INCOME,DOT2 STAKING,DOT,1.5\n"
    );
}

#[test]
fn parse_kraken_to_bitcointax() {
    let input = format!(
        "{}\nTX1,REF1,2021-05-02 10:30:00,staking,currency,DOT.S,2.25,0.0\n",
        KRAKEN_HEADER
    );
    let out = run(
        &input,
        InputFormat::Kraken,
        OutputFormat::BitcoinTax,
        Coin::DOT,
        2021,
        Quarter::Q2,
    )
    .unwrap();
    assert_eq!(
        out,
        "Date,Action,Account,Symbol,Volume\n2021-05-02 10:30:00,INCOME,DOT2 STAKING,DOT,2.25\n"
    );
}

#[test]
fn window_boundaries_are_inclusive() {
    let input = format!(
        "{}\n\
         a,2020-12-31 23:59:59,1,x,1.0,Reward\n\
         b,2021-01-01 00:00:00,2,x,2.0,Reward\n\
         c,2021-02-15 12:00:00,3,x,3.0,Reward\n\
         d,2021-03-31 23:59:59,4,x,4.0,Reward\n\
         e,2021-04-01 00:00:00,5,x,5.0,Reward\n",
        SUBSCAN_HEADER
    );
    let out = run(
        &input,
        InputFormat::Subscan,
        OutputFormat::BitcoinTax,
        Coin::KSM,
        2021,
        Quarter::Q1,
    )
    .unwrap();
    let lines: Vec<&str> = out.lines().collect();
    assert_eq!(lines.len(), 4);
    assert_eq!(lines[1], "2021-01-01 00:00:00,INCOME,KSM STAKING,KSM,2.0");
    assert_eq!(lines[2], "2021-02-15 12:00:00,INCOME,KSM STAKING,KSM,3.0");
    assert_eq!(lines[3], "2021-03-31 23:59:59,INCOME,KSM STAKING,KSM,4.0");
}

#[test]
fn kraken_staking_row_maps_symbol_and_account() {
    let input = format!(
        "{}\nT1,R1,2021-06-05 00:00:00,staking,currency,dot,1.0,0.0\n\
         T2,R2,2021-06-06 00:00:00,trade,currency,dot,9.9,0.0\n",
        KRAKEN_HEADER
    );
    let out = run(
        &input,
        InputFormat::Kraken,
        OutputFormat::BitcoinTax,
        Coin::ETH,
        2021,
        Quarter::ALL,
    )
    .unwrap();
    // one accepted row; the symbol column carries DOT, the account label the
    // schema's "DOT2" quirk; the trade row is filtered, not an error
    assert_eq!(
        out,
        "Date,Action,Account,Symbol,Volume\n2021-06-05 00:00:00,INCOME,DOT2 STAKING,DOT,1.0\n"
    );
}

#[test]
fn kraken_label_filter_is_case_sensitive() {
    let input = format!(
        "{}\nT1,R1,2021-06-05 00:00:00,Staking,currency,dot,1.0,0.0\n",
        KRAKEN_HEADER
    );
    let out = run(
        &input,
        InputFormat::Kraken,
        OutputFormat::BitcoinTax,
        Coin::DOT,
        2021,
        Quarter::ALL,
    )
    .unwrap();
    assert_eq!(out, "Date,Action,Account,Symbol,Volume\n");
}

#[test]
fn staketax_staking_row_in_window_appears() {
    let input = format!(
        "{}\n2021-07-01 00:00:00,STAKING,true,5.0,DOT,,,,,note,tx,url,ex,addr\n",
        STAKETAX_HEADER
    );
    let out = run(
        &input,
        InputFormat::StakeTax,
        OutputFormat::BitcoinTax,
        Coin::DOT,
        2021,
        Quarter::Q3,
    )
    .unwrap();
    // aggregator-style output ends records with CRLF
    assert_eq!(
        out,
        "Date,Action,Account,Symbol,Volume\r\n2021-07-01 00:00:00,INCOME,DOT2 STAKING,DOT,5.0\r\n"
    );
}

#[test]
fn staketax_unstaking_row_never_appears() {
    let input = format!(
        "{}\n2021-07-01 00:00:00,UNSTAKING,true,5.0,DOT,,,,,note,tx,url,ex,addr\n",
        STAKETAX_HEADER
    );
    let out = run(
        &input,
        InputFormat::StakeTax,
        OutputFormat::BitcoinTax,
        Coin::DOT,
        2021,
        Quarter::ALL,
    )
    .unwrap();
    assert_eq!(out, "Date,Action,Account,Symbol,Volume\r\n");
}

#[test]
fn staketax_missing_received_amount_counts_zero() {
    let input = format!(
        "{}\n2021-07-01 00:00:00,STAKING,,,DOT,,,,,,tx,url,ex,addr\n",
        STAKETAX_HEADER
    );
    let out = run(
        &input,
        InputFormat::StakeTax,
        OutputFormat::BitcoinTax,
        Coin::DOT,
        2021,
        Quarter::ALL,
    )
    .unwrap();
    assert_eq!(
        out,
        "Date,Action,Account,Symbol,Volume\r\n2021-07-01 00:00:00,INCOME,DOT2 STAKING,DOT,0.0\r\n"
    );
}

#[test]
fn subscan_to_cointracking_ledger_row() {
    let input = format!(
        "{}\n1,2021-02-10 08:00:00,10,x,1.5,Reward\n",
        SUBSCAN_HEADER
    );
    let out = run(
        &input,
        InputFormat::Subscan,
        OutputFormat::CoinTracking,
        Coin::DOT,
        2021,
        Quarter::ALL,
    )
    .unwrap();
    let expected_header = "Type,Buy Amount,Buy Currency,Sell Amount,Sell Currency,Fee,\
                           Fee Currency,Exchange,Trade-Group,Comment,Date,Tx-ID,\
                           Buy Value in Account Currency";
    let expected_row =
        "Income,1.5,DOT2,0.0,USD,0.0,USD,,Polkadot Staking,Self-Staking,2021-02-10 08:00:00,,0.0";
    assert_eq!(out, format!("{}\n{}\n", expected_header, expected_row));
}

#[test]
fn cointracking_unsupported_for_kraken_input() {
    let input = format!(
        "{}\nT1,R1,2021-06-05 00:00:00,staking,currency,dot,1.0,0.0\n",
        KRAKEN_HEADER
    );
    let r = run(
        &input,
        InputFormat::Kraken,
        OutputFormat::CoinTracking,
        Coin::DOT,
        2021,
        Quarter::ALL,
    );
    assert_eq!(r, Err(Error::UnsupportedCombination));
}

#[test]
fn cointracking_unsupported_detected_only_at_accepted_row() {
    // every row is filtered out, so the unsupported combination never trips
    let input = format!(
        "{}\nT1,R1,2021-06-05 00:00:00,trade,currency,dot,1.0,0.0\n",
        KRAKEN_HEADER
    );
    let out = run(
        &input,
        InputFormat::Kraken,
        OutputFormat::CoinTracking,
        Coin::DOT,
        2021,
        Quarter::ALL,
    )
    .unwrap();
    assert!(out.starts_with("Type,Buy Amount,"));
}

#[test]
fn unknown_asset_fails_the_run() {
    let input = format!(
        "{}\nT1,R1,2021-06-05 00:00:00,staking,currency,doge,1.0,0.0\n",
        KRAKEN_HEADER
    );
    let r = run(
        &input,
        InputFormat::Kraken,
        OutputFormat::BitcoinTax,
        Coin::DOT,
        2021,
        Quarter::ALL,
    );
    assert_eq!(r, Err(Error::InvalidCoin(chars("doge"))));
}

#[test]
fn unknown_asset_outside_window_is_filtered_not_checked() {
    let input = format!(
        "{}\nT1,R1,2019-06-05 00:00:00,staking,currency,doge,1.0,0.0\n",
        KRAKEN_HEADER
    );
    let out = run(
        &input,
        InputFormat::Kraken,
        OutputFormat::BitcoinTax,
        Coin::DOT,
        2021,
        Quarter::ALL,
    )
    .unwrap();
    assert_eq!(out, "Date,Action,Account,Symbol,Volume\n");
}

#[test]
fn conversion_is_deterministic() {
    let input = format!(
        "{}\n1,2021-02-10 08:00:00,10,x,1.5,Reward\n2,2021-03-01 09:00:00,11,y,2.5,Reward\n",
        SUBSCAN_HEADER
    );
    let a = run(
        &input,
        InputFormat::Subscan,
        OutputFormat::BitcoinTax,
        Coin::DOT,
        2021,
        Quarter::ALL,
    )
    .unwrap();
    let b = run(
        &input,
        InputFormat::Subscan,
        OutputFormat::BitcoinTax,
        Coin::DOT,
        2021,
        Quarter::ALL,
    )
    .unwrap();
    assert_eq!(a, b);
}

#[test]
fn header_only_input_yields_header_only_output() {
    let out = run(
        &format!("{}\n", SUBSCAN_HEADER),
        InputFormat::Subscan,
        OutputFormat::BitcoinTax,
        Coin::DOT,
        2021,
        Quarter::ALL,
    )
    .unwrap();
    assert_eq!(out, "Date,Action,Account,Symbol,Volume\n");
}

#[test]
fn empty_input_yields_header_only_output() {
    let out = run(
        "",
        InputFormat::Subscan,
        OutputFormat::BitcoinTax,
        Coin::DOT,
        2021,
        Quarter::ALL,
    )
    .unwrap();
    assert_eq!(out, "Date,Action,Account,Symbol,Volume\n");
}

#[test]
fn malformed_timestamp_fails_even_out_of_window() {
    let input = format!("{}\n1,2021/02/10 08:00:00,10,x,1.5,Reward\n", SUBSCAN_HEADER);
    let r = run(
        &input,
        InputFormat::Subscan,
        OutputFormat::BitcoinTax,
        Coin::DOT,
        2021,
        Quarter::ALL,
    );
    assert_eq!(r, Err(Error::BadTimestamp(chars("2021/02/10 08:00:00"))));
}

#[test]
fn bad_block_number_fails_the_run() {
    let input = format!("{}\n1,2021-02-10 08:00:00,10a,x,1.5,Reward\n", SUBSCAN_HEADER);
    let r = run(
        &input,
        InputFormat::Subscan,
        OutputFormat::BitcoinTax,
        Coin::DOT,
        2021,
        Quarter::ALL,
    );
    assert_eq!(r, Err(Error::BadNumber(chars("10a"))));
}

#[test]
fn bad_amount_fails_the_run() {
    let input = format!("{}\n1,2021-02-10 08:00:00,10,x,1.5.0,Reward\n", SUBSCAN_HEADER);
    let r = run(
        &input,
        InputFormat::Subscan,
        OutputFormat::BitcoinTax,
        Coin::DOT,
        2021,
        Quarter::ALL,
    );
    assert_eq!(r, Err(Error::BadNumber(chars("1.5.0"))));
}

#[test]
fn bad_taxable_flag_fails_the_run() {
    let input = format!(
        "{}\n2021-07-01 00:00:00,STAKING,maybe,5.0,DOT,,,,,,tx,url,ex,addr\n",
        STAKETAX_HEADER
    );
    let r = run(
        &input,
        InputFormat::StakeTax,
        OutputFormat::BitcoinTax,
        Coin::DOT,
        2021,
        Quarter::ALL,
    );
    assert_eq!(r, Err(Error::BadBool(chars("maybe"))));
}

#[test]
fn short_row_fails_the_run() {
    let input = format!("{}\n1,2021-02-10 08:00:00,10,x,1.5\n", SUBSCAN_HEADER);
    let r = run(
        &input,
        InputFormat::Subscan,
        OutputFormat::BitcoinTax,
        Coin::DOT,
        2021,
        Quarter::ALL,
    );
    assert_eq!(r, Err(Error::RowLength));
}

#[test]
fn missing_column_fails_the_run() {
    let input = "Event Index,Date,Block,Extrinsic Index,Action\n1,2021-02-10 08:00:00,10,x,Reward\n";
    let r = run(
        input,
        InputFormat::Subscan,
        OutputFormat::BitcoinTax,
        Coin::DOT,
        2021,
        Quarter::ALL,
    );
    assert_eq!(r, Err(Error::MissingColumn(chars("Value"))));
}

#[test]
fn malformed_quoting_fails_the_run() {
    let input = format!("{}\n1,2021-02-10 08:00:00,10,x\"y,1.5,Reward\n", SUBSCAN_HEADER);
    let r = run(
        &input,
        InputFormat::Subscan,
        OutputFormat::BitcoinTax,
        Coin::DOT,
        2021,
        Quarter::ALL,
    );
    assert_eq!(r, Err(Error::CsvSyntax));
}

#[test]
fn quoted_fields_and_crlf_input_are_read() {
    let input = format!(
        "{}\r\n\"1\",2021-02-10 08:00:00,10,\"x,y\",1.5,\"Re\"\"ward\"\r\n",
        SUBSCAN_HEADER
    );
    let out = run(
        &input,
        InputFormat::Subscan,
        OutputFormat::BitcoinTax,
        Coin::DOT,
        2021,
        Quarter::ALL,
    )
    .unwrap();
    assert_eq!(
        out,
        "Date,Action,Account,Symbol,Volume\n2021-02-10 08:00:00,INCOME,DOT2 STAKING,DOT,1.5\n"
    );
}

#[test]
fn leap_day_timestamp_is_valid_only_in_leap_years() {
    let good = format!("{}\n1,2020-02-29 00:00:00,10,x,1.0,Reward\n", SUBSCAN_HEADER);
    let out = run(
        &good,
        InputFormat::Subscan,
        OutputFormat::BitcoinTax,
        Coin::DOT,
        2020,
        Quarter::ALL,
    )
    .unwrap();
    assert!(out.contains("2020-02-29 00:00:00"));
    let bad = format!("{}\n1,2021-02-29 00:00:00,10,x,1.0,Reward\n", SUBSCAN_HEADER);
    let r = run(
        &bad,
        InputFormat::Subscan,
        OutputFormat::BitcoinTax,
        Coin::DOT,
        2021,
        Quarter::ALL,
    );
    assert_eq!(r, Err(Error::BadTimestamp(chars("2021-02-29 00:00:00"))));
}

#[test]
fn quarter_windows_are_exact() {
    let (s1, e1) = get_date_range(Some(2021), Quarter::Q1).unwrap();
    assert_eq!(
        (s1, e1),
        (
            Timestamp { year: 2021, month: 1, day: 1, hour: 0, minute: 0, second: 0 },
            Timestamp { year: 2021, month: 3, day: 31, hour: 23, minute: 59, second: 59 },
        )
    );
    let (s4, e4) = get_date_range(Some(2021), Quarter::Q4).unwrap();
    assert_eq!(
        (s4, e4),
        (
            Timestamp { year: 2021, month: 10, day: 1, hour: 0, minute: 0, second: 0 },
            Timestamp { year: 2021, month: 12, day: 31, hour: 23, minute: 59, second: 59 },
        )
    );
    let (sa, ea) = get_date_range(Some(2021), Quarter::ALL).unwrap();
    assert_eq!(
        (sa, ea),
        (
            Timestamp { year: 2021, month: 1, day: 1, hour: 0, minute: 0, second: 0 },
            Timestamp { year: 2021, month: 12, day: 31, hour: 23, minute: 59, second: 59 },
        )
    );
}

#[test]
fn unrepresentable_year_is_a_configuration_error() {
    assert_eq!(
        get_date_range(Some(-1), Quarter::Q1),
        Err(Error::InvalidDateRange)
    );
    assert_eq!(
        get_date_range(Some(10000), Quarter::ALL),
        Err(Error::InvalidDateRange)
    );
}

#[test]
fn default_year_resolves_to_some_window() {
    let (start, end) = get_date_range(None, Quarter::Q2).unwrap();
    assert_eq!((start.month, start.day), (4, 1));
    assert_eq!((end.month, end.day), (6, 30));
    assert_eq!(start.year, end.year);
}
