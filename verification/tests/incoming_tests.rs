use twsapi::common::{FaDataType, TickType, UNSET_INTEGER};
use twsapi::incoming::{
    process_account_summary, process_current_time, process_error_message, process_family_codes,
    process_historical_news_end, process_news_providers, process_next_valid_id, process_receive_fa,
    process_smart_components, process_soft_dollar_tiers, process_tick_news, process_tick_size,
    process_tick_string, process_verify_completed, read_last_trade_date, split_words,
    process_tick_by_tick, TickByTick, process_historical_ticks, process_historical_ticks_bid_ask,
    process_historical_ticks_last, process_tick_generic, process_real_time_bars, process_market_depth,
    process_tick_req_params, process_historical_data_update, process_delta_neutral_validation,
    process_tick_efp, process_histogram_data,
};

fn fields(v: &[&str]) -> Vec<String> {
    v.iter().map(|s| s.to_string()).collect()
}

#[test]
fn account_summary_reads_after_id_and_version() {
    let f = fields(&["63", "1", "7", "DU123", "NetLiquidation", "1000.5", "USD"]);
    let (req_id, account, tag, value, currency) = process_account_summary(&f).unwrap();
    assert_eq!(req_id, 7);
    assert_eq!((account.as_str(), tag.as_str(), value.as_str(), currency.as_str()), ("DU123", "NetLiquidation", "1000.5", "USD"));
}

#[test]
fn tick_messages_name_their_tick_type() {
    let f = fields(&["46", "6", "3", "45", "1566301612"]);
    let (ticker, tick_type, value) = process_tick_string(&f).unwrap();
    assert_eq!(ticker, 3);
    assert!(matches!(tick_type, TickType::LastTimestamp));
    assert_eq!(value, "1566301612");
    let f = fields(&["2", "6", "9", "8", "250"]);
    let (ticker, tick_type, size) = process_tick_size(&f).unwrap();
    assert_eq!((ticker, size), (9, 250));
    assert!(matches!(tick_type, TickType::Volume));
}

#[test]
fn numbers_that_do_not_parse_read_as_zero() {
    let f = fields(&["4", "2", "-1", "abc", "Not connected"]);
    let (req_id, code, text) = process_error_message(&f).unwrap();
    assert_eq!((req_id, code, text.as_str()), (-1, 0, "Not connected"));
    let f = fields(&["49", "1", "1588000000"]);
    assert_eq!(process_current_time(&f).unwrap(), 1588000000i64);
    let f = fields(&["9", "1", "12"]);
    assert_eq!(process_next_valid_id(&f).unwrap(), 12);
    assert_ne!(process_next_valid_id(&f).unwrap(), UNSET_INTEGER);
}

#[test]
fn receive_fa_names_the_data_type() {
    let f = fields(&["16", "1", "2", "<xml/>"]);
    let (kind, xml) = process_receive_fa(&f).unwrap();
    assert!(matches!(kind, FaDataType::PROFILES));
    assert_eq!(xml, "<xml/>");
}

#[test]
fn tick_news_has_no_version_field() {
    let f = fields(&["84", "5", "1580000000", "BRFG", "BRFG$1", "Headline", "extra"]);
    let (ticker, time, provider, article, headline, extra) = process_tick_news(&f).unwrap();
    assert_eq!((ticker, time), (5, 1580000000));
    assert_eq!((provider.as_str(), article.as_str(), headline.as_str(), extra.as_str()), ("BRFG", "BRFG$1", "Headline", "extra"));
}

#[test]
fn historical_news_end_without_flag_reads_false() {
    let f = fields(&["87", "11"]);
    assert_eq!(process_historical_news_end(&f).unwrap(), (11, false));
    let f = fields(&["87", "11", "1"]);
    assert_eq!(process_historical_news_end(&f).unwrap(), (11, true));
}

#[test]
fn verify_completed_succeeds_only_on_true() {
    let f = fields(&["66", "1", "ignored", "true", ""]);
    assert_eq!(process_verify_completed(&f).unwrap(), (true, "".to_string()));
    let f = fields(&["66", "1", "ignored", "True", "bad"]);
    assert_eq!(process_verify_completed(&f).unwrap(), (false, "bad".to_string()));
}

#[test]
fn counted_lists_read_each_entry() {
    let f = fields(&["78", "2", "U1", "F1", "U2", "F2"]);
    let codes = process_family_codes(&f).unwrap();
    assert_eq!(codes.len(), 2);
    assert_eq!((codes[1].account_id.as_str(), codes[1].family_code_str.as_str()), ("U2", "F2"));

    let f = fields(&["85", "1", "BZ", "Benzinga"]);
    let providers = process_news_providers(&f).unwrap();
    assert_eq!(providers.len(), 1);
    assert_eq!((providers[0].code.as_str(), providers[0].name.as_str()), ("BZ", "Benzinga"));

    let f = fields(&["82", "4", "2", "1", "ARCA", "P", "2", "NYSE", "N"]);
    let (req_id, comps) = process_smart_components(&f).unwrap();
    assert_eq!((req_id, comps.len()), (4, 2));
    assert_eq!((comps[1].bit_number, comps[1].exchange.as_str(), comps[1].exchange_letter.as_str()), (2, "NYSE", "N"));

    let f = fields(&["77", "3", "1", "Tier", "T1", "Tier One"]);
    let (req_id, tiers) = process_soft_dollar_tiers(&f).unwrap();
    assert_eq!((req_id, tiers.len()), (3, 1));
    assert_eq!(tiers[0].display_name, "Tier One");
}

#[test]
fn negative_count_reads_no_entries() {
    let f = fields(&["78", "-3"]);
    assert_eq!(process_family_codes(&f).unwrap().len(), 0);
}

#[test]
fn words_split_on_any_white_space() {
    assert_eq!(split_words("  20200918 \t09:30:00\u{a0}US/Eastern  "), vec!["20200918", "09:30:00", "US/Eastern"]);
    assert!(split_words("").is_empty());
    assert!(split_words(" \n ").is_empty());
    assert_eq!(split_words("one"), vec!["one"]);
}

#[test]
fn last_trade_date_words() {
    let d = read_last_trade_date(true, "20230616 16:00 US/Eastern");
    assert_eq!(d.maturity.as_deref(), Some("20230616"));
    assert_eq!(d.last_trade_date_or_contract_month, None);
    assert_eq!(d.last_trade_time.as_deref(), Some("16:00"));
    assert_eq!(d.time_zone_id.as_deref(), Some("US/Eastern"));
    let d = read_last_trade_date(false, "20230616 16:00 US/Eastern");
    assert_eq!(d.maturity, None);
    assert_eq!(d.last_trade_date_or_contract_month.as_deref(), Some("20230616"));
    assert_eq!(d.last_trade_time.as_deref(), Some("16:00"));
    assert_eq!(d.time_zone_id, None);
    let d = read_last_trade_date(true, "");
    assert!(d.maturity.is_none() && d.last_trade_time.is_none() && d.time_zone_id.is_none());
    let d = read_last_trade_date(false, "202012");
    assert_eq!((d.last_trade_date_or_contract_month.as_deref(), d.last_trade_time), (Some("202012"), None));
}

#[test]
fn tick_by_tick_kinds() {
    let f = fields(&["99", "7", "2", "1600000000", "101.5", "200", "3", "ISLAND", "T"]);
    match process_tick_by_tick(&f).unwrap() {
        TickByTick::AllLast { req_id, time, price, size, attrib, exchange, special_conditions, .. } => {
            assert_eq!((req_id, time, price.as_str(), size), (7, 1600000000, "101.5", 200));
            assert!(attrib.past_limit && attrib.unreported);
            assert_eq!((exchange.as_str(), special_conditions.as_str()), ("ISLAND", "T"));
        }
        other => panic!("unexpected {:?}", other),
    }
    let f = fields(&["99", "7", "3", "1600000000", "101.5", "101.6", "10", "20", "1"]);
    match process_tick_by_tick(&f).unwrap() {
        TickByTick::BidAsk { bid_price, ask_price, bid_size, ask_size, attrib, .. } => {
            assert_eq!((bid_price.as_str(), ask_price.as_str(), bid_size, ask_size), ("101.5", "101.6", 10, 20));
            assert!(attrib.bid_past_low && !attrib.ask_past_high);
        }
        other => panic!("unexpected {:?}", other),
    }
    let f = fields(&["99", "7", "4", "1600000000", "101.55"]);
    assert!(matches!(process_tick_by_tick(&f).unwrap(), TickByTick::MidPoint { req_id: 7, .. }));
    let f = fields(&["99", "7", "0", "1600000000"]);
    assert!(matches!(process_tick_by_tick(&f).unwrap(), TickByTick::Nothing));
}

#[test]
fn historical_ticks_with_masks() {
    let f = fields(&["96", "5", "1", "1600000000", "x", "10.5", "100", "1"]);
    let (req_id, ticks, done) = process_historical_ticks(&f).unwrap();
    assert_eq!((req_id, ticks.len(), done), (5, 1, true));
    assert_eq!((ticks[0].time, ticks[0].price.as_str(), ticks[0].size), (1600000000, "10.5", 100));

    let f = fields(&["97", "5", "1", "1600000000", "1", "10.5", "10.6", "3", "4"]);
    let (_, ticks, done) = process_historical_ticks_bid_ask(&f).unwrap();
    assert!(!done);
    assert!(ticks[0].attrib.ask_past_high && !ticks[0].attrib.bid_past_low);
    assert_eq!((ticks[0].size_bid, ticks[0].size_ask), (3, 4));

    let f = fields(&["98", "5", "1", "1600000000", "2", "10.5", "7", "NYSE", "", "0"]);
    let (_, ticks, done) = process_historical_ticks_last(&f).unwrap();
    assert!(!done);
    assert!(!ticks[0].attrib.past_limit && ticks[0].attrib.unreported);
    assert_eq!((ticks[0].size, ticks[0].exchange.as_str()), (7, "NYSE"));
}

#[test]
fn float_fields_come_as_text() {
    let f = fields(&["45", "6", "3", "49", "0.25"]);
    let (ticker, tick_type, value) = process_tick_generic(&f).unwrap();
    assert_eq!((ticker, value.as_str()), (3, "0.25"));
    assert!(matches!(tick_type, TickType::Halted));

    let f = fields(&["50", "3", "8", "1600000000", "10.1", "10.5", "9.9", "10.2", "1200", "10.15", "31"]);
    let (req_id, date_time, open, high, low, close, volume, wap, count) = process_real_time_bars(&f).unwrap();
    assert_eq!((req_id, date_time.as_str(), volume, count), (8, "1600000000", 1200, 31));
    assert_eq!((open.as_str(), high.as_str(), low.as_str(), close.as_str(), wap.as_str()), ("10.1", "10.5", "9.9", "10.2", "10.15"));

    let f = fields(&["12", "1", "4", "0", "1", "0", "99.5", "300"]);
    assert_eq!(process_market_depth(&f).unwrap(), (4, 0, 1, 0, "99.5".to_string(), 300));

    let f = fields(&["81", "2", "0.01", "SMART", "3"]);
    assert_eq!(process_tick_req_params(&f).unwrap(), (2, "0.01".to_string(), "SMART".to_string(), 3));

    let f = fields(&["90", "6", "4", "20200101", "1.0", "2.0", "3.0", "0.5", "1.5", "123456789012"]);
    let (req_id, bar_count, date, _, _, _, _, _, volume) = process_historical_data_update(&f).unwrap();
    assert_eq!((req_id, bar_count, date.as_str(), volume), (6, 4, "20200101", 123456789012));

    let f = fields(&["56", "1", "5", "1234", "0.5", "100.25"]);
    assert_eq!(process_delta_neutral_validation(&f).unwrap(), (5, 1234, "0.5".to_string(), "100.25".to_string()));

    let f = fields(&["47", "1", "2", "38", "0.3", "+0.30", "101.2", "30", "20201218", "0.1", "0.2"]);
    let (ticker, tick_type, _, formatted, _, hold_days, last_date, _, _) = process_tick_efp(&f).unwrap();
    assert_eq!((ticker, formatted.as_str(), hold_days, last_date.as_str()), (2, "+0.30", 30, "20201218"));
    assert!(matches!(tick_type, TickType::BidEfpComputation));

    let f = fields(&["89", "4", "2", "10.5", "3", "11.0", "7"]);
    let (req_id, points) = process_histogram_data(&f).unwrap();
    assert_eq!((req_id, points.len()), (4, 2));
    assert_eq!((points[1].price.as_str(), points[1].count), ("11.0", 7));
}
