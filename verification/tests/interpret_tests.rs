use twsapi::common::TickType;
use twsapi::errors::IBKRApiLibError;
use twsapi::interpret::{interpret, message_is_complete, Incoming};

fn fields(v: &[&str]) -> Vec<String> {
    v.iter().map(|s| s.to_string()).collect()
}

#[test]
fn dispatches_by_id() {
    let f = fields(&["9", "1", "42"]);
    assert!(message_is_complete(151, &f));
    assert!(matches!(interpret(151, &f, positive).unwrap(), Incoming::NextValidId(42)));
    let f = fields(&["63", "1", "7", "DU1", "NetLiquidation", "100", "USD"]);
    match interpret(151, &f, positive).unwrap() {
        Incoming::AccountSummary((req_id, account, _, _, _)) => assert_eq!((req_id, account.as_str()), (7, "DU1")),
        other => panic!("unexpected {:?}", other),
    }
    assert!(matches!(interpret(151, &fields(&["53", "1"]), positive).unwrap(), Incoming::OpenOrderEnd));
}

#[test]
fn incomplete_order_messages_decode_to_nothing() {
    let f = fields(&["5", "1", "1"]);
    assert!(matches!(interpret(151, &f, positive).unwrap(), Incoming::OpenOrder(None)));
    let f = fields(&["101", "1"]);
    assert!(matches!(interpret(151, &f, positive).unwrap(), Incoming::CompletedOrder(None)));
}

#[test]
fn price_ticks_carry_their_size_tick_and_attributes() {
    let f = fields(&["1", "6", "4", "1", "100.5", "300", "3"]);
    assert!(message_is_complete(151, &f));
    match interpret(151, &f, positive).unwrap() {
        Incoming::TickPrice(t) => {
            assert_eq!((t.req_id, t.price.as_str()), (4, "100.5"));
            assert!(t.attrib.can_auto_execute && t.attrib.past_limit && !t.attrib.pre_open);
            assert!(matches!(t.size_tick, Some((TickType::BidSize, 300))));
        }
        other => panic!("unexpected {:?}", other),
    }
    // Before past-limit attributes, only a mask of exactly 1 means auto-execute.
    match interpret(100, &f, positive).unwrap() {
        Incoming::TickPrice(t) => assert!(!t.attrib.can_auto_execute && !t.attrib.past_limit),
        other => panic!("unexpected {:?}", other),
    }
    // A high price has no size tick.
    let f = fields(&["1", "6", "4", "6", "101", "0", "0"]);
    match interpret(151, &f, positive).unwrap() {
        Incoming::TickPrice(t) => assert!(t.size_tick.is_none()),
        other => panic!("unexpected {:?}", other),
    }
}

#[test]
fn pnl_fields_follow_the_server_version() {
    let f = fields(&["94", "3", "10.5", "2.5", "8"]);
    match interpret(151, &f, positive).unwrap() {
        Incoming::Pnl(p) => assert_eq!(p, (3, "10.5".to_string(), "2.5".to_string(), "8".to_string())),
        other => panic!("unexpected {:?}", other),
    }
    match interpret(130, &f, positive).unwrap() {
        Incoming::Pnl(p) => assert_eq!(p, (3, "10.5".to_string(), "2.5".to_string(), "".to_string())),
        other => panic!("unexpected {:?}", other),
    }
    assert!(!message_is_complete(151, &f[..4].to_vec()));
}

#[test]
fn empty_and_bad_ids() {
    assert!(matches!(interpret(151, &[], positive).unwrap(), Incoming::Empty));
    assert!(matches!(interpret(151, &fields(&["x"]), positive), Err(IBKRApiLibError::ParseInt(_))));
}

#[test]
fn incomplete_or_unknown_messages_are_refused_before_decoding() {
    assert!(!message_is_complete(151, &fields(&["9", "1"])));
    assert!(!message_is_complete(151, &fields(&["60", "1"])));
    assert!(!message_is_complete(151, &fields(&["46", "6", "1", "9999", "v"])));
    assert!(message_is_complete(151, &fields(&["46", "6", "1", "45", "v"])));
    assert!(!message_is_complete(151, &fields(&["78", "3", "a", "b"])));
    assert!(message_is_complete(151, &fields(&["78", "1", "a", "b"])));
}

#[test]
fn efp_ticks_are_decoded_as_efp() {
    let f = fields(&["47", "1", "7", "38", "10.5", "10.50 bp", "101.25", "30", "20240621", "0.5", "1.25"]);
    assert!(message_is_complete(151, &f));
    assert!(!message_is_complete(151, &f[..10].to_vec()));
    match interpret(151, &f, positive).unwrap() {
        Incoming::TickEfp((id, tick_type, basis, formatted, implied, hold_days, last_date, impact, dividends)) => {
            assert_eq!((id, tick_type), (7, TickType::BidEfpComputation));
            assert_eq!((basis.as_str(), formatted.as_str(), implied.as_str()), ("10.5", "10.50 bp", "101.25"));
            assert_eq!((hold_days, last_date.as_str(), impact.as_str(), dividends.as_str()), (30, "20240621", "0.5", "1.25"));
        }
        other => panic!("unexpected {:?}", other),
    }
}

#[test]
fn execution_reports_follow_the_server_version() {
    // A current server: no version field; the field after the evaluation rule is passed over
    // and, being empty, leaves the multiplier at 1.
    let f = fields(&[
        "11", "5", "42", "265598", "AAPL", "STK", "", "0", "", "", "ISLAND", "USD", "AAPL", "NMS",
        "0001.01", "20200101 10:00:00", "DU1", "ISLAND", "BOT", "100", "300.5", "77", "0", "0",
        "100", "300.5", "ref", "rule", "", "model", "2",
    ]);
    assert!(message_is_complete(151, &f));
    match interpret(151, &f, positive).unwrap() {
        Incoming::ExecutionData(e) => {
            assert_eq!((e.req_id, e.order_id, e.con_id), (5, 42, 265598));
            assert_eq!((e.trading_class.as_str(), e.exec_id.as_str(), e.shares.as_str()), ("NMS", "0001.01", "100"));
            assert_eq!((e.ev_rule.as_str(), e.ev_multiplier.as_str(), e.model_code.as_str(), e.last_liquidity), ("rule", "1", "model", 2));
        }
        other => panic!("unexpected {:?}", other),
    }
    // An old server sends a version; version 5 has no request id, multiplier or later fields.
    let f = fields(&[
        "11", "5", "42", "265598", "AAPL", "STK", "", "0", "", "ISLAND", "USD", "AAPL",
        "0001.01", "t", "DU1", "ISLAND", "BOT", "100", "300.5", "77", "0", "0",
    ]);
    assert!(message_is_complete(90, &f));
    match interpret(90, &f, positive).unwrap() {
        Incoming::ExecutionData(e) => {
            assert_eq!((e.req_id, e.order_id, e.shares.as_str(), e.ev_multiplier.as_str()), (-1, 42, "100", ""));
        }
        other => panic!("unexpected {:?}", other),
    }
    assert!(!message_is_complete(151, &f[..10].to_vec()));
}

#[test]
fn contract_details_follow_the_versions() {
    // Version 8 on a current server: request id, the last trade date's words, two security
    // ids, then the fields that the server version adds.
    let f = fields(&[
        "10", "8", "3", "AAPL", "STK", "20300115 16:00", "0", "", "SMART", "USD", "AAPL", "NMS",
        "NMS", "265598", "0.01", "1", "", "LMT,MKT", "SMART,ISLAND", "1", "0", "APPLE INC",
        "NASDAQ", "", "Technology", "Computers", "Computers", "US/Eastern", "h", "l", "rule", "",
        "2", "ISIN", "US0378331005", "CUSIP", "037833100", "1", "", "", "26,26", "",
    ]);
    assert!(message_is_complete(151, &f));
    match interpret(151, &f, positive).unwrap() {
        Incoming::ContractDetails(d) => {
            assert_eq!((d.req_id, d.con_id, d.md_size_multiplier), (3, 265598, 1));
            assert_eq!(d.last_trade_date.last_trade_date_or_contract_month.as_deref(), Some("20300115"));
            assert_eq!(d.last_trade_date.last_trade_time.as_deref(), Some("16:00"));
            assert_eq!((d.long_name.as_str(), d.primary_exchange.as_str()), ("APPLE INC", "NASDAQ"));
            assert_eq!(d.sec_id_list.len(), 2);
            assert_eq!((d.sec_id_list[1].tag.as_str(), d.sec_id_list[1].value.as_str()), ("CUSIP", "037833100"));
            assert_eq!((d.agg_group, d.market_rule_ids.as_str()), (1, "26,26"));
        }
        other => panic!("unexpected {:?}", other),
    }
    assert!(!message_is_complete(151, &f[..40].to_vec()));
}

fn positive(text: &str) -> bool {
    text.parse::<f64>().map(|v| v > 0.0 && v != f64::MAX).unwrap_or(false)
}
