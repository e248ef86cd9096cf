use twsapi::interpret::{interpret, message_is_complete, Incoming};

fn fields(v: &[&str]) -> Vec<String> {
    v.iter().map(|s| s.to_string()).collect()
}

#[test]
fn order_status_on_a_current_server() {
    let f = fields(&["3", "7", "Filled", "100", "0", "1.5", "123", "0", "1.5", "1", "", "0.0"]);
    assert!(message_is_complete(151, &f));
    match interpret(151, &f, positive).unwrap() {
        Incoming::OrderStatus(o) => {
            assert_eq!((o.order_id, o.status.as_str(), o.filled.as_str(), o.remaining.as_str()), (7, "Filled", "100", "0"));
            assert_eq!((o.avg_fill_price.as_str(), o.perm_id, o.parent_id), ("1.5", 123, 0));
            assert_eq!((o.last_fill_price.as_str(), o.client_id, o.why_held.as_str()), ("1.5", 1, ""));
            assert_eq!(o.mkt_cap_price.as_deref(), Some("0.0"));
        }
        other => panic!("unexpected {:?}", other),
    }
}

#[test]
fn order_status_on_an_old_server_skips_the_version() {
    let f = fields(&["3", "6", "7", "Submitted", "0", "100", "0", "123", "0", "0", "1", "locate"]);
    match interpret(100, &f, positive).unwrap() {
        Incoming::OrderStatus(o) => {
            assert_eq!((o.order_id, o.status.as_str(), o.remaining.as_str()), (7, "Submitted", "100"));
            assert_eq!((o.client_id, o.why_held.as_str(), o.mkt_cap_price), (1, "locate", None));
        }
        other => panic!("unexpected {:?}", other),
    }
}

#[test]
fn portfolio_value_of_version_8() {
    let f = fields(&[
        "7", "8", "265598", "AAPL", "STK", "", "0", "", "1", "NASDAQ", "USD", "AAPL", "NMS", "100", "150.5",
        "15050", "140", "1050", "0", "DU123",
    ]);
    assert!(message_is_complete(151, &f));
    assert!(!message_is_complete(151, &f[..19].to_vec()));
    match interpret(151, &f, positive).unwrap() {
        Incoming::PortfolioValue(p) => {
            assert_eq!((p.con_id, p.symbol.as_str(), p.multiplier.as_str(), p.primary_exchange.as_str()), (265598, "AAPL", "1", "NASDAQ"));
            assert_eq!((p.currency.as_str(), p.local_symbol.as_str(), p.trading_class.as_str()), ("USD", "AAPL", "NMS"));
            assert_eq!((p.position.as_str(), p.market_price.as_str(), p.average_cost.as_str()), ("100", "150.5", "140"));
            assert_eq!((p.unrealized_pnl.as_str(), p.realized_pnl.as_str(), p.account_name.as_str()), ("1050", "0", "DU123"));
        }
        other => panic!("unexpected {:?}", other),
    }
}

#[test]
fn portfolio_value_of_version_6_from_server_39_ends_with_the_primary_exchange() {
    let f = fields(&["7", "6", "1", "AAPL", "STK", "", "0", "", "USD", "AAPL", "100", "150", "15000", "140", "10", "0", "DU1", "NASDAQ"]);
    match interpret(39, &f, positive).unwrap() {
        Incoming::PortfolioValue(p) => {
            assert_eq!((p.multiplier.as_str(), p.primary_exchange.as_str(), p.trading_class.as_str()), ("", "NASDAQ", ""));
            assert_eq!((p.position.as_str(), p.account_name.as_str()), ("100", "DU1"));
        }
        other => panic!("unexpected {:?}", other),
    }
}

#[test]
fn position_of_version_3_has_an_average_cost() {
    let f = fields(&["61", "3", "DU1", "265598", "AAPL", "STK", "", "0", "", "", "NASDAQ", "USD", "AAPL", "NMS", "100", "140.5"]);
    assert!(message_is_complete(151, &f));
    assert!(!message_is_complete(151, &fields(&["61", "3", "DU1"])));
    match interpret(151, &f, positive).unwrap() {
        Incoming::PositionData(p) => {
            assert_eq!((p.account.as_str(), p.con_id, p.exchange.as_str(), p.trading_class.as_str()), ("DU1", 265598, "NASDAQ", "NMS"));
            assert_eq!((p.position.as_str(), p.avg_cost.as_deref()), ("100", Some("140.5")));
        }
        other => panic!("unexpected {:?}", other),
    }
    let f = fields(&["61", "1", "DU1", "265598", "AAPL", "STK", "", "0", "", "", "NASDAQ", "USD", "AAPL", "100"]);
    match interpret(151, &f, positive).unwrap() {
        Incoming::PositionData(p) => assert_eq!((p.trading_class.as_str(), p.position.as_str(), p.avg_cost), ("", "100", None)),
        other => panic!("unexpected {:?}", other),
    }
}

#[test]
fn commission_report_fields() {
    let f = fields(&["59", "1", "0001.01", "1.5", "USD", "1.7976931348623157E308", "1.7976931348623157E308", ""]);
    match interpret(151, &f, positive).unwrap() {
        Incoming::CommissionReport(c) => {
            assert_eq!((c.exec_id.as_str(), c.commission.as_str(), c.currency.as_str()), ("0001.01", "1.5", "USD"));
            assert_eq!(c.yield_redemption_date, "");
        }
        other => panic!("unexpected {:?}", other),
    }
}

#[test]
fn position_multi_fields() {
    let f = fields(&["71", "1", "9", "DU1", "265598", "AAPL", "STK", "", "0", "", "", "SMART", "USD", "AAPL", "NMS", "100", "140.5", "M1"]);
    match interpret(151, &f, positive).unwrap() {
        Incoming::PositionMulti(m) => {
            assert_eq!((m.req_id, m.account.as_str(), m.model_code.as_str()), (9, "DU1", "M1"));
            assert_eq!((m.position.con_id, m.position.position.as_str(), m.position.avg_cost.as_deref()), (265598, "100", Some("140.5")));
        }
        other => panic!("unexpected {:?}", other),
    }
}

#[test]
fn market_rule_lists_its_price_increments() {
    let f = fields(&["93", "26", "2", "0", "0.01", "1000", "0.05"]);
    assert!(message_is_complete(151, &f));
    assert!(!message_is_complete(151, &f[..6].to_vec()));
    match interpret(151, &f, positive).unwrap() {
        Incoming::MarketRule((id, incs)) => {
            assert_eq!((id, incs.len()), (26, 2));
            assert_eq!((incs[1].low_edge.as_str(), incs[1].increment.as_str()), ("1000", "0.05"));
        }
        other => panic!("unexpected {:?}", other),
    }
}

#[test]
fn market_depth_exchanges_by_server_version() {
    let f = fields(&["80", "2", "ISLAND", "STK", "NASDAQ", "Deep2", "1", "ARCA", "STK", "NYSE", "Deep", "2"]);
    assert!(message_is_complete(151, &f));
    match interpret(151, &f, positive).unwrap() {
        Incoming::MktDepthExchanges(d) => {
            assert_eq!(d.len(), 2);
            assert_eq!((d[1].exchange.as_str(), d[1].listing_exch.as_str(), d[1].service_data_type.as_str(), d[1].agg_group), ("ARCA", "NYSE", "Deep", 2));
        }
        other => panic!("unexpected {:?}", other),
    }
    let f = fields(&["80", "2", "ISLAND", "STK", "1", "ARCA", "STK", "0"]);
    assert!(message_is_complete(112, &f));
    assert!(!message_is_complete(151, &f));
    match interpret(112, &f, positive).unwrap() {
        Incoming::MktDepthExchanges(d) => {
            assert_eq!((d[1].exchange.as_str(), d[1].sec_type.as_str(), d[1].listing_exch.as_str(), d[1].agg_group), ("ARCA", "STK", "", 0));
        }
        other => panic!("unexpected {:?}", other),
    }
}

#[test]
fn historical_bars_by_server_version() {
    let f = fields(&[
        "17", "3", "20240101", "20240102", "2", "20240101", "10", "12", "9", "11", "1000", "10.5", "7",
        "20240102", "11", "13", "10", "12", "2000", "11.5", "9",
    ]);
    assert!(message_is_complete(151, &f));
    assert!(!message_is_complete(151, &f[..20].to_vec()));
    match interpret(151, &f, positive).unwrap() {
        Incoming::HistoricalData((id, start, end, bars)) => {
            assert_eq!((id, start.as_str(), end.as_str(), bars.len()), (3, "20240101", "20240102", 2));
            assert_eq!((bars[1].date.as_str(), bars[1].close.as_str(), bars[1].volume, bars[1].bar_count), ("20240102", "12", 2000, 9));
        }
        other => panic!("unexpected {:?}", other),
    }
    let f = fields(&["17", "3", "4", "a", "b", "1", "20240101", "10", "12", "9", "11", "1000", "10.5", "false", "7"]);
    match interpret(100, &f, positive).unwrap() {
        Incoming::HistoricalData((id, _, _, bars)) => {
            assert_eq!((id, bars[0].volume, bars[0].average.as_str(), bars[0].bar_count), (4, 1000, "10.5", 7));
        }
        other => panic!("unexpected {:?}", other),
    }
}

#[test]
fn option_chain_lists_expirations_then_strikes() {
    let f = fields(&["75", "4", "SMART", "265598", "AAPL", "100", "2", "20240119", "20240216", "3", "150", "155", "160"]);
    assert!(message_is_complete(151, &f));
    assert!(!message_is_complete(151, &f[..12].to_vec()));
    match interpret(151, &f, positive).unwrap() {
        Incoming::OptionChain(c) => {
            assert_eq!((c.req_id, c.exchange.as_str(), c.underlying_con_id, c.multiplier.as_str()), (4, "SMART", 265598, "100"));
            assert_eq!(c.expirations, vec!["20240119".to_string(), "20240216".to_string()]);
            assert_eq!(c.strikes, vec!["150".to_string(), "155".to_string(), "160".to_string()]);
        }
        other => panic!("unexpected {:?}", other),
    }
}

#[test]
fn scanner_results_have_sixteen_fields_each() {
    let f = fields(&[
        "20", "3", "5", "1", "0", "265598", "AAPL", "STK", "", "0", "", "SMART", "USD", "AAPL", "NMS", "NMS", "", "", "",
        "",
    ]);
    assert!(message_is_complete(151, &f));
    assert!(!message_is_complete(151, &f[..19].to_vec()));
    match interpret(151, &f, positive).unwrap() {
        Incoming::ScannerData((id, els)) => {
            assert_eq!((id, els.len()), (5, 1));
            assert_eq!((els[0].rank, els[0].con_id, els[0].symbol.as_str(), els[0].market_name.as_str()), (0, 265598, "AAPL", "NMS"));
        }
        other => panic!("unexpected {:?}", other),
    }
}

#[test]
fn bond_contract_details_and_a_bad_flag() {
    let mut v = vec![
        "18", "6", "9", "IBM", "BOND", "459200AB", "5.5", "20300115 16:00 US/Eastern", "20200115", "A", "FIXED",
        "FIXED", "0", "1", "0", "", "SMART", "USD", "IBM", "", "12345", "0.01",
    ];
    v.extend(["1", "LMT", "SMART", "", "", "0", "", "IBM Corp", "rule", "1.5", "1", "CUSIP", "459200AB", "7", "26"]);
    let f = fields(&v);
    assert!(message_is_complete(151, &f));
    assert!(!message_is_complete(151, &f[..f.len() - 1].to_vec()));
    match interpret(151, &f, positive).unwrap() {
        Incoming::BondContractData(b) => {
            assert_eq!((b.req_id, b.symbol.as_str(), b.cusip.as_str(), b.coupon.as_str()), (9, "IBM", "459200AB", "5.5"));
            assert_eq!(b.last_trade_date.maturity.as_deref(), Some("20300115"));
            assert_eq!(b.last_trade_date.time_zone_id.as_deref(), Some("US/Eastern"));
            assert_eq!((b.convertible, b.callable, b.putable), (false, true, false));
            assert_eq!((b.con_id, b.md_size_multiplier, b.order_types.as_str()), (12345, 1, "LMT"));
            assert_eq!((b.long_name.as_str(), b.ev_rule.as_str(), b.ev_multiplier.as_str()), ("IBM Corp", "rule", "1.5"));
            assert_eq!(b.sec_id_list.len(), 1);
            assert_eq!((b.agg_group, b.market_rule_ids.as_str()), (7, "26"));
        }
        other => panic!("unexpected {:?}", other),
    }
    let mut bad = f.clone();
    bad[13] = "yes".to_string();
    assert!(matches!(interpret(151, &bad, positive), Err(twsapi::errors::IBKRApiLibError::ParseInt(_))));
}

#[test]
fn option_computation_layout_by_version_and_tick_type() {
    let f = fields(&["21", "6", "3", "10", "0.25", "0.5", "1.2", "0", "0.1", "0.2", "-0.05", "100"]);
    assert!(message_is_complete(151, &f));
    assert!(!message_is_complete(151, &f[..11].to_vec()));
    match interpret(151, &f, positive).unwrap() {
        Incoming::OptionComputation(o) => {
            assert_eq!((o.ticker_id, o.implied_vol.as_str(), o.delta.as_str()), (3, "0.25", "0.5"));
            assert_eq!((o.opt_price.as_deref(), o.und_price.as_deref()), (Some("1.2"), Some("100")));
        }
        other => panic!("unexpected {:?}", other),
    }
    let f = fields(&["21", "5", "3", "13", "0.25", "0.5", "1.2", "0"]);
    match interpret(151, &f, positive).unwrap() {
        Incoming::OptionComputation(o) => {
            assert_eq!((o.opt_price.as_deref(), o.pv_dividend.as_deref(), o.gamma), (Some("1.2"), Some("0"), None));
        }
        other => panic!("unexpected {:?}", other),
    }
    let f = fields(&["21", "5", "3", "10", "0.25", "0.5"]);
    match interpret(151, &f, positive).unwrap() {
        Incoming::OptionComputation(o) => assert_eq!((o.opt_price, o.theta), (None, None)),
        other => panic!("unexpected {:?}", other),
    }
    assert!(!message_is_complete(151, &fields(&["21", "5", "3", "9999", "0.25", "0.5"])));
}

#[test]
fn symbol_samples_with_their_derivative_types() {
    let f = fields(&["79", "4", "2", "265598", "AAPL", "STK", "NASDAQ", "USD", "2", "OPT", "WAR", "8314", "IBM", "STK", "NYSE", "USD", "0"]);
    assert!(message_is_complete(151, &f));
    assert!(!message_is_complete(151, &f[..16].to_vec()));
    match interpret(151, &f, positive).unwrap() {
        Incoming::SymbolSamples((id, descs)) => {
            assert_eq!((id, descs.len()), (4, 2));
            assert_eq!(descs[0].derivative_sec_types, vec!["OPT".to_string(), "WAR".to_string()]);
            assert_eq!((descs[1].con_id, descs[1].symbol.as_str(), descs[1].derivative_sec_types.len()), (8314, "IBM", 0));
        }
        other => panic!("unexpected {:?}", other),
    }
}

fn positive(text: &str) -> bool {
    text.parse::<f64>().map(|v| v > 0.0 && v != f64::MAX).unwrap_or(false)
}
