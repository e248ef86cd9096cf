use twsapi::client::ConnStatus;
use twsapi::common::{TagValue, UNSET_INTEGER};
use twsapi::contract::{ComboLegFields, ContractFields, DeltaNeutralFields};
use twsapi::errors::IBKRApiLibError;
use twsapi::messages::read_fields;
use twsapi::place_order::{place_order_message, ConditionFields, FloatField, OrderFields};

fn stock() -> ContractFields {
    let mut c = ContractFields::default();
    c.symbol = "AAPL".to_string();
    c.sec_type = "STK".to_string();
    c.exchange = "SMART".to_string();
    c.currency = "USD".to_string();
    c
}

fn price(text: &str) -> FloatField {
    FloatField { text: text.to_string(), is_set: true, sign: 1 }
}

fn limit_order() -> OrderFields {
    let mut o = OrderFields::default();
    o.action = "BUY".to_string();
    o.total_quantity = price("100");
    o.total_quantity_whole = 100;
    o.order_type = "LMT".to_string();
    o.lmt_price = price("1.5");
    o.exempt_code = -1;
    o.duration = UNSET_INTEGER;
    o.post_to_ats = UNSET_INTEGER;
    o
}

fn description(r: Result<String, IBKRApiLibError>) -> (i32, String, String) {
    match r {
        Err(IBKRApiLibError::ApiError(e)) => (e.req_id, e.code, e.description),
        other => panic!("unexpected {:?}", other),
    }
}

#[test]
fn limit_order_on_a_current_server() {
    let m = place_order_message(ConnStatus::CONNECTED, 163, 7, &stock(), &limit_order()).unwrap();
    let mut expected: Vec<&str> = vec!["3", "7"];
    // contract
    expected.extend(["0", "AAPL", "STK", "", "", "", "", "SMART", "", "USD", "", "", "", ""]);
    // main and extended fields
    expected.extend(["BUY", "100", "LMT", "1.5", "", "", "", "", "", "2", "", "0", "0", "0", "0", "0", "0", "0", "0"]);
    // allocation, short sale and auction fields
    expected.extend(["", "", "", "", "", "", "", "", "", "0", "", "-1", "0", "", "", "0", "0", "", "0", "0", "", "0"]);
    expected.extend(["", "", "", "", "", "0"]);
    // volatility and trailing fields
    expected.extend(["", "0", "", "", "0", "0", "", ""]);
    // scale fields
    expected.extend(["0", "0", "", "", "", ""]);
    // hedge and routing fields
    expected.extend(["", "0", "", "", "0", "0"]);
    // algo and option fields
    expected.extend(["", "", "0", "", "0", "0", "0"]);
    // conditions and adjustments
    expected.extend(["0", "", "", "", "", "", "", "0"]);
    // last fields
    expected.extend(["", "", "", "", "", "", "", "", "0", "0", "0", "0", "2147483647", "2147483647"]);
    assert_eq!(read_fields(&m), expected);
}

#[test]
fn old_servers_get_a_version_and_zero_prices() {
    let mut o = limit_order();
    o.lmt_price = FloatField::default();
    let m = place_order_message(ConnStatus::CONNECTED, 43, 7, &stock(), &o).unwrap();
    let f = read_fields(&m);
    assert_eq!(&f[0..3], &["3", "27", "7"]);
    // no contract id for a server this old
    assert_eq!(f[3], "AAPL");
    // the quantity as a whole number, unset limit and aux prices as 0
    assert_eq!(&f[13..18], &["BUY", "100", "LMT", "0", "0"]);
    let m = place_order_message(ConnStatus::CONNECTED, 52, 7, &stock(), &o).unwrap();
    assert_eq!(&read_fields(&m)[0..5], &["3", "45", "7", "0", "AAPL"]);
}

#[test]
fn not_connected_is_refused() {
    let (id, code, _) = description(place_order_message(ConnStatus::DISCONNECTED, 163, 7, &stock(), &limit_order()));
    assert_eq!((id, code.as_str()), (-1, "504"));
}

#[test]
fn exempt_code_needs_a_newer_server() {
    let mut o = limit_order();
    o.exempt_code = 0;
    let (id, code, text) = description(place_order_message(ConnStatus::CONNECTED, 51, 7, &stock(), &o));
    assert_eq!((id, code.as_str()), (7, "503"));
    assert!(text.ends_with(" It does not support exempt_code parameter."));
}

#[test]
fn delta_neutral_contract_refusal_carries_no_order_id() {
    let mut c = stock();
    c.delta_neutral_contract = Some(DeltaNeutralFields { con_id: 1, delta: "0.5".to_string(), price: "10".to_string() });
    let (id, code, text) = description(place_order_message(ConnStatus::CONNECTED, 39, 7, &c, &limit_order()));
    assert_eq!((id, code.as_str()), (-1, "503"));
    assert!(text.ends_with(" It does not support delta-neutral orders."));
}

#[test]
fn cash_quantity_and_duration_refusals() {
    let mut o = limit_order();
    o.cash_qty = price("1000");
    let (_, _, text) = description(place_order_message(ConnStatus::CONNECTED, 110, 7, &stock(), &o));
    assert!(text.ends_with(" It does not support cash quantity parameter."));
    let mut o = limit_order();
    o.duration = 5;
    let (_, _, text) = description(place_order_message(ConnStatus::CONNECTED, 157, 7, &stock(), &o));
    assert!(text.ends_with(" It does not does not support duration attribute"));
}

#[test]
fn bag_order_writes_legs_prices_and_routing_params() {
    let mut c = stock();
    c.sec_type = "BAG".to_string();
    c.combo_legs = vec![ComboLegFields {
        con_id: 11,
        ratio: "1".to_string(),
        action: "BUY".to_string(),
        exchange: "SMART".to_string(),
        exempt_code: -1,
        ..Default::default()
    }];
    let mut o = limit_order();
    o.order_combo_legs = vec![price("2.5"), FloatField::default()];
    o.smart_combo_routing_params = vec![TagValue::new("NonGuaranteed".to_string(), "1".to_string())];
    let m = place_order_message(ConnStatus::CONNECTED, 163, 7, &c, &o).unwrap();
    let f = read_fields(&m);
    // the combo fields follow the 19 main fields that start at 16
    assert_eq!(
        &f[35..50],
        &["1", "11", "1", "BUY", "SMART", "0", "0", "", "-1", "2", "2.5", "", "1", "NonGuaranteed", "1"]
    );
    let (_, _, text) = description(place_order_message(ConnStatus::CONNECTED, 60, 7, &c, &o));
    assert!(text.ends_with(" It does not support per-leg prices for order combo legs."));
}

#[test]
fn algo_options_and_conditions_are_written() {
    let mut o = limit_order();
    o.algo_strategy = "Vwap".to_string();
    o.algo_params = vec![TagValue::new("maxPctVol".to_string(), "0.1".to_string())];
    o.order_misc_options = vec![
        TagValue::new("a".to_string(), "1".to_string()),
        TagValue::new("b".to_string(), "2".to_string()),
    ];
    o.conditions = vec![ConditionFields { cond_type: 3, fields: vec!["a\0".to_string(), "1\0".to_string()] }];
    let m = place_order_message(ConnStatus::CONNECTED, 163, 7, &stock(), &o).unwrap();
    let f = read_fields(&m);
    let at = f.iter().position(|x| x == "Vwap").unwrap();
    assert_eq!(&f[at..at + 8], &["Vwap", "1", "maxPctVol", "0.1", "", "0", "a=1;b=2;", "0"]);
    let at = at + 10;
    assert_eq!(&f[at..at + 6], &["1", "3", "a", "1", "0", "0"]);
}

#[test]
fn current_server_accepts_orders_that_older_ones_refuse() {
    let mut c = stock();
    c.con_id = 265598;
    c.trading_class = "NMS".to_string();
    c.delta_neutral_contract = Some(DeltaNeutralFields { con_id: 1, delta: "0.5".to_string(), price: "10".to_string() });
    let mut o = limit_order();
    o.exempt_code = 0;
    o.not_held = true;
    o.algo_strategy = "Vwap".to_string();
    o.cash_qty = price("1000");
    o.duration = 5;
    o.post_to_ats = 1;
    o.is_oms_container = true;
    assert!(place_order_message(ConnStatus::CONNECTED, 160, 7, &c, &o).is_ok());
    let (id, _, _) = description(place_order_message(ConnStatus::CONNECTED, 159, 7, &c, &o));
    assert_eq!(id, 7);
}
