use twsapi::contract::PositionType;
use twsapi::interpret::{interpret, Incoming};
use twsapi::order::{AuctionStrategy, Origin};
use twsapi::order_condition::ConditionType;
use twsapi::order_decoding::{
    process_completed_order, process_open_order, try_process_completed_order,
    try_process_open_order, OrderDecoder,
};

fn fields(v: &[&str]) -> Vec<String> {
    v.iter().map(|s| s.to_string()).collect()
}

fn positive(text: &str) -> bool {
    text.parse::<f64>().map(|v| v > 0.0 && v != f64::MAX).unwrap_or(false)
}

const HEAD: [&str; 28] = [
    "5", "42", "265598", "AAPL", "STK", "", "0", "", "", "SMART", "USD", "AAPL", "NMS", "BUY",
    "100", "LMT", "150.5", "0", "DAY", "", "DU123", "", "0", "ref1", "7", "987", "1", "0",
];

const TERMS: [&str; 22] = [
    "0", "", "", "", "", "", "", "", "", "", "0", "", "0", "", "-1", "0", "0", "0", "0", "0", "0",
    "0",
];

const FLAGS: [&str; 14] = ["0", "1", "0", "0", "3", "0", "0", "0", "0", "0", "0", "0", "", "0"];

/// An open order of server version 151 with one combo leg, one leg price, one smart combo
/// parameter, the given scale price increment and one time condition.
fn open_order(increment: &str) -> Vec<String> {
    let mut v: Vec<&str> = Vec::new();
    v.extend_from_slice(&HEAD);
    v.extend_from_slice(&TERMS);
    v.extend_from_slice(&FLAGS);
    // volatility tail: continuous update .. combo legs description, count
    v.extend_from_slice(&["0", "0", "0", "0", "0", "0", "legs", "1"]);
    v.extend_from_slice(&["11", "2", "SELL", "ISLAND", "1", "0", "", "-1"]);
    v.extend_from_slice(&["1", "1.25"]);
    v.extend_from_slice(&["1", "NonGuaranteed", "1"]);
    v.extend_from_slice(&["0", "0", increment]);
    if positive(increment) {
        v.extend_from_slice(&["0.1", "3", "0.2", "1", "100", "50", "0"]);
    }
    v.push("");
    // clearing: opt out, clearing account, clearing intent, not held, delta-neutral present
    v.extend_from_slice(&["0", "", "IB", "0", "0"]);
    v.push("");
    // state: solicited, what-if, status, margins, commissions, warning, randomize
    v.extend_from_slice(&["0", "0", "Submitted", "", "", "", "", "", "", "", "", ""]);
    v.extend_from_slice(&["1.5", "2.5", "3.5", "USD", "", "0", "0"]);
    v.push("1");
    v.extend_from_slice(&["3", "a", "1", "20250101 09:30:00", "1", "0"]);
    v.extend_from_slice(&["", "0", "0", "0", "0", "0", "0", "0", "", "", "", "0", "0", "1", "0"]);
    v.push("1");
    fields(&v)
}

#[test]
fn open_order_is_decoded() {
    let f = open_order("0");
    let m = process_open_order(151, &f, positive);
    let h = &m.front.head;
    assert_eq!(h.order_id, Some(42));
    assert_eq!(h.con_id, 265598);
    assert_eq!(h.symbol, "AAPL");
    assert_eq!(h.multiplier, Some(String::new()));
    assert_eq!(h.total_quantity.as_ref().map(|q| q.text.clone()), Some("100".to_string()));
    assert_eq!(h.total_quantity_whole, None);
    assert_eq!(h.order_type, "LMT");
    assert_eq!(h.lmt_price.text, "150.5");
    assert!(h.lmt_price.zero_unset);
    assert_eq!(h.origin, Origin::Customer);
    assert_eq!(h.client_id, Some(7));
    assert_eq!(h.perm_id, 987);
    assert!(h.outside_rth);
    assert!(!h.hidden);
    assert_eq!(m.front.terms.exempt_code, Some(-1));
    assert_eq!(m.front.terms.auction_strategy, Some(AuctionStrategy::AuctionUnset));
    assert!(m.front.flags.sweep_to_fill);
    assert_eq!(m.front.flags.min_qty, i32::MAX);
    assert_eq!(m.front.flags.oca_type, 3);
    assert_eq!(m.front.vol_tail.combo_legs_descrip, "legs");
    assert_eq!(m.front.combo_legs.len(), 1);
    let leg = &m.front.combo_legs[0];
    assert_eq!((leg.con_id, leg.ratio, leg.exempt_code), (11, 2, -1));
    assert_eq!(leg.action, "SELL");
    assert_eq!(leg.open_close, PositionType::OpenPos);
    assert_eq!(m.front.order_combo_legs[0].text, "1.25");
    assert_eq!(m.front.smart_combo_routing_params[0].tag, "NonGuaranteed");
    assert!(!m.scale_increment_positive);
    assert_eq!(m.middle.scale_tail.scale_price_adjust_value.is_none(), true);
    assert_eq!(m.middle.clearing.clearing_intent, "IB");
    assert_eq!(m.back.state.status, "Submitted");
    assert_eq!(m.back.state.commission.as_ref().map(|c| c.text.clone()), Some("1.5".to_string()));
    assert_eq!(m.back.conditions.len(), 1);
    assert_eq!(m.back.conditions[0].cond_type, ConditionType::Time);
    assert_eq!(m.back.conditions[0].fields, fields(&["a", "1", "20250101 09:30:00"]));
    assert!(m.back.conditions_ignore_rth);
    assert!(!m.back.conditions_cancel_order);
    assert_eq!(m.back.tail.is_oms_container, Some(true));
    assert_eq!(m.back.tail.use_price_mgmt_algo, Some(true));
    assert_eq!(m.back.tail.auto_cancel_date, None);
}

#[test]
fn scale_values_follow_a_positive_increment() {
    let f = open_order("0.5");
    let m = process_open_order(151, &f, positive);
    assert!(m.scale_increment_positive);
    let st = &m.middle.scale_tail;
    assert_eq!(st.scale_price_adjust_value.as_ref().map(|v| v.text.clone()), Some("0.1".to_string()));
    assert_eq!(st.scale_price_adjust_interval, Some(3));
    assert_eq!(st.scale_auto_reset, Some(true));
    assert_eq!(st.scale_init_fill_qty, Some(50));
    assert_eq!(m.back.state.status, "Submitted");
    assert_eq!(m.back.tail.use_price_mgmt_algo, Some(true));
}

#[test]
fn missing_trailing_flags_read_as_false() {
    let mut f = open_order("0");
    f.truncate(f.len() - 2);
    let m = try_process_open_order(151, &f, positive).unwrap();
    assert_eq!(m.back.tail.discretionary_up_to_limit_price, Some(false));
    assert_eq!(m.back.tail.use_price_mgmt_algo, Some(false));
}

#[test]
fn incomplete_open_order_is_not_decoded() {
    let mut f = open_order("0");
    f.truncate(f.len() - 6);
    assert!(try_process_open_order(151, &f, positive).is_none());
    assert!(try_process_open_order(151, &fields(&["5"]), positive).is_none());
    assert!(try_process_open_order(100, &fields(&["5"]), positive).is_none());
}

#[test]
fn unknown_origin_is_not_decoded() {
    let mut f = open_order("0");
    f[22] = "9".to_string();
    assert!(try_process_open_order(151, &f, positive).is_none());
}

#[test]
fn interpret_decodes_open_orders() {
    let f = open_order("0");
    match interpret(151, &f, positive).unwrap() {
        Incoming::OpenOrder(Some(m)) => assert_eq!(m.front.head.order_id, Some(42)),
        other => panic!("unexpected {:?}", other),
    }
}

#[test]
fn open_order_decoder_reads_from_its_start() {
    let f = open_order("0");
    let d = OrderDecoder::new(151, 151);
    let m = d.decode_open(&f, 1, positive).unwrap();
    assert_eq!(m.front.head.symbol, "AAPL");
}

/// A completed order of server version 151: no order id, client id, auction strategy or
/// parent id, and the completion values at the end.
fn completed_order() -> Vec<String> {
    let mut v: Vec<&str> = vec!["101"];
    v.extend_from_slice(&HEAD[2..23]);
    v.push("ref1");
    v.extend_from_slice(&["987", "0", "0"]);
    // terms without the shares allocation and the auction strategy
    v.extend_from_slice(&["0", "", "", "", "", "", "", "", "", "0", "", "0", "", "-1"]);
    v.extend_from_slice(&["0", "0", "0", "0", "0", "0"]);
    // flags without block order, e-trade, firm quote, NBBO cap and parent id
    v.extend_from_slice(&["1", "0", "0", "3", "0", "0", "0", "", "0"]);
    // volatility tail without the basis points
    v.extend_from_slice(&["0", "0", "0", "0", "", "0"]);
    v.extend_from_slice(&["0", "0", "0", "0", "0", ""]);
    // clearing without opt out
    v.extend_from_slice(&["", "IB", "0", "0"]);
    v.push("");
    v.extend_from_slice(&["0", "Filled", "0", "0"]);
    v.push("0");
    // trail stop price, limit price offset, cash quantity, flags, completion values
    v.extend_from_slice(&["0", "0", "0", "0", "0"]);
    v.extend_from_slice(&["", "100", "0", "0", "", "0", "0", "0", "20250101", "Filled"]);
    fields(&v)
}

#[test]
fn completed_order_is_decoded() {
    let f = completed_order();
    let m = process_completed_order(151, &f, positive);
    assert_eq!(m.front.head.order_id, None);
    assert_eq!(m.front.head.con_id, 265598);
    assert_eq!(m.front.head.client_id, None);
    assert_eq!(m.front.terms.auction_strategy, None);
    assert_eq!(m.back.state.status, "Filled");
    assert_eq!(m.back.state.what_if, None);
    assert_eq!(m.back.tail.filled_quantity.as_ref().map(|q| q.text.clone()), Some("100".to_string()));
    assert_eq!(m.back.tail.completed_time, Some("20250101".to_string()));
    assert_eq!(m.back.tail.completed_status, Some("Filled".to_string()));
    let t = try_process_completed_order(151, &f, positive).unwrap();
    assert_eq!(t.back.tail.completed_status, Some("Filled".to_string()));
    match interpret(151, &f, positive).unwrap() {
        Incoming::CompletedOrder(Some(c)) => assert_eq!(c.back.state.status, "Filled"),
        other => panic!("unexpected {:?}", other),
    }
}

#[test]
fn older_servers_send_the_version_and_fewer_fields() {
    let mut f = open_order("0");
    f.insert(1, "34".to_string());
    let status = f.iter().position(|x| x == "Submitted").unwrap();
    f.drain(status + 1..status + 7);
    f.truncate(f.len() - 4);
    let m = process_open_order(140, &f, positive);
    assert_eq!(m.front.head.order_id, Some(42));
    assert_eq!(m.back.state.init_margin_before, None);
    assert_eq!(m.back.state.commission.as_ref().map(|c| c.text.clone()), Some("1.5".to_string()));
    assert_eq!(m.back.tail.cash_qty.as_ref().map(|c| c.text.clone()), Some("0".to_string()));
    assert_eq!(m.back.tail.is_oms_container, None);
    assert!(try_process_open_order(140, &f[..f.len() - 1], positive).is_none());
}

#[test]
fn complete_order_messages_are_always_decoded() {
    for increment in ["0", "0.5", ""] {
        let f = open_order(increment);
        assert!(try_process_open_order(151, &f, positive).is_some());
        assert!(try_process_open_order(151, &f, |_: &str| positive(increment)).is_some());
    }
    assert!(try_process_completed_order(151, &completed_order(), positive).is_some());
}
