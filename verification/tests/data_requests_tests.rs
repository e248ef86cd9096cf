use twsapi::client::ConnStatus;
use twsapi::common::{TagValue, TickByTickType};
use twsapi::contract::ContractFields;
use twsapi::data_requests::{
    calculate_implied_volatility_message, calculate_option_price_message, exercise_options_message,
    req_executions_message, req_fundamental_data_message, req_head_time_stamp_message,
    req_histogram_data_message, req_historical_data_message, req_historical_news_message,
    req_historical_ticks_message, req_news_article_message, req_real_time_bars_message,
    req_tick_by_tick_data_message,
};
use twsapi::errors::IBKRApiLibError;
use twsapi::execution::ExecutionFilter;
use twsapi::messages::read_fields;

const C: ConnStatus = ConnStatus::CONNECTED;

fn stock() -> ContractFields {
    let mut c = ContractFields::default();
    c.con_id = 265598;
    c.symbol = "AAPL".to_string();
    c.sec_type = "STK".to_string();
    c.strike = "0".to_string();
    c.exchange = "SMART".to_string();
    c.primary_exchange = "ISLAND".to_string();
    c.currency = "USD".to_string();
    c
}

fn error_of(r: Result<String, IBKRApiLibError>) -> (i32, String, String) {
    match r {
        Err(IBKRApiLibError::ApiError(e)) => (e.req_id, e.code, e.description),
        other => panic!("unexpected {:?}", other),
    }
}

const CONTRACT: [&str; 11] = ["265598", "AAPL", "STK", "", "0", "", "", "SMART", "ISLAND", "USD", ""];

#[test]
fn historical_data_on_a_current_server() {
    let opts = vec![TagValue::new("a".to_string(), "1".to_string())];
    let m = req_historical_data_message(C, 151, 4, &stock(), "20240101 00:00:00", "1 D", "1 hour", "TRADES", 1, 1, false, &opts).unwrap();
    let mut expected = vec!["20", "4"];
    expected.extend(CONTRACT);
    expected.extend(["", "0", "20240101 00:00:00", "1 hour", "1 D", "1", "TRADES", "1", "0", "a=1;"]);
    assert_eq!(read_fields(&m), expected);
    let (id, code, text) = error_of(req_historical_data_message(C, 60, 4, &stock(), "", "", "", "", 1, 1, false, &opts));
    assert_eq!((id, code.as_str()), (4, "503"));
    assert!(text.ends_with(" It does not support con_id and trading_class parameters in req_historical_data."));
    let (id, code, _) = error_of(req_historical_data_message(ConnStatus::DISCONNECTED, 151, 4, &stock(), "", "", "", "", 1, 1, false, &opts));
    assert_eq!((id, code.as_str()), (-1, "504"));
}

#[test]
fn real_time_bars_and_tick_by_tick() {
    let none: Vec<TagValue> = Vec::new();
    let m = req_real_time_bars_message(C, 151, 5, &stock(), 5, "MIDPOINT", true, &none).unwrap();
    let mut expected = vec!["50", "3", "5"];
    expected.extend(CONTRACT);
    expected.extend(["", "5", "MIDPOINT", "1", ""]);
    assert_eq!(read_fields(&m), expected);
    let m = req_tick_by_tick_data_message(C, 151, 6, &stock(), TickByTickType::Last, 0, false).unwrap();
    let mut expected = vec!["97", "6"];
    expected.extend(CONTRACT);
    expected.extend(["", "Last", "0", "0"]);
    assert_eq!(read_fields(&m), expected);
    let (id, _, text) = error_of(req_tick_by_tick_data_message(C, 139, 6, &stock(), TickByTickType::Last, 0, false));
    assert_eq!(id, 6);
    assert!(text.ends_with(" It does not support ignore_size and number_of_ticks parameters in tick-by-tick data requests."));
}

#[test]
fn option_calculations_and_exercise() {
    let opts = vec![TagValue::new("x".to_string(), "y".to_string())];
    let m = calculate_implied_volatility_message(C, 151, 7, &stock(), "1.5", "100", &opts).unwrap();
    let mut expected = vec!["54", "3", "7"];
    expected.extend(CONTRACT);
    expected.extend(["", "1.5", "100", "1", "x=y;"]);
    assert_eq!(read_fields(&m), expected);
    let none: Vec<TagValue> = Vec::new();
    let m = calculate_option_price_message(C, 151, 7, &stock(), "0.3", "100", &none).unwrap();
    assert_eq!(read_fields(&m).len(), 3 + 11 + 1 + 2);
    let (id, code, _) = error_of(calculate_option_price_message(ConnStatus::DISCONNECTED, 151, 7, &stock(), "0.3", "100", &none));
    assert_eq!((id, code.as_str()), (7, "504"));
    let m = exercise_options_message(C, 151, 8, &stock(), 1, 10, "DU1", 0).unwrap();
    assert_eq!(
        read_fields(&m),
        vec!["21", "2", "8", "265598", "AAPL", "STK", "", "0", "", "", "SMART", "USD", "", "", "1", "10", "DU1", "0"]
    );
}

#[test]
fn fundamental_data_head_time_stamp_and_histogram() {
    let none: Vec<TagValue> = Vec::new();
    let m = req_fundamental_data_message(C, 151, 9, &stock(), "ReportsFinSummary", &none).unwrap();
    assert_eq!(read_fields(&m), vec!["52", "2", "9", "265598", "AAPL", "STK", "SMART", "ISLAND", "USD", "", "ReportsFinSummary", "0", ""]);
    let (_, _, text) = error_of(req_fundamental_data_message(C, 60, 9, &stock(), "x", &none));
    assert!(text.ends_with(" It does not support con_id parameter in fundamental data request."));
    let m = req_head_time_stamp_message(C, 151, 10, &stock(), "TRADES", 1, 1).unwrap();
    let mut expected = vec!["87", "10"];
    expected.extend(CONTRACT);
    expected.extend(["", "0", "1", "TRADES", "1"]);
    assert_eq!(read_fields(&m), expected);
    let (id, _, _) = error_of(req_histogram_data_message(C, 118, 11, &stock(), true, "3 days"));
    assert_eq!(id, -1);
    let m = req_histogram_data_message(C, 151, 11, &stock(), true, "3 days").unwrap();
    assert_eq!(read_fields(&m).last().unwrap(), "3 days");
}

#[test]
fn historical_ticks_executions_and_news() {
    let none: Vec<TagValue> = Vec::new();
    let m = req_historical_ticks_message(C, 151, 12, &stock(), "a", "b", 100, "TRADES", 1, true, &none).unwrap();
    let mut expected = vec!["96", "12"];
    expected.extend(CONTRACT);
    expected.extend(["", "0", "a", "b", "100", "TRADES", "1", "1", ""]);
    assert_eq!(read_fields(&m), expected);
    let f = ExecutionFilter {
        client_id: 1,
        acct_code: "DU1".to_string(),
        time: "".to_string(),
        symbol: "AAPL".to_string(),
        sec_type: "STK".to_string(),
        exchange: "".to_string(),
        side: "BUY".to_string(),
    };
    let m = req_executions_message(C, 151, 13, &f).unwrap();
    assert_eq!(read_fields(&m), vec!["7", "3", "13", "1", "DU1", "", "AAPL", "STK", "", "BUY"]);
    let m = req_executions_message(C, 41, 13, &f).unwrap();
    assert_eq!(read_fields(&m), vec!["7", "3", "1", "DU1", "", "AAPL", "STK", "", "BUY"]);
    let m = req_news_article_message(C, 151, 14, "BZ", "BZ$1", &none).unwrap();
    assert_eq!(read_fields(&m), vec!["84", "14", "BZ", "BZ$1", ""]);
    let m = req_historical_news_message(C, 151, 15, 8314, "BZ", "", "", 10, &none).unwrap();
    assert_eq!(read_fields(&m), vec!["86", "15", "8314", "BZ", "", "", "10", ""]);
    let (_, _, text) = error_of(req_historical_news_message(C, 116, 15, 8314, "BZ", "", "", 10, &none));
    assert!(text.ends_with(" It does not support historical news request."));
}

#[test]
fn scanner_subscription_and_wsh_events() {
    let mut s = twsapi::data_requests::ScannerSubscriptionFields::default();
    s.number_of_rows = 2147483647;
    s.instrument = "STK".to_string();
    s.location_code = "STK.US".to_string();
    s.scan_code = "TOP_PERC_GAIN".to_string();
    s.above_price = twsapi::place_order::FloatField { text: "5".to_string(), is_set: true, sign: 1 };
    s.above_volume = 2147483647;
    s.average_option_volume_above = 2147483647;
    let opts = vec![TagValue::new("a".to_string(), "1".to_string())];
    let none: Vec<TagValue> = Vec::new();
    let m = twsapi::data_requests::req_scanner_subscription_message(C, 151, 16, &s, &none, &opts).unwrap();
    assert_eq!(
        read_fields(&m),
        vec![
            "22", "16", "", "STK", "STK.US", "TOP_PERC_GAIN", "5", "", "", "", "", "", "", "", "", "", "",
            "", "", "0", "", "", "", "a=1;", ""
        ]
    );
    let (id, _, text) = error_of(twsapi::data_requests::req_scanner_subscription_message(C, 142, 16, &s, &none, &opts));
    assert_eq!(id, 16);
    assert!(text.ends_with(" It does not support API scanner subscription generic filter options"));
    let m = twsapi::data_requests::req_wsh_event_data_message(C, 163, 17, 8314).unwrap();
    assert_eq!(read_fields(&m), vec!["102", "17", "8314"]);
    let (id, _, _) = error_of(twsapi::data_requests::req_wsh_event_data_message(C, 160, 17, 8314));
    assert_eq!(id, -1);
}

#[test]
fn replace_fa_writes_the_data_type_by_number() {
    let m = twsapi::data_requests::replace_fa_message(C, 163, 18, twsapi::common::FaDataType::GROUPS, "<xml/>").unwrap();
    assert_eq!(read_fields(&m), vec!["19", "1", "1", "<xml/>", "18"]);
    let m = twsapi::data_requests::replace_fa_message(C, 156, 18, twsapi::common::FaDataType::ALIASES, "<xml/>").unwrap();
    assert_eq!(read_fields(&m), vec!["19", "1", "3", "<xml/>"]);
}
