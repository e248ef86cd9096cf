use twsapi::client::ConnStatus;
use twsapi::errors::IBKRApiLibError;
use twsapi::messages::read_fields;
use twsapi::requests::{
    cancel_mkt_data_message, cancel_mkt_depth_message, req_account_summary_message,
    req_current_time_message, req_pnl_single_message, verify_request_message,
};

fn api_error(r: Result<String, IBKRApiLibError>) -> (i32, String, String) {
    match r {
        Err(IBKRApiLibError::ApiError(e)) => (e.req_id, e.code, e.description),
        other => panic!("unexpected {:?}", other),
    }
}

#[test]
fn cancel_mkt_data_fields() {
    let m = cancel_mkt_data_message(ConnStatus::CONNECTED, 7).unwrap();
    assert_eq!(m, "2\u{0}2\u{0}7\u{0}");
    assert_eq!(read_fields(&m), vec!["2", "2", "7"]);
}

#[test]
fn not_connected_is_an_error_for_the_request() {
    let (id, code, text) = api_error(cancel_mkt_data_message(ConnStatus::DISCONNECTED, 7));
    assert_eq!((id, code.as_str(), text.as_str()), (7, "504", "Not connected."));
}

#[test]
fn current_time_needs_no_connection() {
    assert_eq!(req_current_time_message().unwrap(), "49\u{0}2\u{0}");
}

#[test]
fn old_server_gets_update_tws() {
    let (id, code, text) = api_error(req_pnl_single_message(ConnStatus::CONNECTED, 120, 3, "U1", "", 265598));
    assert_eq!((id, code.as_str()), (3, "503"));
    assert!(text.ends_with(" It does not support PnL request."));
    let m = req_pnl_single_message(ConnStatus::CONNECTED, 151, 3, "U1", "", 265598).unwrap();
    assert_eq!(read_fields(&m), vec!["94", "3", "U1", "", "265598"]);
}

#[test]
fn smart_depth_flag_sent_only_to_new_servers() {
    assert_eq!(read_fields(&cancel_mkt_depth_message(ConnStatus::CONNECTED, 151, 4, true).unwrap()), vec!["11", "1", "4", "1"]);
    assert_eq!(read_fields(&cancel_mkt_depth_message(ConnStatus::CONNECTED, 140, 4, false).unwrap()), vec!["11", "1", "4"]);
    let (id, _, text) = api_error(cancel_mkt_depth_message(ConnStatus::CONNECTED, 140, 4, true));
    assert_eq!(id, 4);
    assert!(text.ends_with(" It does not support SMART depth cancel."));
}

#[test]
fn account_summary_and_verify() {
    let m = req_account_summary_message(ConnStatus::CONNECTED, 9, "All", "NetLiquidation").unwrap();
    assert_eq!(read_fields(&m), vec!["62", "2", "9", "All", "NetLiquidation"]);
    let (id, code, _) = api_error(verify_request_message(ConnStatus::CONNECTED, 151, false, "app", "1"));
    assert_eq!((id, code.as_str()), (-1, "508"));
}

#[test]
fn managed_accounts_fa_and_scanner_cancel_fields() {
    let m = twsapi::requests::req_managed_accts_message(ConnStatus::CONNECTED).unwrap();
    assert_eq!(read_fields(&m), vec!["17", "1"]);
    let m = twsapi::requests::request_fa_message(ConnStatus::CONNECTED, twsapi::common::FaDataType::ALIASES).unwrap();
    assert_eq!(read_fields(&m), vec!["18", "1", "3"]);
    let m = twsapi::requests::cancel_scanner_subscription_message(ConnStatus::CONNECTED, 9).unwrap();
    assert_eq!(read_fields(&m), vec!["23", "1", "9"]);
    let (id, code, _) = api_error(twsapi::requests::req_managed_accts_message(ConnStatus::DISCONNECTED));
    assert_eq!((id, code.as_str()), (-1, "504"));
}
