use twsapi::client::ConnStatus;
use twsapi::common::TagValue;
use twsapi::contract::{ComboLegFields, ContractFields, DeltaNeutralFields};
use twsapi::contract_requests::{
    req_contract_details_message, req_mkt_data_message, req_mkt_depth_message,
};
use twsapi::errors::IBKRApiLibError;
use twsapi::messages::read_fields;

fn stock() -> ContractFields {
    let mut c = ContractFields::default();
    c.con_id = 265598;
    c.symbol = "AAPL".to_string();
    c.sec_type = "STK".to_string();
    c.strike = "0".to_string();
    c.exchange = "SMART".to_string();
    c.primary_exchange = "ISLAND".to_string();
    c.currency = "USD".to_string();
    c
}

fn description(r: Result<String, IBKRApiLibError>) -> (i32, String, String) {
    match r {
        Err(IBKRApiLibError::ApiError(e)) => (e.req_id, e.code, e.description),
        other => panic!("unexpected {:?}", other),
    }
}

#[test]
fn contract_details_on_a_current_server() {
    let m = req_contract_details_message(ConnStatus::CONNECTED, 151, 3, &stock()).unwrap();
    assert_eq!(
        read_fields(&m),
        vec!["9", "8", "3", "265598", "AAPL", "STK", "", "0", "", "", "SMART", "ISLAND", "USD", "", "", "0", "", ""]
    );
}

#[test]
fn contract_details_on_a_linking_server_joins_the_exchanges() {
    let m = req_contract_details_message(ConnStatus::CONNECTED, 72, 3, &stock()).unwrap();
    let f = read_fields(&m);
    assert_eq!(f[10], "SMART:ISLAND");
    assert_eq!(f[11], "USD");
}

#[test]
fn contract_details_refused_by_an_old_server() {
    let (id, code, text) = description(req_contract_details_message(ConnStatus::CONNECTED, 69, 3, &stock()));
    assert_eq!((id, code.as_str()), (3, "503"));
    assert!(text.ends_with(" It does not support primary_exchange parameter in req_contract_details."));
}

#[test]
fn market_depth_fields_and_refusals() {
    let none: Vec<TagValue> = Vec::new();
    let m = req_mkt_depth_message(ConnStatus::CONNECTED, 151, 4, &stock(), 5, true, &none).unwrap();
    assert_eq!(
        read_fields(&m),
        vec!["10", "5", "4", "265598", "AAPL", "STK", "", "0", "", "", "SMART", "ISLAND", "USD", "", "", "5", "1", ""]
    );
    let (id, code, text) = description(req_mkt_depth_message(ConnStatus::CONNECTED, 140, 4, &stock(), 5, true, &none));
    assert_eq!((id, code.as_str()), (4, "503"));
    assert!(text.ends_with(" It does not support SMART depth request."));
    let opts = vec![TagValue::new("a".to_string(), "b".to_string())];
    let (_, code, _) = description(req_mkt_depth_message(ConnStatus::CONNECTED, 151, 4, &stock(), 5, true, &opts));
    assert_eq!(code, "506");
    let (id, _, _) = description(req_mkt_depth_message(ConnStatus::DISCONNECTED, 151, 4, &stock(), 5, true, &none));
    assert_eq!(id, -1);
}

#[test]
fn market_data_fields_with_combo_legs() {
    let none: Vec<TagValue> = Vec::new();
    let leg = ComboLegFields { con_id: 1, ratio: "1".to_string(), action: "BUY".to_string(), exchange: "SMART".to_string(), ..Default::default() };
    let mut c = stock();
    c.sec_type = "BAG".to_string();
    c.combo_legs = vec![leg.clone(), leg];
    c.delta_neutral_contract = Some(DeltaNeutralFields { con_id: 5, delta: "0.5".to_string(), price: "10".to_string() });
    let m = req_mkt_data_message(ConnStatus::CONNECTED, 151, 8, &c, "233", false, true, &none).unwrap();
    assert_eq!(
        read_fields(&m),
        vec![
            "1", "11", "8", "265598", "AAPL", "BAG", "", "0", "", "", "SMART", "ISLAND", "USD", "", "",
            "2", "1", "1", "BUY", "SMART", "1", "1", "BUY", "SMART",
            "1", "5", "0.5", "10", "233", "0", "1", ""
        ]
    );
    let (id, code, _) = description(req_mkt_data_message(ConnStatus::CONNECTED, 46, 8, &c, "", false, false, &none));
    // A contract id sent to a server too old for contract ids is refused as `NotConnected`.
    assert_eq!((id, code.as_str()), (8, "504"));
}
