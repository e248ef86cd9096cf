use twsapi::client::{check_connected, check_not_connected, handshake_reply, ConnStatus};
use twsapi::errors::IBKRApiLibError;

#[test]
fn only_connected_is_connected() {
    assert!(ConnStatus::CONNECTED.is_connected());
    assert!(!ConnStatus::CONNECTING.is_connected());
    assert!(!ConnStatus::DISCONNECTED.is_connected());
    assert!(!ConnStatus::REDIRECT.is_connected());
    assert_eq!(ConnStatus::REDIRECT.to_i32(), 3);
    assert_eq!(ConnStatus::from_i32(2), Some(ConnStatus::CONNECTED));
}

#[test]
fn check_connected_reports_not_connected() {
    assert!(check_connected(ConnStatus::CONNECTED, 5).is_ok());
    match check_connected(ConnStatus::CONNECTING, 5) {
        Err(IBKRApiLibError::ApiError(e)) => {
            assert_eq!((e.req_id, e.code.as_str(), e.description.as_str()), (5, "504", "Not connected."));
        }
        _ => panic!("expected NotConnected"),
    }
}

#[test]
fn check_not_connected_reports_already_connected() {
    assert!(check_not_connected(ConnStatus::DISCONNECTED).is_ok());
    match check_not_connected(ConnStatus::CONNECTED) {
        Err(IBKRApiLibError::ApiError(e)) => {
            assert_eq!((e.req_id, e.code.as_str(), e.description.as_str()), (-1, "501", "Already connected."));
        }
        _ => panic!("expected AlreadyConnected"),
    }
}

#[test]
fn handshake_reply_reads_version_and_time() {
    let fields = vec!["176".to_string(), "20240101 10:00:00 EST".to_string()];
    assert_eq!(handshake_reply(&fields), Some((176, "20240101 10:00:00 EST".to_string())));
    let fields = vec!["-12".to_string(), "t".to_string()];
    assert_eq!(handshake_reply(&fields), Some((-12, "t".to_string())));
    let fields = vec!["17a".to_string(), "t".to_string()];
    assert_eq!(handshake_reply(&fields), None);
    let fields = vec!["4".to_string(), "1".to_string(), "hello".to_string()];
    assert_eq!(handshake_reply(&fields), None);
    let fields = vec!["99999999999".to_string(), "t".to_string()];
    assert_eq!(handshake_reply(&fields), None);
}
