use twsapi::errors::{api_error, IBKRApiLibError, TwsApiReportableError, TwsError};

#[test]
fn error_codes_and_messages() {
    assert_eq!(TwsError::AlreadyConnected.code(), 501);
    assert_eq!(TwsError::NotConnected.code(), 504);
    assert_eq!(TwsError::FailCreateSock.code(), 520);
    assert_eq!(TwsError::SslFail.code(), 530);
    assert_eq!(TwsError::BadLength.message(), "Bad message length.");
    assert!(TwsError::ConnectFail.message().starts_with("Couldn't connect to TWS."));
    assert_eq!(TwsError::NotConnected.to_string(), "Code: 504, Message: Not connected.");
}

#[test]
fn law_tws_error_codes_distinct_on_values() {
    let all = [
        TwsError::AlreadyConnected, TwsError::ConnectFail, TwsError::UpdateTws, TwsError::NotConnected,
        TwsError::UnknownId, TwsError::Unsupported, TwsError::BadLength, TwsError::BadMessage,
        TwsError::SocketException, TwsError::FailCreateSock, TwsError::SslFail,
    ];
    for a in all.iter() {
        for b in all.iter() {
            assert_eq!(a.code() == b.code(), a == b);
        }
    }
}

#[test]
fn reportable_error_text() {
    let e = TwsApiReportableError::new(7, "200".to_string(), "No security definition".to_string());
    assert_eq!(e.to_string(), "TWS Error: req_id = 7. code = 200. description = No security definition");
}

#[test]
fn api_error_carries_code_and_message() {
    match api_error(3, TwsError::UnknownId) {
        IBKRApiLibError::ApiError(e) => {
            assert_eq!(e.req_id, 3);
            assert_eq!(e.code, "505");
            assert_eq!(e.description, "Fatal TwsError: Unknown message id.");
        }
        _ => panic!("expected an API error"),
    }
}

#[test]
fn std_errors_convert() {
    let e: IBKRApiLibError = "x".parse::<i32>().unwrap_err().into();
    assert!(matches!(e, IBKRApiLibError::ParseInt(_)));
    let e: IBKRApiLibError = std::io::Error::new(std::io::ErrorKind::Other, "boom").into();
    assert!(matches!(e, IBKRApiLibError::Io(_)));
    let e: IBKRApiLibError = TwsApiReportableError::new(1, "1".to_string(), "d".to_string()).into();
    assert!(matches!(e, IBKRApiLibError::ApiError(_)));
}
