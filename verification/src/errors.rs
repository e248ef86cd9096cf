//! Error codes of the TWS API and the library's error type.
use vstd::prelude::*;
use vstd::std_specs::convert::FromSpecImpl;

use crate::decimal::{int_text, push_int_text};

verus! {

/// `std::io::Error`, carried opaquely inside `IBKRApiLibError::Io`.
#[verifier::external_type_specification]
#[verifier::external_body]
pub struct ExIoError(std::io::Error);

/// `std::num::ParseFloatError`, carried opaquely inside `IBKRApiLibError::ParseFloat`.
#[verifier::external_type_specification]
#[verifier::external_body]
pub struct ExParseFloatError(std::num::ParseFloatError);

/// `std::num::ParseIntError`, carried opaquely inside `IBKRApiLibError::ParseInt`.
#[verifier::external_type_specification]
#[verifier::external_body]
pub struct ExParseIntError(std::num::ParseIntError);

/// `std::sync::mpsc::RecvError`, carried opaquely inside `IBKRApiLibError::RecvError`.
#[verifier::external_type_specification]
#[verifier::external_body]
pub struct ExRecvError(std::sync::mpsc::RecvError);

/// `std::sync::mpsc::RecvTimeoutError`, carried opaquely inside `IBKRApiLibError::RecvTimeoutError`.
#[verifier::external_type_specification]
#[verifier::external_body]
pub struct ExRecvTimeoutError(std::sync::mpsc::RecvTimeoutError);

/// Errors that the API itself reports, each with a fixed code and message.
#[derive(Clone, Copy, Debug, PartialEq, Eq)]
pub enum TwsError {
    AlreadyConnected,
    ConnectFail,
    UpdateTws,
    NotConnected,
    UnknownId,
    Unsupported,
    BadLength,
    BadMessage,
    SocketException,
    FailCreateSock,
    SslFail,
}

/// The code of each API error.
pub open spec fn tws_error_code(e: TwsError) -> int {
    match e {
        TwsError::AlreadyConnected => 501,
        TwsError::ConnectFail => 502,
        TwsError::UpdateTws => 503,
        TwsError::NotConnected => 504,
        TwsError::UnknownId => 505,
        TwsError::Unsupported => 506,
        TwsError::BadLength => 507,
        TwsError::BadMessage => 508,
        TwsError::SocketException => 509,
        TwsError::FailCreateSock => 520,
        TwsError::SslFail => 530,
    }
}

/// The message of each API error.
pub open spec fn tws_error_message(e: TwsError) -> Seq<char> {
    match e {
        TwsError::AlreadyConnected => "Already connected."@,
        TwsError::ConnectFail => "Couldn't connect to TWS. Confirm that \"Enable ActiveX and Socket EClients\"
                                            is enabled and connection port is the same as \"Socket Port\" on the
                                            TWS \"Edit->Global Configuration...->API->Settings\" menu. Live Trading ports:
                                            TWS: 7496; IB Gateway: 4001. Simulated Trading ports for new installations
                                            of version 954.1 or newer:  TWS: 7497; IB Gateway: 4002"@,
        TwsError::UpdateTws => "The TWS is out of date and must be upgraded."@,
        TwsError::NotConnected => "Not connected."@,
        TwsError::UnknownId => "Fatal TwsError: Unknown message id."@,
        TwsError::Unsupported => "UNSUPPORTED version"@,
        TwsError::BadLength => "Bad message length."@,
        TwsError::BadMessage => "Bad message."@,
        TwsError::SocketException => "Exception caught while reading socket."@,
        TwsError::FailCreateSock => "Failed to create socket."@,
        TwsError::SslFail => "SSL specific TwsError."@,
    }
}

impl TwsError {
    pub fn code(&self) -> (r: i32)
        ensures
            r == tws_error_code(*self),
    {
        match *self {
            TwsError::AlreadyConnected => 501,
            TwsError::ConnectFail => 502,
            TwsError::UpdateTws => 503,
            TwsError::NotConnected => 504,
            TwsError::UnknownId => 505,
            TwsError::Unsupported => 506,
            TwsError::BadLength => 507,
            TwsError::BadMessage => 508,
            TwsError::SocketException => 509,
            TwsError::FailCreateSock => 520,
            TwsError::SslFail => 530,
        }
    }

    pub fn message(&self) -> (r: &'static str)
        ensures
            r@ == tws_error_message(*self),
    {
        match *self {
            TwsError::AlreadyConnected => "Already connected.",
            TwsError::ConnectFail => "Couldn't connect to TWS. Confirm that \"Enable ActiveX and Socket EClients\"
                                            is enabled and connection port is the same as \"Socket Port\" on the
                                            TWS \"Edit->Global Configuration...->API->Settings\" menu. Live Trading ports:
                                            TWS: 7496; IB Gateway: 4001. Simulated Trading ports for new installations
                                            of version 954.1 or newer:  TWS: 7497; IB Gateway: 4002",
            TwsError::UpdateTws => "The TWS is out of date and must be upgraded.",
            TwsError::NotConnected => "Not connected.",
            TwsError::UnknownId => "Fatal TwsError: Unknown message id.",
            TwsError::Unsupported => "UNSUPPORTED version",
            TwsError::BadLength => "Bad message length.",
            TwsError::BadMessage => "Bad message.",
            TwsError::SocketException => "Exception caught while reading socket.",
            TwsError::FailCreateSock => "Failed to create socket.",
            TwsError::SslFail => "SSL specific TwsError.",
        }
    }

    /// The text `Code: <code>, Message: <message>`.
    pub fn to_string(&self) -> (r: String)
        ensures
            r@ == "Code: "@ + int_text(tws_error_code(*self)) + ", Message: "@ + tws_error_message(*self),
    {
        let mut r = String::from_str("Code: ");
        push_int_text(&mut r, self.code() as i64);
        r.append(", Message: ");
        r.append(self.message());
        r
    }
}

/// Every API error has its own code.
pub proof fn law_tws_error_codes_distinct(a: TwsError, b: TwsError)
    ensures
        tws_error_code(a) == tws_error_code(b) <==> a == b,
{
}

/// An error that TWS reported, or that the library reports in the same form.
#[derive(Clone, Debug)]
pub struct TwsApiReportableError {
    pub req_id: i32,
    pub code: String,
    pub description: String,
}

impl TwsApiReportableError {
    pub fn new(req_id: i32, code: String, description: String) -> (r: Self)
        ensures
            r.req_id == req_id,
            r.code@ == code@,
            r.description@ == description@,
    {
        Self { req_id: req_id, code: code, description: description }
    }

    /// The text `TWS Error: req_id = <id>. code = <code>. description = <description>`.
    pub fn to_string(&self) -> (r: String)
        ensures
            r@ == "TWS Error: req_id = "@ + int_text(self.req_id as int) + ". code = "@ + self.code@
                + ". description = "@ + self.description@,
    {
        let mut r = String::from_str("TWS Error: req_id = ");
        push_int_text(&mut r, self.req_id as i64);
        r.append(". code = ");
        r.append(self.code.as_str());
        r.append(". description = ");
        r.append(self.description.as_str());
        r
    }
}

/// The library's error type.
#[derive(Debug)]
pub enum IBKRApiLibError {
    Io(std::io::Error),
    ParseFloat(std::num::ParseFloatError),
    ParseInt(std::num::ParseIntError),
    RecvError(std::sync::mpsc::RecvError),
    RecvTimeoutError(std::sync::mpsc::RecvTimeoutError),
    ApiError(TwsApiReportableError),
}

/// True when `err` is the API error `e` reported for request `req_id`.
pub open spec fn is_api_error(err: IBKRApiLibError, req_id: int, e: TwsError) -> bool {
    match err {
        IBKRApiLibError::ApiError(r) => r.req_id == req_id && r.code@ == int_text(tws_error_code(e))
            && r.description@ == tws_error_message(e),
        _ => false,
    }
}

/// The library error for the API error `e` on request `req_id`: its code as decimal text and
/// its message, as the client reports it.
pub fn api_error(req_id: i32, e: TwsError) -> (r: IBKRApiLibError)
    ensures
        is_api_error(r, req_id as int, e),
{
    let mut code = String::new();
    push_int_text(&mut code, e.code() as i64);
    assert(code@ =~= int_text(tws_error_code(e)));
    IBKRApiLibError::ApiError(TwsApiReportableError::new(req_id, code, String::from_str(e.message())))
}

/// True when `err` is the API error `e` reported for request `req_id`, its message followed by
/// `suffix`.
pub open spec fn is_api_error_with(err: IBKRApiLibError, req_id: int, e: TwsError, suffix: Seq<char>) -> bool {
    match err {
        IBKRApiLibError::ApiError(r) => r.req_id == req_id && r.code@ == int_text(tws_error_code(e))
            && r.description@ == tws_error_message(e) + suffix,
        _ => false,
    }
}

/// The library error for the API error `e` on request `req_id`, its message followed by
/// `suffix`.
pub fn api_error_with(req_id: i32, e: TwsError, suffix: &str) -> (r: IBKRApiLibError)
    ensures
        is_api_error_with(r, req_id as int, e, suffix@),
{
    let mut code = String::new();
    push_int_text(&mut code, e.code() as i64);
    assert(code@ =~= int_text(tws_error_code(e)));
    let mut description = String::from_str(e.message());
    description.append(suffix);
    IBKRApiLibError::ApiError(TwsApiReportableError::new(req_id, code, description))
}

impl From<std::io::Error> for IBKRApiLibError {
    fn from(err: std::io::Error) -> (r: IBKRApiLibError) {
        IBKRApiLibError::Io(err)
    }
}

impl FromSpecImpl<std::io::Error> for IBKRApiLibError {
    open spec fn obeys_from_spec() -> bool {
        true
    }

    open spec fn from_spec(err: std::io::Error) -> IBKRApiLibError {
        IBKRApiLibError::Io(err)
    }
}

impl From<std::num::ParseIntError> for IBKRApiLibError {
    fn from(err: std::num::ParseIntError) -> (r: IBKRApiLibError) {
        IBKRApiLibError::ParseInt(err)
    }
}

impl FromSpecImpl<std::num::ParseIntError> for IBKRApiLibError {
    open spec fn obeys_from_spec() -> bool {
        true
    }

    open spec fn from_spec(err: std::num::ParseIntError) -> IBKRApiLibError {
        IBKRApiLibError::ParseInt(err)
    }
}

impl From<std::num::ParseFloatError> for IBKRApiLibError {
    fn from(err: std::num::ParseFloatError) -> (r: IBKRApiLibError) {
        IBKRApiLibError::ParseFloat(err)
    }
}

impl FromSpecImpl<std::num::ParseFloatError> for IBKRApiLibError {
    open spec fn obeys_from_spec() -> bool {
        true
    }

    open spec fn from_spec(err: std::num::ParseFloatError) -> IBKRApiLibError {
        IBKRApiLibError::ParseFloat(err)
    }
}

impl From<std::sync::mpsc::RecvError> for IBKRApiLibError {
    fn from(err: std::sync::mpsc::RecvError) -> (r: IBKRApiLibError) {
        IBKRApiLibError::RecvError(err)
    }
}

impl FromSpecImpl<std::sync::mpsc::RecvError> for IBKRApiLibError {
    open spec fn obeys_from_spec() -> bool {
        true
    }

    open spec fn from_spec(err: std::sync::mpsc::RecvError) -> IBKRApiLibError {
        IBKRApiLibError::RecvError(err)
    }
}

impl From<std::sync::mpsc::RecvTimeoutError> for IBKRApiLibError {
    fn from(err: std::sync::mpsc::RecvTimeoutError) -> (r: IBKRApiLibError) {
        IBKRApiLibError::RecvTimeoutError(err)
    }
}

impl FromSpecImpl<std::sync::mpsc::RecvTimeoutError> for IBKRApiLibError {
    open spec fn obeys_from_spec() -> bool {
        true
    }

    open spec fn from_spec(err: std::sync::mpsc::RecvTimeoutError) -> IBKRApiLibError {
        IBKRApiLibError::RecvTimeoutError(err)
    }
}

impl From<TwsApiReportableError> for IBKRApiLibError {
    fn from(err: TwsApiReportableError) -> (r: IBKRApiLibError) {
        IBKRApiLibError::ApiError(err)
    }
}

impl FromSpecImpl<TwsApiReportableError> for IBKRApiLibError {
    open spec fn obeys_from_spec() -> bool {
        true
    }

    open spec fn from_spec(err: TwsApiReportableError) -> IBKRApiLibError {
        IBKRApiLibError::ApiError(err)
    }
}

} // verus!
