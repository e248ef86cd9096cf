//! Connection state and the decisions of the client around it.
use vstd::prelude::*;
use vstd::utf8::encode_utf8;

use crate::decimal::parse_i32_text;
use crate::errors::{api_error, is_api_error, IBKRApiLibError, TwsError};

verus! {

/// Connection status.
#[derive(Clone, Copy, Debug, PartialEq, Eq)]
pub enum ConnStatus {
    DISCONNECTED,
    CONNECTING,
    CONNECTED,
    REDIRECT,
}

impl ConnStatus {
    /// The number that stands for each variant on the wire.
    pub open spec fn code_of(self) -> int {
        match self {
            ConnStatus::DISCONNECTED => 0,
            ConnStatus::CONNECTING => 1,
            ConnStatus::CONNECTED => 2,
            ConnStatus::REDIRECT => 3,
        }
    }

    /// The variant that a number stands for, if any.
    pub open spec fn from_code(n: int) -> Option<ConnStatus> {
        if n == 0 {
            Some(ConnStatus::DISCONNECTED)
        } else if n == 1 {
            Some(ConnStatus::CONNECTING)
        } else if n == 2 {
            Some(ConnStatus::CONNECTED)
        } else if n == 3 {
            Some(ConnStatus::REDIRECT)
        } else {
            None
        }
    }

    /// The number of the variant; reading it back gives the variant again.
    pub fn to_i32(&self) -> (r: i32)
        ensures
            r == self.code_of(),
            ConnStatus::from_code(r as int) == Some(*self),
    {
        match self {
            ConnStatus::DISCONNECTED => 0,
            ConnStatus::CONNECTING => 1,
            ConnStatus::CONNECTED => 2,
            ConnStatus::REDIRECT => 3,
        }
    }

    /// The variant that `n` stands for, if any.
    pub fn from_i32(n: i32) -> (r: Option<ConnStatus>)
        ensures
            r == ConnStatus::from_code(n as int),
    {
        match n {
            0 => Some(ConnStatus::DISCONNECTED),
            1 => Some(ConnStatus::CONNECTING),
            2 => Some(ConnStatus::CONNECTED),
            3 => Some(ConnStatus::REDIRECT),
            _ => None,
        }
    }
}

impl ConnStatus {
    /// Whether the client is connected: only in state `CONNECTED`.
    pub fn is_connected(&self) -> (r: bool)
        ensures
            r == (*self == ConnStatus::CONNECTED),
    {
        match *self {
            ConnStatus::DISCONNECTED => false,
            ConnStatus::CONNECTED => true,
            ConnStatus::CONNECTING => false,
            ConnStatus::REDIRECT => false,
        }
    }
}

/// `Ok` when connected, else the error `NotConnected` for request `req_id`.
pub fn check_connected(status: ConnStatus, req_id: i32) -> (r: Result<(), IBKRApiLibError>)
    ensures
        r is Ok <==> status == ConnStatus::CONNECTED,
        r matches Err(e) ==> is_api_error(e, req_id as int, TwsError::NotConnected),
{
    if status.is_connected() {
        Ok(())
    } else {
        Err(api_error(req_id, TwsError::NotConnected))
    }
}

/// `Ok` when a connection may be opened, else the error `AlreadyConnected`.
pub fn check_not_connected(status: ConnStatus) -> (r: Result<(), IBKRApiLibError>)
    ensures
        r is Ok <==> status != ConnStatus::CONNECTED,
        r matches Err(e) ==> is_api_error(e, -1, TwsError::AlreadyConnected),
{
    if status.is_connected() {
        Err(api_error(-1, TwsError::AlreadyConnected))
    } else {
        Ok(())
    }
}

/// Bytes read as characters, one character per byte.
pub open spec fn byte_chars(b: Seq<u8>) -> Seq<char> {
    b.map_values(|x: u8| x as char)
}

/// `<i32 as from_ascii::FromAscii>::from_ascii`: the `i32` that ASCII decimal text holds (an
/// optional `+` or `-`, then at least one digit, the value in range); any other bytes are an
/// error.
#[verifier::external_body]
fn i32_from_ascii(s: &[u8]) -> (r: Option<i32>)
    ensures
        r matches Some(v) ==> parse_i32_text(byte_chars(s@)) == Some(v as int),
        r is None ==> parse_i32_text(byte_chars(s@)) is None,
{
    match <i32 as from_ascii::FromAscii>::from_ascii(s) {
        Ok(v) => Some(v),
        Err(_) => None,
    }
}

/// The server version and connection time that the handshake reply carries: the reply is
/// complete when it has exactly two fields, the first of them the version as ASCII digits.
/// `None` for any other reply.
pub fn handshake_reply(fields: &Vec<String>) -> (r: Option<(i32, String)>)
    ensures
        r matches Some((version, time)) ==> fields.len() == 2
            && parse_i32_text(byte_chars(encode_utf8(fields[0]@))) == Some(version as int)
            && time@ == fields[1]@,
        r is None <==> fields.len() != 2 || parse_i32_text(byte_chars(encode_utf8(fields[0]@))) is None,
{
    if fields.len() != 2 {
        return None;
    }
    match i32_from_ascii(fields[0].as_str().as_bytes()) {
        Some(version) => Some((version, fields[1].clone())),
        None => None,
    }
}

} // verus!
