//! What the decoder's loop does with each thing that its queue gives: a message of an allowed
//! size is split into its fields for decoding; a message that is too long is reported as an
//! error and ends the connection; a closed queue ends the connection too.
use vstd::prelude::*;

use crate::client::ConnStatus;
use crate::common::MAX_MSG_LEN;
use crate::decimal::{int_text, push_int_text};
use crate::errors::{tws_error_code, tws_error_message, TwsError};
use crate::messages::{read_fields, split_fields, texts};

verus! {

/// What the decoder does with a message that it received.
#[derive(Debug)]
pub enum ReceiveStep {
    /// Decode and dispatch these fields; the connection stays as it is.
    Interpret(Vec<String>),
    /// Report this error to the wrapper (with no request id), then the closed connection, and
    /// stop with the connection marked disconnected.
    TooLong { code: i32, text: String },
}

/// The text of the error for a message of `byte_len` bytes that is too long: the
/// `NotConnected` message, the length and the message itself, separated by colons.
pub open spec fn too_long_text(byte_len: usize, text: Seq<char>) -> Seq<char> {
    tws_error_message(TwsError::NotConnected) + ":"@ + int_text(byte_len as int) + ":"@ + text
}

/// Decides what to do with a received message of `byte_len` bytes (a text's length, which
/// never exceeds `isize::MAX`).
pub fn on_received(text: &str, byte_len: usize) -> (r: ReceiveStep)
    requires
        byte_len <= isize::MAX,
    ensures
        byte_len > MAX_MSG_LEN ==> (r matches ReceiveStep::TooLong { code, text: t } && code
            == tws_error_code(TwsError::NotConnected) && t@ == too_long_text(byte_len, text@)),
        byte_len <= MAX_MSG_LEN ==> (r matches ReceiveStep::Interpret(f) && texts(f@)
            == split_fields(text@)),
{
    if byte_len as u64 > MAX_MSG_LEN as u64 {
        let e = TwsError::NotConnected;
        let mut t = String::new();
        t.append(e.message());
        proof {
            reveal_strlit(":");
        }
        t.append(":");
        push_int_text(&mut t, byte_len as i64);
        t.append(":");
        t.append(text);
        assert(t@ =~= too_long_text(byte_len, text@));
        ReceiveStep::TooLong { code: e.code(), text: t }
    } else {
        ReceiveStep::Interpret(read_fields(text))
    }
}

/// The state after the queue closed, and whether the wrapper hears of the closed connection:
/// it does unless the connection was already marked disconnected.
pub fn on_queue_closed(state: ConnStatus) -> (r: (ConnStatus, bool))
    ensures
        r.0 == ConnStatus::DISCONNECTED,
        r.1 == (state != ConnStatus::DISCONNECTED),
{
    let notify = match state {
        ConnStatus::DISCONNECTED => false,
        _ => true,
    };
    (ConnStatus::DISCONNECTED, notify)
}

} // verus!
