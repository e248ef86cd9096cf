use twsapi::client::ConnStatus;
use twsapi::receive::{on_queue_closed, on_received, ReceiveStep};
use twsapi::messages::{make_field_bool, make_field_i32, make_field_i64, read_fields};
use twsapi::common::UNSET_INTEGER;
use twsapi::decoder::{decode_bool, decode_i32, decode_i32_show_unset, decode_i64, decode_string};

fn fields(v: &[&str]) -> Vec<String> {
    v.iter().map(|s| s.to_string()).collect()
}

#[test]
fn decoders_read_fields_in_order() {
    let f = fields(&["42", "x", "-7", "9000000000", "", "0", "1"]);
    let mut it = f.iter();
    assert_eq!(decode_i32(&mut it).ok(), Some(42));
    assert_eq!(decode_i32(&mut it).ok(), Some(0));
    assert_eq!(decode_i32_show_unset(&mut it).ok(), Some(-7));
    assert_eq!(decode_i64(&mut it).ok(), Some(9000000000));
    assert_eq!(decode_string(&mut it).ok(), Some("".to_string()));
    assert_eq!(decode_bool(&mut it).ok(), Some(false));
    assert_eq!(decode_bool(&mut it).ok(), Some(true));
    assert_eq!(decode_bool(&mut it).ok(), Some(false));
}

#[test]
fn zero_reads_as_unset() {
    let f = fields(&["0", "abc"]);
    let mut it = f.iter();
    assert_eq!(decode_i32_show_unset(&mut it).ok(), Some(UNSET_INTEGER));
    assert_eq!(decode_i32_show_unset(&mut it).ok(), Some(UNSET_INTEGER));
}

#[test]
fn out_of_range_numbers_read_as_zero() {
    let f = fields(&["2147483648", "9223372036854775808"]);
    let mut it = f.iter();
    assert_eq!(decode_i32(&mut it).ok(), Some(0));
    assert_eq!(decode_i64(&mut it).ok(), Some(0));
}

#[test]
fn written_fields_read_back() {
    let text = make_field_i32(-42) + &make_field_i64(-9000000000) + &make_field_bool(true) + &make_field_bool(false);
    let f = read_fields(&text);
    let mut it = f.iter();
    assert_eq!(decode_i32(&mut it).ok(), Some(-42));
    assert_eq!(decode_i64(&mut it).ok(), Some(-9000000000));
    assert_eq!(decode_bool(&mut it).ok(), Some(true));
    assert_eq!(decode_bool(&mut it).ok(), Some(false));
}

#[test]
fn received_messages_are_split_or_refused_by_length() {
    match on_received("9\01\042\0", 7) {
        ReceiveStep::Interpret(f) => assert_eq!(f, vec!["9".to_string(), "1".to_string(), "42".to_string()]),
        other => panic!("unexpected {:?}", other),
    }
    match on_received("xyz", 0x1000000) {
        ReceiveStep::TooLong { code, text } => {
            assert_eq!(code, 504);
            assert_eq!(text, "Not connected.:16777216:xyz");
        }
        other => panic!("unexpected {:?}", other),
    }
    assert_eq!(on_queue_closed(ConnStatus::CONNECTED), (ConnStatus::DISCONNECTED, true));
    assert_eq!(on_queue_closed(ConnStatus::DISCONNECTED), (ConnStatus::DISCONNECTED, false));
}
