use twsapi::errors::IBKRApiLibError;
use twsapi::messages::{
    make_field_bool, make_field_i32, make_field_i64, make_field_str, make_message, read_fields,
    read_msg,
};

#[test]
fn fields_end_with_nul() {
    assert_eq!(make_field_str("STK"), "STK\0");
    assert_eq!(make_field_str(""), "\0");
    assert_eq!(make_field_i32(-15), "-15\0");
    assert_eq!(make_field_i64(123456789012), "123456789012\0");
    assert_eq!(make_field_bool(true), "1\0");
    assert_eq!(make_field_bool(false), "0\0");
}

#[test]
fn read_fields_splits_on_nul_and_drops_the_tail() {
    assert_eq!(read_fields("a\0bc\0\0d"), vec!["a".to_string(), "bc".to_string(), "".to_string()]);
    assert_eq!(read_fields(""), Vec::<String>::new());
    assert_eq!(read_fields("no terminator"), Vec::<String>::new());
}

#[test]
fn law_split_join_fields_on_values() {
    let fields = ["4", "2", "", "AAPL"];
    let mut text = String::new();
    for f in fields.iter() {
        text.push_str(&make_field_str(f));
    }
    assert_eq!(read_fields(&text), fields.iter().map(|f| f.to_string()).collect::<Vec<_>>());
}

#[test]
fn make_message_prefixes_the_byte_length() {
    assert_eq!(make_message("abc"), vec![0, 0, 0, 3, b'a', b'b', b'c']);
    assert_eq!(make_message(""), vec![0, 0, 0, 0]);
    // two bytes for one char
    assert_eq!(make_message("é"), vec![0, 0, 0, 2, 0xc3, 0xa9]);
    let long = "x".repeat(300);
    let m = make_message(&long);
    assert_eq!(&m[0..4], &[0, 0, 1, 44]);
    assert_eq!(m.len(), 304);
}

#[test]
fn law_read_framed_message_on_values() {
    let mut buf = make_message("1\02\0");
    buf.extend_from_slice(&[9, 9]);
    let (size, text, rest) = read_msg(&buf).ok().unwrap();
    assert_eq!(size, 4);
    assert_eq!(text, "1\02\0");
    assert_eq!(rest, vec![9, 9]);
}

#[test]
fn read_msg_short_and_incomplete_buffers() {
    let (size, text, rest) = read_msg(&[0, 0, 1]).ok().unwrap();
    assert_eq!((size, text.as_str(), rest), (0, "", vec![0, 0, 1]));
    let (size, text, rest) = read_msg(&[0, 0, 0, 5, b'a']).ok().unwrap();
    assert_eq!((size, text.as_str(), rest), (5, "", vec![0, 0, 0, 5, b'a']));
}

#[test]
fn read_msg_rejects_a_payload_that_is_not_utf8() {
    match read_msg(&[0, 0, 0, 2, 0xff, 0xfe]) {
        Err(IBKRApiLibError::ApiError(e)) => {
            assert_eq!(e.req_id, -1);
            assert_eq!(e.code, "508");
            assert_eq!(e.description, "Bad message.");
        }
        _ => panic!("expected the error BadMessage"),
    }
}
