use twsapi::messages::make_message;
use twsapi::reader::read_packet_messages;

#[test]
fn law_packet_of_frames_on_values() {
    let mut packet = make_message("15\01\0DU123\0");
    packet.extend(make_message("9\01\0100\0"));
    let (msgs, err) = read_packet_messages(&packet);
    assert!(err.is_none());
    assert_eq!(msgs, vec!["15\01\0DU123\0".to_string(), "9\01\0100\0".to_string()]);
}

#[test]
fn an_empty_message_ends_the_packet() {
    let mut packet = make_message("a");
    packet.extend(make_message(""));
    packet.extend(make_message("b"));
    let (msgs, err) = read_packet_messages(&packet);
    assert!(err.is_none());
    assert_eq!(msgs, vec!["a".to_string()]);
}

#[test]
fn an_incomplete_message_is_not_read() {
    let mut packet = make_message("first");
    packet.extend_from_slice(&[0, 0, 0, 10, b'x']);
    let (msgs, err) = read_packet_messages(&packet);
    assert!(err.is_none());
    assert_eq!(msgs, vec!["first".to_string()]);
    let (msgs, err) = read_packet_messages(&[]);
    assert!(err.is_none() && msgs.is_empty());
}

#[test]
fn a_payload_that_is_not_utf8_stops_reading() {
    let mut packet = make_message("ok");
    packet.extend_from_slice(&[0, 0, 0, 1, 0x80]);
    packet.extend(make_message("lost"));
    let (msgs, err) = read_packet_messages(&packet);
    assert_eq!(msgs, vec!["ok".to_string()]);
    assert!(err.is_some());
}
