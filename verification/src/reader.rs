//! Splitting the packets that the socket delivers into messages.
use vstd::prelude::*;
use vstd::utf8::{decode_utf8, encode_utf8, valid_utf8};

use crate::errors::{is_api_error, IBKRApiLibError, TwsError};
use crate::messages::{be32_value, frame, law_read_framed_message, read_msg, read_msg_spec};

verus! {

/// The messages that one packet yields, read off its front one after the other until the
/// packet is used up or a message is empty or incomplete (its bytes are then dropped), and
/// whether reading stopped on a payload that is not UTF-8.
pub open spec fn packet_messages(b: Seq<u8>) -> (Seq<Seq<char>>, bool)
    decreases b.len(),
{
    if b.len() < 4 {
        (seq![], false)
    } else {
        let size = be32_value(b);
        if b.len() - 4 >= size {
            let payload = b.subrange(4, 4 + size as int);
            if !valid_utf8(payload) {
                (seq![], true)
            } else {
                let text = decode_utf8(payload);
                if text.len() == 0 {
                    (seq![], false)
                } else {
                    let more = packet_messages(b.subrange(4 + size as int, b.len() as int));
                    (seq![text] + more.0, more.1)
                }
            }
        } else {
            (seq![], false)
        }
    }
}

/// The bytes of framed messages sent one after the other.
pub open spec fn frames(ms: Seq<Seq<char>>) -> Seq<u8>
    decreases ms.len(),
{
    if ms.len() == 0 {
        seq![]
    } else {
        frame(ms[0]) + frames(ms.drop_first())
    }
}

/// Reads the messages of one packet. Returns them in order, and the error when reading stopped
/// on a payload that is not UTF-8.
pub fn read_packet_messages(packet: &[u8]) -> (r: (Vec<String>, Option<IBKRApiLibError>))
    ensures
        r.0@.map_values(|m: String| m@) == packet_messages(packet@).0,
        r.1 is Some == packet_messages(packet@).1,
        r.1 matches Some(e) ==> is_api_error(e, -1, TwsError::BadMessage),
{
    let mut messages: Vec<String> = Vec::new();
    let mut rest: Vec<u8> = Vec::new();
    let mut i: usize = 0;
    while i < packet.len()
        invariant
            0 <= i <= packet.len(),
            rest@ == packet@.take(i as int),
        decreases packet.len() - i,
    {
        rest.push(packet[i]);
        i = i + 1;
        assert(rest@ =~= packet@.take(i as int));
    }
    assert(rest@ =~= packet@);
    loop
        invariant
            messages@.map_values(|m: String| m@) + packet_messages(rest@).0 == packet_messages(packet@).0,
            packet_messages(rest@).1 == packet_messages(packet@).1,
        decreases rest@.len(),
    {
        if rest.len() == 0 {
            assert(messages@.map_values(|m: String| m@) + Seq::<Seq<char>>::empty() =~= messages@.map_values(|m: String| m@));
            return (messages, None);
        }
        let ghost b = rest@;
        match read_msg(rest.as_slice()) {
            Err(e) => {
                assert(messages@.map_values(|m: String| m@) + Seq::<Seq<char>>::empty() =~= messages@.map_values(|m: String| m@));
                return (messages, Some(e));
            },
            Ok((_size, msg, remaining)) => {
                if msg.as_str().is_empty() {
                    assert(messages@.map_values(|m: String| m@) + Seq::<Seq<char>>::empty() =~= messages@.map_values(|m: String| m@));
                    return (messages, None);
                }
                let ghost old_messages = messages@;
                messages.push(msg);
                assert(messages@.map_values(|m: String| m@) =~= old_messages.map_values(|m: String| m@) + seq![messages@.last()@]);
                rest = remaining;
            },
        }
    }
}

/// A packet made of framed non-empty messages yields exactly those messages, in order.
pub proof fn law_packet_of_frames(ms: Seq<Seq<char>>)
    requires
        forall|i: int| 0 <= i < ms.len() ==> (#[trigger] ms[i]).len() > 0 && encode_utf8(ms[i]).len() <= u32::MAX,
    ensures
        packet_messages(frames(ms)) == (ms, false),
    decreases ms.len(),
{
    if ms.len() > 0 {
        let rest = ms.drop_first();
        assert forall|i: int| 0 <= i < rest.len() implies (#[trigger] rest[i]).len() > 0 && encode_utf8(rest[i]).len() <= u32::MAX by {
            assert(rest[i] == ms[i + 1]);
        }
        law_packet_of_frames(rest);
        law_read_framed_message(ms[0], frames(rest));
        assert(seq![ms[0]] + rest =~= ms);
    }
}

} // verus!
