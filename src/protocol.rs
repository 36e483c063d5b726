use vstd::prelude::*;

use crate::common::{Metrics, Packet, Status, PACKET_METRICS, PACKET_STATUS};

verus! {

/// The bytes that stand for `p` on the wire: the tag, then the fields, the RAM figure
/// big-endian.
pub open spec fn encode(p: Packet) -> Seq<u8> {
    match p {
        Packet::Metrics(m) => seq![PACKET_METRICS, m.cpu, (m.ram / 256) as u8, (m.ram % 256) as u8],
        Packet::Status(s) => seq![PACKET_STATUS, s.battery, if s.led_on { 1u8 } else { 0u8 }],
    }
}

/// The number of bytes that follow `tag` in a frame, if `tag` is known.
pub open spec fn body_len(tag: u8) -> Option<nat> {
    if tag == PACKET_METRICS {
        Some(3)
    } else if tag == PACKET_STATUS {
        Some(2)
    } else {
        None
    }
}

/// What the decoder makes of the bytes at the head of the stream: the packet, if one is
/// complete, and how many bytes it takes from the stream. An unknown tag takes exactly its
/// own byte; an empty stream, or a known tag whose body has not fully arrived, takes none.
pub open spec fn decode(s: Seq<u8>) -> (Option<Packet>, nat) {
    if s.len() == 0 {
        (None, 0)
    } else if s[0] == PACKET_METRICS {
        if s.len() >= 4 {
            (Some(Packet::Metrics(Metrics { cpu: s[1], ram: (s[2] * 256 + s[3]) as u16 })), 4)
        } else {
            (None, 0)
        }
    } else if s[0] == PACKET_STATUS {
        if s.len() >= 3 {
            (Some(Packet::Status(Status { battery: s[1], led_on: s[2] != 0 })), 3)
        } else {
            (None, 0)
        }
    } else {
        (None, 1)
    }
}

/// Writes `packet` as its frame on the wire.
pub fn serialize_packet(packet: Packet) -> (r: Vec<u8>)
    ensures
        r@ == encode(packet),
        r@.len() == match packet {
            Packet::Metrics(_) => 4int,
            Packet::Status(_) => 3int,
        },
{
    match packet {
        Packet::Metrics(m) => {
            let mut buf: Vec<u8> = Vec::new();
            buf.push(PACKET_METRICS);
            buf.push(m.cpu);
            let ram: u16 = m.ram;
            let high: u8 = (ram >> 8) as u8;
            let low: u8 = (ram & 0xFF) as u8;
            assert(high == (ram / 256) as u8 && low == (ram % 256) as u8) by (bit_vector)
                requires
                    high == (ram >> 8) as u8,
                    low == (ram & 0xFF) as u8,
            ;
            buf.push(high);
            buf.push(low);
            assert(buf@ =~= encode(packet));
            buf
        },
        Packet::Status(s) => {
            let mut buf: Vec<u8> = Vec::new();
            buf.push(PACKET_STATUS);
            buf.push(s.battery);
            buf.push(if s.led_on { 1u8 } else { 0u8 });
            assert(buf@ =~= encode(packet));
            buf
        },
    }
}

/// Joins a big-endian pair of bytes into a 16-bit value.
pub fn deserialize_u16(high: u8, low: u8) -> (r: u16)
    ensures
        r == high * 256 + low,
{
    let r: u16 = ((high as u16) << 8) | (low as u16);
    assert(r == high * 256 + low) by (bit_vector)
        requires
            r == ((high as u16) << 8) | (low as u16),
    ;
    r
}

/// The number of bytes that follow `tag` in a frame, or `None` for a tag that the
/// protocol does not know.
pub fn packet_body_len(tag: u8) -> (r: Option<usize>)
    ensures
        r matches Some(n) ==> body_len(tag) == Some(n as nat),
        r is None ==> body_len(tag) is None,
{
    if tag == PACKET_METRICS {
        Some(3)
    } else if tag == PACKET_STATUS {
        Some(2)
    } else {
        None
    }
}

/// Decodes the packet at the head of `bytes` and says how many bytes it used.
pub fn deserialize_packet(bytes: &[u8]) -> (r: (Option<Packet>, usize))
    ensures
        (r.0, r.1 as nat) == decode(bytes@),
{
    if bytes.len() == 0 {
        return (None, 0);
    }
    let tag: u8 = bytes[0];
    if tag == PACKET_METRICS {
        if bytes.len() < 4 {
            return (None, 0);
        }
        let cpu: u8 = bytes[1];
        let ram: u16 = deserialize_u16(bytes[2], bytes[3]);
        (Some(Packet::Metrics(Metrics { cpu, ram })), 4)
    } else if tag == PACKET_STATUS {
        if bytes.len() < 3 {
            return (None, 0);
        }
        let battery: u8 = bytes[1];
        let led_on: bool = bytes[2] != 0;
        (Some(Packet::Status(Status { battery, led_on })), 3)
    } else {
        (None, 1)
    }
}

/// Decoding the frame of any packet, whatever follows it on the wire, gives that packet
/// back and uses exactly the frame's bytes.
pub proof fn lemma_round_trip(p: Packet, rest: Seq<u8>)
    ensures
        decode(encode(p) + rest) == (Some(p), encode(p).len()),
{
    let s = encode(p) + rest;
    match p {
        Packet::Metrics(m) => {
            assert(s[0] == PACKET_METRICS && s[1] == m.cpu);
            assert(s[2] == (m.ram / 256) as u8 && s[3] == (m.ram % 256) as u8);
            assert(((m.ram / 256) as u8) * 256 + ((m.ram % 256) as u8) == m.ram);
        },
        Packet::Status(st) => {
            assert(s[0] == PACKET_STATUS && s[1] == st.battery);
            assert(s[2] == if st.led_on { 1u8 } else { 0u8 });
        },
    }
}

/// A byte that is no known tag yields no packet and is the only byte used, whatever
/// follows it.
pub proof fn lemma_unknown_tag(tag: u8, rest: Seq<u8>)
    requires
        tag != PACKET_METRICS,
        tag != PACKET_STATUS,
    ensures
        decode(seq![tag] + rest) == (None::<Packet>, 1nat),
{
    assert((seq![tag] + rest)[0] == tag);
}

} // verus!
