use vstd::prelude::*;
use vstd::bytes::{
    lemma_auto_spec_u32_to_from_le_bytes, lemma_auto_spec_u64_to_from_le_bytes,
    spec_u32_from_le_bytes, spec_u32_to_le_bytes, spec_u64_from_le_bytes, spec_u64_to_le_bytes,
    u32_from_le_bytes, u32_to_le_bytes, u64_from_le_bytes, u64_to_le_bytes,
};
use vstd::slice::slice_subrange;
use vstd::string::StringSliceAdditionalSpecFns;
use vstd::utf8::{decode_utf8, encode_utf8, encode_utf8_decode_utf8, encode_utf8_valid_utf8, valid_utf8};
use crate::mapping::{NodeMapping, NodeMappingView};
use crate::messages::SamControlMessage;
use crate::model::{ChannelType, Computer};

verus! {

// The wire format is compact and little-endian: an integer is its fixed-width
// bytes, a flag one byte (0 or 1), an optional value a presence byte (0 or 1)
// followed by the value when present, and a text its UTF-8 byte length as a
// 32-bit integer followed by its UTF-8 bytes.

pub open spec fn enc_u32(x: u32) -> Seq<u8> {
    spec_u32_to_le_bytes(x)
}

pub open spec fn enc_u64(x: u64) -> Seq<u8> {
    spec_u64_to_le_bytes(x)
}

pub open spec fn enc_bool(x: bool) -> Seq<u8> {
    seq![if x { 1u8 } else { 0u8 }]
}

pub open spec fn enc_opt_u64(o: Option<u64>) -> Seq<u8> {
    match o {
        None => seq![0u8],
        Some(x) => seq![1u8] + enc_u64(x),
    }
}

pub open spec fn enc_opt_bool(o: Option<bool>) -> Seq<u8> {
    match o {
        None => seq![0u8],
        Some(x) => seq![1u8] + enc_bool(x),
    }
}

pub open spec fn enc_text(s: Seq<char>) -> Seq<u8> {
    enc_u32(encode_utf8(s).len() as u32) + encode_utf8(s)
}

pub open spec fn channel_type_tag(t: ChannelType) -> u8 {
    match t {
        ChannelType::CurrentLoop => 0,
        ChannelType::ValveVoltage => 1,
        ChannelType::ValveCurrent => 2,
        ChannelType::RailVoltage => 3,
        ChannelType::RailCurrent => 4,
        ChannelType::DifferentialSignal => 5,
        ChannelType::Rtd => 6,
        ChannelType::Tc => 7,
    }
}

pub open spec fn channel_type_of_tag(b: u8) -> Option<ChannelType> {
    if b == 0 {
        Some(ChannelType::CurrentLoop)
    } else if b == 1 {
        Some(ChannelType::ValveVoltage)
    } else if b == 2 {
        Some(ChannelType::ValveCurrent)
    } else if b == 3 {
        Some(ChannelType::RailVoltage)
    } else if b == 4 {
        Some(ChannelType::RailCurrent)
    } else if b == 5 {
        Some(ChannelType::DifferentialSignal)
    } else if b == 6 {
        Some(ChannelType::Rtd)
    } else if b == 7 {
        Some(ChannelType::Tc)
    } else {
        None
    }
}

pub open spec fn computer_tag(c: Computer) -> u8 {
    match c {
        Computer::Flight => 0,
        Computer::Ground => 1,
    }
}

pub open spec fn computer_of_tag(b: u8) -> Option<Computer> {
    if b == 0 {
        Some(Computer::Flight)
    } else if b == 1 {
        Some(Computer::Ground)
    } else {
        None
    }
}

/// The bytes of a node mapping on the wire, its fields in declaration order.
pub open spec fn spec_encode_mapping(v: NodeMappingView) -> Seq<u8> {
    enc_text(v.text_id) + enc_text(v.board_id) + seq![channel_type_tag(v.channel_type)] + enc_u32(
        v.channel,
    ) + seq![computer_tag(v.computer)] + enc_opt_u64(v.max) + enc_opt_u64(v.min) + enc_u64(
        v.calibrated_offset,
    ) + enc_opt_u64(v.connected_threshold) + enc_opt_u64(v.powered_threshold) + enc_opt_bool(
        v.normally_closed,
    )
}

pub open spec fn parse_u8(b: Seq<u8>, pos: int) -> Option<(u8, int)> {
    if 0 <= pos < b.len() {
        Some((b[pos], pos + 1))
    } else {
        None
    }
}

pub open spec fn parse_u32(b: Seq<u8>, pos: int) -> Option<(u32, int)> {
    if 0 <= pos && pos + 4 <= b.len() {
        Some((spec_u32_from_le_bytes(b.subrange(pos, pos + 4)), pos + 4))
    } else {
        None
    }
}

pub open spec fn parse_u64(b: Seq<u8>, pos: int) -> Option<(u64, int)> {
    if 0 <= pos && pos + 8 <= b.len() {
        Some((spec_u64_from_le_bytes(b.subrange(pos, pos + 8)), pos + 8))
    } else {
        None
    }
}

pub open spec fn parse_bool(b: Seq<u8>, pos: int) -> Option<(bool, int)> {
    match parse_u8(b, pos) {
        Some((x, p)) => if x == 0 {
            Some((false, p))
        } else if x == 1 {
            Some((true, p))
        } else {
            None
        },
        None => None,
    }
}

pub open spec fn parse_opt_u64(b: Seq<u8>, pos: int) -> Option<(Option<u64>, int)> {
    match parse_u8(b, pos) {
        Some((x, p)) => if x == 0 {
            Some((None, p))
        } else if x == 1 {
            match parse_u64(b, p) {
                Some((v, q)) => Some((Some(v), q)),
                None => None,
            }
        } else {
            None
        },
        None => None,
    }
}

pub open spec fn parse_opt_bool(b: Seq<u8>, pos: int) -> Option<(Option<bool>, int)> {
    match parse_u8(b, pos) {
        Some((x, p)) => if x == 0 {
            Some((None, p))
        } else if x == 1 {
            match parse_bool(b, p) {
                Some((v, q)) => Some((Some(v), q)),
                None => None,
            }
        } else {
            None
        },
        None => None,
    }
}

pub open spec fn parse_text(b: Seq<u8>, pos: int) -> Option<(Seq<char>, int)> {
    match parse_u32(b, pos) {
        Some((n, p)) => if p + n <= b.len() && valid_utf8(b.subrange(p, p + n)) {
            Some((decode_utf8(b.subrange(p, p + n)), p + n))
        } else {
            None
        },
        None => None,
    }
}

pub open spec fn parse_channel_type(b: Seq<u8>, pos: int) -> Option<(ChannelType, int)> {
    match parse_u8(b, pos) {
        Some((x, p)) => match channel_type_of_tag(x) {
            Some(t) => Some((t, p)),
            None => None,
        },
        None => None,
    }
}

pub open spec fn parse_computer(b: Seq<u8>, pos: int) -> Option<(Computer, int)> {
    match parse_u8(b, pos) {
        Some((x, p)) => match computer_of_tag(x) {
            Some(c) => Some((c, p)),
            None => None,
        },
        None => None,
    }
}

/// The node mapping that a byte string holds, if it holds exactly one.
pub open spec fn spec_decode_mapping(b: Seq<u8>) -> Option<NodeMappingView> {
    match parse_text(b, 0) {
        None => None,
        Some((text_id, p1)) => match parse_text(b, p1) {
            None => None,
            Some((board_id, p2)) => match parse_channel_type(b, p2) {
                None => None,
                Some((channel_type, p3)) => match parse_u32(b, p3) {
                    None => None,
                    Some((channel, p4)) => match parse_computer(b, p4) {
                        None => None,
                        Some((computer, p5)) => match parse_opt_u64(b, p5) {
                            None => None,
                            Some((max, p6)) => match parse_opt_u64(b, p6) {
                                None => None,
                                Some((min, p7)) => match parse_u64(b, p7) {
                                    None => None,
                                    Some((calibrated_offset, p8)) => match parse_opt_u64(b, p8) {
                                        None => None,
                                        Some((connected_threshold, p9)) => match parse_opt_u64(
                                            b,
                                            p9,
                                        ) {
                                            None => None,
                                            Some((powered_threshold, p10)) => match parse_opt_bool(
                                                b,
                                                p10,
                                            ) {
                                                None => None,
                                                Some((normally_closed, p11)) => if p11 == b.len() {
                                                    Some(
                                                        NodeMappingView {
                                                            text_id,
                                                            board_id,
                                                            channel_type,
                                                            channel,
                                                            computer,
                                                            max,
                                                            min,
                                                            calibrated_offset,
                                                            connected_threshold,
                                                            powered_threshold,
                                                            normally_closed,
                                                        },
                                                    )
                                                } else {
                                                    None
                                                },
                                            },
                                        },
                                    },
                                },
                            },
                        },
                    },
                },
            },
        },
    }
}

/// Splits a prefix of `b` made of `s` followed by `p` into its two parts.
proof fn lemma_split(b: Seq<u8>, s: Seq<u8>, p: Seq<u8>)
    requires
        s.len() + p.len() <= b.len(),
        b.subrange(0, s.len() + p.len() as int) == s + p,
    ensures
        b.subrange(0, s.len() as int) == s,
        b.subrange(s.len() as int, s.len() + p.len() as int) == p,
{
    assert(b.subrange(0, s.len() as int) =~= (s + p).subrange(0, s.len() as int));
    assert(b.subrange(s.len() as int, s.len() + p.len() as int) =~= (s + p).subrange(
        s.len() as int,
        s.len() + p.len() as int,
    ));
}

proof fn lemma_parse_u32_at(b: Seq<u8>, pos: int, x: u32)
    requires
        0 <= pos,
        pos + enc_u32(x).len() <= b.len(),
        b.subrange(pos, pos + enc_u32(x).len()) == enc_u32(x),
    ensures
        enc_u32(x).len() == 4,
        parse_u32(b, pos) == Some((x, pos + 4)),
{
    lemma_auto_spec_u32_to_from_le_bytes();
}

proof fn lemma_parse_u64_at(b: Seq<u8>, pos: int, x: u64)
    requires
        0 <= pos,
        pos + enc_u64(x).len() <= b.len(),
        b.subrange(pos, pos + enc_u64(x).len()) == enc_u64(x),
    ensures
        enc_u64(x).len() == 8,
        parse_u64(b, pos) == Some((x, pos + 8)),
{
    lemma_auto_spec_u64_to_from_le_bytes();
}

proof fn lemma_parse_opt_u64_at(b: Seq<u8>, pos: int, o: Option<u64>)
    requires
        0 <= pos,
        pos + enc_opt_u64(o).len() <= b.len(),
        b.subrange(pos, pos + enc_opt_u64(o).len()) == enc_opt_u64(o),
    ensures
        parse_opt_u64(b, pos) == Some((o, pos + enc_opt_u64(o).len())),
{
    lemma_auto_spec_u64_to_from_le_bytes();
    assert(b[pos] == b.subrange(pos, pos + enc_opt_u64(o).len())[0]);
    if let Some(x) = o {
        assert(b.subrange(pos + 1, pos + 9) =~= b.subrange(pos, pos + 9).subrange(1, 9));
        assert(enc_opt_u64(o).subrange(1, 9) =~= enc_u64(x));
        lemma_parse_u64_at(b, pos + 1, x);
    }
}

proof fn lemma_parse_opt_bool_at(b: Seq<u8>, pos: int, o: Option<bool>)
    requires
        0 <= pos,
        pos + enc_opt_bool(o).len() <= b.len(),
        b.subrange(pos, pos + enc_opt_bool(o).len()) == enc_opt_bool(o),
    ensures
        parse_opt_bool(b, pos) == Some((o, pos + enc_opt_bool(o).len())),
{
    assert(b[pos] == b.subrange(pos, pos + enc_opt_bool(o).len())[0]);
    if let Some(x) = o {
        assert(b[pos + 1] == b.subrange(pos, pos + 2)[1]);
    }
}

proof fn lemma_parse_text_at(b: Seq<u8>, pos: int, t: Seq<char>)
    requires
        0 <= pos,
        encode_utf8(t).len() <= u32::MAX,
        pos + enc_text(t).len() <= b.len(),
        b.subrange(pos, pos + enc_text(t).len()) == enc_text(t),
    ensures
        parse_text(b, pos) == Some((t, pos + enc_text(t).len())),
{
    let n = encode_utf8(t).len() as u32;
    lemma_auto_spec_u32_to_from_le_bytes();
    let sub = b.subrange(pos, pos + enc_text(t).len());
    assert(enc_u32(n).len() == 4);
    assert(sub.subrange(0, enc_text(t).len() as int) =~= sub);
    lemma_split(sub, enc_u32(n), encode_utf8(t));
    assert(sub.subrange(0, 4) =~= b.subrange(pos, pos + 4));
    lemma_parse_u32_at(b, pos, n);
    assert(sub.subrange(4, 4 + n) =~= b.subrange(pos + 4, pos + 4 + n));
    assert(sub.subrange(0, enc_text(t).len() as int) =~= sub);
    encode_utf8_valid_utf8(t);
    encode_utf8_decode_utf8(t);
}

proof fn lemma_parse_u8_at(b: Seq<u8>, pos: int, x: u8)
    requires
        0 <= pos,
        pos + 1 <= b.len(),
        b.subrange(pos, pos + 1) == seq![x],
    ensures
        parse_u8(b, pos) == Some((x, pos + 1)),
{
    assert(b[pos] == b.subrange(pos, pos + 1)[0]);
}

/// A node mapping encoded for the wire decodes to the same mapping, every
/// field included, absent optional fields as well.
#[verifier::rlimit(100)]
pub proof fn lemma_mapping_round_trip(v: NodeMappingView)
    requires
        encode_utf8(v.text_id).len() <= u32::MAX,
        encode_utf8(v.board_id).len() <= u32::MAX,
    ensures
        spec_decode_mapping(spec_encode_mapping(v)) == Some(v),
{
    let b = spec_encode_mapping(v);
    let e1 = enc_text(v.text_id);
    let e2 = enc_text(v.board_id);
    let e3: Seq<u8> = seq![channel_type_tag(v.channel_type)];
    let e4 = enc_u32(v.channel);
    let e5: Seq<u8> = seq![computer_tag(v.computer)];
    let e6 = enc_opt_u64(v.max);
    let e7 = enc_opt_u64(v.min);
    let e8 = enc_u64(v.calibrated_offset);
    let e9 = enc_opt_u64(v.connected_threshold);
    let e10 = enc_opt_u64(v.powered_threshold);
    let e11 = enc_opt_bool(v.normally_closed);
    let s1 = e1;
    let s2 = s1 + e2;
    let s3 = s2 + e3;
    let s4 = s3 + e4;
    let s5 = s4 + e5;
    let s6 = s5 + e6;
    let s7 = s6 + e7;
    let s8 = s7 + e8;
    let s9 = s8 + e9;
    let s10 = s9 + e10;
    let s11 = s10 + e11;
    assert(b == s11);
    assert(b.subrange(0, b.len() as int) =~= b);
    lemma_split(b, s10, e11);
    lemma_split(b, s9, e10);
    lemma_split(b, s8, e9);
    lemma_split(b, s7, e8);
    lemma_split(b, s6, e7);
    lemma_split(b, s5, e6);
    lemma_split(b, s4, e5);
    lemma_split(b, s3, e4);
    lemma_split(b, s2, e3);
    lemma_split(b, s1, e2);
    assert(b.subrange(0, e1.len() as int) == e1);
    lemma_parse_text_at(b, 0, v.text_id);
    lemma_parse_text_at(b, s1.len() as int, v.board_id);
    lemma_parse_u8_at(b, s2.len() as int, channel_type_tag(v.channel_type));
    lemma_parse_u32_at(b, s3.len() as int, v.channel);
    lemma_parse_u8_at(b, s4.len() as int, computer_tag(v.computer));
    lemma_parse_opt_u64_at(b, s5.len() as int, v.max);
    lemma_parse_opt_u64_at(b, s6.len() as int, v.min);
    lemma_parse_u64_at(b, s7.len() as int, v.calibrated_offset);
    lemma_parse_opt_u64_at(b, s8.len() as int, v.connected_threshold);
    lemma_parse_opt_u64_at(b, s9.len() as int, v.powered_threshold);
    lemma_parse_opt_bool_at(b, s10.len() as int, v.normally_closed);
}

/// Relies on std::str::from_utf8: it accepts exactly the well-formed UTF-8
/// byte strings, and returns the text they encode.
#[verifier::external_body]
fn text_from_utf8(b: &[u8]) -> (r: Option<String>)
    ensures
        r.is_some() <==> valid_utf8(b@),
        r matches Some(s) ==> s@ == decode_utf8(b@),
{
    match std::str::from_utf8(b) {
        Ok(s) => Some(s.to_string()),
        Err(_) => None,
    }
}

fn push_bytes(out: &mut Vec<u8>, b: &[u8])
    ensures
        final(out)@ == old(out)@ + b@,
{
    let mut i: usize = 0;
    while i < b.len()
        invariant
            i <= b@.len(),
            out@ == old(out)@ + b@.subrange(0, i as int),
        decreases b@.len() - i,
    {
        out.push(b[i]);
        i = i + 1;
        assert(out@ =~= old(out)@ + b@.subrange(0, i as int));
    }
    assert(b@.subrange(0, b@.len() as int) =~= b@);
}

fn push_u32(out: &mut Vec<u8>, x: u32)
    ensures
        final(out)@ == old(out)@ + enc_u32(x),
{
    let mut v = u32_to_le_bytes(x);
    out.append(&mut v);
}

fn push_u64(out: &mut Vec<u8>, x: u64)
    ensures
        final(out)@ == old(out)@ + enc_u64(x),
{
    let mut v = u64_to_le_bytes(x);
    out.append(&mut v);
}

fn push_opt_u64(out: &mut Vec<u8>, o: Option<u64>)
    ensures
        final(out)@ == old(out)@ + enc_opt_u64(o),
{
    match o {
        None => {
            out.push(0u8);
            assert(out@ =~= old(out)@ + enc_opt_u64(o));
        },
        Some(x) => {
            out.push(1u8);
            push_u64(out, x);
            assert(out@ =~= old(out)@ + enc_opt_u64(o));
        },
    }
}

fn push_opt_bool(out: &mut Vec<u8>, o: Option<bool>)
    ensures
        final(out)@ == old(out)@ + enc_opt_bool(o),
{
    match o {
        None => {
            out.push(0u8);
        },
        Some(x) => {
            out.push(1u8);
            out.push(if x { 1u8 } else { 0u8 });
        },
    }
    assert(out@ =~= old(out)@ + enc_opt_bool(o));
}

fn push_text(out: &mut Vec<u8>, s: &str)
    requires
        encode_utf8(s@).len() <= u32::MAX,
    ensures
        final(out)@ == old(out)@ + enc_text(s@),
{
    let b = s.as_bytes();
    push_u32(out, b.len() as u32);
    push_bytes(out, b);
    assert(out@ =~= old(out)@ + enc_text(s@));
}

fn channel_type_to_tag(t: ChannelType) -> (r: u8)
    ensures
        r == channel_type_tag(t),
{
    match t {
        ChannelType::CurrentLoop => 0,
        ChannelType::ValveVoltage => 1,
        ChannelType::ValveCurrent => 2,
        ChannelType::RailVoltage => 3,
        ChannelType::RailCurrent => 4,
        ChannelType::DifferentialSignal => 5,
        ChannelType::Rtd => 6,
        ChannelType::Tc => 7,
    }
}

fn channel_type_from_tag(b: u8) -> (r: Option<ChannelType>)
    ensures
        r == channel_type_of_tag(b),
{
    match b {
        0 => Some(ChannelType::CurrentLoop),
        1 => Some(ChannelType::ValveVoltage),
        2 => Some(ChannelType::ValveCurrent),
        3 => Some(ChannelType::RailVoltage),
        4 => Some(ChannelType::RailCurrent),
        5 => Some(ChannelType::DifferentialSignal),
        6 => Some(ChannelType::Rtd),
        7 => Some(ChannelType::Tc),
        _ => None,
    }
}

/// Encodes a node mapping for the wire. Each text must be shorter than
/// 2^32 bytes.
pub fn encode_node_mapping(m: &NodeMapping) -> (r: Vec<u8>)
    requires
        encode_utf8(m.text_id@).len() <= u32::MAX,
        encode_utf8(m.board_id@).len() <= u32::MAX,
    ensures
        r@ == spec_encode_mapping(m@),
{
    let mut out: Vec<u8> = Vec::new();
    push_text(&mut out, m.text_id.as_str());
    push_text(&mut out, m.board_id.as_str());
    out.push(channel_type_to_tag(m.channel_type));
    push_u32(&mut out, m.channel);
    out.push(
        match m.computer {
            Computer::Flight => 0u8,
            Computer::Ground => 1u8,
        },
    );
    push_opt_u64(&mut out, m.max);
    push_opt_u64(&mut out, m.min);
    push_u64(&mut out, m.calibrated_offset);
    push_opt_u64(&mut out, m.connected_threshold);
    push_opt_u64(&mut out, m.powered_threshold);
    push_opt_bool(&mut out, m.normally_closed);
    assert(out@ =~= spec_encode_mapping(m@));
    out
}

fn read_u8(b: &[u8], pos: usize) -> (r: Option<(u8, usize)>)
    ensures
        r.is_some() == parse_u8(b@, pos as int).is_some(),
        r matches Some((x, p)) ==> parse_u8(b@, pos as int) == Some((x, p as int)),
{
    if pos < b.len() {
        Some((b[pos], pos + 1))
    } else {
        None
    }
}

fn read_u32(b: &[u8], pos: usize) -> (r: Option<(u32, usize)>)
    ensures
        r.is_some() == parse_u32(b@, pos as int).is_some(),
        r matches Some((x, p)) ==> parse_u32(b@, pos as int) == Some((x, p as int)),
{
    if pos <= b.len() && b.len() - pos >= 4 {
        let s = slice_subrange(b, pos, pos + 4);
        Some((u32_from_le_bytes(s), pos + 4))
    } else {
        None
    }
}

fn read_u64(b: &[u8], pos: usize) -> (r: Option<(u64, usize)>)
    ensures
        r.is_some() == parse_u64(b@, pos as int).is_some(),
        r matches Some((x, p)) ==> parse_u64(b@, pos as int) == Some((x, p as int)),
{
    if pos <= b.len() && b.len() - pos >= 8 {
        let s = slice_subrange(b, pos, pos + 8);
        Some((u64_from_le_bytes(s), pos + 8))
    } else {
        None
    }
}

fn read_bool(b: &[u8], pos: usize) -> (r: Option<(bool, usize)>)
    ensures
        r.is_some() == parse_bool(b@, pos as int).is_some(),
        r matches Some((x, p)) ==> parse_bool(b@, pos as int) == Some((x, p as int)),
{
    match read_u8(b, pos) {
        Some((0, p)) => Some((false, p)),
        Some((1, p)) => Some((true, p)),
        _ => None,
    }
}

fn read_opt_u64(b: &[u8], pos: usize) -> (r: Option<(Option<u64>, usize)>)
    ensures
        r.is_some() == parse_opt_u64(b@, pos as int).is_some(),
        r matches Some((x, p)) ==> parse_opt_u64(b@, pos as int) == Some((x, p as int)),
{
    match read_u8(b, pos) {
        Some((0, p)) => Some((None, p)),
        Some((1, p)) => match read_u64(b, p) {
            Some((x, q)) => Some((Some(x), q)),
            None => None,
        },
        _ => None,
    }
}

fn read_opt_bool(b: &[u8], pos: usize) -> (r: Option<(Option<bool>, usize)>)
    ensures
        r.is_some() == parse_opt_bool(b@, pos as int).is_some(),
        r matches Some((x, p)) ==> parse_opt_bool(b@, pos as int) == Some((x, p as int)),
{
    match read_u8(b, pos) {
        Some((0, p)) => Some((None, p)),
        Some((1, p)) => match read_bool(b, p) {
            Some((x, q)) => Some((Some(x), q)),
            None => None,
        },
        _ => None,
    }
}

fn read_text(b: &[u8], pos: usize) -> (r: Option<(String, usize)>)
    ensures
        r.is_some() == parse_text(b@, pos as int).is_some(),
        r matches Some((x, p)) ==> parse_text(b@, pos as int) == Some((x@, p as int)),
{
    match read_u32(b, pos) {
        Some((n, p)) => {
            if b.len() - p < n as usize {
                return None;
            }
            let s = slice_subrange(b, p, p + n as usize);
            match text_from_utf8(s) {
                Some(t) => Some((t, p + n as usize)),
                None => None,
            }
        },
        None => None,
    }
}

fn read_channel_type(b: &[u8], pos: usize) -> (r: Option<(ChannelType, usize)>)
    ensures
        r.is_some() == parse_channel_type(b@, pos as int).is_some(),
        r matches Some((x, p)) ==> parse_channel_type(b@, pos as int) == Some((x, p as int)),
{
    match read_u8(b, pos) {
        Some((x, p)) => match channel_type_from_tag(x) {
            Some(t) => Some((t, p)),
            None => None,
        },
        None => None,
    }
}

fn read_computer(b: &[u8], pos: usize) -> (r: Option<(Computer, usize)>)
    ensures
        r.is_some() == parse_computer(b@, pos as int).is_some(),
        r matches Some((x, p)) ==> parse_computer(b@, pos as int) == Some((x, p as int)),
{
    match read_u8(b, pos) {
        Some((0, p)) => Some((Computer::Flight, p)),
        Some((1, p)) => Some((Computer::Ground, p)),
        _ => None,
    }
}

/// Decodes a node mapping from the wire. Fails unless the bytes hold exactly
/// one well-formed mapping.
pub fn decode_node_mapping(b: &[u8]) -> (r: Option<NodeMapping>)
    ensures
        r.is_some() == spec_decode_mapping(b@).is_some(),
        r matches Some(m) ==> spec_decode_mapping(b@) == Some(m@),
{
    let (text_id, p1) = match read_text(b, 0) {
        Some(x) => x,
        None => return None,
    };
    let (board_id, p2) = match read_text(b, p1) {
        Some(x) => x,
        None => return None,
    };
    let (channel_type, p3) = match read_channel_type(b, p2) {
        Some(x) => x,
        None => return None,
    };
    let (channel, p4) = match read_u32(b, p3) {
        Some(x) => x,
        None => return None,
    };
    let (computer, p5) = match read_computer(b, p4) {
        Some(x) => x,
        None => return None,
    };
    let (max, p6) = match read_opt_u64(b, p5) {
        Some(x) => x,
        None => return None,
    };
    let (min, p7) = match read_opt_u64(b, p6) {
        Some(x) => x,
        None => return None,
    };
    let (calibrated_offset, p8) = match read_u64(b, p7) {
        Some(x) => x,
        None => return None,
    };
    let (connected_threshold, p9) = match read_opt_u64(b, p8) {
        Some(x) => x,
        None => return None,
    };
    let (powered_threshold, p10) = match read_opt_u64(b, p9) {
        Some(x) => x,
        None => return None,
    };
    let (normally_closed, p11) = match read_opt_bool(b, p10) {
        Some(x) => x,
        None => return None,
    };
    if p11 != b.len() {
        return None;
    }
    Some(
        NodeMapping {
            text_id,
            board_id,
            channel_type,
            channel,
            computer,
            max,
            min,
            calibrated_offset,
            connected_threshold,
            powered_threshold,
            normally_closed,
        },
    )
}

/// The bytes of a board control message on the wire: a tag (0 for a valve,
/// 1 for an LED), the channel, and the flag.
pub open spec fn spec_encode_control(msg: SamControlMessage) -> Seq<u8> {
    match msg {
        SamControlMessage::ActuateValve { channel, open } => seq![0u8] + enc_u32(channel)
            + enc_bool(open),
        SamControlMessage::SetLed { channel, on } => seq![1u8] + enc_u32(channel) + enc_bool(on),
    }
}

/// The board control message that a byte string holds, if it holds exactly
/// one.
pub open spec fn spec_decode_control(b: Seq<u8>) -> Option<SamControlMessage> {
    match parse_u8(b, 0) {
        Some((tag, p1)) => match parse_u32(b, p1) {
            Some((channel, p2)) => match parse_bool(b, p2) {
                Some((flag, p3)) => if p3 != b.len() {
                    None
                } else if tag == 0 {
                    Some(SamControlMessage::ActuateValve { channel, open: flag })
                } else if tag == 1 {
                    Some(SamControlMessage::SetLed { channel, on: flag })
                } else {
                    None
                },
                None => None,
            },
            None => None,
        },
        None => None,
    }
}

/// Encodes a board control message for the wire.
pub fn encode_control(msg: &SamControlMessage) -> (r: Vec<u8>)
    ensures
        r@ == spec_encode_control(*msg),
{
    let mut out: Vec<u8> = Vec::new();
    let (tag, channel, flag) = match msg {
        SamControlMessage::ActuateValve { channel, open } => (0u8, *channel, *open),
        SamControlMessage::SetLed { channel, on } => (1u8, *channel, *on),
    };
    out.push(tag);
    push_u32(&mut out, channel);
    out.push(if flag { 1u8 } else { 0u8 });
    assert(out@ =~= spec_encode_control(*msg));
    out
}

/// Decodes a board control message from the wire. Fails unless the bytes
/// hold exactly one well-formed message.
pub fn decode_control(b: &[u8]) -> (r: Option<SamControlMessage>)
    ensures
        r == spec_decode_control(b@),
{
    let (tag, p1) = match read_u8(b, 0) {
        Some(x) => x,
        None => return None,
    };
    let (channel, p2) = match read_u32(b, p1) {
        Some(x) => x,
        None => return None,
    };
    let (flag, p3) = match read_bool(b, p2) {
        Some(x) => x,
        None => return None,
    };
    if p3 != b.len() {
        return None;
    }
    match tag {
        0 => Some(SamControlMessage::ActuateValve { channel, open: flag }),
        1 => Some(SamControlMessage::SetLed { channel, on: flag }),
        _ => None,
    }
}

/// A board control message encoded for the wire decodes to the same message.
pub proof fn lemma_control_round_trip(msg: SamControlMessage)
    ensures
        spec_encode_control(msg).len() == 6,
        spec_decode_control(spec_encode_control(msg)) == Some(msg),
{
    let b = spec_encode_control(msg);
    lemma_auto_spec_u32_to_from_le_bytes();
    let (channel, flag) = match msg {
        SamControlMessage::ActuateValve { channel, open } => (channel, open),
        SamControlMessage::SetLed { channel, on } => (channel, on),
    };
    assert(b.subrange(1, 5) =~= enc_u32(channel));
}

} // verus!
