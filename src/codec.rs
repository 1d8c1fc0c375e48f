use vstd::prelude::*;
use vstd::string::StringExecFns;
use crate::transform::digit_char;

verus! {

/// A lowercase hexadecimal digit.
pub open spec fn hex_digit(d: nat) -> char {
    if d < 10 {
        digit_char(d)
    } else if d == 10 {
        'a'
    } else if d == 11 {
        'b'
    } else if d == 12 {
        'c'
    } else if d == 13 {
        'd'
    } else if d == 14 {
        'e'
    } else {
        'f'
    }
}

/// Bytes in hexadecimal: two lowercase digits for each byte, in order.
pub open spec fn hex_spec(b: Seq<u8>) -> Seq<char>
    decreases b.len(),
{
    if b.len() == 0 {
        Seq::empty()
    } else {
        hex_spec(b.drop_last()) + seq![
            hex_digit((b.last() / 16) as nat),
            hex_digit((b.last() % 16) as nat),
        ]
    }
}

/// The bytes that `s` encodes in standard base64, `None` where it is not
/// valid base64.
pub uninterp spec fn base64_decoded(s: Seq<char>) -> Option<Seq<u8>>;

/// Relies on `hex::encode`: two lowercase hexadecimal digits for each byte,
/// in order.
#[verifier::external_body]
fn encode_hex(b: &Vec<u8>) -> (r: String)
    ensures
        r@ == hex_spec(b@),
{
    hex::encode(b)
}

/// Relies on `base64::decode` (standard alphabet): the decoded bytes, or an
/// error, which is dropped.
#[verifier::external_body]
fn decode_base64(s: &String) -> (r: Option<Vec<u8>>)
    ensures
        match base64_decoded(s@) {
            Some(b) => r is Some && r->Some_0@ == b,
            None => r is None,
        },
{
    base64::decode(s).ok()
}

/// A beacon payload (base64) as hexadecimal text.
pub fn beacon_hex_payload(payload: &String) -> (r: Option<String>)
    ensures
        match base64_decoded(payload@) {
            Some(b) => r is Some && r->Some_0@ == hex_spec(b),
            None => r is None,
        },
{
    match decode_base64(payload) {
        Some(b) => Some(encode_hex(&b)),
        None => None,
    }
}

/// A contact sensor's advertisement: it is usable from this many bytes on.
pub const CONTACT_MIN_BYTES: usize = 29;

/// The frame that the contact-sensor decoder reads: the length byte `1d`, the
/// advertisement, then the signal strength as one byte (its value modulo 256),
/// all in hexadecimal.
pub open spec fn contact_frame_spec(adv: Seq<u8>, rssi: int) -> Seq<char> {
    "1d"@ + hex_spec(adv) + hex_spec(seq![(rssi % 256) as u8])
}

/// The contact-sensor frame for a beacon payload (base64) and its signal
/// strength; `None` where the payload is not base64 or is shorter than
/// `CONTACT_MIN_BYTES`.
pub fn contact_frame(payload: &String, rssi: i64) -> (r: Option<String>)
    ensures
        match base64_decoded(payload@) {
            Some(b) => if b.len() >= CONTACT_MIN_BYTES {
                r is Some && r->Some_0@ == contact_frame_spec(b, rssi as int)
            } else {
                r is None
            },
            None => r is None,
        },
{
    match decode_base64(payload) {
        None => None,
        Some(b) => {
            if b.len() < CONTACT_MIN_BYTES {
                None
            } else {
                let m: i64 = rssi % 256;
                let byte: u8 = if m < 0 {
                    (m + 256) as u8
                } else {
                    m as u8
                };
                assert(byte == (rssi as int % 256) as u8);
                let mut s = <String as StringExecFns>::from_str("1d");
                let h = encode_hex(&b);
                s.append(h.as_str());
                let one = vec![byte];
                let hb = encode_hex(&one);
                s.append(hb.as_str());
                assert(one@ =~= seq![(rssi as int % 256) as u8]);
                Some(s)
            }
        },
    }
}

} // verus!
