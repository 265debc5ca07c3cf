//! The codec: a deterministic binary encoding of a record, used for the
//! bytes kept in the durable record map. Round-trip fidelity is proved:
//! decoding an encoded valid record gives the record back.
//!
//! Layout (all integers little-endian):
//! bytes 0..8 id, 8..16 temperature shifted by `TEMPERATURE_OFFSET`,
//! 16..24 humidity, 24..32 soil moisture, 32..40 creation time, 40 a tag
//! for the update time (0 absent, 1 present), 41..49 the update time
//! (0 when absent), and from 49 on the device id, four bytes per
//! character (its code point as a u32).

use vstd::prelude::*;
use vstd::bytes::{
    spec_u32_to_le_bytes, spec_u32_from_le_bytes, spec_u64_to_le_bytes, spec_u64_from_le_bytes,
    u32_to_le_bytes, u32_from_le_bytes, u64_to_le_bytes, u64_from_le_bytes,
    lemma_auto_spec_u32_to_from_le_bytes, lemma_auto_spec_u64_to_from_le_bytes,
};
use vstd::slice::slice_subrange;
use vstd::utf8::{is_scalar, char_is_scalar, char_u32_cast};
use vstd::string::StrSliceExecFns;
use crate::record::{
    SensorData, SensorDataView, record_valid, TEMPERATURE_MAX, PERCENT_MAX, SCALE,
};

verus! {

/// Added to a temperature so that every valid reading encodes as a u64.
pub const TEMPERATURE_OFFSET: i64 = 50 * SCALE;

/// Length of the fixed part of an encoded record, before the device id.
pub const HEADER_LEN: usize = 49;

/// The encoding of a device id: each character's code point as four
/// little-endian bytes.
pub open spec fn spec_encode_chars(s: Seq<char>) -> Seq<u8>
    decreases s.len(),
{
    if s.len() == 0 {
        Seq::empty()
    } else {
        spec_u32_to_le_bytes(s[0] as u32) + spec_encode_chars(s.skip(1))
    }
}

/// The inverse of `spec_encode_chars`: `None` on bytes that are not a
/// whole number of valid code points.
pub open spec fn spec_decode_chars(b: Seq<u8>) -> Option<Seq<char>>
    decreases b.len(),
{
    if b.len() == 0 {
        Some(Seq::empty())
    } else if b.len() < 4 {
        None
    } else {
        let u = spec_u32_from_le_bytes(b.subrange(0, 4));
        if is_scalar(u) {
            match spec_decode_chars(b.skip(4)) {
                Some(rest) => Some(seq![u as char] + rest),
                None => None,
            }
        } else {
            None
        }
    }
}

/// The encoding of a whole record. Meaningful for valid records, whose
/// shifted readings fit in a u64.
pub open spec fn spec_encode(r: SensorDataView) -> Seq<u8>
    recommends
        record_valid(r),
{
    spec_u64_to_le_bytes(r.id) + spec_u64_to_le_bytes((r.temperature + TEMPERATURE_OFFSET) as u64)
        + spec_u64_to_le_bytes(r.humidity as u64) + spec_u64_to_le_bytes(r.soil_moisture as u64)
        + spec_u64_to_le_bytes(r.timestamp) + (match r.updated_at {
        None => seq![0u8] + spec_u64_to_le_bytes(0),
        Some(t) => seq![1u8] + spec_u64_to_le_bytes(t),
    }) + spec_encode_chars(r.device_id)
}

/// The inverse of `spec_encode`: `None` on bytes no valid record
/// encodes to.
pub open spec fn spec_decode(b: Seq<u8>) -> Option<SensorDataView> {
    if b.len() < HEADER_LEN || (b.len() - HEADER_LEN) % 4 != 0 {
        None
    } else {
        let traw = spec_u64_from_le_bytes(b.subrange(8, 16));
        let h = spec_u64_from_le_bytes(b.subrange(16, 24));
        let sm = spec_u64_from_le_bytes(b.subrange(24, 32));
        let tag = b[40];
        let ut = spec_u64_from_le_bytes(b.subrange(41, 49));
        if traw > (TEMPERATURE_MAX + TEMPERATURE_OFFSET) as u64 || h > PERCENT_MAX as u64 || sm
            > PERCENT_MAX as u64 || (tag != 0 && tag != 1) || (tag == 0 && ut != 0) {
            None
        } else {
            match spec_decode_chars(b.skip(HEADER_LEN as int)) {
                None => None,
                Some(chars) => Some(
                    SensorDataView {
                        id: spec_u64_from_le_bytes(b.subrange(0, 8)),
                        device_id: chars,
                        temperature: (traw - TEMPERATURE_OFFSET) as i64,
                        humidity: h as i64,
                        soil_moisture: sm as i64,
                        timestamp: spec_u64_from_le_bytes(b.subrange(32, 40)),
                        updated_at: if tag == 0 {
                            None
                        } else {
                            Some(ut)
                        },
                    },
                ),
            }
        }
    }
}

/// An encoded device id is four bytes per character.
pub proof fn lemma_encode_chars_len(s: Seq<char>)
    ensures
        spec_encode_chars(s).len() == 4 * s.len(),
    decreases s.len(),
{
    lemma_auto_spec_u32_to_from_le_bytes();
    if s.len() > 0 {
        lemma_encode_chars_len(s.skip(1));
    }
}

/// Appending a character to a device id appends its four bytes.
pub proof fn lemma_encode_chars_push(s: Seq<char>, c: char)
    ensures
        spec_encode_chars(s.push(c)) == spec_encode_chars(s) + spec_u32_to_le_bytes(c as u32),
    decreases s.len(),
{
    let sc = s.push(c);
    let cb = spec_u32_to_le_bytes(c as u32);
    if s.len() == 0 {
        assert(sc[0] == c);
        assert(sc.skip(1) =~= Seq::<char>::empty());
        assert(spec_encode_chars(sc) == cb + spec_encode_chars(sc.skip(1)));
        assert(spec_encode_chars(s) == Seq::<u8>::empty());
        assert(cb + Seq::<u8>::empty() =~= Seq::<u8>::empty() + cb);
    } else {
        lemma_encode_chars_push(s.skip(1), c);
        let hb = spec_u32_to_le_bytes(s[0] as u32);
        assert(sc[0] == s[0]);
        assert(sc.skip(1) =~= s.skip(1).push(c));
        assert(spec_encode_chars(sc) == hb + spec_encode_chars(sc.skip(1)));
        assert(spec_encode_chars(sc.skip(1)) == spec_encode_chars(s.skip(1)) + cb);
        assert(spec_encode_chars(s) == hb + spec_encode_chars(s.skip(1)));
        assert((hb + spec_encode_chars(s.skip(1))) + cb =~= hb + (spec_encode_chars(s.skip(1))
            + cb));
    }
}

/// Character round trip: decoding an encoded device id gives it back.
pub proof fn lemma_chars_round_trip(s: Seq<char>)
    ensures
        spec_decode_chars(spec_encode_chars(s)) == Some(s),
    decreases s.len(),
{
    lemma_auto_spec_u32_to_from_le_bytes();
    if s.len() == 0 {
        assert(spec_encode_chars(s).len() == 0);
        assert(spec_decode_chars(spec_encode_chars(s)) == Some(Seq::<char>::empty()));
        assert(Seq::<char>::empty() =~= s);
    } else {
        let u = s[0] as u32;
        let head = spec_u32_to_le_bytes(u);
        let tail = spec_encode_chars(s.skip(1));
        lemma_encode_chars_len(s.skip(1));
        assert((head + tail).subrange(0, 4) =~= head);
        assert((head + tail).skip(4) =~= tail);
        char_is_scalar(s[0]);
        char_u32_cast(s[0], u);
        lemma_chars_round_trip(s.skip(1));
        assert(seq![u as char] + s.skip(1) =~= s);
    }
}

/// Record round trip: decoding an encoded valid record gives it back.
pub proof fn lemma_record_round_trip(r: SensorDataView)
    requires
        record_valid(r),
    ensures
        spec_decode(spec_encode(r)) == Some(r),
{
    lemma_auto_spec_u64_to_from_le_bytes();
    let pa = spec_u64_to_le_bytes(r.id);
    let pb = spec_u64_to_le_bytes((r.temperature + TEMPERATURE_OFFSET) as u64);
    let pc = spec_u64_to_le_bytes(r.humidity as u64);
    let pd = spec_u64_to_le_bytes(r.soil_moisture as u64);
    let pe = spec_u64_to_le_bytes(r.timestamp);
    let pt = match r.updated_at {
        None => seq![0u8] + spec_u64_to_le_bytes(0),
        Some(t0) => seq![1u8] + spec_u64_to_le_bytes(t0),
    };
    let pg = spec_encode_chars(r.device_id);
    let b = spec_encode(r);
    lemma_encode_chars_len(r.device_id);
    assert(pt.len() == 9);
    assert(b.len() == 49 + 4 * r.device_id.len());
    assert((b.len() - 49) % 4 == 0) by {
        assert(b.len() - 49 == 4 * r.device_id.len());
    }
    assert(b.subrange(0, 8) =~= pa);
    assert(b.subrange(8, 16) =~= pb);
    assert(b.subrange(16, 24) =~= pc);
    assert(b.subrange(24, 32) =~= pd);
    assert(b.subrange(32, 40) =~= pe);
    assert(b[40] == pt[0]);
    assert(b.subrange(41, 49) =~= pt.subrange(1, 9));
    assert(b.skip(HEADER_LEN as int) =~= pg);
    lemma_chars_round_trip(r.device_id);
    match r.updated_at {
        None => {
            assert(pt.subrange(1, 9) =~= spec_u64_to_le_bytes(0));
        },
        Some(t0) => {
            assert(pt.subrange(1, 9) =~= spec_u64_to_le_bytes(t0));
        },
    }
    let dec = spec_decode(b);
    assert(dec matches Some(rr) && rr =~= r);
}

/// Relies on std's `char::from_u32`: `Some` exactly for Unicode scalar
/// values (not a surrogate, at most 0x10FFFF), and the returned
/// character has the given code point.
#[verifier::external_body]
fn char_from_u32(u: u32) -> (r: Option<char>)
    ensures
        r matches Some(c) ==> c as u32 == u,
        is_scalar(u) ==> r is Some,
{
    char::from_u32(u)
}

/// Relies on std's `String::push`: appends the character to the string.
#[verifier::external_body]
pub(crate) fn string_push_char(s: &mut String, c: char)
    ensures
        final(s)@ == old(s)@ + seq![c],
{
    s.push(c);
}

/// Appends the little-endian bytes of `x`.
fn push_u64(out: &mut Vec<u8>, x: u64)
    ensures
        final(out)@ == old(out)@ + spec_u64_to_le_bytes(x),
{
    let mut b = u64_to_le_bytes(x);
    out.append(&mut b);
}

/// Appends the encoding of the device id, four bytes per character.
fn push_chars(out: &mut Vec<u8>, s: &String)
    ensures
        final(out)@ == old(out)@ + spec_encode_chars(s@),
{
    let n = s.as_str().unicode_len();
    let mut i: usize = 0;
    proof {
        assert(s@.take(0) =~= Seq::<char>::empty());
        assert(out@ =~= out@ + spec_encode_chars(s@.take(0)));
    }
    while i < n
        invariant
            i <= n,
            n == s@.len(),
            out@ == old(out)@ + spec_encode_chars(s@.take(i as int)),
        decreases n - i,
    {
        let c = s.as_str().get_char(i);
        let mut b = u32_to_le_bytes(c as u32);
        out.append(&mut b);
        proof {
            lemma_encode_chars_push(s@.take(i as int), s@[i as int]);
            assert(s@.take(i + 1) =~= s@.take(i as int).push(s@[i as int]));
            assert((old(out)@ + spec_encode_chars(s@.take(i as int))) + spec_u32_to_le_bytes(
                s@[i as int] as u32,
            ) =~= old(out)@ + spec_encode_chars(s@.take(i + 1)));
        }
        i = i + 1;
    }
    proof {
        assert(s@.take(n as int) =~= s@);
    }
}

/// True exactly when the two byte vectors hold the same bytes.
pub fn bytes_eq(a: &Vec<u8>, b: &Vec<u8>) -> (r: bool)
    ensures
        r <==> a@ == b@,
{
    if a.len() != b.len() {
        return false;
    }
    let mut i: usize = 0;
    while i < a.len()
        invariant
            i <= a@.len(),
            a@.len() == b@.len(),
            forall|j: int| 0 <= j < i ==> a@[j] == b@[j],
        decreases a@.len() - i,
    {
        if a[i] != b[i] {
            return false;
        }
        i = i + 1;
    }
    proof {
        assert(a@ =~= b@);
    }
    true
}

/// Encodes a valid record into the durable byte layout.
pub fn encode_record(r: &SensorData) -> (out: Vec<u8>)
    requires
        record_valid(r@),
    ensures
        out@ == spec_encode(r@),
{
    let mut out: Vec<u8> = Vec::new();
    push_u64(&mut out, r.id);
    push_u64(&mut out, (r.temperature + TEMPERATURE_OFFSET) as u64);
    push_u64(&mut out, r.humidity as u64);
    push_u64(&mut out, r.soil_moisture as u64);
    push_u64(&mut out, r.timestamp);
    match r.updated_at {
        None => {
            out.push(0u8);
            push_u64(&mut out, 0);
        },
        Some(t) => {
            out.push(1u8);
            push_u64(&mut out, t);
        },
    }
    push_chars(&mut out, &r.device_id);
    proof {
        assert(out@ =~= spec_encode(r@));
    }
    out
}

/// Decodes the durable byte layout back into a record. Returns exactly
/// what `spec_decode` names: `None` on bytes no valid record encodes to.
pub fn decode_record(b: &Vec<u8>) -> (r: Option<SensorData>)
    ensures
        r is Some <==> spec_decode(b@) is Some,
        r matches Some(d) ==> spec_decode(b@) == Some(d@),
{
    let len = b.len();
    if len < HEADER_LEN {
        return None;
    }
    if (len - HEADER_LEN) % 4 != 0 {
        return None;
    }
    let id = u64_from_le_bytes(slice_subrange(b.as_slice(), 0, 8));
    let traw = u64_from_le_bytes(slice_subrange(b.as_slice(), 8, 16));
    let h = u64_from_le_bytes(slice_subrange(b.as_slice(), 16, 24));
    let sm = u64_from_le_bytes(slice_subrange(b.as_slice(), 24, 32));
    let ts = u64_from_le_bytes(slice_subrange(b.as_slice(), 32, 40));
    let tag = b[40];
    let ut = u64_from_le_bytes(slice_subrange(b.as_slice(), 41, 49));
    if traw > (TEMPERATURE_MAX + TEMPERATURE_OFFSET) as u64 || h > PERCENT_MAX as u64 || sm
        > PERCENT_MAX as u64 || (tag != 0 && tag != 1) || (tag == 0 && ut != 0) {
        return None;
    }
    let mut device: String = String::new();
    let mut pos: usize = HEADER_LEN;
    proof {
        match spec_decode_chars(b@.subrange(HEADER_LEN as int, len as int)) {
            Some(rest) => {
                assert(device@ + rest =~= rest);
            },
            None => {},
        }
    }
    while pos < len
        invariant
            HEADER_LEN <= pos <= len,
            (pos - HEADER_LEN) % 4 == 0,
            (len - HEADER_LEN) % 4 == 0,
            len == b@.len(),
            match spec_decode_chars(b@.subrange(pos as int, len as int)) {
                Some(rest) => spec_decode_chars(b@.subrange(HEADER_LEN as int, len as int))
                    == Some(device@ + rest),
                None => spec_decode_chars(b@.subrange(HEADER_LEN as int, len as int)) is None,
            },
        decreases len - pos,
    {
        proof {
            assert((len - pos) % 4 == 0) by {
                assert(len - pos == (len - HEADER_LEN) - (pos - HEADER_LEN));
            }
            assert(len - pos >= 4);
        }
        let u = u32_from_le_bytes(slice_subrange(b.as_slice(), pos, pos + 4));
        let ghost tail = b@.subrange(pos as int, len as int);
        proof {
            assert(tail.subrange(0, 4) =~= b@.subrange(pos as int, pos + 4));
            assert(tail.skip(4) =~= b@.subrange(pos + 4, len as int));
        }
        match char_from_u32(u) {
            None => {
                proof {
                    assert(!is_scalar(u));
                    assert(spec_decode_chars(tail) is None);
                }
                return None;
            },
            Some(c) => {
                proof {
                    char_is_scalar(c);
                    char_u32_cast(c, u);
                    assert(is_scalar(u));
                    match spec_decode_chars(b@.subrange(pos + 4, len as int)) {
                        Some(rest) => {
                            assert(spec_decode_chars(tail) == Some(seq![c] + rest));
                            assert(device@ + (seq![c] + rest) =~= (device@ + seq![c]) + rest);
                        },
                        None => {
                            assert(spec_decode_chars(tail) is None);
                        },
                    }
                }
                string_push_char(&mut device, c);
            },
        }
        pos = pos + 4;
    }
    proof {
        assert(b@.subrange(pos as int, len as int) =~= Seq::<u8>::empty());
        assert(spec_decode_chars(b@.subrange(pos as int, len as int)) == Some(
            Seq::<char>::empty(),
        ));
        assert(device@ + Seq::<char>::empty() =~= device@);
        assert(b@.skip(HEADER_LEN as int) =~= b@.subrange(HEADER_LEN as int, len as int));
    }
    let temperature = (traw as i64) - TEMPERATURE_OFFSET;
    let updated_at = if tag == 0 {
        None
    } else {
        Some(ut)
    };
    let rec = SensorData {
        id,
        device_id: device,
        temperature,
        humidity: h as i64,
        soil_moisture: sm as i64,
        timestamp: ts,
        updated_at,
    };
    proof {
        assert(spec_decode(b@) matches Some(v) && v =~= rec@);
    }
    Some(rec)
}

} // verus!

