//! Records received from the broker and the line printed for each.
use vstd::prelude::*;
use vstd::string::StringSliceAdditionalSpecFns;
use vstd::utf8::*;
use crate::text::{byte_list, push_byte_list, push_decimal, push_signed_decimal, decimal, signed_decimal};

verus! {

/// Shown in place of a payload that is not valid UTF-8.
pub const INVALID_UTF8_PLACEHOLDER: &'static str = "<invalid utf-8>";

/// Shown in place of an absent payload.
pub const NULL_PLACEHOLDER: &'static str = "<null>";

/// A record as received: optional key and payload bytes, and where it was read.
pub struct Record {
    pub key: Option<Vec<u8>>,
    pub payload: Option<Vec<u8>>,
    pub topic: String,
    pub partition: i32,
    pub offset: i64,
}

/// The bytes of an optional byte vector.
pub open spec fn bytes_of(b: Option<Vec<u8>>) -> Option<Seq<u8>> {
    match b {
        Some(v) => Some(v@),
        None => None,
    }
}

/// How the key is shown: `None`, or `Some([1, 2, 3])`.
pub open spec fn key_text(key: Option<Seq<u8>>) -> Seq<char> {
    match key {
        Some(b) => "Some("@ + byte_list(b) + ")"@,
        None => "None"@,
    }
}

/// How the payload is shown: its text where the bytes are valid UTF-8, else
/// a placeholder for invalid text, or one for an absent payload.
pub open spec fn payload_text(payload: Option<Seq<u8>>) -> Seq<char> {
    match payload {
        Some(b) => if valid_utf8(b) {
            decode_utf8(b)
        } else {
            INVALID_UTF8_PLACEHOLDER@
        },
        None => NULL_PLACEHOLDER@,
    }
}

/// The line printed for a record.
pub open spec fn record_line(r: Record) -> Seq<char> {
    "key: '"@ + key_text(bytes_of(r.key)) + "', payload: '"@ + payload_text(bytes_of(r.payload))
        + "', topic: "@ + r.topic@ + ", partition: "@ + signed_decimal(r.partition as int)
        + ", offset: "@ + signed_decimal(r.offset as int)
}

/// Relies on std's `str::from_utf8`: it succeeds exactly on valid UTF-8 and
/// then holds the same bytes.
#[verifier::external_body]
fn utf8_str(b: &[u8]) -> (r: Option<&str>)
    ensures
        r is Some <==> valid_utf8(b@),
        r is Some ==> r->0.spec_bytes() == b@,
{
    std::str::from_utf8(b).ok()
}

/// Appends how the key is shown.
pub fn push_key_text(out: &mut String, key: &Option<Vec<u8>>)
    ensures
        final(out)@ == old(out)@ + key_text(bytes_of(*key)),
{
    match key {
        Some(b) => {
            out.append("Some(");
            push_byte_list(out, b.as_slice());
            out.append(")");
            proof {
                assert(final(out)@ =~= old(out)@ + key_text(bytes_of(*key)));
            }
        },
        None => {
            out.append("None");
        },
    }
}

/// The text shown for a payload.
pub fn payload_view(payload: &Option<Vec<u8>>) -> (r: &str)
    ensures
        r@ == payload_text(bytes_of(*payload)),
{
    match payload {
        Some(b) => match utf8_str(b.as_slice()) {
            Some(s) => {
                proof {
                    encode_utf8_decode_utf8(s@);
                }
                s
            },
            None => INVALID_UTF8_PLACEHOLDER,
        },
        None => NULL_PLACEHOLDER,
    }
}

/// The line printed for a record: its key, payload text, topic, partition
/// and offset.
pub fn render_record(r: &Record) -> (s: String)
    ensures
        s@ == record_line(*r),
{
    let mut s = String::new();
    s.append("key: '");
    push_key_text(&mut s, &r.key);
    s.append("', payload: '");
    s.append(payload_view(&r.payload));
    s.append("', topic: ");
    s.append(r.topic.as_str());
    s.append(", partition: ");
    push_signed_decimal(&mut s, r.partition as i64);
    s.append(", offset: ");
    push_signed_decimal(&mut s, r.offset);
    proof {
        assert(s@ =~= record_line(*r));
    }
    s
}

} // verus!
