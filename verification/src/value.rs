//! The values a record can hold, and the text each is written as.

use vstd::prelude::*;
use vstd::utf8::{
    decode_utf8, decode_utf8_encode_utf8, encode_utf8, pop_first_scalar, valid_first_scalar,
    valid_utf8,
};
use crate::timestamp::Timestamp;

verus! {

/// The text that `String::from_utf8_lossy` decodes from `bytes`.
pub uninterp spec fn utf8_lossy(bytes: Seq<u8>) -> Seq<char>;

/// `String::from_utf8_lossy`: the decoded text, in which each invalid sequence
/// has become U+FFFD; valid UTF-8 is decoded as it stands.
#[verifier::external_body]
pub(crate) fn decode_lossy(bytes: &[u8]) -> (text: String)
    ensures
        text@ == utf8_lossy(bytes@),
        valid_utf8(bytes@) ==> text@ == decode_utf8(bytes@),
{
    String::from_utf8_lossy(bytes).into_owned()
}

/// The decimal digits of `n`, most significant first, as ASCII.
pub open spec fn decimal_digits(n: nat) -> Seq<u8>
    decreases n,
{
    if n < 10 {
        seq![(48 + n) as u8]
    } else {
        decimal_digits(n / 10).push((48 + n % 10) as u8)
    }
}

/// The base-10 text of `n`: a minus sign where it is negative, then the digits
/// of its magnitude with no leading zero.
pub open spec fn decimal_text(n: int) -> Seq<u8> {
    if n < 0 {
        seq![45u8] + decimal_digits((-n) as nat)
    } else {
        decimal_digits(n as nat)
    }
}

/// The bytes of `true` or `false`.
pub open spec fn boolean_text(b: bool) -> Seq<u8> {
    if b {
        seq![116u8, 114u8, 117u8, 101u8]
    } else {
        seq![102u8, 97u8, 108u8, 115u8, 101u8]
    }
}

fn push_digits(n: u64, out: &mut Vec<u8>)
    ensures
        final(out)@ == old(out)@ + decimal_digits(n as nat),
    decreases n,
{
    if n < 10 {
        out.push(48 + (n as u8));
        assert(final(out)@ =~= old(out)@ + decimal_digits(n as nat));
    } else {
        push_digits(n / 10, out);
        out.push(48 + ((n % 10) as u8));
        assert(final(out)@ =~= old(out)@ + decimal_digits(n as nat));
    }
}

/// The base-10 text of an integer.
pub fn integer_text(n: i64) -> (text: Vec<u8>)
    ensures
        text@ == decimal_text(n as int),
{
    let mut text: Vec<u8> = Vec::new();
    if n < 0 {
        text.push(45);
        let magnitude: u64 = ((-(n + 1)) as u64) + 1;
        push_digits(magnitude, &mut text);
        assert(text@ =~= decimal_text(n as int));
    } else {
        push_digits(n as u64, &mut text);
        assert(text@ =~= decimal_text(n as int));
    }
    text
}

/// One value of a record.
#[derive(Clone, Debug)]
pub enum Value {
    /// A byte string, taken as UTF-8.
    Bytes(Vec<u8>),
    /// A signed integer.
    Integer(i64),
    /// A floating-point number, held as its shortest decimal text that reads
    /// back as the same number.
    Float(String),
    /// A boolean.
    Boolean(bool),
    /// An instant.
    Timestamp(Timestamp),
    /// No value.
    Null,
    /// A list of values: it has no text in a line.
    Array,
    /// A map of values: it has no text in a line.
    Object,
    /// A pattern: it has no text in a line.
    Regex,
}

impl Value {
    /// The text that the value is written as, before any quoting. A byte
    /// string that is valid UTF-8 is written as it stands; in any other, each
    /// invalid sequence becomes U+FFFD.
    pub open spec fn text(self) -> Seq<u8> {
        match self {
            Value::Bytes(bytes) => if valid_utf8(bytes@) {
                bytes@
            } else {
                encode_utf8(utf8_lossy(bytes@))
            },
            Value::Integer(n) => decimal_text(n as int),
            Value::Float(digits) => encode_utf8(digits@),
            Value::Boolean(b) => boolean_text(b),
            Value::Timestamp(t) => t.text(),
            Value::Null => Seq::empty(),
            Value::Array => Seq::empty(),
            Value::Object => Seq::empty(),
            Value::Regex => Seq::empty(),
        }
    }

    /// The value's text, as bytes.
    pub fn to_text(&self) -> (bytes: Vec<u8>)
        ensures
            bytes@ == self.text(),
    {
        match self {
            Value::Bytes(raw) => {
                proof {
                    if valid_utf8(raw@) {
                        decode_utf8_encode_utf8(raw@);
                    }
                }
                decode_lossy(raw.as_slice()).as_str().as_bytes_vec()
            },
            Value::Integer(n) => integer_text(*n),
            Value::Float(digits) => digits.as_str().as_bytes_vec(),
            Value::Boolean(b) => {
                if *b {
                    vec![116u8, 114u8, 117u8, 101u8]
                } else {
                    vec![102u8, 97u8, 108u8, 115u8, 101u8]
                }
            },
            Value::Timestamp(t) => t.to_text(),
            _ => Vec::new(),
        }
    }
}

/// Bytes below 128 are valid UTF-8, so a byte string made of them is written
/// as it stands.
pub proof fn plain_bytes_are_valid_utf8(bytes: Seq<u8>)
    requires
        forall|i: int| 0 <= i < bytes.len() ==> #[trigger] bytes[i] < 128,
    ensures
        valid_utf8(bytes),
    decreases bytes.len(),
{
    if bytes.len() != 0 {
        let first = bytes[0];
        assert((first & 0x7f) < 0xD800) by (bit_vector);
        assert(valid_first_scalar(bytes));
        let rest = pop_first_scalar(bytes);
        assert(rest =~= bytes.subrange(1, bytes.len() as int));
        assert forall|i: int| 0 <= i < rest.len() implies #[trigger] rest[i] < 128 by {
            assert(rest[i] == bytes[i + 1]);
        }
        plain_bytes_are_valid_utf8(rest);
    }
}

} // verus!
