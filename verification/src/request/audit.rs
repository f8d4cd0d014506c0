//! The header that carries the reason for an audited change.
//!
//! A reason is free text, a header value is not: the reason travels
//! percent-encoded, every byte of its UTF-8 form that is not an ASCII letter
//! or digit written as `%` and two upper-case hexadecimal digits.

use vstd::prelude::*;

verus! {

/// Whether a byte is an ASCII letter or digit.
pub open spec fn is_alphanumeric(b: u8) -> bool {
    ||| 0x30 <= b <= 0x39
    ||| 0x41 <= b <= 0x5a
    ||| 0x61 <= b <= 0x7a
}

/// The upper-case hexadecimal digit for a value below 16.
pub open spec fn hex_digit(n: u8) -> u8 {
    if n < 10 {
        (0x30 + n) as u8
    } else {
        (0x37 + n) as u8
    }
}

/// One byte, percent-encoded.
pub open spec fn encoded_byte(b: u8) -> Seq<u8> {
    if is_alphanumeric(b) {
        seq![b]
    } else {
        seq![0x25u8, hex_digit(b / 16), hex_digit(b % 16)]
    }
}

/// A sequence of bytes, percent-encoded byte by byte.
pub open spec fn percent_encoded(bytes: Seq<u8>) -> Seq<u8>
    decreases bytes.len(),
{
    if bytes.len() == 0 {
        Seq::empty()
    } else {
        percent_encoded(bytes.drop_last()) + encoded_byte(bytes.last())
    }
}

/// The value of the audit header for a reason.
pub open spec fn audit_value(reason: Seq<char>) -> Seq<u8> {
    percent_encoded(vstd::utf8::encode_utf8(reason))
}

fn hex(n: u8) -> (d: u8)
    requires
        n < 16,
    ensures
        d == hex_digit(n),
{
    if n < 10 {
        0x30 + n
    } else {
        0x37 + n
    }
}

/// Percent-encodes `bytes`.
pub fn percent_encode(bytes: &[u8]) -> (out: Vec<u8>)
    ensures
        out@ == percent_encoded(bytes@),
{
    let mut out: Vec<u8> = Vec::new();
    let mut i: usize = 0;
    while i < bytes.len()
        invariant
            i <= bytes.len(),
            out@ == percent_encoded(bytes@.take(i as int)),
        decreases bytes.len() - i,
    {
        let b: u8 = bytes[i];
        proof {
            assert(bytes@.take(i + 1).drop_last() =~= bytes@.take(i as int));
            assert(bytes@.take(i + 1).last() == b);
        }
        if (b >= 0x30 && b <= 0x39) || (b >= 0x41 && b <= 0x5a) || (b >= 0x61 && b <= 0x7a) {
            out.push(b);
            assert(out@ =~= percent_encoded(bytes@.take(i as int)) + seq![b]);
        } else {
            out.push(0x25);
            out.push(hex(b / 16));
            out.push(hex(b % 16));
            assert(out@ =~= percent_encoded(bytes@.take(i as int)) + seq![
                0x25u8,
                hex_digit(b / 16),
                hex_digit(b % 16),
            ]);
        }
        i += 1;
    }
    assert(bytes@.take(i as int) =~= bytes@);
    out
}

/// The name of the header that carries an audit reason.
pub fn audit_header_name() -> (name: &'static str)
    ensures
        name@ == "x-audit-log-reason"@,
{
    "x-audit-log-reason"
}

/// The value of the audit header for `reason`.
pub fn audit_header(reason: &str) -> (value: Vec<u8>)
    ensures
        value@ == audit_value(reason@),
{
    percent_encode(reason.as_bytes())
}

/// Every byte of a percent-encoded sequence is an ASCII letter, an ASCII
/// digit or `%`: an encoded reason is always fit to be a header's value.
pub proof fn lemma_encoded_is_plain(bytes: Seq<u8>, i: int)
    requires
        0 <= i < percent_encoded(bytes).len(),
    ensures
        is_alphanumeric(percent_encoded(bytes)[i]) || percent_encoded(bytes)[i] == 0x25,
    decreases bytes.len(),
{
    if bytes.len() > 0 {
        let head = percent_encoded(bytes.drop_last());
        if i < head.len() {
            lemma_encoded_is_plain(bytes.drop_last(), i);
        } else {
            let b = bytes.last();
            assert(hex_digit(b / 16) == 0x30 + b / 16 || hex_digit(b / 16) == 0x37 + b / 16);
            assert(hex_digit(b % 16) == 0x30 + b % 16 || hex_digit(b % 16) == 0x37 + b % 16);
        }
    }
}

} // verus!
