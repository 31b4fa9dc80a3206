//! Hexadecimal codec. Decoding takes the bytes of a literal, skips blank
//! characters, and pairs the digit values into bytes; encoding renders each
//! byte as two lowercase digits. Both directions are specified exactly and
//! proved inverse to one another.

use vstd::prelude::*;
use vstd::string::StringSliceAdditionalSpecFns;

verus! {

/// True of a byte that is an ASCII hexadecimal digit.
pub open spec fn is_hex_digit(b: u8) -> bool {
    (0x30u8 <= b && b <= 0x39u8) || (0x61u8 <= b && b <= 0x66u8) || (0x41u8 <= b && b <= 0x46u8)
}

/// True of a byte that the decoder skips without effect.
pub open spec fn is_hex_whitespace(b: u8) -> bool {
    b == 0x20u8 || b == 0x0du8 || b == 0x0au8 || b == 0x09u8
}

/// The numeric value of a hexadecimal digit byte.
pub open spec fn hex_digit_value(b: u8) -> u8
    recommends
        is_hex_digit(b),
{
    if 0x30u8 <= b && b <= 0x39u8 {
        (b - 0x30u8) as u8
    } else if 0x61u8 <= b && b <= 0x66u8 {
        ((b - 0x61u8) + 10) as u8
    } else {
        ((b - 0x41u8) + 10) as u8
    }
}

/// True when every byte of `s` is a hex digit or skippable whitespace.
pub open spec fn hex_acceptable(s: Seq<u8>) -> bool {
    forall|i: int| 0 <= i < s.len() ==> is_hex_digit(s[i]) || is_hex_whitespace(s[i])
}

/// The values of the hexadecimal digits of `s`, in order, whitespace and
/// any other bytes dropped.
pub open spec fn hex_digit_values(s: Seq<u8>) -> Seq<u8>
    decreases s.len(),
{
    if s.len() == 0 {
        Seq::<u8>::empty()
    } else if is_hex_digit(s.last()) {
        hex_digit_values(s.drop_last()).push(hex_digit_value(s.last()))
    } else {
        hex_digit_values(s.drop_last())
    }
}

/// Bytes assembled from an even run of digit values, two digits a byte,
/// high digit first.
pub open spec fn bytes_of_digit_values(d: Seq<u8>) -> Seq<u8> {
    Seq::new(d.len() / 2, |i: int| (d[2 * i] * 16 + d[2 * i + 1]) as u8)
}

/// What decoding the byte sequence `s` yields: the decoded bytes, or the
/// error that the decoder reports.
pub open spec fn decode_spec(s: Seq<u8>) -> Result<Seq<u8>, crate::error::Error> {
    if !hex_acceptable(s) {
        Err(crate::error::Error::HexDecodeFailure(
            crate::error::HexDecodeFailureKind::InvalidCharacter {
                byte: s[first_unacceptable(s)],
                index: first_unacceptable(s) as usize,
            },
        ))
    } else if hex_digit_values(s).len() % 2 != 0 {
        Err(crate::error::Error::HexDecodeFailure(
            crate::error::HexDecodeFailureKind::OddDigitCount,
        ))
    } else {
        Ok(bytes_of_digit_values(hex_digit_values(s)))
    }
}

/// The position of the first byte that is neither a digit nor whitespace.
pub open spec fn first_unacceptable(s: Seq<u8>) -> int {
    choose|i: int|
        0 <= i < s.len() && !(is_hex_digit(s[i]) || is_hex_whitespace(s[i]))
            && (forall|j: int| 0 <= j < i ==> is_hex_digit(s[j]) || is_hex_whitespace(s[j]))
}

/// Every digit value that `hex_digit_values` collects is below 16.
proof fn lemma_hex_digit_values_bounded(s: Seq<u8>)
    ensures
        forall|i: int| 0 <= i < hex_digit_values(s).len() ==> hex_digit_values(s)[i] < 16,
    decreases s.len(),
{
    if s.len() > 0 {
        lemma_hex_digit_values_bounded(s.drop_last());
        assert forall|i: int| 0 <= i < hex_digit_values(s).len() implies hex_digit_values(
            s,
        )[i] < 16 by {
            if i < hex_digit_values(s.drop_last()).len() {
                assert(hex_digit_values(s)[i] == hex_digit_values(s.drop_last())[i]);
            } else {
                assert(is_hex_digit(s.last()));
                assert(hex_digit_values(s)[i] == hex_digit_value(s.last()));
            }
        }
    }
}

/// Collecting digit values over one more byte extends the run by that byte's
/// value, or leaves it unchanged.
proof fn lemma_hex_digit_values_take_step(s: Seq<u8>, i: int)
    requires
        0 <= i < s.len(),
    ensures
        hex_digit_values(s.take(i + 1)) == if is_hex_digit(s[i]) {
            hex_digit_values(s.take(i)).push(hex_digit_value(s[i]))
        } else {
            hex_digit_values(s.take(i))
        },
{
    assert(s.take(i + 1).drop_last() =~= s.take(i));
    assert(s.take(i + 1).last() == s[i]);
}

/// Decode the bytes of a hexadecimal literal.
///
/// Succeeds exactly when every byte is a digit or blank and the digits come
/// in pairs; otherwise reports the first offending byte, or the odd count.
pub fn decode_hex_bytes(s: &[u8]) -> (r: Result<Vec<u8>, crate::error::Error>)
    ensures
        match r {
            Ok(v) => decode_spec(s@) == Ok::<Seq<u8>, crate::error::Error>(v@),
            Err(e) => decode_spec(s@) == Err::<Seq<u8>, crate::error::Error>(e),
        },
        r is Ok <==> hex_acceptable(s@) && hex_digit_values(s@).len() % 2 == 0,
{
    let n = s.len();
    let mut digits: Vec<u8> = Vec::new();
    let mut i: usize = 0;
    while i < n
        invariant
            i <= n,
            n == s@.len(),
            forall|j: int| 0 <= j < i ==> is_hex_digit(s@[j]) || is_hex_whitespace(s@[j]),
            digits@ == hex_digit_values(s@.take(i as int)),
        decreases n - i,
    {
        let b = s[i];
        proof {
            lemma_hex_digit_values_take_step(s@, i as int);
        }
        if (0x30u8 <= b && b <= 0x39u8) {
            digits.push(b - 0x30u8);
        } else if 0x61u8 <= b && b <= 0x66u8 {
            digits.push(b - 0x61u8 + 10);
        } else if 0x41u8 <= b && b <= 0x46u8 {
            digits.push(b - 0x41u8 + 10);
        } else if b == 0x20u8 || b == 0x0du8 || b == 0x0au8 || b == 0x09u8 {
        } else {
            proof {
                assert(!hex_acceptable(s@));
                assert(first_unacceptable(s@) == i as int);
            }
            return Err(crate::error::Error::HexDecodeFailure(
                crate::error::HexDecodeFailureKind::InvalidCharacter { byte: b, index: i },
            ));
        }
        i += 1;
    }
    proof {
        assert(s@.take(n as int) =~= s@);
        lemma_hex_digit_values_bounded(s@);
    }
    if digits.len() % 2 != 0 {
        return Err(crate::error::Error::HexDecodeFailure(
            crate::error::HexDecodeFailureKind::OddDigitCount,
        ));
    }
    let total = digits.len();
    let m = total / 2;
    let mut out: Vec<u8> = Vec::new();
    let mut k: usize = 0;
    while k < m
        invariant
            k <= m,
            total == digits@.len(),
            m == digits@.len() / 2,
            2 * m <= total,
            digits@ == hex_digit_values(s@),
            forall|t: int| 0 <= t < digits@.len() ==> digits@[t] < 16,
            out@.len() == k,
            forall|t: int| 0 <= t < k ==> out@[t] == bytes_of_digit_values(digits@)[t],
        decreases m - k,
    {
        proof {
            assert(2 * (k as int) + 1 < digits@.len());
        }
        let hi = digits[2 * k];
        let lo = digits[2 * k + 1];
        out.push(hi * 16 + lo);
        k += 1;
    }
    proof {
        assert(out@ =~= bytes_of_digit_values(hex_digit_values(s@)));
    }
    Ok(out)
}

/// The lowercase hexadecimal digit character for a value below 16.
pub open spec fn hex_char_of(v: u8) -> char
    recommends
        v < 16,
{
    if v == 0 { '0' } else if v == 1 { '1' } else if v == 2 { '2' } else if v == 3 { '3' }
    else if v == 4 { '4' } else if v == 5 { '5' } else if v == 6 { '6' } else if v == 7 { '7' }
    else if v == 8 { '8' } else if v == 9 { '9' } else if v == 10 { 'a' } else if v == 11 { 'b' }
    else if v == 12 { 'c' } else if v == 13 { 'd' } else if v == 14 { 'e' } else { 'f' }
}

/// The text that encodes `b` in hexadecimal: two lowercase digits a byte,
/// high digit first.
pub open spec fn hex_str_of(b: Seq<u8>) -> Seq<char> {
    Seq::new(
        2 * b.len(),
        |i: int| if i % 2 == 0 {
            hex_char_of((b[i / 2] / 16) as u8)
        } else {
            hex_char_of((b[i / 2] % 16) as u8)
        },
    )
}

fn hex_char(v: u8) -> (c: char)
    requires
        v < 16,
    ensures
        c == hex_char_of(v),
{
    if v == 0 { '0' } else if v == 1 { '1' } else if v == 2 { '2' } else if v == 3 { '3' }
    else if v == 4 { '4' } else if v == 5 { '5' } else if v == 6 { '6' } else if v == 7 { '7' }
    else if v == 8 { '8' } else if v == 9 { '9' } else if v == 10 { 'a' } else if v == 11 { 'b' }
    else if v == 12 { 'c' } else if v == 13 { 'd' } else if v == 14 { 'e' } else { 'f' }
}

/// Relies on std's String::push: appends exactly the one character.
#[verifier::external_body]
fn push_char(s: &mut String, c: char)
    ensures
        final(s)@ == old(s)@.push(c),
{
    s.push(c);
}

/// Encode bytes as lowercase hexadecimal text.
pub fn encode_hex(b: &[u8]) -> (r: String)
    ensures
        r@ == hex_str_of(b@),
{
    let n = b.len();
    let mut out = String::new();
    let mut i: usize = 0;
    while i < n
        invariant
            i <= n,
            n == b@.len(),
            out@ == hex_str_of(b@.take(i as int)),
        decreases n - i,
    {
        let v = b[i];
        push_char(&mut out, hex_char(v / 16));
        push_char(&mut out, hex_char(v % 16));
        proof {
            assert(out@ =~= hex_str_of(b@.take(i as int + 1)));
        }
        i += 1;
    }
    proof {
        assert(b@.take(n as int) =~= b@);
    }
    out
}

/// The hexadecimal encoding of any byte run is itself acceptable hexadecimal
/// whose decoding gives the run back: the codec round-trips over the UTF-8
/// bytes of the encoded text.
pub proof fn lemma_hex_roundtrip(b: Seq<u8>)
    ensures
        decode_spec(vstd::utf8::encode_utf8(hex_str_of(b))) == Ok::<
            Seq<u8>,
            crate::error::Error,
        >(b),
{
    let chars = hex_str_of(b);
    assert forall|i: int| 0 <= i < chars.len() implies '\0' <= #[trigger] chars[i]
        <= '\u{7f}' by {
        lemma_hex_char_ascii((b[i / 2] / 16) as u8);
        lemma_hex_char_ascii((b[i / 2] % 16) as u8);
    }
    assert(vstd::utf8::is_ascii_chars(chars));
    vstd::utf8::is_ascii_chars_encode_utf8(chars);
    let bytes = vstd::utf8::encode_utf8(chars);
    assert forall|i: int| 0 <= i < bytes.len() implies is_hex_digit(#[trigger] bytes[i])
        && !is_hex_whitespace(bytes[i]) && hex_digit_value(bytes[i]) == if i % 2 == 0 {
        b[i / 2] / 16
    } else {
        b[i / 2] % 16
    } by {
        lemma_hex_char_ascii((b[i / 2] / 16) as u8);
        lemma_hex_char_ascii((b[i / 2] % 16) as u8);
        assert(bytes[i] == chars[i] as u8);
    }
    lemma_all_digits(bytes);
    assert(hex_digit_values(bytes) =~= Seq::new(bytes.len(), |i: int| hex_digit_value(bytes[i])));
    let d = hex_digit_values(bytes);
    assert(d.len() == 2 * b.len());
    assert forall|i: int| 0 <= i < b.len() implies bytes_of_digit_values(d)[i] == b[i] by {
        assert(d[2 * i] == b[i] / 16);
        assert(d[2 * i + 1] == b[i] % 16);
    }
    assert(bytes_of_digit_values(d) =~= b);
}

/// Each hexadecimal digit character is a seven-bit character whose byte is a
/// digit byte carrying the value back.
proof fn lemma_hex_char_ascii(v: u8)
    requires
        v < 16,
    ensures
        '\0' <= hex_char_of(v) <= '\u{7f}',
        is_hex_digit(hex_char_of(v) as u8),
        !is_hex_whitespace(hex_char_of(v) as u8),
        hex_digit_value(hex_char_of(v) as u8) == v,
{
}

/// Over a run of digit bytes, collecting digit values maps each byte to its
/// value, in place.
proof fn lemma_all_digits(s: Seq<u8>)
    requires
        forall|i: int| 0 <= i < s.len() ==> is_hex_digit(#[trigger] s[i]),
    ensures
        hex_digit_values(s) =~= Seq::new(s.len(), |i: int| hex_digit_value(s[i])),
    decreases s.len(),
{
    if s.len() > 0 {
        lemma_all_digits(s.drop_last());
    }
}

/// Decode a hexadecimal literal given as text, over its UTF-8 bytes.
pub fn decode_hex(s: &str) -> (r: Result<Vec<u8>, crate::error::Error>)
    ensures
        match r {
            Ok(v) => decode_spec(s.spec_bytes()) == Ok::<Seq<u8>, crate::error::Error>(v@),
            Err(e) => decode_spec(s.spec_bytes()) == Err::<Seq<u8>, crate::error::Error>(e),
        },
        r is Ok <==> hex_acceptable(s.spec_bytes()) && hex_digit_values(s.spec_bytes()).len() % 2 == 0,
{
    decode_hex_bytes(s.as_bytes())
}

} // verus!
