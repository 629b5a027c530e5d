//! Text encodings the shell produces: base64 (through the `base64` crate),
//! `application/x-www-form-urlencoded` byte serialization, lowercase hex and
//! decimal numbers.

use base64::Engine;
use vstd::prelude::*;
use vstd::string::StrSliceExecFns;

verus! {

/// Why `base64` refused to decode its input (`base64::DecodeError`'s
/// variants, with their fields).
#[derive(Clone, Copy, PartialEq, Eq, Structural, Debug)]
pub enum Base64DecodeError {
    /// A byte outside the alphabet (or misplaced padding): offset, byte.
    InvalidByte(usize, u8),
    /// An invalid number of symbols in the last quad: the length.
    InvalidLength(usize),
    /// A last symbol with nonzero discarded bits: offset, byte.
    InvalidLastSymbol(usize, u8),
    /// Padding absent or incorrect.
    InvalidPadding,
}

/// The text `base64::DecodeError`'s `Display` writes.
pub open spec fn spec_base64_error_message(e: Base64DecodeError) -> Seq<char> {
    match e {
        Base64DecodeError::InvalidByte(index, byte) => "Invalid symbol "@ + spec_decimal(byte as int)
            + ", offset "@ + spec_decimal(index as int) + "."@,
        Base64DecodeError::InvalidLength(len) => "Invalid input length: "@ + spec_decimal(len as int),
        Base64DecodeError::InvalidLastSymbol(index, byte) => "Invalid last symbol "@ + spec_decimal(
            byte as int,
        ) + ", offset "@ + spec_decimal(index as int) + "."@,
        Base64DecodeError::InvalidPadding => "Invalid padding"@,
    }
}

impl Base64DecodeError {
    /// The error's message, as `base64` words it.
    pub fn message(&self) -> (res: String)
        ensures
            res@ == spec_base64_error_message(*self),
    {
        match *self {
            Base64DecodeError::InvalidByte(index, byte) => {
                let mut out = String::from_str("Invalid symbol ");
                push_decimal_unsigned(&mut out, byte as u64);
                out.append(", offset ");
                push_decimal_unsigned(&mut out, index as u64);
                out.append(".");
                out
            },
            Base64DecodeError::InvalidLength(len) => {
                let mut out = String::from_str("Invalid input length: ");
                push_decimal_unsigned(&mut out, len as u64);
                out
            },
            Base64DecodeError::InvalidLastSymbol(index, byte) => {
                let mut out = String::from_str("Invalid last symbol ");
                push_decimal_unsigned(&mut out, byte as u64);
                out.append(", offset ");
                push_decimal_unsigned(&mut out, index as u64);
                out.append(".");
                out
            },
            Base64DecodeError::InvalidPadding => String::from_str("Invalid padding"),
        }
    }
}

/// The bytes that `base64`'s standard engine (padded, standard alphabet)
/// decodes `input` to, or `None` where it reports a decode error.
pub uninterp spec fn spec_base64_standard_decode(input: Seq<char>) -> Option<Seq<u8>>;

/// The text that `base64`'s standard engine encodes `bytes` to.
pub uninterp spec fn spec_base64_standard_encode(bytes: Seq<u8>) -> Seq<char>;

/// Calls `base64`'s `BASE64_STANDARD.decode` and copies a `DecodeError`'s
/// variant and fields into `Base64DecodeError`. Claims that the call fails
/// exactly where the named decoding is `None`, and otherwise yields it.
#[verifier::external_body]
pub(crate) fn base64_standard_decode(input: &str) -> (res: Result<Vec<u8>, Base64DecodeError>)
    ensures
        match res {
            Ok(bytes) => spec_base64_standard_decode(input@) == Some(bytes@),
            Err(_) => spec_base64_standard_decode(input@) is None,
        },
{
    match base64::engine::general_purpose::STANDARD.decode(input) {
        Ok(bytes) => Ok(bytes),
        Err(base64::DecodeError::InvalidByte(i, b)) => Err(Base64DecodeError::InvalidByte(i, b)),
        Err(base64::DecodeError::InvalidLength(n)) => Err(Base64DecodeError::InvalidLength(n)),
        Err(base64::DecodeError::InvalidLastSymbol(i, b)) => Err(Base64DecodeError::InvalidLastSymbol(i, b)),
        Err(base64::DecodeError::InvalidPadding) => Err(Base64DecodeError::InvalidPadding),
    }
}

/// Calls `base64`'s `BASE64_STANDARD.encode`. Claims that it yields the
/// named encoding, and that the same engine decodes that text back to
/// `bytes` (it pads when encoding and, when decoding, requires exactly that
/// padding and no stray trailing bits, so its own output is accepted).
#[verifier::external_body]
pub(crate) fn base64_standard_encode(bytes: &[u8]) -> (res: String)
    ensures
        res@ == spec_base64_standard_encode(bytes@),
        spec_base64_standard_decode(res@) == Some(bytes@),
{
    base64::engine::general_purpose::STANDARD.encode(bytes)
}

/// Appends one character (`String::push`).
#[verifier::external_body]
pub(crate) fn push_char(s: &mut String, c: char)
    ensures
        final(s)@ == old(s)@.push(c),
{
    s.push(c);
}

/// Whether two strings hold the same characters.
pub fn str_equal(a: &str, b: &str) -> (res: bool)
    ensures
        res == (a@ == b@),
{
    let n = a.unicode_len();
    if n != b.unicode_len() {
        return false;
    }
    for i in 0..n
        invariant
            n == a@.len(),
            n == b@.len(),
            forall|j: int| 0 <= j < i ==> a@[j] == b@[j],
    {
        if a.get_char(i) != b.get_char(i) {
            return false;
        }
    }
    assert(a@ =~= b@);
    true
}

// ---------------------------------------------------------------------------
// application/x-www-form-urlencoded byte serialization
// ---------------------------------------------------------------------------

/// Bytes the form serializer copies through unchanged: `*`, `-`, `.`,
/// `_`, ASCII digits and ASCII letters.
pub open spec fn form_unchanged(b: u8) -> bool {
    b == 42 || b == 45 || b == 46 || b == 95 || (48 <= b && b <= 57) || (65 <= b && b <= 90) || (
    97 <= b && b <= 122)
}

/// The uppercase hex digit for `n < 16`.
pub open spec fn hex_upper_digit(n: int) -> char {
    if n < 10 {
        (48 + n) as char
    } else {
        (55 + n) as char
    }
}

/// The lowercase hex digit for `n < 16`.
pub open spec fn hex_lower_digit(n: int) -> char {
    if n < 10 {
        (48 + n) as char
    } else {
        (87 + n) as char
    }
}

/// How the form serializer writes one byte: unchanged bytes as themselves,
/// a space as `+`, anything else as `%XX` with uppercase hex digits.
pub open spec fn form_encode_byte(b: u8) -> Seq<char> {
    if form_unchanged(b) {
        seq![b as char]
    } else if b == 32 {
        seq!['+']
    } else {
        seq!['%', hex_upper_digit(b as int / 16), hex_upper_digit(b as int % 16)]
    }
}

/// The form serialization of a byte string.
pub open spec fn spec_form_urlencode(bytes: Seq<u8>) -> Seq<char>
    decreases bytes.len(),
{
    if bytes.len() == 0 {
        seq![]
    } else {
        spec_form_urlencode(bytes.drop_last()) + form_encode_byte(bytes.last())
    }
}

/// Characters that can appear in a form serialization: the unchanged
/// characters, `+` and `%` (hex digits are among the unchanged ones).
pub open spec fn form_output_char(c: char) -> bool {
    c == '+' || c == '%' || form_unchanged(c as u8) && (c as u32) < 128
}

fn hex_upper_char(n: u8) -> (c: char)
    requires
        n < 16,
    ensures
        c == hex_upper_digit(n as int),
{
    if n < 10 {
        (48 + n) as char
    } else {
        (55 + n) as char
    }
}

fn hex_lower_char(n: u8) -> (c: char)
    requires
        n < 16,
    ensures
        c == hex_lower_digit(n as int),
{
    if n < 10 {
        (48 + n) as char
    } else {
        (87 + n) as char
    }
}

fn is_form_unchanged(b: u8) -> (res: bool)
    ensures
        res == form_unchanged(b),
{
    b == 42 || b == 45 || b == 46 || b == 95 || (48 <= b && b <= 57) || (65 <= b && b <= 90) || (
    97 <= b && b <= 122)
}

/// `application/x-www-form-urlencoded` byte serialization, the encoding the
/// `form_urlencoded` crate's `byte_serialize` produces.
pub fn form_urlencode(bytes: &[u8]) -> (res: String)
    ensures
        res@ == spec_form_urlencode(bytes@),
{
    let mut out = String::new();
    let n = bytes.len();
    for i in 0..n
        invariant
            n == bytes@.len(),
            out@ == spec_form_urlencode(bytes@.take(i as int)),
    {
        let b = bytes[i];
        assert(bytes@.take(i + 1).drop_last() == bytes@.take(i as int));
        assert(bytes@.take(i + 1).last() == b);
        if is_form_unchanged(b) {
            push_char(&mut out, b as char);
        } else if b == 32 {
            push_char(&mut out, '+');
        } else {
            push_char(&mut out, '%');
            push_char(&mut out, hex_upper_char(b / 16));
            push_char(&mut out, hex_upper_char(b % 16));
        }
    }
    assert(bytes@.take(n as int) == bytes@);
    out
}

/// Every character of a form serialization is one of the characters the
/// serializer can emit; in particular none of `&`, `=`, `#`, `?`, `/` or a
/// space occurs, so the result can stand as one query-parameter value.
pub proof fn lemma_form_urlencode_chars(bytes: Seq<u8>)
    ensures
        forall|i: int|
            0 <= i < spec_form_urlencode(bytes).len() ==> form_output_char(
                #[trigger] spec_form_urlencode(bytes)[i],
            ),
    decreases bytes.len(),
{
    if bytes.len() > 0 {
        lemma_form_urlencode_chars(bytes.drop_last());
        let prefix = spec_form_urlencode(bytes.drop_last());
        let last = form_encode_byte(bytes.last());
        let b = bytes.last();
        assert forall|i: int| 0 <= i < last.len() implies form_output_char(#[trigger] last[i]) by {
            if !form_unchanged(b) && b != 32 && i > 0 {
                let d = if i == 1 { b as int / 16 } else { b as int % 16 };
                assert(0 <= d < 16);
                assert(hex_upper_digit(d) == last[i]);
            }
        }
        assert forall|i: int|
            0 <= i < spec_form_urlencode(bytes).len() implies form_output_char(
                #[trigger] spec_form_urlencode(bytes)[i],
            ) by {
            if i < prefix.len() {
                assert(spec_form_urlencode(bytes)[i] == prefix[i]);
            } else {
                assert(spec_form_urlencode(bytes)[i] == last[i - prefix.len()]);
            }
        }
    }
}


/// The value of an ASCII hex digit (either case).
pub open spec fn hex_value(c: char) -> int {
    if '0' <= c && c <= '9' {
        c as int - 48
    } else if 'A' <= c && c <= 'F' {
        c as int - 55
    } else {
        c as int - 87
    }
}

/// Form decoding, as a query-string reader applies it to a value: `+` is a
/// space, `%XX` is the byte `XX`, any other character stands for itself.
pub open spec fn spec_form_urldecode(text: Seq<char>) -> Seq<u8>
    decreases text.len(),
{
    if text.len() == 0 {
        seq![]
    } else if text[0] == '%' && text.len() >= 3 {
        seq![(hex_value(text[1]) * 16 + hex_value(text[2])) as u8] + spec_form_urldecode(
            text.skip(3),
        )
    } else if text[0] == '+' {
        seq![32u8] + spec_form_urldecode(text.skip(1))
    } else {
        seq![text[0] as u8] + spec_form_urldecode(text.skip(1))
    }
}

/// The serialization of a concatenation is the concatenation of the
/// serializations.
pub proof fn lemma_form_urlencode_append(a: Seq<u8>, b: Seq<u8>)
    ensures
        spec_form_urlencode(a + b) == spec_form_urlencode(a) + spec_form_urlencode(b),
    decreases b.len(),
{
    if b.len() == 0 {
        assert(a + b =~= a);
    } else {
        lemma_form_urlencode_append(a, b.drop_last());
        assert((a + b).drop_last() =~= a + b.drop_last());
        assert((a + b).last() == b.last());
    }
}

proof fn lemma_decode_one_byte(b: u8, rest: Seq<char>)
    ensures
        spec_form_urldecode(form_encode_byte(b) + rest) == seq![b] + spec_form_urldecode(rest),
{
    let e = form_encode_byte(b);
    let t = e + rest;
    if form_unchanged(b) {
        assert(t[0] == b as char);
        assert(t.skip(1) =~= rest);
        assert((b as char) as u8 == b);
    } else if b == 32 {
        assert(t[0] == '+');
        assert(t.skip(1) =~= rest);
    } else {
        let hi = b as int / 16;
        let lo = b as int % 16;
        assert(0 <= hi < 16 && 0 <= lo < 16);
        assert(t[0] == '%');
        assert(t[1] == hex_upper_digit(hi));
        assert(t[2] == hex_upper_digit(lo));
        assert(hex_value(hex_upper_digit(hi)) == hi);
        assert(hex_value(hex_upper_digit(lo)) == lo);
        assert(t.skip(3) =~= rest);
        assert((hi * 16 + lo) as u8 == b);
    }
}

/// Form serialization loses nothing: form decoding gives back the bytes.
/// A deep link embedded as `?deeplink=` reaches the page unchanged.
pub proof fn lemma_form_urlencode_round_trip(bytes: Seq<u8>)
    ensures
        spec_form_urldecode(spec_form_urlencode(bytes)) == bytes,
    decreases bytes.len(),
{
    if bytes.len() > 0 {
        let first = bytes[0];
        let rest = bytes.skip(1);
        assert(bytes =~= seq![first] + rest);
        lemma_form_urlencode_append(seq![first], rest);
        assert(seq![first].drop_last() =~= Seq::<u8>::empty());
        assert(seq![first].last() == first);
        assert(spec_form_urlencode(Seq::<u8>::empty()) == Seq::<char>::empty());
        assert(spec_form_urlencode(seq![first]) =~= form_encode_byte(first));
        lemma_decode_one_byte(first, spec_form_urlencode(rest));
        lemma_form_urlencode_round_trip(rest);
    }
}

// ---------------------------------------------------------------------------
// Lowercase hex
// ---------------------------------------------------------------------------

/// Two lowercase hex digits per byte, most significant first.
pub open spec fn spec_hex_lower(bytes: Seq<u8>) -> Seq<char>
    decreases bytes.len(),
{
    if bytes.len() == 0 {
        seq![]
    } else {
        spec_hex_lower(bytes.drop_last()) + seq![
            hex_lower_digit(bytes.last() as int / 16),
            hex_lower_digit(bytes.last() as int % 16),
        ]
    }
}

/// A hex token has two characters per byte, each a lowercase hex digit.
pub proof fn lemma_hex_lower_shape(bytes: Seq<u8>)
    ensures
        spec_hex_lower(bytes).len() == 2 * bytes.len(),
        forall|i: int|
            0 <= i < spec_hex_lower(bytes).len() ==> ({
                let c = #[trigger] spec_hex_lower(bytes)[i];
                ('0' <= c && c <= '9') || ('a' <= c && c <= 'f')
            }),
    decreases bytes.len(),
{
    if bytes.len() > 0 {
        lemma_hex_lower_shape(bytes.drop_last());
        let prefix = spec_hex_lower(bytes.drop_last());
        let b = bytes.last();
        let hi = b as int / 16;
        let lo = b as int % 16;
        assert(0 <= hi < 16 && 0 <= lo < 16);
        assert forall|i: int|
            0 <= i < spec_hex_lower(bytes).len() implies ({
                let c = #[trigger] spec_hex_lower(bytes)[i];
                ('0' <= c && c <= '9') || ('a' <= c && c <= 'f')
            }) by {
            if i < prefix.len() {
                assert(spec_hex_lower(bytes)[i] == prefix[i]);
            } else if i == prefix.len() {
                assert(spec_hex_lower(bytes)[i] == hex_lower_digit(hi));
            } else {
                assert(spec_hex_lower(bytes)[i] == hex_lower_digit(lo));
            }
        }
    }
}

/// Each lowercase hex digit stands for its own nibble: read back as hex, the
/// digit written for `n` is `n`, and it is `0`-`9` or `a`-`f`.
pub proof fn lemma_hex_lower_digit_value(n: int)
    requires
        0 <= n < 16,
    ensures
        hex_value(hex_lower_digit(n)) == n,
        ('0' <= hex_lower_digit(n) && hex_lower_digit(n) <= '9') || ('a' <= hex_lower_digit(n)
            && hex_lower_digit(n) <= 'f'),
{
}

/// A lowercase hex token reads back as the bytes it was made from: the two
/// digits at `2 * i` and `2 * i + 1` are the high and low nibble of byte `i`.
pub proof fn lemma_hex_lower_decodes(bytes: Seq<u8>)
    ensures
        spec_hex_lower(bytes).len() == 2 * bytes.len(),
        forall|i: int|
            0 <= i < bytes.len() ==> hex_value(spec_hex_lower(bytes)[2 * i]) * 16 + hex_value(
                spec_hex_lower(bytes)[2 * i + 1],
            ) == #[trigger] bytes[i],
    decreases bytes.len(),
{
    if bytes.len() > 0 {
        lemma_hex_lower_decodes(bytes.drop_last());
        let prefix = spec_hex_lower(bytes.drop_last());
        let tok = spec_hex_lower(bytes);
        let b = bytes.last();
        let hi = b as int / 16;
        let lo = b as int % 16;
        assert(0 <= hi < 16 && 0 <= lo < 16);
        assert(hi * 16 + lo == b);
        lemma_hex_lower_digit_value(hi);
        lemma_hex_lower_digit_value(lo);
        assert forall|i: int| 0 <= i < bytes.len() implies hex_value(tok[2 * i]) * 16 + hex_value(
            tok[2 * i + 1],
        ) == #[trigger] bytes[i] by {
            if i < bytes.len() - 1 {
                assert(bytes[i] == bytes.drop_last()[i]);
                assert(tok[2 * i] == prefix[2 * i]);
                assert(tok[2 * i + 1] == prefix[2 * i + 1]);
            } else {
                assert(tok[2 * i] == hex_lower_digit(hi));
                assert(tok[2 * i + 1] == hex_lower_digit(lo));
            }
        }
    }
}

/// Lowercase hex of a byte string (`{:02x}` per byte).
pub fn hex_lower(bytes: &[u8]) -> (res: String)
    ensures
        res@ == spec_hex_lower(bytes@),
        res@.len() == 2 * bytes@.len(),
        forall|i: int|
            0 <= i < bytes@.len() ==> hex_value(res@[2 * i]) * 16 + hex_value(res@[2 * i + 1])
                == #[trigger] bytes@[i],
{
    proof {
        lemma_hex_lower_decodes(bytes@);
    }
    let mut out = String::new();
    let n = bytes.len();
    for i in 0..n
        invariant
            n == bytes@.len(),
            out@ == spec_hex_lower(bytes@.take(i as int)),
    {
        let b = bytes[i];
        assert(bytes@.take(i + 1).drop_last() == bytes@.take(i as int));
        assert(bytes@.take(i + 1).last() == b);
        push_char(&mut out, hex_lower_char(b / 16));
        push_char(&mut out, hex_lower_char(b % 16));
    }
    assert(bytes@.take(n as int) == bytes@);
    out
}

// ---------------------------------------------------------------------------
// Decimal
// ---------------------------------------------------------------------------

/// The decimal digits of a natural number, without leading zeros.
pub open spec fn spec_decimal_digits(n: nat) -> Seq<char>
    decreases n,
{
    if n < 10 {
        seq![(48 + n) as char]
    } else {
        spec_decimal_digits(n / 10).push((48 + n % 10) as char)
    }
}

/// An integer as `Display` writes it: a leading `-` for negatives.
pub open spec fn spec_decimal(n: int) -> Seq<char> {
    if n < 0 {
        seq!['-'] + spec_decimal_digits((-n) as nat)
    } else {
        spec_decimal_digits(n as nat)
    }
}

fn push_decimal_digits(s: &mut String, n: u64)
    ensures
        final(s)@ == old(s)@ + spec_decimal_digits(n as nat),
    decreases n,
{
    if n >= 10 {
        push_decimal_digits(s, n / 10);
    }
    let d = (n % 10) as u8;
    push_char(s, (48 + d) as char);
}

/// Appends the decimal form of an unsigned `n`.
pub fn push_decimal_unsigned(s: &mut String, n: u64)
    ensures
        final(s)@ == old(s)@ + spec_decimal(n as int),
{
    push_decimal_digits(s, n);
}

/// Appends the decimal form of `n`.
pub fn push_decimal(s: &mut String, n: i64)
    ensures
        final(s)@ == old(s)@ + spec_decimal(n as int),
{
    if n < 0 {
        push_char(s, '-');
        let magnitude: u64 = if n == i64::MIN {
            9223372036854775808u64
        } else {
            (-n) as u64
        };
        push_decimal_digits(s, magnitude);
    } else {
        push_decimal_digits(s, n as u64);
    }
}

} // verus!
