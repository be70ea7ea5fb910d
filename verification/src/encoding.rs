//! Percent-encoding of URL components, and regular-expression captures.

use vstd::prelude::*;
use crate::text::{chars_of, string_of, push_char};

verus! {

broadcast use vstd::string::group_string_axioms;

/// The bytes that percent-encoding leaves as they are: ASCII letters, digits and `-._~`.
pub open spec fn is_unreserved(b: u8) -> bool {
    (48 <= b && b <= 57) || (65 <= b && b <= 90) || (97 <= b && b <= 122) || b == 45 || b == 46 || b == 95
        || b == 126
}

/// The upper-case hexadecimal digit of `d`, for `d < 16`.
pub open spec fn hex_digit_upper(d: u8) -> char {
    if d < 10 { (48 + d) as char } else { (55 + d) as char }
}

/// How one byte is written: itself when unreserved, otherwise `%` and two upper-case hex digits.
pub open spec fn percent_encode_byte(b: u8) -> Seq<char> {
    if is_unreserved(b) {
        seq![b as char]
    } else {
        seq!['%', hex_digit_upper(b / 16), hex_digit_upper(b % 16)]
    }
}

/// Percent-encoding of a byte string, byte by byte.
pub open spec fn percent_encode_bytes(bytes: Seq<u8>) -> Seq<char>
    decreases bytes.len(),
{
    if bytes.len() == 0 {
        Seq::empty()
    } else {
        percent_encode_bytes(bytes.drop_last()) + percent_encode_byte(bytes.last())
    }
}

/// Percent-encoding of the UTF-8 bytes of `s`.
pub open spec fn url_encoded(s: Seq<char>) -> Seq<char> {
    percent_encode_bytes(vstd::utf8::encode_utf8(s))
}

/// The text that one byte is written as holds neither `&` nor `=`.
proof fn lemma_encoded_byte_has_no_separators(b: u8)
    ensures
        forall|i: int| 0 <= i < percent_encode_byte(b).len() ==> #[trigger] percent_encode_byte(b)[i] != '&'
            && percent_encode_byte(b)[i] != '=',
{
    let hi = hex_digit_upper(b / 16);
    let lo = hex_digit_upper(b % 16);
    assert(hi != '&' && hi != '=');
    assert(lo != '&' && lo != '=');
    if is_unreserved(b) {
        assert((b as char) != '&' && (b as char) != '=');
    }
}

/// Percent-encoding writes neither `&` nor `=` as they are.
proof fn lemma_encoded_bytes_have_no_separators(bytes: Seq<u8>)
    ensures
        forall|i: int| 0 <= i < percent_encode_bytes(bytes).len() ==> #[trigger] percent_encode_bytes(bytes)[i] != '&'
            && percent_encode_bytes(bytes)[i] != '=',
    decreases bytes.len(),
{
    if bytes.len() > 0 {
        lemma_encoded_bytes_have_no_separators(bytes.drop_last());
        lemma_encoded_byte_has_no_separators(bytes.last());
        let prev = percent_encode_bytes(bytes.drop_last());
        let last = percent_encode_byte(bytes.last());
        assert forall|i: int| 0 <= i < (prev + last).len() implies #[trigger] (prev + last)[i] != '&' && (prev + last)[i] != '=' by {
            if i < prev.len() {
                assert((prev + last)[i] == prev[i]);
            } else {
                assert((prev + last)[i] == last[i - prev.len()]);
            }
        }
    }
}

/// A percent-encoded text holds neither `&` nor `=`, so either can separate encoded texts.
pub proof fn lemma_url_encoded_has_no_separators(s: Seq<char>)
    ensures
        !url_encoded(s).contains('&'),
        !url_encoded(s).contains('='),
{
    lemma_encoded_bytes_have_no_separators(vstd::utf8::encode_utf8(s));
}

/// Calls `urlencoding::encode`, which writes each byte of the UTF-8 encoding of `s` that is an
/// ASCII letter or digit or one of `-._~` as it is, and every other byte as `%` followed by two
/// upper-case hexadecimal digits.
#[verifier::external_body]
pub(crate) fn url_encode(s: &str) -> (res: String)
    ensures
        res@ == url_encoded(s@),
{
    urlencoding::encode(s).into_owned()
}

/// The value of a hexadecimal digit byte (either case), `None` for any other byte.
pub open spec fn hex_value(b: u8) -> Option<u8> {
    if 48 <= b && b <= 57 {
        Some((b - 48) as u8)
    } else if 65 <= b && b <= 70 {
        Some((b - 55) as u8)
    } else if 97 <= b && b <= 102 {
        Some((b - 87) as u8)
    } else {
        None
    }
}

/// Percent-decoding of bytes, from the front: `%` followed by two hexadecimal digits becomes the
/// byte they denote; every other byte, a `%` without two digits after it included, is kept.
pub open spec fn percent_decode_bytes(b: Seq<u8>) -> Seq<u8>
    decreases b.len(),
{
    if b.len() == 0 {
        Seq::empty()
    } else if b[0] == 37 && b.len() >= 3 && hex_value(b[1]) is Some && hex_value(b[2]) is Some {
        seq![(hex_value(b[1])->0 * 16 + hex_value(b[2])->0) as u8] + percent_decode_bytes(b.skip(3))
    } else {
        seq![b[0]] + percent_decode_bytes(b.skip(1))
    }
}

/// What `urlencoding::decode` returns for `s`: its UTF-8 bytes percent-decoded, read as text
/// when they are valid UTF-8; `None` when they are not.
pub open spec fn url_decoded(s: Seq<char>) -> Option<Seq<char>> {
    let d = percent_decode_bytes(vstd::utf8::encode_utf8(s));
    if vstd::utf8::valid_utf8(d) {
        Some(vstd::utf8::decode_utf8(d))
    } else {
        None
    }
}

/// Calls `urlencoding::decode`, which percent-decodes the bytes of `s` (`decode_binary`) and
/// reads them with `String::from_utf8`; its error (bytes that are not UTF-8) becomes `None`.
#[verifier::external_body]
pub(crate) fn url_decode(s: &str) -> (res: Option<String>)
    ensures
        res.deep_view() == url_decoded(s@),
{
    match urlencoding::decode(s) {
        Ok(d) => Some(d.into_owned()),
        Err(_) => None,
    }
}

/// The UTF-8 encoding of two texts one after the other is the two encodings one after the other.
proof fn lemma_encode_utf8_concat(x: Seq<char>, y: Seq<char>)
    ensures
        vstd::utf8::encode_utf8(x + y) == vstd::utf8::encode_utf8(x) + vstd::utf8::encode_utf8(y),
    decreases x.len(),
{
    if x.len() == 0 {
        assert(x + y =~= y);
        assert(vstd::utf8::encode_utf8(x) =~= Seq::<u8>::empty());
        assert(vstd::utf8::encode_utf8(x) + vstd::utf8::encode_utf8(y) =~= vstd::utf8::encode_utf8(y));
    } else {
        assert((x + y)[0] == x[0]);
        assert((x + y).drop_first() =~= x.drop_first() + y);
        lemma_encode_utf8_concat(x.drop_first(), y);
        let head = vstd::utf8::encode_scalar(x[0] as u32);
        assert(head + (vstd::utf8::encode_utf8(x.drop_first()) + vstd::utf8::encode_utf8(y))
            =~= (head + vstd::utf8::encode_utf8(x.drop_first())) + vstd::utf8::encode_utf8(y));
    }
}

/// An ASCII character is encoded as the one byte of its code.
proof fn lemma_ascii_char_encoding(c: char)
    requires
        (c as u32) < 128,
    ensures
        vstd::utf8::encode_utf8(seq![c]) == seq![(c as u32) as u8],
{
    let v = c as u32;
    assert(v & 0x7F == v) by (bit_vector)
        requires
            v < 128,
    ;
    assert(seq![c].drop_first() =~= Seq::<char>::empty());
    assert(vstd::utf8::encode_utf8(Seq::<char>::empty()) =~= Seq::<u8>::empty());
    assert(vstd::utf8::encode_scalar(v) =~= seq![v as u8]);
    assert(vstd::utf8::encode_scalar(v) + Seq::<u8>::empty() =~= seq![v as u8]);
}

/// The upper-case hexadecimal digit of `d`, as a byte.
pub open spec fn hex_digit_byte(d: u8) -> u8 {
    if d < 10 { (48 + d) as u8 } else { (55 + d) as u8 }
}

/// How one byte is written, as bytes.
pub open spec fn percent_encode_byte_bytes(b: u8) -> Seq<u8> {
    if is_unreserved(b) {
        seq![b]
    } else {
        seq![37u8, hex_digit_byte(b / 16), hex_digit_byte(b % 16)]
    }
}

/// The text one byte is written as is ASCII, so its UTF-8 bytes are its characters' codes.
proof fn lemma_encoded_byte_bytes(b: u8)
    ensures
        vstd::utf8::encode_utf8(percent_encode_byte(b)) == percent_encode_byte_bytes(b),
{
    if is_unreserved(b) {
        lemma_ascii_char_encoding(b as char);
    } else {
        let hi = hex_digit_upper(b / 16);
        let lo = hex_digit_upper(b % 16);
        lemma_ascii_char_encoding('%');
        lemma_ascii_char_encoding(hi);
        lemma_ascii_char_encoding(lo);
        assert(percent_encode_byte(b) =~= seq!['%'] + seq![hi] + seq![lo]);
        lemma_encode_utf8_concat(seq!['%'] + seq![hi], seq![lo]);
        lemma_encode_utf8_concat(seq!['%'], seq![hi]);
        assert((hi as u32) as u8 == hex_digit_byte(b / 16));
        assert((lo as u32) as u8 == hex_digit_byte(b % 16));
        assert(seq![37u8] + seq![(hi as u32) as u8] + seq![(lo as u32) as u8] =~= percent_encode_byte_bytes(b));
    }
}

/// Decoding the bytes one byte is written as, and whatever follows, gives the byte back first.
proof fn lemma_decode_encoded_byte(b: u8, rest: Seq<u8>)
    ensures
        percent_decode_bytes(percent_encode_byte_bytes(b) + rest) == seq![b] + percent_decode_bytes(rest),
{
    let x = percent_encode_byte_bytes(b) + rest;
    if is_unreserved(b) {
        assert(x[0] == b);
        assert(x.skip(1) =~= rest);
    } else {
        let hi = b / 16;
        let lo = b % 16;
        assert(x[0] == 37);
        assert(x[1] == hex_digit_byte(hi));
        assert(x[2] == hex_digit_byte(lo));
        assert(hex_value(hex_digit_byte(hi)) == Some(hi));
        assert(hex_value(hex_digit_byte(lo)) == Some(lo));
        assert((hi * 16 + lo) as u8 == b);
        assert(x.skip(3) =~= rest);
    }
}

/// Decoding the UTF-8 bytes of the percent-encoding of `bytes`, and whatever follows, gives
/// `bytes` back first.
proof fn lemma_decode_encoded_bytes(bytes: Seq<u8>, rest: Seq<u8>)
    ensures
        percent_decode_bytes(vstd::utf8::encode_utf8(percent_encode_bytes(bytes)) + rest)
            == bytes + percent_decode_bytes(rest),
    decreases bytes.len(),
{
    if bytes.len() == 0 {
        assert(percent_encode_bytes(bytes) =~= Seq::<char>::empty());
        assert(vstd::utf8::encode_utf8(Seq::<char>::empty()) =~= Seq::<u8>::empty());
        assert(Seq::<u8>::empty() + rest =~= rest);
        assert(bytes + percent_decode_bytes(rest) =~= percent_decode_bytes(rest));
    } else {
        let init = bytes.drop_last();
        let last = bytes.last();
        lemma_encode_utf8_concat(percent_encode_bytes(init), percent_encode_byte(last));
        lemma_encoded_byte_bytes(last);
        let unit = percent_encode_byte_bytes(last);
        lemma_decode_encoded_bytes(init, unit + rest);
        lemma_decode_encoded_byte(last, rest);
        assert(vstd::utf8::encode_utf8(percent_encode_bytes(init)) + unit + rest
            =~= vstd::utf8::encode_utf8(percent_encode_bytes(init)) + (unit + rest));
        assert(init + (seq![last] + percent_decode_bytes(rest)) =~= bytes + percent_decode_bytes(rest));
    }
}

/// Decoding the percent-encoding of a text gives the text back.
pub proof fn lemma_url_decode_round_trip(t: Seq<char>)
    ensures
        url_decoded(url_encoded(t)) == Some(t),
{
    let bytes = vstd::utf8::encode_utf8(t);
    lemma_decode_encoded_bytes(bytes, Seq::empty());
    assert(vstd::utf8::encode_utf8(percent_encode_bytes(bytes)) + Seq::<u8>::empty()
        =~= vstd::utf8::encode_utf8(percent_encode_bytes(bytes)));
    assert(percent_decode_bytes(Seq::<u8>::empty()) =~= Seq::<u8>::empty());
    assert(bytes + Seq::<u8>::empty() =~= bytes);
    vstd::utf8::encode_utf8_valid_utf8(t);
    vstd::utf8::encode_utf8_decode_utf8(t);
}

/// `c` replaced by `by` everywhere in `s`.
pub open spec fn replace_char_spec(s: Seq<char>, c: char, by: char) -> Seq<char> {
    s.map_values(|x: char| if x == c { by } else { x })
}

/// `s.replace(c, by)` for single characters.
pub fn replace_char(s: &str, c: char, by: char) -> (res: String)
    ensures
        res@ == replace_char_spec(s@, c, by),
{
    let cs = chars_of(s);
    let mut out = String::new();
    let mut i: usize = 0;
    while i < cs.len()
        invariant
            i <= cs@.len(),
            cs@ == s@,
            out@ == replace_char_spec(cs@.take(i as int), c, by),
        decreases cs.len() - i,
    {
        let x = cs[i];
        push_char(&mut out, if x == c { by } else { x });
        assert(out@ =~= replace_char_spec(cs@.take(i + 1), c, by));
        i = i + 1;
    }
    assert(cs@.take(i as int) =~= cs@);
    out
}

/// A URL component decoded as form data: percent-decoded (left as it is when that fails) and
/// with `+` read as a space.
pub open spec fn form_decoded(s: Seq<char>) -> Seq<char> {
    let d = match url_decoded(s) {
        Some(d) => d,
        None => s,
    };
    replace_char_spec(d, '+', ' ')
}

/// Percent-decodes `s` (keeping it as it is when that fails), then reads `+` as a space.
pub fn form_decode(s: &str) -> (res: String)
    ensures
        res@ == form_decoded(s@),
{
    let d = match url_decode(s) {
        Some(d) => d,
        None => String::from_str(s),
    };
    replace_char(d.as_str(), '+', ' ')
}

/// What group 1 of the first match of the regular expression `pattern` in `text` is, as
/// `Regex::new(pattern)` and `captures(text)` find it; `None` when the pattern is invalid, when
/// nothing matches, or when group 1 took no part in the match.
pub uninterp spec fn regex_first_group(pattern: Seq<char>, text: Seq<char>) -> Option<Seq<char>>;

/// Calls `regex::Regex::new(pattern)`, then `captures(text)` and `get(1)`.
#[verifier::external_body]
pub(crate) fn regex_capture(pattern: &str, text: &str) -> (res: Option<String>)
    ensures
        res.deep_view() == regex_first_group(pattern@, text@),
{
    let re = regex::Regex::new(pattern).ok()?;
    re.captures(text)?.get(1).map(|m| m.as_str().to_string())
}

} // verus!
