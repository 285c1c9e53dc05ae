//! The encodings that tickets, metadata and records are written in:
//! big-endian integers, lower-case hexadecimal text and URL-safe Base64.

use base64ct::Encoding;
use vstd::prelude::*;
use vstd::string::StringExecFns;

verus! {

/// The eight bytes of `value`, most significant first.
pub open spec fn be_u64(value: u64) -> Seq<u8> {
    seq![
        ((value / 0x100_0000_0000_0000) % 256) as u8,
        ((value / 0x1_0000_0000_0000) % 256) as u8,
        ((value / 0x100_0000_0000) % 256) as u8,
        ((value / 0x1_0000_0000) % 256) as u8,
        ((value / 0x100_0000) % 256) as u8,
        ((value / 0x1_0000) % 256) as u8,
        ((value / 0x100) % 256) as u8,
        (value % 256) as u8,
    ]
}

/// The number that the first eight bytes of `bytes` denote, most significant
/// first.
pub open spec fn from_be_u64(bytes: Seq<u8>) -> u64
    recommends
        bytes.len() >= 8,
{
    (bytes[0] * 0x100_0000_0000_0000 + bytes[1] * 0x1_0000_0000_0000 + bytes[2] * 0x100_0000_0000
        + bytes[3] * 0x1_0000_0000 + bytes[4] * 0x100_0000 + bytes[5] * 0x1_0000 + bytes[6] * 0x100
        + bytes[7]) as u64
}

/// The two bytes of `value`, most significant first.
pub open spec fn be_u16(value: u16) -> Seq<u8> {
    seq![(value / 256) as u8, (value % 256) as u8]
}

/// The number that the first two bytes of `bytes` denote, most significant
/// first.
pub open spec fn from_be_u16(bytes: Seq<u8>) -> u16
    recommends
        bytes.len() >= 2,
{
    (bytes[0] * 256 + bytes[1]) as u16
}

/// Dividing by 256 step by step reaches the same quotients as dividing by
/// the powers of 256 at once.
proof fn lemma_u64_quotients(value: u64)
    ensures
        value as int / 0x1_0000 == (value as int / 0x100) / 0x100,
        value as int / 0x100_0000 == (value as int / 0x1_0000) / 0x100,
        value as int / 0x1_0000_0000 == (value as int / 0x100_0000) / 0x100,
        value as int / 0x100_0000_0000 == (value as int / 0x1_0000_0000) / 0x100,
        value as int / 0x1_0000_0000_0000 == (value as int / 0x100_0000_0000) / 0x100,
        value as int / 0x100_0000_0000_0000 == (value as int / 0x1_0000_0000_0000) / 0x100,
        value as int / 0x100_0000_0000_0000 < 256,
{
    let v = value as int;
    assert(v / 0x1_0000 == (v / 0x100) / 0x100);
    assert(v / 0x100_0000 == (v / 0x1_0000) / 0x100);
    assert(v / 0x1_0000_0000 == (v / 0x100_0000) / 0x100);
    assert(v / 0x100_0000_0000 == (v / 0x1_0000_0000) / 0x100);
    assert(v / 0x1_0000_0000_0000 == (v / 0x100_0000_0000) / 0x100);
    assert(v / 0x100_0000_0000_0000 == (v / 0x1_0000_0000_0000) / 0x100);
}

/// Reading back what `be_u64` wrote gives the number that was written.
pub proof fn lemma_be_u64_roundtrip(value: u64)
    ensures
        be_u64(value).len() == 8,
        from_be_u64(be_u64(value)) == value,
{
    lemma_u64_quotients(value);
    let v = value as int;
    let q1 = v / 0x100;
    let q2 = v / 0x1_0000;
    let q3 = v / 0x100_0000;
    let q4 = v / 0x1_0000_0000;
    let q5 = v / 0x100_0000_0000;
    let q6 = v / 0x1_0000_0000_0000;
    let q7 = v / 0x100_0000_0000_0000;
    assert(v == q1 * 256 + v % 256);
    assert(q1 == q2 * 256 + q1 % 256);
    assert(q2 == q3 * 256 + q2 % 256);
    assert(q3 == q4 * 256 + q3 % 256);
    assert(q4 == q5 * 256 + q4 % 256);
    assert(q5 == q6 * 256 + q5 % 256);
    assert(q6 == q7 * 256 + q6 % 256);
    assert(q7 % 256 == q7);
}

/// Eight bytes are the encoding of the number they denote.
pub proof fn lemma_from_be_u64_roundtrip(bytes: Seq<u8>)
    requires
        bytes.len() == 8,
    ensures
        be_u64(from_be_u64(bytes)) == bytes,
{
    let sum7 = bytes[0] as int;
    let sum6 = sum7 * 256 + bytes[1];
    let sum5 = sum6 * 256 + bytes[2];
    let sum4 = sum5 * 256 + bytes[3];
    let sum3 = sum4 * 256 + bytes[4];
    let sum2 = sum3 * 256 + bytes[5];
    let sum1 = sum2 * 256 + bytes[6];
    let sum0 = sum1 * 256 + bytes[7];
    let value = from_be_u64(bytes);
    assert(sum0 == value);
    lemma_u64_quotients(value);
    assert(sum0 / 256 == sum1 && sum0 % 256 == bytes[7]);
    assert(sum1 / 256 == sum2 && sum1 % 256 == bytes[6]);
    assert(sum2 / 256 == sum3 && sum2 % 256 == bytes[5]);
    assert(sum3 / 256 == sum4 && sum3 % 256 == bytes[4]);
    assert(sum4 / 256 == sum5 && sum4 % 256 == bytes[3]);
    assert(sum5 / 256 == sum6 && sum5 % 256 == bytes[2]);
    assert(sum6 / 256 == sum7 && sum6 % 256 == bytes[1]);
    assert(sum7 % 256 == bytes[0]);
    assert(be_u64(value) =~= bytes);
}

/// Reading back what `be_u16` wrote gives the number that was written.
pub proof fn lemma_be_u16_roundtrip(value: u16)
    ensures
        be_u16(value).len() == 2,
        from_be_u16(be_u16(value)) == value,
{
}

/// Two bytes are the encoding of the number they denote.
pub proof fn lemma_from_be_u16_roundtrip(bytes: Seq<u8>)
    requires
        bytes.len() == 2,
    ensures
        be_u16(from_be_u16(bytes)) == bytes,
{
    assert(be_u16(from_be_u16(bytes)) =~= bytes);
}

/// Appends the big-endian encoding of `value` to `out`.
pub fn put_u64(out: &mut Vec<u8>, value: u64)
    ensures
        final(out)@ == old(out)@ + be_u64(value),
{
    out.push(((value / 0x100_0000_0000_0000) % 256) as u8);
    out.push(((value / 0x1_0000_0000_0000) % 256) as u8);
    out.push(((value / 0x100_0000_0000) % 256) as u8);
    out.push(((value / 0x1_0000_0000) % 256) as u8);
    out.push(((value / 0x100_0000) % 256) as u8);
    out.push(((value / 0x1_0000) % 256) as u8);
    out.push(((value / 0x100) % 256) as u8);
    out.push((value % 256) as u8);
    assert(out@ =~= old(out)@ + be_u64(value));
}

/// Reads a big-endian number from the first eight bytes of `bytes`.
pub fn get_u64(bytes: &[u8]) -> (value: u64)
    requires
        bytes.len() >= 8,
    ensures
        value == from_be_u64(bytes@),
{
    (bytes[0] as u64) * 0x100_0000_0000_0000 + (bytes[1] as u64) * 0x1_0000_0000_0000 + (
    bytes[2] as u64) * 0x100_0000_0000 + (bytes[3] as u64) * 0x1_0000_0000 + (bytes[4] as u64)
        * 0x100_0000 + (bytes[5] as u64) * 0x1_0000 + (bytes[6] as u64) * 0x100 + (bytes[7] as u64)
}

/// Appends the big-endian encoding of `value` to `out`.
pub fn put_u16(out: &mut Vec<u8>, value: u16)
    ensures
        final(out)@ == old(out)@ + be_u16(value),
{
    out.push((value / 256) as u8);
    out.push((value % 256) as u8);
    assert(out@ =~= old(out)@ + be_u16(value));
}

/// Reads a big-endian number from the first two bytes of `bytes`.
pub fn get_u16(bytes: &[u8]) -> (value: u16)
    requires
        bytes.len() >= 2,
    ensures
        value == from_be_u16(bytes@),
{
    (bytes[0] as u16) * 256 + (bytes[1] as u16)
}

/// The lower-case hexadecimal digit for a value below sixteen.
pub open spec fn hex_digit(nibble: int) -> char {
    if nibble == 0 {
        '0'
    } else if nibble == 1 {
        '1'
    } else if nibble == 2 {
        '2'
    } else if nibble == 3 {
        '3'
    } else if nibble == 4 {
        '4'
    } else if nibble == 5 {
        '5'
    } else if nibble == 6 {
        '6'
    } else if nibble == 7 {
        '7'
    } else if nibble == 8 {
        '8'
    } else if nibble == 9 {
        '9'
    } else if nibble == 10 {
        'a'
    } else if nibble == 11 {
        'b'
    } else if nibble == 12 {
        'c'
    } else if nibble == 13 {
        'd'
    } else if nibble == 14 {
        'e'
    } else {
        'f'
    }
}

/// The value of a lower-case hexadecimal digit; `None` for any other
/// character, upper-case letters included.
pub open spec fn hex_value(c: char) -> Option<int> {
    if '0' <= c <= '9' {
        Some(c as int - '0' as int)
    } else if 'a' <= c <= 'f' {
        Some(c as int - 'a' as int + 10)
    } else {
        None
    }
}

/// Two lower-case hexadecimal digits for each byte, the high half first.
pub open spec fn hex_encoding(bytes: Seq<u8>) -> Seq<char> {
    Seq::new(
        2 * bytes.len(),
        |i: int|
            if i % 2 == 0 {
                hex_digit(bytes[i / 2] as int / 16)
            } else {
                hex_digit(bytes[i / 2] as int % 16)
            },
    )
}

/// Whether `text` is an even number of lower-case hexadecimal digits.
pub open spec fn is_hex_text(text: Seq<char>) -> bool {
    &&& text.len() % 2 == 0
    &&& forall|i: int| 0 <= i < text.len() ==> (#[trigger] hex_value(text[i])) is Some
}

/// The bytes that `text` spells in hexadecimal, if it spells any.
pub open spec fn hex_decoding(text: Seq<char>) -> Option<Seq<u8>> {
    if is_hex_text(text) {
        Some(
            Seq::new(
                text.len() / 2,
                |i: int|
                    (16 * hex_value(text[2 * i]).unwrap() + hex_value(text[2 * i + 1]).unwrap()) as u8,
            ),
        )
    } else {
        None
    }
}

/// A digit's value is the nibble it was written for.
pub proof fn lemma_hex_digit_value(nibble: int)
    requires
        0 <= nibble < 16,
    ensures
        hex_value(hex_digit(nibble)) == Some(nibble),
{
}

/// Decoding the hexadecimal text of some bytes gives those bytes back.
pub proof fn lemma_hex_roundtrip(bytes: Seq<u8>)
    ensures
        hex_encoding(bytes).len() == 2 * bytes.len(),
        hex_decoding(hex_encoding(bytes)) == Some(bytes),
{
    let text = hex_encoding(bytes);
    assert forall|i: int| 0 <= i < text.len() implies (#[trigger] hex_value(text[i])) is Some by {
        lemma_hex_digit_value(bytes[i / 2] as int / 16);
        lemma_hex_digit_value(bytes[i / 2] as int % 16);
    }
    assert(is_hex_text(text));
    let back = hex_decoding(text).unwrap();
    assert forall|i: int| 0 <= i < bytes.len() implies back[i] == bytes[i] by {
        lemma_hex_digit_value(bytes[i] as int / 16);
        lemma_hex_digit_value(bytes[i] as int % 16);
        assert((2 * i) % 2 == 0);
        assert((2 * i + 1) % 2 == 1);
        assert((2 * i) / 2 == i);
        assert((2 * i + 1) / 2 == i);
    }
    assert(back =~= bytes);
}

/// Text that decodes is the encoding of what it decodes to: every byte
/// sequence has one hexadecimal spelling.
pub proof fn lemma_hex_canonical(text: Seq<char>)
    requires
        hex_decoding(text) is Some,
    ensures
        hex_encoding(hex_decoding(text).unwrap()) == text,
{
    let bytes = hex_decoding(text).unwrap();
    let again = hex_encoding(bytes);
    assert forall|i: int| 0 <= i < text.len() implies again[i] == text[i] by {
        let k = i / 2;
        assert(hex_value(text[2 * k]) is Some);
        assert(hex_value(text[2 * k + 1]) is Some);
        let hi = hex_value(text[2 * k]).unwrap();
        let lo = hex_value(text[2 * k + 1]).unwrap();
        assert(bytes[k] == 16 * hi + lo);
        assert((16 * hi + lo) / 16 == hi);
        assert((16 * hi + lo) % 16 == lo);
    }
    assert(again =~= text);
}

/// The digit for a value below sixteen, as a one-character string.
fn hex_digit_str(nibble: u8) -> (digit: &'static str)
    requires
        nibble < 16,
    ensures
        digit@ == seq![hex_digit(nibble as int)],
{
    proof {
        reveal_strlit("0");
        reveal_strlit("1");
        reveal_strlit("2");
        reveal_strlit("3");
        reveal_strlit("4");
        reveal_strlit("5");
        reveal_strlit("6");
        reveal_strlit("7");
        reveal_strlit("8");
        reveal_strlit("9");
        reveal_strlit("a");
        reveal_strlit("b");
        reveal_strlit("c");
        reveal_strlit("d");
        reveal_strlit("e");
        reveal_strlit("f");
    }
    let digit: &'static str = match nibble {
        0 => "0",
        1 => "1",
        2 => "2",
        3 => "3",
        4 => "4",
        5 => "5",
        6 => "6",
        7 => "7",
        8 => "8",
        9 => "9",
        10 => "a",
        11 => "b",
        12 => "c",
        13 => "d",
        14 => "e",
        _ => "f",
    };
    assert(digit@ =~= seq![hex_digit(nibble as int)]);
    digit
}

/// Writes `bytes` as lower-case hexadecimal text.
pub fn hex_encode(bytes: &[u8]) -> (text: String)
    ensures
        text@ == hex_encoding(bytes@),
{
    let mut text = String::new();
    let mut i: usize = 0;
    while i < bytes.len()
        invariant
            i <= bytes.len(),
            text@ == hex_encoding(bytes@.take(i as int)),
        decreases bytes.len() - i,
    {
        let byte = bytes[i];
        let ghost before = text@;
        text.append(hex_digit_str(byte / 16));
        text.append(hex_digit_str(byte % 16));
        proof {
            let grown = bytes@.take(i + 1);
            assert(grown.len() == i + 1);
            assert forall|k: int| 0 <= k < 2 * (i + 1) implies text@[k] == hex_encoding(grown)[k] by {
                if k < 2 * i {
                    assert(before[k] == hex_encoding(bytes@.take(i as int))[k]);
                    assert(bytes@.take(i as int)[k / 2] == grown[k / 2]);
                }
            }
            assert(text@ =~= hex_encoding(grown));
        }
        i += 1;
    }
    assert(bytes@.take(bytes.len() as int) =~= bytes@);
    text
}

/// The value of the hexadecimal digit whose ASCII code is `byte`.
fn hex_value_of(byte: u8) -> (value: Option<u8>)
    ensures
        match value {
            Some(v) => hex_value(byte as char) == Some(v as int) && v < 16,
            None => hex_value(byte as char) is None,
        },
{
    if byte >= 48 && byte <= 57 {
        Some(byte - 48)
    } else if byte >= 97 && byte <= 102 {
        Some(byte - 97 + 10)
    } else {
        None
    }
}

/// Reads lower-case hexadecimal text; `None` unless every character is a
/// digit and their number is even.
pub fn hex_decode(text: &str) -> (bytes: Option<Vec<u8>>)
    ensures
        match bytes {
            Some(v) => hex_decoding(text@) == Some(v@),
            None => hex_decoding(text@) is None,
        },
{
    if !text.is_ascii() {
        proof {
            let i = choose|i: int| 0 <= i < text@.len() && !('\0' <= #[trigger] text@[i] <= '\u{7f}');
            assert(hex_value(text@[i]) is None);
        }
        return None;
    }
    let raw = text.as_bytes();
    proof {
        vstd::string::is_ascii_spec_bytes(text);
    }
    assert(raw@.len() == text@.len());
    if raw.len() % 2 != 0 {
        return None;
    }
    let mut bytes: Vec<u8> = Vec::new();
    let mut i: usize = 0;
    while i < raw.len() / 2
        invariant
            raw@.len() == text@.len(),
            raw@.len() % 2 == 0,
            vstd::utf8::is_ascii_chars(text@),
            forall|k: int| 0 <= k < raw@.len() ==> raw@[k] == text@[k] as u8,
            i <= raw@.len() / 2,
            bytes@.len() == i,
            forall|k: int| 0 <= k < 2 * i ==> (#[trigger] hex_value(text@[k])) is Some,
            forall|k: int|
                0 <= k < i ==> bytes@[k] == (16 * hex_value(text@[2 * k]).unwrap() + hex_value(
                    text@[2 * k + 1],
                ).unwrap()) as u8,
        decreases raw.len() / 2 - i,
    {
        let high = hex_value_of(raw[2 * i]);
        let low = hex_value_of(raw[2 * i + 1]);
        proof {
            assert('\0' <= text@[2 * i as int] <= '\u{7f}');
            assert('\0' <= text@[2 * i + 1] <= '\u{7f}');
            assert(raw@[2 * i as int] as char == text@[2 * i as int]);
            assert(raw@[2 * i + 1] as char == text@[2 * i + 1]);
        }
        match (high, low) {
            (Some(h), Some(l)) => {
                bytes.push(h * 16 + l);
            },
            _ => {
                return None;
            },
        }
        i += 1;
    }
    assert(is_hex_text(text@));
    assert(bytes@ =~= hex_decoding(text@).unwrap());
    Some(bytes)
}

/// The eight bytes of `value`, least significant first.
pub open spec fn le_u64(value: u64) -> Seq<u8> {
    seq![
        (value % 256) as u8,
        ((value / 0x100) % 256) as u8,
        ((value / 0x1_0000) % 256) as u8,
        ((value / 0x100_0000) % 256) as u8,
        ((value / 0x1_0000_0000) % 256) as u8,
        ((value / 0x100_0000_0000) % 256) as u8,
        ((value / 0x1_0000_0000_0000) % 256) as u8,
        ((value / 0x100_0000_0000_0000) % 256) as u8,
    ]
}

/// Appends the little-endian encoding of `value` to `out`.
pub fn put_u64_le(out: &mut Vec<u8>, value: u64)
    ensures
        final(out)@ == old(out)@ + le_u64(value),
{
    out.push((value % 256) as u8);
    out.push(((value / 0x100) % 256) as u8);
    out.push(((value / 0x1_0000) % 256) as u8);
    out.push(((value / 0x100_0000) % 256) as u8);
    out.push(((value / 0x1_0000_0000) % 256) as u8);
    out.push(((value / 0x100_0000_0000) % 256) as u8);
    out.push(((value / 0x1_0000_0000_0000) % 256) as u8);
    out.push(((value / 0x100_0000_0000_0000) % 256) as u8);
    assert(out@ =~= old(out)@ + le_u64(value));
}

/// Appends `bytes` to `out`.
pub fn put_slice(out: &mut Vec<u8>, bytes: &[u8])
    ensures
        final(out)@ == old(out)@ + bytes@,
{
    out.extend_from_slice(bytes);
    assert(out@ =~= old(out)@ + bytes@);
}

/// All the bytes of `chunks`, in order.
pub open spec fn spec_concat(chunks: Seq<Seq<u8>>) -> Seq<u8>
    decreases chunks.len(),
{
    if chunks.len() == 0 {
        Seq::empty()
    } else {
        spec_concat(chunks.drop_last()) + chunks.last()
    }
}

/// One more chunk adds its bytes behind the bytes of the others.
pub proof fn lemma_concat_push(chunks: Seq<Seq<u8>>, chunk: Seq<u8>)
    ensures
        spec_concat(chunks.push(chunk)) == spec_concat(chunks) + chunk,
{
    assert(chunks.push(chunk).drop_last() =~= chunks);
}

/// Copies a slice of the right length into an array.
pub fn array_from_slice<const N: usize>(bytes: &[u8]) -> (array: [u8; N])
    requires
        bytes.len() == N,
    ensures
        array@ == bytes@,
{
    let mut array = [0u8; N];
    let mut i: usize = 0;
    while i < N
        invariant
            bytes.len() == N,
            i <= N,
            forall|k: int| 0 <= k < i ==> array@[k] == bytes@[k],
        decreases N - i,
    {
        array[i] = bytes[i];
        i += 1;
    }
    assert(array@ =~= bytes@);
    array
}

/// Whether `c` belongs to the URL-safe Base64 alphabet: letters, digits,
/// `-` and `_`.
pub open spec fn is_base64url_char(c: char) -> bool {
    ('A' <= c <= 'Z') || ('a' <= c <= 'z') || ('0' <= c <= '9') || c == '-' || c == '_'
}

/// The URL-safe Base64 text of `bytes`, without padding.
pub uninterp spec fn base64url_encoding(bytes: Seq<u8>) -> Seq<char>;

/// The bytes that `text` stands for in URL-safe Base64 without padding;
/// `None` where `text` is not such an encoding.
pub uninterp spec fn base64url_decoding(text: Seq<char>) -> Option<Seq<u8>>;

/// `base64ct::Base64UrlUnpadded::encode_string`.
///
/// Trusted: the text is the unpadded URL-safe Base64 of the input, it is made
/// of characters of that alphabet only, and decoding it gives the input back.
/// The outside function panics on inputs longer than `usize::MAX / 4`, which
/// the precondition leaves out.
#[verifier::external_body]
pub(crate) fn base64url_encode(bytes: &[u8]) -> (text: String)
    requires
        bytes.len() <= usize::MAX / 4,
    ensures
        text@ == base64url_encoding(bytes@),
        base64url_decoding(text@) == Some(bytes@),
        forall|i: int| 0 <= i < text@.len() ==> is_base64url_char(#[trigger] text@[i]),
{
    base64ct::Base64UrlUnpadded::encode_string(bytes)
}

/// `base64ct::Base64UrlUnpadded::decode_vec`.
///
/// Trusted: the call succeeds exactly on text that is an unpadded URL-safe
/// Base64 encoding, and then returns the bytes it stands for.
#[verifier::external_body]
pub(crate) fn base64url_decode(text: &str) -> (bytes: Option<Vec<u8>>)
    ensures
        match bytes {
            Some(v) => base64url_decoding(text@) == Some(v@),
            None => base64url_decoding(text@) is None,
        },
{
    base64ct::Base64UrlUnpadded::decode_vec(text).ok()
}

} // verus!
