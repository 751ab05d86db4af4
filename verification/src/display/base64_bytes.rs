//! The JSON form of frame data: standard Base64 (RFC 4648 alphabet, with
//! `=` padding), as `base64::engine::general_purpose::STANDARD` writes it.
use vstd::prelude::*;

use base64::engine::general_purpose::STANDARD;
use base64::{DecodeError, Engine};

verus! {

/// `base64::DecodeError`, the reason a text is not canonical Base64.
#[verifier::external_type_specification]
#[verifier::external_body]
pub struct ExDecodeError(DecodeError);

/// The symbol of a 6-bit value in the standard Base64 alphabet
/// (RFC 4648, table 1): `A`..`Z`, `a`..`z`, `0`..`9`, `+`, `/`.
pub open spec fn base64_symbol(v: int) -> char {
    if v < 26 {
        (65 + v) as char
    } else if v < 52 {
        (97 + (v - 26)) as char
    } else if v < 62 {
        (48 + (v - 52)) as char
    } else if v == 62 {
        '+'
    } else {
        '/'
    }
}

/// Standard Base64 with padding (RFC 4648, section 4): each group of three
/// bytes, read as a 24-bit number, becomes four symbols of six bits each,
/// highest first; a final group of one or two bytes is filled with zero
/// bits and its missing symbols are written as `=`.
pub open spec fn base64_standard_encoding(bytes: Seq<u8>) -> Seq<char>
    decreases bytes.len(),
{
    if bytes.len() == 0 {
        seq![]
    } else if bytes.len() == 1 {
        let n = bytes[0] * 65536;
        seq![base64_symbol(n / 262144), base64_symbol(n / 4096 % 64), '=', '=']
    } else if bytes.len() == 2 {
        let n = bytes[0] * 65536 + bytes[1] * 256;
        seq![
            base64_symbol(n / 262144),
            base64_symbol(n / 4096 % 64),
            base64_symbol(n / 64 % 64),
            '=',
        ]
    } else {
        let n = bytes[0] * 65536 + bytes[1] * 256 + bytes[2];
        seq![
            base64_symbol(n / 262144),
            base64_symbol(n / 4096 % 64),
            base64_symbol(n / 64 % 64),
            base64_symbol(n % 64),
        ] + base64_standard_encoding(bytes.subrange(3, bytes.len() as int))
    }
}

/// `text` is the standard Base64 encoding of some bytes.
pub open spec fn is_canonical_base64(text: Seq<char>) -> bool {
    exists|bytes: Seq<u8>| #[trigger] base64_standard_encoding(bytes) == text
}

/// Length of the padded Base64 text of `n` bytes: four symbols for each
/// started group of three bytes (`base64::encoded_len` with padding).
pub open spec fn padded_len(n: nat) -> nat {
    4 * ((n + 2) / 3)
}

/// Calls `Engine::encode` of `base64::engine::general_purpose::STANDARD`.
/// Claimed: the text is the padded standard Base64 encoding of the bytes
/// (`STANDARD` is the standard alphabet with padding).  `encode` panics
/// when the padded length overflows `usize`; `requires` leaves that out.
#[verifier::external_body]
fn standard_encode(bytes: &[u8]) -> (text: String)
    requires
        padded_len(bytes@.len()) <= usize::MAX,
    ensures
        text@ == base64_standard_encoding(bytes@),
{
    STANDARD.encode(bytes)
}

/// Calls `Engine::decode` of `base64::engine::general_purpose::STANDARD`.
/// Claimed: since `STANDARD` refuses symbols outside the alphabet, requires
/// canonical padding and refuses non-zero trailing bits, it succeeds
/// exactly on texts that are the encoding of some bytes, and then returns
/// bytes whose encoding the text is.
#[verifier::external_body]
fn standard_decode(text: &str) -> (r: Result<Vec<u8>, DecodeError>)
    ensures
        r is Ok <==> is_canonical_base64(text@),
        r matches Ok(bytes) ==> base64_standard_encoding(bytes@) == text@,
{
    STANDARD.decode(text)
}

/// Why frame data could not be read back from its JSON text.
#[derive(Debug, PartialEq, Eq)]
pub enum FrameDataError {
    /// The text is not canonical standard Base64.
    InvalidBase64(DecodeError),
}

/// The JSON text of frame data: its standard Base64 encoding, of the
/// padded length.
pub fn encode(bytes: &[u8]) -> (text: String)
    requires
        padded_len(bytes@.len()) <= usize::MAX,
    ensures
        text@ == base64_standard_encoding(bytes@),
        text@.len() == padded_len(bytes@.len()),
{
    proof {
        lemma_encoding_len(bytes@);
    }
    standard_encode(bytes)
}

/// Frame data read back from its JSON text.  Succeeds exactly on canonical
/// standard Base64, and then returns the one byte string whose encoding
/// the text is; so decoding what `encode` wrote gives the bytes back.
pub fn decode(text: &str) -> (r: Result<Vec<u8>, FrameDataError>)
    ensures
        r is Ok <==> is_canonical_base64(text@),
        r matches Ok(bytes) ==> base64_standard_encoding(bytes@) == text@,
        r matches Ok(bytes) ==> forall|other: Seq<u8>|
            #[trigger] base64_standard_encoding(other) == text@ ==> other == bytes@,
        r matches Err(e) ==> e is InvalidBase64,
{
    match standard_decode(text) {
        Ok(bytes) => {
            assert forall|other: Seq<u8>|
                #[trigger] base64_standard_encoding(other) == text@ implies other == bytes@ by {
                lemma_encoding_injective(other, bytes@);
            }
            Ok(bytes)
        },
        Err(e) => Err(FrameDataError::InvalidBase64(e)),
    }
}

/// Decoding inverts encoding: the text written for some bytes is canonical,
/// and those bytes are the only ones with that text.
pub proof fn lemma_round_trip(bytes: Seq<u8>, other: Seq<u8>)
    ensures
        is_canonical_base64(base64_standard_encoding(bytes)),
        base64_standard_encoding(other) == base64_standard_encoding(bytes) ==> other == bytes,
{
    if base64_standard_encoding(other) == base64_standard_encoding(bytes) {
        lemma_encoding_injective(other, bytes);
    }
}

/// Symbols of distinct 6-bit values differ, and none is the padding `=`.
proof fn lemma_symbol(a: int, b: int)
    requires
        0 <= a < 64,
        0 <= b < 64,
    ensures
        base64_symbol(a) != '=',
        base64_symbol(a) == base64_symbol(b) ==> a == b,
{
}

/// The encoding of `n` bytes has the padded length.
pub proof fn lemma_encoding_len(bytes: Seq<u8>)
    ensures
        base64_standard_encoding(bytes).len() == padded_len(bytes.len()),
    decreases bytes.len(),
{
    if bytes.len() >= 3 {
        lemma_encoding_len(bytes.subrange(3, bytes.len() as int));
    }
}

/// A 24-bit number is fixed by its four 6-bit digits.
proof fn lemma_digits(n1: int, n2: int)
    requires
        0 <= n1 < 16777216,
        0 <= n2 < 16777216,
        n1 / 262144 == n2 / 262144,
        n1 / 4096 % 64 == n2 / 4096 % 64,
        n1 / 64 % 64 == n2 / 64 % 64,
        n1 % 64 == n2 % 64,
    ensures
        n1 == n2,
{
}

/// The first group of (up to three) bytes as a 24-bit number, missing
/// bytes read as zero.
spec fn group_value(b: Seq<u8>) -> int {
    b[0] * 65536 + (if b.len() >= 2 {
        b[1] * 256
    } else {
        0
    }) + (if b.len() >= 3 {
        b[2] as int
    } else {
        0
    })
}

/// The first four symbols of an encoding, and the rest.
proof fn lemma_head(b: Seq<u8>)
    requires
        b.len() >= 1,
    ensures
        ({
            let n = group_value(b);
            let t = base64_standard_encoding(b);
            &&& 0 <= n < 16777216
            &&& t.len() >= 4
            &&& t[0] == base64_symbol(n / 262144)
            &&& t[1] == base64_symbol(n / 4096 % 64)
            &&& b.len() == 1 ==> t[2] == '=' && t[3] == '=' && n % 4096 == 0
            &&& b.len() == 2 ==> t[2] == base64_symbol(n / 64 % 64) && t[3] == '=' && n % 64 == 0
            &&& b.len() >= 3 ==> t[2] == base64_symbol(n / 64 % 64) && t[3] == base64_symbol(
                n % 64,
            ) && base64_standard_encoding(b.subrange(3, b.len() as int)) == t.subrange(
                4,
                t.len() as int,
            )
        }),
{
    lemma_encoding_len(b);
    let t = base64_standard_encoding(b);
    if b.len() >= 3 {
        let r = b.subrange(3, b.len() as int);
        assert(base64_standard_encoding(r) =~= t.subrange(4, t.len() as int));
    }
}

/// Groups of the same kind with the same number hold the same bytes.
proof fn lemma_group_bytes(b1: Seq<u8>, b2: Seq<u8>)
    requires
        b1.len() >= 1,
        b2.len() >= 1,
        b1.len() >= 3 <==> b2.len() >= 3,
        b1.len() == 1 <==> b2.len() == 1,
        group_value(b1) == group_value(b2),
    ensures
        b1[0] == b2[0],
        b1.len() >= 2 ==> b1[1] == b2[1],
        b1.len() >= 3 ==> b1[2] == b2[2],
{
}

/// Distinct byte strings have distinct encodings.
pub proof fn lemma_encoding_injective(b1: Seq<u8>, b2: Seq<u8>)
    requires
        base64_standard_encoding(b1) == base64_standard_encoding(b2),
    ensures
        b1 == b2,
    decreases b1.len(),
{
    lemma_encoding_len(b1);
    lemma_encoding_len(b2);
    if b1.len() == 0 || b2.len() == 0 {
        assert(b1 =~= b2);
    } else {
        lemma_head(b1);
        lemma_head(b2);
        let n1 = group_value(b1);
        let n2 = group_value(b2);
        lemma_symbol(n1 / 262144, n2 / 262144);
        lemma_symbol(n1 / 4096 % 64, n2 / 4096 % 64);
        lemma_symbol(n1 / 64 % 64, n2 / 64 % 64);
        lemma_symbol(n1 % 64, n2 % 64);
        assert(b1.len() >= 3 <==> b2.len() >= 3);
        assert(b1.len() == 1 <==> b2.len() == 1);
        lemma_digits(n1, n2);
        lemma_group_bytes(b1, b2);
        if b1.len() >= 3 {
            let r1 = b1.subrange(3, b1.len() as int);
            let r2 = b2.subrange(3, b2.len() as int);
            lemma_encoding_injective(r1, r2);
            assert(b1 =~= b2) by {
                assert forall|i: int| 3 <= i < b1.len() implies b1[i] == b2[i] by {
                    assert(r1[i - 3] == r2[i - 3]);
                }
            }
        } else {
            assert(b1 =~= b2);
        }
    }
}

} // verus!
