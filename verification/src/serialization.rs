//! Hex and decimal codecs for persisted values, with exact specifications.
//!
//! Encoding to hex and decoding from hex are delegated to the `hex` crate;
//! their behaviour is stated against the spec functions below. Decimal
//! parsing is implemented and verified here.

use crate::error::StoreError;
use crate::template_address::TemplateAddress;
use vstd::prelude::*;
use vstd::string::StrSliceExecFns;
use vstd::string::StringExecFns;

verus! {

/// The lowercase hex digit for a nibble value.
pub open spec fn hex_char_of(v: u8) -> char
    recommends
        v < 16,
{
    if v == 0 {
        '0'
    } else if v == 1 {
        '1'
    } else if v == 2 {
        '2'
    } else if v == 3 {
        '3'
    } else if v == 4 {
        '4'
    } else if v == 5 {
        '5'
    } else if v == 6 {
        '6'
    } else if v == 7 {
        '7'
    } else if v == 8 {
        '8'
    } else if v == 9 {
        '9'
    } else if v == 10 {
        'a'
    } else if v == 11 {
        'b'
    } else if v == 12 {
        'c'
    } else if v == 13 {
        'd'
    } else if v == 14 {
        'e'
    } else {
        'f'
    }
}

/// A hex digit in either case.
pub open spec fn is_hex_digit(c: char) -> bool {
    ('0' <= c && c <= '9') || ('a' <= c && c <= 'f') || ('A' <= c && c <= 'F')
}

/// The value of a hex digit.
pub open spec fn hex_digit_val(c: char) -> int
    recommends
        is_hex_digit(c),
{
    if '0' <= c && c <= '9' {
        c as int - '0' as int
    } else if 'a' <= c && c <= 'f' {
        c as int - 'a' as int + 10
    } else {
        c as int - 'A' as int + 10
    }
}

/// Lowercase hex encoding of a byte sequence: two digits per byte, high
/// nibble first.
pub open spec fn spec_hex_encode(b: Seq<u8>) -> Seq<char>
    decreases b.len(),
{
    if b.len() == 0 {
        Seq::empty()
    } else {
        seq![hex_char_of(b.first() / 16), hex_char_of(b.first() % 16)] + spec_hex_encode(
            b.drop_first(),
        )
    }
}

/// A string decodes as hex iff its length is even and every character is a
/// hex digit.
pub open spec fn valid_hex(s: Seq<char>) -> bool {
    s.len() % 2 == 0 && (forall|i: int| 0 <= i < s.len() ==> is_hex_digit(#[trigger] s[i]))
}

/// The bytes denoted by a hex string, two digits per byte.
pub open spec fn spec_hex_decode(s: Seq<char>) -> Seq<u8>
    recommends
        valid_hex(s),
    decreases s.len(),
{
    if s.len() < 2 {
        Seq::empty()
    } else {
        seq![(hex_digit_val(s[0]) * 16 + hex_digit_val(s[1])) as u8] + spec_hex_decode(s.skip(2))
    }
}

/// Relies on hex::encode: the result is the lowercase hex digits of the
/// input bytes, high nibble of each byte first.
#[verifier::external_body]
fn hex_encode(bytes: &[u8]) -> (r: String)
    ensures
        r@ == spec_hex_encode(bytes@),
{
    hex::encode(bytes)
}

/// Relies on hex::decode: it succeeds exactly on even-length strings of hex
/// digits (either case) and returns the bytes they denote; on failure the
/// error's description is returned.
#[verifier::external_body]
fn hex_decode(s: &str) -> (r: Result<Vec<u8>, String>)
    ensures
        r is Ok <==> valid_hex(s@),
        r is Ok ==> r->Ok_0@ == spec_hex_decode(s@),
{
    hex::decode(s).map_err(|e| e.to_string())
}

/// Hex round trip: encoding always yields a decodable string that denotes
/// the original bytes.
pub proof fn lemma_hex_round_trip(b: Seq<u8>)
    ensures
        valid_hex(spec_hex_encode(b)),
        spec_hex_encode(b).len() == 2 * b.len(),
        spec_hex_decode(spec_hex_encode(b)) == b,
    decreases b.len(),
{
    if b.len() == 0 {
        assert(spec_hex_decode(spec_hex_encode(b)) =~= b);
    } else {
        let first = b.first();
        let hi = first / 16;
        let lo = first % 16;
        let pair = seq![hex_char_of(hi), hex_char_of(lo)];
        let rest = spec_hex_encode(b.drop_first());
        lemma_hex_round_trip(b.drop_first());
        assert(spec_hex_encode(b) == pair + rest);
        assert forall|i: int| 0 <= i < (pair + rest).len() implies is_hex_digit(
            #[trigger] (pair + rest)[i],
        ) by {
            if i >= 2 {
                assert((pair + rest)[i] == rest[i - 2]);
            }
        }
        assert((pair + rest).skip(2) =~= rest);
        assert(hex_digit_val(hex_char_of(hi)) == hi as int);
        assert(hex_digit_val(hex_char_of(lo)) == lo as int);
        assert(hi as int * 16 + lo as int == first as int);
        assert(spec_hex_decode(spec_hex_encode(b)) =~= b);
    }
}

/// Hex encoding of a byte vector, two lowercase digits per byte.
pub fn serialize_hex(bytes: &[u8]) -> (r: String)
    ensures
        r@ == spec_hex_encode(bytes@),
{
    hex_encode(bytes)
}

/// Decodes a hex string into bytes; fails with a decode error on a string
/// that is not even-length hex.
pub fn deserialize_hex(s: &str) -> (r: Result<Vec<u8>, StoreError>)
    ensures
        r is Ok <==> valid_hex(s@),
        r is Ok ==> r->Ok_0@ == spec_hex_decode(s@),
        r matches Err(e) ==> (e matches StoreError::Decode { operation, item, .. } && operation@
            == "deserialize_hex"@ && item@ == "Vec<u8>"@),
{
    match hex_decode(s) {
        Ok(v) => Ok(v),
        Err(details) => Err(
            StoreError::Decode {
                operation: "deserialize_hex".to_owned(),
                item: "Vec<u8>".to_owned(),
                details,
            },
        ),
    }
}

/// Decodes a hex string into a template address; exactly the even-length hex
/// strings denoting 32 bytes are accepted.
pub fn deserialize_hex_try_from(s: &str) -> (r: Result<TemplateAddress, StoreError>)
    ensures
        r is Ok <==> valid_hex(s@) && spec_hex_decode(s@).len() == 32,
        r matches Ok(t) ==> t@ == spec_hex_decode(s@),
        r is Err ==> r->Err_0 is Decode,
        !valid_hex(s@) ==> (r matches Err(e) && e matches StoreError::Decode {
            operation,
            item,
            ..
        } && operation@ == "deserialize_hex"@ && item@ == "Vec<u8>"@),
        valid_hex(s@) && spec_hex_decode(s@).len() != 32 ==> (r matches Err(e) && e matches
        StoreError::Decode { operation, item, .. } && operation@ == "deserialize_hex_try_from"@
            && item@ == "TemplateAddress"@),
{
    let bytes = match deserialize_hex(s) {
        Ok(bytes) => bytes,
        Err(e) => {
            return Err(e);
        },
    };
    match TemplateAddress::try_from_vec(bytes) {
        Some(t) => Ok(t),
        None => Err(
            StoreError::Decode {
                operation: "deserialize_hex_try_from".to_owned(),
                item: "TemplateAddress".to_owned(),
                details: "expected 32 bytes".to_owned(),
            },
        ),
    }
}

/// A decimal digit.
pub open spec fn is_digit(c: char) -> bool {
    '0' <= c && c <= '9'
}

/// The value of a decimal digit.
pub open spec fn digit_val(c: char) -> int
    recommends
        is_digit(c),
{
    c as int - '0' as int
}

/// Every character of the string is a decimal digit.
pub open spec fn all_digits(s: Seq<char>) -> bool {
    forall|i: int| 0 <= i < s.len() ==> is_digit(#[trigger] s[i])
}

/// The number denoted by a string of decimal digits, most significant first.
pub open spec fn spec_dec_value(s: Seq<char>) -> int
    recommends
        all_digits(s),
    decreases s.len(),
{
    if s.len() == 0 {
        0
    } else {
        spec_dec_value(s.drop_last()) * 10 + digit_val(s.last())
    }
}

/// The digit part of a decimal text: one leading `+` is allowed and skipped,
/// as in the standard library's unsigned parsing.
pub open spec fn spec_dec_digits(s: Seq<char>) -> Seq<char> {
    if s.len() > 0 && s[0] == '+' {
        s.drop_first()
    } else {
        s
    }
}

/// A string parses as a `u64` iff, after an optional leading `+`, it is
/// nonempty, all digits, and its value fits.
pub open spec fn valid_u64_text(s: Seq<char>) -> bool {
    spec_dec_digits(s).len() > 0 && all_digits(spec_dec_digits(s)) && spec_dec_value(
        spec_dec_digits(s),
    ) <= u64::MAX as int
}

proof fn lemma_dec_value_nonneg(s: Seq<char>)
    requires
        all_digits(s),
    ensures
        spec_dec_value(s) >= 0,
    decreases s.len(),
{
    if s.len() > 0 {
        assert(all_digits(s.drop_last())) by {
            assert forall|i: int| 0 <= i < s.drop_last().len() implies is_digit(
                #[trigger] s.drop_last()[i],
            ) by {
                assert(s.drop_last()[i] == s[i]);
            }
        }
        lemma_dec_value_nonneg(s.drop_last());
    }
}

proof fn lemma_dec_prefix_le(s: Seq<char>, i: int)
    requires
        all_digits(s),
        0 <= i <= s.len(),
    ensures
        spec_dec_value(s.take(i)) <= spec_dec_value(s),
    decreases s.len() - i,
{
    if i == s.len() {
        assert(s.take(i) =~= s);
    } else {
        lemma_dec_prefix_le(s, i + 1);
        assert(s.take(i + 1).drop_last() =~= s.take(i));
        assert(all_digits(s.take(i))) by {
            assert forall|j: int| 0 <= j < s.take(i).len() implies is_digit(
                #[trigger] s.take(i)[j],
            ) by {
                assert(s.take(i)[j] == s[j]);
            }
        }
        lemma_dec_value_nonneg(s.take(i));
        assert(s.take(i + 1).last() == s[i]);
        assert(spec_dec_value(s.take(i + 1)) == spec_dec_value(s.take(i)) * 10 + digit_val(s[i]));
    }
}

/// Parses a nonnegative decimal number, with one optional leading `+`; fails
/// with a decode error on any other string, including on overflow past
/// `u64::MAX`.
pub fn parse_from_string(s: &str) -> (r: Result<u64, StoreError>)
    ensures
        r is Ok <==> valid_u64_text(s@),
        r is Ok ==> r->Ok_0 as int == spec_dec_value(spec_dec_digits(s@)),
        r matches Err(e) ==> (e matches StoreError::Decode { operation, item, details }
            && operation@ == "parse_from_string"@ && item@ == "u64"@ && details@
            == "Cannot parse string '"@ + s@ + "'"@),
{
    let slen = s.unicode_len();
    let digits: &str = if slen > 0 && s.get_char(0) == '+' {
        s.substring_char(1, slen)
    } else {
        s
    };
    proof {
        assert(digits@ =~= spec_dec_digits(s@));
    }
    let len = digits.unicode_len();
    if len == 0 {
        return Err(parse_error(s));
    }
    let mut acc: u64 = 0;
    let mut i: usize = 0;
    while i < len
        invariant
            len == digits@.len(),
            digits@ == spec_dec_digits(s@),
            i <= len,
            forall|j: int| 0 <= j < i ==> is_digit(#[trigger] digits@[j]),
            acc as int == spec_dec_value(digits@.take(i as int)),
        decreases len - i,
    {
        let c = digits.get_char(i);
        let cv = c as u32;
        if cv < '0' as u32 || cv > '9' as u32 {
            assert(!is_digit(digits@[i as int]));
            return Err(parse_error(s));
        }
        let d = (cv - '0' as u32) as u64;
        assert(d as int == digit_val(digits@[i as int]));
        if acc > (u64::MAX - d) / 10 {
            proof {
                vstd::arithmetic::div_mod::lemma_fundamental_div_mod(
                    (u64::MAX - d) as int,
                    10,
                );
                assert(acc as int * 10 + d as int > u64::MAX as int);
                assert(digits@.take(i as int + 1).drop_last() =~= digits@.take(i as int));
                assert(digits@.take(i as int + 1).last() == digits@[i as int]);
                if all_digits(digits@) {
                    lemma_dec_prefix_le(digits@, i as int + 1);
                }
            }
            return Err(parse_error(s));
        }
        proof {
            vstd::arithmetic::div_mod::lemma_fundamental_div_mod((u64::MAX - d) as int, 10);
            assert(acc as int * 10 + d as int <= u64::MAX as int);
            assert(digits@.take(i as int + 1).drop_last() =~= digits@.take(i as int));
            assert(digits@.take(i as int + 1).last() == digits@[i as int]);
        }
        acc = acc * 10 + d;
        i += 1;
    }
    proof {
        assert(digits@.take(len as int) =~= digits@);
    }
    Ok(acc)
}

/// The decode error reported for an unparsable number.
fn parse_error(s: &str) -> (r: StoreError)
    ensures
        r matches StoreError::Decode { operation, item, details } && operation@
            == "parse_from_string"@ && item@ == "u64"@ && details@ == "Cannot parse string '"@ + s@
            + "'"@,
{
    let mut details = "Cannot parse string '".to_owned();
    details.append(s);
    details.append("'");
    StoreError::Decode {
        operation: "parse_from_string".to_owned(),
        item: "u64".to_owned(),
        details,
    }
}

} // verus!
