//! The text formats of byte strings, identities, connection ids and timestamps.
use spacetimedb_lib::{from_hex_pad, ConnectionId, Identity, Timestamp};
use vstd::prelude::*;

use crate::decimal::U256;

verus! {

/// The value of a hexadecimal digit, in either case.
pub open spec fn hex_digit(c: char) -> Option<int> {
    if '0' <= c <= '9' {
        Some(c as int - '0' as int)
    } else if 'a' <= c <= 'f' {
        Some(c as int - 'a' as int + 10)
    } else if 'A' <= c <= 'F' {
        Some(c as int - 'A' as int + 10)
    } else {
        None
    }
}

/// A text without a leading `0x` or `X'`.
pub open spec fn without_hex_prefix(text: Seq<char>) -> Seq<char> {
    if text.len() >= 2 && (text[0] == '0' && text[1] == 'x' || text[0] == 'X' && text[1] == '\'') {
        text.skip(2)
    } else {
        text
    }
}

/// The bytes that a hexadecimal text denotes, two digits each.
pub open spec fn hex_bytes(text: Seq<char>) -> Option<Seq<u8>> {
    let digits = without_hex_prefix(text);
    if digits.len() % 2 == 0 && forall|i: int|
        0 <= i < digits.len() ==> hex_digit(#[trigger] digits[i]) is Some {
        Some(
            Seq::new(
                digits.len() / 2,
                |i: int| (16 * hex_digit(digits[2 * i])->0 + hex_digit(digits[2 * i + 1])->0) as u8,
            ),
        )
    } else {
        None
    }
}

/// The number that bytes denote, most significant first.
pub open spec fn big_endian(bytes: Seq<u8>) -> int
    decreases bytes.len(),
{
    if bytes.len() == 0 {
        0
    } else {
        256 * big_endian(bytes.drop_last()) + bytes.last()
    }
}

/// The number that a hexadecimal text of exactly `len` bytes denotes.
pub open spec fn hex_number(text: Seq<char>, len: nat) -> Option<int> {
    if hex_bytes(text) is Some && hex_bytes(text)->0.len() == len {
        Some(big_endian(hex_bytes(text)->0))
    } else {
        None
    }
}

/// The content of a vector of bytes, if there is one.
pub open spec fn optional_bytes(v: Option<Vec<u8>>) -> Option<Seq<u8>> {
    match v {
        Some(v) => Some(v@),
        None => None,
    }
}

/// The value of a connection id, if there is one.
pub open spec fn optional_u128(v: Option<u128>) -> Option<int> {
    match v {
        Some(v) => Some(v as int),
        None => None,
    }
}

/// `from_hex_pad` into a vector: the bytes of a hexadecimal text, behind an optional `0x` or `X'`.
#[verifier::external_body]
pub(crate) fn bytes_from_hex(text: &str) -> (r: Option<Vec<u8>>)
    ensures
        optional_bytes(r) == hex_bytes(text@),
{
    from_hex_pad::<Vec<u8>, _>(text).ok()
}

/// `Identity::from_hex`: a hexadecimal text of 32 bytes, read as a big-endian number.
#[verifier::external_body]
pub(crate) fn identity_from_hex(text: &str) -> (r: Option<U256>)
    ensures
        crate::decimal::u256_parts(r) == hex_number(text@, 32),
{
    Identity::from_hex(text).ok().map(|identity| {
        let (hi, lo) = identity.to_u256().into_words();
        U256 { hi, lo }
    })
}

/// `ConnectionId::from_hex`: a hexadecimal text of 16 bytes, read as a big-endian number.
#[verifier::external_body]
pub(crate) fn connection_id_from_hex(text: &str) -> (r: Option<u128>)
    ensures
        optional_u128(r) == hex_number(text@, 16),
{
    ConnectionId::from_hex(text).ok().map(|id| id.to_u128())
}

/// What `Timestamp::parse_from_rfc3339` makes of a text: microseconds since the Unix epoch.
pub uninterp spec fn rfc3339_micros(text: Seq<char>) -> Option<i64>;

/// What a text that is not in the format of RFC 3339 is answered.
pub const TIMESTAMP_FORMAT: &'static str = "Invalid timestamp format. Expected RFC 3339 format (e.g. '2025-02-10 15:45:30').";

/// The microseconds of a timestamp, if there is one.
pub open spec fn optional_micros(r: Result<i64, String>) -> Option<i64> {
    match r {
        Ok(micros) => Some(micros),
        Err(_) => None,
    }
}

/// `Timestamp::parse_from_rfc3339`: the microseconds since the Unix epoch of a date and time in
/// the format of RFC 3339, as [`rfc3339_micros`] names them; of any other text, the error, whose
/// text is [`TIMESTAMP_FORMAT`].
#[verifier::external_body]
pub(crate) fn timestamp_from_rfc3339(text: &str) -> (r: Result<i64, String>)
    ensures
        optional_micros(r) == rfc3339_micros(text@),
        r matches Err(reason) ==> reason@ == TIMESTAMP_FORMAT@,
{
    match Timestamp::parse_from_rfc3339(text) {
        Ok(t) => Ok(t.to_micros_since_unix_epoch()),
        Err(e) => Err(e.to_string()),
    }
}

} // verus!
