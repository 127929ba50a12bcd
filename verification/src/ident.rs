use vstd::prelude::*;

verus! {

/// The 128-bit value of the UUID written in `s`, or `None` when `s` is not a
/// UUID: the result of `uuid::Uuid::parse_str` followed by `Uuid::as_u128`,
/// which depend on the characters of `s` alone.
pub uninterp spec fn uuid_bits_of(s: Seq<char>) -> Option<u128>;

/// Relies on `uuid::Uuid::parse_str` to read a UUID from a string, and on
/// `uuid::Uuid::as_u128` to return its value as a big-endian 128-bit integer.
/// Both are pure functions of the input string.
#[verifier::external_body]
fn parse_uuid_bits(s: &str) -> (r: Option<u128>)
    ensures
        r == uuid_bits_of(s@),
{
    match uuid::Uuid::parse_str(s) {
        Ok(u) => Some(u.as_u128()),
        Err(_) => None,
    }
}

/// The deck identifier carried by a UUID value: its lower 64 bits,
/// reinterpreted as a signed integer.
pub open spec fn spec_id_of_bits(bits: u128) -> i64 {
    (bits as u64) as i64
}

/// The deck identifier for a notebook UUID string, or `None` when the string
/// is not a UUID.
pub open spec fn spec_id_from_uuid(s: Seq<char>) -> Option<i64> {
    match uuid_bits_of(s) {
        Option::None => Option::None,
        Option::Some(bits) => Option::Some(spec_id_of_bits(bits)),
    }
}

/// Derives the stable deck identifier from the notebook UUID: the lower
/// 64 bits of the UUID's binary form, reinterpreted as a signed integer.
/// Returns `None` when the string is not a UUID.
pub fn id_from_uuid(uuid: &str) -> (r: Option<i64>)
    ensures
        r == spec_id_from_uuid(uuid@),
{
    match parse_uuid_bits(uuid) {
        None => None,
        Some(bits) => {
            let low: u64 = #[verifier::truncate] (bits as u64);
            Some(#[verifier::truncate] (low as i64))
        },
    }
}

} // verus!
