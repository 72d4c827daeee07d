//! Doubles. The library never opens one: it carries each inside the engine's
//! value or inside a JSON number, and speaks of it by its bit pattern.

use vstd::prelude::*;

verus! {

/// `rusqlite::types::Value`: the engine's own value, in which a double
/// travels unopened.
#[verifier::external_type_specification]
#[verifier::external_body]
pub struct ExEngineValue(rusqlite::types::Value);

/// `serde_json::Number`: a JSON number, in which a double travels unopened.
#[verifier::external_type_specification]
#[verifier::external_body]
pub struct ExJsonNumber(serde_json::Number);

/// The IEEE-754 binary64 bit pattern of the double that `value` holds. Where
/// `value` is not of the engine's variant `Real`, a pattern that is not
/// finite.
pub uninterp spec fn real_bits(value: rusqlite::types::Value) -> u64;

/// The IEEE-754 binary64 bit pattern of the double that `number` stands for.
pub uninterp spec fn number_bits(number: serde_json::Number) -> u64;

/// Whether `number` is held as a double, not as a whole number.
pub uninterp spec fn is_double(number: serde_json::Number) -> bool;

/// The IEEE-754 binary64 bit pattern of the double nearest to `i`.
pub uninterp spec fn integer_as_double(i: int) -> u64;

/// Whether `bits` is the pattern of a finite double: one whose exponent field
/// is not all ones.
pub open spec fn is_finite(bits: u64) -> bool {
    (bits >> 52) & 0x7ff != 0x7ff
}

/// `serde_json::Number::from_f64` on the double in `value`: the number that
/// holds the same double, as a double, where that is finite, and none where
/// it is infinite or not a number, or where `value` holds no double.
#[verifier::external_body]
pub(crate) fn number_from_real(value: &rusqlite::types::Value) -> (r: Option<serde_json::Number>)
    ensures
        r is Some <==> is_finite(real_bits(*value)),
        r matches Some(number) ==> number_bits(number) == real_bits(*value) && is_double(number),
{
    match value {
        rusqlite::types::Value::Real(double) => serde_json::Number::from_f64(*double),
        _ => None,
    }
}

/// `serde_json::Number::as_f64`, handed to the engine's value: a `Real` of
/// the double that `number` stands for, which is finite as that of every
/// number is.
#[verifier::external_body]
pub(crate) fn real_from_number(number: &serde_json::Number) -> (r: rusqlite::types::Value)
    ensures
        real_bits(r) == number_bits(*number),
        is_finite(real_bits(r)),
{
    rusqlite::types::Value::from(number.as_f64())
}

/// `serde_json::Number::from` on an integer, read back with `as_f64` and made
/// a number again with `from_f64`: the number that holds the double nearest
/// to `i`, as a double. Every step succeeds on every `i`.
#[verifier::external_body]
pub(crate) fn number_from_integer(i: i64) -> (r: serde_json::Number)
    ensures
        number_bits(r) == integer_as_double(i as int),
        is_double(r),
{
    serde_json::Number::from_f64(serde_json::Number::from(i).as_f64().unwrap()).unwrap()
}

} // verus!
