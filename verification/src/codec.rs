//! The conversion between native values and dynamic values, in both
//! directions.

use crate::double::{
    integer_as_double, is_finite, number_from_integer, number_from_real, real_from_number,
};
use crate::encoding::{
    base64_bytes, base64_decode, base64_encode, base64_len, base64_text, fits_decoder,
    fits_replaced, lossy_text, utf8_lossy,
};
use crate::value::{
    lemma_array_view, native_views, wire_views, DynamicValue, Native, NativeValue, Wire,
};
use vstd::prelude::*;
use vstd::string::{StrSliceExecFns, StringExecFns, StringSliceAdditionalSpecFns};
use vstd::utf8::{decode_utf8_encode_utf8, encode_utf8, valid_utf8};

verus! {

/// Why a native value has no form on the wire.
#[derive(Debug, Clone, Copy, PartialEq, Eq, Structural)]
pub enum EncodeError {
    /// A real that is infinite or not a number.
    NotFinite,
    /// A text or a blob too large for its wire form to be allocated.
    TooLarge,
}

/// The text that marks a two-element array as a blob.
pub open spec fn blob_tag() -> Seq<char> {
    "blob:base64"@
}

/// The array that stands for the blob `bytes` on the wire.
pub open spec fn blob_array(bytes: Seq<u8>) -> Wire {
    Wire::Array(seq![Wire::String(blob_tag()), Wire::String(base64_text(bytes))])
}

/// Whether a blob of `len` bytes has a base64 text that the decoder takes,
/// so that it can come back.
pub open spec fn is_encodable(len: nat) -> bool {
    fits_decoder(base64_len(len))
}

/// What a native value becomes on the wire.
pub open spec fn encode_spec(value: Native) -> Result<Wire, EncodeError> {
    match value {
        Native::Null => Ok(Wire::Null),
        Native::Integer(i) => Ok(Wire::Number(integer_as_double(i as int), true)),
        Native::Real(bits) => if is_finite(bits) {
            Ok(Wire::Number(bits, true))
        } else {
            Err(EncodeError::NotFinite)
        },
        Native::Text(bytes) => if fits_replaced(bytes.len()) {
            Ok(Wire::String(lossy_text(bytes)))
        } else {
            Err(EncodeError::TooLarge)
        },
        Native::Blob(bytes) => if is_encodable(bytes.len()) {
            Ok(blob_array(bytes))
        } else {
            Err(EncodeError::TooLarge)
        },
    }
}

/// Whether an array has the shape of a blob: two elements, the tag and a
/// text.
pub open spec fn is_blob_shape(items: Seq<Wire>) -> bool {
    &&& items.len() == 2
    &&& items[0] == Wire::String(blob_tag())
    &&& items[1] is String
}

/// The bytes that a payload text decodes to; none where it is no base64, or
/// is longer than the decoder takes.
pub open spec fn blob_payload(text: Seq<char>) -> Option<Seq<u8>> {
    if fits_decoder(encode_utf8(text).len()) {
        base64_bytes(text)
    } else {
        None
    }
}

/// The blob that an array stands for, if it stands for one.
pub open spec fn parse_blob_spec(items: Seq<Wire>) -> Option<Native> {
    if is_blob_shape(items) {
        match blob_payload(items[1]->String_0) {
            Some(bytes) => Some(Native::Blob(bytes)),
            None => None,
        }
    } else {
        None
    }
}

/// What a wire value becomes as a statement parameter.
pub open spec fn decode_spec(value: Wire) -> Native {
    match value {
        Wire::Null => Native::Null,
        Wire::Bool(b) => Native::Integer(
            if b {
                1
            } else {
                0
            },
        ),
        Wire::Number(bits, _) => Native::Real(bits),
        Wire::String(text) => Native::Text(encode_utf8(text)),
        Wire::Array(items) => match parse_blob_spec(items) {
            Some(blob) => blob,
            None => Native::Null,
        },
        Wire::Object(_) => Native::Null,
    }
}

/// The wire form of a real, from the number that was made of its double:
/// that number where there is one, and else the error of a real that is not
/// finite.
pub fn number_or_not_finite(number: Option<serde_json::Number>) -> (r: Result<
    DynamicValue,
    EncodeError,
>)
    ensures
        match number {
            Some(n) => r == Ok::<DynamicValue, EncodeError>(DynamicValue::Number(n)),
            None => r == Err::<DynamicValue, EncodeError>(EncodeError::NotFinite),
        },
{
    match number {
        Some(n) => Ok(DynamicValue::Number(n)),
        None => Err(EncodeError::NotFinite),
    }
}

/// The array that stands for a blob on the wire, from the base64 text of
/// the blob: the tag, then the text.
pub fn tagged_array(payload: String) -> (r: DynamicValue)
    ensures
        r@ == Wire::Array(seq![Wire::String(blob_tag()), Wire::String(payload@)]),
{
    let mut items: Vec<DynamicValue> = Vec::new();
    items.push(DynamicValue::String(String::from_str("blob:base64")));
    items.push(DynamicValue::String(payload));
    proof {
        lemma_array_view(items);
        assert(wire_views(items@) =~= seq![Wire::String(blob_tag()), Wire::String(payload@)]);
    }
    DynamicValue::Array(items)
}

/// Encodes a native value for the wire.
///
/// Null stays null, an integer becomes the number of the nearest double, a
/// finite real the number of that double, a text its characters with invalid
/// sequences replaced, a blob the tagged array of its base64 text. A real
/// that is not finite has no wire form, nor has a text or a blob that is too
/// large. The array of a blob decodes to that blob again.
///
/// Every number that goes out on the wire is held as a double, so an
/// integer of a magnitude above 2^53 may come out as a neighbour of itself.
pub fn encode_native_to_wire(value: &NativeValue) -> (r: Result<DynamicValue, EncodeError>)
    ensures
        match r {
            Ok(wire) => encode_spec(value@) == Ok::<Wire, EncodeError>(wire@),
            Err(error) => encode_spec(value@) == Err::<Wire, EncodeError>(error),
        },
        value@ is Blob && r is Ok ==> decode_spec(r->Ok_0@) == value@,
{
    match value {
        NativeValue::Null => Ok(DynamicValue::Null),
        NativeValue::Integer(i) => Ok(DynamicValue::Number(number_from_integer(*i))),
        NativeValue::Real(double) => number_or_not_finite(number_from_real(double)),
        NativeValue::Text(bytes) => {
            if bytes.len() > isize::MAX as usize / 6 {
                return Err(EncodeError::TooLarge);
            }
            Ok(DynamicValue::String(utf8_lossy(bytes)))
        },
        NativeValue::Blob(bytes) => {
            let groups = bytes.len() / 3 + if bytes.len() % 3 == 0 {
                0
            } else {
                1
            };
            if groups > usize::MAX / 4 / 4 {
                return Err(EncodeError::TooLarge);
            }
            Ok(tagged_array(base64_encode(bytes)))
        },
    }
}

/// The payload of an array that has the shape of a blob: its second
/// element, where it has two, the first is the tag and the second is a text.
/// Any other array has none.
pub fn blob_payload_of(array: &Vec<DynamicValue>) -> (r: Option<&String>)
    ensures
        match r {
            Some(payload) => is_blob_shape(wire_views(array@)) && wire_views(array@)[1]
                == Wire::String(payload@),
            None => !is_blob_shape(wire_views(array@)),
        },
{
    if array.len() != 2 {
        return None;
    }
    match (&array[0], &array[1]) {
        (DynamicValue::String(tag), DynamicValue::String(payload)) => {
            let expected = String::from_str("blob:base64");
            if *tag == expected {
                Some(payload)
            } else {
                None
            }
        },
        _ => None,
    }
}

/// The blob that a payload stands for, from what the decoder made of the
/// payload: the blob of the bytes where there are any, and nothing where the
/// decoder found no base64.
pub fn blob_from_decoded(decoded: Result<Vec<u8>, base64::DecodeError>) -> (r: Option<NativeValue>)
    ensures
        match decoded {
            Ok(bytes) => r == Some(NativeValue::Blob(bytes)),
            Err(_) => r is None,
        },
{
    match decoded {
        Ok(bytes) => Some(NativeValue::Blob(bytes)),
        Err(_) => None,
    }
}

/// Reads a blob out of an array: the bytes of its second element where the
/// array is the tag followed by a base64 text, and nothing for any other
/// array.
pub fn parse_blob(array: &Vec<DynamicValue>) -> (r: Option<NativeValue>)
    ensures
        match r {
            Some(blob) => parse_blob_spec(wire_views(array@)) == Some(blob@),
            None => parse_blob_spec(wire_views(array@)) is None,
        },
{
    match blob_payload_of(array) {
        None => None,
        Some(payload) => {
            let text = payload.as_str();
            if text.as_bytes().len() > usize::MAX / 4 {
                return None;
            }
            blob_from_decoded(base64_decode(text))
        },
    }
}

/// Whether a native value can be lent to the engine as what its content
/// says: every one can but a real that is not finite.
pub open spec fn is_lendable(value: Native) -> bool {
    !(value matches Native::Real(bits) && !is_finite(bits))
}

/// Decodes a wire value into a statement parameter.
///
/// Null stays null, a boolean becomes the integer 1 or 0, a number the real
/// of its double, a string the text of its UTF-8 bytes, an array that stands
/// for a blob that blob. Every other array, and every object, becomes null,
/// without a warning.
///
/// A number becomes a real even where it is whole, and an integer that came
/// out of a boolean cannot be told from any other.
pub fn decode_wire_to_native(value: &DynamicValue) -> (r: NativeValue)
    ensures
        r@ == decode_spec(value@),
        is_lendable(r@),
{
    match value {
        DynamicValue::Null => NativeValue::Null,
        DynamicValue::Bool(b) => NativeValue::Integer(
            if *b {
                1
            } else {
                0
            },
        ),
        DynamicValue::Number(number) => NativeValue::Real(real_from_number(number)),
        DynamicValue::String(text) => NativeValue::Text(text.as_str().as_bytes_vec()),
        DynamicValue::Array(items) => {
            proof {
                lemma_array_view(*items);
            }
            match parse_blob(items) {
                Some(blob) => blob,
                None => NativeValue::Null,
            }
        },
        DynamicValue::Object(_) => NativeValue::Null,
    }
}

/// Decodes the parameters of a statement, in order. The double of every
/// number is finite, so each of them can be lent to the engine as it is.
pub fn json_to_params(params: &Vec<DynamicValue>) -> (r: Vec<NativeValue>)
    ensures
        native_views(r@) == wire_views(params@).map_values(|w: Wire| decode_spec(w)),
        forall|i: int| 0 <= i < r.len() ==> is_lendable(#[trigger] r[i]@),
{
    let mut natives: Vec<NativeValue> = Vec::new();
    let mut i: usize = 0;
    while i < params.len()
        invariant
            i <= params.len(),
            natives.len() == i,
            forall|k: int| 0 <= k < i ==> (#[trigger] natives[k])@ == decode_spec(params[k]@),
            forall|k: int| 0 <= k < i ==> is_lendable(#[trigger] natives[k]@),
        decreases params.len() - i,
    {
        natives.push(decode_wire_to_native(&params[i]));
        i += 1;
    }
    assert(native_views(natives@) =~= wire_views(params@).map_values(|w: Wire| decode_spec(w)));
    natives
}

/// What goes to the wire and comes back is what it was: null stays null, a
/// finite real stays that real, a text of valid UTF-8 that is not too large
/// stays that text. An integer comes back as the real of the double nearest
/// to it.
pub proof fn lemma_round_trip(value: Native)
    requires
        match value {
            Native::Null => true,
            Native::Integer(_) => true,
            Native::Real(bits) => is_finite(bits),
            Native::Text(bytes) => valid_utf8(bytes) && fits_replaced(bytes.len()),
            Native::Blob(_) => false,
        },
    ensures
        encode_spec(value) is Ok,
        decode_spec(encode_spec(value)->Ok_0) == (match value {
            Native::Integer(i) => Native::Real(integer_as_double(i as int)),
            _ => value,
        }),
{
    if let Native::Text(bytes) = value {
        decode_utf8_encode_utf8(bytes);
    }
}

/// A boolean that is decoded and encoded again comes back as a number: that
/// of 1 for true and of 0 for false.
pub proof fn lemma_boolean_becomes_number(b: bool)
    ensures
        encode_spec(decode_spec(Wire::Bool(b))) == Ok::<Wire, EncodeError>(
            Wire::Number(
                integer_as_double(
                    if b {
                        1
                    } else {
                        0
                    },
                ),
                true,
            ),
        ),
{
}

/// An array that has not the shape of a blob decodes to null.
pub proof fn lemma_other_array_is_null(items: Seq<Wire>)
    requires
        !is_blob_shape(items),
    ensures
        decode_spec(Wire::Array(items)) == Native::Null,
{
}

} // verus!
