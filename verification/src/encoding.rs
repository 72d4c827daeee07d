//! Text and base64: the coders that the codec calls.

use vstd::prelude::*;
use vstd::utf8::{decode_utf8, encode_utf8, valid_utf8};

verus! {

/// `base64::DecodeError`: why a text is no base64.
#[verifier::external_type_specification]
#[verifier::external_body]
pub struct ExBase64DecodeError(base64::DecodeError);

/// The base64 text of `bytes`, in the standard alphabet and padded.
pub uninterp spec fn base64_text(bytes: Seq<u8>) -> Seq<char>;

/// The bytes that `text` is the base64 form of; none where it is no base64.
pub uninterp spec fn base64_bytes(text: Seq<char>) -> Option<Seq<u8>>;

/// The text that `String::from_utf8_lossy` makes of bytes that are not valid
/// UTF-8, each invalid sequence replaced.
pub uninterp spec fn replaced_text(bytes: Seq<u8>) -> Seq<char>;

/// The length of the base64 text of `len` bytes: four characters for every
/// three bytes begun.
pub open spec fn base64_len(len: nat) -> nat {
    (len + 2) / 3 * 4
}

/// Whether the encoder can allocate the text of `len` bytes of input: no
/// allocation is larger than `isize::MAX`.
pub open spec fn fits_encoder(len: nat) -> bool {
    base64_len(len) <= isize::MAX
}

/// Whether the decoder can size its buffer for a text of `len` bytes: it
/// multiplies the length by four before it divides by three.
pub open spec fn fits_decoder(len: nat) -> bool {
    len <= usize::MAX / 4
}

/// Whether the text of `len` bytes can be allocated even if every byte of
/// them is replaced, by the three bytes of the replacement character, and
/// the text then grows into twice the room it needs.
pub open spec fn fits_replaced(len: nat) -> bool {
    len <= isize::MAX / 6
}

/// The text of `bytes`: what they spell where they are valid UTF-8, and else
/// the text with each invalid sequence replaced.
pub open spec fn lossy_text(bytes: Seq<u8>) -> Seq<char> {
    if valid_utf8(bytes) {
        decode_utf8(bytes)
    } else {
        replaced_text(bytes)
    }
}

/// `base64::encode`: the base64 text of `bytes`, four characters of one byte
/// each for every three bytes begun, which decodes to `bytes` again. The
/// outside function panics where it cannot allocate its output.
#[verifier::external_body]
pub(crate) fn base64_encode(bytes: &Vec<u8>) -> (r: String)
    requires
        fits_encoder(bytes@.len()),
    ensures
        r@ == base64_text(bytes@),
        base64_bytes(r@) == Some(bytes@),
        encode_utf8(r@).len() == base64_len(bytes@.len()),
{
    base64::encode(bytes)
}

/// `base64::decode`: the bytes that `text` is the base64 form of, or the
/// decoder's error where it is none. The outside function panics where four
/// times the length of the text does not fit in `usize`.
#[verifier::external_body]
pub(crate) fn base64_decode(text: &str) -> (r: Result<Vec<u8>, base64::DecodeError>)
    requires
        fits_decoder(encode_utf8(text@).len()),
    ensures
        match r {
            Ok(bytes) => base64_bytes(text@) == Some(bytes@),
            Err(_) => base64_bytes(text@) is None,
        },
{
    base64::decode(text)
}

/// `String::from_utf8_lossy`: the text of `bytes`, with each sequence that is
/// not valid UTF-8 replaced. The outside function panics where it cannot
/// allocate its output.
#[verifier::external_body]
pub(crate) fn utf8_lossy(bytes: &Vec<u8>) -> (r: String)
    requires
        fits_replaced(bytes@.len()),
    ensures
        r@ == (if valid_utf8(bytes@) {
            decode_utf8(bytes@)
        } else {
            replaced_text(bytes@)
        }),
{
    String::from_utf8_lossy(bytes).into_owned()
}

} // verus!
