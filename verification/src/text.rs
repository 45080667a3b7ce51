//! Text in the encoding the engine reads: UTF-8 bytes closed by a zero byte.

use vstd::prelude::*;
use vstd::string::StringSliceAdditionalSpecFns;
use vstd::utf8::{
    char_is_scalar, char_u32_cast, encode_scalar, encode_utf8, has_width_1_encoding, is_scalar,
};
use crate::error::{Error, Rejection};

verus! {

/// The offset of the first zero byte of `bytes`, if there is one.
pub open spec fn nul_position(bytes: Seq<u8>) -> Option<int> {
    bytes.index_of_first(0u8)
}

/// `bytes` followed by the closing zero byte.
pub open spec fn terminated(bytes: Seq<u8>) -> Seq<u8> {
    bytes.push(0u8)
}

/// Whether `encoded` is zero-terminated text: its last byte is zero and no
/// other byte is.
pub open spec fn is_c_text(encoded: Seq<u8>) -> bool {
    &&& encoded.len() > 0
    &&& encoded.last() == 0
    &&& forall|i: int| 0 <= i < encoded.len() - 1 ==> encoded[i] != 0
}

/// `position` is the first zero byte of `bytes` exactly when it is a zero
/// byte and none comes before it.
pub proof fn lemma_nul_position(bytes: Seq<u8>, position: int)
    ensures
        nul_position(bytes) == Some(position) <==> {
            &&& 0 <= position < bytes.len()
            &&& bytes[position] == 0
            &&& forall|j: int| 0 <= j < position ==> bytes[j] != 0
        },
        nul_position(bytes) is None <==> forall|i: int| 0 <= i < bytes.len() ==> bytes[i] != 0,
{
    bytes.index_of_first_ensures(0u8);
}

/// Text without a zero byte, closed by one, is zero-terminated text.
pub proof fn lemma_terminated_is_c_text(bytes: Seq<u8>)
    requires
        nul_position(bytes) is None,
    ensures
        is_c_text(terminated(bytes)),
{
    lemma_nul_position(bytes, 0);
}

/// A one-byte encoding is zero only for the scalar zero.
proof fn lemma_low_byte(scalar: u32)
    by (bit_vector)
    requires
        scalar <= 0x7F,
    ensures
        ((scalar & 0x7F) as u8 == 0) <==> scalar == 0,
{
}

/// A byte that carries the mark of a leading or continuation byte is not
/// zero.
proof fn lemma_marked_byte(low: u8)
    by (bit_vector)
    ensures
        0x80u8 | low != 0,
        0xC0u8 | low != 0,
        0xE0u8 | low != 0,
        0xF0u8 | low != 0,
{
}

/// The encoding of a scalar holds a zero byte exactly when the scalar is
/// zero.
proof fn lemma_scalar_nul(scalar: u32)
    requires
        is_scalar(scalar),
    ensures
        encode_scalar(scalar).contains(0u8) <==> scalar == 0,
{
    let bytes = encode_scalar(scalar);
    if has_width_1_encoding(scalar) {
        lemma_low_byte(scalar);
        assert(bytes[0] == (scalar & 0x7F) as u8);
    } else {
        lemma_marked_byte(((scalar >> 18) & 0x7) as u8);
        lemma_marked_byte(((scalar >> 12) & 0x0F) as u8);
        lemma_marked_byte(((scalar >> 12) & 0x3F) as u8);
        lemma_marked_byte(((scalar >> 6) & 0x1F) as u8);
        lemma_marked_byte(((scalar >> 6) & 0x3F) as u8);
        lemma_marked_byte((scalar & 0x3F) as u8);
        assert(forall|i: int| 0 <= i < bytes.len() ==> bytes[i] != 0);
    }
}

/// Text holds a zero byte exactly when it holds the character U+0000: no
/// other character has a zero byte in its UTF-8 encoding.
pub proof fn lemma_nul_byte_iff_nul_char(chars: Seq<char>)
    ensures
        nul_position(encode_utf8(chars)) is Some <==> chars.contains('\0'),
    decreases chars.len(),
{
    lemma_nul_position(encode_utf8(chars), 0);
    if chars.len() > 0 {
        let rest = chars.drop_first();
        let head = encode_scalar(chars[0] as u32);
        let tail = encode_utf8(rest);
        lemma_nul_byte_iff_nul_char(rest);
        lemma_nul_position(tail, 0);
        char_is_scalar(chars[0]);
        lemma_scalar_nul(chars[0] as u32);
        assert(chars[0] == '\0' <==> chars[0] as u32 == 0) by {
            char_u32_cast(chars[0], chars[0] as u32);
            char_u32_cast('\0', 0u32);
        }
        if chars.contains('\0') {
            let k = choose|k: int| 0 <= k < chars.len() && chars[k] == '\0';
            if k == 0 {
                let i = choose|i: int| 0 <= i < head.len() && head[i] == 0u8;
                assert((head + tail)[i] == 0u8);
            } else {
                assert(rest[k - 1] == '\0');
                let i = choose|i: int| 0 <= i < tail.len() && tail[i] == 0u8;
                assert((head + tail)[head.len() + i] == 0u8);
            }
        }
        if (head + tail).contains(0u8) {
            let i = choose|i: int| 0 <= i < (head + tail).len() && (head + tail)[i] == 0u8;
            if i < head.len() {
                assert(head[i] == 0u8);
            } else {
                assert(tail[i - head.len()] == 0u8);
                let k = choose|k: int| 0 <= k < rest.len() && rest[k] == '\0';
                assert(chars[k + 1] == '\0');
            }
        }
    }
}

/// Encodes `text` for the engine.
///
/// Text that holds a zero byte cannot be zero-terminated text, and is
/// refused with the offset of its first zero byte. All other text is
/// returned as its UTF-8 bytes followed by one zero byte. The text that is
/// refused is the text that holds the character U+0000.
pub fn encode(text: &str) -> (r: Result<Vec<u8>, Error>)
    ensures
        match nul_position(text.spec_bytes()) {
            Some(position) => r == Err::<Vec<u8>, Error>(
                Error::InvalidArgument(Rejection::InteriorNul { position: position as usize }),
            ),
            None => r matches Ok(encoded) && encoded@ == terminated(text.spec_bytes()),
        },
        r is Err <==> text@.contains('\0'),
        r matches Ok(encoded) ==> is_c_text(encoded@),
{
    let bytes = text.as_bytes();
    let mut encoded: Vec<u8> = Vec::new();
    let mut i: usize = 0;
    while i < bytes.len()
        invariant
            i <= bytes.len(),
            bytes@ == text.spec_bytes(),
            forall|j: int| 0 <= j < i ==> bytes@[j] != 0,
            encoded@ == bytes@.take(i as int),
        decreases bytes.len() - i,
    {
        let byte = bytes[i];
        if byte == 0 {
            proof {
                lemma_nul_position(bytes@, i as int);
                lemma_nul_byte_iff_nul_char(text@);
            }
            return Err(Error::InvalidArgument(Rejection::InteriorNul { position: i }));
        }
        encoded.push(byte);
        proof {
            assert(encoded@ == bytes@.take(i + 1));
        }
        i += 1;
    }
    proof {
        lemma_nul_position(bytes@, 0);
        lemma_nul_byte_iff_nul_char(text@);
        lemma_terminated_is_c_text(bytes@);
        assert(bytes@.take(i as int) == bytes@);
    }
    encoded.push(0);
    Ok(encoded)
}

} // verus!
