use vstd::prelude::*;
use crate::errors::VexusError;

verus! {

/// Number of bytes one single-precision component occupies in a raw buffer.
pub const BYTES_PER_COMPONENT: usize = 4;

/// A buffer of `len` bytes holds exactly `count` components when it has
/// four bytes per component.
pub open spec fn shape_ok(len: nat, count: nat) -> bool {
    len == count * 4
}

/// The little-endian 32-bit word formed by the four bytes of component `i`.
pub open spec fn component_word(bytes: Seq<u8>, i: int) -> u32 {
    (bytes[4 * i] as u32) | ((bytes[4 * i + 1] as u32) << 8) | ((bytes[4 * i + 2] as u32) << 16)
        | ((bytes[4 * i + 3] as u32) << 24)
}

/// All component words of a raw buffer, in order.
pub open spec fn decoded_words(bytes: Seq<u8>) -> Seq<u32> {
    Seq::new((bytes.len() / 4) as nat, |i: int| component_word(bytes, i))
}

/// Validates that a raw buffer of `len` bytes holds exactly `count`
/// components, reporting the expected and actual byte lengths otherwise.
pub fn check_shape(len: usize, count: usize) -> (r: Result<(), VexusError>)
    requires
        count <= usize::MAX / 4,
    ensures
        r is Ok <==> shape_ok(len as nat, count as nat),
        r is Err ==> r == Err::<(), VexusError>(
            VexusError::ShapeMismatch { expected: (count * 4) as usize, actual: len },
        ),
{
    if len == count * BYTES_PER_COMPONENT {
        Ok(())
    } else {
        Err(VexusError::ShapeMismatch { expected: count * BYTES_PER_COMPONENT, actual: len })
    }
}

/// Reinterprets a raw buffer as its sequence of 32-bit component words,
/// four little-endian bytes each.
pub fn decode_components(bytes: &Vec<u8>) -> (r: Vec<u32>)
    requires
        bytes@.len() % 4 == 0,
    ensures
        r@ == decoded_words(bytes@),
        r@.len() == bytes@.len() / 4,
{
    let n: usize = bytes.len() / 4;
    let mut out: Vec<u32> = Vec::with_capacity(n);
    let mut i: usize = 0;
    while i < n
        invariant
            i <= n,
            n == bytes@.len() / 4,
            bytes@.len() % 4 == 0,
            bytes@.len() <= usize::MAX,
            out@ == decoded_words(bytes@).take(i as int),
        decreases n - i,
    {
        proof {
            assert(bytes@.len() == 4 * n);
            assert(4 * (i as int) + 3 < bytes@.len());
        }
        let b0 = bytes[4 * i] as u32;
        let b1 = bytes[4 * i + 1] as u32;
        let b2 = bytes[4 * i + 2] as u32;
        let b3 = bytes[4 * i + 3] as u32;
        let word: u32 = b0 | (b1 << 8) | (b2 << 16) | (b3 << 24);
        assert(word == component_word(bytes@, i as int));
        out.push(word);
        proof {
            assert(out@ =~= decoded_words(bytes@).take(i as int + 1));
        }
        i = i + 1;
    }
    proof {
        assert(out@ =~= decoded_words(bytes@));
    }
    out
}

/// Validates the shape of a raw buffer against an expected component count
/// and decodes it into component words; the two outcomes are exclusive and
/// decided by the byte length alone.
pub fn decode_vector(bytes: &Vec<u8>, count: usize) -> (r: Result<Vec<u32>, VexusError>)
    requires
        count <= usize::MAX / 4,
    ensures
        r is Ok <==> shape_ok(bytes@.len(), count as nat),
        r is Ok ==> r.unwrap()@ == decoded_words(bytes@) && r.unwrap()@.len() == count,
        r is Err ==> r == Err::<Vec<u32>, VexusError>(
            VexusError::ShapeMismatch { expected: (count * 4) as usize, actual: bytes@.len() as usize },
        ),
{
    match check_shape(bytes.len(), count) {
        Ok(()) => Ok(decode_components(bytes)),
        Err(e) => Err(e),
    }
}

} // verus!
