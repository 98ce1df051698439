//! The asset record and the genetic derivation of a child's identity.

use vstd::prelude::*;

verus! {

/// Width in bytes of an asset's identity payload.
pub const DNA_BYTES: usize = 16;

/// Width in bytes of an asset's name label in the current layout.
pub const NAME_BYTES: usize = 8;

/// An asset record: a 16-byte identity payload and an 8-byte name.
/// Records are immutable once created; breeding and transfer never
/// alter an existing record.
#[derive(Clone, Copy, PartialEq, Eq, Debug)]
pub struct Kitty {
    pub dna: [u8; 16],
    pub name: [u8; 8],
}

/// The byte at position `i` of a child's identity: wherever `mask`
/// has a 1 bit the child inherits parent `a`'s bit, wherever 0 it
/// inherits parent `b`'s bit.
pub open spec fn blend_byte(a: u8, b: u8, mask: u8) -> u8 {
    (a & mask) | (b & !mask)
}

/// The full identity a child derives from parents `a` and `b` under
/// the selector `mask`, byte for byte.
pub open spec fn blend(a: Seq<u8>, b: Seq<u8>, mask: Seq<u8>) -> Seq<u8> {
    Seq::new(a.len(), |i: int| blend_byte(a[i], b[i], mask[i]))
}

/// Derives a child's identity from two parent identities and a
/// one-shot random selector. Pure and total: the result is a
/// function of the three inputs alone, so equal inputs always give
/// an equal child.
pub fn derive(a: &[u8; 16], b: &[u8; 16], mask: &[u8; 16]) -> (child: [u8; 16])
    ensures
        child@ == blend(a@, b@, mask@),
        forall|i: int| 0 <= i < 16 ==> child@[i] == (a@[i] & mask@[i]) | (b@[i] & !mask@[i]),
{
    let mut child = [0u8; 16];
    let mut i: usize = 0;
    while i < 16
        invariant
            i <= 16,
            child@.len() == 16,
            forall|j: int| 0 <= j < i ==> child@[j] == blend_byte(a@[j], b@[j], mask@[j]),
        decreases 16 - i,
    {
        child[i] = (a[i] & mask[i]) | (b[i] & !mask[i]);
        i += 1;
    }
    assert(child@ =~= blend(a@, b@, mask@));
    child
}

} // verus!
