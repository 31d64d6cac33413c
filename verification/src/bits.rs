//! The compact bit vector that holds the importance flags of a block.
//!
//! `smallbitvec::SmallBitVec` is used as it is.  Its contents are named by [`bits_of`], and
//! each method that the block calls is given here with what it does to those contents.  None
//! of this is proved: it restates what the bit vector's source and documentation say.

use vstd::prelude::*;
use smallbitvec::SmallBitVec;

verus! {

/// `smallbitvec::SmallBitVec`: a growable vector of bits, one machine word wide while it is
/// short.
#[verifier::external_type_specification]
#[verifier::external_body]
pub struct ExSmallBitVec(SmallBitVec);

/// The bits that a bit vector holds, from the first to the last.
pub uninterp spec fn bits_of(bits: SmallBitVec) -> Seq<bool>;

/// Whether one more bit can be pushed onto a vector of `len` bits.  A push that has to grow
/// the vector asks for twice the capacity, rounded up to whole words, and stops the program
/// when that sum does not fit in a `usize`.
pub open spec fn can_grow(len: nat) -> bool {
    2 * len + 64 <= usize::MAX
}

/// `SmallBitVec::new`: an empty bit vector.
#[verifier::external_body]
pub(crate) fn bits_new() -> (bits: SmallBitVec)
    ensures
        bits_of(bits) == Seq::<bool>::empty(),
{
    SmallBitVec::new()
}

/// `SmallBitVec::get`: the bit at `index`, or nothing when the vector is shorter.
#[verifier::external_body]
pub(crate) fn bits_get(bits: &SmallBitVec, index: usize) -> (bit: Option<bool>)
    ensures
        bit == if index < bits_of(*bits).len() {
            Some(bits_of(*bits)[index as int])
        } else {
            None
        },
{
    bits.get(index)
}

/// `SmallBitVec::push`: appends one bit; the bits before it stay.
#[verifier::external_body]
pub(crate) fn bits_push(bits: &mut SmallBitVec, bit: bool)
    requires
        can_grow(bits_of(*old(bits)).len()),
    ensures
        bits_of(*final(bits)) == bits_of(*old(bits)).push(bit),
{
    bits.push(bit)
}

/// `SmallBitVec::set`: overwrites the bit at `index`, which must exist; the others stay.
#[verifier::external_body]
pub(crate) fn bits_set(bits: &mut SmallBitVec, index: usize, bit: bool)
    requires
        index < bits_of(*old(bits)).len(),
    ensures
        bits_of(*final(bits)) == bits_of(*old(bits)).update(index as int, bit),
{
    bits.set(index, bit)
}

/// `SmallBitVec::remove`: takes out the bit at `index`, which must exist, and returns it; the
/// later bits move one place towards the front.
#[verifier::external_body]
pub(crate) fn bits_remove(bits: &mut SmallBitVec, index: usize) -> (bit: bool)
    requires
        index < bits_of(*old(bits)).len(),
    ensures
        bits_of(*final(bits)) == bits_of(*old(bits)).remove(index as int),
        bit == bits_of(*old(bits))[index as int],
{
    bits.remove(index)
}

} // verus!
