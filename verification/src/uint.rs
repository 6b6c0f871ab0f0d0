//! A 256-bit unsigned integer as a plain value.
//!
//! Token identifiers, the supply counter and the amounts that cross to another
//! chain are 256 bits wide. [`U256`] holds such a number as four 64-bit words,
//! in the layout of `sp_core::U256`, and leaves the arithmetic to that type.
//!
//! The functions of [`U256`] that are marked `external_body` are trusted, not
//! proved: each of them builds an `sp_core::U256` from the four words, makes
//! one call and takes the words of the result. Its contract says of the
//! numbers that the words stand for what `sp_core` documents of the call.
//! What needs no arithmetic is proved here: equality, and the numbers 0 and 1.
use vstd::prelude::*;
use vstd::std_specs::cmp::PartialEqSpecImpl;

verus! {

/// Two to the power of 64: the weight of the second word.
pub open spec fn word_1() -> nat {
    0x1_0000_0000_0000_0000nat
}

/// Two to the power of 128: the weight of the third word.
pub open spec fn word_2() -> nat {
    0x1_0000_0000_0000_0000_0000_0000_0000_0000nat
}

/// Two to the power of 192: the weight of the fourth word.
pub open spec fn word_3() -> nat {
    0x1_0000_0000_0000_0000_0000_0000_0000_0000_0000_0000_0000_0000nat
}

/// The largest number that 256 bits hold.
pub open spec fn max_value() -> nat {
    0xffff_ffff_ffff_ffff_ffff_ffff_ffff_ffff_ffff_ffff_ffff_ffff_ffff_ffff_ffff_ffffnat
}

/// The `len` bytes that write `value` with the most significant byte first.
/// What does not fit in `len` bytes is cut off at the front.
pub open spec fn big_endian(value: nat, len: nat) -> Seq<u8>
    decreases len,
{
    if len == 0 {
        Seq::empty()
    } else {
        big_endian(value / 256, (len - 1) as nat).push((value % 256) as u8)
    }
}

/// A 256-bit unsigned integer: four 64-bit words, the least significant first.
#[derive(Clone, Copy, Debug)]
pub struct U256(pub [u64; 4]);

impl View for U256 {
    type V = nat;

    /// The number that the four words stand for.
    open spec fn view(&self) -> nat {
        (self.0[0] + self.0[1] * word_1() + self.0[2] * word_2() + self.0[3] * word_3()) as nat
    }
}

impl PartialEq for U256 {
    /// Word by word.
    fn eq(&self, other: &U256) -> (r: bool) {
        let r = self.0[0] == other.0[0] && self.0[1] == other.0[1] && self.0[2] == other.0[2]
            && self.0[3] == other.0[3];
        assert(r ==> self.0 =~= other.0);
        r
    }
}

impl Eq for U256 {

}

impl PartialEqSpecImpl for U256 {
    open spec fn obeys_eq_spec() -> bool {
        true
    }

    open spec fn eq_spec(&self, other: &U256) -> bool {
        *self == *other
    }
}

impl U256 {
    /// The words and the number say the same: a number has 256 bits, and two
    /// values stand for the same number only if they are the same, word by
    /// word.
    pub proof fn lemma_number(self, other: U256)
        ensures
            self@ <= max_value(),
            self@ == other@ <==> self == other,
    {
        if self@ == other@ {
            let low = self.0[0] + self.0[1] * word_1();
            let other_low = other.0[0] + other.0[1] * word_1();
            let high = self.0[2] + self.0[3] * word_1();
            let other_high = other.0[2] + other.0[3] * word_1();
            assert(self@ == low + high * word_2());
            assert(other@ == other_low + other_high * word_2());
            assert(0 <= low < word_2() && 0 <= other_low < word_2());
            assert(high == other_high);
            assert(low == other_low);
            assert(self.0[1] == other.0[1]);
            assert(self.0[3] == other.0[3]);
            assert(self.0 =~= other.0);
        }
    }

    /// The number 0.
    pub fn zero() -> (r: U256)
        ensures
            r@ == 0,
    {
        U256([0, 0, 0, 0])
    }

    /// The number 1.
    pub fn one() -> (r: U256)
        ensures
            r@ == 1,
    {
        U256([1, 0, 0, 0])
    }

    /// Trusted: calls `sp_core::U256::from` on a `u128`, and claims that the
    /// result is the same number, 256 bits wide.
    #[verifier::external_body]
    pub(crate) fn from_u128(value: u128) -> (r: U256)
        ensures
            r@ == value,
    {
        U256(sp_core::U256::from(value).0)
    }

    /// Trusted: calls `sp_core::U256::saturating_add`, and claims that the
    /// result is the sum of the two numbers, or the largest 256-bit number where
    /// the sum is larger than that.
    #[verifier::external_body]
    pub(crate) fn saturating_add(self, other: U256) -> (r: U256)
        ensures
            r@ == if self@ + other@ <= max_value() {
                self@ + other@
            } else {
                max_value()
            },
    {
        U256(sp_core::U256(self.0).saturating_add(sp_core::U256(other.0)).0)
    }

    /// Trusted: calls `sp_core::U256::saturating_sub`, and claims that the
    /// result is the difference of the two numbers, or 0 where `other` is the
    /// larger one.
    #[verifier::external_body]
    pub(crate) fn saturating_sub(self, other: U256) -> (r: U256)
        ensures
            r@ == if other@ <= self@ {
                self@ - other@
            } else {
                0
            },
    {
        U256(sp_core::U256(self.0).saturating_sub(sp_core::U256(other.0)).0)
    }

    /// Trusted: calls `sp_core::U256::to_big_endian`, and claims that the
    /// result is the 32 bytes that write the number with the most significant
    /// byte first.
    #[verifier::external_body]
    pub(crate) fn to_big_endian(&self) -> (r: [u8; 32])
        ensures
            r@ == big_endian(self@, 32),
    {
        sp_core::U256(self.0).to_big_endian()
    }
}

} // verus!
