//! Unsigned 256-bit integers, held as 32 big-endian bytes.

use vstd::arithmetic::power::pow;
use vstd::prelude::*;

verus! {

/// The number that a sequence of bytes denotes when read big-endian.
pub open spec fn be_value(bytes: Seq<u8>) -> nat
    decreases bytes.len(),
{
    if bytes.len() == 0 {
        0
    } else {
        be_value(bytes.drop_last()) * 256 + bytes.last() as nat
    }
}

/// Zero bytes in front do not change the number.
pub proof fn lemma_be_value_leading_zeros(zeros: Seq<u8>, rest: Seq<u8>)
    requires
        forall|i: int| 0 <= i < zeros.len() ==> zeros[i] == 0,
    ensures
        be_value(zeros + rest) == be_value(rest),
    decreases rest.len(),
{
    if rest.len() == 0 {
        assert(zeros + rest =~= zeros);
        lemma_be_value_zeros(zeros);
    } else {
        assert((zeros + rest).drop_last() =~= zeros + rest.drop_last());
        lemma_be_value_leading_zeros(zeros, rest.drop_last());
    }
}

/// A sequence of zero bytes denotes zero.
pub proof fn lemma_be_value_zeros(zeros: Seq<u8>)
    requires
        forall|i: int| 0 <= i < zeros.len() ==> zeros[i] == 0,
    ensures
        be_value(zeros) == 0,
    decreases zeros.len(),
{
    if zeros.len() > 0 {
        lemma_be_value_zeros(zeros.drop_last());
    }
}

/// `n` bytes denote a number below `256` to the power of `n`.
pub proof fn lemma_be_value_bound(bytes: Seq<u8>)
    ensures
        be_value(bytes) < pow(256, bytes.len()),
    decreases bytes.len(),
{
    reveal(pow);
    if bytes.len() > 0 {
        lemma_be_value_bound(bytes.drop_last());
    }
}

/// Two sequences of one length that denote the same number are the same.
pub proof fn lemma_be_value_injective(a: Seq<u8>, b: Seq<u8>)
    requires
        a.len() == b.len(),
        be_value(a) == be_value(b),
    ensures
        a == b,
    decreases a.len(),
{
    if a.len() > 0 {
        lemma_be_value_injective(a.drop_last(), b.drop_last());
        assert(a =~= a.drop_last().push(a.last()));
        assert(b =~= b.drop_last().push(b.last()));
    }
    assert(a =~= b);
}

/// An unsigned 256-bit integer. Its view is the number it holds.
#[derive(Clone, Copy, Debug, PartialEq, Eq)]
pub struct Uint256 {
    pub(crate) bytes: [u8; 32],
}

impl View for Uint256 {
    type V = nat;

    closed spec fn view(&self) -> nat {
        be_value(self.bytes@)
    }
}

impl Uint256 {
    /// The number is below `256` to the power of `32`.
    pub proof fn lemma_in_range(self)
        ensures
            self@ < pow(256, 32),
    {
        lemma_be_value_bound(self.bytes@);
    }

    /// Two numbers with the same view are the same.
    pub proof fn lemma_view_injective(self, other: Uint256)
        requires
            self@ == other@,
        ensures
            self == other,
    {
        lemma_be_value_injective(self.bytes@, other.bytes@);
        assert(self.bytes =~= other.bytes);
    }

    /// The number that 32 big-endian bytes denote.
    pub fn from_be_bytes(bytes: [u8; 32]) -> (n: Uint256)
        ensures
            n@ == be_value(bytes@),
    {
        Uint256 { bytes }
    }

    /// The 32 big-endian bytes of the number.
    pub fn to_be_bytes(&self) -> (bytes: [u8; 32])
        ensures
            be_value(bytes@) == self@,
    {
        self.bytes
    }

    /// The number `x`, widened to 256 bits.
    pub fn from_u32(x: u32) -> (n: Uint256)
        ensures
            n@ == x,
    {
        let mut bytes: [u8; 32] = [0u8; 32];
        bytes[28] = (x / 0x100_0000) as u8;
        bytes[29] = (x / 0x1_0000 % 0x100) as u8;
        bytes[30] = (x / 0x100 % 0x100) as u8;
        bytes[31] = (x % 0x100) as u8;
        proof {
            let zeros = bytes@.subrange(0, 28);
            let low = bytes@.subrange(28, 32);
            assert(bytes@ =~= zeros + low);
            lemma_be_value_leading_zeros(zeros, low);
            reveal_with_fuel(be_value, 5);
            assert(low.drop_last().drop_last().drop_last().drop_last().len() == 0);
            assert(be_value(low) == x);
        }
        Uint256 { bytes }
    }
}

} // verus!
