//! Fixed-width byte values: hashes, addresses and signatures.

use vstd::prelude::*;

verus! {

/// A value of exactly `N` bytes, most significant byte first.
#[derive(Clone, Copy, Debug)]
pub struct FixedBytes<const N: usize> {
    pub bytes: [u8; N],
}

/// A 32-byte hash, message identifier or contract address.
pub type H256 = FixedBytes<32>;

/// A 20-byte validator address.
pub type H160 = FixedBytes<20>;

/// A 65-byte recoverable signature.
pub type Signature = FixedBytes<65>;

impl<const N: usize> View for FixedBytes<N> {
    type V = Seq<u8>;

    open spec fn view(&self) -> Seq<u8> {
        self.bytes@
    }
}

impl<const N: usize> FixedBytes<N> {
    /// Two values with the same bytes are the same value.
    pub broadcast proof fn lemma_view_injective(a: Self, b: Self)
        ensures
            (#[trigger] a@ == #[trigger] b@) <==> a == b,
    {
        if a@ == b@ {
            assert(a.bytes =~= b.bytes);
        }
    }

    /// The value whose bytes are all zero.
    pub fn zero() -> (out: Self)
        ensures
            out@ == Seq::new(N as nat, |i: int| 0u8),
    {
        FixedBytes { bytes: [0u8; N] }
    }

    /// Wraps `bytes`.
    pub fn from_bytes(bytes: [u8; N]) -> (out: Self)
        ensures
            out@ == bytes@,
    {
        FixedBytes { bytes }
    }
}

impl<const N: usize> PartialEq for FixedBytes<N> {
    /// Byte-wise comparison.
    fn eq(&self, other: &Self) -> (r: bool) {
        let mut i: usize = 0;
        while i < N
            invariant
                i <= N,
                forall|j: int| 0 <= j < i ==> self.bytes[j] == other.bytes[j],
            decreases N - i,
        {
            if self.bytes[i] != other.bytes[i] {
                return false;
            }
            i += 1;
        }
        assert(self.bytes =~= other.bytes);
        true
    }
}

impl<const N: usize> Eq for FixedBytes<N> {

}

impl<const N: usize> vstd::std_specs::cmp::PartialEqSpecImpl for FixedBytes<N> {
    open spec fn obeys_eq_spec() -> bool {
        true
    }

    open spec fn eq_spec(&self, other: &Self) -> bool {
        *self == *other
    }
}

} // verus!
