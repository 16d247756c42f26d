//! Hashes, block numbers and block identifiers.

use vstd::prelude::*;
use vstd::std_specs::cmp::PartialEqSpecImpl;
use std::ops::{BitAnd, BitOr};

verus! {

/// Number of a block.
pub type BlockNumber = u64;

/// A byte string, as the sequence of its bytes.
pub type Bytes = Seq<u8>;

/// A list, as the sequence of its items.
pub type List<T> = Seq<T>;

/// A list of byte strings, in order.
pub type Items = List<Bytes>;

/// A list of pairs of byte strings, in order.
pub type Pairs = List<(Bytes, Bytes)>;

/// A text, as the sequence of its characters.
pub type Text = Seq<char>;

/// A 256-bit hash.
#[derive(Clone, Copy, Debug, Hash, Eq)]
pub struct H256(pub [u8; 32]);

/// Hash of a block header.
pub type HeaderHash = H256;

impl View for H256 {
    type V = Seq<u8>;

    open spec fn view(&self) -> Seq<u8> {
        self.0@
    }
}

impl PartialEq for H256 {
    fn eq(&self, other: &Self) -> (r: bool) {
        let mut i: usize = 0;
        while i < 32
            invariant
                i <= 32,
                forall|j: int| 0 <= j < i ==> self.0@[j] == other.0@[j],
            decreases 32 - i,
        {
            if self.0[i] != other.0[i] {
                return false;
            }
            i += 1;
        }
        assert(self.0@ =~= other.0@);
        true
    }
}

impl PartialEqSpecImpl for H256 {
    open spec fn obeys_eq_spec() -> bool {
        true
    }

    open spec fn eq_spec(&self, other: &Self) -> bool {
        self@ == other@
    }
}

impl Default for H256 {
    /// The hash whose bytes are all zero.
    fn default() -> (h: H256)
        ensures
            h@ == Seq::new(32, |i: int| 0u8),
    {
        H256::zero()
    }
}

impl H256 {
    /// Two hashes with the same bytes are the same hash.
    pub proof fn view_injective(a: H256, b: H256)
        ensures
            a@ == b@ <==> a == b,
    {
        if a@ == b@ {
            assert(a.0@ =~= b.0@);
            assert(a.0 == b.0);
        }
    }

    /// The hash whose bytes are all zero.
    pub fn zero() -> (h: H256)
        ensures
            h@ == Seq::new(32, |i: int| 0u8),
    {
        let h = H256([0u8; 32]);
        assert(h@ =~= Seq::new(32, |i: int| 0u8));
        h
    }
}

/// The bytes of two hashes combined by bitwise or, byte by byte.
pub open spec fn bytes_or(a: Bytes, b: Bytes) -> Bytes {
    Seq::new(32, |i: int| a[i] | b[i])
}

/// The bytes of two hashes combined by bitwise and, byte by byte.
pub open spec fn bytes_and(a: Bytes, b: Bytes) -> Bytes {
    Seq::new(32, |i: int| a[i] & b[i])
}

/// The hash that holds the bitwise or of the bytes of two hashes.
pub open spec fn hash_or(a: H256, b: H256) -> H256 {
    choose|h: H256| h@ == bytes_or(a@, b@)
}

/// The hash that holds the bitwise and of the bytes of two hashes.
pub open spec fn hash_and(a: H256, b: H256) -> H256 {
    choose|h: H256| h@ == bytes_and(a@, b@)
}

impl vstd::std_specs::ops::BitOrSpecImpl for H256 {
    open spec fn obeys_bitor_spec() -> bool {
        true
    }

    open spec fn bitor_req(self, rhs: H256) -> bool {
        true
    }

    open spec fn bitor_spec(self, rhs: H256) -> H256 {
        hash_or(self, rhs)
    }
}

impl BitOr for H256 {
    type Output = H256;

    /// Combines two hashes by bitwise or, byte by byte.
    fn bitor(self, rhs: H256) -> (ret: H256)
        ensures
            ret@ == bytes_or(self@, rhs@),
    {
        let mut bytes = [0u8; 32];
        let mut i: usize = 0;
        while i < 32
            invariant
                i <= 32,
                forall|j: int| 0 <= j < i ==> bytes@[j] == self.0@[j] | rhs.0@[j],
            decreases 32 - i,
        {
            bytes[i] = self.0[i] | rhs.0[i];
            i += 1;
        }
        let ret = H256(bytes);
        proof {
            assert(ret@ =~= bytes_or(self@, rhs@));
            H256::view_injective(ret, hash_or(self, rhs));
        }
        ret
    }
}

impl vstd::std_specs::ops::BitAndSpecImpl for H256 {
    open spec fn obeys_bitand_spec() -> bool {
        true
    }

    open spec fn bitand_req(self, rhs: H256) -> bool {
        true
    }

    open spec fn bitand_spec(self, rhs: H256) -> H256 {
        hash_and(self, rhs)
    }
}

impl BitAnd for H256 {
    type Output = H256;

    /// Combines two hashes by bitwise and, byte by byte.
    fn bitand(self, rhs: H256) -> (ret: H256)
        ensures
            ret@ == bytes_and(self@, rhs@),
    {
        let mut bytes = [0u8; 32];
        let mut i: usize = 0;
        while i < 32
            invariant
                i <= 32,
                forall|j: int| 0 <= j < i ==> bytes@[j] == self.0@[j] & rhs.0@[j],
            decreases 32 - i,
        {
            bytes[i] = self.0[i] & rhs.0[i];
            i += 1;
        }
        let ret = H256(bytes);
        proof {
            assert(ret@ =~= bytes_and(self@, rhs@));
            H256::view_injective(ret, hash_and(self, rhs));
        }
        ret
    }
}

/// Names a block by its hash or by its number.
#[derive(Clone, Copy, Debug, Hash, Eq)]
pub enum BlockId {
    /// The block with this header hash.
    Hash(HeaderHash),
    /// The canonical block with this number.
    Number(BlockNumber),
}

impl PartialEq for BlockId {
    fn eq(&self, other: &Self) -> (r: bool) {
        match (self, other) {
            (BlockId::Hash(a), BlockId::Hash(b)) => {
                proof {
                    H256::view_injective(*a, *b);
                }
                a == b
            },
            (BlockId::Number(a), BlockId::Number(b)) => *a == *b,
            _ => false,
        }
    }
}

impl PartialEqSpecImpl for BlockId {
    open spec fn obeys_eq_spec() -> bool {
        true
    }

    open spec fn eq_spec(&self, other: &Self) -> bool {
        *self == *other
    }
}

} // verus!
