//! Explicit conversions between the integer types: every pair of them, in both
//! directions. A value that does not fit in the destination type is truncated to it.

use vstd::prelude::*;
use crate::traits::As;

verus! {

impl As<u8> for u8 {
    open spec fn spec_as(self) -> u8 {
        self as u8
    }

    open spec fn spec_sa(t: u8) -> u8 {
        t as u8
    }

    fn as_(self) -> (t: u8) {
        #[verifier::truncate]
        (self as u8)
    }

    fn sa(t: u8) -> (s: u8) {
        #[verifier::truncate]
        (t as u8)
    }
}

impl As<u16> for u8 {
    open spec fn spec_as(self) -> u16 {
        self as u16
    }

    open spec fn spec_sa(t: u16) -> u8 {
        t as u8
    }

    fn as_(self) -> (t: u16) {
        #[verifier::truncate]
        (self as u16)
    }

    fn sa(t: u16) -> (s: u8) {
        #[verifier::truncate]
        (t as u8)
    }
}

impl As<u32> for u8 {
    open spec fn spec_as(self) -> u32 {
        self as u32
    }

    open spec fn spec_sa(t: u32) -> u8 {
        t as u8
    }

    fn as_(self) -> (t: u32) {
        #[verifier::truncate]
        (self as u32)
    }

    fn sa(t: u32) -> (s: u8) {
        #[verifier::truncate]
        (t as u8)
    }
}

impl As<u64> for u8 {
    open spec fn spec_as(self) -> u64 {
        self as u64
    }

    open spec fn spec_sa(t: u64) -> u8 {
        t as u8
    }

    fn as_(self) -> (t: u64) {
        #[verifier::truncate]
        (self as u64)
    }

    fn sa(t: u64) -> (s: u8) {
        #[verifier::truncate]
        (t as u8)
    }
}

impl As<u128> for u8 {
    open spec fn spec_as(self) -> u128 {
        self as u128
    }

    open spec fn spec_sa(t: u128) -> u8 {
        t as u8
    }

    fn as_(self) -> (t: u128) {
        #[verifier::truncate]
        (self as u128)
    }

    fn sa(t: u128) -> (s: u8) {
        #[verifier::truncate]
        (t as u8)
    }
}

impl As<usize> for u8 {
    open spec fn spec_as(self) -> usize {
        self as usize
    }

    open spec fn spec_sa(t: usize) -> u8 {
        t as u8
    }

    fn as_(self) -> (t: usize) {
        #[verifier::truncate]
        (self as usize)
    }

    fn sa(t: usize) -> (s: u8) {
        #[verifier::truncate]
        (t as u8)
    }
}

impl As<i8> for u8 {
    open spec fn spec_as(self) -> i8 {
        self as i8
    }

    open spec fn spec_sa(t: i8) -> u8 {
        t as u8
    }

    fn as_(self) -> (t: i8) {
        #[verifier::truncate]
        (self as i8)
    }

    fn sa(t: i8) -> (s: u8) {
        #[verifier::truncate]
        (t as u8)
    }
}

impl As<i16> for u8 {
    open spec fn spec_as(self) -> i16 {
        self as i16
    }

    open spec fn spec_sa(t: i16) -> u8 {
        t as u8
    }

    fn as_(self) -> (t: i16) {
        #[verifier::truncate]
        (self as i16)
    }

    fn sa(t: i16) -> (s: u8) {
        #[verifier::truncate]
        (t as u8)
    }
}

impl As<i32> for u8 {
    open spec fn spec_as(self) -> i32 {
        self as i32
    }

    open spec fn spec_sa(t: i32) -> u8 {
        t as u8
    }

    fn as_(self) -> (t: i32) {
        #[verifier::truncate]
        (self as i32)
    }

    fn sa(t: i32) -> (s: u8) {
        #[verifier::truncate]
        (t as u8)
    }
}

impl As<i64> for u8 {
    open spec fn spec_as(self) -> i64 {
        self as i64
    }

    open spec fn spec_sa(t: i64) -> u8 {
        t as u8
    }

    fn as_(self) -> (t: i64) {
        #[verifier::truncate]
        (self as i64)
    }

    fn sa(t: i64) -> (s: u8) {
        #[verifier::truncate]
        (t as u8)
    }
}

impl As<i128> for u8 {
    open spec fn spec_as(self) -> i128 {
        self as i128
    }

    open spec fn spec_sa(t: i128) -> u8 {
        t as u8
    }

    fn as_(self) -> (t: i128) {
        #[verifier::truncate]
        (self as i128)
    }

    fn sa(t: i128) -> (s: u8) {
        #[verifier::truncate]
        (t as u8)
    }
}

impl As<isize> for u8 {
    open spec fn spec_as(self) -> isize {
        self as isize
    }

    open spec fn spec_sa(t: isize) -> u8 {
        t as u8
    }

    fn as_(self) -> (t: isize) {
        #[verifier::truncate]
        (self as isize)
    }

    fn sa(t: isize) -> (s: u8) {
        #[verifier::truncate]
        (t as u8)
    }
}

impl As<u8> for u16 {
    open spec fn spec_as(self) -> u8 {
        self as u8
    }

    open spec fn spec_sa(t: u8) -> u16 {
        t as u16
    }

    fn as_(self) -> (t: u8) {
        #[verifier::truncate]
        (self as u8)
    }

    fn sa(t: u8) -> (s: u16) {
        #[verifier::truncate]
        (t as u16)
    }
}

impl As<u16> for u16 {
    open spec fn spec_as(self) -> u16 {
        self as u16
    }

    open spec fn spec_sa(t: u16) -> u16 {
        t as u16
    }

    fn as_(self) -> (t: u16) {
        #[verifier::truncate]
        (self as u16)
    }

    fn sa(t: u16) -> (s: u16) {
        #[verifier::truncate]
        (t as u16)
    }
}

impl As<u32> for u16 {
    open spec fn spec_as(self) -> u32 {
        self as u32
    }

    open spec fn spec_sa(t: u32) -> u16 {
        t as u16
    }

    fn as_(self) -> (t: u32) {
        #[verifier::truncate]
        (self as u32)
    }

    fn sa(t: u32) -> (s: u16) {
        #[verifier::truncate]
        (t as u16)
    }
}

impl As<u64> for u16 {
    open spec fn spec_as(self) -> u64 {
        self as u64
    }

    open spec fn spec_sa(t: u64) -> u16 {
        t as u16
    }

    fn as_(self) -> (t: u64) {
        #[verifier::truncate]
        (self as u64)
    }

    fn sa(t: u64) -> (s: u16) {
        #[verifier::truncate]
        (t as u16)
    }
}

impl As<u128> for u16 {
    open spec fn spec_as(self) -> u128 {
        self as u128
    }

    open spec fn spec_sa(t: u128) -> u16 {
        t as u16
    }

    fn as_(self) -> (t: u128) {
        #[verifier::truncate]
        (self as u128)
    }

    fn sa(t: u128) -> (s: u16) {
        #[verifier::truncate]
        (t as u16)
    }
}

impl As<usize> for u16 {
    open spec fn spec_as(self) -> usize {
        self as usize
    }

    open spec fn spec_sa(t: usize) -> u16 {
        t as u16
    }

    fn as_(self) -> (t: usize) {
        #[verifier::truncate]
        (self as usize)
    }

    fn sa(t: usize) -> (s: u16) {
        #[verifier::truncate]
        (t as u16)
    }
}

impl As<i8> for u16 {
    open spec fn spec_as(self) -> i8 {
        self as i8
    }

    open spec fn spec_sa(t: i8) -> u16 {
        t as u16
    }

    fn as_(self) -> (t: i8) {
        #[verifier::truncate]
        (self as i8)
    }

    fn sa(t: i8) -> (s: u16) {
        #[verifier::truncate]
        (t as u16)
    }
}

impl As<i16> for u16 {
    open spec fn spec_as(self) -> i16 {
        self as i16
    }

    open spec fn spec_sa(t: i16) -> u16 {
        t as u16
    }

    fn as_(self) -> (t: i16) {
        #[verifier::truncate]
        (self as i16)
    }

    fn sa(t: i16) -> (s: u16) {
        #[verifier::truncate]
        (t as u16)
    }
}

impl As<i32> for u16 {
    open spec fn spec_as(self) -> i32 {
        self as i32
    }

    open spec fn spec_sa(t: i32) -> u16 {
        t as u16
    }

    fn as_(self) -> (t: i32) {
        #[verifier::truncate]
        (self as i32)
    }

    fn sa(t: i32) -> (s: u16) {
        #[verifier::truncate]
        (t as u16)
    }
}

impl As<i64> for u16 {
    open spec fn spec_as(self) -> i64 {
        self as i64
    }

    open spec fn spec_sa(t: i64) -> u16 {
        t as u16
    }

    fn as_(self) -> (t: i64) {
        #[verifier::truncate]
        (self as i64)
    }

    fn sa(t: i64) -> (s: u16) {
        #[verifier::truncate]
        (t as u16)
    }
}

impl As<i128> for u16 {
    open spec fn spec_as(self) -> i128 {
        self as i128
    }

    open spec fn spec_sa(t: i128) -> u16 {
        t as u16
    }

    fn as_(self) -> (t: i128) {
        #[verifier::truncate]
        (self as i128)
    }

    fn sa(t: i128) -> (s: u16) {
        #[verifier::truncate]
        (t as u16)
    }
}

impl As<isize> for u16 {
    open spec fn spec_as(self) -> isize {
        self as isize
    }

    open spec fn spec_sa(t: isize) -> u16 {
        t as u16
    }

    fn as_(self) -> (t: isize) {
        #[verifier::truncate]
        (self as isize)
    }

    fn sa(t: isize) -> (s: u16) {
        #[verifier::truncate]
        (t as u16)
    }
}

impl As<u8> for u32 {
    open spec fn spec_as(self) -> u8 {
        self as u8
    }

    open spec fn spec_sa(t: u8) -> u32 {
        t as u32
    }

    fn as_(self) -> (t: u8) {
        #[verifier::truncate]
        (self as u8)
    }

    fn sa(t: u8) -> (s: u32) {
        #[verifier::truncate]
        (t as u32)
    }
}

impl As<u16> for u32 {
    open spec fn spec_as(self) -> u16 {
        self as u16
    }

    open spec fn spec_sa(t: u16) -> u32 {
        t as u32
    }

    fn as_(self) -> (t: u16) {
        #[verifier::truncate]
        (self as u16)
    }

    fn sa(t: u16) -> (s: u32) {
        #[verifier::truncate]
        (t as u32)
    }
}

impl As<u32> for u32 {
    open spec fn spec_as(self) -> u32 {
        self as u32
    }

    open spec fn spec_sa(t: u32) -> u32 {
        t as u32
    }

    fn as_(self) -> (t: u32) {
        #[verifier::truncate]
        (self as u32)
    }

    fn sa(t: u32) -> (s: u32) {
        #[verifier::truncate]
        (t as u32)
    }
}

impl As<u64> for u32 {
    open spec fn spec_as(self) -> u64 {
        self as u64
    }

    open spec fn spec_sa(t: u64) -> u32 {
        t as u32
    }

    fn as_(self) -> (t: u64) {
        #[verifier::truncate]
        (self as u64)
    }

    fn sa(t: u64) -> (s: u32) {
        #[verifier::truncate]
        (t as u32)
    }
}

impl As<u128> for u32 {
    open spec fn spec_as(self) -> u128 {
        self as u128
    }

    open spec fn spec_sa(t: u128) -> u32 {
        t as u32
    }

    fn as_(self) -> (t: u128) {
        #[verifier::truncate]
        (self as u128)
    }

    fn sa(t: u128) -> (s: u32) {
        #[verifier::truncate]
        (t as u32)
    }
}

impl As<usize> for u32 {
    open spec fn spec_as(self) -> usize {
        self as usize
    }

    open spec fn spec_sa(t: usize) -> u32 {
        t as u32
    }

    fn as_(self) -> (t: usize) {
        #[verifier::truncate]
        (self as usize)
    }

    fn sa(t: usize) -> (s: u32) {
        #[verifier::truncate]
        (t as u32)
    }
}

impl As<i8> for u32 {
    open spec fn spec_as(self) -> i8 {
        self as i8
    }

    open spec fn spec_sa(t: i8) -> u32 {
        t as u32
    }

    fn as_(self) -> (t: i8) {
        #[verifier::truncate]
        (self as i8)
    }

    fn sa(t: i8) -> (s: u32) {
        #[verifier::truncate]
        (t as u32)
    }
}

impl As<i16> for u32 {
    open spec fn spec_as(self) -> i16 {
        self as i16
    }

    open spec fn spec_sa(t: i16) -> u32 {
        t as u32
    }

    fn as_(self) -> (t: i16) {
        #[verifier::truncate]
        (self as i16)
    }

    fn sa(t: i16) -> (s: u32) {
        #[verifier::truncate]
        (t as u32)
    }
}

impl As<i32> for u32 {
    open spec fn spec_as(self) -> i32 {
        self as i32
    }

    open spec fn spec_sa(t: i32) -> u32 {
        t as u32
    }

    fn as_(self) -> (t: i32) {
        #[verifier::truncate]
        (self as i32)
    }

    fn sa(t: i32) -> (s: u32) {
        #[verifier::truncate]
        (t as u32)
    }
}

impl As<i64> for u32 {
    open spec fn spec_as(self) -> i64 {
        self as i64
    }

    open spec fn spec_sa(t: i64) -> u32 {
        t as u32
    }

    fn as_(self) -> (t: i64) {
        #[verifier::truncate]
        (self as i64)
    }

    fn sa(t: i64) -> (s: u32) {
        #[verifier::truncate]
        (t as u32)
    }
}

impl As<i128> for u32 {
    open spec fn spec_as(self) -> i128 {
        self as i128
    }

    open spec fn spec_sa(t: i128) -> u32 {
        t as u32
    }

    fn as_(self) -> (t: i128) {
        #[verifier::truncate]
        (self as i128)
    }

    fn sa(t: i128) -> (s: u32) {
        #[verifier::truncate]
        (t as u32)
    }
}

impl As<isize> for u32 {
    open spec fn spec_as(self) -> isize {
        self as isize
    }

    open spec fn spec_sa(t: isize) -> u32 {
        t as u32
    }

    fn as_(self) -> (t: isize) {
        #[verifier::truncate]
        (self as isize)
    }

    fn sa(t: isize) -> (s: u32) {
        #[verifier::truncate]
        (t as u32)
    }
}

impl As<u8> for u64 {
    open spec fn spec_as(self) -> u8 {
        self as u8
    }

    open spec fn spec_sa(t: u8) -> u64 {
        t as u64
    }

    fn as_(self) -> (t: u8) {
        #[verifier::truncate]
        (self as u8)
    }

    fn sa(t: u8) -> (s: u64) {
        #[verifier::truncate]
        (t as u64)
    }
}

impl As<u16> for u64 {
    open spec fn spec_as(self) -> u16 {
        self as u16
    }

    open spec fn spec_sa(t: u16) -> u64 {
        t as u64
    }

    fn as_(self) -> (t: u16) {
        #[verifier::truncate]
        (self as u16)
    }

    fn sa(t: u16) -> (s: u64) {
        #[verifier::truncate]
        (t as u64)
    }
}

impl As<u32> for u64 {
    open spec fn spec_as(self) -> u32 {
        self as u32
    }

    open spec fn spec_sa(t: u32) -> u64 {
        t as u64
    }

    fn as_(self) -> (t: u32) {
        #[verifier::truncate]
        (self as u32)
    }

    fn sa(t: u32) -> (s: u64) {
        #[verifier::truncate]
        (t as u64)
    }
}

impl As<u64> for u64 {
    open spec fn spec_as(self) -> u64 {
        self as u64
    }

    open spec fn spec_sa(t: u64) -> u64 {
        t as u64
    }

    fn as_(self) -> (t: u64) {
        #[verifier::truncate]
        (self as u64)
    }

    fn sa(t: u64) -> (s: u64) {
        #[verifier::truncate]
        (t as u64)
    }
}

impl As<u128> for u64 {
    open spec fn spec_as(self) -> u128 {
        self as u128
    }

    open spec fn spec_sa(t: u128) -> u64 {
        t as u64
    }

    fn as_(self) -> (t: u128) {
        #[verifier::truncate]
        (self as u128)
    }

    fn sa(t: u128) -> (s: u64) {
        #[verifier::truncate]
        (t as u64)
    }
}

impl As<usize> for u64 {
    open spec fn spec_as(self) -> usize {
        self as usize
    }

    open spec fn spec_sa(t: usize) -> u64 {
        t as u64
    }

    fn as_(self) -> (t: usize) {
        #[verifier::truncate]
        (self as usize)
    }

    fn sa(t: usize) -> (s: u64) {
        #[verifier::truncate]
        (t as u64)
    }
}

impl As<i8> for u64 {
    open spec fn spec_as(self) -> i8 {
        self as i8
    }

    open spec fn spec_sa(t: i8) -> u64 {
        t as u64
    }

    fn as_(self) -> (t: i8) {
        #[verifier::truncate]
        (self as i8)
    }

    fn sa(t: i8) -> (s: u64) {
        #[verifier::truncate]
        (t as u64)
    }
}

impl As<i16> for u64 {
    open spec fn spec_as(self) -> i16 {
        self as i16
    }

    open spec fn spec_sa(t: i16) -> u64 {
        t as u64
    }

    fn as_(self) -> (t: i16) {
        #[verifier::truncate]
        (self as i16)
    }

    fn sa(t: i16) -> (s: u64) {
        #[verifier::truncate]
        (t as u64)
    }
}

impl As<i32> for u64 {
    open spec fn spec_as(self) -> i32 {
        self as i32
    }

    open spec fn spec_sa(t: i32) -> u64 {
        t as u64
    }

    fn as_(self) -> (t: i32) {
        #[verifier::truncate]
        (self as i32)
    }

    fn sa(t: i32) -> (s: u64) {
        #[verifier::truncate]
        (t as u64)
    }
}

impl As<i64> for u64 {
    open spec fn spec_as(self) -> i64 {
        self as i64
    }

    open spec fn spec_sa(t: i64) -> u64 {
        t as u64
    }

    fn as_(self) -> (t: i64) {
        #[verifier::truncate]
        (self as i64)
    }

    fn sa(t: i64) -> (s: u64) {
        #[verifier::truncate]
        (t as u64)
    }
}

impl As<i128> for u64 {
    open spec fn spec_as(self) -> i128 {
        self as i128
    }

    open spec fn spec_sa(t: i128) -> u64 {
        t as u64
    }

    fn as_(self) -> (t: i128) {
        #[verifier::truncate]
        (self as i128)
    }

    fn sa(t: i128) -> (s: u64) {
        #[verifier::truncate]
        (t as u64)
    }
}

impl As<isize> for u64 {
    open spec fn spec_as(self) -> isize {
        self as isize
    }

    open spec fn spec_sa(t: isize) -> u64 {
        t as u64
    }

    fn as_(self) -> (t: isize) {
        #[verifier::truncate]
        (self as isize)
    }

    fn sa(t: isize) -> (s: u64) {
        #[verifier::truncate]
        (t as u64)
    }
}

impl As<u8> for u128 {
    open spec fn spec_as(self) -> u8 {
        self as u8
    }

    open spec fn spec_sa(t: u8) -> u128 {
        t as u128
    }

    fn as_(self) -> (t: u8) {
        #[verifier::truncate]
        (self as u8)
    }

    fn sa(t: u8) -> (s: u128) {
        #[verifier::truncate]
        (t as u128)
    }
}

impl As<u16> for u128 {
    open spec fn spec_as(self) -> u16 {
        self as u16
    }

    open spec fn spec_sa(t: u16) -> u128 {
        t as u128
    }

    fn as_(self) -> (t: u16) {
        #[verifier::truncate]
        (self as u16)
    }

    fn sa(t: u16) -> (s: u128) {
        #[verifier::truncate]
        (t as u128)
    }
}

impl As<u32> for u128 {
    open spec fn spec_as(self) -> u32 {
        self as u32
    }

    open spec fn spec_sa(t: u32) -> u128 {
        t as u128
    }

    fn as_(self) -> (t: u32) {
        #[verifier::truncate]
        (self as u32)
    }

    fn sa(t: u32) -> (s: u128) {
        #[verifier::truncate]
        (t as u128)
    }
}

impl As<u64> for u128 {
    open spec fn spec_as(self) -> u64 {
        self as u64
    }

    open spec fn spec_sa(t: u64) -> u128 {
        t as u128
    }

    fn as_(self) -> (t: u64) {
        #[verifier::truncate]
        (self as u64)
    }

    fn sa(t: u64) -> (s: u128) {
        #[verifier::truncate]
        (t as u128)
    }
}

impl As<u128> for u128 {
    open spec fn spec_as(self) -> u128 {
        self as u128
    }

    open spec fn spec_sa(t: u128) -> u128 {
        t as u128
    }

    fn as_(self) -> (t: u128) {
        #[verifier::truncate]
        (self as u128)
    }

    fn sa(t: u128) -> (s: u128) {
        #[verifier::truncate]
        (t as u128)
    }
}

impl As<usize> for u128 {
    open spec fn spec_as(self) -> usize {
        self as usize
    }

    open spec fn spec_sa(t: usize) -> u128 {
        t as u128
    }

    fn as_(self) -> (t: usize) {
        #[verifier::truncate]
        (self as usize)
    }

    fn sa(t: usize) -> (s: u128) {
        #[verifier::truncate]
        (t as u128)
    }
}

impl As<i8> for u128 {
    open spec fn spec_as(self) -> i8 {
        self as i8
    }

    open spec fn spec_sa(t: i8) -> u128 {
        t as u128
    }

    fn as_(self) -> (t: i8) {
        #[verifier::truncate]
        (self as i8)
    }

    fn sa(t: i8) -> (s: u128) {
        #[verifier::truncate]
        (t as u128)
    }
}

impl As<i16> for u128 {
    open spec fn spec_as(self) -> i16 {
        self as i16
    }

    open spec fn spec_sa(t: i16) -> u128 {
        t as u128
    }

    fn as_(self) -> (t: i16) {
        #[verifier::truncate]
        (self as i16)
    }

    fn sa(t: i16) -> (s: u128) {
        #[verifier::truncate]
        (t as u128)
    }
}

impl As<i32> for u128 {
    open spec fn spec_as(self) -> i32 {
        self as i32
    }

    open spec fn spec_sa(t: i32) -> u128 {
        t as u128
    }

    fn as_(self) -> (t: i32) {
        #[verifier::truncate]
        (self as i32)
    }

    fn sa(t: i32) -> (s: u128) {
        #[verifier::truncate]
        (t as u128)
    }
}

impl As<i64> for u128 {
    open spec fn spec_as(self) -> i64 {
        self as i64
    }

    open spec fn spec_sa(t: i64) -> u128 {
        t as u128
    }

    fn as_(self) -> (t: i64) {
        #[verifier::truncate]
        (self as i64)
    }

    fn sa(t: i64) -> (s: u128) {
        #[verifier::truncate]
        (t as u128)
    }
}

impl As<i128> for u128 {
    open spec fn spec_as(self) -> i128 {
        self as i128
    }

    open spec fn spec_sa(t: i128) -> u128 {
        t as u128
    }

    fn as_(self) -> (t: i128) {
        #[verifier::truncate]
        (self as i128)
    }

    fn sa(t: i128) -> (s: u128) {
        #[verifier::truncate]
        (t as u128)
    }
}

impl As<isize> for u128 {
    open spec fn spec_as(self) -> isize {
        self as isize
    }

    open spec fn spec_sa(t: isize) -> u128 {
        t as u128
    }

    fn as_(self) -> (t: isize) {
        #[verifier::truncate]
        (self as isize)
    }

    fn sa(t: isize) -> (s: u128) {
        #[verifier::truncate]
        (t as u128)
    }
}

impl As<u8> for usize {
    open spec fn spec_as(self) -> u8 {
        self as u8
    }

    open spec fn spec_sa(t: u8) -> usize {
        t as usize
    }

    fn as_(self) -> (t: u8) {
        #[verifier::truncate]
        (self as u8)
    }

    fn sa(t: u8) -> (s: usize) {
        #[verifier::truncate]
        (t as usize)
    }
}

impl As<u16> for usize {
    open spec fn spec_as(self) -> u16 {
        self as u16
    }

    open spec fn spec_sa(t: u16) -> usize {
        t as usize
    }

    fn as_(self) -> (t: u16) {
        #[verifier::truncate]
        (self as u16)
    }

    fn sa(t: u16) -> (s: usize) {
        #[verifier::truncate]
        (t as usize)
    }
}

impl As<u32> for usize {
    open spec fn spec_as(self) -> u32 {
        self as u32
    }

    open spec fn spec_sa(t: u32) -> usize {
        t as usize
    }

    fn as_(self) -> (t: u32) {
        #[verifier::truncate]
        (self as u32)
    }

    fn sa(t: u32) -> (s: usize) {
        #[verifier::truncate]
        (t as usize)
    }
}

impl As<u64> for usize {
    open spec fn spec_as(self) -> u64 {
        self as u64
    }

    open spec fn spec_sa(t: u64) -> usize {
        t as usize
    }

    fn as_(self) -> (t: u64) {
        #[verifier::truncate]
        (self as u64)
    }

    fn sa(t: u64) -> (s: usize) {
        #[verifier::truncate]
        (t as usize)
    }
}

impl As<u128> for usize {
    open spec fn spec_as(self) -> u128 {
        self as u128
    }

    open spec fn spec_sa(t: u128) -> usize {
        t as usize
    }

    fn as_(self) -> (t: u128) {
        #[verifier::truncate]
        (self as u128)
    }

    fn sa(t: u128) -> (s: usize) {
        #[verifier::truncate]
        (t as usize)
    }
}

impl As<usize> for usize {
    open spec fn spec_as(self) -> usize {
        self as usize
    }

    open spec fn spec_sa(t: usize) -> usize {
        t as usize
    }

    fn as_(self) -> (t: usize) {
        #[verifier::truncate]
        (self as usize)
    }

    fn sa(t: usize) -> (s: usize) {
        #[verifier::truncate]
        (t as usize)
    }
}

impl As<i8> for usize {
    open spec fn spec_as(self) -> i8 {
        self as i8
    }

    open spec fn spec_sa(t: i8) -> usize {
        t as usize
    }

    fn as_(self) -> (t: i8) {
        #[verifier::truncate]
        (self as i8)
    }

    fn sa(t: i8) -> (s: usize) {
        #[verifier::truncate]
        (t as usize)
    }
}

impl As<i16> for usize {
    open spec fn spec_as(self) -> i16 {
        self as i16
    }

    open spec fn spec_sa(t: i16) -> usize {
        t as usize
    }

    fn as_(self) -> (t: i16) {
        #[verifier::truncate]
        (self as i16)
    }

    fn sa(t: i16) -> (s: usize) {
        #[verifier::truncate]
        (t as usize)
    }
}

impl As<i32> for usize {
    open spec fn spec_as(self) -> i32 {
        self as i32
    }

    open spec fn spec_sa(t: i32) -> usize {
        t as usize
    }

    fn as_(self) -> (t: i32) {
        #[verifier::truncate]
        (self as i32)
    }

    fn sa(t: i32) -> (s: usize) {
        #[verifier::truncate]
        (t as usize)
    }
}

impl As<i64> for usize {
    open spec fn spec_as(self) -> i64 {
        self as i64
    }

    open spec fn spec_sa(t: i64) -> usize {
        t as usize
    }

    fn as_(self) -> (t: i64) {
        #[verifier::truncate]
        (self as i64)
    }

    fn sa(t: i64) -> (s: usize) {
        #[verifier::truncate]
        (t as usize)
    }
}

impl As<i128> for usize {
    open spec fn spec_as(self) -> i128 {
        self as i128
    }

    open spec fn spec_sa(t: i128) -> usize {
        t as usize
    }

    fn as_(self) -> (t: i128) {
        #[verifier::truncate]
        (self as i128)
    }

    fn sa(t: i128) -> (s: usize) {
        #[verifier::truncate]
        (t as usize)
    }
}

impl As<isize> for usize {
    open spec fn spec_as(self) -> isize {
        self as isize
    }

    open spec fn spec_sa(t: isize) -> usize {
        t as usize
    }

    fn as_(self) -> (t: isize) {
        #[verifier::truncate]
        (self as isize)
    }

    fn sa(t: isize) -> (s: usize) {
        #[verifier::truncate]
        (t as usize)
    }
}

impl As<u8> for i8 {
    open spec fn spec_as(self) -> u8 {
        self as u8
    }

    open spec fn spec_sa(t: u8) -> i8 {
        t as i8
    }

    fn as_(self) -> (t: u8) {
        #[verifier::truncate]
        (self as u8)
    }

    fn sa(t: u8) -> (s: i8) {
        #[verifier::truncate]
        (t as i8)
    }
}

impl As<u16> for i8 {
    open spec fn spec_as(self) -> u16 {
        self as u16
    }

    open spec fn spec_sa(t: u16) -> i8 {
        t as i8
    }

    fn as_(self) -> (t: u16) {
        #[verifier::truncate]
        (self as u16)
    }

    fn sa(t: u16) -> (s: i8) {
        #[verifier::truncate]
        (t as i8)
    }
}

impl As<u32> for i8 {
    open spec fn spec_as(self) -> u32 {
        self as u32
    }

    open spec fn spec_sa(t: u32) -> i8 {
        t as i8
    }

    fn as_(self) -> (t: u32) {
        #[verifier::truncate]
        (self as u32)
    }

    fn sa(t: u32) -> (s: i8) {
        #[verifier::truncate]
        (t as i8)
    }
}

impl As<u64> for i8 {
    open spec fn spec_as(self) -> u64 {
        self as u64
    }

    open spec fn spec_sa(t: u64) -> i8 {
        t as i8
    }

    fn as_(self) -> (t: u64) {
        #[verifier::truncate]
        (self as u64)
    }

    fn sa(t: u64) -> (s: i8) {
        #[verifier::truncate]
        (t as i8)
    }
}

impl As<u128> for i8 {
    open spec fn spec_as(self) -> u128 {
        self as u128
    }

    open spec fn spec_sa(t: u128) -> i8 {
        t as i8
    }

    fn as_(self) -> (t: u128) {
        #[verifier::truncate]
        (self as u128)
    }

    fn sa(t: u128) -> (s: i8) {
        #[verifier::truncate]
        (t as i8)
    }
}

impl As<usize> for i8 {
    open spec fn spec_as(self) -> usize {
        self as usize
    }

    open spec fn spec_sa(t: usize) -> i8 {
        t as i8
    }

    fn as_(self) -> (t: usize) {
        #[verifier::truncate]
        (self as usize)
    }

    fn sa(t: usize) -> (s: i8) {
        #[verifier::truncate]
        (t as i8)
    }
}

impl As<i8> for i8 {
    open spec fn spec_as(self) -> i8 {
        self as i8
    }

    open spec fn spec_sa(t: i8) -> i8 {
        t as i8
    }

    fn as_(self) -> (t: i8) {
        #[verifier::truncate]
        (self as i8)
    }

    fn sa(t: i8) -> (s: i8) {
        #[verifier::truncate]
        (t as i8)
    }
}

impl As<i16> for i8 {
    open spec fn spec_as(self) -> i16 {
        self as i16
    }

    open spec fn spec_sa(t: i16) -> i8 {
        t as i8
    }

    fn as_(self) -> (t: i16) {
        #[verifier::truncate]
        (self as i16)
    }

    fn sa(t: i16) -> (s: i8) {
        #[verifier::truncate]
        (t as i8)
    }
}

impl As<i32> for i8 {
    open spec fn spec_as(self) -> i32 {
        self as i32
    }

    open spec fn spec_sa(t: i32) -> i8 {
        t as i8
    }

    fn as_(self) -> (t: i32) {
        #[verifier::truncate]
        (self as i32)
    }

    fn sa(t: i32) -> (s: i8) {
        #[verifier::truncate]
        (t as i8)
    }
}

impl As<i64> for i8 {
    open spec fn spec_as(self) -> i64 {
        self as i64
    }

    open spec fn spec_sa(t: i64) -> i8 {
        t as i8
    }

    fn as_(self) -> (t: i64) {
        #[verifier::truncate]
        (self as i64)
    }

    fn sa(t: i64) -> (s: i8) {
        #[verifier::truncate]
        (t as i8)
    }
}

impl As<i128> for i8 {
    open spec fn spec_as(self) -> i128 {
        self as i128
    }

    open spec fn spec_sa(t: i128) -> i8 {
        t as i8
    }

    fn as_(self) -> (t: i128) {
        #[verifier::truncate]
        (self as i128)
    }

    fn sa(t: i128) -> (s: i8) {
        #[verifier::truncate]
        (t as i8)
    }
}

impl As<isize> for i8 {
    open spec fn spec_as(self) -> isize {
        self as isize
    }

    open spec fn spec_sa(t: isize) -> i8 {
        t as i8
    }

    fn as_(self) -> (t: isize) {
        #[verifier::truncate]
        (self as isize)
    }

    fn sa(t: isize) -> (s: i8) {
        #[verifier::truncate]
        (t as i8)
    }
}

impl As<u8> for i16 {
    open spec fn spec_as(self) -> u8 {
        self as u8
    }

    open spec fn spec_sa(t: u8) -> i16 {
        t as i16
    }

    fn as_(self) -> (t: u8) {
        #[verifier::truncate]
        (self as u8)
    }

    fn sa(t: u8) -> (s: i16) {
        #[verifier::truncate]
        (t as i16)
    }
}

impl As<u16> for i16 {
    open spec fn spec_as(self) -> u16 {
        self as u16
    }

    open spec fn spec_sa(t: u16) -> i16 {
        t as i16
    }

    fn as_(self) -> (t: u16) {
        #[verifier::truncate]
        (self as u16)
    }

    fn sa(t: u16) -> (s: i16) {
        #[verifier::truncate]
        (t as i16)
    }
}

impl As<u32> for i16 {
    open spec fn spec_as(self) -> u32 {
        self as u32
    }

    open spec fn spec_sa(t: u32) -> i16 {
        t as i16
    }

    fn as_(self) -> (t: u32) {
        #[verifier::truncate]
        (self as u32)
    }

    fn sa(t: u32) -> (s: i16) {
        #[verifier::truncate]
        (t as i16)
    }
}

impl As<u64> for i16 {
    open spec fn spec_as(self) -> u64 {
        self as u64
    }

    open spec fn spec_sa(t: u64) -> i16 {
        t as i16
    }

    fn as_(self) -> (t: u64) {
        #[verifier::truncate]
        (self as u64)
    }

    fn sa(t: u64) -> (s: i16) {
        #[verifier::truncate]
        (t as i16)
    }
}

impl As<u128> for i16 {
    open spec fn spec_as(self) -> u128 {
        self as u128
    }

    open spec fn spec_sa(t: u128) -> i16 {
        t as i16
    }

    fn as_(self) -> (t: u128) {
        #[verifier::truncate]
        (self as u128)
    }

    fn sa(t: u128) -> (s: i16) {
        #[verifier::truncate]
        (t as i16)
    }
}

impl As<usize> for i16 {
    open spec fn spec_as(self) -> usize {
        self as usize
    }

    open spec fn spec_sa(t: usize) -> i16 {
        t as i16
    }

    fn as_(self) -> (t: usize) {
        #[verifier::truncate]
        (self as usize)
    }

    fn sa(t: usize) -> (s: i16) {
        #[verifier::truncate]
        (t as i16)
    }
}

impl As<i8> for i16 {
    open spec fn spec_as(self) -> i8 {
        self as i8
    }

    open spec fn spec_sa(t: i8) -> i16 {
        t as i16
    }

    fn as_(self) -> (t: i8) {
        #[verifier::truncate]
        (self as i8)
    }

    fn sa(t: i8) -> (s: i16) {
        #[verifier::truncate]
        (t as i16)
    }
}

impl As<i16> for i16 {
    open spec fn spec_as(self) -> i16 {
        self as i16
    }

    open spec fn spec_sa(t: i16) -> i16 {
        t as i16
    }

    fn as_(self) -> (t: i16) {
        #[verifier::truncate]
        (self as i16)
    }

    fn sa(t: i16) -> (s: i16) {
        #[verifier::truncate]
        (t as i16)
    }
}

impl As<i32> for i16 {
    open spec fn spec_as(self) -> i32 {
        self as i32
    }

    open spec fn spec_sa(t: i32) -> i16 {
        t as i16
    }

    fn as_(self) -> (t: i32) {
        #[verifier::truncate]
        (self as i32)
    }

    fn sa(t: i32) -> (s: i16) {
        #[verifier::truncate]
        (t as i16)
    }
}

impl As<i64> for i16 {
    open spec fn spec_as(self) -> i64 {
        self as i64
    }

    open spec fn spec_sa(t: i64) -> i16 {
        t as i16
    }

    fn as_(self) -> (t: i64) {
        #[verifier::truncate]
        (self as i64)
    }

    fn sa(t: i64) -> (s: i16) {
        #[verifier::truncate]
        (t as i16)
    }
}

impl As<i128> for i16 {
    open spec fn spec_as(self) -> i128 {
        self as i128
    }

    open spec fn spec_sa(t: i128) -> i16 {
        t as i16
    }

    fn as_(self) -> (t: i128) {
        #[verifier::truncate]
        (self as i128)
    }

    fn sa(t: i128) -> (s: i16) {
        #[verifier::truncate]
        (t as i16)
    }
}

impl As<isize> for i16 {
    open spec fn spec_as(self) -> isize {
        self as isize
    }

    open spec fn spec_sa(t: isize) -> i16 {
        t as i16
    }

    fn as_(self) -> (t: isize) {
        #[verifier::truncate]
        (self as isize)
    }

    fn sa(t: isize) -> (s: i16) {
        #[verifier::truncate]
        (t as i16)
    }
}

impl As<u8> for i32 {
    open spec fn spec_as(self) -> u8 {
        self as u8
    }

    open spec fn spec_sa(t: u8) -> i32 {
        t as i32
    }

    fn as_(self) -> (t: u8) {
        #[verifier::truncate]
        (self as u8)
    }

    fn sa(t: u8) -> (s: i32) {
        #[verifier::truncate]
        (t as i32)
    }
}

impl As<u16> for i32 {
    open spec fn spec_as(self) -> u16 {
        self as u16
    }

    open spec fn spec_sa(t: u16) -> i32 {
        t as i32
    }

    fn as_(self) -> (t: u16) {
        #[verifier::truncate]
        (self as u16)
    }

    fn sa(t: u16) -> (s: i32) {
        #[verifier::truncate]
        (t as i32)
    }
}

impl As<u32> for i32 {
    open spec fn spec_as(self) -> u32 {
        self as u32
    }

    open spec fn spec_sa(t: u32) -> i32 {
        t as i32
    }

    fn as_(self) -> (t: u32) {
        #[verifier::truncate]
        (self as u32)
    }

    fn sa(t: u32) -> (s: i32) {
        #[verifier::truncate]
        (t as i32)
    }
}

impl As<u64> for i32 {
    open spec fn spec_as(self) -> u64 {
        self as u64
    }

    open spec fn spec_sa(t: u64) -> i32 {
        t as i32
    }

    fn as_(self) -> (t: u64) {
        #[verifier::truncate]
        (self as u64)
    }

    fn sa(t: u64) -> (s: i32) {
        #[verifier::truncate]
        (t as i32)
    }
}

impl As<u128> for i32 {
    open spec fn spec_as(self) -> u128 {
        self as u128
    }

    open spec fn spec_sa(t: u128) -> i32 {
        t as i32
    }

    fn as_(self) -> (t: u128) {
        #[verifier::truncate]
        (self as u128)
    }

    fn sa(t: u128) -> (s: i32) {
        #[verifier::truncate]
        (t as i32)
    }
}

impl As<usize> for i32 {
    open spec fn spec_as(self) -> usize {
        self as usize
    }

    open spec fn spec_sa(t: usize) -> i32 {
        t as i32
    }

    fn as_(self) -> (t: usize) {
        #[verifier::truncate]
        (self as usize)
    }

    fn sa(t: usize) -> (s: i32) {
        #[verifier::truncate]
        (t as i32)
    }
}

impl As<i8> for i32 {
    open spec fn spec_as(self) -> i8 {
        self as i8
    }

    open spec fn spec_sa(t: i8) -> i32 {
        t as i32
    }

    fn as_(self) -> (t: i8) {
        #[verifier::truncate]
        (self as i8)
    }

    fn sa(t: i8) -> (s: i32) {
        #[verifier::truncate]
        (t as i32)
    }
}

impl As<i16> for i32 {
    open spec fn spec_as(self) -> i16 {
        self as i16
    }

    open spec fn spec_sa(t: i16) -> i32 {
        t as i32
    }

    fn as_(self) -> (t: i16) {
        #[verifier::truncate]
        (self as i16)
    }

    fn sa(t: i16) -> (s: i32) {
        #[verifier::truncate]
        (t as i32)
    }
}

impl As<i32> for i32 {
    open spec fn spec_as(self) -> i32 {
        self as i32
    }

    open spec fn spec_sa(t: i32) -> i32 {
        t as i32
    }

    fn as_(self) -> (t: i32) {
        #[verifier::truncate]
        (self as i32)
    }

    fn sa(t: i32) -> (s: i32) {
        #[verifier::truncate]
        (t as i32)
    }
}

impl As<i64> for i32 {
    open spec fn spec_as(self) -> i64 {
        self as i64
    }

    open spec fn spec_sa(t: i64) -> i32 {
        t as i32
    }

    fn as_(self) -> (t: i64) {
        #[verifier::truncate]
        (self as i64)
    }

    fn sa(t: i64) -> (s: i32) {
        #[verifier::truncate]
        (t as i32)
    }
}

impl As<i128> for i32 {
    open spec fn spec_as(self) -> i128 {
        self as i128
    }

    open spec fn spec_sa(t: i128) -> i32 {
        t as i32
    }

    fn as_(self) -> (t: i128) {
        #[verifier::truncate]
        (self as i128)
    }

    fn sa(t: i128) -> (s: i32) {
        #[verifier::truncate]
        (t as i32)
    }
}

impl As<isize> for i32 {
    open spec fn spec_as(self) -> isize {
        self as isize
    }

    open spec fn spec_sa(t: isize) -> i32 {
        t as i32
    }

    fn as_(self) -> (t: isize) {
        #[verifier::truncate]
        (self as isize)
    }

    fn sa(t: isize) -> (s: i32) {
        #[verifier::truncate]
        (t as i32)
    }
}

impl As<u8> for i64 {
    open spec fn spec_as(self) -> u8 {
        self as u8
    }

    open spec fn spec_sa(t: u8) -> i64 {
        t as i64
    }

    fn as_(self) -> (t: u8) {
        #[verifier::truncate]
        (self as u8)
    }

    fn sa(t: u8) -> (s: i64) {
        #[verifier::truncate]
        (t as i64)
    }
}

impl As<u16> for i64 {
    open spec fn spec_as(self) -> u16 {
        self as u16
    }

    open spec fn spec_sa(t: u16) -> i64 {
        t as i64
    }

    fn as_(self) -> (t: u16) {
        #[verifier::truncate]
        (self as u16)
    }

    fn sa(t: u16) -> (s: i64) {
        #[verifier::truncate]
        (t as i64)
    }
}

impl As<u32> for i64 {
    open spec fn spec_as(self) -> u32 {
        self as u32
    }

    open spec fn spec_sa(t: u32) -> i64 {
        t as i64
    }

    fn as_(self) -> (t: u32) {
        #[verifier::truncate]
        (self as u32)
    }

    fn sa(t: u32) -> (s: i64) {
        #[verifier::truncate]
        (t as i64)
    }
}

impl As<u64> for i64 {
    open spec fn spec_as(self) -> u64 {
        self as u64
    }

    open spec fn spec_sa(t: u64) -> i64 {
        t as i64
    }

    fn as_(self) -> (t: u64) {
        #[verifier::truncate]
        (self as u64)
    }

    fn sa(t: u64) -> (s: i64) {
        #[verifier::truncate]
        (t as i64)
    }
}

impl As<u128> for i64 {
    open spec fn spec_as(self) -> u128 {
        self as u128
    }

    open spec fn spec_sa(t: u128) -> i64 {
        t as i64
    }

    fn as_(self) -> (t: u128) {
        #[verifier::truncate]
        (self as u128)
    }

    fn sa(t: u128) -> (s: i64) {
        #[verifier::truncate]
        (t as i64)
    }
}

impl As<usize> for i64 {
    open spec fn spec_as(self) -> usize {
        self as usize
    }

    open spec fn spec_sa(t: usize) -> i64 {
        t as i64
    }

    fn as_(self) -> (t: usize) {
        #[verifier::truncate]
        (self as usize)
    }

    fn sa(t: usize) -> (s: i64) {
        #[verifier::truncate]
        (t as i64)
    }
}

impl As<i8> for i64 {
    open spec fn spec_as(self) -> i8 {
        self as i8
    }

    open spec fn spec_sa(t: i8) -> i64 {
        t as i64
    }

    fn as_(self) -> (t: i8) {
        #[verifier::truncate]
        (self as i8)
    }

    fn sa(t: i8) -> (s: i64) {
        #[verifier::truncate]
        (t as i64)
    }
}

impl As<i16> for i64 {
    open spec fn spec_as(self) -> i16 {
        self as i16
    }

    open spec fn spec_sa(t: i16) -> i64 {
        t as i64
    }

    fn as_(self) -> (t: i16) {
        #[verifier::truncate]
        (self as i16)
    }

    fn sa(t: i16) -> (s: i64) {
        #[verifier::truncate]
        (t as i64)
    }
}

impl As<i32> for i64 {
    open spec fn spec_as(self) -> i32 {
        self as i32
    }

    open spec fn spec_sa(t: i32) -> i64 {
        t as i64
    }

    fn as_(self) -> (t: i32) {
        #[verifier::truncate]
        (self as i32)
    }

    fn sa(t: i32) -> (s: i64) {
        #[verifier::truncate]
        (t as i64)
    }
}

impl As<i64> for i64 {
    open spec fn spec_as(self) -> i64 {
        self as i64
    }

    open spec fn spec_sa(t: i64) -> i64 {
        t as i64
    }

    fn as_(self) -> (t: i64) {
        #[verifier::truncate]
        (self as i64)
    }

    fn sa(t: i64) -> (s: i64) {
        #[verifier::truncate]
        (t as i64)
    }
}

impl As<i128> for i64 {
    open spec fn spec_as(self) -> i128 {
        self as i128
    }

    open spec fn spec_sa(t: i128) -> i64 {
        t as i64
    }

    fn as_(self) -> (t: i128) {
        #[verifier::truncate]
        (self as i128)
    }

    fn sa(t: i128) -> (s: i64) {
        #[verifier::truncate]
        (t as i64)
    }
}

impl As<isize> for i64 {
    open spec fn spec_as(self) -> isize {
        self as isize
    }

    open spec fn spec_sa(t: isize) -> i64 {
        t as i64
    }

    fn as_(self) -> (t: isize) {
        #[verifier::truncate]
        (self as isize)
    }

    fn sa(t: isize) -> (s: i64) {
        #[verifier::truncate]
        (t as i64)
    }
}

impl As<u8> for i128 {
    open spec fn spec_as(self) -> u8 {
        self as u8
    }

    open spec fn spec_sa(t: u8) -> i128 {
        t as i128
    }

    fn as_(self) -> (t: u8) {
        #[verifier::truncate]
        (self as u8)
    }

    fn sa(t: u8) -> (s: i128) {
        #[verifier::truncate]
        (t as i128)
    }
}

impl As<u16> for i128 {
    open spec fn spec_as(self) -> u16 {
        self as u16
    }

    open spec fn spec_sa(t: u16) -> i128 {
        t as i128
    }

    fn as_(self) -> (t: u16) {
        #[verifier::truncate]
        (self as u16)
    }

    fn sa(t: u16) -> (s: i128) {
        #[verifier::truncate]
        (t as i128)
    }
}

impl As<u32> for i128 {
    open spec fn spec_as(self) -> u32 {
        self as u32
    }

    open spec fn spec_sa(t: u32) -> i128 {
        t as i128
    }

    fn as_(self) -> (t: u32) {
        #[verifier::truncate]
        (self as u32)
    }

    fn sa(t: u32) -> (s: i128) {
        #[verifier::truncate]
        (t as i128)
    }
}

impl As<u64> for i128 {
    open spec fn spec_as(self) -> u64 {
        self as u64
    }

    open spec fn spec_sa(t: u64) -> i128 {
        t as i128
    }

    fn as_(self) -> (t: u64) {
        #[verifier::truncate]
        (self as u64)
    }

    fn sa(t: u64) -> (s: i128) {
        #[verifier::truncate]
        (t as i128)
    }
}

impl As<u128> for i128 {
    open spec fn spec_as(self) -> u128 {
        self as u128
    }

    open spec fn spec_sa(t: u128) -> i128 {
        t as i128
    }

    fn as_(self) -> (t: u128) {
        #[verifier::truncate]
        (self as u128)
    }

    fn sa(t: u128) -> (s: i128) {
        #[verifier::truncate]
        (t as i128)
    }
}

impl As<usize> for i128 {
    open spec fn spec_as(self) -> usize {
        self as usize
    }

    open spec fn spec_sa(t: usize) -> i128 {
        t as i128
    }

    fn as_(self) -> (t: usize) {
        #[verifier::truncate]
        (self as usize)
    }

    fn sa(t: usize) -> (s: i128) {
        #[verifier::truncate]
        (t as i128)
    }
}

impl As<i8> for i128 {
    open spec fn spec_as(self) -> i8 {
        self as i8
    }

    open spec fn spec_sa(t: i8) -> i128 {
        t as i128
    }

    fn as_(self) -> (t: i8) {
        #[verifier::truncate]
        (self as i8)
    }

    fn sa(t: i8) -> (s: i128) {
        #[verifier::truncate]
        (t as i128)
    }
}

impl As<i16> for i128 {
    open spec fn spec_as(self) -> i16 {
        self as i16
    }

    open spec fn spec_sa(t: i16) -> i128 {
        t as i128
    }

    fn as_(self) -> (t: i16) {
        #[verifier::truncate]
        (self as i16)
    }

    fn sa(t: i16) -> (s: i128) {
        #[verifier::truncate]
        (t as i128)
    }
}

impl As<i32> for i128 {
    open spec fn spec_as(self) -> i32 {
        self as i32
    }

    open spec fn spec_sa(t: i32) -> i128 {
        t as i128
    }

    fn as_(self) -> (t: i32) {
        #[verifier::truncate]
        (self as i32)
    }

    fn sa(t: i32) -> (s: i128) {
        #[verifier::truncate]
        (t as i128)
    }
}

impl As<i64> for i128 {
    open spec fn spec_as(self) -> i64 {
        self as i64
    }

    open spec fn spec_sa(t: i64) -> i128 {
        t as i128
    }

    fn as_(self) -> (t: i64) {
        #[verifier::truncate]
        (self as i64)
    }

    fn sa(t: i64) -> (s: i128) {
        #[verifier::truncate]
        (t as i128)
    }
}

impl As<i128> for i128 {
    open spec fn spec_as(self) -> i128 {
        self as i128
    }

    open spec fn spec_sa(t: i128) -> i128 {
        t as i128
    }

    fn as_(self) -> (t: i128) {
        #[verifier::truncate]
        (self as i128)
    }

    fn sa(t: i128) -> (s: i128) {
        #[verifier::truncate]
        (t as i128)
    }
}

impl As<isize> for i128 {
    open spec fn spec_as(self) -> isize {
        self as isize
    }

    open spec fn spec_sa(t: isize) -> i128 {
        t as i128
    }

    fn as_(self) -> (t: isize) {
        #[verifier::truncate]
        (self as isize)
    }

    fn sa(t: isize) -> (s: i128) {
        #[verifier::truncate]
        (t as i128)
    }
}

impl As<u8> for isize {
    open spec fn spec_as(self) -> u8 {
        self as u8
    }

    open spec fn spec_sa(t: u8) -> isize {
        t as isize
    }

    fn as_(self) -> (t: u8) {
        #[verifier::truncate]
        (self as u8)
    }

    fn sa(t: u8) -> (s: isize) {
        #[verifier::truncate]
        (t as isize)
    }
}

impl As<u16> for isize {
    open spec fn spec_as(self) -> u16 {
        self as u16
    }

    open spec fn spec_sa(t: u16) -> isize {
        t as isize
    }

    fn as_(self) -> (t: u16) {
        #[verifier::truncate]
        (self as u16)
    }

    fn sa(t: u16) -> (s: isize) {
        #[verifier::truncate]
        (t as isize)
    }
}

impl As<u32> for isize {
    open spec fn spec_as(self) -> u32 {
        self as u32
    }

    open spec fn spec_sa(t: u32) -> isize {
        t as isize
    }

    fn as_(self) -> (t: u32) {
        #[verifier::truncate]
        (self as u32)
    }

    fn sa(t: u32) -> (s: isize) {
        #[verifier::truncate]
        (t as isize)
    }
}

impl As<u64> for isize {
    open spec fn spec_as(self) -> u64 {
        self as u64
    }

    open spec fn spec_sa(t: u64) -> isize {
        t as isize
    }

    fn as_(self) -> (t: u64) {
        #[verifier::truncate]
        (self as u64)
    }

    fn sa(t: u64) -> (s: isize) {
        #[verifier::truncate]
        (t as isize)
    }
}

impl As<u128> for isize {
    open spec fn spec_as(self) -> u128 {
        self as u128
    }

    open spec fn spec_sa(t: u128) -> isize {
        t as isize
    }

    fn as_(self) -> (t: u128) {
        #[verifier::truncate]
        (self as u128)
    }

    fn sa(t: u128) -> (s: isize) {
        #[verifier::truncate]
        (t as isize)
    }
}

impl As<usize> for isize {
    open spec fn spec_as(self) -> usize {
        self as usize
    }

    open spec fn spec_sa(t: usize) -> isize {
        t as isize
    }

    fn as_(self) -> (t: usize) {
        #[verifier::truncate]
        (self as usize)
    }

    fn sa(t: usize) -> (s: isize) {
        #[verifier::truncate]
        (t as isize)
    }
}

impl As<i8> for isize {
    open spec fn spec_as(self) -> i8 {
        self as i8
    }

    open spec fn spec_sa(t: i8) -> isize {
        t as isize
    }

    fn as_(self) -> (t: i8) {
        #[verifier::truncate]
        (self as i8)
    }

    fn sa(t: i8) -> (s: isize) {
        #[verifier::truncate]
        (t as isize)
    }
}

impl As<i16> for isize {
    open spec fn spec_as(self) -> i16 {
        self as i16
    }

    open spec fn spec_sa(t: i16) -> isize {
        t as isize
    }

    fn as_(self) -> (t: i16) {
        #[verifier::truncate]
        (self as i16)
    }

    fn sa(t: i16) -> (s: isize) {
        #[verifier::truncate]
        (t as isize)
    }
}

impl As<i32> for isize {
    open spec fn spec_as(self) -> i32 {
        self as i32
    }

    open spec fn spec_sa(t: i32) -> isize {
        t as isize
    }

    fn as_(self) -> (t: i32) {
        #[verifier::truncate]
        (self as i32)
    }

    fn sa(t: i32) -> (s: isize) {
        #[verifier::truncate]
        (t as isize)
    }
}

impl As<i64> for isize {
    open spec fn spec_as(self) -> i64 {
        self as i64
    }

    open spec fn spec_sa(t: i64) -> isize {
        t as isize
    }

    fn as_(self) -> (t: i64) {
        #[verifier::truncate]
        (self as i64)
    }

    fn sa(t: i64) -> (s: isize) {
        #[verifier::truncate]
        (t as isize)
    }
}

impl As<i128> for isize {
    open spec fn spec_as(self) -> i128 {
        self as i128
    }

    open spec fn spec_sa(t: i128) -> isize {
        t as isize
    }

    fn as_(self) -> (t: i128) {
        #[verifier::truncate]
        (self as i128)
    }

    fn sa(t: i128) -> (s: isize) {
        #[verifier::truncate]
        (t as isize)
    }
}

impl As<isize> for isize {
    open spec fn spec_as(self) -> isize {
        self as isize
    }

    open spec fn spec_sa(t: isize) -> isize {
        t as isize
    }

    fn as_(self) -> (t: isize) {
        #[verifier::truncate]
        (self as isize)
    }

    fn sa(t: isize) -> (s: isize) {
        #[verifier::truncate]
        (t as isize)
    }
}

} // verus!
