use vstd::prelude::*;
use vstd::wrapping::{
    i16_specs, i32_specs, i64_specs, i8_specs, isize_specs, u16_specs, u32_specs, u64_specs,
    u8_specs, usize_specs,
};

verus! {

/// A primitive value that the machine can hold in one atomic cell.
///
/// The implementors are exactly the native atomic-capable widths: `bool` and
/// the 8/16/32/64/pointer-sized integers, signed and unsigned. Every
/// [`Atomic`](crate::Atomic) container stores one value of such a type, and
/// the operations of this trait are the per-width pieces the container needs:
/// the zero value a defaulted cell starts from, and the exact equality test
/// that compare-exchange performs on the stored word.
pub trait Atom: Sized + Copy {
    /// The zero value of the width.
    spec fn spec_zero() -> Self;

    /// Returns the zero value of the width, which a defaulted container
    /// starts from.
    fn zero() -> (r: Self)
        ensures
            r == Self::spec_zero(),
    ;

    /// Compares two values of the width bit for bit, exactly as a
    /// compare-exchange on the cell does.
    fn atom_eq(self, other: Self) -> (r: bool)
        ensures
            r == (self == other),
    ;
}

/// A primitive atom whose width supports the bitwise fetch-operations.
///
/// The four spec functions fix the value that each bitwise operation stores;
/// the executable counterparts compute exactly those values.
pub trait BitAtom: Atom {
    /// The bitwise AND of two values of the width.
    spec fn spec_and(self, other: Self) -> Self;

    /// The bitwise OR of two values of the width.
    spec fn spec_or(self, other: Self) -> Self;

    /// The bitwise XOR of two values of the width.
    spec fn spec_xor(self, other: Self) -> Self;

    /// The bitwise NAND of two values of the width.
    spec fn spec_nand(self, other: Self) -> Self;

    /// Computes the bitwise AND.
    fn and(self, other: Self) -> (r: Self)
        ensures
            r == self.spec_and(other),
    ;

    /// Computes the bitwise OR.
    fn or(self, other: Self) -> (r: Self)
        ensures
            r == self.spec_or(other),
    ;

    /// Computes the bitwise XOR.
    fn xor(self, other: Self) -> (r: Self)
        ensures
            r == self.spec_xor(other),
    ;

    /// Computes the bitwise NAND.
    fn nand(self, other: Self) -> (r: Self)
        ensures
            r == self.spec_nand(other),
    ;
}

/// A primitive atom whose width additionally supports the arithmetic
/// fetch-operations.
///
/// Addition and subtraction follow the width's wraparound semantics, exactly
/// as the hardware fetch-add and fetch-sub do.
pub trait IntAtom: Atom {
    /// The sum of two values of the width, wrapping around on overflow.
    spec fn spec_wrap_add(self, other: Self) -> Self;

    /// The difference of two values of the width, wrapping around on
    /// underflow.
    spec fn spec_wrap_sub(self, other: Self) -> Self;

    /// The smaller of two values of the width.
    spec fn spec_min(self, other: Self) -> Self;

    /// The larger of two values of the width.
    spec fn spec_max(self, other: Self) -> Self;

    /// Computes the wrapping sum.
    fn wrap_add(self, other: Self) -> (r: Self)
        ensures
            r == self.spec_wrap_add(other),
    ;

    /// Computes the wrapping difference.
    fn wrap_sub(self, other: Self) -> (r: Self)
        ensures
            r == self.spec_wrap_sub(other),
    ;

    /// Computes the minimum.
    fn min_of(self, other: Self) -> (r: Self)
        ensures
            r == self.spec_min(other),
    ;

    /// Computes the maximum.
    fn max_of(self, other: Self) -> (r: Self)
        ensures
            r == self.spec_max(other),
    ;
}

impl Atom for bool {
    open spec fn spec_zero() -> bool {
        false
    }

    fn zero() -> bool {
        false
    }

    fn atom_eq(self, other: bool) -> bool {
        self == other
    }
}

impl BitAtom for bool {
    open spec fn spec_and(self, other: bool) -> bool {
        self && other
    }

    open spec fn spec_or(self, other: bool) -> bool {
        self || other
    }

    open spec fn spec_xor(self, other: bool) -> bool {
        self != other
    }

    open spec fn spec_nand(self, other: bool) -> bool {
        !(self && other)
    }

    fn and(self, other: bool) -> bool {
        self && other
    }

    fn or(self, other: bool) -> bool {
        self || other
    }

    fn xor(self, other: bool) -> bool {
        self != other
    }

    fn nand(self, other: bool) -> bool {
        !(self && other)
    }
}

impl Atom for u8 {
    open spec fn spec_zero() -> u8 {
        0u8
    }

    fn zero() -> u8 {
        0u8
    }

    fn atom_eq(self, other: u8) -> bool {
        self == other
    }
}

impl BitAtom for u8 {
    open spec fn spec_and(self, other: u8) -> u8 {
        self & other
    }

    open spec fn spec_or(self, other: u8) -> u8 {
        self | other
    }

    open spec fn spec_xor(self, other: u8) -> u8 {
        self ^ other
    }

    open spec fn spec_nand(self, other: u8) -> u8 {
        !(self & other)
    }

    fn and(self, other: u8) -> u8 {
        self & other
    }

    fn or(self, other: u8) -> u8 {
        self | other
    }

    fn xor(self, other: u8) -> u8 {
        self ^ other
    }

    fn nand(self, other: u8) -> u8 {
        !(self & other)
    }
}

impl IntAtom for u8 {
    open spec fn spec_wrap_add(self, other: u8) -> u8 {
        u8_specs::wrapping_add(self, other)
    }

    open spec fn spec_wrap_sub(self, other: u8) -> u8 {
        u8_specs::wrapping_sub(self, other)
    }

    open spec fn spec_min(self, other: u8) -> u8 {
        if self < other {
            self
        } else {
            other
        }
    }

    open spec fn spec_max(self, other: u8) -> u8 {
        if self > other {
            self
        } else {
            other
        }
    }

    fn wrap_add(self, other: u8) -> u8 {
        self.wrapping_add(other)
    }

    fn wrap_sub(self, other: u8) -> u8 {
        self.wrapping_sub(other)
    }

    fn min_of(self, other: u8) -> u8 {
        if self < other {
            self
        } else {
            other
        }
    }

    fn max_of(self, other: u8) -> u8 {
        if self > other {
            self
        } else {
            other
        }
    }
}

impl Atom for u16 {
    open spec fn spec_zero() -> u16 {
        0u16
    }

    fn zero() -> u16 {
        0u16
    }

    fn atom_eq(self, other: u16) -> bool {
        self == other
    }
}

impl BitAtom for u16 {
    open spec fn spec_and(self, other: u16) -> u16 {
        self & other
    }

    open spec fn spec_or(self, other: u16) -> u16 {
        self | other
    }

    open spec fn spec_xor(self, other: u16) -> u16 {
        self ^ other
    }

    open spec fn spec_nand(self, other: u16) -> u16 {
        !(self & other)
    }

    fn and(self, other: u16) -> u16 {
        self & other
    }

    fn or(self, other: u16) -> u16 {
        self | other
    }

    fn xor(self, other: u16) -> u16 {
        self ^ other
    }

    fn nand(self, other: u16) -> u16 {
        !(self & other)
    }
}

impl IntAtom for u16 {
    open spec fn spec_wrap_add(self, other: u16) -> u16 {
        u16_specs::wrapping_add(self, other)
    }

    open spec fn spec_wrap_sub(self, other: u16) -> u16 {
        u16_specs::wrapping_sub(self, other)
    }

    open spec fn spec_min(self, other: u16) -> u16 {
        if self < other {
            self
        } else {
            other
        }
    }

    open spec fn spec_max(self, other: u16) -> u16 {
        if self > other {
            self
        } else {
            other
        }
    }

    fn wrap_add(self, other: u16) -> u16 {
        self.wrapping_add(other)
    }

    fn wrap_sub(self, other: u16) -> u16 {
        self.wrapping_sub(other)
    }

    fn min_of(self, other: u16) -> u16 {
        if self < other {
            self
        } else {
            other
        }
    }

    fn max_of(self, other: u16) -> u16 {
        if self > other {
            self
        } else {
            other
        }
    }
}

impl Atom for u32 {
    open spec fn spec_zero() -> u32 {
        0u32
    }

    fn zero() -> u32 {
        0u32
    }

    fn atom_eq(self, other: u32) -> bool {
        self == other
    }
}

impl BitAtom for u32 {
    open spec fn spec_and(self, other: u32) -> u32 {
        self & other
    }

    open spec fn spec_or(self, other: u32) -> u32 {
        self | other
    }

    open spec fn spec_xor(self, other: u32) -> u32 {
        self ^ other
    }

    open spec fn spec_nand(self, other: u32) -> u32 {
        !(self & other)
    }

    fn and(self, other: u32) -> u32 {
        self & other
    }

    fn or(self, other: u32) -> u32 {
        self | other
    }

    fn xor(self, other: u32) -> u32 {
        self ^ other
    }

    fn nand(self, other: u32) -> u32 {
        !(self & other)
    }
}

impl IntAtom for u32 {
    open spec fn spec_wrap_add(self, other: u32) -> u32 {
        u32_specs::wrapping_add(self, other)
    }

    open spec fn spec_wrap_sub(self, other: u32) -> u32 {
        u32_specs::wrapping_sub(self, other)
    }

    open spec fn spec_min(self, other: u32) -> u32 {
        if self < other {
            self
        } else {
            other
        }
    }

    open spec fn spec_max(self, other: u32) -> u32 {
        if self > other {
            self
        } else {
            other
        }
    }

    fn wrap_add(self, other: u32) -> u32 {
        self.wrapping_add(other)
    }

    fn wrap_sub(self, other: u32) -> u32 {
        self.wrapping_sub(other)
    }

    fn min_of(self, other: u32) -> u32 {
        if self < other {
            self
        } else {
            other
        }
    }

    fn max_of(self, other: u32) -> u32 {
        if self > other {
            self
        } else {
            other
        }
    }
}

impl Atom for u64 {
    open spec fn spec_zero() -> u64 {
        0u64
    }

    fn zero() -> u64 {
        0u64
    }

    fn atom_eq(self, other: u64) -> bool {
        self == other
    }
}

impl BitAtom for u64 {
    open spec fn spec_and(self, other: u64) -> u64 {
        self & other
    }

    open spec fn spec_or(self, other: u64) -> u64 {
        self | other
    }

    open spec fn spec_xor(self, other: u64) -> u64 {
        self ^ other
    }

    open spec fn spec_nand(self, other: u64) -> u64 {
        !(self & other)
    }

    fn and(self, other: u64) -> u64 {
        self & other
    }

    fn or(self, other: u64) -> u64 {
        self | other
    }

    fn xor(self, other: u64) -> u64 {
        self ^ other
    }

    fn nand(self, other: u64) -> u64 {
        !(self & other)
    }
}

impl IntAtom for u64 {
    open spec fn spec_wrap_add(self, other: u64) -> u64 {
        u64_specs::wrapping_add(self, other)
    }

    open spec fn spec_wrap_sub(self, other: u64) -> u64 {
        u64_specs::wrapping_sub(self, other)
    }

    open spec fn spec_min(self, other: u64) -> u64 {
        if self < other {
            self
        } else {
            other
        }
    }

    open spec fn spec_max(self, other: u64) -> u64 {
        if self > other {
            self
        } else {
            other
        }
    }

    fn wrap_add(self, other: u64) -> u64 {
        self.wrapping_add(other)
    }

    fn wrap_sub(self, other: u64) -> u64 {
        self.wrapping_sub(other)
    }

    fn min_of(self, other: u64) -> u64 {
        if self < other {
            self
        } else {
            other
        }
    }

    fn max_of(self, other: u64) -> u64 {
        if self > other {
            self
        } else {
            other
        }
    }
}

impl Atom for usize {
    open spec fn spec_zero() -> usize {
        0usize
    }

    fn zero() -> usize {
        0usize
    }

    fn atom_eq(self, other: usize) -> bool {
        self == other
    }
}

impl BitAtom for usize {
    open spec fn spec_and(self, other: usize) -> usize {
        self & other
    }

    open spec fn spec_or(self, other: usize) -> usize {
        self | other
    }

    open spec fn spec_xor(self, other: usize) -> usize {
        self ^ other
    }

    open spec fn spec_nand(self, other: usize) -> usize {
        !(self & other)
    }

    fn and(self, other: usize) -> usize {
        self & other
    }

    fn or(self, other: usize) -> usize {
        self | other
    }

    fn xor(self, other: usize) -> usize {
        self ^ other
    }

    fn nand(self, other: usize) -> usize {
        !(self & other)
    }
}

impl IntAtom for usize {
    open spec fn spec_wrap_add(self, other: usize) -> usize {
        usize_specs::wrapping_add(self, other)
    }

    open spec fn spec_wrap_sub(self, other: usize) -> usize {
        usize_specs::wrapping_sub(self, other)
    }

    open spec fn spec_min(self, other: usize) -> usize {
        if self < other {
            self
        } else {
            other
        }
    }

    open spec fn spec_max(self, other: usize) -> usize {
        if self > other {
            self
        } else {
            other
        }
    }

    fn wrap_add(self, other: usize) -> usize {
        self.wrapping_add(other)
    }

    fn wrap_sub(self, other: usize) -> usize {
        self.wrapping_sub(other)
    }

    fn min_of(self, other: usize) -> usize {
        if self < other {
            self
        } else {
            other
        }
    }

    fn max_of(self, other: usize) -> usize {
        if self > other {
            self
        } else {
            other
        }
    }
}

impl Atom for i8 {
    open spec fn spec_zero() -> i8 {
        0i8
    }

    fn zero() -> i8 {
        0i8
    }

    fn atom_eq(self, other: i8) -> bool {
        self == other
    }
}

impl BitAtom for i8 {
    open spec fn spec_and(self, other: i8) -> i8 {
        self & other
    }

    open spec fn spec_or(self, other: i8) -> i8 {
        self | other
    }

    open spec fn spec_xor(self, other: i8) -> i8 {
        self ^ other
    }

    open spec fn spec_nand(self, other: i8) -> i8 {
        !(self & other)
    }

    fn and(self, other: i8) -> i8 {
        self & other
    }

    fn or(self, other: i8) -> i8 {
        self | other
    }

    fn xor(self, other: i8) -> i8 {
        self ^ other
    }

    fn nand(self, other: i8) -> i8 {
        !(self & other)
    }
}

impl IntAtom for i8 {
    open spec fn spec_wrap_add(self, other: i8) -> i8 {
        i8_specs::wrapping_add(self, other)
    }

    open spec fn spec_wrap_sub(self, other: i8) -> i8 {
        i8_specs::wrapping_sub(self, other)
    }

    open spec fn spec_min(self, other: i8) -> i8 {
        if self < other {
            self
        } else {
            other
        }
    }

    open spec fn spec_max(self, other: i8) -> i8 {
        if self > other {
            self
        } else {
            other
        }
    }

    fn wrap_add(self, other: i8) -> i8 {
        self.wrapping_add(other)
    }

    fn wrap_sub(self, other: i8) -> i8 {
        self.wrapping_sub(other)
    }

    fn min_of(self, other: i8) -> i8 {
        if self < other {
            self
        } else {
            other
        }
    }

    fn max_of(self, other: i8) -> i8 {
        if self > other {
            self
        } else {
            other
        }
    }
}

impl Atom for i16 {
    open spec fn spec_zero() -> i16 {
        0i16
    }

    fn zero() -> i16 {
        0i16
    }

    fn atom_eq(self, other: i16) -> bool {
        self == other
    }
}

impl BitAtom for i16 {
    open spec fn spec_and(self, other: i16) -> i16 {
        self & other
    }

    open spec fn spec_or(self, other: i16) -> i16 {
        self | other
    }

    open spec fn spec_xor(self, other: i16) -> i16 {
        self ^ other
    }

    open spec fn spec_nand(self, other: i16) -> i16 {
        !(self & other)
    }

    fn and(self, other: i16) -> i16 {
        self & other
    }

    fn or(self, other: i16) -> i16 {
        self | other
    }

    fn xor(self, other: i16) -> i16 {
        self ^ other
    }

    fn nand(self, other: i16) -> i16 {
        !(self & other)
    }
}

impl IntAtom for i16 {
    open spec fn spec_wrap_add(self, other: i16) -> i16 {
        i16_specs::wrapping_add(self, other)
    }

    open spec fn spec_wrap_sub(self, other: i16) -> i16 {
        i16_specs::wrapping_sub(self, other)
    }

    open spec fn spec_min(self, other: i16) -> i16 {
        if self < other {
            self
        } else {
            other
        }
    }

    open spec fn spec_max(self, other: i16) -> i16 {
        if self > other {
            self
        } else {
            other
        }
    }

    fn wrap_add(self, other: i16) -> i16 {
        self.wrapping_add(other)
    }

    fn wrap_sub(self, other: i16) -> i16 {
        self.wrapping_sub(other)
    }

    fn min_of(self, other: i16) -> i16 {
        if self < other {
            self
        } else {
            other
        }
    }

    fn max_of(self, other: i16) -> i16 {
        if self > other {
            self
        } else {
            other
        }
    }
}

impl Atom for i32 {
    open spec fn spec_zero() -> i32 {
        0i32
    }

    fn zero() -> i32 {
        0i32
    }

    fn atom_eq(self, other: i32) -> bool {
        self == other
    }
}

impl BitAtom for i32 {
    open spec fn spec_and(self, other: i32) -> i32 {
        self & other
    }

    open spec fn spec_or(self, other: i32) -> i32 {
        self | other
    }

    open spec fn spec_xor(self, other: i32) -> i32 {
        self ^ other
    }

    open spec fn spec_nand(self, other: i32) -> i32 {
        !(self & other)
    }

    fn and(self, other: i32) -> i32 {
        self & other
    }

    fn or(self, other: i32) -> i32 {
        self | other
    }

    fn xor(self, other: i32) -> i32 {
        self ^ other
    }

    fn nand(self, other: i32) -> i32 {
        !(self & other)
    }
}

impl IntAtom for i32 {
    open spec fn spec_wrap_add(self, other: i32) -> i32 {
        i32_specs::wrapping_add(self, other)
    }

    open spec fn spec_wrap_sub(self, other: i32) -> i32 {
        i32_specs::wrapping_sub(self, other)
    }

    open spec fn spec_min(self, other: i32) -> i32 {
        if self < other {
            self
        } else {
            other
        }
    }

    open spec fn spec_max(self, other: i32) -> i32 {
        if self > other {
            self
        } else {
            other
        }
    }

    fn wrap_add(self, other: i32) -> i32 {
        self.wrapping_add(other)
    }

    fn wrap_sub(self, other: i32) -> i32 {
        self.wrapping_sub(other)
    }

    fn min_of(self, other: i32) -> i32 {
        if self < other {
            self
        } else {
            other
        }
    }

    fn max_of(self, other: i32) -> i32 {
        if self > other {
            self
        } else {
            other
        }
    }
}

impl Atom for i64 {
    open spec fn spec_zero() -> i64 {
        0i64
    }

    fn zero() -> i64 {
        0i64
    }

    fn atom_eq(self, other: i64) -> bool {
        self == other
    }
}

impl BitAtom for i64 {
    open spec fn spec_and(self, other: i64) -> i64 {
        self & other
    }

    open spec fn spec_or(self, other: i64) -> i64 {
        self | other
    }

    open spec fn spec_xor(self, other: i64) -> i64 {
        self ^ other
    }

    open spec fn spec_nand(self, other: i64) -> i64 {
        !(self & other)
    }

    fn and(self, other: i64) -> i64 {
        self & other
    }

    fn or(self, other: i64) -> i64 {
        self | other
    }

    fn xor(self, other: i64) -> i64 {
        self ^ other
    }

    fn nand(self, other: i64) -> i64 {
        !(self & other)
    }
}

impl IntAtom for i64 {
    open spec fn spec_wrap_add(self, other: i64) -> i64 {
        i64_specs::wrapping_add(self, other)
    }

    open spec fn spec_wrap_sub(self, other: i64) -> i64 {
        i64_specs::wrapping_sub(self, other)
    }

    open spec fn spec_min(self, other: i64) -> i64 {
        if self < other {
            self
        } else {
            other
        }
    }

    open spec fn spec_max(self, other: i64) -> i64 {
        if self > other {
            self
        } else {
            other
        }
    }

    fn wrap_add(self, other: i64) -> i64 {
        self.wrapping_add(other)
    }

    fn wrap_sub(self, other: i64) -> i64 {
        self.wrapping_sub(other)
    }

    fn min_of(self, other: i64) -> i64 {
        if self < other {
            self
        } else {
            other
        }
    }

    fn max_of(self, other: i64) -> i64 {
        if self > other {
            self
        } else {
            other
        }
    }
}

impl Atom for isize {
    open spec fn spec_zero() -> isize {
        0isize
    }

    fn zero() -> isize {
        0isize
    }

    fn atom_eq(self, other: isize) -> bool {
        self == other
    }
}

impl BitAtom for isize {
    open spec fn spec_and(self, other: isize) -> isize {
        self & other
    }

    open spec fn spec_or(self, other: isize) -> isize {
        self | other
    }

    open spec fn spec_xor(self, other: isize) -> isize {
        self ^ other
    }

    open spec fn spec_nand(self, other: isize) -> isize {
        !(self & other)
    }

    fn and(self, other: isize) -> isize {
        self & other
    }

    fn or(self, other: isize) -> isize {
        self | other
    }

    fn xor(self, other: isize) -> isize {
        self ^ other
    }

    fn nand(self, other: isize) -> isize {
        !(self & other)
    }
}

impl IntAtom for isize {
    open spec fn spec_wrap_add(self, other: isize) -> isize {
        isize_specs::wrapping_add(self, other)
    }

    open spec fn spec_wrap_sub(self, other: isize) -> isize {
        isize_specs::wrapping_sub(self, other)
    }

    open spec fn spec_min(self, other: isize) -> isize {
        if self < other {
            self
        } else {
            other
        }
    }

    open spec fn spec_max(self, other: isize) -> isize {
        if self > other {
            self
        } else {
            other
        }
    }

    fn wrap_add(self, other: isize) -> isize {
        self.wrapping_add(other)
    }

    fn wrap_sub(self, other: isize) -> isize {
        self.wrapping_sub(other)
    }

    fn min_of(self, other: isize) -> isize {
        if self < other {
            self
        } else {
            other
        }
    }

    fn max_of(self, other: isize) -> isize {
        if self > other {
            self
        } else {
            other
        }
    }
}

} // verus!
