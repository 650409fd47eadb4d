//! The numeric types that a meter can hold.
use vstd::prelude::*;

verus! {

/// A numeric type for the `max` and `current` amounts of a meter and for the
/// delta of an effect. Each value stands for a mathematical integer; adding in
/// place is exact whenever the sum is a value of the type.
pub trait MeterField: Copy + Send + Sync + Sized {
    /// The value as a mathematical integer.
    spec fn to_int(self) -> int;

    /// Whether the integer `v` is a value of this type.
    spec fn fits(v: int) -> bool;

    /// `self += rhs`, where the sum fits.
    fn add_assign(&mut self, rhs: Self)
        requires
            Self::fits(old(self).to_int() + rhs.to_int()),
        ensures
            final(self).to_int() == old(self).to_int() + rhs.to_int(),
    ;

    /// Whether `self + rhs` is a value of this type.
    fn sum_fits(&self, rhs: &Self) -> (r: bool)
        ensures
            r == Self::fits(self.to_int() + rhs.to_int()),
    ;
}

impl MeterField for i32 {
    open spec fn to_int(self) -> int {
        self as int
    }

    open spec fn fits(v: int) -> bool {
        i32::MIN <= v <= i32::MAX
    }

    fn add_assign(&mut self, rhs: i32) {
        *self = *self + rhs;
    }

    fn sum_fits(&self, rhs: &i32) -> (r: bool) {
        self.checked_add(*rhs).is_some()
    }
}

impl MeterField for i64 {
    open spec fn to_int(self) -> int {
        self as int
    }

    open spec fn fits(v: int) -> bool {
        i64::MIN <= v <= i64::MAX
    }

    fn add_assign(&mut self, rhs: i64) {
        *self = *self + rhs;
    }

    fn sum_fits(&self, rhs: &i64) -> (r: bool) {
        self.checked_add(*rhs).is_some()
    }
}

impl MeterField for u32 {
    open spec fn to_int(self) -> int {
        self as int
    }

    open spec fn fits(v: int) -> bool {
        u32::MIN <= v <= u32::MAX
    }

    fn add_assign(&mut self, rhs: u32) {
        *self = *self + rhs;
    }

    fn sum_fits(&self, rhs: &u32) -> (r: bool) {
        self.checked_add(*rhs).is_some()
    }
}

impl MeterField for u64 {
    open spec fn to_int(self) -> int {
        self as int
    }

    open spec fn fits(v: int) -> bool {
        u64::MIN <= v <= u64::MAX
    }

    fn add_assign(&mut self, rhs: u64) {
        *self = *self + rhs;
    }

    fn sum_fits(&self, rhs: &u64) -> (r: bool) {
        self.checked_add(*rhs).is_some()
    }
}

} // verus!
