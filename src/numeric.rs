use vstd::prelude::*;

verus! {

/// An element type for matrices: a copyable value standing for an integer,
/// with addition, subtraction, multiplication and a zero.
///
/// Each operation is exact: it requires that its result can be held by the
/// type, and then returns a value standing for the integer result.
pub trait Numeric: Copy + Sized {
    /// The integer that this value stands for.
    spec fn value(self) -> int;

    /// Whether the type can hold the integer `v`.
    spec fn holds(v: int) -> bool;

    /// The additive identity.
    fn zero() -> (r: Self)
        ensures
            r.value() == 0,
    ;

    fn plus(self, rhs: Self) -> (r: Self)
        requires
            Self::holds(self.value() + rhs.value()),
        ensures
            r.value() == self.value() + rhs.value(),
    ;

    fn minus(self, rhs: Self) -> (r: Self)
        requires
            Self::holds(self.value() - rhs.value()),
        ensures
            r.value() == self.value() - rhs.value(),
    ;

    fn times(self, rhs: Self) -> (r: Self)
        requires
            Self::holds(self.value() * rhs.value()),
        ensures
            r.value() == self.value() * rhs.value(),
    ;
}

impl Numeric for i32 {
    open spec fn value(self) -> int {
        self as int
    }

    open spec fn holds(v: int) -> bool {
        i32::MIN <= v <= i32::MAX
    }

    fn zero() -> (r: Self) {
        0
    }

    fn plus(self, rhs: Self) -> (r: Self) {
        self + rhs
    }

    fn minus(self, rhs: Self) -> (r: Self) {
        self - rhs
    }

    fn times(self, rhs: Self) -> (r: Self) {
        self * rhs
    }
}

impl Numeric for i64 {
    open spec fn value(self) -> int {
        self as int
    }

    open spec fn holds(v: int) -> bool {
        i64::MIN <= v <= i64::MAX
    }

    fn zero() -> (r: Self) {
        0
    }

    fn plus(self, rhs: Self) -> (r: Self) {
        self + rhs
    }

    fn minus(self, rhs: Self) -> (r: Self) {
        self - rhs
    }

    fn times(self, rhs: Self) -> (r: Self) {
        self * rhs
    }
}

} // verus!
