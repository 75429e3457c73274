//! The capability a numeric type must offer to host Fibonacci terms: a zero
//! value, a one value and a checked addition that reports overflow instead
//! of wrapping or panicking.

use vstd::prelude::*;

verus! {

/// A numeric type able to host Fibonacci terms.
///
/// `value` maps a concrete number to the mathematical integer it stands
/// for; `in_range` says which integers the type can represent. The range
/// must contain zero and be downward closed on the non-negative integers,
/// so that a representable term keeps every earlier term representable.
pub trait Number: Sized {
    /// The mathematical integer this value stands for.
    spec fn value(self) -> int;

    /// Whether the type can represent the integer `v`.
    spec fn in_range(v: int) -> bool;

    /// Zero is representable.
    proof fn zero_in_range()
        ensures
            Self::in_range(0),
    ;

    /// The representable range is downward closed on the non-negative
    /// integers.
    proof fn in_range_downward(a: int, b: int)
        requires
            0 <= a <= b,
            Self::in_range(b),
        ensures
            Self::in_range(a),
    ;

    /// The zero value.
    fn zero() -> (r: Self)
        ensures
            r.value() == 0,
    ;

    /// The one value.
    fn one() -> (r: Self)
        ensures
            r.value() == 1,
    ;

    /// A copy standing for the same integer.
    fn duplicate(&self) -> (r: Self)
        ensures
            r.value() == self.value(),
    ;

    /// Checked addition: the sum exactly when it is representable, nothing
    /// when it is not; never wraps, never panics.
    fn checked_add(&self, other: &Self) -> (r: Option<Self>)
        ensures
            r is Some <==> Self::in_range(self.value() + other.value()),
            r is Some ==> r->0.value() == self.value() + other.value(),
    ;
}

impl Number for u8 {
    open spec fn value(self) -> int {
        self as int
    }

    open spec fn in_range(v: int) -> bool {
        0 <= v <= u8::MAX
    }

    proof fn zero_in_range() {
    }

    proof fn in_range_downward(a: int, b: int) {
    }

    fn zero() -> (r: Self) {
        0
    }

    fn one() -> (r: Self) {
        1
    }

    fn duplicate(&self) -> (r: Self) {
        *self
    }

    fn checked_add(&self, other: &Self) -> (r: Option<Self>) {
        (*self).checked_add(*other)
    }
}

impl Number for u16 {
    open spec fn value(self) -> int {
        self as int
    }

    open spec fn in_range(v: int) -> bool {
        0 <= v <= u16::MAX
    }

    proof fn zero_in_range() {
    }

    proof fn in_range_downward(a: int, b: int) {
    }

    fn zero() -> (r: Self) {
        0
    }

    fn one() -> (r: Self) {
        1
    }

    fn duplicate(&self) -> (r: Self) {
        *self
    }

    fn checked_add(&self, other: &Self) -> (r: Option<Self>) {
        (*self).checked_add(*other)
    }
}

impl Number for u32 {
    open spec fn value(self) -> int {
        self as int
    }

    open spec fn in_range(v: int) -> bool {
        0 <= v <= u32::MAX
    }

    proof fn zero_in_range() {
    }

    proof fn in_range_downward(a: int, b: int) {
    }

    fn zero() -> (r: Self) {
        0
    }

    fn one() -> (r: Self) {
        1
    }

    fn duplicate(&self) -> (r: Self) {
        *self
    }

    fn checked_add(&self, other: &Self) -> (r: Option<Self>) {
        (*self).checked_add(*other)
    }
}

impl Number for u64 {
    open spec fn value(self) -> int {
        self as int
    }

    open spec fn in_range(v: int) -> bool {
        0 <= v <= u64::MAX
    }

    proof fn zero_in_range() {
    }

    proof fn in_range_downward(a: int, b: int) {
    }

    fn zero() -> (r: Self) {
        0
    }

    fn one() -> (r: Self) {
        1
    }

    fn duplicate(&self) -> (r: Self) {
        *self
    }

    fn checked_add(&self, other: &Self) -> (r: Option<Self>) {
        (*self).checked_add(*other)
    }
}

impl Number for u128 {
    open spec fn value(self) -> int {
        self as int
    }

    open spec fn in_range(v: int) -> bool {
        0 <= v <= u128::MAX
    }

    proof fn zero_in_range() {
    }

    proof fn in_range_downward(a: int, b: int) {
    }

    fn zero() -> (r: Self) {
        0
    }

    fn one() -> (r: Self) {
        1
    }

    fn duplicate(&self) -> (r: Self) {
        *self
    }

    fn checked_add(&self, other: &Self) -> (r: Option<Self>) {
        (*self).checked_add(*other)
    }
}

impl Number for usize {
    open spec fn value(self) -> int {
        self as int
    }

    open spec fn in_range(v: int) -> bool {
        0 <= v <= usize::MAX
    }

    proof fn zero_in_range() {
    }

    proof fn in_range_downward(a: int, b: int) {
    }

    fn zero() -> (r: Self) {
        0
    }

    fn one() -> (r: Self) {
        1
    }

    fn duplicate(&self) -> (r: Self) {
        *self
    }

    fn checked_add(&self, other: &Self) -> (r: Option<Self>) {
        (*self).checked_add(*other)
    }
}

impl Number for i8 {
    open spec fn value(self) -> int {
        self as int
    }

    open spec fn in_range(v: int) -> bool {
        i8::MIN <= v <= i8::MAX
    }

    proof fn zero_in_range() {
    }

    proof fn in_range_downward(a: int, b: int) {
    }

    fn zero() -> (r: Self) {
        0
    }

    fn one() -> (r: Self) {
        1
    }

    fn duplicate(&self) -> (r: Self) {
        *self
    }

    fn checked_add(&self, other: &Self) -> (r: Option<Self>) {
        (*self).checked_add(*other)
    }
}

impl Number for i16 {
    open spec fn value(self) -> int {
        self as int
    }

    open spec fn in_range(v: int) -> bool {
        i16::MIN <= v <= i16::MAX
    }

    proof fn zero_in_range() {
    }

    proof fn in_range_downward(a: int, b: int) {
    }

    fn zero() -> (r: Self) {
        0
    }

    fn one() -> (r: Self) {
        1
    }

    fn duplicate(&self) -> (r: Self) {
        *self
    }

    fn checked_add(&self, other: &Self) -> (r: Option<Self>) {
        (*self).checked_add(*other)
    }
}

impl Number for i32 {
    open spec fn value(self) -> int {
        self as int
    }

    open spec fn in_range(v: int) -> bool {
        i32::MIN <= v <= i32::MAX
    }

    proof fn zero_in_range() {
    }

    proof fn in_range_downward(a: int, b: int) {
    }

    fn zero() -> (r: Self) {
        0
    }

    fn one() -> (r: Self) {
        1
    }

    fn duplicate(&self) -> (r: Self) {
        *self
    }

    fn checked_add(&self, other: &Self) -> (r: Option<Self>) {
        (*self).checked_add(*other)
    }
}

impl Number for i64 {
    open spec fn value(self) -> int {
        self as int
    }

    open spec fn in_range(v: int) -> bool {
        i64::MIN <= v <= i64::MAX
    }

    proof fn zero_in_range() {
    }

    proof fn in_range_downward(a: int, b: int) {
    }

    fn zero() -> (r: Self) {
        0
    }

    fn one() -> (r: Self) {
        1
    }

    fn duplicate(&self) -> (r: Self) {
        *self
    }

    fn checked_add(&self, other: &Self) -> (r: Option<Self>) {
        (*self).checked_add(*other)
    }
}

impl Number for i128 {
    open spec fn value(self) -> int {
        self as int
    }

    open spec fn in_range(v: int) -> bool {
        i128::MIN <= v <= i128::MAX
    }

    proof fn zero_in_range() {
    }

    proof fn in_range_downward(a: int, b: int) {
    }

    fn zero() -> (r: Self) {
        0
    }

    fn one() -> (r: Self) {
        1
    }

    fn duplicate(&self) -> (r: Self) {
        *self
    }

    fn checked_add(&self, other: &Self) -> (r: Option<Self>) {
        (*self).checked_add(*other)
    }
}

} // verus!
