//! Small integer vectors: arrays of numbers with the operations that a grid
//! of cells needs. Every operation works component by component unless it
//! says otherwise.

use vstd::prelude::*;

verus! {

/// A vector of two unsigned 32-bit components.
pub type Vec2u = [u32; 2];

/// A vector of two signed 32-bit components.
pub type Vec2i = [i32; 2];

/// A vector of two sizes.
pub type Vec2s = [usize; 2];

/// A pair of components as a half-open range.
pub trait VecRange<T> {
    /// The first component.
    spec fn range_start(self) -> T;

    /// The second component.
    spec fn range_end(self) -> T;

    /// The range from the first component up to, not including, the second.
    fn range(self) -> (range: core::ops::Range<T>) where Self: Sized
        ensures
            range.start == self.range_start(),
            range.end == self.range_end(),
    ;
}

impl<T: Copy> VecRange<T> for [T; 2] {
    open spec fn range_start(self) -> T {
        self[0]
    }

    open spec fn range_end(self) -> T {
        self[1]
    }

    fn range(self) -> (range: core::ops::Range<T>) {
        self[0]..self[1]
    }
}

/// The components of a vector by their usual names.
pub trait VecComponents<T> {
    /// Number of components.
    spec fn arity(&self) -> nat;

    /// The component at index `i`.
    spec fn component(&self, i: int) -> T;

    fn x(&self) -> (value: T)
        requires
            self.arity() > 0,
        ensures
            value == self.component(0),
    ;

    fn y(&self) -> (value: T)
        requires
            self.arity() > 1,
        ensures
            value == self.component(1),
    ;

    fn z(&self) -> (value: T)
        requires
            self.arity() > 2,
        ensures
            value == self.component(2),
    ;

    fn w(&self) -> (value: T)
        requires
            self.arity() > 3,
        ensures
            value == self.component(3),
    ;

    fn r(&self) -> (value: T)
        requires
            self.arity() > 0,
        ensures
            value == self.component(0),
    ;

    fn g(&self) -> (value: T)
        requires
            self.arity() > 1,
        ensures
            value == self.component(1),
    ;

    fn b(&self) -> (value: T)
        requires
            self.arity() > 2,
        ensures
            value == self.component(2),
    ;

    fn a(&self) -> (value: T)
        requires
            self.arity() > 3,
        ensures
            value == self.component(3),
    ;

    fn xy(&self) -> (value: [T; 2])
        requires
            self.arity() > 1,
        ensures
            value[0] == self.component(0),
            value[1] == self.component(1),
    ;

    fn xyz(&self) -> (value: [T; 3])
        requires
            self.arity() > 2,
        ensures
            value[0] == self.component(0),
            value[1] == self.component(1),
            value[2] == self.component(2),
    ;

    /// The third and fourth component: the size part of a rectangle given
    /// as left, top, width, height.
    fn wh(&self) -> (value: [T; 2])
        requires
            self.arity() > 3,
        ensures
            value[0] == self.component(2),
            value[1] == self.component(3),
    ;

    fn rgb(&self) -> (value: [T; 3])
        requires
            self.arity() > 2,
        ensures
            value[0] == self.component(0),
            value[1] == self.component(1),
            value[2] == self.component(2),
    ;
}

impl<T: Copy, const N: usize> VecComponents<T> for [T; N] {
    open spec fn arity(&self) -> nat {
        N as nat
    }

    open spec fn component(&self, i: int) -> T {
        self[i]
    }

    fn x(&self) -> (value: T) {
        self[0]
    }

    fn y(&self) -> (value: T) {
        self[1]
    }

    fn z(&self) -> (value: T) {
        self[2]
    }

    fn w(&self) -> (value: T) {
        self[3]
    }

    fn r(&self) -> (value: T) {
        self[0]
    }

    fn g(&self) -> (value: T) {
        self[1]
    }

    fn b(&self) -> (value: T) {
        self[2]
    }

    fn a(&self) -> (value: T) {
        self[3]
    }

    fn xy(&self) -> (value: [T; 2]) {
        [self[0], self[1]]
    }

    fn xyz(&self) -> (value: [T; 3]) {
        [self[0], self[1], self[2]]
    }

    fn wh(&self) -> (value: [T; 2]) {
        [self[2], self[3]]
    }

    fn rgb(&self) -> (value: [T; 3]) {
        [self[0], self[1], self[2]]
    }
}

/// Arithmetic with another operand `C`: a vector of the same size, taken
/// component by component, or one number, taken with every component.
pub trait VecArith<C>: Sized {
    /// True when no component of the sum leaves the range of its type.
    spec fn can_add(&self, other: C) -> bool;

    /// True when `result` is the sum.
    spec fn is_sum(&self, other: C, result: Self) -> bool;

    /// True when no component of the difference leaves the range of its type.
    spec fn can_sub(&self, other: C) -> bool;

    /// True when `result` is the difference.
    spec fn is_difference(&self, other: C, result: Self) -> bool;

    /// True when no component of the product leaves the range of its type.
    spec fn can_mul(&self, other: C) -> bool;

    /// True when `result` is the product.
    spec fn is_product(&self, other: C, result: Self) -> bool;

    /// True when no divisor is zero and no quotient leaves the range of its
    /// type.
    spec fn can_div(&self, other: C) -> bool;

    /// True when `result` is the quotient, rounded towards zero.
    spec fn is_quotient(&self, other: C, result: Self) -> bool;

    fn add(&self, other: C) -> (result: Self)
        requires
            self.can_add(other),
        ensures
            self.is_sum(other, result),
    ;

    fn sub(&self, other: C) -> (result: Self)
        requires
            self.can_sub(other),
        ensures
            self.is_difference(other, result),
    ;

    fn mul(&self, other: C) -> (result: Self)
        requires
            self.can_mul(other),
        ensures
            self.is_product(other, result),
    ;

    fn div(&self, other: C) -> (result: Self)
        requires
            self.can_div(other),
        ensures
            self.is_quotient(other, result),
    ;
}

/// The quotient of `a` by `b`, rounded towards zero.
pub open spec fn quotient(a: int, b: int) -> int
    recommends
        b != 0,
{
    if a >= 0 {
        a / b
    } else {
        -((-a) / b)
    }
}

/// A quotient is never further from zero than the dividend.
pub proof fn lemma_quotient_bound(a: int, b: int)
    requires
        b != 0,
    ensures
        a >= 0 ==> -a <= quotient(a, b) <= a,
        a < 0 ==> a <= quotient(a, b) <= -a,
{
    let x = if a >= 0 {
        a
    } else {
        -a
    };
    assert(-x <= x / b <= x) by (nonlinear_arith)
        requires
            x >= 0,
            b != 0,
    ;
}

/// `a / b` as the machine divides signed numbers: rounded towards zero.
fn divide(a: i32, b: i32) -> (result: i32)
    requires
        b != 0,
        !(a == i32::MIN && b == -1),
    ensures
        result == quotient(a as int, b as int),
{
    proof {
        lemma_quotient_bound(a as int, b as int);
        if a == i32::MIN {
            assert((-(a as int)) / (b as int) > -0x8000_0000) by (nonlinear_arith)
                requires
                    a == -0x8000_0000,
                    b != 0,
                    b != -1,
                    -0x8000_0000 <= b <= 0x7fff_ffff,
            ;
        }
    }
    a / b
}

impl<const N: usize> VecArith<[usize; N]> for [usize; N] {
    open spec fn can_add(&self, other: [usize; N]) -> bool {
        forall|i: int| 0 <= i < N ==> usize::MIN <= #[trigger] self[i] + other[i] <= usize::MAX
    }

    open spec fn is_sum(&self, other: [usize; N], result: [usize; N]) -> bool {
        forall|i: int| 0 <= i < N ==> #[trigger] result[i] == self[i] + other[i]
    }

    open spec fn can_sub(&self, other: [usize; N]) -> bool {
        forall|i: int| 0 <= i < N ==> usize::MIN <= #[trigger] self[i] - other[i] <= usize::MAX
    }

    open spec fn is_difference(&self, other: [usize; N], result: [usize; N]) -> bool {
        forall|i: int| 0 <= i < N ==> #[trigger] result[i] == self[i] - other[i]
    }

    open spec fn can_mul(&self, other: [usize; N]) -> bool {
        forall|i: int| 0 <= i < N ==> usize::MIN <= #[trigger] self[i] * other[i] <= usize::MAX
    }

    open spec fn is_product(&self, other: [usize; N], result: [usize; N]) -> bool {
        forall|i: int| 0 <= i < N ==> #[trigger] result[i] == self[i] * other[i]
    }

    open spec fn can_div(&self, other: [usize; N]) -> bool {
        forall|i: int| 0 <= i < N ==> #[trigger] other[i] != 0
    }

    open spec fn is_quotient(&self, other: [usize; N], result: [usize; N]) -> bool {
        forall|i: int| 0 <= i < N ==> #[trigger] result[i] == quotient(self[i] as int, other[i] as int)
    }

    fn add(&self, other: [usize; N]) -> (result: [usize; N]) {
        let mut result: [usize; N] = [0usize; N];
        let mut i: usize = 0;
        while i < N
            invariant
                i <= N,
                self.can_add(other),
                forall|k: int| 0 <= k < i ==> #[trigger] result[k] == self[k] + other[k],
            decreases N - i,
        {
            result[i] = self[i] + other[i];
            i = i + 1;
        }
        result
    }

    fn sub(&self, other: [usize; N]) -> (result: [usize; N]) {
        let mut result: [usize; N] = [0usize; N];
        let mut i: usize = 0;
        while i < N
            invariant
                i <= N,
                self.can_sub(other),
                forall|k: int| 0 <= k < i ==> #[trigger] result[k] == self[k] - other[k],
            decreases N - i,
        {
            result[i] = self[i] - other[i];
            i = i + 1;
        }
        result
    }

    fn mul(&self, other: [usize; N]) -> (result: [usize; N]) {
        let mut result: [usize; N] = [0usize; N];
        let mut i: usize = 0;
        while i < N
            invariant
                i <= N,
                self.can_mul(other),
                forall|k: int| 0 <= k < i ==> #[trigger] result[k] == self[k] * other[k],
            decreases N - i,
        {
            result[i] = self[i] * other[i];
            i = i + 1;
        }
        result
    }

    fn div(&self, other: [usize; N]) -> (result: [usize; N]) {
        let mut result: [usize; N] = [0usize; N];
        let mut i: usize = 0;
        while i < N
            invariant
                i <= N,
                self.can_div(other),
                forall|k: int| 0 <= k < i ==> #[trigger] result[k] == quotient(self[k] as int, other[k] as int),
            decreases N - i,
        {
            result[i] = self[i] / other[i];
            i = i + 1;
        }
        result
    }
}

impl<const N: usize> VecArith<usize> for [usize; N] {
    open spec fn can_add(&self, other: usize) -> bool {
        forall|i: int| 0 <= i < N ==> usize::MIN <= #[trigger] self[i] + other <= usize::MAX
    }

    open spec fn is_sum(&self, other: usize, result: [usize; N]) -> bool {
        forall|i: int| 0 <= i < N ==> #[trigger] result[i] == self[i] + other
    }

    open spec fn can_sub(&self, other: usize) -> bool {
        forall|i: int| 0 <= i < N ==> usize::MIN <= #[trigger] self[i] - other <= usize::MAX
    }

    open spec fn is_difference(&self, other: usize, result: [usize; N]) -> bool {
        forall|i: int| 0 <= i < N ==> #[trigger] result[i] == self[i] - other
    }

    open spec fn can_mul(&self, other: usize) -> bool {
        forall|i: int| 0 <= i < N ==> usize::MIN <= #[trigger] self[i] * other <= usize::MAX
    }

    open spec fn is_product(&self, other: usize, result: [usize; N]) -> bool {
        forall|i: int| 0 <= i < N ==> #[trigger] result[i] == self[i] * other
    }

    open spec fn can_div(&self, other: usize) -> bool {
        (N > 0 ==> other != 0)
    }

    open spec fn is_quotient(&self, other: usize, result: [usize; N]) -> bool {
        forall|i: int| 0 <= i < N ==> #[trigger] result[i] == quotient(self[i] as int, other as int)
    }

    fn add(&self, other: usize) -> (result: [usize; N]) {
        let mut result: [usize; N] = [0usize; N];
        let mut i: usize = 0;
        while i < N
            invariant
                i <= N,
                self.can_add(other),
                forall|k: int| 0 <= k < i ==> #[trigger] result[k] == self[k] + other,
            decreases N - i,
        {
            result[i] = self[i] + other;
            i = i + 1;
        }
        result
    }

    fn sub(&self, other: usize) -> (result: [usize; N]) {
        let mut result: [usize; N] = [0usize; N];
        let mut i: usize = 0;
        while i < N
            invariant
                i <= N,
                self.can_sub(other),
                forall|k: int| 0 <= k < i ==> #[trigger] result[k] == self[k] - other,
            decreases N - i,
        {
            result[i] = self[i] - other;
            i = i + 1;
        }
        result
    }

    fn mul(&self, other: usize) -> (result: [usize; N]) {
        let mut result: [usize; N] = [0usize; N];
        let mut i: usize = 0;
        while i < N
            invariant
                i <= N,
                self.can_mul(other),
                forall|k: int| 0 <= k < i ==> #[trigger] result[k] == self[k] * other,
            decreases N - i,
        {
            result[i] = self[i] * other;
            i = i + 1;
        }
        result
    }

    fn div(&self, other: usize) -> (result: [usize; N]) {
        let mut result: [usize; N] = [0usize; N];
        let mut i: usize = 0;
        while i < N
            invariant
                i <= N,
                self.can_div(other),
                forall|k: int| 0 <= k < i ==> #[trigger] result[k] == quotient(self[k] as int, other as int),
            decreases N - i,
        {
            result[i] = self[i] / other;
            i = i + 1;
        }
        result
    }
}

impl<const N: usize> VecArith<[u32; N]> for [u32; N] {
    open spec fn can_add(&self, other: [u32; N]) -> bool {
        forall|i: int| 0 <= i < N ==> u32::MIN <= #[trigger] self[i] + other[i] <= u32::MAX
    }

    open spec fn is_sum(&self, other: [u32; N], result: [u32; N]) -> bool {
        forall|i: int| 0 <= i < N ==> #[trigger] result[i] == self[i] + other[i]
    }

    open spec fn can_sub(&self, other: [u32; N]) -> bool {
        forall|i: int| 0 <= i < N ==> u32::MIN <= #[trigger] self[i] - other[i] <= u32::MAX
    }

    open spec fn is_difference(&self, other: [u32; N], result: [u32; N]) -> bool {
        forall|i: int| 0 <= i < N ==> #[trigger] result[i] == self[i] - other[i]
    }

    open spec fn can_mul(&self, other: [u32; N]) -> bool {
        forall|i: int| 0 <= i < N ==> u32::MIN <= #[trigger] self[i] * other[i] <= u32::MAX
    }

    open spec fn is_product(&self, other: [u32; N], result: [u32; N]) -> bool {
        forall|i: int| 0 <= i < N ==> #[trigger] result[i] == self[i] * other[i]
    }

    open spec fn can_div(&self, other: [u32; N]) -> bool {
        forall|i: int| 0 <= i < N ==> #[trigger] other[i] != 0
    }

    open spec fn is_quotient(&self, other: [u32; N], result: [u32; N]) -> bool {
        forall|i: int| 0 <= i < N ==> #[trigger] result[i] == quotient(self[i] as int, other[i] as int)
    }

    fn add(&self, other: [u32; N]) -> (result: [u32; N]) {
        let mut result: [u32; N] = [0u32; N];
        let mut i: usize = 0;
        while i < N
            invariant
                i <= N,
                self.can_add(other),
                forall|k: int| 0 <= k < i ==> #[trigger] result[k] == self[k] + other[k],
            decreases N - i,
        {
            result[i] = self[i] + other[i];
            i = i + 1;
        }
        result
    }

    fn sub(&self, other: [u32; N]) -> (result: [u32; N]) {
        let mut result: [u32; N] = [0u32; N];
        let mut i: usize = 0;
        while i < N
            invariant
                i <= N,
                self.can_sub(other),
                forall|k: int| 0 <= k < i ==> #[trigger] result[k] == self[k] - other[k],
            decreases N - i,
        {
            result[i] = self[i] - other[i];
            i = i + 1;
        }
        result
    }

    fn mul(&self, other: [u32; N]) -> (result: [u32; N]) {
        let mut result: [u32; N] = [0u32; N];
        let mut i: usize = 0;
        while i < N
            invariant
                i <= N,
                self.can_mul(other),
                forall|k: int| 0 <= k < i ==> #[trigger] result[k] == self[k] * other[k],
            decreases N - i,
        {
            result[i] = self[i] * other[i];
            i = i + 1;
        }
        result
    }

    fn div(&self, other: [u32; N]) -> (result: [u32; N]) {
        let mut result: [u32; N] = [0u32; N];
        let mut i: usize = 0;
        while i < N
            invariant
                i <= N,
                self.can_div(other),
                forall|k: int| 0 <= k < i ==> #[trigger] result[k] == quotient(self[k] as int, other[k] as int),
            decreases N - i,
        {
            result[i] = self[i] / other[i];
            i = i + 1;
        }
        result
    }
}

impl<const N: usize> VecArith<u32> for [u32; N] {
    open spec fn can_add(&self, other: u32) -> bool {
        forall|i: int| 0 <= i < N ==> u32::MIN <= #[trigger] self[i] + other <= u32::MAX
    }

    open spec fn is_sum(&self, other: u32, result: [u32; N]) -> bool {
        forall|i: int| 0 <= i < N ==> #[trigger] result[i] == self[i] + other
    }

    open spec fn can_sub(&self, other: u32) -> bool {
        forall|i: int| 0 <= i < N ==> u32::MIN <= #[trigger] self[i] - other <= u32::MAX
    }

    open spec fn is_difference(&self, other: u32, result: [u32; N]) -> bool {
        forall|i: int| 0 <= i < N ==> #[trigger] result[i] == self[i] - other
    }

    open spec fn can_mul(&self, other: u32) -> bool {
        forall|i: int| 0 <= i < N ==> u32::MIN <= #[trigger] self[i] * other <= u32::MAX
    }

    open spec fn is_product(&self, other: u32, result: [u32; N]) -> bool {
        forall|i: int| 0 <= i < N ==> #[trigger] result[i] == self[i] * other
    }

    open spec fn can_div(&self, other: u32) -> bool {
        (N > 0 ==> other != 0)
    }

    open spec fn is_quotient(&self, other: u32, result: [u32; N]) -> bool {
        forall|i: int| 0 <= i < N ==> #[trigger] result[i] == quotient(self[i] as int, other as int)
    }

    fn add(&self, other: u32) -> (result: [u32; N]) {
        let mut result: [u32; N] = [0u32; N];
        let mut i: usize = 0;
        while i < N
            invariant
                i <= N,
                self.can_add(other),
                forall|k: int| 0 <= k < i ==> #[trigger] result[k] == self[k] + other,
            decreases N - i,
        {
            result[i] = self[i] + other;
            i = i + 1;
        }
        result
    }

    fn sub(&self, other: u32) -> (result: [u32; N]) {
        let mut result: [u32; N] = [0u32; N];
        let mut i: usize = 0;
        while i < N
            invariant
                i <= N,
                self.can_sub(other),
                forall|k: int| 0 <= k < i ==> #[trigger] result[k] == self[k] - other,
            decreases N - i,
        {
            result[i] = self[i] - other;
            i = i + 1;
        }
        result
    }

    fn mul(&self, other: u32) -> (result: [u32; N]) {
        let mut result: [u32; N] = [0u32; N];
        let mut i: usize = 0;
        while i < N
            invariant
                i <= N,
                self.can_mul(other),
                forall|k: int| 0 <= k < i ==> #[trigger] result[k] == self[k] * other,
            decreases N - i,
        {
            result[i] = self[i] * other;
            i = i + 1;
        }
        result
    }

    fn div(&self, other: u32) -> (result: [u32; N]) {
        let mut result: [u32; N] = [0u32; N];
        let mut i: usize = 0;
        while i < N
            invariant
                i <= N,
                self.can_div(other),
                forall|k: int| 0 <= k < i ==> #[trigger] result[k] == quotient(self[k] as int, other as int),
            decreases N - i,
        {
            result[i] = self[i] / other;
            i = i + 1;
        }
        result
    }
}

impl<const N: usize> VecArith<[i32; N]> for [i32; N] {
    open spec fn can_add(&self, other: [i32; N]) -> bool {
        forall|i: int| 0 <= i < N ==> i32::MIN <= #[trigger] self[i] + other[i] <= i32::MAX
    }

    open spec fn is_sum(&self, other: [i32; N], result: [i32; N]) -> bool {
        forall|i: int| 0 <= i < N ==> #[trigger] result[i] == self[i] + other[i]
    }

    open spec fn can_sub(&self, other: [i32; N]) -> bool {
        forall|i: int| 0 <= i < N ==> i32::MIN <= #[trigger] self[i] - other[i] <= i32::MAX
    }

    open spec fn is_difference(&self, other: [i32; N], result: [i32; N]) -> bool {
        forall|i: int| 0 <= i < N ==> #[trigger] result[i] == self[i] - other[i]
    }

    open spec fn can_mul(&self, other: [i32; N]) -> bool {
        forall|i: int| 0 <= i < N ==> i32::MIN <= #[trigger] self[i] * other[i] <= i32::MAX
    }

    open spec fn is_product(&self, other: [i32; N], result: [i32; N]) -> bool {
        forall|i: int| 0 <= i < N ==> #[trigger] result[i] == self[i] * other[i]
    }

    open spec fn can_div(&self, other: [i32; N]) -> bool {
        forall|i: int| 0 <= i < N ==> #[trigger] other[i] != 0 && !(self[i] == i32::MIN && other[i] == -1)
    }

    open spec fn is_quotient(&self, other: [i32; N], result: [i32; N]) -> bool {
        forall|i: int| 0 <= i < N ==> #[trigger] result[i] == quotient(self[i] as int, other[i] as int)
    }

    fn add(&self, other: [i32; N]) -> (result: [i32; N]) {
        let mut result: [i32; N] = [0i32; N];
        let mut i: usize = 0;
        while i < N
            invariant
                i <= N,
                self.can_add(other),
                forall|k: int| 0 <= k < i ==> #[trigger] result[k] == self[k] + other[k],
            decreases N - i,
        {
            result[i] = self[i] + other[i];
            i = i + 1;
        }
        result
    }

    fn sub(&self, other: [i32; N]) -> (result: [i32; N]) {
        let mut result: [i32; N] = [0i32; N];
        let mut i: usize = 0;
        while i < N
            invariant
                i <= N,
                self.can_sub(other),
                forall|k: int| 0 <= k < i ==> #[trigger] result[k] == self[k] - other[k],
            decreases N - i,
        {
            result[i] = self[i] - other[i];
            i = i + 1;
        }
        result
    }

    fn mul(&self, other: [i32; N]) -> (result: [i32; N]) {
        let mut result: [i32; N] = [0i32; N];
        let mut i: usize = 0;
        while i < N
            invariant
                i <= N,
                self.can_mul(other),
                forall|k: int| 0 <= k < i ==> #[trigger] result[k] == self[k] * other[k],
            decreases N - i,
        {
            result[i] = self[i] * other[i];
            i = i + 1;
        }
        result
    }

    fn div(&self, other: [i32; N]) -> (result: [i32; N]) {
        let mut result: [i32; N] = [0i32; N];
        let mut i: usize = 0;
        while i < N
            invariant
                i <= N,
                self.can_div(other),
                forall|k: int| 0 <= k < i ==> #[trigger] result[k] == quotient(self[k] as int, other[k] as int),
            decreases N - i,
        {
            result[i] = divide(self[i], other[i]);
            i = i + 1;
        }
        result
    }
}

impl<const N: usize> VecArith<i32> for [i32; N] {
    open spec fn can_add(&self, other: i32) -> bool {
        forall|i: int| 0 <= i < N ==> i32::MIN <= #[trigger] self[i] + other <= i32::MAX
    }

    open spec fn is_sum(&self, other: i32, result: [i32; N]) -> bool {
        forall|i: int| 0 <= i < N ==> #[trigger] result[i] == self[i] + other
    }

    open spec fn can_sub(&self, other: i32) -> bool {
        forall|i: int| 0 <= i < N ==> i32::MIN <= #[trigger] self[i] - other <= i32::MAX
    }

    open spec fn is_difference(&self, other: i32, result: [i32; N]) -> bool {
        forall|i: int| 0 <= i < N ==> #[trigger] result[i] == self[i] - other
    }

    open spec fn can_mul(&self, other: i32) -> bool {
        forall|i: int| 0 <= i < N ==> i32::MIN <= #[trigger] self[i] * other <= i32::MAX
    }

    open spec fn is_product(&self, other: i32, result: [i32; N]) -> bool {
        forall|i: int| 0 <= i < N ==> #[trigger] result[i] == self[i] * other
    }

    open spec fn can_div(&self, other: i32) -> bool {
        (N > 0 ==> other != 0) && forall|i: int| 0 <= i < N ==> !(#[trigger] self[i] == i32::MIN && other == -1)
    }

    open spec fn is_quotient(&self, other: i32, result: [i32; N]) -> bool {
        forall|i: int| 0 <= i < N ==> #[trigger] result[i] == quotient(self[i] as int, other as int)
    }

    fn add(&self, other: i32) -> (result: [i32; N]) {
        let mut result: [i32; N] = [0i32; N];
        let mut i: usize = 0;
        while i < N
            invariant
                i <= N,
                self.can_add(other),
                forall|k: int| 0 <= k < i ==> #[trigger] result[k] == self[k] + other,
            decreases N - i,
        {
            result[i] = self[i] + other;
            i = i + 1;
        }
        result
    }

    fn sub(&self, other: i32) -> (result: [i32; N]) {
        let mut result: [i32; N] = [0i32; N];
        let mut i: usize = 0;
        while i < N
            invariant
                i <= N,
                self.can_sub(other),
                forall|k: int| 0 <= k < i ==> #[trigger] result[k] == self[k] - other,
            decreases N - i,
        {
            result[i] = self[i] - other;
            i = i + 1;
        }
        result
    }

    fn mul(&self, other: i32) -> (result: [i32; N]) {
        let mut result: [i32; N] = [0i32; N];
        let mut i: usize = 0;
        while i < N
            invariant
                i <= N,
                self.can_mul(other),
                forall|k: int| 0 <= k < i ==> #[trigger] result[k] == self[k] * other,
            decreases N - i,
        {
            result[i] = self[i] * other;
            i = i + 1;
        }
        result
    }

    fn div(&self, other: i32) -> (result: [i32; N]) {
        let mut result: [i32; N] = [0i32; N];
        let mut i: usize = 0;
        while i < N
            invariant
                i <= N,
                self.can_div(other),
                forall|k: int| 0 <= k < i ==> #[trigger] result[k] == quotient(self[k] as int, other as int),
            decreases N - i,
        {
            result[i] = divide(self[i], other);
            i = i + 1;
        }
        result
    }
}


/// Telling whether a cell lies on the rim of a grid.
pub trait VecBorder<T>: Sized {
    /// True when the rim can be told without leaving the range of `T`.
    spec fn can_border(self, grid: Self, border: T) -> bool;

    /// True when some component is nearer than `border` to the grid's low
    /// or high edge.
    spec fn is_on_border(self, grid: Self, border: T) -> bool;

    fn on_border(self, grid: Self, border: T) -> (yes: bool)
        requires
            self.can_border(grid, border),
        ensures
            yes == self.is_on_border(grid, border),
    ;
}

/// The index of a cell in a grid stored row by row.
pub trait VecIndexer<T>: Sized {
    /// True when the index stays in the range of `T`.
    spec fn can_index(&self, grid: Self) -> bool;

    /// The first component plus the second times the grid's width.
    spec fn index_in(&self, grid: Self) -> T;

    fn as_index(&self, grid: Self) -> (index: T)
        requires
            self.can_index(grid),
        ensures
            index == self.index_in(grid),
    ;
}

/// Sizes of grids and membership in them.
pub trait VecSpace<T>: Sized {
    /// True when the product of the components can be taken from the first
    /// on without leaving the range of `T`.
    spec fn can_space(&self) -> bool;

    /// The product of the components.
    spec fn volume(&self) -> T;

    /// True when every component of `target` is at least zero and less than
    /// the grid's.
    spec fn holds(&self, target: Self) -> bool;

    /// True when the sums of corner and size stay in the range of `T`.
    spec fn can_rect(&self, left_top: Self, size: Self) -> bool;

    /// True when every component lies between the corner's and the
    /// corner's plus the size's, both included.
    spec fn within(&self, left_top: Self, size: Self) -> bool;

    fn space(&self) -> (volume: T)
        requires
            self.can_space(),
        ensures
            volume == self.volume(),
    ;

    fn has(&self, target: Self) -> (yes: bool)
        ensures
            yes == self.holds(target),
    ;

    fn in_rect(&self, left_top: Self, size: Self) -> (yes: bool)
        requires
            self.can_rect(left_top, size),
        ensures
            yes == self.within(left_top, size),
    ;
}

/// The product of the first `count` numbers of `values`.
pub open spec fn product(values: Seq<int>, count: int) -> int
    decreases count,
{
    if count <= 0 {
        1
    } else {
        product(values, count - 1) * values[count - 1]
    }
}

/// The components of `vector` as numbers.
pub open spec fn usize_components<const N: usize>(vector: [usize; N]) -> Seq<int> {
    Seq::new(N as nat, |i: int| vector[i] as int)
}
impl<const N: usize> VecBorder<usize> for [usize; N] {
    open spec fn can_border(self, grid: [usize; N], border: usize) -> bool {
        forall|i: int| 0 <= i < N && self[i] >= border ==> usize::MIN <= #[trigger] grid[i] - border <= usize::MAX
    }

    open spec fn is_on_border(self, grid: [usize; N], border: usize) -> bool {
        exists|i: int| 0 <= i < N && (#[trigger] self[i] < border || self[i] >= grid[i] - border)
    }

    fn on_border(self, grid: [usize; N], border: usize) -> (yes: bool) {
        let mut component: usize = 0;
        while component < N
            invariant
                component <= N,
                self.can_border(grid, border),
                forall|i: int|
                    0 <= i < component ==> !(#[trigger] self[i] < border || self[i] >= grid[i] - border),
            decreases N - component,
        {
            assert(self[component as int] >= border ==> usize::MIN <= grid[component as int] - border <= usize::MAX);
            if self[component] < border || self[component] >= grid[component] - border {
                return true;
            }
            component = component + 1;
        }
        false
    }
}

impl VecIndexer<usize> for [usize; 2] {
    open spec fn can_index(&self, grid: [usize; 2]) -> bool {
        &&& usize::MIN <= self[1] * grid[0] <= usize::MAX
        &&& usize::MIN <= self[0] + self[1] * grid[0] <= usize::MAX
    }

    open spec fn index_in(&self, grid: [usize; 2]) -> usize {
        (self[0] + self[1] * grid[0]) as usize
    }

    fn as_index(&self, grid: [usize; 2]) -> (index: usize) {
        self[0] + self[1] * grid[0]
    }
}

impl<const N: usize> VecSpace<usize> for [usize; N] {
    open spec fn can_space(&self) -> bool {
        &&& N >= 1
        &&& forall|count: int|
            1 <= count <= N ==> usize::MIN <= #[trigger] product(usize_components(*self), count) <= usize::MAX
    }

    open spec fn volume(&self) -> usize {
        product(usize_components(*self), N as int) as usize
    }

    open spec fn holds(&self, target: [usize; N]) -> bool {
        forall|i: int| 0 <= i < N ==> 0 <= #[trigger] target[i] < self[i]
    }

    open spec fn can_rect(&self, left_top: [usize; N], size: [usize; N]) -> bool {
        forall|i: int| 0 <= i < N ==> usize::MIN <= #[trigger] left_top[i] + size[i] <= usize::MAX
    }

    open spec fn within(&self, left_top: [usize; N], size: [usize; N]) -> bool {
        forall|i: int| 0 <= i < N ==> left_top[i] <= #[trigger] self[i] <= left_top[i] + size[i]
    }

    fn space(&self) -> (volume: usize) {
        let ghost values = usize_components(*self);
        let mut result: usize = self[0];
        assert(product(values, 1) == values[0]) by {
            assert(product(values, 0) == 1);
            assert(product(values, 1) == product(values, 0) * values[0]);
        }
        let mut i: usize = 1;
        while i < N
            invariant
                1 <= i <= N,
                self.can_space(),
                values == usize_components(*self),
                result == product(values, i as int),
            decreases N - i,
        {
            assert(product(values, i + 1) == product(values, i as int) * values[i as int]);
            assert(usize::MIN <= product(values, i + 1) <= usize::MAX);
            result = result * self[i];
            i = i + 1;
        }
        result
    }

    fn has(&self, target: [usize; N]) -> (yes: bool) {
        let mut i: usize = 0;
        while i < N
            invariant
                i <= N,
                forall|k: int| 0 <= k < i ==> 0 <= #[trigger] target[k] < self[k],
            decreases N - i,
        {
            if target[i] < 0 || target[i] >= self[i] {
                assert(!(0 <= target[i as int] < self[i as int]));
                return false;
            }
            i = i + 1;
        }
        true
    }

    fn in_rect(&self, left_top: [usize; N], size: [usize; N]) -> (yes: bool) {
        let mut i: usize = 0;
        while i < N
            invariant
                i <= N,
                self.can_rect(left_top, size),
                forall|k: int| 0 <= k < i ==> left_top[k] <= #[trigger] self[k] <= left_top[k] + size[k],
            decreases N - i,
        {
            assert(usize::MIN <= left_top[i as int] + size[i as int] <= usize::MAX);
            if self[i] < left_top[i] || self[i] > left_top[i] + size[i] {
                assert(!(left_top[i as int] <= self[i as int] <= left_top[i as int] + size[i as int]));
                return false;
            }
            i = i + 1;
        }
        true
    }
}

/// The components of `vector` as numbers.
pub open spec fn i32_components<const N: usize>(vector: [i32; N]) -> Seq<int> {
    Seq::new(N as nat, |i: int| vector[i] as int)
}
impl<const N: usize> VecBorder<i32> for [i32; N] {
    open spec fn can_border(self, grid: [i32; N], border: i32) -> bool {
        forall|i: int| 0 <= i < N && self[i] >= border ==> i32::MIN <= #[trigger] grid[i] - border <= i32::MAX
    }

    open spec fn is_on_border(self, grid: [i32; N], border: i32) -> bool {
        exists|i: int| 0 <= i < N && (#[trigger] self[i] < border || self[i] >= grid[i] - border)
    }

    fn on_border(self, grid: [i32; N], border: i32) -> (yes: bool) {
        let mut component: usize = 0;
        while component < N
            invariant
                component <= N,
                self.can_border(grid, border),
                forall|i: int|
                    0 <= i < component ==> !(#[trigger] self[i] < border || self[i] >= grid[i] - border),
            decreases N - component,
        {
            assert(self[component as int] >= border ==> i32::MIN <= grid[component as int] - border <= i32::MAX);
            if self[component] < border || self[component] >= grid[component] - border {
                return true;
            }
            component = component + 1;
        }
        false
    }
}

impl VecIndexer<i32> for [i32; 2] {
    open spec fn can_index(&self, grid: [i32; 2]) -> bool {
        &&& i32::MIN <= self[1] * grid[0] <= i32::MAX
        &&& i32::MIN <= self[0] + self[1] * grid[0] <= i32::MAX
    }

    open spec fn index_in(&self, grid: [i32; 2]) -> i32 {
        (self[0] + self[1] * grid[0]) as i32
    }

    fn as_index(&self, grid: [i32; 2]) -> (index: i32) {
        self[0] + self[1] * grid[0]
    }
}

impl<const N: usize> VecSpace<i32> for [i32; N] {
    open spec fn can_space(&self) -> bool {
        &&& N >= 1
        &&& forall|count: int|
            1 <= count <= N ==> i32::MIN <= #[trigger] product(i32_components(*self), count) <= i32::MAX
    }

    open spec fn volume(&self) -> i32 {
        product(i32_components(*self), N as int) as i32
    }

    open spec fn holds(&self, target: [i32; N]) -> bool {
        forall|i: int| 0 <= i < N ==> 0 <= #[trigger] target[i] < self[i]
    }

    open spec fn can_rect(&self, left_top: [i32; N], size: [i32; N]) -> bool {
        forall|i: int| 0 <= i < N ==> i32::MIN <= #[trigger] left_top[i] + size[i] <= i32::MAX
    }

    open spec fn within(&self, left_top: [i32; N], size: [i32; N]) -> bool {
        forall|i: int| 0 <= i < N ==> left_top[i] <= #[trigger] self[i] <= left_top[i] + size[i]
    }

    fn space(&self) -> (volume: i32) {
        let ghost values = i32_components(*self);
        let mut result: i32 = self[0];
        assert(product(values, 1) == values[0]) by {
            assert(product(values, 0) == 1);
            assert(product(values, 1) == product(values, 0) * values[0]);
        }
        let mut i: usize = 1;
        while i < N
            invariant
                1 <= i <= N,
                self.can_space(),
                values == i32_components(*self),
                result == product(values, i as int),
            decreases N - i,
        {
            assert(product(values, i + 1) == product(values, i as int) * values[i as int]);
            assert(i32::MIN <= product(values, i + 1) <= i32::MAX);
            result = result * self[i];
            i = i + 1;
        }
        result
    }

    fn has(&self, target: [i32; N]) -> (yes: bool) {
        let mut i: usize = 0;
        while i < N
            invariant
                i <= N,
                forall|k: int| 0 <= k < i ==> 0 <= #[trigger] target[k] < self[k],
            decreases N - i,
        {
            if target[i] < 0 || target[i] >= self[i] {
                assert(!(0 <= target[i as int] < self[i as int]));
                return false;
            }
            i = i + 1;
        }
        true
    }

    fn in_rect(&self, left_top: [i32; N], size: [i32; N]) -> (yes: bool) {
        let mut i: usize = 0;
        while i < N
            invariant
                i <= N,
                self.can_rect(left_top, size),
                forall|k: int| 0 <= k < i ==> left_top[k] <= #[trigger] self[k] <= left_top[k] + size[k],
            decreases N - i,
        {
            assert(i32::MIN <= left_top[i as int] + size[i as int] <= i32::MAX);
            if self[i] < left_top[i] || self[i] > left_top[i] + size[i] {
                assert(!(left_top[i as int] <= self[i as int] <= left_top[i as int] + size[i as int]));
                return false;
            }
            i = i + 1;
        }
        true
    }
}

/// The opposite vector.
pub trait VecNeg: Sized {
    /// True when every component has an opposite in its type.
    spec fn can_neg(&self) -> bool;

    /// True when `result` is the opposite vector.
    spec fn is_opposite(&self, result: Self) -> bool;

    fn neg(&self) -> (result: Self)
        requires
            self.can_neg(),
        ensures
            self.is_opposite(result),
    ;
}

impl<const N: usize> VecNeg for [i32; N] {
    open spec fn can_neg(&self) -> bool {
        forall|i: int| 0 <= i < N ==> #[trigger] self[i] != i32::MIN
    }

    open spec fn is_opposite(&self, result: [i32; N]) -> bool {
        forall|i: int| 0 <= i < N ==> #[trigger] result[i] == -self[i]
    }

    fn neg(&self) -> (result: [i32; N]) {
        let mut result: [i32; N] = [0i32; N];
        let mut i: usize = 0;
        while i < N
            invariant
                i <= N,
                self.can_neg(),
                forall|k: int| 0 <= k < i ==> #[trigger] result[k] == -self[k],
            decreases N - i,
        {
            assert(self[i as int] != i32::MIN);
            result[i] = -self[i];
            i = i + 1;
        }
        result
    }
}

/// The same vector with components of type `T`, each converted as the
/// machine converts numbers: kept where it fits, cut to the low bits
/// where it does not.
pub trait VecCast<T, const N: usize> {
    /// True when `result` is the converted vector.
    spec fn is_cast(&self, result: [T; N]) -> bool;

    fn cast(&self) -> (result: [T; N])
        ensures
            self.is_cast(result),
    ;
}

impl<const N: usize> VecCast<usize, N> for [i32; N] {
    open spec fn is_cast(&self, result: [usize; N]) -> bool {
        forall|i: int| 0 <= i < N ==> #[trigger] result[i] == self[i] as usize
    }

    fn cast(&self) -> (result: [usize; N]) {
        let mut result: [usize; N] = [0usize; N];
        let mut i: usize = 0;
        while i < N
            invariant
                i <= N,
                forall|k: int| 0 <= k < i ==> #[trigger] result[k] == self[k] as usize,
            decreases N - i,
        {
            let value: i32 = self[i];
            result[i] = #[verifier::truncate]
            (value as usize);
            i = i + 1;
        }
        result
    }
}

impl<const N: usize> VecCast<isize, N> for [usize; N] {
    open spec fn is_cast(&self, result: [isize; N]) -> bool {
        forall|i: int| 0 <= i < N ==> #[trigger] result[i] == self[i] as isize
    }

    fn cast(&self) -> (result: [isize; N]) {
        let mut result: [isize; N] = [0isize; N];
        let mut i: usize = 0;
        while i < N
            invariant
                i <= N,
                forall|k: int| 0 <= k < i ==> #[trigger] result[k] == self[k] as isize,
            decreases N - i,
        {
            let value: usize = self[i];
            result[i] = #[verifier::truncate]
            (value as isize);
            i = i + 1;
        }
        result
    }
}

impl<const N: usize> VecCast<i32, N> for [usize; N] {
    open spec fn is_cast(&self, result: [i32; N]) -> bool {
        forall|i: int| 0 <= i < N ==> #[trigger] result[i] == self[i] as i32
    }

    fn cast(&self) -> (result: [i32; N]) {
        let mut result: [i32; N] = [0i32; N];
        let mut i: usize = 0;
        while i < N
            invariant
                i <= N,
                forall|k: int| 0 <= k < i ==> #[trigger] result[k] == self[k] as i32,
            decreases N - i,
        {
            let value: usize = self[i];
            result[i] = #[verifier::truncate]
            (value as i32);
            i = i + 1;
        }
        result
    }
}

impl<const N: usize> VecCast<usize, N> for [isize; N] {
    open spec fn is_cast(&self, result: [usize; N]) -> bool {
        forall|i: int| 0 <= i < N ==> #[trigger] result[i] == self[i] as usize
    }

    fn cast(&self) -> (result: [usize; N]) {
        let mut result: [usize; N] = [0usize; N];
        let mut i: usize = 0;
        while i < N
            invariant
                i <= N,
                forall|k: int| 0 <= k < i ==> #[trigger] result[k] == self[k] as usize,
            decreases N - i,
        {
            let value: isize = self[i];
            result[i] = #[verifier::truncate]
            (value as usize);
            i = i + 1;
        }
        result
    }
}


/// True when the cell `(x, y)` lies nearer than `rim` to an edge of a grid
/// that is `w` wide and `h` high.
pub open spec fn on_rim(x: int, y: int, rim: int, w: int, h: int) -> bool {
    (y < rim || y >= h - rim) || (x < rim || x >= w - rim)
}

/// True when the cell `(x, y)` lies in the rectangle from `min` up to, not
/// including, `max`, and, where only the rim is asked for, on the rim.
pub open spec fn in_scan(
    x: int,
    y: int,
    min_x: int,
    max_x: int,
    min_y: int,
    max_y: int,
    only_rim: bool,
    rim: int,
) -> bool {
    &&& min_x <= x < max_x
    &&& min_y <= y < max_y
    &&& only_rim ==> on_rim(x, y, rim, max_x, max_y)
}

/// How many whole numbers lie from `min` up to, not including, `max`.
pub open spec fn span(min: int, max: int) -> int {
    if max > min {
        max - min
    } else {
        0
    }
}

/// True when `(ax, ay)` comes before `(bx, by)` in a walk row by row.
pub open spec fn comes_before(ax: int, ay: int, bx: int, by: int) -> bool {
    ay < by || (ay == by && ax < bx)
}

/// True when `cells` holds the cell `(x, y)`.
pub open spec fn usize_lists(cells: Seq<[usize; 2]>, x: int, y: int) -> bool {
    exists|i: int| 0 <= i < cells.len() && (#[trigger] cells[i])[0] == x && cells[i][1] == y
}

/// True when `cells` walks row by row, each cell after the one before it.
pub open spec fn usize_row_by_row(cells: Seq<[usize; 2]>) -> bool {
    forall|i: int, j: int|
        0 <= i < j < cells.len() ==> comes_before(
            (#[trigger] cells[i])[0] as int,
            cells[i][1] as int,
            (#[trigger] cells[j])[0] as int,
            cells[j][1] as int,
        )
}

/// True when `cells` is the walk, row by row, over exactly the cells that a
/// scan of the rectangle keeps.
pub open spec fn usize_scanned(
    cells: Seq<[usize; 2]>,
    min_x: int,
    max_x: int,
    min_y: int,
    max_y: int,
    only_rim: bool,
    rim: int,
) -> bool {
    &&& usize_row_by_row(cells)
    &&& forall|i: int|
        0 <= i < cells.len() ==> in_scan(
            (#[trigger] cells[i])[0] as int,
            cells[i][1] as int,
            min_x,
            max_x,
            min_y,
            max_y,
            only_rim,
            rim,
        )
    &&& forall|x: int, y: int|
        in_scan(x, y, min_x, max_x, min_y, max_y, only_rim, rim) ==> #[trigger] usize_lists(cells, x, y)
    &&& !only_rim ==> cells.len() == span(min_x, max_x) * span(min_y, max_y)
}

/// Walks the rectangle from `min` up to, not including, `max`, row by row,
/// and keeps every cell, or only the cells on the rim of width `rim`.
fn usize_scan(min_x: usize, max_x: usize, min_y: usize, max_y: usize, only_rim: bool, rim: usize) -> (cells: Vec<
    [usize; 2],
>)
    requires
        only_rim ==> min_x == 0 && min_y == 0 && rim >= 0,
    ensures
        usize_scanned(cells@, min_x as int, max_x as int, min_y as int, max_y as int, only_rim, rim as int),
{
    let mut cells: Vec<[usize; 2]> = Vec::new();
    let mut y: usize = min_y;
    while y < max_y
        invariant
            only_rim ==> min_x == 0 && min_y == 0 && rim >= 0,
            min_y <= y,
            y <= max_y || max_y <= min_y,
            max_y <= min_y ==> y == min_y,
            !only_rim ==> cells@.len() == span(min_x as int, max_x as int) * (y - min_y),
            usize_row_by_row(cells@),
            forall|i: int|
                0 <= i < cells@.len() ==> in_scan(
                    (#[trigger] cells@[i])[0] as int,
                    cells@[i][1] as int,
                    min_x as int,
                    max_x as int,
                    min_y as int,
                    max_y as int,
                    only_rim,
                    rim as int,
                ) && cells@[i][1] < y,
            forall|cx: int, cy: int|
                in_scan(cx, cy, min_x as int, max_x as int, min_y as int, max_y as int, only_rim, rim as int)
                    && cy < y ==> #[trigger] usize_lists(cells@, cx, cy),
        decreases max_y - y,
    {
        let mut x: usize = min_x;
        while x < max_x
            invariant
                only_rim ==> min_x == 0 && min_y == 0 && rim >= 0,
                min_y <= y < max_y,
                min_x <= x,
                x <= max_x || max_x <= min_x,
                max_x <= min_x ==> x == min_x,
                !only_rim ==> cells@.len() == span(min_x as int, max_x as int) * (y - min_y) + (x - min_x),
                usize_row_by_row(cells@),
                forall|i: int|
                    0 <= i < cells@.len() ==> in_scan(
                        (#[trigger] cells@[i])[0] as int,
                        cells@[i][1] as int,
                        min_x as int,
                        max_x as int,
                        min_y as int,
                        max_y as int,
                        only_rim,
                        rim as int,
                    ) && comes_before(cells@[i][0] as int, cells@[i][1] as int, x as int, y as int),
                forall|cx: int, cy: int|
                    in_scan(cx, cy, min_x as int, max_x as int, min_y as int, max_y as int, only_rim, rim as int)
                        && comes_before(cx, cy, x as int, y as int) ==> #[trigger] usize_lists(cells@, cx, cy),
            decreases max_x - x,
        {
            let keep = !only_rim || ((y < rim || y >= max_y - rim) || (x < rim || x >= max_x - rim));
            let ghost before = cells@;
            if keep {
                let cell: [usize; 2] = [x, y];
                cells.push(cell);
                proof {
                    assert(cells@[before.len() as int][0] == x && cells@[before.len() as int][1] == y);
                    assert forall|i: int, j: int| 0 <= i < j < cells@.len() implies comes_before(
                        (#[trigger] cells@[i])[0] as int,
                        cells@[i][1] as int,
                        (#[trigger] cells@[j])[0] as int,
                        cells@[j][1] as int,
                    ) by {
                        assert(cells@[i] == before[i]);
                        if j < before.len() {
                            assert(cells@[j] == before[j]);
                        }
                    }
                }
            }
            proof {
                assert forall|cx: int, cy: int|
                    in_scan(
                        cx,
                        cy,
                        min_x as int,
                        max_x as int,
                        min_y as int,
                        max_y as int,
                        only_rim,
                        rim as int,
                    ) && comes_before(cx, cy, x + 1, y as int) implies #[trigger] usize_lists(
                    cells@,
                    cx,
                    cy,
                ) by {
                    if comes_before(cx, cy, x as int, y as int) {
                        assert(usize_lists(before, cx, cy));
                        let i = choose|i: int|
                            0 <= i < before.len() && (#[trigger] before[i])[0] == cx && before[i][1] == cy;
                        assert(cells@[i] == before[i]);
                    } else {
                        assert(cx == x && cy == y);
                        assert(keep);
                        assert(cells@[before.len() as int][0] == cx);
                    }
                }
                assert forall|i: int| 0 <= i < cells@.len() implies comes_before(
                    (#[trigger] cells@[i])[0] as int,
                    cells@[i][1] as int,
                    x + 1,
                    y as int,
                ) by {
                    if i < before.len() {
                        assert(cells@[i] == before[i]);
                    }
                }
            }
            x = x + 1;
        }
        proof {
            assert forall|cx: int, cy: int|
                in_scan(cx, cy, min_x as int, max_x as int, min_y as int, max_y as int, only_rim, rim as int)
                    && cy < y + 1 implies #[trigger] usize_lists(cells@, cx, cy) by {
                assert(comes_before(cx, cy, x as int, y as int));
            }
            let width = span(min_x as int, max_x as int);
            assert(x - min_x == width);
            assert(width * (y - min_y) + width == width * (y + 1 - min_y)) by (nonlinear_arith);
        }
        y = y + 1;
    }
    proof {
        let width = span(min_x as int, max_x as int);
        if max_y <= min_y {
            assert(y == min_y);
            assert(width * 0 == 0);
        } else {
            assert(y == max_y);
        }
    }
    cells
}

/// True when `cells` holds the cell `(x, y)`.
pub open spec fn i32_lists(cells: Seq<[i32; 2]>, x: int, y: int) -> bool {
    exists|i: int| 0 <= i < cells.len() && (#[trigger] cells[i])[0] == x && cells[i][1] == y
}

/// True when `cells` walks row by row, each cell after the one before it.
pub open spec fn i32_row_by_row(cells: Seq<[i32; 2]>) -> bool {
    forall|i: int, j: int|
        0 <= i < j < cells.len() ==> comes_before(
            (#[trigger] cells[i])[0] as int,
            cells[i][1] as int,
            (#[trigger] cells[j])[0] as int,
            cells[j][1] as int,
        )
}

/// True when `cells` is the walk, row by row, over exactly the cells that a
/// scan of the rectangle keeps.
pub open spec fn i32_scanned(
    cells: Seq<[i32; 2]>,
    min_x: int,
    max_x: int,
    min_y: int,
    max_y: int,
    only_rim: bool,
    rim: int,
) -> bool {
    &&& i32_row_by_row(cells)
    &&& forall|i: int|
        0 <= i < cells.len() ==> in_scan(
            (#[trigger] cells[i])[0] as int,
            cells[i][1] as int,
            min_x,
            max_x,
            min_y,
            max_y,
            only_rim,
            rim,
        )
    &&& forall|x: int, y: int|
        in_scan(x, y, min_x, max_x, min_y, max_y, only_rim, rim) ==> #[trigger] i32_lists(cells, x, y)
    &&& !only_rim ==> cells.len() == span(min_x, max_x) * span(min_y, max_y)
}

/// Walks the rectangle from `min` up to, not including, `max`, row by row,
/// and keeps every cell, or only the cells on the rim of width `rim`.
fn i32_scan(min_x: i32, max_x: i32, min_y: i32, max_y: i32, only_rim: bool, rim: i32) -> (cells: Vec<
    [i32; 2],
>)
    requires
        only_rim ==> min_x == 0 && min_y == 0 && rim >= 0,
    ensures
        i32_scanned(cells@, min_x as int, max_x as int, min_y as int, max_y as int, only_rim, rim as int),
{
    let mut cells: Vec<[i32; 2]> = Vec::new();
    let mut y: i32 = min_y;
    while y < max_y
        invariant
            only_rim ==> min_x == 0 && min_y == 0 && rim >= 0,
            min_y <= y,
            y <= max_y || max_y <= min_y,
            max_y <= min_y ==> y == min_y,
            !only_rim ==> cells@.len() == span(min_x as int, max_x as int) * (y - min_y),
            i32_row_by_row(cells@),
            forall|i: int|
                0 <= i < cells@.len() ==> in_scan(
                    (#[trigger] cells@[i])[0] as int,
                    cells@[i][1] as int,
                    min_x as int,
                    max_x as int,
                    min_y as int,
                    max_y as int,
                    only_rim,
                    rim as int,
                ) && cells@[i][1] < y,
            forall|cx: int, cy: int|
                in_scan(cx, cy, min_x as int, max_x as int, min_y as int, max_y as int, only_rim, rim as int)
                    && cy < y ==> #[trigger] i32_lists(cells@, cx, cy),
        decreases max_y - y,
    {
        let mut x: i32 = min_x;
        while x < max_x
            invariant
                only_rim ==> min_x == 0 && min_y == 0 && rim >= 0,
                min_y <= y < max_y,
                min_x <= x,
                x <= max_x || max_x <= min_x,
                max_x <= min_x ==> x == min_x,
                !only_rim ==> cells@.len() == span(min_x as int, max_x as int) * (y - min_y) + (x - min_x),
                i32_row_by_row(cells@),
                forall|i: int|
                    0 <= i < cells@.len() ==> in_scan(
                        (#[trigger] cells@[i])[0] as int,
                        cells@[i][1] as int,
                        min_x as int,
                        max_x as int,
                        min_y as int,
                        max_y as int,
                        only_rim,
                        rim as int,
                    ) && comes_before(cells@[i][0] as int, cells@[i][1] as int, x as int, y as int),
                forall|cx: int, cy: int|
                    in_scan(cx, cy, min_x as int, max_x as int, min_y as int, max_y as int, only_rim, rim as int)
                        && comes_before(cx, cy, x as int, y as int) ==> #[trigger] i32_lists(cells@, cx, cy),
            decreases max_x - x,
        {
            let keep = !only_rim || ((y < rim || y >= max_y - rim) || (x < rim || x >= max_x - rim));
            let ghost before = cells@;
            if keep {
                let cell: [i32; 2] = [x, y];
                cells.push(cell);
                proof {
                    assert(cells@[before.len() as int][0] == x && cells@[before.len() as int][1] == y);
                    assert forall|i: int, j: int| 0 <= i < j < cells@.len() implies comes_before(
                        (#[trigger] cells@[i])[0] as int,
                        cells@[i][1] as int,
                        (#[trigger] cells@[j])[0] as int,
                        cells@[j][1] as int,
                    ) by {
                        assert(cells@[i] == before[i]);
                        if j < before.len() {
                            assert(cells@[j] == before[j]);
                        }
                    }
                }
            }
            proof {
                assert forall|cx: int, cy: int|
                    in_scan(
                        cx,
                        cy,
                        min_x as int,
                        max_x as int,
                        min_y as int,
                        max_y as int,
                        only_rim,
                        rim as int,
                    ) && comes_before(cx, cy, x + 1, y as int) implies #[trigger] i32_lists(
                    cells@,
                    cx,
                    cy,
                ) by {
                    if comes_before(cx, cy, x as int, y as int) {
                        assert(i32_lists(before, cx, cy));
                        let i = choose|i: int|
                            0 <= i < before.len() && (#[trigger] before[i])[0] == cx && before[i][1] == cy;
                        assert(cells@[i] == before[i]);
                    } else {
                        assert(cx == x && cy == y);
                        assert(keep);
                        assert(cells@[before.len() as int][0] == cx);
                    }
                }
                assert forall|i: int| 0 <= i < cells@.len() implies comes_before(
                    (#[trigger] cells@[i])[0] as int,
                    cells@[i][1] as int,
                    x + 1,
                    y as int,
                ) by {
                    if i < before.len() {
                        assert(cells@[i] == before[i]);
                    }
                }
            }
            x = x + 1;
        }
        proof {
            assert forall|cx: int, cy: int|
                in_scan(cx, cy, min_x as int, max_x as int, min_y as int, max_y as int, only_rim, rim as int)
                    && cy < y + 1 implies #[trigger] i32_lists(cells@, cx, cy) by {
                assert(comes_before(cx, cy, x as int, y as int));
            }
            let width = span(min_x as int, max_x as int);
            assert(x - min_x == width);
            assert(width * (y - min_y) + width == width * (y + 1 - min_y)) by (nonlinear_arith);
        }
        y = y + 1;
    }
    proof {
        let width = span(min_x as int, max_x as int);
        if max_y <= min_y {
            assert(y == min_y);
            assert(width * 0 == 0);
        } else {
            assert(y == max_y);
        }
    }
    cells
}

/// A pair of sizes as a grid of cells, stored row by row.
pub trait VecGrid {
    /// Width of the grid.
    spec fn columns(&self) -> int;

    /// Height of the grid.
    spec fn rows(&self) -> int;

    /// The cell that stands at `index` in a grid stored row by row.
    fn position_of(&self, index: usize) -> (cell: Vec2s)
        requires
            self.columns() > 0,
        ensures
            cell[0] == index % (self.columns() as usize),
            cell[1] == index / (self.columns() as usize),
    ;

    /// The cells nearer than `width` to an edge of the grid, row by row.
    fn border(&self, width: usize) -> (cells: Vec<Vec2s>)
        ensures
            usize_scanned(cells@, 0, self.columns(), 0, self.rows(), true, width as int),
    ;

    /// All cells of the grid, row by row.
    fn cells(&self) -> (cells: Vec<Vec2s>)
        ensures
            usize_scanned(cells@, 0, self.columns(), 0, self.rows(), false, 0),
    ;
}

impl VecGrid for Vec2s {
    open spec fn columns(&self) -> int {
        self[0] as int
    }

    open spec fn rows(&self) -> int {
        self[1] as int
    }

    fn position_of(&self, index: usize) -> (cell: Vec2s) {
        [index % self[0], index / self[0]]
    }

    fn border(&self, width: usize) -> (cells: Vec<Vec2s>) {
        usize_scan(0, self[0], 0, self[1], true, width)
    }

    fn cells(&self) -> (cells: Vec<Vec2s>) {
        usize_scan(0, self[0], 0, self[1], false, 0)
    }
}

/// The `offset`-th of the four cells next to `(x, y)`: left, up, right,
/// down.
pub open spec fn neighbor(x: int, y: int, offset: int) -> (int, int) {
    if offset == 0 {
        (x - 1, y)
    } else if offset == 1 {
        (x, y - 1)
    } else if offset == 2 {
        (x + 1, y)
    } else {
        (x, y + 1)
    }
}

/// True when the `offset`-th neighbor of `(x, y)` lies in a grid that is
/// `w` wide and `h` high, as far as the side it lies on goes.
pub open spec fn neighbor_exists(x: int, y: int, w: int, h: int, offset: int) -> bool {
    if offset == 0 {
        x > 0
    } else if offset == 1 {
        y > 0
    } else if offset == 2 {
        x + 1 < w
    } else {
        y + 1 < h
    }
}

/// The neighbors of `(x, y)` with an offset below `upto` that exist, in the
/// order left, up, right, down.
pub open spec fn neighbors(x: int, y: int, w: int, h: int, upto: int) -> Seq<(int, int)>
    decreases upto,
{
    if upto <= 0 {
        Seq::empty()
    } else if neighbor_exists(x, y, w, h, upto - 1) {
        neighbors(x, y, w, h, upto - 1).push(neighbor(x, y, upto - 1))
    } else {
        neighbors(x, y, w, h, upto - 1)
    }
}

/// The lower end of a span that reaches `half` below `center`, held at zero.
pub open spec fn span_start(center: int, half: int) -> int {
    if half >= center {
        0
    } else {
        center - half
    }
}

/// The upper end, not included, of a span that reaches `half` above
/// `center`, held at `limit`.
pub open spec fn span_end(center: int, half: int, limit: int) -> int {
    if center + half + 1 < limit {
        center + half + 1
    } else {
        limit
    }
}

/// The cells around a cell of a grid.
pub trait VecNeighbors<T>: Sized {
    /// The cell as a pair of numbers.
    spec fn at(&self) -> (int, int);

    /// True when the far corner of the rectangle stays in the range of `T`.
    spec fn can_reach(&self, half_size: Self) -> bool;

    /// True when `cells` walks, row by row, the rectangle that reaches
    /// `half_size` to each side of the cell, cut to the grid.
    spec fn is_rectangle(&self, half_size: Self, grid: Self, cells: Seq<Self>) -> bool;

    /// True when the cells to the right and below stay in the range of `T`.
    spec fn can_cross(&self) -> bool;

    /// True when `cells` holds the neighbors of the cell that exist in the
    /// grid, in the order left, up, right, down.
    spec fn is_cross(&self, grid: Self, cells: Seq<Self>) -> bool;

    /// The pair of `radius` and `radius`.
    spec fn square(radius: T) -> Self;

    fn rectangle(&self, half_size: Self, grid: Self) -> (cells: Vec<Self>)
        requires
            self.can_reach(half_size),
        ensures
            self.is_rectangle(half_size, grid, cells@),
    ;

    fn around(&self, radius: T, grid: Self) -> (cells: Vec<Self>)
        requires
            self.can_reach(Self::square(radius)),
        ensures
            self.is_rectangle(Self::square(radius), grid, cells@),
    ;

    fn cross(&self, grid: Self) -> (cells: Vec<Self>)
        requires
            self.can_cross(),
        ensures
            self.is_cross(grid, cells@),
    ;
}

/// The cells of `cells` as pairs of numbers.
pub open spec fn usize_pairs(cells: Seq<[usize; 2]>) -> Seq<(int, int)> {
    cells.map_values(|cell: [usize; 2]| (cell[0] as int, cell[1] as int))
}

impl VecNeighbors<usize> for [usize; 2] {
    open spec fn at(&self) -> (int, int) {
        (self[0] as int, self[1] as int)
    }

    open spec fn can_reach(&self, half_size: [usize; 2]) -> bool {
        &&& half_size[0] < self[0] ==> self[0] - half_size[0] <= usize::MAX
        &&& half_size[1] < self[1] ==> self[1] - half_size[1] <= usize::MAX
        &&& usize::MIN <= self[0] + half_size[0] && self[0] + half_size[0] + 1 <= usize::MAX
        &&& usize::MIN <= self[1] + half_size[1] && self[1] + half_size[1] + 1 <= usize::MAX
    }

    open spec fn is_rectangle(&self, half_size: [usize; 2], grid: [usize; 2], cells: Seq<[usize; 2]>) -> bool {
        usize_scanned(
            cells,
            span_start(self[0] as int, half_size[0] as int),
            span_end(self[0] as int, half_size[0] as int, grid[0] as int),
            span_start(self[1] as int, half_size[1] as int),
            span_end(self[1] as int, half_size[1] as int, grid[1] as int),
            false,
            0,
        )
    }

    open spec fn can_cross(&self) -> bool {
        &&& self[0] < usize::MAX
        &&& self[1] < usize::MAX
    }

    open spec fn is_cross(&self, grid: [usize; 2], cells: Seq<[usize; 2]>) -> bool {
        usize_pairs(cells) == neighbors(self[0] as int, self[1] as int, grid[0] as int, grid[1] as int, 4)
    }

    open spec fn square(radius: usize) -> [usize; 2] {
        [radius, radius]
    }

    fn rectangle(&self, half_size: [usize; 2], grid: [usize; 2]) -> (cells: Vec<[usize; 2]>) {
        let cx: usize = self[0];
        let cy: usize = self[1];
        let min_y: usize = if half_size[1] >= cy {
            0
        } else {
            cy - half_size[1]
        };
        let reach_y: usize = cy + half_size[1] + 1;
        let max_y: usize = if reach_y < grid[1] {
            reach_y
        } else {
            grid[1]
        };
        let min_x: usize = if half_size[0] >= cx {
            0
        } else {
            cx - half_size[0]
        };
        let reach_x: usize = cx + half_size[0] + 1;
        let max_x: usize = if reach_x < grid[0] {
            reach_x
        } else {
            grid[0]
        };
        usize_scan(min_x, max_x, min_y, max_y, false, 0)
    }

    fn around(&self, radius: usize, grid: [usize; 2]) -> (cells: Vec<[usize; 2]>) {
        let half_size: [usize; 2] = [radius, radius];
        assert(half_size =~= Self::square(radius));
        self.rectangle(half_size, grid)
    }

    fn cross(&self, grid: [usize; 2]) -> (cells: Vec<[usize; 2]>) {
        let x: usize = self[0];
        let y: usize = self[1];
        let ghost w = grid[0] as int;
        let ghost h = grid[1] as int;
        let mut cells: Vec<[usize; 2]> = Vec::new();
        assert(usize_pairs(cells@) =~= neighbors(x as int, y as int, w, h, 0));
        if x > 0 {
            let ghost before = cells@;
            let cell: [usize; 2] = [x - 1, y];
            cells.push(cell);
            assert(usize_pairs(cells@) =~= usize_pairs(before).push((x - 1, y as int)));
        }
        assert(usize_pairs(cells@) == neighbors(x as int, y as int, w, h, 1));
        if y > 0 {
            let ghost before = cells@;
            let cell: [usize; 2] = [x, y - 1];
            cells.push(cell);
            assert(usize_pairs(cells@) =~= usize_pairs(before).push((x as int, y - 1)));
        }
        assert(usize_pairs(cells@) == neighbors(x as int, y as int, w, h, 2));
        if x + 1 < grid[0] {
            let ghost before = cells@;
            let cell: [usize; 2] = [x + 1, y];
            cells.push(cell);
            assert(usize_pairs(cells@) =~= usize_pairs(before).push((x + 1, y as int)));
        }
        assert(usize_pairs(cells@) == neighbors(x as int, y as int, w, h, 3));
        if y + 1 < grid[1] {
            let ghost before = cells@;
            let cell: [usize; 2] = [x, y + 1];
            cells.push(cell);
            assert(usize_pairs(cells@) =~= usize_pairs(before).push((x as int, y + 1)));
        }
        assert(usize_pairs(cells@) == neighbors(x as int, y as int, w, h, 4));
        cells
    }
}

/// The cells of `cells` as pairs of numbers.
pub open spec fn i32_pairs(cells: Seq<[i32; 2]>) -> Seq<(int, int)> {
    cells.map_values(|cell: [i32; 2]| (cell[0] as int, cell[1] as int))
}

impl VecNeighbors<i32> for [i32; 2] {
    open spec fn at(&self) -> (int, int) {
        (self[0] as int, self[1] as int)
    }

    open spec fn can_reach(&self, half_size: [i32; 2]) -> bool {
        &&& half_size[0] < self[0] ==> self[0] - half_size[0] <= i32::MAX
        &&& half_size[1] < self[1] ==> self[1] - half_size[1] <= i32::MAX
        &&& i32::MIN <= self[0] + half_size[0] && self[0] + half_size[0] + 1 <= i32::MAX
        &&& i32::MIN <= self[1] + half_size[1] && self[1] + half_size[1] + 1 <= i32::MAX
    }

    open spec fn is_rectangle(&self, half_size: [i32; 2], grid: [i32; 2], cells: Seq<[i32; 2]>) -> bool {
        i32_scanned(
            cells,
            span_start(self[0] as int, half_size[0] as int),
            span_end(self[0] as int, half_size[0] as int, grid[0] as int),
            span_start(self[1] as int, half_size[1] as int),
            span_end(self[1] as int, half_size[1] as int, grid[1] as int),
            false,
            0,
        )
    }

    open spec fn can_cross(&self) -> bool {
        &&& self[0] < i32::MAX
        &&& self[1] < i32::MAX
    }

    open spec fn is_cross(&self, grid: [i32; 2], cells: Seq<[i32; 2]>) -> bool {
        i32_pairs(cells) == neighbors(self[0] as int, self[1] as int, grid[0] as int, grid[1] as int, 4)
    }

    open spec fn square(radius: i32) -> [i32; 2] {
        [radius, radius]
    }

    fn rectangle(&self, half_size: [i32; 2], grid: [i32; 2]) -> (cells: Vec<[i32; 2]>) {
        let cx: i32 = self[0];
        let cy: i32 = self[1];
        let min_y: i32 = if half_size[1] >= cy {
            0
        } else {
            cy - half_size[1]
        };
        let reach_y: i32 = cy + half_size[1] + 1;
        let max_y: i32 = if reach_y < grid[1] {
            reach_y
        } else {
            grid[1]
        };
        let min_x: i32 = if half_size[0] >= cx {
            0
        } else {
            cx - half_size[0]
        };
        let reach_x: i32 = cx + half_size[0] + 1;
        let max_x: i32 = if reach_x < grid[0] {
            reach_x
        } else {
            grid[0]
        };
        i32_scan(min_x, max_x, min_y, max_y, false, 0)
    }

    fn around(&self, radius: i32, grid: [i32; 2]) -> (cells: Vec<[i32; 2]>) {
        let half_size: [i32; 2] = [radius, radius];
        assert(half_size =~= Self::square(radius));
        self.rectangle(half_size, grid)
    }

    fn cross(&self, grid: [i32; 2]) -> (cells: Vec<[i32; 2]>) {
        let x: i32 = self[0];
        let y: i32 = self[1];
        let ghost w = grid[0] as int;
        let ghost h = grid[1] as int;
        let mut cells: Vec<[i32; 2]> = Vec::new();
        assert(i32_pairs(cells@) =~= neighbors(x as int, y as int, w, h, 0));
        if x > 0 {
            let ghost before = cells@;
            let cell: [i32; 2] = [x - 1, y];
            cells.push(cell);
            assert(i32_pairs(cells@) =~= i32_pairs(before).push((x - 1, y as int)));
        }
        assert(i32_pairs(cells@) == neighbors(x as int, y as int, w, h, 1));
        if y > 0 {
            let ghost before = cells@;
            let cell: [i32; 2] = [x, y - 1];
            cells.push(cell);
            assert(i32_pairs(cells@) =~= i32_pairs(before).push((x as int, y - 1)));
        }
        assert(i32_pairs(cells@) == neighbors(x as int, y as int, w, h, 2));
        if x + 1 < grid[0] {
            let ghost before = cells@;
            let cell: [i32; 2] = [x + 1, y];
            cells.push(cell);
            assert(i32_pairs(cells@) =~= i32_pairs(before).push((x + 1, y as int)));
        }
        assert(i32_pairs(cells@) == neighbors(x as int, y as int, w, h, 3));
        if y + 1 < grid[1] {
            let ghost before = cells@;
            let cell: [i32; 2] = [x, y + 1];
            cells.push(cell);
            assert(i32_pairs(cells@) =~= i32_pairs(before).push((x as int, y + 1)));
        }
        assert(i32_pairs(cells@) == neighbors(x as int, y as int, w, h, 4));
        cells
    }
}


/// The same vector with more or fewer components.
pub trait VecResize<T: Default>: Sized {
    /// Number of components.
    spec fn length(&self) -> nat;

    /// The component at index `i`.
    spec fn item(&self, i: int) -> T;

    /// The first `R` components; where there are fewer, default values
    /// fill the rest.
    fn resize<const R: usize>(self) -> (result: [T; R])
        ensures
            forall|i: int| 0 <= i < R && i < self.length() ==> #[trigger] result[i] == self.item(i),
            forall|i: int|
                self.length() <= i < R ==> call_ensures(T::default, (), #[trigger] result[i]),
    ;
}

impl<T: Copy + Default, const N: usize> VecResize<T> for [T; N] {
    open spec fn length(&self) -> nat {
        N as nat
    }

    open spec fn item(&self, i: int) -> T {
        self[i]
    }

    fn resize<const R: usize>(self) -> (result: [T; R]) {
        let fill: T = T::default();
        let mut result: [T; R] = [fill; R];
        let mut i: usize = 0;
        while i < R && i < N
            invariant
                i <= R,
                i <= N,
                call_ensures(T::default, (), fill),
                forall|k: int| 0 <= k < i ==> #[trigger] result[k] == self[k],
                forall|k: int| i <= k < R ==> #[trigger] result[k] == fill,
            decreases R - i,
        {
            result[i] = self[i];
            i = i + 1;
        }
        result
    }
}

} // verus!
