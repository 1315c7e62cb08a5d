use vstd::prelude::*;

verus! {

/// A value that names something (an account, a piece of content) and is
/// compared and duplicated through its view.
pub trait Identifier: View + Sized {
    fn same(&self, other: &Self) -> (r: bool)
        ensures
            r == (self@ == other@),
    ;

    fn duplicate(&self) -> (r: Self)
        ensures
            r@ == self@,
    ;
}

impl Identifier for String {
    fn same(&self, other: &Self) -> (r: bool) {
        self.eq(other)
    }

    fn duplicate(&self) -> (r: Self) {
        self.clone()
    }
}

/// A bounded natural number: a step counter, a sequence counter or a balance.
pub trait Counter: Copy + Sized {
    /// The number this value stands for.
    spec fn value(&self) -> nat;

    /// The largest number the type can hold.
    spec fn limit() -> nat;

    fn zero() -> (r: Self)
        ensures
            r.value() == 0,
    ;

    fn one() -> (r: Self)
        ensures
            r.value() == 1,
    ;

    fn checked_add(&self, other: &Self) -> (r: Option<Self>)
        ensures
            match r {
                Some(s) => self.value() + other.value() <= Self::limit() && s.value() == self.value()
                    + other.value(),
                None => self.value() + other.value() > Self::limit(),
            },
    ;

    fn checked_sub(&self, other: &Self) -> (r: Option<Self>)
        ensures
            match r {
                Some(s) => other.value() <= self.value() && s.value() == self.value()
                    - other.value(),
                None => other.value() > self.value(),
            },
    ;
}

/// Relies on num's `CheckedAdd::checked_add` for `u32`: the sum, or `None` when it overflows.
#[verifier::external_body]
fn num_checked_add_u32(a: u32, b: u32) -> (r: Option<u32>)
    ensures
        r == (if a + b <= u32::MAX { Some((a + b) as u32) } else { None::<u32> }),
{
    num::traits::CheckedAdd::checked_add(&a, &b)
}

/// Relies on num's `CheckedSub::checked_sub` for `u32`: the difference, or `None` below zero.
#[verifier::external_body]
fn num_checked_sub_u32(a: u32, b: u32) -> (r: Option<u32>)
    ensures
        r == (if b <= a { Some((a - b) as u32) } else { None::<u32> }),
{
    num::traits::CheckedSub::checked_sub(&a, &b)
}

/// Relies on num's `CheckedAdd::checked_add` for `u128`: the sum, or `None` when it overflows.
#[verifier::external_body]
fn num_checked_add_u128(a: u128, b: u128) -> (r: Option<u128>)
    ensures
        r == (if a + b <= u128::MAX { Some((a + b) as u128) } else { None::<u128> }),
{
    num::traits::CheckedAdd::checked_add(&a, &b)
}

/// Relies on num's `CheckedSub::checked_sub` for `u128`: the difference, or `None` below zero.
#[verifier::external_body]
fn num_checked_sub_u128(a: u128, b: u128) -> (r: Option<u128>)
    ensures
        r == (if b <= a { Some((a - b) as u128) } else { None::<u128> }),
{
    num::traits::CheckedSub::checked_sub(&a, &b)
}

impl Counter for u32 {
    open spec fn value(&self) -> nat {
        *self as nat
    }

    open spec fn limit() -> nat {
        u32::MAX as nat
    }

    fn zero() -> (r: Self) {
        0
    }

    fn one() -> (r: Self) {
        1
    }

    fn checked_add(&self, other: &Self) -> (r: Option<Self>) {
        num_checked_add_u32(*self, *other)
    }

    fn checked_sub(&self, other: &Self) -> (r: Option<Self>) {
        num_checked_sub_u32(*self, *other)
    }
}

impl Counter for u128 {
    open spec fn value(&self) -> nat {
        *self as nat
    }

    open spec fn limit() -> nat {
        u128::MAX as nat
    }

    fn zero() -> (r: Self) {
        0
    }

    fn one() -> (r: Self) {
        1
    }

    fn checked_add(&self, other: &Self) -> (r: Option<Self>) {
        num_checked_add_u128(*self, *other)
    }

    fn checked_sub(&self, other: &Self) -> (r: Option<Self>) {
        num_checked_sub_u128(*self, *other)
    }
}

} // verus!
