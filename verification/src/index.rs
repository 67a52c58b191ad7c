//! The index capability: what a type must offer to serve as a position.

use vstd::prelude::*;

verus! {

/// A type whose values are positions in a container.
///
/// Every value denotes a natural number, its position `pos()`, and no two
/// values denote the same one. The type has a largest position `max_pos()`;
/// the operations below are index arithmetic that stays within it.
pub trait Idx: Copy {
    /// The position that this index denotes.
    spec fn pos(self) -> nat;

    /// The largest position that the type can denote.
    spec fn max_pos() -> nat;

    /// No index lies beyond the largest position.
    proof fn lemma_pos_bounded(a: Self)
        ensures
            a.pos() <= Self::max_pos(),
    ;

    /// Two indices at the same position are the same index.
    proof fn lemma_pos_injective(a: Self, b: Self)
        requires
            a.pos() == b.pos(),
        ensures
            a == b,
    ;

    /// The first position.
    fn zero() -> (z: Self)
        ensures
            z.pos() == 0,
    ;

    /// The distance from one position to the next.
    fn one() -> (o: Self)
        ensures
            o.pos() == 1,
    ;

    /// The index `rhs` positions after `self`.
    fn plus(self, rhs: Self) -> (sum: Self)
        requires
            self.pos() + rhs.pos() <= Self::max_pos(),
        ensures
            sum.pos() == self.pos() + rhs.pos(),
    ;

    /// The distance from `rhs` up to `self`.
    fn minus(self, rhs: Self) -> (diff: Self)
        requires
            rhs.pos() <= self.pos(),
        ensures
            diff.pos() == self.pos() - rhs.pos(),
    ;

    /// Whether `self` comes before `rhs`.
    fn less_than(self, rhs: Self) -> (b: bool)
        ensures
            b == (self.pos() < rhs.pos()),
    ;

    /// Whether `self` and `rhs` are the same position.
    fn equals(self, rhs: Self) -> (b: bool)
        ensures
            b == (self.pos() == rhs.pos()),
    ;
}

/// `num`'s `<usize as Zero>::zero`, the additive identity of `usize`: it
/// returns the literal `0`.
#[verifier::external_body]
fn zero_usize() -> (z: usize)
    ensures
        z == 0,
{
    <usize as num::Zero>::zero()
}

/// `num_traits`' `<usize as One>::one`, the multiplicative identity of
/// `usize`: it returns the literal `1`.
#[verifier::external_body]
fn one_usize() -> (o: usize)
    ensures
        o == 1,
{
    <usize as num_traits::One>::one()
}

impl Idx for usize {
    open spec fn pos(self) -> nat {
        self as nat
    }

    open spec fn max_pos() -> nat {
        usize::MAX as nat
    }

    proof fn lemma_pos_bounded(a: Self) {
    }

    proof fn lemma_pos_injective(a: Self, b: Self) {
    }

    fn zero() -> (z: Self) {
        zero_usize()
    }

    fn one() -> (o: Self) {
        one_usize()
    }

    fn plus(self, rhs: Self) -> (sum: Self) {
        self + rhs
    }

    fn minus(self, rhs: Self) -> (diff: Self) {
        self - rhs
    }

    fn less_than(self, rhs: Self) -> (b: bool) {
        self < rhs
    }

    fn equals(self, rhs: Self) -> (b: bool) {
        self == rhs
    }
}

/// `num`'s `<u8 as Zero>::zero`, the additive identity of `u8`: it returns
/// the literal `0`.
#[verifier::external_body]
fn zero_u8() -> (z: u8)
    ensures
        z == 0,
{
    <u8 as num::Zero>::zero()
}

/// `num_traits`' `<u8 as One>::one`, the multiplicative identity of `u8`:
/// it returns the literal `1`.
#[verifier::external_body]
fn one_u8() -> (o: u8)
    ensures
        o == 1,
{
    <u8 as num_traits::One>::one()
}

impl Idx for u8 {
    open spec fn pos(self) -> nat {
        self as nat
    }

    open spec fn max_pos() -> nat {
        u8::MAX as nat
    }

    proof fn lemma_pos_bounded(a: Self) {
    }

    proof fn lemma_pos_injective(a: Self, b: Self) {
    }

    fn zero() -> (z: Self) {
        zero_u8()
    }

    fn one() -> (o: Self) {
        one_u8()
    }

    fn plus(self, rhs: Self) -> (sum: Self) {
        self + rhs
    }

    fn minus(self, rhs: Self) -> (diff: Self) {
        self - rhs
    }

    fn less_than(self, rhs: Self) -> (b: bool) {
        self < rhs
    }

    fn equals(self, rhs: Self) -> (b: bool) {
        self == rhs
    }
}

/// `num`'s `<u16 as Zero>::zero`, the additive identity of `u16`: it returns
/// the literal `0`.
#[verifier::external_body]
fn zero_u16() -> (z: u16)
    ensures
        z == 0,
{
    <u16 as num::Zero>::zero()
}

/// `num_traits`' `<u16 as One>::one`, the multiplicative identity of `u16`:
/// it returns the literal `1`.
#[verifier::external_body]
fn one_u16() -> (o: u16)
    ensures
        o == 1,
{
    <u16 as num_traits::One>::one()
}

impl Idx for u16 {
    open spec fn pos(self) -> nat {
        self as nat
    }

    open spec fn max_pos() -> nat {
        u16::MAX as nat
    }

    proof fn lemma_pos_bounded(a: Self) {
    }

    proof fn lemma_pos_injective(a: Self, b: Self) {
    }

    fn zero() -> (z: Self) {
        zero_u16()
    }

    fn one() -> (o: Self) {
        one_u16()
    }

    fn plus(self, rhs: Self) -> (sum: Self) {
        self + rhs
    }

    fn minus(self, rhs: Self) -> (diff: Self) {
        self - rhs
    }

    fn less_than(self, rhs: Self) -> (b: bool) {
        self < rhs
    }

    fn equals(self, rhs: Self) -> (b: bool) {
        self == rhs
    }
}

/// `num`'s `<u32 as Zero>::zero`, the additive identity of `u32`: it returns
/// the literal `0`.
#[verifier::external_body]
fn zero_u32() -> (z: u32)
    ensures
        z == 0,
{
    <u32 as num::Zero>::zero()
}

/// `num_traits`' `<u32 as One>::one`, the multiplicative identity of `u32`:
/// it returns the literal `1`.
#[verifier::external_body]
fn one_u32() -> (o: u32)
    ensures
        o == 1,
{
    <u32 as num_traits::One>::one()
}

impl Idx for u32 {
    open spec fn pos(self) -> nat {
        self as nat
    }

    open spec fn max_pos() -> nat {
        u32::MAX as nat
    }

    proof fn lemma_pos_bounded(a: Self) {
    }

    proof fn lemma_pos_injective(a: Self, b: Self) {
    }

    fn zero() -> (z: Self) {
        zero_u32()
    }

    fn one() -> (o: Self) {
        one_u32()
    }

    fn plus(self, rhs: Self) -> (sum: Self) {
        self + rhs
    }

    fn minus(self, rhs: Self) -> (diff: Self) {
        self - rhs
    }

    fn less_than(self, rhs: Self) -> (b: bool) {
        self < rhs
    }

    fn equals(self, rhs: Self) -> (b: bool) {
        self == rhs
    }
}

/// `num`'s `<u64 as Zero>::zero`, the additive identity of `u64`: it returns
/// the literal `0`.
#[verifier::external_body]
fn zero_u64() -> (z: u64)
    ensures
        z == 0,
{
    <u64 as num::Zero>::zero()
}

/// `num_traits`' `<u64 as One>::one`, the multiplicative identity of `u64`:
/// it returns the literal `1`.
#[verifier::external_body]
fn one_u64() -> (o: u64)
    ensures
        o == 1,
{
    <u64 as num_traits::One>::one()
}

impl Idx for u64 {
    open spec fn pos(self) -> nat {
        self as nat
    }

    open spec fn max_pos() -> nat {
        u64::MAX as nat
    }

    proof fn lemma_pos_bounded(a: Self) {
    }

    proof fn lemma_pos_injective(a: Self, b: Self) {
    }

    fn zero() -> (z: Self) {
        zero_u64()
    }

    fn one() -> (o: Self) {
        one_u64()
    }

    fn plus(self, rhs: Self) -> (sum: Self) {
        self + rhs
    }

    fn minus(self, rhs: Self) -> (diff: Self) {
        self - rhs
    }

    fn less_than(self, rhs: Self) -> (b: bool) {
        self < rhs
    }

    fn equals(self, rhs: Self) -> (b: bool) {
        self == rhs
    }
}

} // verus!
