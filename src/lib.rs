//! Compensated (Kahan) summation.
//!
//! `KahanSum` keeps a running sum together with the low-order part that
//! rounding lost on the way, and feeds that part back into the next addition.
//! The number type is any type with the operations of `Summand`; the
//! contracts state the exact sequence of operations each call performs on it.
use vstd::prelude::*;

verus! {

/// The operations that compensated summation needs from a number type.
///
/// Each operation is a function of its arguments alone, named by a spec
/// function; the accumulator's contracts are stated over these names.
pub trait Summand: Sized + Copy {
    /// The additive identity.
    spec fn spec_zero() -> Self;

    /// The rounded sum `a + b`.
    spec fn spec_plus(a: Self, b: Self) -> Self;

    /// The rounded difference `a - b`.
    spec fn spec_minus(a: Self, b: Self) -> Self;

    /// Whether `|a| < |b|`.
    spec fn spec_smaller(a: Self, b: Self) -> bool;

    fn zero() -> (r: Self)
        ensures
            r == Self::spec_zero(),
    ;

    fn plus(self, other: Self) -> (r: Self)
        ensures
            r == Self::spec_plus(self, other),
    ;

    fn minus(self, other: Self) -> (r: Self)
        ensures
            r == Self::spec_minus(self, other),
    ;

    /// Returns whether the magnitude of `self` is below that of `other`.
    fn smaller_magnitude(self, other: Self) -> (r: bool)
        ensures
            r == Self::spec_smaller(self, other),
    ;
}

/// An ongoing Kahan summation: the running sum and the running error term.
#[derive(Debug, Clone, Copy)]
pub struct KahanSum<T: Summand> {
    sum: T,
    err: T,
}

impl<T: Summand> KahanSum<T> {
    /// The running sum.
    pub closed spec fn spec_sum(self) -> T {
        self.sum
    }

    /// The running error term.
    pub closed spec fn spec_err(self) -> T {
        self.err
    }

    /// The accumulator with the given sum and error term.
    pub closed spec fn with(sum: T, err: T) -> Self {
        KahanSum { sum, err }
    }

    /// The state before any term is added: sum and error both zero.
    pub open spec fn empty() -> Self {
        Self::with(T::spec_zero(), T::spec_zero())
    }

    /// The state after adding `term` to `self`.
    ///
    /// The operand of larger magnitude becomes the base `a`, the other one `b`;
    /// the previous error is taken off `b` before it is added, and the new
    /// error is what rounding lost of it: `(new_sum - a) - y`.
    pub open spec fn step(self, term: T) -> Self {
        let swapped = T::spec_smaller(self.spec_sum(), term);
        let a = if swapped { term } else { self.spec_sum() };
        let b = if swapped { self.spec_sum() } else { term };
        let y = T::spec_minus(b, self.spec_err());
        let new_sum = T::spec_plus(a, y);
        Self::with(new_sum, T::spec_minus(T::spec_minus(new_sum, a), y))
    }

    /// The state after adding the terms of `terms` one by one, first to last,
    /// to an empty accumulator.
    pub open spec fn sum_of(terms: Seq<T>) -> Self
        decreases terms.len(),
    {
        if terms.len() == 0 {
            Self::empty()
        } else {
            Self::sum_of(terms.drop_last()).step(terms.last())
        }
    }

    /// `with` builds the accumulator whose sum and error term are the given ones.
    pub proof fn lemma_with(sum: T, err: T)
        ensures
            Self::with(sum, err).spec_sum() == sum,
            Self::with(sum, err).spec_err() == err,
    {
    }

    /// Creates a `KahanSum` with sum and error both zero.
    pub fn new() -> (r: Self)
        ensures
            r == Self::empty(),
    {
        KahanSum { sum: T::zero(), err: T::zero() }
    }

    /// Creates a `KahanSum` whose sum is `initial` and whose error is zero.
    pub fn new_with_value(initial: T) -> (r: Self)
        ensures
            r == Self::with(initial, T::spec_zero()),
    {
        KahanSum { sum: initial, err: T::zero() }
    }

    /// Returns the current running sum.
    pub fn sum(&self) -> (r: T)
        ensures
            r == self.spec_sum(),
    {
        self.sum
    }

    /// Returns the current error term.
    pub fn err(&self) -> (r: T)
        ensures
            r == self.spec_err(),
    {
        self.err
    }

    /// Adds `term` to the running sum, compensating for the error lost so far.
    pub fn add_assign(&mut self, term: T)
        ensures
            *final(self) == old(self).step(term),
    {
        let mut term = term;
        if self.sum.smaller_magnitude(term) {
            std::mem::swap(&mut self.sum, &mut term);
        }
        let y = term.minus(self.err);
        let sum = self.sum.plus(y);
        let err = sum.minus(self.sum).minus(y);
        self.sum = sum;
        self.err = err;
    }

    /// Returns the accumulator that adding `term` to `self` gives; the same
    /// algorithm as `add_assign`, on a copy.
    pub fn add(self, term: T) -> (r: Self)
        ensures
            r == self.step(term),
    {
        let mut rv = self;
        rv.add_assign(term);
        rv
    }
}

impl<T: Summand> Default for KahanSum<T> {
    fn default() -> (r: Self)
        ensures
            r == Self::empty(),
    {
        Self::new()
    }
}

impl<T: Summand> std::ops::AddAssign<T> for KahanSum<T> {
    fn add_assign(&mut self, term: T) {
        KahanSum::add_assign(self, term)
    }
}

impl<T: Summand> std::ops::Add<T> for KahanSum<T> {
    type Output = Self;

    fn add(self, term: T) -> Self {
        KahanSum::add(self, term)
    }
}

impl<T: Summand> vstd::std_specs::ops::AddSpecImpl<T> for KahanSum<T> {
    open spec fn obeys_add_spec() -> bool {
        true
    }

    open spec fn add_req(self, term: T) -> bool {
        true
    }

    open spec fn add_spec(self, term: T) -> Self {
        self.step(term)
    }
}

/// Reduction of a sequence of terms by compensated summation.
pub trait KahanSummator<T: Summand>: Sized {
    /// The terms, in the order in which they are added.
    spec fn summands(self) -> Seq<T>;

    /// Computes the Kahan sum of the terms, adding them first to last to an
    /// empty accumulator.
    fn kahan_sum(self) -> (r: KahanSum<T>)
        ensures
            r == KahanSum::<T>::sum_of(self.summands()),
    ;
}

impl<'a, T: Summand> KahanSummator<T> for &'a [T] {
    open spec fn summands(self) -> Seq<T> {
        self@
    }

    fn kahan_sum(self) -> (r: KahanSum<T>) {
        let mut acc = KahanSum::new();
        let mut i: usize = 0;
        while i < self.len()
            invariant
                i <= self@.len(),
                acc == KahanSum::<T>::sum_of(self@.subrange(0, i as int)),
            decreases self@.len() - i,
        {
            acc.add_assign(self[i]);
            proof {
                assert(self@.subrange(0, i + 1).drop_last() =~= self@.subrange(0, i as int));
            }
            i += 1;
        }
        proof {
            assert(self@.subrange(0, self@.len() as int) =~= self@);
        }
        acc
    }
}

/// A fresh accumulator holds zero as its sum and zero as its error term.
pub proof fn lemma_empty_is_zero<T: Summand>()
    ensures
        KahanSum::<T>::empty().spec_sum() == T::spec_zero(),
        KahanSum::<T>::empty().spec_err() == T::spec_zero(),
{
}

/// Summing no terms gives the same accumulator as creating an empty one.
pub proof fn lemma_sum_of_nothing<T: Summand>()
    ensures
        KahanSum::<T>::sum_of(Seq::empty()) == KahanSum::<T>::empty(),
{
}

/// Terms are added strictly in sequence order: summing `terms` followed by
/// `term` is adding `term` to the sum of `terms`.
pub proof fn lemma_sum_of_push<T: Summand>(terms: Seq<T>, term: T)
    ensures
        KahanSum::<T>::sum_of(terms.push(term)) == KahanSum::<T>::sum_of(terms).step(term),
{
    assert(terms.push(term).drop_last() =~= terms);
}

/// Adding one term `x` to an empty accumulator gives sum `x` and error zero,
/// wherever zero is an identity for `x`: `x - 0 == x`, `x + 0 == 0 + x == x`,
/// `x - x == 0` and `0 - 0 == 0`.
pub proof fn lemma_single_add<T: Summand>(x: T)
    requires
        T::spec_minus(T::spec_zero(), T::spec_zero()) == T::spec_zero(),
        T::spec_minus(x, T::spec_zero()) == x,
        T::spec_plus(x, T::spec_zero()) == x,
        T::spec_plus(T::spec_zero(), x) == x,
        T::spec_minus(x, x) == T::spec_zero(),
    ensures
        KahanSum::<T>::empty().step(x) == KahanSum::<T>::with(x, T::spec_zero()),
        KahanSum::<T>::empty().step(x).spec_sum() == x,
        KahanSum::<T>::empty().step(x).spec_err() == T::spec_zero(),
{
}

/// A seeded accumulator is an empty one to which the seed was added, wherever
/// zero is an identity for the seed (as in `lemma_single_add`): both have the
/// seed as their sum and zero as their error.
pub proof fn lemma_seeded_is_single_add<T: Summand>(v: T)
    requires
        T::spec_minus(T::spec_zero(), T::spec_zero()) == T::spec_zero(),
        T::spec_minus(v, T::spec_zero()) == v,
        T::spec_plus(v, T::spec_zero()) == v,
        T::spec_plus(T::spec_zero(), v) == v,
        T::spec_minus(v, v) == T::spec_zero(),
    ensures
        KahanSum::<T>::with(v, T::spec_zero()) == KahanSum::<T>::empty().step(v),
        KahanSum::<T>::with(v, T::spec_zero()).spec_err() == T::spec_zero(),
{
    lemma_single_add(v);
}

} // verus!
