use vstd::prelude::*;

verus! {

/// The scalar domain that signals and weights live in.
///
/// The topology and the propagation schedule of a network are independent of
/// how its arithmetic is carried out, so the network is generic over this
/// capability interface. An implementation supplies the constants, the three
/// arithmetic operations a forward pass needs, and the logistic sigmoid.
/// Each executable operation is pinned to an abstract specification-level
/// function of its arguments, so everything a network computes is a
/// mathematical function of its weights and its input, whatever the domain.
pub trait Signal: Sized + Copy {
    /// The additive identity: the starting value of a weighted sum.
    spec fn spec_zero() -> Self;

    /// The multiplicative identity: the initial value of every weight.
    spec fn spec_one() -> Self;

    /// The scalar standing for a fan-in count: the normalization divisor a
    /// neuron is built with.
    spec fn spec_of_count(n: usize) -> Self;

    /// What addition returns on this domain.
    spec fn spec_plus(self, other: Self) -> Self;

    /// What multiplication returns on this domain.
    spec fn spec_times(self, other: Self) -> Self;

    /// What division returns on this domain.
    spec fn spec_over(self, other: Self) -> Self;

    /// What the logistic sigmoid `1 / (1 + exp(-x))` returns on this domain.
    spec fn spec_sigmoid(self) -> Self;

    fn zero() -> (r: Self)
        ensures
            r == Self::spec_zero(),
    ;

    fn one() -> (r: Self)
        ensures
            r == Self::spec_one(),
    ;

    fn of_count(n: usize) -> (r: Self)
        ensures
            r == Self::spec_of_count(n),
    ;

    fn plus(self, other: Self) -> (r: Self)
        ensures
            r == self.spec_plus(other),
    ;

    fn times(self, other: Self) -> (r: Self)
        ensures
            r == self.spec_times(other),
    ;

    fn over(self, other: Self) -> (r: Self)
        ensures
            r == self.spec_over(other),
    ;

    fn sigmoid(self) -> (r: Self)
        ensures
            r == self.spec_sigmoid(),
    ;
}

/// The activation applied after the normalized weighted sum. Only the
/// logistic sigmoid is built in; the tag leaves room for further variants
/// without changing the neuron's shape.
#[derive(Clone, Copy, Debug, PartialEq, Eq, Structural)]
pub enum Activation {
    Sigmoid,
}

/// What an activation tag computes on a scalar.
pub open spec fn spec_activate<T: Signal>(a: Activation, x: T) -> T {
    match a {
        Activation::Sigmoid => x.spec_sigmoid(),
    }
}

/// Applies an activation tag to a scalar.
pub fn activate<T: Signal>(a: Activation, x: T) -> (r: T)
    ensures
        r == spec_activate(a, x),
{
    match a {
        Activation::Sigmoid => x.sigmoid(),
    }
}

} // verus!
