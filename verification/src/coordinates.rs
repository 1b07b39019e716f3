//! Exact coordinate vectors of a statically known size.

use vstd::prelude::*;

verus! {

/// The reals that a sequence of integers stands for.
pub open spec fn reals(v: Seq<int>) -> Seq<real> {
    Seq::new(v.len(), |i: int| v[i] as real)
}

/// The rationals `numerators[i] / denominator`.
pub open spec fn quotients(numerators: Seq<int>, denominator: int) -> Seq<real> {
    Seq::new(numerators.len(), |i: int| numerators[i] as real / denominator as real)
}

/// The sum of the squares of the components: the square of the distance from
/// the origin.
pub open spec fn squared_magnitude(v: Seq<real>) -> real
    decreases v.len(),
{
    if v.len() == 0 {
        0real
    } else {
        squared_magnitude(v.drop_last()) + v.last() * v.last()
    }
}

/// A point of the integer lattice in `N` dimensions.
#[derive(Clone, Copy, Debug, PartialEq, Eq)]
pub struct LatticePoint<const N: usize> {
    pub coords: [i64; N],
}

impl<const N: usize> View for LatticePoint<N> {
    type V = Seq<int>;

    open spec fn view(&self) -> Seq<int> {
        Seq::new(N as nat, |i: int| self.coords[i] as int)
    }
}

impl<const N: usize> LatticePoint<N> {
    /// The point with the given coordinates.
    pub fn new(coords: [i64; N]) -> (p: Self)
        ensures
            p.coords == coords,
    {
        LatticePoint { coords }
    }
}

/// A coordinate in an `N`-dimensional reference domain: the rationals
/// `numerators[i] / denominator`, with a positive denominator. It is read
/// through its view, the real vector that it stands for; `==` compares
/// numerators and denominator, so `1/2` and `2/4` are not `==`.
#[derive(Clone, Copy, Debug, PartialEq, Eq)]
pub struct ReferenceCoordinates<const N: usize> {
    numer: [i32; N],
    denom: u32,
}

impl<const N: usize> View for ReferenceCoordinates<N> {
    type V = Seq<real>;

    open spec fn view(&self) -> Seq<real> {
        quotients(self.numer(), self.denom())
    }
}

impl<const N: usize> ReferenceCoordinates<N> {
    #[verifier::type_invariant]
    spec fn positive_denominator(self) -> bool {
        self.denom > 0
    }

    /// The numerators, as integers.
    pub closed spec fn numer(self) -> Seq<int> {
        Seq::new(N as nat, |i: int| self.numer[i] as int)
    }

    /// The common denominator.
    pub closed spec fn denom(self) -> int {
        self.denom as int
    }

    /// There are as many numerators, and so as many components, as the
    /// type says.
    pub proof fn lemma_len(self)
        ensures
            self.numer().len() == N,
            self@.len() == N,
    {
    }

    /// The coordinate `numerators[i] / denominator`. The denominator is
    /// positive: over zero the numerators would stand for no number.
    pub fn new(numerators: [i32; N], denominator: u32) -> (c: Self)
        requires
            denominator > 0,
        ensures
            c.numer().len() == N,
            forall|i: int| 0 <= i < N ==> #[trigger] c.numer()[i] == numerators[i],
            c.denom() == denominator,
    {
        ReferenceCoordinates { numer: numerators, denom: denominator }
    }

    /// The numerators, one for each component.
    pub fn numerators(&self) -> (numerators: [i32; N])
        ensures
            self.numer().len() == N,
            forall|i: int| 0 <= i < N ==> #[trigger] numerators[i] == self.numer()[i],
    {
        self.numer
    }

    /// The denominator that all the components share.
    pub fn denominator(&self) -> (denominator: u32)
        ensures
            denominator == self.denom(),
            denominator > 0,
    {
        proof {
            use_type_invariant(self);
        }
        self.denom
    }
}

/// A coordinate in `N`-dimensional geometry: the rationals
/// `numerators[i] / denominator`, with a positive denominator. It is read
/// through its view, the real vector that it stands for; `==` compares
/// numerators and denominator, so `1/2` and `2/4` are not `==`.
#[derive(Clone, Copy, Debug, PartialEq, Eq)]
pub struct GeometryCoordinates<const N: usize> {
    numer: [i128; N],
    denom: u32,
}

impl<const N: usize> View for GeometryCoordinates<N> {
    type V = Seq<real>;

    open spec fn view(&self) -> Seq<real> {
        quotients(self.numer(), self.denom())
    }
}

impl<const N: usize> GeometryCoordinates<N> {
    #[verifier::type_invariant]
    spec fn positive_denominator(self) -> bool {
        self.denom > 0
    }

    /// The numerators, as integers.
    pub closed spec fn numer(self) -> Seq<int> {
        Seq::new(N as nat, |i: int| self.numer[i] as int)
    }

    /// The common denominator.
    pub closed spec fn denom(self) -> int {
        self.denom as int
    }

    /// There are as many numerators, and so as many components, as the
    /// type says.
    pub proof fn lemma_len(self)
        ensures
            self.numer().len() == N,
            self@.len() == N,
    {
    }

    /// The coordinate `numerators[i] / denominator`. The denominator is
    /// positive: over zero the numerators would stand for no number.
    pub fn new(numerators: [i128; N], denominator: u32) -> (c: Self)
        requires
            denominator > 0,
        ensures
            c.numer().len() == N,
            forall|i: int| 0 <= i < N ==> #[trigger] c.numer()[i] == numerators[i],
            c.denom() == denominator,
    {
        GeometryCoordinates { numer: numerators, denom: denominator }
    }

    /// The numerators, one for each component.
    pub fn numerators(&self) -> (numerators: [i128; N])
        ensures
            self.numer().len() == N,
            forall|i: int| 0 <= i < N ==> #[trigger] numerators[i] == self.numer()[i],
    {
        self.numer
    }

    /// The denominator that all the components share.
    pub fn denominator(&self) -> (denominator: u32)
        ensures
            denominator == self.denom(),
            denominator > 0,
    {
        proof {
            use_type_invariant(self);
        }
        self.denom
    }
}

} // verus!
