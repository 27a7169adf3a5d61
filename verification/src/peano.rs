use vstd::prelude::*;

verus! {

/// The type-level natural number zero.
#[derive(Debug, Clone, Copy, PartialEq, Eq)]
pub struct Z;

/// The successor of `N`. As a type-level number it carries the only value of `N`; it
/// also wraps a value of `N` one level deeper, as in `succ`.
#[derive(Debug, Clone, Copy, PartialEq, Eq)]
pub struct S<N>(pub N);

/// Type-level natural numbers, each with a single value.
pub trait Nat: Sized {
    /// The number that the type stands for.
    spec fn value() -> nat;

    /// The only value of the type.
    spec fn spec_witness() -> Self;

    fn witness() -> (res: Self)
        ensures
            res == Self::spec_witness(),
    ;
}

impl Nat for Z {
    open spec fn value() -> nat {
        0
    }

    open spec fn spec_witness() -> Z {
        Z
    }

    fn witness() -> (res: Z) {
        Z
    }
}

impl<N: Nat> Nat for S<N> {
    open spec fn value() -> nat {
        N::value() + 1
    }

    open spec fn spec_witness() -> S<N> {
        S(N::spec_witness())
    }

    fn witness() -> (res: S<N>) {
        S(N::witness())
    }
}

/// Wraps a value one level deeper.
pub fn succ<N>(n: N) -> (res: S<N>)
    ensures
        res.0 == n,
{
    S(n)
}

} // verus!
