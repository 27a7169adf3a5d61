//! Recursive types as fixed points of type-level functions.
//!
//! `F` describes one layer of a recursive type; `Unfix<A>` marks the places where the
//! recursive type itself occurs, and `Fix<F>` closes the knot: `Fix<F>` holds one layer
//! whose holes are filled with `Fix<F>` again.
use core::marker::PhantomData;
use vstd::prelude::*;

use crate::peano::{S, Z};

verus! {

/// A type-level function: applying `Self` to `A` gives `Applied`.
pub trait TypeApp<A> {
    type Applied;
}

/// Marks the place of the recursive occurrence `A` in one layer of a recursive type.
pub struct Unfix<A>(PhantomData<A>);

/// The fixed point of `F`: one layer of `F` applied to `Fix<F>` itself.
pub struct Fix<F> where F: TypeApp<Unfix<Fix<F>>> {
    unfix: Box<<F as TypeApp<Unfix<Fix<F>>>>::Applied>,
}

impl<F> Fix<F> where F: TypeApp<Unfix<Fix<F>>> {
    /// The layer that this value wraps.
    pub closed spec fn unfixed(self) -> <F as TypeApp<Unfix<Fix<F>>>>::Applied {
        *self.unfix
    }
}

/// The recursive value that wraps the layer `x`.
pub closed spec fn spec_fix<F>(x: <F as TypeApp<Unfix<Fix<F>>>>::Applied) -> Fix<F> where
    F: TypeApp<Unfix<Fix<F>>>,
 {
    Fix { unfix: Box::new(x) }
}

/// Wraps one layer of a recursive type into the recursive type.
pub fn fix<F>(x: <F as TypeApp<Unfix<Fix<F>>>>::Applied) -> (res: Fix<F>) where
    F: TypeApp<Unfix<Fix<F>>>,
    ensures
        res == spec_fix::<F>(x),
        res.unfixed() == x,
{
    Fix { unfix: Box::new(x) }
}

/// Unwraps one layer of a recursive type.
pub fn unfix<F>(x: Fix<F>) -> (res: <F as TypeApp<Unfix<Fix<F>>>>::Applied) where
    F: TypeApp<Unfix<Fix<F>>>,
    ensures
        res == x.unfixed(),
{
    *x.unfix
}

/// Unwrapping what was wrapped gives back the layer.
pub proof fn lemma_unfix_fix<F>(x: <F as TypeApp<Unfix<Fix<F>>>>::Applied) where
    F: TypeApp<Unfix<Fix<F>>>,
    ensures
        spec_fix::<F>(x).unfixed() == x,
{
}

/// Wrapping what was unwrapped gives back the recursive value.
pub proof fn lemma_fix_unfix<F>(x: Fix<F>) where F: TypeApp<Unfix<Fix<F>>>
    ensures
        spec_fix::<F>(x.unfixed()) == x,
{
}

impl<A, F> TypeApp<A> for Fix<F> where
    F: TypeApp<S<A>>,
    F: TypeApp<Unfix<Fix<F>>>,
    <F as TypeApp<S<A>>>::Applied: TypeApp<Unfix<Fix<<F as TypeApp<S<A>>>::Applied>>>,
 {
    type Applied = Fix<<F as TypeApp<S<A>>>::Applied>;
}

impl<A> TypeApp<Unfix<A>> for Z {
    type Applied = A;
}

impl TypeApp<Z> for Z {
    type Applied = Z;
}

impl<A> TypeApp<S<A>> for Z {
    type Applied = Z;
}

impl<A, N> TypeApp<S<A>> for S<N> where N: TypeApp<A> {
    type Applied = S<N::Applied>;
}

impl<A, N> TypeApp<Unfix<A>> for S<N> {
    type Applied = N;
}

impl<N> TypeApp<Z> for S<N> {
    type Applied = S<N>;
}

impl<A> TypeApp<A> for () {
    type Applied = ();
}

impl<A, X, Y> TypeApp<A> for (X, Y) where X: TypeApp<A>, Y: TypeApp<A> {
    type Applied = (X::Applied, Y::Applied);
}

} // verus!
