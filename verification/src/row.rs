//! N-ary sums over rows of types.
//!
//! A row is a list of types written as nested pairs ending in `()`:
//! `(A0, (A1, (A2, ())))`. Applying a row to a type constructor `T`
//! (a `RowTypeApp`) gives the sum type `Sum<T(A0), Sum<T(A1), Sum<T(A2), Bottom>>>`,
//! whose values pick exactly one of the alternatives.
use core::marker::PhantomData;
use vstd::prelude::*;

use async_std::channel::{Receiver, Sender};

use crate::peano::{Nat, S, Z};

verus! {

/// A type constructor that can be applied to a type `A`.
pub trait RowTypeApp<A> {
    type Applied;
}

impl<A> RowTypeApp<A> for () {
    type Applied = ();
}

/// The empty sum: no value of it can be built.
#[derive(Debug, PartialEq, Eq)]
pub struct Bottom {
    never: (),
}

impl Bottom {
    #[verifier::type_invariant]
    spec fn uninhabited(self) -> bool {
        false
    }

    /// Eliminates a value that cannot exist.
    pub fn absurd<R>(self) -> R
        decreases 0nat,
    {
        proof {
            use_type_invariant(&self);
        }
        self.absurd()
    }

    /// Eliminates a borrowed value that cannot exist.
    pub fn absurd_ref<R>(&self) -> R
        decreases 0nat,
    {
        proof {
            use_type_invariant(self);
        }
        self.absurd_ref()
    }
}

/// The constant type constructor: applied to any type it gives `X`.
pub struct Const<X>(PhantomData<X>);

impl<X, A> RowTypeApp<A> for Const<X> {
    type Applied = X;
}

/// Pairs two type constructors: applied to `A` it gives both applications.
pub struct Merge<T1, T2>(PhantomData<(T1, T2)>);

/// Applied to a protocol `P`, gives the receiving end of a channel of `P`.
pub struct ReceiverApp {}

/// Applied to a protocol `P`, gives the sending end of a channel of `P`.
pub struct SenderApp {}

impl<P> RowTypeApp<P> for ReceiverApp {
    type Applied = Receiver<P>;
}

impl<P> RowTypeApp<P> for SenderApp {
    type Applied = Sender<P>;
}

/// A binary sum.
#[derive(Debug, PartialEq, Eq, Clone, Copy)]
pub enum Sum<A, B> {
    Inl(A),
    Inr(B),
}

/// Rows that can be applied to the type constructor `T`, giving the sum type `Field`.
pub trait SumRow<T> {
    type Field;

    /// The position, counted from zero, of the alternative that `field` holds.
    spec fn field_index(field: Self::Field) -> nat;
}

impl<T> SumRow<T> for () {
    type Field = Bottom;

    open spec fn field_index(field: Bottom) -> nat {
        0
    }
}

impl<T, A, R> SumRow<T> for (A, R) where T: RowTypeApp<A>, R: SumRow<T> {
    type Field = Sum<T::Applied, R::Field>;

    open spec fn field_index(field: Sum<T::Applied, R::Field>) -> nat {
        match field {
            Sum::Inl(_) => 0,
            Sum::Inr(rest) => R::field_index(rest) + 1,
        }
    }
}

impl<T1, T2, A> RowTypeApp<A> for Merge<T1, T2> where T1: RowTypeApp<A>, T2: RowTypeApp<A> {
    type Applied = (T1::Applied, T2::Applied);
}

/// Splits a sum of pairs into a pair of sums that pick the same alternative.
pub trait SplitRow<T1, T2>: SumRow<T1> + SumRow<T2> + SumRow<Merge<T1, T2>> {
    /// The two sums that `row` splits into.
    spec fn spec_split_row(row: <Self as SumRow<Merge<T1, T2>>>::Field) -> (
        <Self as SumRow<T1>>::Field,
        <Self as SumRow<T2>>::Field,
    );

    fn split_row(row: <Self as SumRow<Merge<T1, T2>>>::Field) -> (res: (
        <Self as SumRow<T1>>::Field,
        <Self as SumRow<T2>>::Field,
    ))
        ensures
            res == Self::spec_split_row(row),
            <Self as SumRow<T1>>::field_index(res.0) == <Self as SumRow<
                Merge<T1, T2>,
            >>::field_index(row),
            <Self as SumRow<T2>>::field_index(res.1) == <Self as SumRow<
                Merge<T1, T2>,
            >>::field_index(row),
    ;
}

impl<T1, T2> SplitRow<T1, T2> for () {
    open spec fn spec_split_row(row: Bottom) -> (Bottom, Bottom) {
        (row, row)
    }

    fn split_row(row: Bottom) -> (res: (Bottom, Bottom)) {
        proof {
            use_type_invariant(&row);
        }
        row.absurd()
    }
}

impl<T1, T2, A, R> SplitRow<T1, T2> for (A, R) where
    T1: RowTypeApp<A>,
    T2: RowTypeApp<A>,
    R: SplitRow<T1, T2>,
 {
    open spec fn spec_split_row(
        row: Sum<(T1::Applied, T2::Applied), <R as SumRow<Merge<T1, T2>>>::Field>,
    ) -> (Sum<T1::Applied, <R as SumRow<T1>>::Field>, Sum<T2::Applied, <R as SumRow<T2>>::Field>) {
        match row {
            Sum::Inl(pair) => (Sum::Inl(pair.0), Sum::Inl(pair.1)),
            Sum::Inr(rest) => (
                Sum::Inr(R::spec_split_row(rest).0),
                Sum::Inr(R::spec_split_row(rest).1),
            ),
        }
    }

    fn split_row(row: Sum<(T1::Applied, T2::Applied), <R as SumRow<Merge<T1, T2>>>::Field>) -> (res: (
        Sum<T1::Applied, <R as SumRow<T1>>::Field>,
        Sum<T2::Applied, <R as SumRow<T2>>::Field>,
    )) {
        match row {
            Sum::Inl(pair) => {
                let (a, b) = pair;
                (Sum::Inl(a), Sum::Inl(b))
            },
            Sum::Inr(rest) => {
                let (a, b) = R::split_row(rest);
                (Sum::Inr(a), Sum::Inr(b))
            },
        }
    }
}

/// Joins two sums into a sum of pairs when both pick the same alternative.
pub trait IntersectSum<T1, T2>: SumRow<T1> + SumRow<T2> + SumRow<Merge<T1, T2>> {
    /// The joined sum, or `None` when the two sums pick different alternatives.
    spec fn spec_intersect(
        row1: <Self as SumRow<T1>>::Field,
        row2: <Self as SumRow<T2>>::Field,
    ) -> Option<<Self as SumRow<Merge<T1, T2>>>::Field>;

    fn intersect(row1: <Self as SumRow<T1>>::Field, row2: <Self as SumRow<T2>>::Field) -> (res:
        Option<<Self as SumRow<Merge<T1, T2>>>::Field>)
        ensures
            res == Self::spec_intersect(row1, row2),
            res is Some <==> <Self as SumRow<T1>>::field_index(row1) == <Self as SumRow<
                T2,
            >>::field_index(row2),
            res matches Some(joined) ==> <Self as SumRow<Merge<T1, T2>>>::field_index(joined)
                == <Self as SumRow<T1>>::field_index(row1),
    ;
}

impl<T1, T2> IntersectSum<T1, T2> for () {
    open spec fn spec_intersect(row1: Bottom, row2: Bottom) -> Option<Bottom> {
        Some(row1)
    }

    fn intersect(row1: Bottom, row2: Bottom) -> (res: Option<Bottom>) {
        proof {
            use_type_invariant(&row1);
        }
        row1.absurd()
    }
}

impl<T1, T2, A, R> IntersectSum<T1, T2> for (A, R) where
    T1: RowTypeApp<A>,
    T2: RowTypeApp<A>,
    R: IntersectSum<T1, T2>,
 {
    open spec fn spec_intersect(
        row1: Sum<T1::Applied, <R as SumRow<T1>>::Field>,
        row2: Sum<T2::Applied, <R as SumRow<T2>>::Field>,
    ) -> Option<Sum<(T1::Applied, T2::Applied), <R as SumRow<Merge<T1, T2>>>::Field>> {
        match (row1, row2) {
            (Sum::Inl(a1), Sum::Inl(a2)) => Some(Sum::Inl((a1, a2))),
            (Sum::Inr(r1), Sum::Inr(r2)) => match R::spec_intersect(r1, r2) {
                Some(joined) => Some(Sum::Inr(joined)),
                None => None,
            },
            _ => None,
        }
    }

    fn intersect(
        row1: Sum<T1::Applied, <R as SumRow<T1>>::Field>,
        row2: Sum<T2::Applied, <R as SumRow<T2>>::Field>,
    ) -> (res: Option<Sum<(T1::Applied, T2::Applied), <R as SumRow<Merge<T1, T2>>>::Field>>) {
        match (row1, row2) {
            (Sum::Inl(a1), Sum::Inl(a2)) => Some(Sum::Inl((a1, a2))),
            (Sum::Inr(r1), Sum::Inr(r2)) => match R::intersect(r1, r2) {
                Some(joined) => Some(Sum::Inr(joined)),
                None => None,
            },
            _ => None,
        }
    }
}

/// Joining two sums does not depend on their order, up to the order within the pairs.
pub trait IntersectSymmetric<T1, T2>: IntersectSum<T1, T2> + IntersectSum<T2, T1> {
    /// The sum of pairs whose pairs are those of `joined`, each swapped.
    spec fn spec_swap_pairs(joined: <Self as SumRow<Merge<T2, T1>>>::Field) -> <Self as SumRow<
        Merge<T1, T2>,
    >>::Field;

    /// Joining `row1` with `row2` swaps the pairs of joining `row2` with `row1`; in
    /// particular one is `None` exactly when the other is.
    proof fn lemma_intersect_symmetric(
        row1: <Self as SumRow<T1>>::Field,
        row2: <Self as SumRow<T2>>::Field,
    )
        ensures
            <Self as IntersectSum<T1, T2>>::spec_intersect(row1, row2) == match <Self as IntersectSum<
                T2,
                T1,
            >>::spec_intersect(row2, row1) {
                Some(joined) => Some(Self::spec_swap_pairs(joined)),
                None => None,
            },
    ;
}

impl<T1, T2> IntersectSymmetric<T1, T2> for () {
    open spec fn spec_swap_pairs(joined: Bottom) -> Bottom {
        joined
    }

    proof fn lemma_intersect_symmetric(row1: Bottom, row2: Bottom) {
    }
}

impl<T1, T2, A, R> IntersectSymmetric<T1, T2> for (A, R) where
    T1: RowTypeApp<A>,
    T2: RowTypeApp<A>,
    R: IntersectSymmetric<T1, T2>,
 {
    open spec fn spec_swap_pairs(
        joined: Sum<(T2::Applied, T1::Applied), <R as SumRow<Merge<T2, T1>>>::Field>,
    ) -> Sum<(T1::Applied, T2::Applied), <R as SumRow<Merge<T1, T2>>>::Field> {
        match joined {
            Sum::Inl(pair) => Sum::Inl((pair.1, pair.0)),
            Sum::Inr(rest) => Sum::Inr(R::spec_swap_pairs(rest)),
        }
    }

    proof fn lemma_intersect_symmetric(
        row1: Sum<T1::Applied, <R as SumRow<T1>>::Field>,
        row2: Sum<T2::Applied, <R as SumRow<T2>>::Field>,
    ) {
        match (row1, row2) {
            (Sum::Inr(r1), Sum::Inr(r2)) => {
                R::lemma_intersect_symmetric(r1, r2);
            },
            _ => {},
        }
    }
}

/// Laws that relate splitting and joining sums.
pub trait MergeRow<T1, T2>: SplitRow<T1, T2> + IntersectSum<T1, T2> {
    /// Joining the two halves of a split sum gives back the sum.
    proof fn lemma_intersect_split(row: <Self as SumRow<Merge<T1, T2>>>::Field)
        ensures
            Self::spec_intersect(Self::spec_split_row(row).0, Self::spec_split_row(row).1) == Some(
                row,
            ),
    ;

    /// Splitting a joined sum gives back the two sums that were joined.
    proof fn lemma_split_intersect(
        row1: <Self as SumRow<T1>>::Field,
        row2: <Self as SumRow<T2>>::Field,
    )
        ensures
            Self::spec_intersect(row1, row2) matches Some(joined) ==> Self::spec_split_row(joined)
                == (row1, row2),
    ;
}

impl<T1, T2> MergeRow<T1, T2> for () {
    proof fn lemma_intersect_split(row: Bottom) {
    }

    proof fn lemma_split_intersect(row1: Bottom, row2: Bottom) {
    }
}

impl<T1, T2, A, R> MergeRow<T1, T2> for (A, R) where
    T1: RowTypeApp<A>,
    T2: RowTypeApp<A>,
    R: MergeRow<T1, T2>,
 {
    proof fn lemma_intersect_split(
        row: Sum<(T1::Applied, T2::Applied), <R as SumRow<Merge<T1, T2>>>::Field>,
    ) {
        match row {
            Sum::Inl(pair) => {},
            Sum::Inr(rest) => {
                R::lemma_intersect_split(rest);
            },
        }
    }

    proof fn lemma_split_intersect(
        row1: Sum<T1::Applied, <R as SumRow<T1>>::Field>,
        row2: Sum<T2::Applied, <R as SumRow<T2>>::Field>,
    ) {
        match (row1, row2) {
            (Sum::Inr(r1), Sum::Inr(r2)) => {
                R::lemma_split_intersect(r1, r2);
            },
            _ => {},
        }
    }
}

/// Lifts a field applied to `T1` to the same field applied to `T2`.
pub trait LiftField<T1, T2, A> where T1: RowTypeApp<A>, T2: RowTypeApp<A> {
    /// The lifted field.
    spec fn spec_lift_field(field: T1::Applied) -> T2::Applied;

    fn lift_field(field: T1::Applied) -> (res: T2::Applied)
        ensures
            res == Self::spec_lift_field(field),
    ;
}

/// Lifts a borrowed field applied to `T1` to the same field applied to `T2`.
pub trait LiftFieldBorrow<T1, T2, A> where T1: RowTypeApp<A>, T2: RowTypeApp<A> {
    /// The lifted field.
    spec fn spec_lift_field_borrow(field: T1::Applied) -> T2::Applied;

    fn lift_field_borrow(field: &T1::Applied) -> (res: T2::Applied)
        ensures
            res == Self::spec_lift_field_borrow(*field),
    ;
}

/// Lifts a borrowed sum applied to `T1` to a sum applied to `T2`, field by field with `F`.
pub trait LiftSumBorrow<T1, T2, F>: SumRow<T1> + SumRow<T2> {
    /// The lifted sum.
    spec fn spec_lift_sum_borrow(sum: <Self as SumRow<T1>>::Field) -> <Self as SumRow<T2>>::Field;

    fn lift_sum_borrow(sum: &<Self as SumRow<T1>>::Field) -> (res: <Self as SumRow<T2>>::Field)
        ensures
            res == Self::spec_lift_sum_borrow(*sum),
            <Self as SumRow<T2>>::field_index(res) == <Self as SumRow<T1>>::field_index(*sum),
    ;
}

impl<T1, T2, F> LiftSumBorrow<T1, T2, F> for () {
    open spec fn spec_lift_sum_borrow(sum: Bottom) -> Bottom {
        sum
    }

    fn lift_sum_borrow(sum: &Bottom) -> (res: Bottom) {
        proof {
            use_type_invariant(sum);
        }
        sum.absurd_ref()
    }
}

impl<T1, T2, F, A, B> LiftSumBorrow<T1, T2, F> for (A, B) where
    T1: RowTypeApp<A>,
    T2: RowTypeApp<A>,
    F: LiftFieldBorrow<T1, T2, A>,
    B: LiftSumBorrow<T1, T2, F>,
 {
    open spec fn spec_lift_sum_borrow(sum: Sum<T1::Applied, <B as SumRow<T1>>::Field>) -> Sum<
        T2::Applied,
        <B as SumRow<T2>>::Field,
    > {
        match sum {
            Sum::Inl(a) => Sum::Inl(F::spec_lift_field_borrow(a)),
            Sum::Inr(b) => Sum::Inr(B::spec_lift_sum_borrow(b)),
        }
    }

    fn lift_sum_borrow(sum: &Sum<T1::Applied, <B as SumRow<T1>>::Field>) -> (res: Sum<
        T2::Applied,
        <B as SumRow<T2>>::Field,
    >) {
        match sum {
            Sum::Inl(a) => Sum::Inl(F::lift_field_borrow(a)),
            Sum::Inr(b) => Sum::Inr(B::lift_sum_borrow(b)),
        }
    }
}

/// An injection that accepts every field of the sum that `Row` gives when applied to `T`
/// accepts `field`. Impls of the traits below that are generic over their own parameters
/// use it to apply a precondition that quantifies over such fields.
pub proof fn lemma_accepts_field<T, Row, Root, I>(inject: I, field: Row::Field) where
    Row: SumRow<T>,
    I: Fn(Row::Field) -> Root,
    requires
        forall|target: Row::Field| call_requires(inject, (target,)),
    ensures
        call_requires(inject, (field,)),
{
}

/// An injection that accepts every value that `T` gives when applied to `A` accepts
/// `value`. Generic impls of `FieldLifter` use it to apply their precondition.
pub proof fn lemma_accepts_applied<T, A, Root, I>(inject: I, value: T::Applied) where
    T: RowTypeApp<A>,
    I: Fn(T::Applied) -> Root,
    requires
        forall|target: T::Applied| call_requires(inject, (target,)),
    ensures
        call_requires(inject, (value,)),
{
}

/// Every output of `inject` is what the spec function `g` gives for the same input.
pub open spec fn injects_as<X, Root, I>(inject: I, g: spec_fn(X) -> Root) -> bool where
    I: Fn(X) -> Root,
 {
    forall|x: X, r: Root| call_ensures(inject, (x,), r) ==> r == g(x)
}

/// The type constructors that a field lifter works with, for the root type `Root`.
pub trait FieldLifterApplied<Root> {
    type Source;

    type Target;

    type Injected;
}

/// Lifts a field of `Source` into a field of `Injected`, given a way to inject a
/// field of `Target` into the root type.
///
/// The injection accepts every target field. An impl that is generic over `A` can
/// apply that to a given field with `lemma_accepts_applied`.
pub trait FieldLifter<Root, A>: FieldLifterApplied<Root> + Sized where
    Self::Source: RowTypeApp<A>,
    Self::Target: RowTypeApp<A>,
    Self::Injected: RowTypeApp<A>,
 {
    /// The lifted field, when the injection acts as `inject`. An impl states it; the
    /// default leaves it unknown, so that `lift_field` promises nothing of its result.
    open spec fn spec_lift_field(
        self,
        inject: spec_fn(<Self::Target as RowTypeApp<A>>::Applied) -> Root,
        field: <Self::Source as RowTypeApp<A>>::Applied,
    ) -> <Self::Injected as RowTypeApp<A>>::Applied {
        arbitrary()
    }

    fn lift_field<I>(
        self,
        inject: I,
        field: <Self::Source as RowTypeApp<A>>::Applied,
    ) -> (res: <Self::Injected as RowTypeApp<A>>::Applied) where
        I: Fn(<Self::Target as RowTypeApp<A>>::Applied) -> Root + Send + 'static,
        requires
            forall|target: <Self::Target as RowTypeApp<A>>::Applied| call_requires(inject, (target,)),
        ensures
            forall|g: spec_fn(<Self::Target as RowTypeApp<A>>::Applied) -> Root|
                #[trigger] injects_as(inject, g) ==> res == self.spec_lift_field(g, field),
    ;
}

/// Lifts a sum applied to `F::Source` into a sum applied to `F::Injected`, field by field.
///
/// The lifter of the held field gets an injection that puts a target field at the same
/// position of the target sum and hands that sum to `inject`.
pub trait LiftSum2<F, Root>: SumRow<F::Source> + SumRow<F::Target> + SumRow<F::Injected> where
    F: FieldLifterApplied<Root>,
 {
    /// The lifted sum, when the injection acts as `inject`: the field at position `k` is
    /// lifted with the injection that puts a target field at position `k` first.
    spec fn spec_lift_sum(
        ctx: F,
        inject: spec_fn(<Self as SumRow<F::Target>>::Field) -> Root,
        sum: <Self as SumRow<F::Source>>::Field,
    ) -> <Self as SumRow<F::Injected>>::Field;

    fn lift_sum<I>(ctx: F, inject: I, sum: <Self as SumRow<F::Source>>::Field) -> (res: <Self as SumRow<
        F::Injected,
    >>::Field) where I: Fn(<Self as SumRow<F::Target>>::Field) -> Root + Send + 'static
        requires
            forall|target: <Self as SumRow<F::Target>>::Field| call_requires(inject, (target,)),
        ensures
            <Self as SumRow<F::Injected>>::field_index(res) == <Self as SumRow<
                F::Source,
            >>::field_index(sum),
            forall|g: spec_fn(<Self as SumRow<F::Target>>::Field) -> Root|
                #[trigger] injects_as(inject, g) ==> res == Self::spec_lift_sum(ctx, g, sum),
    ;
}

impl<F, Root> LiftSum2<F, Root> for () where F: FieldLifterApplied<Root> {
    open spec fn spec_lift_sum(ctx: F, inject: spec_fn(Bottom) -> Root, sum: Bottom) -> Bottom {
        sum
    }

    fn lift_sum<I>(ctx: F, inject: I, sum: Bottom) -> (res: Bottom) where
        I: Fn(Bottom) -> Root + Send + 'static,
    {
        proof {
            use_type_invariant(&sum);
        }
        sum.absurd()
    }
}

impl<F, Root, A, B> LiftSum2<F, Root> for (A, B) where
    F: FieldLifter<Root, A>,
    B: LiftSum2<F, Root>,
    F::Source: RowTypeApp<A>,
    F::Target: RowTypeApp<A>,
    F::Injected: RowTypeApp<A>,
 {
    open spec fn spec_lift_sum(
        ctx: F,
        inject: spec_fn(Sum<<F::Target as RowTypeApp<A>>::Applied, <B as SumRow<F::Target>>::Field>) -> Root,
        sum: Sum<<F::Source as RowTypeApp<A>>::Applied, <B as SumRow<F::Source>>::Field>,
    ) -> Sum<<F::Injected as RowTypeApp<A>>::Applied, <B as SumRow<F::Injected>>::Field> {
        match sum {
            Sum::Inl(a) => Sum::Inl(
                ctx.spec_lift_field(|t: <F::Target as RowTypeApp<A>>::Applied| inject(Sum::Inl(t)), a),
            ),
            Sum::Inr(rest) => Sum::Inr(
                B::spec_lift_sum(ctx, |t: <B as SumRow<F::Target>>::Field| inject(Sum::Inr(t)), rest),
            ),
        }
    }

    fn lift_sum<I>(
        ctx: F,
        inject1: I,
        sum: Sum<<F::Source as RowTypeApp<A>>::Applied, <B as SumRow<F::Source>>::Field>,
    ) -> (res: Sum<<F::Injected as RowTypeApp<A>>::Applied, <B as SumRow<F::Injected>>::Field>) where
        I: Fn(Sum<<F::Target as RowTypeApp<A>>::Applied, <B as SumRow<F::Target>>::Field>) -> Root
            + Send
            + 'static,
    {
        match sum {
            Sum::Inl(a) => {
                assert forall|b: <F::Target as RowTypeApp<A>>::Applied|
                    call_requires(&inject1, (Sum::Inl(b),)) by {
                    lemma_accepts_field::<F::Target, (A, B), Root, I>(inject1, Sum::Inl(b));
                }
                let ghost outer = inject1;
                let inject2 = move |b: <F::Target as RowTypeApp<A>>::Applied| -> (r: Root)
                    requires
                        call_requires(&inject1, (Sum::Inl(b),)),
                    ensures
                        call_ensures(&inject1, (Sum::Inl(b),), r),
                    { inject1(Sum::Inl(b)) };
                let lifted = F::lift_field(ctx, inject2, a);
                proof {
                    assert forall|g: spec_fn(Sum<<F::Target as RowTypeApp<A>>::Applied, <B as SumRow<F::Target>>::Field>) -> Root|
                        #[trigger] injects_as(outer, g) implies Sum::<_, <B as SumRow<F::Injected>>::Field>::Inl(lifted)
                            == Self::spec_lift_sum(ctx, g, sum) by {
                        let g2 = |t: <F::Target as RowTypeApp<A>>::Applied| g(Sum::Inl(t));
                        assert(injects_as(inject2, g2));
                    }
                }
                Sum::Inl(lifted)
            },
            Sum::Inr(b) => {
                assert forall|rest: <B as SumRow<F::Target>>::Field|
                    call_requires(&inject1, (Sum::Inr(rest),)) by {
                    lemma_accepts_field::<F::Target, (A, B), Root, I>(inject1, Sum::Inr(rest));
                }
                let ghost outer = inject1;
                let inject2 = move |b: <B as SumRow<F::Target>>::Field| -> (r: Root)
                    requires
                        call_requires(&inject1, (Sum::Inr(b),)),
                    ensures
                        call_ensures(&inject1, (Sum::Inr(b),), r),
                    { inject1(Sum::Inr(b)) };
                let lifted = B::lift_sum(ctx, inject2, b);
                proof {
                    assert forall|g: spec_fn(Sum<<F::Target as RowTypeApp<A>>::Applied, <B as SumRow<F::Target>>::Field>) -> Root|
                        #[trigger] injects_as(outer, g) implies Sum::<<F::Injected as RowTypeApp<A>>::Applied, _>::Inr(lifted)
                            == Self::spec_lift_sum(ctx, g, sum) by {
                        let g2 = |t: <B as SumRow<F::Target>>::Field| g(Sum::Inr(t));
                        assert(injects_as(inject2, g2));
                    }
                }
                Sum::Inr(lifted)
            },
        }
    }
}

/// Lifts a sum into the sum applied to `F::Injected`, where the root type is the sum
/// applied to `Target` itself, so that fields are injected unchanged.
pub trait LiftSum3<F, Target>: SumRow<Target> + LiftSum2<
    F,
    <Self as SumRow<Target>>::Field,
> + Sized where F: FieldLifterApplied<<Self as SumRow<Target>>::Field, Target = Target> {
    fn lift_sum3(ctx: F, sum: <Self as SumRow<F::Source>>::Field) -> (res: <Self as SumRow<
        F::Injected,
    >>::Field)
        ensures
            <Self as SumRow<F::Injected>>::field_index(res) == <Self as SumRow<
                F::Source,
            >>::field_index(sum),
            res == <Self as LiftSum2<F, <Self as SumRow<Target>>::Field>>::spec_lift_sum(
                ctx,
                |field: <Self as SumRow<Target>>::Field| field,
                sum,
            ),
    ;
}

impl<A, F, Target> LiftSum3<F, Target> for A where
    A: Sized,
    A: SumRow<Target>,
    A: LiftSum2<F, <A as SumRow<Target>>::Field>,
    F: FieldLifterApplied<<A as SumRow<Target>>::Field, Target = Target>,
 {
    fn lift_sum3(ctx: F, sum: <A as SumRow<F::Source>>::Field) -> (res: <A as SumRow<
        F::Injected,
    >>::Field) {
        let identity = |x: <A as SumRow<Target>>::Field| -> (r: <A as SumRow<Target>>::Field)
            ensures
                r == x,
            { x };
        let res = A::lift_sum(ctx, identity, sum);
        proof {
            let g = |field: <A as SumRow<Target>>::Field| field;
            assert(injects_as(identity, g));
        }
        res
    }
}

/// Eliminates a field applied to `T` into a result of type `R`.
pub trait ElimField<T, A, R> where T: RowTypeApp<A> {
    /// The result of eliminating `a`.
    spec fn spec_elim_field(self, a: T::Applied) -> R;

    fn elim_field(self, a: T::Applied) -> (res: R)
        ensures
            res == self.spec_elim_field(a),
    ;
}

/// Eliminates a constant field by returning it.
pub struct ElimConst {}

impl<X, A> ElimField<Const<X>, A, X> for ElimConst {
    open spec fn spec_elim_field(self, x: X) -> X {
        x
    }

    fn elim_field(self, x: X) -> (res: X) {
        x
    }
}

/// Eliminates a sum by eliminating the field that it holds with `F`.
pub trait ElimSum<T, F, R>: SumRow<T> {
    /// The result of eliminating `row`.
    spec fn spec_elim_sum(f: F, row: Self::Field) -> R;

    fn elim_sum(f: F, row: Self::Field) -> (res: R)
        ensures
            res == Self::spec_elim_sum(f, row),
    ;
}

impl<T, F, R> ElimSum<T, F, R> for () {
    open spec fn spec_elim_sum(f: F, row: Bottom) -> R {
        arbitrary()
    }

    fn elim_sum(f: F, row: Bottom) -> (res: R) {
        proof {
            use_type_invariant(&row);
        }
        row.absurd()
    }
}

impl<A, B, T, F, R> ElimSum<T, F, R> for (A, B) where
    T: RowTypeApp<A>,
    B: ElimSum<T, F, R>,
    F: ElimField<T, A, R>,
 {
    open spec fn spec_elim_sum(f: F, row: Sum<T::Applied, B::Field>) -> R {
        match row {
            Sum::Inl(a) => f.spec_elim_field(a),
            Sum::Inr(b) => B::spec_elim_sum(f, b),
        }
    }

    fn elim_sum(f: F, row: Sum<T::Applied, B::Field>) -> (res: R) {
        match row {
            Sum::Inl(a) => f.elim_field(a),
            Sum::Inr(b) => B::elim_sum(f, b),
        }
    }
}

/// A position in the row `R`, named by a type-level natural number, through which an
/// element can be put into the sum or taken out of it.
pub trait Prism<R, T> where R: SumRow<T> {
    type Elem;

    /// The position, counted from zero, that the prism points at.
    spec fn prism_index() -> nat;

    /// The sum that holds `elem` at the prism's position.
    spec fn spec_inject_elem(elem: Self::Elem) -> R::Field;

    /// The element at the prism's position, or `None` when `row` holds another position.
    spec fn spec_extract_elem(row: R::Field) -> Option<Self::Elem>;

    fn inject_elem(elem: Self::Elem) -> (res: R::Field)
        ensures
            res == Self::spec_inject_elem(elem),
            R::field_index(res) == Self::prism_index(),
    ;

    fn extract_elem(row: R::Field) -> (res: Option<Self::Elem>)
        ensures
            res == Self::spec_extract_elem(row),
            res is Some <==> R::field_index(row) == Self::prism_index(),
    ;

    /// Taking out what was put in gives it back.
    proof fn lemma_extract_inject(elem: Self::Elem)
        ensures
            Self::spec_extract_elem(Self::spec_inject_elem(elem)) == Some(elem),
    ;

    /// An element taken out of a sum puts back that very sum.
    proof fn lemma_inject_extract(row: R::Field)
        ensures
            Self::spec_extract_elem(row) matches Some(elem) ==> Self::spec_inject_elem(elem)
                == row,
    ;
}

impl<T, A, R> Prism<(A, R), T> for Z where T: RowTypeApp<A>, R: SumRow<T> {
    type Elem = T::Applied;

    open spec fn prism_index() -> nat {
        0
    }

    open spec fn spec_inject_elem(elem: T::Applied) -> Sum<T::Applied, R::Field> {
        Sum::Inl(elem)
    }

    open spec fn spec_extract_elem(row: Sum<T::Applied, R::Field>) -> Option<T::Applied> {
        match row {
            Sum::Inl(e) => Some(e),
            Sum::Inr(_) => None,
        }
    }

    fn inject_elem(t: T::Applied) -> (res: Sum<T::Applied, R::Field>) {
        Sum::Inl(t)
    }

    fn extract_elem(row: Sum<T::Applied, R::Field>) -> (res: Option<T::Applied>) {
        match row {
            Sum::Inl(e) => Some(e),
            Sum::Inr(_) => None,
        }
    }

    proof fn lemma_extract_inject(elem: T::Applied) {
    }

    proof fn lemma_inject_extract(row: Sum<T::Applied, R::Field>) {
    }
}

impl<N, T, A, R> Prism<(A, R), T> for S<N> where
    N: Prism<R, T>,
    R: SumRow<T>,
    T: RowTypeApp<A>,
 {
    type Elem = N::Elem;

    open spec fn prism_index() -> nat {
        N::prism_index() + 1
    }

    open spec fn spec_inject_elem(elem: N::Elem) -> Sum<T::Applied, R::Field> {
        Sum::Inr(N::spec_inject_elem(elem))
    }

    open spec fn spec_extract_elem(row: Sum<T::Applied, R::Field>) -> Option<N::Elem> {
        match row {
            Sum::Inl(_) => None,
            Sum::Inr(rest) => N::spec_extract_elem(rest),
        }
    }

    fn inject_elem(t: N::Elem) -> (res: Sum<T::Applied, R::Field>) {
        Sum::Inr(N::inject_elem(t))
    }

    fn extract_elem(row: Sum<T::Applied, R::Field>) -> (res: Option<N::Elem>) {
        match row {
            Sum::Inl(_) => None,
            Sum::Inr(rest) => N::extract_elem(rest),
        }
    }

    proof fn lemma_extract_inject(elem: N::Elem) {
        N::lemma_extract_inject(elem);
    }

    proof fn lemma_inject_extract(row: Sum<T::Applied, R::Field>) {
        match row {
            Sum::Inl(_) => {},
            Sum::Inr(rest) => {
                N::lemma_inject_extract(rest);
            },
        }
    }
}

/// A prism named by the type-level number `n` points at the alternative at position `n`.
pub trait NumberedPrism<R, T>: Prism<R, T> + Nat where R: SumRow<T> {
    proof fn lemma_prism_index()
        ensures
            Self::prism_index() == Self::value(),
    ;
}

impl<T, A, R> NumberedPrism<(A, R), T> for Z where T: RowTypeApp<A>, R: SumRow<T> {
    proof fn lemma_prism_index() {
    }
}

impl<N, T, A, R> NumberedPrism<(A, R), T> for S<N> where
    N: NumberedPrism<R, T>,
    R: SumRow<T>,
    T: RowTypeApp<A>,
 {
    proof fn lemma_prism_index() {
        N::lemma_prism_index();
    }
}

impl<A> RowTypeApp<A> for Bottom {
    type Applied = Bottom;
}

impl<X, A, B> RowTypeApp<X> for Sum<A, B> where A: RowTypeApp<X>, B: RowTypeApp<X> {
    type Applied = Sum<A::Applied, B::Applied>;
}

} // verus!
