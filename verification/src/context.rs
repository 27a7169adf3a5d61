//! Linear contexts of sessions and lenses into them.
//!
//! A context is a list of slots written as nested pairs ending in `()`. Each slot is a
//! protocol, whose endpoint is the receiving end of a channel of it, or `Empty`, whose
//! endpoint is `()`. A lens, named by a type-level natural number, takes the endpoint
//! out of one slot and puts an endpoint of another slot type in its place.
use async_std::channel::Receiver;
use vstd::prelude::*;

use crate::peano::{Nat, S, Z};
use crate::protocol::Protocol;

verus! {

/// A slot that has been used up.
pub struct Empty;

/// The slots of a context: a protocol, or `Empty`.
pub trait Slot: Send + 'static {
    type Endpoint: Send + 'static;
}

impl<P> Slot for P where P: Protocol {
    type Endpoint = Receiver<P>;
}

impl Slot for Empty {
    type Endpoint = ();
}

/// A list of slots.
pub trait Context: Send + 'static {
    type Endpoints: Send + 'static;

    type Length: Nat;
}

impl Context for () {
    type Endpoints = ();

    type Length = Z;
}

impl<P, R> Context for (P, R) where P: Slot, R: Context {
    type Endpoints = (P::Endpoint, R::Endpoints);

    type Length = S<R::Length>;
}

/// A context whose slots are all empty.
pub trait EmptyContext: Context {
    /// The endpoints of the context, which carry nothing.
    spec fn spec_empty_values() -> Self::Endpoints;

    fn empty_values() -> (res: Self::Endpoints)
        ensures
            res == Self::spec_empty_values(),
    ;
}

impl EmptyContext for () {
    open spec fn spec_empty_values() -> () {
        ()
    }

    fn empty_values() -> (res: ()) {
        ()
    }
}

impl<R> EmptyContext for (Empty, R) where R: EmptyContext {
    open spec fn spec_empty_values() -> ((), R::Endpoints) {
        ((), R::spec_empty_values())
    }

    fn empty_values() -> (res: ((), R::Endpoints)) {
        ((), R::empty_values())
    }
}

/// Appending the context `R` at the end of the context `Self`.
pub trait AppendContext<R>: Context where R: Context {
    type Appended: Context;

    /// The endpoints of the appended context.
    spec fn spec_append_context(
        ctx1: Self::Endpoints,
        ctx2: R::Endpoints,
    ) -> <Self::Appended as Context>::Endpoints;

    /// The two parts that the endpoints of an appended context split into.
    spec fn spec_split_context(ctx: <Self::Appended as Context>::Endpoints) -> (
        Self::Endpoints,
        R::Endpoints,
    );

    fn append_context(ctx1: Self::Endpoints, ctx2: R::Endpoints) -> (res: <Self::Appended as Context>::Endpoints)
        ensures
            res == Self::spec_append_context(ctx1, ctx2),
    ;

    fn split_context(ctx: <Self::Appended as Context>::Endpoints) -> (res: (
        Self::Endpoints,
        R::Endpoints,
    ))
        ensures
            res == Self::spec_split_context(ctx),
    ;

    /// Splitting an appended context gives back its two parts.
    proof fn lemma_split_append(ctx1: Self::Endpoints, ctx2: R::Endpoints)
        ensures
            Self::spec_split_context(Self::spec_append_context(ctx1, ctx2)) == (ctx1, ctx2),
    ;

    /// Appending the two parts of a split context gives back the context.
    proof fn lemma_append_split(ctx: <Self::Appended as Context>::Endpoints)
        ensures
            Self::spec_append_context(Self::spec_split_context(ctx).0, Self::spec_split_context(ctx).1)
                == ctx,
    ;

    /// The appended context is as long as the two parts together.
    proof fn lemma_append_length()
        ensures
            <Self::Appended as Context>::Length::value() == Self::Length::value()
                + R::Length::value(),
    ;
}

impl<R> AppendContext<R> for () where R: Context {
    type Appended = R;

    open spec fn spec_append_context(ctx1: (), ctx2: R::Endpoints) -> R::Endpoints {
        ctx2
    }

    open spec fn spec_split_context(ctx: R::Endpoints) -> ((), R::Endpoints) {
        ((), ctx)
    }

    fn append_context(ctx1: (), ctx2: R::Endpoints) -> (res: R::Endpoints) {
        ctx2
    }

    fn split_context(ctx: R::Endpoints) -> (res: ((), R::Endpoints)) {
        ((), ctx)
    }

    proof fn lemma_split_append(ctx1: (), ctx2: R::Endpoints) {
    }

    proof fn lemma_append_split(ctx: R::Endpoints) {
    }

    proof fn lemma_append_length() {
    }
}

impl<P, R, C> AppendContext<C> for (P, R) where P: Slot, R: Context, C: Context, R: AppendContext<C> {
    type Appended = (P, R::Appended);

    open spec fn spec_append_context(
        ctx1: (P::Endpoint, R::Endpoints),
        ctx2: C::Endpoints,
    ) -> (P::Endpoint, <R::Appended as Context>::Endpoints) {
        (ctx1.0, R::spec_append_context(ctx1.1, ctx2))
    }

    open spec fn spec_split_context(ctx: (P::Endpoint, <R::Appended as Context>::Endpoints)) -> (
        (P::Endpoint, R::Endpoints),
        C::Endpoints,
    ) {
        ((ctx.0, R::spec_split_context(ctx.1).0), R::spec_split_context(ctx.1).1)
    }

    fn append_context(ctx1: (P::Endpoint, R::Endpoints), ctx2: C::Endpoints) -> (res: (
        P::Endpoint,
        <R::Appended as Context>::Endpoints,
    )) {
        let (p, r) = ctx1;
        (p, R::append_context(r, ctx2))
    }

    fn split_context(ctx: (P::Endpoint, <R::Appended as Context>::Endpoints)) -> (res: (
        (P::Endpoint, R::Endpoints),
        C::Endpoints,
    )) {
        let (p, r) = ctx;
        let (r1, r2) = R::split_context(r);
        ((p, r1), r2)
    }

    proof fn lemma_split_append(ctx1: (P::Endpoint, R::Endpoints), ctx2: C::Endpoints) {
        R::lemma_split_append(ctx1.1, ctx2);
    }

    proof fn lemma_append_split(ctx: (P::Endpoint, <R::Appended as Context>::Endpoints)) {
        R::lemma_append_split(ctx.1);
    }

    proof fn lemma_append_length() {
        R::lemma_append_length();
    }
}

/// A lens at the slot named by `Self` in the context `C`: the slot holds `A1`, and
/// after an update it holds `A2`, giving the context `Target`.
pub trait ContextLens<C, A1, A2> where C: Context, A1: Slot, A2: Slot {
    /// The endpoints of the other slots.
    type Deleted: Send + 'static;

    /// The context after the update.
    type Target: Context;

    /// The position, counted from zero, of the slot.
    spec fn lens_index() -> nat;

    /// The endpoint of the slot, and the endpoints of the other slots.
    spec fn spec_extract_source(ctx: C::Endpoints) -> (A1::Endpoint, Self::Deleted);

    /// The endpoints of the updated context: `endpoint` in the slot, `deleted` elsewhere.
    spec fn spec_insert_target(
        endpoint: A2::Endpoint,
        deleted: Self::Deleted,
    ) -> <Self::Target as Context>::Endpoints;

    fn extract_source(ctx: C::Endpoints) -> (res: (A1::Endpoint, Self::Deleted))
        ensures
            res == Self::spec_extract_source(ctx),
    ;

    fn insert_target(endpoint: A2::Endpoint, deleted: Self::Deleted) -> (res: <Self::Target as Context>::Endpoints)
        ensures
            res == Self::spec_insert_target(endpoint, deleted),
    ;
}

impl<A1, A2, C> ContextLens<(A1, C), A1, A2> for Z where A1: Slot, A2: Slot, C: Context {
    type Deleted = C::Endpoints;

    type Target = (A2, C);

    open spec fn lens_index() -> nat {
        0
    }

    open spec fn spec_extract_source(ctx: (A1::Endpoint, C::Endpoints)) -> (A1::Endpoint, C::Endpoints) {
        ctx
    }

    open spec fn spec_insert_target(endpoint: A2::Endpoint, deleted: C::Endpoints) -> (
        A2::Endpoint,
        C::Endpoints,
    ) {
        (endpoint, deleted)
    }

    fn extract_source(ctx: (A1::Endpoint, C::Endpoints)) -> (res: (A1::Endpoint, C::Endpoints)) {
        ctx
    }

    fn insert_target(endpoint: A2::Endpoint, deleted: C::Endpoints) -> (res: (
        A2::Endpoint,
        C::Endpoints,
    )) {
        (endpoint, deleted)
    }
}

impl<B, A1, A2, C, N> ContextLens<(B, C), A1, A2> for S<N> where
    B: Slot,
    A1: Slot,
    A2: Slot,
    C: Context,
    N: ContextLens<C, A1, A2>,
 {
    type Deleted = (B::Endpoint, N::Deleted);

    type Target = (B, N::Target);

    open spec fn lens_index() -> nat {
        N::lens_index() + 1
    }

    open spec fn spec_extract_source(ctx: (B::Endpoint, C::Endpoints)) -> (
        A1::Endpoint,
        (B::Endpoint, N::Deleted),
    ) {
        (N::spec_extract_source(ctx.1).0, (ctx.0, N::spec_extract_source(ctx.1).1))
    }

    open spec fn spec_insert_target(endpoint: A2::Endpoint, deleted: (B::Endpoint, N::Deleted)) -> (
        B::Endpoint,
        <N::Target as Context>::Endpoints,
    ) {
        (deleted.0, N::spec_insert_target(endpoint, deleted.1))
    }

    fn extract_source(ctx: (B::Endpoint, C::Endpoints)) -> (res: (
        A1::Endpoint,
        (B::Endpoint, N::Deleted),
    )) {
        let (b, rest) = ctx;
        let (a, deleted) = N::extract_source(rest);
        (a, (b, deleted))
    }

    fn insert_target(endpoint: A2::Endpoint, deleted: (B::Endpoint, N::Deleted)) -> (res: (
        B::Endpoint,
        <N::Target as Context>::Endpoints,
    )) {
        let (b, rest) = deleted;
        (b, N::insert_target(endpoint, rest))
    }
}

/// A lens named by the type-level number `n` points at the slot at position `n`.
pub trait NumberedLens<C, A1, A2>: ContextLens<C, A1, A2> + Nat where
    C: Context,
    A1: Slot,
    A2: Slot,
 {
    proof fn lemma_lens_index()
        ensures
            Self::lens_index() == Self::value(),
    ;
}

impl<A1, A2, C> NumberedLens<(A1, C), A1, A2> for Z where A1: Slot, A2: Slot, C: Context {
    proof fn lemma_lens_index() {
    }
}

impl<B, A1, A2, C, N> NumberedLens<(B, C), A1, A2> for S<N> where
    B: Slot,
    A1: Slot,
    A2: Slot,
    C: Context,
    N: NumberedLens<C, A1, A2>,
 {
    proof fn lemma_lens_index() {
        N::lemma_lens_index();
    }
}

/// The lens laws, for a lens that puts back a slot of the type it took out.
pub trait ContextLensLaws<C, A>: ContextLens<C, A, A, Target = C> where C: Context, A: Slot {
    /// Putting back what was taken out restores the context.
    proof fn lemma_insert_extract(ctx: C::Endpoints)
        ensures
            Self::spec_insert_target(
                Self::spec_extract_source(ctx).0,
                Self::spec_extract_source(ctx).1,
            ) == ctx,
    ;

    /// Taking out what was put in gives it back, with the rest of the context unchanged.
    proof fn lemma_extract_insert(endpoint: A::Endpoint, deleted: Self::Deleted)
        ensures
            Self::spec_extract_source(Self::spec_insert_target(endpoint, deleted)) == (
                endpoint,
                deleted,
            ),
    ;
}

impl<A, C> ContextLensLaws<(A, C), A> for Z where A: Slot, C: Context {
    proof fn lemma_insert_extract(ctx: (A::Endpoint, C::Endpoints)) {
    }

    proof fn lemma_extract_insert(endpoint: A::Endpoint, deleted: C::Endpoints) {
    }
}

impl<B, A, C, N> ContextLensLaws<(B, C), A> for S<N> where
    B: Slot,
    A: Slot,
    C: Context,
    N: ContextLensLaws<C, A>,
 {
    proof fn lemma_insert_extract(ctx: (B::Endpoint, C::Endpoints)) {
        N::lemma_insert_extract(ctx.1);
    }

    proof fn lemma_extract_insert(endpoint: A::Endpoint, deleted: (B::Endpoint, N::Deleted)) {
        N::lemma_extract_insert(endpoint, deleted.1);
    }
}

/// A lens that, after its update, is a lens on the updated context too.
pub trait ContextLensUpdate<C, A1, A2, A3>: ContextLens<C, A1, A2> + ContextLens<
    <Self as ContextLens<C, A1, A2>>::Target,
    A2,
    A3,
    Deleted = <Self as ContextLens<C, A1, A2>>::Deleted,
> where C: Context, A1: Slot, A2: Slot, A3: Slot {
    /// Taking out of the updated context gives back what the update put in, and the
    /// other slots as they were.
    proof fn lemma_extract_after_insert(
        endpoint: A2::Endpoint,
        deleted: <Self as ContextLens<C, A1, A2>>::Deleted,
    )
        ensures
            <Self as ContextLens<
                <Self as ContextLens<C, A1, A2>>::Target,
                A2,
                A3,
            >>::spec_extract_source(
                <Self as ContextLens<C, A1, A2>>::spec_insert_target(endpoint, deleted),
            ) == (endpoint, deleted),
    ;
}

impl<A1, A2, A3, C> ContextLensUpdate<(A1, C), A1, A2, A3> for Z where
    A1: Slot,
    A2: Slot,
    A3: Slot,
    C: Context,
 {
    proof fn lemma_extract_after_insert(endpoint: A2::Endpoint, deleted: C::Endpoints) {
    }
}

impl<B, A1, A2, A3, C, N> ContextLensUpdate<(B, C), A1, A2, A3> for S<N> where
    B: Slot,
    A1: Slot,
    A2: Slot,
    A3: Slot,
    C: Context,
    N: ContextLensUpdate<C, A1, A2, A3>,
 {
    proof fn lemma_extract_after_insert(
        endpoint: A2::Endpoint,
        deleted: (B::Endpoint, <N as ContextLens<C, A1, A2>>::Deleted),
    ) {
        N::lemma_extract_after_insert(endpoint, deleted.1);
    }
}

} // verus!
