//! Sessions and the injection of sessions into sums of sessions.
use async_std::channel::Sender;
use async_std::task::JoinHandle;
use core::marker::PhantomData;
use vstd::prelude::*;

use crate::context::Context;
use crate::protocol::Protocol;
use crate::row::{Prism, RowTypeApp, SumRow};

verus! {

/// What runs a session: given the endpoints of its context and the sender on which it
/// offers its protocol, it starts the session as a task.
pub trait SessionExecutor<C, A>: Send + 'static where C: Context, A: Protocol {
    fn execute(self: Box<Self>, ctx: C::Endpoints, sender: Sender<A>) -> JoinHandle<()>;
}

/// A session that uses the context `C` and offers the protocol `A`.
#[verifier::reject_recursive_types(C)]
#[verifier::reject_recursive_types(A)]
pub struct PartialSession<C, A> where C: Context, A: Protocol {
    pub executor: Box<dyn SessionExecutor<C, A>>,
}

/// A session with an empty context.
pub type Session<A> = PartialSession<(), A>;

/// Applied to a protocol `A`, gives a session in the context `C` that offers `A`.
pub struct SessionF<C>(PhantomData<C>);

impl<C, A> RowTypeApp<A> for SessionF<C> where C: Context, A: Protocol {
    type Applied = PartialSession<C, A>;
}

/// The sum type that the row `Row` gives when applied to `F`.
pub type AppSum<Row, F> = <Row as SumRow<F>>::Field;

/// Puts a session that offers `A` into the sum of sessions of the row `Row`.
pub trait SessionInjector<Row, C, A>: Send + 'static where
    Row: SumRow<SessionF<C>>,
    C: Context,
    A: Protocol,
 {
    /// The sum that holds `session`.
    spec fn spec_inject_session(&self, session: PartialSession<C, A>) -> AppSum<Row, SessionF<C>>;

    fn inject_session(self: Box<Self>, session: PartialSession<C, A>) -> (res: AppSum<
        Row,
        SessionF<C>,
    >)
        ensures
            res == self.spec_inject_session(session),
    ;
}

/// Puts a session into the sum at the position that the prism `N` names.
pub struct PrismInjector<N>(pub PhantomData<N>);

impl<N, Row, C, A> SessionInjector<Row, C, A> for PrismInjector<N> where
    N: Prism<Row, SessionF<C>, Elem = PartialSession<C, A>>,
    N: Send + 'static,
    Row: SumRow<SessionF<C>>,
    C: Context,
    A: Protocol,
 {
    open spec fn spec_inject_session(&self, session: PartialSession<C, A>) -> AppSum<
        Row,
        SessionF<C>,
    > {
        N::spec_inject_elem(session)
    }

    fn inject_session(self: Box<Self>, session: PartialSession<C, A>) -> (res: AppSum<
        Row,
        SessionF<C>,
    >) {
        N::inject_elem(session)
    }
}

/// A boxed injector injects as the injector inside the box does.
impl<Row, C, A> SessionInjector<Row, C, A> for Box<dyn SessionInjector<Row, C, A>> where
    Row: SumRow<SessionF<C>> + 'static,
    C: Context,
    A: Protocol,
 {
    open spec fn spec_inject_session(&self, session: PartialSession<C, A>) -> AppSum<
        Row,
        SessionF<C>,
    > {
        (**self).spec_inject_session(session)
    }

    fn inject_session(self: Box<Self>, session: PartialSession<C, A>) -> (res: AppSum<
        Row,
        SessionF<C>,
    >) {
        (*self).inject_session(session)
    }
}

/// Applied to a protocol `A`, gives the injection of a session offering `A` into the sum
/// of sessions of `Row`.
pub struct InjectSessionF<Row, C>(PhantomData<(Row, C)>);

impl<Row, C, A> RowTypeApp<A> for InjectSessionF<Row, C> where
    Row: SumRow<SessionF<C>> + 'static,
    C: Context,
    A: Protocol,
 {
    type Applied = InjectSession<Row, C, A>;
}

/// A way to put a session offering `A` into the sum of sessions of `Row`: the injector
/// `I`, which by default is any injector behind a trait object.
#[verifier::reject_recursive_types(Row)]
#[verifier::reject_recursive_types(C)]
#[verifier::reject_recursive_types(A)]
pub struct InjectSession<Row, C, A, I = Box<dyn SessionInjector<Row, C, A>>> where
    Row: SumRow<SessionF<C>>,
    C: Context,
    A: Protocol,
 {
    injector: I,
    marker: PhantomData<(Row, C, A)>,
}

impl<Row, C, A, I> InjectSession<Row, C, A, I> where
    Row: SumRow<SessionF<C>>,
    C: Context,
    A: Protocol,
 {
    /// The injector that this injection holds.
    pub closed spec fn injector(&self) -> I {
        self.injector
    }
}

/// Holds `injector` as an injection.
pub fn create_inject_session<Row, C, A, I>(injector: I) -> (res: InjectSession<Row, C, A, I>) where
    I: SessionInjector<Row, C, A> + 'static,
    Row: SumRow<SessionF<C>> + 'static,
    C: Context,
    A: Protocol,
    ensures
        res.injector() == injector,
{
    InjectSession { injector, marker: PhantomData }
}

/// Puts `session` into the sum of sessions with the injector of `inject`.
pub fn run_inject_session<Row, C, A, I>(inject: InjectSession<Row, C, A, I>, session: PartialSession<C, A>) -> (res: AppSum<Row, SessionF<C>>) where
    I: SessionInjector<Row, C, A> + 'static,
    Row: SumRow<SessionF<C>> + 'static,
    C: Context,
    A: Protocol,
    ensures
        res == inject.injector().spec_inject_session(session),
{
    let boxed: Box<I> = Box::new(inject.injector);
    boxed.inject_session(session)
}

} // verus!
