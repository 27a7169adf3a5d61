//! Session protocols: each protocol type is the message that starts it.
use async_std::channel::{Receiver, Sender};
use vstd::prelude::*;

use crate::fix::{Fix, TypeApp, Unfix};
use crate::peano::{S, Z};
use crate::row::{ReceiverApp, SumRow};

verus! {

/// A session type. A value of it is the first message of the protocol.
pub trait Protocol: Send + 'static {

}

/// The session that has ended.
pub struct End();

/// Sends a value of type `T`, then continues as `P`.
#[verifier::reject_recursive_types(P)]
pub struct SendValue<T, P>(pub T, pub Receiver<P>);

/// Receives a value of type `T`, then continues as `P`.
#[verifier::reject_recursive_types(T)]
#[verifier::reject_recursive_types(P)]
pub struct ReceiveValue<T, P>(pub Sender<(T, Sender<P>)>);

/// Sends a channel of protocol `P`, then continues as `Q`.
#[verifier::reject_recursive_types(P)]
#[verifier::reject_recursive_types(Q)]
pub struct SendChannel<P, Q>(pub Receiver<P>, pub Receiver<Q>);

/// Receives a channel of protocol `P`, then continues as `Q`.
#[verifier::reject_recursive_types(P)]
#[verifier::reject_recursive_types(Q)]
pub struct ReceiveChannel<P, Q>(pub Sender<(Receiver<P>, Sender<Q>)>);

/// The provider picks one of the protocols of `Row` and offers it.
#[verifier::reject_recursive_types(Row)]
pub struct InternalChoice<Row> where Row: SumRow<ReceiverApp> {
    pub field: <Row as SumRow<ReceiverApp>>::Field,
}

/// The client picks one of the protocols of `Row`: it sends the choice and a channel on
/// which it receives the chosen protocol.
#[verifier::reject_recursive_types(Row)]
pub struct ExternalChoice<Row> where Row: SumRow<()> + SumRow<ReceiverApp> {
    pub sender: Sender<(<Row as SumRow<()>>::Field, Sender<<Row as SumRow<ReceiverApp>>::Field>)>,
}

impl Protocol for End {

}

impl<T, P> Protocol for SendValue<T, P> where T: Send + 'static, P: Protocol {

}

impl<T, P> Protocol for ReceiveValue<T, P> where T: Send + 'static, P: Protocol {

}

impl<P, Q> Protocol for SendChannel<P, Q> where P: Protocol, Q: Protocol {

}

impl<P, Q> Protocol for ReceiveChannel<P, Q> where P: Protocol, Q: Protocol {

}

impl<Row> Protocol for InternalChoice<Row> where
    Row: Send + 'static,
    Row: SumRow<ReceiverApp>,
    <Row as SumRow<ReceiverApp>>::Field: Send,
 {

}

impl<Row> Protocol for ExternalChoice<Row> where
    Row: Send + 'static,
    Row: SumRow<()> + SumRow<ReceiverApp>,
    <Row as SumRow<()>>::Field: Send,
    <Row as SumRow<ReceiverApp>>::Field: Send,
 {

}

impl<F> Protocol for Fix<F> where
    F: Protocol,
    F: TypeApp<Unfix<Fix<F>>>,
    <F as TypeApp<Unfix<Fix<F>>>>::Applied: Send + 'static,
 {

}

/// The recursion point of a recursive protocol.
impl Protocol for Z {

}

impl<P> Protocol for S<P> where P: Protocol {

}

impl<A> TypeApp<A> for End {
    type Applied = End;
}

impl<T, P, A> TypeApp<A> for SendValue<T, P> where P: TypeApp<A> {
    type Applied = SendValue<T, P::Applied>;
}

impl<T, P, A> TypeApp<A> for ReceiveValue<T, P> where P: TypeApp<A> {
    type Applied = ReceiveValue<T, P::Applied>;
}

impl<P, Q, A> TypeApp<A> for SendChannel<P, Q> where P: TypeApp<A>, Q: TypeApp<A> {
    type Applied = SendChannel<P::Applied, Q::Applied>;
}

impl<P, Q, A> TypeApp<A> for ReceiveChannel<P, Q> where P: TypeApp<A>, Q: TypeApp<A> {
    type Applied = ReceiveChannel<P::Applied, Q::Applied>;
}

impl<Row, A> TypeApp<A> for InternalChoice<Row> where
    Row: TypeApp<A>,
    Row: SumRow<ReceiverApp>,
    Row::Applied: SumRow<ReceiverApp>,
 {
    type Applied = InternalChoice<Row::Applied>;
}

impl<Row, A> TypeApp<A> for ExternalChoice<Row> where
    Row: TypeApp<A>,
    Row: SumRow<()> + SumRow<ReceiverApp>,
    Row::Applied: SumRow<()> + SumRow<ReceiverApp>,
 {
    type Applied = ExternalChoice<Row::Applied>;
}

} // verus!
