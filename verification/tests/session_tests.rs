use async_std::channel::{bounded, Sender};
use async_std::task::{self, block_on, JoinHandle};
use ferrite::peano::{S, Z};
use ferrite::protocol::End;
use ferrite::row::{Bottom, Prism, Sum};
use ferrite::session::{
    create_inject_session, run_inject_session, InjectSession, PartialSession, PrismInjector,
    SessionExecutor, SessionF, SessionInjector,
};
use std::marker::PhantomData;

struct Terminate;

impl SessionExecutor<(), End> for Terminate {
    fn execute(self: Box<Self>, _ctx: (), sender: Sender<End>) -> JoinHandle<()> {
        task::spawn(async move {
            sender.send(End()).await.unwrap();
        })
    }
}

fn terminate() -> PartialSession<(), End> {
    PartialSession { executor: Box::new(Terminate) }
}

type Row2 = (End, (End, ()));
type Sessions = Sum<PartialSession<(), End>, Sum<PartialSession<(), End>, Bottom>>;

#[test]
fn prism_injector_puts_session_at_its_position() {
    let injector: PrismInjector<S<Z>> = PrismInjector(PhantomData);
    let sum: Sessions = SessionInjector::<Row2, (), End>::inject_session(Box::new(injector), terminate());
    assert!(matches!(sum, Sum::Inr(Sum::Inl(_))));
}

#[test]
fn run_inject_session_uses_the_injector() {
    let inject = create_inject_session::<Row2, (), End, _>(PrismInjector::<Z>(PhantomData));
    let sum: Sessions = run_inject_session(inject, terminate());
    let session = <Z as Prism<Row2, SessionF<()>>>::extract_elem(sum).expect("first position");
    let (sender, receiver) = bounded::<End>(1);
    block_on(async move {
        session.executor.execute((), sender).await;
        let End() = receiver.recv().await.unwrap();
    });
}

#[test]
fn injected_session_is_not_at_other_positions() {
    let inject = create_inject_session::<Row2, (), End, _>(PrismInjector::<S<Z>>(PhantomData));
    let sum: Sessions = run_inject_session(inject, terminate());
    assert!(<Z as Prism<Row2, SessionF<()>>>::extract_elem(sum).is_none());
}

#[test]
fn boxed_injector_injects_as_the_boxed_one() {
    let boxed: Box<dyn SessionInjector<Row2, (), End>> = Box::new(PrismInjector::<S<Z>>(PhantomData));
    let inject: InjectSession<Row2, (), End> = create_inject_session(boxed);
    let sum: Sessions = run_inject_session(inject, terminate());
    assert!(matches!(sum, Sum::Inr(Sum::Inl(_))));
}
