use async_std::channel::bounded;
use async_std::task::block_on;
use ferrite::context::{AppendContext, ContextLens, Empty, EmptyContext};
use ferrite::peano::{S, Z};
use ferrite::protocol::End;

type Two = (Empty, (Empty, ()));

#[test]
fn empty_context_values() {
    let v = <Two as EmptyContext>::empty_values();
    assert_eq!(v, ((), ((), ())));
}

#[test]
fn lens_puts_endpoint_in_its_slot() {
    let ctx = <Two as EmptyContext>::empty_values();
    let ((), deleted) = <S<Z> as ContextLens<Two, Empty, End>>::extract_source(ctx);
    assert_eq!(deleted, ((), ()));
    let (sender, receiver) = bounded::<End>(1);
    let target = <S<Z> as ContextLens<Two, Empty, End>>::insert_target(receiver, deleted);
    let ((), (r, ())) = target;
    block_on(async move {
        sender.send(End()).await.unwrap();
        let End() = r.recv().await.unwrap();
    });
}

#[test]
fn lens_round_trip_on_same_slot() {
    let (sender, receiver) = bounded::<End>(1);
    let ctx = ((), (receiver, ()));
    let (r, deleted) = <S<Z> as ContextLens<(Empty, (End, ())), End, End>>::extract_source(ctx);
    let back = <S<Z> as ContextLens<(Empty, (End, ())), End, End>>::insert_target(r, deleted);
    let ((), (r2, ())) = back;
    block_on(async move {
        sender.send(End()).await.unwrap();
        let End() = r2.recv().await.unwrap();
    });
}

#[test]
fn append_then_split_context() {
    let (sender, receiver) = bounded::<End>(1);
    let joined = <(Empty, ()) as AppendContext<(End, ())>>::append_context(((), ()), (receiver, ()));
    let ((), (r, ())) = joined;
    let rejoined = ((), (r, ()));
    let (left, right) = <(Empty, ()) as AppendContext<(End, ())>>::split_context(rejoined);
    assert_eq!(left, ((), ()));
    let (r3, ()) = right;
    block_on(async move {
        sender.send(End()).await.unwrap();
        let End() = r3.recv().await.unwrap();
    });
}

#[test]
fn extract_after_insert_gives_back_the_endpoint() {
    let ctx = <Two as EmptyContext>::empty_values();
    let ((), deleted) = <Z as ContextLens<Two, Empty, End>>::extract_source(ctx);
    let (sender, receiver) = bounded::<End>(1);
    let updated = <Z as ContextLens<Two, Empty, End>>::insert_target(receiver, deleted);
    let (r, rest) = <Z as ContextLens<(End, (Empty, ())), End, Empty>>::extract_source(updated);
    assert_eq!(rest, ((), ()));
    block_on(async move {
        sender.send(End()).await.unwrap();
        let End() = r.recv().await.unwrap();
    });
}
