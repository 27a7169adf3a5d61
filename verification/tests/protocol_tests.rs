use async_std::channel::bounded;
use async_std::task::block_on;
use ferrite::fix::{fix, unfix, Fix, TypeApp, Unfix};
use ferrite::peano::Z;
use ferrite::protocol::{End, InternalChoice, SendValue};
use ferrite::row::{Bottom, Prism, ReceiverApp, Sum};
use ferrite::shared::SharedRecApp;

#[test]
fn shared_rec_app_fills_the_recursion_point() {
    let (_sender, receiver) = bounded::<End>(1);
    let msg: <SendValue<u8, Z> as SharedRecApp<End>>::Applied = SendValue(7u8, receiver);
    let SendValue(x, _) = msg;
    assert_eq!(x, 7);
}

/// A stream of numbers that may stop: each layer either ends or sends a number and recurs.
type StreamF = InternalChoice<(End, (SendValue<u8, Z>, ()))>;
type Stream = Fix<StreamF>;
type StreamStep = <StreamF as TypeApp<Unfix<Stream>>>::Applied;

#[test]
fn recursive_protocol_unfolds_one_layer() {
    let (sender, receiver) = bounded::<Stream>(1);
    let (end_sender, end_receiver) = bounded::<End>(1);
    let step: StreamStep = InternalChoice {
        field: <Z as Prism<(End, (SendValue<u8, Stream>, ())), ReceiverApp>>::inject_elem(end_receiver),
    };
    block_on(async move {
        sender.send(fix::<StreamF>(step)).await.unwrap();
        end_sender.send(End()).await.unwrap();
        let got = unfix(receiver.recv().await.unwrap());
        match got.field {
            Sum::Inl(r) => {
                let End() = r.recv().await.unwrap();
            }
            Sum::Inr(Sum::Inl(_)) => panic!("expected the end of the stream"),
            Sum::Inr(Sum::Inr(b)) => {
                let _: Bottom = b;
                unreachable!()
            }
        }
    });
}
