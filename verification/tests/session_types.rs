use session_socket::session::{Depth, Model, Peano, Protocol};
use session_socket::wire::{offered_branch, receive_buffer, selection_message, RECV_BUFFER_LEN};
use session_socket::{Branch, Choose, End, HasDual, Offer, Rec, Recv, Send, Var, S, Z};

type Server = Recv<i32, Send<bool, End>>;
type Client = <Server as HasDual>::Dual;

fn bx(p: Protocol) -> Box<Protocol> {
    Box::new(p)
}

#[test]
fn end_is_its_own_dual() {
    assert_eq!(<End as Model>::protocol(), Protocol::End);
    assert_eq!(<<End as HasDual>::Dual as Model>::protocol(), Protocol::End);
}

#[test]
fn client_of_recv_send_server_sends_then_receives() {
    let server = <Server as Model>::protocol();
    assert_eq!(server, Protocol::Recv(bx(Protocol::Send(bx(Protocol::End)))));
    let client = <Client as Model>::protocol();
    assert_eq!(client, Protocol::Send(bx(Protocol::Recv(bx(Protocol::End)))));
    assert_eq!(client, server.dual());
}

#[test]
fn dual_of_choice_is_offer() {
    type P = Choose<Send<u8, End>, Recv<u8, End>>;
    let dual = <<P as HasDual>::Dual as Model>::protocol();
    assert_eq!(
        dual,
        Protocol::Offer(bx(Protocol::Recv(bx(Protocol::End))), bx(Protocol::Send(bx(Protocol::End))))
    );
    assert_eq!(dual, <P as Model>::protocol().dual());
}

#[test]
fn dual_of_offer_is_choice() {
    type P = Offer<End, Send<u8, End>>;
    let dual = <<P as HasDual>::Dual as Model>::protocol();
    assert_eq!(dual, Protocol::Choose(bx(Protocol::End), bx(Protocol::Recv(bx(Protocol::End)))));
}

#[test]
fn recursive_protocol_keeps_variable_depths() {
    type P = Rec<Choose<Send<u64, Var<Z>>, Rec<Recv<u8, Var<S<Z>>>>>>;
    let p = <P as Model>::protocol();
    let expected = Protocol::Rec(bx(Protocol::Choose(
        bx(Protocol::Send(bx(Protocol::Var(Depth::Zero)))),
        bx(Protocol::Rec(bx(Protocol::Recv(bx(Protocol::Var(Depth::Succ(Box::new(Depth::Zero)))))))),
    )));
    assert_eq!(p, expected);
    let dual = <<P as HasDual>::Dual as Model>::protocol();
    assert_eq!(dual, p.dual());
    assert_eq!(dual.dual(), p);
}

#[test]
fn peano_depths() {
    assert_eq!(<Z as Peano>::index(), Depth::Zero);
    assert_eq!(
        <S<S<Z>> as Peano>::index(),
        Depth::Succ(Box::new(Depth::Succ(Box::new(Depth::Zero))))
    );
}

#[test]
fn dual_twice_gives_back_protocol() {
    let p = Protocol::Offer(
        bx(Protocol::Send(bx(Protocol::Var(Depth::Zero)))),
        bx(Protocol::Rec(bx(Protocol::Choose(bx(Protocol::End), bx(Protocol::Recv(bx(Protocol::End))))))),
    );
    let expected = Protocol::Offer(
        bx(Protocol::Send(bx(Protocol::Var(Depth::Zero)))),
        bx(Protocol::Rec(bx(Protocol::Choose(bx(Protocol::End), bx(Protocol::Recv(bx(Protocol::End))))))),
    );
    assert_eq!(p.dual().dual(), expected);
}

#[test]
fn selection_bytes_are_bincode_bools() {
    assert_eq!(selection_message(true), vec![1u8]);
    assert_eq!(selection_message(false), vec![0u8]);
}

#[test]
fn offer_takes_selected_branch() {
    let mut buf = receive_buffer();
    let sent = selection_message(true);
    buf[0] = sent[0];
    assert!(matches!(offered_branch(&buf), Some(Branch::Left(()))));
    let sent = selection_message(false);
    buf[0] = sent[0];
    assert!(matches!(offered_branch(&buf), Some(Branch::Right(()))));
}

#[test]
fn offer_refuses_bytes_that_are_no_bool() {
    assert!(offered_branch(&[]).is_none());
    assert!(offered_branch(&[2u8, 1u8]).is_none());
    assert!(offered_branch(&[255u8]).is_none());
}

#[test]
fn receive_buffer_is_zeroed() {
    let buf = receive_buffer();
    assert_eq!(buf.len(), RECV_BUFFER_LEN);
    assert_eq!(buf.len(), 1024);
    assert!(buf.iter().all(|b| *b == 0));
}

#[test]
fn markers_are_copy() {
    let a: Send<u8, End> = Send(std::marker::PhantomData);
    let b = a;
    let _c = a.clone();
    let _d = b;
}

fn self_dual<T: HasDual<Dual = T>>() -> bool {
    true
}

#[test]
fn var_of_any_successor_has_a_dual() {
    assert!(self_dual::<Var<S<String>>>());
    assert!(self_dual::<Var<Z>>());
}
