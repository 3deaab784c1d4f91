//! How a typed endpoint moves through its protocol, and why two dual endpoints
//! stay dual: the protocol transitions that the endpoint methods' types encode.
use vstd::prelude::*;
use crate::session::{Depth, Protocol};

verus! {

/// An operation on a session endpoint.
#[derive(Debug, Copy, Clone, PartialEq, Eq)]
pub enum Action {
    /// `send`: `Send<A, P>` becomes `P`.
    Send,
    /// `recv`: `Recv<A, P>` becomes `P`.
    Recv,
    /// `sel_l`: `Choose<P, Q>` becomes `P`.
    SelectLeft,
    /// `sel_r`: `Choose<P, Q>` becomes `Q`.
    SelectRight,
    /// `offer` answered with `Left`: `Offer<P, Q>` becomes `P`.
    OfferedLeft,
    /// `offer` answered with `Right`: `Offer<P, Q>` becomes `Q`.
    OfferedRight,
    /// `enter`: `Rec<P>` in environment `E` becomes `P` in `(P, E)`.
    Enter,
    /// `zero`: `Var<Z>` in `(P, E)` becomes `P` in `(P, E)`.
    Zero,
    /// `succ`: `Var<S<N>>` in `(P, E)` becomes `Var<N>` in `E`.
    Succ,
    /// `close`: `End` is closed.
    Close,
}

/// The endpoint state after `action` on protocol `proto` in the environment `env`
/// (innermost `Rec` body first), or `None` where the protocol does not allow it.
pub open spec fn step(env: Seq<Protocol>, proto: Protocol, action: Action) -> Option<(Seq<Protocol>, Protocol)> {
    match (proto, action) {
        (Protocol::Send(p), Action::Send) => Some((env, *p)),
        (Protocol::Recv(p), Action::Recv) => Some((env, *p)),
        (Protocol::Choose(p, q), Action::SelectLeft) => Some((env, *p)),
        (Protocol::Choose(p, q), Action::SelectRight) => Some((env, *q)),
        (Protocol::Offer(p, q), Action::OfferedLeft) => Some((env, *p)),
        (Protocol::Offer(p, q), Action::OfferedRight) => Some((env, *q)),
        (Protocol::Rec(p), Action::Enter) => Some((seq![*p].add(env), *p)),
        (Protocol::Var(Depth::Zero), Action::Zero) =>
            if env.len() > 0 { Some((env, env[0])) } else { None },
        (Protocol::Var(Depth::Succ(n)), Action::Succ) =>
            if env.len() > 0 { Some((env.drop_first(), Protocol::Var(*n))) } else { None },
        (Protocol::End, Action::Close) => Some((env, Protocol::End)),
        _ => None,
    }
}

/// The action that the other end takes at the same point: a send is met by a
/// receive, a selection by the offer that reports it; recursion and closing are
/// taken by both ends alike.
pub open spec fn counterpart(action: Action) -> Action {
    match action {
        Action::Send => Action::Recv,
        Action::Recv => Action::Send,
        Action::SelectLeft => Action::OfferedLeft,
        Action::SelectRight => Action::OfferedRight,
        Action::OfferedLeft => Action::SelectLeft,
        Action::OfferedRight => Action::SelectRight,
        other => other,
    }
}

/// Two endpoint states are dual: the protocols are, and so is each pair of
/// environment entries.
pub open spec fn dual_states(env1: Seq<Protocol>, p1: Protocol, env2: Seq<Protocol>, p2: Protocol) -> bool {
    &&& p2 == p1.spec_dual()
    &&& env2.len() == env1.len()
    &&& forall|i: int| 0 <= i < env1.len() ==> #[trigger] env2[i] == env1[i].spec_dual()
}

/// Whatever one end of a channel may do, the other end, holding the dual protocol,
/// may do the counterpart, and the two ends are dual again afterwards.
pub proof fn lemma_step_keeps_duality(
    env1: Seq<Protocol>,
    p1: Protocol,
    env2: Seq<Protocol>,
    p2: Protocol,
    action: Action,
)
    requires
        dual_states(env1, p1, env2, p2),
        step(env1, p1, action) is Some,
    ensures
        step(env2, p2, counterpart(action)) is Some,
        ({
            let (e1, q1) = step(env1, p1, action)->Some_0;
            let (e2, q2) = step(env2, p2, counterpart(action))->Some_0;
            dual_states(e1, q1, e2, q2)
        }),
{
    match (p1, action) {
        (Protocol::Rec(p), Action::Enter) => {
            let e1 = seq![*p].add(env1);
            let e2 = seq![p.spec_dual()].add(env2);
            assert forall|i: int| 0 <= i < e1.len() implies #[trigger] e2[i] == e1[i].spec_dual() by {
                if i > 0 {
                    assert(e1[i] == env1[i - 1]);
                    assert(e2[i] == env2[i - 1]);
                }
            }
        },
        (Protocol::Var(Depth::Zero), Action::Zero) => {
            assert(env2[0] == env1[0].spec_dual());
        },
        (Protocol::Var(Depth::Succ(n)), Action::Succ) => {
            let e1 = env1.drop_first();
            let e2 = env2.drop_first();
            assert forall|i: int| 0 <= i < e1.len() implies #[trigger] e2[i] == e1[i].spec_dual() by {
                assert(e1[i] == env1[i + 1]);
                assert(e2[i] == env2[i + 1]);
            }
        },
        _ => {},
    }
}

} // verus!
