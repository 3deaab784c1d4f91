//! The session types: protocol markers, their duality, and the protocol value each
//! marker stands for.
use vstd::prelude::*;
use std::marker::PhantomData;

verus! {

/// Peano numbers: Zero
#[derive(Debug, Copy, Clone)]
pub struct Z;

/// Peano numbers: Increment
#[derive(Debug)]
pub struct S<N>(PhantomData<N>);

/// End of communication session (epsilon)
#[derive(Debug, Copy, Clone)]
pub struct End;

/// Receive `A`, then `P`
#[derive(Debug)]
pub struct Recv<A, P>(PhantomData<(A, P)>);

/// Send `A`, then `P`
#[derive(Debug)]
pub struct Send<A, P>(pub PhantomData<(A, P)>);

/// Active choice between `P` and `Q`
#[derive(Debug)]
pub struct Choose<P, Q>(PhantomData<(P, Q)>);

/// Passive choice (offer) between `P` and `Q`
#[derive(Debug)]
pub struct Offer<P, Q>(PhantomData<(P, Q)>);

/// Enter a recursive environment
#[derive(Debug)]
pub struct Rec<P>(PhantomData<P>);

/// Recurse. N indicates how many layers of the recursive environment we recurse
/// out of.
#[derive(Debug)]
pub struct Var<N>(PhantomData<N>);

/// How many recursive environments a `Var` leaves: the value of a Peano number.
#[derive(Debug, PartialEq, Eq)]
pub enum Depth {
    Zero,
    Succ(Box<Depth>),
}

/// The shape of a session type as a value: what is sent and received (the payload
/// types are left out), which side chooses, and where recursion goes.
#[derive(Debug, PartialEq, Eq)]
pub enum Protocol {
    End,
    Send(Box<Protocol>),
    Recv(Box<Protocol>),
    Choose(Box<Protocol>, Box<Protocol>),
    Offer(Box<Protocol>, Box<Protocol>),
    Rec(Box<Protocol>),
    Var(Depth),
}

impl Protocol {
    /// The protocol that the other end of a channel follows: every send becomes
    /// a receive, every active choice an offer, and the reverse.
    pub open spec fn spec_dual(self) -> Protocol
        decreases self,
    {
        match self {
            Protocol::End => Protocol::End,
            Protocol::Send(p) => Protocol::Recv(Box::new(p.spec_dual())),
            Protocol::Recv(p) => Protocol::Send(Box::new(p.spec_dual())),
            Protocol::Choose(p, q) => Protocol::Offer(Box::new(p.spec_dual()), Box::new(q.spec_dual())),
            Protocol::Offer(p, q) => Protocol::Choose(Box::new(p.spec_dual()), Box::new(q.spec_dual())),
            Protocol::Rec(p) => Protocol::Rec(Box::new(p.spec_dual())),
            Protocol::Var(n) => Protocol::Var(n),
        }
    }
}

/// The two ways a passive choice can go: the peer selected `P` (`Left`) or `Q` (`Right`).
pub enum Branch<L, R> {
    Left(L),
    Right(R),
}

impl Protocol {
    /// Computes the dual protocol.
    pub fn dual(&self) -> (r: Protocol)
        ensures
            r == self.spec_dual(),
        decreases self,
    {
        match self {
            Protocol::End => Protocol::End,
            Protocol::Send(p) => Protocol::Recv(Box::new(p.dual())),
            Protocol::Recv(p) => Protocol::Send(Box::new(p.dual())),
            Protocol::Choose(p, q) => Protocol::Offer(Box::new(p.dual()), Box::new(q.dual())),
            Protocol::Offer(p, q) => Protocol::Choose(Box::new(p.dual()), Box::new(q.dual())),
            Protocol::Rec(p) => Protocol::Rec(Box::new(p.dual())),
            Protocol::Var(n) => Protocol::Var(n.copy()),
        }
    }
}

impl Depth {
    /// A copy of this depth.
    pub fn copy(&self) -> (r: Depth)
        ensures
            r == *self,
        decreases self,
    {
        match self {
            Depth::Zero => Depth::Zero,
            Depth::Succ(d) => Depth::Succ(Box::new(d.copy())),
        }
    }
}

/// The dual turns each send into a receive and each active choice into an offer
/// (and back), keeps the end and recursion, and keeps a variable's depth.
pub proof fn lemma_dual_swaps_directions(p: Protocol)
    ensures
        p is End ==> p.spec_dual() is End,
        p is Send ==> p.spec_dual() is Recv,
        p is Recv ==> p.spec_dual() is Send,
        p is Choose ==> p.spec_dual() is Offer,
        p is Offer ==> p.spec_dual() is Choose,
        p is Rec ==> p.spec_dual() is Rec,
        p is Var ==> p.spec_dual() == p,
        p.spec_dual() != p || p is End || p is Var || p is Rec,
{
}

/// Taking the dual twice gives back the protocol: the two ends of a channel are
/// each other's dual.
pub proof fn lemma_dual_involutive(p: Protocol)
    ensures
        p.spec_dual().spec_dual() == p,
    decreases p,
{
    match p {
        Protocol::Send(q) => lemma_dual_involutive(*q),
        Protocol::Recv(q) => lemma_dual_involutive(*q),
        Protocol::Choose(q, r) => {
            lemma_dual_involutive(*q);
            lemma_dual_involutive(*r);
        },
        Protocol::Offer(q, r) => {
            lemma_dual_involutive(*q);
            lemma_dual_involutive(*r);
        },
        Protocol::Rec(q) => lemma_dual_involutive(*q),
        _ => {},
    }
}

/// Peano numbers at the type level, with the depth each one stands for.
pub trait Peano: crate::private::Sealed {
    spec fn depth() -> Depth;

    /// The depth, computed.
    fn index() -> (d: Depth)
        ensures
            d == Self::depth(),
    ;
}

impl Peano for Z {
    open spec fn depth() -> Depth {
        Depth::Zero
    }

    fn index() -> (d: Depth) {
        Depth::Zero
    }
}

impl<N: Peano> Peano for S<N> {
    open spec fn depth() -> Depth {
        Depth::Succ(Box::new(N::depth()))
    }

    fn index() -> (d: Depth) {
        Depth::Succ(Box::new(N::index()))
    }
}

/// The protocol value that a session type stands for.
pub trait Model: crate::private::Sealed {
    spec fn model() -> Protocol;

    /// The protocol value, computed.
    fn protocol() -> (p: Protocol)
        ensures
            p == Self::model(),
    ;
}

impl Model for End {
    open spec fn model() -> Protocol {
        Protocol::End
    }

    fn protocol() -> (p: Protocol) {
        Protocol::End
    }
}

impl<A, P: Model> Model for Send<A, P> {
    open spec fn model() -> Protocol {
        Protocol::Send(Box::new(P::model()))
    }

    fn protocol() -> (p: Protocol) {
        Protocol::Send(Box::new(P::protocol()))
    }
}

impl<A, P: Model> Model for Recv<A, P> {
    open spec fn model() -> Protocol {
        Protocol::Recv(Box::new(P::model()))
    }

    fn protocol() -> (p: Protocol) {
        Protocol::Recv(Box::new(P::protocol()))
    }
}

impl<P: Model, Q: Model> Model for Choose<P, Q> {
    open spec fn model() -> Protocol {
        Protocol::Choose(Box::new(P::model()), Box::new(Q::model()))
    }

    fn protocol() -> (p: Protocol) {
        Protocol::Choose(Box::new(P::protocol()), Box::new(Q::protocol()))
    }
}

impl<P: Model, Q: Model> Model for Offer<P, Q> {
    open spec fn model() -> Protocol {
        Protocol::Offer(Box::new(P::model()), Box::new(Q::model()))
    }

    fn protocol() -> (p: Protocol) {
        Protocol::Offer(Box::new(P::protocol()), Box::new(Q::protocol()))
    }
}

impl<P: Model> Model for Rec<P> {
    open spec fn model() -> Protocol {
        Protocol::Rec(Box::new(P::model()))
    }

    fn protocol() -> (p: Protocol) {
        Protocol::Rec(Box::new(P::protocol()))
    }
}

impl<N: Peano> Model for Var<N> {
    open spec fn model() -> Protocol {
        Protocol::Var(N::depth())
    }

    fn protocol() -> (p: Protocol) {
        Protocol::Var(N::index())
    }
}

/// The HasDual trait defines the dual relationship between protocols.
///
/// Any valid protocol has a corresponding dual.
///
/// This trait is sealed and cannot be implemented outside of this crate.
pub trait HasDual: crate::private::Sealed {
    type Dual;
}

impl HasDual for End {
    type Dual = End;
}

impl<A, P: HasDual> HasDual for Send<A, P> {
    type Dual = Recv<A, P::Dual>;
}

impl<A, P: HasDual> HasDual for Recv<A, P> {
    type Dual = Send<A, P::Dual>;
}

impl<P: HasDual, Q: HasDual> HasDual for Choose<P, Q> {
    type Dual = Offer<P::Dual, Q::Dual>;
}

impl<P: HasDual, Q: HasDual> HasDual for Offer<P, Q> {
    type Dual = Choose<P::Dual, Q::Dual>;
}

impl HasDual for Var<Z> {
    type Dual = Var<Z>;
}

impl<N> HasDual for Var<S<N>> {
    type Dual = Var<S<N>>;
}

impl<P: HasDual> HasDual for Rec<P> {
    type Dual = Rec<P::Dual>;
}

/// The session types whose protocol values are known, with the fact that the
/// protocol of `Dual` is the dual of the type's own protocol. Every session type
/// built from `End`, `Send`, `Recv`, `Choose`, `Offer`, `Rec` and `Var` over Peano
/// numbers has it.
pub trait DualModel: HasDual<Dual: Model> + Model {
    /// The protocol of `Dual` is the dual of this protocol.
    proof fn lemma_dual_model()
        ensures
            <<Self as HasDual>::Dual as Model>::model() == <Self as Model>::model().spec_dual(),
    ;
}

impl DualModel for End {
    proof fn lemma_dual_model() {
    }
}

impl<A, P: DualModel> DualModel for Send<A, P> where P::Dual: Model {
    proof fn lemma_dual_model() {
        P::lemma_dual_model();
    }
}

impl<A, P: DualModel> DualModel for Recv<A, P> where P::Dual: Model {
    proof fn lemma_dual_model() {
        P::lemma_dual_model();
    }
}

impl<P: DualModel, Q: DualModel> DualModel for Choose<P, Q> where P::Dual: Model, Q::Dual: Model {
    proof fn lemma_dual_model() {
        P::lemma_dual_model();
        Q::lemma_dual_model();
    }
}

impl<P: DualModel, Q: DualModel> DualModel for Offer<P, Q> where P::Dual: Model, Q::Dual: Model {
    proof fn lemma_dual_model() {
        P::lemma_dual_model();
        Q::lemma_dual_model();
    }
}

impl DualModel for Var<Z> {
    proof fn lemma_dual_model() {
    }
}

impl<N: Peano> DualModel for Var<S<N>> {
    proof fn lemma_dual_model() {
    }
}

impl<P: DualModel> DualModel for Rec<P> where P::Dual: Model {
    proof fn lemma_dual_model() {
        P::lemma_dual_model();
    }
}

/// The dual of a session type's dual is the session type itself, as protocols.
pub proof fn lemma_dual_of_dual<P: DualModel>()
    where P::Dual: DualModel, <P::Dual as HasDual>::Dual: Model,
    ensures
        <<P::Dual as HasDual>::Dual as Model>::model() == <P as Model>::model(),
{
    P::lemma_dual_model();
    <P::Dual as DualModel>::lemma_dual_model();
    lemma_dual_involutive(<P as Model>::model());
}

impl<N> Clone for S<N> {
    fn clone(&self) -> (r: Self)
        ensures
            r == *self,
    {
        S(PhantomData)
    }
}

impl<N> Copy for S<N> {}

impl<A, P> Clone for Recv<A, P> {
    fn clone(&self) -> (r: Self)
        ensures
            r == *self,
    {
        Recv(PhantomData)
    }
}

impl<A, P> Copy for Recv<A, P> {}

impl<A, P> Clone for Send<A, P> {
    fn clone(&self) -> (r: Self)
        ensures
            r == *self,
    {
        Send(PhantomData)
    }
}

impl<A, P> Copy for Send<A, P> {}

impl<P, Q> Clone for Choose<P, Q> {
    fn clone(&self) -> (r: Self)
        ensures
            r == *self,
    {
        Choose(PhantomData)
    }
}

impl<P, Q> Copy for Choose<P, Q> {}

impl<P, Q> Clone for Offer<P, Q> {
    fn clone(&self) -> (r: Self)
        ensures
            r == *self,
    {
        Offer(PhantomData)
    }
}

impl<P, Q> Copy for Offer<P, Q> {}

impl<P> Clone for Rec<P> {
    fn clone(&self) -> (r: Self)
        ensures
            r == *self,
    {
        Rec(PhantomData)
    }
}

impl<P> Copy for Rec<P> {}

impl<N> Clone for Var<N> {
    fn clone(&self) -> (r: Self)
        ensures
            r == *self,
    {
        Var(PhantomData)
    }
}

impl<N> Copy for Var<N> {}

} // verus!
