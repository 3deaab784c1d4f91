use vstd::prelude::*;
use crate::session::{Choose, End, Offer, Rec, Recv, Send, Var, Z, S};

verus! {

/// Seals the protocol traits: only the protocol types of this crate implement them.
pub trait Sealed {}

impl Sealed for End {}
impl<A, P> Sealed for Send<A, P> {}
impl<A, P> Sealed for Recv<A, P> {}
impl<P, Q> Sealed for Choose<P, Q> {}
impl<P, Q> Sealed for Offer<P, Q> {}
impl<N> Sealed for Var<N> {}
impl<P> Sealed for Rec<P> {}
impl Sealed for Z {}
impl<N> Sealed for S<N> {}

} // verus!
