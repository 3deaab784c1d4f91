//! What goes over a session channel for a choice, and how the receiving end reads it.
use vstd::prelude::*;
use crate::session::Branch;

verus! {

/// The number of bytes that one receive on a session channel reads at most.
pub const RECV_BUFFER_LEN: usize = 1024;

/// The bincode encoding of a `bool`: one byte, 1 for `true` and 0 for `false`.
pub open spec fn bool_encoding(b: bool) -> Seq<u8> {
    seq![if b { 1u8 } else { 0u8 }]
}

/// What bincode decodes as a `bool` from the front of `bytes` (trailing bytes are
/// allowed): `None` where the first byte is missing or is neither 0 nor 1.
pub open spec fn bool_decoding(bytes: Seq<u8>) -> Option<bool> {
    if bytes.len() == 0 {
        None
    } else if bytes[0] == 1 {
        Some(true)
    } else if bytes[0] == 0 {
        Some(false)
    } else {
        None
    }
}

/// `bincode::serialize` on a `bool`. Its serializer writes a `bool` as the single
/// byte `v as u8`, and serializing a `bool` does not fail.
#[verifier::external_body]
fn bincode_serialize_bool(b: bool) -> (r: Vec<u8>)
    ensures
        r@ == bool_encoding(b),
{
    bincode::serialize(&b).unwrap()
}

/// `bincode::deserialize::<bool>`, with its error turned into `None`. Its
/// deserializer reads one byte and accepts 1 as `true` and 0 as `false`; an empty
/// input or any other byte is an error; bytes after the first are ignored.
#[verifier::external_body]
fn bincode_deserialize_bool(bytes: &[u8]) -> (r: Option<bool>)
    ensures
        r == bool_decoding(bytes@),
{
    bincode::deserialize::<bool>(bytes).ok()
}

/// The branch that a choice stands for: `true` selects the left protocol.
pub open spec fn branch_of(left: bool) -> Branch<(), ()> {
    if left { Branch::Left(()) } else { Branch::Right(()) }
}

/// The bytes that an active choice sends: `sel_l` sends the encoding of `true`,
/// `sel_r` that of `false`.
pub fn selection_message(left: bool) -> (r: Vec<u8>)
    ensures
        r@ == bool_encoding(left),
        r.len() == 1,
        r[0] == (if left { 1u8 } else { 0u8 }),
{
    bincode_serialize_bool(left)
}

/// A zeroed buffer of `RECV_BUFFER_LEN` bytes, into which a session channel receives.
pub fn receive_buffer() -> (r: Vec<u8>)
    ensures
        r@ == Seq::new(RECV_BUFFER_LEN as nat, |i: int| 0u8),
{
    let mut buf: Vec<u8> = Vec::new();
    let mut i: usize = 0;
    while i < RECV_BUFFER_LEN
        invariant
            i <= RECV_BUFFER_LEN,
            buf@ == Seq::new(i as nat, |j: int| 0u8),
        decreases RECV_BUFFER_LEN - i,
    {
        buf.push(0u8);
        i = i + 1;
    }
    buf
}

/// The branch that a passive choice takes on the received bytes: `Left` where the
/// peer sent `true`, `Right` where it sent `false`, and `None` where the bytes hold
/// no `bool` (the typed channel panics there).
pub fn offered_branch(received: &[u8]) -> (r: Option<Branch<(), ()>>)
    ensures
        r == (match bool_decoding(received@) {
            Some(b) => Some(branch_of(b)),
            None => None,
        }),
        received.len() > 0 && received[0] == 1 ==> r == Some(Branch::<(), ()>::Left(())),
        received.len() > 0 && received[0] == 0 ==> r == Some(Branch::<(), ()>::Right(())),
        received.len() == 0 || (received[0] != 0 && received[0] != 1) ==> r is None,
{
    match bincode_deserialize_bool(received) {
        Some(true) => Some(Branch::Left(())),
        Some(false) => Some(Branch::Right(())),
        None => None,
    }
}

/// A passive choice takes the branch that the active side selected, whatever
/// follows the selection in the receive buffer.
pub proof fn lemma_offer_reads_selection(left: bool, rest: Seq<u8>)
    ensures
        bool_decoding(bool_encoding(left) + rest) == Some(left),
        bool_encoding(left).len() == 1,
        bool_encoding(true) != bool_encoding(false),
{
    assert(bool_encoding(true)[0] != bool_encoding(false)[0]);
    assert((bool_encoding(left) + rest)[0] == bool_encoding(left)[0]);
}

} // verus!
