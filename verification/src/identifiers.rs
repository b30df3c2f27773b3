//! Identifiers naming ledger objects, and packet sequence numbers.
//!
//! Identifiers are validated where they are issued; this core treats them as
//! well-formed opaque strings and only carries them into the wire messages.

use vstd::prelude::*;

verus! {

/// Identifier of a light client hosted on the queried chain.
#[derive(Clone, Debug)]
pub struct ClientId(pub String);

/// Identifier of a connection end.
#[derive(Clone, Debug)]
pub struct ConnectionId(pub String);

/// Identifier of a channel end.
#[derive(Clone, Debug)]
pub struct ChannelId(pub String);

/// Identifier of a port a channel is bound to.
#[derive(Clone, Debug)]
pub struct PortId(pub String);

/// A packet sequence number on a channel.
#[derive(Clone, Copy, Debug, PartialEq, Eq, Structural)]
pub struct Sequence(pub u64);

/// The numeric wire forms of a sequence list, in the same order.
pub open spec fn sequence_values(s: Seq<Sequence>) -> Seq<u64> {
    s.map_values(|q: Sequence| q.0)
}

/// Wire projection of a sequence list preserves count and order exactly:
/// the numeric forms are as many as the sequences, and the value at every
/// position is the numeric form of the sequence at that position.
pub proof fn lemma_sequence_values_preserves_order(s: Seq<Sequence>)
    ensures
        sequence_values(s).len() == s.len(),
        forall|i: int| 0 <= i < s.len() ==> sequence_values(s)[i] == s[i].0,
{
}

/// Maps each sequence number to its wire-level numeric representation,
/// preserving order and count.
pub(crate) fn sequences_into_values(v: Vec<Sequence>) -> (r: Vec<u64>)
    ensures
        r@ == sequence_values(v@),
{
    let mut r: Vec<u64> = Vec::new();
    let mut i: usize = 0;
    while i < v.len()
        invariant
            i <= v@.len(),
            r@.len() == i,
            forall|j: int| 0 <= j < i ==> r@[j] == v@[j].0,
        decreases v@.len() - i,
    {
        r.push(v[i].0);
        i = i + 1;
    }
    proof {
        assert(r@ =~= sequence_values(v@));
    }
    r
}

} // verus!
