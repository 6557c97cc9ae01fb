//! Random selections among peers.

use crate::beacon::peer::{min, PeerAddr};
use rand::rngs::OsRng;
use rand::seq::{IteratorRandom, SliceRandom};
use vstd::prelude::*;

verus! {

/// Whether `sample` can be the result of drawing `amount` of the given addresses, without
/// putting any back: so many of them, or all if there are fewer, each at most as often as it is
/// there, in any order.
pub open spec fn drawn_from(addrs: Seq<PeerAddr>, amount: nat, sample: Seq<PeerAddr>) -> bool {
    &&& sample.len() == min(amount, addrs.len())
    &&& sample.to_multiset().subset_of(addrs.to_multiset())
}

/// There is one way to draw nothing.
pub proof fn lemma_draw_nothing(addrs: Seq<PeerAddr>)
    ensures
        drawn_from(addrs, 0, Seq::empty()),
{
    broadcast use vstd::seq_lib::group_to_multiset_ensures;

    assert forall|addr: PeerAddr|
        Seq::<PeerAddr>::empty().to_multiset().count(addr) <= addrs.to_multiset().count(addr) by {
        assert(!Seq::<PeerAddr>::empty().contains(addr));
    }
}

/// Calls `rand::seq::IteratorRandom::choose_multiple` on the addresses, with
/// `rand::rngs::OsRng` as the source of randomness.
///
/// Trusted: the result holds `amount` items of the iterator, no item more often than the
/// iterator yields it. Nothing is claimed of which items these are, nor of their order. The
/// amount is bounded, since room for it is allocated up front. The call panics if the operating
/// system fails to provide randomness.
#[verifier::external_body]
pub(crate) fn choose_from_iter(addrs: Vec<PeerAddr>, amount: usize) -> (sample: Vec<PeerAddr>)
    requires
        amount <= addrs@.len(),
    ensures
        drawn_from(addrs@, amount as nat, sample@),
{
    addrs.into_iter().choose_multiple(&mut OsRng::default(), amount)
}

/// Calls `rand::seq::SliceRandom::choose_multiple` on the addresses, with `rand::rngs::OsRng`
/// as the source of randomness.
///
/// Trusted: the result holds `amount` items of the slice, or all if there are fewer, chosen
/// without repetition of a position. Nothing is claimed of which items these are, nor of their
/// order. The call panics if the operating system fails to provide randomness.
#[verifier::external_body]
pub(crate) fn choose_from_slice(addrs: &Vec<PeerAddr>, amount: usize) -> (sample: Vec<PeerAddr>)
    ensures
        drawn_from(addrs@, amount as nat, sample@),
{
    addrs.choose_multiple(&mut OsRng::default(), amount).copied().collect()
}

} // verus!
