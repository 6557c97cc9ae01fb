//! What the selections among addresses have to do with each other.

use crate::beacon::peer::{at_most, excess, min, others, untrusted, PeerAddr};
use crate::beacon::sampling::drawn_from;
use vstd::prelude::*;

verus! {

/// Selecting the other addresses goes address by address: the source is left out, and every other
/// address stays, in its place and as often as it is there.
pub proof fn law_others_leaves_out_the_source_only(
    addrs: Seq<PeerAddr>,
    more: Seq<PeerAddr>,
    addr: PeerAddr,
    source: PeerAddr,
)
    ensures
        others(addrs + more, source) == others(addrs, source) + others(more, source),
        addr != source ==> others(seq![addr], source) == seq![addr],
        others(seq![source], source) == Seq::<PeerAddr>::empty(),
        others(addrs, source).contains(addr) <==> addr != source && addrs.contains(addr),
        !addrs.contains(source) ==> others(addrs, source) == addrs,
    decreases addrs.len(),
{
    reveal_with_fuel(Seq::filter, 2);
    assert(seq![addr].drop_last() =~= Seq::<PeerAddr>::empty());
    assert(seq![source].drop_last() =~= Seq::<PeerAddr>::empty());
    assert(others(seq![addr], source) =~= if addr != source {
        seq![addr]
    } else {
        seq![]
    });
    assert(others(seq![source], source) =~= seq![]);
    lemma_others_add(addrs, more, source);
    if addrs.len() > 0 {
        let before = addrs.drop_last();
        law_others_leaves_out_the_source_only(before, more, addr, source);
        lemma_others_add(before, seq![addrs.last()], source);
        assert(before + seq![addrs.last()] =~= addrs);
        let kept = others(seq![addrs.last()], source);
        assert(seq![addrs.last()].drop_last() =~= Seq::<PeerAddr>::empty());
        assert(kept =~= if addrs.last() != source {
            seq![addrs.last()]
        } else {
            seq![]
        });
        assert(addrs.contains(addr) <==> before.contains(addr) || addr == addrs.last()) by {
            if before.contains(addr) {
                let i = choose|i: int| 0 <= i < before.len() && before[i] == addr;
                assert(addrs[i] == addr);
            }
            assert(addrs[addrs.len() - 1] == addrs.last());
        }
        let old = others(before, source);
        assert(others(addrs, source) == old + kept);
        assert((old + kept).contains(addr) <==> old.contains(addr) || kept.contains(addr)) by {
            if old.contains(addr) {
                let i = choose|i: int| 0 <= i < old.len() && old[i] == addr;
                assert((old + kept)[i] == addr);
            }
            if kept.contains(addr) {
                let i = choose|i: int| 0 <= i < kept.len() && kept[i] == addr;
                assert((old + kept)[old.len() + i] == addr);
            }
        }
        assert(kept.contains(addr) <==> addr != source && addr == addrs.last()) by {
            if addr != source && addr == addrs.last() {
                assert(kept[0] == addr);
            }
        }
        if !addrs.contains(source) {
            assert(addrs[addrs.len() - 1] != source);
            assert(!before.contains(source)) by {
                if before.contains(source) {
                    let i = choose|i: int| 0 <= i < before.len() && before[i] == source;
                    assert(addrs[i] == source);
                }
            }
            assert(old + kept =~= addrs);
        }
    }
}

proof fn lemma_others_add(addrs: Seq<PeerAddr>, more: Seq<PeerAddr>, source: PeerAddr)
    ensures
        others(addrs + more, source) == others(addrs, source) + others(more, source),
    decreases more.len(),
{
    reveal(Seq::filter);
    if more.len() > 0 {
        lemma_others_add(addrs, more.drop_last(), source);
        assert((addrs + more).drop_last() =~= addrs + more.drop_last());
        assert(others(addrs + more, source) =~= others(addrs, source) + others(more, source));
    } else {
        assert(addrs + more =~= addrs);
        assert(others(addrs, source) + others(more, source) =~= others(addrs, source));
    }
}

proof fn lemma_untrusted_add(
    addrs: Seq<PeerAddr>,
    more: Seq<PeerAddr>,
    trusted: Seq<PeerAddr>,
)
    ensures
        untrusted(addrs + more, trusted) == untrusted(addrs, trusted) + untrusted(more, trusted),
    decreases more.len(),
{
    reveal(Seq::filter);
    if more.len() > 0 {
        lemma_untrusted_add(addrs, more.drop_last(), trusted);
        assert((addrs + more).drop_last() =~= addrs + more.drop_last());
        assert(untrusted(addrs + more, trusted) =~= untrusted(addrs, trusted) + untrusted(
            more,
            trusted,
        ));
    } else {
        assert(addrs + more =~= addrs);
        assert(untrusted(addrs, trusted) + untrusted(more, trusted) =~= untrusted(addrs, trusted));
    }
}

/// Selecting the untrusted addresses goes address by address: one is left out exactly if it is
/// among the trusted ones, and stays in its place and as often as it is there otherwise.
pub proof fn law_untrusted_leaves_out_the_trusted_only(
    addrs: Seq<PeerAddr>,
    more: Seq<PeerAddr>,
    addr: PeerAddr,
    trusted: Seq<PeerAddr>,
)
    ensures
        untrusted(addrs + more, trusted) == untrusted(addrs, trusted) + untrusted(more, trusted),
        !trusted.contains(addr) ==> untrusted(seq![addr], trusted) == seq![addr],
        trusted.contains(addr) ==> untrusted(seq![addr], trusted) == Seq::<PeerAddr>::empty(),
{
    reveal_with_fuel(Seq::filter, 2);
    assert(seq![addr].drop_last() =~= Seq::<PeerAddr>::empty());
    assert(untrusted(seq![addr], trusted) =~= if trusted.contains(addr) {
        seq![]
    } else {
        seq![addr]
    });
    lemma_untrusted_add(addrs, more, trusted);
}

/// Without trusted addresses, all are untrusted.
pub proof fn law_all_are_untrusted_if_none_is_trusted(addrs: Seq<PeerAddr>)
    ensures
        untrusted(addrs, Seq::empty()) == addrs,
    decreases addrs.len(),
{
    reveal(Seq::filter);
    if addrs.len() > 0 {
        law_all_are_untrusted_if_none_is_trusted(addrs.drop_last());
        assert(untrusted(addrs, Seq::empty()) =~= addrs);
    } else {
        assert(untrusted(addrs, Seq::empty()) =~= addrs);
    }
}

/// What is taken and what is left make up the whole. All is taken if there is no more than asked
/// for, else as many as asked for.
pub proof fn law_taken_and_left_make_up_the_whole(addrs: Seq<PeerAddr>, n: nat)
    ensures
        at_most(addrs, n).len() <= n,
        at_most(addrs, n) + addrs.skip(at_most(addrs, n).len() as int) == addrs,
        at_most(addrs, n).len() == n || at_most(addrs, n) == addrs,
{
    assert(at_most(addrs, n) + addrs.skip(at_most(addrs, n).len() as int) =~= addrs);
    if addrs.len() <= n {
        assert(at_most(addrs, n) =~= addrs);
    }
}

/// The excess over a limit is what has to go to be within it, and not more.
pub proof fn law_excess_brings_down_to_the_limit(count: nat, limit: nat)
    ensures
        count > limit ==> count - excess(count, limit) == limit,
        count <= limit ==> excess(count, limit) == 0,
{
}

/// A draw holds as many addresses as asked for, or all if there are fewer, and none more often
/// than it was there.
pub proof fn law_draw_is_a_selection(addrs: Seq<PeerAddr>, amount: nat, sample: Seq<PeerAddr>)
    requires
        drawn_from(addrs, amount, sample),
    ensures
        amount <= addrs.len() ==> sample.len() == amount,
        amount > addrs.len() ==> sample.len() == addrs.len(),
        forall|addr: PeerAddr|
            #![trigger sample.to_multiset().count(addr)]
            sample.to_multiset().count(addr) <= addrs.to_multiset().count(addr),
        min(amount, addrs.len()) == sample.len(),
{
}

} // verus!
