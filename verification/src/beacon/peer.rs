//! Addresses of peers, and selections among them.

use vstd::prelude::*;

verus! {

/// The address of a peer.
#[derive(Clone, Copy, Debug, PartialEq, Eq, Structural)]
pub enum PeerAddr {
    V4 { ipv4: u32, port: u16 },
    V6 { ipv6: u128, port: u16, flowinfo: u32, scope_id: u32 },
}

/// The smaller of two numbers.
pub open spec fn min(a: nat, b: nat) -> nat {
    if a <= b {
        a
    } else {
        b
    }
}

/// By how much `count` exceeds `limit`.
pub open spec fn excess(count: nat, limit: nat) -> nat {
    if count > limit {
        (count - limit) as nat
    } else {
        0
    }
}

/// The first `n` addresses, or all if there are fewer.
pub open spec fn at_most(addrs: Seq<PeerAddr>, n: nat) -> Seq<PeerAddr> {
    addrs.take(min(n, addrs.len()) as int)
}

/// The addresses that are not among the trusted ones, in order.
pub open spec fn untrusted(addrs: Seq<PeerAddr>, trusted: Seq<PeerAddr>) -> Seq<PeerAddr> {
    addrs.filter(|addr: PeerAddr| !trusted.contains(addr))
}

/// The addresses other than `source`, in order.
pub open spec fn others(addrs: Seq<PeerAddr>, source: PeerAddr) -> Seq<PeerAddr> {
    addrs.filter(|addr: PeerAddr| addr != source)
}

/// Tells whether `addr` is among the given addresses.
pub fn contains(addrs: &Vec<PeerAddr>, addr: PeerAddr) -> (found: bool)
    ensures
        found == addrs@.contains(addr),
{
    for i in 0..addrs.len()
        invariant
            forall|j: int| 0 <= j < i ==> addrs@[j] != addr,
    {
        if addrs[i] == addr {
            return true;
        }
    }
    false
}

/// Takes the first address off a queue.
pub fn pop_first(queue: Vec<PeerAddr>) -> (rest: Vec<PeerAddr>)
    requires
        queue@.len() > 0,
    ensures
        rest@ == queue@.drop_first(),
{
    let mut rest = queue;
    rest.remove(0);
    proof {
        assert(rest@ =~= queue@.drop_first());
    }
    rest
}

/// Returns the first `n` addresses, or all if there are fewer.
pub fn take_at_most(addrs: &Vec<PeerAddr>, n: usize) -> (taken: Vec<PeerAddr>)
    ensures
        taken@ == at_most(addrs@, n as nat),
{
    let mut taken: Vec<PeerAddr> = Vec::new();
    while taken.len() < addrs.len() && taken.len() < n
        invariant
            taken@.len() <= addrs@.len(),
            taken@.len() <= n,
            taken@ == addrs@.take(taken@.len() as int),
        decreases addrs@.len() - taken@.len(),
    {
        taken.push(addrs[taken.len()]);
    }
    taken
}

/// How one more address affects `untrusted`.
proof fn lemma_untrusted_push(addrs: Seq<PeerAddr>, addr: PeerAddr, trusted: Seq<PeerAddr>)
    ensures
        untrusted(addrs.push(addr), trusted) == if !trusted.contains(addr) {
            untrusted(addrs, trusted).push(addr)
        } else {
            untrusted(addrs, trusted)
        },
{
    reveal(Seq::filter);
    assert(addrs.push(addr).drop_last() =~= addrs);
}

/// Returns the first `n` addresses that are not trusted, or all of those if there are fewer.
pub fn take_untrusted(addrs: &Vec<PeerAddr>, trusted: &Vec<PeerAddr>, n: usize) -> (taken: Vec<
    PeerAddr,
>)
    ensures
        taken@ == at_most(untrusted(addrs@, trusted@), n as nat),
{
    let mut taken: Vec<PeerAddr> = Vec::new();
    let mut i: usize = 0;
    proof {
        reveal(Seq::filter);
    }
    while i < addrs.len() && taken.len() < n
        invariant
            i <= addrs@.len(),
            taken@.len() <= n,
            taken@ == untrusted(addrs@.take(i as int), trusted@),
        decreases addrs@.len() - i,
    {
        proof {
            lemma_untrusted_push(addrs@.take(i as int), addrs@[i as int], trusted@);
            assert(addrs@.take(i as int).push(addrs@[i as int]) =~= addrs@.take(i + 1));
        }
        if !contains(trusted, addrs[i]) {
            taken.push(addrs[i]);
        }
        i += 1;
    }
    proof {
        let rest = addrs@.skip(i as int);
        Seq::filter_distributes_over_add(
            addrs@.take(i as int),
            rest,
            |addr: PeerAddr| !trusted@.contains(addr),
        );
        assert(addrs@.take(i as int) + rest =~= addrs@);
        assert(taken@ =~= at_most(untrusted(addrs@, trusted@), n as nat));
    }
    taken
}

/// How one more address affects `others`.
proof fn lemma_others_push(addrs: Seq<PeerAddr>, addr: PeerAddr, source: PeerAddr)
    ensures
        others(addrs.push(addr), source) == if addr != source {
            others(addrs, source).push(addr)
        } else {
            others(addrs, source)
        },
{
    reveal(Seq::filter);
    assert(addrs.push(addr).drop_last() =~= addrs);
}

/// `source` is not among the other addresses.
pub proof fn lemma_others_exclude(addrs: Seq<PeerAddr>, source: PeerAddr)
    ensures
        forall|i: int|
            0 <= i < others(addrs, source).len() ==> #[trigger] others(addrs, source)[i] != source,
    decreases addrs.len(),
{
    reveal(Seq::filter);
    if addrs.len() > 0 {
        lemma_others_exclude(addrs.drop_last(), source);
        lemma_others_push(addrs.drop_last(), addrs.last(), source);
        assert(addrs.drop_last().push(addrs.last()) =~= addrs);
    }
}

/// Returns the addresses other than `source`, in order.
pub fn without(addrs: &Vec<PeerAddr>, source: PeerAddr) -> (kept: Vec<PeerAddr>)
    ensures
        kept@ == others(addrs@, source),
{
    let mut kept: Vec<PeerAddr> = Vec::new();
    proof {
        reveal(Seq::filter);
    }
    for i in 0..addrs.len()
        invariant
            kept@ == others(addrs@.take(i as int), source),
    {
        proof {
            lemma_others_push(addrs@.take(i as int), addrs@[i as int], source);
            assert(addrs@.take(i as int).push(addrs@[i as int]) =~= addrs@.take(i + 1));
        }
        if addrs[i] != source {
            kept.push(addrs[i]);
        }
    }
    proof {
        assert(addrs@.take(addrs@.len() as int) =~= addrs@);
    }
    kept
}

} // verus!
