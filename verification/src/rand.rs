//! A small seedable generator of pseudo-random numbers, and the shuffle that
//! decides in which order accounts are tried.
//!
//! The generator is a linear congruential one; the numbers it hands out are
//! the upper halves of its states, which are below `2^32`. It is not meant
//! to resist an adversary: it only spreads the load over the accounts, and
//! that evenly as long as there are far fewer than `2^32` of them. Whoever
//! needs the same order twice seeds it with the same number.

use vstd::prelude::*;

verus! {

/// The multiplier of the generator.
pub const MULTIPLIER: u64 = 6364136223846793005;

/// The increment of the generator.
pub const INCREMENT: u64 = 1442695040888963407;

/// The state that follows `state`.
pub open spec fn advance(state: u64) -> u64 {
    state.wrapping_mul(MULTIPLIER).wrapping_add(INCREMENT)
}

/// The number that a generator in `state` hands out next: the upper half of
/// the state that follows.
pub open spec fn draw(state: u64) -> u64 {
    advance(state) / 0x1_0000_0000
}

/// The sequence `0, 1, .., n - 1`.
pub open spec fn identity_order(n: nat) -> Seq<usize> {
    Seq::new(n, |k: int| k as usize)
}

/// `order` with the items at `i` and `j` exchanged.
pub open spec fn swapped(order: Seq<usize>, i: int, j: int) -> Seq<usize> {
    order.update(i, order[j]).update(j, order[i])
}

/// What the shuffle makes of `order` when it still has the positions
/// `i, i - 1, .., 1` to settle and the generator is in `state`: position `i`
/// gets one of the items at `0..=i`, picked by the next draw.
pub open spec fn shuffle_from(order: Seq<usize>, state: u64, i: nat) -> Seq<usize>
    decreases i,
{
    if i == 0 {
        order
    } else {
        let j = draw(state) as int % (i + 1) as int;
        shuffle_from(swapped(order, i as int, j), advance(state), (i - 1) as nat)
    }
}

/// The state of a generator after it has settled the positions `i, .., 1`.
pub open spec fn state_after(state: u64, i: nat) -> u64
    decreases i,
{
    if i == 0 {
        state
    } else {
        state_after(advance(state), (i - 1) as nat)
    }
}

/// The order in which `n` items are visited by a generator in `state`.
pub open spec fn shuffled(state: u64, n: nat) -> Seq<usize> {
    if n == 0 {
        Seq::empty()
    } else {
        shuffle_from(identity_order(n), state, (n - 1) as nat)
    }
}

/// `x` stands at some position of `order`.
pub open spec fn occurs(order: Seq<usize>, x: int) -> bool {
    exists|k: int| 0 <= k < order.len() && #[trigger] order[k] == x
}

/// Every index below `order.len()` occurs in `order`, and none occurs twice.
pub open spec fn is_permutation(order: Seq<usize>) -> bool {
    &&& forall|k: int| 0 <= k < order.len() ==> 0 <= #[trigger] order[k] < order.len()
    &&& forall|a: int, b: int|
        0 <= a < order.len() && 0 <= b < order.len() && a != b ==> order[a] != order[b]
    &&& forall|x: int| 0 <= x < order.len() ==> #[trigger] occurs(order, x)
}

/// Exchanging two items of a permutation leaves a permutation.
pub proof fn lemma_swapped_is_permutation(order: Seq<usize>, i: int, j: int)
    requires
        is_permutation(order),
        0 <= i < order.len(),
        0 <= j < order.len(),
    ensures
        is_permutation(swapped(order, i, j)),
        swapped(order, i, j).len() == order.len(),
{
    let next = swapped(order, i, j);
    assert forall|x: int| 0 <= x < next.len() implies #[trigger] occurs(next, x) by {
        assert(occurs(order, x));
        let k = choose|k: int| 0 <= k < order.len() && #[trigger] order[k] == x;
        if k == i {
            assert(next[j] == x);
        } else if k == j {
            assert(next[i] == x);
        } else {
            assert(next[k] == x);
        }
    }
}

/// The identity order is a permutation.
pub proof fn lemma_identity_is_permutation(n: nat)
    requires
        n <= usize::MAX,
    ensures
        is_permutation(identity_order(n)),
{
    let order = identity_order(n);
    assert forall|x: int| 0 <= x < order.len() implies #[trigger] occurs(order, x) by {
        assert(order[x] == x);
    }
}

/// The shuffle visits every item exactly once, whatever the generator draws.
pub proof fn lemma_shuffle_from_is_permutation(order: Seq<usize>, state: u64, i: nat)
    requires
        is_permutation(order),
        i < order.len() || (i == 0 && order.len() == 0),
    ensures
        is_permutation(shuffle_from(order, state, i)),
        shuffle_from(order, state, i).len() == order.len(),
    decreases i,
{
    if i > 0 {
        let j = draw(state) as int % (i + 1) as int;
        lemma_swapped_is_permutation(order, i as int, j);
        lemma_shuffle_from_is_permutation(
            swapped(order, i as int, j),
            advance(state),
            (i - 1) as nat,
        );
    }
}

/// The order in which any number of items is visited is a permutation of
/// them: no item is skipped and none is visited twice.
pub proof fn lemma_shuffled_is_permutation(state: u64, n: nat)
    requires
        n <= usize::MAX,
    ensures
        is_permutation(shuffled(state, n)),
        shuffled(state, n).len() == n,
{
    if n > 0 {
        lemma_identity_is_permutation(n);
        lemma_shuffle_from_is_permutation(identity_order(n), state, (n - 1) as nat);
    }
}

/// A seedable generator of pseudo-random numbers.
#[derive(Debug)]
pub struct Rng {
    state: u64,
}

impl View for Rng {
    type V = u64;

    closed spec fn view(&self) -> u64 {
        self.state
    }
}

impl Rng {
    /// A generator that starts from `seed`.
    pub fn with_seed(seed: u64) -> (rng: Rng)
        ensures
            rng@ == seed,
    {
        Rng { state: seed }
    }

    /// The next number.
    pub fn draw(&mut self) -> (n: u64)
        ensures
            n == draw(old(self)@),
            n < 0x1_0000_0000,
            final(self)@ == advance(old(self)@),
    {
        self.state = self.state.wrapping_mul(MULTIPLIER).wrapping_add(INCREMENT);
        self.state / 0x1_0000_0000
    }

    /// The indices `0..n` in the order in which they are to be visited.
    ///
    /// The order is a permutation of the indices and depends on nothing but
    /// the generator's state and `n`.
    pub fn shuffled_indices(&mut self, n: usize) -> (order: Vec<usize>)
        ensures
            order@ == shuffled(old(self)@, n as nat),
            is_permutation(order@),
            order@.len() == n,
            final(self)@ == state_after(old(self)@, if n == 0 { 0 } else { (n - 1) as nat }),
    {
        let mut order: Vec<usize> = Vec::new();
        let mut k: usize = 0;
        while k < n
            invariant
                k <= n,
                order@ == identity_order(k as nat),
            decreases n - k,
        {
            order.push(k);
            k = k + 1;
        }
        proof {
            lemma_shuffled_is_permutation(self@, n as nat);
        }
        if n == 0 {
            return order;
        }
        let mut i: usize = n - 1;
        while i > 0
            invariant
                i < n,
                order@.len() == n,
                shuffle_from(order@, self@, i as nat) == shuffled(old(self)@, n as nat),
                state_after(self@, i as nat) == state_after(old(self)@, (n - 1) as nat),
            decreases i,
        {
            let bound: u64 = i as u64 + 1;
            let j: usize = (self.draw() % bound) as usize;
            let at_i: usize = order[i];
            let at_j: usize = order[j];
            order.set(i, at_j);
            order.set(j, at_i);
            i = i - 1;
        }
        order
    }
}

} // verus!
