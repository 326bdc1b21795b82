use vstd::prelude::*;

verus! {

/// The sum of the weights of a pool.
pub open spec fn total_weight<T>(s: Seq<(T, u64)>) -> int
    decreases s.len(),
{
    if s.len() == 0 {
        0
    } else {
        total_weight(s.drop_last()) + s.last().1
    }
}

/// The running cumulative weight through position `i`.
pub open spec fn cum_weight<T>(s: Seq<(T, u64)>, i: int) -> int {
    total_weight(s.subrange(0, i + 1))
}

pub proof fn lemma_total_nonneg<T>(s: Seq<(T, u64)>)
    ensures
        total_weight(s) >= 0,
    decreases s.len(),
{
    if s.len() > 0 {
        lemma_total_nonneg(s.drop_last());
    }
}

/// Law: a non-empty pool whose weights are all positive has positive total
/// weight, so by the contract of `get` a draw from it always yields an item
/// present in the pool.
pub proof fn lemma_positive_pool_draws<T>(s: Seq<(T, u64)>)
    requires
        s.len() > 0,
        forall|i: int| 0 <= i < s.len() ==> (#[trigger] s[i]).1 > 0,
    ensures
        total_weight(s) > 0,
{
    lemma_total_nonneg(s.drop_last());
    assert(s[s.len() - 1].1 > 0);
    assert(total_weight(s) == total_weight(s.drop_last()) + s.last().1);
}

proof fn lemma_total_step<T>(s: Seq<(T, u64)>, i: int)
    requires
        0 <= i < s.len(),
    ensures
        total_weight(s.subrange(0, i + 1)) == total_weight(s.subrange(0, i)) + s[i].1,
{
    let pre = s.subrange(0, i + 1);
    assert(pre.drop_last() =~= s.subrange(0, i));
    assert(pre.last() == s[i]);
}

/// Relies on rand::random_range over the inclusive range 0..=bound: the
/// result lies in that range; each call draws independently.
#[verifier::external_body]
fn random_below(bound: u128) -> (r: u128)
    ensures
        r <= bound,
{
    rand::random_range(0..=bound)
}

/// An ordered pool of items, each carrying a non-negative integer weight, from
/// which one item can be drawn with probability proportional to its weight.
#[derive(Clone, Debug)]
pub struct WeightVec<T>(pub Vec<(T, u64)>);

impl<T> WeightVec<T> {
    /// The sum of all weights, exactly.
    pub fn total(&self) -> (t: u128)
        ensures
            t as int == total_weight(self.0@),
    {
        let n = self.0.len();
        let mut t: u128 = 0;
        let mut i: usize = 0;
        proof {
            assert(self.0@.subrange(0, 0) =~= Seq::<(T, u64)>::empty());
        }
        while i < n
            invariant
                n == self.0@.len(),
                i <= n,
                t as int == total_weight(self.0@.subrange(0, i as int)),
                t as int <= (i as int) * 0xffff_ffff_ffff_ffff,
            decreases n - i,
        {
            proof {
                lemma_total_step(self.0@, i as int);
            }
            t = t + self.0[i].1 as u128;
            i += 1;
        }
        proof {
            assert(self.0@.subrange(0, n as int) =~= self.0@);
        }
        t
    }

    /// The position that a draw value selects: the first index whose running
    /// cumulative weight reaches `draw`. `None` exactly when the pool is empty
    /// or `draw` lies beyond the total weight.
    pub fn pick_index(&self, draw: u128) -> (r: Option<usize>)
        ensures
            match r {
                None => self.0@.len() == 0 || (draw as int) > total_weight(self.0@),
                Some(i) => 0 <= i < self.0@.len() && cum_weight(self.0@, i as int) >= draw as int
                    && (forall|j: int| 0 <= j < i ==> cum_weight(self.0@, j) < draw as int),
            },
    {
        let n = self.0.len();
        let mut acc: u128 = 0;
        let mut i: usize = 0;
        proof {
            assert(self.0@.subrange(0, 0) =~= Seq::<(T, u64)>::empty());
        }
        while i < n
            invariant
                n == self.0@.len(),
                i <= n,
                acc as int == total_weight(self.0@.subrange(0, i as int)),
                acc as int <= (i as int) * 0xffff_ffff_ffff_ffff,
                acc < draw || (i == 0 && draw == 0),
                forall|j: int| 0 <= j < i ==> cum_weight(self.0@, j) < draw as int,
            decreases n - i,
        {
            proof {
                lemma_total_step(self.0@, i as int);
            }
            let next = acc + self.0[i].1 as u128;
            if next >= draw {
                return Some(i);
            }
            proof {
                assert(cum_weight(self.0@, i as int) == next as int);
            }
            acc = next;
            i += 1;
        }
        proof {
            assert(self.0@.subrange(0, n as int) =~= self.0@);
        }
        None
    }

    /// Draws one item at random, with probability proportional to its weight:
    /// a uniform draw over the closed range from zero to the total weight,
    /// resolved by `pick_index`. Yields an item present in the pool whenever
    /// the weights sum to something positive, and nothing otherwise.
    pub fn get(&self) -> (r: Option<&T>)
        ensures
            (r is Some) <==> total_weight(self.0@) > 0,
            r matches Some(v) ==> exists|i: int|
                0 <= i < self.0@.len() && #[trigger] self.0@[i].0 == *v,
    {
        proof {
            lemma_total_nonneg(self.0@);
        }
        let t = self.total();
        if t == 0 {
            return None;
        }
        let draw = random_below(t);
        match self.pick_index(draw) {
            Some(i) => {
                let r = &self.0[i].0;
                proof {
                    assert(self.0@[i as int].0 == *r);
                }
                Some(r)
            },
            None => {
                proof {
                    assert(false);
                }
                None
            },
        }
    }
}

} // verus!
