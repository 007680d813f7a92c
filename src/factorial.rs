//! Factorials and the checks behind binomial and multinomial coefficients.
use vstd::prelude::*;
use crate::double::{is_positive_normal, times, times_spec, ONE_BITS};

verus! {

/// The largest `x` whose factorial is finite as a 64-bit float.
pub const MAX_FACTORIAL: usize = 170;

/// The table of factorials as double-precision bit patterns: `1.0` first,
/// then each entry the previous one multiplied by its index in double
/// precision (round to nearest, ties to even), up to `170!` or up to the
/// first product that would overflow, whichever comes first.
pub open spec fn is_factorial_table(t: Seq<u64>) -> bool {
    &&& 1 <= t.len() <= MAX_FACTORIAL + 1
    &&& t[0] == ONE_BITS
    &&& forall|i: int| 0 <= i < t.len() ==> is_positive_normal(#[trigger] t[i])
    &&& forall|i: int| 1 <= i < t.len() ==> times_spec(t[i - 1], i as nat) == Some(#[trigger] t[i])
    &&& t.len() == MAX_FACTORIAL + 1 || times_spec(t.last(), t.len()) is None
}

/// The factorials `0!` to `170!` as doubles, computed once and then only read.
pub struct FactorialCache {
    bits: Vec<u64>,
}

impl View for FactorialCache {
    type V = Seq<u64>;

    closed spec fn view(&self) -> Seq<u64> {
        self.bits@
    }
}

impl FactorialCache {
    #[verifier::type_invariant]
    spec fn inv(&self) -> bool {
        is_factorial_table(self.bits@)
    }

    /// Builds the table by repeated double-precision multiplication.
    pub fn new() -> (r: FactorialCache)
        ensures
            is_factorial_table(r@),
    {
        let mut bits: Vec<u64> = Vec::new();
        bits.push(ONE_BITS);
        let mut i: u64 = 1;
        let mut overflowed = false;
        while !overflowed && i <= MAX_FACTORIAL as u64
            invariant
                1 <= i <= MAX_FACTORIAL + 1,
                bits@.len() == i,
                bits@[0] == ONE_BITS,
                forall|j: int| 0 <= j < bits@.len() ==> is_positive_normal(#[trigger] bits@[j]),
                forall|j: int|
                    1 <= j < bits@.len() ==> times_spec(bits@[j - 1], j as nat) == Some(
                        #[trigger] bits@[j],
                    ),
                overflowed ==> times_spec(bits@.last(), bits@.len()) is None,
            decreases MAX_FACTORIAL + 1 - i + (if overflowed {
                0int
            } else {
                1int
            }),
        {
            match times(bits[(i - 1) as usize], i) {
                Some(b) => {
                    bits.push(b);
                    i = i + 1;
                },
                None => {
                    overflowed = true;
                },
            }
        }
        FactorialCache { bits }
    }

    /// The double-precision `x!` as its bit pattern, or `None` when `x!`
    /// overflows a double.
    pub fn get(&self, x: u64) -> (r: Option<u64>)
        ensures
            is_factorial_table(self@),
            x < self@.len() ==> r == Some(self@[x as int]),
            x >= self@.len() ==> r is None,
            x > MAX_FACTORIAL ==> r is None,
    {
        proof {
            use_type_invariant(self);
        }
        if x < self.bits.len() as u64 {
            Some(self.bits[x as usize])
        } else {
            None
        }
    }

    /// The number of entries: one more than the largest `x` whose factorial
    /// is finite.
    pub fn len(&self) -> (r: usize)
        ensures
            r == self@.len(),
            1 <= r <= MAX_FACTORIAL + 1,
    {
        proof {
            use_type_invariant(self);
        }
        self.bits.len()
    }
}

/// In a factorial table, such as the one `FactorialCache` holds, each entry
/// is the one before it multiplied by its index in double precision:
/// `x! == (x - 1)! * x`, the product rounded to nearest with ties to even.
pub proof fn lemma_factorial_recurrence(table: Seq<u64>, x: int)
    requires
        is_factorial_table(table),
        1 <= x < table.len(),
    ensures
        table[0] == ONE_BITS,
        times_spec(table[x - 1], x as nat) == Some(table[x]),
{
    assert(times_spec(table[x - 1], x as nat) == Some(table[x]));
}

/// `n - k`, the size of the group left after choosing `k` of `n`, or `None`
/// when `k > n`, in which case the binomial coefficient is zero.
pub fn binomial_rest(n: u64, k: u64) -> (r: Option<u64>)
    ensures
        k > n ==> r is None,
        k <= n ==> r == Some((n - k) as u64),
{
    if k > n {
        None
    } else {
        Some(n - k)
    }
}

/// The total size of a sequence of groups.
pub open spec fn group_total(groups: Seq<u64>) -> int
    decreases groups.len(),
{
    if groups.len() == 0 {
        0
    } else {
        group_total(groups.drop_last()) + groups.last()
    }
}

proof fn lemma_group_total_prefix_bounded(groups: Seq<u64>, i: int)
    requires
        0 <= i <= groups.len(),
    ensures
        0 <= group_total(groups.subrange(0, i)) <= group_total(groups),
    decreases groups.len(),
{
    if i < groups.len() {
        assert(groups.drop_last() =~= groups.subrange(0, groups.len() - 1));
        lemma_group_total_prefix_bounded(groups.drop_last(), i);
        assert(groups.drop_last().subrange(0, i) =~= groups.subrange(0, i));
    } else {
        assert(groups.subrange(0, i) =~= groups);
    }
    lemma_group_total_nonnegative(groups.subrange(0, i));
}

proof fn lemma_group_total_nonnegative(groups: Seq<u64>)
    ensures
        group_total(groups) >= 0,
    decreases groups.len(),
{
    if groups.len() > 0 {
        lemma_group_total_nonnegative(groups.drop_last());
    }
}

proof fn lemma_group_total_remove(groups: Seq<u64>, j: int)
    requires
        0 <= j < groups.len(),
    ensures
        group_total(groups) == group_total(groups.remove(j)) + groups[j],
    decreases groups.len(),
{
    if j < groups.len() - 1 {
        let rest = groups.drop_last();
        lemma_group_total_remove(rest, j);
        assert(groups.remove(j).drop_last() =~= rest.remove(j));
        assert(groups.remove(j).last() == groups.last());
    } else {
        assert(groups.remove(j) =~= groups.drop_last());
    }
}

/// The total size of the groups does not depend on their order: two
/// sequences that hold the same sizes, each as many times, have the same total.
pub proof fn lemma_group_total_permutation(a: Seq<u64>, b: Seq<u64>)
    requires
        a.to_multiset() == b.to_multiset(),
    ensures
        group_total(a) == group_total(b),
    decreases a.len(),
{
    broadcast use vstd::seq_lib::group_to_multiset_ensures;

    if a.len() == 0 {
        assert(a.to_multiset().len() == 0);
        assert(b.to_multiset().len() == b.len());
    } else {
        let x = a.last();
        let rest = a.drop_last();
        assert(a =~= rest.push(x));
        assert(b.to_multiset().count(x) > 0);
        assert(b.contains(x));
        let j = choose|j: int| 0 <= j < b.len() && b[j] == x;
        lemma_group_total_remove(b, j);
        assert(rest.to_multiset() =~= b.remove(j).to_multiset());
        lemma_group_total_permutation(rest, b.remove(j));
    }
}

/// Whether the group sizes sum exactly to `n`: the condition under which the
/// multinomial coefficient `n choose groups` is defined.
pub fn groups_sum_to(n: u64, groups: &[u64]) -> (r: bool)
    ensures
        r == (group_total(groups@) == n),
{
    let mut total: u64 = 0;
    let mut i: usize = 0;
    while i < groups.len()
        invariant
            0 <= i <= groups@.len(),
            total == group_total(groups@.subrange(0, i as int)),
            total <= n,
        decreases groups@.len() - i,
    {
        proof {
            assert(groups@.subrange(0, i as int + 1).drop_last() =~= groups@.subrange(0, i as int));
        }
        if groups[i] > n - total {
            proof {
                lemma_group_total_prefix_bounded(groups@, i as int + 1);
            }
            return false;
        }
        total = total + groups[i];
        i = i + 1;
    }
    proof {
        assert(groups@.subrange(0, i as int) =~= groups@);
    }
    total == n
}

} // verus!
