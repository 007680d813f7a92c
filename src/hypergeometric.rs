//! Parameters of a hypergeometric distribution: the number of successes seen
//! when drawing without replacement from a finite population.
use vstd::prelude::*;
use vstd::arithmetic::div_mod::lemma_fundamental_div_mod_converse;

verus! {

/// Why a set of hypergeometric parameters is refused.
#[derive(Clone, Copy, Debug, PartialEq, Eq, Structural, Hash)]
pub enum HypergeometricError {
    /// The population holds fewer items than the successes claimed in it.
    TooManySuccesses,
    /// The population holds fewer items than the number of draws.
    TooManyDraws,
}

/// A population of `population` items, `successes` of them successes, from
/// which `draws` items are drawn.
#[derive(Clone, Copy, Debug, PartialEq, Eq, Structural, Hash)]
pub struct Hypergeometric {
    pub population: u64,
    pub successes: u64,
    pub draws: u64,
}

impl Hypergeometric {
    /// Neither the successes nor the draws exceed the population.
    pub open spec fn wf(&self) -> bool {
        self.successes <= self.population && self.draws <= self.population
    }

    /// `floor((draws + 1) * (successes + 1) / (population + 2))`, the most
    /// likely number of successes drawn.
    pub open spec fn spec_mode(&self) -> int {
        ((self.draws + 1) * (self.successes + 1)) / (self.population + 2)
    }

    /// The distribution with the given parameters, or the reason they do not
    /// describe one.
    pub fn new(population: u64, successes: u64, draws: u64) -> (r: Result<
        Hypergeometric,
        HypergeometricError,
    >)
        ensures
            successes > population ==> r == Err::<Hypergeometric, _>(
                HypergeometricError::TooManySuccesses,
            ),
            successes <= population && draws > population ==> r == Err::<Hypergeometric, _>(
                HypergeometricError::TooManyDraws,
            ),
            successes <= population && draws <= population ==> r == Ok::<_, HypergeometricError>(
                (Hypergeometric { population, successes, draws }),
            ),
            r matches Ok(d) ==> d.wf(),
    {
        if successes > population {
            Err(HypergeometricError::TooManySuccesses)
        } else if draws > population {
            Err(HypergeometricError::TooManyDraws)
        } else {
            Ok(Hypergeometric { population, successes, draws })
        }
    }

    /// The fewest successes that can be drawn:
    /// `max(0, draws + successes - population)`.
    pub fn support_min(&self) -> (r: u64)
        requires
            self.wf(),
        ensures
            self.draws + self.successes <= self.population ==> r == 0,
            self.draws + self.successes > self.population ==> r == self.draws + self.successes
                - self.population,
    {
        let failures = self.population - self.successes;
        if self.draws > failures {
            self.draws - failures
        } else {
            0
        }
    }

    /// The most successes that can be drawn: `min(successes, draws)`.
    pub fn support_max(&self) -> (r: u64)
        ensures
            r == if self.successes <= self.draws {
                self.successes
            } else {
                self.draws
            },
    {
        if self.successes <= self.draws {
            self.successes
        } else {
            self.draws
        }
    }

    /// The mode of the distribution; it never exceeds the draws nor the
    /// successes.
    pub fn mode(&self) -> (r: u64)
        requires
            self.wf(),
        ensures
            r == self.spec_mode(),
            r <= self.draws,
            r <= self.successes,
    {
        if self.draws == u64::MAX && self.successes == u64::MAX {
            // Then the population is `u64::MAX` as well, and the product
            // below would not fit in 128 bits.
            proof {
                let m: int = u64::MAX as int + 1;
                assert(m * m == (m - 1) * (m + 1) + 1) by (nonlinear_arith);
                lemma_fundamental_div_mod_converse(m * m, m + 1, m - 1, 1);
            }
            return u64::MAX;
        }
        let d = self.draws as u128 + 1;
        let s = self.successes as u128 + 1;
        let p = self.population as u128 + 2;
        proof {
            lemma_mode_bounded(d as int, s as int, p as int);
            lemma_mode_bounded(s as int, d as int, p as int);
            assert(d * s == s * d) by (nonlinear_arith);
            assert(d * s <= u128::MAX) by (nonlinear_arith)
                requires
                    d <= u64::MAX as int + 1,
                    s <= u64::MAX as int + 1,
                    d <= u64::MAX as int || s <= u64::MAX as int,
            ;
        }
        ((d * s) / p) as u64
    }
}

/// With `1 <= a, b` and `a + 1 <= p`, `b + 1 <= p`, the quotient `a * b / p`
/// stays below `a`.
proof fn lemma_mode_bounded(a: int, b: int, p: int)
    requires
        1 <= a,
        1 <= b,
        a + 1 <= p,
        b + 1 <= p,
    ensures
        (a * b) / p <= a - 1,
        (a * b) / p >= 0,
{
    assert(a * b < a * p) by (nonlinear_arith)
        requires
            1 <= a,
            b < p,
    ;
    assert(a * b >= 0) by (nonlinear_arith)
        requires
            1 <= a,
            1 <= b,
    ;
    assert((a * b) / p < a) by (nonlinear_arith)
        requires
            a * b < a * p,
            p > 0,
            a * b >= 0,
    ;
    assert((a * b) / p >= 0) by (nonlinear_arith)
        requires
            p > 0,
            a * b >= 0,
    ;
}

} // verus!
