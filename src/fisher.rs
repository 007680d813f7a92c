//! Fisher's exact test on a 2x2 contingency table `[a, b, c, d]`, stored in
//! row-major order:
//!
//! ```text
//! a b
//! c d
//! ```
//!
//! The test draws on the hypergeometric distribution that the table's margins
//! induce. This module decides which distribution that is, which of its tails
//! make up the p-value, and where the boundary of the two-sided test lies; the
//! densities themselves are evaluated by the caller.
use vstd::prelude::*;
use crate::hypergeometric::{Hypergeometric, HypergeometricError};

verus! {

/// Which tail or tails of the distribution count as extreme.
#[derive(Clone, Copy, Debug, PartialEq, Eq, Structural, Hash)]
pub enum Alternative {
    TwoSided,
    Less,
    Greater,
}

/// Why the test could not be carried out on a table.
#[derive(Clone, Copy, Debug, PartialEq, Eq, Structural, Hash)]
pub enum FishersExactTestError {
    /// The table does not describe a valid hypergeometric distribution.
    TableInvalidForHypergeometric(HypergeometricError),
}

impl From<HypergeometricError> for FishersExactTestError {
    fn from(value: HypergeometricError) -> (r: Self)
        ensures
            r == FishersExactTestError::TableInvalidForHypergeometric(value),
    {
        FishersExactTestError::TableInvalidForHypergeometric(value)
    }
}

impl vstd::std_specs::convert::FromSpecImpl<HypergeometricError> for FishersExactTestError {
    open spec fn obeys_from_spec() -> bool {
        true
    }

    open spec fn from_spec(v: HypergeometricError) -> Self {
        FishersExactTestError::TableInvalidForHypergeometric(v)
    }
}

/// Some row or some column of the table sums to zero.
pub open spec fn is_degenerate(table: [u64; 4]) -> bool {
    ||| (table[0] == 0 && table[2] == 0)
    ||| (table[1] == 0 && table[3] == 0)
    ||| (table[0] == 0 && table[1] == 0)
    ||| (table[2] == 0 && table[3] == 0)
}

/// The sum of the four entries.
pub open spec fn table_total(table: [u64; 4]) -> int {
    table[0] + table[1] + table[2] + table[3]
}

/// Whether some row or some column of the table sums to zero; on such a
/// table the odds ratio is undefined and the p-value is one.
pub fn degenerate(table: &[u64; 4]) -> (r: bool)
    ensures
        r == is_degenerate(*table),
{
    (table[0] == 0 && table[2] == 0) || (table[1] == 0 && table[3] == 0) || (table[0] == 0
        && table[1] == 0) || (table[2] == 0 && table[3] == 0)
}

/// The odds ratio `(a * d) / (b * c)` of a table, kept as the exact integers
/// it is the quotient of.
#[derive(Clone, Copy, Debug, PartialEq, Eq, Structural, Hash)]
pub enum OddsRatio {
    /// The table is degenerate.
    Undefined,
    /// `b` or `c` is zero: an unbounded association.
    Infinite,
    /// `numerator / denominator`, with `denominator > 0`.
    Ratio { numerator: u128, denominator: u128 },
}

/// The odds ratio of a table.
pub fn odds_ratio(table: &[u64; 4]) -> (r: OddsRatio)
    ensures
        is_degenerate(*table) ==> r == OddsRatio::Undefined,
        !is_degenerate(*table) && (table[1] == 0 || table[2] == 0) ==> r == OddsRatio::Infinite,
        !is_degenerate(*table) && table[1] > 0 && table[2] > 0 ==> r == (OddsRatio::Ratio {
            numerator: (table[0] * table[3]) as u128,
            denominator: (table[1] * table[2]) as u128,
        }),
        r matches OddsRatio::Ratio { denominator, .. } ==> denominator > 0,
{
    if degenerate(table) {
        OddsRatio::Undefined
    } else if table[1] > 0 && table[2] > 0 {
        let a = table[0] as u128;
        let b = table[1] as u128;
        let c = table[2] as u128;
        let d = table[3] as u128;
        assert(a * d <= u128::MAX && b * c <= u128::MAX && b * c > 0) by (nonlinear_arith)
            requires
                a <= u64::MAX,
                b <= u64::MAX,
                c <= u64::MAX,
                d <= u64::MAX,
                b > 0,
                c > 0,
        ;
        OddsRatio::Ratio { numerator: a * d, denominator: b * c }
    } else {
        OddsRatio::Infinite
    }
}

/// What the p-value of a table is made of.
#[derive(Clone, Copy, Debug, PartialEq, Eq, Structural, Hash)]
pub enum FisherSetup {
    /// The table is degenerate: the p-value is one.
    Certain,
    /// The p-value is `P(X <= k)` under `dist`.
    OneSided { dist: Hypergeometric, k: u64 },
    /// The p-value is the mass of the outcomes under `dist` that are no more
    /// likely than `observed` (see `two_sided_tails`).
    TwoSided { dist: Hypergeometric, observed: u64 },
}

/// The distribution that the table's margins induce when `draws` items are
/// drawn: the population is the whole table and its successes are the first row.
pub open spec fn margin_dist(table: [u64; 4], draws: int) -> Hypergeometric {
    Hypergeometric {
        population: table_total(table) as u64,
        successes: (table[0] + table[1]) as u64,
        draws: draws as u64,
    }
}

/// How the p-value of `table` under `alternative` is computed.
///
/// A degenerate table has p-value one under every alternative. Otherwise
/// `Less` looks at `P(X <= a)` with `a + c` draws, `Greater` at `P(X <= b)`
/// with `b + d` draws, and `TwoSided` at both tails with `a + c` draws. The
/// margins always describe a valid distribution, so no error comes back.
/// The entries of a table that is not degenerate must sum within `u64`.
pub fn fisher_setup(table: &[u64; 4], alternative: Alternative) -> (r: Result<
    FisherSetup,
    FishersExactTestError,
>)
    requires
        !is_degenerate(*table) ==> table_total(*table) <= u64::MAX,
    ensures
        is_degenerate(*table) ==> r == Ok::<_, FishersExactTestError>(FisherSetup::Certain),
        !is_degenerate(*table) && alternative == Alternative::Less ==> r == Ok::<
            _,
            FishersExactTestError,
        >(FisherSetup::OneSided { dist: margin_dist(*table, table[0] + table[2]), k: table[0] }),
        !is_degenerate(*table) && alternative == Alternative::Greater ==> r == Ok::<
            _,
            FishersExactTestError,
        >(FisherSetup::OneSided { dist: margin_dist(*table, table[1] + table[3]), k: table[1] }),
        !is_degenerate(*table) && alternative == Alternative::TwoSided ==> r == Ok::<
            _,
            FishersExactTestError,
        >(
            FisherSetup::TwoSided {
                dist: margin_dist(*table, table[0] + table[2]),
                observed: table[0],
            },
        ),
        r matches Ok(FisherSetup::OneSided { dist, k }) ==> dist.wf() && k <= dist.draws,
        r matches Ok(FisherSetup::TwoSided { dist, observed }) ==> dist.wf() && observed
            <= dist.draws,
{
    if degenerate(table) {
        return Ok(FisherSetup::Certain);
    }
    let n1 = table[0] + table[1];
    let n2 = table[2] + table[3];
    let n = table[0] + table[2];
    let population = n1 + n2;
    let successes = n1;
    let (draws, k) = match alternative {
        Alternative::Less | Alternative::TwoSided => (n, table[0]),
        Alternative::Greater => (table[1] + table[3], table[1]),
    };
    let dist = match Hypergeometric::new(population, successes, draws) {
        Ok(dist) => dist,
        Err(e) => return Err(FishersExactTestError::from(e)),
    };
    match alternative {
        Alternative::TwoSided => Ok(FisherSetup::TwoSided { dist, observed: k }),
        _ => Ok(FisherSetup::OneSided { dist, k }),
    }
}

/// Where the probability of one outcome lies relative to the probability
/// `p` of the observed table, under the relative tolerance `eps < 1` of the
/// two-sided test.
#[derive(Clone, Copy, Debug, PartialEq, Eq, Structural, Hash)]
pub enum Band {
    /// Below `p * eps`: clearly less likely than the table.
    FarBelow,
    /// At least `p * eps` and below `p`.
    Below,
    /// Exactly `p`.
    Equal,
    /// Above `p` and at most `p / eps`.
    Above,
    /// Above `p / eps`: clearly more likely than the table.
    FarAbove,
    /// Not comparable with `p` (a density that is not a number).
    Unordered,
}

impl Band {
    /// The probability is at most `p`.
    pub open spec fn spec_at_most(&self) -> bool {
        *self is FarBelow || *self is Below || *self is Equal
    }

    /// Whether the probability is at most `p`.
    #[verifier::when_used_as_spec(spec_at_most)]
    pub fn at_most(&self) -> (r: bool)
        ensures
            r == self.spec_at_most(),
    {
        match self {
            Band::FarBelow | Band::Below | Band::Equal => true,
            _ => false,
        }
    }

    /// The probability is below `p`.
    pub open spec fn spec_below(&self) -> bool {
        *self is FarBelow || *self is Below
    }

    /// Whether the probability is below `p`.
    #[verifier::when_used_as_spec(spec_below)]
    pub fn below(&self) -> (r: bool)
        ensures
            r == self.spec_below(),
    {
        match self {
            Band::FarBelow | Band::Below => true,
            _ => false,
        }
    }

    /// The probability is above `p`.
    pub open spec fn spec_above(&self) -> bool {
        *self is Above || *self is FarAbove
    }

    /// Whether the probability is above `p`.
    #[verifier::when_used_as_spec(spec_above)]
    pub fn above(&self) -> (r: bool)
        ensures
            r == self.spec_above(),
    {
        match self {
            Band::Above | Band::FarAbove => true,
            _ => false,
        }
    }
}

/// Places outcomes of a hypergeometric distribution relative to the
/// probability of the observed table.
///
/// An implementation evaluates a density, so the band it reports for `k`
/// depends on `k` alone: `spec_band` names that function.
pub trait DensityBands {
    /// The band of outcome `k`.
    spec fn spec_band(&self, k: u64) -> Band;

    /// The band of the probability that exactly `k` successes are drawn.
    fn band(&self, k: u64) -> (r: Band)
        ensures
            r == self.spec_band(k),
    ;
}

/// `r` settles the upper-tail search over `[0, draws]`: it is not clearly
/// more likely than the table unless it is the last outcome, and it is not
/// clearly less likely unless it is the first outcome or its lower neighbour
/// is clearly more likely.
pub open spec fn settled_upper<B: DensityBands>(bands: &B, draws: u64, r: u64) -> bool {
    &&& r <= draws
    &&& r == draws || !(bands.spec_band(r) is FarAbove)
    &&& r == 0 || !(bands.spec_band(r) is FarBelow) || bands.spec_band((r - 1) as u64) is FarAbove
}

/// `r` settles the lower-tail search over `[0, draws]`: it is not clearly
/// more likely than the table unless it is the first outcome, and it is not
/// clearly less likely unless it is the last outcome or its upper neighbour
/// is clearly more likely.
pub open spec fn settled_lower<B: DensityBands>(bands: &B, draws: u64, r: u64) -> bool {
    &&& r <= draws
    &&& r == 0 || !(bands.spec_band(r) is FarAbove)
    &&& r == draws || !(bands.spec_band(r) is FarBelow) || bands.spec_band((r + 1) as u64)
        is FarAbove
}

/// One step of the bisection in `binary_search`.
#[derive(Clone, Copy, Debug, PartialEq, Eq, Structural, Hash)]
pub enum Bisection {
    /// The guess is no more likely than the table while its neighbour towards
    /// the mode is more likely: the crossing is found.
    Found,
    /// The crossing lies in `[min_val, max_val]`.
    Narrowed { min_val: u64, max_val: u64 },
}

/// The next guess of the bisection over `[min_val, max_val]`, with
/// `last_guess` the guess before it: the midpoint, except that of two
/// adjacent outcomes whose lower one was just tried, the upper one.
pub fn next_guess(min_val: u64, max_val: u64, last_guess: u64) -> (r: u64)
    requires
        min_val < max_val,
    ensures
        max_val == min_val + 1 && last_guess == min_val ==> r == max_val,
        !(max_val == min_val + 1 && last_guess == min_val) ==> r == (min_val + max_val) / 2,
        min_val <= r <= max_val,
{
    if max_val == min_val + 1 && last_guess == min_val {
        max_val
    } else {
        min_val + (max_val - min_val) / 2
    }
}

/// Where the crossing lies once `guess` and its neighbour towards the mode
/// have been placed: found there, or on the side of `guess` that the bands
/// point to (below it when the guess is less likely than the table).
pub fn bisect(min_val: u64, max_val: u64, guess: u64, at_guess: Band, at_neighbour: Band) -> (r:
    Bisection)
    ensures
        at_guess.at_most() && at_neighbour.above() ==> r == Bisection::Found,
        !(at_guess.at_most() && at_neighbour.above()) && at_guess.below() ==> r
            == (Bisection::Narrowed { min_val, max_val: guess }),
        !(at_guess.at_most() && at_neighbour.above()) && !at_guess.below() ==> r
            == (Bisection::Narrowed { min_val: guess, max_val }),
{
    if at_guess.at_most() && at_neighbour.above() {
        Bisection::Found
    } else if at_guess.below() {
        Bisection::Narrowed { min_val, max_val: guess }
    } else {
        Bisection::Narrowed { min_val: guess, max_val }
    }
}

/// Where the bisection of `binary_search` ends when it is at `[min_val,
/// max_val]` with `guess` its last guess: the interval's lower end and the
/// final guess.
pub open spec fn bisection_end<B: DensityBands>(
    bands: &B,
    upper: bool,
    min_val: u64,
    max_val: u64,
    guess: u64,
) -> (u64, u64)
    decreases max_val - min_val,
{
    if max_val <= min_val + 1 {
        (min_val, guess)
    } else {
        let g = (min_val + (max_val - min_val) / 2) as u64;
        let neighbour = if upper {
            (g - 1) as u64
        } else {
            (g + 1) as u64
        };
        let at_guess = bands.spec_band(g);
        if at_guess.spec_at_most() && bands.spec_band(neighbour).spec_above() {
            (min_val, g)
        } else if at_guess.spec_below() {
            bisection_end(bands, upper, min_val, g, g)
        } else {
            bisection_end(bands, upper, g, max_val, g)
        }
    }
}

/// From `k`, step down while the outcome lies in band `which`.
pub open spec fn walk_down<B: DensityBands>(bands: &B, k: u64, which: Band) -> u64
    decreases k,
{
    if k > 0 && bands.spec_band(k) == which {
        walk_down(bands, (k - 1) as u64, which)
    } else {
        k
    }
}

/// From `k`, step up towards `draws` while the outcome lies in band `which`.
pub open spec fn walk_up<B: DensityBands>(bands: &B, draws: u64, k: u64, which: Band) -> u64
    decreases draws - k,
{
    if k < draws && bands.spec_band(k) == which {
        walk_up(bands, draws, (k + 1) as u64, which)
    } else {
        k
    }
}

/// The outcome `binary_search` returns: the end of the bisection over
/// `[mode, draws]` (with `upper`) or `[0, mode]`, then settled one step at a
/// time, first away from clearly less likely outcomes, then away from
/// clearly more likely ones.
pub open spec fn search_result<B: DensityBands>(bands: &B, draws: u64, mode: u64, upper: bool) -> u64 {
    let (lo, hi) = if upper {
        (mode, draws)
    } else {
        (0u64, mode)
    };
    let (min_end, g) = bisection_end(bands, upper, lo, hi, 0);
    let start = if g == 0 {
        min_end
    } else {
        g
    };
    if upper {
        walk_up(bands, draws, walk_down(bands, start, Band::FarBelow), Band::FarAbove)
    } else {
        walk_down(bands, walk_up(bands, draws, start, Band::FarBelow), Band::FarAbove)
    }
}

/// The boundary of the two-sided test on the tail opposite the observed
/// table: the outcome where the density crosses the observed probability.
///
/// With `upper` the search runs over `[mode, draws]`, else over `[0, mode]`.
/// It bisects (see `bisect`) while the interval spans more than two
/// outcomes. The guess then settles one step at a time while it lies outside
/// the tolerance band, without leaving `[0, draws]`: with `upper`, down while
/// clearly less likely than the table, then up while clearly more likely;
/// otherwise up while clearly less likely, then down while clearly more likely.
/// The outcome it returns is `search_result`; it lies on the searched side of
/// the mode whenever the mode is not clearly less likely than the table.
pub fn binary_search<B: DensityBands>(draws: u64, mode: u64, upper: bool, bands: &B) -> (r: u64)
    requires
        mode <= draws,
    ensures
        upper ==> settled_upper(bands, draws, r),
        !upper ==> settled_lower(bands, draws, r),
        upper && !(bands.spec_band(mode) is FarBelow) ==> mode <= r,
        !upper && !(bands.spec_band(mode) is FarBelow) ==> r <= mode,
        r == search_result(bands, draws, mode, upper),
{
    let (mut min_val, mut max_val) = if upper {
        (mode, draws)
    } else {
        (0u64, mode)
    };
    let mut guess: u64 = 0;
    let ghost end = bisection_end(bands, upper, min_val, max_val, 0);
    while max_val - min_val > 1
        invariant
            bisection_end(bands, upper, min_val, max_val, guess) == end,
            min_val <= max_val <= draws,
            guess <= draws,
            upper ==> mode <= min_val,
            upper ==> guess == 0 || mode <= guess,
            !upper ==> max_val <= mode && guess <= mode,
        ensures
            end == (min_val, guess),
            min_val <= max_val <= draws,
            guess <= draws,
            upper ==> mode <= min_val,
            upper ==> guess == 0 || mode <= guess,
            !upper ==> max_val <= mode && guess <= mode,
        decreases max_val - min_val,
    {
        guess = next_guess(min_val, max_val, guess);
        let neighbour = if upper {
            guess - 1
        } else {
            guess + 1
        };
        let at_neighbour = bands.band(neighbour);
        let at_guess = bands.band(guess);
        match bisect(min_val, max_val, guess, at_guess, at_neighbour) {
            Bisection::Found => {
                break ;
            },
            Bisection::Narrowed { min_val: lo, max_val: hi } => {
                min_val = lo;
                max_val = hi;
            },
        }
    }
    if guess == 0 {
        guess = min_val;
    }
    let ghost first = guess;
    if upper {
        while guess > 0 && bands.band(guess) == Band::FarBelow
            invariant
                guess <= draws,
                !(bands.spec_band(mode) is FarBelow) ==> mode <= guess,
                walk_down(bands, guess, Band::FarBelow) == walk_down(bands, first, Band::FarBelow),
            decreases guess,
        {
            guess = guess - 1;
        }
        let ghost start = guess;
        assert(start == 0 || !(bands.spec_band(start) is FarBelow));
        while guess < draws && bands.band(guess) == Band::FarAbove
            invariant
                start <= guess <= draws,
                start == 0 || !(bands.spec_band(start) is FarBelow),
                !(bands.spec_band(mode) is FarBelow) ==> mode <= start,
                guess > start ==> bands.spec_band((guess - 1) as u64) is FarAbove,
                walk_up(bands, draws, guess, Band::FarAbove) == walk_up(
                    bands,
                    draws,
                    start,
                    Band::FarAbove,
                ),
            decreases draws - guess,
        {
            guess = guess + 1;
        }
    } else {
        while guess < draws && bands.band(guess) == Band::FarBelow
            invariant
                guess <= draws,
                !(bands.spec_band(mode) is FarBelow) ==> guess <= mode,
                walk_up(bands, draws, guess, Band::FarBelow) == walk_up(
                    bands,
                    draws,
                    first,
                    Band::FarBelow,
                ),
            decreases draws - guess,
        {
            guess = guess + 1;
        }
        let ghost start = guess;
        assert(start == draws || !(bands.spec_band(start) is FarBelow));
        while guess > 0 && bands.band(guess) == Band::FarAbove
            invariant
                guess <= start <= draws,
                start == draws || !(bands.spec_band(start) is FarBelow),
                !(bands.spec_band(mode) is FarBelow) ==> start <= mode,
                guess < start ==> bands.spec_band((guess + 1) as u64) is FarAbove,
                walk_down(bands, guess, Band::FarAbove) == walk_down(bands, start, Band::FarAbove),
            decreases guess,
        {
            guess = guess - 1;
        }
    }
    guess
}

/// Which tail masses of a distribution add up to a two-sided p-value.
#[derive(Clone, Copy, Debug, PartialEq, Eq, Structural, Hash)]
pub enum TailMass {
    /// The p-value is one.
    Whole,
    /// `P(X <= lower)`.
    Lower { lower: u64 },
    /// `P(X >= upper)`.
    Upper { upper: u64 },
    /// `P(X <= lower) + P(X >= upper)`, accumulated in that order.
    LowerThenUpper { lower: u64, upper: u64 },
    /// `P(X >= upper) + P(X <= lower)`, accumulated in that order.
    UpperThenLower { upper: u64, lower: u64 },
}

/// The tails of `dist` that make up the two-sided p-value of an observed
/// count of successes.
///
/// `close_to_mode` says whether the observed probability and the probability
/// of the mode agree within the test's relative tolerance: then the table is
/// typical and the p-value is one. Otherwise the tail on the observed side
/// of the mode is taken from `observed` outwards, and the opposite tail from
/// the boundary that `binary_search` finds; that tail is empty exactly when the
/// far end of the support is clearly more likely than the table.
pub fn two_sided_tails<B: DensityBands>(
    dist: &Hypergeometric,
    observed: u64,
    close_to_mode: bool,
    bands: &B,
) -> (r: TailMass)
    requires
        dist.wf(),
        observed <= dist.draws,
    ensures
        close_to_mode ==> r == TailMass::Whole,
        !close_to_mode && observed < dist.spec_mode() ==> match r {
            TailMass::Lower { lower } => lower == observed && bands.spec_band(dist.draws)
                is FarAbove,
            TailMass::LowerThenUpper { lower, upper } => lower == observed && !(bands.spec_band(
                dist.draws,
            ) is FarAbove) && settled_upper(bands, dist.draws, upper) && (!(bands.spec_band(
                dist.spec_mode() as u64,
            ) is FarBelow) ==> dist.spec_mode() <= upper) && upper == search_result(
                bands,
                dist.draws,
                dist.spec_mode() as u64,
                true,
            ),
            _ => false,
        },
        !close_to_mode && observed >= dist.spec_mode() ==> match r {
            TailMass::Upper { upper } => upper == observed && bands.spec_band(0) is FarAbove,
            TailMass::UpperThenLower { upper, lower } => upper == observed && !(bands.spec_band(
                0,
            ) is FarAbove) && settled_lower(bands, dist.draws, lower) && (!(bands.spec_band(
                dist.spec_mode() as u64,
            ) is FarBelow) ==> lower <= dist.spec_mode()) && lower == search_result(
                bands,
                dist.draws,
                dist.spec_mode() as u64,
                false,
            ),
            _ => false,
        },
{
    if close_to_mode {
        return TailMass::Whole;
    }
    let n = dist.draws;
    let mode = dist.mode();
    if observed < mode {
        if bands.band(n) == Band::FarAbove {
            return TailMass::Lower { lower: observed };
        }
        let guess = binary_search(n, mode, true, bands);
        TailMass::LowerThenUpper { lower: observed, upper: guess }
    } else {
        if bands.band(0) == Band::FarAbove {
            return TailMass::Upper { upper: observed };
        }
        let guess = binary_search(n, mode, false, bands);
        TailMass::UpperThenLower { upper: observed, lower: guess }
    }
}

} // verus!
