use statrs::fisher::{
    binary_search, bisect, next_guess, Bisection, degenerate, fisher_setup, odds_ratio, two_sided_tails, Alternative, Band,
    DensityBands, FisherSetup, FishersExactTestError, OddsRatio, TailMass,
};
use statrs::hypergeometric::{Hypergeometric, HypergeometricError};

fn binom(n: u64, k: u64) -> u128 {
    if k > n {
        return 0;
    }
    let mut r: u128 = 1;
    for i in 0..k {
        r = r * (n - i) as u128 / (i + 1) as u128;
    }
    r
}

/// Exact bands for small tables: densities compared through the integer
/// numerators `C(successes, k) * C(population - successes, draws - k)`,
/// with the tolerance `1 - 1e-4`.
struct ExactBands {
    dist: Hypergeometric,
    observed: u128,
}

impl ExactBands {
    fn new(dist: Hypergeometric, observed: u64) -> ExactBands {
        let mut bands = ExactBands { dist, observed: 0 };
        bands.observed = bands.numerator(observed);
        bands
    }

    fn numerator(&self, k: u64) -> u128 {
        if k > self.dist.draws {
            return 0;
        }
        binom(self.dist.successes, k)
            * binom(self.dist.population - self.dist.successes, self.dist.draws - k)
    }

    fn close_to_mode(&self) -> bool {
        let m = self.numerator(self.dist.mode());
        let p = self.observed;
        let (hi, lo) = if m > p { (m, p) } else { (p, m) };
        (hi - lo) * 10000 <= hi
    }
}

impl DensityBands for ExactBands {
    fn band(&self, k: u64) -> Band {
        self.spec_band(k)
    }

    fn spec_band(&self, k: u64) -> Band {
        let x = self.numerator(k);
        let p = self.observed;
        if x * 9999 > p * 10000 {
            Band::FarAbove
        } else if x > p {
            Band::Above
        } else if x == p {
            Band::Equal
        } else if x * 10000 < p * 9999 {
            Band::FarBelow
        } else {
            Band::Below
        }
    }
}

fn tails_of(table: [u64; 4]) -> TailMass {
    match fisher_setup(&table, Alternative::TwoSided).unwrap() {
        FisherSetup::TwoSided { dist, observed } => {
            let bands = ExactBands::new(dist, observed);
            two_sided_tails(&dist, observed, bands.close_to_mode(), &bands)
        }
        other => panic!("unexpected setup {:?}", other),
    }
}

#[test]
fn test_fishers_exact_for_trivial() {
    let cases = [[0, 0, 1, 2], [1, 2, 0, 0], [1, 0, 2, 0], [0, 1, 0, 2]];
    for table in cases.iter() {
        assert_eq!(fisher_setup(table, Alternative::Less), Ok(FisherSetup::Certain));
    }
}

#[test]
fn degenerate_table_is_certain_under_every_alternative() {
    for alternative in [Alternative::Less, Alternative::Greater, Alternative::TwoSided] {
        assert_eq!(fisher_setup(&[0, 1, 0, 2], alternative), Ok(FisherSetup::Certain));
    }
    assert!(degenerate(&[0, 0, 0, 0]));
    assert!(!degenerate(&[1, 0, 0, 1]));
    assert_eq!(odds_ratio(&[0, 1, 0, 2]), OddsRatio::Undefined);
}

#[test]
fn test_fishers_exact_with_odds() {
    let table = [3, 5, 4, 50];
    match odds_ratio(&table) {
        OddsRatio::Ratio { numerator, denominator } => {
            assert_eq!((numerator, denominator), (150, 20));
            assert!((numerator as f64 / denominator as f64 - 7.5).abs() < f64::EPSILON);
        }
        other => panic!("unexpected odds ratio {:?}", other),
    }
}

#[test]
fn odds_ratio_is_infinite_with_a_zero_off_diagonal() {
    assert_eq!(odds_ratio(&[3, 0, 4, 50]), OddsRatio::Infinite);
    assert_eq!(odds_ratio(&[3, 5, 0, 50]), OddsRatio::Infinite);
    assert_eq!(
        odds_ratio(&[u64::MAX, 1, 1, u64::MAX]),
        OddsRatio::Ratio { numerator: (u64::MAX as u128) * (u64::MAX as u128), denominator: 1 }
    );
}

#[test]
fn setup_derives_margins() {
    let table = [3, 5, 4, 50];
    let less = Hypergeometric { population: 62, successes: 8, draws: 7 };
    let greater = Hypergeometric { population: 62, successes: 8, draws: 55 };
    assert_eq!(
        fisher_setup(&table, Alternative::Less),
        Ok(FisherSetup::OneSided { dist: less, k: 3 })
    );
    assert_eq!(
        fisher_setup(&table, Alternative::Greater),
        Ok(FisherSetup::OneSided { dist: greater, k: 5 })
    );
    assert_eq!(
        fisher_setup(&table, Alternative::TwoSided),
        Ok(FisherSetup::TwoSided { dist: less, observed: 3 })
    );
}

#[test]
fn hypergeometric_parameters_are_checked() {
    assert_eq!(Hypergeometric::new(5, 6, 1), Err(HypergeometricError::TooManySuccesses));
    assert_eq!(Hypergeometric::new(5, 2, 6), Err(HypergeometricError::TooManyDraws));
    assert_eq!(
        Hypergeometric::new(5, 2, 5),
        Ok(Hypergeometric { population: 5, successes: 2, draws: 5 })
    );
    assert_eq!(
        FishersExactTestError::from(HypergeometricError::TooManyDraws),
        FishersExactTestError::TableInvalidForHypergeometric(HypergeometricError::TooManyDraws)
    );
}

#[test]
fn hypergeometric_mode() {
    assert_eq!(Hypergeometric::new(62, 8, 7).unwrap().mode(), 1);
    assert_eq!(Hypergeometric::new(113, 31, 53).unwrap().mode(), 15);
    assert_eq!(Hypergeometric::new(10, 0, 10).unwrap().mode(), 0);
    assert_eq!(Hypergeometric::new(u64::MAX, u64::MAX, u64::MAX).unwrap().mode(), u64::MAX);
    assert_eq!(Hypergeometric::new(u64::MAX, u64::MAX - 1, u64::MAX).unwrap().mode(), u64::MAX - 1);
}

#[test]
fn two_sided_typical_table_is_whole() {
    assert_eq!(tails_of([1, 1, 1, 1]), TailMass::Whole);
}

#[test]
fn two_sided_upper_tail_alone() {
    assert_eq!(tails_of([3, 5, 4, 50]), TailMass::Upper { upper: 3 });
}

#[test]
fn two_sided_lower_then_upper() {
    assert_eq!(tails_of([9, 22, 44, 38]), TailMass::LowerThenUpper { lower: 9, upper: 21 });
    assert_eq!(tails_of([2, 8, 9, 3]), TailMass::LowerThenUpper { lower: 2, upper: 8 });
}

#[test]
fn two_sided_upper_then_lower() {
    assert_eq!(tails_of([20, 10, 5, 25]), TailMass::UpperThenLower { upper: 20, lower: 5 });
    assert_eq!(tails_of([12, 5, 3, 15]), TailMass::UpperThenLower { upper: 12, lower: 2 });
    assert_eq!(tails_of([10, 2, 3, 15]), TailMass::UpperThenLower { upper: 10, lower: 0 });
}

struct Fixed(Band);

impl DensityBands for Fixed {
    fn band(&self, k: u64) -> Band {
        self.spec_band(k)
    }

    fn spec_band(&self, _k: u64) -> Band {
        self.0
    }
}

#[test]
fn binary_search_stays_in_support() {
    for band in [Band::FarBelow, Band::Below, Band::Equal, Band::Above, Band::FarAbove, Band::Unordered] {
        for upper in [false, true] {
            let r = binary_search(40, 12, upper, &Fixed(band));
            assert!(r <= 40);
        }
    }
    assert_eq!(binary_search(40, 12, true, &Fixed(Band::FarAbove)), 40);
    assert_eq!(binary_search(40, 12, false, &Fixed(Band::FarAbove)), 0);
    assert_eq!(binary_search(40, 12, true, &Fixed(Band::FarBelow)), 0);
    assert_eq!(binary_search(40, 12, false, &Fixed(Band::FarBelow)), 40);
}

#[test]
fn bisection_steps() {
    assert_eq!(next_guess(0, 10, 0), 5);
    assert_eq!(next_guess(3, 4, 3), 4);
    assert_eq!(next_guess(3, 4, 0), 3);
    assert_eq!(next_guess(u64::MAX - 2, u64::MAX, 0), u64::MAX - 1);
    assert_eq!(bisect(0, 10, 5, Band::Equal, Band::Above), Bisection::Found);
    assert_eq!(bisect(0, 10, 5, Band::FarBelow, Band::FarAbove), Bisection::Found);
    assert_eq!(
        bisect(0, 10, 5, Band::Below, Band::Below),
        Bisection::Narrowed { min_val: 0, max_val: 5 }
    );
    assert_eq!(
        bisect(0, 10, 5, Band::Equal, Band::Equal),
        Bisection::Narrowed { min_val: 5, max_val: 10 }
    );
    assert_eq!(
        bisect(0, 10, 5, Band::Above, Band::FarAbove),
        Bisection::Narrowed { min_val: 5, max_val: 10 }
    );
    assert_eq!(
        bisect(0, 10, 5, Band::Unordered, Band::Above),
        Bisection::Narrowed { min_val: 5, max_val: 10 }
    );
}

#[test]
fn hypergeometric_support() {
    let d = Hypergeometric::new(62, 8, 7).unwrap();
    assert_eq!((d.support_min(), d.support_max()), (0, 7));
    let d = Hypergeometric::new(10, 8, 7).unwrap();
    assert_eq!((d.support_min(), d.support_max()), (5, 7));
    let d = Hypergeometric::new(u64::MAX, u64::MAX, u64::MAX).unwrap();
    assert_eq!((d.support_min(), d.support_max()), (u64::MAX, u64::MAX));
}

#[test]
fn degenerate_table_with_huge_entries_is_certain() {
    for alternative in [Alternative::Less, Alternative::Greater, Alternative::TwoSided] {
        assert_eq!(fisher_setup(&[0, 0, u64::MAX, 1], alternative), Ok(FisherSetup::Certain));
        assert_eq!(fisher_setup(&[u64::MAX, 0, u64::MAX, 0], alternative), Ok(FisherSetup::Certain));
    }
}

#[test]
fn two_sided_lower_tail_alone() {
    assert_eq!(tails_of([0, 2, 1, 0]), TailMass::Lower { lower: 0 });
}

fn settled_upper(bands: &ExactBands, draws: u64, r: u64) -> bool {
    r <= draws
        && (r == draws || bands.band(r) != Band::FarAbove)
        && (r == 0 || bands.band(r) != Band::FarBelow || bands.band(r - 1) == Band::FarAbove)
}

fn settled_lower(bands: &ExactBands, draws: u64, r: u64) -> bool {
    r <= draws
        && (r == 0 || bands.band(r) != Band::FarAbove)
        && (r == draws || bands.band(r) != Band::FarBelow || bands.band(r + 1) == Band::FarAbove)
}

#[test]
fn binary_search_settles_at_the_crossing() {
    for table in [[9, 22, 44, 38], [2, 8, 9, 3], [20, 10, 5, 25], [12, 5, 3, 15], [10, 2, 3, 15]] {
        let (dist, observed) = match fisher_setup(&table, Alternative::TwoSided).unwrap() {
            FisherSetup::TwoSided { dist, observed } => (dist, observed),
            other => panic!("unexpected setup {:?}", other),
        };
        let bands = ExactBands::new(dist, observed);
        let mode = dist.mode();
        let up = binary_search(dist.draws, mode, true, &bands);
        let down = binary_search(dist.draws, mode, false, &bands);
        assert!(settled_upper(&bands, dist.draws, up), "{:?} upper {}", table, up);
        assert!(settled_lower(&bands, dist.draws, down), "{:?} lower {}", table, down);
        assert!(mode <= up && down <= mode, "{:?} mode {} search {} {}", table, mode, up, down);
    }
}
