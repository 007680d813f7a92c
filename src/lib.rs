//! Exact combinatorics and Fisher's exact test on 2x2 contingency tables.
//!
//! The library holds the integer side of these computations: the table of
//! factorials, the checks that decide when a coefficient exists, the
//! parameters of the hypergeometric distribution that a table induces, and
//! the search for the boundary of the two-sided test. Floating-point
//! evaluation of densities is supplied by the caller.
pub mod double;
pub mod factorial;
pub mod hypergeometric;
pub mod fisher;
