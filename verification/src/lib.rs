//! A verified material-scoring minimax engine with alpha-beta pruning and a
//! transposition cache, built over the `chess` crate's rules engine.
//!
//! - `adapter` is the trusted boundary: the rules engine's operations, each
//!   named by an uninterpreted spec function and wrapped with a contract.
//! - `bits` counts bitboard populations, fully verified.
//! - `eval` is the static material evaluator, proved side-symmetric.
//! - `cache` memoizes material scores by position hash, proved transparent.
//! - `search` holds the reference minimax semantics `spec_minmax`, the
//!   unpruned searcher, and the alpha-beta searcher with its fail-soft bound
//!   contract, proved to return the unpruned value over the full window.

use vstd::prelude::*;

pub mod adapter;
pub mod bits;
pub mod cache;
pub mod eval;
pub mod search;

verus! {

/// The larger of two mathematical integers.
pub open spec fn spec_max(a: int, b: int) -> int {
    if a >= b {
        a
    } else {
        b
    }
}

/// The smaller of two mathematical integers.
pub open spec fn spec_min(a: int, b: int) -> int {
    if a <= b {
        a
    } else {
        b
    }
}

} // verus!
